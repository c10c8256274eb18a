use crate::schemas::{category_for_label, lower_of, TypeT};
use crate::text::{absent_from, chars_of, find_from, first_from};
use vstd::prelude::*;

verus! {

/// The opening delimiter of a block named `tag`: `<tag>`.
pub open spec fn open_tag(tag: Seq<char>) -> Seq<char> {
    "<"@ + tag + ">"@
}

/// The closing delimiter of a block named `tag`: `</tag>`.
pub open spec fn close_tag(tag: Seq<char>) -> Seq<char> {
    "</"@ + tag + ">"@
}

/// `s` with its first `<tag>...</tag>` block taken out, delimiters included.
/// The block ends at the first closing delimiter after the opening one; where
/// either delimiter is missing, `s` is left as it is.
pub open spec fn strip_block(s: Seq<char>, tag: Seq<char>) -> Seq<char> {
    let open = open_tag(tag);
    let close = close_tag(tag);
    if exists|i: int| #[trigger] first_from(s, open, 0, i) {
        let i = choose|i: int| #[trigger] first_from(s, open, 0, i);
        if exists|k: int| #[trigger] first_from(s, close, i + open.len(), k) {
            let k = choose|k: int| #[trigger] first_from(s, close, i + open.len(), k);
            s.subrange(0, i) + s.subrange(k + close.len(), s.len() as int)
        } else {
            s
        }
    } else {
        s
    }
}

/// The category that a raw model answer stands for: its reasoning block is
/// taken out, and what is left is read as a label, whatever its case.
pub open spec fn response_category(raw: Seq<char>) -> TypeT {
    category_for_label(lower_of(strip_block(raw, "think"@)))
}

proof fn lemma_first_unique(s: Seq<char>, p: Seq<char>, from: int, i: int, j: int)
    requires
        first_from(s, p, from, i),
        first_from(s, p, from, j),
    ensures
        i == j,
{
    if i < j {
        assert(!crate::text::occurs_at(s, p, i));
    } else if j < i {
        assert(!crate::text::occurs_at(s, p, j));
    }
}

/// Removes the first `<a_block>...</a_block>` span from `a_in`, delimiters
/// included, and joins what stood before and after it.
pub fn remove_block(a_in: &String, a_block: String) -> (r: String)
    ensures
        r@ == strip_block(a_in@, a_block@),
        absent_from(a_in@, open_tag(a_block@), 0) ==> r@ == a_in@,
        forall|i: int|
            first_from(a_in@, open_tag(a_block@), 0, i) && absent_from(
                a_in@,
                close_tag(a_block@),
                i + open_tag(a_block@).len(),
            ) ==> r@ == a_in@,
        forall|i: int, k: int|
            #[trigger] first_from(a_in@, open_tag(a_block@), 0, i) && #[trigger] first_from(
                a_in@,
                close_tag(a_block@),
                i + open_tag(a_block@).len(),
                k,
            ) ==> r@ == a_in@.subrange(0, i) + a_in@.subrange(
                k + close_tag(a_block@).len(),
                a_in@.len() as int,
            ),
{
    let ghost s = a_in@;
    let ghost open = open_tag(a_block@);
    let ghost close = close_tag(a_block@);
    let mut open_text = String::from_str("<");
    open_text.append(a_block.as_str());
    open_text.append(">");
    let mut close_text = String::from_str("</");
    close_text.append(a_block.as_str());
    close_text.append(">");
    assert(open_text@ == open);
    assert(close_text@ == close);

    let text = chars_of(a_in.as_str());
    let open_chars = chars_of(open_text.as_str());
    let close_chars = chars_of(close_text.as_str());
    let n = text.len();
    match find_from(&text, &open_chars, 0) {
        None => {
            assert(!exists|i: int| first_from(s, open, 0, i));
            a_in.clone()
        },
        Some(i) => {
            assert(first_from(s, open, 0, i as int));
            proof {
                let c = choose|j: int| first_from(s, open, 0, j);
                lemma_first_unique(s, open, 0, i as int, c);
            }
            let after = i + open_chars.len();
            match find_from(&text, &close_chars, after) {
                None => {
                    assert(!exists|k: int| first_from(s, close, after as int, k));
                    a_in.clone()
                },
                Some(k) => {
                    proof {
                        let c = choose|j: int| first_from(s, close, after as int, j);
                        lemma_first_unique(s, close, after as int, k as int, c);
                    }
                    let end = k + close_chars.len();
                    let mut out = String::from_str(a_in.as_str().substring_char(0, i));
                    out.append(a_in.as_str().substring_char(end, n));
                    proof {
                        assert forall|i2: int, k2: int|
                            #[trigger] first_from(s, open, 0, i2) && #[trigger] first_from(
                                s,
                                close,
                                i2 + open.len(),
                                k2,
                            ) implies out@ == s.subrange(0, i2) + s.subrange(
                                k2 + close.len(),
                                s.len() as int,
                            ) by {
                            lemma_first_unique(s, open, 0, i as int, i2);
                            lemma_first_unique(s, close, after as int, k as int, k2);
                        }
                        assert forall|i2: int|
                            first_from(s, open, 0, i2) && absent_from(
                                s,
                                close,
                                i2 + open.len(),
                            ) implies out@ == s by {
                            lemma_first_unique(s, open, 0, i as int, i2);
                            assert(crate::text::occurs_at(s, close, k as int));
                        }
                    }
                    out
                },
            }
        },
    }
}

/// Reads a raw model answer as a category: the `think` block is taken out
/// and the rest is parsed as a label.
pub fn parse_response(raw: &String) -> (r: TypeT)
    ensures
        r == response_category(raw@),
{
    let c = remove_block(raw, String::from_str("think"));
    TypeT::from_str(&c)
}

} // verus!
