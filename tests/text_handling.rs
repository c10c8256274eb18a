use poly_cls::agents::{parse_response, remove_block};
use poly_cls::schemas::{GeneralSchema, SegmentT, TypeT};

fn strip(s: &str, tag: &str) -> String {
    remove_block(&s.to_string(), tag.to_string())
}

#[test]
fn remove_block_without_opening_is_identity() {
    assert_eq!(strip("plain answer Xps", "think"), "plain answer Xps");
    assert_eq!(strip("", "think"), "");
    assert_eq!(strip("</think>Xps", "think"), "</think>Xps");
}

#[test]
fn remove_block_without_closing_is_identity() {
    assert_eq!(strip("<think>still reasoning", "think"), "<think>still reasoning");
    assert_eq!(strip("a<think>b", "think"), "a<think>b");
}

#[test]
fn remove_block_with_closing_only_before_opening_is_identity() {
    assert_eq!(strip("</think>a<think>b", "think"), "</think>a<think>b");
}

#[test]
fn remove_block_strips_matched_span() {
    assert_eq!(strip("<think>reasoning</think>Xps", "think"), "Xps");
    assert_eq!(strip("before<think>x</think>after", "think"), "beforeafter");
    assert_eq!(strip("<think></think>", "think"), "");
}

#[test]
fn remove_block_strips_only_first_pair() {
    assert_eq!(strip("<think>a</think>b<think>c</think>d", "think"), "b<think>c</think>d");
    assert_eq!(strip("<think>a<think>b</think>c</think>", "think"), "c</think>");
}

#[test]
fn remove_block_other_tag() {
    assert_eq!(strip("x<meta>y</meta>z", "meta"), "xz");
    assert_eq!(strip("x<think>y</think>z", "meta"), "x<think>y</think>z");
}

#[test]
fn remove_block_keeps_non_ascii_text() {
    assert_eq!(strip("пено<think>мысль</think>полистирол", "think"), "пенополистирол");
}

#[test]
fn parser_reads_labels_in_any_case() {
    let cases = [
        ("xps", TypeT::Xps),
        ("XPS", TypeT::Xps),
        ("Xps", TypeT::Xps),
        ("eps", TypeT::Eps),
        ("PSON", TypeT::Pson),
        ("psv", TypeT::Psv),
        ("Pir", TypeT::Pir),
        ("GlassWool", TypeT::GlassWool),
        ("glass wool", TypeT::GlassWool),
        ("STONEWOOL", TypeT::StoneWool),
        ("Stone Wool", TypeT::StoneWool),
        ("other", TypeT::Other),
        ("NoNeed", TypeT::NoNeed),
        ("noeval", TypeT::NoEval),
    ];
    for (text, want) in cases {
        assert_eq!(TypeT::from_str(&text.to_string()), want, "{}", text);
    }
}

#[test]
fn parser_unknown_text_is_unresolved() {
    for text in ["", "   ", " xps", "xps.", "polystyrene", "I am not sure", "материал"] {
        assert_eq!(TypeT::from_str(&text.to_string()), TypeT::NoEval, "{:?}", text);
    }
}

#[test]
fn stored_names_read_back() {
    let all = [
        TypeT::Xps,
        TypeT::Eps,
        TypeT::Pson,
        TypeT::Psv,
        TypeT::Pir,
        TypeT::GlassWool,
        TypeT::StoneWool,
        TypeT::Other,
        TypeT::NoEval,
        TypeT::NoNeed,
    ];
    for t in all {
        assert_eq!(TypeT::from_str(&t.name().to_string()), t);
    }
    assert_eq!(TypeT::GlassWool.name(), "GlassWool");
    assert_eq!(TypeT::NoEval.name(), "NoEval");
}

#[test]
fn from_lowercase_needs_lower_case() {
    assert_eq!(TypeT::from_lowercase("xps"), TypeT::Xps);
    assert_eq!(TypeT::from_lowercase("XPS"), TypeT::NoEval);
}

#[test]
fn response_with_reasoning_block_is_parsed() {
    let raw = "<think>reasoning</think>Xps".to_string();
    assert_eq!(remove_block(&raw, "think".to_string()), "Xps");
    assert_eq!(parse_response(&raw), TypeT::Xps);
}

#[test]
fn response_without_label_is_unresolved() {
    assert_eq!(parse_response(&"I am not sure".to_string()), TypeT::NoEval);
    assert_eq!(parse_response(&"<think>hmm".to_string()), TypeT::NoEval);
}

#[test]
fn validate_and_convert_eval_cases() {
    let v = |s: &str| GeneralSchema::validate_and_convert_eval(Some(s.to_string()));
    assert_eq!(v("xps"), Some("Xps".to_string()));
    assert_eq!(v("GLASS WOOL"), Some("GlassWool".to_string()));
    assert_eq!(v("stone wool"), Some("StoneWool".to_string()));
    assert_eq!(v("Other"), Some("Other".to_string()));
    assert_eq!(v("NoEval"), Some("NoEval".to_string()));
    assert_eq!(v("something"), Some("NoEval".to_string()));
    assert_eq!(v(""), Some("NoEval".to_string()));
    assert_eq!(GeneralSchema::validate_and_convert_eval(None), Some("NoEval".to_string()));
}

#[test]
fn segment_names() {
    assert_eq!(SegmentT::from_name("Kz"), Some(SegmentT::Kz));
    assert_eq!(SegmentT::from_name("Rus"), Some(SegmentT::Rus));
    assert_eq!(SegmentT::from_name("Eas"), Some(SegmentT::Eas));
    assert_eq!(SegmentT::from_name("eas"), None);
    assert_eq!(SegmentT::from_name(""), None);
    assert_eq!(SegmentT::Rus.name(), "Rus");
}
