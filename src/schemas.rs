use crate::text::same_text;
use vstd::prelude::*;

verus! {

/// The closed taxonomy of material categories. `NoEval` marks a record that
/// has not been classified, or whose answer could not be read.
#[derive(Clone, Copy, Debug, PartialEq, Eq, Structural)]
pub enum TypeT {
    Xps,
    Eps,
    Pson,
    Psv,
    Pir,
    GlassWool,
    StoneWool,
    Other,
    NoEval,
    NoNeed,
}

/// The lower-case text of `s`, as `str::to_lowercase` gives it.
pub uninterp spec fn lower_of(s: Seq<char>) -> Seq<char>;

/// Relies on `str::to_lowercase`: the lower-case form of a text depends on
/// its characters alone, and an empty text stays empty.
#[verifier::external_body]
fn lowercase(s: &str) -> (r: String)
    ensures
        r@ == lower_of(s@),
        s@.len() == 0 ==> r@.len() == 0,
{
    s.to_lowercase()
}

/// The category that a lower-case label names. Two-word spellings of the
/// wool categories are accepted beside the joined ones; anything else is
/// `NoEval`.
pub open spec fn category_for_label(l: Seq<char>) -> TypeT {
    if l == "xps"@ {
        TypeT::Xps
    } else if l == "eps"@ {
        TypeT::Eps
    } else if l == "pson"@ {
        TypeT::Pson
    } else if l == "psv"@ {
        TypeT::Psv
    } else if l == "pir"@ {
        TypeT::Pir
    } else if l == "glasswool"@ || l == "glass wool"@ {
        TypeT::GlassWool
    } else if l == "stonewool"@ || l == "stone wool"@ {
        TypeT::StoneWool
    } else if l == "other"@ {
        TypeT::Other
    } else if l == "noneed"@ {
        TypeT::NoNeed
    } else {
        TypeT::NoEval
    }
}

/// The lower-case label of each category.
pub open spec fn label_of(t: TypeT) -> Seq<char> {
    match t {
        TypeT::Xps => "xps"@,
        TypeT::Eps => "eps"@,
        TypeT::Pson => "pson"@,
        TypeT::Psv => "psv"@,
        TypeT::Pir => "pir"@,
        TypeT::GlassWool => "glasswool"@,
        TypeT::StoneWool => "stonewool"@,
        TypeT::Other => "other"@,
        TypeT::NoEval => "noeval"@,
        TypeT::NoNeed => "noneed"@,
    }
}

/// The name under which a category is stored.
pub open spec fn name_of(t: TypeT) -> Seq<char> {
    match t {
        TypeT::Xps => "Xps"@,
        TypeT::Eps => "Eps"@,
        TypeT::Pson => "Pson"@,
        TypeT::Psv => "Psv"@,
        TypeT::Pir => "Pir"@,
        TypeT::GlassWool => "GlassWool"@,
        TypeT::StoneWool => "StoneWool"@,
        TypeT::Other => "Other"@,
        TypeT::NoEval => "NoEval"@,
        TypeT::NoNeed => "NoNeed"@,
    }
}

/// Length and leading characters of each label, enough to tell any two apart.
proof fn lemma_label_texts()
    ensures
        "xps"@.len() == 3,
        "xps"@[0] == 'x',
        "eps"@.len() == 3,
        "eps"@[0] == 'e',
        "pson"@.len() == 4,
        "pson"@[0] == 'p',
        "psv"@.len() == 3,
        "psv"@[0] == 'p',
        "psv"@[1] == 's',
        "pir"@.len() == 3,
        "pir"@[0] == 'p',
        "pir"@[1] == 'i',
        "glasswool"@.len() == 9,
        "glasswool"@[0] == 'g',
        "glass wool"@.len() == 10,
        "glass wool"@[0] == 'g',
        "stonewool"@.len() == 9,
        "stonewool"@[0] == 's',
        "stone wool"@.len() == 10,
        "stone wool"@[0] == 's',
        "other"@.len() == 5,
        "other"@[0] == 'o',
        "noeval"@.len() == 6,
        "noeval"@[0] == 'n',
        "noeval"@[2] == 'e',
        "noneed"@.len() == 6,
        "noneed"@[0] == 'n',
        "noneed"@[2] == 'n',
{
    reveal_strlit("xps");
    reveal_strlit("eps");
    reveal_strlit("pson");
    reveal_strlit("psv");
    reveal_strlit("pir");
    reveal_strlit("glasswool");
    reveal_strlit("glass wool");
    reveal_strlit("stonewool");
    reveal_strlit("stone wool");
    reveal_strlit("other");
    reveal_strlit("noeval");
    reveal_strlit("noneed");
}

/// Every category's lower-case label reads back as that category, and the
/// empty text, like any text outside the labels, reads as `NoEval`.
pub proof fn lemma_labels_read_back(t: TypeT)
    ensures
        category_for_label(label_of(t)) == t,
        category_for_label(Seq::empty()) == TypeT::NoEval,
{
    lemma_label_texts();
}

impl TypeT {
    /// The category named by a label that is already in lower case.
    pub fn from_lowercase(l: &str) -> (r: TypeT)
        ensures
            r == category_for_label(l@),
    {
        if same_text(l, "xps") {
            TypeT::Xps
        } else if same_text(l, "eps") {
            TypeT::Eps
        } else if same_text(l, "pson") {
            TypeT::Pson
        } else if same_text(l, "psv") {
            TypeT::Psv
        } else if same_text(l, "pir") {
            TypeT::Pir
        } else if same_text(l, "glasswool") || same_text(l, "glass wool") {
            TypeT::GlassWool
        } else if same_text(l, "stonewool") || same_text(l, "stone wool") {
            TypeT::StoneWool
        } else if same_text(l, "other") {
            TypeT::Other
        } else if same_text(l, "noneed") {
            TypeT::NoNeed
        } else {
            TypeT::NoEval
        }
    }

    /// Reads a label in any case; what matches no label is `NoEval`.
    pub fn from_str(a_str: &String) -> (r: TypeT)
        ensures
            r == category_for_label(lower_of(a_str@)),
    {
        let l = lowercase(a_str.as_str());
        TypeT::from_lowercase(l.as_str())
    }

    /// The name under which the category is stored.
    pub fn name(&self) -> (r: &'static str)
        ensures
            r@ == name_of(*self),
    {
        match self {
            TypeT::Xps => "Xps",
            TypeT::Eps => "Eps",
            TypeT::Pson => "Pson",
            TypeT::Psv => "Psv",
            TypeT::Pir => "Pir",
            TypeT::GlassWool => "GlassWool",
            TypeT::StoneWool => "StoneWool",
            TypeT::Other => "Other",
            TypeT::NoEval => "NoEval",
            TypeT::NoNeed => "NoNeed",
        }
    }
}

/// The customs segment a record comes from.
#[derive(Clone, Copy, Debug, PartialEq, Eq, Structural)]
pub enum SegmentT {
    Kz,
    Rus,
    Eas,
}

/// The name under which a segment is stored.
pub open spec fn segment_name(s: SegmentT) -> Seq<char> {
    match s {
        SegmentT::Kz => "Kz"@,
        SegmentT::Rus => "Rus"@,
        SegmentT::Eas => "Eas"@,
    }
}

impl SegmentT {
    /// The segment whose name is exactly `s`, if there is one.
    pub fn from_name(s: &str) -> (r: Option<SegmentT>)
        ensures
            r matches Some(g) ==> segment_name(g) == s@,
            r is None ==> (forall|g: SegmentT| segment_name(g) != s@),
    {
        if same_text(s, "Kz") {
            Some(SegmentT::Kz)
        } else if same_text(s, "Rus") {
            Some(SegmentT::Rus)
        } else if same_text(s, "Eas") {
            Some(SegmentT::Eas)
        } else {
            proof {
                assert forall|g: SegmentT| segment_name(g) != s@ by {
                    match g {
                        SegmentT::Kz => {},
                        SegmentT::Rus => {},
                        SegmentT::Eas => {},
                    }
                }
            }
            None
        }
    }

    /// The name under which the segment is stored.
    pub fn name(&self) -> (r: &'static str)
        ensures
            r@ == segment_name(*self),
    {
        match self {
            SegmentT::Kz => "Kz",
            SegmentT::Rus => "Rus",
            SegmentT::Eas => "Eas",
        }
    }
}

/// One customs declaration line in the common layout that every segment is
/// mapped to.
#[derive(Clone, Debug)]
pub struct GeneralSchema {
    pub id: Option<String>,
    pub seg: SegmentT,
    pub declaration_number: Option<String>,
    pub regime: Option<String>,
    pub sheet_number: Option<String>,
    pub position: Option<String>,
    pub effective_date: Option<String>,
    pub fill_date: Option<String>,
    pub batch: Option<String>,
    pub sender_inn: Option<String>,
    pub sender_kpp: Option<String>,
    pub sender_category: Option<String>,
    pub sender_region: Option<String>,
    pub sender_name: Option<String>,
    pub sender_address: Option<String>,
    pub receiver_inn: Option<String>,
    pub receiver_kpp: Option<String>,
    pub receiver_category: Option<String>,
    pub receiver_region: Option<String>,
    pub receiver_name: Option<String>,
    pub receiver_address: Option<String>,
    pub contractor_inn: Option<String>,
    pub contractor_kpp: Option<String>,
    pub contractor_category: Option<String>,
    pub contractor_region: Option<String>,
    pub contractor_name: Option<String>,
    pub contractor_address: Option<String>,
    pub regime_code: Option<String>,
    pub customs_regime: Option<String>,
    pub border_customs_code: Option<String>,
    pub border_customs_name: Option<String>,
    pub border_customs_city: Option<String>,
    pub border_customs_address: Option<String>,
    pub internal_customs_code: Option<String>,
    pub internal_customs_name: Option<String>,
    pub internal_customs_address: Option<String>,
    pub delivery_terms_code: Option<String>,
    pub delivery_terms_alpha_code: Option<String>,
    pub delivery_terms: Option<String>,
    pub payment_form_code: Option<String>,
    pub payment_form: Option<String>,
    pub stat_accounting_sign_code: Option<String>,
    pub stat_accounting_sign: Option<String>,
    pub origin_country_code: Option<String>,
    pub origin_country: Option<String>,
    pub destination_country_code: Option<String>,
    pub destination_country: Option<String>,
    pub trade_country_code: Option<String>,
    pub trade_country: Option<String>,
    pub origin_country_code_2: Option<String>,
    pub origin_country_2: Option<String>,
    pub tnved_code: Option<String>,
    pub tnved_description: Option<String>,
    pub transport_border_code: Option<String>,
    pub transport_border: Option<String>,
    pub transport_internal_code: Option<String>,
    pub transport_internal: Option<String>,
    pub additional_unit_code_1: Option<String>,
    pub additional_unit_1: Option<String>,
    pub additional_unit_code_2: Option<String>,
    pub additional_unit_2: Option<String>,
    pub cost_usd: Option<String>,
    pub product_description_1: Option<String>,
    pub product_description_2: Option<String>,
    pub manufacturer: Option<String>,
    pub brand: Option<String>,
    pub brand_more: Option<String>,
    pub net_weight: Option<String>,
    pub gross_weight: Option<String>,
    pub quantity_physical: Option<String>,
    pub quantity_additional: Option<String>,
    pub cargo_type: Option<String>,
    pub number_of_packages: Option<String>,
    pub delivery_point: Option<String>,
    pub container_sign: Option<String>,
    pub preferences: Option<String>,
    pub customs_value: Option<String>,
    pub invoice_value: Option<String>,
    pub stat_value: Option<String>,
    pub stat_value_usd: Option<String>,
    pub total_invoice_value: Option<String>,
    pub customs_correct_sign: Option<String>,
    pub customs_correct_desc: Option<String>,
    pub currency_code: Option<String>,
    pub currency_description: Option<String>,
    pub exchange_rate: Option<String>,
    pub gtd_registration_place: Option<String>,
    pub gtd_registration_date: Option<String>,
    pub loading_place: Option<String>,
    pub processing_code: Option<String>,
    pub processing_description: Option<String>,
    pub declaration_type: Option<String>,
    pub price_per_kg: Option<String>,
    pub price_per_unit: Option<String>,
    pub price_per_additional_unit: Option<String>,
    pub info_type: Option<String>,
    pub decision_code_ts: Option<String>,
    pub recall_decision_code: Option<String>,
    pub customs_value_ts: Option<String>,
    pub previous_customs_value: Option<String>,
    pub total_customs_payments: Option<String>,
    pub customs_region: Option<String>,
    pub customs_procedure: Option<String>,
    pub additional_bdecl1: Option<String>,
    pub customs_op: Option<String>,
    pub incoterm: Option<String>,
    pub category: Option<String>,
    pub eval: Option<String>,
    pub eval_sec: Option<String>,
}

/// What a stored evaluation text becomes: the stored name of the category it
/// reads as, and `NoEval` where there is none.
pub open spec fn validated_eval(raw: Option<Seq<char>>) -> Seq<char> {
    match raw {
        Some(s) => name_of(category_for_label(lower_of(s))),
        None => name_of(TypeT::NoEval),
    }
}

impl GeneralSchema {
    /// A record of segment `seg` with every field empty.
    pub fn blank(seg: SegmentT) -> (r: GeneralSchema)
        ensures
            r.seg == seg,
            r.id is None,
            r.declaration_number is None,
            r.regime is None,
            r.sheet_number is None,
            r.position is None,
            r.effective_date is None,
            r.fill_date is None,
            r.batch is None,
            r.sender_inn is None,
            r.sender_kpp is None,
            r.sender_category is None,
            r.sender_region is None,
            r.sender_name is None,
            r.sender_address is None,
            r.receiver_inn is None,
            r.receiver_kpp is None,
            r.receiver_category is None,
            r.receiver_region is None,
            r.receiver_name is None,
            r.receiver_address is None,
            r.contractor_inn is None,
            r.contractor_kpp is None,
            r.contractor_category is None,
            r.contractor_region is None,
            r.contractor_name is None,
            r.contractor_address is None,
            r.regime_code is None,
            r.customs_regime is None,
            r.border_customs_code is None,
            r.border_customs_name is None,
            r.border_customs_city is None,
            r.border_customs_address is None,
            r.internal_customs_code is None,
            r.internal_customs_name is None,
            r.internal_customs_address is None,
            r.delivery_terms_code is None,
            r.delivery_terms_alpha_code is None,
            r.delivery_terms is None,
            r.payment_form_code is None,
            r.payment_form is None,
            r.stat_accounting_sign_code is None,
            r.stat_accounting_sign is None,
            r.origin_country_code is None,
            r.origin_country is None,
            r.destination_country_code is None,
            r.destination_country is None,
            r.trade_country_code is None,
            r.trade_country is None,
            r.origin_country_code_2 is None,
            r.origin_country_2 is None,
            r.tnved_code is None,
            r.tnved_description is None,
            r.transport_border_code is None,
            r.transport_border is None,
            r.transport_internal_code is None,
            r.transport_internal is None,
            r.additional_unit_code_1 is None,
            r.additional_unit_1 is None,
            r.additional_unit_code_2 is None,
            r.additional_unit_2 is None,
            r.cost_usd is None,
            r.product_description_1 is None,
            r.product_description_2 is None,
            r.manufacturer is None,
            r.brand is None,
            r.brand_more is None,
            r.net_weight is None,
            r.gross_weight is None,
            r.quantity_physical is None,
            r.quantity_additional is None,
            r.cargo_type is None,
            r.number_of_packages is None,
            r.delivery_point is None,
            r.container_sign is None,
            r.preferences is None,
            r.customs_value is None,
            r.invoice_value is None,
            r.stat_value is None,
            r.stat_value_usd is None,
            r.total_invoice_value is None,
            r.customs_correct_sign is None,
            r.customs_correct_desc is None,
            r.currency_code is None,
            r.currency_description is None,
            r.exchange_rate is None,
            r.gtd_registration_place is None,
            r.gtd_registration_date is None,
            r.loading_place is None,
            r.processing_code is None,
            r.processing_description is None,
            r.declaration_type is None,
            r.price_per_kg is None,
            r.price_per_unit is None,
            r.price_per_additional_unit is None,
            r.info_type is None,
            r.decision_code_ts is None,
            r.recall_decision_code is None,
            r.customs_value_ts is None,
            r.previous_customs_value is None,
            r.total_customs_payments is None,
            r.customs_region is None,
            r.customs_procedure is None,
            r.additional_bdecl1 is None,
            r.customs_op is None,
            r.incoterm is None,
            r.category is None,
            r.eval is None,
            r.eval_sec is None,
    {
        GeneralSchema {
            seg,
            id: None,
            declaration_number: None,
            regime: None,
            sheet_number: None,
            position: None,
            effective_date: None,
            fill_date: None,
            batch: None,
            sender_inn: None,
            sender_kpp: None,
            sender_category: None,
            sender_region: None,
            sender_name: None,
            sender_address: None,
            receiver_inn: None,
            receiver_kpp: None,
            receiver_category: None,
            receiver_region: None,
            receiver_name: None,
            receiver_address: None,
            contractor_inn: None,
            contractor_kpp: None,
            contractor_category: None,
            contractor_region: None,
            contractor_name: None,
            contractor_address: None,
            regime_code: None,
            customs_regime: None,
            border_customs_code: None,
            border_customs_name: None,
            border_customs_city: None,
            border_customs_address: None,
            internal_customs_code: None,
            internal_customs_name: None,
            internal_customs_address: None,
            delivery_terms_code: None,
            delivery_terms_alpha_code: None,
            delivery_terms: None,
            payment_form_code: None,
            payment_form: None,
            stat_accounting_sign_code: None,
            stat_accounting_sign: None,
            origin_country_code: None,
            origin_country: None,
            destination_country_code: None,
            destination_country: None,
            trade_country_code: None,
            trade_country: None,
            origin_country_code_2: None,
            origin_country_2: None,
            tnved_code: None,
            tnved_description: None,
            transport_border_code: None,
            transport_border: None,
            transport_internal_code: None,
            transport_internal: None,
            additional_unit_code_1: None,
            additional_unit_1: None,
            additional_unit_code_2: None,
            additional_unit_2: None,
            cost_usd: None,
            product_description_1: None,
            product_description_2: None,
            manufacturer: None,
            brand: None,
            brand_more: None,
            net_weight: None,
            gross_weight: None,
            quantity_physical: None,
            quantity_additional: None,
            cargo_type: None,
            number_of_packages: None,
            delivery_point: None,
            container_sign: None,
            preferences: None,
            customs_value: None,
            invoice_value: None,
            stat_value: None,
            stat_value_usd: None,
            total_invoice_value: None,
            customs_correct_sign: None,
            customs_correct_desc: None,
            currency_code: None,
            currency_description: None,
            exchange_rate: None,
            gtd_registration_place: None,
            gtd_registration_date: None,
            loading_place: None,
            processing_code: None,
            processing_description: None,
            declaration_type: None,
            price_per_kg: None,
            price_per_unit: None,
            price_per_additional_unit: None,
            info_type: None,
            decision_code_ts: None,
            recall_decision_code: None,
            customs_value_ts: None,
            previous_customs_value: None,
            total_customs_payments: None,
            customs_region: None,
            customs_procedure: None,
            additional_bdecl1: None,
            customs_op: None,
            incoterm: None,
            category: None,
            eval: None,
            eval_sec: None,
        }
    }

    /// Brings a raw evaluation text to the stored name of the category it
    /// reads as; a missing or unknown one becomes `NoEval`.
    pub fn validate_and_convert_eval(raw_eval: Option<String>) -> (r: Option<String>)
        ensures
            r matches Some(s) && s@ == validated_eval(
                match raw_eval {
                    Some(e) => Some(e@),
                    None => None,
                },
            ),
    {
        match raw_eval {
            Some(eval_str) => {
                let t = TypeT::from_str(&eval_str);
                Some(String::from_str(t.name()))
            },
            None => Some(String::from_str(TypeT::NoEval.name())),
        }
    }
}

} // verus!
