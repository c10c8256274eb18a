use poly_cls::conf::Protocol;
use poly_cls::database::{
    is_known_example, is_new_record, item_description, load_threshold, option_to_string,
    parse_date, parse_optional_date, Date, ToEval, VecItem,
};
use poly_cls::schemas::{GeneralSchema, SegmentT, TypeT};

fn date(year: i32, month: u32, day: u32) -> Date {
    Date { year, month, day }
}

#[test]
fn parse_date_accepts_each_format() {
    assert_eq!(parse_date("2024-05-01"), Some(date(2024, 5, 1)));
    assert_eq!(parse_date("05/01/2024"), Some(date(2024, 5, 1)));
    assert_eq!(parse_date("2024/05/01"), Some(date(2024, 5, 1)));
    assert_eq!(parse_date("01.05.2024"), Some(date(2024, 5, 1)));
    assert_eq!(parse_date("01-05-2024"), Some(date(2024, 5, 1)));
}

#[test]
fn parse_date_reads_timestamps() {
    assert_eq!(parse_date("1431648000"), Some(date(2015, 5, 15)));
    assert_eq!(parse_date("0"), Some(date(1970, 1, 1)));
    assert_eq!(parse_date("-86400"), Some(date(1969, 12, 31)));
}

#[test]
fn parse_date_rejects_other_text() {
    assert_eq!(parse_date(""), None);
    assert_eq!(parse_date("yesterday"), None);
    assert_eq!(parse_date("2024-13-01"), None);
    assert_eq!(parse_date("99999999999999999999"), None);
}

#[test]
fn optional_dates() {
    assert_eq!(parse_optional_date(&None), None);
    assert_eq!(parse_optional_date(&Some(String::new())), None);
    assert_eq!(parse_optional_date(&Some("2023-02-28".to_string())), Some(date(2023, 2, 28)));
}

#[test]
fn dates_compare_by_calendar() {
    assert!(date(2024, 1, 2).is_after(&date(2024, 1, 1)));
    assert!(date(2024, 2, 1).is_after(&date(2023, 12, 31)));
    assert!(!date(2024, 1, 1).is_after(&date(2024, 1, 1)));
    assert!(!date(2023, 12, 31).is_after(&date(2024, 1, 1)));
}

#[test]
fn threshold_defaults_to_year_two_thousand() {
    assert_eq!(load_threshold(None), date(2000, 1, 1));
    assert_eq!(load_threshold(Some(date(2022, 3, 4))), date(2022, 3, 4));
}

#[test]
fn new_records_are_after_threshold() {
    let mut row = GeneralSchema::blank(SegmentT::Eas);
    let limit = date(2024, 1, 1);
    assert!(!is_new_record(&row, &limit));
    row.effective_date = Some("2024-01-02".to_string());
    assert!(is_new_record(&row, &limit));
    row.effective_date = Some("31.12.2023".to_string());
    assert!(!is_new_record(&row, &limit));
    row.effective_date = Some("not a date".to_string());
    assert!(!is_new_record(&row, &limit));
}

#[test]
fn known_examples_carry_an_evaluation() {
    let mut row = GeneralSchema::blank(SegmentT::Kz);
    assert!(!is_known_example(&row));
    row.eval = Some("NoEval".to_string());
    assert!(!is_known_example(&row));
    row.eval = Some("Xps".to_string());
    assert!(is_known_example(&row));
}

#[test]
fn descriptions_are_joined() {
    assert_eq!(item_description(&"foam".to_string(), &Some("board".to_string())), "foam board");
    assert_eq!(item_description(&"foam".to_string(), &None), "foam ");
}

#[test]
fn examples_from_records() {
    let mut row = GeneralSchema::blank(SegmentT::Rus);
    assert!(VecItem::from_schema(&row).is_none());
    row.product_description_1 = Some("foam".to_string());
    row.eval = Some("Xps".to_string());
    let item = VecItem::from_schema(&row).unwrap();
    assert_eq!(item.description, "foam ");
    assert_eq!(item.eval, "Xps");
    row.product_description_2 = Some("panel".to_string());
    assert_eq!(VecItem::from_schema(&row).unwrap().description, "foam panel");
}

#[test]
fn option_text() {
    assert_eq!(option_to_string(Some("a".to_string())), "a");
    assert_eq!(option_to_string(None), "");
}

#[test]
fn new_target_is_unresolved() {
    let t = ToEval::new("1".to_string(), "d".to_string());
    assert_eq!(t.id, "1");
    assert_eq!(t.descr, "d");
    assert_eq!(t.eval, TypeT::NoEval);
}

#[test]
fn protocol_names() {
    assert_eq!(Protocol::Ollama.to_str(), "ollama");
    assert_eq!(Protocol::OpenAI.to_str(), "openai");
    assert_eq!(Protocol::Deepseek.to_str(), "deepseek");
    assert_eq!(Protocol::Anthropic.to_str(), "anthropic");
}

#[test]
fn blank_record_is_empty() {
    let row = GeneralSchema::blank(SegmentT::Kz);
    assert_eq!(row.seg, SegmentT::Kz);
    assert!(row.id.is_none() && row.eval.is_none() && row.effective_date.is_none());
}
