use sam_rust_api::attr::{AttrValue, Record};
use sam_rust_api::decimal::decimal_string;
use sam_rust_api::json::message_body;
use sam_rust_api::model::{as_f64, as_string, Error, WeatherItem};

fn s(x: &str) -> String {
    x.to_string()
}

fn sample_item() -> WeatherItem {
    WeatherItem {
        id: s("abc"),
        town: s("Lisbon"),
        weather: s("sunny"),
        temperature: 21.5f64.to_bits(),
        created_on: s("1700000000"),
    }
}

fn text_of(v: Option<&AttrValue>) -> Option<String> {
    match v {
        Some(AttrValue::S(t)) => Some(t.clone()),
        _ => None,
    }
}

#[test]
fn decimal_string_writes_digits() {
    assert_eq!(decimal_string(0), "0");
    assert_eq!(decimal_string(7), "7");
    assert_eq!(decimal_string(10), "10");
    assert_eq!(decimal_string(1700000000), "1700000000");
    assert_eq!(decimal_string(u64::MAX), u64::MAX.to_string());
}

#[test]
fn record_insert_get_and_replace() {
    let mut r = Record::new();
    assert_eq!(r.len(), 0);
    assert!(r.get("id").is_none());
    r.insert(s("id"), AttrValue::S(s("x")));
    r.insert(s("n"), AttrValue::N(Some(3)));
    assert_eq!(r.len(), 2);
    assert_eq!(text_of(r.get("id")), Some(s("x")));
    r.insert(s("id"), AttrValue::S(s("y")));
    assert_eq!(r.len(), 2);
    assert_eq!(text_of(r.get("id")), Some(s("y")));
    assert!(matches!(r.get("n"), Some(AttrValue::N(Some(3)))));
    let (name, value) = r.entry(0);
    assert_eq!(name, "id");
    assert!(matches!(value, AttrValue::S(t) if t == "y"));
    let (name, _) = r.entry(1);
    assert_eq!(name, "n");
}

#[test]
fn as_string_reads_strings_only() {
    let default = s("dflt");
    assert_eq!(as_string(Some(&AttrValue::S(s("v"))), &default), "v");
    assert_eq!(as_string(Some(&AttrValue::N(Some(1))), &default), "dflt");
    assert_eq!(as_string(Some(&AttrValue::Other), &default), "dflt");
    assert_eq!(as_string(None, &default), "dflt");
}

#[test]
fn as_f64_reads_numbers_only() {
    let bits = 2.5f64.to_bits();
    assert_eq!(as_f64(Some(&AttrValue::N(Some(bits))), 0), bits);
    assert_eq!(as_f64(Some(&AttrValue::N(None)), 7), 7);
    assert_eq!(as_f64(Some(&AttrValue::S(s("2.5"))), 7), 7);
    assert_eq!(as_f64(None, 0), 0);
}

#[test]
fn try_from_reads_every_field() {
    let mut r = Record::new();
    r.insert(s("id"), AttrValue::S(s("k1")));
    r.insert(s("town"), AttrValue::S(s("Oslo")));
    r.insert(s("weather"), AttrValue::S(s("snow")));
    r.insert(s("temperature"), AttrValue::N(Some((-3.25f64).to_bits())));
    r.insert(s("created_on"), AttrValue::S(s("1600000000")));
    r.insert(s("extra"), AttrValue::Other);
    let item = match WeatherItem::try_from(&r) {
        Ok(i) => i,
        Err(_) => panic!("conversion failed"),
    };
    assert_eq!(item.id, "k1");
    assert_eq!(item.town, "Oslo");
    assert_eq!(item.weather, "snow");
    assert_eq!(f64::from_bits(item.temperature), -3.25);
    assert_eq!(item.created_on, "1600000000");
}

fn full_record() -> Record {
    let mut r = Record::new();
    r.insert(s("id"), AttrValue::S(s("k1")));
    r.insert(s("town"), AttrValue::S(s("Oslo")));
    r.insert(s("weather"), AttrValue::S(s("snow")));
    r.insert(s("temperature"), AttrValue::N(Some(1.5f64.to_bits())));
    r.insert(s("created_on"), AttrValue::S(s("1600000000")));
    r
}

fn without(name: &str) -> Record {
    let full = full_record();
    let mut r = Record::new();
    for i in 0..full.len() {
        let (n, v) = full.entry(i);
        if n != name {
            let v = match v {
                AttrValue::S(t) => AttrValue::S(t.clone()),
                AttrValue::N(x) => AttrValue::N(*x),
                AttrValue::Other => AttrValue::Other,
            };
            r.insert(n.clone(), v);
        }
    }
    r
}

fn error_message(r: &Record) -> Option<String> {
    match WeatherItem::try_from(r) {
        Ok(_) => None,
        Err(Error::InternalError(m)) => Some(m),
    }
}

#[test]
fn try_from_fails_on_each_missing_field() {
    assert_eq!(error_message(&without("id")), Some(s("Missing id")));
    assert_eq!(error_message(&without("town")), Some(s("Missing town")));
    assert_eq!(error_message(&without("weather")), Some(s("Missing weather")));
    assert_eq!(error_message(&without("temperature")), Some(s("Missing temperature")));
    assert_eq!(error_message(&without("created_on")), Some(s("Missing created_on")));
    assert_eq!(error_message(&full_record()), None);
}

#[test]
fn try_from_names_the_first_missing_field() {
    let mut r = Record::new();
    r.insert(s("created_on"), AttrValue::S(s("1")));
    r.insert(s("weather"), AttrValue::S(s("fog")));
    assert_eq!(error_message(&r), Some(s("Missing id")));
    r.insert(s("id"), AttrValue::S(s("x")));
    assert_eq!(error_message(&r), Some(s("Missing town")));
}

#[test]
fn try_from_defaults_ill_typed_fields() {
    let mut r = full_record();
    r.insert(s("id"), AttrValue::N(Some(1)));
    r.insert(s("temperature"), AttrValue::N(None));
    r.insert(s("weather"), AttrValue::Other);
    r.insert(s("town"), AttrValue::N(Some(2)));
    r.insert(s("created_on"), AttrValue::Other);
    let item = WeatherItem::try_from(&r).unwrap();
    assert_eq!(item.id, "");
    assert_eq!(item.town, "");
    assert_eq!(item.weather, "");
    assert_eq!(item.temperature, 0);
    assert_eq!(f64::from_bits(item.temperature), 0.0);
    assert_eq!(item.created_on, "");
}

#[test]
fn try_from_empty_record_fails() {
    let r = Record::new();
    assert_eq!(error_message(&r), Some(s("Missing id")));
}

#[test]
fn record_from_item_writes_five_fields() {
    let item = sample_item();
    let r = Record::from(&item);
    assert_eq!(r.len(), 5);
    assert_eq!(text_of(r.get("id")), Some(s("abc")));
    assert_eq!(text_of(r.get("town")), Some(s("Lisbon")));
    assert_eq!(text_of(r.get("weather")), Some(s("sunny")));
    assert_eq!(text_of(r.get("created_on")), Some(s("1700000000")));
    assert!(matches!(r.get("temperature"), Some(AttrValue::N(Some(b))) if *b == 21.5f64.to_bits()));
}

#[test]
fn record_round_trip_keeps_the_item() {
    let item = sample_item();
    let back = WeatherItem::try_from(&Record::from(&item)).unwrap();
    assert_eq!(back.id, item.id);
    assert_eq!(back.town, item.town);
    assert_eq!(back.weather, item.weather);
    assert_eq!(back.temperature, item.temperature);
    assert_eq!(back.created_on, item.created_on);
}

#[test]
fn message_body_is_a_json_object() {
    assert_eq!(message_body("Item not found"), r#"{"message":"Item not found"}"#);
    assert_eq!(message_body(""), r#"{"message":""}"#);
}

#[test]
fn message_body_escapes_like_json() {
    assert_eq!(message_body("a\"b\\c"), r#"{"message":"a\"b\\c"}"#);
    assert_eq!(message_body("l1\nl2\tt\r"), r#"{"message":"l1\nl2\tt\r"}"#);
    assert_eq!(message_body("\u{1}\u{8}\u{c}\u{1f}"), r#"{"message":"\u0001\b\f\u001f"}"#);
    assert_eq!(message_body("é/ü\u{7f}"), "{\"message\":\"é/ü\u{7f}\"}");
}
