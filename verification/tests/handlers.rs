use sam_rust_api::attr::{AttrValue, Record};
use sam_rust_api::handlers::{
    delete_weather_item_done, delete_weather_item_start, get_weather_item_found,
    get_weather_item_start, list_weather_item_found, list_weather_item_start,
    post_weather_item_done, post_weather_item_put, post_weather_item_stamp,
    post_weather_item_start, stamp_weather_item, update_weather_item_done,
    update_weather_item_request, update_weather_item_start, DeleteStart, GetStart, HandlerError,
    PostStart, TableError, UpdateStart,
};
use sam_rust_api::model::{Error, WeatherItem};
use sam_rust_api::request::{path_parameter, Request};
use sam_rust_api::response::{api_gw_response, ApiResponse, Body};

fn s(x: &str) -> String {
    x.to_string()
}

fn request(path: Option<&str>, id: Option<&str>, body: Option<&str>) -> Request {
    let mut params = vec![(s("other"), s("zzz"))];
    if let Some(id) = id {
        params.push((s("id"), s(id)));
    }
    Request { path: path.map(s), path_parameters: params, body: body.map(s) }
}

fn item() -> WeatherItem {
    WeatherItem {
        id: s("client-id"),
        town: s("Porto"),
        weather: s("rain"),
        temperature: 12.75f64.to_bits(),
        created_on: s("client-time"),
    }
}

fn text(resp: &ApiResponse) -> Option<String> {
    match &resp.body {
        Some(Body::Text(t)) => Some(t.clone()),
        _ => None,
    }
}

fn text_of(v: Option<&AttrValue>) -> Option<String> {
    match v {
        Some(AttrValue::S(t)) => Some(t.clone()),
        _ => None,
    }
}

fn ksuid_bytes(timestamp: u32, payload: u128) -> Vec<u8> {
    let mut b = timestamp.to_be_bytes().to_vec();
    b.extend_from_slice(&payload.to_be_bytes());
    b
}

#[test]
fn api_gw_response_is_empty() {
    let r = api_gw_response();
    assert_eq!(r.status_code, 0);
    assert!(!r.is_base64_encoded);
    assert!(r.body.is_none());
}

#[test]
fn path_parameter_finds_first_match() {
    let params = vec![(s("a"), s("1")), (s("id"), s("2")), (s("id"), s("3"))];
    assert_eq!(path_parameter(&params, "id"), Some(s("2")));
    assert_eq!(path_parameter(&params, "a"), Some(s("1")));
    assert_eq!(path_parameter(&params, "b"), None);
    assert_eq!(path_parameter(&vec![], "id"), None);
}

#[test]
fn get_without_id_answers_404() {
    match get_weather_item_start(&request(None, None, None)) {
        GetStart::Reply(r) => {
            assert_eq!(r.status_code, 404);
            assert!(r.body.is_none());
            assert!(!r.is_base64_encoded);
        },
        GetStart::GetItem(_) => panic!("expected a reply"),
    }
}

#[test]
fn get_with_id_reads_the_key() {
    match get_weather_item_start(&request(None, Some("k9"), None)) {
        GetStart::GetItem(k) => {
            assert_eq!(k.name, "id");
            assert!(matches!(k.value, AttrValue::S(ref v) if v == "k9"));
        },
        GetStart::Reply(_) => panic!("expected a read"),
    }
}

#[test]
fn get_of_missing_item_says_not_found() {
    let r = get_weather_item_found(Ok(None)).unwrap();
    assert_eq!(r.status_code, 200);
    assert_eq!(text(&r), Some(s(r#"{"message":"Item not found"}"#)));
}

fn stored(id: &str) -> Record {
    let mut rec = Record::new();
    rec.insert(s("id"), AttrValue::S(s(id)));
    rec.insert(s("town"), AttrValue::S(s("Faro")));
    rec.insert(s("weather"), AttrValue::S(s("clear")));
    rec.insert(s("temperature"), AttrValue::N(Some(30.0f64.to_bits())));
    rec.insert(s("created_on"), AttrValue::S(s("1650000000")));
    rec
}

#[test]
fn get_of_stored_item_returns_it() {
    let rec = stored("k9");
    let r = get_weather_item_found(Ok(Some(&rec))).unwrap();
    assert_eq!(r.status_code, 200);
    match r.body {
        Some(Body::Item(i)) => {
            assert_eq!(i.id, "k9");
            assert_eq!(i.town, "Faro");
            assert_eq!(i.weather, "clear");
            assert_eq!(i.temperature, 30.0f64.to_bits());
            assert_eq!(i.created_on, "1650000000");
        },
        _ => panic!("expected an item body"),
    }
}

#[test]
fn get_of_incomplete_item_fails() {
    let mut rec = Record::new();
    rec.insert(s("id"), AttrValue::S(s("k9")));
    rec.insert(s("town"), AttrValue::S(s("Faro")));
    match get_weather_item_found(Ok(Some(&rec))) {
        Err(HandlerError::Conversion(Error::InternalError(m))) => assert_eq!(m, "Missing weather"),
        _ => panic!("expected a conversion error"),
    }
}

#[test]
fn get_with_failed_table_call_fails() {
    assert!(matches!(get_weather_item_found(Err(TableError)), Err(HandlerError::Table(_))));
}

#[test]
fn post_without_body_answers_400() {
    match post_weather_item_start(&request(Some("/items"), None, None)) {
        PostStart::Reply(r) => {
            assert_eq!(r.status_code, 400);
            assert_eq!(text(&r), Some(s("couldn't get body")));
        },
        PostStart::Parse(_) => panic!("expected a reply"),
    }
}

#[test]
fn post_with_body_parses_it() {
    match post_weather_item_start(&request(Some("/items"), None, Some("{\"x\":1}"))) {
        PostStart::Parse(b) => assert_eq!(b, "{\"x\":1}"),
        PostStart::Reply(_) => panic!("expected a parse"),
    }
}

#[test]
fn stamp_uses_the_ksuid_text_and_time() {
    let bytes = ksuid_bytes(1643290698, 45419194335837378647185401984346151808);
    let stamped = stamp_weather_item(&item(), &bytes);
    assert_eq!(stamped.id, "DyU8bFOBPZ4LjvsfN0qywt2LjmK");
    assert_eq!(stamped.created_on, "3043290698");
    assert_eq!(stamped.town, "Porto");
    assert_eq!(stamped.weather, "rain");
    assert_eq!(stamped.temperature, 12.75f64.to_bits());
}

#[test]
fn stamp_with_zero_ksuid() {
    let stamped = stamp_weather_item(&item(), &vec![0u8; 20]);
    assert_eq!(stamped.id, "000000000000000000000000000");
    assert_eq!(stamped.created_on, "1400000000");
}

#[test]
fn stamp_with_largest_ksuid() {
    let stamped = stamp_weather_item(&item(), &vec![0xffu8; 20]);
    assert_eq!(stamped.id, "aWgEPTl1tmebfsQzFP4bxwgy80V");
    assert_eq!(stamped.created_on, (1400000000u64 + 0xffff_ffff).to_string());
}

#[test]
fn stamp_with_fresh_ksuid() {
    let a = post_weather_item_stamp(&item());
    let b = post_weather_item_stamp(&item());
    assert_eq!(a.id.len(), 27);
    assert!(a.id.chars().all(|c| c.is_ascii_alphanumeric()));
    assert_ne!(a.id, b.id);
    let t: u64 = a.created_on.parse().unwrap();
    assert!(t > 1_600_000_000);
    assert_eq!(a.town, "Porto");
}

#[test]
fn put_writes_all_five_fields() {
    let put = post_weather_item_put(&item());
    assert_eq!(put.item.len(), 5);
    assert_eq!(text_of(put.item.get("id")), Some(s("client-id")));
    assert_eq!(text_of(put.item.get("town")), Some(s("Porto")));
    assert_eq!(text_of(put.item.get("weather")), Some(s("rain")));
    assert_eq!(text_of(put.item.get("created_on")), Some(s("client-time")));
    assert!(matches!(put.item.get("temperature"), Some(AttrValue::N(Some(b))) if *b == 12.75f64.to_bits()));
}

#[test]
fn put_then_get_returns_the_item() {
    let put = post_weather_item_put(&item());
    let r = get_weather_item_found(Ok(Some(&put.item))).unwrap();
    match r.body {
        Some(Body::Item(i)) => {
            assert_eq!(i.id, "client-id");
            assert_eq!(i.town, "Porto");
            assert_eq!(i.weather, "rain");
            assert_eq!(i.temperature, 12.75f64.to_bits());
            assert_eq!(i.created_on, "client-time");
        },
        _ => panic!("expected an item body"),
    }
}

#[test]
fn post_done_answers() {
    let ok = post_weather_item_done(true);
    assert_eq!(ok.status_code, 200);
    assert_eq!(text(&ok), Some(s("Weather item saved")));
    let bad = post_weather_item_done(false);
    assert_eq!(bad.status_code, 500);
    assert_eq!(text(&bad), Some(s("internal error")));
}

#[test]
fn delete_flow() {
    match delete_weather_item_start(&request(None, None, None)) {
        DeleteStart::Reply(r) => {
            assert_eq!(r.status_code, 404);
            assert!(r.body.is_none());
        },
        DeleteStart::DeleteItem(_) => panic!("expected a reply"),
    }
    match delete_weather_item_start(&request(None, Some("d1"), None)) {
        DeleteStart::DeleteItem(k) => {
            assert_eq!(k.name, "id");
            assert!(matches!(k.value, AttrValue::S(ref v) if v == "d1"));
        },
        DeleteStart::Reply(_) => panic!("expected a deletion"),
    }
    let ok = delete_weather_item_done(true);
    assert_eq!(ok.status_code, 200);
    assert_eq!(text(&ok), Some(s(r#"{"message":"Item deleted successfully"}"#)));
    let bad = delete_weather_item_done(false);
    assert_eq!(bad.status_code, 500);
    assert_eq!(text(&bad), Some(s(r#"{"message":"Failed to delete weather item"}"#)));
}

#[test]
fn update_without_id_answers_404_with_path() {
    match update_weather_item_start(&request(Some("/items"), None, Some("{}"))) {
        UpdateStart::Reply(r) => {
            assert_eq!(r.status_code, 404);
            assert_eq!(text(&r), Some(s("/items")));
        },
        UpdateStart::Parse { .. } => panic!("expected a reply"),
    }
}

#[test]
fn update_without_body_answers_400() {
    match update_weather_item_start(&request(Some("/items/u1"), Some("u1"), None)) {
        UpdateStart::Reply(r) => {
            assert_eq!(r.status_code, 400);
            assert_eq!(text(&r), Some(s("couldn't get body")));
        },
        UpdateStart::Parse { .. } => panic!("expected a reply"),
    }
}

#[test]
fn update_with_id_and_body_parses() {
    match update_weather_item_start(&request(Some("/items/u1"), Some("u1"), Some("{}"))) {
        UpdateStart::Parse { id, body } => {
            assert_eq!(id, "u1");
            assert_eq!(body, "{}");
        },
        UpdateStart::Reply(_) => panic!("expected a parse"),
    }
}

#[test]
fn update_request_sets_three_fields() {
    let u = update_weather_item_request(&s("u1"), &item());
    assert_eq!(u.key.name, "id");
    assert!(matches!(u.key.value, AttrValue::S(ref v) if v == "u1"));
    assert_eq!(
        u.update_expression,
        "SET #weather=:weather, #town=:town, \n        #temperature=:temperature"
    );
    assert_eq!(
        u.expression_attribute_names,
        vec![
            (s("#weather"), s("weather")),
            (s("#town"), s("town")),
            (s("#temperature"), s("temperature"))
        ]
    );
    assert_eq!(u.expression_attribute_values.len(), 3);
    assert_eq!(u.expression_attribute_values[0].0, ":weather");
    assert!(matches!(u.expression_attribute_values[0].1, AttrValue::S(ref v) if v == "rain"));
    assert_eq!(u.expression_attribute_values[1].0, ":town");
    assert!(matches!(u.expression_attribute_values[1].1, AttrValue::S(ref v) if v == "Porto"));
    assert_eq!(u.expression_attribute_values[2].0, ":temperature");
    assert!(matches!(u.expression_attribute_values[2].1, AttrValue::N(Some(b)) if b == 12.75f64.to_bits()));
    assert!(u.return_updated_new);
}

#[test]
fn update_done_answers() {
    let ok = update_weather_item_done(true);
    assert_eq!(ok.status_code, 200);
    assert_eq!(text(&ok), Some(s("Weather item updated successfully")));
    let bad = update_weather_item_done(false);
    assert_eq!(bad.status_code, 500);
    assert_eq!(text(&bad), Some(s("Failed to update weather item")));
}

#[test]
fn list_scans_twenty_from_start() {
    let scan = list_weather_item_start(&request(Some("/items"), None, None));
    assert_eq!(scan.limit, 20);
    assert!(scan.exclusive_start_key.is_none());
}

#[test]
fn list_returns_the_page_items() {
    let a = stored("a");
    let mut b = stored("b");
    b.insert(s("weather"), AttrValue::S(s("fog")));
    let r = list_weather_item_found(Ok(Some(&vec![a, b]))).unwrap();
    assert_eq!(r.status_code, 200);
    match r.body {
        Some(Body::Items(v)) => {
            assert_eq!(v.len(), 2);
            assert_eq!(v[0].id, "a");
            assert_eq!(v[1].id, "b");
            assert_eq!(v[1].weather, "fog");
        },
        _ => panic!("expected items"),
    }
    let empty = list_weather_item_found(Ok(None)).unwrap();
    assert!(matches!(empty.body, Some(Body::Items(ref v)) if v.is_empty()));
}

#[test]
fn list_with_incomplete_item_fails() {
    let a = stored("a");
    let mut b = Record::new();
    b.insert(s("id"), AttrValue::S(s("b")));
    let c = Record::new();
    match list_weather_item_found(Ok(Some(&vec![a, b, c]))) {
        Err(HandlerError::Conversion(Error::InternalError(m))) => assert_eq!(m, "Missing town"),
        _ => panic!("expected a conversion error"),
    }
}

#[test]
fn list_with_failed_table_call_fails() {
    assert!(matches!(list_weather_item_found(Err(TableError)), Err(HandlerError::Table(_))));
}
