use vstd::prelude::*;

use crate::attr::{AttrModel, AttrValue, Record};
use crate::decimal::{decimal_digits, decimal_string};
use crate::json::{message_body, message_json};
use crate::ksuid::{
    ksuid_text,
    ksuid_timestamp,
    ksuid_timestamp_seconds,
    ksuid_to_string,
    lemma_four_bytes_bound,
    new_ksuid_bytes,
};
use crate::model::{
    has_all_fields,
    item_from_record,
    lemma_record_round_trip,
    missing_field_message,
    record_from_item,
    Error,
    WeatherItem,
    WeatherItemModel,
};
use crate::request::{
    id_key,
    key_view,
    make_id_key,
    opt_text,
    param_of,
    path_parameter,
    KeyAttr,
    PutItemInput,
    Request,
    ScanInput,
    UpdateItemInput,
};
use crate::response::{
    api_gw_response,
    response_with,
    text_response,
    ApiResponse,
    Body,
    BodyModel,
    ResponseModel,
};

verus! {

// ---------------------------------------------------------------------------
// What the handlers answer
// ---------------------------------------------------------------------------

/// The answer to a request without an `id` path parameter: status 404
/// and no body.
pub open spec fn missing_id_response() -> ResponseModel {
    response_with(404, None)
}

/// The answer to a request without a body.
pub open spec fn missing_body_response() -> ResponseModel {
    text_response(400, "couldn't get body"@)
}

/// The `id` path parameter of a request.
pub open spec fn id_param(req: Request) -> Option<Seq<char>> {
    param_of(req.path_parameters@, "id"@)
}

/// A copy of `resp` with another status code.
fn with_status(resp: ApiResponse, status_code: i64) -> (r: ApiResponse)
    ensures
        r@ == (ResponseModel { status_code, ..resp@ }),
{
    ApiResponse { status_code, ..resp }
}

/// A copy of `resp` with another status code and the text body `text`.
fn with_text(resp: ApiResponse, status_code: i64, text: String) -> (r: ApiResponse)
    ensures
        r@ == (ResponseModel { status_code, body: Some(BodyModel::Text(text@)), ..resp@ }),
{
    ApiResponse { status_code, body: Some(Body::Text(text)), ..resp }
}

/// The response that `post`, `update` and `list` start from: the default
/// response with the request path as its body.
fn path_response(path: &String) -> (r: ApiResponse)
    ensures
        r@ == response_with(0, Some(BodyModel::Text(path@))),
{
    let resp = api_gw_response();
    ApiResponse { body: Some(Body::Text(path.clone())), ..resp }
}

// ---------------------------------------------------------------------------
// GET /items/{id}
// ---------------------------------------------------------------------------

/// What the get handler does first.
pub enum GetStart {
    /// Answer at once.
    Reply(ApiResponse),
    /// Read the item under this key from the table.
    GetItem(KeyAttr),
}

/// The first decision of the get handler: without an `id` path parameter
/// it answers 404 with no body; otherwise it reads the item `id = <id>`.
pub fn get_weather_item_start(req: &Request) -> (r: GetStart)
    ensures
        match id_param(*req) {
            None => r matches GetStart::Reply(resp) && resp@ == missing_id_response(),
            Some(id) => r matches GetStart::GetItem(k) && key_view(k) == id_key(id),
        },
{
    let resp = api_gw_response();
    match path_parameter(&req.path_parameters, "id") {
        Some(id) => GetStart::GetItem(make_id_key(&id)),
        None => GetStart::Reply(with_status(resp, 404)),
    }
}

/// A call to the table that failed.
#[derive(Debug)]
pub struct TableError;

/// Why a handler ends with an error instead of an answer: the table call
/// failed, or a stored item could not be converted.
#[derive(Debug)]
pub enum HandlerError {
    Table(TableError),
    Conversion(Error),
}

/// The answer of the get handler once the table has answered: the item
/// it found, or the message `Item not found`, with status 200; `None` when
/// the stored item lacks a field, and the handler fails instead.
pub open spec fn get_found_response(found: Option<Map<Seq<char>, AttrModel>>) -> Option<
    ResponseModel,
> {
    match found {
        Some(record) => if has_all_fields(record) {
            Some(response_with(200, Some(BodyModel::Item(item_from_record(record)))))
        } else {
            None
        },
        None => Some(text_response(200, message_json("Item not found"@))),
    }
}

/// The view of an optional borrowed record.
pub open spec fn opt_record(found: Option<&Record>) -> Option<Map<Seq<char>, AttrModel>> {
    match found {
        Some(r) => Some(r@),
        None => None,
    }
}

/// The second decision of the get handler, given the outcome of the read:
/// a failed call fails the handler; otherwise it answers with what the
/// table returned for the key (`None` when it holds no such item), and
/// fails with the conversion error when the stored item lacks a field.
pub fn get_weather_item_found(outcome: Result<Option<&Record>, TableError>) -> (r: Result<
    ApiResponse,
    HandlerError,
>)
    ensures
        outcome is Err ==> r matches Err(HandlerError::Table(_)),
        outcome matches Ok(found) ==> match get_found_response(opt_record(found)) {
            Some(expected) => r matches Ok(resp) && resp@ == expected,
            None => r matches Err(HandlerError::Conversion(Error::InternalError(m))) && m@
                == missing_field_message(found.unwrap()@),
        },
{
    let found = match outcome {
        Ok(found) => found,
        Err(e) => {
            return Err(HandlerError::Table(e));
        },
    };
    let resp = api_gw_response();
    let item_result: Result<Option<WeatherItem>, Error> = Ok(
        match found {
            Some(item) => Some(
                match WeatherItem::try_from(item) {
                    Ok(i) => i,
                    Err(e) => {
                        return Err(HandlerError::Conversion(e));
                    },
                },
            ),
            None => None,
        },
    );
    match item_result {
        Ok(Some(value)) => Ok(
            ApiResponse { status_code: 200, body: Some(Body::Item(value)), ..resp },
        ),
        Ok(None) => Ok(with_text(resp, 200, message_body("Item not found"))),
        Err(_) => Ok(with_text(resp, 500, message_body("Internal server error"))),
    }
}

// ---------------------------------------------------------------------------
// POST /items
// ---------------------------------------------------------------------------

/// What the post handler does first.
pub enum PostStart {
    /// Answer at once.
    Reply(ApiResponse),
    /// Parse this body as a JSON weather item (a body that does not parse
    /// ends the handler with a panic).
    Parse(String),
}

/// The first decision of the post handler: without a body it answers 400
/// `couldn't get body`; otherwise the body is to be parsed.
pub fn post_weather_item_start(req: &Request) -> (r: PostStart)
    requires
        req.path is Some,
    ensures
        match opt_text(req.body) {
            None => r matches PostStart::Reply(resp) && resp@ == missing_body_response(),
            Some(b) => r matches PostStart::Parse(t) && t@ == b,
        },
{
    let resp = match &req.path {
        Some(path) => path_response(path),
        None => api_gw_response(),
    };
    match &req.body {
        Some(weather) => PostStart::Parse(weather.clone()),
        None => PostStart::Reply(with_text(resp, 400, String::from_str("couldn't get body"))),
    }
}

/// The item that the post handler stores for `item`: its `id` is the
/// text of the KSUID and its `created_on` the decimal creation time of the
/// KSUID in Unix seconds; the other fields are those of `item`.
pub open spec fn stamped_item(item: WeatherItemModel, ksuid: Seq<u8>) -> WeatherItemModel {
    WeatherItemModel {
        id: ksuid_text(ksuid),
        created_on: decimal_digits(ksuid_timestamp(ksuid) as nat),
        ..item
    }
}

/// Gives `item` the identity of the KSUID with bytes `ksuid`.
pub fn stamp_weather_item(item: &WeatherItem, ksuid: &Vec<u8>) -> (r: WeatherItem)
    requires
        ksuid.len() == 20,
    ensures
        r@ == stamped_item(item@, ksuid@),
{
    let mut stamped = item.duplicate();
    stamped.id = ksuid_to_string(ksuid);
    let seconds = ksuid_timestamp_seconds(ksuid);
    proof {
        lemma_four_bytes_bound(ksuid@.take(4));
    }
    stamped.created_on = decimal_string(seconds as u64);
    stamped
}

/// Gives `item` the identity of a new KSUID, taken at the current time
/// with a random payload.
pub fn post_weather_item_stamp(item: &WeatherItem) -> (r: WeatherItem)
    ensures
        exists|ksuid: Seq<u8>| ksuid.len() == 20 && r@ == stamped_item(item@, ksuid),
{
    let ksuid = new_ksuid_bytes();
    stamp_weather_item(item, &ksuid)
}

/// The `PutItem` call that stores `item`: all five fields, the
/// temperature as a number and the others as strings.
pub fn post_weather_item_put(item: &WeatherItem) -> (r: PutItemInput)
    ensures
        r.item@ == record_from_item(item@),
{
    PutItemInput { item: Record::from(item) }
}

/// The answer of the post handler once the table has answered.
pub open spec fn post_done_response(saved: bool) -> ResponseModel {
    if saved {
        text_response(200, "Weather item saved"@)
    } else {
        text_response(500, "internal error"@)
    }
}

/// The last decision of the post handler, given whether the table stored
/// the item.
pub fn post_weather_item_done(saved: bool) -> (resp: ApiResponse)
    ensures
        resp@ == post_done_response(saved),
{
    let resp = api_gw_response();
    if saved {
        with_text(resp, 200, String::from_str("Weather item saved"))
    } else {
        with_text(resp, 500, String::from_str("internal error"))
    }
}

// ---------------------------------------------------------------------------
// DELETE /items/{id}
// ---------------------------------------------------------------------------

/// What the delete handler does first.
pub enum DeleteStart {
    /// Answer at once.
    Reply(ApiResponse),
    /// Delete the item under this key from the table.
    DeleteItem(KeyAttr),
}

/// The first decision of the delete handler: without an `id` path
/// parameter it answers 404 with no body; otherwise it deletes the item
/// `id = <id>`.
pub fn delete_weather_item_start(req: &Request) -> (r: DeleteStart)
    ensures
        match id_param(*req) {
            None => r matches DeleteStart::Reply(resp) && resp@ == missing_id_response(),
            Some(id) => r matches DeleteStart::DeleteItem(k) && key_view(k) == id_key(id),
        },
{
    let resp = api_gw_response();
    match path_parameter(&req.path_parameters, "id") {
        Some(id) => DeleteStart::DeleteItem(make_id_key(&id)),
        None => DeleteStart::Reply(with_status(resp, 404)),
    }
}

/// The answer of the delete handler once the table has answered.
pub open spec fn delete_done_response(deleted: bool) -> ResponseModel {
    if deleted {
        text_response(200, message_json("Item deleted successfully"@))
    } else {
        text_response(500, message_json("Failed to delete weather item"@))
    }
}

/// The last decision of the delete handler, given whether the table
/// accepted the deletion.
pub fn delete_weather_item_done(deleted: bool) -> (resp: ApiResponse)
    ensures
        resp@ == delete_done_response(deleted),
{
    let resp = api_gw_response();
    if deleted {
        with_text(resp, 200, message_body("Item deleted successfully"))
    } else {
        with_text(resp, 500, message_body("Failed to delete weather item"))
    }
}

// ---------------------------------------------------------------------------
// PUT /items/{id}
// ---------------------------------------------------------------------------

/// What the update handler does first.
pub enum UpdateStart {
    /// Answer at once.
    Reply(ApiResponse),
    /// Parse `body` as a JSON weather item (a body that does not parse
    /// ends the handler with a panic), then update the item `id`.
    Parse { id: String, body: String },
}

/// The first decision of the update handler: without an `id` path
/// parameter it answers 404 with the request path as its body; without a
/// body it answers 400 `couldn't get body`; otherwise the body is to be
/// parsed.
pub fn update_weather_item_start(req: &Request) -> (r: UpdateStart)
    requires
        req.path is Some,
    ensures
        match (id_param(*req), opt_text(req.body)) {
            (None, _) => r matches UpdateStart::Reply(resp) && resp@ == response_with(
                404,
                Some(BodyModel::Text(req.path.unwrap()@)),
            ),
            (Some(_), None) => r matches UpdateStart::Reply(resp) && resp@
                == missing_body_response(),
            (Some(id), Some(b)) => r matches UpdateStart::Parse { id: i, body: t } && i@ == id
                && t@ == b,
        },
{
    let resp = match &req.path {
        Some(path) => path_response(path),
        None => api_gw_response(),
    };
    let id = match path_parameter(&req.path_parameters, "id") {
        Some(id) => id,
        None => {
            return UpdateStart::Reply(with_status(resp, 404));
        },
    };
    match &req.body {
        Some(weather) => UpdateStart::Parse { id, body: weather.clone() },
        None => UpdateStart::Reply(with_text(resp, 400, String::from_str("couldn't get body"))),
    }
}

/// The update expression that sets the weather, town and temperature.
pub open spec fn update_expression_text() -> Seq<char> {
    "SET #weather=:weather, #town=:town, \n        #temperature=:temperature"@
}

/// The views of (name, name) pairs.
pub open spec fn names_view(v: Seq<(String, String)>) -> Seq<(Seq<char>, Seq<char>)> {
    v.map_values(|p: (String, String)| (p.0@, p.1@))
}

/// The views of (name, value) pairs.
pub open spec fn values_view(v: Seq<(String, AttrValue)>) -> Seq<(Seq<char>, AttrModel)> {
    v.map_values(|p: (String, AttrValue)| (p.0@, p.1@))
}

/// The placeholders of the update expression and the attributes they
/// stand for.
pub open spec fn update_names() -> Seq<(Seq<char>, Seq<char>)> {
    seq![
        ("#weather"@, "weather"@),
        ("#town"@, "town"@),
        ("#temperature"@, "temperature"@),
    ]
}

/// The values that the update expression assigns: the weather, town and
/// temperature of `item`.
pub open spec fn update_values(item: WeatherItemModel) -> Seq<(Seq<char>, AttrModel)> {
    seq![
        (":weather"@, AttrModel::S(item.weather)),
        (":town"@, AttrModel::S(item.town)),
        (":temperature"@, AttrModel::N(Some(item.temperature))),
    ]
}

/// The `UpdateItem` call of the update handler: it sets the weather, town
/// and temperature of the item `id = <id>` to those of `item` and asks for
/// the updated attributes back. The `id` and `created_on` of `item` are
/// not used.
pub fn update_weather_item_request(id: &String, item: &WeatherItem) -> (r: UpdateItemInput)
    ensures
        key_view(r.key) == id_key(id@),
        r.update_expression@ == update_expression_text(),
        names_view(r.expression_attribute_names@) == update_names(),
        values_view(r.expression_attribute_values@) == update_values(item@),
        r.return_updated_new,
{
    let mut names: Vec<(String, String)> = Vec::new();
    names.push((String::from_str("#weather"), String::from_str("weather")));
    names.push((String::from_str("#town"), String::from_str("town")));
    names.push((String::from_str("#temperature"), String::from_str("temperature")));
    let mut values: Vec<(String, AttrValue)> = Vec::new();
    values.push((String::from_str(":weather"), AttrValue::S(item.weather.clone())));
    values.push((String::from_str(":town"), AttrValue::S(item.town.clone())));
    values.push((String::from_str(":temperature"), AttrValue::N(Some(item.temperature))));
    let r = UpdateItemInput {
        key: make_id_key(id),
        update_expression: String::from_str(
            "SET #weather=:weather, #town=:town, \n        #temperature=:temperature",
        ),
        expression_attribute_names: names,
        expression_attribute_values: values,
        return_updated_new: true,
    };
    assert(names_view(r.expression_attribute_names@) =~= update_names());
    assert(values_view(r.expression_attribute_values@) =~= update_values(item@));
    r
}

/// The answer of the update handler once the table has answered.
pub open spec fn update_done_response(updated: bool) -> ResponseModel {
    if updated {
        text_response(200, "Weather item updated successfully"@)
    } else {
        text_response(500, "Failed to update weather item"@)
    }
}

/// The last decision of the update handler, given whether the table
/// applied the update.
pub fn update_weather_item_done(updated: bool) -> (resp: ApiResponse)
    ensures
        resp@ == update_done_response(updated),
{
    let resp = api_gw_response();
    if updated {
        with_text(resp, 200, String::from_str("Weather item updated successfully"))
    } else {
        with_text(resp, 500, String::from_str("Failed to update weather item"))
    }
}

// ---------------------------------------------------------------------------
// GET /items
// ---------------------------------------------------------------------------

/// The first decision of the list handler: scan the table, 20 items per
/// page, from its start.
pub fn list_weather_item_start(req: &Request) -> (r: ScanInput)
    requires
        req.path is Some,
    ensures
        r.limit == 20,
        r.exclusive_start_key is None,
{
    let next: Option<String> = None;
    let start = match next {
        Some(n) => Some(KeyAttr { name: String::from_str("id"), value: AttrValue::S(n) }),
        None => None,
    };
    ScanInput { limit: 20, exclusive_start_key: start }
}

/// The items that a scan returned (`None` for no item list).
pub open spec fn scanned_items(items: Option<Seq<Record>>) -> Seq<WeatherItemModel> {
    match items {
        Some(rs) => rs.map_values(|r: Record| item_from_record(r@)),
        None => Seq::empty(),
    }
}

/// The view of an optional borrowed list of records.
pub open spec fn opt_records(items: Option<&Vec<Record>>) -> Option<Seq<Record>> {
    match items {
        Some(v) => Some(v@),
        None => None,
    }
}

/// Whether every record of `rs` has all five fields.
pub open spec fn all_complete(rs: Seq<Record>) -> bool {
    forall|i: int| 0 <= i < rs.len() ==> has_all_fields(#[trigger] rs[i]@)
}

/// The record at `i` is the first of `rs` that lacks a field.
pub open spec fn first_incomplete(rs: Seq<Record>, i: int) -> bool {
    &&& 0 <= i < rs.len()
    &&& !has_all_fields(rs[i]@)
    &&& forall|j: int| 0 <= j < i ==> has_all_fields(#[trigger] rs[j]@)
}

/// The last decision of the list handler, given the outcome of the scan:
/// a failed call fails the handler; a page whose records all have their
/// five fields is answered with status 200 and the page's items; a page
/// with a record that lacks a field fails with the conversion error of the
/// first such record.
pub fn list_weather_item_found(outcome: Result<Option<&Vec<Record>>, TableError>) -> (r: Result<
    ApiResponse,
    HandlerError,
>)
    ensures
        outcome is Err ==> r matches Err(HandlerError::Table(_)),
        outcome matches Ok(items) ==> match opt_records(items) {
            Some(rs) => if all_complete(rs) {
                r matches Ok(resp) && resp@ == response_with(
                    200,
                    Some(BodyModel::Items(scanned_items(Some(rs)))),
                )
            } else {
                r matches Err(HandlerError::Conversion(Error::InternalError(m))) && exists|i: int|
                    first_incomplete(rs, i) && m@ == missing_field_message(#[trigger] rs[i]@)
            },
            None => r matches Ok(resp) && resp@ == response_with(
                200,
                Some(BodyModel::Items(Seq::empty())),
            ),
        },
{
    let items = match outcome {
        Ok(items) => items,
        Err(e) => {
            return Err(HandlerError::Table(e));
        },
    };
    let resp = api_gw_response();
    let mut weather_items: Vec<WeatherItem> = Vec::new();
    match items {
        Some(records) => {
            let n = records.len();
            let mut i: usize = 0;
            while i < n
                invariant
                    n == records@.len(),
                    i <= n,
                    weather_items@.len() == i,
                    forall|j: int|
                        0 <= j < i ==> (#[trigger] weather_items@[j])@ == item_from_record(
                            records@[j]@,
                        ),
                    forall|j: int| 0 <= j < i ==> has_all_fields(#[trigger] records@[j]@),
                    outcome matches Ok(found) && found == items,
                    items == Some(records),
                decreases n - i,
            {
                match WeatherItem::try_from(&records[i]) {
                    Ok(item) => weather_items.push(item),
                    Err(e) => {
                        assert(first_incomplete(records@, i as int));
                        return Err(HandlerError::Conversion(e));
                    },
                }
                i = i + 1;
            }
        },
        None => {},
    }
    assert(weather_items@.map_values(|w: WeatherItem| w@) =~= scanned_items(opt_records(items)));
    Ok(ApiResponse { status_code: 200, body: Some(Body::Items(weather_items)), ..resp })
}

// ---------------------------------------------------------------------------
// Laws
// ---------------------------------------------------------------------------

/// What the post handler writes for an item, the get handler reads back
/// and answers with status 200 and that same item.
pub proof fn lemma_put_then_get(item: WeatherItemModel)
    ensures
        get_found_response(Some(record_from_item(item))) == Some(
            response_with(200, Some(BodyModel::Item(item))),
        ),
{
    lemma_record_round_trip(item);
}

/// A posted item keeps the town, weather and temperature it was sent
/// with; its `id` is a 27-character base-62 text and its `created_on` the
/// decimal text of a time in the `2^32` seconds after the KSUID epoch.
pub proof fn lemma_stamped_item(item: WeatherItemModel, ksuid: Seq<u8>)
    requires
        ksuid.len() == 20,
    ensures
        stamped_item(item, ksuid).town == item.town,
        stamped_item(item, ksuid).weather == item.weather,
        stamped_item(item, ksuid).temperature == item.temperature,
        stamped_item(item, ksuid).id.len() == 27,
        forall|i: int|
            0 <= i < 27 ==> crate::ksuid::is_base62_char(#[trigger] stamped_item(item, ksuid).id[i]),
        exists|t: int|
            crate::ksuid::ksuid_epoch() <= t < crate::ksuid::ksuid_epoch() + 0x1_0000_0000
                && stamped_item(item, ksuid).created_on == #[trigger] decimal_digits(t as nat),
{
    crate::ksuid::lemma_ksuid_text_shape(ksuid);
    crate::ksuid::lemma_ksuid_timestamp_range(ksuid);
    let t = ksuid_timestamp(ksuid);
    assert(stamped_item(item, ksuid).created_on == decimal_digits(t as nat));
}

/// The update handler's call depends only on the path `id` and on the
/// weather, town and temperature of the parsed body: two bodies that agree
/// on those three give the same update values.
pub proof fn lemma_update_ignores_identity(a: WeatherItemModel, b: WeatherItemModel)
    requires
        a.weather == b.weather,
        a.town == b.town,
        a.temperature == b.temperature,
    ensures
        update_values(a) == update_values(b),
{
}

/// Each item of a listed page is the item that get answers with for the
/// same stored record, all its fields (temperature included) carried over
/// unchanged: listing never alters an item that reading it alone would
/// return.
pub proof fn lemma_list_agrees_with_get(rs: Seq<Record>, i: int)
    requires
        all_complete(rs),
        0 <= i < rs.len(),
    ensures
        scanned_items(Some(rs)).len() == rs.len(),
        get_found_response(Some(rs[i]@)) == Some(
            response_with(200, Some(BodyModel::Item(scanned_items(Some(rs))[i]))),
        ),
{
    assert(has_all_fields(rs[i]@));
}

/// A listed item holds the values of the attributes of its stored record
/// as they are: a stored temperature `N(t)` is listed as `t`, and each
/// string field as the stored string.
pub proof fn lemma_list_keeps_attribute_values(
    rs: Seq<Record>,
    i: int,
    id: Seq<char>,
    town: Seq<char>,
    weather: Seq<char>,
    temperature: u64,
    created_on: Seq<char>,
)
    requires
        0 <= i < rs.len(),
        rs[i]@.contains_key("id"@) && rs[i]@["id"@] == AttrModel::S(id),
        rs[i]@.contains_key("town"@) && rs[i]@["town"@] == AttrModel::S(town),
        rs[i]@.contains_key("weather"@) && rs[i]@["weather"@] == AttrModel::S(weather),
        rs[i]@.contains_key("temperature"@) && rs[i]@["temperature"@] == AttrModel::N(
            Some(temperature),
        ),
        rs[i]@.contains_key("created_on"@) && rs[i]@["created_on"@] == AttrModel::S(created_on),
    ensures
        scanned_items(Some(rs))[i] == (WeatherItemModel { id, town, weather, temperature, created_on }),
{
    crate::model::lemma_read_takes_attribute_values(rs[i]@, id, town, weather, temperature, created_on);
}

/// The key under which get, update and delete look up an item holds the
/// path `id` exactly, whatever its length; it is the very attribute that
/// the post handler writes as the item's `id`, so an item posted with
/// `id` is the one these handlers find under that id.
pub proof fn lemma_key_is_the_stored_id(id: Seq<char>, item: WeatherItemModel)
    ensures
        id_key(id) == ("id"@, AttrModel::S(id)),
        item.id == id ==> id_key(id) == ("id"@, record_from_item(item)["id"@]),
{
    crate::model::lemma_write_keeps_field_values(item);
}

/// The values that an update assigns are the body's weather, town and
/// temperature unchanged (negative temperatures included), the same
/// attribute values that the post handler writes for those fields, and
/// each placeholder names the attribute of the same field.
pub proof fn lemma_update_assigns_body_values(item: WeatherItemModel)
    ensures
        update_values(item).len() == 3,
        update_names().len() == 3,
        update_values(item)[0] == (":weather"@, AttrModel::S(item.weather)),
        update_values(item)[1] == (":town"@, AttrModel::S(item.town)),
        update_values(item)[2] == (":temperature"@, AttrModel::N(Some(item.temperature))),
        forall|i: int|
            0 <= i < 3 ==> (#[trigger] update_values(item)[i]).1 == record_from_item(
                item,
            )[update_names()[i].1],
{
    crate::model::lemma_write_keeps_field_values(item);
    assert(update_values(item)[0].1 == record_from_item(item)[update_names()[0].1]);
    assert(update_values(item)[1].1 == record_from_item(item)[update_names()[1].1]);
    assert(update_values(item)[2].1 == record_from_item(item)[update_names()[2].1]);
}

} // verus!
