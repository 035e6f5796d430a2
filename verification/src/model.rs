use vstd::prelude::*;

use crate::attr::{AttrModel, AttrValue, Record};

verus! {

/// A weather report for a town, as the API stores and serves it.
///
/// `temperature` holds the bit pattern of the `f64` temperature
/// (`f64::to_bits`): the library decides nothing on its numeric value and
/// carries it unchanged.
pub struct WeatherItem {
    pub id: String,
    pub town: String,
    pub weather: String,
    pub temperature: u64,
    pub created_on: String,
}

/// The mathematical value of a [`WeatherItem`].
pub struct WeatherItemModel {
    pub id: Seq<char>,
    pub town: Seq<char>,
    pub weather: Seq<char>,
    pub temperature: u64,
    pub created_on: Seq<char>,
}

impl View for WeatherItem {
    type V = WeatherItemModel;

    open spec fn view(&self) -> WeatherItemModel {
        WeatherItemModel {
            id: self.id@,
            town: self.town@,
            weather: self.weather@,
            temperature: self.temperature,
            created_on: self.created_on@,
        }
    }
}

impl WeatherItem {
    /// A copy of this item.
    pub fn duplicate(&self) -> (r: WeatherItem)
        ensures
            r@ == self@,
    {
        WeatherItem {
            id: self.id.clone(),
            town: self.town.clone(),
            weather: self.weather.clone(),
            temperature: self.temperature,
            created_on: self.created_on.clone(),
        }
    }
}

/// Errors of the weather item model.
#[derive(Debug)]
pub enum Error {
    InternalError(String),
}

/// The string that an optional attribute holds, or `default` when it is
/// absent or is not a string.
pub open spec fn string_or(val: Option<AttrModel>, default: Seq<char>) -> Seq<char> {
    match val {
        Some(AttrModel::S(s)) => s,
        _ => default,
    }
}

/// The number that an optional attribute holds (as `f64` bits), or
/// `default` when it is absent, is not a number, or its text is not an
/// `f64`.
pub open spec fn number_or(val: Option<AttrModel>, default: u64) -> u64 {
    match val {
        Some(AttrModel::N(Some(n))) => n,
        _ => default,
    }
}

/// The attribute of `record` named `name`, if any.
pub open spec fn attr_of(record: Map<Seq<char>, AttrModel>, name: Seq<char>) -> Option<AttrModel> {
    if record.contains_key(name) {
        Some(record[name])
    } else {
        None
    }
}

/// The view of an optional borrowed attribute.
pub open spec fn opt_view(val: Option<&AttrValue>) -> Option<AttrModel> {
    match val {
        Some(v) => Some(v@),
        None => None,
    }
}

/// The weather item that a DynamoDB item describes: each field is read
/// from the attribute of its name, and a missing or ill-typed attribute
/// gives an empty string, or a temperature of `0.0`.
pub open spec fn item_from_record(record: Map<Seq<char>, AttrModel>) -> WeatherItemModel {
    WeatherItemModel {
        id: string_or(attr_of(record, "id"@), Seq::empty()),
        town: string_or(attr_of(record, "town"@), Seq::empty()),
        weather: string_or(attr_of(record, "weather"@), Seq::empty()),
        temperature: number_or(attr_of(record, "temperature"@), 0),
        created_on: string_or(attr_of(record, "created_on"@), Seq::empty()),
    }
}

/// The DynamoDB item that stores a weather item: `id`, `town`, `weather`
/// and `created_on` as strings and `temperature` as a number.
pub open spec fn record_from_item(item: WeatherItemModel) -> Map<Seq<char>, AttrModel> {
    Map::empty().insert("id"@, AttrModel::S(item.id)).insert("town"@, AttrModel::S(item.town)).insert(
        "weather"@,
        AttrModel::S(item.weather),
    ).insert("temperature"@, AttrModel::N(Some(item.temperature))).insert(
        "created_on"@,
        AttrModel::S(item.created_on),
    )
}

/// Whether a DynamoDB item has all five attributes of a weather item.
pub open spec fn has_all_fields(record: Map<Seq<char>, AttrModel>) -> bool {
    &&& record.contains_key("id"@)
    &&& record.contains_key("town"@)
    &&& record.contains_key("weather"@)
    &&& record.contains_key("temperature"@)
    &&& record.contains_key("created_on"@)
}

/// The message of the error for a DynamoDB item that lacks a field: it
/// names the first missing one, in the order `id`, `town`, `weather`,
/// `temperature`, `created_on`.
pub open spec fn missing_field_message(record: Map<Seq<char>, AttrModel>) -> Seq<char> {
    if !record.contains_key("id"@) {
        "Missing id"@
    } else if !record.contains_key("town"@) {
        "Missing town"@
    } else if !record.contains_key("weather"@) {
        "Missing weather"@
    } else if !record.contains_key("temperature"@) {
        "Missing temperature"@
    } else {
        "Missing created_on"@
    }
}

/// The five field names of a weather item are distinct texts.
pub proof fn lemma_field_names_distinct()
    ensures
        "id"@ != "town"@,
        "id"@ != "weather"@,
        "id"@ != "temperature"@,
        "id"@ != "created_on"@,
        "town"@ != "weather"@,
        "town"@ != "temperature"@,
        "town"@ != "created_on"@,
        "weather"@ != "temperature"@,
        "weather"@ != "created_on"@,
        "temperature"@ != "created_on"@,
{
    reveal_strlit("id");
    reveal_strlit("town");
    reveal_strlit("weather");
    reveal_strlit("temperature");
    reveal_strlit("created_on");
    assert("id"@.len() == 2 && "town"@.len() == 4 && "weather"@.len() == 7);
    assert("temperature"@.len() == 11 && "created_on"@.len() == 10);
}

/// The string held by `val`, or a copy of `default` when `val` is absent
/// or not a string.
pub fn as_string(val: Option<&AttrValue>, default: &String) -> (r: String)
    ensures
        r@ == string_or(opt_view(val), default@),
{
    if let Some(v) = val {
        if let AttrValue::S(s) = v {
            return s.clone();
        }
    }
    default.clone()
}

/// The number held by `val` (as `f64` bits), or `default` when `val` is
/// absent, not a number, or a number whose text is not an `f64`.
pub fn as_f64(val: Option<&AttrValue>, default: u64) -> (r: u64)
    ensures
        r == number_or(opt_view(val), default),
{
    if let Some(v) = val {
        if let AttrValue::N(n) = v {
            if let Some(n) = n {
                return *n;
            }
        }
    }
    default
}

impl WeatherItem {
    /// Tries to convert a DynamoDB item into a weather item.
    ///
    /// This fails when the item lacks one of the five fields; the error
    /// names the first missing one. A field of the wrong kind reads as an
    /// empty string, or as a temperature of `0.0`.
    pub fn try_from(value: &Record) -> (r: Result<WeatherItem, Error>)
        ensures
            r is Err <==> !has_all_fields(value@),
            r matches Ok(item) ==> item@ == item_from_record(value@),
            r matches Err(Error::InternalError(m)) ==> m@ == missing_field_message(value@),
    {
        let id = value.get("id");
        let town = value.get("town");
        let weather = value.get("weather");
        let temperature = value.get("temperature");
        let created_on = value.get("created_on");
        if id.is_none() {
            return Err(Error::InternalError(String::from_str("Missing id")));
        }
        if town.is_none() {
            return Err(Error::InternalError(String::from_str("Missing town")));
        }
        if weather.is_none() {
            return Err(Error::InternalError(String::from_str("Missing weather")));
        }
        if temperature.is_none() {
            return Err(Error::InternalError(String::from_str("Missing temperature")));
        }
        if created_on.is_none() {
            return Err(Error::InternalError(String::from_str("Missing created_on")));
        }
        let empty = String::new();
        let item = WeatherItem {
            id: as_string(id, &empty),
            town: as_string(town, &empty),
            weather: as_string(weather, &empty),
            temperature: as_f64(temperature, 0),
            created_on: as_string(created_on, &empty),
        };
        Ok(item)
    }
}

impl Record {
    /// Converts a weather item into the DynamoDB item that stores it:
    /// `id`, `town`, `weather` and `created_on` as strings and
    /// `temperature` as a number.
    pub fn from(value: &WeatherItem) -> (r: Record)
        ensures
            r@ == record_from_item(value@),
    {
        let mut retval = Record::new();
        retval.insert(String::from_str("id"), AttrValue::S(value.id.clone()));
        retval.insert(String::from_str("town"), AttrValue::S(value.town.clone()));
        retval.insert(String::from_str("weather"), AttrValue::S(value.weather.clone()));
        retval.insert(String::from_str("temperature"), AttrValue::N(Some(value.temperature)));
        retval.insert(String::from_str("created_on"), AttrValue::S(value.created_on.clone()));
        retval
    }
}

/// The DynamoDB item written for a weather item has all five fields, and
/// reading it back gives the same item.
pub proof fn lemma_record_round_trip(item: WeatherItemModel)
    ensures
        has_all_fields(record_from_item(item)),
        item_from_record(record_from_item(item)) == item,
{
    lemma_field_names_distinct();
    let r = record_from_item(item);
    assert(item_from_record(r) =~= item);
}

/// Reading a complete DynamoDB item takes each field from the attribute of
/// its name as it is: a string attribute gives that very string, and a
/// number attribute gives that very number (as `f64` bits), whatever its
/// value or sign.
pub proof fn lemma_read_takes_attribute_values(
    record: Map<Seq<char>, AttrModel>,
    id: Seq<char>,
    town: Seq<char>,
    weather: Seq<char>,
    temperature: u64,
    created_on: Seq<char>,
)
    requires
        record.contains_key("id"@) && record["id"@] == AttrModel::S(id),
        record.contains_key("town"@) && record["town"@] == AttrModel::S(town),
        record.contains_key("weather"@) && record["weather"@] == AttrModel::S(weather),
        record.contains_key("temperature"@) && record["temperature"@] == AttrModel::N(
            Some(temperature),
        ),
        record.contains_key("created_on"@) && record["created_on"@] == AttrModel::S(created_on),
    ensures
        has_all_fields(record),
        item_from_record(record).id == id,
        item_from_record(record).town == town,
        item_from_record(record).weather == weather,
        item_from_record(record).temperature == temperature,
        item_from_record(record).created_on == created_on,
{
}

/// Writing an item stores each field unchanged under the attribute of its
/// name: the strings as string attributes and the temperature as the very
/// same number, and no other attribute.
pub proof fn lemma_write_keeps_field_values(item: WeatherItemModel)
    ensures
        record_from_item(item).dom() =~= set![
            "id"@,
            "town"@,
            "weather"@,
            "temperature"@,
            "created_on"@,
        ],
        record_from_item(item)["id"@] == AttrModel::S(item.id),
        record_from_item(item)["town"@] == AttrModel::S(item.town),
        record_from_item(item)["weather"@] == AttrModel::S(item.weather),
        record_from_item(item)["temperature"@] == AttrModel::N(Some(item.temperature)),
        record_from_item(item)["created_on"@] == AttrModel::S(item.created_on),
{
    lemma_field_names_distinct();
}

} // verus!
