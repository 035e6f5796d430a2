use vstd::prelude::*;

use crate::attr::{AttrModel, AttrValue, Record};

verus! {

/// What the handlers read of an API Gateway proxy request: the request
/// path, the path parameters (name, value) and the body.
pub struct Request {
    pub path: Option<String>,
    pub path_parameters: Vec<(String, String)>,
    pub body: Option<String>,
}

/// The value of the first path parameter named `name`, if any.
pub open spec fn param_of(params: Seq<(String, String)>, name: Seq<char>) -> Option<Seq<char>>
    decreases params.len(),
{
    if params.len() == 0 {
        None
    } else if params[0].0@ == name {
        Some(params[0].1@)
    } else {
        param_of(params.drop_first(), name)
    }
}

/// The view of an optional string.
pub open spec fn opt_text(s: Option<String>) -> Option<Seq<char>> {
    match s {
        Some(t) => Some(t@),
        None => None,
    }
}

/// The value of the path parameter `name` of `params`, if it has one.
pub fn path_parameter(params: &Vec<(String, String)>, name: &str) -> (r: Option<String>)
    ensures
        opt_text(r) == param_of(params@, name@),
{
    let key = String::from_str(name);
    let n = params.len();
    let mut i: usize = 0;
    assert(params@.subrange(0, n as int) =~= params@);
    while i < n
        invariant
            n == params@.len(),
            i <= n,
            key@ == name@,
            param_of(params@, name@) == param_of(params@.subrange(i as int, n as int), name@),
        decreases n - i,
    {
        let ghost rest = params@.subrange(i as int, n as int);
        assert(rest.drop_first() =~= params@.subrange(i + 1, n as int));
        if params[i].0 == key {
            return Some(params[i].1.clone());
        }
        i = i + 1;
    }
    None
}

/// The key of a table item: one attribute name and its value.
pub struct KeyAttr {
    pub name: String,
    pub value: AttrValue,
}

/// The view of a [`KeyAttr`].
pub open spec fn key_view(k: KeyAttr) -> (Seq<char>, AttrModel) {
    (k.name@, k.value@)
}

/// The key `id = <id>` (a string attribute) under which items are stored.
pub open spec fn id_key(id: Seq<char>) -> (Seq<char>, AttrModel) {
    ("id"@, AttrModel::S(id))
}

/// The key `id = <id>`.
pub fn make_id_key(id: &String) -> (k: KeyAttr)
    ensures
        key_view(k) == id_key(id@),
{
    KeyAttr { name: String::from_str("id"), value: AttrValue::S(id.clone()) }
}

/// An `UpdateItem` call: the key of the item, the update expression, the
/// expression attribute names and values, and whether the call returns
/// the updated new attributes.
pub struct UpdateItemInput {
    pub key: KeyAttr,
    pub update_expression: String,
    pub expression_attribute_names: Vec<(String, String)>,
    pub expression_attribute_values: Vec<(String, AttrValue)>,
    pub return_updated_new: bool,
}

/// A `Scan` call: the page size and the key to start after, if any.
pub struct ScanInput {
    pub limit: i32,
    pub exclusive_start_key: Option<KeyAttr>,
}

/// A `PutItem` call: the attributes of the item to store.
pub struct PutItemInput {
    pub item: Record,
}

} // verus!
