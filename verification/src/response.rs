use vstd::prelude::*;

use crate::model::{WeatherItem, WeatherItemModel};

verus! {

/// The body of an API Gateway response: text, or the JSON rendering of one
/// weather item or of a list of them.
pub enum Body {
    Text(String),
    Item(WeatherItem),
    Items(Vec<WeatherItem>),
}

/// The mathematical value of a [`Body`].
pub enum BodyModel {
    Text(Seq<char>),
    Item(WeatherItemModel),
    Items(Seq<WeatherItemModel>),
}

impl View for Body {
    type V = BodyModel;

    open spec fn view(&self) -> BodyModel {
        match self {
            Body::Text(t) => BodyModel::Text(t@),
            Body::Item(i) => BodyModel::Item(i@),
            Body::Items(v) => BodyModel::Items(v@.map_values(|i: WeatherItem| i@)),
        }
    }
}

/// An API Gateway proxy response, with no headers.
pub struct ApiResponse {
    pub status_code: i64,
    pub is_base64_encoded: bool,
    pub body: Option<Body>,
}

/// The mathematical value of an [`ApiResponse`].
pub struct ResponseModel {
    pub status_code: i64,
    pub is_base64_encoded: bool,
    pub body: Option<BodyModel>,
}

impl View for ApiResponse {
    type V = ResponseModel;

    open spec fn view(&self) -> ResponseModel {
        ResponseModel {
            status_code: self.status_code,
            is_base64_encoded: self.is_base64_encoded,
            body: match self.body {
                Some(b) => Some(b@),
                None => None,
            },
        }
    }
}

/// A plain (not base64-encoded) response with the given status and body.
pub open spec fn response_with(status_code: i64, body: Option<BodyModel>) -> ResponseModel {
    ResponseModel { status_code, is_base64_encoded: false, body }
}

/// A plain response with the given status and text body.
pub open spec fn text_response(status_code: i64, text: Seq<char>) -> ResponseModel {
    response_with(status_code, Some(BodyModel::Text(text)))
}

/// The response every handler starts from: status code `0`, not base64
/// encoded, no body and no headers.
pub fn api_gw_response() -> (resp: ApiResponse)
    ensures
        resp@ == response_with(0, None),
{
    ApiResponse { status_code: 0, is_base64_encoded: false, body: None }
}

} // verus!
