//! Weather items kept in a DynamoDB table and served through API Gateway
//! Lambda handlers: the item model, its conversion to and from DynamoDB
//! attribute records, and the decisions each handler makes between its
//! calls to the table.

pub mod attr;
pub mod decimal;
pub mod model;
pub mod json;
pub mod ksuid;
pub mod response;
pub mod request;
pub mod handlers;
