# sam_rust_api

Weather reports stored in a DynamoDB table and served by API Gateway
Lambda handlers (get, post, update, delete, list), with the decisions of
the handlers verified by Verus.

- `src/` is the verified library:
  - `attr.rs`: DynamoDB attribute values and items (`Record`, a map from
    attribute names to values);
  - `model.rs`: `WeatherItem` and its conversions to and from records;
  - `json.rs`: the `{"message": ...}` bodies;
  - `ksuid.rs`: the KSUID that names a posted item;
  - `decimal.rs`: decimal text of integers;
  - `request.rs`, `response.rs`: what the handlers read of a request and
    answer;
  - `handlers.rs`: each handler as a sequence of decisions between calls
    to the table, and the laws that relate them.
- `app/` runs the handlers on AWS Lambda: it reads the events, calls
  DynamoDB, parses and renders JSON with serde, and converts between the
  AWS types and the library's values.
- `tests/` exercises the library on concrete values.
