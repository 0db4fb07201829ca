use open_search_api::gateway::{extract_hits, handle_query, health_check, AppError};
use open_search_api::json::{JsonField, JsonNum, JsonValue};

fn field(key: &str, value: JsonValue) -> JsonField {
    JsonField { key: key.to_string(), value }
}

fn s(text: &str) -> JsonValue {
    JsonValue::Str(text.to_string())
}

fn envelope(hits: JsonValue) -> JsonValue {
    JsonValue::Obj(vec![field(
        "hits",
        JsonValue::Obj(vec![
            field("total", JsonValue::Num(JsonNum::UInt(1))),
            field("hits", hits),
        ]),
    )])
}

fn product_json() -> JsonValue {
    JsonValue::Obj(vec![
        field("base_price", JsonValue::Num(JsonNum::Float(24.99f64.to_bits()))),
        field("discount_percentage", JsonValue::Num(JsonNum::UInt(0))),
        field("quantity", JsonValue::Num(JsonNum::UInt(2))),
        field("manufacturer", s("Elitelligence")),
        field("tax_amount", JsonValue::Num(JsonNum::UInt(0))),
        field("product_id", JsonValue::Num(JsonNum::UInt(14075))),
        field("category", s("Men's Clothing")),
        field("sku", s("ZO0549605496")),
        field("taxless_price", JsonValue::Num(JsonNum::Float(24.99f64.to_bits()))),
        field("unit_discount_amount", JsonValue::Num(JsonNum::UInt(0))),
        field("min_price", JsonValue::Num(JsonNum::Float(13.24f64.to_bits()))),
        field("_id", s("sold_product_584677_14075")),
        field("discount_amount", JsonValue::Num(JsonNum::UInt(0))),
        field("created_on", s("2016-12-26T09:28:48Z")),
        field("product_name", s("Basic T-shirt - dark blue")),
        field("price", JsonValue::Num(JsonNum::Float(24.99f64.to_bits()))),
        field("taxful_price", JsonValue::Num(JsonNum::Float(24.99f64.to_bits()))),
        field("base_unit_price", JsonValue::Num(JsonNum::Float(24.99f64.to_bits()))),
    ])
}

fn source_json() -> JsonValue {
    JsonValue::Obj(vec![
        field("currency", s("EUR")),
        field("customer_first_name", s("Eddie")),
        field("customer_full_name", s("Eddie Underwood")),
        field("customer_gender", s("MALE")),
        field("customer_id", JsonValue::Num(JsonNum::UInt(38))),
        field("customer_last_name", s("Underwood")),
        field("customer_phone", s("")),
        field("day_of_week", s("Monday")),
        field("day_of_week_i", JsonValue::Num(JsonNum::UInt(0))),
        field("email", s("eddie@underwood-family.zzz")),
        field("manufacturer", JsonValue::Arr(vec![s("Elitelligence"), s("Oceanavigations")])),
        field("order_date", s("2020-01-06T09:28:48Z")),
        field("category", JsonValue::Arr(vec![s("Men's Clothing")])),
        field("order_id", JsonValue::Num(JsonNum::UInt(584677))),
        field("products", JsonValue::Arr(vec![product_json()])),
    ])
}

fn hit_json() -> JsonValue {
    JsonValue::Obj(vec![
        field("_index", s("ecommerce")),
        field("_source", source_json()),
    ])
}

#[test]
fn health_check_always_200() {
    assert_eq!(health_check(), 200);
}

#[test]
fn well_formed_response_yields_rows() {
    let backend = Ok(envelope(JsonValue::Arr(vec![hit_json()])));
    let rows = handle_query(backend).expect("a well-formed response must decode");
    assert_eq!(rows.len(), 1);
    let src = &rows[0].source;
    assert_eq!(src.currency, "EUR");
    assert_eq!(src.customer_first_name, "Eddie");
    assert_eq!(src.customer_full_name, "Eddie Underwood");
    assert_eq!(src.customer_gender, "MALE");
    assert_eq!(src.customer_id, 38);
    assert_eq!(src.customer_last_name, "Underwood");
    assert_eq!(src.customer_phone, "");
    assert_eq!(src.day_of_week, "Monday");
    assert_eq!(src.day_of_week_i, 0);
    assert_eq!(src.email, "eddie@underwood-family.zzz");
    assert_eq!(src.manufacturer, vec!["Elitelligence", "Oceanavigations"]);
    assert_eq!(src.order_date, "2020-01-06T09:28:48Z");
    assert_eq!(src.order_date_millis, 1578302928000);
    assert_eq!(src.category, vec!["Men's Clothing"]);
    assert_eq!(src.order_id, 584677);
    assert_eq!(src.products.len(), 1);
    let p = &src.products[0];
    assert_eq!(p.base_price, JsonNum::Float(24.99f64.to_bits()));
    assert_eq!(p.discount_percentage, JsonNum::UInt(0));
    assert_eq!(p.quantity, 2);
    assert_eq!(p.manufacturer, "Elitelligence");
    assert_eq!(p.product_id, 14075);
    assert_eq!(p.category, "Men's Clothing");
    assert_eq!(p.sku, "ZO0549605496");
    assert_eq!(p.unit_discount_amount, 0);
    assert_eq!(p.id, "sold_product_584677_14075");
    assert_eq!(p.created_on, "2016-12-26T09:28:48Z");
    assert_eq!(p.created_on_millis, 1482744528000);
    assert_eq!(p.product_name, "Basic T-shirt - dark blue");
}

#[test]
fn zero_matches_yield_empty_array() {
    let backend = Ok(envelope(JsonValue::Arr(vec![])));
    let rows = handle_query(backend).expect("zero matches are not an error");
    assert!(rows.is_empty());
}

#[test]
fn backend_failure_yields_500_with_body() {
    let backend = Err("error trying to connect: tcp connect error".to_string());
    let err = handle_query(backend).expect_err("a backend failure must not yield rows");
    let (status, body) = err.into_response();
    assert_eq!(status, 500);
    assert!(!body.is_empty());
    assert_eq!(body, "error trying to connect: tcp connect error");
}

#[test]
fn malformed_envelope_yields_500_with_body() {
    let backend = Ok(JsonValue::Obj(vec![field("took", JsonValue::Num(JsonNum::UInt(3)))]));
    let err = handle_query(backend).expect_err("a malformed envelope must not yield rows");
    let (status, body) = err.into_response();
    assert_eq!(status, 500);
    assert!(!body.is_empty());
}

#[test]
fn non_array_hits_yield_500() {
    let backend = Ok(envelope(s("not an array")));
    let err = handle_query(backend).expect_err("hits must be an array");
    let (status, _) = err.into_response();
    assert_eq!(status, 500);
}

#[test]
fn mismatched_row_yields_500_not_partial_row() {
    // customer_id carries a string where the shape asks for an integer.
    let mut hit = hit_json();
    if let JsonValue::Obj(ref mut fields) = hit {
        if let JsonValue::Obj(ref mut src) = fields[1].value {
            src[4].value = s("38");
        }
    }
    let backend = Ok(envelope(JsonValue::Arr(vec![hit_json(), hit])));
    let err = handle_query(backend).expect_err("a mismatched row must fail the whole response");
    let (status, body) = err.into_response();
    assert_eq!(status, 500);
    assert!(!body.is_empty());
}

#[test]
fn invalid_date_fails_decoding() {
    let mut hit = hit_json();
    if let JsonValue::Obj(ref mut fields) = hit {
        if let JsonValue::Obj(ref mut src) = fields[1].value {
            src[11].value = s("yesterday at noon");
        }
    }
    let backend = Ok(envelope(JsonValue::Arr(vec![hit])));
    let err = handle_query(backend).expect_err("an invalid date must fail decoding");
    let (status, _) = err.into_response();
    assert_eq!(status, 500);
}

#[test]
fn envelope_extraction_finds_the_inner_hits() {
    let resp = envelope(JsonValue::Arr(vec![s("anything")]));
    match extract_hits(&resp) {
        Some(JsonValue::Arr(items)) => assert_eq!(items.len(), 1),
        other => panic!("unexpected extraction result: {other:?}"),
    }
    let flat = JsonValue::Obj(vec![field("hits", JsonValue::Arr(vec![]))]);
    assert!(extract_hits(&flat).is_none());
}

#[test]
fn auth_error_answers_with_its_status() {
    let (status, body) = AppError::AuthError(401).into_response();
    assert_eq!(status, 401);
    assert!(body.is_empty());
}
