//! The fixed record shape of a matched row, and its decoding from the
//! crate's JSON model.
//!
//! A row mirrors one stored document: customer identity fields, order
//! metadata, and a list of line-item records. Decoding either yields a
//! fully populated record or fails as a whole; no partially populated
//! row ever leaves this module.

use vstd::prelude::*;
use crate::json::{JsonField, JsonNum, JsonValue, lookup, obj_get, get, get_field};
use crate::datetime::{rfc3339_millis_of, parse_rfc3339_millis};

verus! {

/// The `i32` a JSON number denotes, if it is an integer in range.
pub open spec fn num_as_i32(n: JsonNum) -> Option<i32> {
    match n {
        JsonNum::Int(i) => if i32::MIN as int <= i as int && i as int <= i32::MAX as int {
            Some(i as i32)
        } else {
            None
        },
        JsonNum::UInt(u) => if u as int <= i32::MAX as int {
            Some(u as i32)
        } else {
            None
        },
        JsonNum::Float(_) => None,
    }
}

/// The `u8` a JSON number denotes, if it is an integer in range.
pub open spec fn num_as_u8(n: JsonNum) -> Option<u8> {
    match n {
        JsonNum::Int(i) => if 0 <= i as int && i as int <= 255 {
            Some(i as u8)
        } else {
            None
        },
        JsonNum::UInt(u) => if u as int <= 255 {
            Some(u as u8)
        } else {
            None
        },
        JsonNum::Float(_) => None,
    }
}

/// The characters of the string under `key`, if present and a string.
pub open spec fn str_field(fields: Seq<JsonField>, key: Seq<char>) -> Option<Seq<char>> {
    match lookup(fields, key) {
        Some(JsonValue::Str(s)) => Some(s@),
        _ => None,
    }
}

/// The number under `key`, if present and a number.
pub open spec fn num_field(fields: Seq<JsonField>, key: Seq<char>) -> Option<JsonNum> {
    match lookup(fields, key) {
        Some(JsonValue::Num(n)) => Some(n),
        _ => None,
    }
}

/// The `i32` under `key`, if present, a number, an integer and in range.
pub open spec fn i32_field(fields: Seq<JsonField>, key: Seq<char>) -> Option<i32> {
    match num_field(fields, key) {
        Some(n) => num_as_i32(n),
        None => None,
    }
}

/// The `u8` under `key`, if present, a number, an integer and in range.
pub open spec fn u8_field(fields: Seq<JsonField>, key: Seq<char>) -> Option<u8> {
    match num_field(fields, key) {
        Some(n) => num_as_u8(n),
        None => None,
    }
}

/// The value under `key` is a valid RFC 3339 date-and-time string.
pub open spec fn date_field_ok(fields: Seq<JsonField>, key: Seq<char>) -> bool {
    str_field(fields, key) matches Some(d) && rfc3339_millis_of(d) is Some
}

/// Every element of `items` is a JSON string.
pub open spec fn all_strings(items: Seq<JsonValue>) -> bool {
    forall|i: int| 0 <= i < items.len() ==> items[i] is Str
}

/// `out` holds, in order, the characters of the strings in `items`.
pub open spec fn strings_match(items: Seq<JsonValue>, out: Seq<String>) -> bool {
    &&& out.len() == items.len()
    &&& forall|i: int|
        0 <= i < items.len() ==> items[i] is Str && out[i]@ == items[i]->Str_0@
}

/// The value under `key` is an array of strings.
pub open spec fn str_arr_field_ok(fields: Seq<JsonField>, key: Seq<char>) -> bool {
    lookup(fields, key) matches Some(v) && v is Arr && all_strings(v->Arr_0@)
}

/// `out` holds the characters of the string array under `key`.
pub open spec fn str_arr_field_matches(
    fields: Seq<JsonField>,
    key: Seq<char>,
    out: Seq<String>,
) -> bool {
    lookup(fields, key) matches Some(v) && v is Arr && strings_match(v->Arr_0@, out)
}

fn get_str(fields: &Vec<JsonField>, key: &str) -> (r: Option<String>)
    ensures
        r is Some <==> str_field(fields@, key@) is Some,
        r matches Some(s) ==> str_field(fields@, key@) == Some(s@),
{
    match get_field(fields, key) {
        Some(JsonValue::Str(s)) => Some(s.clone()),
        _ => None,
    }
}

fn get_num(fields: &Vec<JsonField>, key: &str) -> (r: Option<JsonNum>)
    ensures
        r == num_field(fields@, key@),
{
    match get_field(fields, key) {
        Some(JsonValue::Num(n)) => Some(*n),
        _ => None,
    }
}

fn get_i32(fields: &Vec<JsonField>, key: &str) -> (r: Option<i32>)
    ensures
        r == i32_field(fields@, key@),
{
    match get_num(fields, key) {
        Some(JsonNum::Int(i)) => if i32::MIN as i64 <= i && i <= i32::MAX as i64 {
            Some(i as i32)
        } else {
            None
        },
        Some(JsonNum::UInt(u)) => if u <= i32::MAX as u64 {
            Some(u as i32)
        } else {
            None
        },
        _ => None,
    }
}

fn get_u8(fields: &Vec<JsonField>, key: &str) -> (r: Option<u8>)
    ensures
        r == u8_field(fields@, key@),
{
    match get_num(fields, key) {
        Some(JsonNum::Int(i)) => if 0 <= i && i <= 255 {
            Some(i as u8)
        } else {
            None
        },
        Some(JsonNum::UInt(u)) => if u <= 255 {
            Some(u as u8)
        } else {
            None
        },
        _ => None,
    }
}

fn get_date(fields: &Vec<JsonField>, key: &str) -> (r: Option<(String, i64)>)
    ensures
        r is Some <==> date_field_ok(fields@, key@),
        r matches Some(p) ==> str_field(fields@, key@) == Some(p.0@)
            && rfc3339_millis_of(p.0@) == Some(p.1),
{
    let s = match get_str(fields, key) {
        Some(s) => s,
        None => {
            return None;
        },
    };
    match parse_rfc3339_millis(s.as_str()) {
        Some(millis) => Some((s, millis)),
        None => None,
    }
}

fn get_str_vec(fields: &Vec<JsonField>, key: &str) -> (r: Option<Vec<String>>)
    ensures
        r is Some <==> str_arr_field_ok(fields@, key@),
        r matches Some(out) ==> str_arr_field_matches(fields@, key@, out@),
{
    let arr = match get_field(fields, key) {
        Some(JsonValue::Arr(items)) => items,
        _ => {
            return None;
        },
    };
    let mut out: Vec<String> = Vec::new();
    let n = arr.len();
    for i in 0..n
        invariant
            n == arr.len(),
            out@.len() == i,
            lookup(fields@, key@) matches Some(v) && v is Arr && v->Arr_0 == *arr,
            forall|j: int| 0 <= j < i ==> arr@[j] is Str && out@[j]@ == arr@[j]->Str_0@,
    {
        match &arr[i] {
            JsonValue::Str(s) => out.push(s.clone()),
            _ => {
                return None;
            },
        }
    }
    Some(out)
}

/// One line item of an order: pricing, tax and product-identity fields.
/// Prices are JSON numbers carried opaquely; the two date fields keep
/// the backend's text beside the instant it denotes.
#[derive(Debug)]
pub struct Product {
    pub base_price: JsonNum,
    pub discount_percentage: JsonNum,
    pub quantity: u8,
    pub manufacturer: String,
    pub tax_amount: JsonNum,
    pub product_id: i32,
    pub category: String,
    pub sku: String,
    pub taxless_price: JsonNum,
    pub unit_discount_amount: u8,
    pub min_price: JsonNum,
    pub id: String,
    pub discount_amount: JsonNum,
    pub created_on: String,
    pub created_on_millis: i64,
    pub product_name: String,
    pub price: JsonNum,
    pub taxful_price: JsonNum,
    pub base_unit_price: JsonNum,
}

/// The stored fields of one matched document: customer identity, order
/// metadata, and the order's line items.
#[derive(Debug)]
pub struct Source {
    pub currency: String,
    pub customer_first_name: String,
    pub customer_full_name: String,
    pub customer_gender: String,
    pub customer_id: i32,
    pub customer_last_name: String,
    pub customer_phone: String,
    pub day_of_week: String,
    pub day_of_week_i: u8,
    pub email: String,
    pub manufacturer: Vec<String>,
    pub order_date: String,
    pub order_date_millis: i64,
    pub category: Vec<String>,
    pub order_id: i32,
    pub products: Vec<Product>,
}

/// One matched row as the endpoint returns it: the document's stored
/// fields, under the backend's source envelope.
#[derive(Debug)]
pub struct Row {
    pub source: Source,
}

/// `v` is an object with every field a line item needs, of the right
/// type.
pub open spec fn product_shape_ok(v: JsonValue) -> bool {
    &&& v is Obj
    &&& num_field(v->Obj_0@, "base_price"@) is Some
    &&& num_field(v->Obj_0@, "discount_percentage"@) is Some
    &&& u8_field(v->Obj_0@, "quantity"@) is Some
    &&& str_field(v->Obj_0@, "manufacturer"@) is Some
    &&& num_field(v->Obj_0@, "tax_amount"@) is Some
    &&& i32_field(v->Obj_0@, "product_id"@) is Some
    &&& str_field(v->Obj_0@, "category"@) is Some
    &&& str_field(v->Obj_0@, "sku"@) is Some
    &&& num_field(v->Obj_0@, "taxless_price"@) is Some
    &&& u8_field(v->Obj_0@, "unit_discount_amount"@) is Some
    &&& num_field(v->Obj_0@, "min_price"@) is Some
    &&& str_field(v->Obj_0@, "_id"@) is Some
    &&& num_field(v->Obj_0@, "discount_amount"@) is Some
    &&& date_field_ok(v->Obj_0@, "created_on"@)
    &&& str_field(v->Obj_0@, "product_name"@) is Some
    &&& num_field(v->Obj_0@, "price"@) is Some
    &&& num_field(v->Obj_0@, "taxful_price"@) is Some
    &&& num_field(v->Obj_0@, "base_unit_price"@) is Some
}

/// Every field of `p` holds exactly what the object `v` holds under the
/// field's key.
pub open spec fn product_matches(v: JsonValue, p: Product) -> bool {
    &&& v is Obj
    &&& num_field(v->Obj_0@, "base_price"@) == Some(p.base_price)
    &&& num_field(v->Obj_0@, "discount_percentage"@) == Some(p.discount_percentage)
    &&& u8_field(v->Obj_0@, "quantity"@) == Some(p.quantity)
    &&& str_field(v->Obj_0@, "manufacturer"@) == Some(p.manufacturer@)
    &&& num_field(v->Obj_0@, "tax_amount"@) == Some(p.tax_amount)
    &&& i32_field(v->Obj_0@, "product_id"@) == Some(p.product_id)
    &&& str_field(v->Obj_0@, "category"@) == Some(p.category@)
    &&& str_field(v->Obj_0@, "sku"@) == Some(p.sku@)
    &&& num_field(v->Obj_0@, "taxless_price"@) == Some(p.taxless_price)
    &&& u8_field(v->Obj_0@, "unit_discount_amount"@) == Some(p.unit_discount_amount)
    &&& num_field(v->Obj_0@, "min_price"@) == Some(p.min_price)
    &&& str_field(v->Obj_0@, "_id"@) == Some(p.id@)
    &&& num_field(v->Obj_0@, "discount_amount"@) == Some(p.discount_amount)
    &&& str_field(v->Obj_0@, "created_on"@) == Some(p.created_on@)
    &&& rfc3339_millis_of(p.created_on@) == Some(p.created_on_millis)
    &&& str_field(v->Obj_0@, "product_name"@) == Some(p.product_name@)
    &&& num_field(v->Obj_0@, "price"@) == Some(p.price)
    &&& num_field(v->Obj_0@, "taxful_price"@) == Some(p.taxful_price)
    &&& num_field(v->Obj_0@, "base_unit_price"@) == Some(p.base_unit_price)
}

/// Every element of `items` has the line-item shape.
pub open spec fn all_products_ok(items: Seq<JsonValue>) -> bool {
    forall|i: int| 0 <= i < items.len() ==> product_shape_ok(items[i])
}

/// `out` holds, in order, the line items the objects in `items` hold.
pub open spec fn products_match(items: Seq<JsonValue>, out: Seq<Product>) -> bool {
    &&& out.len() == items.len()
    &&& forall|i: int| 0 <= i < items.len() ==> product_matches(items[i], out[i])
}

/// The value under `key` is an array of line-item objects.
pub open spec fn product_arr_field_ok(fields: Seq<JsonField>, key: Seq<char>) -> bool {
    lookup(fields, key) matches Some(v) && v is Arr && all_products_ok(v->Arr_0@)
}

/// `out` holds the line items of the array under `key`.
pub open spec fn product_arr_field_matches(
    fields: Seq<JsonField>,
    key: Seq<char>,
    out: Seq<Product>,
) -> bool {
    lookup(fields, key) matches Some(v) && v is Arr && products_match(v->Arr_0@, out)
}

/// Decodes one line item, whole or not at all.
pub fn decode_product(v: &JsonValue) -> (r: Option<Product>)
    ensures
        r is Some <==> product_shape_ok(*v),
        r matches Some(p) ==> product_matches(*v, p),
{
    let fields = match v {
        JsonValue::Obj(fields) => fields,
        _ => {
            return None;
        },
    };
    let base_price = match get_num(fields, "base_price") {
        Some(x) => x,
        None => {
            return None;
        },
    };
    let discount_percentage = match get_num(fields, "discount_percentage") {
        Some(x) => x,
        None => {
            return None;
        },
    };
    let quantity = match get_u8(fields, "quantity") {
        Some(x) => x,
        None => {
            return None;
        },
    };
    let manufacturer = match get_str(fields, "manufacturer") {
        Some(x) => x,
        None => {
            return None;
        },
    };
    let tax_amount = match get_num(fields, "tax_amount") {
        Some(x) => x,
        None => {
            return None;
        },
    };
    let product_id = match get_i32(fields, "product_id") {
        Some(x) => x,
        None => {
            return None;
        },
    };
    let category = match get_str(fields, "category") {
        Some(x) => x,
        None => {
            return None;
        },
    };
    let sku = match get_str(fields, "sku") {
        Some(x) => x,
        None => {
            return None;
        },
    };
    let taxless_price = match get_num(fields, "taxless_price") {
        Some(x) => x,
        None => {
            return None;
        },
    };
    let unit_discount_amount = match get_u8(fields, "unit_discount_amount") {
        Some(x) => x,
        None => {
            return None;
        },
    };
    let min_price = match get_num(fields, "min_price") {
        Some(x) => x,
        None => {
            return None;
        },
    };
    let id = match get_str(fields, "_id") {
        Some(x) => x,
        None => {
            return None;
        },
    };
    let discount_amount = match get_num(fields, "discount_amount") {
        Some(x) => x,
        None => {
            return None;
        },
    };
    let created_on = match get_date(fields, "created_on") {
        Some(x) => x,
        None => {
            return None;
        },
    };
    let product_name = match get_str(fields, "product_name") {
        Some(x) => x,
        None => {
            return None;
        },
    };
    let price = match get_num(fields, "price") {
        Some(x) => x,
        None => {
            return None;
        },
    };
    let taxful_price = match get_num(fields, "taxful_price") {
        Some(x) => x,
        None => {
            return None;
        },
    };
    let base_unit_price = match get_num(fields, "base_unit_price") {
        Some(x) => x,
        None => {
            return None;
        },
    };
    Some(
        Product {
            base_price,
            discount_percentage,
            quantity,
            manufacturer,
            tax_amount,
            product_id,
            category,
            sku,
            taxless_price,
            unit_discount_amount,
            min_price,
            id,
            discount_amount,
            created_on: created_on.0,
            created_on_millis: created_on.1,
            product_name,
            price,
            taxful_price,
            base_unit_price,
        },
    )
}

fn get_products(fields: &Vec<JsonField>, key: &str) -> (r: Option<Vec<Product>>)
    ensures
        r is Some <==> product_arr_field_ok(fields@, key@),
        r matches Some(out) ==> product_arr_field_matches(fields@, key@, out@),
{
    let arr = match get_field(fields, key) {
        Some(JsonValue::Arr(items)) => items,
        _ => {
            return None;
        },
    };
    let mut out: Vec<Product> = Vec::new();
    let n = arr.len();
    for i in 0..n
        invariant
            n == arr.len(),
            out@.len() == i,
            lookup(fields@, key@) matches Some(v) && v is Arr && v->Arr_0 == *arr,
            forall|j: int| 0 <= j < i ==> product_matches(arr@[j], out@[j]),
    {
        match decode_product(&arr[i]) {
            Some(p) => out.push(p),
            None => {
                return None;
            },
        }
    }
    Some(out)
}

/// `v` is an object with every stored field a row's source needs, of
/// the right type.
pub open spec fn source_shape_ok(v: JsonValue) -> bool {
    &&& v is Obj
    &&& str_field(v->Obj_0@, "currency"@) is Some
    &&& str_field(v->Obj_0@, "customer_first_name"@) is Some
    &&& str_field(v->Obj_0@, "customer_full_name"@) is Some
    &&& str_field(v->Obj_0@, "customer_gender"@) is Some
    &&& i32_field(v->Obj_0@, "customer_id"@) is Some
    &&& str_field(v->Obj_0@, "customer_last_name"@) is Some
    &&& str_field(v->Obj_0@, "customer_phone"@) is Some
    &&& str_field(v->Obj_0@, "day_of_week"@) is Some
    &&& u8_field(v->Obj_0@, "day_of_week_i"@) is Some
    &&& str_field(v->Obj_0@, "email"@) is Some
    &&& str_arr_field_ok(v->Obj_0@, "manufacturer"@)
    &&& date_field_ok(v->Obj_0@, "order_date"@)
    &&& str_arr_field_ok(v->Obj_0@, "category"@)
    &&& i32_field(v->Obj_0@, "order_id"@) is Some
    &&& product_arr_field_ok(v->Obj_0@, "products"@)
}

/// Every field of `s` holds exactly what the object `v` holds under the
/// field's key.
pub open spec fn source_matches(v: JsonValue, s: Source) -> bool {
    &&& v is Obj
    &&& str_field(v->Obj_0@, "currency"@) == Some(s.currency@)
    &&& str_field(v->Obj_0@, "customer_first_name"@) == Some(s.customer_first_name@)
    &&& str_field(v->Obj_0@, "customer_full_name"@) == Some(s.customer_full_name@)
    &&& str_field(v->Obj_0@, "customer_gender"@) == Some(s.customer_gender@)
    &&& i32_field(v->Obj_0@, "customer_id"@) == Some(s.customer_id)
    &&& str_field(v->Obj_0@, "customer_last_name"@) == Some(s.customer_last_name@)
    &&& str_field(v->Obj_0@, "customer_phone"@) == Some(s.customer_phone@)
    &&& str_field(v->Obj_0@, "day_of_week"@) == Some(s.day_of_week@)
    &&& u8_field(v->Obj_0@, "day_of_week_i"@) == Some(s.day_of_week_i)
    &&& str_field(v->Obj_0@, "email"@) == Some(s.email@)
    &&& str_arr_field_matches(v->Obj_0@, "manufacturer"@, s.manufacturer@)
    &&& str_field(v->Obj_0@, "order_date"@) == Some(s.order_date@)
    &&& rfc3339_millis_of(s.order_date@) == Some(s.order_date_millis)
    &&& str_arr_field_matches(v->Obj_0@, "category"@, s.category@)
    &&& i32_field(v->Obj_0@, "order_id"@) == Some(s.order_id)
    &&& product_arr_field_matches(v->Obj_0@, "products"@, s.products@)
}

/// `v` is a hit object whose `_source` has the stored-document shape.
pub open spec fn row_shape_ok(v: JsonValue) -> bool {
    obj_get(v, "_source"@) matches Some(s) && source_shape_ok(s)
}

/// `r` holds exactly the stored document under `v`'s `_source`.
pub open spec fn row_matches(v: JsonValue, r: Row) -> bool {
    obj_get(v, "_source"@) matches Some(s) && source_matches(s, r.source)
}

/// Every element of `items` has the hit shape.
pub open spec fn rows_ok(items: Seq<JsonValue>) -> bool {
    forall|i: int| 0 <= i < items.len() ==> row_shape_ok(items[i])
}

/// `out` holds, in order, the rows the hit objects in `items` hold.
pub open spec fn rows_match(items: Seq<JsonValue>, out: Seq<Row>) -> bool {
    &&& out.len() == items.len()
    &&& forall|i: int| 0 <= i < items.len() ==> row_matches(items[i], out[i])
}

/// `x` and `y` carry the same line item: every field agrees, strings
/// compared by their characters.
pub open spec fn product_content_eq(x: Product, y: Product) -> bool {
    &&& x.base_price == y.base_price
    &&& x.discount_percentage == y.discount_percentage
    &&& x.quantity == y.quantity
    &&& x.manufacturer@ == y.manufacturer@
    &&& x.tax_amount == y.tax_amount
    &&& x.product_id == y.product_id
    &&& x.category@ == y.category@
    &&& x.sku@ == y.sku@
    &&& x.taxless_price == y.taxless_price
    &&& x.unit_discount_amount == y.unit_discount_amount
    &&& x.min_price == y.min_price
    &&& x.id@ == y.id@
    &&& x.discount_amount == y.discount_amount
    &&& x.created_on@ == y.created_on@
    &&& x.created_on_millis == y.created_on_millis
    &&& x.product_name@ == y.product_name@
    &&& x.price == y.price
    &&& x.taxful_price == y.taxful_price
    &&& x.base_unit_price == y.base_unit_price
}

/// `x` and `y` carry the same stored document.
pub open spec fn source_content_eq(x: Source, y: Source) -> bool {
    &&& x.currency@ == y.currency@
    &&& x.customer_first_name@ == y.customer_first_name@
    &&& x.customer_full_name@ == y.customer_full_name@
    &&& x.customer_gender@ == y.customer_gender@
    &&& x.customer_id == y.customer_id
    &&& x.customer_last_name@ == y.customer_last_name@
    &&& x.customer_phone@ == y.customer_phone@
    &&& x.day_of_week@ == y.day_of_week@
    &&& x.day_of_week_i == y.day_of_week_i
    &&& x.email@ == y.email@
    &&& x.manufacturer@.len() == y.manufacturer@.len()
    &&& forall|i: int|
        0 <= i < x.manufacturer@.len() ==> x.manufacturer@[i]@ == y.manufacturer@[i]@
    &&& x.order_date@ == y.order_date@
    &&& x.order_date_millis == y.order_date_millis
    &&& x.category@.len() == y.category@.len()
    &&& forall|i: int| 0 <= i < x.category@.len() ==> x.category@[i]@ == y.category@[i]@
    &&& x.order_id == y.order_id
    &&& x.products@.len() == y.products@.len()
    &&& forall|i: int|
        0 <= i < x.products@.len() ==> product_content_eq(x.products@[i], y.products@[i])
}

/// Law: the backend's content determines the decoded line item — two
/// line items matching the same object carry the same content.
pub proof fn lemma_product_content_determined(v: JsonValue, x: Product, y: Product)
    requires
        product_matches(v, x),
        product_matches(v, y),
    ensures
        product_content_eq(x, y),
{
}

/// Law: the backend's content determines the decoded document — two
/// sources matching the same object carry the same content, field for
/// field.
pub proof fn lemma_source_content_determined(v: JsonValue, x: Source, y: Source)
    requires
        source_matches(v, x),
        source_matches(v, y),
    ensures
        source_content_eq(x, y),
{
    let fields = v->Obj_0@;
    let m = lookup(fields, "manufacturer"@)->Some_0->Arr_0@;
    assert forall|i: int|
        0 <= i < x.manufacturer@.len() implies x.manufacturer@[i]@ == y.manufacturer@[i]@ by {
        assert(x.manufacturer@[i]@ == m[i]->Str_0@);
        assert(y.manufacturer@[i]@ == m[i]->Str_0@);
    }
    let c = lookup(fields, "category"@)->Some_0->Arr_0@;
    assert forall|i: int| 0 <= i < x.category@.len() implies x.category@[i]@ == y.category@[i]@ by {
        assert(x.category@[i]@ == c[i]->Str_0@);
        assert(y.category@[i]@ == c[i]->Str_0@);
    }
    let p = lookup(fields, "products"@)->Some_0->Arr_0@;
    assert forall|i: int|
        0 <= i < x.products@.len() implies product_content_eq(x.products@[i], y.products@[i]) by {
        assert(product_matches(p[i], x.products@[i]));
        assert(product_matches(p[i], y.products@[i]));
        lemma_product_content_determined(p[i], x.products@[i], y.products@[i]);
    }
}

/// Law: the backend's content determines the decoded rows — any two row
/// sequences matching the same hits agree on every field of every row.
pub proof fn lemma_rows_content_determined(items: Seq<JsonValue>, a: Seq<Row>, b: Seq<Row>)
    requires
        rows_match(items, a),
        rows_match(items, b),
    ensures
        a.len() == b.len(),
        forall|i: int| 0 <= i < a.len() ==> source_content_eq(a[i].source, b[i].source),
{
    assert forall|i: int|
        0 <= i < a.len() implies source_content_eq(a[i].source, b[i].source) by {
        assert(row_matches(items[i], a[i]));
        assert(row_matches(items[i], b[i]));
        let s = obj_get(items[i], "_source"@)->Some_0;
        lemma_source_content_determined(s, a[i].source, b[i].source);
    }
}

/// Decodes one stored document, whole or not at all.
pub fn decode_source(v: &JsonValue) -> (r: Option<Source>)
    ensures
        r is Some <==> source_shape_ok(*v),
        r matches Some(s) ==> source_matches(*v, s),
{
    let fields = match v {
        JsonValue::Obj(fields) => fields,
        _ => {
            return None;
        },
    };
    let currency = match get_str(fields, "currency") {
        Some(x) => x,
        None => {
            return None;
        },
    };
    let customer_first_name = match get_str(fields, "customer_first_name") {
        Some(x) => x,
        None => {
            return None;
        },
    };
    let customer_full_name = match get_str(fields, "customer_full_name") {
        Some(x) => x,
        None => {
            return None;
        },
    };
    let customer_gender = match get_str(fields, "customer_gender") {
        Some(x) => x,
        None => {
            return None;
        },
    };
    let customer_id = match get_i32(fields, "customer_id") {
        Some(x) => x,
        None => {
            return None;
        },
    };
    let customer_last_name = match get_str(fields, "customer_last_name") {
        Some(x) => x,
        None => {
            return None;
        },
    };
    let customer_phone = match get_str(fields, "customer_phone") {
        Some(x) => x,
        None => {
            return None;
        },
    };
    let day_of_week = match get_str(fields, "day_of_week") {
        Some(x) => x,
        None => {
            return None;
        },
    };
    let day_of_week_i = match get_u8(fields, "day_of_week_i") {
        Some(x) => x,
        None => {
            return None;
        },
    };
    let email = match get_str(fields, "email") {
        Some(x) => x,
        None => {
            return None;
        },
    };
    let manufacturer = match get_str_vec(fields, "manufacturer") {
        Some(x) => x,
        None => {
            return None;
        },
    };
    let order_date = match get_date(fields, "order_date") {
        Some(x) => x,
        None => {
            return None;
        },
    };
    let category = match get_str_vec(fields, "category") {
        Some(x) => x,
        None => {
            return None;
        },
    };
    let order_id = match get_i32(fields, "order_id") {
        Some(x) => x,
        None => {
            return None;
        },
    };
    let products = match get_products(fields, "products") {
        Some(x) => x,
        None => {
            return None;
        },
    };
    Some(
        Source {
            currency,
            customer_first_name,
            customer_full_name,
            customer_gender,
            customer_id,
            customer_last_name,
            customer_phone,
            day_of_week,
            day_of_week_i,
            email,
            manufacturer,
            order_date: order_date.0,
            order_date_millis: order_date.1,
            category,
            order_id,
            products,
        },
    )
}

/// Decodes one hit into a row, whole or not at all.
pub fn decode_row(v: &JsonValue) -> (r: Option<Row>)
    ensures
        r is Some <==> row_shape_ok(*v),
        r matches Some(row) ==> row_matches(*v, row),
{
    let s = match get(v, "_source") {
        Some(s) => s,
        None => {
            return None;
        },
    };
    match decode_source(s) {
        Some(source) => Some(Row { source }),
        None => None,
    }
}

/// Decodes every hit of `items` into a row. One hit of the wrong shape
/// fails the whole sequence: no partially populated result is returned.
pub fn decode_rows(items: &Vec<JsonValue>) -> (r: Option<Vec<Row>>)
    ensures
        r is Some <==> rows_ok(items@),
        r matches Some(out) ==> rows_match(items@, out@),
{
    let mut out: Vec<Row> = Vec::new();
    let n = items.len();
    for i in 0..n
        invariant
            n == items.len(),
            out@.len() == i,
            forall|j: int| 0 <= j < i ==> row_matches(items@[j], out@[j]),
    {
        match decode_row(&items[i]) {
            Some(row) => out.push(row),
            None => {
                return None;
            },
        }
    }
    Some(out)
}

} // verus!
