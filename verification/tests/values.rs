use chromerunner::bidi_value::bidi_to_json;
use chromerunner::ieee::double_rounded;
use chromerunner::json::{members_insert, Json, JsonNumber};
use chromerunner::text::{contains_char, decimal_text, trim};

fn s(t: &str) -> Json {
    Json::Str(t.to_string())
}

fn obj(members: Vec<(&str, Json)>) -> Json {
    Json::Object(members.into_iter().map(|(k, v)| (k.to_string(), v)).collect())
}

fn typed(kind: &str, value: Json) -> Json {
    obj(vec![("type", s(kind)), ("value", value)])
}

fn float(x: f64) -> Json {
    Json::Number(JsonNumber::Float(x.to_bits()))
}

fn number(v: i64) -> Json {
    if v >= 0 {
        Json::Number(JsonNumber::PosInt(v as u64))
    } else {
        Json::Number(JsonNumber::NegInt(v))
    }
}

#[test]
fn bidi_integral_double_becomes_integer() {
    assert_eq!(bidi_to_json(&typed("number", float(4.0))), number(4));
    assert_eq!(bidi_to_json(&typed("number", float(-6.0))), number(-6));
    assert_eq!(bidi_to_json(&typed("number", float(-0.0))), number(0));
    assert_eq!(bidi_to_json(&typed("number", number(6))), number(6));
}

#[test]
fn bidi_fractional_double_stays() {
    assert_eq!(bidi_to_json(&typed("number", float(4.5))), float(4.5));
    assert_eq!(bidi_to_json(&typed("number", float(1e300))), float(1e300));
}

#[test]
fn bidi_non_finite_and_non_numbers_are_null() {
    assert_eq!(bidi_to_json(&typed("number", float(f64::NAN))), Json::Null);
    assert_eq!(bidi_to_json(&typed("number", float(f64::INFINITY))), Json::Null);
    assert_eq!(bidi_to_json(&typed("number", s("NaN"))), Json::Null);
}

#[test]
fn double_rounding_matches_the_platform() {
    let cases: Vec<u64> = vec![
        0,
        1,
        (1 << 53) - 1,
        1 << 53,
        (1 << 53) + 1,
        (1 << 53) + 3,
        (1 << 62) + 513,
        i64::MAX as u64,
        (1 << 63) + 1024,
        (1 << 63) + 1025,
        u64::MAX,
    ];
    for u in cases {
        let f = u as f64;
        let expected = if f.fract() == 0.0 && f >= i64::MIN as f64 && f <= i64::MAX as f64 {
            let i = f as i64;
            if i >= 0 { JsonNumber::PosInt(i as u64) } else { JsonNumber::NegInt(i) }
        } else {
            JsonNumber::Float(f.to_bits())
        };
        assert_eq!(double_rounded(JsonNumber::PosInt(u)), Some(expected), "u = {}", u);
    }
    for i in [-1i64, -(1 << 53) - 1, i64::MIN, i64::MIN + 1] {
        let f = i as f64;
        let j = f as i64;
        let expected = if j >= 0 { JsonNumber::PosInt(j as u64) } else { JsonNumber::NegInt(j) };
        assert_eq!(double_rounded(JsonNumber::NegInt(i)), Some(expected), "i = {}", i);
    }
    for f in [0.5f64, 3.0, -3.0, 9.2e18, 9.3e18, -9.3e18, -9.223372036854775808e18, 1e-310, 2.0f64.powi(63)] {
        let expected = if f.fract() == 0.0 && f >= i64::MIN as f64 && f <= i64::MAX as f64 {
            let i = f as i64;
            if i >= 0 { JsonNumber::PosInt(i as u64) } else { JsonNumber::NegInt(i) }
        } else {
            JsonNumber::Float(f.to_bits())
        };
        assert_eq!(double_rounded(JsonNumber::Float(f.to_bits())), Some(expected), "f = {}", f);
    }
}

#[test]
fn bidi_primitives() {
    assert_eq!(bidi_to_json(&typed("string", s("hi"))), s("hi"));
    assert_eq!(bidi_to_json(&typed("boolean", Json::Bool(true))), Json::Bool(true));
    assert_eq!(bidi_to_json(&typed("null", Json::Null)), Json::Null);
    assert_eq!(bidi_to_json(&obj(vec![("type", s("undefined"))])), Json::Null);
    assert_eq!(bidi_to_json(&obj(vec![("type", s("function"))])), Json::Null);
    assert_eq!(bidi_to_json(&s("not a remote value")), Json::Null);
}

#[test]
fn bidi_array_and_object() {
    let arr = typed(
        "array",
        Json::Array(vec![typed("number", number(1)), typed("string", s("two")), typed("boolean", Json::Bool(true))]),
    );
    assert_eq!(bidi_to_json(&arr), Json::Array(vec![number(1), s("two"), Json::Bool(true)]));
    let object = typed(
        "object",
        Json::Array(vec![
            Json::Array(vec![s("a"), typed("number", number(1))]),
            Json::Array(vec![s("b"), typed("string", s("two"))]),
            Json::Array(vec![s("a"), typed("number", number(3))]),
            Json::Array(vec![s("skipped")]),
            Json::Array(vec![number(5), typed("null", Json::Null)]),
        ]),
    );
    assert_eq!(bidi_to_json(&object), obj(vec![("a", number(3)), ("b", s("two")), ("", Json::Null)]));
    assert_eq!(bidi_to_json(&obj(vec![("type", s("array"))])), Json::Array(vec![]));
    assert_eq!(bidi_to_json(&obj(vec![("type", s("object")), ("value", s("x"))])), Json::Object(vec![]));
}

#[test]
fn json_member_access() {
    let v = obj(vec![("a", number(1)), ("b", s("x"))]);
    assert_eq!(v.get("a"), Some(&number(1)));
    assert_eq!(v.get("c"), None);
    assert_eq!(v.field("c"), Json::Null);
    assert_eq!(v.str_field("b"), Some("x".to_string()));
    assert_eq!(v.str_field("a"), None);
    assert_eq!(v.str_field_or("a", "d"), "d");
    assert_eq!(number(-3).as_i64(), Some(-3));
    assert_eq!(number(-3).as_u64(), None);
    assert_eq!(Json::Number(JsonNumber::PosInt(u64::MAX)).as_i64(), None);
    assert_eq!(s("x").get("a"), None);
}

#[test]
fn json_set_member_replaces_or_appends() {
    let mut members = vec![("a".to_string(), number(1)), ("b".to_string(), number(2))];
    members_insert(&mut members, "a".to_string(), number(9));
    members_insert(&mut members, "c".to_string(), number(3));
    assert_eq!(members, vec![("a".to_string(), number(9)), ("b".to_string(), number(2)), ("c".to_string(), number(3))]);
}

#[test]
fn json_deep_copy() {
    let v = obj(vec![("a", Json::Array(vec![number(1), obj(vec![("b", s("c"))])]))]);
    assert_eq!(v.duplicate(), v);
    assert_eq!(v.clone(), v);
}

#[test]
fn decimal_numerals() {
    assert_eq!(decimal_text(0), "0");
    assert_eq!(decimal_text(9222), "9222");
    assert_eq!(decimal_text(u64::MAX), u64::MAX.to_string());
}

#[test]
fn trimming_and_searching() {
    assert_eq!(trim("  /usr/bin/chromium\n"), "/usr/bin/chromium");
    assert_eq!(trim("\t\u{3000}x y\u{2028}"), "x y");
    assert_eq!(trim(" \n "), "");
    assert!(contains_char("a; b", ';'));
    assert!(!contains_char("a + b", ';'));
}
