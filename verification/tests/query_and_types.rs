use flowfull::auth::FlexibleBool;
use flowfull::json::{JsonNumber, JsonValue};
use flowfull::operators::format_value;
use flowfull::{
    between, contains, eq, gte, in_op, not_between, not_null, op, QueryBuilder, RequestOptions,
    SortDirection,
};

fn text(s: &str) -> JsonValue {
    JsonValue::from_text(s)
}

fn number(n: i64) -> JsonValue {
    JsonValue::from_i64(n)
}

fn object(members: Vec<(&str, JsonValue)>) -> JsonValue {
    JsonValue::Object(members.into_iter().map(|(k, v)| (k.to_string(), v)).collect())
}

#[test]
fn operator_values_are_formatted_for_bracket_syntax() {
    assert_eq!(format_value(&gte(number(18)).value), "18");
    assert_eq!(format_value(&contains(text("john")).value), "john");
    assert_eq!(format_value(&in_op(vec![text("a"), text("b")]).value), "a,b");
    assert_eq!(format_value(&between(number(1), number(10)).value), "1,10");
    assert_eq!(format_value(&not_null().value), "true");
}

#[test]
fn flexible_bool_accepts_flowless_variants() {
    for raw in [JsonValue::from_bool(true), number(1), text("1"), text("true")] {
        assert_eq!(FlexibleBool::from_json(&raw), Some(FlexibleBool(true)));
    }

    for raw in [JsonValue::from_bool(false), number(0), text("0"), text("false")] {
        assert_eq!(FlexibleBool::from_json(&raw), Some(FlexibleBool(false)));
    }
}

#[test]
fn user_accepts_optional_flowless_profile_fields() {
    let user = object(vec![
        ("id", text("usr_1")),
        ("email", text("user@example.com")),
        ("name", text("Jane")),
        ("is_verified", text("1")),
        ("two_factor", number(0)),
    ]);

    assert_eq!(user.get("id").and_then(|v| v.as_str()).map(|s| s.as_str()), Some("usr_1"));
    assert_eq!(
        user.get("is_verified").and_then(FlexibleBool::from_json),
        Some(FlexibleBool(true))
    );
    assert_eq!(
        user.get("two_factor").and_then(FlexibleBool::from_json),
        Some(FlexibleBool(false))
    );
}

#[test]
fn flexible_bool_reads_yes_in_any_case_and_non_zero_numbers() {
    assert_eq!(FlexibleBool::from_json(&text("YES")), Some(FlexibleBool(true)));
    assert_eq!(FlexibleBool::from_json(&text("True")), Some(FlexibleBool(true)));
    assert_eq!(FlexibleBool::from_json(&text("no")), Some(FlexibleBool(false)));
    assert_eq!(FlexibleBool::from_json(&number(-3)), Some(FlexibleBool(true)));
    assert_eq!(FlexibleBool::from_json(&JsonValue::from_u64(u64::MAX)), Some(FlexibleBool(false)));
    assert_eq!(
        FlexibleBool::from_json(&JsonValue::Number(JsonNumber::Float("1.5".to_string()))),
        Some(FlexibleBool(false))
    );
    assert_eq!(FlexibleBool::from_json(&JsonValue::Null), None);
    assert_eq!(FlexibleBool::from_json(&JsonValue::Array(vec![])), None);
}

#[test]
fn format_value_writes_each_kind_of_value() {
    assert_eq!(format_value(&JsonValue::Null), "null");
    assert_eq!(format_value(&JsonValue::from_bool(false)), "false");
    assert_eq!(format_value(&number(-42)), "-42");
    assert_eq!(format_value(&number(i64::MIN)), "-9223372036854775808");
    assert_eq!(format_value(&JsonValue::from_u64(u64::MAX)), "18446744073709551615");
    assert_eq!(format_value(&JsonValue::Number(JsonNumber::Float("2.5".to_string()))), "2.5");
    assert_eq!(format_value(&JsonValue::Array(vec![])), "");
    assert_eq!(
        format_value(&JsonValue::Array(vec![number(1), JsonValue::Array(vec![text("x"), text("y")])])),
        "1,x,y"
    );
    assert_eq!(format_value(&object(vec![("a", number(1))])), "{\"a\":1}");
    assert_eq!(format_value(&not_between(number(3), number(7)).value), "3,7");
}

#[test]
fn filter_syntax_uses_brackets_for_operators() {
    let query = QueryBuilder::new("/products")
        .where_("price", gte(number(100)))
        .where_("category", in_op(vec![text("hardware"), text("software")]));
    let mut options = RequestOptions::new();
    query.apply_query(&mut options);
    assert_eq!(
        options.query,
        vec![
            ("price[gte]".to_string(), "100".to_string()),
            ("category[in]".to_string(), "hardware,software".to_string()),
        ]
    );
}

#[test]
fn query_pairs_come_in_order_after_existing_ones() {
    let query = QueryBuilder::new("/users")
        .where_("status", eq(text("active")))
        .where_("role", op("", text("admin")))
        .param("search", "jane")
        .select(&vec!["id".to_string(), "name".to_string()])
        .sort("created_at", SortDirection::Desc)
        .sort("name", SortDirection::Asc)
        .page(2)
        .limit(20);
    let mut options = RequestOptions::new().query("trace", "1");
    query.apply_query(&mut options);
    let expected: Vec<(String, String)> = vec![
        ("trace", "1"),
        ("status", "active"),
        ("role", "admin"),
        ("search", "jane"),
        ("fields", "id,name"),
        ("sort", "created_at:desc"),
        ("sort", "name:asc"),
        ("page", "2"),
        ("limit", "20"),
    ]
    .into_iter()
    .map(|(k, v)| (k.to_string(), v.to_string()))
    .collect();
    assert_eq!(options.query, expected);
    assert_eq!(query.endpoint(), "/users");
}

#[test]
fn sort_direction_names() {
    assert_eq!(SortDirection::Asc.as_str(), "asc");
    assert_eq!(SortDirection::Desc.as_str(), "desc");
}

#[test]
fn json_value_get_and_as_str() {
    let doc = object(vec![("a", text("x")), ("a", text("y")), ("b", number(2))]);
    assert_eq!(doc.get("a").and_then(|v| v.as_str()).map(|s| s.as_str()), Some("x"));
    assert!(doc.get("c").is_none());
    assert!(text("s").get("a").is_none());
    assert!(doc.get("b").unwrap().as_str().is_none());
}
