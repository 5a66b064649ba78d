use buzzd::json::Json;

fn text(s: &str) -> Json {
    Json::Text(String::from(s))
}

#[test]
fn a_text_that_is_no_json_has_no_document() {
    assert_eq!(Json::parse(""), None);
    assert_eq!(Json::parse("{"), None);
    assert_eq!(Json::parse("{\"gpio\": 4,}"), None);
    assert_eq!(Json::parse("{} x"), None);
    assert_eq!(Json::parse("gpio"), None);
}

#[test]
fn scalars_are_parsed() {
    assert_eq!(Json::parse("null"), Some(Json::Null));
    assert_eq!(Json::parse("true"), Some(Json::Bool(true)));
    assert_eq!(Json::parse(" false "), Some(Json::Bool(false)));
    assert_eq!(Json::parse("\"buzz\\n\""), Some(text("buzz\n")));
}

#[test]
fn a_number_keeps_its_value_where_it_is_an_unsigned_integer() {
    assert_eq!(Json::parse("0"), Some(Json::Number(Some(0))));
    assert_eq!(Json::parse("17"), Some(Json::Number(Some(17))));
    assert_eq!(Json::parse("18446744073709551615"), Some(Json::Number(Some(u64::MAX))));
    assert_eq!(Json::parse("18446744073709551616"), Some(Json::Number(None)));
    assert_eq!(Json::parse("-1"), Some(Json::Number(None)));
    assert_eq!(Json::parse("1.0"), Some(Json::Number(None)));
    assert_eq!(Json::parse("1e2"), Some(Json::Number(None)));
}

#[test]
fn arrays_and_objects_are_parsed_in_depth() {
    let parsed = Json::parse("{\"b\": [1, \"x\", [], {}], \"a\": {\"c\": null}}");
    let expected = Json::Object(vec![
        (String::from("a"), Json::Object(vec![(String::from("c"), Json::Null)])),
        (
            String::from("b"),
            Json::Array(vec![
                Json::Number(Some(1)),
                text("x"),
                Json::Array(vec![]),
                Json::Object(vec![]),
            ]),
        ),
    ]);
    assert_eq!(parsed, Some(expected));
}

#[test]
fn a_key_written_twice_keeps_one_member() {
    let parsed = Json::parse("{\"a\": 1, \"a\": 2}").unwrap();
    assert_eq!(parsed, Json::Object(vec![(String::from("a"), Json::Number(Some(2)))]));
    assert_eq!(parsed.get("a"), Some(&Json::Number(Some(2))));
}

#[test]
fn members_are_found_by_their_exact_key() {
    let document = Json::Object(vec![
        (String::from("gpio"), Json::Number(Some(4))),
        (String::from("Gpio"), Json::Number(Some(5))),
        (String::from("gpio"), Json::Number(Some(6))),
    ]);
    assert_eq!(document.get("gpio"), Some(&Json::Number(Some(4))));
    assert_eq!(document.get("Gpio"), Some(&Json::Number(Some(5))));
    assert_eq!(document.get("GPIO"), None);
    assert_eq!(document.get(""), None);
    assert_eq!(Json::Array(vec![]).get("gpio"), None);
    assert_eq!(Json::Null.get("gpio"), None);
}

#[test]
fn readers_answer_for_their_own_kind_only() {
    let number = Json::Number(Some(9));
    let string = text("nine");
    let array = Json::Array(vec![Json::Null]);
    assert_eq!(number.as_u64(), Some(9));
    assert_eq!(Json::Number(None).as_u64(), None);
    assert_eq!(string.as_u64(), None);
    assert_eq!(string.as_str(), Some("nine"));
    assert_eq!(number.as_str(), None);
    assert_eq!(array.as_array(), Some(&vec![Json::Null]));
    assert_eq!(string.as_array(), None);
    assert_eq!(Json::Bool(true).as_u64(), None);
}
