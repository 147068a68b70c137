use order_cache::json::Json;

fn sample_object() -> Json {
    Json::Object(vec![
        ("name".to_string(), Json::Text("first".to_string())),
        ("count".to_string(), Json::Number(Some(7))),
        ("name".to_string(), Json::Text("second".to_string())),
        ("names".to_string(), Json::Null),
        ("".to_string(), Json::Bool(true)),
        ("ratio".to_string(), Json::Number(None)),
        ("wide".to_string(), Json::Number(Some(2147483648))),
        ("low".to_string(), Json::Number(Some(-2147483648))),
        ("high".to_string(), Json::Number(Some(2147483647))),
        ("below".to_string(), Json::Number(Some(-2147483649))),
        ("list".to_string(), Json::List(vec![Json::Number(Some(1))])),
    ])
}

#[test]
fn get_finds_a_member_by_its_whole_name() {
    let doc = sample_object();
    assert_eq!(doc.get("count"), Some(&Json::Number(Some(7))));
    assert_eq!(doc.get("names"), Some(&Json::Null));
    assert_eq!(doc.get(""), Some(&Json::Bool(true)));
    assert_eq!(doc.get("nam"), None);
    assert_eq!(doc.get("Name"), None);
    assert_eq!(doc.get("count "), None);
}

#[test]
fn get_gives_the_first_of_two_members_with_one_name() {
    assert_eq!(sample_object().get("name"), Some(&Json::Text("first".to_string())));
}

#[test]
fn get_finds_nothing_in_what_is_no_object() {
    assert_eq!(Json::Null.get("name"), None);
    assert_eq!(Json::Text("name".to_string()).get("name"), None);
    assert_eq!(Json::List(vec![sample_object()]).get("name"), None);
    assert_eq!(Json::Object(Vec::new()).get("name"), None);
}

#[test]
fn get_text_gives_texts_only() {
    let doc = sample_object();
    assert_eq!(doc.get_text("name"), Some("first".to_string()));
    assert_eq!(doc.get_text("count"), None);
    assert_eq!(doc.get_text("names"), None);
    assert_eq!(doc.get_text("list"), None);
    assert_eq!(doc.get_text("absent"), None);
}

#[test]
fn get_int32_gives_integers_of_32_bits_only() {
    let doc = sample_object();
    assert_eq!(doc.get_int32("count"), Some(7));
    assert_eq!(doc.get_int32("low"), Some(i32::MIN));
    assert_eq!(doc.get_int32("high"), Some(i32::MAX));
    assert_eq!(doc.get_int32("wide"), None);
    assert_eq!(doc.get_int32("below"), None);
    assert_eq!(doc.get_int32("ratio"), None);
    assert_eq!(doc.get_int32("name"), None);
    assert_eq!(doc.get_int32("absent"), None);
}
