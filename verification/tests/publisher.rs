use order_cache::model::OrderModel;
use order_cache::publisher::payload_of;

#[test]
fn payload_drops_line_feeds_and_spaces() {
    assert_eq!(payload_of("{\n  \"a\": 1,\n  \"b\": [ 2, 3 ]\n}\n"), "{\"a\":1,\"b\":[2,3]}");
}

#[test]
fn payload_of_nothing_is_empty() {
    assert_eq!(payload_of(""), "");
    assert_eq!(payload_of(" \n \n"), "");
}

#[test]
fn payload_keeps_other_white_space_and_text() {
    assert_eq!(payload_of("a\tb\rc"), "a\tb\rc");
    assert_eq!(payload_of("plain"), "plain");
}

#[test]
fn payload_loses_spaces_inside_texts_too() {
    assert_eq!(payload_of("{\"name\": \"Test Testov\"}"), "{\"name\":\"TestTestov\"}");
}

#[test]
fn payload_of_a_pretty_printed_order_still_parses() {
    let pretty = "{\n \"order_uid\": \"a1\",\n \"track_number\": \"T1\",\n \"entry\": \"E\",\n \
        \"delivery\": {\"name\": \"n\", \"phone\": \"p\", \"zip\": \"z\", \"city\": \"c\", \
        \"address\": \"a\", \"region\": \"r\", \"email\": \"e\"},\n \
        \"payment\": {\"transaction\": \"t\", \"request_id\": \"\", \"currency\": \"USD\", \
        \"provider\": \"w\", \"amount\": 1, \"payment_dt\": 2, \"bank\": \"b\", \
        \"delivery_cost\": 3, \"goods_total\": 4, \"custom_fee\": 5},\n \"items\": [],\n \
        \"locale\": \"en\", \"internal_signature\": \"\", \"customer_id\": \"c\", \
        \"delivery_service\": \"m\", \"shardkey\": \"9\", \"sm_id\": 99, \
        \"date_created\": \"2021-11-26T06:22:19Z\", \"oof_shard\": \"1\"\n}\n";
    let payload = payload_of(pretty);
    assert!(!payload.contains(' '));
    assert!(!payload.contains('\n'));
    let model = OrderModel::from_str(&payload).expect("a compact order");
    assert_eq!(model.data().track_number, "T1");
}
