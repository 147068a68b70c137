use order_cache::cache::Cache;
use order_cache::model::{OrderModel, Uid};

fn record(uid: &str, track: &str) -> OrderModel {
    let payload = format!(
        "{{\"order_uid\":\"{}\",\"track_number\":\"{}\",\"entry\":\"E\",\
        \"delivery\":{{\"name\":\"n\",\"phone\":\"p\",\"zip\":\"z\",\"city\":\"c\",\
        \"address\":\"a\",\"region\":\"r\",\"email\":\"e\"}},\
        \"payment\":{{\"transaction\":\"t\",\"request_id\":\"\",\"currency\":\"USD\",\
        \"provider\":\"w\",\"amount\":1,\"payment_dt\":2,\"bank\":\"b\",\
        \"delivery_cost\":3,\"goods_total\":4,\"custom_fee\":5}},\"items\":[],\
        \"locale\":\"en\",\"internal_signature\":\"\",\"customer_id\":\"c\",\
        \"delivery_service\":\"m\",\"shardkey\":\"9\",\"sm_id\":99,\
        \"date_created\":\"2021-11-26T06:22:19Z\",\"oof_shard\":\"1\"}}",
        uid, track
    );
    OrderModel::from_str(&payload).expect("a well-formed order")
}

#[test]
fn a_cache_rebuilt_from_nothing_knows_nothing() {
    let cache = Cache::restore(Vec::new());
    assert!(cache.get_order_by_uid("a1").is_none());
    assert!(cache.get_order_by_uid("").is_none());
}

#[test]
fn a_rebuilt_cache_holds_every_record_of_the_snapshot() {
    let uids = ["a1", "b2", "c3", "d4", "e5"];
    let snapshot: Vec<OrderModel> =
        uids.iter().map(|uid| record(uid, &format!("T-{}", uid))).collect();
    let cache = Cache::restore(snapshot);
    for uid in uids {
        let found = cache.get_order_by_uid(uid).expect("restored");
        assert_eq!(*found, record(uid, &format!("T-{}", uid)));
        assert_eq!(found.uid(), uid);
    }
    assert!(cache.get_order_by_uid("f6").is_none());
}

#[test]
fn of_two_snapshot_records_with_one_uid_the_later_stays() {
    let cache = Cache::restore(vec![record("a1", "old"), record("b2", "other"), record("a1", "new")]);
    assert_eq!(cache.get_order_by_uid("a1").expect("kept").data().track_number, "new");
    assert_eq!(cache.get_order_by_uid("b2").expect("kept").data().track_number, "other");
}

#[test]
fn add_makes_a_record_visible() {
    let mut cache = Cache::restore(Vec::new());
    cache.add(record("a1", "T1"));
    assert_eq!(cache.get_order_by_uid("a1"), Some(&record("a1", "T1")));
    assert_eq!(cache.get_order_by_uid("a"), None);
    assert_eq!(cache.get_order_by_uid("a11"), None);
    assert_eq!(cache.get_order_by_uid("A1"), None);
}

#[test]
fn add_leaves_other_records_alone() {
    let mut cache = Cache::restore(vec![record("a1", "T1"), record("b2", "T2")]);
    cache.add(record("c3", "T3"));
    assert_eq!(cache.get_order_by_uid("a1"), Some(&record("a1", "T1")));
    assert_eq!(cache.get_order_by_uid("b2"), Some(&record("b2", "T2")));
    assert_eq!(cache.get_order_by_uid("c3"), Some(&record("c3", "T3")));
}

#[test]
fn the_last_write_for_a_uid_wins() {
    let mut cache = Cache::restore(Vec::new());
    cache.add(record("a1", "first"));
    cache.add(record("a1", "second"));
    let found = cache.get_order_by_uid("a1").expect("present");
    assert_eq!(found.data().track_number, "second");
    assert_eq!(*found, record("a1", "second"));
}

#[test]
fn add_replaces_a_restored_record() {
    let mut cache = Cache::restore(vec![record("a1", "stored")]);
    cache.add(record("a1", "fresh"));
    assert_eq!(cache.get_order_by_uid("a1").expect("present").data().track_number, "fresh");
}

#[test]
fn what_is_found_is_filed_under_the_uid_asked_for() {
    let cache = Cache::restore(vec![record("a1", "T1"), record("b2", "T2")]);
    assert_eq!(cache.get_order_by_uid("b2").expect("present").uid(), "b2");
    assert_eq!(cache.get_order_by_uid("a1").expect("present").data().order_uid, "a1");
}
