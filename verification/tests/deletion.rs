use notify_cleaner::notify::{
    delete_outcome, overlay, read_code, DeleteError, DeleteProtocol, FetchError, Notify, LIKED,
    MENTIONED, REPLIED, SYSTEM_BUILD,
};
use notify_cleaner::wire::{Field, Method, Pair, Reply};
use std::collections::HashMap;

fn text(name: &'static str, value: &str) -> Pair {
    Pair { name, value: Field::Text(value.to_string()) }
}

fn number(name: &'static str, n: u64) -> Pair {
    Pair { name, value: Field::Number(n) }
}

fn numbers(name: &'static str, ns: Vec<u64>) -> Pair {
    Pair { name, value: Field::Numbers(ns) }
}

fn body(s: &str) -> Reply {
    Reply::Body(s.to_string())
}

#[test]
fn new_record_is_generic_and_unselected() {
    let n = Notify::new(REPLIED);
    assert_eq!(n, Notify { tp: 1, is_selected: false, protocol: DeleteProtocol::Generic });
    assert_eq!(Notify::new(200).tp, 200);
    assert_eq!(LIKED, 0);
    assert_eq!(MENTIONED, 2);
}

#[test]
fn new_system_record_carries_its_protocol() {
    let primary = Notify::new_system_notify(4, 0);
    assert_eq!(
        primary,
        Notify { tp: 4, is_selected: false, protocol: DeleteProtocol::SystemPrimary }
    );
    let secondary = Notify::new_system_notify(4, 1);
    assert_eq!(secondary.protocol, DeleteProtocol::SystemSecondary);
    assert_eq!(Notify::new_system_notify(9, 7).protocol, DeleteProtocol::SystemSecondary);
}

#[test]
fn generic_record_is_deleted_by_a_form() {
    let r = Notify::new(LIKED).remove_request(77, "tok");
    assert_eq!(r.method, Method::PostForm);
    assert_eq!(r.url, "https://api.bilibili.com/x/msgfeed/del");
    assert!(r.query.is_empty());
    assert_eq!(
        r.body,
        vec![
            number("tp", 0),
            number("id", 77),
            number("build", 0),
            text("mobi_app", "web"),
            text("csrf_token", "tok"),
            text("csrf", "tok"),
        ]
    );
    let mentioned = Notify::new(MENTIONED).remove_request(5, "t");
    assert_eq!(mentioned.method, Method::PostForm);
    assert_eq!(mentioned.body[0], number("tp", 2));
    let replied = Notify::new(REPLIED).remove_request(5, "t");
    assert_eq!(replied.method, Method::PostForm);
    assert_eq!(replied.body[0], number("tp", 1));
}

#[test]
fn primary_system_record_is_deleted_under_ids() {
    let r = Notify::new_system_notify(3, 0).remove_request(u64::MAX, "tok");
    assert_eq!(r.method, Method::PostJson);
    assert_eq!(r.url, "https://message.bilibili.com/x/sys-msg/del_notify_list");
    assert_eq!(
        r.query,
        vec![number("build", 8140300), text("mobi_app", "android"), text("csrf", "tok")]
    );
    assert_eq!(
        r.body,
        vec![
            text("csrf", "tok"),
            numbers("ids", vec![u64::MAX]),
            numbers("station_ids", vec![]),
            number("type", 3),
            number("build", SYSTEM_BUILD),
            text("mobi_app", "android"),
        ]
    );
}

#[test]
fn secondary_system_record_is_deleted_under_station_ids() {
    let r = Notify::new_system_notify(3, 1).remove_request(12, "tok");
    assert_eq!(r.method, Method::PostJson);
    assert_eq!(r.url, "https://message.bilibili.com/x/sys-msg/del_notify_list");
    assert_eq!(
        r.body,
        vec![
            text("csrf", "tok"),
            numbers("ids", vec![]),
            numbers("station_ids", vec![12]),
            number("type", 3),
            number("build", 8140300),
            text("mobi_app", "android"),
        ]
    );
}

#[test]
fn selection_does_not_change_the_request() {
    let mut n = Notify::new_system_notify(1, 0);
    let before = n.remove_request(8, "c");
    n.is_selected = true;
    assert_eq!(n.remove_request(8, "c"), before);
}

#[test]
fn code_zero_deletes() {
    let n = Notify::new(LIKED);
    assert_eq!(n.remove(31, &body(r#"{"code":0,"message":"0","ttl":1}"#)), Ok(31));
    let s = Notify::new_system_notify(2, 1);
    assert_eq!(s.remove(32, &body(r#"{"code": 0}"#)), Ok(32));
}

#[test]
fn other_codes_keep_the_body() {
    let n = Notify::new(LIKED);
    let raw = r#"{"code":-111,"message":"csrf check failed"}"#;
    assert_eq!(n.remove(31, &body(raw)), Err(DeleteError::ApiError(raw.to_string())));
    let raw = r#"{"code":1}"#;
    assert_eq!(n.remove(31, &body(raw)), Err(DeleteError::ApiError(raw.to_string())));
}

#[test]
fn unreadable_bodies_are_api_errors() {
    let n = Notify::new_system_notify(0, 0);
    for raw in [
        "",
        "<html>busy</html>",
        "{\"code\":0",
        "{}",
        "[0]",
        "0",
        r#"{"code":"0"}"#,
        r#"{"code":0.0}"#,
        r#"{"code":null}"#,
        r#"{"data":{"code":0}}"#,
        r#"{"code":18446744073709551615}"#,
    ] {
        assert_eq!(n.remove(1, &body(raw)), Err(DeleteError::ApiError(raw.to_string())), "{raw}");
    }
}

#[test]
fn failed_call_is_a_transport_error() {
    let n = Notify::new(REPLIED);
    assert_eq!(
        n.remove(1, &Reply::Failed("connection reset".to_string())),
        Err(DeleteError::TransportError("connection reset".to_string()))
    );
}

#[test]
fn code_is_read_from_the_top_level() {
    assert_eq!(read_code(r#"{"code":0}"#), Some(0));
    assert_eq!(read_code(r#"{"code":-400}"#), Some(-400));
    assert_eq!(read_code(r#"{"code":9223372036854775807}"#), Some(i64::MAX));
    assert_eq!(read_code(r#"{"code":9223372036854775808}"#), None);
    assert_eq!(read_code(r#"{"code":-9223372036854775808}"#), Some(i64::MIN));
    assert_eq!(read_code(r#"{"Code":0}"#), None);
    assert_eq!(read_code(r#"{"code":0,"code":5}"#), Some(5));
    assert_eq!(read_code("not json"), None);
    assert_eq!(read_code(r#"{"code":0} trailing"#), None);
}

#[test]
fn outcome_follows_the_code() {
    assert_eq!(delete_outcome(9, Some(0), "x"), Ok(9));
    assert_eq!(delete_outcome(9, Some(1), "x"), Err(DeleteError::ApiError("x".to_string())));
    assert_eq!(delete_outcome(9, Some(-1), "x"), Err(DeleteError::ApiError("x".to_string())));
    assert_eq!(delete_outcome(9, None, "body"), Err(DeleteError::ApiError("body".to_string())));
}

fn feed(entries: &[(u64, Notify)]) -> HashMap<u64, Notify> {
    entries.iter().copied().collect()
}

#[test]
fn overlay_prefers_the_top() {
    let base = feed(&[(1, Notify::new(0)), (2, Notify::new(0))]);
    let top = feed(&[(2, Notify::new(1)), (3, Notify::new(1))]);
    let all = overlay(base, &top);
    assert_eq!(all, feed(&[(1, Notify::new(0)), (2, Notify::new(1)), (3, Notify::new(1))]));
    let same = overlay(feed(&[(1, Notify::new(0))]), &HashMap::new());
    assert_eq!(same, feed(&[(1, Notify::new(0))]));
}

#[test]
fn merge_keeps_the_system_record_on_collision() {
    let liked = feed(&[(42, Notify::new(LIKED)), (1, Notify::new(LIKED))]);
    let mentioned = feed(&[(42, Notify::new(MENTIONED)), (2, Notify::new(MENTIONED))]);
    let replied = feed(&[(42, Notify::new(REPLIED)), (3, Notify::new(REPLIED))]);
    let system = feed(&[(42, Notify::new_system_notify(6, 1)), (4, Notify::new_system_notify(6, 0))]);
    let all = Notify::fetch(Ok(liked), Ok(mentioned), Ok(replied), Ok(system)).unwrap();
    assert_eq!(all.len(), 5);
    assert_eq!(all[&42], Notify::new_system_notify(6, 1));
    assert_eq!(all[&1], Notify::new(LIKED));
    assert_eq!(all[&2], Notify::new(MENTIONED));
    assert_eq!(all[&3], Notify::new(REPLIED));
    assert_eq!(all[&4], Notify::new_system_notify(6, 0));
}

#[test]
fn merge_order_is_liked_mentioned_replied_system() {
    let liked = feed(&[(7, Notify::new(LIKED)), (8, Notify::new(LIKED)), (9, Notify::new(LIKED))]);
    let mentioned = feed(&[(7, Notify::new(MENTIONED)), (8, Notify::new(MENTIONED))]);
    let replied = feed(&[(7, Notify::new(REPLIED))]);
    let all = Notify::fetch(Ok(liked), Ok(mentioned), Ok(replied), Ok(HashMap::new())).unwrap();
    assert_eq!(all[&7], Notify::new(REPLIED));
    assert_eq!(all[&8], Notify::new(MENTIONED));
    assert_eq!(all[&9], Notify::new(LIKED));
}

#[test]
fn merge_is_all_or_nothing() {
    let some = || Ok(feed(&[(1, Notify::new(0))]));
    assert_eq!(
        Notify::fetch(some(), some(), some(), Err(FetchError::EmptyFeed)),
        Err(FetchError::EmptyFeed)
    );
    assert_eq!(
        Notify::fetch(some(), Err(FetchError::EmptyFeed), some(), some()),
        Err(FetchError::EmptyFeed)
    );
    assert_eq!(
        Notify::fetch(Err(FetchError::ParseError), some(), some(), some()),
        Err(FetchError::ParseError)
    );
    assert_eq!(
        Notify::fetch(some(), some(), Err(FetchError::TransportError), some()),
        Err(FetchError::TransportError)
    );
}

#[test]
fn merge_reports_the_first_failure_in_merge_order() {
    let some = || Ok(feed(&[(1, Notify::new(0))]));
    assert_eq!(
        Notify::fetch(
            some(),
            Err(FetchError::TransportError),
            Err(FetchError::ParseError),
            Err(FetchError::EmptyFeed)
        ),
        Err(FetchError::TransportError)
    );
    assert_eq!(
        Notify::fetch(
            Err(FetchError::EmptyFeed),
            Err(FetchError::TransportError),
            some(),
            Err(FetchError::ParseError)
        ),
        Err(FetchError::EmptyFeed)
    );
}
