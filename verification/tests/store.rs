use mayi::permissions::AuthAction;
use mayi::permissions::Connection;
use mayi::permissions::User;
use mayi::Context;
use mayi::DataKind;
use mayi::DataValue;

#[test]
fn data_round_trip_matching_kind() {
    let mut ctx = Context::new();
    ctx.insert("k", DataValue::Int(7));
    match ctx.get("k", DataKind::Int) {
        Some(DataValue::Int(v)) => assert_eq!(*v, 7),
        _ => panic!("expected the stored integer back"),
    }
}

#[test]
fn data_round_trip_text() {
    let mut ctx = Context::new();
    ctx.insert("greeting", DataValue::Text("hello".to_string()));
    match ctx.get("greeting", DataKind::Text) {
        Some(DataValue::Text(s)) => assert_eq!(s, "hello"),
        _ => panic!("expected the stored text back"),
    }
}

#[test]
fn data_round_trip_user() {
    let mut ctx = Context::new();
    ctx.insert("user", DataValue::User(User::Admin));
    match ctx.get("user", DataKind::User) {
        Some(DataValue::User(u)) => assert_eq!(*u, User::Admin),
        _ => panic!("expected the stored user back"),
    }
}

#[test]
fn data_wrong_kind_is_absent() {
    let mut ctx = Context::new();
    ctx.insert("k", DataValue::Int(7));
    assert!(ctx.get("k", DataKind::Text).is_none());
    assert!(ctx.get("k", DataKind::Flag).is_none());
    assert!(ctx.get("k", DataKind::User).is_none());
}

#[test]
fn data_absent_key_is_absent() {
    let ctx = Context::new();
    assert!(ctx.get("missing", DataKind::Int).is_none());
}

#[test]
fn data_insert_overwrites() {
    let mut ctx = Context::new();
    ctx.insert("k", DataValue::Text("old".to_string()));
    ctx.insert("k", DataValue::Text("new".to_string()));
    match ctx.get("k", DataKind::Text) {
        Some(DataValue::Text(s)) => assert_eq!(s, "new"),
        _ => panic!("expected the newer value"),
    }
}

#[test]
fn data_insert_overwrites_across_kinds() {
    let mut ctx = Context::new();
    ctx.insert("k", DataValue::Text("old".to_string()));
    ctx.insert("k", DataValue::Flag(true));
    assert!(ctx.get("k", DataKind::Text).is_none());
    match ctx.get("k", DataKind::Flag) {
        Some(DataValue::Flag(b)) => assert!(*b),
        _ => panic!("expected the newer value"),
    }
}

#[test]
fn data_keys_are_independent() {
    let mut ctx = Context::new();
    ctx.insert("a", DataValue::Int(1));
    ctx.insert("b", DataValue::Int(2));
    match (ctx.get("a", DataKind::Int), ctx.get("b", DataKind::Int)) {
        (Some(DataValue::Int(x)), Some(DataValue::Int(y))) => {
            assert_eq!(*x, 1);
            assert_eq!(*y, 2);
        }
        _ => panic!("expected both values back"),
    }
}

#[test]
fn connection_round_trip() {
    let mut ctx = Context::new();
    let conn = Connection::untrusted("localhost".to_string()).unwrap();
    ctx.add_connection("db", conn);
    let handle = ctx.get_connection("db").expect("the stored handle");
    assert_eq!(handle.conn, "localhost");
    // Observable behaviour matches the stored untrusted connection.
    let read_places = AuthAction::Read { table_name: "places" };
    assert_eq!(
        handle.authorize(User::Patient, read_places),
        Connection::untrusted("localhost".to_string())
            .unwrap()
            .authorize(User::Patient, read_places)
    );
}

#[test]
fn connection_two_retrievals_share_the_resource() {
    let mut ctx = Context::new();
    let conn = Connection::trusted("localhost".to_string()).unwrap();
    ctx.add_connection("db", conn);
    let a = ctx.get_connection("db").expect("the stored handle");
    let b = ctx.get_connection("db").expect("the stored handle");
    assert!(std::sync::Arc::ptr_eq(&a, &b));
    assert_eq!(a.conn, b.conn);
}

#[test]
fn connection_absent_name_is_absent() {
    let ctx = Context::new();
    assert!(ctx.get_connection("db").is_none());
}

#[test]
fn connection_add_overwrites() {
    let mut ctx = Context::new();
    ctx.add_connection("db", Connection::trusted("one".to_string()).unwrap());
    ctx.add_connection("db", Connection::trusted("two".to_string()).unwrap());
    let handle = ctx.get_connection("db").expect("the stored handle");
    assert_eq!(handle.conn, "two");
}

#[test]
fn connection_clone_outlives_overwrite() {
    let mut ctx = Context::new();
    ctx.add_connection("db", Connection::trusted("one".to_string()).unwrap());
    let early = ctx.get_connection("db").expect("the stored handle");
    ctx.add_connection("db", Connection::trusted("two".to_string()).unwrap());
    assert_eq!(early.conn, "one");
    let late = ctx.get_connection("db").expect("the stored handle");
    assert_eq!(late.conn, "two");
}
