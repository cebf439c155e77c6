use learning_rust::derive_demo::{Color, Connection, Password, Priority, Score, User};
use learning_rust::describe::{Config, Describe, User as Described};
use learning_rust::server_builder::Server;

#[test]
fn password_is_masked() {
    let p = Password("super_secret_123".to_string());
    assert_eq!(p.debug_text(), "Password(****)");
}

#[test]
fn equality_ignores_cache() {
    let u1 = User { id: 1, name: "Alice".to_string(), cache: Some("cached".to_string()) };
    let u2 = User { id: 1, name: "Alice".to_string(), cache: None };
    let u3 = User { id: 2, name: "Alice".to_string(), cache: None };
    assert!(u1 == u2);
    assert!(u1 != u3);
}

#[test]
fn colour_in_hex() {
    assert_eq!(Color { r: 255, g: 128, b: 0 }.hex(), "#FF8000");
    assert_eq!(Color { r: 0, g: 10, b: 171 }.hex(), "#000AAB");
}

#[test]
fn duplicated_connection_gets_new_id() {
    let c = Connection { url: "db://x".to_string(), pool_size: 5, connection_id: 1 };
    let d = c.duplicate(1000);
    assert_eq!(d.url, "db://x");
    assert_eq!(d.pool_size, 5);
    assert_eq!(d.connection_id, 1000);
}

#[test]
fn derived_orders() {
    let s1 = Score { points: 100, bonus: 10 };
    let s3 = Score { points: 100, bonus: 5 };
    assert!(s1 > s3);
    let mut ps = vec![Priority::High, Priority::Low, Priority::Medium, Priority::Low];
    ps.sort();
    assert_eq!(ps, vec![Priority::Low, Priority::Low, Priority::Medium, Priority::High]);
}

#[test]
fn self_description() {
    let u = Described { name: "张三".to_string(), age: 25, email: "zhangsan@example.com".to_string() };
    assert_eq!(Described::struct_name(), "User");
    assert_eq!(Described::field_names(), vec!["name", "age", "email"]);
    assert_eq!(
        u.describe(),
        "User {\n  name: \"张三\"\n  age: 25\n  email: \"zhangsan@example.com\"\n}"
    );
    let c = Config { host: "localhost".to_string(), port: 8080, debug: true, workers: 4 };
    assert_eq!(c.display_text(), "Config { host: localhost, port: 8080, debug: true, workers: 4 }");
}

#[test]
fn builder_defaults_and_errors() {
    let s = Server::builder().host("0.0.0.0").port(3000).max_connections(500).timeout_secs(60).build().unwrap();
    assert_eq!((s.host.as_str(), s.port, s.max_connections, s.timeout_secs), ("0.0.0.0", 3000, 500, 60));
    let d = Server::builder().host("h").port(1).build().unwrap();
    assert_eq!((d.max_connections, d.timeout_secs), (100, 30));
    assert_eq!(Server::builder().port(1).build().unwrap_err(), "host is required");
    assert_eq!(Server::builder().host("h").build().unwrap_err(), "port is required");
}
