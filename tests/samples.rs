use sample_harness::decimal::append_int;
use sample_harness::messages::{process_message, Message, Result};
use sample_harness::network::{Config, Server};
use sample_harness::shapes::Circle;
use sample_harness::users::{create_default_user, Database, User, UserRepository};

#[test]
fn reply_to_quit() {
    assert_eq!(process_message(Message::Quit), "Quitting");
}

#[test]
fn reply_to_move_in_positive_quadrant() {
    assert_eq!(
        process_message(Message::Move { x: 3, y: 7 }),
        "Moving to positive quadrant: (3, 7)"
    );
}

#[test]
fn reply_to_move_elsewhere() {
    assert_eq!(process_message(Message::Move { x: -12, y: 5 }), "Moving to (-12, 5)");
    assert_eq!(process_message(Message::Move { x: 0, y: 0 }), "Moving to (0, 0)");
}

#[test]
fn reply_to_write_is_the_text() {
    assert_eq!(process_message(Message::Write(String::from("hello"))), "hello");
}

#[test]
fn reply_to_change_color() {
    assert_eq!(process_message(Message::ChangeColor(255, 0, -1)), "RGB(255, 0, -1)");
}

#[test]
fn call_lines() {
    assert_eq!(Message::Quit.call(), "Quit message");
    assert_eq!(Message::Move { x: 1, y: -2 }.call(), "Move to (1, -2)");
    assert_eq!(Message::Write(String::from("hi")).call(), "Write: hi");
    assert_eq!(Message::ChangeColor(10, 20, 30).call(), "Color: (10, 20, 30)");
}

#[test]
fn decimal_extremes() {
    let mut s = String::new();
    append_int(&mut s, i32::MIN);
    assert_eq!(s, "-2147483648");
    let mut t = String::from("x");
    append_int(&mut t, i32::MAX);
    assert_eq!(t, "x2147483647");
}

#[test]
fn own_result_type() {
    let ok: Result<u8, String> = Result::Value(4);
    assert!(ok.is_ok());
    assert!(!ok.is_err());
    assert_eq!(ok.unwrap(), 4);
    let err: Result<u8, String> = Result::Error(String::from("bad"));
    assert!(!err.is_ok());
    assert!(err.is_err());
}

#[test]
fn server_start_logs_bind_then_listen() {
    let server = Server::new(String::from("127.0.0.1"), 8080);
    let lines = server.start();
    assert_eq!(lines, vec![String::from("Binding to 127.0.0.1:8080"), String::from("Listening for connections")]);
}

#[test]
fn config_debug_switch() {
    let mut config = Config::new(String::from("localhost"), 8080);
    assert_eq!(config.port, 8080);
    assert_eq!(config.host, "localhost");
    assert!(!config.is_debug());
    config.enable_debug();
    assert!(config.is_debug());
    assert_eq!(config.port, 8080);
}

#[test]
fn user_display_name() {
    let user = User::new(7, String::from("Ada"), String::from("ada@example.com"));
    assert_eq!(user.display_name(), "Ada (ada@example.com)");
}

#[test]
fn default_user_is_guest() {
    let user = create_default_user();
    assert_eq!(user.id, 0);
    assert_eq!(user.name, "Guest");
    assert_eq!(user.email, "guest@example.com");
}

#[test]
fn repository_caches_saved_users() {
    let mut repo = UserRepository::new(Database::new(String::from("memory")));
    assert!(repo.find_by_id(1).is_none());
    let user = User::new(1, String::from("Bo"), String::from("bo@example.com"));
    assert!(repo.save(user).is_ok());
    let found = repo.find_by_id(1).expect("cached user");
    assert_eq!(found.id, 1);
    assert_eq!(found.name, "Bo");
    assert_eq!(found.email, "bo@example.com");
    repo.clear_cache();
    assert!(repo.find_by_id(1).is_none());
}

#[test]
fn database_has_no_rows() {
    let db = Database::new(String::from("memory"));
    assert!(db.query_user(3).is_none());
    let user = create_default_user();
    assert!(db.execute_update(&user).is_ok());
}

#[test]
fn circle_keeps_its_fields() {
    let c = Circle::new(1, 2, 3);
    assert_eq!((c.center_x, c.center_y, c.radius), (1, 2, 3));
}

#[test]
fn query_log_line() {
    let db = Database::new(String::from("memory"));
    assert_eq!(db.query_line(42), "Querying user with id: 42");
    assert_eq!(db.query_line(0), "Querying user with id: 0");
}

#[test]
fn config_getters() {
    let config = Config::new(String::from("example.org"), 443);
    assert_eq!(config.host(), "example.org");
    assert_eq!(config.port(), 443);
}
