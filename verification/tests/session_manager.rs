use kiri::bus::{BusHandle, HandleManager};
use kiri::cli::{D5Entrypoint, DisplayMode};
use kiri::config::{config_path, Config, ServiceConfig, ServiceType, SessionConfig};
use kiri::notify::{is_notify_call, MessageKind, Notification, NotificationHint, Urgency};
use kiri::service::D5;
use kiri::session::{leader_command, split_first_word, LeaderError};
use std::collections::BTreeMap;

fn connection() -> zbus::Connection {
    let runtime = tokio::runtime::Builder::new_current_thread().enable_all().build().unwrap();
    runtime.block_on(async {
        let (a, b) = tokio::net::UnixStream::pair().unwrap();
        let (a, b) = (a.into_std().unwrap(), b.into_std().unwrap());
        let guid = zbus::Guid::generate();
        let server = zbus::ConnectionBuilder::unix_stream(a).server(&guid).p2p().build();
        let client = zbus::ConnectionBuilder::unix_stream(b).p2p().build();
        let (server, client) = futures::future::join(server, client).await;
        let _server = server.unwrap();
        client.unwrap()
    })
}

fn handle(name: &str, path: &str) -> BusHandle {
    BusHandle::new(connection(), name.to_string(), path.to_string())
}

#[test]
fn new_notification_is_blank() {
    let n = Notification::new();
    assert_eq!(n.app_id, "");
    assert_eq!(n.replaces_id, 0);
    assert_eq!(n.app_icon, "");
    assert_eq!(n.summary, "");
    assert_eq!(n.body, "");
    assert!(n.actions.is_empty());
    assert_eq!(n.hints.sender_pid, 0);
    assert_eq!(n.hints.urgency, 0);
    assert_eq!(n.hints.transient, None);
    assert_eq!(n.hints.category, None);
    assert_eq!(n.expire_timeout, 0);
    let d = Notification::default();
    assert_eq!(d.summary, "");
    assert_eq!(d.display(), ": ");
}

#[test]
fn display_joins_summary_and_body() {
    let mut n = Notification::new();
    n.summary = "Battery low".to_string();
    n.body = "10% remaining".to_string();
    assert_eq!(n.display(), "Battery low: 10% remaining");
}

#[test]
fn transient_follows_the_hint() {
    let mut n = Notification::new();
    assert!(!n.is_transient());
    n.hints.transient = Some(true);
    assert!(n.is_transient());
    n.hints.transient = Some(false);
    assert!(!n.is_transient());
}

#[test]
fn default_hint_is_empty() {
    let h = NotificationHint::default();
    assert_eq!(h.sender_pid, 0);
    assert_eq!(h.urgency, 0);
    assert_eq!(h.transient, None);
    assert_eq!(h.category, None);
}

#[test]
fn urgency_wire_values() {
    assert_eq!(Urgency::Low.value(), 0);
    assert_eq!(Urgency::Normal.value(), 1);
    assert_eq!(Urgency::High.value(), 2);
}

#[test]
fn only_notify_method_calls_are_read() {
    assert!(is_notify_call(MessageKind::MethodCall, Some("Notify")));
    assert!(!is_notify_call(MessageKind::MethodCall, Some("CloseNotification")));
    assert!(!is_notify_call(MessageKind::MethodCall, None));
    assert!(!is_notify_call(MessageKind::Signal, Some("Notify")));
    assert!(!is_notify_call(MessageKind::MethodReturn, Some("Notify")));
    assert!(!is_notify_call(MessageKind::Error, Some("Notify")));
    assert!(!is_notify_call(MessageKind::Invalid, Some("Notify")));
}

#[test]
fn config_path_names_the_session_file() {
    assert_eq!(config_path("plasma"), "/etc/d5.conf.d/plasma.toml");
    assert_eq!(config_path(""), "/etc/d5.conf.d/.toml");
}

#[test]
fn config_values_hold_their_fields() {
    let mut services = BTreeMap::new();
    services.insert(
        "foo".to_string(),
        ServiceConfig { command: "echo foo".to_string(), service_type: ServiceType::Script },
    );
    let config = Config { session: SessionConfig { leader: "sway".to_string() }, services };
    assert_eq!(config.session.leader, "sway");
    assert_eq!(config.services["foo"].service_type, ServiceType::Script);
    let args = D5Entrypoint { session: "kiri".to_string(), display: DisplayMode::default() };
    assert_eq!(args.display, DisplayMode::X11);
}

#[test]
fn leader_splits_program_and_arguments() {
    let (program, args) = leader_command("sway --unsupported-gpu").unwrap();
    assert_eq!(program, "sway");
    assert_eq!(args, vec!["--unsupported-gpu".to_string()]);
}

#[test]
fn leader_honours_quotes() {
    let (program, args) = leader_command("dbus-run-session 'gnome shell' \"--a b\" c\\ d").unwrap();
    assert_eq!(program, "dbus-run-session");
    assert_eq!(args, vec!["gnome shell".to_string(), "--a b".to_string(), "c d".to_string()]);
}

#[test]
fn leader_without_words_is_empty() {
    assert_eq!(leader_command(""), Err(LeaderError::Empty));
    assert_eq!(leader_command("   # only a comment"), Err(LeaderError::Empty));
}

#[test]
fn leader_with_open_quote_is_unparsable() {
    assert_eq!(leader_command("sway \"--config"), Err(LeaderError::Unparsable));
    assert_eq!(leader_command("'"), Err(LeaderError::Unparsable));
}

#[test]
fn split_first_word_takes_the_program() {
    assert_eq!(split_first_word(vec![]), None);
    assert_eq!(
        split_first_word(vec!["a".to_string(), "b".to_string(), "c".to_string()]),
        Some(("a".to_string(), vec!["b".to_string(), "c".to_string()]))
    );
    assert_eq!(split_first_word(vec!["a".to_string()]), Some(("a".to_string(), vec![])));
}

#[test]
fn hello_greets_the_added_name() {
    let mut d5 = D5 { data: String::new() };
    assert_eq!(d5.hello(), "Hello from d5! ");
    d5.add_name("kiri".to_string());
    assert_eq!(d5.hello(), "Hello from d5! kiri");
    d5.add_name("gyaku".to_string());
    assert_eq!(d5.hello(), "Hello from d5! gyaku");
}

#[test]
fn bus_handle_keeps_its_fields() {
    let h = handle("com.fyralabs.d5", "/com/fyralabs/d5");
    assert_eq!(h.name, "com.fyralabs.d5");
    assert_eq!(h.path, "/com/fyralabs/d5");
    assert_eq!(h.get_conn().unique_name(), h.conn.unique_name());
}

#[test]
fn added_handle_is_found_by_name() {
    let mut m = HandleManager::new();
    assert!(m.get_handle("com.fyralabs.d5").is_none());
    m.add_handle(handle("com.fyralabs.d5", "/com/fyralabs/d5"));
    m.add_handle(handle("org.example.Other", "/other"));
    assert_eq!(m.get_handle("com.fyralabs.d5").unwrap().path, "/com/fyralabs/d5");
    assert_eq!(m.get_handle("org.example.Other").unwrap().path, "/other");
    assert!(m.get_handle("org.example.Missing").is_none());
    assert_eq!(m.get_handles().len(), 2);
}

#[test]
fn adding_a_name_again_replaces_its_handle() {
    let mut m = HandleManager::new();
    m.add_handle(handle("com.fyralabs.d5", "/first"));
    m.add_handle(handle("com.fyralabs.d5", "/second"));
    assert_eq!(m.get_handles().len(), 1);
    assert_eq!(m.get_handle("com.fyralabs.d5").unwrap().path, "/second");
}

#[test]
fn removed_handle_is_gone() {
    let mut m = HandleManager::new();
    m.add_handle(handle("a.b", "/a"));
    m.add_handle(handle("c.d", "/c"));
    m.remove_handle("a.b");
    assert!(m.get_handle("a.b").is_none());
    assert_eq!(m.get_handle("c.d").unwrap().path, "/c");
    assert_eq!(m.get_handles().len(), 1);
}

#[test]
fn handle_changed_through_get_handle_mut_stays_filed() {
    let mut m = HandleManager::new();
    m.add_handle(handle("a.b", "/a"));
    assert!(m.get_handle_mut("x.y").is_none());
    m.get_handle_mut("a.b").unwrap().path = "/changed".to_string();
    assert_eq!(m.get_handle("a.b").unwrap().path, "/changed");
}

#[test]
fn removing_a_new_handle_restores_the_manager() {
    let mut m = HandleManager::new();
    m.add_handle(handle("a.b", "/a"));
    m.add_handle(handle("c.d", "/c"));
    m.remove_handle("c.d");
    assert_eq!(m.get_handles().len(), 1);
    assert_eq!(m.get_handle("a.b").unwrap().path, "/a");
    assert!(m.get_handle("c.d").is_none());
}

#[test]
fn handle_count_follows_new_names() {
    let mut m = HandleManager::new();
    assert_eq!(m.get_handles().len(), 0);
    m.add_handle(handle("a.b", "/a"));
    assert_eq!(m.get_handles().len(), 1);
    m.add_handle(handle("a.b", "/again"));
    assert_eq!(m.get_handles().len(), 1);
    m.add_handle(handle("c.d", "/c"));
    assert_eq!(m.get_handles().len(), 2);
    m.remove_handle("a.b");
    assert_eq!(m.get_handles().len(), 1);
}
