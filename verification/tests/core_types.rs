use simple_deployer::logs::{ContainerLog, GLOBAL_CONTAINER_LOGGER_LOCK};
use simple_deployer::role::{role_from_label, Container, ContainerRole};
use simple_deployer::slots::{GLOBAL_CONTAINER_MAIN_LOCK, GLOBAL_CONTAINER_NGINX_LOCK, GLOBAL_CONTAINER_ROLLBACK_LOCK};
use simple_deployer::status::{ContainerStatus, HealthyStatus, SystemStatus, GLOBAL_SYSTEM_STATUS_LOCK};
use simple_deployer::text::{split_pair, trim_text, lowercase_text, same_text, has_char, find_char};

fn log(name: &str, level: &str, data: &str) -> ContainerLog {
    ContainerLog { name: name.to_string(), level: level.to_string(), data: data.to_string() }
}

#[test]
fn role_names_and_tags() {
    assert_eq!(ContainerRole::Main.name(), "server_main");
    assert_eq!(ContainerRole::Dev.name(), "server_main");
    assert_eq!(ContainerRole::Rollback.name(), "server_rollback");
    assert_eq!(ContainerRole::Nginx.name(), "nginx");
    assert_eq!(ContainerRole::NoRole.name(), "NONE");
    assert_eq!(ContainerRole::Main.tag(), "stable");
    assert_eq!(ContainerRole::Dev.tag(), "latest");
    assert_eq!(ContainerRole::Rollback.tag(), "rollback");
    assert_eq!(ContainerRole::Nginx.tag(), "stable-alpine");
    assert_eq!(ContainerRole::NoRole.tag(), "latest");
    assert_eq!(ContainerRole::default(), ContainerRole::NoRole);
}

#[test]
fn role_labels_ignore_case_and_space() {
    assert_eq!(role_from_label("main"), ContainerRole::Main);
    assert_eq!(role_from_label("  MAIN \n"), ContainerRole::Main);
    assert_eq!(role_from_label("Dev"), ContainerRole::Dev);
    assert_eq!(role_from_label("\tRollBack"), ContainerRole::Rollback);
    assert_eq!(role_from_label("nginx"), ContainerRole::Nginx);
    assert_eq!(role_from_label("ma in"), ContainerRole::NoRole);
    assert_eq!(role_from_label(""), ContainerRole::NoRole);
}

#[test]
fn text_helpers() {
    assert_eq!(trim_text("  a b \t"), "a b");
    assert_eq!(trim_text(" \u{3000} "), "");
    assert_eq!(trim_text("x"), "x");
    assert_eq!(lowercase_text("AbC-Ä"), "abc-ä");
    assert_eq!(split_pair("a/b/c", '/'), ("a".to_string(), Some("b".to_string())));
    assert_eq!(split_pair("abc", '/'), ("abc".to_string(), None));
    assert_eq!(split_pair("a/", '/'), ("a".to_string(), Some("".to_string())));
    assert!(same_text("abc", "abc"));
    assert!(!same_text("abc", "abd"));
    assert!(has_char("a:b", ':'));
    assert_eq!(find_char("ab:c", ':'), 2);
    assert_eq!(find_char("abc", ':'), 3);
}

#[test]
fn container_records() {
    let c = Container::new("repo/app".to_string(), " Main ".to_string());
    assert_eq!(c.role, ContainerRole::Main);
    assert_eq!(c.name, "server_main");
    assert_eq!(c.image, "repo/app");
    assert_eq!(c.id, "");
    let mut c2 = c.recreate();
    assert_eq!(c2.name, "server_main");
    assert_eq!(c2.id, "");
    c2.set_id("abc123".to_string());
    assert_eq!(c2.id(), "abc123");
    let r = c2.recreate();
    assert_eq!(r.id, "");
    assert_eq!(r.role(), ContainerRole::Main);
    let n = Container::new("nginx".to_string(), "nginx".to_string());
    assert_eq!(n.name(), "nginx");
    let x = Container::new("img".to_string(), "unknown".to_string());
    assert_eq!(x.role, ContainerRole::NoRole);
    assert_eq!(x.name, "NONE");
}

#[test]
fn system_status_starts_ready() {
    let s = SystemStatus::new();
    assert!(!s.in_update);
    assert_eq!(s.main, HealthyStatus::Ready);
    assert_eq!(s.main_ip, None);
    assert_eq!(s.nginx_target_role, ContainerRole::Main);
    assert_eq!(s.nginx_target_ip, "");
    let cs = ContainerStatus::new(HealthyStatus::Starting, "id1".to_string());
    assert_eq!(cs.healthy, HealthyStatus::Starting);
    assert_eq!(cs.container_id(), "id1");
}

#[test]
fn status_setters_and_getters() {
    let mut lock = GLOBAL_SYSTEM_STATUS_LOCK::new();
    assert!(!lock.is_updating());
    lock.set_update_start();
    assert!(lock.is_updating());
    lock.set_update_finish();
    assert!(!lock.is_updating());
    lock.set_main(HealthyStatus::Healthy);
    lock.set_rollback(HealthyStatus::Unhealthy);
    lock.set_nginx(HealthyStatus::Starting);
    lock.set_main_ip(Some("10.0.0.2".to_string()));
    lock.set_rollback_ip(Some("10.0.0.3".to_string()));
    lock.set_nginx_target(ContainerRole::Rollback);
    lock.set_nginx_target_ip("10.0.0.3".to_string());
    assert_eq!(lock.get_main(), HealthyStatus::Healthy);
    assert_eq!(lock.get_rollback(), HealthyStatus::Unhealthy);
    assert_eq!(lock.get_nginx(), HealthyStatus::Starting);
    assert_eq!(lock.get_main_ip(), Some("10.0.0.2".to_string()));
    assert_eq!(lock.get_rollback_ip(), Some("10.0.0.3".to_string()));
    assert_eq!(lock.get_nginx_target(), ContainerRole::Rollback);
    assert_eq!(lock.get_nginx_ip(), "10.0.0.3");
    let copy = lock.get();
    assert_eq!(copy.main_ip, Some("10.0.0.2".to_string()));
    lock.set(SystemStatus::new());
    assert_eq!(lock.get_main(), HealthyStatus::Ready);
    assert_eq!(lock.get_main_ip(), None);
}

#[test]
fn update_start_then_finish_restores_status() {
    let mut lock = GLOBAL_SYSTEM_STATUS_LOCK::new();
    lock.set_main_ip(Some("1.2.3.4".to_string()));
    lock.set_update_start();
    lock.set_update_finish();
    let s = lock.get();
    assert!(!s.in_update);
    assert_eq!(s.main_ip, Some("1.2.3.4".to_string()));
}

#[test]
fn log_queue_is_first_in_first_out() {
    let mut q = GLOBAL_CONTAINER_LOGGER_LOCK::new();
    assert!(q.pop().is_none());
    q.push(log("server_main", "info", "one"));
    q.push(log("server_main", "error", "two"));
    q.push(log("nginx", "info", "three"));
    assert_eq!(q.len(), 3);
    let a = q.pop().unwrap();
    assert_eq!(a.data, "one");
    assert_eq!(a.level, "info");
    q.push(log("nginx", "info", "four"));
    assert_eq!(q.pop().unwrap().data, "two");
    assert_eq!(q.pop().unwrap().data, "three");
    assert_eq!(q.pop().unwrap().data, "four");
    assert!(q.pop().is_none());
}

#[test]
fn log_queue_flush_empties() {
    let mut q = GLOBAL_CONTAINER_LOGGER_LOCK::new();
    q.push(log("a", "info", "x"));
    q.push(log("b", "info", "y"));
    q.flush();
    assert_eq!(q.len(), 0);
    assert!(q.pop().is_none());
    q.flush();
    assert_eq!(q.len(), 0);
}

#[test]
fn container_slots() {
    let mut main = GLOBAL_CONTAINER_MAIN_LOCK::new();
    assert!(main.get().is_none());
    main.set(Some(Container::new("app".to_string(), "main".to_string())));
    assert_eq!(main.get().unwrap().name, "server_main");
    main.set(None);
    assert!(main.get().is_none());
    let mut rb = GLOBAL_CONTAINER_ROLLBACK_LOCK::new();
    rb.set(Some(Container::new("app".to_string(), "rollback".to_string())));
    assert_eq!(rb.get().unwrap().role, ContainerRole::Rollback);
}

#[test]
fn nginx_change_target_commands() {
    let mut status = GLOBAL_SYSTEM_STATUS_LOCK::new();
    let mut nginx = GLOBAL_CONTAINER_NGINX_LOCK::new();
    let none = nginx.change_target(&mut status, Some("10.0.0.9".to_string()), None);
    assert!(none.is_empty());
    assert_eq!(status.get_nginx_ip(), "");
    nginx.set(Some(Container::new("nginx".to_string(), "nginx".to_string())));
    let cmds = nginx.change_target(&mut status, Some("10.0.0.9".to_string()), Some("3000".to_string()));
    assert_eq!(cmds.len(), 2);
    assert_eq!(cmds[0], vec!["/bin/sh", "-c", "export TARGET_CONTAINER=10.0.0.9; /etc/nginx/regenerate.sh"]);
    assert_eq!(cmds[1], vec!["/bin/sh", "-c", "TARGET_PORT=3000; /etc/nginx/regenerate.sh"]);
    assert_eq!(status.get_nginx_ip(), "10.0.0.9");
    let only_port = nginx.change_target(&mut status, None, Some("80".to_string()));
    assert_eq!(only_port.len(), 1);
    assert_eq!(status.get_nginx_ip(), "10.0.0.9");
    assert!(nginx.get().is_some());
}
