use simple_deployer::containers::{check_container_exist, find_container, get_container_id, text_occurs, ContainerSummary};
use simple_deployer::control::{burnup_seconds, main_update_actions, rollback_update_actions, UpdateAction};
use simple_deployer::logging::{container_log, join_path, log_paths, remove_underscores};
use simple_deployer::registry::{login_token, LoginError};
use simple_deployer::schedule::{check_next_update_time, clock_in_range_ms, ControlClock};

fn summary(id: &str, names: &[&str]) -> ContainerSummary {
    ContainerSummary { id: id.to_string(), names: names.iter().map(|s| s.to_string()).collect() }
}

#[test]
fn container_lookup_by_name() {
    let list = vec![
        summary("c1", &["/nginx"]),
        summary("c2", &["/server_main", "/alias"]),
        summary("c3", &["/server_main_old"]),
    ];
    assert_eq!(find_container(&list, "server_main"), Some(1));
    assert!(check_container_exist(&list, "nginx"));
    assert!(!check_container_exist(&list, "server_rollback"));
    assert_eq!(get_container_id(&list, "server_main"), Some("c2".to_string()));
    assert_eq!(get_container_id(&list, "main_old"), Some("c3".to_string()));
    assert_eq!(get_container_id(&list, "nope"), None);
    // The names are searched written together.
    assert_eq!(get_container_id(&list, "main/alias"), Some("c2".to_string()));
    let empty: Vec<ContainerSummary> = vec![];
    assert!(!check_container_exist(&empty, "x"));
}

#[test]
fn substring_search() {
    assert!(text_occurs("", "abc"));
    assert!(text_occurs("abc", "abc"));
    assert!(text_occurs("bc", "abc"));
    assert!(!text_occurs("abcd", "abc"));
    assert!(!text_occurs("ac", "abc"));
}

#[test]
fn log_file_paths() {
    let p = log_paths("./log_dir", "my_app");
    assert_eq!(p.file, "./logdir/myapp.log");
    assert_eq!(p.rolling_pattern, "./log_dir/my_app{}.log");
    let q = log_paths("/var/log/", "ctl");
    assert_eq!(q.file, "/var/log/ctl.log");
    let r = log_paths("logs", "/abs/name");
    assert_eq!(r.rolling_pattern, "/abs/name{}.log");
    assert_eq!(join_path("", "x"), "x");
    assert_eq!(remove_underscores("__a_b__"), "ab");
}

#[test]
fn container_output_entries() {
    let out = container_log("server_main", false, "hello".to_string());
    assert_eq!(out.level, "info");
    assert_eq!(out.name, "server_main");
    assert_eq!(out.data, "hello");
    let err = container_log("nginx", true, "oops".to_string());
    assert_eq!(err.level, "error");
}

#[test]
fn login_answers() {
    assert_eq!(login_token(false, Some("t".to_string())), Ok("t".to_string()));
    assert_eq!(login_token(true, Some("t".to_string())), Err(LoginError::Rejected));
    assert_eq!(login_token(false, None), Err(LoginError::NoToken));
}

#[test]
fn burnup_wait() {
    assert_eq!(burnup_seconds(5), 5);
    assert_eq!(burnup_seconds(-7), 7);
    assert_eq!(burnup_seconds(i64::MIN), 9223372036854775808);
}

#[test]
fn update_steps() {
    let steps = main_update_actions("team/app", false, -3);
    assert_eq!(steps.len(), 10);
    assert!(matches!(steps[0], UpdateAction::RunRollback));
    assert!(matches!(steps[1], UpdateAction::Wait(3)));
    assert!(matches!(steps[3], UpdateAction::PointNginxAtRollback));
    match &steps[6] {
        UpdateAction::Pull(i, t) => {
            assert_eq!(i, "team/app");
            assert_eq!(t, "stable");
        }
        other => panic!("unexpected {:?}", other),
    }
    match &steps[7] {
        UpdateAction::CreateMain(i, r) => {
            assert_eq!(i, "team/app");
            assert_eq!(r, "main");
        }
        other => panic!("unexpected {:?}", other),
    }
    let dev = main_update_actions("team/app", true, 1);
    match &dev[6] {
        UpdateAction::Pull(_, t) => assert_eq!(t, "latest"),
        other => panic!("unexpected {:?}", other),
    }
    let rb = rollback_update_actions("team/app");
    assert_eq!(rb.len(), 4);
    assert!(matches!(rb[0], UpdateAction::PointNginxAtMain));
    match &rb[3] {
        UpdateAction::CreateRollback(i, r) => {
            assert_eq!(i, "team/app");
            assert_eq!(r, "rollback");
        }
        other => panic!("unexpected {:?}", other),
    }
}

#[test]
fn due_update_stays_due() {
    let last = 1_000_000;
    assert!(check_next_update_time(last, false, 60, "", last + 60_001));
    assert!(check_next_update_time(last, false, 60, "", last + 3_600_000));
    assert!(!check_next_update_time(last, false, 60, "", last + 60_000));
}

#[test]
fn clock_range() {
    assert!(clock_in_range_ms(0));
    assert!(clock_in_range_ms(-1));
    assert!(clock_in_range_ms(8_000_000_000_000_000));
    assert!(clock_in_range_ms(-8_000_000_000_000_000));
    assert!(!clock_in_range_ms(8_000_000_000_000_001));
    assert!(!clock_in_range_ms(i64::MIN));
}

#[test]
fn control_clock() {
    let start = 1_704_034_800_000;
    let mut early = ControlClock::new(false, 10, String::new(), 5, -1);
    assert!(early.update_due(10_000));
    assert_eq!(early.last_update_ms(), 10_000);
    let mut huge = ControlClock::new(false, i64::MAX, String::new(), i64::MIN, start);
    assert!(!huge.update_due(i64::MAX));
    assert!(huge.health_due(i64::MIN));
    let mut c = ControlClock::new(false, 10, String::new(), 5, start);
    assert!(!c.health_due(start + 5_000));
    assert!(c.health_due(start + 5_001));
    assert!(!c.health_due(start + 5_001));
    assert!(!c.update_due(start + 10_000));
    assert!(c.update_due(start + 10_001));
    assert!(!c.update_due(start + 10_001));
    assert!(c.update_due(start + 20_002));
    // A schedule the parser cannot be asked about falls back to the interval.
    let mut d = ControlClock::new(true, 10, "*/0 * * * *".to_string(), 5, start);
    assert!(d.update_due(start + 10_001));
    // With a schedule, the interval does not count.
    let mut e = ControlClock::new(true, 10, "30 * * * *".to_string(), 5, start);
    assert!(!e.update_due(start + 10_001));
    assert!(e.update_due(start + 30 * 60 * 1000 + 1));
    // Fields may be separated by tabs.
    let mut t = ControlClock::new(true, 10, "30\t*\t*\t*\t*".to_string(), 5, start);
    assert!(!t.update_due(start + 10_001));
    assert!(t.update_due(start + 30 * 60 * 1000 + 1));
}

#[test]
fn startup_image_order() {
    let v = simple_deployer::control::startup_images("team/app", false);
    assert_eq!(v.len(), 3);
    assert_eq!((v[0].image.as_str(), v[0].tag.as_str(), v[0].checked), ("team/app", "stable", true));
    assert_eq!((v[1].image.as_str(), v[1].tag.as_str(), v[1].checked), ("team/app", "rollback", true));
    assert_eq!((v[2].image.as_str(), v[2].tag.as_str(), v[2].checked), ("nginx", "stable-alpine", false));
    let d = simple_deployer::control::startup_images("team/app", true);
    assert_eq!(d[0].tag, "latest");
}

#[test]
fn status_reads_give_back_last_writes() {
    let mut s = simple_deployer::status::GLOBAL_SYSTEM_STATUS_LOCK::new();
    assert_eq!(s.get_nginx_target(), simple_deployer::role::ContainerRole::Main);
    s.set_main(simple_deployer::status::HealthyStatus::Unhealthy);
    s.set_rollback(simple_deployer::status::HealthyStatus::Healthy);
    s.set_main_ip(Some("10.0.0.1".to_string()));
    s.set_rollback_ip(Some("10.0.0.2".to_string()));
    s.set_nginx_target(simple_deployer::role::ContainerRole::Rollback);
    s.set_nginx_target_ip("10.0.0.2".to_string());
    assert_eq!(s.get_main(), simple_deployer::status::HealthyStatus::Unhealthy);
    assert_eq!(s.get_main_ip(), Some("10.0.0.1".to_string()));
    assert_eq!(s.get_nginx_target(), simple_deployer::role::ContainerRole::Rollback);
    simple_deployer::control::record_container_ip(&mut s, simple_deployer::role::ContainerRole::Main, Some("10.0.0.9".to_string()));
    assert_eq!(s.get_main_ip(), Some("10.0.0.9".to_string()));
}

#[test]
fn update_flag_follows_last_start_or_finish() {
    let mut s = simple_deployer::status::GLOBAL_SYSTEM_STATUS_LOCK::new();
    assert!(!s.is_updating());
    s.set_update_start();
    s.set_main(simple_deployer::status::HealthyStatus::Healthy);
    s.set_nginx_target_ip("1.1.1.1".to_string());
    assert!(s.is_updating());
    s.set_update_start();
    s.set_update_finish();
    s.set_rollback_ip(None);
    assert!(!s.is_updating());
}
