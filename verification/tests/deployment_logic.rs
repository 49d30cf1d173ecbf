use simple_deployer::config::{registry_credentials, ConfigError, NumberSetting, ParsedConfig, GLOBAL_PARSED_CONFIG_LOCK, CredentialsError};
use simple_deployer::control::{
    container_plan, create_plan, health_check_and_report, health_check_url, image_needs_download,
    main_image_tag, main_role_label, record_container_ip, response_is_healthy, update_check,
    HealthAction, OutdatedError,
};
use simple_deployer::image::{get_local_image_digest, image_tags_well_formed, pull_request, ImageSummary, LocalImageSearchResult};
use simple_deployer::registry::{image_url_split, IGetDigestResult, Registry, RegistryImage, RegistryImagePage, RegistryTag};
use simple_deployer::role::{Container, ContainerRole};
use simple_deployer::schedule::{check_next_update_time, cron_text_is_supported, health_check_time, interval_deadline};
use simple_deployer::status::{HealthyStatus, GLOBAL_SYSTEM_STATUS_LOCK};

const SAMPLE: &str = "[Default]
is_development = yes
container_prefix = web
burnup_waiting = 7
update_check_use_cron = yes
update_check_cron_text = 0 3 * * *
docker_hub_login_info = yes

[Nginx]
nginx = yes
http_redirect = no

[Repository]
registry_url = registry.example.com
docker_hub_target_repo = team/app
docker_hub_username = bob
docker_hub_password = pw

[Logging]
max_file_size_mb = 12
logging_s3 = yes

[S3]
bucket = logs-bucket
";

fn strings(v: &[&str]) -> Vec<String> {
    v.iter().map(|s| s.to_string()).collect()
}

fn local(found: bool, digest: Option<&str>) -> LocalImageSearchResult {
    LocalImageSearchResult {
        found,
        image_url: "team/app".to_string(),
        image_tag: "stable".to_string(),
        image_digest: digest.map(|d| d.to_string()),
        image_id: None,
    }
}

fn remote(found: bool, digest: Option<&str>) -> IGetDigestResult {
    IGetDigestResult {
        found,
        digest: digest.map(|d| d.to_string()),
        image_url: "team/app".to_string(),
        tag: "stable".to_string(),
    }
}

#[test]
fn config_reads_settings_and_defaults() {
    let c = ParsedConfig::new(SAMPLE.to_string()).unwrap();
    assert!(c.default.is_development);
    assert_eq!(c.default.container_prefix, "web");
    assert_eq!(c.default.burnup_waiting, 7);
    assert_eq!(c.default.docker_socket, "unix://var/run/docker.sock");
    assert_eq!(c.default.health_check_interval, 5);
    assert_eq!(c.default.update_check_interval, 10);
    assert!(c.default.update_check_use_cron);
    assert_eq!(c.default.update_check_cron_text, "0 3 * * *");
    assert!(c.nginx.nginx);
    assert!(!c.nginx.http_redirect);
    assert_eq!(c.repository.registry_url, "registry.example.com");
    assert_eq!(c.repository.registry_password, Some("pw".to_string()));
    assert_eq!(c.repository.registry_target_repo, "team/app");
    assert!(c.repository.registry_login_info);
    assert_eq!(c.repository.registry_username, Some("bob".to_string()));
    assert!(!c.logging.logging);
    assert_eq!(c.logging.controller_logname, "KUUWANGE");
    assert_eq!(c.logging.max_file_size_mb, 12);
    assert_eq!(c.logging.server_identity_prefix, "KUUWANGE_SERVER");
    assert!(c.logging.logging_s3);
    assert_eq!(c.s3.bucket, Some("logs-bucket".to_string()));
    assert_eq!(c.s3.access_key, None);
}

#[test]
fn config_minimal_file_gets_defaults() {
    let c = ParsedConfig::new("[Repository]\ndocker_hub_target_repo = app\n".to_string()).unwrap();
    assert!(!c.default.is_development);
    assert_eq!(c.default.container_prefix, "server");
    assert_eq!(c.default.burnup_waiting, 5);
    assert_eq!(c.default.update_check_cron_text, "*/2 * * * *");
    assert!(!c.default.update_check_use_cron);
    assert_eq!(c.repository.registry_url, "hub.docker.com");
    assert_eq!(c.logging.logging_path, "./logs");
    assert_eq!(c.logging.logging_prefix, "controller");
    assert_eq!(c.logging.max_file_size_mb, 5);
}

#[test]
fn config_section_names_ignore_case() {
    let c = ParsedConfig::new("[REPOSITORY]\nDocker_Hub_Target_Repo = app\n[default]\nburnup_waiting = -3\n".to_string()).unwrap();
    assert_eq!(c.repository.registry_target_repo, "app");
    assert_eq!(c.default.burnup_waiting, -3);
}

#[test]
fn config_flags_need_exact_yes() {
    let c = ParsedConfig::new("[Repository]\ndocker_hub_target_repo = app\n[Nginx]\nnginx = Yes\nhttp_redirect = yes\n".to_string()).unwrap();
    assert!(!c.nginx.nginx);
    assert!(c.nginx.http_redirect);
}

#[test]
fn config_errors() {
    assert_eq!(ParsedConfig::new("[Default\nx = 1\n".to_string()).unwrap_err(), ConfigError::Unreadable);
    assert_eq!(
        ParsedConfig::new("[Default]\nburnup_waiting = soon\n[Repository]\ndocker_hub_target_repo = a\n".to_string()).unwrap_err(),
        ConfigError::BadNumber(NumberSetting::BurnupWaiting)
    );
    assert_eq!(
        ParsedConfig::new("[Default]\nhealth_check_interval = 1.5\n".to_string()).unwrap_err(),
        ConfigError::BadNumber(NumberSetting::HealthCheckInterval)
    );
    assert_eq!(
        ParsedConfig::new("[Default]\nupdate_check_interval = x\n".to_string()).unwrap_err(),
        ConfigError::BadNumber(NumberSetting::UpdateCheckInterval)
    );
    assert_eq!(ParsedConfig::new("".to_string()).unwrap_err(), ConfigError::MissingTargetRepo);
    assert_eq!(
        ParsedConfig::new("[Repository]\ndocker_hub_target_repo = a\n[Logging]\nmax_file_size_mb = 99999999999999999999\n".to_string()).unwrap_err(),
        ConfigError::BadNumber(NumberSetting::MaxFileSizeMb)
    );
}

#[test]
fn config_cell_and_credentials() {
    let mut cell = GLOBAL_PARSED_CONFIG_LOCK::new();
    assert_eq!(cell.get().default.burnup_waiting, 0);
    assert_eq!(cell.get().repository.registry_target_repo, "");
    let c = ParsedConfig::new(SAMPLE.to_string()).unwrap();
    cell.set(c);
    let got = cell.get();
    assert_eq!(got.repository.registry_target_repo, "team/app");
    let creds = registry_credentials(&got.repository).unwrap().unwrap();
    assert_eq!(creds.0, "bob");
    let empty = ParsedConfig::empty();
    assert_eq!(registry_credentials(&empty.repository), Ok(None));
    let partial = ParsedConfig::new("[Default]\ndocker_hub_login_info = yes\n[Repository]\ndocker_hub_target_repo = a\ndocker_hub_username = bob\n".to_string()).unwrap();
    assert_eq!(registry_credentials(&partial.repository), Err(CredentialsError::Incomplete));
}

fn image(id: &str, digests: Option<&[&str]>, tags: Option<&[&str]>) -> ImageSummary {
    ImageSummary { id: id.to_string(), repo_digests: digests.map(strings), repo_tags: tags.map(strings) }
}

#[test]
fn local_image_search() {
    let images = vec![
        image("sha256:1", Some(&["nginx@sha256:aaa"]), Some(&["nginx:stable-alpine"])),
        image("sha256:2", Some(&["team/app@sha256:bbb", "localbuild", "team/app@sha256:ccc"]), Some(&["team/app:latest", "team/app:stable"])),
        image("sha256:3", None, None),
    ];
    assert!(image_tags_well_formed(&images, "team/app", "stable"));
    let r = get_local_image_digest(&images, "team/app".to_string(), Some("stable".to_string()));
    assert!(r.found);
    assert_eq!(r.image_tag, "stable");
    assert_eq!(r.image_digest, Some("sha256:ccc".to_string()));
    assert_eq!(r.image_id, Some("sha256:2".to_string()));
    let d = get_local_image_digest(&images, "team/app".to_string(), None);
    assert!(d.found);
    assert_eq!(d.image_tag, "latest");
    let n = get_local_image_digest(&images, "other".to_string(), Some("stable".to_string()));
    assert!(!n.found);
    assert_eq!(n.image_url, "other");
    assert_eq!(n.image_digest, None);
    let no_digest = vec![image("sha256:9", Some(&["local"]), Some(&["mine:1"]))];
    let m = get_local_image_digest(&no_digest, "mine".to_string(), Some("1".to_string()));
    assert_eq!(m.image_digest, Some("".to_string()));
    let empty: Vec<ImageSummary> = vec![];
    assert!(!get_local_image_digest(&empty, "x".to_string(), None).found);
}

#[test]
fn malformed_tag_is_detected() {
    let images = vec![image("sha256:1", None, Some(&["<none>"])), image("sha256:2", None, Some(&["app:stable"]))];
    assert!(!image_tags_well_formed(&images, "app", "stable"));
    let after = vec![image("sha256:2", None, Some(&["app:stable"])), image("sha256:1", None, Some(&["<none>"]))];
    assert!(image_tags_well_formed(&after, "app", "stable"));
}

#[test]
fn pull_requests() {
    let a = pull_request("team/app", Some("stable".to_string()), true);
    assert_eq!(a.image, "team/app:stable");
    assert_eq!(a.tag, "stable");
    let b = pull_request("nginx", Some("stable-alpine".to_string()), false);
    assert_eq!(b.image, "nginx:stable-alpine");
    assert_eq!(b.tag, "latest");
    let c = pull_request("nginx", None, true);
    assert_eq!(c.image, "nginx:latest");
}

#[test]
fn image_url_splitting() {
    assert_eq!(image_url_split("team/app".to_string()), ["team".to_string(), "app".to_string()]);
    assert_eq!(image_url_split("nginx".to_string()), ["nginx".to_string(), "nginx".to_string()]);
    assert_eq!(image_url_split("a/b/c".to_string()), ["a".to_string(), "b".to_string()]);
}

fn page() -> RegistryImagePage {
    RegistryImagePage {
        listed: true,
        results: vec![
            RegistryImage { digest: "sha256:old".to_string(), tags: Some(vec![RegistryTag { tag: "stable".to_string(), is_current: false }]) },
            RegistryImage { digest: "sha256:none".to_string(), tags: None },
            RegistryImage {
                digest: "sha256:new".to_string(),
                tags: Some(vec![
                    RegistryTag { tag: "latest".to_string(), is_current: true },
                    RegistryTag { tag: "stable".to_string(), is_current: true },
                ]),
            },
        ],
    }
}

#[test]
fn registry_requests_and_digests() {
    let c = ParsedConfig::new(SAMPLE.to_string()).unwrap();
    let mut reg = Registry::new(&c);
    let login = reg.login_request();
    assert_eq!(login.url, "https://registry.example.com/v2/users/login");
    assert_eq!(login.body.username, "bob");
    assert!(reg.digest_query("team/app".to_string()).is_none());
    let none = reg.get_digest_of_image("team/app".to_string(), Some("stable".to_string()), Some(page()));
    assert!(!none.found);
    reg.record_token("tok".to_string());
    assert_eq!(reg.token, Some("tok".to_string()));
    let q = reg.digest_query("team/app".to_string()).unwrap();
    assert_eq!(q.url, "https://registry.example.com/v2/namespaces/team/repositories/app/images?status=active&currently_tagged=1&page=1&page_size=100");
    assert_eq!(q.authorization, "Bearer tok");
    let r = reg.get_digest_of_image("team/app".to_string(), Some("stable".to_string()), Some(page()));
    assert!(r.found);
    assert_eq!(r.digest, Some("sha256:new".to_string()));
    assert_eq!(r.tag, "stable");
    let l = reg.get_digest_of_image("team/app".to_string(), None, Some(page()));
    assert_eq!(l.tag, "latest");
    assert_eq!(l.digest, Some("sha256:new".to_string()));
    let miss = reg.get_digest_of_image("team/app".to_string(), Some("rollback".to_string()), Some(page()));
    assert!(!miss.found);
    assert_eq!(miss.digest, None);
    assert!(!reg.get_digest_of_image("team/app".to_string(), None, None).found);
    let mut unlisted = page();
    unlisted.listed = false;
    assert!(!reg.get_digest_of_image("team/app".to_string(), Some("stable".to_string()), Some(unlisted)).found);
}

#[test]
fn anonymous_login() {
    let c = ParsedConfig::new("[Repository]\ndocker_hub_target_repo = a\n".to_string()).unwrap();
    let reg = Registry::new(&c);
    let login = reg.login_request();
    assert_eq!(login.url, "https://hub.docker.com/v2/users/login");
    assert_eq!(login.body.username, "anonymous");
    assert_eq!(login.body.password, "anonymous");
}

#[test]
fn cron_texts() {
    assert!(cron_text_is_supported("*/2 * * * *"));
    assert!(cron_text_is_supported("0 3 * * Mon-Fri"));
    assert!(cron_text_is_supported("*/05 * * * *"));
    assert!(!cron_text_is_supported("* * * *"));
    assert!(!cron_text_is_supported("*/0 * * * *"));
    assert!(!cron_text_is_supported("*/00,5 * * * *"));
    assert!(cron_text_is_supported("*/01 * * * *"));
    assert!(cron_text_is_supported("*/2\t*\t*\t*\t*"));
    assert!(cron_text_is_supported("*/2\u{3000}* * * *"));
    assert!(cron_text_is_supported("*/*/5 * * * *"));
    assert!(cron_text_is_supported("*/+5 * * * *"));
    assert!(cron_text_is_supported("1/0 * * * *"));
    assert!(cron_text_is_supported("é * * * *"));
    assert!(!cron_text_is_supported("*/*/0 * * * *"));
    assert!(!cron_text_is_supported("5,*/+00 * * * *"));
    assert!(!cron_text_is_supported("* * * * */0"));
    assert!(!cron_text_is_supported("*\t* * *"));
    assert!(!cron_text_is_supported(""));
}

// 2024-01-01 00:00:00 in Seoul (UTC+9).
const NEW_YEAR_SEOUL_MS: i64 = 1704034800000;

#[test]
fn update_schedule() {
    let half_past = NEW_YEAR_SEOUL_MS + 30 * 60 * 1000;
    assert!(!check_next_update_time(NEW_YEAR_SEOUL_MS, true, 10, "30 * * * *", half_past));
    assert!(check_next_update_time(NEW_YEAR_SEOUL_MS, true, 10, "30 * * * *", half_past + 1));
    assert!(!check_next_update_time(NEW_YEAR_SEOUL_MS, true, 10, "30 * * * *", NEW_YEAR_SEOUL_MS + 11_000));
    // A schedule separated by tabs is used.
    assert!(!check_next_update_time(NEW_YEAR_SEOUL_MS, true, 10, "30\t*\t*\t*\t*", NEW_YEAR_SEOUL_MS + 11_000));
    assert!(check_next_update_time(NEW_YEAR_SEOUL_MS, true, 10, "30\t*\t*\t*\t*", half_past + 1));
    // A schedule the parser cannot be asked about falls back to the interval.
    assert!(check_next_update_time(NEW_YEAR_SEOUL_MS, true, 10, "*/0 * * * *", NEW_YEAR_SEOUL_MS + 10_001));
    // A schedule the parser refuses falls back to the interval.
    assert!(check_next_update_time(NEW_YEAR_SEOUL_MS, true, 10, "61 * * * *", NEW_YEAR_SEOUL_MS + 10_001));
    assert!(!check_next_update_time(NEW_YEAR_SEOUL_MS, false, 10, "30 * * * *", NEW_YEAR_SEOUL_MS + 10_000));
    assert!(check_next_update_time(NEW_YEAR_SEOUL_MS, false, 10, "30 * * * *", NEW_YEAR_SEOUL_MS + 10_001));
}

#[test]
fn health_schedule() {
    assert!(!health_check_time(1000, 5, 6000));
    assert!(health_check_time(1000, 5, 6001));
    assert!(health_check_time(1000, -5, 0));
    assert_eq!(interval_deadline(1000, 5), 6000);
    assert_eq!(interval_deadline(i64::MAX, 1), i64::MAX as i128 + 1000);
    assert_eq!(interval_deadline(0, i64::MAX), i64::MAX as i128 * 1000);
    assert!(!health_check_time(i64::MAX, 1, i64::MAX));
    assert!(health_check_time(i64::MIN, 0, i64::MIN + 1));
    assert!(health_check_time(-5_000_000, 1, 0));
}

#[test]
fn update_decisions() {
    assert!(update_check(&local(true, Some("a")), &remote(true, Some("b"))));
    assert!(!update_check(&local(true, Some("a")), &remote(true, Some("a"))));
    assert!(update_check(&local(false, None), &remote(true, Some("a"))));
    assert!(!update_check(&local(false, None), &remote(false, None)));
    assert!(!update_check(&local(true, Some("a")), &remote(true, None)));
    assert_eq!(image_needs_download(&remote(true, Some("a")), &local(true, Some("a"))), Ok(false));
    assert_eq!(image_needs_download(&remote(true, Some("a")), &local(true, Some("b"))), Ok(true));
    assert_eq!(image_needs_download(&remote(true, Some("a")), &local(false, None)), Ok(true));
    assert_eq!(image_needs_download(&remote(true, None), &local(true, Some("a"))), Ok(true));
    assert_eq!(image_needs_download(&remote(false, None), &local(true, Some("a"))), Err(OutdatedError::RegistryUnchecked));
    assert_eq!(main_role_label(true), "dev");
    assert_eq!(main_role_label(false), "main");
    assert_eq!(main_image_tag(true), "latest");
    assert_eq!(main_image_tag(false), "stable");
}

fn status_with_ips() -> GLOBAL_SYSTEM_STATUS_LOCK {
    let mut s = GLOBAL_SYSTEM_STATUS_LOCK::new();
    s.set_main_ip(Some("10.0.0.2".to_string()));
    s.set_rollback_ip(Some("10.0.0.3".to_string()));
    s
}

#[test]
fn health_check_both_healthy() {
    let mut s = status_with_ips();
    let plan = health_check_and_report(&mut s, ContainerRole::Main, ContainerRole::Rollback, true, true);
    assert!(plan.stop_rollback);
    match plan.action {
        HealthAction::Retarget(ip) => assert_eq!(ip, Some("10.0.0.2".to_string())),
        other => panic!("unexpected {:?}", other),
    }
    assert_eq!(s.get_main(), HealthyStatus::Healthy);
    assert_eq!(s.get_rollback(), HealthyStatus::Healthy);
    s.set_nginx_target_ip("10.0.0.2".to_string());
    let again = health_check_and_report(&mut s, ContainerRole::Main, ContainerRole::Rollback, true, true);
    assert!(matches!(again.action, HealthAction::Keep));
    assert!(again.stop_rollback);
}

#[test]
fn health_check_only_rollback() {
    let mut s = status_with_ips();
    let plan = health_check_and_report(&mut s, ContainerRole::Main, ContainerRole::Rollback, false, true);
    assert!(!plan.stop_rollback);
    match plan.action {
        HealthAction::Retarget(ip) => assert_eq!(ip, Some("10.0.0.3".to_string())),
        other => panic!("unexpected {:?}", other),
    }
    assert_eq!(s.get_nginx_target(), ContainerRole::Rollback);
    assert_eq!(s.get_main(), HealthyStatus::Unhealthy);
}

#[test]
fn health_check_none_healthy_and_updating() {
    let mut s = status_with_ips();
    s.set_nginx_target(ContainerRole::Rollback);
    let plan = health_check_and_report(&mut s, ContainerRole::Main, ContainerRole::Rollback, false, false);
    assert!(matches!(plan.action, HealthAction::Revive));
    assert_eq!(s.get_nginx_target(), ContainerRole::Main);
    let mut u = status_with_ips();
    u.set_update_start();
    u.set_nginx_target(ContainerRole::Rollback);
    let w = health_check_and_report(&mut u, ContainerRole::Main, ContainerRole::Rollback, true, true);
    assert!(matches!(w.action, HealthAction::Wait));
    assert!(!w.stop_rollback);
    assert_eq!(u.get_nginx_target(), ContainerRole::Rollback);
    assert_eq!(u.get_main(), HealthyStatus::Healthy);
}

#[test]
fn dev_main_counts_as_main_for_nginx() {
    let mut s = status_with_ips();
    s.set_nginx_target_ip("10.0.0.2".to_string());
    let plan = health_check_and_report(&mut s, ContainerRole::Dev, ContainerRole::Rollback, true, false);
    assert!(matches!(plan.action, HealthAction::Keep));
    let mut t = GLOBAL_SYSTEM_STATUS_LOCK::new();
    let unknown_ip = health_check_and_report(&mut t, ContainerRole::Main, ContainerRole::Rollback, true, false);
    match unknown_ip.action {
        HealthAction::Retarget(ip) => assert_eq!(ip, None),
        other => panic!("unexpected {:?}", other),
    }
}

#[test]
fn started_container_addresses() {
    let mut s = GLOBAL_SYSTEM_STATUS_LOCK::new();
    record_container_ip(&mut s, ContainerRole::Dev, Some("1.1.1.1".to_string()));
    assert_eq!(s.get_main_ip(), Some("1.1.1.1".to_string()));
    record_container_ip(&mut s, ContainerRole::Rollback, Some("2.2.2.2".to_string()));
    assert_eq!(s.get_rollback_ip(), Some("2.2.2.2".to_string()));
    record_container_ip(&mut s, ContainerRole::Nginx, Some("3.3.3.3".to_string()));
    assert_eq!(s.get_main_ip(), Some("1.1.1.1".to_string()));
    assert_eq!(s.get_rollback_ip(), Some("2.2.2.2".to_string()));
    record_container_ip(&mut s, ContainerRole::Main, None);
    assert_eq!(s.get_main_ip(), None);
}

#[test]
fn health_urls() {
    assert_eq!(health_check_url(ContainerRole::Main), "http://server_main:3000/");
    assert_eq!(health_check_url(ContainerRole::Rollback), "http://server_rollback:3000/");
    assert!(response_is_healthy(200));
    assert!(!response_is_healthy(503));
}

#[test]
fn container_plans() {
    let app = Container::new("team/app".to_string(), "rollback".to_string());
    let p = container_plan(&app, 16400);
    assert_eq!(p.image, "team/app:rollback");
    assert_eq!(p.name, "server_rollback");
    assert_eq!(p.network_mode, "overlay");
    assert_eq!(p.volumes, vec!["/tmp/kuuwange/:/tmp/kuuwange/"]);
    assert_eq!(p.expose, vec![(3000, "tcp".to_string(), 16400)]);
    assert!(p.auto_remove);
    assert!(p.env.is_empty());
    let ng = Container::new("nginx".to_string(), "nginx".to_string());
    let q = container_plan(&ng, 1);
    assert_eq!(q.image, "nginx:stable-alpine");
    assert_eq!(q.env, vec!["TARGET_CONTAINER=server_main", "TARGET_PORT=3000"]);
    assert_eq!(q.links, vec!["server_main", "server_rollback"]);
    assert_eq!(q.volumes.len(), 4);
    assert_eq!(q.expose, vec![(80, "tcp".to_string(), 80), (443, "tcp".to_string(), 443)]);
    assert!(!q.auto_remove);
    for _ in 0..50 {
        let r = create_plan(&app);
        let port = r.expose[0].2;
        assert!((16300..17000).contains(&port));
    }
}
