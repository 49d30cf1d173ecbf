use vstd::prelude::*;
use configparser::ini::Ini;
use crate::text::{casefold, opt_view, copy_opt};

verus! {

#[verifier::external_type_specification]
#[verifier::external_body]
pub struct ExIni(Ini);

/// The entries of an INI document as configparser keeps them: (section, key),
/// both in lower case, to the value, or to nothing for a key without one.
pub type IniEntries = Map<(Seq<char>, Seq<char>), Option<Seq<char>>>;

/// Name for the entries that an `Ini` holds: what its section maps contain.
pub uninterp spec fn ini_entries(ini: Ini) -> IniEntries;

/// Name for what `Ini::read` makes of a text: its entries, or nothing where
/// the text is not a valid INI document.
pub uninterp spec fn ini_parse(text: Seq<char>) -> Option<IniEntries>;

/// Calls `Ini::read` on a fresh `Ini::new()` (case-insensitive names, `=`
/// and `:` as delimiters, `;` and `#` comments). The contract claims that
/// reading fails exactly where `ini_parse` gives nothing, and that on
/// success the entries held are those `ini_parse` gives; the INI grammar is
/// not written out, and the error text is not described.
#[verifier::external_body]
fn ini_read(text: String) -> (r: Result<Ini, String>)
    ensures
        r is Ok <==> ini_parse(text@) is Some,
        r matches Ok(ini) ==> ini_entries(ini) == ini_parse(text@)->0,
{
    let mut ini = Ini::new();
    match ini.read(text) {
        Ok(_) => Ok(ini),
        Err(e) => Err(e),
    }
}

/// The value stored under `key` in `section`; configparser puts both names
/// in lower case before it looks them up.
pub open spec fn ini_value(e: IniEntries, section: Seq<char>, key: Seq<char>) -> Option<Seq<char>> {
    match e.get((casefold(section), casefold(key))) {
        Some(Some(v)) => Some(v),
        _ => None,
    }
}

/// Calls `Ini::get`: the value stored under the lower-cased names, if any
/// (a key stored without a value counts as none). configparser keeps names
/// that are already lower-case ASCII as they are and puts others through
/// `str::to_lowercase`, which is what `casefold` describes.
#[verifier::external_body]
fn ini_get(ini: &Ini, section: &str, key: &str) -> (r: Option<String>)
    ensures
        opt_view(r) == ini_value(ini_entries(*ini), section@, key@),
{
    ini.get(section, key)
}

/// Whether every character of `s` is an ASCII digit (and there is one).
pub open spec fn all_digits(s: Seq<char>) -> bool {
    s.len() > 0 && forall|i: int| 0 <= i < s.len() ==> '0' <= #[trigger] s[i] <= '9'
}

/// The number that a string of decimal digits spells.
pub open spec fn digits_value(s: Seq<char>) -> int
    decreases s.len(),
{
    if s.len() == 0 {
        0
    } else {
        digits_value(s.drop_last()) * 10 + (s.last() as int - '0' as int)
    }
}

/// What `i64::from_str` makes of a text: an optional sign followed by
/// decimal digits, whose value fits in an `i64`.
pub open spec fn decimal_i64(s: Seq<char>) -> Option<i64> {
    let neg = s.len() > 0 && s[0] == '-';
    let signed = s.len() > 0 && (s[0] == '-' || s[0] == '+');
    let d = if signed {
        s.drop_first()
    } else {
        s
    };
    if !all_digits(d) {
        None
    } else {
        let v = if neg {
            -digits_value(d)
        } else {
            digits_value(d)
        };
        if i64::MIN <= v <= i64::MAX {
            Some(v as i64)
        } else {
            None
        }
    }
}

/// Calls `Ini::getint`: no number where nothing is stored, the number where
/// the stored text is one, an error otherwise (its text is not described).
#[verifier::external_body]
fn ini_getint(ini: &Ini, section: &str, key: &str) -> (r: Result<Option<i64>, String>)
    ensures
        match ini_value(ini_entries(*ini), section@, key@) {
            None => r matches Ok(None),
            Some(v) => match decimal_i64(v) {
                Some(n) => r matches Ok(Some(m)) && m == n,
                None => r is Err,
            },
        },
{
    ini.getint(section, key)
}

/// Settings of the `Default` section.
#[derive(Debug)]
pub struct ConfigDefault {
    /// Development mode (`dev` container, `latest` tag); off unless `yes`.
    pub is_development: bool,
    pub container_prefix: String,
    pub burnup_waiting: i64,
    pub docker_socket: String,
    pub health_check_interval: i64,
    pub update_check_interval: i64,
    pub update_check_use_cron: bool,
    pub update_check_cron_text: String,
}

/// Settings of the `Nginx` section.
#[derive(Debug)]
pub struct Nginx {
    pub nginx: bool,
    pub http_redirect: bool,
}

/// Settings of the `Repository` section.
#[derive(Debug)]
pub struct Repository {
    /// Host of the registry's API; `hub.docker.com` where none is given
    /// (the login and image-listing requests follow Docker Hub's API).
    pub registry_url: String,
    /// The image repository to deploy: key `docker_hub_target_repo`.
    pub registry_target_repo: String,
    /// Whether pulls log in: key `docker_hub_login_info` of the `Default` section.
    pub registry_login_info: bool,
    /// Key `docker_hub_username`.
    pub registry_username: Option<String>,
    /// Key `docker_hub_password`.
    pub registry_password: Option<String>,
}

/// Settings of the `Logging` section.
#[derive(Debug)]
pub struct Logging {
    pub logging: bool,
    pub controller_logname: String,
    /// Directory of the controller's log; `./logs` where none is given.
    pub logging_path: String,
    /// Start of the log file's name; `controller` where none is given.
    pub logging_prefix: String,
    pub max_file_size_mb: i64,
    pub server_identity_prefix: String,
    pub logging_s3: bool,
}

/// Settings of the `S3` section.
#[derive(Debug)]
pub struct S3 {
    pub bucket: Option<String>,
    pub access_key: Option<String>,
    pub secret_key: Option<String>,
    pub region_name: Option<String>,
    pub root_path: Option<String>,
}

/// The controller's configuration.
#[derive(Debug)]
pub struct ParsedConfig {
    pub default: ConfigDefault,
    pub nginx: Nginx,
    pub repository: Repository,
    pub logging: Logging,
    pub s3: S3,
}

pub struct ConfigDefaultView {
    pub is_development: bool,
    pub container_prefix: Seq<char>,
    pub burnup_waiting: i64,
    pub docker_socket: Seq<char>,
    pub health_check_interval: i64,
    pub update_check_interval: i64,
    pub update_check_use_cron: bool,
    pub update_check_cron_text: Seq<char>,
}

pub struct RepositoryView {
    pub registry_url: Seq<char>,
    pub registry_target_repo: Seq<char>,
    pub registry_login_info: bool,
    pub registry_username: Option<Seq<char>>,
    pub registry_password: Option<Seq<char>>,
}

pub struct LoggingView {
    pub logging: bool,
    pub controller_logname: Seq<char>,
    pub logging_path: Seq<char>,
    pub logging_prefix: Seq<char>,
    pub max_file_size_mb: i64,
    pub server_identity_prefix: Seq<char>,
    pub logging_s3: bool,
}

pub struct S3View {
    pub bucket: Option<Seq<char>>,
    pub access_key: Option<Seq<char>>,
    pub secret_key: Option<Seq<char>>,
    pub region_name: Option<Seq<char>>,
    pub root_path: Option<Seq<char>>,
}

/// The configuration with its texts as character sequences.
pub struct ParsedConfigView {
    pub default: ConfigDefaultView,
    pub nginx_enabled: bool,
    pub http_redirect: bool,
    pub repository: RepositoryView,
    pub logging: LoggingView,
    pub s3: S3View,
}

impl View for ParsedConfig {
    type V = ParsedConfigView;

    open spec fn view(&self) -> ParsedConfigView {
        ParsedConfigView {
            default: ConfigDefaultView {
                is_development: self.default.is_development,
                container_prefix: self.default.container_prefix@,
                burnup_waiting: self.default.burnup_waiting,
                docker_socket: self.default.docker_socket@,
                health_check_interval: self.default.health_check_interval,
                update_check_interval: self.default.update_check_interval,
                update_check_use_cron: self.default.update_check_use_cron,
                update_check_cron_text: self.default.update_check_cron_text@,
            },
            nginx_enabled: self.nginx.nginx,
            http_redirect: self.nginx.http_redirect,
            repository: RepositoryView {
                registry_url: self.repository.registry_url@,
                registry_target_repo: self.repository.registry_target_repo@,
                registry_login_info: self.repository.registry_login_info,
                registry_username: opt_view(self.repository.registry_username),
                registry_password: opt_view(self.repository.registry_password),
            },
            logging: LoggingView {
                logging: self.logging.logging,
                controller_logname: self.logging.controller_logname@,
                logging_path: self.logging.logging_path@,
                logging_prefix: self.logging.logging_prefix@,
                max_file_size_mb: self.logging.max_file_size_mb,
                server_identity_prefix: self.logging.server_identity_prefix@,
                logging_s3: self.logging.logging_s3,
            },
            s3: S3View {
                bucket: opt_view(self.s3.bucket),
                access_key: opt_view(self.s3.access_key),
                secret_key: opt_view(self.s3.secret_key),
                region_name: opt_view(self.s3.region_name),
                root_path: opt_view(self.s3.root_path),
            },
        }
    }
}

/// A setting that holds a number.
#[derive(Clone, Copy, Debug, PartialEq, Eq, Structural)]
pub enum NumberSetting {
    BurnupWaiting,
    HealthCheckInterval,
    UpdateCheckInterval,
    MaxFileSizeMb,
}

/// Why a configuration text was refused.
#[derive(Clone, Copy, Debug, PartialEq, Eq, Structural)]
pub enum ConfigError {
    /// The text is not a valid INI document.
    Unreadable,
    /// A number setting holds a text that is not an `i64`.
    BadNumber(NumberSetting),
    /// `docker_hub_target_repo` is missing from the `Repository` section.
    MissingTargetRepo,
}

/// The text stored for a setting, or its default.
pub open spec fn text_or(v: Option<Seq<char>>, d: Seq<char>) -> Seq<char> {
    match v {
        Some(t) => t,
        None => d,
    }
}

/// A yes/no setting: on exactly where its text is `yes`.
pub open spec fn flag_of(v: Option<Seq<char>>) -> bool {
    v == Some("yes"@)
}

/// A number setting: its default where nothing is stored, the number where
/// the text is one, nothing otherwise.
pub open spec fn number_or(v: Option<Seq<char>>, d: i64) -> Option<i64> {
    match v {
        None => Some(d),
        Some(t) => decimal_i64(t),
    }
}

pub open spec fn burnup_text(e: IniEntries) -> Option<Seq<char>> {
    ini_value(e, "Default"@, "burnup_waiting"@)
}

pub open spec fn health_text(e: IniEntries) -> Option<Seq<char>> {
    ini_value(e, "Default"@, "health_check_interval"@)
}

pub open spec fn update_text(e: IniEntries) -> Option<Seq<char>> {
    ini_value(e, "Default"@, "update_check_interval"@)
}

pub open spec fn max_size_text(e: IniEntries) -> Option<Seq<char>> {
    ini_value(e, "Logging"@, "max_file_size_mb"@)
}

pub open spec fn target_repo_text(e: IniEntries) -> Option<Seq<char>> {
    ini_value(e, "Repository"@, "docker_hub_target_repo"@)
}

/// The first setting, in the order they are read, that the entries get
/// wrong, if any.
pub open spec fn config_error(e: IniEntries) -> Option<ConfigError> {
    if number_or(burnup_text(e), 5) is None {
        Some(ConfigError::BadNumber(NumberSetting::BurnupWaiting))
    } else if number_or(health_text(e), 5) is None {
        Some(ConfigError::BadNumber(NumberSetting::HealthCheckInterval))
    } else if number_or(update_text(e), 10) is None {
        Some(ConfigError::BadNumber(NumberSetting::UpdateCheckInterval))
    } else if target_repo_text(e) is None {
        Some(ConfigError::MissingTargetRepo)
    } else if number_or(max_size_text(e), 5) is None {
        Some(ConfigError::BadNumber(NumberSetting::MaxFileSizeMb))
    } else {
        None
    }
}

/// The configuration that correct entries describe: each setting is read
/// from its section and key, with its default where nothing is stored. The
/// repository settings come from the `docker_hub_*` keys (the login switch
/// from `Default.docker_hub_login_info`); the development switch comes from
/// `Default.is_development`, the registry host from `Repository.registry_url`
/// (default `hub.docker.com`), and the log location from
/// `Logging.logging_path` (default `./logs`) and `Logging.logging_prefix`
/// (default `controller`).
pub open spec fn config_of(e: IniEntries) -> ParsedConfigView {
    ParsedConfigView {
        default: ConfigDefaultView {
            is_development: flag_of(ini_value(e, "Default"@, "is_development"@)),
            container_prefix: text_or(ini_value(e, "Default"@, "container_prefix"@), "server"@),
            burnup_waiting: number_or(burnup_text(e), 5)->0,
            docker_socket: text_or(
                ini_value(e, "Default"@, "docker_socket"@),
                "unix://var/run/docker.sock"@,
            ),
            health_check_interval: number_or(health_text(e), 5)->0,
            update_check_interval: number_or(update_text(e), 10)->0,
            update_check_use_cron: flag_of(ini_value(e, "Default"@, "update_check_use_cron"@)),
            update_check_cron_text: text_or(
                ini_value(e, "Default"@, "update_check_cron_text"@),
                "*/2 * * * *"@,
            ),
        },
        nginx_enabled: flag_of(ini_value(e, "Nginx"@, "nginx"@)),
        http_redirect: flag_of(ini_value(e, "Nginx"@, "http_redirect"@)),
        repository: RepositoryView {
            registry_url: text_or(ini_value(e, "Repository"@, "registry_url"@), "hub.docker.com"@),
            registry_target_repo: target_repo_text(e)->0,
            registry_login_info: flag_of(ini_value(e, "Default"@, "docker_hub_login_info"@)),
            registry_username: ini_value(e, "Repository"@, "docker_hub_username"@),
            registry_password: ini_value(e, "Repository"@, "docker_hub_password"@),
        },
        logging: LoggingView {
            logging: flag_of(ini_value(e, "Logging"@, "logging"@)),
            controller_logname: text_or(
                ini_value(e, "Logging"@, "controller_logname"@),
                "KUUWANGE"@,
            ),
            logging_path: text_or(ini_value(e, "Logging"@, "logging_path"@), "./logs"@),
            logging_prefix: text_or(ini_value(e, "Logging"@, "logging_prefix"@), "controller"@),
            max_file_size_mb: number_or(max_size_text(e), 5)->0,
            server_identity_prefix: text_or(
                ini_value(e, "Logging"@, "server_identity_prefix"@),
                "KUUWANGE_SERVER"@,
            ),
            logging_s3: flag_of(ini_value(e, "Logging"@, "logging_s3"@)),
        },
        s3: S3View {
            bucket: ini_value(e, "S3"@, "bucket"@),
            access_key: ini_value(e, "S3"@, "access_key"@),
            secret_key: ini_value(e, "S3"@, "secret_key"@),
            region_name: ini_value(e, "S3"@, "region_name"@),
            root_path: ini_value(e, "S3"@, "root_path"@),
        },
    }
}

/// What a configuration text yields: the configuration, or why it is refused.
pub open spec fn config_result(text: Seq<char>) -> Result<ParsedConfigView, ConfigError> {
    match ini_parse(text) {
        None => Err(ConfigError::Unreadable),
        Some(e) => match config_error(e) {
            Some(err) => Err(err),
            None => Ok(config_of(e)),
        },
    }
}

fn text_setting(ini: &Ini, section: &str, key: &str, default: &str) -> (r: String)
    ensures
        r@ == text_or(ini_value(ini_entries(*ini), section@, key@), default@),
{
    match ini_get(ini, section, key) {
        Some(v) => v,
        None => String::from_str(default),
    }
}

fn flag_setting(ini: &Ini, section: &str, key: &str) -> (r: bool)
    ensures
        r == flag_of(ini_value(ini_entries(*ini), section@, key@)),
{
    match ini_get(ini, section, key) {
        Some(v) => crate::text::same_text(v.as_str(), "yes"),
        None => false,
    }
}

fn number_setting(ini: &Ini, section: &str, key: &str, default: i64) -> (r: Option<i64>)
    ensures
        r == number_or(ini_value(ini_entries(*ini), section@, key@), default),
{
    match ini_getint(ini, section, key) {
        Ok(Some(n)) => Some(n),
        Ok(None) => Some(default),
        Err(_) => None,
    }
}

impl ParsedConfig {
    /// Reads the configuration from the text of an INI file. A text that is
    /// not INI, a number setting that is not a number, and a missing target
    /// repository are reported as errors, and do not panic here; the program
    /// stops on each of them (exit for the first, panic for the others).
    pub fn new(contents: String) -> (r: Result<ParsedConfig, ConfigError>)
        ensures
            match config_result(contents@) {
                Ok(c) => r matches Ok(p) && p@ == c,
                Err(e) => r == Err::<ParsedConfig, ConfigError>(e),
            },
    {
        let ini = match ini_read(contents) {
            Ok(ini) => ini,
            Err(_) => return Err(ConfigError::Unreadable),
        };
        let ghost e = ini_entries(ini);
        let burnup_waiting = match number_setting(&ini, "Default", "burnup_waiting", 5) {
            Some(n) => n,
            None => return Err(ConfigError::BadNumber(NumberSetting::BurnupWaiting)),
        };
        let health_check_interval = match number_setting(
            &ini,
            "Default",
            "health_check_interval",
            5,
        ) {
            Some(n) => n,
            None => return Err(ConfigError::BadNumber(NumberSetting::HealthCheckInterval)),
        };
        let update_check_interval = match number_setting(
            &ini,
            "Default",
            "update_check_interval",
            10,
        ) {
            Some(n) => n,
            None => return Err(ConfigError::BadNumber(NumberSetting::UpdateCheckInterval)),
        };
        let default = ConfigDefault {
            is_development: flag_setting(&ini, "Default", "is_development"),
            container_prefix: text_setting(&ini, "Default", "container_prefix", "server"),
            burnup_waiting,
            docker_socket: text_setting(
                &ini,
                "Default",
                "docker_socket",
                "unix://var/run/docker.sock",
            ),
            health_check_interval,
            update_check_interval,
            update_check_use_cron: flag_setting(&ini, "Default", "update_check_use_cron"),
            update_check_cron_text: text_setting(
                &ini,
                "Default",
                "update_check_cron_text",
                "*/2 * * * *",
            ),
        };
        let nginx = Nginx {
            nginx: flag_setting(&ini, "Nginx", "nginx"),
            http_redirect: flag_setting(&ini, "Nginx", "http_redirect"),
        };
        let registry_target_repo = match ini_get(&ini, "Repository", "docker_hub_target_repo") {
            Some(v) => v,
            None => return Err(ConfigError::MissingTargetRepo),
        };
        let repository = Repository {
            registry_url: text_setting(&ini, "Repository", "registry_url", "hub.docker.com"),
            registry_target_repo,
            registry_login_info: flag_setting(&ini, "Default", "docker_hub_login_info"),
            registry_username: ini_get(&ini, "Repository", "docker_hub_username"),
            registry_password: ini_get(&ini, "Repository", "docker_hub_password"),
        };
        let max_file_size_mb = match number_setting(&ini, "Logging", "max_file_size_mb", 5) {
            Some(n) => n,
            None => return Err(ConfigError::BadNumber(NumberSetting::MaxFileSizeMb)),
        };
        let logging = Logging {
            logging: flag_setting(&ini, "Logging", "logging"),
            controller_logname: text_setting(&ini, "Logging", "controller_logname", "KUUWANGE"),
            logging_path: text_setting(&ini, "Logging", "logging_path", "./logs"),
            logging_prefix: text_setting(&ini, "Logging", "logging_prefix", "controller"),
            max_file_size_mb,
            server_identity_prefix: text_setting(
                &ini,
                "Logging",
                "server_identity_prefix",
                "KUUWANGE_SERVER",
            ),
            logging_s3: flag_setting(&ini, "Logging", "logging_s3"),
        };
        let s3 = S3 {
            bucket: ini_get(&ini, "S3", "bucket"),
            access_key: ini_get(&ini, "S3", "access_key"),
            secret_key: ini_get(&ini, "S3", "secret_key"),
            region_name: ini_get(&ini, "S3", "region_name"),
            root_path: ini_get(&ini, "S3", "root_path"),
        };
        let c = ParsedConfig { default, nginx, repository, logging, s3 };
        assert(c@ == config_of(e));
        Ok(c)
    }
}


/// The configuration that holds no settings: every flag off, every text
/// empty, every number zero, every optional setting absent.
pub open spec fn empty_config() -> ParsedConfigView {
    ParsedConfigView {
        default: ConfigDefaultView {
            is_development: false,
            container_prefix: Seq::empty(),
            burnup_waiting: 0,
            docker_socket: Seq::empty(),
            health_check_interval: 0,
            update_check_interval: 0,
            update_check_use_cron: false,
            update_check_cron_text: Seq::empty(),
        },
        nginx_enabled: false,
        http_redirect: false,
        repository: RepositoryView {
            registry_url: Seq::empty(),
            registry_target_repo: Seq::empty(),
            registry_login_info: false,
            registry_username: None,
            registry_password: None,
        },
        logging: LoggingView {
            logging: false,
            controller_logname: Seq::empty(),
            logging_path: Seq::empty(),
            logging_prefix: Seq::empty(),
            max_file_size_mb: 0,
            server_identity_prefix: Seq::empty(),
            logging_s3: false,
        },
        s3: S3View {
            bucket: None,
            access_key: None,
            secret_key: None,
            region_name: None,
            root_path: None,
        },
    }
}

impl ParsedConfig {
    /// The configuration that holds no settings.
    pub fn empty() -> (r: ParsedConfig)
        ensures
            r@ == empty_config(),
    {
        ParsedConfig {
            default: ConfigDefault {
                is_development: false,
                container_prefix: String::new(),
                burnup_waiting: 0,
                docker_socket: String::new(),
                health_check_interval: 0,
                update_check_interval: 0,
                update_check_use_cron: false,
                update_check_cron_text: String::new(),
            },
            nginx: Nginx { nginx: false, http_redirect: false },
            repository: Repository {
                registry_url: String::new(),
                registry_target_repo: String::new(),
                registry_login_info: false,
                registry_username: None,
                registry_password: None,
            },
            logging: Logging {
                logging: false,
                controller_logname: String::new(),
                logging_path: String::new(),
                logging_prefix: String::new(),
                max_file_size_mb: 0,
                server_identity_prefix: String::new(),
                logging_s3: false,
            },
            s3: S3 {
                bucket: None,
                access_key: None,
                secret_key: None,
                region_name: None,
                root_path: None,
            },
        }
    }

    /// A copy of this configuration.
    pub fn duplicate(&self) -> (r: ParsedConfig)
        ensures
            r@ == self@,
    {
        ParsedConfig {
            default: ConfigDefault {
                is_development: self.default.is_development,
                container_prefix: self.default.container_prefix.clone(),
                burnup_waiting: self.default.burnup_waiting,
                docker_socket: self.default.docker_socket.clone(),
                health_check_interval: self.default.health_check_interval,
                update_check_interval: self.default.update_check_interval,
                update_check_use_cron: self.default.update_check_use_cron,
                update_check_cron_text: self.default.update_check_cron_text.clone(),
            },
            nginx: Nginx { nginx: self.nginx.nginx, http_redirect: self.nginx.http_redirect },
            repository: Repository {
                registry_url: self.repository.registry_url.clone(),
                registry_target_repo: self.repository.registry_target_repo.clone(),
                registry_login_info: self.repository.registry_login_info,
                registry_username: copy_opt(&self.repository.registry_username),
                registry_password: copy_opt(&self.repository.registry_password),
            },
            logging: Logging {
                logging: self.logging.logging,
                controller_logname: self.logging.controller_logname.clone(),
                logging_path: self.logging.logging_path.clone(),
                logging_prefix: self.logging.logging_prefix.clone(),
                max_file_size_mb: self.logging.max_file_size_mb,
                server_identity_prefix: self.logging.server_identity_prefix.clone(),
                logging_s3: self.logging.logging_s3,
            },
            s3: S3 {
                bucket: copy_opt(&self.s3.bucket),
                access_key: copy_opt(&self.s3.access_key),
                secret_key: copy_opt(&self.s3.secret_key),
                region_name: copy_opt(&self.s3.region_name),
                root_path: copy_opt(&self.s3.root_path),
            },
        }
    }
}

/// The cell that holds the controller's configuration.
#[allow(non_camel_case_types)]
pub struct GLOBAL_PARSED_CONFIG_LOCK {
    config: ParsedConfig,
}

impl View for GLOBAL_PARSED_CONFIG_LOCK {
    type V = ParsedConfigView;

    closed spec fn view(&self) -> ParsedConfigView {
        self.config@
    }
}

impl GLOBAL_PARSED_CONFIG_LOCK {
    /// A cell holding the empty configuration.
    pub fn new() -> (r: Self)
        ensures
            r@ == empty_config(),
    {
        GLOBAL_PARSED_CONFIG_LOCK { config: ParsedConfig::empty() }
    }

    pub fn get(&self) -> (r: ParsedConfig)
        ensures
            r@ == self@,
    {
        self.config.duplicate()
    }

    pub fn set(&mut self, new: ParsedConfig)
        ensures
            final(self)@ == new@,
    {
        self.config = new;
    }
}

/// Why the registry credentials cannot be had.
#[derive(Clone, Copy, Debug, PartialEq, Eq, Structural)]
pub enum CredentialsError {
    /// Login is asked for but the user name or the password is missing.
    Incomplete,
}

/// The credentials that image pulls authenticate with: none where login is
/// not asked for; user name and password where it is and both are given.
/// Login asked for without both is an error here, on which the program
/// stops with a panic.
pub fn registry_credentials(repository: &Repository) -> (r: Result<
    Option<(String, String)>,
    CredentialsError,
>)
    ensures
        !repository.registry_login_info ==> r matches Ok(None),
        repository.registry_login_info && (repository.registry_username is None
            || repository.registry_password is None) ==> r == Err::<
            Option<(String, String)>,
            CredentialsError,
        >(CredentialsError::Incomplete),
        repository.registry_login_info && repository.registry_username is Some
            && repository.registry_password is Some ==> (r matches Ok(Some((u, p))) && u@
            == repository.registry_username->0@ && p@ == repository.registry_password->0@),
{
    if !repository.registry_login_info {
        return Ok(None);
    }
    match (&repository.registry_username, &repository.registry_password) {
        (Some(u), Some(p)) => Ok(Some((u.clone(), p.clone()))),
        _ => Err(CredentialsError::Incomplete),
    }
}

} // verus!
