use vstd::prelude::*;
use crate::image::{LocalImageSearchResult, LocalImageSearchResultView};
use crate::registry::{IGetDigestResult, IGetDigestResultView};
use crate::role::{role_name, role_tag, Container, ContainerRole};
use crate::status::{GLOBAL_SYSTEM_STATUS_LOCK, HealthyStatus, SystemStatusView, StatusCall, apply_call};
use crate::text::{opt_view, same_text};

verus! {

/// The digest that a local search reports, with `err` standing for none.
pub open spec fn local_digest_or_err(local: LocalImageSearchResultView) -> Seq<char> {
    if local.found && local.image_digest is Some {
        local.image_digest->0
    } else {
        "err"@
    }
}

/// Whether an image has an update: the registry knows a digest for it, and
/// that digest is not the local one.
pub open spec fn has_update(local: LocalImageSearchResultView, remote: IGetDigestResultView) -> bool {
    remote.found && remote.digest is Some && local_digest_or_err(local) != remote.digest->0
}

/// Whether a container's image has an update.
pub fn update_check(local: &LocalImageSearchResult, remote: &IGetDigestResult) -> (r: bool)
    ensures
        r == has_update(local@, remote@),
{
    let local_digest = if local.found {
        match &local.image_digest {
            Some(d) => d.clone(),
            None => String::from_str("err"),
        }
    } else {
        String::from_str("err")
    };
    if remote.found {
        match &remote.digest {
            Some(d) => !same_text(local_digest.as_str(), d.as_str()),
            None => false,
        }
    } else {
        false
    }
}

/// Why the images cannot be checked before start.
#[derive(Clone, Copy, Debug, PartialEq, Eq, Structural)]
pub enum OutdatedError {
    /// The registry does not know the image at all.
    RegistryUnchecked,
}

/// Whether an image must be pulled before start: always, unless the
/// registry's digest and the local digest are both known and equal; an
/// error where the registry does not know the image.
pub open spec fn needs_download(remote: IGetDigestResultView, local: LocalImageSearchResultView) -> Result<bool, OutdatedError> {
    if !remote.found {
        Err(OutdatedError::RegistryUnchecked)
    } else {
        Ok(!(remote.digest is Some && local.found && local.image_digest is Some
            && remote.digest->0 == local.image_digest->0))
    }
}

/// Whether an image must be pulled before start.
pub fn image_needs_download(remote: &IGetDigestResult, local: &LocalImageSearchResult) -> (r: Result<bool, OutdatedError>)
    ensures
        r == needs_download(remote@, local@),
{
    if !remote.found {
        return Err(OutdatedError::RegistryUnchecked);
    }
    match (&remote.digest, local.found, &local.image_digest) {
        (Some(r), true, Some(l)) => Ok(!same_text(r.as_str(), l.as_str())),
        _ => Ok(true),
    }
}

/// The role label of the main container: `dev` in development, `main` otherwise.
pub fn main_role_label(is_development: bool) -> (r: String)
    ensures
        r@ == (if is_development { "dev"@ } else { "main"@ }),
{
    if is_development {
        String::from_str("dev")
    } else {
        String::from_str("main")
    }
}

/// The image tag of the main container: `latest` in development, `stable` otherwise.
pub fn main_image_tag(is_development: bool) -> (r: String)
    ensures
        r@ == (if is_development { "latest"@ } else { "stable"@ }),
{
    if is_development {
        String::from_str("latest")
    } else {
        String::from_str("stable")
    }
}

/// An image to have before start, and whether it is pulled only when the
/// registry holds a newer one.
#[derive(Debug)]
pub struct StartupImage {
    pub image: String,
    pub tag: String,
    pub checked: bool,
}

pub struct StartupImageView {
    pub image: Seq<char>,
    pub tag: Seq<char>,
    pub checked: bool,
}

pub open spec fn startup_view(v: Vec<StartupImage>) -> Seq<StartupImageView> {
    v@.map_values(|x: StartupImage| StartupImageView { image: x.image@, tag: x.tag@, checked: x.checked })
}

/// The images to have before start, in order: the main image (checked
/// against the registry), the rollback image (checked), then nginx
/// `stable-alpine` (always pulled).
pub open spec fn startup_images_spec(base: Seq<char>, is_development: bool) -> Seq<StartupImageView> {
    seq![
        StartupImageView { image: base, tag: if is_development { "latest"@ } else { "stable"@ }, checked: true },
        StartupImageView { image: base, tag: "rollback"@, checked: true },
        StartupImageView { image: "nginx"@, tag: "stable-alpine"@, checked: false },
    ]
}

/// The images to have before start, in the order they are pulled.
pub fn startup_images(image_base_url: &str, is_development: bool) -> (r: Vec<StartupImage>)
    ensures
        startup_view(r) == startup_images_spec(image_base_url@, is_development),
{
    let mut v: Vec<StartupImage> = Vec::new();
    v.push(StartupImage { image: String::from_str(image_base_url), tag: main_image_tag(is_development), checked: true });
    v.push(StartupImage { image: String::from_str(image_base_url), tag: String::from_str("rollback"), checked: true });
    v.push(StartupImage { image: String::from_str("nginx"), tag: String::from_str("stable-alpine"), checked: false });
    assert(startup_view(v) =~= startup_images_spec(image_base_url@, is_development));
    v
}

/// What the controller does about traffic after recording health.
#[derive(Debug)]
pub enum HealthAction {
    /// An update is running: nothing is touched.
    Wait,
    /// nginx already sends traffic where it should.
    Keep,
    /// Point nginx at this address (via the nginx slot's `change_target`).
    Retarget(Option<String>),
    /// Neither container is healthy: start both, then point nginx at the
    /// main container's address.
    Revive,
}

/// The outcome of one health check.
#[derive(Debug)]
pub struct HealthPlan {
    pub action: HealthAction,
    /// Whether the rollback container is to be stopped.
    pub stop_rollback: bool,
}

pub enum HealthActionView {
    Wait,
    Keep,
    Retarget(Option<Seq<char>>),
    Revive,
}

pub struct HealthPlanView {
    pub action: HealthActionView,
    pub stop_rollback: bool,
}

impl View for HealthPlan {
    type V = HealthPlanView;

    open spec fn view(&self) -> HealthPlanView {
        HealthPlanView {
            action: match self.action {
                HealthAction::Wait => HealthActionView::Wait,
                HealthAction::Keep => HealthActionView::Keep,
                HealthAction::Retarget(ip) => HealthActionView::Retarget(opt_view(ip)),
                HealthAction::Revive => HealthActionView::Revive,
            },
            stop_rollback: self.stop_rollback,
        }
    }
}

pub open spec fn health_of(healthy: bool) -> HealthyStatus {
    if healthy {
        HealthyStatus::Healthy
    } else {
        HealthyStatus::Unhealthy
    }
}

/// Whether nginx already sends traffic to the container of `role` at `ip`:
/// the target role has that role's name, and the address is known and is
/// nginx's target address.
pub open spec fn points_at(s: SystemStatusView, role: ContainerRole, ip: Option<Seq<char>>) -> bool {
    role_name(role) == role_name(s.nginx_target_role) && ip == Some(s.nginx_target_ip)
}

/// Traffic goes to `role` at `ip`: nothing to do where nginx already points
/// there, otherwise the target role is recorded and nginx is retargeted.
pub open spec fn steer(s: SystemStatusView, role: ContainerRole, ip: Option<Seq<char>>, stop: bool) -> (SystemStatusView, HealthPlanView) {
    if points_at(s, role, ip) {
        (s, HealthPlanView { action: HealthActionView::Keep, stop_rollback: stop })
    } else {
        (
            SystemStatusView { nginx_target_role: role, ..s },
            HealthPlanView { action: HealthActionView::Retarget(ip), stop_rollback: stop },
        )
    }
}

/// One health check: both healths are recorded; then, unless an update
/// runs, traffic goes to main where it is healthy (and a healthy rollback
/// is stopped), to rollback where only it is healthy, and where neither is
/// healthy both are started and traffic goes to main.
pub open spec fn health_step(
    s: SystemStatusView,
    main_role: ContainerRole,
    rollback_role: ContainerRole,
    main_healthy: bool,
    rollback_healthy: bool,
) -> (SystemStatusView, HealthPlanView) {
    let s1 = SystemStatusView {
        main: health_of(main_healthy),
        rollback: health_of(rollback_healthy),
        ..s
    };
    if s1.in_update {
        (s1, HealthPlanView { action: HealthActionView::Wait, stop_rollback: false })
    } else if main_healthy {
        steer(s1, main_role, s1.main_ip, rollback_healthy)
    } else if rollback_healthy {
        steer(s1, rollback_role, s1.rollback_ip, false)
    } else {
        (
            SystemStatusView { nginx_target_role: ContainerRole::Main, ..s1 },
            HealthPlanView { action: HealthActionView::Revive, stop_rollback: false },
        )
    }
}

fn points_at_exec(status: &GLOBAL_SYSTEM_STATUS_LOCK, role: ContainerRole, ip: &Option<String>) -> (r: bool)
    ensures
        r == points_at(status@, role, opt_view(*ip)),
{
    let target = status.get_nginx_target();
    let same_role = same_text(role.name().as_str(), target.name().as_str());
    match ip {
        Some(ip) => same_role && same_text(ip.as_str(), status.get_nginx_ip().as_str()),
        None => false,
    }
}

fn steer_exec(
    status: &mut GLOBAL_SYSTEM_STATUS_LOCK,
    role: ContainerRole,
    ip: Option<String>,
    stop: bool,
) -> (r: HealthPlan)
    ensures
        (final(status)@, r@) == steer(old(status)@, role, opt_view(ip), stop),
{
    if points_at_exec(status, role, &ip) {
        HealthPlan { action: HealthAction::Keep, stop_rollback: stop }
    } else {
        status.set_nginx_target(role);
        HealthPlan { action: HealthAction::Retarget(ip), stop_rollback: stop }
    }
}

/// Records the health of the main and rollback containers and decides
/// where traffic goes; the returned plan says what is left to do outside.
pub fn health_check_and_report(
    status: &mut GLOBAL_SYSTEM_STATUS_LOCK,
    main_role: ContainerRole,
    rollback_role: ContainerRole,
    main_healthy: bool,
    rollback_healthy: bool,
) -> (r: HealthPlan)
    ensures
        (final(status)@, r@) == health_step(
            old(status)@,
            main_role,
            rollback_role,
            main_healthy,
            rollback_healthy,
        ),
{
    status.set_main(if main_healthy { HealthyStatus::Healthy } else { HealthyStatus::Unhealthy });
    status.set_rollback(
        if rollback_healthy {
            HealthyStatus::Healthy
        } else {
            HealthyStatus::Unhealthy
        },
    );
    if status.is_updating() {
        HealthPlan { action: HealthAction::Wait, stop_rollback: false }
    } else if main_healthy {
        let ip = status.get_main_ip();
        steer_exec(status, main_role, ip, rollback_healthy)
    } else if rollback_healthy {
        let ip = status.get_rollback_ip();
        steer_exec(status, rollback_role, ip, false)
    } else {
        status.set_nginx_target(ContainerRole::Main);
        HealthPlan { action: HealthAction::Revive, stop_rollback: false }
    }
}

/// After a container started: its address is recorded as the main address
/// where its role has the main container's name, as the rollback address
/// where it has the rollback container's name; otherwise nothing changes.
pub fn record_container_ip(status: &mut GLOBAL_SYSTEM_STATUS_LOCK, role: ContainerRole, ip: Option<String>)
    ensures
        final(status)@ == (if role_name(role) == role_name(ContainerRole::Main) {
            apply_call(old(status)@, StatusCall::MainIp(opt_view(ip)))
        } else if role_name(role) == role_name(ContainerRole::Rollback) {
            apply_call(old(status)@, StatusCall::RollbackIp(opt_view(ip)))
        } else {
            old(status)@
        }),
        final(status)@ == (if role_name(role) == role_name(ContainerRole::Main) {
            SystemStatusView { main_ip: opt_view(ip), ..old(status)@ }
        } else if role_name(role) == role_name(ContainerRole::Rollback) {
            SystemStatusView { rollback_ip: opt_view(ip), ..old(status)@ }
        } else {
            old(status)@
        }),
{
    let name = role.name();
    if same_text(name.as_str(), ContainerRole::Main.name().as_str()) {
        status.set_main_ip(ip);
    } else if same_text(name.as_str(), ContainerRole::Rollback.name().as_str()) {
        status.set_rollback_ip(ip);
    }
}

/// The address that a container's health is asked at.
pub fn health_check_url(role: ContainerRole) -> (r: String)
    ensures
        r@ == "http://"@ + role_name(role) + ":3000/"@,
{
    let mut url = String::from_str("http://");
    url.append(role.name().as_str());
    url.append(":3000/");
    url
}

/// Whether an answer with this HTTP status code means healthy.
pub fn response_is_healthy(status_code: u16) -> (r: bool)
    ensures
        r == (status_code == 200),
{
    status_code == 200
}

/// How to create a container.
#[derive(Debug)]
pub struct ContainerPlan {
    pub image: String,
    pub name: String,
    pub network_mode: String,
    pub env: Vec<String>,
    pub links: Vec<String>,
    pub volumes: Vec<String>,
    /// (container port, protocol, host port)
    pub expose: Vec<(u32, String, u32)>,
    pub auto_remove: bool,
}

pub open spec fn texts(v: Vec<String>) -> Seq<Seq<char>> {
    v@.map_values(|s: String| s@)
}

pub open spec fn ports(v: Vec<(u32, String, u32)>) -> Seq<(u32, Seq<char>, u32)> {
    v@.map_values(|p: (u32, String, u32)| (p.0, p.1@, p.2))
}

/// The nginx container's settings.
pub open spec fn nginx_plan_ok(p: ContainerPlan) -> bool {
    &&& texts(p.env) == seq!["TARGET_CONTAINER=server_main"@, "TARGET_PORT=3000"@]
    &&& texts(p.links) == seq!["server_main"@, "server_rollback"@]
    &&& texts(p.volumes) == seq![
        "/tmp/kuuwange/certs/:/etc/certs/"@,
        "/tmp/kuuwange/nginx/nginx.conf:/etc/nginx/nginx.conf"@,
        "/tmp/kuuwange/nginx/templates/:/etc/nginx/templates/"@,
        "/tmp/kuuwange/nginx/regenerate.sh:/etc/nginx/regenerate.sh"@,
    ]
    &&& ports(p.expose) == seq![(80u32, "tcp"@, 80u32), (443u32, "tcp"@, 443u32)]
    &&& !p.auto_remove
}

/// An application container's settings, published on `host_port`.
pub open spec fn app_plan_ok(p: ContainerPlan, host_port: u32) -> bool {
    &&& texts(p.env) == Seq::<Seq<char>>::empty()
    &&& texts(p.links) == Seq::<Seq<char>>::empty()
    &&& texts(p.volumes) == seq!["/tmp/kuuwange/:/tmp/kuuwange/"@]
    &&& ports(p.expose) == seq![(3000u32, "tcp"@, host_port)]
    &&& p.auto_remove
}

fn push_text(v: &mut Vec<String>, s: &str)
    ensures
        texts(*final(v)) == texts(*old(v)).push(s@),
{
    let ghost before = texts(*v);
    v.push(String::from_str(s));
    assert(texts(*v) =~= before.push(s@));
}

fn push_port(v: &mut Vec<(u32, String, u32)>, a: u32, proto: &str, b: u32)
    ensures
        ports(*final(v)) == ports(*old(v)).push((a, proto@, b)),
{
    let ghost before = ports(*v);
    v.push((a, String::from_str(proto), b));
    assert(ports(*v) =~= before.push((a, proto@, b)));
}

/// How to create `container`: its image at its role's tag, under its role's
/// name, on the `overlay` network; nginx gets its fixed links, volumes and
/// web ports, any other role its volume and port 3000 published on
/// `host_port`, and is removed when it stops.
pub fn container_plan(container: &Container, host_port: u32) -> (r: ContainerPlan)
    ensures
        r.image@ == container@.image + ":"@ + role_tag(container@.role),
        r.name@ == role_name(container@.role),
        r.network_mode@ == "overlay"@,
        role_name(container@.role) == "nginx"@ ==> nginx_plan_ok(r),
        role_name(container@.role) != "nginx"@ ==> app_plan_ok(r, host_port),
{
    let role = container.role();
    let mut image = container.image().clone();
    image.append(":");
    image.append(role.tag().as_str());
    let name = role.name();
    let mut env: Vec<String> = Vec::new();
    let mut links: Vec<String> = Vec::new();
    let mut volumes: Vec<String> = Vec::new();
    let mut expose: Vec<(u32, String, u32)> = Vec::new();
    assert(texts(env) =~= Seq::<Seq<char>>::empty());
    assert(texts(links) =~= Seq::<Seq<char>>::empty());
    assert(texts(volumes) =~= Seq::<Seq<char>>::empty());
    assert(ports(expose) =~= Seq::<(u32, Seq<char>, u32)>::empty());
    if same_text(name.as_str(), "nginx") {
        push_text(&mut env, "TARGET_CONTAINER=server_main");
        push_text(&mut env, "TARGET_PORT=3000");
        push_text(&mut links, "server_main");
        push_text(&mut links, "server_rollback");
        push_text(&mut volumes, "/tmp/kuuwange/certs/:/etc/certs/");
        push_text(&mut volumes, "/tmp/kuuwange/nginx/nginx.conf:/etc/nginx/nginx.conf");
        push_text(&mut volumes, "/tmp/kuuwange/nginx/templates/:/etc/nginx/templates/");
        push_text(&mut volumes, "/tmp/kuuwange/nginx/regenerate.sh:/etc/nginx/regenerate.sh");
        push_port(&mut expose, 80, "tcp", 80);
        push_port(&mut expose, 443, "tcp", 443);
        let r = ContainerPlan {
            image,
            name,
            network_mode: String::from_str("overlay"),
            env,
            links,
            volumes,
            expose,
            auto_remove: false,
        };
        assert(texts(r.env) =~= seq!["TARGET_CONTAINER=server_main"@, "TARGET_PORT=3000"@]);
        assert(texts(r.links) =~= seq!["server_main"@, "server_rollback"@]);
        assert(texts(r.volumes) =~= seq![
            "/tmp/kuuwange/certs/:/etc/certs/"@,
            "/tmp/kuuwange/nginx/nginx.conf:/etc/nginx/nginx.conf"@,
            "/tmp/kuuwange/nginx/templates/:/etc/nginx/templates/"@,
            "/tmp/kuuwange/nginx/regenerate.sh:/etc/nginx/regenerate.sh"@,
        ]);
        assert(ports(r.expose) =~= seq![(80u32, "tcp"@, 80u32), (443u32, "tcp"@, 443u32)]);
        r
    } else {
        push_text(&mut volumes, "/tmp/kuuwange/:/tmp/kuuwange/");
        push_port(&mut expose, 3000, "tcp", host_port);
        let r = ContainerPlan {
            image,
            name,
            network_mode: String::from_str("overlay"),
            env,
            links,
            volumes,
            expose,
            auto_remove: true,
        };
        assert(texts(r.volumes) =~= seq!["/tmp/kuuwange/:/tmp/kuuwange/"@]);
        assert(ports(r.expose) =~= seq![(3000u32, "tcp"@, host_port)]);
        r
    }
}

/// Calls `rand::Rng::gen_range(16300..17000)` on the thread's generator.
/// The contract claims only that the port lies in that range; which one
/// comes out is chance.
#[verifier::external_body]
fn random_host_port() -> (r: u32)
    ensures
        16300 <= r < 17000,
{
    rand::Rng::gen_range(&mut rand::thread_rng(), 16300..17000)
}

/// How to create `container`, with a host port drawn at random from
/// 16300..17000 for an application container.
pub fn create_plan(container: &Container) -> (r: ContainerPlan)
    ensures
        r.image@ == container@.image + ":"@ + role_tag(container@.role),
        r.name@ == role_name(container@.role),
        r.network_mode@ == "overlay"@,
        role_name(container@.role) == "nginx"@ ==> nginx_plan_ok(r),
        role_name(container@.role) != "nginx"@ ==> exists|p: u32|
            16300 <= p < 17000 && app_plan_ok(r, p),
{
    let port = random_host_port();
    container_plan(container, port)
}


/// The burn-up wait in seconds: the size of the configured number.
pub fn burnup_seconds(burnup_waiting: i64) -> (r: u64)
    ensures
        r as int == (if burnup_waiting < 0 { -burnup_waiting } else { burnup_waiting as int }),
{
    if burnup_waiting < 0 {
        ((-(burnup_waiting + 1)) as u64) + 1
    } else {
        burnup_waiting as u64
    }
}

/// One step of an update, carried out outside.
#[derive(Debug)]
pub enum UpdateAction {
    /// Start the rollback container.
    RunRollback,
    /// Wait this many seconds for a container to come up.
    Wait(u64),
    /// Start the container that was checked for an update.
    RunChecked,
    /// Point nginx at the rollback container's address.
    PointNginxAtRollback,
    /// Point nginx at the main container's address.
    PointNginxAtMain,
    /// Stop and remove the container that was checked for an update.
    StopChecked,
    /// Empty the main container's slot.
    ClearMain,
    /// Pull this image at this tag.
    Pull(String, String),
    /// Create a container of this image in the role this label names, and
    /// keep it in the main slot.
    CreateMain(String, String),
    /// Start the container in the main slot.
    RunMain,
    /// Create a container of this image in the role this label names, and
    /// keep it in the rollback slot.
    CreateRollback(String, String),
}

pub enum UpdateActionView {
    RunRollback,
    Wait(u64),
    RunChecked,
    PointNginxAtRollback,
    PointNginxAtMain,
    StopChecked,
    ClearMain,
    Pull(Seq<char>, Seq<char>),
    CreateMain(Seq<char>, Seq<char>),
    RunMain,
    CreateRollback(Seq<char>, Seq<char>),
}

pub open spec fn action_view(a: UpdateAction) -> UpdateActionView {
    match a {
        UpdateAction::RunRollback => UpdateActionView::RunRollback,
        UpdateAction::Wait(s) => UpdateActionView::Wait(s),
        UpdateAction::RunChecked => UpdateActionView::RunChecked,
        UpdateAction::PointNginxAtRollback => UpdateActionView::PointNginxAtRollback,
        UpdateAction::PointNginxAtMain => UpdateActionView::PointNginxAtMain,
        UpdateAction::StopChecked => UpdateActionView::StopChecked,
        UpdateAction::ClearMain => UpdateActionView::ClearMain,
        UpdateAction::Pull(i, t) => UpdateActionView::Pull(i@, t@),
        UpdateAction::CreateMain(i, r) => UpdateActionView::CreateMain(i@, r@),
        UpdateAction::RunMain => UpdateActionView::RunMain,
        UpdateAction::CreateRollback(i, r) => UpdateActionView::CreateRollback(i@, r@),
    }
}

pub open spec fn actions_view(v: Vec<UpdateAction>) -> Seq<UpdateActionView> {
    v@.map_values(|a: UpdateAction| action_view(a))
}

/// The steps that replace an outdated main container: traffic moves to the
/// rollback container while the new main image is pulled, created and
/// started, with the burn-up wait after each start.
pub open spec fn main_update_steps(image: Seq<char>, is_development: bool, wait: u64) -> Seq<UpdateActionView> {
    seq![
        UpdateActionView::RunRollback,
        UpdateActionView::Wait(wait),
        UpdateActionView::RunChecked,
        UpdateActionView::PointNginxAtRollback,
        UpdateActionView::StopChecked,
        UpdateActionView::ClearMain,
        UpdateActionView::Pull(image, if is_development { "latest"@ } else { "stable"@ }),
        UpdateActionView::CreateMain(image, if is_development { "dev"@ } else { "main"@ }),
        UpdateActionView::RunMain,
        UpdateActionView::Wait(wait),
    ]
}

/// The steps that replace an outdated rollback container: traffic moves to
/// main, the old container goes, and the new rollback image is pulled and
/// created.
pub open spec fn rollback_update_steps(image: Seq<char>) -> Seq<UpdateActionView> {
    seq![
        UpdateActionView::PointNginxAtMain,
        UpdateActionView::StopChecked,
        UpdateActionView::Pull(image, "rollback"@),
        UpdateActionView::CreateRollback(image, "rollback"@),
    ]
}

/// The steps that replace an outdated main container.
pub fn main_update_actions(image_base_url: &str, is_development: bool, burnup_waiting: i64) -> (r: Vec<UpdateAction>)
    ensures
        actions_view(r) == main_update_steps(image_base_url@, is_development, burnup_seconds_spec(burnup_waiting)),
{
    let wait = burnup_seconds(burnup_waiting);
    let mut v: Vec<UpdateAction> = Vec::new();
    v.push(UpdateAction::RunRollback);
    v.push(UpdateAction::Wait(wait));
    v.push(UpdateAction::RunChecked);
    v.push(UpdateAction::PointNginxAtRollback);
    v.push(UpdateAction::StopChecked);
    v.push(UpdateAction::ClearMain);
    v.push(UpdateAction::Pull(String::from_str(image_base_url), main_image_tag(is_development)));
    v.push(UpdateAction::CreateMain(String::from_str(image_base_url), main_role_label(is_development)));
    v.push(UpdateAction::RunMain);
    v.push(UpdateAction::Wait(wait));
    assert(actions_view(v) =~= main_update_steps(image_base_url@, is_development, wait));
    v
}

/// The burn-up wait in seconds, as a specification.
pub open spec fn burnup_seconds_spec(burnup_waiting: i64) -> u64 {
    (if burnup_waiting < 0 { -burnup_waiting } else { burnup_waiting as int }) as u64
}

/// The steps that replace an outdated rollback container.
pub fn rollback_update_actions(image_base_url: &str) -> (r: Vec<UpdateAction>)
    ensures
        actions_view(r) == rollback_update_steps(image_base_url@),
{
    let mut v: Vec<UpdateAction> = Vec::new();
    v.push(UpdateAction::PointNginxAtMain);
    v.push(UpdateAction::StopChecked);
    v.push(UpdateAction::Pull(String::from_str(image_base_url), String::from_str("rollback")));
    v.push(UpdateAction::CreateRollback(String::from_str(image_base_url), String::from_str("rollback")));
    assert(actions_view(v) =~= rollback_update_steps(image_base_url@));
    v
}

} // verus!
