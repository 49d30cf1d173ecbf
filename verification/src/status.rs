use vstd::prelude::*;
use crate::role::ContainerRole;
use crate::text::{copy_opt, opt_view};

verus! {

/// Health of one part of the deployment.
#[derive(Clone, Copy, Debug, PartialEq, Eq, Structural)]
pub enum HealthyStatus {
    Ready,
    Starting,
    Healthy,
    Unhealthy,
    Updating,
}

/// The controller's picture of the deployment: health and address of each
/// container, whether an update runs, and where nginx sends traffic.
#[derive(Debug)]
pub struct SystemStatus {
    pub in_update: bool,
    pub main: HealthyStatus,
    pub main_ip: Option<String>,
    pub rollback: HealthyStatus,
    pub rollback_ip: Option<String>,
    pub nginx: HealthyStatus,
    pub nginx_target_role: ContainerRole,
    pub nginx_target_ip: String,
}

/// `SystemStatus` with its texts taken as character sequences.
pub struct SystemStatusView {
    pub in_update: bool,
    pub main: HealthyStatus,
    pub main_ip: Option<Seq<char>>,
    pub rollback: HealthyStatus,
    pub rollback_ip: Option<Seq<char>>,
    pub nginx: HealthyStatus,
    pub nginx_target_role: ContainerRole,
    pub nginx_target_ip: Seq<char>,
}

impl View for SystemStatus {
    type V = SystemStatusView;

    open spec fn view(&self) -> SystemStatusView {
        SystemStatusView {
            in_update: self.in_update,
            main: self.main,
            main_ip: opt_view(self.main_ip),
            rollback: self.rollback,
            rollback_ip: opt_view(self.rollback_ip),
            nginx: self.nginx,
            nginx_target_role: self.nginx_target_role,
            nginx_target_ip: self.nginx_target_ip@,
        }
    }
}

/// The status a controller starts from.
pub open spec fn initial_status() -> SystemStatusView {
    SystemStatusView {
        in_update: false,
        main: HealthyStatus::Ready,
        main_ip: None,
        rollback: HealthyStatus::Ready,
        rollback_ip: None,
        nginx: HealthyStatus::Ready,
        nginx_target_role: ContainerRole::Main,
        nginx_target_ip: Seq::empty(),
    }
}

impl SystemStatus {
    pub fn new() -> (r: SystemStatus)
        ensures
            r@ == initial_status(),
    {
        SystemStatus {
            in_update: false,
            main: HealthyStatus::Ready,
            main_ip: None,
            rollback: HealthyStatus::Ready,
            rollback_ip: None,
            nginx: HealthyStatus::Ready,
            nginx_target_role: ContainerRole::Main,
            nginx_target_ip: String::new(),
        }
    }

    /// A copy of this status.
    pub fn duplicate(&self) -> (r: SystemStatus)
        ensures
            r@ == self@,
    {
        SystemStatus {
            in_update: self.in_update,
            main: self.main,
            main_ip: copy_opt(&self.main_ip),
            rollback: self.rollback,
            rollback_ip: copy_opt(&self.rollback_ip),
            nginx: self.nginx,
            nginx_target_role: self.nginx_target_role,
            nginx_target_ip: self.nginx_target_ip.clone(),
        }
    }
}

/// The record of one container's health.
pub struct ContainerStatus {
    pub healthy: HealthyStatus,
    container_id: String,
}

impl ContainerStatus {
    pub fn new(healthy: HealthyStatus, container_id: String) -> (r: ContainerStatus)
        ensures
            r.health_view() == healthy,
            r.id_view() == container_id@,
    {
        ContainerStatus { healthy, container_id }
    }

    pub closed spec fn health_view(&self) -> HealthyStatus {
        self.healthy
    }

    pub closed spec fn id_view(&self) -> Seq<char> {
        self.container_id@
    }

    pub fn container_id(&self) -> (r: &String)
        ensures
            r@ == self.id_view(),
    {
        &self.container_id
    }
}

/// One call that changes the status cell.
pub enum StatusCall {
    Replace(SystemStatusView),
    UpdateStart,
    UpdateFinish,
    Main(HealthyStatus),
    MainIp(Option<Seq<char>>),
    Rollback(HealthyStatus),
    RollbackIp(Option<Seq<char>>),
    Nginx(HealthyStatus),
    NginxTarget(ContainerRole),
    NginxTargetIp(Seq<char>),
}

/// The status after one call.
pub open spec fn apply_call(s: SystemStatusView, c: StatusCall) -> SystemStatusView {
    match c {
        StatusCall::Replace(v) => v,
        StatusCall::UpdateStart => SystemStatusView { in_update: true, ..s },
        StatusCall::UpdateFinish => SystemStatusView { in_update: false, ..s },
        StatusCall::Main(h) => SystemStatusView { main: h, ..s },
        StatusCall::MainIp(ip) => SystemStatusView { main_ip: ip, ..s },
        StatusCall::Rollback(h) => SystemStatusView { rollback: h, ..s },
        StatusCall::RollbackIp(ip) => SystemStatusView { rollback_ip: ip, ..s },
        StatusCall::Nginx(h) => SystemStatusView { nginx: h, ..s },
        StatusCall::NginxTarget(r) => SystemStatusView { nginx_target_role: r, ..s },
        StatusCall::NginxTargetIp(ip) => SystemStatusView { nginx_target_ip: ip, ..s },
    }
}

/// The status after a sequence of calls, in order.
pub open spec fn apply_calls(s: SystemStatusView, cs: Seq<StatusCall>) -> SystemStatusView
    decreases cs.len(),
{
    if cs.len() == 0 {
        s
    } else {
        apply_call(apply_calls(s, cs.drop_last()), cs.last())
    }
}

/// The cell that holds the controller's `SystemStatus`; every part of the
/// controller reads and records the deployment's state through it.
#[allow(non_camel_case_types)]
pub struct GLOBAL_SYSTEM_STATUS_LOCK {
    status: SystemStatus,
}

impl View for GLOBAL_SYSTEM_STATUS_LOCK {
    type V = SystemStatusView;

    closed spec fn view(&self) -> SystemStatusView {
        self.status@
    }
}

impl GLOBAL_SYSTEM_STATUS_LOCK {
    /// A cell holding the initial status.
    pub fn new() -> (r: Self)
        ensures
            r@ == initial_status(),
    {
        GLOBAL_SYSTEM_STATUS_LOCK { status: SystemStatus::new() }
    }

    pub fn get(&self) -> (r: SystemStatus)
        ensures
            r@ == self@,
    {
        self.status.duplicate()
    }

    pub fn set(&mut self, new: SystemStatus)
        ensures
            final(self)@ == apply_call(old(self)@, StatusCall::Replace(new@)),
            final(self)@ == new@,
    {
        self.status = new;
    }

    pub fn set_update_start(&mut self)
        ensures
            final(self)@ == apply_call(old(self)@, StatusCall::UpdateStart),
            final(self)@ == (SystemStatusView { in_update: true, ..old(self)@ }),
    {
        self.status.in_update = true;
    }

    pub fn set_update_finish(&mut self)
        ensures
            final(self)@ == apply_call(old(self)@, StatusCall::UpdateFinish),
            final(self)@ == (SystemStatusView { in_update: false, ..old(self)@ }),
    {
        self.status.in_update = false;
    }

    pub fn set_main(&mut self, health: HealthyStatus)
        ensures
            final(self)@ == apply_call(old(self)@, StatusCall::Main(health)),
            final(self)@ == (SystemStatusView { main: health, ..old(self)@ }),
    {
        self.status.main = health;
    }

    pub fn set_main_ip(&mut self, ip: Option<String>)
        ensures
            final(self)@ == apply_call(old(self)@, StatusCall::MainIp(opt_view(ip))),
            final(self)@ == (SystemStatusView { main_ip: opt_view(ip), ..old(self)@ }),
    {
        self.status.main_ip = ip;
    }

    pub fn set_rollback(&mut self, health: HealthyStatus)
        ensures
            final(self)@ == apply_call(old(self)@, StatusCall::Rollback(health)),
            final(self)@ == (SystemStatusView { rollback: health, ..old(self)@ }),
    {
        self.status.rollback = health;
    }

    pub fn set_rollback_ip(&mut self, ip: Option<String>)
        ensures
            final(self)@ == apply_call(old(self)@, StatusCall::RollbackIp(opt_view(ip))),
            final(self)@ == (SystemStatusView { rollback_ip: opt_view(ip), ..old(self)@ }),
    {
        self.status.rollback_ip = ip;
    }

    pub fn set_nginx(&mut self, health: HealthyStatus)
        ensures
            final(self)@ == apply_call(old(self)@, StatusCall::Nginx(health)),
            final(self)@ == (SystemStatusView { nginx: health, ..old(self)@ }),
    {
        self.status.nginx = health;
    }

    pub fn get_main(&self) -> (r: HealthyStatus)
        ensures
            r == self@.main,
    {
        self.status.main
    }

    pub fn get_main_ip(&self) -> (r: Option<String>)
        ensures
            opt_view(r) == self@.main_ip,
    {
        copy_opt(&self.status.main_ip)
    }

    pub fn get_rollback(&self) -> (r: HealthyStatus)
        ensures
            r == self@.rollback,
    {
        self.status.rollback
    }

    pub fn get_rollback_ip(&self) -> (r: Option<String>)
        ensures
            opt_view(r) == self@.rollback_ip,
    {
        copy_opt(&self.status.rollback_ip)
    }

    pub fn get_nginx(&self) -> (r: HealthyStatus)
        ensures
            r == self@.nginx,
    {
        self.status.nginx
    }

    pub fn set_nginx_target(&mut self, target: ContainerRole)
        ensures
            final(self)@ == apply_call(old(self)@, StatusCall::NginxTarget(target)),
            final(self)@ == (SystemStatusView { nginx_target_role: target, ..old(self)@ }),
    {
        self.status.nginx_target_role = target;
    }

    pub fn get_nginx_target(&self) -> (r: ContainerRole)
        ensures
            r == self@.nginx_target_role,
    {
        self.status.nginx_target_role
    }

    pub fn set_nginx_target_ip(&mut self, ip: String)
        ensures
            final(self)@ == apply_call(old(self)@, StatusCall::NginxTargetIp(ip@)),
            final(self)@ == (SystemStatusView { nginx_target_ip: ip@, ..old(self)@ }),
    {
        self.status.nginx_target_ip = ip;
    }

    pub fn get_nginx_ip(&self) -> (r: String)
        ensures
            r@ == self@.nginx_target_ip,
    {
        self.status.nginx_target_ip.clone()
    }

    pub fn is_updating(&self) -> (r: bool)
        ensures
            r == self@.in_update,
    {
        self.status.in_update
    }
}

} // verus!
