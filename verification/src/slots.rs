use vstd::prelude::*;
use crate::role::{Container, ContainerView};
use crate::status::{GLOBAL_SYSTEM_STATUS_LOCK, SystemStatusView};

verus! {

/// The view of a slot's content.
pub open spec fn slot_view(c: Option<Container>) -> Option<ContainerView> {
    match c {
        Some(c) => Some(c@),
        None => None,
    }
}

fn copy_slot(c: &Option<Container>) -> (r: Option<Container>)
    ensures
        slot_view(r) == slot_view(*c),
{
    match c {
        Some(c) => Some(c.duplicate()),
        None => None,
    }
}

/// The slot that holds the main container, if one was created.
#[allow(non_camel_case_types)]
pub struct GLOBAL_CONTAINER_MAIN_LOCK {
    slot: Option<Container>,
}

impl View for GLOBAL_CONTAINER_MAIN_LOCK {
    type V = Option<ContainerView>;

    closed spec fn view(&self) -> Option<ContainerView> {
        slot_view(self.slot)
    }
}

impl GLOBAL_CONTAINER_MAIN_LOCK {
    /// An empty slot.
    pub fn new() -> (r: Self)
        ensures
            r@ is None,
    {
        GLOBAL_CONTAINER_MAIN_LOCK { slot: None }
    }

    pub fn get(&self) -> (r: Option<Container>)
        ensures
            slot_view(r) == self@,
    {
        copy_slot(&self.slot)
    }

    pub fn set(&mut self, new: Option<Container>)
        ensures
            final(self)@ == slot_view(new),
    {
        self.slot = new;
    }
}

/// The slot that holds the rollback container, if one was created.
#[allow(non_camel_case_types)]
pub struct GLOBAL_CONTAINER_ROLLBACK_LOCK {
    slot: Option<Container>,
}

impl View for GLOBAL_CONTAINER_ROLLBACK_LOCK {
    type V = Option<ContainerView>;

    closed spec fn view(&self) -> Option<ContainerView> {
        slot_view(self.slot)
    }
}

impl GLOBAL_CONTAINER_ROLLBACK_LOCK {
    /// An empty slot.
    pub fn new() -> (r: Self)
        ensures
            r@ is None,
    {
        GLOBAL_CONTAINER_ROLLBACK_LOCK { slot: None }
    }

    pub fn get(&self) -> (r: Option<Container>)
        ensures
            slot_view(r) == self@,
    {
        copy_slot(&self.slot)
    }

    pub fn set(&mut self, new: Option<Container>)
        ensures
            final(self)@ == slot_view(new),
    {
        self.slot = new;
    }
}

/// The view of a command line.
pub open spec fn command_view(c: Vec<String>) -> Seq<Seq<char>> {
    c@.map_values(|s: String| s@)
}

/// The view of a list of command lines.
pub open spec fn commands_view(cs: Vec<Vec<String>>) -> Seq<Seq<Seq<char>>> {
    cs@.map_values(|c: Vec<String>| command_view(c))
}

/// The shell line that points nginx at the container `target` and
/// regenerates its configuration.
pub open spec fn target_line(target: Seq<char>) -> Seq<char> {
    "export TARGET_CONTAINER="@ + target + "; /etc/nginx/regenerate.sh"@
}

/// The shell line that points nginx at port `port` and regenerates its
/// configuration.
pub open spec fn port_line(port: Seq<char>) -> Seq<char> {
    "TARGET_PORT="@ + port + "; /etc/nginx/regenerate.sh"@
}

/// The command that runs `line` in a shell inside the nginx container.
pub open spec fn shell_command(line: Seq<char>) -> Seq<Seq<char>> {
    seq!["/bin/sh"@, "-c"@, line]
}

/// The commands that retarget nginx: one for the container, one for the
/// port, each only where it is given.
pub open spec fn retarget_commands(target: Option<Seq<char>>, port: Option<Seq<char>>) -> Seq<
    Seq<Seq<char>>,
> {
    let a = match target {
        Some(t) => seq![shell_command(target_line(t))],
        None => Seq::empty(),
    };
    let b = match port {
        Some(p) => seq![shell_command(port_line(p))],
        None => Seq::empty(),
    };
    a + b
}

fn shell_command_exec(line: String) -> (r: Vec<String>)
    ensures
        command_view(r) == shell_command(line@),
{
    let mut v: Vec<String> = Vec::new();
    v.push(String::from_str("/bin/sh"));
    v.push(String::from_str("-c"));
    v.push(line);
    assert(command_view(v) =~= shell_command(line@));
    v
}

/// The status after nginx is pointed at `target`: a given target becomes
/// nginx's target address.
pub open spec fn retarget_status(s: SystemStatusView, target: Option<Seq<char>>) -> SystemStatusView {
    match target {
        Some(t) => SystemStatusView { nginx_target_ip: t, ..s },
        None => s,
    }
}

/// The slot that holds the nginx container, if one was created.
#[allow(non_camel_case_types)]
pub struct GLOBAL_CONTAINER_NGINX_LOCK {
    slot: Option<Container>,
}

impl View for GLOBAL_CONTAINER_NGINX_LOCK {
    type V = Option<ContainerView>;

    closed spec fn view(&self) -> Option<ContainerView> {
        slot_view(self.slot)
    }
}

impl GLOBAL_CONTAINER_NGINX_LOCK {
    /// An empty slot.
    pub fn new() -> (r: Self)
        ensures
            r@ is None,
    {
        GLOBAL_CONTAINER_NGINX_LOCK { slot: None }
    }

    pub fn get(&self) -> (r: Option<Container>)
        ensures
            slot_view(r) == self@,
    {
        copy_slot(&self.slot)
    }

    pub fn set(&mut self, new: Option<Container>)
        ensures
            final(self)@ == slot_view(new),
    {
        self.slot = new;
    }

    /// Points nginx at another container and/or port. Where an nginx
    /// container is held, a given target is recorded as nginx's target
    /// address in `status`, and the commands to run inside that container
    /// are returned; without one nothing changes and no command is due.
    pub fn change_target(
        &self,
        status: &mut GLOBAL_SYSTEM_STATUS_LOCK,
        container_target: Option<String>,
        container_target_port: Option<String>,
    ) -> (r: Vec<Vec<String>>)
        ensures
            self@ is None ==> final(status)@ == old(status)@ && r@.len() == 0,
            self@ is Some ==> commands_view(r) == retarget_commands(
                crate::text::opt_view(container_target),
                crate::text::opt_view(container_target_port),
            ),
            self@ is Some ==> final(status)@ == retarget_status(
                old(status)@,
                crate::text::opt_view(container_target),
            ),
    {
        let mut cmds: Vec<Vec<String>> = Vec::new();
        if self.slot.is_none() {
            return cmds;
        }
        let ghost tv = crate::text::opt_view(container_target);
        let ghost pv = crate::text::opt_view(container_target_port);
        match container_target {
            Some(target) => {
                status.set_nginx_target_ip(target.clone());
                let mut line = String::from_str("export TARGET_CONTAINER=");
                line.append(target.as_str());
                line.append("; /etc/nginx/regenerate.sh");
                cmds.push(shell_command_exec(line));
            },
            None => {},
        }
        match container_target_port {
            Some(port) => {
                let mut line = String::from_str("TARGET_PORT=");
                line.append(port.as_str());
                line.append("; /etc/nginx/regenerate.sh");
                cmds.push(shell_command_exec(line));
            },
            None => {},
        }
        assert(commands_view(cmds) =~= retarget_commands(tv, pv));
        cmds
    }
}

} // verus!
