use vstd::prelude::*;
use crate::text::{casefold, lowercase_text, trim_text, trimmed, same_text};

verus! {

/// The part a container plays in a deployment.
#[derive(Clone, Copy, Debug, PartialEq, Eq, Structural)]
pub enum ContainerRole {
    Main,
    Dev,
    Rollback,
    Nginx,
    NoRole,
}

/// The container name that a role runs under.
pub open spec fn role_name(role: ContainerRole) -> Seq<char> {
    match role {
        ContainerRole::Main => "server_main"@,
        ContainerRole::Dev => "server_main"@,
        ContainerRole::Rollback => "server_rollback"@,
        ContainerRole::Nginx => "nginx"@,
        ContainerRole::NoRole => "NONE"@,
    }
}

/// The image tag that a role runs.
pub open spec fn role_tag(role: ContainerRole) -> Seq<char> {
    match role {
        ContainerRole::Main => "stable"@,
        ContainerRole::Dev => "latest"@,
        ContainerRole::Rollback => "rollback"@,
        ContainerRole::Nginx => "stable-alpine"@,
        ContainerRole::NoRole => "latest"@,
    }
}

impl ContainerRole {
    pub fn name(self) -> (r: String)
        ensures
            r@ == role_name(self),
    {
        match self {
            ContainerRole::Main => String::from_str("server_main"),
            ContainerRole::Dev => String::from_str("server_main"),
            ContainerRole::Rollback => String::from_str("server_rollback"),
            ContainerRole::Nginx => String::from_str("nginx"),
            ContainerRole::NoRole => String::from_str("NONE"),
        }
    }

    pub fn tag(self) -> (r: String)
        ensures
            r@ == role_tag(self),
    {
        match self {
            ContainerRole::Main => String::from_str("stable"),
            ContainerRole::Dev => String::from_str("latest"),
            ContainerRole::Rollback => String::from_str("rollback"),
            ContainerRole::Nginx => String::from_str("stable-alpine"),
            ContainerRole::NoRole => String::from_str("latest"),
        }
    }
}


impl Default for ContainerRole {
    fn default() -> (r: Self)
        ensures
            r == ContainerRole::NoRole,
    {
        ContainerRole::NoRole
    }
}

/// The role that a normalised label (trimmed, lower case) names.
pub open spec fn role_for_normalised(label: Seq<char>) -> ContainerRole {
    if label == "main"@ {
        ContainerRole::Main
    } else if label == "dev"@ {
        ContainerRole::Dev
    } else if label == "rollback"@ {
        ContainerRole::Rollback
    } else if label == "nginx"@ {
        ContainerRole::Nginx
    } else {
        ContainerRole::NoRole
    }
}

/// The role that a label names, ignoring surrounding whitespace and case.
pub open spec fn role_for_label(label: Seq<char>) -> ContainerRole {
    role_for_normalised(casefold(trimmed(label)))
}

/// The role that an already normalised label names.
pub fn role_from_normalised(label: &str) -> (r: ContainerRole)
    ensures
        r == role_for_normalised(label@),
{
    if same_text(label, "main") {
        ContainerRole::Main
    } else if same_text(label, "dev") {
        ContainerRole::Dev
    } else if same_text(label, "rollback") {
        ContainerRole::Rollback
    } else if same_text(label, "nginx") {
        ContainerRole::Nginx
    } else {
        ContainerRole::NoRole
    }
}

/// The role that a label names: it is trimmed and put in lower case first.
pub fn role_from_label(label: &str) -> (r: ContainerRole)
    ensures
        r == role_for_label(label@),
{
    let t = trim_text(label);
    let l = lowercase_text(t.as_str());
    role_from_normalised(l.as_str())
}

/// A container of the deployment, as the controller keeps track of it.
#[derive(Debug)]
pub struct Container {
    pub id: String,
    pub name: String,
    pub image: String,
    digest: String,
    pub role: ContainerRole,
    network_connected: bool,
}

/// A container's record with texts as character sequences.
pub struct ContainerView {
    pub id: Seq<char>,
    pub name: Seq<char>,
    pub image: Seq<char>,
    pub digest: Seq<char>,
    pub role: ContainerRole,
    pub network_connected: bool,
}

impl View for Container {
    type V = ContainerView;

    closed spec fn view(&self) -> ContainerView {
        ContainerView {
            id: self.id@,
            name: self.name@,
            image: self.image@,
            digest: self.digest@,
            role: self.role,
            network_connected: self.network_connected,
        }
    }
}

impl Container {
    /// The record of a container that is still to be created: it runs `image`
    /// in the role that `role` names, under that role's name, with no id yet.
    pub fn new(image: String, role: String) -> (r: Container)
        ensures
            r@ == (ContainerView {
                id: Seq::empty(),
                name: role_name(role_for_label(role@)),
                image: image@,
                digest: Seq::empty(),
                role: role_for_label(role@),
                network_connected: false,
            }),
    {
        let role = role_from_label(role.as_str());
        Container {
            id: String::new(),
            name: role.name(),
            image,
            digest: String::new(),
            role,
            network_connected: false,
        }
    }

    /// The record of a fresh container that replaces this one: same name,
    /// image, role and network, no id and no digest yet.
    pub fn recreate(&self) -> (r: Container)
        ensures
            r@ == (ContainerView { id: Seq::empty(), digest: Seq::empty(), ..self@ }),
    {
        Container {
            id: String::new(),
            name: self.name.clone(),
            image: self.image.clone(),
            digest: String::new(),
            role: self.role,
            network_connected: self.network_connected,
        }
    }

    /// A copy of this record.
    pub fn duplicate(&self) -> (r: Container)
        ensures
            r@ == self@,
    {
        Container {
            id: self.id.clone(),
            name: self.name.clone(),
            image: self.image.clone(),
            digest: self.digest.clone(),
            role: self.role,
            network_connected: self.network_connected,
        }
    }

    /// Records the id that the container engine gave the container.
    pub fn set_id(&mut self, id: String)
        ensures
            final(self)@ == (ContainerView { id: id@, ..old(self)@ }),
    {
        self.id = id;
    }

    /// The role's name, role and image, as a container's plan needs them.
    pub fn role(&self) -> (r: ContainerRole)
        ensures
            r == self@.role,
    {
        self.role
    }

    pub fn image(&self) -> (r: &String)
        ensures
            r@ == self@.image,
    {
        &self.image
    }

    pub fn name(&self) -> (r: &String)
        ensures
            r@ == self@.name,
    {
        &self.name
    }

    pub fn id(&self) -> (r: &String)
        ensures
            r@ == self@.id,
    {
        &self.id
    }
}

} // verus!
