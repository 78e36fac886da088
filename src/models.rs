use vstd::prelude::*;
use vstd::string::StrSliceExecFns;
use crate::text::str_eq;

verus! {

/// A project: the top level of the hierarchy.
#[derive(Clone, Debug)]
pub struct Project {
    pub id: i32,
    pub name: String,
    pub icon: Option<Vec<u8>>,
    pub has_dev: bool,
    pub has_uat: bool,
    pub has_stage: bool,
    pub has_prod: bool,
}

#[derive(Clone, Copy, Debug, PartialEq, Eq, Structural)]
pub enum ServerType {
    SrvDatabase,
    SrvApplication,
    SrvHttpOrProxy,
    SrvMonitoring,
    SrvReporting,
}

#[derive(Clone, Copy, Debug, PartialEq, Eq, Structural)]
pub enum ServerAccessType {
    SrvAccessSsh,
    SrvAccessRdp,
    SrvAccessWww,
    SrvAccessSshTunnel,
}

#[derive(Clone, Copy, Debug, PartialEq, Eq, Structural)]
pub enum EnvironmentType {
    EnvDevelopment,
    EnvUat,
    EnvStage,
    EnvProd,
}

/// A server of a project.
#[derive(Clone, Debug)]
pub struct Server {
    pub id: i32,
    pub desc: String,
    pub is_retired: bool,
    pub ip: String,
    pub text: String,
    pub username: String,
    pub password: String,
    pub auth_key: Option<Vec<u8>>,
    pub auth_key_filename: Option<String>,
    pub server_type: ServerType,
    pub access_type: ServerAccessType,
    pub ssh_tunnel_port: Option<i32>,
    pub ssh_tunnel_through_server_id: Option<i32>,
    pub environment: EnvironmentType,
    pub group_name: Option<String>,
    pub project_id: i32,
}

#[derive(Clone, Debug)]
pub struct ServerWebsite {
    pub id: i32,
    pub desc: String,
    pub url: String,
    pub text: String,
    pub username: String,
    pub password: String,
    pub server_id: i32,
}

#[derive(Clone, Debug)]
pub struct ServerNote {
    pub id: i32,
    pub title: String,
    pub contents: String,
    pub server_id: i32,
}

#[derive(Clone, Debug)]
pub struct ProjectNote {
    pub id: i32,
    pub title: String,
    pub contents: String,
    pub project_id: i32,
}

#[derive(Clone, Debug)]
pub struct ServerExtraUserAccount {
    pub id: i32,
    pub username: String,
    pub password: String,
    pub desc: String,
    pub server_id: i32,
}

#[derive(Clone, Debug)]
pub struct ServerPointOfInterest {
    pub id: i32,
    pub desc: String,
    pub path: String,
    pub text: String,
    pub server_id: i32,
}

#[derive(Clone, Debug)]
pub struct ProjectPointOfInterest {
    pub id: i32,
    pub desc: String,
    pub path: String,
    pub text: String,
    pub project_id: i32,
}

#[derive(Clone, Debug)]
pub struct ServerDatabase {
    pub id: i32,
    pub desc: String,
    pub name: String,
    pub text: String,
    pub username: String,
    pub password: String,
    pub server_id: i32,
}

#[derive(Clone, Debug)]
pub struct ServerLink {
    pub id: i32,
    pub desc: String,
    pub linked_server_id: i32,
    pub project_id: i32,
}

impl EnvironmentType {
    /// The name under which the environment is stored.
    pub open spec fn spec_name(self) -> Seq<char> {
        match self {
            EnvironmentType::EnvDevelopment => "EnvDevelopment"@,
            EnvironmentType::EnvUat => "EnvUat"@,
            EnvironmentType::EnvStage => "EnvStage"@,
            EnvironmentType::EnvProd => "EnvProd"@,
        }
    }

    pub fn name(&self) -> (r: &'static str)
        ensures
            r@ == self.spec_name(),
    {
        match self {
            EnvironmentType::EnvDevelopment => "EnvDevelopment",
            EnvironmentType::EnvUat => "EnvUat",
            EnvironmentType::EnvStage => "EnvStage",
            EnvironmentType::EnvProd => "EnvProd",
        }
    }

    /// Reads a stored name back; `None` for a name that no environment has.
    pub fn from_name(s: &str) -> (r: Option<EnvironmentType>)
        ensures
            r matches Some(e) ==> s@ == e.spec_name(),
            r is None ==> forall|e: EnvironmentType| s@ != #[trigger] e.spec_name(),
    {
        if str_eq(s, "EnvDevelopment") {
            Some(EnvironmentType::EnvDevelopment)
        } else if str_eq(s, "EnvUat") {
            Some(EnvironmentType::EnvUat)
        } else if str_eq(s, "EnvStage") {
            Some(EnvironmentType::EnvStage)
        } else if str_eq(s, "EnvProd") {
            Some(EnvironmentType::EnvProd)
        } else {
            assert forall|e: EnvironmentType| s@ != #[trigger] e.spec_name() by {
                match e {
                    EnvironmentType::EnvDevelopment => {},
                    EnvironmentType::EnvUat => {},
                    EnvironmentType::EnvStage => {},
                    EnvironmentType::EnvProd => {},
                }
            }
            None
        }
    }

    /// The short tag drawn beside a server.
    pub open spec fn spec_label(self) -> Seq<char> {
        match self {
            EnvironmentType::EnvDevelopment => "DEV"@,
            EnvironmentType::EnvUat => "UAT"@,
            EnvironmentType::EnvStage => "STG"@,
            EnvironmentType::EnvProd => "PROD"@,
        }
    }

    pub fn label(&self) -> (r: &'static str)
        ensures
            r@ == self.spec_label(),
    {
        match self {
            EnvironmentType::EnvDevelopment => "DEV",
            EnvironmentType::EnvUat => "UAT",
            EnvironmentType::EnvStage => "STG",
            EnvironmentType::EnvProd => "PROD",
        }
    }
}

impl ServerType {
    pub open spec fn spec_name(self) -> Seq<char> {
        match self {
            ServerType::SrvDatabase => "SrvDatabase"@,
            ServerType::SrvApplication => "SrvApplication"@,
            ServerType::SrvHttpOrProxy => "SrvHttpOrProxy"@,
            ServerType::SrvMonitoring => "SrvMonitoring"@,
            ServerType::SrvReporting => "SrvReporting"@,
        }
    }

    pub fn name(&self) -> (r: &'static str)
        ensures
            r@ == self.spec_name(),
    {
        match self {
            ServerType::SrvDatabase => "SrvDatabase",
            ServerType::SrvApplication => "SrvApplication",
            ServerType::SrvHttpOrProxy => "SrvHttpOrProxy",
            ServerType::SrvMonitoring => "SrvMonitoring",
            ServerType::SrvReporting => "SrvReporting",
        }
    }

    pub fn from_name(s: &str) -> (r: Option<ServerType>)
        ensures
            r matches Some(t) ==> s@ == t.spec_name(),
            r is None ==> forall|t: ServerType| s@ != #[trigger] t.spec_name(),
    {
        if str_eq(s, "SrvDatabase") {
            Some(ServerType::SrvDatabase)
        } else if str_eq(s, "SrvApplication") {
            Some(ServerType::SrvApplication)
        } else if str_eq(s, "SrvHttpOrProxy") {
            Some(ServerType::SrvHttpOrProxy)
        } else if str_eq(s, "SrvMonitoring") {
            Some(ServerType::SrvMonitoring)
        } else if str_eq(s, "SrvReporting") {
            Some(ServerType::SrvReporting)
        } else {
            assert forall|t: ServerType| s@ != #[trigger] t.spec_name() by {
                match t {
                    ServerType::SrvDatabase => {},
                    ServerType::SrvApplication => {},
                    ServerType::SrvHttpOrProxy => {},
                    ServerType::SrvMonitoring => {},
                    ServerType::SrvReporting => {},
                }
            }
            None
        }
    }

    /// The description shown to the user when picking a server type.
    pub open spec fn spec_desc(self) -> Seq<char> {
        match self {
            ServerType::SrvApplication => "Application"@,
            ServerType::SrvDatabase => "Database"@,
            ServerType::SrvHttpOrProxy => "HTTP server or proxy"@,
            ServerType::SrvMonitoring => "Monitoring"@,
            ServerType::SrvReporting => "Reporting"@,
        }
    }

    pub fn desc(&self) -> (r: &'static str)
        ensures
            r@ == self.spec_desc(),
    {
        match self {
            ServerType::SrvApplication => "Application",
            ServerType::SrvDatabase => "Database",
            ServerType::SrvHttpOrProxy => "HTTP server or proxy",
            ServerType::SrvMonitoring => "Monitoring",
            ServerType::SrvReporting => "Reporting",
        }
    }
}

impl ServerAccessType {
    pub open spec fn spec_name(self) -> Seq<char> {
        match self {
            ServerAccessType::SrvAccessSsh => "SrvAccessSsh"@,
            ServerAccessType::SrvAccessRdp => "SrvAccessRdp"@,
            ServerAccessType::SrvAccessWww => "SrvAccessWww"@,
            ServerAccessType::SrvAccessSshTunnel => "SrvAccessSshTunnel"@,
        }
    }

    pub fn name(&self) -> (r: &'static str)
        ensures
            r@ == self.spec_name(),
    {
        match self {
            ServerAccessType::SrvAccessSsh => "SrvAccessSsh",
            ServerAccessType::SrvAccessRdp => "SrvAccessRdp",
            ServerAccessType::SrvAccessWww => "SrvAccessWww",
            ServerAccessType::SrvAccessSshTunnel => "SrvAccessSshTunnel",
        }
    }

    pub fn from_name(s: &str) -> (r: Option<ServerAccessType>)
        ensures
            r matches Some(t) ==> s@ == t.spec_name(),
            r is None ==> forall|t: ServerAccessType| s@ != #[trigger] t.spec_name(),
    {
        if str_eq(s, "SrvAccessSsh") {
            Some(ServerAccessType::SrvAccessSsh)
        } else if str_eq(s, "SrvAccessRdp") {
            Some(ServerAccessType::SrvAccessRdp)
        } else if str_eq(s, "SrvAccessWww") {
            Some(ServerAccessType::SrvAccessWww)
        } else if str_eq(s, "SrvAccessSshTunnel") {
            Some(ServerAccessType::SrvAccessSshTunnel)
        } else {
            assert forall|t: ServerAccessType| s@ != #[trigger] t.spec_name() by {
                match t {
                    ServerAccessType::SrvAccessSsh => {},
                    ServerAccessType::SrvAccessRdp => {},
                    ServerAccessType::SrvAccessWww => {},
                    ServerAccessType::SrvAccessSshTunnel => {},
                }
            }
            None
        }
    }

    /// The description shown to the user when picking an access type.
    pub open spec fn spec_desc(self) -> Seq<char> {
        match self {
            ServerAccessType::SrvAccessSsh => "SSH"@,
            ServerAccessType::SrvAccessWww => "Website"@,
            ServerAccessType::SrvAccessRdp => "Remote Desktop (RDP)"@,
            ServerAccessType::SrvAccessSshTunnel => "SSH tunnel"@,
        }
    }

    pub fn desc(&self) -> (r: &'static str)
        ensures
            r@ == self.spec_desc(),
    {
        match self {
            ServerAccessType::SrvAccessSsh => "SSH",
            ServerAccessType::SrvAccessWww => "Website",
            ServerAccessType::SrvAccessRdp => "Remote Desktop (RDP)",
            ServerAccessType::SrvAccessSshTunnel => "SSH tunnel",
        }
    }
}

/// The group name to store for a server: an empty name is stored as no
/// group at all.
pub fn normalize_group_name(group: Option<String>) -> (r: Option<String>)
    ensures
        match group {
            Some(g) => if g@.len() == 0 {
                r is None
            } else {
                r matches Some(s) && s@ == g@
            },
            None => r is None,
        },
{
    match group {
        Some(g) => if g.as_str().unicode_len() == 0 {
            None
        } else {
            Some(g)
        },
        None => None,
    }
}

} // verus!
