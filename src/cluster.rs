//! The cluster object as the reconciliation reads it, and the errors that end a
//! reconciliation pass.

use vstd::prelude::*;
use vstd::string::*;

verus! {

/// Name of the application, used in labels and the names of images.
pub const APP_NAME: &'static str = "superset";
/// Port of the web server.
pub const APP_PORT: u16 = 8088;
/// Name of the single role.
pub const NODE_ROLE: &'static str = "node";

/// A declared cluster: its object metadata and its spec.
#[derive(Clone, Debug, PartialEq, Eq)]
pub struct SupersetCluster {
    pub name: Option<String>,
    pub namespace: Option<String>,
    pub uid: Option<String>,
    pub spec: SupersetClusterSpec,
}

#[derive(Clone, Debug, PartialEq, Eq)]
pub struct SupersetClusterSpec {
    /// Product version of the web server image
    pub version: Option<String>,
    /// Version of the metrics exporter image
    pub statsd_exporter_version: Option<String>,
    /// Stop all role groups, whatever their declared replica count
    pub stopped: Option<bool>,
    /// The node role
    pub nodes: Option<Role>,
    /// Authentication methods that the cluster refers to
    pub authentication_config: Option<SupersetClusterAuthenticationConfig>,
}

/// A role: its groups, in declaration order. Group names are unique within a
/// role (see `role_wf`); a lookup by name takes the first group of that name.
#[derive(Clone, Debug, PartialEq, Eq)]
pub struct Role {
    pub role_groups: Vec<RoleGroup>,
}

/// The names of a role's groups are pairwise distinct.
pub open spec fn role_wf(r: Role) -> bool {
    forall|i: int, j: int|
        0 <= i < j < r.role_groups@.len() ==> #[trigger] r.role_groups@[i].name@ != #[trigger] r.role_groups@[j].name@
}

#[derive(Clone, Debug, PartialEq, Eq)]
pub struct RoleGroup {
    pub name: String,
    pub replicas: Option<u16>,
}

#[derive(Clone, Debug, PartialEq, Eq)]
pub struct SupersetClusterAuthenticationConfig {
    pub methods: Vec<SupersetClusterAuthenticationConfigMethod>,
}

#[derive(Clone, Debug, PartialEq, Eq)]
pub struct SupersetClusterAuthenticationConfigMethod {
    /// Name of the referenced authentication class
    pub authentication_class: String,
}

/// Identity of one role group of a cluster.
#[derive(Clone, Debug, PartialEq, Eq)]
pub struct RoleGroupRef {
    pub cluster_name: String,
    pub role: String,
    pub role_group: String,
}

pub open spec fn rolegroup_object_name(r: RoleGroupRef) -> Seq<char> {
    r.cluster_name@ + "-"@ + r.role@ + "-"@ + r.role_group@
}

impl RoleGroupRef {
    /// The name shared by the objects built for this role group.
    pub fn object_name(&self) -> (r: String)
        ensures
            r@ == rolegroup_object_name(*self),
    {
        String::from_str(self.cluster_name.as_str()).concat("-").concat(self.role.as_str()).concat("-").concat(
            self.role_group.as_str(),
        )
    }
}

/// Where a property of a role group's configuration goes.
#[derive(Clone, Debug, PartialEq, Eq)]
pub enum PropertyNameKind {
    Env,
    File(String),
    Cli,
}

#[derive(Clone, Debug, PartialEq, Eq)]
pub struct Property {
    pub key: String,
    pub value: String,
}

/// The properties of one configuration kind.
#[derive(Clone, Debug, PartialEq, Eq)]
pub struct PropertyGroup {
    pub kind: PropertyNameKind,
    pub properties: Vec<Property>,
}

/// The validated configuration of one role group, by configuration kind.
/// Kinds are unique, and so are the keys within each kind (see
/// `role_group_config_wf`); a lookup takes the first match.
#[derive(Clone, Debug, PartialEq, Eq)]
pub struct RoleGroupConfig {
    pub groups: Vec<PropertyGroup>,
}

/// A configuration kind as a value that tells kinds apart.
pub open spec fn kind_key(k: PropertyNameKind) -> (int, Seq<char>) {
    match k {
        PropertyNameKind::Env => (0, Seq::empty()),
        PropertyNameKind::File(f) => (1, f@),
        PropertyNameKind::Cli => (2, Seq::empty()),
    }
}

/// The keys of the properties are pairwise distinct.
pub open spec fn property_keys_unique(props: Seq<Property>) -> bool {
    forall|i: int, j: int| 0 <= i < j < props.len() ==> #[trigger] props[i].key@ != #[trigger] props[j].key@
}

/// Kinds are pairwise distinct, and so are the keys within each kind.
pub open spec fn role_group_config_wf(c: RoleGroupConfig) -> bool {
    &&& forall|i: int, j: int|
        0 <= i < j < c.groups@.len() ==> kind_key(#[trigger] c.groups@[i].kind) != kind_key(
            #[trigger] c.groups@[j].kind,
        )
    &&& forall|i: int| 0 <= i < c.groups@.len() ==> property_keys_unique(#[trigger] c.groups@[i].properties@)
}

/// Why a reconciliation pass was abandoned.
#[derive(Clone, Debug, PartialEq, Eq)]
pub enum Error {
    NoSupersetVersion,
    NoStatsdExporterVersion,
    NoNodeRole,
    GlobalServiceNameNotFound,
    ApplyRoleService,
    CreateSupersetObject,
    ApplySupersetDB,
    ApplyRoleGroupService { rolegroup: RoleGroupRef },
    ApplyRoleGroupConfigMap { rolegroup: RoleGroupRef },
    ApplyRoleGroupStatefulSet { rolegroup: RoleGroupRef },
    GenerateProductConfig,
    InvalidProductConfig,
    ObjectMissingMetadataForOwnerRef,
    MultipleAuthenticationMethods,
    AuthenticationClassRetrieval { authentication_class: String },
    BuildRoleGroupConfig { rolegroup: RoleGroupRef },
}

pub open spec fn error_category(e: Error) -> Seq<char> {
    match e {
        Error::NoSupersetVersion => "NoSupersetVersion"@,
        Error::NoStatsdExporterVersion => "NoStatsdExporterVersion"@,
        Error::NoNodeRole => "NoNodeRole"@,
        Error::GlobalServiceNameNotFound => "GlobalServiceNameNotFound"@,
        Error::ApplyRoleService => "ApplyRoleService"@,
        Error::CreateSupersetObject => "CreateSupersetObject"@,
        Error::ApplySupersetDB => "ApplySupersetDB"@,
        Error::ApplyRoleGroupService { .. } => "ApplyRoleGroupService"@,
        Error::ApplyRoleGroupConfigMap { .. } => "ApplyRoleGroupConfigMap"@,
        Error::ApplyRoleGroupStatefulSet { .. } => "ApplyRoleGroupStatefulSet"@,
        Error::GenerateProductConfig => "GenerateProductConfig"@,
        Error::InvalidProductConfig => "InvalidProductConfig"@,
        Error::ObjectMissingMetadataForOwnerRef => "ObjectMissingMetadataForOwnerRef"@,
        Error::MultipleAuthenticationMethods => "MultipleAuthenticationMethods"@,
        Error::AuthenticationClassRetrieval { .. } => "AuthenticationClassRetrieval"@,
        Error::BuildRoleGroupConfig { .. } => "BuildRoleGroupConfig"@,
    }
}

impl Error {
    /// The name of the error's variant, used to group errors in reports.
    pub fn category(&self) -> (r: &'static str)
        ensures
            r@ == error_category(*self),
    {
        match self {
            Error::NoSupersetVersion => "NoSupersetVersion",
            Error::NoStatsdExporterVersion => "NoStatsdExporterVersion",
            Error::NoNodeRole => "NoNodeRole",
            Error::GlobalServiceNameNotFound => "GlobalServiceNameNotFound",
            Error::ApplyRoleService => "ApplyRoleService",
            Error::CreateSupersetObject => "CreateSupersetObject",
            Error::ApplySupersetDB => "ApplySupersetDB",
            Error::ApplyRoleGroupService { .. } => "ApplyRoleGroupService",
            Error::ApplyRoleGroupConfigMap { .. } => "ApplyRoleGroupConfigMap",
            Error::ApplyRoleGroupStatefulSet { .. } => "ApplyRoleGroupStatefulSet",
            Error::GenerateProductConfig => "GenerateProductConfig",
            Error::InvalidProductConfig => "InvalidProductConfig",
            Error::ObjectMissingMetadataForOwnerRef => "ObjectMissingMetadataForOwnerRef",
            Error::MultipleAuthenticationMethods => "MultipleAuthenticationMethods",
            Error::AuthenticationClassRetrieval { .. } => "AuthenticationClassRetrieval",
            Error::BuildRoleGroupConfig { .. } => "BuildRoleGroupConfig",
        }
    }
}

impl SupersetCluster {
    /// The product version, if declared.
    pub fn superset_version(&self) -> (r: Result<&str, Error>)
        ensures
            match self.spec.version {
                Some(v) => r matches Ok(s) && s@ == v@,
                None => r matches Err(Error::NoSupersetVersion),
            },
    {
        match &self.spec.version {
            Some(v) => Ok(v.as_str()),
            None => Err(Error::NoSupersetVersion),
        }
    }

    /// The metrics exporter version, if declared.
    pub fn statsd_exporter_version(&self) -> (r: Result<&str, Error>)
        ensures
            match self.spec.statsd_exporter_version {
                Some(v) => r matches Ok(s) && s@ == v@,
                None => r matches Err(Error::NoStatsdExporterVersion),
            },
    {
        match &self.spec.statsd_exporter_version {
            Some(v) => Ok(v.as_str()),
            None => Err(Error::NoStatsdExporterVersion),
        }
    }

    /// The name of the role-wide service: the cluster's own name.
    pub fn node_role_service_name(&self) -> (r: Option<String>)
        ensures
            match self.name {
                Some(n) => r matches Some(s) && s@ == n@,
                None => r is None,
            },
    {
        match &self.name {
            Some(n) => Some(n.clone()),
            None => None,
        }
    }

    /// The reference to a role group of the node role.
    pub fn node_rolegroup_ref(&self, group_name: &str) -> (r: Result<RoleGroupRef, Error>)
        ensures
            match self.name {
                Some(n) => r matches Ok(g) && g.cluster_name@ == n@ && g.role@ == NODE_ROLE@
                    && g.role_group@ == group_name@,
                None => r matches Err(Error::ObjectMissingMetadataForOwnerRef),
            },
    {
        match &self.name {
            Some(n) => Ok(RoleGroupRef {
                cluster_name: n.clone(),
                role: String::from_str(NODE_ROLE),
                role_group: String::from_str(group_name),
            }),
            None => Err(Error::ObjectMissingMetadataForOwnerRef),
        }
    }
}

} // verus!
