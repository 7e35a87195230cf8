//! Desired state of the child resources of a cluster, one role group at a time,
//! and the decisions of a reconciliation pass.

use vstd::prelude::*;
use vstd::string::*;
use crate::authentication::{AuthenticationClass, authentication_mounts, authentication_volumes};
use crate::cluster::{
    kind_key, property_keys_unique, role_group_config_wf, role_wf, Role, APP_NAME, APP_PORT, NODE_ROLE, Error, Property, PropertyGroup, PropertyNameKind, RoleGroup, RoleGroupConfig,
    RoleGroupRef, SupersetCluster, rolegroup_object_name,
};
use crate::meta::{
    Label, ObjectMetaView, role_selector_labels, role_selector_labels_spec, child_meta, child_meta_spec, has_owner_metadata, labels_view, owner_reference,
    push_label, recommended_labels, recommended_labels_spec, role_group_selector_labels,
    role_group_selector_labels_spec,
};
use crate::config::{SUPERSET_CONFIG, compute_superset_config, superset_config};
use crate::resources::{
    ConfigMap, ConfigMapEntry, ConfigMapView, Container, ContainerPort, ContainerView, EnvVarFromSecret,
    EnvVarFromSecretView, Service, ServicePort, ServicePortView, ServiceView, StatefulSet, StatefulSetView,
    service_ports_view,
};
use crate::volume::{
    Volume, VolumeMount, VolumeMountView, VolumeSource, VolumeSourceView, VolumeView, mounts_view, push_mount,
    push_volume, volumes_view,
};

verus! {

/// Port of the metrics exporter.
pub const METRICS_PORT: i32 = 9102;
/// Name of the metrics port.
pub const METRICS_PORT_NAME: &'static str = "metrics";
/// The property of the environment that names the credentials secret.
pub const CREDENTIALS_SECRET_PROPERTY: &'static str = "credentialsSecret";
/// Group that owns the files of the pods' volumes, so that the main process can
/// read what the secret operator provides.
pub const FS_GROUP: i64 = 1000;

/// The first role group with the given name.
pub open spec fn find_role_group(groups: Seq<RoleGroup>, name: Seq<char>) -> Option<RoleGroup>
    decreases groups.len(),
{
    if groups.len() == 0 {
        None
    } else if groups[0].name@ == name {
        Some(groups[0])
    } else {
        find_role_group(groups.drop_first(), name)
    }
}

/// The first property group of the environment kind.
pub open spec fn find_env_group(groups: Seq<PropertyGroup>) -> Option<PropertyGroup>
    decreases groups.len(),
{
    if groups.len() == 0 {
        None
    } else if groups[0].kind is Env {
        Some(groups[0])
    } else {
        find_env_group(groups.drop_first())
    }
}

/// The value of the first property with the given key.
pub open spec fn find_property(props: Seq<Property>, key: Seq<char>) -> Option<Seq<char>>
    decreases props.len(),
{
    if props.len() == 0 {
        None
    } else if props[0].key@ == key {
        Some(props[0].value@)
    } else {
        find_property(props.drop_first(), key)
    }
}

/// With unique names, the lookup of a group's name finds that very group.
pub proof fn lemma_find_role_group_unique(groups: Seq<RoleGroup>, i: int)
    requires
        forall|a: int, b: int| 0 <= a < b < groups.len() ==> #[trigger] groups[a].name@ != #[trigger] groups[b].name@,
        0 <= i < groups.len(),
    ensures
        find_role_group(groups, groups[i].name@) == Some(groups[i]),
    decreases groups.len(),
{
    if i > 0 {
        assert(groups[0].name@ != groups[i].name@);
        let rest = groups.drop_first();
        assert(rest[i - 1] == groups[i]);
        assert forall|a: int, b: int| 0 <= a < b < rest.len() implies #[trigger] rest[a].name@ != #[trigger] rest[b].name@ by {
            assert(rest[a] == groups[a + 1] && rest[b] == groups[b + 1]);
        }
        lemma_find_role_group_unique(rest, i - 1);
    }
}

/// In a well-formed role, the lookup of a group's name finds that very group.
pub proof fn lemma_role_group_lookup(r: Role, i: int)
    requires
        role_wf(r),
        0 <= i < r.role_groups@.len(),
    ensures
        find_role_group(r.role_groups@, r.role_groups@[i].name@) == Some(r.role_groups@[i]),
{
    lemma_find_role_group_unique(r.role_groups@, i);
}

/// With unique keys, the lookup of a property's key finds that property's value.
pub proof fn lemma_find_property_unique(props: Seq<Property>, i: int)
    requires
        property_keys_unique(props),
        0 <= i < props.len(),
    ensures
        find_property(props, props[i].key@) == Some(props[i].value@),
    decreases props.len(),
{
    if i > 0 {
        assert(props[0].key@ != props[i].key@);
        let rest = props.drop_first();
        assert(rest[i - 1] == props[i]);
        assert forall|a: int, b: int| 0 <= a < b < rest.len() implies #[trigger] rest[a].key@ != #[trigger] rest[b].key@ by {
            assert(rest[a] == props[a + 1] && rest[b] == props[b + 1]);
        }
        lemma_find_property_unique(rest, i - 1);
    }
}

/// With unique kinds, the environment group found is the one group of that kind.
pub proof fn lemma_find_env_group_unique(groups: Seq<PropertyGroup>, i: int)
    requires
        forall|a: int, b: int| 0 <= a < b < groups.len() ==> kind_key(#[trigger] groups[a].kind) != kind_key(
            #[trigger] groups[b].kind,
        ),
        0 <= i < groups.len(),
        groups[i].kind is Env,
    ensures
        find_env_group(groups) == Some(groups[i]),
    decreases groups.len(),
{
    if i > 0 {
        assert(kind_key(groups[0].kind) != kind_key(groups[i].kind));
        let rest = groups.drop_first();
        assert(rest[i - 1] == groups[i]);
        assert forall|a: int, b: int| 0 <= a < b < rest.len() implies kind_key(#[trigger] rest[a].kind) != kind_key(
            #[trigger] rest[b].kind,
        ) by {
            assert(rest[a] == groups[a + 1] && rest[b] == groups[b + 1]);
        }
        lemma_find_env_group_unique(rest, i - 1);
    }
}

/// In a well-formed configuration, the credentials secret is the value of the
/// one property of that key in the one environment group.
pub proof fn lemma_credentials_secret_unique(c: RoleGroupConfig, i: int, j: int)
    requires
        role_group_config_wf(c),
        0 <= i < c.groups@.len(),
        c.groups@[i].kind is Env,
        0 <= j < c.groups@[i].properties@.len(),
        c.groups@[i].properties@[j].key@ == CREDENTIALS_SECRET_PROPERTY@,
    ensures
        credentials_secret(c) == Some(c.groups@[i].properties@[j].value@),
{
    lemma_find_env_group_unique(c.groups@, i);
    lemma_find_property_unique(c.groups@[i].properties@, j);
}

fn lookup_role_group<'a>(groups: &'a Vec<RoleGroup>, name: &String) -> (r: Option<&'a RoleGroup>)
    ensures
        match r {
            Some(g) => find_role_group(groups@, name@) == Some(*g),
            None => find_role_group(groups@, name@) is None,
        },
{
    let mut i: usize = 0;
    assert(groups@.skip(0) =~= groups@);
    while i < groups.len()
        invariant
            i <= groups@.len(),
            find_role_group(groups@, name@) == find_role_group(groups@.skip(i as int), name@),
        decreases groups@.len() - i,
    {
        assert(groups@.skip(i as int).drop_first() =~= groups@.skip(i + 1));
        if groups[i].name == *name {
            return Some(&groups[i]);
        }
        i = i + 1;
    }
    None
}

fn lookup_env_group(groups: &Vec<PropertyGroup>) -> (r: Option<&PropertyGroup>)
    ensures
        match r {
            Some(g) => find_env_group(groups@) == Some(*g),
            None => find_env_group(groups@) is None,
        },
{
    let mut i: usize = 0;
    assert(groups@.skip(0) =~= groups@);
    while i < groups.len()
        invariant
            i <= groups@.len(),
            find_env_group(groups@) == find_env_group(groups@.skip(i as int)),
        decreases groups@.len() - i,
    {
        assert(groups@.skip(i as int).drop_first() =~= groups@.skip(i + 1));
        if let PropertyNameKind::Env = groups[i].kind {
            return Some(&groups[i]);
        }
        i = i + 1;
    }
    None
}

fn lookup_property<'a>(props: &'a Vec<Property>, key: &str) -> (r: Option<&'a String>)
    ensures
        match r {
            Some(v) => find_property(props@, key@) == Some(v@),
            None => find_property(props@, key@) is None,
        },
{
    let wanted = String::from_str(key);
    let mut i: usize = 0;
    assert(props@.skip(0) =~= props@);
    while i < props.len()
        invariant
            i <= props@.len(),
            find_property(props@, key@) == find_property(props@.skip(i as int), key@),
            wanted@ == key@,
        decreases props@.len() - i,
    {
        assert(props@.skip(i as int).drop_first() =~= props@.skip(i + 1));
        assert(props@.skip(i as int)[0] == props@[i as int]);
        if props[i].key == wanted {
            return Some(&props[i].value);
        }
        i = i + 1;
    }
    None
}

/// The name of the credentials secret, as the role group's environment gives it.
pub open spec fn credentials_secret(config: RoleGroupConfig) -> Option<Seq<char>> {
    match find_env_group(config.groups@) {
        None => None,
        Some(g) => find_property(g.properties@, CREDENTIALS_SECRET_PROPERTY@),
    }
}

/// The environment of the main container: the signing secret and the database
/// URI, both read from the credentials secret, if one is named.
pub open spec fn main_container_env(config: RoleGroupConfig) -> Seq<EnvVarFromSecretView> {
    match credentials_secret(config) {
        None => seq![],
        Some(s) => seq![
            EnvVarFromSecretView { name: "SECRET_KEY"@, secret_name: s, secret_key: "connections.secretKey"@ },
            EnvVarFromSecretView {
                name: "SQLALCHEMY_DATABASE_URI"@,
                secret_name: s,
                secret_key: "connections.sqlalchemyDatabaseUri"@,
            },
        ],
    }
}

pub open spec fn prefixed_name(name: Seq<char>) -> Seq<char> {
    "authentication-config-"@ + name
}

pub open spec fn prefix_volumes(vs: Seq<VolumeView>) -> Seq<VolumeView> {
    vs.map_values(|v: VolumeView| VolumeView { name: prefixed_name(v.name), source: v.source })
}

pub open spec fn prefix_mounts(ms: Seq<VolumeMountView>) -> Seq<VolumeMountView> {
    ms.map_values(
        |m: VolumeMountView| VolumeMountView { name: prefixed_name(m.name), mount_path: m.mount_path, read_only: m.read_only },
    )
}

pub open spec fn config_volume(rg: RoleGroupRef) -> VolumeView {
    VolumeView { name: "config"@, source: VolumeSourceView::ConfigMap(rolegroup_object_name(rg)) }
}

pub open spec fn config_mount() -> VolumeMountView {
    VolumeMountView { name: "config"@, mount_path: "/app/pythonpath/"@, read_only: false }
}

/// The pod's volumes: the configuration, then those of the authentication
/// class, renamed under the `authentication-config-` prefix.
pub open spec fn pod_volumes(rg: RoleGroupRef, auth: Option<AuthenticationClass>) -> Seq<VolumeView> {
    seq![config_volume(rg)] + match auth {
        None => seq![],
        Some(ac) => prefix_volumes(authentication_volumes(ac)),
    }
}

pub open spec fn main_container_mounts(auth: Option<AuthenticationClass>) -> Seq<VolumeMountView> {
    seq![config_mount()] + match auth {
        None => seq![],
        Some(ac) => prefix_mounts(authentication_mounts(ac)),
    }
}

pub open spec fn superset_image(version: Seq<char>) -> Seq<char> {
    "docker.stackable.tech/stackable/superset:"@ + version + "-stackable0"@
}

pub open spec fn statsd_exporter_image(version: Seq<char>) -> Seq<char> {
    "docker.stackable.tech/prom/statsd-exporter:"@ + version
}

/// The replica count: zero for a stopped cluster, else the group's declared count.
pub open spec fn rolegroup_replicas(rg: RoleGroupRef, c: SupersetCluster) -> Option<i32> {
    if c.spec.stopped == Some(true) {
        Some(0)
    } else {
        match find_role_group(c.spec.nodes->Some_0.role_groups@, rg.role_group@) {
            Some(g) => match g.replicas {
                Some(n) => Some(n as i32),
                None => None,
            },
            None => None,
        }
    }
}

pub open spec fn labels_with_exporter(
    c: SupersetCluster,
    rg: RoleGroupRef,
) -> Seq<(Seq<char>, Seq<char>)> {
    recommended_labels_spec(c.name->Some_0@, c.spec.version->Some_0@, rg.role@, rg.role_group@).push(
        ("statsd-exporter"@, c.spec.statsd_exporter_version->Some_0@),
    )
}

/// The stateful set of a role group, or the error that prevents building it.
pub open spec fn rolegroup_statefulset(
    rg: RoleGroupRef,
    c: SupersetCluster,
    config: RoleGroupConfig,
    auth: Option<AuthenticationClass>,
) -> Result<StatefulSetView, Error> {
    if c.spec.nodes is None {
        Err(Error::NoNodeRole)
    } else if c.spec.version is None {
        Err(Error::NoSupersetVersion)
    } else if c.spec.statsd_exporter_version is None {
        Err(Error::NoStatsdExporterVersion)
    } else if !has_owner_metadata(c) {
        Err(Error::ObjectMissingMetadataForOwnerRef)
    } else {
        Ok(StatefulSetView {
            metadata: child_meta_spec(c, rolegroup_object_name(rg), labels_with_exporter(c, rg)),
            pod_management_policy: "Parallel"@,
            replicas: rolegroup_replicas(rg, c),
            selector: role_group_selector_labels_spec(c.name->Some_0@, rg.role@, rg.role_group@),
            service_name: rolegroup_object_name(rg),
            pod_labels: labels_with_exporter(c, rg),
            volumes: pod_volumes(rg, auth),
            fs_group: FS_GROUP,
            containers: seq![
                ContainerView {
                    name: "superset"@,
                    image: superset_image(c.spec.version->Some_0@),
                    env: main_container_env(config),
                    ports: seq![("http"@, APP_PORT as i32)],
                    volume_mounts: main_container_mounts(auth),
                },
                ContainerView {
                    name: "metrics"@,
                    image: statsd_exporter_image(c.spec.statsd_exporter_version->Some_0@),
                    env: seq![],
                    ports: seq![(METRICS_PORT_NAME@, METRICS_PORT)],
                    volume_mounts: seq![],
                },
            ],
        })
    }
}

pub open spec fn statefulset_result_view(r: Result<StatefulSet, Error>) -> Result<StatefulSetView, Error> {
    match r {
        Ok(s) => Ok(s@),
        Err(e) => Err(e),
    }
}

/// Moves the volumes of `from` to the end of `to`, each renamed under the
/// `authentication-config-` prefix.
fn append_prefixed_volumes(to: &mut Vec<Volume>, from: Vec<Volume>)
    ensures
        volumes_view(final(to)@) == volumes_view(old(to)@) + prefix_volumes(volumes_view(from@)),
{
    let ghost all = volumes_view(from@);
    let mut from = from;
    let ghost mut k: int = 0;
    while from.len() > 0
        invariant
            0 <= k <= all.len(),
            volumes_view(from@) == all.skip(k),
            volumes_view(to@) == volumes_view(old(to)@) + prefix_volumes(all.take(k)),
        decreases from@.len(),
    {
        let ghost before = volumes_view(to@);
        let ghost fb = from@;
        let v = from.remove(0);
        assert(volumes_view(fb)[0] == v@);
        assert(volumes_view(fb).len() == fb.len());
        assert(all.skip(k)[0] == all[k]);
        assert(all[k] == v@);
        assert(volumes_view(from@) =~= volumes_view(fb).subrange(1, fb.len() as int));
        assert(volumes_view(from@) =~= all.skip(k + 1));
        let name = String::from_str("authentication-config-").concat(v.name.as_str());
        push_volume(to, Volume { name, source: v.source });
        assert(all.take(k + 1) =~= all.take(k).push(v@));
        assert(prefix_volumes(all.take(k + 1)) =~= prefix_volumes(all.take(k)).push(
            VolumeView { name: prefixed_name(v@.name), source: v@.source },
        ));
        proof {
            k = k + 1;
        }
        assert(volumes_view(to@) =~= volumes_view(old(to)@) + prefix_volumes(all.take(k)));
    }
    assert(all.take(k) =~= all);
}

/// Moves the mounts of `from` to the end of `to`, each renamed under the
/// `authentication-config-` prefix.
fn append_prefixed_mounts(to: &mut Vec<VolumeMount>, from: Vec<VolumeMount>)
    ensures
        mounts_view(final(to)@) == mounts_view(old(to)@) + prefix_mounts(mounts_view(from@)),
{
    let ghost all = mounts_view(from@);
    let mut from = from;
    let ghost mut k: int = 0;
    while from.len() > 0
        invariant
            0 <= k <= all.len(),
            mounts_view(from@) == all.skip(k),
            mounts_view(to@) == mounts_view(old(to)@) + prefix_mounts(all.take(k)),
        decreases from@.len(),
    {
        let ghost fb = from@;
        let m = from.remove(0);
        assert(mounts_view(fb)[0] == m@);
        assert(mounts_view(fb).len() == fb.len());
        assert(all.skip(k)[0] == all[k]);
        assert(all[k] == m@);
        assert(mounts_view(from@) =~= mounts_view(fb).subrange(1, fb.len() as int));
        assert(mounts_view(from@) =~= all.skip(k + 1));
        let name = String::from_str("authentication-config-").concat(m.name.as_str());
        push_mount(to, VolumeMount { name, mount_path: m.mount_path, read_only: m.read_only });
        assert(all.take(k + 1) =~= all.take(k).push(m@));
        assert(prefix_mounts(all.take(k + 1)) =~= prefix_mounts(all.take(k)).push(
            VolumeMountView { name: prefixed_name(m@.name), mount_path: m@.mount_path, read_only: m@.read_only },
        ));
        proof {
            k = k + 1;
        }
        assert(mounts_view(to@) =~= mounts_view(old(to)@) + prefix_mounts(all.take(k)));
    }
    assert(all.take(k) =~= all);
}

fn main_container_env_vars(config: &RoleGroupConfig) -> (r: Vec<EnvVarFromSecret>)
    ensures
        r@.map_values(|e: EnvVarFromSecret| e@) == main_container_env(*config),
{
    let mut env: Vec<EnvVarFromSecret> = Vec::new();
    if let Some(group) = lookup_env_group(&config.groups) {
        if let Some(secret) = lookup_property(&group.properties, CREDENTIALS_SECRET_PROPERTY) {
            env.push(EnvVarFromSecret {
                name: String::from_str("SECRET_KEY"),
                secret_name: secret.clone(),
                secret_key: String::from_str("connections.secretKey"),
            });
            env.push(EnvVarFromSecret {
                name: String::from_str("SQLALCHEMY_DATABASE_URI"),
                secret_name: secret.clone(),
                secret_key: String::from_str("connections.sqlalchemyDatabaseUri"),
            });
        }
    }
    assert(env@.map_values(|e: EnvVarFromSecret| e@) =~= main_container_env(*config));
    env
}

/// The stateful set that runs a role group: the web server and a metrics
/// exporter, with the configuration and authentication volumes mounted.
pub fn build_server_rolegroup_statefulset(
    rolegroup_ref: &RoleGroupRef,
    superset: &SupersetCluster,
    node_config: &RoleGroupConfig,
    authentication_class: &Option<AuthenticationClass>,
) -> (r: Result<StatefulSet, Error>)
    ensures
        statefulset_result_view(r) == rolegroup_statefulset(
            *rolegroup_ref,
            *superset,
            *node_config,
            *authentication_class,
        ),
{
    let nodes = match &superset.spec.nodes {
        Some(n) => n,
        None => return Err(Error::NoNodeRole),
    };
    let rolegroup = lookup_role_group(&nodes.role_groups, &rolegroup_ref.role_group);
    let superset_version = superset.superset_version()?;
    let image = String::from_str("docker.stackable.tech/stackable/superset:").concat(superset_version).concat(
        "-stackable0",
    );
    let statsd_exporter_version = superset.statsd_exporter_version()?;
    let statsd_exporter_image = String::from_str("docker.stackable.tech/prom/statsd-exporter:").concat(
        statsd_exporter_version,
    );
    let owner = owner_reference(superset)?;
    let instance = match &superset.name {
        Some(n) => n.as_str(),
        None => return Err(Error::ObjectMissingMetadataForOwnerRef),
    };

    let env = main_container_env_vars(node_config);

    let object_name = rolegroup_ref.object_name();
    let mut volumes: Vec<Volume> = Vec::new();
    push_volume(&mut volumes, Volume { name: String::from_str("config"), source: VolumeSource::ConfigMap(object_name.clone()) });
    let mut volume_mounts: Vec<VolumeMount> = Vec::new();
    push_mount(
        &mut volume_mounts,
        VolumeMount { name: String::from_str("config"), mount_path: String::from_str("/app/pythonpath/"), read_only: false },
    );
    match authentication_class {
        None => {},
        Some(authentication_class) => {
            let mut auth_volumes: Vec<Volume> = Vec::new();
            let mut auth_mounts: Vec<VolumeMount> = Vec::new();
            authentication_class.append_volumes_and_volume_mounts(&mut auth_volumes, &mut auth_mounts);
            assert(volumes_view(auth_volumes@) =~= authentication_volumes(*authentication_class));
            assert(mounts_view(auth_mounts@) =~= authentication_mounts(*authentication_class));
            append_prefixed_volumes(&mut volumes, auth_volumes);
            append_prefixed_mounts(&mut volume_mounts, auth_mounts);
        },
    }
    assert(volumes_view(volumes@) =~= pod_volumes(*rolegroup_ref, *authentication_class));
    assert(mounts_view(volume_mounts@) =~= main_container_mounts(*authentication_class));

    let mut ports: Vec<ContainerPort> = Vec::new();
    ports.push(ContainerPort { name: String::from_str("http"), port: APP_PORT as i32 });
    let container = Container { name: String::from_str("superset"), image, env, ports, volume_mounts };
    let mut metrics_ports: Vec<ContainerPort> = Vec::new();
    metrics_ports.push(ContainerPort { name: String::from_str(METRICS_PORT_NAME), port: METRICS_PORT });
    let metrics_container = Container {
        name: String::from_str("metrics"),
        image: statsd_exporter_image,
        env: Vec::new(),
        ports: metrics_ports,
        volume_mounts: Vec::new(),
    };
    assert(container@.ports =~= seq![("http"@, APP_PORT as i32)]);
    assert(metrics_container@.ports =~= seq![(METRICS_PORT_NAME@, METRICS_PORT)]);
    assert(metrics_container@.env =~= seq![]);
    assert(metrics_container@.volume_mounts =~= seq![]);
    let mut containers: Vec<Container> = Vec::new();
    containers.push(container);
    containers.push(metrics_container);

    let replicas = if superset.spec.stopped.unwrap_or(false) {
        Some(0)
    } else {
        match rolegroup {
            Some(rg) => match rg.replicas {
                Some(n) => Some(n as i32),
                None => None,
            },
            None => None,
        }
    };

    let mut labels = recommended_labels(instance, superset_version, rolegroup_ref.role.as_str(), rolegroup_ref.role_group.as_str());
    push_label(&mut labels, "statsd-exporter", statsd_exporter_version);
    let mut pod_labels = recommended_labels(instance, superset_version, rolegroup_ref.role.as_str(), rolegroup_ref.role_group.as_str());
    push_label(&mut pod_labels, "statsd-exporter", statsd_exporter_version);
    let selector = role_group_selector_labels(instance, rolegroup_ref.role.as_str(), rolegroup_ref.role_group.as_str());

    let metadata = child_meta(superset, object_name.clone(), owner, labels);
    let r = StatefulSet {
        metadata,
        pod_management_policy: String::from_str("Parallel"),
        replicas,
        selector,
        service_name: object_name,
        pod_labels,
        volumes,
        fs_group: FS_GROUP,
        containers,
    };
    assert(r@.containers =~= rolegroup_statefulset(*rolegroup_ref, *superset, *node_config, *authentication_class)->Ok_0.containers);
    Ok(r)
}

pub open spec fn superset_port() -> ServicePortView {
    ServicePortView { name: "superset"@, port: APP_PORT as i32, protocol: "TCP"@ }
}

pub open spec fn metrics_port() -> ServicePortView {
    ServicePortView { name: METRICS_PORT_NAME@, port: METRICS_PORT, protocol: "TCP"@ }
}

fn service_port(name: &str, port: i32) -> (r: ServicePort)
    ensures
        r@ == (ServicePortView { name: name@, port, protocol: "TCP"@ }),
{
    ServicePort { name: String::from_str(name), port, protocol: String::from_str("TCP") }
}

/// The role-wide service that clients outside the cluster use, or the error
/// that prevents building it.
pub open spec fn node_role_service(c: SupersetCluster) -> Result<ServiceView, Error> {
    if c.name is None {
        Err(Error::GlobalServiceNameNotFound)
    } else if !has_owner_metadata(c) {
        Err(Error::ObjectMissingMetadataForOwnerRef)
    } else if c.spec.version is None {
        Err(Error::NoSupersetVersion)
    } else if c.spec.statsd_exporter_version is None {
        Err(Error::NoStatsdExporterVersion)
    } else {
        Ok(ServiceView {
            metadata: child_meta_spec(
                c,
                c.name->Some_0@ + "-external"@,
                recommended_labels_spec(c.name->Some_0@, c.spec.version->Some_0@, NODE_ROLE@, "global"@).push(
                    ("statsd-exporter"@, c.spec.statsd_exporter_version->Some_0@),
                ),
            ),
            cluster_ip: None,
            ports: seq![superset_port()],
            selector: role_selector_labels_spec(c.name->Some_0@, NODE_ROLE@),
            service_type: Some("NodePort"@),
            publish_not_ready_addresses: None,
        })
    }
}

pub open spec fn service_result_view(r: Result<Service, Error>) -> Result<ServiceView, Error> {
    match r {
        Ok(s) => Ok(s@),
        Err(e) => Err(e),
    }
}

/// The role-wide service: the primary endpoint for clients that do not
/// balance load themselves, including those outside the cluster.
pub fn build_node_role_service(superset: &SupersetCluster) -> (r: Result<Service, Error>)
    ensures
        service_result_view(r) == node_role_service(*superset),
{
    let role_svc_name = match superset.node_role_service_name() {
        Some(n) => n,
        None => return Err(Error::GlobalServiceNameNotFound),
    };
    let owner = owner_reference(superset)?;
    let superset_version = superset.superset_version()?;
    let statsd_exporter_version = superset.statsd_exporter_version()?;
    let mut labels = recommended_labels(role_svc_name.as_str(), superset_version, NODE_ROLE, "global");
    push_label(&mut labels, "statsd-exporter", statsd_exporter_version);
    let selector = role_selector_labels(role_svc_name.as_str(), NODE_ROLE);
    let name = role_svc_name.concat("-external");
    let metadata = child_meta(superset, name, owner, labels);
    let mut ports: Vec<ServicePort> = Vec::new();
    ports.push(service_port("superset", APP_PORT as i32));
    assert(service_ports_view(ports@) =~= seq![superset_port()]);
    Ok(Service {
        metadata,
        cluster_ip: None,
        ports,
        selector,
        service_type: Some(String::from_str("NodePort")),
        publish_not_ready_addresses: None,
    })
}

/// The headless service of a role group, or the error that prevents building it.
pub open spec fn rolegroup_service(rg: RoleGroupRef, c: SupersetCluster) -> Result<ServiceView, Error> {
    if !has_owner_metadata(c) {
        Err(Error::ObjectMissingMetadataForOwnerRef)
    } else if c.spec.version is None {
        Err(Error::NoSupersetVersion)
    } else if c.spec.statsd_exporter_version is None {
        Err(Error::NoStatsdExporterVersion)
    } else {
        Ok(ServiceView {
            metadata: child_meta_spec(
                c,
                rolegroup_object_name(rg),
                labels_with_exporter(c, rg).push(("prometheus.io/scrape"@, "true"@)),
            ),
            cluster_ip: Some("None"@),
            ports: seq![superset_port(), metrics_port()],
            selector: role_group_selector_labels_spec(c.name->Some_0@, rg.role@, rg.role_group@),
            service_type: None,
            publish_not_ready_addresses: Some(true),
        })
    }
}

/// The headless service of a role group, for traffic between peers and for
/// clients that balance load themselves. It publishes addresses of pods that
/// are not ready yet, so that peers find each other while starting.
pub fn build_node_rolegroup_service(rolegroup: &RoleGroupRef, superset: &SupersetCluster) -> (r: Result<
    Service,
    Error,
>)
    ensures
        service_result_view(r) == rolegroup_service(*rolegroup, *superset),
{
    let owner = owner_reference(superset)?;
    let superset_version = superset.superset_version()?;
    let statsd_exporter_version = superset.statsd_exporter_version()?;
    let instance = match &superset.name {
        Some(n) => n.as_str(),
        None => return Err(Error::ObjectMissingMetadataForOwnerRef),
    };
    let mut labels = recommended_labels(instance, superset_version, rolegroup.role.as_str(), rolegroup.role_group.as_str());
    push_label(&mut labels, "statsd-exporter", statsd_exporter_version);
    push_label(&mut labels, "prometheus.io/scrape", "true");
    let selector = role_group_selector_labels(instance, rolegroup.role.as_str(), rolegroup.role_group.as_str());
    let metadata = child_meta(superset, rolegroup.object_name(), owner, labels);
    let mut ports: Vec<ServicePort> = Vec::new();
    ports.push(service_port("superset", APP_PORT as i32));
    ports.push(service_port(METRICS_PORT_NAME, METRICS_PORT));
    assert(service_ports_view(ports@) =~= seq![superset_port(), metrics_port()]);
    Ok(Service {
        metadata,
        cluster_ip: Some(String::from_str("None")),
        ports,
        selector,
        service_type: None,
        publish_not_ready_addresses: Some(true),
    })
}

/// The config map of a role group, or the error that prevents building it.
pub open spec fn rolegroup_config_map(
    rg: RoleGroupRef,
    c: SupersetCluster,
    config: RoleGroupConfig,
    auth: Option<AuthenticationClass>,
) -> Result<ConfigMapView, Error> {
    if !has_owner_metadata(c) {
        Err(Error::ObjectMissingMetadataForOwnerRef)
    } else if c.spec.version is None {
        Err(Error::NoSupersetVersion)
    } else {
        Ok(ConfigMapView {
            metadata: child_meta_spec(
                c,
                rolegroup_object_name(rg),
                recommended_labels_spec(c.name->Some_0@, c.spec.version->Some_0@, rg.role@, rg.role_group@),
            ),
            data: seq![(SUPERSET_CONFIG@, superset_config(auth))],
        })
    }
}

pub open spec fn config_map_result_view(r: Result<ConfigMap, Error>) -> Result<ConfigMapView, Error> {
    match r {
        Ok(m) => Ok(m@),
        Err(e) => Err(e),
    }
}

/// The config map of a role group: exactly one file, the configuration
/// computed from the authentication class.
pub fn build_rolegroup_config_map(
    rolegroup: &RoleGroupRef,
    superset: &SupersetCluster,
    rolegroup_config: &RoleGroupConfig,
    authentication_class: &Option<AuthenticationClass>,
) -> (r: Result<ConfigMap, Error>)
    ensures
        config_map_result_view(r) == rolegroup_config_map(
            *rolegroup,
            *superset,
            *rolegroup_config,
            *authentication_class,
        ),
{
    let mut data: Vec<ConfigMapEntry> = Vec::new();
    let content = compute_superset_config(authentication_class);
    data.push(ConfigMapEntry { file_name: String::from_str(SUPERSET_CONFIG), content });
    let owner = owner_reference(superset)?;
    let superset_version = superset.superset_version()?;
    let instance = match &superset.name {
        Some(n) => n.as_str(),
        None => return Err(Error::ObjectMissingMetadataForOwnerRef),
    };
    let labels = recommended_labels(instance, superset_version, rolegroup.role.as_str(), rolegroup.role_group.as_str());
    let metadata = child_meta(superset, rolegroup.object_name(), owner, labels);
    let r = ConfigMap { metadata, data };
    assert(r@.data =~= rolegroup_config_map(*rolegroup, *superset, *rolegroup_config, *authentication_class)->Ok_0.data);
    Ok(r)
}

/// Building the resources of a role group twice from the same inputs gives the
/// same manifests: every build result is fixed by its inputs, with no hidden
/// randomness or timestamps.
pub proof fn lemma_builds_are_idempotent(
    rg: RoleGroupRef,
    c: SupersetCluster,
    config: RoleGroupConfig,
    auth: Option<AuthenticationClass>,
    role_service: (Result<Service, Error>, Result<Service, Error>),
    service: (Result<Service, Error>, Result<Service, Error>),
    config_map: (Result<ConfigMap, Error>, Result<ConfigMap, Error>),
    statefulset: (Result<StatefulSet, Error>, Result<StatefulSet, Error>),
)
    requires
        service_result_view(role_service.0) == node_role_service(c),
        service_result_view(role_service.1) == node_role_service(c),
        service_result_view(service.0) == rolegroup_service(rg, c),
        service_result_view(service.1) == rolegroup_service(rg, c),
        config_map_result_view(config_map.0) == rolegroup_config_map(rg, c, config, auth),
        config_map_result_view(config_map.1) == rolegroup_config_map(rg, c, config, auth),
        statefulset_result_view(statefulset.0) == rolegroup_statefulset(rg, c, config, auth),
        statefulset_result_view(statefulset.1) == rolegroup_statefulset(rg, c, config, auth),
    ensures
        service_result_view(role_service.0) == service_result_view(role_service.1),
        service_result_view(service.0) == service_result_view(service.1),
        config_map_result_view(config_map.0) == config_map_result_view(config_map.1),
        statefulset_result_view(statefulset.0) == statefulset_result_view(statefulset.1),
{
}

/// A stopped cluster runs no replica: whenever the stateful set of a role group
/// can be built, its replica count is zero, whatever the group declares.
pub proof fn lemma_stopped_cluster_has_no_replicas(
    rg: RoleGroupRef,
    c: SupersetCluster,
    config: RoleGroupConfig,
    auth: Option<AuthenticationClass>,
)
    requires
        c.spec.stopped == Some(true),
    ensures
        rolegroup_statefulset(rg, c, config, auth) matches Ok(s) ==> s.replicas == Some(0i32),
{
}

/// Without an authentication class, the configuration file is the base one,
/// and the pod has the configuration volume and mount alone.
pub proof fn lemma_no_authentication_gives_base_resources(rg: RoleGroupRef, c: SupersetCluster, config: RoleGroupConfig)
    ensures
        rolegroup_config_map(rg, c, config, None) matches Ok(m) ==> m.data == seq![
            (SUPERSET_CONFIG@, crate::config::base_config()),
        ],
        rolegroup_statefulset(rg, c, config, None) matches Ok(s) ==> (s.volumes == seq![config_volume(rg)]
            && s.containers[0].volume_mounts == seq![config_mount()]),
{
    assert(seq![config_volume(rg)] + Seq::<VolumeView>::empty() =~= seq![config_volume(rg)]);
    assert(seq![config_mount()] + Seq::<VolumeMountView>::empty() =~= seq![config_mount()]);
}

} // verus!
