use superset_operator::authentication::{
    AuthenticationClass, AuthenticationClassCaCert, AuthenticationClassLdap, AuthenticationClassLdapBindCredentials,
    AuthenticationClassProtocol, AuthenticationClassSecretClassScope, AuthenticationClassSpec,
    AuthenticationClassTls, AuthenticationClassTlsServerVerification,
};
use superset_operator::cluster::{
    Error, Property, PropertyGroup, PropertyNameKind, Role, RoleGroup, RoleGroupConfig, RoleGroupRef,
    SupersetCluster, SupersetClusterSpec,
};
use superset_operator::config::{compute_superset_config, decimal_string};
use superset_operator::controller::{
    build_node_role_service, build_node_rolegroup_service, build_rolegroup_config_map,
    build_server_rolegroup_statefulset,
};
use superset_operator::volume::{VolumeMount, VolumeSource};

fn cluster(replicas: Option<u16>, stopped: Option<bool>) -> SupersetCluster {
    SupersetCluster {
        name: Some("simple".to_string()),
        namespace: Some("default".to_string()),
        uid: Some("uid-1".to_string()),
        spec: SupersetClusterSpec {
            version: Some("1.4.1".to_string()),
            statsd_exporter_version: Some("v0.22.4".to_string()),
            stopped,
            nodes: Some(Role { role_groups: vec![RoleGroup { name: "default".to_string(), replicas }] }),
            authentication_config: None,
        },
    }
}

fn rolegroup() -> RoleGroupRef {
    RoleGroupRef { cluster_name: "simple".to_string(), role: "node".to_string(), role_group: "default".to_string() }
}

fn config_with_file() -> RoleGroupConfig {
    RoleGroupConfig {
        groups: vec![
            PropertyGroup {
                kind: PropertyNameKind::Env,
                properties: vec![Property { key: "credentialsSecret".to_string(), value: "simple-creds".to_string() }],
            },
            PropertyGroup { kind: PropertyNameKind::File("superset_config.py".to_string()), properties: vec![] },
        ],
    }
}

fn ldap_class() -> AuthenticationClass {
    AuthenticationClass {
        name: "ldap".to_string(),
        spec: AuthenticationClassSpec {
            protocol: AuthenticationClassProtocol::Ldap(AuthenticationClassLdap {
                hostname: "ldap.example.com".to_string(),
                port: 389,
                search_base: "ou=users,dc=example,dc=org".to_string(),
                uid_field: "uid".to_string(),
                group_field: "memberof".to_string(),
                firstname_field: "givenName".to_string(),
                lastname_field: "sn".to_string(),
                email_field: "mail".to_string(),
                bind_credentials: Some(AuthenticationClassLdapBindCredentials {
                    secret_class: "ldap-creds".to_string(),
                    scope: Some(AuthenticationClassSecretClassScope { pod: true, node: false, services: vec![] }),
                }),
                tls: Some(AuthenticationClassTls::ServerVerification(AuthenticationClassTlsServerVerification {
                    server_ca_cert: AuthenticationClassCaCert::Secret("ldap-ca".to_string()),
                })),
            }),
        },
    }
}

fn label<'a>(labels: &'a [superset_operator::meta::Label], key: &str) -> Option<&'a str> {
    labels.iter().find(|l| l.key == key).map(|l| l.value.as_str())
}

#[test]
fn decimal_string_of_ports() {
    assert_eq!(decimal_string(0), "0");
    assert_eq!(decimal_string(389), "389");
    assert_eq!(decimal_string(65535), "65535");
}

#[test]
fn error_categories_name_the_variant() {
    assert_eq!(Error::MultipleAuthenticationMethods.category(), "MultipleAuthenticationMethods");
    assert_eq!(Error::ApplyRoleGroupService { rolegroup: rolegroup() }.category(), "ApplyRoleGroupService");
    assert_eq!(Error::NoNodeRole.category(), "NoNodeRole");
}

#[test]
fn role_service_is_external_node_port() {
    let svc = build_node_role_service(&cluster(Some(1), None)).unwrap();
    assert_eq!(svc.metadata.name, "simple-external");
    assert_eq!(svc.metadata.namespace.as_deref(), Some("default"));
    assert_eq!(svc.metadata.owner_reference.uid, "uid-1");
    assert!(svc.metadata.owner_reference.controller);
    assert_eq!(svc.service_type.as_deref(), Some("NodePort"));
    assert_eq!(svc.ports.len(), 1);
    assert_eq!(svc.ports[0].port, 8088);
    assert_eq!(svc.ports[0].name, "superset");
    assert_eq!(label(&svc.selector, "app.kubernetes.io/component"), Some("node"));
    assert_eq!(label(&svc.selector, "app.kubernetes.io/role-group"), None);
    assert_eq!(label(&svc.metadata.labels, "app.kubernetes.io/role-group"), Some("global"));
    assert_eq!(label(&svc.metadata.labels, "statsd-exporter"), Some("v0.22.4"));
}

#[test]
fn role_service_errors() {
    let mut c = cluster(Some(1), None);
    c.name = None;
    assert_eq!(build_node_role_service(&c).unwrap_err(), Error::GlobalServiceNameNotFound);
    let mut c = cluster(Some(1), None);
    c.uid = None;
    assert_eq!(build_node_role_service(&c).unwrap_err(), Error::ObjectMissingMetadataForOwnerRef);
    let mut c = cluster(Some(1), None);
    c.spec.version = None;
    assert_eq!(build_node_role_service(&c).unwrap_err(), Error::NoSupersetVersion);
    let mut c = cluster(Some(1), None);
    c.spec.statsd_exporter_version = None;
    assert_eq!(build_node_role_service(&c).unwrap_err(), Error::NoStatsdExporterVersion);
}

#[test]
fn rolegroup_service_is_headless_with_metrics_port() {
    let svc = build_node_rolegroup_service(&rolegroup(), &cluster(Some(1), None)).unwrap();
    assert_eq!(svc.metadata.name, "simple-node-default");
    assert_eq!(svc.cluster_ip.as_deref(), Some("None"));
    assert_eq!(svc.publish_not_ready_addresses, Some(true));
    assert_eq!(svc.ports.iter().map(|p| p.port).collect::<Vec<_>>(), vec![8088, 9102]);
    assert_eq!(label(&svc.metadata.labels, "prometheus.io/scrape"), Some("true"));
    assert_eq!(label(&svc.selector, "app.kubernetes.io/role-group"), Some("default"));
}

#[test]
fn config_map_without_authentication_has_base_config() {
    let cm = build_rolegroup_config_map(&rolegroup(), &cluster(Some(1), None), &config_with_file(), &None).unwrap();
    assert_eq!(cm.metadata.name, "simple-node-default");
    assert_eq!(cm.data.len(), 1);
    assert_eq!(cm.data[0].file_name, "superset_config.py");
    assert!(cm.data[0].content.starts_with("import os\n"));
    assert!(!cm.data[0].content.contains("AUTH_"));
    assert_eq!(cm.data[0].content, compute_superset_config(&None));
}

#[test]
fn config_map_always_holds_the_configuration_file() {
    let config = RoleGroupConfig { groups: vec![PropertyGroup { kind: PropertyNameKind::Env, properties: vec![] }] };
    let cm = build_rolegroup_config_map(&rolegroup(), &cluster(Some(1), None), &config, &None).unwrap();
    assert_eq!(cm.data.len(), 1);
    assert_eq!(cm.data[0].file_name, "superset_config.py");
    assert_eq!(cm.data[0].content, compute_superset_config(&None));
    let empty = RoleGroupConfig { groups: vec![] };
    let auth = Some(ldap_class());
    let cm = build_rolegroup_config_map(&rolegroup(), &cluster(Some(1), None), &empty, &auth).unwrap();
    assert_eq!(cm.data.len(), 1);
    assert_eq!(cm.data[0].content, compute_superset_config(&auth));
}

#[test]
fn config_map_errors() {
    let mut c = cluster(Some(1), None);
    c.uid = None;
    assert_eq!(
        build_rolegroup_config_map(&rolegroup(), &c, &config_with_file(), &None).unwrap_err(),
        Error::ObjectMissingMetadataForOwnerRef
    );
    let mut c = cluster(Some(1), None);
    c.spec.version = None;
    assert_eq!(
        build_rolegroup_config_map(&rolegroup(), &c, &config_with_file(), &None).unwrap_err(),
        Error::NoSupersetVersion
    );
}

#[test]
fn ldap_config_has_authentication_section() {
    let text = compute_superset_config(&Some(ldap_class()));
    assert!(text.starts_with(&compute_superset_config(&None)));
    assert!(text.contains("AUTH_TYPE = AUTH_LDAP\n"));
    assert!(text.contains("AUTH_LDAP_SERVER = \"ldaps://ldap.example.com:389\"\n"));
    assert!(text.contains("AUTH_LDAP_SEARCH = \"ou=users,dc=example,dc=org\"\n"));
    assert!(text.contains("AUTH_LDAP_UID_FIELD = \"uid\"\n"));
    assert!(text.contains("open(\"/secrets/ldap-bind-credentials/user\").read().strip()"));
    assert!(text.contains("AUTH_LDAP_TLS_CACERTFILE = \"/certificates/ldap-tls-certificate/ca.crt\"\n"));
}

#[test]
fn stopped_cluster_has_zero_replicas() {
    let sts = build_server_rolegroup_statefulset(&rolegroup(), &cluster(Some(3), Some(true)), &config_with_file(), &None)
        .unwrap();
    assert_eq!(sts.replicas, Some(0));
}

#[test]
fn running_cluster_has_declared_replicas() {
    let sts =
        build_server_rolegroup_statefulset(&rolegroup(), &cluster(Some(3), Some(false)), &config_with_file(), &None)
            .unwrap();
    assert_eq!(sts.replicas, Some(3));
    let sts = build_server_rolegroup_statefulset(&rolegroup(), &cluster(Some(3), None), &config_with_file(), &None)
        .unwrap();
    assert_eq!(sts.replicas, Some(3));
    let mut other = rolegroup();
    other.role_group = "missing".to_string();
    let sts = build_server_rolegroup_statefulset(&other, &cluster(Some(3), None), &config_with_file(), &None).unwrap();
    assert_eq!(sts.replicas, None);
}

#[test]
fn statefulset_without_authentication_has_only_config_volume() {
    let sts = build_server_rolegroup_statefulset(&rolegroup(), &cluster(Some(1), None), &config_with_file(), &None)
        .unwrap();
    assert_eq!(sts.volumes.len(), 1);
    assert_eq!(sts.volumes[0].name, "config");
    assert_eq!(sts.volumes[0].source, VolumeSource::ConfigMap("simple-node-default".to_string()));
    assert_eq!(
        sts.containers[0].volume_mounts,
        vec![VolumeMount { name: "config".to_string(), mount_path: "/app/pythonpath/".to_string(), read_only: false }]
    );
    assert!(!sts.volumes.iter().any(|v| v.name.starts_with("authentication-config-")));
}

#[test]
fn statefulset_shape() {
    let sts = build_server_rolegroup_statefulset(&rolegroup(), &cluster(Some(1), None), &config_with_file(), &None)
        .unwrap();
    assert_eq!(sts.metadata.name, "simple-node-default");
    assert_eq!(sts.service_name, "simple-node-default");
    assert_eq!(sts.pod_management_policy, "Parallel");
    assert_eq!(sts.fs_group, 1000);
    assert_eq!(sts.containers.len(), 2);
    assert_eq!(sts.containers[0].image, "docker.stackable.tech/stackable/superset:1.4.1-stackable0");
    assert_eq!(sts.containers[1].image, "docker.stackable.tech/prom/statsd-exporter:v0.22.4");
    assert_eq!(sts.containers[1].ports[0].port, 9102);
    let env = &sts.containers[0].env;
    assert_eq!(env.len(), 2);
    assert_eq!(env[0].name, "SECRET_KEY");
    assert_eq!(env[0].secret_name, "simple-creds");
    assert_eq!(env[0].secret_key, "connections.secretKey");
    assert_eq!(env[1].name, "SQLALCHEMY_DATABASE_URI");
    assert_eq!(env[1].secret_key, "connections.sqlalchemyDatabaseUri");
    for l in &sts.selector {
        assert_eq!(label(&sts.pod_labels, &l.key), Some(l.value.as_str()));
    }
}

#[test]
fn statefulset_mounts_authentication_volumes_under_prefix() {
    let sts = build_server_rolegroup_statefulset(
        &rolegroup(),
        &cluster(Some(1), None),
        &config_with_file(),
        &Some(ldap_class()),
    )
    .unwrap();
    let names: Vec<&str> = sts.volumes.iter().map(|v| v.name.as_str()).collect();
    assert_eq!(
        names,
        vec!["config", "authentication-config-ldap-bind-credentials", "authentication-config-ldap-tls-certificate"]
    );
    let mounts = &sts.containers[0].volume_mounts;
    assert_eq!(mounts.len(), 3);
    assert_eq!(mounts[1].name, "authentication-config-ldap-bind-credentials");
    assert_eq!(mounts[1].mount_path, "/secrets/ldap-bind-credentials");
    assert!(mounts[1].read_only);
}

#[test]
fn statefulset_errors() {
    let mut c = cluster(Some(1), None);
    c.spec.nodes = None;
    assert_eq!(
        build_server_rolegroup_statefulset(&rolegroup(), &c, &config_with_file(), &None).unwrap_err(),
        Error::NoNodeRole
    );
    let mut c = cluster(Some(1), None);
    c.spec.statsd_exporter_version = None;
    assert_eq!(
        build_server_rolegroup_statefulset(&rolegroup(), &c, &config_with_file(), &None).unwrap_err(),
        Error::NoStatsdExporterVersion
    );
    let mut c = cluster(Some(1), None);
    c.uid = None;
    assert_eq!(
        build_server_rolegroup_statefulset(&rolegroup(), &c, &config_with_file(), &None).unwrap_err(),
        Error::ObjectMissingMetadataForOwnerRef
    );
}

#[test]
fn building_twice_gives_identical_manifests() {
    let c = cluster(Some(2), None);
    let auth = Some(ldap_class());
    let a = build_server_rolegroup_statefulset(&rolegroup(), &c, &config_with_file(), &auth).unwrap();
    let b = build_server_rolegroup_statefulset(&rolegroup(), &c, &config_with_file(), &auth).unwrap();
    assert_eq!(a, b);
    let a = build_rolegroup_config_map(&rolegroup(), &c, &config_with_file(), &auth).unwrap();
    let b = build_rolegroup_config_map(&rolegroup(), &c, &config_with_file(), &auth).unwrap();
    assert_eq!(a, b);
    assert_eq!(build_node_role_service(&c), build_node_role_service(&c));
    assert_eq!(build_node_rolegroup_service(&rolegroup(), &c), build_node_rolegroup_service(&rolegroup(), &c));
}
