use superset_operator::authentication::{
    AuthenticationClass, AuthenticationClassLdap, AuthenticationClassProtocol, AuthenticationClassSpec,
};
use superset_operator::cluster::{
    Error, PropertyGroup, PropertyNameKind, Role, RoleGroup, RoleGroupConfig, SupersetCluster,
    SupersetClusterAuthenticationConfig, SupersetClusterAuthenticationConfigMethod, SupersetClusterSpec,
};
use superset_operator::reconcile::{
    error_policy, reconcile_step, ReconcilerAction, resolve_authentication_class, ReconcileAction, ReconcileEvent, ReconcilePhase, RoleGroupEntry,
};

fn cluster(methods: &[&str]) -> SupersetCluster {
    SupersetCluster {
        name: Some("simple".to_string()),
        namespace: None,
        uid: Some("uid-1".to_string()),
        spec: SupersetClusterSpec {
            version: Some("1.4.1".to_string()),
            statsd_exporter_version: Some("v0.22.4".to_string()),
            stopped: None,
            nodes: Some(Role { role_groups: vec![RoleGroup { name: "default".to_string(), replicas: Some(1) }] }),
            authentication_config: if methods.is_empty() {
                None
            } else {
                Some(SupersetClusterAuthenticationConfig {
                    methods: methods
                        .iter()
                        .map(|m| SupersetClusterAuthenticationConfigMethod { authentication_class: m.to_string() })
                        .collect(),
                })
            },
        },
    }
}

fn groups() -> Vec<RoleGroupEntry> {
    vec![RoleGroupEntry {
        name: "default".to_string(),
        config: RoleGroupConfig {
            groups: vec![PropertyGroup {
                kind: PropertyNameKind::File("superset_config.py".to_string()),
                properties: vec![],
            }],
        },
    }]
}

fn ldap(name: &str) -> AuthenticationClass {
    AuthenticationClass {
        name: name.to_string(),
        spec: AuthenticationClassSpec {
            protocol: AuthenticationClassProtocol::Ldap(AuthenticationClassLdap {
                hostname: "ldap.example.com".to_string(),
                port: 389,
                search_base: String::new(),
                uid_field: "uid".to_string(),
                group_field: "memberof".to_string(),
                firstname_field: "givenName".to_string(),
                lastname_field: "sn".to_string(),
                email_field: "mail".to_string(),
                bind_credentials: None,
                tls: None,
            }),
        },
    }
}

fn kind(a: &ReconcileAction) -> String {
    match a {
        ReconcileAction::ApplyService(s) => format!("service {}", s.metadata.name),
        ReconcileAction::ApplyConfigMap(m) => format!("configmap {}", m.metadata.name),
        ReconcileAction::ApplyStatefulSet(s) => format!("statefulset {}", s.metadata.name),
        ReconcileAction::FetchAuthenticationClass(n) => format!("fetch {n}"),
        ReconcileAction::Done => "done".to_string(),
        ReconcileAction::Abort(e) => format!("abort {}", e.category()),
    }
}

/// Runs a pass in which every action succeeds, answering fetches with `fetched`.
fn run(c: &SupersetCluster, fetched: Option<AuthenticationClass>) -> Vec<String> {
    let groups = groups();
    let mut trace = Vec::new();
    let (mut phase, mut action) = reconcile_step(c, &groups, ReconcilePhase::Start, ReconcileEvent::Applied);
    loop {
        trace.push(kind(&action));
        let event = match &action {
            ReconcileAction::Done | ReconcileAction::Abort(_) => break,
            ReconcileAction::FetchAuthenticationClass(_) => ReconcileEvent::Fetched(fetched.clone().unwrap()),
            _ => ReconcileEvent::Applied,
        };
        let next = reconcile_step(c, &groups, phase, event);
        phase = next.0;
        action = next.1;
    }
    trace
}

#[test]
fn resolves_zero_one_or_fails_on_two_classes() {
    assert_eq!(resolve_authentication_class(&cluster(&[])), Ok(None));
    assert_eq!(resolve_authentication_class(&cluster(&["ldap"])), Ok(Some("ldap".to_string())));
    assert_eq!(resolve_authentication_class(&cluster(&["ldap", "ldap"])), Ok(Some("ldap".to_string())));
    assert_eq!(
        resolve_authentication_class(&cluster(&["ldap", "other"])),
        Err(Error::MultipleAuthenticationMethods)
    );
}

#[test]
fn pass_without_authentication_applies_in_order() {
    assert_eq!(
        run(&cluster(&[]), None),
        vec![
            "service simple-external",
            "service simple-node-default",
            "configmap simple-node-default",
            "statefulset simple-node-default",
            "done",
        ]
    );
}

#[test]
fn pass_with_one_class_fetches_it_first() {
    assert_eq!(
        run(&cluster(&["ldap"]), Some(ldap("ldap"))),
        vec![
            "service simple-external",
            "fetch ldap",
            "service simple-node-default",
            "configmap simple-node-default",
            "statefulset simple-node-default",
            "done",
        ]
    );
}

#[test]
fn pass_with_two_classes_applies_no_rolegroup_resource() {
    assert_eq!(
        run(&cluster(&["ldap", "other"]), None),
        vec!["service simple-external", "abort MultipleAuthenticationMethods"]
    );
}

#[test]
fn failures_end_the_pass_with_context() {
    let c = cluster(&["ldap"]);
    let groups = groups();
    let (phase, _) = reconcile_step(&c, &groups, ReconcilePhase::RoleServiceSent, ReconcileEvent::Applied);
    let (phase, action) = reconcile_step(&c, &groups, phase, ReconcileEvent::Failed);
    assert_eq!(phase, ReconcilePhase::Finished);
    assert_eq!(
        action,
        ReconcileAction::Abort(Error::AuthenticationClassRetrieval { authentication_class: "ldap".to_string() })
    );
    let (_, action) = reconcile_step(&c, &groups, ReconcilePhase::RoleServiceSent, ReconcileEvent::Failed);
    assert_eq!(action, ReconcileAction::Abort(Error::ApplyRoleService));
    let (phase, _) = reconcile_step(&cluster(&[]), &groups, ReconcilePhase::RoleServiceSent, ReconcileEvent::Applied);
    let (_, action) = reconcile_step(&c, &groups, phase, ReconcileEvent::Failed);
    assert_eq!(kind(&action), "abort ApplyRoleGroupService");
}

#[test]
fn missing_version_aborts_before_any_apply() {
    let mut c = cluster(&[]);
    c.spec.version = None;
    assert_eq!(run(&c, None), vec!["abort NoSupersetVersion"]);
}

#[test]
fn every_error_is_retried_after_five_seconds() {
    for e in [Error::NoNodeRole, Error::MultipleAuthenticationMethods, Error::ApplyRoleService] {
        assert_eq!(error_policy(&e), ReconcilerAction { requeue_after_secs: Some(5) });
    }
}

#[test]
fn missing_node_role_aborts_before_any_apply() {
    let mut c = cluster(&[]);
    c.spec.nodes = None;
    assert_eq!(run(&c, None), vec!["abort NoNodeRole"]);
}
