use superset_operator::authentication::{
    default_email_field, default_firstname_field, default_group_field, default_lastname_field, default_port,
    default_uid_field, AuthenticationClass, AuthenticationClassCaCert, AuthenticationClassLdap,
    AuthenticationClassLdapBindCredentials, AuthenticationClassProtocol, AuthenticationClassSecretClassScope,
    AuthenticationClassSpec, AuthenticationClassTls, AuthenticationClassTlsServerVerification,
};
use superset_operator::volume::{SecretOperatorVolumeScope, Volume, VolumeMount, VolumeSource};

fn ldap(
    bind_credentials: Option<AuthenticationClassLdapBindCredentials>,
    tls: Option<AuthenticationClassTls>,
) -> AuthenticationClass {
    AuthenticationClass {
        name: "ldap".to_string(),
        spec: AuthenticationClassSpec {
            protocol: AuthenticationClassProtocol::Ldap(AuthenticationClassLdap {
                hostname: "ldap.example.com".to_string(),
                port: default_port(),
                search_base: String::new(),
                uid_field: default_uid_field(),
                group_field: default_group_field(),
                firstname_field: default_firstname_field(),
                lastname_field: default_lastname_field(),
                email_field: default_email_field(),
                bind_credentials,
                tls,
            }),
        },
    }
}

fn bind(scope: Option<AuthenticationClassSecretClassScope>) -> Option<AuthenticationClassLdapBindCredentials> {
    Some(AuthenticationClassLdapBindCredentials { secret_class: "ldap-creds".to_string(), scope })
}

fn pod_scope() -> Option<AuthenticationClassSecretClassScope> {
    Some(AuthenticationClassSecretClassScope { pod: true, node: false, services: vec![] })
}

fn verify_with(ca: AuthenticationClassCaCert) -> Option<AuthenticationClassTls> {
    Some(AuthenticationClassTls::ServerVerification(AuthenticationClassTlsServerVerification { server_ca_cert: ca }))
}

fn project(ac: &AuthenticationClass) -> (Vec<Volume>, Vec<VolumeMount>) {
    let mut volumes = Vec::new();
    let mut mounts = Vec::new();
    ac.append_volumes_and_volume_mounts(&mut volumes, &mut mounts);
    (volumes, mounts)
}

fn mount(name: &str, path: &str) -> VolumeMount {
    VolumeMount { name: name.to_string(), mount_path: path.to_string(), read_only: true }
}

#[test]
fn defaults_are_documented_values() {
    assert_eq!(default_port(), 389);
    assert_eq!(default_uid_field(), "uid");
    assert_eq!(default_group_field(), "memberof");
    assert_eq!(default_firstname_field(), "givenName");
    assert_eq!(default_lastname_field(), "sn");
    assert_eq!(default_email_field(), "mail");
}

#[test]
fn bind_credentials_and_secret_ca_cert_give_two_volumes() {
    let ac = ldap(bind(pod_scope()), verify_with(AuthenticationClassCaCert::Secret("ldap-ca".to_string())));
    let (volumes, mounts) = project(&ac);
    assert_eq!(volumes.len(), 2);
    assert_eq!(volumes[0].name, "ldap-bind-credentials");
    match &volumes[0].source {
        VolumeSource::SecretOperator(s) => {
            assert_eq!(s.secret_class, "ldap-creds");
            assert_eq!(s.scopes, vec![SecretOperatorVolumeScope::Pod]);
        }
        other => panic!("unexpected source {other:?}"),
    }
    assert_eq!(volumes[1].name, "ldap-tls-certificate");
    assert_eq!(volumes[1].source, VolumeSource::Secret { secret_name: "ldap-ca".to_string(), optional: false });
    assert_eq!(
        mounts,
        vec![
            mount("ldap-bind-credentials", "/secrets/ldap-bind-credentials"),
            mount("ldap-tls-certificate", "/certificates/ldap-tls-certificate"),
        ]
    );
}

#[test]
fn secret_class_ca_cert_is_pod_scoped_whatever_the_bind_scope() {
    let scope = Some(AuthenticationClassSecretClassScope {
        pod: false,
        node: true,
        services: vec!["a".to_string(), "b".to_string()],
    });
    let ac = ldap(bind(scope), verify_with(AuthenticationClassCaCert::SecretClass("tls".to_string())));
    let (volumes, mounts) = project(&ac);
    assert_eq!(volumes.len(), 2);
    match &volumes[0].source {
        VolumeSource::SecretOperator(s) => assert_eq!(
            s.scopes,
            vec![
                SecretOperatorVolumeScope::Node,
                SecretOperatorVolumeScope::Service("a".to_string()),
                SecretOperatorVolumeScope::Service("b".to_string()),
            ]
        ),
        other => panic!("unexpected source {other:?}"),
    }
    match &volumes[1].source {
        VolumeSource::SecretOperator(s) => {
            assert_eq!(s.secret_class, "tls");
            assert_eq!(s.scopes, vec![SecretOperatorVolumeScope::Pod]);
        }
        other => panic!("unexpected source {other:?}"),
    }
    assert_eq!(mounts[1], mount("ldap-tls-certificate", "/certificates/ldap-tls-certificate"));
}

#[test]
fn configmap_ca_cert_is_mounted() {
    let ac = ldap(None, verify_with(AuthenticationClassCaCert::Configmap("ca-map".to_string())));
    let (volumes, mounts) = project(&ac);
    assert_eq!(
        volumes,
        vec![Volume { name: "ldap-tls-certificate".to_string(), source: VolumeSource::ConfigMap("ca-map".to_string()) }]
    );
    assert_eq!(mounts, vec![mount("ldap-tls-certificate", "/certificates/ldap-tls-certificate")]);
}

#[test]
fn path_ca_cert_and_insecure_tls_emit_no_tls_volume() {
    for tls in [
        verify_with(AuthenticationClassCaCert::Path("/etc/ca.crt".to_string())),
        Some(AuthenticationClassTls::Insecure {}),
    ] {
        let (volumes, mounts) = project(&ldap(bind(None), tls.clone()));
        assert_eq!(volumes.len(), 1);
        assert_eq!(volumes[0].name, "ldap-bind-credentials");
        assert_eq!(mounts.len(), 1);
        let (volumes, mounts) = project(&ldap(None, tls));
        assert!(volumes.is_empty());
        assert!(mounts.is_empty());
    }
}

#[test]
fn bind_credentials_mount_count_follows_presence() {
    let tls = verify_with(AuthenticationClassCaCert::Secret("ca".to_string()));
    let count = |ac: &AuthenticationClass| {
        project(ac).1.iter().filter(|m| m.name == "ldap-bind-credentials").count()
    };
    assert_eq!(count(&ldap(bind(None), tls.clone())), 1);
    assert_eq!(count(&ldap(None, tls)), 0);
    assert_eq!(count(&ldap(None, None)), 0);
}

#[test]
fn bind_credentials_without_scope_have_no_scope_entries() {
    let (volumes, _) = project(&ldap(bind(None), None));
    match &volumes[0].source {
        VolumeSource::SecretOperator(s) => assert!(s.scopes.is_empty()),
        other => panic!("unexpected source {other:?}"),
    }
}

#[test]
fn volumes_are_appended_after_existing_ones() {
    let ac = ldap(bind(pod_scope()), None);
    let mut volumes = vec![Volume { name: "first".to_string(), source: VolumeSource::Secret { secret_name: "s".to_string(), optional: true } }];
    let mut mounts = vec![mount("first", "/first")];
    ac.append_volumes_and_volume_mounts(&mut volumes, &mut mounts);
    assert_eq!(volumes.len(), 2);
    assert_eq!(volumes[0].name, "first");
    assert_eq!(volumes[1].name, "ldap-bind-credentials");
    assert_eq!(mounts[1], mount("ldap-bind-credentials", "/secrets/ldap-bind-credentials"));
}

#[test]
fn secret_operator_volume_forwards_scope_in_order() {
    let scope = Some(AuthenticationClassSecretClassScope {
        pod: true,
        node: true,
        services: vec!["svc".to_string()],
    });
    let s = AuthenticationClass::build_secret_operator_volume("class", &scope);
    assert_eq!(s.secret_class, "class");
    assert_eq!(
        s.scopes,
        vec![
            SecretOperatorVolumeScope::Pod,
            SecretOperatorVolumeScope::Node,
            SecretOperatorVolumeScope::Service("svc".to_string()),
        ]
    );
}
