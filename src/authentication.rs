//! Authentication classes: declarations of an external identity backend, and
//! their projection into the volumes and mounts a workload needs to reach it.

use vstd::prelude::*;
use vstd::string::*;
use crate::volume::{
    SecretOperatorVolumeScope, SecretOperatorVolumeScopeView, SecretOperatorVolumeSource,
    SecretOperatorVolumeSourceView, Volume, VolumeMount, VolumeMountView, VolumeSource,
    VolumeSourceView, VolumeView, mounts_view, push_mount, push_volume, read_only_mount,
    scopes_view, volumes_view,
};

verus! {

/// A named, cluster-scoped authentication backend declaration.
#[derive(Clone, Debug, PartialEq, Eq)]
pub struct AuthenticationClass {
    pub name: String,
    pub spec: AuthenticationClassSpec,
}

#[derive(Clone, Debug, PartialEq, Eq)]
pub struct AuthenticationClassSpec {
    /// Protocol used for authentication
    pub protocol: AuthenticationClassProtocol,
}

#[derive(Clone, Debug, PartialEq, Eq)]
pub enum AuthenticationClassProtocol {
    Ldap(AuthenticationClassLdap),
}

#[derive(Clone, Debug, PartialEq, Eq)]
pub struct AuthenticationClassLdap {
    /// Hostname of the LDAP server
    pub hostname: String,
    /// Port of the LDAP server
    pub port: u16,
    /// LDAP search base
    pub search_base: String,
    /// The name of the username field
    pub uid_field: String,
    /// The name of the group field
    pub group_field: String,
    /// The name of the firstname field
    pub firstname_field: String,
    /// The name of the lastname field
    pub lastname_field: String,
    /// The name of the email field
    pub email_field: String,
    /// A special account for searching the LDAP server, if one is needed
    pub bind_credentials: Option<AuthenticationClassLdapBindCredentials>,
    /// Use a TLS connection. If not specified no TLS will be used
    pub tls: Option<AuthenticationClassTls>,
}

pub fn default_port() -> (r: u16)
    ensures
        r == 389,
{
    389
}

pub fn default_uid_field() -> (r: String)
    ensures
        r@ == "uid"@,
{
    "uid".to_string()
}

pub fn default_group_field() -> (r: String)
    ensures
        r@ == "memberof"@,
{
    "memberof".to_string()
}

pub fn default_firstname_field() -> (r: String)
    ensures
        r@ == "givenName"@,
{
    "givenName".to_string()
}

pub fn default_lastname_field() -> (r: String)
    ensures
        r@ == "sn"@,
{
    "sn".to_string()
}

pub fn default_email_field() -> (r: String)
    ensures
        r@ == "mail"@,
{
    "mail".to_string()
}

#[derive(Clone, Debug, PartialEq, Eq)]
pub struct AuthenticationClassLdapBindCredentials {
    pub secret_class: String,
    pub scope: Option<AuthenticationClassSecretClassScope>,
}

#[derive(Clone, Debug, PartialEq, Eq)]
pub struct AuthenticationClassSecretClassScope {
    pub pod: bool,
    pub node: bool,
    pub services: Vec<String>,
}

#[derive(Clone, Debug, PartialEq, Eq)]
pub enum AuthenticationClassTls {
    /// Use TLS but do not verify certificates.
    Insecure {},
    /// Use TLS and a CA certificate to verify the server.
    ServerVerification(AuthenticationClassTlsServerVerification),
}

#[derive(Clone, Debug, PartialEq, Eq)]
pub struct AuthenticationClassTlsServerVerification {
    /// CA certificate to verify the server
    pub server_ca_cert: AuthenticationClassCaCert,
}

#[derive(Clone, Debug, PartialEq, Eq)]
pub enum AuthenticationClassCaCert {
    /// Name of the ConfigMap containing the CA certificate
    Configmap(String),
    /// Name of the Secret containing the CA certificate
    Secret(String),
    /// Path to the CA certificate, already present in the image
    Path(String),
    /// SecretClass whose CA certificate is used
    SecretClass(String),
}

pub open spec fn bind_credentials_volume_name(class_name: Seq<char>) -> Seq<char> {
    class_name + "-bind-credentials"@
}

pub open spec fn bind_credentials_mount_path(class_name: Seq<char>) -> Seq<char> {
    "/secrets/"@ + bind_credentials_volume_name(class_name)
}

pub open spec fn tls_volume_name(class_name: Seq<char>) -> Seq<char> {
    class_name + "-tls-certificate"@
}

pub open spec fn tls_mount_path(class_name: Seq<char>) -> Seq<char> {
    "/certificates/"@ + tls_volume_name(class_name)
}

/// The scope entries forwarded from a bind-credentials scope: pod, node, then
/// one entry per service.
pub open spec fn scope_entries(scope: Option<AuthenticationClassSecretClassScope>) -> Seq<SecretOperatorVolumeScopeView> {
    match scope {
        None => seq![],
        Some(s) => (if s.pod { seq![SecretOperatorVolumeScopeView::Pod] } else { seq![] })
            + (if s.node { seq![SecretOperatorVolumeScopeView::Node] } else { seq![] })
            + s.services@.map_values(|x: String| SecretOperatorVolumeScopeView::Service(x@)),
    }
}

pub open spec fn secret_operator_source(
    secret_class: Seq<char>,
    scope: Option<AuthenticationClassSecretClassScope>,
) -> SecretOperatorVolumeSourceView {
    SecretOperatorVolumeSourceView { secret_class, scopes: scope_entries(scope) }
}

pub open spec fn bind_credentials_volumes(class_name: Seq<char>, ldap: AuthenticationClassLdap) -> Seq<VolumeView> {
    match ldap.bind_credentials {
        None => seq![],
        Some(b) => seq![VolumeView {
            name: bind_credentials_volume_name(class_name),
            source: VolumeSourceView::SecretOperator(secret_operator_source(b.secret_class@, b.scope)),
        }],
    }
}

pub open spec fn bind_credentials_mounts(class_name: Seq<char>, ldap: AuthenticationClassLdap) -> Seq<VolumeMountView> {
    match ldap.bind_credentials {
        None => seq![],
        Some(b) => seq![VolumeMountView {
            name: bind_credentials_volume_name(class_name),
            mount_path: bind_credentials_mount_path(class_name),
            read_only: true,
        }],
    }
}

/// The source of the volume that carries a CA certificate; none for a path.
pub open spec fn ca_cert_source(ca: AuthenticationClassCaCert) -> Option<VolumeSourceView> {
    match ca {
        AuthenticationClassCaCert::Path(_) => None,
        AuthenticationClassCaCert::Secret(s) => Some(VolumeSourceView::Secret { secret_name: s@, optional: false }),
        AuthenticationClassCaCert::Configmap(c) => Some(VolumeSourceView::ConfigMap(c@)),
        AuthenticationClassCaCert::SecretClass(c) => Some(VolumeSourceView::SecretOperator(
            SecretOperatorVolumeSourceView { secret_class: c@, scopes: seq![SecretOperatorVolumeScopeView::Pod] },
        )),
    }
}

pub open spec fn ca_cert_volumes(class_name: Seq<char>, ca: AuthenticationClassCaCert) -> Seq<VolumeView> {
    match ca_cert_source(ca) {
        None => seq![],
        Some(source) => seq![VolumeView { name: tls_volume_name(class_name), source }],
    }
}

pub open spec fn ca_cert_mounts(class_name: Seq<char>, ca: AuthenticationClassCaCert) -> Seq<VolumeMountView> {
    match ca_cert_source(ca) {
        None => seq![],
        Some(_) => seq![VolumeMountView {
            name: tls_volume_name(class_name),
            mount_path: tls_mount_path(class_name),
            read_only: true,
        }],
    }
}

/// The CA certificate that a TLS setting asks to verify the server with.
pub open spec fn server_ca_cert(tls: Option<AuthenticationClassTls>) -> Option<AuthenticationClassCaCert> {
    match tls {
        Some(AuthenticationClassTls::ServerVerification(v)) => Some(v.server_ca_cert),
        _ => None,
    }
}

pub open spec fn tls_volumes(class_name: Seq<char>, ldap: AuthenticationClassLdap) -> Seq<VolumeView> {
    match server_ca_cert(ldap.tls) {
        None => seq![],
        Some(ca) => ca_cert_volumes(class_name, ca),
    }
}

pub open spec fn tls_mounts(class_name: Seq<char>, ldap: AuthenticationClassLdap) -> Seq<VolumeMountView> {
    match server_ca_cert(ldap.tls) {
        None => seq![],
        Some(ca) => ca_cert_mounts(class_name, ca),
    }
}

/// The volumes that a workload needs to use an authentication class, in order:
/// bind credentials first, then the server's CA certificate.
pub open spec fn authentication_volumes(ac: AuthenticationClass) -> Seq<VolumeView> {
    match ac.spec.protocol {
        AuthenticationClassProtocol::Ldap(ldap) => bind_credentials_volumes(ac.name@, ldap)
            + tls_volumes(ac.name@, ldap),
    }
}

/// The mounts matching `authentication_volumes`, one for one.
pub open spec fn authentication_mounts(ac: AuthenticationClass) -> Seq<VolumeMountView> {
    match ac.spec.protocol {
        AuthenticationClassProtocol::Ldap(ldap) => bind_credentials_mounts(ac.name@, ldap)
            + tls_mounts(ac.name@, ldap),
    }
}

/// The LDAP settings of an authentication class.
pub open spec fn ldap_of(ac: AuthenticationClass) -> AuthenticationClassLdap {
    match ac.spec.protocol {
        AuthenticationClassProtocol::Ldap(ldap) => ldap,
    }
}

/// The names of the two volumes of one class differ.
pub proof fn lemma_volume_names_differ(class_name: Seq<char>)
    ensures
        bind_credentials_volume_name(class_name) != tls_volume_name(class_name),
{
    reveal_strlit("-bind-credentials");
    reveal_strlit("-tls-certificate");
    assert(bind_credentials_volume_name(class_name).len() != tls_volume_name(class_name).len());
}

/// A CA certificate taken from a secret class is mounted from a volume that is
/// restricted to the pod scope alone, whatever scope the bind credentials ask for.
pub proof fn lemma_secret_class_ca_cert_has_pod_scope(ac: AuthenticationClass, secret_class: String)
    requires
        server_ca_cert(ldap_of(ac).tls) == Some(AuthenticationClassCaCert::SecretClass(secret_class)),
    ensures
        authentication_volumes(ac).len() >= 1,
        authentication_volumes(ac).last() == (VolumeView {
            name: tls_volume_name(ac.name@),
            source: VolumeSourceView::SecretOperator(SecretOperatorVolumeSourceView {
                secret_class: secret_class@,
                scopes: seq![SecretOperatorVolumeScopeView::Pod],
            }),
        }),
        authentication_mounts(ac).last() == (VolumeMountView {
            name: tls_volume_name(ac.name@),
            mount_path: tls_mount_path(ac.name@),
            read_only: true,
        }),
{
}

/// With no server verification, or with a CA certificate given as a path, no
/// volume or mount for the TLS certificate is emitted: only the bind
/// credentials, if any, are.
pub proof fn lemma_no_tls_volume_without_mounted_ca_cert(ac: AuthenticationClass)
    requires
        match ldap_of(ac).tls {
            Some(AuthenticationClassTls::Insecure {}) => true,
            Some(AuthenticationClassTls::ServerVerification(v)) => v.server_ca_cert is Path,
            None => false,
        },
    ensures
        authentication_volumes(ac).len() == (if ldap_of(ac).bind_credentials is Some { 1int } else { 0 }),
        authentication_mounts(ac).len() == authentication_volumes(ac).len(),
        forall|i: int| 0 <= i < authentication_volumes(ac).len()
            ==> authentication_volumes(ac)[i].name != tls_volume_name(ac.name@),
        forall|i: int| 0 <= i < authentication_mounts(ac).len()
            ==> authentication_mounts(ac)[i].name != tls_volume_name(ac.name@),
{
    lemma_volume_names_differ(ac.name@);
}

/// Exactly one mount is emitted for the bind credentials when they are given,
/// and none otherwise.
pub proof fn lemma_bind_credentials_mount_count(ac: AuthenticationClass)
    ensures
        authentication_mounts(ac).filter(|m: VolumeMountView| m.name == bind_credentials_volume_name(ac.name@)).len()
            == (if ldap_of(ac).bind_credentials is Some { 1int } else { 0 }),
{
    let pred = |m: VolumeMountView| m.name == bind_credentials_volume_name(ac.name@);
    let ldap = ldap_of(ac);
    lemma_volume_names_differ(ac.name@);
    let b = bind_credentials_mounts(ac.name@, ldap);
    let t = tls_mounts(ac.name@, ldap);
    assert(authentication_mounts(ac) == b + t);
    Seq::filter_distributes_over_add(b, t, pred);
    reveal_with_fuel(Seq::filter, 2);
    assert(t.len() <= 1);
    if t.len() == 1 {
        assert(t.filter(pred) =~= seq![]);
    } else {
        assert(t =~= seq![]);
        assert(t.filter(pred) =~= seq![]);
    }
    if ldap.bind_credentials is Some {
        assert(b.filter(pred) =~= b);
    } else {
        assert(b.filter(pred) =~= seq![]);
    }
}

impl AuthenticationClass {
    /// Appends the volumes and mounts that a workload needs to use this class.
    pub fn append_volumes_and_volume_mounts(&self, volumes: &mut Vec<Volume>, volume_mounts: &mut Vec<VolumeMount>)
        ensures
            volumes_view(final(volumes)@) == volumes_view(old(volumes)@) + authentication_volumes(*self),
            mounts_view(final(volume_mounts)@) == mounts_view(old(volume_mounts)@) + authentication_mounts(*self),
    {
        let authentication_class_name = self.name.as_str();
        match &self.spec.protocol {
            AuthenticationClassProtocol::Ldap(ldap) => {
                if let Some(bind_credentials) = &ldap.bind_credentials {
                    let volume_name = String::from_str(authentication_class_name).concat("-bind-credentials");
                    let volume_mount_path = String::from_str("/secrets/").concat(volume_name.as_str());
                    let source = Self::build_secret_operator_volume(
                        bind_credentials.secret_class.as_str(),
                        &bind_credentials.scope,
                    );
                    push_mount(volume_mounts, read_only_mount(volume_name.as_str(), volume_mount_path));
                    push_volume(volumes, Volume { name: volume_name, source: VolumeSource::SecretOperator(source) });
                }
                let ghost mid_volumes = volumes_view(volumes@);
                let ghost mid_mounts = mounts_view(volume_mounts@);
                assert(mid_volumes == volumes_view(old(volumes)@) + bind_credentials_volumes(self.name@, *ldap));
                assert(mid_mounts == mounts_view(old(volume_mounts)@) + bind_credentials_mounts(self.name@, *ldap));
                if let Some(tls) = &ldap.tls {
                    match tls {
                        AuthenticationClassTls::Insecure {} => {},
                        AuthenticationClassTls::ServerVerification(
                            AuthenticationClassTlsServerVerification { server_ca_cert },
                        ) => {
                            Self::append_server_ca_cert(
                                volumes,
                                volume_mounts,
                                authentication_class_name,
                                server_ca_cert,
                            );
                        },
                    }
                }
                assert(volumes_view(volumes@) =~= volumes_view(old(volumes)@) + authentication_volumes(*self));
                assert(mounts_view(volume_mounts@) =~= mounts_view(old(volume_mounts)@) + authentication_mounts(*self));
            },
        }
    }

    /// The secret-operator volume source for a secret class, with the scope
    /// entries forwarded verbatim.
    pub fn build_secret_operator_volume(
        secret_class_name: &str,
        scope: &Option<AuthenticationClassSecretClassScope>,
    ) -> (r: SecretOperatorVolumeSource)
        ensures
            r@ == secret_operator_source(secret_class_name@, *scope),
    {
        let mut scopes: Vec<SecretOperatorVolumeScope> = Vec::new();
        if let Some(scope) = scope {
            if scope.pod {
                scopes.push(SecretOperatorVolumeScope::Pod);
            }
            if scope.node {
                scopes.push(SecretOperatorVolumeScope::Node);
            }
            let ghost head = scopes_view(scopes@);
            assert(head =~= (if scope.pod { seq![SecretOperatorVolumeScopeView::Pod] } else { seq![] })
                + (if scope.node { seq![SecretOperatorVolumeScopeView::Node] } else { seq![] }));
            let mut i: usize = 0;
            while i < scope.services.len()
                invariant
                    0 <= i <= scope.services@.len(),
                    scopes_view(scopes@) == head + scope.services@.take(i as int).map_values(
                        |x: String| SecretOperatorVolumeScopeView::Service(x@),
                    ),
                decreases scope.services@.len() - i,
            {
                let ghost before = scopes@;
                scopes.push(SecretOperatorVolumeScope::Service(scope.services[i].clone()));
                assert(scope.services@.take(i + 1) =~= scope.services@.take(i as int).push(scope.services@[i as int]));
                assert(scopes_view(scopes@) =~= scopes_view(before).push(
                    SecretOperatorVolumeScopeView::Service(scope.services@[i as int]@),
                ));
                assert(scopes_view(scopes@) =~= head + scope.services@.take(i + 1).map_values(
                    |x: String| SecretOperatorVolumeScopeView::Service(x@),
                ));
                i = i + 1;
            }
            assert(scope.services@.take(i as int) =~= scope.services@);
        }
        let r = SecretOperatorVolumeSource { secret_class: String::from_str(secret_class_name), scopes };
        assert(r@.scopes =~= scope_entries(*scope));
        r
    }

    /// Appends the volume and mount that carry the server's CA certificate,
    /// if it has to be mounted.
    pub fn append_server_ca_cert(
        volumes: &mut Vec<Volume>,
        volume_mounts: &mut Vec<VolumeMount>,
        authentication_class_name: &str,
        server_ca_cert: &AuthenticationClassCaCert,
    )
        ensures
            volumes_view(final(volumes)@) == volumes_view(old(volumes)@) + ca_cert_volumes(
                authentication_class_name@,
                *server_ca_cert,
            ),
            mounts_view(final(volume_mounts)@) == mounts_view(old(volume_mounts)@) + ca_cert_mounts(
                authentication_class_name@,
                *server_ca_cert,
            ),
    {
        let volume_name = String::from_str(authentication_class_name).concat("-tls-certificate");
        let volume_mount_path = String::from_str("/certificates/").concat(volume_name.as_str());
        let source = match server_ca_cert {
            AuthenticationClassCaCert::Path(_) => None,
            AuthenticationClassCaCert::Secret(secret_name) => Some(
                VolumeSource::Secret { secret_name: secret_name.clone(), optional: false },
            ),
            AuthenticationClassCaCert::Configmap(configmap_name) => Some(
                VolumeSource::ConfigMap(configmap_name.clone()),
            ),
            AuthenticationClassCaCert::SecretClass(secret_class_name) => {
                // Only the CA certificate of the class is needed, not a
                // certificate and key of its own, so the pod scope suffices.
                let mut scopes: Vec<SecretOperatorVolumeScope> = Vec::new();
                scopes.push(SecretOperatorVolumeScope::Pod);
                assert(scopes_view(scopes@) =~= seq![SecretOperatorVolumeScopeView::Pod]);
                Some(VolumeSource::SecretOperator(
                    SecretOperatorVolumeSource { secret_class: secret_class_name.clone(), scopes },
                ))
            },
        };
        match source {
            None => {
                assert(volumes_view(volumes@) =~= volumes_view(old(volumes)@) + ca_cert_volumes(authentication_class_name@, *server_ca_cert));
                assert(mounts_view(volume_mounts@) =~= mounts_view(old(volume_mounts)@) + ca_cert_mounts(authentication_class_name@, *server_ca_cert));
            },
            Some(source) => {
                push_mount(volume_mounts, read_only_mount(volume_name.as_str(), volume_mount_path));
                push_volume(volumes, Volume { name: volume_name, source });
                assert(volumes_view(volumes@) =~= volumes_view(old(volumes)@) + ca_cert_volumes(authentication_class_name@, *server_ca_cert));
                assert(mounts_view(volume_mounts@) =~= mounts_view(old(volume_mounts)@) + ca_cert_mounts(authentication_class_name@, *server_ca_cert));
            },
        }
    }
}

} // verus!
