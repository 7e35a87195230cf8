//! Plain descriptors of pod volumes and volume mounts.

use vstd::prelude::*;

verus! {

/// One scope entry of a volume provisioned by the secret operator.
#[derive(Clone, Debug, PartialEq, Eq)]
pub enum SecretOperatorVolumeScope {
    Pod,
    Node,
    Service(String),
}

pub enum SecretOperatorVolumeScopeView {
    Pod,
    Node,
    Service(Seq<char>),
}

impl View for SecretOperatorVolumeScope {
    type V = SecretOperatorVolumeScopeView;

    open spec fn view(&self) -> SecretOperatorVolumeScopeView {
        match self {
            SecretOperatorVolumeScope::Pod => SecretOperatorVolumeScopeView::Pod,
            SecretOperatorVolumeScope::Node => SecretOperatorVolumeScopeView::Node,
            SecretOperatorVolumeScope::Service(s) => SecretOperatorVolumeScopeView::Service(s@),
        }
    }
}

pub open spec fn scopes_view(s: Seq<SecretOperatorVolumeScope>) -> Seq<SecretOperatorVolumeScopeView> {
    s.map_values(|x: SecretOperatorVolumeScope| x@)
}

/// An ephemeral volume whose contents the secret operator materializes from a
/// secret class, restricted by the listed scopes (in the order given).
#[derive(Clone, Debug, PartialEq, Eq)]
pub struct SecretOperatorVolumeSource {
    pub secret_class: String,
    pub scopes: Vec<SecretOperatorVolumeScope>,
}

pub struct SecretOperatorVolumeSourceView {
    pub secret_class: Seq<char>,
    pub scopes: Seq<SecretOperatorVolumeScopeView>,
}

impl View for SecretOperatorVolumeSource {
    type V = SecretOperatorVolumeSourceView;

    open spec fn view(&self) -> SecretOperatorVolumeSourceView {
        SecretOperatorVolumeSourceView { secret_class: self.secret_class@, scopes: scopes_view(self.scopes@) }
    }
}

/// Where the contents of a volume come from.
#[derive(Clone, Debug, PartialEq, Eq)]
pub enum VolumeSource {
    SecretOperator(SecretOperatorVolumeSource),
    /// A secret by name; `optional` is whether the pod may start without it.
    Secret { secret_name: String, optional: bool },
    ConfigMap(String),
}

pub enum VolumeSourceView {
    SecretOperator(SecretOperatorVolumeSourceView),
    Secret { secret_name: Seq<char>, optional: bool },
    ConfigMap(Seq<char>),
}

impl View for VolumeSource {
    type V = VolumeSourceView;

    open spec fn view(&self) -> VolumeSourceView {
        match self {
            VolumeSource::SecretOperator(s) => VolumeSourceView::SecretOperator(s@),
            VolumeSource::Secret { secret_name, optional } => VolumeSourceView::Secret {
                secret_name: secret_name@,
                optional: *optional,
            },
            VolumeSource::ConfigMap(s) => VolumeSourceView::ConfigMap(s@),
        }
    }
}

#[derive(Clone, Debug, PartialEq, Eq)]
pub struct Volume {
    pub name: String,
    pub source: VolumeSource,
}

pub struct VolumeView {
    pub name: Seq<char>,
    pub source: VolumeSourceView,
}

impl View for Volume {
    type V = VolumeView;

    open spec fn view(&self) -> VolumeView {
        VolumeView { name: self.name@, source: self.source@ }
    }
}

#[derive(Clone, Debug, PartialEq, Eq)]
pub struct VolumeMount {
    pub name: String,
    pub mount_path: String,
    pub read_only: bool,
}

pub struct VolumeMountView {
    pub name: Seq<char>,
    pub mount_path: Seq<char>,
    pub read_only: bool,
}

impl View for VolumeMount {
    type V = VolumeMountView;

    open spec fn view(&self) -> VolumeMountView {
        VolumeMountView { name: self.name@, mount_path: self.mount_path@, read_only: self.read_only }
    }
}

pub open spec fn volumes_view(s: Seq<Volume>) -> Seq<VolumeView> {
    s.map_values(|v: Volume| v@)
}

pub open spec fn mounts_view(s: Seq<VolumeMount>) -> Seq<VolumeMountView> {
    s.map_values(|m: VolumeMount| m@)
}

/// Appends a volume, keeping the view of the list in step.
pub fn push_volume(volumes: &mut Vec<Volume>, v: Volume)
    ensures
        volumes_view(final(volumes)@) == volumes_view(old(volumes)@).push(v@),
{
    volumes.push(v);
    assert(volumes_view(volumes@) =~= volumes_view(old(volumes)@).push(v@));
}

/// Appends a volume mount, keeping the view of the list in step.
pub fn push_mount(mounts: &mut Vec<VolumeMount>, m: VolumeMount)
    ensures
        mounts_view(final(mounts)@) == mounts_view(old(mounts)@).push(m@),
{
    mounts.push(m);
    assert(mounts_view(mounts@) =~= mounts_view(old(mounts)@).push(m@));
}

/// A read-only mount of the named volume at the given path.
pub fn read_only_mount(name: &str, mount_path: String) -> (r: VolumeMount)
    ensures
        r@ == (VolumeMountView { name: name@, mount_path: mount_path@, read_only: true }),
{
    VolumeMount { name: name.to_string(), mount_path, read_only: true }
}

} // verus!
