//! Object metadata shared by every child resource: name, namespace, owner
//! reference and labels.

use vstd::prelude::*;
use vstd::string::*;
use crate::cluster::{APP_NAME, Error, SupersetCluster};

verus! {

#[derive(Clone, Debug, PartialEq, Eq)]
pub struct Label {
    pub key: String,
    pub value: String,
}

impl View for Label {
    type V = (Seq<char>, Seq<char>);

    open spec fn view(&self) -> (Seq<char>, Seq<char>) {
        (self.key@, self.value@)
    }
}

pub open spec fn labels_view(s: Seq<Label>) -> Seq<(Seq<char>, Seq<char>)> {
    s.map_values(|l: Label| l@)
}

/// Appends the label `key: value`.
pub fn push_label(labels: &mut Vec<Label>, key: &str, value: &str)
    ensures
        labels_view(final(labels)@) == labels_view(old(labels)@).push((key@, value@)),
{
    labels.push(Label { key: String::from_str(key), value: String::from_str(value) });
    assert(labels_view(labels@) =~= labels_view(old(labels)@).push((key@, value@)));
}

/// The labels that select every pod of a role.
pub open spec fn role_selector_labels_spec(instance: Seq<char>, role: Seq<char>) -> Seq<(Seq<char>, Seq<char>)> {
    seq![
        ("app.kubernetes.io/name"@, APP_NAME@),
        ("app.kubernetes.io/instance"@, instance),
        ("app.kubernetes.io/component"@, role),
    ]
}

/// The labels that select every pod of a role group.
pub open spec fn role_group_selector_labels_spec(
    instance: Seq<char>,
    role: Seq<char>,
    role_group: Seq<char>,
) -> Seq<(Seq<char>, Seq<char>)> {
    role_selector_labels_spec(instance, role).push(("app.kubernetes.io/role-group"@, role_group))
}

/// The recommended labels of an object of a role group.
pub open spec fn recommended_labels_spec(
    instance: Seq<char>,
    version: Seq<char>,
    role: Seq<char>,
    role_group: Seq<char>,
) -> Seq<(Seq<char>, Seq<char>)> {
    role_group_selector_labels_spec(instance, role, role_group)
        .push(("app.kubernetes.io/version"@, version))
        .push(("app.kubernetes.io/managed-by"@, "superset-operator"@))
}

pub fn role_selector_labels(instance: &str, role: &str) -> (r: Vec<Label>)
    ensures
        labels_view(r@) == role_selector_labels_spec(instance@, role@),
{
    let mut r: Vec<Label> = Vec::new();
    push_label(&mut r, "app.kubernetes.io/name", APP_NAME);
    push_label(&mut r, "app.kubernetes.io/instance", instance);
    push_label(&mut r, "app.kubernetes.io/component", role);
    assert(labels_view(r@) =~= role_selector_labels_spec(instance@, role@));
    r
}

pub fn role_group_selector_labels(instance: &str, role: &str, role_group: &str) -> (r: Vec<Label>)
    ensures
        labels_view(r@) == role_group_selector_labels_spec(instance@, role@, role_group@),
{
    let mut r = role_selector_labels(instance, role);
    push_label(&mut r, "app.kubernetes.io/role-group", role_group);
    r
}

pub fn recommended_labels(instance: &str, version: &str, role: &str, role_group: &str) -> (r: Vec<Label>)
    ensures
        labels_view(r@) == recommended_labels_spec(instance@, version@, role@, role_group@),
{
    let mut r = role_group_selector_labels(instance, role, role_group);
    push_label(&mut r, "app.kubernetes.io/version", version);
    push_label(&mut r, "app.kubernetes.io/managed-by", "superset-operator");
    r
}

/// A reference from a child resource to the cluster object that owns it.
#[derive(Clone, Debug, PartialEq, Eq)]
pub struct OwnerReference {
    pub api_version: String,
    pub kind: String,
    pub name: String,
    pub uid: String,
    pub controller: bool,
}

pub struct OwnerReferenceView {
    pub api_version: Seq<char>,
    pub kind: Seq<char>,
    pub name: Seq<char>,
    pub uid: Seq<char>,
    pub controller: bool,
}

impl View for OwnerReference {
    type V = OwnerReferenceView;

    open spec fn view(&self) -> OwnerReferenceView {
        OwnerReferenceView {
            api_version: self.api_version@,
            kind: self.kind@,
            name: self.name@,
            uid: self.uid@,
            controller: self.controller,
        }
    }
}

/// The owner reference to a cluster with the given name and uid.
pub open spec fn owner_reference_spec(name: Seq<char>, uid: Seq<char>) -> OwnerReferenceView {
    OwnerReferenceView {
        api_version: "superset.stackable.tech/v1alpha1"@,
        kind: "SupersetCluster"@,
        name,
        uid,
        controller: true,
    }
}

/// Whether the cluster carries the metadata that an owner reference needs.
pub open spec fn has_owner_metadata(c: SupersetCluster) -> bool {
    c.name is Some && c.uid is Some
}

pub open spec fn cluster_owner_reference(c: SupersetCluster) -> OwnerReferenceView
    recommends
        has_owner_metadata(c),
{
    owner_reference_spec(c.name->Some_0@, c.uid->Some_0@)
}

/// The controlling owner reference to the cluster.
pub fn owner_reference(c: &SupersetCluster) -> (r: Result<OwnerReference, Error>)
    ensures
        has_owner_metadata(*c) ==> (r matches Ok(o) && o@ == cluster_owner_reference(*c)),
        !has_owner_metadata(*c) ==> r matches Err(Error::ObjectMissingMetadataForOwnerRef),
{
    match (&c.name, &c.uid) {
        (Some(name), Some(uid)) => Ok(OwnerReference {
            api_version: String::from_str("superset.stackable.tech/v1alpha1"),
            kind: String::from_str("SupersetCluster"),
            name: name.clone(),
            uid: uid.clone(),
            controller: true,
        }),
        _ => Err(Error::ObjectMissingMetadataForOwnerRef),
    }
}

/// Name, namespace, owner and labels of a child resource.
#[derive(Clone, Debug, PartialEq, Eq)]
pub struct ObjectMeta {
    pub name: String,
    pub namespace: Option<String>,
    pub owner_reference: OwnerReference,
    pub labels: Vec<Label>,
}

pub struct ObjectMetaView {
    pub name: Seq<char>,
    pub namespace: Option<Seq<char>>,
    pub owner_reference: OwnerReferenceView,
    pub labels: Seq<(Seq<char>, Seq<char>)>,
}

pub open spec fn option_string_view(o: Option<String>) -> Option<Seq<char>> {
    match o {
        Some(s) => Some(s@),
        None => None,
    }
}

impl View for ObjectMeta {
    type V = ObjectMetaView;

    open spec fn view(&self) -> ObjectMetaView {
        ObjectMetaView {
            name: self.name@,
            namespace: option_string_view(self.namespace),
            owner_reference: self.owner_reference@,
            labels: labels_view(self.labels@),
        }
    }
}

/// The metadata of a child of the cluster: its name, the cluster's namespace,
/// the owner reference to the cluster, and the given labels.
pub open spec fn child_meta_spec(
    c: SupersetCluster,
    name: Seq<char>,
    labels: Seq<(Seq<char>, Seq<char>)>,
) -> ObjectMetaView {
    ObjectMetaView {
        name,
        namespace: option_string_view(c.namespace),
        owner_reference: cluster_owner_reference(c),
        labels,
    }
}

pub fn child_meta(c: &SupersetCluster, name: String, owner_reference: OwnerReference, labels: Vec<Label>) -> (r:
    ObjectMeta)
    requires
        has_owner_metadata(*c),
        owner_reference@ == cluster_owner_reference(*c),
    ensures
        r@ == child_meta_spec(*c, name@, labels_view(labels@)),
{
    let namespace = match &c.namespace {
        Some(n) => Some(n.clone()),
        None => None,
    };
    ObjectMeta { name, namespace, owner_reference, labels }
}

} // verus!
