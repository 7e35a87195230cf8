//! Descriptors of the child resources built for a cluster: services, config
//! maps and stateful sets.

use vstd::prelude::*;
use crate::meta::{Label, ObjectMeta, ObjectMetaView, labels_view};
use crate::volume::{Volume, VolumeMount, VolumeMountView, VolumeView, mounts_view, volumes_view};

verus! {

#[derive(Clone, Debug, PartialEq, Eq)]
pub struct ServicePort {
    pub name: String,
    pub port: i32,
    pub protocol: String,
}

pub struct ServicePortView {
    pub name: Seq<char>,
    pub port: i32,
    pub protocol: Seq<char>,
}

impl View for ServicePort {
    type V = ServicePortView;

    open spec fn view(&self) -> ServicePortView {
        ServicePortView { name: self.name@, port: self.port, protocol: self.protocol@ }
    }
}

pub open spec fn service_ports_view(s: Seq<ServicePort>) -> Seq<ServicePortView> {
    s.map_values(|p: ServicePort| p@)
}

#[derive(Clone, Debug, PartialEq, Eq)]
pub struct Service {
    pub metadata: ObjectMeta,
    pub cluster_ip: Option<String>,
    pub ports: Vec<ServicePort>,
    pub selector: Vec<Label>,
    pub service_type: Option<String>,
    pub publish_not_ready_addresses: Option<bool>,
}

pub struct ServiceView {
    pub metadata: ObjectMetaView,
    pub cluster_ip: Option<Seq<char>>,
    pub ports: Seq<ServicePortView>,
    pub selector: Seq<(Seq<char>, Seq<char>)>,
    pub service_type: Option<Seq<char>>,
    pub publish_not_ready_addresses: Option<bool>,
}

impl View for Service {
    type V = ServiceView;

    open spec fn view(&self) -> ServiceView {
        ServiceView {
            metadata: self.metadata@,
            cluster_ip: crate::meta::option_string_view(self.cluster_ip),
            ports: service_ports_view(self.ports@),
            selector: labels_view(self.selector@),
            service_type: crate::meta::option_string_view(self.service_type),
            publish_not_ready_addresses: self.publish_not_ready_addresses,
        }
    }
}

/// One file of a config map.
#[derive(Clone, Debug, PartialEq, Eq)]
pub struct ConfigMapEntry {
    pub file_name: String,
    pub content: String,
}

impl View for ConfigMapEntry {
    type V = (Seq<char>, Seq<char>);

    open spec fn view(&self) -> (Seq<char>, Seq<char>) {
        (self.file_name@, self.content@)
    }
}

#[derive(Clone, Debug, PartialEq, Eq)]
pub struct ConfigMap {
    pub metadata: ObjectMeta,
    pub data: Vec<ConfigMapEntry>,
}

pub struct ConfigMapView {
    pub metadata: ObjectMetaView,
    pub data: Seq<(Seq<char>, Seq<char>)>,
}

impl View for ConfigMap {
    type V = ConfigMapView;

    open spec fn view(&self) -> ConfigMapView {
        ConfigMapView { metadata: self.metadata@, data: self.data@.map_values(|e: ConfigMapEntry| e@) }
    }
}

/// An environment variable taken from a key of a secret.
#[derive(Clone, Debug, PartialEq, Eq)]
pub struct EnvVarFromSecret {
    pub name: String,
    pub secret_name: String,
    pub secret_key: String,
}

pub struct EnvVarFromSecretView {
    pub name: Seq<char>,
    pub secret_name: Seq<char>,
    pub secret_key: Seq<char>,
}

impl View for EnvVarFromSecret {
    type V = EnvVarFromSecretView;

    open spec fn view(&self) -> EnvVarFromSecretView {
        EnvVarFromSecretView { name: self.name@, secret_name: self.secret_name@, secret_key: self.secret_key@ }
    }
}

#[derive(Clone, Debug, PartialEq, Eq)]
pub struct ContainerPort {
    pub name: String,
    pub port: i32,
}

impl View for ContainerPort {
    type V = (Seq<char>, i32);

    open spec fn view(&self) -> (Seq<char>, i32) {
        (self.name@, self.port)
    }
}

#[derive(Clone, Debug, PartialEq, Eq)]
pub struct Container {
    pub name: String,
    pub image: String,
    pub env: Vec<EnvVarFromSecret>,
    pub ports: Vec<ContainerPort>,
    pub volume_mounts: Vec<VolumeMount>,
}

pub struct ContainerView {
    pub name: Seq<char>,
    pub image: Seq<char>,
    pub env: Seq<EnvVarFromSecretView>,
    pub ports: Seq<(Seq<char>, i32)>,
    pub volume_mounts: Seq<VolumeMountView>,
}

impl View for Container {
    type V = ContainerView;

    open spec fn view(&self) -> ContainerView {
        ContainerView {
            name: self.name@,
            image: self.image@,
            env: self.env@.map_values(|e: EnvVarFromSecret| e@),
            ports: self.ports@.map_values(|p: ContainerPort| p@),
            volume_mounts: mounts_view(self.volume_mounts@),
        }
    }
}

#[derive(Clone, Debug, PartialEq, Eq)]
pub struct StatefulSet {
    pub metadata: ObjectMeta,
    pub pod_management_policy: String,
    pub replicas: Option<i32>,
    pub selector: Vec<Label>,
    pub service_name: String,
    pub pod_labels: Vec<Label>,
    pub volumes: Vec<Volume>,
    pub fs_group: i64,
    pub containers: Vec<Container>,
}

pub struct StatefulSetView {
    pub metadata: ObjectMetaView,
    pub pod_management_policy: Seq<char>,
    pub replicas: Option<i32>,
    pub selector: Seq<(Seq<char>, Seq<char>)>,
    pub service_name: Seq<char>,
    pub pod_labels: Seq<(Seq<char>, Seq<char>)>,
    pub volumes: Seq<VolumeView>,
    pub fs_group: i64,
    pub containers: Seq<ContainerView>,
}

impl View for StatefulSet {
    type V = StatefulSetView;

    open spec fn view(&self) -> StatefulSetView {
        StatefulSetView {
            metadata: self.metadata@,
            pod_management_policy: self.pod_management_policy@,
            replicas: self.replicas,
            selector: labels_view(self.selector@),
            service_name: self.service_name@,
            pod_labels: labels_view(self.pod_labels@),
            volumes: volumes_view(self.volumes@),
            fs_group: self.fs_group,
            containers: self.containers@.map_values(|c: Container| c@),
        }
    }
}

} // verus!
