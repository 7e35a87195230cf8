//! The decisions of one reconciliation pass, as a state machine: the caller
//! performs each action against the orchestration API and reports back how it
//! went.

use vstd::prelude::*;
use crate::authentication::AuthenticationClass;
use crate::cluster::{
    Error, NODE_ROLE, RoleGroupConfig, RoleGroupRef, SupersetCluster, SupersetClusterAuthenticationConfigMethod,
};
use crate::controller::{
    build_node_role_service, build_node_rolegroup_service, build_rolegroup_config_map,
    build_server_rolegroup_statefulset, node_role_service, rolegroup_config_map, rolegroup_service,
    rolegroup_statefulset,
};
use crate::resources::{ConfigMap, Service, StatefulSet};

verus! {

/// The names of the authentication classes that the cluster refers to, in order.
pub open spec fn referenced_authentication_classes(c: SupersetCluster) -> Seq<Seq<char>> {
    match c.spec.authentication_config {
        None => seq![],
        Some(a) => a.methods@.map_values(|m: SupersetClusterAuthenticationConfigMethod| m.authentication_class@),
    }
}

/// Whether all the names are one and the same.
pub open spec fn all_same(names: Seq<Seq<char>>) -> bool {
    forall|i: int, j: int| 0 <= i < names.len() && 0 <= j < names.len() ==> names[i] == names[j]
}

/// The authentication class to use: none when no method is referenced, the one
/// class when every method names the same one, and an error when two distinct
/// classes are named, since the product supports a single backend.
pub fn resolve_authentication_class(superset: &SupersetCluster) -> (r: Result<Option<String>, Error>)
    ensures
        match r {
            Ok(None) => referenced_authentication_classes(*superset).len() == 0,
            Ok(Some(n)) => referenced_authentication_classes(*superset).len() > 0
                && all_same(referenced_authentication_classes(*superset))
                && n@ == referenced_authentication_classes(*superset)[0],
            Err(e) => !all_same(referenced_authentication_classes(*superset))
                && e == Error::MultipleAuthenticationMethods,
        },
{
    let ghost names = referenced_authentication_classes(*superset);
    match &superset.spec.authentication_config {
        None => Ok(None),
        Some(config) => {
            let methods = &config.methods;
            if methods.len() == 0 {
                return Ok(None);
            }
            assert(names =~= methods@.map_values(|m: SupersetClusterAuthenticationConfigMethod| m.authentication_class@));
            let first = &methods[0].authentication_class;
            assert(names[0] == first@);
            let mut j: usize = 1;
            while j < methods.len()
                invariant
                    1 <= j <= methods@.len(),
                    names == referenced_authentication_classes(*superset),
                    names == methods@.map_values(|m: SupersetClusterAuthenticationConfigMethod| m.authentication_class@),
                    names[0] == first@,
                    forall|k: int| 0 <= k < j ==> #[trigger] names[k] == names[0],
                decreases methods@.len() - j,
            {
                assert(names[j as int] == methods@[j as int].authentication_class@);
                if methods[j].authentication_class != *first {
                    assert(names[j as int] != names[0]);
                    assert(!all_same(names)) by {
                        if all_same(names) {
                            assert(names[j as int] == names[0]);
                        }
                    }
                    return Err(Error::MultipleAuthenticationMethods);
                }
                j = j + 1;
            }
            Ok(Some(first.clone()))
        },
    }
}

/// A role group of the node role, with its validated configuration.
#[derive(Clone, Debug, PartialEq, Eq)]
pub struct RoleGroupEntry {
    pub name: String,
    pub config: RoleGroupConfig,
}

/// Where a reconciliation pass stands. `group` indexes the role groups.
#[derive(Clone, Debug, PartialEq, Eq)]
pub enum ReconcilePhase {
    Start,
    RoleServiceSent,
    Fetching { group: usize, rolegroup: RoleGroupRef, name: String },
    ServiceSent { group: usize, rolegroup: RoleGroupRef, config_map: ConfigMap, statefulset: StatefulSet },
    ConfigMapSent { group: usize, rolegroup: RoleGroupRef, statefulset: StatefulSet },
    StatefulSetSent { group: usize, rolegroup: RoleGroupRef },
    /// The pass has ended; the action that came with this phase, `Done` or
    /// `Abort`, says how.
    Finished,
}

/// How the last action went.
#[derive(Clone, Debug, PartialEq, Eq)]
pub enum ReconcileEvent {
    Applied,
    Fetched(AuthenticationClass),
    Failed,
}

/// What the caller does next.
#[derive(Clone, Debug, PartialEq, Eq)]
pub enum ReconcileAction {
    ApplyService(Service),
    ApplyConfigMap(ConfigMap),
    ApplyStatefulSet(StatefulSet),
    FetchAuthenticationClass(String),
    Done,
    Abort(Error),
}

/// Whether the phase refers to an existing role group.
pub open spec fn phase_wf(p: ReconcilePhase, n: nat) -> bool {
    match p {
        ReconcilePhase::Fetching { group, .. } => group < n,
        ReconcilePhase::ServiceSent { group, .. } => group < n,
        ReconcilePhase::ConfigMapSent { group, .. } => group < n,
        ReconcilePhase::StatefulSetSent { group, .. } => group < n,
        _ => true,
    }
}

pub open spec fn is_group_ref(rg: RoleGroupRef, c: SupersetCluster, name: Seq<char>) -> bool {
    c.name is Some && rg.cluster_name@ == c.name->Some_0@ && rg.role@ == NODE_ROLE@ && rg.role_group@ == name
}

/// The pass ends with the given action.
pub open spec fn ends_with(r: (ReconcilePhase, ReconcileAction), a: ReconcileAction) -> bool {
    r.0 is Finished && r.1 == a
}

/// The step that builds the three resources of role group `i` and applies the
/// first of them, or ends the pass with the first error of the three builds.
pub open spec fn builds_group(
    c: SupersetCluster,
    groups: Seq<RoleGroupEntry>,
    i: int,
    rg: RoleGroupRef,
    auth: Option<AuthenticationClass>,
    r: (ReconcilePhase, ReconcileAction),
) -> bool {
    let svc = rolegroup_service(rg, c);
    let cm = rolegroup_config_map(rg, c, groups[i].config, auth);
    let sts = rolegroup_statefulset(rg, c, groups[i].config, auth);
    if svc is Err {
        ends_with(r, ReconcileAction::Abort(svc->Err_0))
    } else if cm is Err {
        ends_with(r, ReconcileAction::Abort(cm->Err_0))
    } else if sts is Err {
        ends_with(r, ReconcileAction::Abort(sts->Err_0))
    } else {
        &&& r.0 matches ReconcilePhase::ServiceSent { group, rolegroup, config_map, statefulset }
        &&& group == i && rolegroup == rg
        &&& config_map@ == cm->Ok_0
        &&& statefulset@ == sts->Ok_0
        &&& r.1 matches ReconcileAction::ApplyService(s)
        &&& s@ == svc->Ok_0
    }
}

/// The step that starts on role group `i`: the pass is done after the last
/// group; otherwise the authentication class is resolved, and then fetched or
/// the group's resources built.
pub open spec fn begins_group(
    c: SupersetCluster,
    groups: Seq<RoleGroupEntry>,
    i: int,
    r: (ReconcilePhase, ReconcileAction),
) -> bool {
    let names = referenced_authentication_classes(c);
    if i >= groups.len() {
        ends_with(r, ReconcileAction::Done)
    } else if c.name is None {
        ends_with(r, ReconcileAction::Abort(Error::ObjectMissingMetadataForOwnerRef))
    } else if !all_same(names) {
        ends_with(r, ReconcileAction::Abort(Error::MultipleAuthenticationMethods))
    } else if names.len() == 0 {
        exists|rg: RoleGroupRef| is_group_ref(rg, c, groups[i].name@) && #[trigger] builds_group(c, groups, i, rg, None, r)
    } else {
        &&& r.0 matches ReconcilePhase::Fetching { group, rolegroup, name }
        &&& group == i && is_group_ref(rolegroup, c, groups[i].name@) && name@ == names[0]
        &&& r.1 matches ReconcileAction::FetchAuthenticationClass(n)
        &&& n@ == names[0]
    }
}

/// When the cluster refers to two distinct authentication classes, the pass
/// ends as soon as it reaches a role group, with `MultipleAuthenticationMethods`
/// for a named cluster: no resource of the group is applied, and the pass takes
/// no further step.
pub proof fn lemma_multiple_methods_end_the_pass(
    c: SupersetCluster,
    groups: Seq<RoleGroupEntry>,
    i: int,
    r: (ReconcilePhase, ReconcileAction),
)
    requires
        !all_same(referenced_authentication_classes(c)),
        0 <= i < groups.len(),
        begins_group(c, groups, i, r),
    ensures
        r.0 is Finished,
        r.1 is Abort,
        c.name is Some ==> r.1 == ReconcileAction::Abort(Error::MultipleAuthenticationMethods),
{
}

fn finish(a: ReconcileAction) -> (r: (ReconcilePhase, ReconcileAction))
    ensures
        ends_with(r, a),
{
    (ReconcilePhase::Finished, a)
}

fn build_group(
    superset: &SupersetCluster,
    groups: &Vec<RoleGroupEntry>,
    i: usize,
    rolegroup: RoleGroupRef,
    authentication_class: Option<AuthenticationClass>,
) -> (r: (ReconcilePhase, ReconcileAction))
    requires
        i < groups@.len(),
    ensures
        builds_group(*superset, groups@, i as int, rolegroup, authentication_class, r),
{
    let config = &groups[i].config;
    let rg_service = match build_node_rolegroup_service(&rolegroup, superset) {
        Ok(s) => s,
        Err(e) => return finish(ReconcileAction::Abort(e)),
    };
    let rg_configmap = match build_rolegroup_config_map(&rolegroup, superset, config, &authentication_class) {
        Ok(m) => m,
        Err(e) => return finish(ReconcileAction::Abort(e)),
    };
    let rg_statefulset = match build_server_rolegroup_statefulset(&rolegroup, superset, config, &authentication_class) {
        Ok(s) => s,
        Err(e) => return finish(ReconcileAction::Abort(e)),
    };
    (
        ReconcilePhase::ServiceSent { group: i, rolegroup, config_map: rg_configmap, statefulset: rg_statefulset },
        ReconcileAction::ApplyService(rg_service),
    )
}

fn begin_group(superset: &SupersetCluster, groups: &Vec<RoleGroupEntry>, i: usize) -> (r: (
    ReconcilePhase,
    ReconcileAction,
))
    ensures
        begins_group(*superset, groups@, i as int, r),
{
    if i >= groups.len() {
        return finish(ReconcileAction::Done);
    }
    let rolegroup = match superset.node_rolegroup_ref(groups[i].name.as_str()) {
        Ok(g) => g,
        Err(e) => return finish(ReconcileAction::Abort(e)),
    };
    match resolve_authentication_class(superset) {
        Err(e) => finish(ReconcileAction::Abort(e)),
        Ok(None) => {
            let ghost rg = rolegroup;
            let r = build_group(superset, groups, i, rolegroup, None);
            assert(is_group_ref(rg, *superset, groups@[i as int].name@) && builds_group(*superset, groups@, i as int, rg, None, r));
            r
        },
        Ok(Some(name)) => {
            let fetch = name.clone();
            (
                ReconcilePhase::Fetching { group: i, rolegroup, name },
                ReconcileAction::FetchAuthenticationClass(fetch),
            )
        },
    }
}

/// One step of a reconciliation pass: from where the pass stands and how the
/// last action went, the next phase and the action to perform. The pass checks
/// that the product version and the node role are declared, applies the role
/// service, then, for each role group in turn, fetches its
/// authentication class if one is referenced and applies its service, config
/// map and stateful set, in that order; it ends at the first failure. A
/// finished pass, whether done or aborted, takes no further step.
pub fn reconcile_step(
    superset: &SupersetCluster,
    groups: &Vec<RoleGroupEntry>,
    phase: ReconcilePhase,
    event: ReconcileEvent,
) -> (r: (ReconcilePhase, ReconcileAction))
    requires
        phase_wf(phase, groups@.len()),
        !(phase is Finished),
    ensures
        phase_wf(r.0, groups@.len()),
        match phase {
            ReconcilePhase::Start => if superset.spec.version is None {
                ends_with(r, ReconcileAction::Abort(Error::NoSupersetVersion))
            } else if superset.spec.nodes is None {
                ends_with(r, ReconcileAction::Abort(Error::NoNodeRole))
            } else {
                match node_role_service(*superset) {
                    Err(e) => ends_with(r, ReconcileAction::Abort(e)),
                    Ok(s) => r.0 is RoleServiceSent && (r.1 matches ReconcileAction::ApplyService(x) && x@ == s),
                }
            },
            ReconcilePhase::RoleServiceSent => match event {
                ReconcileEvent::Failed => ends_with(r, ReconcileAction::Abort(Error::ApplyRoleService)),
                _ => begins_group(*superset, groups@, 0, r),
            },
            ReconcilePhase::Fetching { group, rolegroup, name } => match event {
                ReconcileEvent::Fetched(ac) => builds_group(*superset, groups@, group as int, rolegroup, Some(ac), r),
                _ => r.0 is Finished && (r.1 matches ReconcileAction::Abort(
                    Error::AuthenticationClassRetrieval { authentication_class },
                ) && authentication_class@ == name@),
            },
            ReconcilePhase::ServiceSent { group, rolegroup, config_map, statefulset } => match event {
                ReconcileEvent::Failed => ends_with(r, ReconcileAction::Abort(Error::ApplyRoleGroupService { rolegroup })),
                _ => r.0 == (ReconcilePhase::ConfigMapSent { group, rolegroup, statefulset })
                    && r.1 == ReconcileAction::ApplyConfigMap(config_map),
            },
            ReconcilePhase::ConfigMapSent { group, rolegroup, statefulset } => match event {
                ReconcileEvent::Failed => ends_with(r, ReconcileAction::Abort(Error::ApplyRoleGroupConfigMap { rolegroup })),
                _ => r.0 == (ReconcilePhase::StatefulSetSent { group, rolegroup })
                    && r.1 == ReconcileAction::ApplyStatefulSet(statefulset),
            },
            ReconcilePhase::StatefulSetSent { group, rolegroup } => match event {
                ReconcileEvent::Failed => ends_with(r, ReconcileAction::Abort(Error::ApplyRoleGroupStatefulSet { rolegroup })),
                _ => begins_group(*superset, groups@, group + 1, r),
            },
            ReconcilePhase::Finished => true,
        },
{
    let group_count = groups.len();
    match phase {
        ReconcilePhase::Start => {
            if superset.spec.version.is_none() {
                return finish(ReconcileAction::Abort(Error::NoSupersetVersion));
            }
            if superset.spec.nodes.is_none() {
                return finish(ReconcileAction::Abort(Error::NoNodeRole));
            }
            match build_node_role_service(superset) {
                Err(e) => finish(ReconcileAction::Abort(e)),
                Ok(s) => (ReconcilePhase::RoleServiceSent, ReconcileAction::ApplyService(s)),
            }
        },
        ReconcilePhase::RoleServiceSent => match event {
            ReconcileEvent::Failed => finish(ReconcileAction::Abort(Error::ApplyRoleService)),
            _ => begin_group(superset, groups, 0),
        },
        ReconcilePhase::Fetching { group, rolegroup, name } => match event {
            ReconcileEvent::Fetched(ac) => build_group(superset, groups, group, rolegroup, Some(ac)),
            _ => finish(ReconcileAction::Abort(Error::AuthenticationClassRetrieval { authentication_class: name })),
        },
        ReconcilePhase::ServiceSent { group, rolegroup, config_map, statefulset } => match event {
            ReconcileEvent::Failed => finish(ReconcileAction::Abort(Error::ApplyRoleGroupService { rolegroup })),
            _ => (
                ReconcilePhase::ConfigMapSent { group, rolegroup, statefulset },
                ReconcileAction::ApplyConfigMap(config_map),
            ),
        },
        ReconcilePhase::ConfigMapSent { group, rolegroup, statefulset } => match event {
            ReconcileEvent::Failed => finish(ReconcileAction::Abort(Error::ApplyRoleGroupConfigMap { rolegroup })),
            _ => (ReconcilePhase::StatefulSetSent { group, rolegroup }, ReconcileAction::ApplyStatefulSet(statefulset)),
        },
        ReconcilePhase::StatefulSetSent { group, rolegroup } => match event {
            ReconcileEvent::Failed => finish(ReconcileAction::Abort(Error::ApplyRoleGroupStatefulSet { rolegroup })),
            _ => begin_group(superset, groups, group + 1),
        },
        ReconcilePhase::Finished => finish(ReconcileAction::Done),
    }
}

/// What the scheduler does once a pass has ended.
#[derive(Clone, Debug, PartialEq, Eq)]
pub struct ReconcilerAction {
    /// Seconds to wait before the next pass, if one is to be scheduled.
    pub requeue_after_secs: Option<u64>,
}

/// Delay before a failed pass is tried again, in seconds.
pub const RETRY_DELAY_SECS: u64 = 5;

/// The retry policy after a failed pass: every error is retried after the same
/// fixed delay, with no backoff and no limit.
pub fn error_policy(_error: &Error) -> (r: ReconcilerAction)
    ensures
        r.requeue_after_secs == Some(RETRY_DELAY_SECS),
{
    ReconcilerAction { requeue_after_secs: Some(RETRY_DELAY_SECS) }
}

} // verus!
