use vstd::prelude::*;
use vstd::string::StringExecFns;

verus! {

/// The scheduling part of a pod template: its node-selector entries, if declared.
pub struct PodSpec {
    pub node_selector: Option<Vec<(String, String)>>,
}

/// The workload specification: the pod template's spec, if present.
pub struct WorkloadSpec {
    pub template_spec: Option<PodSpec>,
}

/// One observed workload, as the watch transport reports it.
pub struct WorkloadSnapshot {
    pub namespace: Option<String>,
    pub name: Option<String>,
    pub spec: Option<WorkloadSpec>,
}

/// Identity of a workload for reporting: its namespace and name.
pub struct WorkloadRef {
    pub namespace: String,
    pub name: String,
}

impl View for WorkloadRef {
    type V = (Seq<char>, Seq<char>);

    open spec fn view(&self) -> (Seq<char>, Seq<char>) {
        (self.namespace@, self.name@)
    }
}

/// Namespace reported for a workload that carries none.
pub open spec fn default_namespace() -> Seq<char> {
    seq!['d', 'e', 'f', 'a', 'u', 'l', 't']
}

/// Name reported for a workload that carries none.
pub open spec fn unknown_name() -> Seq<char> {
    seq!['u', 'n', 'k', 'n', 'o', 'w', 'n']
}

/// A workload complies when its pod template declares at least one node-selector entry;
/// any missing level counts as non-compliance.
pub open spec fn compliant(w: WorkloadSnapshot) -> bool {
    match w.spec {
        Some(s) => match s.template_spec {
            Some(p) => match p.node_selector {
                Some(sel) => sel@.len() > 0,
                None => false,
            },
            None => false,
        },
        None => false,
    }
}

/// The namespace of a workload, with the placeholder where it is missing.
pub open spec fn namespace_of(w: WorkloadSnapshot) -> Seq<char> {
    match w.namespace {
        Some(ns) => ns@,
        None => default_namespace(),
    }
}

/// The name of a workload, with the placeholder where it is missing.
pub open spec fn name_of(w: WorkloadSnapshot) -> Seq<char> {
    match w.name {
        Some(n) => n@,
        None => unknown_name(),
    }
}

/// The reporting identity of a workload.
pub open spec fn ref_of(w: WorkloadSnapshot) -> (Seq<char>, Seq<char>) {
    (namespace_of(w), name_of(w))
}

/// Whether the workload's pod template has a non-empty node selector.
pub fn has_node_selector(w: &WorkloadSnapshot) -> (r: bool)
    ensures
        r == compliant(*w),
{
    match &w.spec {
        Some(s) => match &s.template_spec {
            Some(p) => match &p.node_selector {
                Some(sel) => sel.len() > 0,
                None => false,
            },
            None => false,
        },
        None => false,
    }
}

/// The namespace of the workload, or "default" where it has none.
pub fn namespace_or_default(w: &WorkloadSnapshot) -> (r: String)
    ensures
        r@ == namespace_of(*w),
{
    match &w.namespace {
        Some(ns) => ns.clone(),
        None => {
            proof {
                reveal_strlit("default");
            }
            String::from_str("default")
        },
    }
}

/// The name of the workload, or "unknown" where it has none.
pub fn name_or_unknown(w: &WorkloadSnapshot) -> (r: String)
    ensures
        r@ == name_of(*w),
{
    match &w.name {
        Some(n) => n.clone(),
        None => {
            proof {
                reveal_strlit("unknown");
            }
            String::from_str("unknown")
        },
    }
}

/// The reporting identity of the workload, with placeholders for missing fields.
pub fn workload_ref(w: &WorkloadSnapshot) -> (r: WorkloadRef)
    ensures
        r@ == ref_of(*w),
{
    WorkloadRef { namespace: namespace_or_default(w), name: name_or_unknown(w) }
}

} // verus!
