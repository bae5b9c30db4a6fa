use nodeselector_notify::{
    has_node_selector, parse_ignored_namespaces, should_ignore_namespace, workload_ref, PodSpec,
    WorkloadSnapshot, WorkloadSpec,
};

fn snapshot(selector: Option<Vec<(String, String)>>) -> WorkloadSnapshot {
    WorkloadSnapshot {
        namespace: Some("apps".to_string()),
        name: Some("web".to_string()),
        spec: Some(WorkloadSpec { template_spec: Some(PodSpec { node_selector: selector }) }),
    }
}

#[test]
fn non_empty_selector_complies() {
    let w = snapshot(Some(vec![("pool".to_string(), "general".to_string())]));
    assert!(has_node_selector(&w));
}

#[test]
fn empty_selector_does_not_comply() {
    assert!(!has_node_selector(&snapshot(Some(vec![]))));
}

#[test]
fn absent_selector_does_not_comply() {
    assert!(!has_node_selector(&snapshot(None)));
}

#[test]
fn missing_template_spec_does_not_comply() {
    let w = WorkloadSnapshot {
        namespace: None,
        name: None,
        spec: Some(WorkloadSpec { template_spec: None }),
    };
    assert!(!has_node_selector(&w));
}

#[test]
fn missing_spec_does_not_comply() {
    let w = WorkloadSnapshot { namespace: None, name: None, spec: None };
    assert!(!has_node_selector(&w));
}

#[test]
fn missing_fields_get_placeholders() {
    let w = WorkloadSnapshot { namespace: None, name: None, spec: None };
    let r = workload_ref(&w);
    assert_eq!(format!("{}/{}", r.namespace, r.name), "default/unknown");
}

#[test]
fn present_fields_are_kept() {
    let r = workload_ref(&snapshot(None));
    assert_eq!(r.namespace, "apps");
    assert_eq!(r.name, "web");
}

#[test]
fn parse_trims_and_drops_empty_entries() {
    let ignored = parse_ignored_namespaces(" kube-system, ,monitoring ,,\tlogging\n");
    assert_eq!(
        ignored.names(),
        vec!["kube-system".to_string(), "monitoring".to_string(), "logging".to_string()]
    );
    assert_eq!(ignored.len(), 3);
}

#[test]
fn parse_empty_value_gives_empty_set() {
    let ignored = parse_ignored_namespaces("");
    assert!(ignored.is_empty());
    assert!(!should_ignore_namespace("", &ignored));
}

#[test]
fn parse_whitespace_only_value_gives_empty_set() {
    assert!(parse_ignored_namespaces(" ,\u{3000}, \u{a0} ").is_empty());
}

#[test]
fn parse_trims_unicode_white_space() {
    let ignored = parse_ignored_namespaces("\u{3000}batch\u{2003}");
    assert_eq!(ignored.names(), vec!["batch".to_string()]);
}

#[test]
fn parse_single_entry_without_comma() {
    assert_eq!(parse_ignored_namespaces("ops").names(), vec!["ops".to_string()]);
}

#[test]
fn exclusion_is_exact_membership() {
    let ignored = parse_ignored_namespaces("kube-system,monitoring");
    assert!(should_ignore_namespace("kube-system", &ignored));
    assert!(should_ignore_namespace("monitoring", &ignored));
    assert!(!should_ignore_namespace("kube", &ignored));
    assert!(!should_ignore_namespace("Kube-System", &ignored));
    assert!(!should_ignore_namespace("kube-system ", &ignored));
    assert!(!should_ignore_namespace("default", &ignored));
}

#[test]
fn empty_set_excludes_nothing() {
    let ignored = nodeselector_notify::IgnoredNamespaces::empty();
    assert_eq!(ignored.len(), 0);
    assert!(!should_ignore_namespace("default", &ignored));
}

#[test]
fn repeated_names_collapse_to_one() {
    let ignored = parse_ignored_namespaces("a, a ,a");
    assert_eq!(ignored.names(), vec!["a".to_string()]);
    assert_eq!(ignored.len(), 1);
    assert!(should_ignore_namespace("a", &ignored));
}

#[test]
fn repeated_names_keep_first_order() {
    let ignored = parse_ignored_namespaces("b,a,b, c ,a");
    assert_eq!(ignored.names(), vec!["b".to_string(), "a".to_string(), "c".to_string()]);
}
