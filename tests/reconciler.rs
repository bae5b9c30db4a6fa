use nodeselector_notify::{
    parse_ignored_namespaces, Notification, PodSpec, Reconciler, WatchEvent, WorkloadSnapshot,
    WorkloadSpec,
};

fn workload(ns: &str, name: &str, compliant: bool) -> WorkloadSnapshot {
    let selector = if compliant {
        vec![("pool".to_string(), "general".to_string())]
    } else {
        vec![]
    };
    WorkloadSnapshot {
        namespace: Some(ns.to_string()),
        name: Some(name.to_string()),
        spec: Some(WorkloadSpec { template_spec: Some(PodSpec { node_selector: Some(selector) }) }),
    }
}

fn reconciler(ignored: &str) -> Reconciler {
    Reconciler::new(parse_ignored_namespaces(ignored), "prod".to_string())
}

/// Runs the events and returns the notifications as "single ns/name" or
/// "batch ns/name,ns/name" lines.
fn run(r: &mut Reconciler, events: Vec<WatchEvent>) -> Vec<String> {
    let mut out = Vec::new();
    for e in events.iter() {
        if let Some(n) = r.step(e) {
            out.push(describe(&n));
        }
    }
    out
}

fn describe(n: &Notification) -> String {
    match n {
        Notification::Single(x) => format!("single {}/{}", x.namespace, x.name),
        Notification::Batch(v) => format!(
            "batch {}",
            v.iter().map(|x| format!("{}/{}", x.namespace, x.name)).collect::<Vec<_>>().join(",")
        ),
    }
}

#[test]
fn excluded_namespace_produces_nothing() {
    let mut r = reconciler("kube-system");
    let out = run(
        &mut r,
        vec![
            WatchEvent::PrimingStarted,
            WatchEvent::PrimingItem(workload("kube-system", "dns", false)),
            WatchEvent::PrimingItem(workload("kube-system", "proxy", true)),
            WatchEvent::PrimingComplete,
            WatchEvent::Upserted(workload("kube-system", "dns", false)),
            WatchEvent::Removed(workload("kube-system", "dns", false)),
        ],
    );
    assert!(out.is_empty());
    assert_eq!(r.pending(), 0);
}

#[test]
fn compliant_update_twice_is_silent() {
    let mut r = reconciler("");
    let out = run(
        &mut r,
        vec![
            WatchEvent::Upserted(workload("apps", "web", true)),
            WatchEvent::Upserted(workload("apps", "web", true)),
        ],
    );
    assert!(out.is_empty());
}

#[test]
fn batch_lists_violations_in_order() {
    let mut r = reconciler("ops");
    let out = run(
        &mut r,
        vec![
            WatchEvent::PrimingStarted,
            WatchEvent::PrimingItem(workload("b", "zeta", false)),
            WatchEvent::PrimingItem(workload("a", "ok", true)),
            WatchEvent::PrimingItem(workload("ops", "skip", false)),
            WatchEvent::PrimingItem(workload("a", "alpha", false)),
            WatchEvent::PrimingComplete,
        ],
    );
    assert_eq!(out, vec!["batch b/zeta,a/alpha".to_string()]);
    assert_eq!(r.pending(), 0);
}

#[test]
fn no_batch_without_violations() {
    let mut r = reconciler("");
    let out = run(
        &mut r,
        vec![
            WatchEvent::PrimingStarted,
            WatchEvent::PrimingItem(workload("a", "ok", true)),
            WatchEvent::PrimingComplete,
        ],
    );
    assert!(out.is_empty());
}

#[test]
fn phase_isolation_scenario() {
    let mut r = reconciler("");
    let out = run(
        &mut r,
        vec![
            WatchEvent::PrimingStarted,
            WatchEvent::PrimingItem(workload("ns", "a", false)),
            WatchEvent::PrimingComplete,
            WatchEvent::Upserted(workload("ns", "b", false)),
        ],
    );
    assert_eq!(out, vec!["batch ns/a".to_string(), "single ns/b".to_string()]);
}

#[test]
fn upsert_while_priming_is_not_batched() {
    let mut r = reconciler("");
    let out = run(
        &mut r,
        vec![
            WatchEvent::PrimingStarted,
            WatchEvent::Upserted(workload("ns", "b", false)),
            WatchEvent::PrimingComplete,
        ],
    );
    assert_eq!(out, vec!["single ns/b".to_string()]);
}

#[test]
fn restart_of_priming_clears_batch() {
    let mut r = reconciler("");
    let out = run(
        &mut r,
        vec![
            WatchEvent::PrimingStarted,
            WatchEvent::PrimingItem(workload("ns", "a", false)),
            WatchEvent::PrimingStarted,
            WatchEvent::PrimingComplete,
        ],
    );
    assert!(out.is_empty());
    assert_eq!(r.pending(), 0);
}

#[test]
fn priming_again_after_streaming() {
    let mut r = reconciler("");
    let out = run(
        &mut r,
        vec![
            WatchEvent::PrimingStarted,
            WatchEvent::PrimingItem(workload("ns", "a", false)),
            WatchEvent::PrimingComplete,
            WatchEvent::PrimingStarted,
            WatchEvent::PrimingItem(workload("ns", "c", false)),
            WatchEvent::PrimingComplete,
        ],
    );
    assert_eq!(out, vec!["batch ns/a".to_string(), "batch ns/c".to_string()]);
}

#[test]
fn next_event_after_failed_delivery_is_reported() {
    let mut r = reconciler("");
    let mut attempts = Vec::new();
    let events = vec![
        WatchEvent::Upserted(workload("ns", "first", false)),
        WatchEvent::Upserted(workload("ns", "second", false)),
    ];
    for (i, e) in events.iter().enumerate() {
        if let Some(n) = r.step(e) {
            let text = r.message(&n);
            // the sink fails on the first attempt and succeeds afterwards
            let delivered = i > 0;
            attempts.push((text, delivered));
        }
    }
    assert_eq!(attempts.len(), 2);
    assert!(!attempts[0].1);
    assert_eq!(attempts[1].0, "⚠️ Deployment missing nodeSelector\nenv: prod\nname: second");
}

#[test]
fn missing_fields_reported_as_default_unknown() {
    let mut r = reconciler("");
    let w = WorkloadSnapshot { namespace: None, name: None, spec: None };
    let out = run(
        &mut r,
        vec![WatchEvent::PrimingStarted, WatchEvent::PrimingItem(w), WatchEvent::PrimingComplete],
    );
    assert_eq!(out, vec!["batch default/unknown".to_string()]);
}

#[test]
fn missing_namespace_matches_excluded_default() {
    let mut r = reconciler("default");
    let w = WorkloadSnapshot { namespace: None, name: Some("x".to_string()), spec: None };
    assert!(run(&mut r, vec![WatchEvent::Upserted(w)]).is_empty());
}

#[test]
fn removed_event_is_silent() {
    let mut r = reconciler("");
    let out = run(&mut r, vec![WatchEvent::Removed(workload("ns", "gone", false))]);
    assert!(out.is_empty());
}

#[test]
fn batch_notification_text() {
    let mut r = reconciler("");
    r.step(&WatchEvent::PrimingStarted);
    r.step(&WatchEvent::PrimingItem(workload("apps", "web", false)));
    assert_eq!(r.pending(), 1);
    let n = r.step(&WatchEvent::PrimingComplete).expect("batch expected");
    assert_eq!(
        r.message(&n),
        "⚠️ Found 1 deployment(s) missing nodeSelector\nenv: prod\n• apps/web"
    );
    assert_eq!(r.env_label(), "prod");
}

#[test]
fn priming_phase_never_lists_excluded_namespace() {
    let mut r = reconciler("kube-system,ops");
    let out = run(
        &mut r,
        vec![
            WatchEvent::PrimingStarted,
            WatchEvent::PrimingItem(workload("kube-system", "dns", false)),
            WatchEvent::PrimingItem(workload("apps", "web", false)),
            WatchEvent::PrimingItem(workload("ops", "cron", true)),
            WatchEvent::PrimingItem(workload("ops", "job", false)),
            WatchEvent::PrimingComplete,
        ],
    );
    assert_eq!(out, vec!["batch apps/web".to_string()]);
}

#[test]
fn priming_phase_with_only_excluded_violations_is_silent() {
    let mut r = reconciler("kube-system");
    let out = run(
        &mut r,
        vec![
            WatchEvent::PrimingStarted,
            WatchEvent::PrimingItem(workload("kube-system", "dns", false)),
            WatchEvent::PrimingItem(workload("apps", "web", true)),
            WatchEvent::PrimingComplete,
        ],
    );
    assert!(out.is_empty());
}
