use nodeselector_notify::{batch_message, single_message, WorkloadRef};

fn wref(ns: &str, name: &str) -> WorkloadRef {
    WorkloadRef { namespace: ns.to_string(), name: name.to_string() }
}

#[test]
fn single_message_text() {
    assert_eq!(
        single_message("prod", "web"),
        "⚠️ Deployment missing nodeSelector\nenv: prod\nname: web"
    );
}

#[test]
fn batch_message_text() {
    let refs = vec![wref("apps", "web"), wref("ops", "cron")];
    assert_eq!(
        batch_message("staging", &refs),
        "⚠️ Found 2 deployment(s) missing nodeSelector\nenv: staging\n• apps/web\n• ops/cron"
    );
}

#[test]
fn batch_message_counts_in_decimal() {
    let refs: Vec<WorkloadRef> = (0..12).map(|i| wref("ns", &format!("d{}", i))).collect();
    let text = batch_message("dev", &refs);
    assert!(text.starts_with("⚠️ Found 12 deployment(s) missing nodeSelector\nenv: dev\n• ns/d0\n"));
    assert!(text.ends_with("• ns/d10\n• ns/d11"));
    assert_eq!(text.lines().count(), 2 + 12);
}

#[test]
fn batch_message_single_entry() {
    assert_eq!(
        batch_message("unknown", &vec![wref("default", "unknown")]),
        "⚠️ Found 1 deployment(s) missing nodeSelector\nenv: unknown\n• default/unknown"
    );
}
