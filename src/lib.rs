//! Policy-compliance watcher core: classifies workload snapshots and
//! reconciles a stream of watch events into violation notifications.

pub mod workload;

pub use workload::{has_node_selector, workload_ref, PodSpec, WorkloadRef, WorkloadSnapshot, WorkloadSpec};

pub mod config;

pub use config::{parse_ignored_namespaces, should_ignore_namespace, IgnoredNamespaces};

pub mod message;

pub use message::{batch_message, single_message};

pub mod reconcile;

pub use reconcile::{Notification, Reconciler, WatchEvent};

pub mod laws;
