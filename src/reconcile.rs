use vstd::prelude::*;
use crate::config::{should_ignore_namespace, IgnoredNamespaces};
use crate::message::{batch_message, batch_text, single_message, single_text};
use crate::workload::{
    compliant, has_node_selector, namespace_of, ref_of, workload_ref, WorkloadRef,
    WorkloadSnapshot,
};

verus! {

/// One event of the watch stream.
pub enum WatchEvent {
    /// The transport begins (or begins again) listing every workload.
    PrimingStarted,
    /// A workload listed while priming.
    PrimingItem(WorkloadSnapshot),
    /// The listing is complete; incremental updates follow.
    PrimingComplete,
    /// A workload was added or changed.
    Upserted(WorkloadSnapshot),
    /// A workload was deleted.
    Removed(WorkloadSnapshot),
}

/// A notification that the reconciler asks to have delivered.
pub enum Notification {
    /// One workload found in steady state without a node selector.
    Single(WorkloadRef),
    /// All violations found while priming, in the order they were observed.
    Batch(Vec<WorkloadRef>),
}

/// What a notification reports, as mathematical values.
pub enum NoticeView {
    Single((Seq<char>, Seq<char>)),
    Batch(Seq<(Seq<char>, Seq<char>)>),
}

/// The identities held by a vector of workload references.
pub open spec fn refs_view(v: Seq<WorkloadRef>) -> Seq<(Seq<char>, Seq<char>)> {
    v.map_values(|x: WorkloadRef| x@)
}

impl View for Notification {
    type V = NoticeView;

    open spec fn view(&self) -> NoticeView {
        match self {
            Notification::Single(r) => NoticeView::Single(r@),
            Notification::Batch(v) => NoticeView::Batch(refs_view(v@)),
        }
    }
}

/// The view of an optional notification.
pub open spec fn opt_notice(n: Option<Notification>) -> Option<NoticeView> {
    match n {
        Some(x) => Some(x@),
        None => None,
    }
}

/// A workload is reported when its namespace is not excluded and it does not comply.
pub open spec fn reportable(ignored: Seq<Seq<char>>, w: WorkloadSnapshot) -> bool {
    !ignored.contains(namespace_of(w)) && !compliant(w)
}

/// The effect of one event: the batch that follows it and the notification it asks for.
pub open spec fn step_spec(
    ignored: Seq<Seq<char>>,
    batch: Seq<(Seq<char>, Seq<char>)>,
    e: WatchEvent,
) -> (Seq<(Seq<char>, Seq<char>)>, Option<NoticeView>) {
    match e {
        WatchEvent::PrimingStarted => (Seq::empty(), None),
        WatchEvent::PrimingItem(w) => (
            if reportable(ignored, w) {
                batch.push(ref_of(w))
            } else {
                batch
            },
            None,
        ),
        WatchEvent::PrimingComplete => (
            Seq::empty(),
            if batch.len() > 0 {
                Some(NoticeView::Batch(batch))
            } else {
                None
            },
        ),
        WatchEvent::Upserted(w) => (
            batch,
            if reportable(ignored, w) {
                Some(NoticeView::Single(ref_of(w)))
            } else {
                None
            },
        ),
        WatchEvent::Removed(_) => (batch, None),
    }
}

/// The effect of a sequence of events, in order: the final batch and every
/// notification asked for.
pub open spec fn run(
    ignored: Seq<Seq<char>>,
    batch: Seq<(Seq<char>, Seq<char>)>,
    events: Seq<WatchEvent>,
) -> (Seq<(Seq<char>, Seq<char>)>, Seq<NoticeView>)
    decreases events.len(),
{
    if events.len() == 0 {
        (batch, Seq::empty())
    } else {
        let prev = run(ignored, batch, events.drop_last());
        let next = step_spec(ignored, prev.0, events.last());
        (
            next.0,
            match next.1 {
                Some(n) => prev.1.push(n),
                None => prev.1,
            },
        )
    }
}

/// The text delivered for a notification.
pub open spec fn notice_text(env: Seq<char>, n: NoticeView) -> Seq<char> {
    match n {
        NoticeView::Single(r) => single_text(env, r.1),
        NoticeView::Batch(refs) => batch_text(env, refs),
    }
}

/// The reconciliation loop's state: the excluded namespaces, the environment label
/// and the violations collected during the current priming phase.
pub struct Reconciler {
    ignored: IgnoredNamespaces,
    env_label: String,
    batch: Vec<WorkloadRef>,
}

impl Reconciler {
    /// The excluded namespaces.
    pub closed spec fn ignored_view(&self) -> Seq<Seq<char>> {
        self.ignored@
    }

    /// The environment label that messages carry.
    pub closed spec fn env_view(&self) -> Seq<char> {
        self.env_label@
    }

    /// The violations collected so far in the current priming phase.
    pub closed spec fn batch_view(&self) -> Seq<(Seq<char>, Seq<char>)> {
        refs_view(self.batch@)
    }

    /// A reconciler with an empty batch.
    pub fn new(ignored: IgnoredNamespaces, env_label: String) -> (r: Reconciler)
        ensures
            r.ignored_view() == ignored@,
            r.env_view() == env_label@,
            r.batch_view() == Seq::<(Seq<char>, Seq<char>)>::empty(),
    {
        let r = Reconciler { ignored, env_label, batch: Vec::new() };
        assert(r.batch_view() =~= Seq::<(Seq<char>, Seq<char>)>::empty());
        r
    }

    /// The environment label.
    pub fn env_label(&self) -> (r: &str)
        ensures
            r@ == self.env_view(),
    {
        self.env_label.as_str()
    }

    /// The excluded namespaces.
    pub fn ignored(&self) -> (r: &IgnoredNamespaces)
        ensures
            r@ == self.ignored_view(),
    {
        &self.ignored
    }

    /// The number of violations collected in the current priming phase.
    pub fn pending(&self) -> (r: usize)
        ensures
            r == self.batch_view().len(),
    {
        self.batch.len()
    }

    /// The workload's identity when it is to be reported (its namespace is not
    /// excluded and it has no node selector), else nothing.
    fn violation(&self, w: &WorkloadSnapshot) -> (r: Option<WorkloadRef>)
        ensures
            match r {
                Some(x) => reportable(self.ignored_view(), *w) && x@ == ref_of(*w),
                None => !reportable(self.ignored_view(), *w),
            },
    {
        let r = workload_ref(w);
        if should_ignore_namespace(r.namespace.as_str(), &self.ignored) {
            None
        } else if has_node_selector(w) {
            None
        } else {
            Some(r)
        }
    }

    /// Processes one event: updates the batch and returns the notification to
    /// deliver, if any. Delivery and its outcome are the caller's.
    pub fn step(&mut self, event: &WatchEvent) -> (r: Option<Notification>)
        ensures
            final(self).ignored_view() == old(self).ignored_view(),
            final(self).env_view() == old(self).env_view(),
            (final(self).batch_view(), opt_notice(r)) == step_spec(
                old(self).ignored_view(),
                old(self).batch_view(),
                *event,
            ),
    {
        match event {
            WatchEvent::PrimingStarted => {
                self.batch.clear();
                assert(self.batch_view() =~= Seq::<(Seq<char>, Seq<char>)>::empty());
                None
            },
            WatchEvent::PrimingItem(w) => {
                match self.violation(w) {
                    Some(x) => {
                        let ghost before = self.batch@;
                        self.batch.push(x);
                        assert(self.batch_view() =~= refs_view(before).push(ref_of(*w)));
                    },
                    None => {},
                }
                None
            },
            WatchEvent::PrimingComplete => {
                let mut out: Vec<WorkloadRef> = Vec::new();
                std::mem::swap(&mut out, &mut self.batch);
                assert(self.batch_view() =~= Seq::<(Seq<char>, Seq<char>)>::empty());
                if out.len() > 0 {
                    Some(Notification::Batch(out))
                } else {
                    None
                }
            },
            WatchEvent::Upserted(w) => {
                match self.violation(w) {
                    Some(x) => Some(Notification::Single(x)),
                    None => None,
                }
            },
            WatchEvent::Removed(_) => None,
        }
    }

    /// The text to deliver for a notification, carrying this reconciler's
    /// environment label.
    pub fn message(&self, n: &Notification) -> (r: String)
        ensures
            r@ == notice_text(self.env_view(), n@),
    {
        match n {
            Notification::Single(x) => single_message(self.env_label.as_str(), x.name.as_str()),
            Notification::Batch(v) => batch_message(self.env_label.as_str(), v),
        }
    }
}

} // verus!
