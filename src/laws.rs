use vstd::prelude::*;
use crate::reconcile::{reportable, run, step_spec, NoticeView, WatchEvent};
use crate::workload::{compliant, namespace_of, ref_of, WorkloadSnapshot};

verus! {

/// The workload that an item event carries, if any.
pub open spec fn event_workload(e: WatchEvent) -> Option<WorkloadSnapshot> {
    match e {
        WatchEvent::PrimingItem(w) => Some(w),
        WatchEvent::Upserted(w) => Some(w),
        WatchEvent::Removed(w) => Some(w),
        _ => None,
    }
}

/// The priming events that list `items`, in order.
pub open spec fn priming_items(items: Seq<WorkloadSnapshot>) -> Seq<WatchEvent> {
    items.map_values(|w: WorkloadSnapshot| WatchEvent::PrimingItem(w))
}

/// The identities of the reportable workloads among `items`, in order.
pub open spec fn violations(ignored: Seq<Seq<char>>, items: Seq<WorkloadSnapshot>) -> Seq<
    (Seq<char>, Seq<char>),
> {
    items.filter(|w: WorkloadSnapshot| reportable(ignored, w)).map_values(
        |w: WorkloadSnapshot| ref_of(w),
    )
}

proof fn lemma_run_one(
    ignored: Seq<Seq<char>>,
    batch: Seq<(Seq<char>, Seq<char>)>,
    events: Seq<WatchEvent>,
    e: WatchEvent,
)
    ensures
        run(ignored, batch, events.push(e)).0 == step_spec(
            ignored,
            run(ignored, batch, events).0,
            e,
        ).0,
        run(ignored, batch, events.push(e)).1 == match step_spec(
            ignored,
            run(ignored, batch, events).0,
            e,
        ).1 {
            Some(n) => run(ignored, batch, events).1.push(n),
            None => run(ignored, batch, events).1,
        },
{
    assert(events.push(e).drop_last() =~= events);
}

/// An event for a workload in an excluded namespace leaves the batch as it is and
/// asks for no notification, whether or not the workload complies.
pub proof fn lemma_excluded_namespace_silent(
    ignored: Seq<Seq<char>>,
    batch: Seq<(Seq<char>, Seq<char>)>,
    e: WatchEvent,
)
    requires
        event_workload(e) is Some,
        ignored.contains(namespace_of(event_workload(e)->0)),
    ensures
        step_spec(ignored, batch, e) == (batch, None::<NoticeView>),
{
}

/// Delivering the same compliant workload update twice asks for no notification
/// either time and leaves the batch as it is.
pub proof fn lemma_compliant_update_twice(
    ignored: Seq<Seq<char>>,
    batch: Seq<(Seq<char>, Seq<char>)>,
    w: WorkloadSnapshot,
)
    requires
        compliant(w),
    ensures
        run(ignored, batch, seq![WatchEvent::Upserted(w), WatchEvent::Upserted(w)]) == (
            batch,
            Seq::<NoticeView>::empty(),
        ),
{
    let e = WatchEvent::Upserted(w);
    lemma_run_one(ignored, batch, Seq::empty(), e);
    lemma_run_one(ignored, batch, seq![e], e);
    assert(Seq::<WatchEvent>::empty().push(e) =~= seq![e]);
    assert(seq![e].push(e) =~= seq![e, e]);
}

proof fn lemma_priming_collects(
    ignored: Seq<Seq<char>>,
    batch: Seq<(Seq<char>, Seq<char>)>,
    items: Seq<WorkloadSnapshot>,
)
    ensures
        run(ignored, batch, seq![WatchEvent::PrimingStarted] + priming_items(items)) == (
            violations(ignored, items),
            Seq::<NoticeView>::empty(),
        ),
    decreases items.len(),
{
    reveal(Seq::filter);
    let start = seq![WatchEvent::PrimingStarted];
    if items.len() == 0 {
        assert(start + priming_items(items) =~= Seq::<WatchEvent>::empty().push(
            WatchEvent::PrimingStarted,
        ));
        lemma_run_one(ignored, batch, Seq::empty(), WatchEvent::PrimingStarted);
        assert(violations(ignored, items) =~= Seq::empty());
    } else {
        let rest = items.drop_last();
        let w = items.last();
        lemma_priming_collects(ignored, batch, rest);
        assert(start + priming_items(items) =~= (start + priming_items(rest)).push(
            WatchEvent::PrimingItem(w),
        ));
        lemma_run_one(ignored, batch, start + priming_items(rest), WatchEvent::PrimingItem(w));
        let pred = |x: WorkloadSnapshot| reportable(ignored, x);
        assert(items.filter(pred) == if pred(w) {
            rest.filter(pred).push(w)
        } else {
            rest.filter(pred)
        });
        if reportable(ignored, w) {
            assert(violations(ignored, items) =~= violations(ignored, rest).push(ref_of(w)));
        } else {
            assert(violations(ignored, items) =~= violations(ignored, rest));
        }
    }
}

/// A priming phase over `items` ends with one batch notification that lists exactly
/// the non-compliant, non-excluded items in the order observed, or with none when
/// there are no such items; the batch is empty afterwards.
pub proof fn lemma_priming_batch(
    ignored: Seq<Seq<char>>,
    batch: Seq<(Seq<char>, Seq<char>)>,
    items: Seq<WorkloadSnapshot>,
)
    ensures
        ({
            let events = seq![WatchEvent::PrimingStarted] + priming_items(items) + seq![
                WatchEvent::PrimingComplete,
            ];
            let k = violations(ignored, items);
            &&& run(ignored, batch, events).0 == Seq::<(Seq<char>, Seq<char>)>::empty()
            &&& run(ignored, batch, events).1 == if k.len() == 0 {
                Seq::<NoticeView>::empty()
            } else {
                seq![NoticeView::Batch(k)]
            }
        }),
{
    let prefix = seq![WatchEvent::PrimingStarted] + priming_items(items);
    lemma_priming_collects(ignored, batch, items);
    lemma_run_one(ignored, batch, prefix, WatchEvent::PrimingComplete);
    assert(prefix + seq![WatchEvent::PrimingComplete] =~= prefix.push(
        WatchEvent::PrimingComplete,
    ));
    assert(Seq::<NoticeView>::empty().push(NoticeView::Batch(violations(ignored, items)))
        =~= seq![NoticeView::Batch(violations(ignored, items))]);
}

/// An update never adds to the batch, and a priming item never asks for a
/// notification of its own.
pub proof fn lemma_phase_isolation(
    ignored: Seq<Seq<char>>,
    batch: Seq<(Seq<char>, Seq<char>)>,
    w: WorkloadSnapshot,
)
    ensures
        step_spec(ignored, batch, WatchEvent::Upserted(w)).0 == batch,
        step_spec(ignored, batch, WatchEvent::PrimingItem(w)).1 is None,
{
}

/// A second start of priming discards what the first one collected: the phase
/// ends without any notification and with an empty batch.
pub proof fn lemma_priming_restart(
    ignored: Seq<Seq<char>>,
    batch: Seq<(Seq<char>, Seq<char>)>,
    a: WorkloadSnapshot,
)
    ensures
        run(
            ignored,
            batch,
            seq![
                WatchEvent::PrimingStarted,
                WatchEvent::PrimingItem(a),
                WatchEvent::PrimingStarted,
                WatchEvent::PrimingComplete,
            ],
        ) == (Seq::<(Seq<char>, Seq<char>)>::empty(), Seq::<NoticeView>::empty()),
{
    let e0 = WatchEvent::PrimingStarted;
    let e1 = WatchEvent::PrimingItem(a);
    let e3 = WatchEvent::PrimingComplete;
    lemma_run_one(ignored, batch, Seq::empty(), e0);
    lemma_run_one(ignored, batch, seq![e0], e1);
    lemma_run_one(ignored, batch, seq![e0, e1], e0);
    lemma_run_one(ignored, batch, seq![e0, e1, e0], e3);
    assert(Seq::<WatchEvent>::empty().push(e0) =~= seq![e0]);
    assert(seq![e0].push(e1) =~= seq![e0, e1]);
    assert(seq![e0, e1].push(e0) =~= seq![e0, e1, e0]);
    assert(seq![e0, e1, e0].push(e3) =~= seq![e0, e1, e0, e3]);
}

/// Whatever became of the notification for an earlier event, an update of a
/// reportable workload that follows it still asks for its own notification.
pub proof fn lemma_next_event_still_reported(
    ignored: Seq<Seq<char>>,
    batch: Seq<(Seq<char>, Seq<char>)>,
    events: Seq<WatchEvent>,
    w: WorkloadSnapshot,
)
    requires
        reportable(ignored, w),
    ensures
        run(ignored, batch, events.push(WatchEvent::Upserted(w))).1 == run(
            ignored,
            batch,
            events,
        ).1.push(NoticeView::Single(ref_of(w))),
{
    lemma_run_one(ignored, batch, events, WatchEvent::Upserted(w));
}

/// Over a whole priming phase, no workload of an excluded namespace is listed in
/// the batch, compliant or not; when every workload that lacks a node selector lies
/// in an excluded namespace, the phase sends no notification at all.
pub proof fn lemma_priming_skips_excluded(
    ignored: Seq<Seq<char>>,
    batch: Seq<(Seq<char>, Seq<char>)>,
    items: Seq<WorkloadSnapshot>,
)
    ensures
        forall|i: int|
            0 <= i < violations(ignored, items).len() ==> !ignored.contains(
                #[trigger] violations(ignored, items)[i].0,
            ),
        (forall|j: int| 0 <= j < items.len() && !compliant(#[trigger] items[j]) ==> ignored.contains(
            namespace_of(items[j]),
        )) ==> run(
            ignored,
            batch,
            seq![WatchEvent::PrimingStarted] + priming_items(items) + seq![
                WatchEvent::PrimingComplete,
            ],
        ).1 == Seq::<NoticeView>::empty(),
{
    let pred = |w: WorkloadSnapshot| reportable(ignored, w);
    items.filter_lemma(pred);
    lemma_priming_batch(ignored, batch, items);
    assert forall|i: int| 0 <= i < violations(ignored, items).len() implies !ignored.contains(
        #[trigger] violations(ignored, items)[i].0,
    ) by {
        assert(pred(items.filter(pred)[i]));
    }
    if forall|j: int| 0 <= j < items.len() && !compliant(#[trigger] items[j]) ==> ignored.contains(
        namespace_of(items[j]),
    ) {
        if items.filter(pred).len() > 0 {
            let w = items.filter(pred)[0];
            assert(items.filter(pred).contains(w));
            items.lemma_filter_contains_rev(pred, w);
            let j = choose|j: int| 0 <= j < items.len() && items[j] == w;
            assert(!compliant(items[j]));
        }
    }
}

} // verus!
