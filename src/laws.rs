use vstd::prelude::*;
use crate::approval::{
    ack_text, advance, approve_token, final_label, is_match, offset_after, scan, step_spec,
    verdict, ActionView, AckView, ApprovalResult, EventView, QueryView, SessionView, UpdateView,
};

verus! {

/// The discard acknowledgements (empty text) of every callback in `ups`, in order.
pub open spec fn discards(ups: Seq<UpdateView>) -> Seq<AckView>
    decreases ups.len(),
{
    if ups.len() == 0 {
        seq![]
    } else {
        let rest = discards(ups.drop_first());
        match ups[0].callback {
            None => rest,
            Some(q) => seq![AckView { id: q.id, text: ""@ }] + rest,
        }
    }
}

/// The actions and final state of a session fed `es`, one step per event.
pub open spec fn run(s: SessionView, es: Seq<EventView>) -> (SessionView, Seq<ActionView>)
    decreases es.len(),
{
    if es.len() == 0 {
        (s, seq![])
    } else {
        let first = step_spec(s, es[0]);
        let rest = run(first.0, es.drop_first());
        (rest.0, seq![first.1] + rest.1)
    }
}

proof fn lemma_run_len(s: SessionView, es: Seq<EventView>)
    ensures
        run(s, es).1.len() == es.len(),
    decreases es.len(),
{
    if es.len() > 0 {
        lemma_run_len(step_spec(s, es[0]).0, es.drop_first());
    }
}

proof fn lemma_run_tail(s: SessionView, es: Seq<EventView>)
    requires
        es.len() > 0,
    ensures
        run(s, es).1.len() == es.len(),
        run(s, es).1[0] == step_spec(s, es[0]).1,
        forall|i: int|
            0 < i < es.len() ==> #[trigger] run(s, es).1[i] == run(
                step_spec(s, es[0]).0,
                es.drop_first(),
            ).1[i - 1],
{
    lemma_run_len(step_spec(s, es[0]).0, es.drop_first());
}

/// No event of `es` delivers a decision for request `rid`.
pub open spec fn no_decision_in(es: Seq<EventView>, rid: Seq<char>) -> bool {
    forall|i: int, j: int|
        #![trigger es[i], is_match(es[i]->Delivered_0[j], rid)]
        0 <= i < es.len() && es[i] is Delivered && 0 <= j < es[i]->Delivered_0.len()
            ==> !is_match(es[i]->Delivered_0[j], rid)
}

/// The event is a failed round or a clock reading with time left.
pub open spec fn is_wait_round(e: EventView) -> bool {
    e is Failed || (e is Clock && e->Clock_0 > 0)
}

/// After a batch the offset is the larger of the prior offset and one past
/// the largest update id of the batch, and it is never smaller than before.
pub proof fn lemma_offset_after_batch(prior: Option<int>, ups: Seq<UpdateView>)
    requires
        ups.len() > 0,
    ensures
        offset_after(prior, ups) is Some,
        prior is Some ==> offset_after(prior, ups)->0 >= prior->0,
        forall|i: int| 0 <= i < ups.len() ==> offset_after(prior, ups)->0 >= ups[i].update_id + 1,
        (prior is Some && offset_after(prior, ups)->0 == prior->0) || exists|i: int|
            0 <= i < ups.len() && offset_after(prior, ups)->0 == ups[i].update_id + 1,
    decreases ups.len(),
{
    let init = ups.drop_last();
    if init.len() == 0 {
        assert(offset_after(prior, init) == prior);
        assert(ups.len() == 1);
        assert(offset_after(prior, ups) == advance(prior, ups[0].update_id));
    } else {
        lemma_offset_after_batch(prior, init);
        let o = offset_after(prior, init)->0;
        assert(offset_after(prior, ups) == advance(Some(o), ups.last().update_id));
        assert forall|i: int| 0 <= i < ups.len() implies offset_after(prior, ups)->0 >= ups[i].update_id
            + 1 by {
            if i < init.len() {
                assert(init[i] == ups[i]);
            }
        }
        if !(prior is Some && offset_after(prior, ups)->0 == prior->0) {
            if offset_after(prior, ups)->0 != ups.last().update_id + 1 {
                let i = choose|i: int| 0 <= i < init.len() && o == init[i].update_id + 1;
                assert(ups[i] == init[i]);
            } else {
                assert(offset_after(prior, ups)->0 == ups[ups.len() - 1].update_id + 1);
            }
        }
    }
}

/// A polling session that receives a batch takes `offset_after` of that
/// batch as its new offset.
pub proof fn lemma_session_offset(s: SessionView, ups: Seq<UpdateView>)
    requires
        s.outcome is None,
    ensures
        step_spec(s, EventView::Delivered(ups)).0.offset == offset_after(s.offset, ups),
{
}

proof fn lemma_scan_no_match(ups: Seq<UpdateView>, rid: Seq<char>)
    requires
        forall|j: int| 0 <= j < ups.len() ==> !is_match(ups[j], rid),
    ensures
        scan(ups, rid) == (discards(ups), None::<ApprovalResult>),
    decreases ups.len(),
{
    if ups.len() > 0 {
        let rest = ups.drop_first();
        assert forall|j: int| 0 <= j < rest.len() implies !is_match(rest[j], rid) by {
            assert(rest[j] == ups[j + 1]);
        }
        lemma_scan_no_match(rest, rid);
        assert(!is_match(ups[0], rid));
        match ups[0].callback {
            None => {},
            Some(q) => {
                assert(verdict(q.data, rid) is None);
                assert(ack_text(verdict(q.data, rid)) == ""@);
            },
        }
    }
}

/// A batch in which no action token names the active request decides
/// nothing: each of its callbacks is acknowledged with an empty text and the
/// session keeps polling.
pub proof fn lemma_foreign_tokens_discarded(s: SessionView, ups: Seq<UpdateView>)
    requires
        s.outcome is None,
        forall|j: int| 0 <= j < ups.len() ==> !is_match(ups[j], s.request_id),
    ensures
        step_spec(s, EventView::Delivered(ups)).0.outcome is None,
        step_spec(s, EventView::Delivered(ups)).1 == (ActionView::Answer { acks: discards(ups) }),
{
    lemma_scan_no_match(ups, s.request_id);
}

proof fn lemma_scan_first_match(ups: Seq<UpdateView>, rid: Seq<char>, k: int)
    requires
        0 <= k < ups.len(),
        is_match(ups[k], rid),
        forall|j: int| 0 <= j < k ==> !is_match(ups[j], rid),
    ensures
        scan(ups, rid) == (
            discards(ups.take(k)) + seq![
                AckView {
                    id: ups[k].callback->0.id,
                    text: ack_text(verdict(ups[k].callback->0.data, rid)),
                },
            ],
            verdict(ups[k].callback->0.data, rid),
        ),
    decreases k,
{
    if k == 0 {
        assert(ups.take(0) =~= Seq::<UpdateView>::empty());
        assert(discards(ups.take(0)) == Seq::<AckView>::empty());
        let q = ups[0].callback->0;
        assert(seq![AckView { id: q.id, text: ack_text(verdict(q.data, rid)) }]
            =~= Seq::<AckView>::empty() + seq![
            AckView { id: q.id, text: ack_text(verdict(q.data, rid)) },
        ]);
    } else {
        let rest = ups.drop_first();
        assert forall|j: int| 0 <= j < k - 1 implies !is_match(rest[j], rid) by {
            assert(rest[j] == ups[j + 1]);
        }
        assert(rest[k - 1] == ups[k]);
        lemma_scan_first_match(rest, rid, k - 1);
        assert(!is_match(ups[0], rid));
        let pre = ups.take(k);
        assert(pre.drop_first() =~= rest.take(k - 1));
        assert(pre[0] == ups[0]);
        let last = seq![
            AckView {
                id: ups[k].callback->0.id,
                text: ack_text(verdict(ups[k].callback->0.data, rid)),
            },
        ];
        match ups[0].callback {
            None => {},
            Some(q) => {
                assert(verdict(q.data, rid) is None);
                let a = AckView { id: q.id, text: ""@ };
                assert(seq![a] + (discards(rest.take(k - 1)) + last) =~= (seq![a] + discards(
                    rest.take(k - 1),
                )) + last);
            },
        }
    }
}

/// The first update of a batch that carries `approve:` or `reject:` with the
/// active request id decides the round: the callbacks before it are
/// discarded, it alone gets the confirming acknowledgement, the buttons are
/// relabelled once, and nothing after it is looked at.
pub proof fn lemma_first_match_decides(s: SessionView, ups: Seq<UpdateView>, k: int)
    requires
        s.outcome is None,
        0 <= k < ups.len(),
        is_match(ups[k], s.request_id),
        forall|j: int| 0 <= j < k ==> !is_match(ups[j], s.request_id),
    ensures
        ({
            let r = verdict(ups[k].callback->0.data, s.request_id)->0;
            &&& step_spec(s, EventView::Delivered(ups)).0.outcome == Some(r)
            &&& step_spec(s, EventView::Delivered(ups)).1 == (ActionView::Decide {
                acks: discards(ups.take(k)) + seq![
                    AckView { id: ups[k].callback->0.id, text: ack_text(Some(r)) },
                ],
                label: final_label(r),
                result: r,
            })
        }),
{
    lemma_scan_first_match(ups, s.request_id, k);
}

/// A round that delivers only an Approve tap for the active request ends
/// the session as approved, with exactly one acknowledgement (the
/// confirming one) and one relabelling of the message.
pub proof fn lemma_lone_approve_round(s: SessionView, update_id: int, query_id: Seq<char>)
    requires
        s.outcome is None,
    ensures
        ({
            let tap = UpdateView {
                update_id,
                callback: Some(QueryView { id: query_id, data: approve_token(s.request_id) }),
            };
            let (next, act) = step_spec(s, EventView::Delivered(seq![tap]));
            &&& next.outcome == Some(ApprovalResult::Approved)
            &&& act == (ActionView::Decide {
                acks: seq![AckView { id: query_id, text: "✅ Approving…"@ }],
                label: "✅ Approved"@,
                result: ApprovalResult::Approved,
            })
        }),
{
    let tap = UpdateView {
        update_id,
        callback: Some(QueryView { id: query_id, data: approve_token(s.request_id) }),
    };
    let ups = seq![tap];
    assert(ups[0] == tap);
    assert(verdict(approve_token(s.request_id), s.request_id) == Some(ApprovalResult::Approved));
    assert(scan(ups, s.request_id) == (
        seq![AckView { id: query_id, text: ack_text(Some(ApprovalResult::Approved)) }],
        Some(ApprovalResult::Approved),
    ));
}

/// Once decided, a session never changes: whatever arrives later, its
/// state stays and every step only reports the decision.
pub proof fn lemma_decision_is_final(s: SessionView, es: Seq<EventView>)
    requires
        s.outcome is Some,
    ensures
        run(s, es).0 == s,
        forall|i: int| 0 <= i < es.len() ==> run(s, es).1[i] == (ActionView::Closed {
            result: s.outcome->0,
        }),
    decreases es.len(),
{
    if es.len() > 0 {
        lemma_run_tail(s, es);
        lemma_decision_is_final(s, es.drop_first());
        assert forall|i: int| 0 <= i < es.len() implies run(s, es).1[i] == (ActionView::Closed {
            result: s.outcome->0,
        }) by {
            if i > 0 {
                assert(run(s, es).1[i] == run(s, es.drop_first()).1[i - 1]);
            }
        }
    }
}

/// Without a matching token the session never finalizes: no step relabels
/// the message, and the session ends, if at all, in `Timeout`; it does end
/// so once the clock reports no time left.
pub proof fn lemma_no_match_times_out(s: SessionView, es: Seq<EventView>)
    requires
        s.outcome is None,
        no_decision_in(es, s.request_id),
    ensures
        forall|i: int| 0 <= i < es.len() ==> !(run(s, es).1[i] is Decide),
        run(s, es).0.outcome is None || run(s, es).0.outcome == Some(ApprovalResult::Timeout),
        (exists|i: int| 0 <= i < es.len() && es[i] == EventView::Clock(0)) ==> run(s, es).0.outcome
            == Some(ApprovalResult::Timeout),
    decreases es.len(),
{
    if es.len() > 0 {
        lemma_run_tail(s, es);
        let e = es[0];
        let s1 = step_spec(s, e).0;
        let rest = es.drop_first();
        if let EventView::Delivered(ups) = e {
            assert forall|j: int| 0 <= j < ups.len() implies !is_match(ups[j], s.request_id) by {
                assert(es[0]->Delivered_0[j] == ups[j]);
            }
            lemma_foreign_tokens_discarded(s, ups);
        }
        assert(s1.request_id == s.request_id);
        if s1.outcome is None {
            assert forall|i: int, j: int|
                0 <= i < rest.len() && rest[i] is Delivered && 0 <= j < rest[i]->Delivered_0.len()
                    implies !is_match(rest[i]->Delivered_0[j], s1.request_id) by {
                assert(rest[i] == es[i + 1]);
            }
            lemma_no_match_times_out(s1, rest);
            assert forall|i: int| 0 <= i < es.len() implies !(run(s, es).1[i] is Decide) by {
                if i > 0 {
                    assert(run(s, es).1[i] == run(s1, rest).1[i - 1]);
                }
            }
            if exists|i: int| 0 <= i < es.len() && es[i] == EventView::Clock(0) {
                let i = choose|i: int| 0 <= i < es.len() && es[i] == EventView::Clock(0);
                if i > 0 {
                    assert(rest[i - 1] == es[i]);
                }
            }
        } else {
            assert(s1.outcome == Some(ApprovalResult::Timeout));
            lemma_decision_is_final(s1, rest);
            assert forall|i: int| 0 <= i < es.len() implies !(run(s, es).1[i] is Decide) by {
                if i > 0 {
                    assert(run(s, es).1[i] == run(s1, rest).1[i - 1]);
                }
            }
        }
    }
}

/// Failed rounds and clock readings with time left neither end a session
/// nor touch its offset, and each long-poll asks for no more than the time
/// left; so after any number of them a batch whose first matching token is
/// `approve:` or `reject:` still yields that decision.
pub proof fn lemma_retries_keep_decision(s: SessionView, es: Seq<EventView>)
    requires
        s.outcome is None,
        es.len() > 0,
        forall|i: int| 0 <= i < es.len() - 1 ==> is_wait_round(#[trigger] es[i]),
        es.last() is Delivered,
        scan(es.last()->Delivered_0, s.request_id).1 is Some,
    ensures
        run(s, es).0.outcome == scan(es.last()->Delivered_0, s.request_id).1,
        forall|i: int|
            0 <= i < es.len() - 1 && #[trigger] es[i] is Clock ==> run(s, es).1[i] is Fetch
                && 0 < run(s, es).1[i]->Fetch_timeout_secs <= es[i]->Clock_0,
    decreases es.len(),
{
    lemma_run_tail(s, es);
    if es.len() > 1 {
        let rest = es.drop_first();
        let s1 = step_spec(s, es[0]).0;
        assert(s1 == s);
        assert forall|i: int| 0 <= i < rest.len() - 1 implies is_wait_round(#[trigger] rest[i]) by {
            assert(rest[i] == es[i + 1]);
        }
        assert(rest.last() == es.last());
        lemma_retries_keep_decision(s, rest);
        assert forall|i: int|
            0 <= i < es.len() - 1 && #[trigger] es[i] is Clock implies run(s, es).1[i] is Fetch
                && 0 < run(s, es).1[i]->Fetch_timeout_secs <= es[i]->Clock_0 by {
            if i > 0 {
                assert(run(s, es).1[i] == run(s, rest).1[i - 1]);
                assert(rest[i - 1] == es[i]);
            }
        }
    } else {
        assert(es[0] == es.last());
        let next = step_spec(s, es[0]);
        let rest = es.drop_first();
        assert(rest.len() == 0);
        assert(run(next.0, rest).0 == next.0);
    }
}

} // verus!
