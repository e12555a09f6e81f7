use vstd::prelude::*;
use crate::text::{chars_of, push_chars, push_str_chars, same_chars};

verus! {

/// The terminal decision of one approval session.
#[derive(Clone, Copy, Debug, PartialEq, Eq, Structural)]
pub enum ApprovalResult {
    Approved,
    Rejected,
    Timeout,
}

/// A `callback_query` carried by an update: the query's id, used to
/// acknowledge it, and the action token of the tapped control.
pub struct CallbackQuery {
    pub id: String,
    pub data: String,
}

/// One inbound update of a `getUpdates` batch.
pub struct Update {
    pub update_id: i64,
    pub callback_query: Option<CallbackQuery>,
}

/// An acknowledgement (`answerCallbackQuery`) to issue.
pub struct Ack {
    pub callback_query_id: String,
    pub text: String,
}

/// What the driver of a session observed since the last step.
pub enum PollEvent {
    /// The time left before the deadline, read before each round.
    Clock { remaining_secs: u64 },
    /// The long-poll request failed (network or malformed answer).
    Failed,
    /// The long-poll request returned these updates, in order.
    Delivered { updates: Vec<Update> },
}

/// What the driver of a session must do next.
pub enum PollAction {
    /// Issue one `getUpdates` long-poll; the offset is omitted when `None`.
    Fetch { timeout_secs: u64, offset: Option<i64> },
    /// Wait this long, then report the clock again.
    Retry { delay_secs: u64 },
    /// Acknowledge these callbacks, then report the clock again.
    Answer { acks: Vec<Ack> },
    /// Acknowledge these callbacks, replace the message's buttons with
    /// `label`, and end with `result`.
    Decide { acks: Vec<Ack>, label: String, result: ApprovalResult },
    /// The deadline passed: end with `Timeout`, finalizing nothing.
    Expire,
    /// The session has already ended with `result`: nothing more to do.
    Closed { result: ApprovalResult },
}

/// Longest server-side wait of one long-poll, in seconds.
pub const LONG_POLL_CAP_SECS: u64 = 30;

/// Pause after a failed long-poll, in seconds.
pub const RETRY_DELAY_SECS: u64 = 5;

pub struct QueryView {
    pub id: Seq<char>,
    pub data: Seq<char>,
}

pub struct AckView {
    pub id: Seq<char>,
    pub text: Seq<char>,
}

pub struct UpdateView {
    pub update_id: int,
    pub callback: Option<QueryView>,
}

pub enum EventView {
    Clock(nat),
    Failed,
    Delivered(Seq<UpdateView>),
}

pub enum ActionView {
    Fetch { timeout_secs: nat, offset: Option<int> },
    Retry { delay_secs: nat },
    Answer { acks: Seq<AckView> },
    Decide { acks: Seq<AckView>, label: Seq<char>, result: ApprovalResult },
    Expire,
    Closed { result: ApprovalResult },
}

pub struct SessionView {
    pub request_id: Seq<char>,
    pub offset: Option<int>,
    pub outcome: Option<ApprovalResult>,
}

impl View for CallbackQuery {
    type V = QueryView;

    open spec fn view(&self) -> QueryView {
        QueryView { id: self.id@, data: self.data@ }
    }
}

impl View for Update {
    type V = UpdateView;

    open spec fn view(&self) -> UpdateView {
        UpdateView {
            update_id: self.update_id as int,
            callback: match self.callback_query {
                Some(q) => Some(q@),
                None => None,
            },
        }
    }
}

impl View for Ack {
    type V = AckView;

    open spec fn view(&self) -> AckView {
        AckView { id: self.callback_query_id@, text: self.text@ }
    }
}

pub open spec fn acks_view(acks: Seq<Ack>) -> Seq<AckView> {
    acks.map_values(|a: Ack| a@)
}

pub open spec fn updates_view(ups: Seq<Update>) -> Seq<UpdateView> {
    ups.map_values(|u: Update| u@)
}

impl View for PollEvent {
    type V = EventView;

    open spec fn view(&self) -> EventView {
        match self {
            PollEvent::Clock { remaining_secs } => EventView::Clock(*remaining_secs as nat),
            PollEvent::Failed => EventView::Failed,
            PollEvent::Delivered { updates } => EventView::Delivered(updates_view(updates@)),
        }
    }
}

impl View for PollAction {
    type V = ActionView;

    open spec fn view(&self) -> ActionView {
        match self {
            PollAction::Fetch { timeout_secs, offset } => ActionView::Fetch {
                timeout_secs: *timeout_secs as nat,
                offset: match offset {
                    Some(o) => Some(*o as int),
                    None => None,
                },
            },
            PollAction::Retry { delay_secs } => ActionView::Retry { delay_secs: *delay_secs as nat },
            PollAction::Answer { acks } => ActionView::Answer { acks: acks_view(acks@) },
            PollAction::Decide { acks, label, result } => ActionView::Decide {
                acks: acks_view(acks@),
                label: label@,
                result: *result,
            },
            PollAction::Expire => ActionView::Expire,
            PollAction::Closed { result } => ActionView::Closed { result: *result },
        }
    }
}

/// The token carried by the Approve control of request `rid`.
pub open spec fn approve_token(rid: Seq<char>) -> Seq<char> {
    "approve:"@ + rid
}

/// The token carried by the Reject control of request `rid`.
pub open spec fn reject_token(rid: Seq<char>) -> Seq<char> {
    "reject:"@ + rid
}

/// The decision that an action token makes for request `rid`, if any.
pub open spec fn verdict(token: Seq<char>, rid: Seq<char>) -> Option<ApprovalResult> {
    if token == approve_token(rid) {
        Some(ApprovalResult::Approved)
    } else if token == reject_token(rid) {
        Some(ApprovalResult::Rejected)
    } else {
        None
    }
}

/// The text of the acknowledgement of a callback with verdict `v`.
pub open spec fn ack_text(v: Option<ApprovalResult>) -> Seq<char> {
    match v {
        Some(ApprovalResult::Approved) => "✅ Approving…"@,
        Some(ApprovalResult::Rejected) => "❌ Rejecting…"@,
        _ => ""@,
    }
}

/// The status label that replaces the buttons once `r` is decided.
pub open spec fn final_label(r: ApprovalResult) -> Seq<char> {
    match r {
        ApprovalResult::Approved => "✅ Approved"@,
        ApprovalResult::Rejected => "❌ Rejected"@,
        ApprovalResult::Timeout => "⏱ Timed out"@,
    }
}

/// Whether update `u` carries a decision for request `rid`.
pub open spec fn is_match(u: UpdateView, rid: Seq<char>) -> bool {
    u.callback is Some && verdict(u.callback->0.data, rid) is Some
}

/// The offset after seeing an update with id `id`.
pub open spec fn advance(prior: Option<int>, id: int) -> Option<int> {
    match prior {
        None => Some(id + 1),
        Some(o) => Some(if o >= id + 1 { o } else { id + 1 }),
    }
}

/// The offset after seeing every update of `ups`, in order.
pub open spec fn offset_after(prior: Option<int>, ups: Seq<UpdateView>) -> Option<int>
    decreases ups.len(),
{
    if ups.len() == 0 {
        prior
    } else {
        advance(offset_after(prior, ups.drop_last()), ups.last().update_id)
    }
}

/// Scanning a batch in receive order: every callback up to and including the
/// first match is acknowledged, and the first match decides.
pub open spec fn scan(ups: Seq<UpdateView>, rid: Seq<char>) -> (Seq<AckView>, Option<ApprovalResult>)
    decreases ups.len(),
{
    if ups.len() == 0 {
        (seq![], None)
    } else {
        let rest = scan(ups.drop_first(), rid);
        match ups[0].callback {
            None => rest,
            Some(q) => {
                let v = verdict(q.data, rid);
                let ack = AckView { id: q.id, text: ack_text(v) };
                if v is Some {
                    (seq![ack], v)
                } else {
                    (seq![ack] + rest.0, rest.1)
                }
            },
        }
    }
}

/// Every update id leaves room for its successor.
pub open spec fn ids_fit(ups: Seq<UpdateView>) -> bool {
    forall|i: int| 0 <= i < ups.len() ==> ups[i].update_id < i64::MAX
}

/// An event whose update ids all leave room for their successors.
pub open spec fn event_fits(e: EventView) -> bool {
    match e {
        EventView::Delivered(ups) => ids_fit(ups),
        _ => true,
    }
}

pub open spec fn offset_view(o: Option<i64>) -> Option<int> {
    match o {
        Some(v) => Some(v as int),
        None => None,
    }
}

pub open spec fn min_nat(a: nat, b: nat) -> nat {
    if a <= b { a } else { b }
}

/// One step of a session: the next state and the action to perform.
pub open spec fn step_spec(s: SessionView, e: EventView) -> (SessionView, ActionView) {
    match s.outcome {
        Some(r) => (s, ActionView::Closed { result: r }),
        None => match e {
            EventView::Clock(rem) => if rem == 0 {
                (SessionView { outcome: Some(ApprovalResult::Timeout), ..s }, ActionView::Expire)
            } else {
                (s, ActionView::Fetch {
                    timeout_secs: min_nat(LONG_POLL_CAP_SECS as nat, rem),
                    offset: s.offset,
                })
            },
            EventView::Failed => (s, ActionView::Retry { delay_secs: RETRY_DELAY_SECS as nat }),
            EventView::Delivered(ups) => {
                let (acks, d) = scan(ups, s.request_id);
                let next = SessionView { offset: offset_after(s.offset, ups), ..s };
                match d {
                    None => (next, ActionView::Answer { acks }),
                    Some(r) => (
                        SessionView { outcome: Some(r), ..next },
                        ActionView::Decide { acks, label: final_label(r), result: r },
                    ),
                }
            },
        },
    }
}

/// The state of one approval session: the request it waits for, the
/// consumption offset, and its decision once made.
pub struct PollSession {
    request_id: Vec<char>,
    approve: Vec<char>,
    reject: Vec<char>,
    offset: Option<i64>,
    outcome: Option<ApprovalResult>,
}

impl View for PollSession {
    type V = SessionView;

    closed spec fn view(&self) -> SessionView {
        SessionView {
            request_id: self.request_id@,
            offset: offset_view(self.offset),
            outcome: self.outcome,
        }
    }
}

impl PollSession {
    pub closed spec fn wf(&self) -> bool {
        &&& self.approve@ == approve_token(self.request_id@)
        &&& self.reject@ == reject_token(self.request_id@)
    }

    /// A session waiting for a decision on `request_id`, before any round.
    pub fn new(request_id: &str) -> (r: PollSession)
        ensures
            r.wf(),
            r@ == (SessionView { request_id: request_id@, offset: None, outcome: None }),
    {
        let rid = chars_of(request_id);
        let mut approve: Vec<char> = Vec::new();
        push_str_chars(&mut approve, "approve:");
        push_chars(&mut approve, rid.as_slice());
        let mut reject: Vec<char> = Vec::new();
        push_str_chars(&mut reject, "reject:");
        push_chars(&mut reject, rid.as_slice());
        proof {
            assert(approve@ =~= approve_token(rid@));
            assert(reject@ =~= reject_token(rid@));
        }
        PollSession { request_id: rid, approve, reject, offset: None, outcome: None }
    }

    /// Scans one batch: the acknowledgements to issue, the decision if one
    /// is found, and the offset after the whole batch.
    fn scan_batch(&self, updates: &Vec<Update>) -> (r: (Vec<Ack>, Option<ApprovalResult>, Option<i64>))
        requires
            self.wf(),
            ids_fit(updates_view(updates@)),
        ensures
            acks_view(r.0@) == scan(updates_view(updates@), self@.request_id).0,
            r.1 == scan(updates_view(updates@), self@.request_id).1,
            offset_view(r.2) == offset_after(self@.offset, updates_view(updates@)),
    {
        let ghost uv = updates_view(updates@);
        let ghost rid = self@.request_id;
        let ghost n = uv.len();
        let mut acks: Vec<Ack> = Vec::new();
        let mut decided: Option<ApprovalResult> = None;
        let mut offset: Option<i64> = self.offset;
        let mut i: usize = 0;
        proof {
            assert(uv.subrange(0, 0) =~= Seq::<UpdateView>::empty());
            assert(uv.subrange(0, n as int) =~= uv);
            assert(acks_view(acks@) =~= Seq::<AckView>::empty());
        }
        while i < updates.len()
            invariant
                self.wf(),
                uv == updates_view(updates@),
                n == uv.len(),
                rid == self@.request_id,
                ids_fit(uv),
                0 <= i <= n,
                offset_view(offset) == offset_after(self@.offset, uv.subrange(0, i as int)),
                decided is None ==> scan(uv, rid) == (
                    acks_view(acks@) + scan(uv.subrange(i as int, n as int), rid).0,
                    scan(uv.subrange(i as int, n as int), rid).1,
                ),
                decided is Some ==> scan(uv, rid) == (acks_view(acks@), decided),
            decreases n - i,
        {
            let u = &updates[i];
            proof {
                assert(uv[i as int] == u@);
                assert(uv.subrange(0, i + 1).drop_last() =~= uv.subrange(0, i as int));
            }
            let next: i64 = u.update_id + 1;
            offset = match offset {
                None => Some(next),
                Some(o) => Some(if o >= next { o } else { next }),
            };
            if decided.is_none() {
                let ghost rest = uv.subrange(i as int, n as int);
                proof {
                    assert(rest.drop_first() =~= uv.subrange(i + 1, n as int));
                    assert(rest[0] == u@);
                }
                match &u.callback_query {
                    None => {},
                    Some(q) => {
                        let data = chars_of(q.data.as_str());
                        let v = if same_chars(data.as_slice(), self.approve.as_slice()) {
                            Some(ApprovalResult::Approved)
                        } else if same_chars(data.as_slice(), self.reject.as_slice()) {
                            Some(ApprovalResult::Rejected)
                        } else {
                            None
                        };
                        let text = match v {
                            Some(ApprovalResult::Approved) => "✅ Approving…".to_owned(),
                            Some(_) => "❌ Rejecting…".to_owned(),
                            None => "".to_owned(),
                        };
                        let ack = Ack { callback_query_id: q.id.clone(), text };
                        proof {
                            assert(v == verdict(q@.data, rid));
                            assert(ack@ == (AckView { id: q@.id, text: ack_text(v) }));
                        }
                        let ghost before = acks@;
                        acks.push(ack);
                        proof {
                            assert(acks_view(acks@) =~= acks_view(before).push(
                                AckView { id: q@.id, text: ack_text(v) },
                            ));
                            let a = AckView { id: q@.id, text: ack_text(v) };
                            let tail = scan(uv.subrange(i + 1, n as int), rid);
                            assert(acks_view(before) + (seq![a] + tail.0) =~= acks_view(acks@) + tail.0);
                        }
                        decided = v;
                    },
                }
            }
            i = i + 1;
        }
        (acks, decided, offset)
    }

    /// Advances the session by one observed event and returns what to do next.
    pub fn step(&mut self, event: PollEvent) -> (r: PollAction)
        requires
            old(self).wf(),
            old(self)@.outcome is None ==> event_fits(event@),
        ensures
            final(self).wf(),
            (final(self)@, r@) == step_spec(old(self)@, event@),
    {
        if let Some(result) = self.outcome {
            return PollAction::Closed { result };
        }
        match event {
            PollEvent::Clock { remaining_secs } => {
                if remaining_secs == 0 {
                    self.outcome = Some(ApprovalResult::Timeout);
                    PollAction::Expire
                } else {
                    let timeout_secs = if remaining_secs < LONG_POLL_CAP_SECS {
                        remaining_secs
                    } else {
                        LONG_POLL_CAP_SECS
                    };
                    PollAction::Fetch { timeout_secs, offset: self.offset }
                }
            },
            PollEvent::Failed => PollAction::Retry { delay_secs: RETRY_DELAY_SECS },
            PollEvent::Delivered { updates } => {
                let (acks, decided, offset) = self.scan_batch(&updates);
                self.offset = offset;
                match decided {
                    None => PollAction::Answer { acks },
                    Some(result) => {
                        self.outcome = Some(result);
                        let label = match result {
                            ApprovalResult::Approved => "✅ Approved".to_owned(),
                            ApprovalResult::Rejected => "❌ Rejected".to_owned(),
                            ApprovalResult::Timeout => "⏱ Timed out".to_owned(),
                        };
                        PollAction::Decide { acks, label, result }
                    },
                }
            },
        }
    }

    /// The decision of the session, once it has ended.
    pub fn outcome(&self) -> (r: Option<ApprovalResult>)
        ensures
            r == self@.outcome,
    {
        self.outcome
    }
}

} // verus!
