use gh_guard::approval::{
    Ack, ApprovalResult, CallbackQuery, PollAction, PollEvent, PollSession, Update,
};
use gh_guard::notify::{send_approval_request, TgConfig};

fn config() -> TgConfig {
    TgConfig { token: "123:abc".to_string(), chat_id: "42".to_string() }
}

fn tap(update_id: i64, query_id: &str, data: &str) -> Update {
    Update {
        update_id,
        callback_query: Some(CallbackQuery { id: query_id.to_string(), data: data.to_string() }),
    }
}

fn plain(update_id: i64) -> Update {
    Update { update_id, callback_query: None }
}

fn ack_pairs(acks: &[Ack]) -> Vec<(String, String)> {
    acks.iter().map(|a| (a.callback_query_id.clone(), a.text.clone())).collect()
}

#[test]
fn approve_for_active_request_is_approved_in_its_round() {
    let tg = config();
    let req = send_approval_request(&tg, "Fix login bug", "", "feature/login → main", false);
    let mut session = PollSession::new(&req.request_id);
    let budget: u64 = 300;
    let mut elapsed: u64 = 0;
    let mut answers = 0;
    let mut finalizations = 0;
    let mut result = None;
    match session.step(PollEvent::Clock { remaining_secs: budget - elapsed }) {
        PollAction::Fetch { timeout_secs, offset } => {
            assert_eq!(timeout_secs, 30);
            assert_eq!(offset, None);
        }
        _ => panic!("expected a long-poll"),
    }
    // the tap arrives two seconds into the first long-poll
    elapsed += 2;
    let updates = vec![tap(500, "cq-1", &req.approve_data)];
    match session.step(PollEvent::Delivered { updates }) {
        PollAction::Decide { acks, label, result: r } => {
            answers += acks.len();
            assert_eq!(ack_pairs(&acks), vec![("cq-1".to_string(), "✅ Approving…".to_string())]);
            assert_eq!(label, "✅ Approved");
            finalizations += 1;
            result = Some(r);
        }
        _ => panic!("expected a decision"),
    }
    assert_eq!(result, Some(ApprovalResult::Approved));
    assert!(elapsed < 3);
    assert_eq!(answers, 1);
    assert_eq!(finalizations, 1);
    assert_eq!(session.outcome(), Some(ApprovalResult::Approved));
}

#[test]
fn foreign_request_id_times_out_after_full_budget() {
    let tg = config();
    let req = send_approval_request(&tg, "Fix login bug", "", "feature/login → main", false);
    let other = if req.request_id == "0badf00d" { "deadbeef" } else { "0badf00d" };
    let mut session = PollSession::new(&req.request_id);
    let budget: u64 = 60;
    let mut elapsed: u64 = 0;
    let mut discards = Vec::new();
    let mut finalizations = 0;
    let mut delivered = false;
    let result = loop {
        match session.step(PollEvent::Clock { remaining_secs: budget - elapsed }) {
            PollAction::Fetch { timeout_secs, .. } => {
                assert!(timeout_secs <= budget - elapsed);
                let updates = if delivered {
                    vec![]
                } else {
                    delivered = true;
                    vec![tap(7, "cq-9", &format!("approve:{other}"))]
                };
                elapsed += timeout_secs;
                match session.step(PollEvent::Delivered { updates }) {
                    PollAction::Answer { acks } => discards.extend(ack_pairs(&acks)),
                    PollAction::Decide { .. } => finalizations += 1,
                    _ => panic!("unexpected action"),
                }
            }
            PollAction::Expire => break ApprovalResult::Timeout,
            _ => panic!("unexpected action"),
        }
    };
    assert_eq!(result, ApprovalResult::Timeout);
    assert_eq!(elapsed, budget);
    assert_eq!(discards, vec![("cq-9".to_string(), String::new())]);
    assert_eq!(finalizations, 0);
}

#[test]
fn offset_is_max_of_prior_and_batch() {
    let mut session = PollSession::new("abcd1234");
    let _ = session.step(PollEvent::Delivered { updates: vec![plain(10), plain(4), plain(7)] });
    match session.step(PollEvent::Clock { remaining_secs: 100 }) {
        PollAction::Fetch { offset, .. } => assert_eq!(offset, Some(11)),
        _ => panic!("expected a long-poll"),
    }
    // a batch of older ids never moves the offset back
    let _ = session.step(PollEvent::Delivered { updates: vec![plain(3)] });
    match session.step(PollEvent::Clock { remaining_secs: 100 }) {
        PollAction::Fetch { offset, .. } => assert_eq!(offset, Some(11)),
        _ => panic!("expected a long-poll"),
    }
    let _ = session.step(PollEvent::Delivered { updates: vec![] });
    match session.step(PollEvent::Clock { remaining_secs: 100 }) {
        PollAction::Fetch { offset, .. } => assert_eq!(offset, Some(11)),
        _ => panic!("expected a long-poll"),
    }
}

#[test]
fn stale_token_is_discarded_and_polling_continues() {
    let mut session = PollSession::new("abcd1234");
    let updates = vec![
        tap(1, "a", "approve:ffff0000"),
        tap(2, "b", "reject:ffff0000"),
        tap(3, "c", "noop"),
    ];
    match session.step(PollEvent::Delivered { updates }) {
        PollAction::Answer { acks } => assert_eq!(
            ack_pairs(&acks),
            vec![
                ("a".to_string(), String::new()),
                ("b".to_string(), String::new()),
                ("c".to_string(), String::new())
            ]
        ),
        _ => panic!("expected acknowledgements only"),
    }
    assert_eq!(session.outcome(), None);
}

#[test]
fn first_match_in_batch_wins() {
    let mut session = PollSession::new("abcd1234");
    let updates = vec![
        tap(1, "x", "approve:00000000"),
        tap(2, "r", "reject:abcd1234"),
        tap(3, "a", "approve:abcd1234"),
    ];
    match session.step(PollEvent::Delivered { updates }) {
        PollAction::Decide { acks, label, result } => {
            assert_eq!(result, ApprovalResult::Rejected);
            assert_eq!(label, "❌ Rejected");
            assert_eq!(
                ack_pairs(&acks),
                vec![
                    ("x".to_string(), String::new()),
                    ("r".to_string(), "❌ Rejecting…".to_string())
                ]
            );
        }
        _ => panic!("expected a decision"),
    }
    // late taps change nothing
    match session.step(PollEvent::Delivered { updates: vec![tap(4, "a", "approve:abcd1234")] }) {
        PollAction::Closed { result } => assert_eq!(result, ApprovalResult::Rejected),
        _ => panic!("expected the session to be closed"),
    }
}

#[test]
fn failures_then_match_yield_decision() {
    let mut session = PollSession::new("abcd1234");
    let mut remaining: u64 = 40;
    for _ in 0..3 {
        match session.step(PollEvent::Clock { remaining_secs: remaining }) {
            PollAction::Fetch { timeout_secs, offset } => {
                assert!(timeout_secs <= remaining && timeout_secs <= 30);
                assert_eq!(offset, None);
            }
            _ => panic!("expected a long-poll"),
        }
        match session.step(PollEvent::Failed) {
            PollAction::Retry { delay_secs } => {
                assert_eq!(delay_secs, 5);
                remaining -= delay_secs;
            }
            _ => panic!("expected a retry"),
        }
    }
    match session.step(PollEvent::Clock { remaining_secs: remaining }) {
        PollAction::Fetch { timeout_secs, .. } => assert_eq!(timeout_secs, 25),
        _ => panic!("expected a long-poll"),
    }
    match session.step(PollEvent::Delivered { updates: vec![tap(9, "q", "approve:abcd1234")] }) {
        PollAction::Decide { result, .. } => assert_eq!(result, ApprovalResult::Approved),
        _ => panic!("expected a decision"),
    }
}

#[test]
fn zero_time_left_expires_without_finalizing() {
    let mut session = PollSession::new("abcd1234");
    assert!(matches!(session.step(PollEvent::Clock { remaining_secs: 0 }), PollAction::Expire));
    assert_eq!(session.outcome(), Some(ApprovalResult::Timeout));
    assert!(matches!(
        session.step(PollEvent::Clock { remaining_secs: 10 }),
        PollAction::Closed { result: ApprovalResult::Timeout }
    ));
}

#[test]
fn short_budget_caps_long_poll_wait() {
    let mut session = PollSession::new("abcd1234");
    match session.step(PollEvent::Clock { remaining_secs: 7 }) {
        PollAction::Fetch { timeout_secs, .. } => assert_eq!(timeout_secs, 7),
        _ => panic!("expected a long-poll"),
    }
}
