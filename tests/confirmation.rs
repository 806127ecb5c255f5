use lite_rpc_relay::{
    aggregate, check_batch, slots_passed, BatchSendError, ConfirmationLevel, ConfirmationPoller,
    ConfirmationRecord, RoundStep, SendErrorKind, SendOutcome, SignatureStatus, TxState,
};

fn confirmed(slot: u64) -> Option<SignatureStatus> {
    Some(SignatureStatus { slot, level: ConfirmationLevel::Confirmed })
}

fn counts(p: &ConfirmationPoller) -> (usize, usize) {
    let mut pending = 0;
    let mut resolved = 0;
    for i in 0..p.len() {
        match p.state(i) {
            TxState::Pending => pending += 1,
            TxState::Resolved(_) => resolved += 1,
        }
    }
    (pending, resolved)
}

#[test]
fn three_confirmed_on_second_round() {
    let outcomes = vec![SendOutcome::Accepted; 3];
    assert_eq!(check_batch(&outcomes), Ok(3));
    let mut poller = ConfirmationPoller::new(100, 3);
    assert_eq!(poller.round(), 1);

    let batch = poller.pending();
    assert_eq!(batch, vec![0, 1, 2]);
    poller.record_statuses(&batch, &vec![None, None, None], 150);
    assert_eq!(poller.finish_round(), RoundStep::Wait { until_ms: 200 });

    let batch = poller.pending();
    assert_eq!(batch, vec![0, 1, 2]);
    poller.record_statuses(&batch, &vec![confirmed(101), confirmed(102), confirmed(103)], 390);
    assert_eq!(poller.finish_round(), RoundStep::AllConfirmed { rounds: 2 });
    assert!(poller.pending().is_empty());
    assert!(poller.is_complete());

    let report = aggregate(&outcomes, &poller);
    assert_eq!(report.len(), 3);
    for (i, rec) in report.iter().enumerate() {
        assert_eq!(
            *rec,
            ConfirmationRecord::Success {
                sent_slot: 100,
                landed_slot: 101 + i as u64,
                level: ConfirmationLevel::Confirmed,
                elapsed_ms: 390,
            }
        );
    }
}

#[test]
fn one_rejected_send_fails_the_batch() {
    let outcomes = vec![
        SendOutcome::Accepted,
        SendOutcome::Accepted,
        SendOutcome::Rejected(SendErrorKind::Rpc),
        SendOutcome::Accepted,
        SendOutcome::Accepted,
    ];
    assert_eq!(check_batch(&outcomes), Err(BatchSendError { failed: 1, total: 5 }));
}

#[test]
fn empty_batch_is_sent() {
    assert_eq!(check_batch(&vec![]), Ok(0));
}

#[test]
fn slots_passed_while_sending() {
    assert_eq!(slots_passed(10, 12), Some(2));
    assert_eq!(slots_passed(10, 10), Some(0));
    assert_eq!(slots_passed(12, 10), None);
}

#[test]
fn below_threshold_stays_pending() {
    let mut poller = ConfirmationPoller::new(7, 2);
    let batch = poller.pending();
    poller.record_statuses(
        &batch,
        &vec![Some(SignatureStatus { slot: 8, level: ConfirmationLevel::Processed }), confirmed(9)],
        20,
    );
    assert_eq!(poller.state(0), TxState::Pending);
    assert_eq!(poller.pending(), vec![0]);
    assert_eq!(
        poller.state(1),
        TxState::Resolved(ConfirmationRecord::Success {
            sent_slot: 7,
            landed_slot: 9,
            level: ConfirmationLevel::Confirmed,
            elapsed_ms: 20,
        })
    );
}

#[test]
fn duplicated_and_late_responses_never_resolve_twice() {
    let mut poller = ConfirmationPoller::new(1, 2);
    poller.record_statuses(
        &vec![0, 0, 1],
        &vec![
            confirmed(5),
            Some(SignatureStatus { slot: 6, level: ConfirmationLevel::Finalized }),
            None,
        ],
        40,
    );
    let first = TxState::Resolved(ConfirmationRecord::Success {
        sent_slot: 1,
        landed_slot: 5,
        level: ConfirmationLevel::Confirmed,
        elapsed_ms: 40,
    });
    assert_eq!(poller.state(0), first);
    assert_eq!(poller.state(1), TxState::Pending);
    poller.record_statuses(&vec![0, 1], &vec![confirmed(9), confirmed(9)], 80);
    assert_eq!(poller.state(0), first);
    assert_eq!(counts(&poller), (0, 2));
}

#[test]
fn pending_and_resolved_add_up_every_round() {
    let mut poller = ConfirmationPoller::new(3, 4);
    let answers = [
        vec![None, confirmed(4), None, None],
        vec![None, None, confirmed(5)],
        vec![confirmed(6), None],
    ];
    for answer in answers.iter() {
        assert_eq!(counts(&poller).0 + counts(&poller).1, 4);
        let batch = poller.pending();
        poller.record_statuses(&batch, answer, 10);
        assert_eq!(counts(&poller).0 + counts(&poller).1, 4);
        poller.finish_round();
    }
    assert_eq!(counts(&poller), (1, 3));
}

#[test]
fn gives_up_after_one_hundred_rounds() {
    let mut poller = ConfirmationPoller::new(0, 1);
    for round in 1..100u64 {
        assert_eq!(poller.round(), round);
        assert_eq!(poller.finish_round(), RoundStep::Wait { until_ms: round * 200 });
    }
    assert_eq!(poller.finish_round(), RoundStep::OutOfRounds { rounds: 100 });
    assert_eq!(poller.round(), 100);
    poller.expire(20_000);
    assert_eq!(poller.state(0), TxState::Resolved(ConfirmationRecord::Timeout { elapsed_ms: 20_000 }));
}

#[test]
fn report_keeps_submission_order() {
    let outcomes = vec![
        SendOutcome::Accepted,
        SendOutcome::Rejected(SendErrorKind::Transport),
        SendOutcome::Accepted,
    ];
    let mut poller = ConfirmationPoller::new(50, 2);
    poller.record_statuses(&vec![1], &vec![confirmed(52)], 300);
    poller.expire(900);
    let report = aggregate(&outcomes, &poller);
    assert_eq!(
        report,
        vec![
            ConfirmationRecord::Timeout { elapsed_ms: 900 },
            ConfirmationRecord::SendError(SendErrorKind::Transport),
            ConfirmationRecord::Success {
                sent_slot: 50,
                landed_slot: 52,
                level: ConfirmationLevel::Confirmed,
                elapsed_ms: 300,
            },
        ]
    );
}
