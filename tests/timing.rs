use lite_rpc_relay::{
    compensation_delays, single_poll_step, AlignStep, ConfirmationSlotResult, LinearSchedule,
    SingleStep, SlotAligner, SlotDetectionTimeout,
};

#[test]
fn aligner_returns_first_clean_step() {
    let mut aligner = SlotAligner::new();
    let mut seen = Vec::new();
    for slot in [5u64, 5, 6, 7, 7, 8] {
        assert!(aligner.check_budget().is_ok());
        let step = aligner.observe(slot);
        seen.push(step);
        if let AlignStep::Aligned { .. } = step {
            break;
        }
    }
    assert_eq!(
        seen,
        vec![
            AlignStep::Wait { until_ms: 30 },
            AlignStep::Wait { until_ms: 60 },
            AlignStep::Aligned { slot: 6 },
        ]
    );
}

#[test]
fn aligner_ignores_jumps() {
    let mut aligner = SlotAligner::new();
    assert_eq!(aligner.observe(10), AlignStep::Wait { until_ms: 30 });
    assert_eq!(aligner.observe(13), AlignStep::Wait { until_ms: 60 });
    assert_eq!(aligner.observe(14), AlignStep::Aligned { slot: 14 });
}

#[test]
fn aligner_times_out_after_its_budget() {
    let mut aligner = SlotAligner::new();
    for _ in 0..500 {
        assert!(aligner.check_budget().is_ok());
        assert!(matches!(aligner.observe(42), AlignStep::Wait { .. }));
    }
    assert_eq!(aligner.check_budget(), Err(SlotDetectionTimeout { observations: 500 }));
}

#[test]
fn nearer_endpoint_is_held_back() {
    assert_eq!(compensation_delays(40_000, 10_000), (0, 15_000));
    assert_eq!(compensation_delays(10_000, 40_000), (15_000, 0));
    assert_eq!(compensation_delays(25_000, 25_000), (0, 0));
    assert_eq!(compensation_delays(11, 0), (0, 5));
}

#[test]
fn single_poll_times_out_at_deadline_not_before() {
    assert_eq!(single_poll_step(0, 500), SingleStep::Query);
    assert_eq!(single_poll_step(499, 500), SingleStep::Query);
    assert_eq!(single_poll_step(500, 500), SingleStep::TimedOut);
    assert_eq!(single_poll_step(731, 500), SingleStep::TimedOut);
}

#[test]
fn timed_out_leg_is_not_reported() {
    let none = ConfirmationSlotResult::no_result();
    assert_eq!(none.signature, vec![0u8; 64]);
    assert!(none.is_no_result());
    assert!(!none.should_report());
    let landed = ConfirmationSlotResult {
        signature: vec![7u8; 64],
        slot_sent: 10,
        slot_landed: 11,
        send_duration_ms: 420,
    };
    assert!(!landed.is_no_result());
    assert!(landed.should_report());
    let mut odd = ConfirmationSlotResult::no_result();
    odd.signature[63] = 1;
    assert!(odd.should_report());
}

#[test]
fn linear_schedule_rounds_and_budget() {
    let mut s = LinearSchedule::new(30, 3);
    assert_eq!(s.round(), 1);
    assert!(s.has_budget());
    assert_eq!(s.advance(), 30);
    assert_eq!(s.advance(), 60);
    assert!(s.is_last());
    assert_eq!(s.advance(), 90);
    assert_eq!(s.round(), 4);
    assert!(!s.has_budget());
}
