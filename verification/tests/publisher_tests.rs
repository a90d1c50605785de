use pubs::config::PublishConfig;
use pubs::payload::make_payload;
use pubs::publisher::{
    make_report, Action, CongestionPolicy, Event, HaltReason, Phase, Publisher, Report,
    SendOutcome, TimingSample,
};

fn demo(size: usize, rate: usize) -> Publisher {
    let config = PublishConfig::new(String::from("/demo/example/zenoh-rs-pub"), size, rate)
        .expect("a positive rate is accepted");
    Publisher::new(config)
}

fn warmed_up(rate: usize) -> Publisher {
    let mut p = demo(100, rate);
    assert_eq!(p.step(Event::Opened { ok: true }), Action::DeclareTopic);
    p.step(Event::Declared { ok: true });
    p
}

fn iterate(p: &mut Publisher, now: u64, outcome: SendOutcome) -> Action {
    assert_eq!(p.step(Event::Slept), Action::ReadClock);
    assert_eq!(p.step(Event::Clock { now }), Action::Send { policy: CongestionPolicy::Drop });
    p.step(Event::Sent { outcome })
}

#[test]
fn a_new_run_opens_the_session_first() {
    let p = demo(100, 15);
    assert_eq!(p.action(), Action::Open);
    assert_eq!(p.phase, Phase::Opening);
    assert_eq!(p.last, 0);
    assert_eq!(p.period, 66_666_667);
    assert!(!p.is_halted());
}

#[test]
fn startup_declares_the_topic_then_sleeps_one_period() {
    let mut p = demo(100, 15);
    assert_eq!(p.step(Event::Opened { ok: true }), Action::DeclareTopic);
    assert_eq!(p.step(Event::Declared { ok: true }), Action::Sleep { nanos: 66_666_667 });
}

#[test]
fn one_iteration_sleeps_stamps_sends_and_reports() {
    let mut p = warmed_up(15);
    assert_eq!(p.action(), Action::Sleep { nanos: 66_666_667 });
    assert_eq!(p.step(Event::Slept), Action::ReadClock);
    assert_eq!(
        p.step(Event::Clock { now: 5_000_000_000 }),
        Action::Send { policy: CongestionPolicy::Drop }
    );
    let expected = Report {
        sample: TimingSample { timestamp: 5_000_000_000, elapsed: 5_000_000_000 },
        achieved: Some(200_000),
        configured: 15,
    };
    assert_eq!(
        p.step(Event::Sent { outcome: SendOutcome::Delivered }),
        Action::Report { report: expected }
    );
    assert_eq!(p.last, 0);
    assert_eq!(p.step(Event::Reported), Action::Sleep { nanos: 66_666_667 });
    assert_eq!(p.last, 5_000_000_000);
}

#[test]
fn second_sample_reports_the_interval_between_the_two() {
    let mut p = warmed_up(15);
    let t1: u64 = 1_700_000_000_000_000_000;
    let t2: u64 = t1 + 66_666_667;
    iterate(&mut p, t1, SendOutcome::Delivered);
    p.step(Event::Reported);
    let second = iterate(&mut p, t2, SendOutcome::Delivered);
    assert_eq!(
        second,
        Action::Report {
            report: Report {
                sample: TimingSample { timestamp: t2, elapsed: 66_666_667 },
                achieved: Some(14_999_999),
                configured: 15,
            }
        }
    );
}

#[test]
fn first_sample_measures_from_the_epoch() {
    let mut p = warmed_up(15);
    let t1: u64 = 1_700_000_000_000_000_000;
    let first = iterate(&mut p, t1, SendOutcome::Delivered);
    assert_eq!(
        first,
        Action::Report {
            report: Report {
                sample: TimingSample { timestamp: t1, elapsed: t1 as i128 },
                achieved: Some(0),
                configured: 15,
            }
        }
    );
}

#[test]
fn congestion_is_reported_like_a_delivery_and_the_loop_goes_on() {
    let mut dropped = warmed_up(15);
    let mut delivered = warmed_up(15);
    let a = iterate(&mut dropped, 1_000, SendOutcome::Congested);
    let b = iterate(&mut delivered, 1_000, SendOutcome::Delivered);
    assert_eq!(a, b);
    assert!(matches!(a, Action::Report { .. }));
    assert!(!dropped.is_halted());
    assert_eq!(dropped.step(Event::Reported), Action::Sleep { nanos: 66_666_667 });
    delivered.step(Event::Reported);
    assert_eq!(dropped.phase, delivered.phase);
    assert_eq!(dropped.last, delivered.last);
}

#[test]
fn failed_open_halts_and_never_reports() {
    let mut p = demo(100, 15);
    let halt = Action::Halt { reason: HaltReason::OpenFailed };
    assert_eq!(p.step(Event::Opened { ok: false }), halt);
    assert!(p.is_halted());
    let later = [
        Event::Declared { ok: true },
        Event::Slept,
        Event::Clock { now: 77 },
        Event::Sent { outcome: SendOutcome::Delivered },
        Event::Reported,
        Event::StopRequested,
        Event::Opened { ok: true },
    ];
    for event in later {
        assert_eq!(p.step(event), halt);
    }
    assert!(HaltReason::OpenFailed.is_failure());
}

#[test]
fn failed_declaration_halts() {
    let mut p = demo(100, 15);
    p.step(Event::Opened { ok: true });
    assert_eq!(
        p.step(Event::Declared { ok: false }),
        Action::Halt { reason: HaltReason::DeclareFailed }
    );
    assert!(p.is_halted());
}

#[test]
fn failed_send_halts_without_a_report() {
    let mut p = warmed_up(15);
    let end = iterate(&mut p, 1_000, SendOutcome::Failed);
    assert_eq!(end, Action::Halt { reason: HaltReason::SendFailed });
    assert_eq!(p.step(Event::Reported), Action::Halt { reason: HaltReason::SendFailed });
    assert_eq!(p.last, 0);
}

#[test]
fn stop_request_halts_from_any_phase() {
    let stop = Action::Halt { reason: HaltReason::Stopped };
    let mut p = demo(100, 15);
    assert_eq!(p.step(Event::StopRequested), stop);
    let mut p = warmed_up(15);
    assert_eq!(p.step(Event::StopRequested), stop);
    let mut p = warmed_up(15);
    p.step(Event::Slept);
    p.step(Event::Clock { now: 9 });
    assert_eq!(p.step(Event::StopRequested), stop);
    assert!(!HaltReason::Stopped.is_failure());
}

#[test]
fn event_out_of_turn_halts() {
    let out = Action::Halt { reason: HaltReason::OutOfTurn };
    let mut p = demo(100, 15);
    assert_eq!(p.step(Event::Slept), out);
    let mut p = warmed_up(15);
    assert_eq!(p.step(Event::Sent { outcome: SendOutcome::Delivered }), out);
    let mut p = warmed_up(15);
    p.step(Event::Slept);
    assert_eq!(p.step(Event::Slept), out);
    assert!(HaltReason::OutOfTurn.is_failure());
}

#[test]
fn every_halt_but_a_stop_is_a_failure() {
    assert!(HaltReason::OpenFailed.is_failure());
    assert!(HaltReason::DeclareFailed.is_failure());
    assert!(HaltReason::SendFailed.is_failure());
    assert!(HaltReason::OutOfTurn.is_failure());
    assert!(!HaltReason::Stopped.is_failure());
}

#[test]
fn clock_stepping_back_gives_a_negative_interval_and_no_rate() {
    let report = make_report(10, 25, 15);
    assert_eq!(report.sample, TimingSample { timestamp: 10, elapsed: -15 });
    assert_eq!(report.achieved, None);
    assert_eq!(report.configured, 15);
}

#[test]
fn repeated_timestamp_gives_no_rate() {
    let report = make_report(25, 25, 15);
    assert_eq!(report.sample.elapsed, 0);
    assert_eq!(report.achieved, None);
}

#[test]
fn report_spans_the_whole_clock_range() {
    let report = make_report(0, u64::MAX, 1);
    assert_eq!(report.sample.elapsed, -(u64::MAX as i128));
    let report = make_report(u64::MAX, 0, 1);
    assert_eq!(report.sample.elapsed, u64::MAX as i128);
    assert_eq!(report.achieved, Some(0));
}

#[test]
fn ten_seconds_at_fifteen_per_second_give_about_150_reports() {
    let mut p = warmed_up(15);
    let payload = make_payload(p.config.size);
    assert_eq!(payload.len(), 100);
    let mut clock: u64 = 1_700_000_000_000_000_000;
    let end: u64 = clock + 10_000_000_000;
    let mut reports: Vec<Report> = Vec::new();
    loop {
        let nanos = match p.action() {
            Action::Sleep { nanos } => nanos,
            other => panic!("expected a sleep, got {:?}", other),
        };
        if clock + nanos > end {
            break;
        }
        clock += nanos;
        assert_eq!(p.step(Event::Slept), Action::ReadClock);
        p.step(Event::Clock { now: clock });
        match p.step(Event::Sent { outcome: SendOutcome::Delivered }) {
            Action::Report { report } => reports.push(report),
            other => panic!("expected a report, got {:?}", other),
        }
        p.step(Event::Reported);
    }
    assert_eq!(reports.len(), 149);
    for report in reports.iter().skip(1) {
        assert_eq!(report.sample.elapsed, 66_666_667);
        assert_eq!(report.achieved, Some(14_999_999));
        assert_eq!(report.configured, 15);
    }
}

#[test]
fn empty_payload_is_sent_and_reported_at_the_same_cadence() {
    let mut p = demo(0, 15);
    assert_eq!(make_payload(p.config.size), Vec::<u8>::new());
    p.step(Event::Opened { ok: true });
    assert_eq!(p.step(Event::Declared { ok: true }), Action::Sleep { nanos: 66_666_667 });
    iterate(&mut p, 1_000_000_000, SendOutcome::Delivered);
    assert_eq!(p.step(Event::Reported), Action::Sleep { nanos: 66_666_667 });
    let second = iterate(&mut p, 1_066_666_667, SendOutcome::Delivered);
    assert_eq!(
        second,
        Action::Report {
            report: Report {
                sample: TimingSample { timestamp: 1_066_666_667, elapsed: 66_666_667 },
                achieved: Some(14_999_999),
                configured: 15,
            }
        }
    );
}
