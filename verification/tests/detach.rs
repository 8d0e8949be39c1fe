use lqos_xdp::detach::{
    start_detach, CloseDetached, DetachOutcome, DetachReplies, DetachStep, OpenById, QueryProgram,
    TryDetach,
};
use lqos_xdp::libxdp::DriverMode;
use lqos_xdp::log_line::{LogLine, Severity};

const PROGRAM: isize = 0x6000;

/// Runs the steps to the end and lists the calls.
fn run(replies: &DetachReplies) -> (Vec<DetachStep>, DetachOutcome) {
    let mut calls = Vec::new();
    let mut step = start_detach(3);
    loop {
        let next = match step {
            DetachStep::Query(query) => query.returned(replies.query, replies.prog_id),
            DetachStep::Open(open) => open.opened(replies.program),
            DetachStep::Detach(detach) => detach.returned(match detach.mode {
                DriverMode::Native => replies.native,
                DriverMode::Skb => replies.skb,
            }),
            DetachStep::Close(close) => close.closed(),
            DetachStep::Finished(outcome) => return (calls, outcome),
        };
        calls.push(step);
        step = next;
    }
}

fn replies(native: i32, skb: i32) -> DetachReplies {
    DetachReplies { query: 0, prog_id: 77, program: PROGRAM, native, skb }
}

fn query() -> DetachStep {
    DetachStep::Query(QueryProgram { ifindex: 3, flags: 0 })
}

fn open() -> DetachStep {
    DetachStep::Open(OpenById { prog_id: 77, ifindex: 3 })
}

fn detach(mode: DriverMode, native_err: i32) -> DetachStep {
    DetachStep::Detach(TryDetach { program: PROGRAM, ifindex: 3, mode, flags: 0, native_err })
}

fn close(outcome: DetachOutcome) -> DetachStep {
    DetachStep::Close(CloseDetached { program: PROGRAM, outcome })
}

#[test]
fn detaches_in_native_mode() {
    let (calls, outcome) = run(&replies(0, 0));
    assert_eq!(outcome, DetachOutcome::Detached { mode: DriverMode::Native });
    assert_eq!(calls, vec![query(), open(), detach(DriverMode::Native, 0), close(outcome)]);
}

#[test]
fn detaches_in_skb_mode() {
    let (calls, outcome) = run(&replies(-2, 0));
    assert_eq!(outcome, DetachOutcome::Detached { mode: DriverMode::Skb });
    assert_eq!(
        calls,
        vec![
            query(),
            open(),
            detach(DriverMode::Native, 0),
            detach(DriverMode::Skb, -2),
            close(outcome),
        ],
    );
}

#[test]
fn failure_in_both_modes_closes_too() {
    let (calls, outcome) = run(&replies(-2, -3));
    assert_eq!(outcome, DetachOutcome::BothModesFailed { native_err: -2, skb_err: -3 });
    assert_eq!(calls.len(), 5);
    assert_eq!(calls[4], close(outcome));
}

#[test]
fn bare_interface_is_left_alone() {
    let none = DetachReplies { query: 0, prog_id: 0, program: PROGRAM, native: 0, skb: 0 };
    assert_eq!(run(&none), (vec![query()], DetachOutcome::NothingAttached));
    let failed = DetachReplies { query: -19, prog_id: 77, program: PROGRAM, native: 0, skb: 0 };
    assert_eq!(run(&failed), (vec![query()], DetachOutcome::QueryFailed { err: -19 }));
}

#[test]
fn program_that_does_not_open_is_left() {
    let failed = DetachReplies { query: 0, prog_id: 77, program: -1, native: 0, skb: 0 };
    assert_eq!(
        run(&failed),
        (vec![query(), open()], DetachOutcome::OpenFailed { prog_id: 77, errno: 1 }),
    );
    let null = DetachReplies { query: 0, prog_id: 77, program: 0, native: 0, skb: 0 };
    assert_eq!(run(&null), (vec![query(), open()], DetachOutcome::NullProgram));
}

#[test]
fn detach_outcomes_are_logged() {
    let lines = [
        (
            DetachOutcome::QueryFailed { err: -19 },
            Severity::Debug,
            "libxdp detach: bpf_xdp_query_id failed on eth0 (err=-19); no XDP attached?",
        ),
        (
            DetachOutcome::NothingAttached,
            Severity::Debug,
            "libxdp detach: no XDP program attached on eth0; nothing to do",
        ),
        (
            DetachOutcome::OpenFailed { prog_id: 77, errno: 1 },
            Severity::Warn,
            "libxdp detach: xdp_program__from_id(77) failed on eth0 (errno=1); leaving for raw fallback",
        ),
        (
            DetachOutcome::Detached { mode: DriverMode::Native },
            Severity::Info,
            "libxdp dispatcher detached on eth0",
        ),
        (
            DetachOutcome::Detached { mode: DriverMode::Skb },
            Severity::Info,
            "libxdp dispatcher detached on eth0 (SKB mode)",
        ),
        (
            DetachOutcome::BothModesFailed { native_err: -2, skb_err: -3 },
            Severity::Warn,
            "libxdp detach: both modes failed on eth0 (DRV err=-2, SKB err=-3); raw cascade will clean up",
        ),
    ];
    for (outcome, severity, text) in lines {
        assert_eq!(outcome.line("eth0"), Some(LogLine { severity, text: text.to_string() }));
    }
    assert_eq!(DetachOutcome::NullProgram.line("eth0"), None);
}

#[test]
fn outcome_is_logged_once() {
    let native = DetachOutcome::Detached { mode: DriverMode::Native };
    assert_eq!(close(native).line("eth0"), native.line("eth0"));
    assert_eq!(DetachStep::Finished(native).line("eth0"), None);
    for outcome in [
        DetachOutcome::QueryFailed { err: -19 },
        DetachOutcome::NothingAttached,
        DetachOutcome::OpenFailed { prog_id: 77, errno: 1 },
        DetachOutcome::NullProgram,
        DetachOutcome::Detached { mode: DriverMode::Skb },
        DetachOutcome::BothModesFailed { native_err: -2, skb_err: -3 },
    ] {
        assert_eq!(close(outcome).line("eth0"), None);
        assert_eq!(DetachStep::Finished(outcome).line("eth0"), outcome.line("eth0"));
    }
    assert_eq!(query().line("eth0"), None);
    assert_eq!(open().line("eth0"), None);
    assert_eq!(detach(DriverMode::Skb, -2).line("eth0"), None);
}
