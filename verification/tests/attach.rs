use lqos_xdp::attach::{
    attached_line, mode_failed_line, start_attach, AttachError, AttachReplies, AttachStep, CloseProgram, OpenProgram, SetRunPrio,
    TryAttach,
};
use lqos_xdp::libxdp::DriverMode;
use lqos_xdp::log_line::{LogLine, Severity};

const OBJECT: isize = 0x5000;
const PROGRAM: isize = 0x6000;

/// Runs the steps to the end and lists the calls.
fn run(object: isize, replies: &AttachReplies) -> (Vec<AttachStep>, Result<DriverMode, AttachError>) {
    let mut calls = Vec::new();
    let mut step = start_attach(object, 3, 10);
    loop {
        let next = match step {
            AttachStep::Open(open) => open.opened(replies.program),
            AttachStep::SetPrio(set) => set.prio_set(),
            AttachStep::Attach(attach) => attach.returned(match attach.mode {
                DriverMode::Native => replies.native,
                DriverMode::Skb => replies.skb,
            }),
            AttachStep::Close(close) => close.closed(),
            AttachStep::Finished(res) => return (calls, res),
        };
        calls.push(step);
        step = next;
    }
}

fn open() -> AttachStep {
    AttachStep::Open(OpenProgram { object: OBJECT, ifindex: 3, priority: 10 })
}

fn set_prio() -> AttachStep {
    AttachStep::SetPrio(SetRunPrio { program: PROGRAM, ifindex: 3, priority: 10 })
}

fn attach(mode: DriverMode) -> AttachStep {
    AttachStep::Attach(TryAttach { program: PROGRAM, ifindex: 3, mode, flags: 0, priority: 10 })
}

#[test]
fn native_mode_comes_first() {
    let (calls, res) = run(OBJECT, &AttachReplies { program: PROGRAM, native: 0, skb: 0 });
    assert_eq!(res, Ok(DriverMode::Native));
    assert_eq!(calls, vec![open(), set_prio(), attach(DriverMode::Native)]);
}

#[test]
fn skb_mode_comes_second() {
    let (calls, res) = run(OBJECT, &AttachReplies { program: PROGRAM, native: -95, skb: 0 });
    assert_eq!(res, Ok(DriverMode::Skb));
    assert_eq!(
        calls,
        vec![open(), set_prio(), attach(DriverMode::Native), attach(DriverMode::Skb)],
    );
}

#[test]
fn failure_in_all_modes_closes_the_program() {
    let (calls, res) = run(OBJECT, &AttachReplies { program: PROGRAM, native: -95, skb: -22 });
    assert_eq!(res, Err(AttachError::AllModesFailed { last_err: -22 }));
    assert_eq!(
        calls,
        vec![
            open(),
            set_prio(),
            attach(DriverMode::Native),
            attach(DriverMode::Skb),
            AttachStep::Close(CloseProgram { program: PROGRAM, last_err: -22 }),
        ],
    );
}

#[test]
fn positive_return_is_a_failure() {
    let (_, res) = run(OBJECT, &AttachReplies { program: PROGRAM, native: 1, skb: 2 });
    assert_eq!(res, Err(AttachError::AllModesFailed { last_err: 2 }));
}

#[test]
fn null_object_makes_no_call() {
    let (calls, res) = run(0, &AttachReplies { program: PROGRAM, native: 0, skb: 0 });
    assert_eq!(res, Err(AttachError::NullObject));
    assert!(calls.is_empty());
}

#[test]
fn unopened_program_is_not_touched() {
    let (calls, res) = run(OBJECT, &AttachReplies { program: -2, native: 0, skb: 0 });
    assert_eq!(res, Err(AttachError::OpenFailed { errno: 2 }));
    assert_eq!(calls, vec![open()]);
    let (calls, res) = run(OBJECT, &AttachReplies { program: 0, native: 0, skb: 0 });
    assert_eq!(res, Err(AttachError::NullProgram));
    assert_eq!(calls, vec![open()]);
}

#[test]
fn large_interface_index_wraps() {
    assert_eq!(
        start_attach(OBJECT, u32::MAX, 7),
        AttachStep::Open(OpenProgram { object: OBJECT, ifindex: -1, priority: 7 }),
    );
}

#[test]
fn attach_errors_are_worded() {
    assert_eq!(
        AttachError::NullObject.message("eth0"),
        "libxdp attach: skeleton bpf_object is null on eth0",
    );
    assert_eq!(
        AttachError::OpenFailed { errno: 22 }.message("eth0"),
        "libxdp attach: xdp_program__from_bpf_obj failed on eth0 (errno=22). \
         Hint: was disable_xdp_prog_autoload() called before lqos_kern_load?",
    );
    assert_eq!(
        AttachError::NullProgram.message("eth0"),
        "libxdp attach: xdp_program__from_bpf_obj returned null on eth0",
    );
    assert_eq!(
        AttachError::AllModesFailed { last_err: -22 }.message("to-vpp"),
        "libxdp dispatcher attach failed on to-vpp in all modes (last errno=-22). \
         Hint: kernel must support BPF_PROG_TYPE_EXT (Linux >=5.10) for libxdp \
         composition. If kernel is older, set xdp_attach_mode = \"raw\" in lqos.conf.",
    );
}

#[test]
fn numbers_in_messages() {
    for n in [0, 1, 9, 10, 99, 100, -1, -10, 4095, i32::MAX, i32::MIN] {
        assert!(AttachError::AllModesFailed { last_err: n }
            .message("eth0")
            .contains(&format!("(last errno={n}).")));
    }
}

#[test]
fn attach_events_are_logged() {
    let native = TryAttach {
        program: PROGRAM,
        ifindex: 3,
        mode: DriverMode::Native,
        flags: 0,
        priority: 10,
    };
    let attached = LogLine {
        severity: Severity::Info,
        text: "libxdp dispatcher attached on eth0 (mode DRV, priority 10)".to_string(),
    };
    assert_eq!(native.line(0, "eth0"), attached);
    assert_eq!(attached_line("eth0", DriverMode::Native, 10), attached);
    assert_eq!(
        attached_line("eth1", DriverMode::Skb, u32::MAX).text,
        "libxdp dispatcher attached on eth1 (mode SKB, priority 4294967295)",
    );
    let failed = LogLine {
        severity: Severity::Debug,
        text: "libxdp dispatcher attach in SKB mode failed on eth0 (err=-22); trying next mode"
            .to_string(),
    };
    let skb = TryAttach { mode: DriverMode::Skb, ..native };
    assert_eq!(skb.line(-22, "eth0"), failed);
    assert_eq!(mode_failed_line("eth0", DriverMode::Skb, -22), failed);
    assert_eq!(
        native.line(95, "eth0").text,
        "libxdp dispatcher attach in DRV mode failed on eth0 (err=95); trying next mode",
    );
}

#[test]
fn program_is_taken_from_the_xdp_section() {
    match start_attach(OBJECT, 3, 10) {
        AttachStep::Open(open) => assert_eq!(open.section(), "xdp"),
        _ => panic!("the program is opened first"),
    }
}
