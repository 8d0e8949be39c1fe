//! Detaching the XDP program through libxdp.
//!
//! As with attaching, each step says which call comes next and with which
//! arguments, and takes the reply. Detaching does not fail: where libxdp cannot
//! do it, the raw detach that follows cleans up, and the outcome says only what
//! happened.

use vstd::prelude::*;

use crate::decimal::{append_i32, append_u32};
use crate::libxdp::{err_ptr, to_c_ifindex, DriverMode};
use crate::log_line::{LogLine, Severity};

verus! {

/// What came of detaching.
#[derive(Clone, Copy, Debug, PartialEq, Eq, Structural)]
pub enum DetachOutcome {
    /// The interface could not be asked for its program.
    QueryFailed { err: i32 },
    /// The interface has no program.
    NothingAttached,
    /// libxdp could not open the program.
    OpenFailed { prog_id: u32, errno: i32 },
    /// libxdp returned no program.
    NullProgram,
    /// The program was detached.
    Detached { mode: DriverMode },
    /// Neither mode could be detached.
    BothModesFailed { native_err: i32, skb_err: i32 },
}

/// `bpf_xdp_query_id(ifindex, flags, &mut prog_id)` comes next.
#[derive(Clone, Copy, Debug, PartialEq, Eq, Structural)]
pub struct QueryProgram {
    pub ifindex: i32,
    pub flags: i32,
}

/// `xdp_program__from_id(prog_id)` comes next.
#[derive(Clone, Copy, Debug, PartialEq, Eq, Structural)]
pub struct OpenById {
    pub prog_id: u32,
    pub ifindex: i32,
}

/// `xdp_program__detach(program, ifindex, mode, flags)` comes next.
#[derive(Clone, Copy, Debug, PartialEq, Eq, Structural)]
pub struct TryDetach {
    pub program: isize,
    pub ifindex: i32,
    pub mode: DriverMode,
    pub flags: u32,
    /// What detaching in native mode returned; 0 before that was tried.
    pub native_err: i32,
}

/// `xdp_program__close(program)` comes next.
#[derive(Clone, Copy, Debug, PartialEq, Eq, Structural)]
pub struct CloseDetached {
    pub program: isize,
    pub outcome: DetachOutcome,
}

/// What comes next.
#[derive(Clone, Copy, Debug, PartialEq, Eq, Structural)]
pub enum DetachStep {
    Query(QueryProgram),
    Open(OpenById),
    Detach(TryDetach),
    Close(CloseDetached),
    /// Nothing: detaching is over.
    Finished(DetachOutcome),
}

/// The first step of detaching from an interface.
pub open spec fn detach_first(ifindex: u32) -> QueryProgram {
    QueryProgram { ifindex: crate::libxdp::c_ifindex(ifindex) as i32, flags: 0 }
}

/// Starts to detach whatever program the interface `ifindex` has.
pub fn start_detach(ifindex: u32) -> (step: DetachStep)
    ensures
        step == DetachStep::Query(detach_first(ifindex)),
        step matches DetachStep::Query(query) && {
            &&& query.flags == 0
            &&& ifindex <= 2147483647 ==> query.ifindex == ifindex
            &&& ifindex > 2147483647 ==> query.ifindex == ifindex - 4294967296
        },
{
    DetachStep::Query(QueryProgram { ifindex: to_c_ifindex(ifindex), flags: 0 })
}

impl QueryProgram {
    /// The step after the call has returned `err` and stored `prog_id`.
    pub open spec fn after(self, err: i32, prog_id: u32) -> DetachStep {
        if err != 0 {
            DetachStep::Finished(DetachOutcome::QueryFailed { err })
        } else if prog_id == 0 {
            DetachStep::Finished(DetachOutcome::NothingAttached)
        } else {
            DetachStep::Open(OpenById { prog_id, ifindex: self.ifindex })
        }
    }

    /// Goes on after the call has returned `err` and stored `prog_id`.
    pub fn returned(self, err: i32, prog_id: u32) -> (step: DetachStep)
        ensures
            step == self.after(err, prog_id),
            err != 0 ==> (step matches DetachStep::Finished(
                DetachOutcome::QueryFailed { err: reported },
            ) && reported == err),
            err == 0 && prog_id == 0 ==> step == DetachStep::Finished(
                DetachOutcome::NothingAttached,
            ),
            err == 0 && prog_id != 0 ==> (step matches DetachStep::Open(open) && {
                &&& open.prog_id == prog_id
                &&& open.ifindex == self.ifindex
            }),
    {
        if err != 0 {
            return DetachStep::Finished(DetachOutcome::QueryFailed { err });
        }
        if prog_id == 0 {
            return DetachStep::Finished(DetachOutcome::NothingAttached);
        }
        DetachStep::Open(OpenById { prog_id, ifindex: self.ifindex })
    }
}

impl OpenById {
    /// The step after the call has returned the address `program`.
    pub open spec fn after(self, program: isize) -> DetachStep {
        if crate::libxdp::is_err_address(program) {
            DetachStep::Finished(
                DetachOutcome::OpenFailed { prog_id: self.prog_id, errno: (-program) as i32 },
            )
        } else if program == 0 {
            DetachStep::Finished(DetachOutcome::NullProgram)
        } else {
            DetachStep::Detach(
                TryDetach {
                    program,
                    ifindex: self.ifindex,
                    mode: DriverMode::Native,
                    flags: 0,
                    native_err: 0,
                },
            )
        }
    }

    /// Goes on after the call has returned the address `program`.
    pub fn opened(self, program: isize) -> (step: DetachStep)
        ensures
            step == self.after(program),
            program == 0 ==> step == DetachStep::Finished(DetachOutcome::NullProgram),
            -4095 <= program < 0 ==> (step matches DetachStep::Finished(
                DetachOutcome::OpenFailed { prog_id, errno },
            ) && prog_id == self.prog_id && errno == -program),
            program > 0 || program < -4095 ==> (step matches DetachStep::Detach(detach) && {
                &&& detach.program == program
                &&& detach.ifindex == self.ifindex
                &&& detach.mode == DriverMode::Native
                &&& detach.flags == 0
                &&& detach.native_err == 0
            }),
    {
        if let Some(errno) = err_ptr(program) {
            return DetachStep::Finished(
                DetachOutcome::OpenFailed { prog_id: self.prog_id, errno },
            );
        }
        if program == 0 {
            return DetachStep::Finished(DetachOutcome::NullProgram);
        }
        DetachStep::Detach(
            TryDetach {
                program,
                ifindex: self.ifindex,
                mode: DriverMode::Native,
                flags: 0,
                native_err: 0,
            },
        )
    }
}

impl TryDetach {
    /// The step after the call has returned `err`.
    pub open spec fn after(self, err: i32) -> DetachStep {
        if err == 0 {
            DetachStep::Close(
                CloseDetached {
                    program: self.program,
                    outcome: DetachOutcome::Detached { mode: self.mode },
                },
            )
        } else {
            match self.mode {
                DriverMode::Native => DetachStep::Detach(
                    TryDetach { mode: DriverMode::Skb, native_err: err, ..self },
                ),
                DriverMode::Skb => DetachStep::Close(
                    CloseDetached {
                        program: self.program,
                        outcome: DetachOutcome::BothModesFailed {
                            native_err: self.native_err,
                            skb_err: err,
                        },
                    },
                ),
            }
        }
    }

    /// Goes on after the call has returned `err`.
    pub fn returned(self, err: i32) -> (step: DetachStep)
        ensures
            step == self.after(err),
            err == 0 ==> (step matches DetachStep::Close(close) && {
                &&& close.program == self.program
                &&& close.outcome matches DetachOutcome::Detached { mode } && mode == self.mode
            }),
            err != 0 && self.mode == DriverMode::Native ==> (step matches DetachStep::Detach(detach)
                && {
                &&& detach.program == self.program
                &&& detach.ifindex == self.ifindex
                &&& detach.mode == DriverMode::Skb
                &&& detach.flags == self.flags
                &&& detach.native_err == err
            }),
            err != 0 && self.mode == DriverMode::Skb ==> (step matches DetachStep::Close(close) && {
                &&& close.program == self.program
                &&& close.outcome matches DetachOutcome::BothModesFailed { native_err, skb_err }
                    && native_err == self.native_err && skb_err == err
            }),
    {
        if err == 0 {
            return DetachStep::Close(
                CloseDetached {
                    program: self.program,
                    outcome: DetachOutcome::Detached { mode: self.mode },
                },
            );
        }
        match self.mode {
            DriverMode::Native => DetachStep::Detach(
                TryDetach {
                    program: self.program,
                    ifindex: self.ifindex,
                    mode: DriverMode::Skb,
                    flags: self.flags,
                    native_err: err,
                },
            ),
            DriverMode::Skb => DetachStep::Close(
                CloseDetached {
                    program: self.program,
                    outcome: DetachOutcome::BothModesFailed {
                        native_err: self.native_err,
                        skb_err: err,
                    },
                },
            ),
        }
    }
}

impl CloseDetached {
    /// The step after the call.
    pub open spec fn after(self) -> DetachStep {
        DetachStep::Finished(self.outcome)
    }

    /// Goes on after the call.
    pub fn closed(self) -> (step: DetachStep)
        ensures
            step == self.after(),
            step == DetachStep::Finished(self.outcome),
    {
        DetachStep::Finished(self.outcome)
    }
}

impl DetachOutcome {
    /// What is logged of the outcome on the interface `iface`, if anything is. It
    /// is a warning where a program was found and is left for the raw detach.
    pub open spec fn logged(self, iface: Seq<char>) -> Option<(Severity, Seq<char>)> {
        match self {
            DetachOutcome::QueryFailed { err } => Some(
                (
                    Severity::Debug,
                    "libxdp detach: bpf_xdp_query_id failed on "@ + iface + " (err="@
                        + crate::decimal::signed_decimal(err as int) + "); no XDP attached?"@,
                ),
            ),
            DetachOutcome::NothingAttached => Some(
                (
                    Severity::Debug,
                    "libxdp detach: no XDP program attached on "@ + iface + "; nothing to do"@,
                ),
            ),
            DetachOutcome::OpenFailed { prog_id, errno } => Some(
                (
                    Severity::Warn,
                    "libxdp detach: xdp_program__from_id("@ + crate::decimal::decimal(
                        prog_id as nat,
                    ) + ") failed on "@ + iface + " (errno="@ + crate::decimal::signed_decimal(
                        errno as int,
                    ) + "); leaving for raw fallback"@,
                ),
            ),
            DetachOutcome::NullProgram => None,
            DetachOutcome::Detached { mode: DriverMode::Native } => Some(
                (Severity::Info, "libxdp dispatcher detached on "@ + iface),
            ),
            DetachOutcome::Detached { mode: DriverMode::Skb } => Some(
                (Severity::Info, "libxdp dispatcher detached on "@ + iface + " (SKB mode)"@),
            ),
            DetachOutcome::BothModesFailed { native_err, skb_err } => Some(
                (
                    Severity::Warn,
                    "libxdp detach: both modes failed on "@ + iface + " (DRV err="@
                        + crate::decimal::signed_decimal(native_err as int) + ", SKB err="@
                        + crate::decimal::signed_decimal(skb_err as int)
                        + "); raw cascade will clean up"@,
                ),
            ),
        }
    }

    /// The log line for the outcome on the interface `iface_name`, if there is
    /// one.
    pub fn line(&self, iface_name: &str) -> (res: Option<LogLine>)
        ensures
            res is None <==> *self == DetachOutcome::NullProgram,
            match (res, self.logged(iface_name@)) {
                (Some(line), Some((severity, text))) => {
                    &&& line.says(severity, text)
                    &&& line.severity == severity
                    &&& line.text@ == text
                },
                (None, None) => true,
                _ => false,
            },
    {
        match self {
            DetachOutcome::QueryFailed { err } => {
                let mut out: String = "libxdp detach: bpf_xdp_query_id failed on ".to_owned();
                out.append(iface_name);
                out.append(" (err=");
                append_i32(&mut out, *err);
                out.append("); no XDP attached?");
                Some(LogLine { severity: Severity::Debug, text: out })
            },
            DetachOutcome::NothingAttached => {
                let mut out: String = "libxdp detach: no XDP program attached on ".to_owned();
                out.append(iface_name);
                out.append("; nothing to do");
                Some(LogLine { severity: Severity::Debug, text: out })
            },
            DetachOutcome::OpenFailed { prog_id, errno } => {
                let mut out: String = "libxdp detach: xdp_program__from_id(".to_owned();
                append_u32(&mut out, *prog_id);
                out.append(") failed on ");
                out.append(iface_name);
                out.append(" (errno=");
                append_i32(&mut out, *errno);
                out.append("); leaving for raw fallback");
                Some(LogLine { severity: Severity::Warn, text: out })
            },
            DetachOutcome::NullProgram => None,
            DetachOutcome::Detached { mode } => {
                let mut out: String = "libxdp dispatcher detached on ".to_owned();
                out.append(iface_name);
                match mode {
                    DriverMode::Native => {},
                    DriverMode::Skb => {
                        out.append(" (SKB mode)");
                    },
                }
                Some(LogLine { severity: Severity::Info, text: out })
            },
            DetachOutcome::BothModesFailed { native_err, skb_err } => {
                let mut out: String = "libxdp detach: both modes failed on ".to_owned();
                out.append(iface_name);
                out.append(" (DRV err=");
                append_i32(&mut out, *native_err);
                out.append(", SKB err=");
                append_i32(&mut out, *skb_err);
                out.append("); raw cascade will clean up");
                Some(LogLine { severity: Severity::Warn, text: out })
            },
        }
    }
}

impl DetachStep {
    /// What is logged on reaching this step on the interface `iface`, before the
    /// call that it asks for. A detach in native mode is logged before the program
    /// is closed, every other outcome at the end.
    pub open spec fn logged(self, iface: Seq<char>) -> Option<(Severity, Seq<char>)> {
        let native = DetachOutcome::Detached { mode: DriverMode::Native };
        match self {
            DetachStep::Close(close) if close.outcome == native => native.logged(iface),
            DetachStep::Finished(outcome) if outcome != native => outcome.logged(iface),
            _ => None,
        }
    }

    /// The line to log on reaching this step, before the call that it asks for,
    /// if there is one.
    pub fn line(&self, iface_name: &str) -> (res: Option<LogLine>)
        ensures
            match (res, self.logged(iface_name@)) {
                (Some(line), Some((severity, text))) => {
                    &&& line.says(severity, text)
                    &&& line.severity == severity
                    &&& line.text@ == text
                },
                (None, None) => true,
                _ => false,
            },
    {
        let native: DetachOutcome = DetachOutcome::Detached { mode: DriverMode::Native };
        match self {
            DetachStep::Close(close) => {
                if close.outcome == native {
                    close.outcome.line(iface_name)
                } else {
                    None
                }
            },
            DetachStep::Finished(outcome) => {
                if *outcome != native {
                    outcome.line(iface_name)
                } else {
                    None
                }
            },
            _ => None,
        }
    }
}

/// Every way in which libbpf and libxdp can reply. No call is made twice in one
/// run, so one reply to each of them is all that a run can see.
pub struct DetachReplies {
    /// What asking for the program returns.
    pub query: i32,
    /// The identifier that asking for the program stores.
    pub prog_id: u32,
    /// The address that opening the program returns.
    pub program: isize,
    /// What detaching in native mode returns.
    pub native: i32,
    /// What detaching in socket buffer mode returns.
    pub skb: i32,
}

impl DetachReplies {
    /// What detaching in a mode returns.
    pub open spec fn detach(self, mode: DriverMode) -> i32 {
        match mode {
            DriverMode::Native => self.native,
            DriverMode::Skb => self.skb,
        }
    }

    /// Whether there is a program on the interface that libxdp can open.
    pub open spec fn has_program(self) -> bool {
        &&& self.query == 0
        &&& self.prog_id != 0
        &&& crate::libxdp::is_program_address(self.program)
    }
}

impl DetachStep {
    /// How many calls there can be from here at most.
    pub open spec fn calls_left(self) -> nat {
        match self {
            DetachStep::Query(_) => 5,
            DetachStep::Open(_) => 4,
            DetachStep::Detach(detach) => match detach.mode {
                DriverMode::Native => 3,
                DriverMode::Skb => 2,
            },
            DetachStep::Close(_) => 1,
            DetachStep::Finished(_) => 0,
        }
    }

    /// The step after this one, given the replies.
    pub open spec fn after(self, replies: DetachReplies) -> DetachStep {
        match self {
            DetachStep::Query(query) => query.after(replies.query, replies.prog_id),
            DetachStep::Open(open) => open.after(replies.program),
            DetachStep::Detach(detach) => detach.after(replies.detach(detach.mode)),
            DetachStep::Close(close) => close.after(),
            DetachStep::Finished(_) => self,
        }
    }

    /// The calls that are made from here on, in their order.
    pub open spec fn calls(self, replies: DetachReplies) -> Seq<DetachStep>
        decreases self.calls_left(),
    {
        if self is Finished {
            seq![]
        } else {
            seq![self] + self.after(replies).calls(replies)
        }
    }

    /// What is logged from here on, in its order.
    pub open spec fn log(self, replies: DetachReplies, iface: Seq<char>) -> Seq<
        (Severity, Seq<char>),
    >
        decreases self.calls_left(),
    {
        let here = match self.logged(iface) {
            Some(line) => seq![line],
            None => seq![],
        };
        if self is Finished {
            here
        } else {
            here + self.after(replies).log(replies, iface)
        }
    }

    /// What comes out in the end.
    pub open spec fn outcome(self, replies: DetachReplies) -> DetachOutcome
        decreases self.calls_left(),
    {
        match self {
            DetachStep::Finished(outcome) => outcome,
            _ => self.after(replies).outcome(replies),
        }
    }
}

/// The detach call in native mode.
pub open spec fn native_detach(program: isize, ifindex: u32) -> TryDetach {
    TryDetach {
        program,
        ifindex: crate::libxdp::c_ifindex(ifindex) as i32,
        mode: DriverMode::Native,
        flags: 0,
        native_err: 0,
    }
}

/// A whole run: which calls are made, in which order and with which arguments,
/// and what comes out.
pub proof fn law_detach_run(ifindex: u32, replies: DetachReplies)
    ensures
        ({
            let first = DetachStep::Query(detach_first(ifindex));
            let c_index = (if ifindex <= 2147483647 {
                ifindex as int
            } else {
                ifindex - 4294967296
            }) as i32;
            let program = replies.program;
            let open = DetachStep::Open(OpenById { prog_id: replies.prog_id, ifindex: c_index });
            let native = DetachStep::Detach(
                TryDetach {
                    program,
                    ifindex: c_index,
                    mode: DriverMode::Native,
                    flags: 0,
                    native_err: 0,
                },
            );
            let skb = DetachStep::Detach(
                TryDetach {
                    program,
                    ifindex: c_index,
                    mode: DriverMode::Skb,
                    flags: 0,
                    native_err: replies.native,
                },
            );
            let close = DetachStep::Close(
                CloseDetached { program, outcome: first.outcome(replies) },
            );
            if replies.query != 0 {
                &&& first.calls(replies) == seq![first]
                &&& first.outcome(replies) == DetachOutcome::QueryFailed { err: replies.query }
            } else if replies.prog_id == 0 {
                &&& first.calls(replies) == seq![first]
                &&& first.outcome(replies) == DetachOutcome::NothingAttached
            } else if -4095 <= program < 0 {
                &&& first.calls(replies) == seq![first, open]
                &&& first.outcome(replies) == DetachOutcome::OpenFailed {
                    prog_id: replies.prog_id,
                    errno: (-program) as i32,
                }
            } else if program == 0 {
                &&& first.calls(replies) == seq![first, open]
                &&& first.outcome(replies) == DetachOutcome::NullProgram
            } else if replies.native == 0 {
                &&& first.calls(replies) == seq![first, open, native, close]
                &&& first.outcome(replies) == DetachOutcome::Detached { mode: DriverMode::Native }
            } else if replies.skb == 0 {
                &&& first.calls(replies) == seq![first, open, native, skb, close]
                &&& first.outcome(replies) == DetachOutcome::Detached { mode: DriverMode::Skb }
            } else {
                &&& first.calls(replies) == seq![first, open, native, skb, close]
                &&& first.outcome(replies) == DetachOutcome::BothModesFailed {
                    native_err: replies.native,
                    skb_err: replies.skb,
                }
            }
        }),
{
    reveal_with_fuel(DetachStep::calls, 6);
    reveal_with_fuel(DetachStep::outcome, 6);
    let first = DetachStep::Query(detach_first(ifindex));
    let c_index = (if ifindex <= 2147483647 {
        ifindex as int
    } else {
        ifindex - 4294967296
    }) as i32;
    let program = replies.program;
    let open = DetachStep::Open(OpenById { prog_id: replies.prog_id, ifindex: c_index });
    let native = DetachStep::Detach(
        TryDetach {
            program,
            ifindex: c_index,
            mode: DriverMode::Native,
            flags: 0,
            native_err: 0,
        },
    );
    let skb = DetachStep::Detach(
        TryDetach {
            program,
            ifindex: c_index,
            mode: DriverMode::Skb,
            flags: 0,
            native_err: replies.native,
        },
    );
    let close = DetachStep::Close(CloseDetached { program, outcome: first.outcome(replies) });
    if replies.query != 0 || replies.prog_id == 0 {
        assert(first.calls(replies) =~= seq![first]);
    } else if !crate::libxdp::is_program_address(program) {
        assert(first.calls(replies) =~= seq![first, open]);
    } else if replies.native == 0 {
        assert(first.calls(replies) =~= seq![first, open, native, close]);
    } else {
        assert(first.calls(replies) =~= seq![first, open, native, skb, close]);
    }
}

/// Nothing is done to an interface without a program: it is asked for one, and
/// that is all. So detaching again after the program is gone changes nothing.
pub proof fn law_detach_leaves_bare_interface_alone(ifindex: u32, replies: DetachReplies)
    requires
        replies.query != 0 || replies.prog_id == 0,
    ensures
        DetachStep::Query(detach_first(ifindex)).calls(replies) == seq![
            DetachStep::Query(detach_first(ifindex)),
        ],
{
    law_detach_run(ifindex, replies);
}

/// A program that was opened is closed once, by the last call, whether or not
/// it could be detached. Where none was opened, none is detached or closed.
pub proof fn law_detach_closes_what_it_opens(ifindex: u32, replies: DetachReplies)
    ensures
        ({
            let calls = DetachStep::Query(detach_first(ifindex)).calls(replies);
            &&& replies.has_program() <==> calls.last() is Close
            &&& forall|i: int|
                0 <= i < calls.len() ==> match #[trigger] calls[i] {
                    DetachStep::Close(close) => i == calls.len() - 1 && close.program
                        == replies.program && replies.has_program(),
                    DetachStep::Detach(detach) => detach.program == replies.program
                        && replies.has_program(),
                    _ => true,
                }
        }),
{
    law_detach_run(ifindex, replies);
}

/// The program is reported as detached exactly where a detach call succeeded;
/// native mode is tried first, and the other one only where that failed.
pub proof fn law_detached_only_if_detached(ifindex: u32, replies: DetachReplies)
    ensures
        ({
            let first = DetachStep::Query(detach_first(ifindex));
            let calls = first.calls(replies);
            &&& first.outcome(replies) is Detached <==> (replies.has_program() && (replies.native
                == 0 || replies.skb == 0))
            &&& first.outcome(replies) matches DetachOutcome::Detached { mode } ==> replies.detach(
                mode,
            ) == 0
            &&& replies.has_program() ==> calls.len() > 2 && calls[2] == DetachStep::Detach(
                native_detach(replies.program, ifindex),
            )
            &&& forall|i: int|
                0 <= i < calls.len() ==> ((#[trigger] calls[i]) matches DetachStep::Detach(detach)
                    ==> (detach.mode == DriverMode::Skb ==> i == 3 && replies.native != 0))
        }),
{
    law_detach_run(ifindex, replies);
}

/// There is a warning exactly where the interface has a program that libxdp
/// reports it cannot open or cannot detach, so that the raw detach has something
/// to clean up.
pub proof fn law_detach_warns_of_what_is_left(
    ifindex: u32,
    replies: DetachReplies,
    iface: Seq<char>,
)
    ensures
        ({
            let outcome = DetachStep::Query(detach_first(ifindex)).outcome(replies);
            (outcome.logged(iface) matches Some((severity, _)) && severity == Severity::Warn) <==> {
                &&& replies.query == 0
                &&& replies.prog_id != 0
                &&& crate::libxdp::is_err_address(replies.program) || (replies.program != 0
                    && replies.native != 0 && replies.skb != 0)
            }
        }),
{
    law_detach_run(ifindex, replies);
}

/// The outcome is logged once, or not at all where there is nothing to log of
/// it.
pub proof fn law_detach_log(ifindex: u32, replies: DetachReplies, iface: Seq<char>)
    ensures
        ({
            let first = DetachStep::Query(detach_first(ifindex));
            first.log(replies, iface) == match first.outcome(replies).logged(iface) {
                Some(line) => seq![line],
                None => Seq::<(Severity, Seq<char>)>::empty(),
            }
        }),
{
    reveal_with_fuel(DetachStep::log, 6);
    reveal_with_fuel(DetachStep::outcome, 6);
    let first = DetachStep::Query(detach_first(ifindex));
    match first.outcome(replies).logged(iface) {
        Some(line) => {
            assert(first.log(replies, iface) =~= seq![line]);
        },
        None => {
            assert(first.log(replies, iface) =~= Seq::<(Severity, Seq<char>)>::empty());
        },
    }
}

/// Every call that names an interface names the one that was asked for, and the
/// program that is opened is the one that was found there.
pub proof fn law_detach_keeps_interface(ifindex: u32, replies: DetachReplies, i: int)
    requires
        0 <= i < DetachStep::Query(detach_first(ifindex)).calls(replies).len(),
    ensures
        match DetachStep::Query(detach_first(ifindex)).calls(replies)[i] {
            DetachStep::Query(query) => {
                &&& ifindex <= 2147483647 ==> query.ifindex == ifindex
                &&& ifindex > 2147483647 ==> query.ifindex == ifindex - 4294967296
                &&& query.flags == 0
            },
            DetachStep::Open(open) => {
                &&& ifindex <= 2147483647 ==> open.ifindex == ifindex
                &&& ifindex > 2147483647 ==> open.ifindex == ifindex - 4294967296
                &&& open.prog_id == replies.prog_id
            },
            DetachStep::Detach(detach) => {
                &&& ifindex <= 2147483647 ==> detach.ifindex == ifindex
                &&& ifindex > 2147483647 ==> detach.ifindex == ifindex - 4294967296
                &&& detach.flags == 0
                &&& detach.program == replies.program
            },
            _ => true,
        },
{
    law_detach_run(ifindex, replies);
}

/// Any program that libxdp hands out, wherever it lies in memory, is detached if
/// the kernel lets go of it.
pub proof fn law_detach_takes_any_program(ifindex: u32, replies: DetachReplies)
    requires
        replies.query == 0,
        replies.prog_id != 0,
        replies.program > 0 || replies.program < -4095,
    ensures
        ({
            let outcome = DetachStep::Query(detach_first(ifindex)).outcome(replies);
            &&& replies.native == 0 ==> outcome == (DetachOutcome::Detached {
                mode: DriverMode::Native,
            })
            &&& replies.native != 0 && replies.skb == 0 ==> outcome == (DetachOutcome::Detached {
                mode: DriverMode::Skb,
            })
            &&& replies.native != 0 && replies.skb != 0 ==> outcome == (
            DetachOutcome::BothModesFailed { native_err: replies.native, skb_err: replies.skb })
        }),
{
    law_detach_run(ifindex, replies);
}

/// What is logged of every outcome, in words.
pub proof fn law_detach_words(iface: Seq<char>, n: i32, m: i32, prog_id: u32)
    ensures
        (DetachOutcome::QueryFailed { err: n }).logged(iface) == Some(
            (
                Severity::Debug,
                "libxdp detach: bpf_xdp_query_id failed on "@ + iface + " (err="@
                    + crate::decimal::signed_decimal(n as int) + "); no XDP attached?"@,
            ),
        ),
        DetachOutcome::NothingAttached.logged(iface) == Some(
            (
                Severity::Debug,
                "libxdp detach: no XDP program attached on "@ + iface + "; nothing to do"@,
            ),
        ),
        (DetachOutcome::OpenFailed { prog_id, errno: n }).logged(iface) == Some(
            (
                Severity::Warn,
                "libxdp detach: xdp_program__from_id("@ + crate::decimal::decimal(prog_id as nat)
                    + ") failed on "@ + iface + " (errno="@ + crate::decimal::signed_decimal(
                    n as int,
                ) + "); leaving for raw fallback"@,
            ),
        ),
        DetachOutcome::NullProgram.logged(iface) is None,
        (DetachOutcome::Detached { mode: DriverMode::Native }).logged(iface) == Some(
            (Severity::Info, "libxdp dispatcher detached on "@ + iface),
        ),
        (DetachOutcome::Detached { mode: DriverMode::Skb }).logged(iface) == Some(
            (Severity::Info, "libxdp dispatcher detached on "@ + iface + " (SKB mode)"@),
        ),
        (DetachOutcome::BothModesFailed { native_err: n, skb_err: m }).logged(iface) == Some(
            (
                Severity::Warn,
                "libxdp detach: both modes failed on "@ + iface + " (DRV err="@
                    + crate::decimal::signed_decimal(n as int) + ", SKB err="@
                    + crate::decimal::signed_decimal(m as int) + "); raw cascade will clean up"@,
            ),
        ),
{
}

/// When the outcome is logged: in native mode before the program is closed,
/// otherwise at the end. No other step logs anything.
pub proof fn law_detach_logs_in_time(step: DetachStep, iface: Seq<char>)
    ensures
        match step {
            DetachStep::Close(close) => step.logged(iface) == (if close.outcome
                == (DetachOutcome::Detached { mode: DriverMode::Native }) {
                close.outcome.logged(iface)
            } else {
                None
            }),
            DetachStep::Finished(outcome) => step.logged(iface) == (if outcome
                == (DetachOutcome::Detached { mode: DriverMode::Native }) {
                None
            } else {
                outcome.logged(iface)
            }),
            _ => step.logged(iface) is None,
        },
{
}

} // verus!
