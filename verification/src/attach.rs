//! Attaching the XDP program through the libxdp dispatcher.
//!
//! The dispatcher is asked one thing at a time. Each step says which call comes
//! next and with which arguments; handing the reply back to it gives the next
//! step. There is no way from here to a raw attach: where the dispatcher cannot
//! take the program, the last step is an error.

use vstd::prelude::*;

use crate::decimal::{append_i32, append_u32};
use crate::libxdp::{err_ptr, to_c_ifindex, DriverMode};
use crate::log_line::{LogLine, Severity};

verus! {

/// Why the program was not attached.
#[derive(Clone, Copy, Debug, PartialEq, Eq, Structural)]
pub enum AttachError {
    /// There is no BPF object to take the program from.
    NullObject,
    /// libxdp could not take the program from the BPF object.
    OpenFailed { errno: i32 },
    /// libxdp returned no program.
    NullProgram,
    /// Neither mode could be attached. The error is that of the last one tried.
    AllModesFailed { last_err: i32 },
}

/// `xdp_program__from_bpf_obj(object, section)` comes next.
#[derive(Clone, Copy, Debug, PartialEq, Eq, Structural)]
pub struct OpenProgram {
    pub object: isize,
    pub ifindex: i32,
    pub priority: u32,
}

/// `xdp_program__set_run_prio(program, priority)` comes next.
#[derive(Clone, Copy, Debug, PartialEq, Eq, Structural)]
pub struct SetRunPrio {
    pub program: isize,
    pub ifindex: i32,
    pub priority: u32,
}

/// `xdp_program__attach(program, ifindex, mode, flags)` comes next.
#[derive(Clone, Copy, Debug, PartialEq, Eq, Structural)]
pub struct TryAttach {
    pub program: isize,
    pub ifindex: i32,
    pub mode: DriverMode,
    pub flags: u32,
    /// The priority that was set.
    pub priority: u32,
}

/// `xdp_program__close(program)` comes next.
#[derive(Clone, Copy, Debug, PartialEq, Eq, Structural)]
pub struct CloseProgram {
    pub program: isize,
    pub last_err: i32,
}

/// What comes next.
#[derive(Clone, Copy, Debug, PartialEq, Eq)]
pub enum AttachStep {
    Open(OpenProgram),
    SetPrio(SetRunPrio),
    Attach(TryAttach),
    Close(CloseProgram),
    /// Nothing: the program is attached in a mode, or it is not.
    Finished(Result<DriverMode, AttachError>),
}

/// The first step of attaching the program of the BPF object at address
/// `object` to an interface.
pub open spec fn attach_first(object: isize, ifindex: u32, priority: u32) -> AttachStep {
    if object == 0 {
        AttachStep::Finished(Err(AttachError::NullObject))
    } else {
        AttachStep::Open(
            OpenProgram {
                object,
                ifindex: crate::libxdp::c_ifindex(ifindex) as i32,
                priority,
            },
        )
    }
}

/// Starts to attach the program of the BPF object at address `object` to the
/// interface `ifindex`.
pub fn start_attach(object: isize, ifindex: u32, priority: u32) -> (step: AttachStep)
    ensures
        step == attach_first(object, ifindex, priority),
        object == 0 ==> step == AttachStep::Finished(Err(AttachError::NullObject)),
        object != 0 ==> (step matches AttachStep::Open(open) && {
            &&& open.object == object
            &&& open.priority == priority
            &&& ifindex <= 2147483647 ==> open.ifindex == ifindex
            &&& ifindex > 2147483647 ==> open.ifindex == ifindex - 4294967296
        }),
{
    if object == 0 {
        return AttachStep::Finished(Err(AttachError::NullObject));
    }
    AttachStep::Open(OpenProgram { object, ifindex: to_c_ifindex(ifindex), priority })
}

impl OpenProgram {
    /// The section of the BPF object that the program is taken from.
    pub open spec fn section_text(self) -> Seq<char> {
        "xdp"@
    }

    /// The section of the BPF object that the program is taken from.
    pub fn section(&self) -> (res: &'static str)
        ensures
            res@ == "xdp"@,
            res@ == self.section_text(),
    {
        "xdp"
    }

    /// The step after the call has returned the address `program`.
    pub open spec fn after(self, program: isize) -> AttachStep {
        if crate::libxdp::is_err_address(program) {
            AttachStep::Finished(Err(AttachError::OpenFailed { errno: (-program) as i32 }))
        } else if program == 0 {
            AttachStep::Finished(Err(AttachError::NullProgram))
        } else {
            AttachStep::SetPrio(
                SetRunPrio { program, ifindex: self.ifindex, priority: self.priority },
            )
        }
    }

    /// Goes on after the call has returned the address `program`.
    pub fn opened(self, program: isize) -> (step: AttachStep)
        ensures
            step == self.after(program),
            program == 0 ==> step == AttachStep::Finished(Err(AttachError::NullProgram)),
            -4095 <= program < 0 ==> (step matches AttachStep::Finished(
                Err(AttachError::OpenFailed { errno }),
            ) && errno == -program),
            program > 0 || program < -4095 ==> (step matches AttachStep::SetPrio(set) && {
                &&& set.program == program
                &&& set.ifindex == self.ifindex
                &&& set.priority == self.priority
            }),
    {
        if let Some(errno) = err_ptr(program) {
            return AttachStep::Finished(Err(AttachError::OpenFailed { errno }));
        }
        if program == 0 {
            return AttachStep::Finished(Err(AttachError::NullProgram));
        }
        AttachStep::SetPrio(
            SetRunPrio { program, ifindex: self.ifindex, priority: self.priority },
        )
    }
}

impl SetRunPrio {
    /// The step after the call.
    pub open spec fn after(self) -> AttachStep {
        AttachStep::Attach(
            TryAttach {
                program: self.program,
                ifindex: self.ifindex,
                mode: DriverMode::Native,
                flags: 0,
                priority: self.priority,
            },
        )
    }

    /// Goes on after the call, whatever it has returned.
    pub fn prio_set(self) -> (step: AttachStep)
        ensures
            step == self.after(),
            step matches AttachStep::Attach(attach) && {
                &&& attach.program == self.program
                &&& attach.ifindex == self.ifindex
                &&& attach.mode == DriverMode::Native
                &&& attach.flags == 0
                &&& attach.priority == self.priority
            },
    {
        AttachStep::Attach(
            TryAttach {
                program: self.program,
                ifindex: self.ifindex,
                mode: DriverMode::Native,
                flags: 0,
                priority: self.priority,
            },
        )
    }
}

impl TryAttach {
    /// The step after the call has returned `err`. The program stays open once
    /// it is attached: closing it would detach it.
    pub open spec fn after(self, err: i32) -> AttachStep {
        if err == 0 {
            AttachStep::Finished(Ok(self.mode))
        } else {
            match self.mode {
                DriverMode::Native => AttachStep::Attach(
                    TryAttach { mode: DriverMode::Skb, ..self },
                ),
                DriverMode::Skb => AttachStep::Close(
                    CloseProgram { program: self.program, last_err: err },
                ),
            }
        }
    }

    /// Goes on after the call has returned `err`.
    pub fn returned(self, err: i32) -> (step: AttachStep)
        ensures
            step == self.after(err),
            err == 0 ==> step == AttachStep::Finished(Ok(self.mode)),
            err != 0 && self.mode == DriverMode::Native ==> (step matches AttachStep::Attach(attach)
                && {
                &&& attach.program == self.program
                &&& attach.ifindex == self.ifindex
                &&& attach.mode == DriverMode::Skb
                &&& attach.flags == self.flags
                &&& attach.priority == self.priority
            }),
            err != 0 && self.mode == DriverMode::Skb ==> (step matches AttachStep::Close(close) && {
                &&& close.program == self.program
                &&& close.last_err == err
            }),
    {
        if err == 0 {
            return AttachStep::Finished(Ok(self.mode));
        }
        match self.mode {
            DriverMode::Native => AttachStep::Attach(
                TryAttach {
                    program: self.program,
                    ifindex: self.ifindex,
                    mode: DriverMode::Skb,
                    flags: self.flags,
                    priority: self.priority,
                },
            ),
            DriverMode::Skb => AttachStep::Close(
                CloseProgram { program: self.program, last_err: err },
            ),
        }
    }
}

/// What is logged once the program is attached to the interface `iface`.
pub open spec fn attached_text(iface: Seq<char>, mode: DriverMode, priority: u32) -> Seq<char> {
    "libxdp dispatcher attached on "@ + iface + " (mode "@ + mode.label_text() + ", priority "@
        + crate::decimal::decimal(priority as nat) + ")"@
}

/// What is logged where a mode could not be attached to the interface `iface`.
pub open spec fn mode_failed_text(iface: Seq<char>, mode: DriverMode, err: i32) -> Seq<char> {
    "libxdp dispatcher attach in "@ + mode.label_text() + " mode failed on "@ + iface + " (err="@
        + crate::decimal::signed_decimal(err as int) + "); trying next mode"@
}

/// The log line for a program that is attached.
pub fn attached_line(iface_name: &str, mode: DriverMode, priority: u32) -> (res: LogLine)
    ensures
        res.says(Severity::Info, attached_text(iface_name@, mode, priority)),
        res.severity == Severity::Info,
        res.text@ == attached_text(iface_name@, mode, priority),
{
    let mut out: String = "libxdp dispatcher attached on ".to_owned();
    out.append(iface_name);
    out.append(" (mode ");
    out.append(mode.label());
    out.append(", priority ");
    append_u32(&mut out, priority);
    out.append(")");
    LogLine { severity: Severity::Info, text: out }
}

/// The log line for a mode that could not be attached.
pub fn mode_failed_line(iface_name: &str, mode: DriverMode, err: i32) -> (res: LogLine)
    ensures
        res.says(Severity::Debug, mode_failed_text(iface_name@, mode, err)),
        res.severity == Severity::Debug,
        res.text@ == mode_failed_text(iface_name@, mode, err),
{
    let mut out: String = "libxdp dispatcher attach in ".to_owned();
    out.append(mode.label());
    out.append(" mode failed on ");
    out.append(iface_name);
    out.append(" (err=");
    append_i32(&mut out, err);
    out.append("); trying next mode");
    LogLine { severity: Severity::Debug, text: out }
}

impl TryAttach {
    /// What is logged after the call has returned `err`.
    pub open spec fn logged(self, err: i32, iface: Seq<char>) -> (Severity, Seq<char>) {
        if err == 0 {
            (Severity::Info, attached_text(iface, self.mode, self.priority))
        } else {
            (Severity::Debug, mode_failed_text(iface, self.mode, err))
        }
    }

    /// The log line after the call has returned `err`.
    pub fn line(&self, err: i32, iface_name: &str) -> (res: LogLine)
        ensures
            res.says(self.logged(err, iface_name@).0, self.logged(err, iface_name@).1),
            err == 0 ==> res.severity == Severity::Info && res.text@ == attached_text(
                iface_name@,
                self.mode,
                self.priority,
            ),
            err != 0 ==> res.severity == Severity::Debug && res.text@ == mode_failed_text(
                iface_name@,
                self.mode,
                err,
            ),
    {
        if err == 0 {
            attached_line(iface_name, self.mode, self.priority)
        } else {
            mode_failed_line(iface_name, self.mode, err)
        }
    }
}

impl CloseProgram {
    /// The step after the call.
    pub open spec fn after(self) -> AttachStep {
        AttachStep::Finished(Err(AttachError::AllModesFailed { last_err: self.last_err }))
    }

    /// Goes on after the call.
    pub fn closed(self) -> (step: AttachStep)
        ensures
            step == self.after(),
            step matches AttachStep::Finished(Err(AttachError::AllModesFailed { last_err }))
                && last_err == self.last_err,
    {
        AttachStep::Finished(Err(AttachError::AllModesFailed { last_err: self.last_err }))
    }
}

impl AttachError {
    /// The complaint about the interface `iface`.
    pub open spec fn text(self, iface: Seq<char>) -> Seq<char> {
        match self {
            AttachError::NullObject => "libxdp attach: skeleton bpf_object is null on "@ + iface,
            AttachError::OpenFailed { errno } =>
                "libxdp attach: xdp_program__from_bpf_obj failed on "@ + iface + " (errno="@
                + crate::decimal::signed_decimal(errno as int)
                + "). Hint: was disable_xdp_prog_autoload() called before lqos_kern_load?"@,
            AttachError::NullProgram =>
                "libxdp attach: xdp_program__from_bpf_obj returned null on "@ + iface,
            AttachError::AllModesFailed { last_err } =>
                "libxdp dispatcher attach failed on "@ + iface + " in all modes (last errno="@
                + crate::decimal::signed_decimal(last_err as int)
                + "). Hint: kernel must support BPF_PROG_TYPE_EXT (Linux >=5.10) for libxdp composition. If kernel is older, set xdp_attach_mode = \"raw\" in lqos.conf."@,
        }
    }

    /// The complaint about the interface `iface_name`.
    pub fn message(&self, iface_name: &str) -> (res: String)
        ensures
            res@ == self.text(iface_name@),
    {
        match self {
            AttachError::NullObject => {
                let mut out: String = "libxdp attach: skeleton bpf_object is null on ".to_owned();
                out.append(iface_name);
                out
            },
            AttachError::OpenFailed { errno } => {
                let mut out: String =
                    "libxdp attach: xdp_program__from_bpf_obj failed on ".to_owned();
                out.append(iface_name);
                out.append(" (errno=");
                append_i32(&mut out, *errno);
                out.append(
                    "). Hint: was disable_xdp_prog_autoload() called before lqos_kern_load?",
                );
                out
            },
            AttachError::NullProgram => {
                let mut out: String =
                    "libxdp attach: xdp_program__from_bpf_obj returned null on ".to_owned();
                out.append(iface_name);
                out
            },
            AttachError::AllModesFailed { last_err } => {
                let mut out: String = "libxdp dispatcher attach failed on ".to_owned();
                out.append(iface_name);
                out.append(" in all modes (last errno=");
                append_i32(&mut out, *last_err);
                out.append(
                    "). Hint: kernel must support BPF_PROG_TYPE_EXT (Linux >=5.10) for libxdp composition. If kernel is older, set xdp_attach_mode = \"raw\" in lqos.conf.",
                );
                out
            },
        }
    }
}

/// Every way in which libxdp can reply. No call is made twice in one run, so
/// one reply to each of them is all that a run can see.
pub struct AttachReplies {
    /// The address that taking the program from the BPF object returns.
    pub program: isize,
    /// What attaching in native mode returns.
    pub native: i32,
    /// What attaching in socket buffer mode returns.
    pub skb: i32,
}

impl AttachReplies {
    /// What attaching in a mode returns.
    pub open spec fn attach(self, mode: DriverMode) -> i32 {
        match mode {
            DriverMode::Native => self.native,
            DriverMode::Skb => self.skb,
        }
    }
}

impl AttachStep {
    /// How many calls there can be from here at most.
    pub open spec fn calls_left(self) -> nat {
        match self {
            AttachStep::Open(_) => 5,
            AttachStep::SetPrio(_) => 4,
            AttachStep::Attach(attach) => match attach.mode {
                DriverMode::Native => 3,
                DriverMode::Skb => 2,
            },
            AttachStep::Close(_) => 1,
            AttachStep::Finished(_) => 0,
        }
    }

    /// The step after this one, given the replies.
    pub open spec fn after(self, replies: AttachReplies) -> AttachStep {
        match self {
            AttachStep::Open(open) => open.after(replies.program),
            AttachStep::SetPrio(set) => set.after(),
            AttachStep::Attach(attach) => attach.after(replies.attach(attach.mode)),
            AttachStep::Close(close) => close.after(),
            AttachStep::Finished(_) => self,
        }
    }

    /// The calls that are made from here on, in their order.
    pub open spec fn calls(self, replies: AttachReplies) -> Seq<AttachStep>
        decreases self.calls_left(),
    {
        if self is Finished {
            seq![]
        } else {
            seq![self] + self.after(replies).calls(replies)
        }
    }

    /// What is logged from here on, in its order.
    pub open spec fn logged(self, replies: AttachReplies, iface: Seq<char>) -> Seq<
        (Severity, Seq<char>),
    >
        decreases self.calls_left(),
    {
        match self {
            AttachStep::Finished(_) => seq![],
            AttachStep::Attach(attach) => seq![
                attach.logged(replies.attach(attach.mode), iface),
            ] + self.after(replies).logged(replies, iface),
            _ => self.after(replies).logged(replies, iface),
        }
    }

    /// What comes out in the end.
    pub open spec fn outcome(self, replies: AttachReplies) -> Result<DriverMode, AttachError>
        decreases self.calls_left(),
    {
        match self {
            AttachStep::Finished(res) => res,
            _ => self.after(replies).outcome(replies),
        }
    }
}

/// The attach call in a mode.
pub open spec fn attach_call(
    program: isize,
    ifindex: u32,
    priority: u32,
    mode: DriverMode,
) -> AttachStep {
    AttachStep::Attach(
        TryAttach {
            program,
            ifindex: crate::libxdp::c_ifindex(ifindex) as i32,
            mode,
            flags: 0,
            priority,
        },
    )
}

/// A whole run: which calls are made, in which order and with which arguments,
/// and what comes out.
pub proof fn law_attach_run(object: isize, ifindex: u32, priority: u32, replies: AttachReplies)
    ensures
        ({
            let first = attach_first(object, ifindex, priority);
            let c_index = (if ifindex <= 2147483647 {
                ifindex as int
            } else {
                ifindex - 4294967296
            }) as i32;
            let program = replies.program;
            let open = AttachStep::Open(OpenProgram { object, ifindex: c_index, priority });
            let set = AttachStep::SetPrio(SetRunPrio { program, ifindex: c_index, priority });
            let native = AttachStep::Attach(
                TryAttach { program, ifindex: c_index, mode: DriverMode::Native, flags: 0, priority },
            );
            let skb = AttachStep::Attach(
                TryAttach { program, ifindex: c_index, mode: DriverMode::Skb, flags: 0, priority },
            );
            let close = AttachStep::Close(CloseProgram { program, last_err: replies.skb });
            &&& open->Open_0.section_text() == "xdp"@
            &&& if object == 0 {
                &&& first.calls(replies) == Seq::<AttachStep>::empty()
                &&& first.outcome(replies) == Err::<DriverMode, _>(AttachError::NullObject)
            } else if -4095 <= program < 0 {
                &&& first.calls(replies) == seq![open]
                &&& first.outcome(replies) == Err::<DriverMode, _>(
                    AttachError::OpenFailed { errno: (-program) as i32 },
                )
            } else if program == 0 {
                &&& first.calls(replies) == seq![open]
                &&& first.outcome(replies) == Err::<DriverMode, _>(AttachError::NullProgram)
            } else if replies.native == 0 {
                &&& first.calls(replies) == seq![open, set, native]
                &&& first.outcome(replies) == Ok::<_, AttachError>(DriverMode::Native)
            } else if replies.skb == 0 {
                &&& first.calls(replies) == seq![open, set, native, skb]
                &&& first.outcome(replies) == Ok::<_, AttachError>(DriverMode::Skb)
            } else {
                &&& first.calls(replies) == seq![open, set, native, skb, close]
                &&& first.outcome(replies) == Err::<DriverMode, _>(
                    AttachError::AllModesFailed { last_err: replies.skb },
                )
            }
        }),
{
    reveal_with_fuel(AttachStep::calls, 6);
    reveal_with_fuel(AttachStep::outcome, 6);
    let first = attach_first(object, ifindex, priority);
    let c_index = (if ifindex <= 2147483647 {
        ifindex as int
    } else {
        ifindex - 4294967296
    }) as i32;
    let program = replies.program;
    let open = AttachStep::Open(OpenProgram { object, ifindex: c_index, priority });
    let set = AttachStep::SetPrio(SetRunPrio { program, ifindex: c_index, priority });
    let native = AttachStep::Attach(
        TryAttach { program, ifindex: c_index, mode: DriverMode::Native, flags: 0, priority },
    );
    let skb = AttachStep::Attach(
        TryAttach { program, ifindex: c_index, mode: DriverMode::Skb, flags: 0, priority },
    );
    let close = AttachStep::Close(CloseProgram { program, last_err: replies.skb });
    if object == 0 {
    } else if !crate::libxdp::is_program_address(program) {
        assert(first.calls(replies) =~= seq![open]);
    } else if replies.native == 0 {
        assert(first.calls(replies) =~= seq![open, set, native]);
    } else if replies.skb == 0 {
        assert(first.calls(replies) =~= seq![open, set, native, skb]);
    } else {
        assert(first.calls(replies) =~= seq![open, set, native, skb, close]);
    }
}

/// No silent fallback: success is reported exactly where the dispatcher took
/// the program, and the call that did so, in the mode reported, is the last one
/// made. Everything else is an error.
pub proof fn law_attach_ok_only_if_attached(
    object: isize,
    ifindex: u32,
    priority: u32,
    replies: AttachReplies,
)
    ensures
        ({
            let first = attach_first(object, ifindex, priority);
            let calls = first.calls(replies);
            &&& first.outcome(replies) is Ok <==> (object != 0 && (replies.program > 0
                || replies.program < -4095) && (replies.native == 0 || replies.skb == 0))
            &&& first.outcome(replies) matches Ok(mode) ==> {
                &&& replies.attach(mode) == 0
                &&& calls.last() == attach_call(replies.program, ifindex, priority, mode)
            }
        }),
{
    law_attach_run(object, ifindex, priority, replies);
}

/// A program that was attached is never closed, for closing would detach it. One
/// that could not be attached is closed once, by the last call.
pub proof fn law_attach_closes_only_on_failure(
    object: isize,
    ifindex: u32,
    priority: u32,
    replies: AttachReplies,
)
    ensures
        ({
            let first = attach_first(object, ifindex, priority);
            let calls = first.calls(replies);
            &&& forall|i: int|
                0 <= i < calls.len() && (#[trigger] calls[i]) is Close ==> {
                    &&& i == calls.len() - 1
                    &&& calls[i]->Close_0.program == replies.program
                    &&& first.outcome(replies) matches Err(AttachError::AllModesFailed { .. })
                }
            &&& first.outcome(replies) matches Err(AttachError::AllModesFailed { .. }) ==> {
                &&& calls.len() > 0
                &&& calls.last() is Close
            }
        }),
{
    law_attach_run(object, ifindex, priority, replies);
}

/// Wherever the program is attached, its priority has been set before, to the
/// one that was asked for; and native mode has been tried before the other.
pub proof fn law_attach_order(
    object: isize,
    ifindex: u32,
    priority: u32,
    replies: AttachReplies,
    i: int,
)
    requires
        0 <= i < attach_first(object, ifindex, priority).calls(replies).len(),
        attach_first(object, ifindex, priority).calls(replies)[i] is Attach,
    ensures
        ({
            let calls = attach_first(object, ifindex, priority).calls(replies);
            let c_index = crate::libxdp::c_ifindex(ifindex) as i32;
            &&& calls[1] == AttachStep::SetPrio(
                SetRunPrio { program: replies.program, ifindex: c_index, priority },
            )
            &&& i == 2 || i == 3
            &&& calls[2] == attach_call(
                replies.program,
                ifindex,
                priority,
                DriverMode::Native,
            )
            &&& i == 3 ==> replies.native != 0 && calls[3] == attach_call(
                replies.program,
                ifindex,
                priority,
                DriverMode::Skb,
            )
        }),
{
    law_attach_run(object, ifindex, priority, replies);
}

/// libxdp is handed no null pointer and no pointer that stands for an error,
/// and only the program that it returned.
pub proof fn law_attach_hands_out_valid_pointers(
    object: isize,
    ifindex: u32,
    priority: u32,
    replies: AttachReplies,
    i: int,
)
    requires
        0 <= i < attach_first(object, ifindex, priority).calls(replies).len(),
    ensures
        match attach_first(object, ifindex, priority).calls(replies)[i] {
            AttachStep::Open(open) => open.object == object && object != 0,
            AttachStep::SetPrio(set) => set.program == replies.program && (replies.program > 0
                || replies.program < -4095),
            AttachStep::Attach(attach) => attach.program == replies.program && (replies.program
                > 0 || replies.program < -4095),
            AttachStep::Close(close) => close.program == replies.program && (replies.program > 0
                || replies.program < -4095),
            AttachStep::Finished(_) => false,
        },
{
    law_attach_run(object, ifindex, priority, replies);
}

/// Every mode that is tried is logged once: the failures, then the mode in which
/// the program was attached, with the priority that was asked for. Where no mode
/// is tried, nothing is.
pub proof fn law_attach_log(
    object: isize,
    ifindex: u32,
    priority: u32,
    replies: AttachReplies,
    iface: Seq<char>,
)
    ensures
        ({
            let log = attach_first(object, ifindex, priority).logged(replies, iface);
            let native_failed = (
                Severity::Debug,
                mode_failed_text(iface, DriverMode::Native, replies.native),
            );
            let skb_failed = (
                Severity::Debug,
                mode_failed_text(iface, DriverMode::Skb, replies.skb),
            );
            if object == 0 || -4095 <= replies.program <= 0 {
                log == Seq::<(Severity, Seq<char>)>::empty()
            } else if replies.native == 0 {
                log == seq![(Severity::Info, attached_text(iface, DriverMode::Native, priority))]
            } else if replies.skb == 0 {
                log == seq![
                    native_failed,
                    (Severity::Info, attached_text(iface, DriverMode::Skb, priority)),
                ]
            } else {
                log == seq![native_failed, skb_failed]
            }
        }),
{
    reveal_with_fuel(AttachStep::logged, 6);
    let log = attach_first(object, ifindex, priority).logged(replies, iface);
    let native_failed = (
        Severity::Debug,
        mode_failed_text(iface, DriverMode::Native, replies.native),
    );
    if object == 0 || !crate::libxdp::is_program_address(replies.program) {
    } else if replies.native == 0 {
        assert(log =~= seq![(Severity::Info, attached_text(iface, DriverMode::Native, priority))]);
    } else if replies.skb == 0 {
        assert(log =~= seq![
            native_failed,
            (Severity::Info, attached_text(iface, DriverMode::Skb, priority)),
        ]);
    } else {
        assert(log =~= seq![
            native_failed,
            (Severity::Debug, mode_failed_text(iface, DriverMode::Skb, replies.skb)),
        ]);
    }
}

/// Every call that names an interface names the one that was asked for, and
/// every call that carries a priority carries the one that was asked for.
pub proof fn law_attach_keeps_interface_and_priority(
    object: isize,
    ifindex: u32,
    priority: u32,
    replies: AttachReplies,
    i: int,
)
    requires
        0 <= i < attach_first(object, ifindex, priority).calls(replies).len(),
    ensures
        match attach_first(object, ifindex, priority).calls(replies)[i] {
            AttachStep::Open(open) => {
                &&& ifindex <= 2147483647 ==> open.ifindex == ifindex
                &&& ifindex > 2147483647 ==> open.ifindex == ifindex - 4294967296
                &&& open.priority == priority
            },
            AttachStep::SetPrio(set) => {
                &&& ifindex <= 2147483647 ==> set.ifindex == ifindex
                &&& ifindex > 2147483647 ==> set.ifindex == ifindex - 4294967296
                &&& set.priority == priority
            },
            AttachStep::Attach(attach) => {
                &&& ifindex <= 2147483647 ==> attach.ifindex == ifindex
                &&& ifindex > 2147483647 ==> attach.ifindex == ifindex - 4294967296
                &&& attach.priority == priority
                &&& attach.flags == 0
            },
            _ => true,
        },
{
    law_attach_run(object, ifindex, priority, replies);
}

/// Any program that libxdp hands out, wherever it lies in memory, is attached if
/// the kernel takes it: its priority is set, it is attached in native mode, and
/// that is all.
pub proof fn law_attach_takes_any_program(
    object: isize,
    ifindex: u32,
    priority: u32,
    replies: AttachReplies,
)
    requires
        object != 0,
        replies.program > 0 || replies.program < -4095,
        replies.native == 0,
    ensures
        ({
            let first = attach_first(object, ifindex, priority);
            let calls = first.calls(replies);
            &&& first.outcome(replies) == Ok::<DriverMode, AttachError>(DriverMode::Native)
            &&& calls.len() == 3
            &&& calls[0] matches AttachStep::Open(open) && open.object == object
            &&& calls[1] matches AttachStep::SetPrio(set) && set.program == replies.program
                && set.priority == priority
            &&& calls[2] matches AttachStep::Attach(attach) && attach.program == replies.program
                && attach.mode == DriverMode::Native
        }),
{
    law_attach_run(object, ifindex, priority, replies);
}

/// The words of what is logged and complained of, for every interface and every
/// number.
pub proof fn law_attach_words(iface: Seq<char>, n: i32, priority: u32)
    ensures
        attached_text(iface, DriverMode::Native, priority) == "libxdp dispatcher attached on "@
            + iface + " (mode "@ + "DRV"@ + ", priority "@ + crate::decimal::decimal(
            priority as nat,
        ) + ")"@,
        attached_text(iface, DriverMode::Skb, priority) == "libxdp dispatcher attached on "@ + iface
            + " (mode "@ + "SKB"@ + ", priority "@ + crate::decimal::decimal(priority as nat)
            + ")"@,
        mode_failed_text(iface, DriverMode::Native, n) == "libxdp dispatcher attach in "@ + "DRV"@
            + " mode failed on "@ + iface + " (err="@ + crate::decimal::signed_decimal(n as int)
            + "); trying next mode"@,
        mode_failed_text(iface, DriverMode::Skb, n) == "libxdp dispatcher attach in "@ + "SKB"@
            + " mode failed on "@ + iface + " (err="@ + crate::decimal::signed_decimal(n as int)
            + "); trying next mode"@,
        AttachError::NullObject.text(iface) == "libxdp attach: skeleton bpf_object is null on "@
            + iface,
        (AttachError::OpenFailed { errno: n }).text(iface)
            == "libxdp attach: xdp_program__from_bpf_obj failed on "@ + iface + " (errno="@
            + crate::decimal::signed_decimal(n as int)
            + "). Hint: was disable_xdp_prog_autoload() called before lqos_kern_load?"@,
        AttachError::NullProgram.text(iface)
            == "libxdp attach: xdp_program__from_bpf_obj returned null on "@ + iface,
        (AttachError::AllModesFailed { last_err: n }).text(iface)
            == "libxdp dispatcher attach failed on "@ + iface + " in all modes (last errno="@
            + crate::decimal::signed_decimal(n as int)
            + "). Hint: kernel must support BPF_PROG_TYPE_EXT (Linux >=5.10) for libxdp composition. If kernel is older, set xdp_attach_mode = \"raw\" in lqos.conf."@,
{
}

} // verus!
