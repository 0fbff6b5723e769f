use vstd::prelude::*;

use crate::payload::CommandPayload;

verus! {

/// One frame of a captured call stack: the return address and, where the
/// platform reports it, the base address of the module that holds it.
#[derive(Clone, Copy, Debug, PartialEq, Eq, Structural)]
pub struct StackFrame {
    pub address: u64,
    pub module_base: Option<u64>,
}

/// A captured command with its metadata: the thread that issued it, the time
/// since the capture began (in nanoseconds) and the call stack at the point of
/// issue, innermost frame first.
#[derive(Clone, Debug, PartialEq, Eq)]
pub struct Command {
    pub payload: CommandPayload,
    pub stack: Vec<StackFrame>,
    pub thread_id: u32,
    pub elapsed_nanos: u64,
}

#[verifier::external_type_specification]
#[verifier::external_body]
pub struct ExInstant(std::time::Instant);

/// Relies on std's `Instant::now`: a reading of the monotonic clock. Nothing
/// is known of its value.
pub assume_specification[ std::time::Instant::now ]() -> std::time::Instant;

/// Relies on std's `Instant::elapsed`: the time since the instant. It
/// depends on the clock, so nothing is promised of it.
pub assume_specification[ std::time::Instant::elapsed ](i: &std::time::Instant) -> std::time::Duration;

/// Relies on std's `Duration::as_nanos`: the whole nanoseconds of a
/// duration, which the specification leaves unnamed.
pub assume_specification[ std::time::Duration::as_nanos ](d: &std::time::Duration) -> u128;

#[verifier::external_type_specification]
#[verifier::external_body]
pub struct ExBacktrace(backtrace::Backtrace);

#[verifier::external_type_specification]
#[verifier::external_body]
pub struct ExBacktraceFrame(backtrace::BacktraceFrame);

/// Relies on backtrace's `Backtrace::new_unresolved`: a snapshot of the
/// calling thread's stack, without symbol resolution. It depends on the
/// caller's stack, so nothing is promised of it.
pub assume_specification[ backtrace::Backtrace::new_unresolved ]() -> backtrace::Backtrace;

/// Relies on backtrace's `Backtrace::frames`: the frames of the snapshot,
/// innermost first.
pub assume_specification[ backtrace::Backtrace::frames ](b: &backtrace::Backtrace) -> &[backtrace::BacktraceFrame];

/// Relies on backtrace's `BacktraceFrame::ip`: the frame's instruction
/// pointer, as an address.
#[verifier::external_body]
fn frame_address(f: &backtrace::BacktraceFrame) -> (r: u64) {
    f.ip() as usize as u64
}

/// Relies on backtrace's `BacktraceFrame::module_base_address`: the base
/// address of the module holding the frame, where the platform reports it.
#[verifier::external_body]
fn frame_module_base(f: &backtrace::BacktraceFrame) -> (r: Option<u64>) {
    f.module_base_address().map(|b| b as usize as u64)
}

/// The time since `start`, in nanoseconds, saturating at `u64::MAX`.
pub(crate) fn nanos_since(start: &std::time::Instant) -> (r: u64) {
    let n: u128 = start.elapsed().as_nanos();
    if n > u64::MAX as u128 {
        u64::MAX
    } else {
        n as u64
    }
}

/// The calling thread's stack, innermost frame first.
pub(crate) fn capture_stack() -> (r: Vec<StackFrame>) {
    let trace = backtrace::Backtrace::new_unresolved();
    let frames = trace.frames();
    let mut out: Vec<StackFrame> = Vec::new();
    let mut i: usize = 0;
    while i < frames.len()
        invariant
            i <= frames@.len(),
        decreases frames@.len() - i,
    {
        let f = &frames[i];
        out.push(StackFrame { address: frame_address(f), module_base: frame_module_base(f) });
        i = i + 1;
    }
    out
}

} // verus!
