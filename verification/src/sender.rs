//! The reply side of the FUSE session: queue-depth accounting and the status
//! of a finished request. The writes to the kernel channel are done by the
//! caller.

use vstd::prelude::*;
use crate::fuse::ENOENT;
use crate::text::{decimal, push_decimal, push_str, str_equal, string_of};

verus! {

/// A gauge: a named value that goes up and down, wrapping around at the
/// ends of `i64` as an atomic counter does.
#[derive(Debug)]
pub struct Gauge {
    name: String,
    help: String,
    value: i64,
}

impl View for Gauge {
    type V = (Seq<char>, Seq<char>, i64);

    closed spec fn view(&self) -> (Seq<char>, Seq<char>, i64) {
        (self.name@, self.help@, self.value)
    }
}

impl Gauge {
    /// A gauge at 0.
    pub fn new(name: &str, help: &str) -> (r: Gauge)
        ensures
            r@ == (name@, help@, 0i64),
    {
        Gauge { name: string_of(name), help: string_of(help), value: 0 }
    }

    /// The gauge's current value.
    pub fn get(&self) -> (r: i64)
        ensures
            r == self@.2,
    {
        self.value
    }
}

/// A task's hold on a gauge: taken when the task enters the queue (the gauge
/// goes up by one) and released when the task leaves it. It remembers the
/// gauge it was taken on by name.
#[derive(Debug)]
pub struct ActiveGuard {
    gauge: String,
}

impl View for ActiveGuard {
    type V = Seq<char>;

    /// The name of the gauge the guard was taken on.
    closed spec fn view(&self) -> Seq<char> {
        self.gauge@
    }
}

/// The value of a gauge after one more task was counted on it.
pub open spec fn gauge_inc(g: (Seq<char>, Seq<char>, i64)) -> (Seq<char>, Seq<char>, i64) {
    (g.0, g.1, g.2.wrapping_add(1))
}

/// The value of a gauge after a guard named `guard` was released against it:
/// one less when the guard was taken on this gauge, unchanged otherwise.
pub open spec fn gauge_release(g: (Seq<char>, Seq<char>, i64), guard: Seq<char>)
    -> (Seq<char>, Seq<char>, i64)
{
    if guard == g.0 {
        (g.0, g.1, g.2.wrapping_sub(1))
    } else {
        g
    }
}

impl ActiveGuard {
    /// Counts one more task on `gauge`.
    pub fn new(gauge: &mut Gauge) -> (r: ActiveGuard)
        ensures
            final(gauge)@ == gauge_inc(old(gauge)@),
            r@ == old(gauge)@.0,
    {
        gauge.value = gauge.value.wrapping_add(1);
        ActiveGuard { gauge: gauge.name.clone() }
    }
}

/// Releases a dequeued task's queue guard, so that the queue-depth gauge
/// counts only the tasks still waiting in the channel and not the write to
/// the kernel that follows. `None` (metrics disabled) changes nothing, and a
/// guard taken on another gauge leaves this one alone.
pub fn mark_dequeued(gauge: &mut Gauge, queue_guard: Option<ActiveGuard>)
    ensures
        final(gauge)@ == (match queue_guard {
            Some(g) => gauge_release(old(gauge)@, g@),
            None => old(gauge)@,
        }),
{
    match queue_guard {
        Some(g) => {
            if str_equal(g.gauge.as_str(), gauge.name.as_str()) {
                gauge.value = gauge.value.wrapping_sub(1);
            }
        },
        None => {},
    }
}

/// The outcome of a request as the metrics see it.
#[derive(PartialEq, Eq, Structural, Clone, Copy, Debug)]
pub enum FuseReqStatus {
    Success,
    Error,
    Unsupported,
}

/// How the write of a reply to the kernel went.
#[derive(PartialEq, Eq, Structural, Clone, Copy, Debug)]
pub enum WriteOutcome {
    Success,
    Failed { errno: Option<i32> },
}

/// The status the kernel observed: the operation's own status when the reply
/// reached it, an error when the reply could not be written.
pub open spec fn observed_status(op_status: FuseReqStatus, write: WriteOutcome) -> FuseReqStatus {
    match write {
        WriteOutcome::Success => op_status,
        WriteOutcome::Failed { .. } => FuseReqStatus::Error,
    }
}

/// The status the kernel observed for a request (see `observed_status`).
pub fn request_status(op_status: FuseReqStatus, write: WriteOutcome) -> (r: FuseReqStatus)
    ensures
        r == observed_status(op_status, write),
{
    match write {
        WriteOutcome::Success => op_status,
        WriteOutcome::Failed { .. } => FuseReqStatus::Error,
    }
}

/// Whether a failed reply write is worth a warning: a vanished request
/// (`ENOENT`, the kernel already gave up on it) is not.
pub fn warns_on_send_failure(os_errno: Option<i32>) -> (r: bool)
    ensures
        r == (os_errno != Some(ENOENT)),
{
    match os_errno {
        Some(e) => e != ENOENT,
        None => true,
    }
}

/// The message of an incomplete transfer.
pub open spec fn short_io_message(got: usize, expected: usize) -> Seq<char> {
    "io return value error, res: "@ + decimal(got as nat) + ", expect: "@ + decimal(expected as nat)
}

/// Checks that a transfer to or from the kernel moved exactly the expected
/// number of bytes.
pub fn check_transfer(got: usize, expected: usize) -> (r: Result<(), String>)
    ensures
        r is Ok <==> got == expected,
        r matches Err(m) ==> m@ == short_io_message(got, expected),
{
    if got != expected {
        let mut m = string_of("io return value error, res: ");
        push_decimal(&mut m, got as u64);
        push_str(&mut m, ", expect: ");
        push_decimal(&mut m, expected as u64);
        return Err(m);
    }
    Ok(())
}

/// Taking a guard on a gauge and releasing it at dequeue leaves the gauge
/// where it was.
pub proof fn law_guard_roundtrip(before: (Seq<char>, Seq<char>, i64))
    ensures
        gauge_release(gauge_inc(before), before.0) == before,
{
    let v = before.2;
    assert(v.wrapping_add(1).wrapping_sub(1) == v) by (bit_vector);
}

/// A reply that reached the kernel reports the operation's own status; one
/// that did not is always an error.
pub proof fn law_status_follows_delivery(op: FuseReqStatus, errno: Option<i32>)
    ensures
        observed_status(op, WriteOutcome::Success) == op,
        observed_status(op, WriteOutcome::Failed { errno }) == FuseReqStatus::Error,
{
}

} // verus!
