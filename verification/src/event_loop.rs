//! The decisions of the client's loops: when the event loop stops, when it
//! looks for devices and how long it waits between two passes; and what the
//! wait for a response does after each read.
use vstd::prelude::*;

verus! {

/// Devices are enumerated again once more than this many nanoseconds (one
/// second) have passed since the last enumeration.
pub const ENUMERATION_INTERVAL_NANOS: u64 = 1_000_000_000;

/// The milliseconds the loop waits after each pass.
pub const POLL_INTERVAL_MILLIS: u64 = 100;

/// What one pass of the event loop does.
#[derive(Debug, Clone, Copy, PartialEq, Eq, Structural)]
pub enum LoopAction {
    /// The loop ends.
    Stop,
    /// The pass enumerates the devices when `enumerate` holds (and then
    /// restarts the enumeration clock), polls every device, and waits
    /// `sleep_millis` milliseconds.
    Run { enumerate: bool, sleep_millis: u64 },
}

/// What one pass does, from whether the client still runs and the
/// nanoseconds since the last enumeration.
pub open spec fn spec_loop_step(running: bool, nanos_since_enumeration: u64) -> LoopAction {
    if !running {
        LoopAction::Stop
    } else {
        LoopAction::Run {
            enumerate: nanos_since_enumeration > ENUMERATION_INTERVAL_NANOS,
            sleep_millis: POLL_INTERVAL_MILLIS,
        }
    }
}

/// One pass of the event loop, from whether the client still runs and the
/// nanoseconds since the last enumeration (counted from the loop's start
/// before the first one).
pub fn loop_step(running: bool, nanos_since_enumeration: u64) -> (a: LoopAction)
    ensures
        a == spec_loop_step(running, nanos_since_enumeration),
        !running ==> a == LoopAction::Stop,
        running ==> a == (LoopAction::Run {
            enumerate: nanos_since_enumeration > ENUMERATION_INTERVAL_NANOS,
            sleep_millis: POLL_INTERVAL_MILLIS,
        }),
{
    if !running {
        LoopAction::Stop
    } else {
        LoopAction::Run {
            enumerate: nanos_since_enumeration > ENUMERATION_INTERVAL_NANOS,
            sleep_millis: POLL_INTERVAL_MILLIS,
        }
    }
}

/// A response that has not come after more than this many nanoseconds (five
/// seconds) is given up.
pub const RESPONSE_TIMEOUT_NANOS: u64 = 5_000_000_000;

/// The milliseconds the wait for a response sleeps after a read that found
/// nothing.
pub const RESPONSE_RETRY_MILLIS: u64 = 1;

/// What the wait for a response does after one read.
#[derive(Debug, Clone, Copy, PartialEq, Eq, Structural)]
pub enum WaitAction {
    /// The wait ends with a timeout error.
    TimedOut,
    /// Nothing was read: sleep this many milliseconds and read again.
    Retry { sleep_millis: u64 },
    /// A report was read and handed to the device: take the response if it
    /// came, else read again at once.
    TakeResponse,
}

/// What the wait for a response does after a read of `read_length` bytes,
/// `nanos_since_sent` nanoseconds after the request was sent.
pub open spec fn spec_wait_step(read_length: usize, nanos_since_sent: u64) -> WaitAction {
    if read_length == 0 {
        if nanos_since_sent > RESPONSE_TIMEOUT_NANOS {
            WaitAction::TimedOut
        } else {
            WaitAction::Retry { sleep_millis: RESPONSE_RETRY_MILLIS }
        }
    } else {
        WaitAction::TakeResponse
    }
}

/// One step of the wait for a response.
pub fn wait_step(read_length: usize, nanos_since_sent: u64) -> (a: WaitAction)
    ensures
        a == spec_wait_step(read_length, nanos_since_sent),
        read_length == 0 && nanos_since_sent > RESPONSE_TIMEOUT_NANOS ==> a == WaitAction::TimedOut,
        read_length == 0 && nanos_since_sent <= RESPONSE_TIMEOUT_NANOS ==> a == (WaitAction::Retry {
            sleep_millis: RESPONSE_RETRY_MILLIS,
        }),
        read_length > 0 ==> a == WaitAction::TakeResponse,
{
    if read_length == 0 {
        if nanos_since_sent > RESPONSE_TIMEOUT_NANOS {
            WaitAction::TimedOut
        } else {
            WaitAction::Retry { sleep_millis: RESPONSE_RETRY_MILLIS }
        }
    } else {
        WaitAction::TakeResponse
    }
}

/// A run of the loop, pass by pass: `times[k]` is the clock, in nanoseconds
/// since the loop started, when pass `k` begins, and `running[k]` whether the
/// client still runs then. The clock of the last enumeration before pass
/// `k`: the loop's start when there was none.
pub open spec fn spec_last_enumeration(times: Seq<u64>, running: Seq<bool>, k: nat) -> int
    decreases k,
{
    if k == 0 {
        0
    } else {
        let p = (k - 1) as nat;
        let last = spec_last_enumeration(times, running, p);
        if running[p as int] && times[p as int] - last > ENUMERATION_INTERVAL_NANOS {
            times[p as int] as int
        } else {
            last
        }
    }
}

/// What pass `k` of the run does.
pub open spec fn spec_pass(times: Seq<u64>, running: Seq<bool>, k: nat) -> LoopAction {
    spec_loop_step(running[k as int], (times[k as int] - spec_last_enumeration(times, running, k)) as u64)
}

/// Whether pass `k` of the run enumerates the devices.
pub open spec fn spec_pass_enumerates(times: Seq<u64>, running: Seq<bool>, k: nat) -> bool {
    spec_pass(times, running, k) matches LoopAction::Run { enumerate: true, .. }
}

/// The clock never runs backwards.
pub open spec fn spec_clock_monotone(times: Seq<u64>) -> bool {
    forall|a: int, b: int| 0 <= a <= b < times.len() ==> #[trigger] times[a] <= #[trigger] times[b]
}

/// The last enumeration lies between the loop's start and the pass before
/// `k`, and never goes back.
proof fn lemma_last_enumeration_bounds(times: Seq<u64>, running: Seq<bool>, k: nat)
    requires
        spec_clock_monotone(times),
        running.len() == times.len(),
        k <= times.len(),
    ensures
        0 <= spec_last_enumeration(times, running, k),
        k > 0 ==> spec_last_enumeration(times, running, k) <= times[k - 1],
    decreases k,
{
    if k > 1 {
        lemma_last_enumeration_bounds(times, running, (k - 1) as nat);
        assert(times[k - 2] <= times[k - 1]);
    } else if k == 1 {
        assert(spec_last_enumeration(times, running, 0) == 0);
    }
}

/// After pass `i` enumerates, the last enumeration of every later pass is
/// at least the clock of pass `i`.
proof fn lemma_last_enumeration_after(times: Seq<u64>, running: Seq<bool>, i: nat, k: nat)
    requires
        spec_clock_monotone(times),
        running.len() == times.len(),
        i < k <= times.len(),
        running[i as int] && times[i as int] - spec_last_enumeration(times, running, i)
            > ENUMERATION_INTERVAL_NANOS,
    ensures
        spec_last_enumeration(times, running, k) >= times[i as int],
    decreases k,
{
    if k > i + 1 {
        lemma_last_enumeration_after(times, running, i, (k - 1) as nat);
        lemma_last_enumeration_bounds(times, running, (k - 1) as nat);
        assert(times[i as int] <= times[k - 2]);
    }
}

/// Over a run of the loop whose clock never runs backwards, a pass at which
/// the client no longer runs ends the loop, every running pass polls and
/// waits, and two passes that enumerate the devices are more than a second
/// apart: the loop enumerates at most once a second.
pub proof fn law_enumerations_a_second_apart(times: Seq<u64>, running: Seq<bool>, i: nat, j: nat)
    requires
        spec_clock_monotone(times),
        running.len() == times.len(),
        i < j < times.len(),
    ensures
        !running[j as int] ==> spec_pass(times, running, j) == LoopAction::Stop,
        running[j as int] ==> (spec_pass(times, running, j) matches LoopAction::Run {
            sleep_millis,
            ..
        } && sleep_millis == POLL_INTERVAL_MILLIS),
        spec_pass_enumerates(times, running, i) && spec_pass_enumerates(times, running, j)
            ==> times[j as int] - times[i as int] > ENUMERATION_INTERVAL_NANOS,
{
    lemma_last_enumeration_bounds(times, running, i);
    lemma_last_enumeration_bounds(times, running, j);
    if i > 0 {
        assert(times[i - 1] <= times[i as int]);
    }
    assert(times[j - 1] <= times[j as int]);
    if spec_pass_enumerates(times, running, i) && spec_pass_enumerates(times, running, j) {
        lemma_last_enumeration_after(times, running, i, j);
    }
}

} // verus!
