use rb::RbConsumer;
use rb::RbInspector;
use vstd::prelude::*;

verus! {

/// The thread-safe single-producer, single-consumer ring buffer that the
/// recorder fills.
#[verifier::external_type_specification]
#[verifier::external_body]
#[verifier::reject_recursive_types(T)]
pub struct ExSpscRb<T>(rb::SpscRb<T>);

/// The reading end of a ring buffer.
#[verifier::external_type_specification]
#[verifier::external_body]
#[verifier::reject_recursive_types(T)]
pub struct ExConsumer<T>(rb::Consumer<T>);

/// The error that a ring buffer operation reports.
#[verifier::external_type_specification]
#[verifier::external_body]
pub struct ExRbError(rb::RbError);

/// Calls `RbInspector::count` on the ring buffer: the number of samples that
/// are ready to be read. The producer runs on another thread, so nothing is
/// claimed of the value.
#[verifier::external_body]
fn ring_count<T: Clone + Copy + Default>(ring: &rb::SpscRb<T>) -> usize {
    ring.count()
}

/// Calls `RbConsumer::skip`: the source returns `Ok(min(n, pending))`, so a
/// successful skip never passes over more than `n` samples.
#[verifier::external_body]
fn ring_skip<T: Clone + Copy>(consumer: &rb::Consumer<T>, n: usize) -> (r: Result<usize, rb::RbError>)
    ensures
        r matches Ok(k) ==> k <= n,
{
    consumer.skip(n)
}

/// Calls `RbConsumer::get` on the whole of `data`: the source fills only the
/// first `k` slots when it returns `Ok(k)` with `k <= data.len()`, and leaves
/// `data` untouched when it fails; an empty `data` is answered with `Ok(0)`
/// before the buffer is looked at. Which samples it copies depends on the
/// producer thread and is not stated.
#[verifier::external_body]
fn ring_get<T: Clone + Copy>(consumer: &rb::Consumer<T>, data: &mut Vec<T>) -> (r: Result<usize, rb::RbError>)
    ensures
        final(data)@.len() == old(data)@.len(),
        r is Err ==> final(data)@ == old(data)@,
        r matches Ok(k) ==> k <= old(data)@.len(),
        old(data)@.len() == 0 ==> (r matches Ok(k) && k == 0),
        r matches Ok(k) ==> forall|i: int| k <= i < old(data)@.len() ==> final(data)@[i] == old(data)@[i],
{
    consumer.get(data.as_mut_slice())
}

/// What to do with the ring buffer before a spectrum frame is computed.
#[derive(PartialEq, Eq, Structural, Debug, Clone, Copy)]
pub enum WindowPlan {
    /// Fewer samples than a window are pending: no frame this time.
    Wait,
    /// Exactly one window is pending: read it.
    Read,
    /// More than a window is pending: drop the oldest samples, then read.
    SkipThenRead(usize),
}

/// The plan for `available` pending samples and a window of `window_size`.
pub open spec fn window_plan(available: usize, window_size: usize) -> WindowPlan {
    if available < window_size {
        WindowPlan::Wait
    } else if available == window_size {
        WindowPlan::Read
    } else {
        WindowPlan::SkipThenRead((available - window_size) as usize)
    }
}

/// Decides how to move the ring buffer so that the newest `window_size`
/// samples are the ones read.
pub fn plan_window(available: usize, window_size: usize) -> (r: WindowPlan)
    ensures
        r == window_plan(available, window_size),
{
    if available < window_size {
        WindowPlan::Wait
    } else if available > window_size {
        WindowPlan::SkipThenRead(available - window_size)
    } else {
        WindowPlan::Read
    }
}

/// Whenever a window is read, exactly the newest `window_size` samples are
/// left pending after the skip.
pub proof fn lemma_plan_keeps_newest_window(available: usize, window_size: usize)
    requires
        available >= window_size,
    ensures
        window_plan(available, window_size) != WindowPlan::Wait,
        window_plan(available, window_size) matches WindowPlan::SkipThenRead(k) ==> available - k == window_size,
        window_plan(available, window_size) == WindowPlan::Read ==> available == window_size,
{
}

/// How a pull from the ring buffer went.
#[derive(PartialEq, Eq, Structural, Debug, Clone, Copy)]
pub enum Pull {
    /// Not enough samples were pending; the window was left as it was.
    Waiting { available: usize },
    /// `requested` old samples were asked to be dropped (all but the newest
    /// window), `skipped` of them were, and the window was filled with
    /// `filled` samples.
    Pulled { available: usize, requested: usize, skipped: usize, filled: usize },
}

/// A ring buffer operation failed.
#[derive(PartialEq, Eq, Structural, Debug, Clone, Copy)]
pub enum PullError {
    /// Dropping `requested` old samples failed; `available` samples had been
    /// pending.
    Skip { available: usize, requested: usize },
    /// Reading the window failed after `available` samples had been pending,
    /// `requested` old ones had been asked to be dropped and `skipped` were.
    Read { available: usize, requested: usize, skipped: usize },
}

/// Fills `window` with the newest `window.len()` samples of the ring buffer,
/// dropping older ones, or leaves it alone when fewer are pending.
pub fn pull_window<T: Clone + Copy + Default>(
    ring: &rb::SpscRb<T>,
    consumer: &rb::Consumer<T>,
    window: &mut Vec<T>,
) -> (r: Result<Pull, PullError>)
    ensures
        final(window)@.len() == old(window)@.len(),
        r matches Ok(Pull::Waiting { available }) ==> available < old(window)@.len() && final(window)@ == old(window)@,
        r matches Ok(Pull::Pulled { available, requested, skipped, filled }) ==> {
            &&& available >= old(window)@.len()
            &&& requested == available - old(window)@.len()
            &&& skipped <= requested
            &&& filled <= old(window)@.len()
            &&& forall|i: int| filled <= i < old(window)@.len() ==> final(window)@[i] == old(window)@[i]
        },
        r is Err ==> final(window)@ == old(window)@,
        r matches Err(PullError::Skip { available, requested }) ==> {
            &&& available > old(window)@.len()
            &&& requested == available - old(window)@.len()
        },
        r matches Err(PullError::Read { available, requested, skipped }) ==> {
            &&& old(window)@.len() > 0
            &&& available >= old(window)@.len()
            &&& requested == available - old(window)@.len()
            &&& skipped <= requested
        },
{
    let window_size = window.len();
    let available = ring_count(ring);
    let (requested, skipped) = match plan_window(available, window_size) {
        WindowPlan::Wait => {
            return Ok(Pull::Waiting { available });
        },
        WindowPlan::Read => (0, 0),
        WindowPlan::SkipThenRead(k) => {
            match ring_skip(consumer, k) {
                Ok(n) => (k, n),
                Err(_) => {
                    return Err(PullError::Skip { available, requested: k });
                },
            }
        },
    };
    match ring_get(consumer, window) {
        Ok(filled) => Ok(Pull::Pulled { available, requested, skipped, filled }),
        Err(_) => Err(PullError::Read { available, requested, skipped }),
    }
}

} // verus!
