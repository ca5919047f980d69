//! The iteration protocol of the standard main loop, as seen by its caller.
//!
//! The native loop reports the outcome of each phase (prepare, poll, dispatch), of a whole
//! iteration and of a run as a signed status code. The functions here turn those codes, and the
//! caller's arguments, into the values the loop's interface hands out and takes in.

use std::rc::Rc;
use vstd::prelude::*;

verus! {

/// The status code the native loop returns once a quit request has been observed.
pub const QUIT_REQUESTED: i32 = -2;

/// The timeout value the native loop reads as "block until something happens".
pub const BLOCK_INDEFINITELY: i32 = -1;

/// Outcome of one iteration of the main loop.
pub enum InterateResult {
    /// Success, with the number of sources dispatched
    Success(u32),
    /// Quit was called, with quit's retval
    Quit(i32),
    /// An error occurred, with the (negative) error value
    Error(i32),
}

/// The outcome of an iteration whose native status code is `code`, where `retval` is the value
/// last passed to quit.
pub open spec fn iterate_outcome(code: i32, retval: i32) -> InterateResult {
    if code >= 0 {
        InterateResult::Success(code as u32)
    } else if code == QUIT_REQUESTED {
        InterateResult::Quit(retval)
    } else {
        InterateResult::Error(code)
    }
}

/// The timeout handed to the prepare phase: a non-negative number of milliseconds, or
/// `BLOCK_INDEFINITELY` for an absent or negative one.
pub open spec fn timeout_code(timeout: Option<i32>) -> i32 {
    match timeout {
        Some(t) => if t >= 0 { t } else { BLOCK_INDEFINITELY },
        None => BLOCK_INDEFINITELY,
    }
}

impl InterateResult {
    /// Returns `true` if the result is a `Success` value.
    pub fn is_success(&self) -> (r: bool)
        ensures
            r == (*self is Success),
    {
        match *self {
            InterateResult::Success(_) => true,
            _ => false,
        }
    }

    /// Returns `true` if the result is a `Quit` value.
    pub fn is_quit(&self) -> (r: bool)
        ensures
            r == (*self is Quit),
    {
        match *self {
            InterateResult::Quit(_) => true,
            _ => false,
        }
    }

    /// Returns `true` if the result is an `Error` value.
    pub fn is_error(&self) -> (r: bool)
        ensures
            r == (*self is Error),
    {
        match *self {
            InterateResult::Error(_) => true,
            _ => false,
        }
    }
}

/// The timeout argument of the prepare phase: `None` and negative values both mean blocking
/// until an event or a wakeup arrives.
pub fn prepare_timeout(timeout: Option<i32>) -> (t: i32)
    ensures
        t == timeout_code(timeout),
        t >= BLOCK_INDEFINITELY,
        t >= 0 <==> (timeout matches Some(v) && v >= 0),
{
    match timeout {
        Some(t) => if t >= 0 {
            t
        } else {
            BLOCK_INDEFINITELY
        },
        None => BLOCK_INDEFINITELY,
    }
}

/// The result of the prepare phase: success on a non-negative status, the negative status
/// itself otherwise (a quit request, or a failure of the native loop).
pub fn prepare_result(code: i32) -> (r: Result<(), i32>)
    ensures
        code >= 0 <==> r is Ok,
        r matches Err(e) ==> e == code && e < 0,
{
    if code >= 0 {
        Ok(())
    } else {
        Err(code)
    }
}

/// The result of the poll or the dispatch phase: the count of ready descriptors or of
/// dispatched sources on a non-negative status, the negative status otherwise.
pub fn count_result(code: i32) -> (r: Result<u32, i32>)
    ensures
        code >= 0 <==> r is Ok,
        r matches Ok(n) ==> n as int == code as int,
        r matches Err(e) ==> e == code && e < 0,
{
    if code >= 0 {
        Ok(code as u32)
    } else {
        Err(code)
    }
}

/// The flag the native loop takes for an iteration: `1` to block for events when none are
/// queued, `0` to poll without waiting.
pub fn block_flag(block: bool) -> (f: i32)
    ensures
        f == (if block { 1i32 } else { 0i32 }),
{
    if block {
        1
    } else {
        0
    }
}

/// The outcome of one iteration: the dispatch count on a non-negative status, `Quit` with the
/// value passed to quit when the loop observed a quit request, and `Error` on any other
/// status.
pub fn iterate_result(code: i32, retval: i32) -> (r: InterateResult)
    ensures
        r == iterate_outcome(code, retval),
{
    if code >= 0 {
        InterateResult::Success(code as u32)
    } else if code == QUIT_REQUESTED {
        InterateResult::Quit(retval)
    } else {
        InterateResult::Error(code)
    }
}

/// The outcome of a run whose native status code is `code`, where `retval` is the value passed
/// to quit: that value once a quit request has ended the run, nothing if an error ended it.
pub open spec fn run_outcome(code: i32, retval: i32) -> Option<i32> {
    if code >= 0 {
        Some(retval)
    } else {
        None
    }
}

/// The outcome of a run: the native loop returns a non-negative status once it has observed a
/// quit request, and then `retval` holds the value passed to quit; a negative status means it
/// stopped on an error first.
pub fn run_result(code: i32, retval: i32) -> (r: Option<i32>)
    ensures
        r == run_outcome(code, retval),
        code >= 0 <==> r is Some,
        r matches Some(v) ==> v == retval,
{
    if code >= 0 {
        Some(retval)
    } else {
        None
    }
}

/// The native loop that a [`Mainloop`] drives. Each method forwards to the native loop and
/// hands back its status code unchanged; dropping the value frees the native loop.
pub trait NativeMainloop {
    /// Prepares one iteration, with a timeout in milliseconds (`BLOCK_INDEFINITELY` to block).
    fn prepare(&self, timeout: i32) -> i32;

    /// Runs the prepared poll.
    fn poll(&self) -> i32;

    /// Dispatches the sources that fired during the poll.
    fn dispatch(&self) -> i32;

    /// The value last passed to `quit`.
    fn get_retval(&self) -> i32;

    /// Runs one whole iteration; returns the status code and, after a quit request, the value
    /// passed to quit.
    fn iterate(&self, block: i32) -> (i32, i32);

    /// Iterates until quit is requested or an error occurs; returns the status code and, after
    /// a quit request, the value passed to quit.
    fn run(&self) -> (i32, i32);

    /// Asks the loop to quit with the given value.
    fn quit(&self, retval: i32);

    /// Interrupts a running poll.
    fn wakeup(&self);
}

/// A main loop, held through a shared handle to its native state.
///
/// Every event object created against the loop holds a clone of the handle (see
/// [`Mainloop::inner`]), so the native state is freed exactly once, when the last of the
/// handles is dropped, and never while an event object can still reach it.
pub struct Mainloop<N: NativeMainloop> {
    /// The ref-counted native state
    pub _inner: Rc<N>,
}

impl<N: NativeMainloop> Mainloop<N> {
    /// Wraps freshly allocated native state.
    pub fn new(native: N) -> (r: Self)
        ensures
            *r._inner == native,
    {
        Mainloop { _inner: Rc::new(native) }
    }

    /// A new shared handle to the native state, for an event object to hold.
    pub fn inner(&self) -> (r: Rc<N>)
        ensures
            *r == *self._inner,
    {
        Rc::clone(&self._inner)
    }

    /// Prepares for a single iteration of the main loop. `timeout` bounds the following poll
    /// in milliseconds; `None` or a negative value blocks until an event or a wakeup.
    ///
    /// Returns `Err` on error or on a quit request.
    pub fn prepare(&self, timeout: Option<i32>) -> (r: Result<(), i32>)
        ensures
            r matches Err(e) ==> e < 0,
    {
        let t = prepare_timeout(timeout);
        prepare_result(self._inner.prepare(t))
    }

    /// Runs the previously prepared poll; on success returns the number of ready descriptors.
    pub fn poll(&self) -> (r: Result<u32, i32>)
        ensures
            r matches Err(e) ==> e < 0,
            r matches Ok(n) ==> n <= i32::MAX,
    {
        count_result(self._inner.poll())
    }

    /// Dispatches timer, I/O and deferred events from the previous poll; on success returns
    /// the number of sources dispatched.
    pub fn dispatch(&self) -> (r: Result<u32, i32>)
        ensures
            r matches Err(e) ==> e < 0,
            r matches Ok(n) ==> n <= i32::MAX,
    {
        count_result(self._inner.dispatch())
    }

    /// The value passed to the loop's [`quit`](Mainloop::quit).
    pub fn get_retval(&self) -> i32 {
        self._inner.get_retval()
    }

    /// Runs a single iteration of the main loop: prepare, poll and dispatch. With `block`, waits
    /// for events when none are queued.
    pub fn iterate(&self, block: bool) -> (r: InterateResult)
        ensures
            exists|code: i32, retval: i32| r == iterate_outcome(code, retval),
            r matches InterateResult::Success(n) ==> n <= i32::MAX,
            r matches InterateResult::Error(e) ==> e < 0 && e != QUIT_REQUESTED,
    {
        let (code, retval) = self._inner.iterate(block_flag(block));
        let r = iterate_result(code, retval);
        assert(r == iterate_outcome(code, retval));
        r
    }

    /// Iterates until the loop's [`quit`](Mainloop::quit) is called; returns `Some` with the
    /// value passed to quit, or `None` if an error stopped the loop first.
    pub fn run(&self) -> (r: Option<i32>)
        ensures
            exists|code: i32, retval: i32| r == run_outcome(code, retval),
    {
        let (code, retval) = self._inner.run();
        let r = run_result(code, retval);
        assert(r == run_outcome(code, retval));
        r
    }

    /// Asks the loop to quit with the given value.
    pub fn quit(&self, retval: i32) {
        self._inner.quit(retval)
    }

    /// Interrupts a running poll (for threaded systems).
    pub fn wakeup(&self) {
        self._inner.wakeup()
    }
}

/// Once the loop has observed a quit request, an iteration reports exactly the value passed to
/// quit, whatever that value is, and reports no dispatched sources.
pub proof fn quit_outcome_carries_retval(retval: i32)
    ensures
        iterate_outcome(QUIT_REQUESTED, retval) == InterateResult::Quit(retval),
        !(iterate_outcome(QUIT_REQUESTED, retval) is Success),
        !(iterate_outcome(QUIT_REQUESTED, retval) is Error),
{
}

} // verus!
