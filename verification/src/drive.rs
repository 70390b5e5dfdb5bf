//! Controls that only have a start and a stop.

use vstd::prelude::*;

use crate::error::Error;

verus! {

/// Runs a continuous drive for `duration`, then stops it. `wait` lets the time
/// pass.
///
/// If `start` fails, `stop` is not called: the drive was never started.
pub fn timed_drive<S, W, T>(start: S, wait: W, stop: T, duration: u64) -> (done: Result<(), Error>)
    where
        S: FnOnce() -> Result<(), Error>,
        W: FnOnce(u64),
        T: FnOnce() -> Result<(), Error>,

    requires
        call_requires(start, ()),
        call_ensures(start, (), Ok::<(), Error>(())) ==> call_requires(wait, (duration,)),
        call_ensures(start, (), Ok::<(), Error>(())) && call_ensures(wait, (duration,), ())
            ==> call_requires(stop, ()),
    ensures
        ({
            ||| done is Err && call_ensures(start, (), done)
            ||| call_ensures(start, (), Ok::<(), Error>(())) && call_ensures(wait, (duration,), ())
                && call_ensures(stop, (), done)
        }),
{
    match start() {
        Ok(nothing) => {
            assert(nothing == ());
            assert(call_ensures(start, (), Ok::<(), Error>(())));
            let waited = wait(duration);
            assert(waited == ());
            stop()
        },
        Err(error) => Err(error),
    }
}

} // verus!
