//! The increment handler and what holds of it.

use vstd::prelude::*;
use crate::error::Error;
use crate::state::Counter;

verus! {

/// Advances `counter` by one with checked addition.
///
/// Succeeds exactly when the count is below `u64::MAX`, and then leaves it
/// one higher. At `u64::MAX` it reports [`Error::Overflow`] and leaves the
/// record untouched, so the record changes exactly when the call succeeds.
/// Nothing else is read or written.
pub fn increment(counter: &mut Counter) -> (res: Result<(), Error>)
    ensures
        res is Ok <==> old(counter).has_room(),
        *final(counter) == old(counter).after_increment(),
        old(counter)@ < u64::MAX ==> res is Ok && final(counter)@ == old(counter)@ + 1,
        old(counter)@ == u64::MAX ==> res == Err::<(), Error>(Error::Overflow) && *final(counter)
            == *old(counter),
        res is Ok <==> *final(counter) != *old(counter),
{
    match counter.count.checked_add(1) {
        Some(next) => {
            counter.count = next;
            Ok(())
        },
        None => Err(Error::Overflow),
    }
}

/// Two increments in sequence that both have room add two: the second call
/// starts from what the first one left, so no call is absorbed by another.
pub proof fn lemma_two_increments(c: Counter)
    requires
        c@ + 2 <= u64::MAX,
    ensures
        c.has_room(),
        c.after_increment().has_room(),
        c.after_increment() != c,
        c.after_increment().after_increment()@ == c@ + 2,
{
}

/// Any number of increments in sequence leave the sum of the starting count
/// and the number of calls, capped at `u64::MAX`: the count never wraps and
/// never goes down.
pub proof fn lemma_increments_saturate(c: Counter, n: nat)
    ensures
        c.after_increments(n)@ == if c@ + n <= u64::MAX {
            c@ + n
        } else {
            u64::MAX as nat
        },
        c.after_increments(n)@ >= c@,
    decreases n,
{
    if n > 0 {
        lemma_increments_saturate(c.after_increment(), (n - 1) as nat);
    }
}

} // verus!
