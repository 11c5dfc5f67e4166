use vstd::prelude::*;

use crate::spin::{acquired, released, written, LockView};

verus! {

/// One operation on a mutex, as seen from the protocol: an acquisition
/// attempt, a store into the protected value by the holder, or the release of
/// the live guard.
pub enum LockEvent<T> {
    TryLock,
    Write(T),
    Release,
}

/// The state of a run: the mutex's view and the number of live guards.
pub struct RunState<T> {
    pub lock: LockView<T>,
    pub live: nat,
}

/// One operation applied to a state made of the mutex's view and the number
/// of live guards. Storing and releasing need a live guard of a held mutex, as
/// `MutexGuard::with_mut` and `MutexGuard::release` require; without one the
/// step is not possible (`None`). An attempt always leaves the mutex held, and
/// yields a new guard exactly when the mutex was free, as `Mutex::try_lock` does.
pub open spec fn step<T>(s: RunState<T>, e: LockEvent<T>) -> Option<RunState<T>> {
    match e {
        LockEvent::TryLock => {
            if s.lock.locked {
                Some(RunState { lock: acquired(s.lock), live: s.live })
            } else {
                Some(RunState { lock: acquired(s.lock), live: s.live + 1 })
            }
        },
        LockEvent::Write(v) => {
            if s.lock.locked && s.live > 0 {
                Some(RunState { lock: written(s.lock, v), live: s.live })
            } else {
                None
            }
        },
        LockEvent::Release => {
            if s.lock.locked && s.live > 0 {
                Some(RunState { lock: released(s.lock), live: (s.live - 1) as nat })
            } else {
                None
            }
        },
    }
}

/// The state reached by applying `events` in order to a fresh mutex holding
/// `init`, or `None` if some operation on the way was not possible.
pub open spec fn run<T>(init: T, events: Seq<LockEvent<T>>) -> Option<RunState<T>>
    decreases events.len(),
{
    if events.len() == 0 {
        Some(RunState { lock: LockView { locked: false, value: init }, live: 0 })
    } else {
        match run(init, events.drop_last()) {
            Some(s) => step(s, events.last()),
            None => None,
        }
    }
}

/// The value of the last store in `events`, or `init` if there is none.
pub open spec fn last_written<T>(init: T, events: Seq<LockEvent<T>>) -> T
    decreases events.len(),
{
    if events.len() == 0 {
        init
    } else {
        match events.last() {
            LockEvent::Write(v) => v,
            _ => last_written(init, events.drop_last()),
        }
    }
}

/// Mutual exclusion: along every possible sequence of operations, at most one
/// guard is live, and one is live exactly when the flag is set.
pub proof fn lemma_mutual_exclusion<T>(init: T, events: Seq<LockEvent<T>>)
    requires
        run(init, events) is Some,
    ensures
        run(init, events)->0.live <= 1,
        run(init, events)->0.live == 1 <==> run(init, events)->0.lock.locked,
    decreases events.len(),
{
    if events.len() > 0 {
        lemma_mutual_exclusion(init, events.drop_last());
    }
}

/// Visibility: along every possible sequence of operations, the protected
/// value is the one the last holder stored, so the next holder sees it.
pub proof fn lemma_last_write_visible<T>(init: T, events: Seq<LockEvent<T>>)
    requires
        run(init, events) is Some,
    ensures
        run(init, events)->0.lock.value == last_written(init, events),
    decreases events.len(),
{
    if events.len() > 0 {
        lemma_last_write_visible(init, events.drop_last());
    }
}

/// Release frees the mutex: releasing the live guard clears the flag and ends
/// that guard, and on a mutex with no live guard the next attempt succeeds.
pub proof fn lemma_release_frees<T>(init: T, events: Seq<LockEvent<T>>)
    requires
        run(init, events) is Some,
    ensures
        run(init, events)->0.live > 0 ==> {
            let after = run(init, events.push(LockEvent::Release));
            &&& after is Some
            &&& !after->0.lock.locked
            &&& after->0.live == 0
        },
        run(init, events)->0.live == 0 ==> {
            let after = run(init, events.push(LockEvent::TryLock));
            &&& !run(init, events)->0.lock.locked
            &&& after is Some
            &&& after->0.live == 1
        },
{
    lemma_mutual_exclusion(init, events);
    assert(events.push(LockEvent::<T>::Release).drop_last() == events);
    assert(events.push(LockEvent::<T>::TryLock).drop_last() == events);
}

/// No double release: once an acquisition has been released, releasing again
/// without a new acquisition is not possible.
pub proof fn lemma_no_double_release<T>(init: T, events: Seq<LockEvent<T>>)
    requires
        run(init, events.push(LockEvent::Release)) is Some,
    ensures
        run(init, events.push(LockEvent::Release).push(LockEvent::Release)) is None,
{
    let once = events.push(LockEvent::Release);
    assert(once.drop_last() == events);
    assert(once.push(LockEvent::<T>::Release).drop_last() == once);
}

} // verus!
