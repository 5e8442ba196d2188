//! A busy-waiting exclusive lock over a boolean flag.
//!
//! The concurrent protocol this models is the classic test-and-set spin
//! lock: acquisition is a single compare-and-swap of the flag from `false`
//! to `true`, a contended acquire retries that step until it wins, and
//! release stores `false`. With exclusive access to the lock value, each of
//! those atomic steps is a plain state transition, so the whole protocol is
//! stated here as a transition system over [`SpinView`] and proved against
//! the executable code.

use vstd::prelude::*;

verus! {

/// The abstract state of a spin lock: the flag and the protected payload.
pub ghost struct SpinView<T> {
    /// `true` while some holder is inside its critical section.
    pub locked: bool,
    /// The protected payload.
    pub value: T,
}

/// What one acquisition attempt (a compare-and-swap of the flag from
/// `false` to `true`) does to the state, paired with whether it won:
/// the attempt wins exactly when the lock was free, and the flag is set
/// afterwards either way.
pub open spec fn try_acquire_step<T>(s: SpinView<T>) -> (SpinView<T>, bool) {
    (SpinView { locked: true, ..s }, !s.locked)
}

/// What a release (a store of `false` to the flag) does to the state.
pub open spec fn release_step<T>(s: SpinView<T>) -> SpinView<T> {
    SpinView { locked: false, ..s }
}

/// What a payload write by the current holder does to the state.
pub open spec fn write_step<T>(s: SpinView<T>, v: T) -> SpinView<T> {
    SpinView { value: v, ..s }
}

/// An exclusive lock that makes a contending acquirer poll the flag in a
/// busy loop rather than block in the kernel.
pub struct SpinLock<T> {
    locked: bool,
    data: T,
}

impl<T> View for SpinLock<T> {
    type V = SpinView<T>;

    closed spec fn view(&self) -> SpinView<T> {
        SpinView { locked: self.locked, value: self.data }
    }
}

impl<T> SpinLock<T> {
    /// Creates the lock in the unlocked state, owning `data`.
    pub fn new(data: T) -> (s: Self)
        ensures
            s@ == (SpinView { locked: false, value: data }),
    {
        SpinLock { locked: false, data }
    }

    /// One non-blocking acquisition attempt; models a compare-and-swap of
    /// the flag from `false` to `true`. Returns `true` exactly when it
    /// transitioned the lock from unlocked to locked; a losing attempt
    /// leaves the state untouched.
    pub fn try_acquire(&mut self) -> (won: bool)
        ensures
            won == !old(self)@.locked,
            final(self)@ == try_acquire_step(old(self)@).0,
            won == try_acquire_step(old(self)@).1,
    {
        if self.locked {
            false
        } else {
            self.locked = true;
            true
        }
    }

    /// Releases the lock; models a store of `false` to the flag. The
    /// payload stays behind in the lock.
    pub fn release(&mut self)
        ensures
            final(self)@ == release_step(old(self)@),
    {
        self.locked = false;
    }

    /// Acquires the lock, retrying the compare-and-swap until it wins, and
    /// hands back the guard that is the sole path to the payload.
    ///
    /// Moving the lock in makes the acquisition exclusive by ownership: a
    /// second acquire is impossible until the guard gives the lock back. A
    /// contended acquire — the retry arm below, where the concurrent
    /// protocol issues a CPU spin hint and polls again — therefore cannot
    /// arise here, and the contract asks for the unlocked state instead of
    /// spinning forever on a lock nothing else can release.
    pub fn acquire(self) -> (g: SpinLockGuard<T>)
        requires
            !self@.locked,
        ensures
            g@ == try_acquire_step(self@).0,
            g@.locked,
            g@.value == self@.value,
    {
        let ghost v0 = self@;
        let mut s = self;
        loop
            invariant_except_break
                s@ == v0,
            invariant
                !v0.locked,
            ensures
                s@ == try_acquire_step(v0).0,
            decreases 0nat,
        {
            if s.try_acquire() {
                break;
            }
            // a losing attempt would mean another holder exists; exclusive
            // ownership of `s` rules that out, so the retry arm never runs
        }
        SpinLockGuard { lock: s }
    }
}

/// The exclusive access right to a [`SpinLock`]'s payload, bounded by a
/// scope: it is created only by a winning acquisition, it is the only path
/// to the payload, and giving it up is the only way the lock becomes
/// unlocked again. The guard owns the lock while it lives, so at most one
/// guard per lock can exist at a time.
pub struct SpinLockGuard<T> {
    lock: SpinLock<T>,
}

impl<T> View for SpinLockGuard<T> {
    type V = SpinView<T>;

    closed spec fn view(&self) -> SpinView<T> {
        self.lock@
    }
}

impl<T> SpinLockGuard<T> {
    /// Reads the protected payload.
    pub fn get(&self) -> (r: &T)
        ensures
            *r == self@.value,
    {
        &self.lock.data
    }

    /// Overwrites the protected payload.
    pub fn set(&mut self, v: T)
        ensures
            final(self)@ == write_step(old(self)@, v),
    {
        self.lock.data = v;
    }

    /// Overwrites the protected payload and returns the previous one.
    pub fn replace(&mut self, v: T) -> (prev: T)
        ensures
            prev == old(self)@.value,
            final(self)@ == write_step(old(self)@, v),
    {
        let mut v = v;
        core::mem::swap(&mut self.lock.data, &mut v);
        v
    }

    /// Ends the critical section: releases the lock and gives it back,
    /// with the payload still inside. Models the store of `false` that the
    /// concurrent protocol performs when a guard goes out of scope.
    pub fn release(self) -> (l: SpinLock<T>)
        ensures
            l@ == release_step(self@),
    {
        let mut l = self.lock;
        l.release();
        l
    }
}

/// Mutual exclusion: an acquisition attempt wins exactly when the lock is
/// free and leaves the lock held either way, so a second attempt made
/// while a holder is inside always loses — two critical sections on one
/// lock can never overlap.
pub proof fn lemma_mutual_exclusion<T>(s: SpinView<T>)
    ensures
        try_acquire_step(s).1 == !s.locked,
        try_acquire_step(s).0.locked,
        !try_acquire_step(try_acquire_step(s).0).1,
{
}

/// Progress on handover: the moment the holder releases, an acquisition
/// attempt wins, so a contender that keeps retrying acquires the lock once
/// the holder before it is done.
pub proof fn lemma_release_enables_acquire<T>(s: SpinView<T>)
    ensures
        try_acquire_step(release_step(s)).1,
{
}

/// Visibility across a handover: what the holder last wrote is exactly
/// what the next holder finds after winning the lock.
pub proof fn lemma_handover_visibility<T>(s: SpinView<T>, v: T)
    ensures
        try_acquire_step(release_step(write_step(s, v))).1,
        try_acquire_step(release_step(write_step(s, v))).0.value == v,
{
}

/// One step some thread takes against the lock: an acquisition attempt, a
/// release, or a payload write by the holder.
pub ghost enum SpinEvent<T> {
    /// A compare-and-swap of the flag from `false` to `true`.
    Attempt,
    /// A store of `false` to the flag.
    Release,
    /// A payload write.
    Write(T),
}

/// The state after one event.
pub open spec fn apply_event<T>(s: SpinView<T>, e: SpinEvent<T>) -> SpinView<T> {
    match e {
        SpinEvent::Attempt => try_acquire_step(s).0,
        SpinEvent::Release => release_step(s),
        SpinEvent::Write(v) => write_step(s, v),
    }
}

/// The state after a whole sequence of events, applied left to right.
pub open spec fn apply_events<T>(s: SpinView<T>, es: Seq<SpinEvent<T>>) -> SpinView<T>
    decreases es.len(),
{
    if es.len() == 0 {
        s
    } else {
        apply_events(apply_event(s, es[0]), es.subrange(1, es.len() as int))
    }
}

/// Whether any acquisition attempt in `es` wins, starting from `s`.
pub open spec fn some_attempt_wins<T>(s: SpinView<T>, es: Seq<SpinEvent<T>>) -> bool
    decreases es.len(),
{
    if es.len() == 0 {
        false
    } else {
        (es[0] is Attempt && try_acquire_step(s).1) || some_attempt_wins(
            apply_event(s, es[0]),
            es.subrange(1, es.len() as int),
        )
    }
}

/// Whether `es` holds a release.
pub open spec fn has_release<T>(es: Seq<SpinEvent<T>>) -> bool {
    exists|i: int| 0 <= i < es.len() && es[i] is Release
}

/// Mutual exclusion under every interleaving: once a holder is inside its
/// critical section, no acquisition attempt by anyone wins until some
/// release happens — whatever attempts and writes come in between, and
/// however many. Two critical sections on one lock therefore never
/// overlap.
pub proof fn lemma_critical_sections_never_overlap<T>(s: SpinView<T>, es: Seq<SpinEvent<T>>)
    requires
        s.locked,
        !has_release(es),
    ensures
        !some_attempt_wins(s, es),
        apply_events(s, es).locked,
    decreases es.len(),
{
    if es.len() > 0 {
        let tail = es.subrange(1, es.len() as int);
        assert(!(es[0] is Release)) by {
            if es[0] is Release {
                assert(has_release(es));
            }
        }
        assert(!has_release(tail)) by {
            if has_release(tail) {
                let j = choose|j: int| 0 <= j < tail.len() && tail[j] is Release;
                assert(es[j + 1] is Release);
                assert(has_release(es));
            }
        }
        lemma_critical_sections_never_overlap(apply_event(s, es[0]), tail);
    }
}

/// Guard scope discipline: while the lock is held, neither a payload write
/// nor a rival acquisition attempt gives it up; the release is what makes
/// it unlocked — immediately, and with the payload left intact.
pub proof fn lemma_guard_scope<T>(s: SpinView<T>, v: T)
    requires
        s.locked,
    ensures
        write_step(s, v).locked,
        try_acquire_step(s).0.locked,
        !release_step(s).locked,
        release_step(s).value == s.value,
{
}

} // verus!
