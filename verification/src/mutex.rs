//! A blocking exclusive lock over a 32-bit word, with futex-style waking.
//!
//! The concurrent protocol this models: acquisition atomically exchanges
//! the word to [`LOCKED`] and wins when the previous value was
//! [`UNLOCKED`]; a loser asks the operating system to park it until the
//! word changes and then retries the exchange; release stores [`UNLOCKED`]
//! and wakes exactly one parked waiter (waking more would only produce
//! threads that lose the retry and park again). With exclusive access to
//! the lock value each atomic step is a plain state transition, so the
//! protocol is stated as a transition system over [`MutexView`] and proved
//! against the executable code. The park itself is a scheduling effect
//! with no state of its own; what the model keeps of the wake side is a
//! count of wake signals issued.

use vstd::prelude::*;

verus! {

/// The word value of an unlocked mutex.
pub const UNLOCKED: u32 = 0;

/// The word value of a locked mutex.
pub const LOCKED: u32 = 1;

/// The abstract state of a mutex: the lock word, the protected payload,
/// and how many wake signals have been issued to the operating system.
pub ghost struct MutexView<T> {
    /// The lock word; always [`UNLOCKED`] or [`LOCKED`].
    pub word: u32,
    /// The protected payload.
    pub value: T,
    /// The number of wake signals issued so far.
    pub wakes: nat,
}

impl<T> MutexView<T> {
    /// The word never holds anything but the two flag values.
    pub open spec fn wf(self) -> bool {
        self.word == UNLOCKED || self.word == LOCKED
    }

    /// Whether the state is the locked one.
    pub open spec fn is_locked(self) -> bool {
        self.word == LOCKED
    }
}

/// What one acquisition attempt (an atomic exchange of the word to
/// [`LOCKED`]) does to the state, paired with the previous word value:
/// the attempt wins exactly when the previous value was [`UNLOCKED`].
pub open spec fn exchange_step<T>(s: MutexView<T>) -> (MutexView<T>, u32) {
    (MutexView { word: LOCKED, ..s }, s.word)
}

/// What a release (a store of [`UNLOCKED`] followed by one wake signal)
/// does to the state.
pub open spec fn release_step<T>(s: MutexView<T>) -> MutexView<T> {
    MutexView { word: UNLOCKED, wakes: s.wakes + 1, ..s }
}

/// What a bare wake signal does to the state: nothing but the count; the
/// word and the payload stay as they are.
pub open spec fn wake_step<T>(s: MutexView<T>) -> MutexView<T> {
    MutexView { wakes: s.wakes + 1, ..s }
}

/// What a payload write by the current holder does to the state.
pub open spec fn write_step<T>(s: MutexView<T>, v: T) -> MutexView<T> {
    MutexView { value: v, ..s }
}

/// An exclusive lock that makes a contending acquirer block in the kernel
/// until a release wakes it, instead of spinning.
pub struct Mutex<T> {
    locked: u32,
    value: T,
    wakes: Ghost<nat>,
}

impl<T> View for Mutex<T> {
    type V = MutexView<T>;

    closed spec fn view(&self) -> MutexView<T> {
        MutexView { word: self.locked, value: self.value, wakes: self.wakes@ }
    }
}

impl<T> Mutex<T> {
    /// Creates the mutex in the unlocked state, owning `value`, with no
    /// wake signal issued yet.
    pub fn new(value: T) -> (m: Self)
        ensures
            m@ == (MutexView { word: UNLOCKED, value, wakes: 0nat }),
            m@.wf(),
    {
        Mutex { locked: UNLOCKED, value, wakes: Ghost(0nat) }
    }

    /// Issues one wake signal without touching the lock word or the
    /// payload. This is the manual counterpart of the wake a release
    /// performs; ordinary use never needs it, since releasing a guard
    /// already wakes a waiter.
    pub fn unlock(&mut self)
        ensures
            final(self)@ == wake_step(old(self)@),
    {
        self.wakes = Ghost(self.wakes@ + 1);
    }

    /// One acquisition attempt; models an atomic exchange of the word to
    /// [`LOCKED`] that observes the previous value.
    fn exchange_locked(&mut self) -> (prev: u32)
        ensures
            prev == old(self)@.word,
            final(self)@ == exchange_step(old(self)@).0,
    {
        let prev = self.locked;
        self.locked = LOCKED;
        prev
    }

    /// Acquires the mutex, retrying the exchange until it observes
    /// [`UNLOCKED`], and hands back the guard that is the sole path to the
    /// payload.
    ///
    /// Moving the mutex in makes the acquisition exclusive by ownership: a
    /// second lock is impossible until the guard gives the mutex back. A
    /// contended lock — the retry arm below, where the concurrent protocol
    /// parks the thread until the word changes and a wake signal arrives —
    /// therefore cannot arise here, and the contract asks for the unlocked
    /// state instead of waiting forever on a mutex nothing else can
    /// release.
    pub fn lock(self) -> (g: MutexGuard<T>)
        requires
            self@.wf(),
            !self@.is_locked(),
        ensures
            g@ == exchange_step(self@).0,
            g@.wf(),
            g@.is_locked(),
            g@.value == self@.value,
            g@.wakes == self@.wakes,
    {
        let ghost v0 = self@;
        let mut m = self;
        loop
            invariant_except_break
                m@ == v0,
            invariant
                v0.wf(),
                !v0.is_locked(),
            ensures
                m@ == exchange_step(v0).0,
            decreases 0nat,
        {
            let prev = m.exchange_locked();
            if prev != LOCKED {
                break;
            }
            // observing LOCKED would mean another holder exists; exclusive
            // ownership of `m` rules that out, so the park-and-retry arm
            // never runs
        }
        MutexGuard { mutex: m }
    }
}

/// The exclusive access right to a [`Mutex`]'s payload, bounded by a
/// scope: it is created only by a winning acquisition, it is the only path
/// to the payload, and giving it up is the only way the mutex becomes
/// unlocked again. The guard owns the mutex while it lives, so at most one
/// guard per mutex can exist at a time.
pub struct MutexGuard<T> {
    mutex: Mutex<T>,
}

impl<T> View for MutexGuard<T> {
    type V = MutexView<T>;

    closed spec fn view(&self) -> MutexView<T> {
        self.mutex@
    }
}

impl<T> MutexGuard<T> {
    /// Reads the protected payload.
    pub fn get(&self) -> (r: &T)
        ensures
            *r == self@.value,
    {
        &self.mutex.value
    }

    /// Overwrites the protected payload.
    pub fn set(&mut self, v: T)
        ensures
            final(self)@ == write_step(old(self)@, v),
    {
        self.mutex.value = v;
    }

    /// Overwrites the protected payload and returns the previous one.
    pub fn replace(&mut self, v: T) -> (prev: T)
        ensures
            prev == old(self)@.value,
            final(self)@ == write_step(old(self)@, v),
    {
        let mut v = v;
        core::mem::swap(&mut self.mutex.value, &mut v);
        v
    }

    /// Ends the critical section: stores [`UNLOCKED`] into the word, wakes
    /// one parked waiter, and gives the mutex back with the payload still
    /// inside. Models what the concurrent protocol performs when a guard
    /// goes out of scope; only one waiter is woken because only one can win
    /// the retry that follows.
    pub fn release(self) -> (m: Mutex<T>)
        ensures
            m@ == release_step(self@),
    {
        let mut m = self.mutex;
        m.locked = UNLOCKED;
        m.unlock();
        m
    }
}

/// Mutual exclusion: an exchange observes [`UNLOCKED`] — and so wins —
/// exactly when no holder is inside, and it leaves the word locked either
/// way, so a second exchange made while a holder is inside always observes
/// [`LOCKED`] and loses: two critical sections on one mutex can never
/// overlap.
pub proof fn lemma_mutual_exclusion<T>(s: MutexView<T>)
    requires
        s.wf(),
    ensures
        (exchange_step(s).1 == UNLOCKED) == !s.is_locked(),
        exchange_step(s).0.is_locked(),
        exchange_step(s).0.wf(),
        exchange_step(exchange_step(s).0).1 == LOCKED,
{
}

/// Progress on handover: the moment the holder releases, an exchange
/// observes [`UNLOCKED`] and wins, so a parked contender that is woken and
/// retries acquires the mutex once the holder before it is done.
pub proof fn lemma_release_enables_lock<T>(s: MutexView<T>)
    ensures
        release_step(s).wf(),
        exchange_step(release_step(s)).1 == UNLOCKED,
{
}

/// Visibility across a handover: what the holder last wrote is exactly
/// what the next holder finds after winning the mutex.
pub proof fn lemma_handover_visibility<T>(s: MutexView<T>, v: T)
    ensures
        exchange_step(release_step(write_step(s, v))).1 == UNLOCKED,
        exchange_step(release_step(write_step(s, v))).0.value == v,
{
}

/// One step some thread takes against the mutex: an acquisition attempt,
/// a release, a bare wake signal, or a payload write by the holder.
pub ghost enum MutexEvent<T> {
    /// An atomic exchange of the word to [`LOCKED`].
    Exchange,
    /// A store of [`UNLOCKED`] followed by one wake signal.
    Release,
    /// A bare wake signal.
    Wake,
    /// A payload write.
    Write(T),
}

/// The state after one event.
pub open spec fn apply_event<T>(s: MutexView<T>, e: MutexEvent<T>) -> MutexView<T> {
    match e {
        MutexEvent::Exchange => exchange_step(s).0,
        MutexEvent::Release => release_step(s),
        MutexEvent::Wake => wake_step(s),
        MutexEvent::Write(v) => write_step(s, v),
    }
}

/// The state after a whole sequence of events, applied left to right.
pub open spec fn apply_events<T>(s: MutexView<T>, es: Seq<MutexEvent<T>>) -> MutexView<T>
    decreases es.len(),
{
    if es.len() == 0 {
        s
    } else {
        apply_events(apply_event(s, es[0]), es.subrange(1, es.len() as int))
    }
}

/// Whether any exchange in `es` observes [`UNLOCKED`] — and so wins —
/// starting from `s`.
pub open spec fn some_exchange_wins<T>(s: MutexView<T>, es: Seq<MutexEvent<T>>) -> bool
    decreases es.len(),
{
    if es.len() == 0 {
        false
    } else {
        (es[0] is Exchange && exchange_step(s).1 == UNLOCKED) || some_exchange_wins(
            apply_event(s, es[0]),
            es.subrange(1, es.len() as int),
        )
    }
}

/// Whether `es` holds a release.
pub open spec fn has_release<T>(es: Seq<MutexEvent<T>>) -> bool {
    exists|i: int| 0 <= i < es.len() && es[i] is Release
}

/// Mutual exclusion under every interleaving: once a holder is inside its
/// critical section, no exchange by anyone observes [`UNLOCKED`] until
/// some release happens — whatever exchanges, wake signals and writes come
/// in between, and however many. Two critical sections on one mutex
/// therefore never overlap.
pub proof fn lemma_critical_sections_never_overlap<T>(s: MutexView<T>, es: Seq<MutexEvent<T>>)
    requires
        s.is_locked(),
        !has_release(es),
    ensures
        !some_exchange_wins(s, es),
        apply_events(s, es).is_locked(),
    decreases es.len(),
{
    if es.len() > 0 {
        let tail = es.subrange(1, es.len() as int);
        assert(!(es[0] is Release)) by {
            if es[0] is Release {
                assert(has_release(es));
            }
        }
        assert(!has_release(tail)) by {
            if has_release(tail) {
                let j = choose|j: int| 0 <= j < tail.len() && tail[j] is Release;
                assert(es[j + 1] is Release);
                assert(has_release(es));
            }
        }
        lemma_critical_sections_never_overlap(apply_event(s, es[0]), tail);
    }
}

/// Guard scope discipline: while the mutex is held, neither a payload
/// write nor a rival exchange nor a bare wake signal gives it up; the
/// release is what makes it unlocked — immediately, with the payload left
/// intact and exactly one wake signal issued.
pub proof fn lemma_guard_scope<T>(s: MutexView<T>, v: T)
    requires
        s.is_locked(),
    ensures
        write_step(s, v).is_locked(),
        exchange_step(s).0.is_locked(),
        wake_step(s).is_locked(),
        !release_step(s).is_locked(),
        release_step(s).value == s.value,
        release_step(s).wakes == s.wakes + 1,
{
}

} // verus!
