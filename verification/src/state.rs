use std::sync::atomic::{AtomicU32, Ordering};
use std::sync::Arc;

use vstd::prelude::*;

use crate::config::ThreadPoolConfig;

verus! {

/// The low half of the shared word counts the available workers.
pub const AVAILABLE_MASK: u32 = 0xFFFF;

/// One worker, counted in the high half of the shared word.
pub const WORKER_COUNT_BASE: u32 = 0x1_0000;

/// Available workers recorded in a shared word (its low 16 bits).
pub open spec fn available_count(word: u32) -> int {
    word as int % 0x1_0000
}

/// Workers recorded in a shared word (its high 16 bits).
pub open spec fn worker_count(word: u32) -> int {
    word as int / 0x1_0000
}

proof fn lemma_word_halves(word: u32)
    ensures
        word & AVAILABLE_MASK == available_count(word),
        word >> 16u32 == worker_count(word),
{
    assert(word & 0xFFFF == word % 0x1_0000) by (bit_vector);
    assert(word >> 16u32 == word / 0x1_0000) by (bit_vector);
}

/// The four limits of a pool, the model of a [`State`].
pub struct StateLimits {
    pub max_available_workers: nat,
    pub max_workers: nat,
    pub min_available_workers: nat,
    pub min_workers: nat,
}

impl StateLimits {
    /// Every limit fits in the half of a word.
    pub open spec fn fits(self) -> bool {
        &&& self.max_available_workers <= 0xFFFF
        &&& self.max_workers <= 0xFFFF
        &&& self.min_available_workers <= 0xFFFF
        &&& self.min_workers <= 0xFFFF
    }

    /// Whether a worker that takes a job, seeing `previous` before it took it, asks for
    /// one more worker: when at most `max_available_workers` stay available. The count
    /// that stays is computed in wrapping 32-bit arithmetic, so no word without an
    /// available worker asks.
    pub open spec fn available_decreased(self, previous: u32) -> bool {
        let available = available_count(previous);
        1 <= available && available - 1 <= self.max_available_workers
    }

    /// Whether a worker that finished a job, seeing `previous` before it counted itself
    /// available again, spawns a new worker.
    pub open spec fn available_incremented(self, previous: u32) -> bool {
        &&& available_count(previous) + 1 <= self.max_available_workers
        &&& worker_count(previous) < self.max_workers
    }

    /// Whether the pool wants a new worker in the state `word`.
    pub open spec fn needs_spawn(self, word: u32) -> bool {
        &&& available_count(word) <= self.max_available_workers
        &&& worker_count(word) < self.max_workers
    }

    /// The word after a new worker is counted, one more worker and one more available,
    /// added in wrapping 32-bit arithmetic; `None` where the pool already has `max_workers`.
    pub open spec fn admitted(self, word: u32) -> Option<u32> {
        if worker_count(word) < self.max_workers {
            Some(vstd::wrapping::u32_specs::wrapping_add(word, 0x1_0001))
        } else {
            None
        }
    }

    /// The word after an idle worker leaves, one worker less; `None` where that would
    /// leave no more than `min_available_workers` available or no more than `min_workers`.
    pub open spec fn retired(self, word: u32) -> Option<u32> {
        if available_count(word) > self.min_available_workers && worker_count(word)
            > self.min_workers {
            Some((word - 0x1_0000) as u32)
        } else {
            None
        }
    }
}

/// A new worker is admitted exactly while fewer than `max_workers` are counted, and
/// admission counts exactly one more worker and one more available worker, so the
/// worker count never passes `max_workers`. (A word whose available half is full
/// carries into the worker half, and is left out.)
pub proof fn lemma_admission_bounded(limits: StateLimits, word: u32)
    requires
        limits.fits(),
        worker_count(word) <= limits.max_workers,
        available_count(word) < 0xFFFF,
    ensures
        limits.admitted(word) is Some <==> worker_count(word) < limits.max_workers,
        limits.admitted(word) matches Some(next) ==> {
            &&& worker_count(next) == worker_count(word) + 1
            &&& available_count(next) == available_count(word) + 1
            &&& worker_count(next) <= limits.max_workers
        },
{
    if worker_count(word) < limits.max_workers {
        assert(word + 0x1_0001 <= u32::MAX);
    }
}

/// An idle worker may leave only while more than `min_available_workers` are available
/// and more than `min_workers` are counted; leaving counts exactly one worker less and
/// leaves the available count as it was, so neither count drops below its minimum.
pub proof fn lemma_retirement_keeps_minimums(limits: StateLimits, word: u32)
    ensures
        limits.retired(word) is Some <==> (available_count(word) > limits.min_available_workers
            && worker_count(word) > limits.min_workers),
        limits.retired(word) matches Some(next) ==> {
            &&& worker_count(next) == worker_count(word) - 1
            &&& worker_count(next) >= limits.min_workers
            &&& available_count(next) == available_count(word)
            &&& available_count(next) > limits.min_available_workers
        },
{
}

/// A new worker that the pool asks for is admitted on the same word.
pub proof fn lemma_spawn_request_admitted(limits: StateLimits, word: u32)
    ensures
        limits.needs_spawn(word) ==> limits.admitted(word) is Some,
{
}

/// A worker admitted and then let go leaves the worker count as it was; the word ends
/// one higher, in its available half.
pub proof fn lemma_admit_then_retire(limits: StateLimits, word: u32)
    requires
        limits.admitted(word) is Some,
        limits.retired(limits.admitted(word)->0) is Some,
    ensures
        limits.retired(limits.admitted(word)->0) == Some((word + 1) as u32),
        available_count(word) < 0xFFFF ==> {
            &&& worker_count((word + 1) as u32) == worker_count(word)
            &&& available_count((word + 1) as u32) == available_count(word) + 1
        },
{
    let next = limits.admitted(word)->0;
    if word + 0x1_0001 > u32::MAX {
        assert(worker_count(next) == 0);
    }
}

/// A worker that takes a job on the word `previous` and finishes it before any other
/// worker touches the counter decides to spawn exactly when the pool wanted a new
/// worker on `previous`.
pub proof fn lemma_job_round_trip(limits: StateLimits, previous: u32)
    requires
        available_count(previous) >= 1,
    ensures
        limits.available_incremented((previous - 1) as u32) == limits.needs_spawn(previous),
{
}

impl StateLimits {
    /// The word after `attempts` successive admission attempts from `word`; an attempt
    /// that is refused leaves the word as it is.
    pub open spec fn word_after_attempts(self, word: u32, attempts: nat) -> u32
        decreases attempts,
    {
        if attempts == 0 {
            word
        } else {
            let before = self.word_after_attempts(word, (attempts - 1) as nat);
            match self.admitted(before) {
                Some(next) => next,
                None => before,
            }
        }
    }

    /// Whether the admission attempt numbered `attempt` (from 0) in a run of attempts
    /// from `word` succeeds.
    pub open spec fn attempt_admitted(self, word: u32, attempt: nat) -> bool {
        self.admitted(self.word_after_attempts(word, attempt)) is Some
    }
}

proof fn lemma_word_after_attempts_from_zero(limits: StateLimits, attempts: nat)
    requires
        limits.fits(),
    ensures
        limits.word_after_attempts(0, attempts) == (if attempts < limits.max_workers {
            attempts
        } else {
            limits.max_workers
        }) * 0x1_0001,
    decreases attempts,
{
    if attempts > 0 {
        let earlier = (attempts - 1) as nat;
        lemma_word_after_attempts_from_zero(limits, earlier);
        let count: nat = if earlier < limits.max_workers {
            earlier
        } else {
            limits.max_workers
        };
        let before = limits.word_after_attempts(0, earlier);
        assert(before == count * 0x1_0001);
        assert(worker_count(before) == count);
        if earlier < limits.max_workers {
            assert(before + 0x1_0001 <= u32::MAX);
        }
    }
}

/// From the zero word, the word a new counter starts at, a run of admission attempts
/// succeeds exactly for the first `max_workers` of them; after `attempts` attempts the
/// word counts as many workers, and as many available, as succeeded.
pub proof fn lemma_admissions_from_zero(limits: StateLimits, attempts: nat)
    requires
        limits.fits(),
    ensures
        limits.attempt_admitted(0, attempts) <==> attempts < limits.max_workers,
        worker_count(limits.word_after_attempts(0, attempts)) == if attempts
            < limits.max_workers {
            attempts
        } else {
            limits.max_workers
        },
        available_count(limits.word_after_attempts(0, attempts)) == worker_count(
            limits.word_after_attempts(0, attempts),
        ),
{
    lemma_word_after_attempts_from_zero(limits, attempts);
}

/// A worker that finished a job spawns exactly when, counted available again, the pool
/// still wants a new worker: the decision on the word before the addition is the
/// need-spawn decision on the word after it (where the addition does not carry).
pub proof fn lemma_finish_decides_on_word_left(limits: StateLimits, previous: u32)
    requires
        available_count(previous) < 0xFFFF,
    ensures
        limits.available_incremented(previous) == limits.needs_spawn((previous + 1) as u32),
        available_count((previous + 1) as u32) == available_count(previous) + 1,
        worker_count((previous + 1) as u32) == worker_count(previous),
{
}

/// The pool never wants a new worker once it counts `max_workers`, nor while more than
/// `max_available_workers` are available; and a worker it wants is admitted without
/// passing `max_workers`.
pub proof fn lemma_spawn_need_within_limits(limits: StateLimits, word: u32)
    requires
        limits.fits(),
        available_count(word) < 0xFFFF,
    ensures
        worker_count(word) >= limits.max_workers ==> !limits.needs_spawn(word),
        available_count(word) > limits.max_available_workers ==> !limits.needs_spawn(word),
        limits.needs_spawn(word) ==> (limits.admitted(word) matches Some(next)
            && worker_count(next) <= limits.max_workers),
{
    if limits.needs_spawn(word) {
        lemma_admission_bounded(limits, word);
    }
}

/// Applies `update` to the word until the word is replaced by what it gives or it gives
/// `None`.
///
/// Calls `AtomicU32::fetch_update`, whose documentation states that the result is
/// `Ok(previous)` when `update` gave `Some` on `previous` and stored that, and
/// `Err(previous)` when it gave `None` on `previous`. Which `previous` is seen depends
/// on the other threads and is not stated.
#[verifier::external_body]
fn update_word<F: Fn(u32) -> Option<u32>>(word: &AtomicU32, update: F) -> (result: Result<
    u32,
    u32,
>)
    requires
        forall|w: u32| update.requires((w,)),
    ensures
        match result {
            Ok(previous) => exists|next: u32| update.ensures((previous,), Some(next)),
            Err(previous) => update.ensures((previous,), None::<u32>),
        },
{
    word.fetch_update(Ordering::SeqCst, Ordering::SeqCst, update)
}

/// The counter of workers shared by all workers of a pool, with the pool's limits.
///
/// Its word holds the number of workers in its high half and the number of available
/// workers in its low half.
#[derive(Clone, Debug)]
pub struct State {
    inner: Arc<AtomicU32>,
    max_available_workers: u32,
    max_workers: u32,
    min_available_workers: u32,
    min_workers: u32,
}

impl View for State {
    type V = StateLimits;

    closed spec fn view(&self) -> StateLimits {
        StateLimits {
            max_available_workers: self.max_available_workers as nat,
            max_workers: self.max_workers as nat,
            min_available_workers: self.min_available_workers as nat,
            min_workers: self.min_workers as nat,
        }
    }
}

impl State {
    /// A counter at zero with the limits of `conf`.
    pub fn new(conf: ThreadPoolConfig) -> (state: Self)
        ensures
            state@ == (StateLimits {
                max_available_workers: conf@.max_available_workers as nat,
                max_workers: conf@.max_workers as nat,
                min_available_workers: conf@.min_available_workers as nat,
                min_workers: conf@.min_workers as nat,
            }),
            state@.fits(),
    {
        State {
            inner: Arc::new(AtomicU32::new(0)),
            max_available_workers: conf.max_available_count() as u32,
            max_workers: conf.max_worker_count() as u32,
            min_available_workers: conf.min_available_count() as u32,
            min_workers: conf.min_worker_count() as u32,
        }
    }

    /// The decision of a worker that took a job on the word `previous`.
    pub fn available_decreased(&self, previous: u32) -> (ask: bool)
        ensures
            ask == self@.available_decreased(previous),
    {
        proof {
            lemma_word_halves(previous);
        }
        let available_count = previous & AVAILABLE_MASK;
        available_count >= 1 && available_count - 1 <= self.max_available_workers
    }

    /// The decision of a worker that finished a job on the word `previous`.
    pub fn available_incremented(&self, previous: u32) -> (spawn: bool)
        ensures
            spawn == self@.available_incremented(previous),
    {
        proof {
            lemma_word_halves(previous);
        }
        let available_count = previous & AVAILABLE_MASK;
        let worker_count = previous >> 16;
        available_count + 1 <= self.max_available_workers && worker_count < self.max_workers
    }

    /// Whether the pool wants a new worker in the state `word`.
    pub fn spawn_needed(&self, word: u32) -> (needed: bool)
        ensures
            needed == self@.needs_spawn(word),
    {
        proof {
            lemma_word_halves(word);
        }
        let available_count = word & AVAILABLE_MASK;
        let worker_count = word >> 16;
        available_count <= self.max_available_workers && worker_count < self.max_workers
    }

    /// The word after a new worker is counted in `word`, if the pool admits it.
    pub fn admission(&self, word: u32) -> (next: Option<u32>)
        ensures
            next == self@.admitted(word),
    {
        proof {
            lemma_word_halves(word);
        }
        let worker_count = word >> 16;
        if worker_count < self.max_workers {
            Some(word.wrapping_add(WORKER_COUNT_BASE + 1))
        } else {
            None
        }
    }

    /// The word after an idle worker leaves `word`, if the pool lets it.
    pub fn retirement(&self, word: u32) -> (next: Option<u32>)
        ensures
            next == self@.retired(word),
    {
        proof {
            lemma_word_halves(word);
        }
        let available_count = word & AVAILABLE_MASK;
        let worker_count = word >> 16;
        if available_count > self.min_available_workers && worker_count > self.min_workers {
            Some(word - WORKER_COUNT_BASE)
        } else {
            None
        }
    }
    /// Counts one available worker less, as a worker takes a job, and tells whether
    /// the pool should be asked for one more worker.
    ///
    /// The answer is the decision on the word that the subtraction found; which word
    /// that was depends on the other workers.
    pub fn decrease_available(&self) -> (ask: bool)
        ensures
            exists|previous: u32| ask == self@.available_decreased(previous),
    {
        let previous_state = self.inner.fetch_sub(1, Ordering::SeqCst);
        self.available_decreased(previous_state)
    }

    /// Counts one more available worker, as a worker finished a job, and tells whether
    /// it should spawn a new worker.
    pub fn increment_available(&self) -> (spawn: bool)
        ensures
            exists|previous: u32| spawn == self@.available_incremented(previous),
    {
        let previous_state = self.inner.fetch_add(1, Ordering::SeqCst);
        self.available_incremented(previous_state)
    }

    /// Counts a new worker, one more worker and one more available, unless the pool
    /// already has `max_workers`; tells whether the worker was counted.
    pub fn allow_new_worker(&self) -> (allowed: bool)
        ensures
            exists|word: u32| allowed == self@.admitted(word) is Some,
    {
        let step = |word: u32| -> (next: Option<u32>)
            ensures
                next == self@.admitted(word),
            { self.admission(word) };
        let result = update_word(&self.inner, step);
        match result {
            Ok(_) => true,
            Err(_) => false,
        }
    }

    /// Whether the pool wants a new worker now.
    pub fn need_spawn(&self) -> (needed: bool)
        ensures
            exists|word: u32| needed == self@.needs_spawn(word),
    {
        let state = self.inner.load(Ordering::SeqCst);
        self.spawn_needed(state)
    }

    /// Counts one worker less, as an idle worker leaves, unless that would leave no
    /// more than `min_available_workers` available or no more than `min_workers`;
    /// tells whether the worker may leave.
    pub fn allow_to_shutdown(&self) -> (allowed: bool)
        ensures
            exists|word: u32| allowed == self@.retired(word) is Some,
    {
        let step = |word: u32| -> (next: Option<u32>)
            ensures
                next == self@.retired(word),
            { self.retirement(word) };
        let result = update_word(&self.inner, step);
        match result {
            Ok(_) => true,
            Err(_) => false,
        }
    }
}

} // verus!
