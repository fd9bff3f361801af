use vstd::prelude::*;

verus! {

/// What a configuration holds, as plain values.
///
/// `keep_alive` is in seconds; the four counts are never zero.
pub struct ConfigView {
    pub keep_alive: u64,
    pub min_workers: u16,
    pub max_workers: u16,
    pub min_available_workers: u16,
    pub max_available_workers: u16,
    pub queue_size: Option<usize>,
}

/// The configuration that a machine with `cpus` usable CPUs gets by default:
/// as many workers as CPUs (their count taken modulo 2^16, and 4 where that is 0),
/// at most 512 workers, at least 4 available, a keep-alive of 30 seconds and a
/// queue of 64 jobs.
pub open spec fn default_view_for(cpus: usize) -> ConfigView {
    let counted = (cpus as int % 0x1_0000) as u16;
    let min_workers: u16 = if counted != 0 { counted } else { 4 };
    ConfigView {
        keep_alive: 30,
        min_workers,
        max_workers: 512,
        min_available_workers: 4,
        max_available_workers: min_workers,
        queue_size: Some(64usize),
    }
}

/// The default configuration starts one worker per usable CPU, the CPU count taken
/// modulo 2^16 and 4 where that is 0, and asks for new workers while no more than
/// that many are available; its other settings do not depend on the machine.
pub proof fn lemma_default_follows_cpus(cpus: usize)
    ensures
        cpus as int % 0x1_0000 != 0 ==> default_view_for(cpus).min_workers == cpus as int
            % 0x1_0000,
        cpus as int % 0x1_0000 == 0 ==> default_view_for(cpus).min_workers == 4,
        1 <= cpus <= 0xFFFF ==> default_view_for(cpus).min_workers == cpus,
        default_view_for(cpus).min_workers >= 1,
        default_view_for(cpus).max_available_workers == default_view_for(cpus).min_workers,
        default_view_for(cpus).keep_alive == 30,
        default_view_for(cpus).max_workers == 512,
        default_view_for(cpus).min_available_workers == 4,
        default_view_for(cpus).queue_size == Some(64usize),
{
}

/// Thread pool configuration
#[derive(Clone, Copy, Debug)]
pub struct ThreadPoolConfig {
    keep_alive: u64,
    min_workers: u16,
    max_workers: u16,
    min_available_workers: u16,
    max_available_workers: u16,
    queue_size: Option<usize>,
}

impl View for ThreadPoolConfig {
    type V = ConfigView;

    closed spec fn view(&self) -> ConfigView {
        ConfigView {
            keep_alive: self.keep_alive,
            min_workers: self.min_workers,
            max_workers: self.max_workers,
            min_available_workers: self.min_available_workers,
            max_available_workers: self.max_available_workers,
            queue_size: self.queue_size,
        }
    }
}

/// The number of CPUs that this process may use.
///
/// Calls `num_cpus::get`, whose documentation promises a result of at least 1;
/// nothing more is claimed, as the count depends on the machine.
#[verifier::external_body]
fn usable_cpus() -> (cpus: usize)
    ensures
        cpus >= 1,
{
    num_cpus::get()
}

impl ThreadPoolConfig {
    #[verifier::type_invariant]
    spec fn counts_nonzero(self) -> bool {
        &&& self.min_workers >= 1
        &&& self.max_workers >= 1
        &&& self.min_available_workers >= 1
        &&& self.max_available_workers >= 1
    }

    /// The default configuration of a machine with `cpus` usable CPUs.
    pub fn for_cpus(cpus: usize) -> (config: Self)
        ensures
            config@ == default_view_for(cpus),
            cpus as int % 0x1_0000 != 0 ==> config@.min_workers == cpus as int % 0x1_0000,
            cpus as int % 0x1_0000 == 0 ==> config@.min_workers == 4,
            1 <= cpus <= 0xFFFF ==> config@.min_workers == cpus,
            config@.max_available_workers == config@.min_workers,
            config@.keep_alive == 30,
            config@.max_workers == 512,
            config@.min_available_workers == 4,
            config@.queue_size == Some(64usize),
    {
        proof {
            lemma_default_follows_cpus(cpus);
        }
        let counted: u16 = cpus as u16;
        assert(counted == cpus as int % 0x1_0000) by (bit_vector)
            requires
                counted == cpus as u16,
        ;
        let min_workers: u16 = if counted != 0 {
            counted
        } else {
            4
        };
        ThreadPoolConfig {
            keep_alive: 30,
            min_workers,
            max_workers: 512,
            min_available_workers: 4,
            max_available_workers: min_workers,
            queue_size: Some(64),
        }
    }
    /// Seconds that an idle worker waits for a job before it considers leaving.
    pub fn keep_alive_secs(&self) -> (secs: u64)
        ensures
            secs == self@.keep_alive,
    {
        self.keep_alive
    }

    /// Workers that the pool starts with and keeps at least.
    pub fn min_worker_count(&self) -> (count: u16)
        ensures
            count == self@.min_workers,
            count >= 1,
    {
        proof {
            use_type_invariant(self);
        }
        self.min_workers
    }

    /// Workers that the pool never exceeds.
    pub fn max_worker_count(&self) -> (count: u16)
        ensures
            count == self@.max_workers,
            count >= 1,
    {
        proof {
            use_type_invariant(self);
        }
        self.max_workers
    }

    /// Available workers below which no worker leaves.
    pub fn min_available_count(&self) -> (count: u16)
        ensures
            count == self@.min_available_workers,
            count >= 1,
    {
        proof {
            use_type_invariant(self);
        }
        self.min_available_workers
    }

    /// Available workers up to which a new worker is asked for.
    pub fn max_available_count(&self) -> (count: u16)
        ensures
            count == self@.max_available_workers,
            count >= 1,
    {
        proof {
            use_type_invariant(self);
        }
        self.max_available_workers
    }

    /// Capacity of the job queue; `None` for a queue without bound.
    pub fn queue_capacity(&self) -> (capacity: Option<usize>)
        ensures
            capacity == self@.queue_size,
    {
        self.queue_size
    }

    /// Sets the keep-alive, in seconds.
    pub fn keep_alive(self, keep_alive: u64) -> (config: Self)
        ensures
            config@ == (ConfigView { keep_alive, ..self@ }),
    {
        proof {
            use_type_invariant(&self);
        }
        ThreadPoolConfig { keep_alive, ..self }
    }

    /// Sets the number of workers that the pool starts with and keeps at least.
    pub fn min_workers(self, min_workers: u16) -> (config: Self)
        requires
            min_workers >= 1,
        ensures
            config@ == (ConfigView { min_workers, ..self@ }),
    {
        proof {
            use_type_invariant(&self);
        }
        ThreadPoolConfig { min_workers, ..self }
    }

    /// Sets the largest number of workers; it must exceed the current
    /// `max_available_workers`.
    pub fn max_workers(self, max_workers: u16) -> (config: Self)
        requires
            self@.max_available_workers < max_workers,
        ensures
            config@ == (ConfigView { max_workers, ..self@ }),
    {
        proof {
            use_type_invariant(&self);
        }
        ThreadPoolConfig { max_workers, ..self }
    }

    /// Sets the number of available workers below which no worker leaves.
    pub fn min_available_workers(self, min_available_workers: u16) -> (config: Self)
        requires
            min_available_workers >= 1,
        ensures
            config@ == (ConfigView { min_available_workers, ..self@ }),
    {
        proof {
            use_type_invariant(&self);
        }
        ThreadPoolConfig { min_available_workers, ..self }
    }

    /// Sets the number of available workers up to which a new worker is asked
    /// for; it must be below the current `max_workers`.
    pub fn max_available_workers(self, max_available_workers: u16) -> (config: Self)
        requires
            max_available_workers >= 1,
            max_available_workers < self@.max_workers,
        ensures
            config@ == (ConfigView { max_available_workers, ..self@ }),
    {
        proof {
            use_type_invariant(&self);
        }
        ThreadPoolConfig { max_available_workers, ..self }
    }

    /// Sets the capacity of the job queue; `None` makes it unbounded.
    pub fn queue_size(self, queue_size: Option<usize>) -> (config: Self)
        ensures
            config@ == (ConfigView { queue_size, ..self@ }),
    {
        proof {
            use_type_invariant(&self);
        }
        ThreadPoolConfig { queue_size, ..self }
    }
}

impl Default for ThreadPoolConfig {
    /// The configuration for the CPUs that this process may use.
    fn default() -> (config: Self)
        ensures
            exists|cpus: usize| cpus >= 1 && config@ == default_view_for(cpus),
            config@.keep_alive == 30,
            config@.min_workers >= 1,
            config@.max_workers == 512,
            config@.min_available_workers == 4,
            config@.max_available_workers == config@.min_workers,
            config@.queue_size == Some(64usize),
    {
        let cpus = usable_cpus();
        let config = Self::for_cpus(cpus);
        assert(config@ == default_view_for(cpus));
        config
    }
}

} // verus!
