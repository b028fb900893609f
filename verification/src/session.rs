//! The model of one session: the shared byte counter, the stop signal and
//! the rate sampler.
//!
//! In the running process the counter is an atomic integer shared between
//! the transfer loop and a background sampler thread, and the stop signal
//! is a mutex-guarded flag with a notification. This module captures every
//! decision either thread makes as a function from the session state and
//! an observed event to the next state and the action to take; the binary
//! around the library owns the real threads and drives these functions
//! with what it observes.
//!
//! A session's lifecycle: `start` resets the counter to zero, clears the
//! stop signal and puts the sampler in its running phase; the transfer
//! loop records every fully transferred buffer; each time the sampler's
//! timed wait ends, `sampler_wake` either emits one rate sample or, when
//! the stop signal was set meanwhile, retires the sampler without a final
//! partial sample; `stop_ticker` sets the stop signal once the transfer
//! loop has returned.

use vstd::prelude::*;

use crate::errors::SessionError;
use crate::transfer::{all_words_fill, valid_buff_size, validate_buffer, word_at, word_count,
    FILL_WORD};

verus! {

/// One throughput report emitted by the sampler.
#[derive(Clone, Copy, Debug, PartialEq, Eq, Structural)]
pub struct RateSample {
    /// Counter value at the moment of the sample: bytes transferred since
    /// the session started.
    pub total: u64,
    /// Bytes transferred since the previous sample, or since the start of
    /// the session for the first sample.
    pub rate: u64,
}

/// Where the sampler stands.
#[derive(Clone, Copy, Debug, PartialEq, Eq, Structural)]
pub enum SamplerPhase {
    /// The sampler waits out its interval and emits a sample on each wake.
    Running,
    /// The sampler observed the stop signal and has exited its loop.
    Stopped,
}

/// The state of one session.
#[derive(Clone, Copy, Debug, PartialEq, Eq, Structural)]
pub struct Session {
    /// Transfer buffer size in bytes; a positive multiple of the word size.
    pub buff_size: usize,
    /// Whether received buffers are checked against the fill pattern.
    pub validate: bool,
    /// The shared byte counter: bytes transferred so far in this session.
    /// Only ever increases while the session lasts.
    pub counter: u64,
    /// The stop signal: false while the sampler is expected to run, true
    /// only once the session has ended.
    pub stop_requested: bool,
    /// The sampler's phase.
    pub phase: SamplerPhase,
    /// The counter value the sampler saw on its previous wake.
    pub last_sampled: u64,
}

impl Session {
    /// The session invariant: the buffer size is valid and the sampler
    /// never saw more bytes than the counter holds.
    pub open spec fn wf(self) -> bool {
        &&& valid_buff_size(self.buff_size)
        &&& self.last_sampled <= self.counter
    }

    /// The state a fresh session starts in: counter reset to zero, stop
    /// signal cleared, sampler running with a zero baseline.
    pub open spec fn spec_start(buff_size: usize, validate: bool) -> Session {
        Session {
            buff_size,
            validate,
            counter: 0,
            stop_requested: false,
            phase: SamplerPhase::Running,
            last_sampled: 0,
        }
    }

    /// Begin a session. Models what happens when a connection is ready:
    /// the shared byte counter is reset, the stop signal is cleared, and
    /// the sampler task is (re)launched.
    pub fn start(buff_size: usize, validate: bool) -> (s: Session)
        requires
            valid_buff_size(buff_size),
        ensures
            s == Session::spec_start(buff_size, validate),
            s.wf(),
    {
        Session {
            buff_size,
            validate,
            counter: 0,
            stop_requested: false,
            phase: SamplerPhase::Running,
            last_sampled: 0,
        }
    }

    /// The session after `n` more bytes moved over the stream.
    pub open spec fn spec_record(self, n: u64) -> Session {
        Session { counter: (self.counter + n) as u64, ..self }
    }

    /// Send side of the transfer loop: one whole buffer was written, so
    /// the shared byte counter grows by its length.
    pub fn record_sent(&mut self, n: usize)
        requires
            old(self).wf(),
            old(self).counter + n <= u64::MAX,
        ensures
            *final(self) == old(self).spec_record(n as u64),
            final(self).wf(),
    {
        self.counter = self.counter + n as u64;
    }

    /// Receive side of the transfer loop: one whole buffer arrived. The
    /// counter grows by its length; then, when validation is enabled, the
    /// buffer's words are held against the fill pattern and the first
    /// mismatch ends the session with a validation error.
    pub fn record_received(&mut self, buf: &[u8]) -> (r: Result<(), SessionError>)
        requires
            old(self).wf(),
            buf@.len() == old(self).buff_size,
            old(self).counter + buf@.len() <= u64::MAX,
        ensures
            *final(self) == old(self).spec_record(buf@.len() as u64),
            final(self).wf(),
            r is Ok <==> (!old(self).validate || all_words_fill(buf@)),
            r is Err ==> ({
                &&& old(self).validate
                &&& r matches Err(SessionError::Validation { word, word_index })
                &&& 0 <= word_index < word_count(buf@)
                &&& word == word_at(buf@, word_index as int)
                &&& word != FILL_WORD
                &&& forall|j: int| 0 <= j < word_index ==> word_at(buf@, j) == FILL_WORD
            }),
    {
        self.counter = self.counter + buf.len() as u64;
        if self.validate {
            validate_buffer(buf)
        } else {
            Ok(())
        }
    }

    /// The session and the emitted sample after one sampler wake.
    pub open spec fn spec_wake(self) -> (Session, Option<RateSample>) {
        if self.stop_requested || self.phase is Stopped {
            (Session { phase: SamplerPhase::Stopped, ..self }, None)
        } else {
            (
                Session { last_sampled: self.counter, ..self },
                Some(
                    RateSample {
                        total: self.counter,
                        rate: (self.counter - self.last_sampled) as u64,
                    },
                ),
            )
        }
    }

    /// One wake of the sampler: its timed wait ended, either because the
    /// interval elapsed or because the stop signal was set and notified.
    /// With the stop signal set the sampler retires at once, without a
    /// final partial sample; otherwise it reads the shared counter and
    /// emits the delta since its previous wake.
    pub fn sampler_wake(&mut self) -> (r: Option<RateSample>)
        requires
            old(self).wf(),
        ensures
            (*final(self), r) == old(self).spec_wake(),
            final(self).wf(),
    {
        if self.stop_requested || matches!(self.phase, SamplerPhase::Stopped) {
            self.phase = SamplerPhase::Stopped;
            None
        } else {
            let sample = RateSample { total: self.counter, rate: self.counter - self.last_sampled };
            self.last_sampled = self.counter;
            Some(sample)
        }
    }

    /// The session after the stop signal is set.
    pub open spec fn spec_stop(self) -> Session {
        Session { stop_requested: true, ..self }
    }

    /// End of the session: set the stop signal. In the running process
    /// this is the "set the flag under the lock, then notify all waiters"
    /// step, the one deterministic way to end the sampler's loop.
    pub fn stop_ticker(&mut self)
        requires
            old(self).wf(),
        ensures
            *final(self) == old(self).spec_stop(),
            final(self).wf(),
    {
        self.stop_requested = true;
    }
}

/// Law: a freshly started session owes nothing to any earlier one. Its
/// counter restarts at zero, and its first sample reports exactly the
/// bytes recorded since its own start — `start` resets both the counter
/// and the sampler's baseline, so no bytes leak across sessions.
pub proof fn lemma_fresh_session_samples_only_its_own_bytes(
    buff_size: usize,
    validate: bool,
    n: u64,
)
    ensures
        Session::spec_start(buff_size, validate).counter == 0,
        ({
            let (after, sample) = Session::spec_start(buff_size, validate).spec_record(
                n,
            ).spec_wake();
            sample == Some(RateSample { total: n, rate: n })
        }),
{
}

/// Law: within a session the shared byte counter only ever increases.
/// Recording a transfer grows it by exactly the bytes moved, and neither a
/// sampler wake nor the stop signal touches it — the sampler is a pure
/// reader of the counter.
pub proof fn lemma_counter_only_increases(s: Session, n: u64)
    requires
        s.counter + n <= u64::MAX,
    ensures
        s.spec_record(n).counter == s.counter + n,
        s.spec_wake().0.counter == s.counter,
        s.spec_stop().counter == s.counter,
{
}

/// Law: stopping is prompt. Once the stop signal is set, the very next
/// sampler wake — even one cut short in the middle of its timed wait —
/// emits no sample and retires the sampler; and a retired sampler never
/// emits again.
pub proof fn lemma_stop_signal_retires_sampler(s: Session)
    ensures
        s.spec_stop().spec_wake().1 is None,
        s.spec_stop().spec_wake().0.phase is Stopped,
        s.phase is Stopped ==> s.spec_wake().1 is None && s.spec_wake().0.phase is Stopped,
{
}

} // verus!
