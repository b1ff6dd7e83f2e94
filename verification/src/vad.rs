//! Voice activity detection: a per-session state machine that turns the
//! energy of each arriving batch into utterance boundaries, with hysteresis
//! on the trailing edge only.

use vstd::prelude::*;
use crate::amplitude::{exceeds, greater};

verus! {

/// Pattern of the default energy threshold, the binary32 value nearest 0.01.
pub const DEFAULT_ENERGY_THRESHOLD: u32 = 0x3c23_d70a;

/// Pattern of the binary32 value 1.
pub const ONE_BITS: u32 = 0x3f80_0000;

/// Default number of silent batches tolerated inside an utterance.
pub const DEFAULT_SILENCE_CHUNKS: usize = 15;

/// Tunables of one session, fixed when the session starts.
#[derive(Debug, Clone, Copy, PartialEq, Eq, Structural)]
pub struct VadConfig {
    /// Energy a batch must strictly exceed to count as voiced: the bit
    /// pattern of a binary32 value.
    pub energy_threshold: u32,
    /// Consecutive silent batches that an utterance survives; one more ends it.
    pub silence_threshold_chunks: usize,
}

impl VadConfig {
    /// The values the tunables are meant to take: a threshold greater than
    /// 0 and at most 1, and at least one tolerated chunk.
    pub open spec fn in_range(self) -> bool {
        &&& 0 < self.energy_threshold <= ONE_BITS
        &&& self.silence_threshold_chunks > 0
    }

    /// Whether the tunables take values they are meant to take.
    pub fn is_in_range(&self) -> (ok: bool)
        ensures
            ok == self.in_range(),
    {
        0 < self.energy_threshold && self.energy_threshold <= ONE_BITS
            && self.silence_threshold_chunks > 0
    }
}

impl Default for VadConfig {
    fn default() -> (config: Self)
        ensures
            config.energy_threshold == DEFAULT_ENERGY_THRESHOLD,
            config.silence_threshold_chunks == DEFAULT_SILENCE_CHUNKS,
            config.in_range(),
    {
        VadConfig {
            energy_threshold: DEFAULT_ENERGY_THRESHOLD,
            silence_threshold_chunks: DEFAULT_SILENCE_CHUNKS,
        }
    }
}

/// The energy of a batch that needs no measuring: a batch without samples
/// has energy 0; any other batch has to be measured.
pub fn energy_without_samples(samples: &[u32]) -> (energy: Option<u32>)
    ensures
        samples@.len() == 0 ==> energy == Some(0u32),
        samples@.len() > 0 ==> energy is None,
{
    if samples.len() == 0 {
        Some(0)
    } else {
        None
    }
}

/// Classification of one batch.
#[derive(Debug, Clone, Copy, PartialEq, Eq, Structural)]
pub enum VadStatus {
    /// No utterance is in progress and the batch is silent.
    Silence,
    /// The batch is voiced and opens an utterance.
    SpeechStarted,
    /// The batch is voiced inside an utterance.
    Speaking,
    /// The batch is silent inside an utterance that goes on.
    SilenceDuringSpeech,
    /// The batch is silent and closes the utterance.
    SpeechEnded,
}

/// What a detector knows between two batches.
pub struct VadModel {
    pub config: VadConfig,
    pub is_speaking: bool,
    pub silence_counter: nat,
}

impl VadModel {
    /// The counter runs only inside an utterance and never passes the limit.
    pub open spec fn wf(self) -> bool {
        &&& !self.is_speaking ==> self.silence_counter == 0
        &&& self.silence_counter <= self.config.silence_threshold_chunks
    }

    /// Whether a batch of this energy counts as voiced.
    pub open spec fn voiced(self, energy: u32) -> bool {
        greater(energy, self.config.energy_threshold)
    }

    /// The classification of a batch of this energy.
    pub open spec fn status_of(self, energy: u32) -> VadStatus {
        if self.voiced(energy) {
            if self.is_speaking {
                VadStatus::Speaking
            } else {
                VadStatus::SpeechStarted
            }
        } else if !self.is_speaking {
            VadStatus::Silence
        } else if self.silence_counter + 1 > self.config.silence_threshold_chunks {
            VadStatus::SpeechEnded
        } else {
            VadStatus::SilenceDuringSpeech
        }
    }

    /// The state after a batch of this energy.
    pub open spec fn next(self, energy: u32) -> VadModel {
        if self.voiced(energy) {
            VadModel { config: self.config, is_speaking: true, silence_counter: 0 }
        } else if !self.is_speaking {
            self
        } else if self.silence_counter + 1 > self.config.silence_threshold_chunks {
            VadModel { config: self.config, is_speaking: false, silence_counter: 0 }
        } else {
            VadModel {
                config: self.config,
                is_speaking: true,
                silence_counter: self.silence_counter + 1,
            }
        }
    }

    /// The state after a run of batches, given by their energies in order.
    pub open spec fn after(self, energies: Seq<u32>) -> VadModel
        decreases energies.len(),
    {
        if energies.len() == 0 {
            self
        } else {
            self.after(energies.drop_last()).next(energies.last())
        }
    }

    /// The classification of batch `i` of a run.
    pub open spec fn status_at(self, energies: Seq<u32>, i: int) -> VadStatus
        recommends
            0 <= i < energies.len(),
    {
        self.after(energies.take(i)).status_of(energies[i])
    }

    /// The classifications of a run of batches, one for each.
    pub open spec fn statuses(self, energies: Seq<u32>) -> Seq<VadStatus> {
        Seq::new(energies.len(), |i: int| self.status_at(energies, i))
    }
}

/// The detector of one session.
pub struct VadState {
    config: VadConfig,
    is_speaking: bool,
    silence_counter: usize,
}

impl View for VadState {
    type V = VadModel;

    closed spec fn view(&self) -> VadModel {
        VadModel {
            config: self.config,
            is_speaking: self.is_speaking,
            silence_counter: self.silence_counter as nat,
        }
    }
}

impl VadState {
    #[verifier::type_invariant]
    spec fn inv(self) -> bool {
        self@.wf()
    }

    /// A detector outside any utterance.
    pub fn new(config: VadConfig) -> (state: Self)
        ensures
            state@ == (VadModel { config, is_speaking: false, silence_counter: 0 }),
            state@.wf(),
    {
        VadState { config, is_speaking: false, silence_counter: 0 }
    }

    /// Classifies the next batch of the session, given by its RMS energy
    /// (a binary32 bit pattern), and moves the detector on.
    pub fn process(&mut self, energy: u32) -> (status: VadStatus)
        ensures
            old(self)@.wf(),
            status == old(self)@.status_of(energy),
            final(self)@ == old(self)@.next(energy),
            final(self)@.wf(),
    {
        proof {
            use_type_invariant(&*self);
        }
        if exceeds(energy, self.config.energy_threshold) {
            self.silence_counter = 0;
            if !self.is_speaking {
                self.is_speaking = true;
                return VadStatus::SpeechStarted;
            }
            return VadStatus::Speaking;
        }
        if !self.is_speaking {
            return VadStatus::Silence;
        }
        if self.silence_counter >= self.config.silence_threshold_chunks {
            self.silence_counter = 0;
            self.is_speaking = false;
            return VadStatus::SpeechEnded;
        }
        self.silence_counter = self.silence_counter + 1;
        VadStatus::SilenceDuringSpeech
    }

    /// The configuration the session was started with.
    pub fn config(&self) -> (config: VadConfig)
        ensures
            config == self@.config,
    {
        self.config
    }

    /// Whether an utterance is in progress.
    pub fn is_speaking(&self) -> (speaking: bool)
        ensures
            speaking == self@.is_speaking,
            self@.wf(),
    {
        proof {
            use_type_invariant(self);
        }
        self.is_speaking
    }

    /// Silent batches seen since the last voiced one of the utterance.
    pub fn silence_counter(&self) -> (count: usize)
        ensures
            count == self@.silence_counter,
            self@.wf(),
    {
        proof {
            use_type_invariant(self);
        }
        self.silence_counter
    }
}

} // verus!
