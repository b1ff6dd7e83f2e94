//! What holds of the detector over whole runs of batches.

use vstd::prelude::*;
use crate::vad::{VadModel, VadStatus};

verus! {

/// Feeding one more batch is one more step.
pub proof fn lemma_after_take(s: VadModel, energies: Seq<u32>, i: int)
    requires
        0 <= i < energies.len(),
    ensures
        s.after(energies.take(i + 1)) == s.after(energies.take(i)).next(energies[i]),
        s.after(energies.take(0)) == s,
        s.after(energies.take(energies.len() as int)) == s.after(energies),
{
    assert(energies.take(i + 1).drop_last() =~= energies.take(i));
    assert(energies.take(energies.len() as int) =~= energies);
}

/// A step keeps the state well formed and the configuration fixed.
pub proof fn lemma_next_wf(s: VadModel, energy: u32)
    requires
        s.wf(),
    ensures
        s.next(energy).wf(),
        s.next(energy).config == s.config,
{
}

/// A run keeps the state well formed and the configuration fixed.
pub proof fn lemma_after_wf(s: VadModel, energies: Seq<u32>)
    requires
        s.wf(),
    ensures
        s.after(energies).wf(),
        s.after(energies).config == s.config,
    decreases energies.len(),
{
    if energies.len() > 0 {
        lemma_after_wf(s, energies.drop_last());
        lemma_next_wf(s.after(energies.drop_last()), energies.last());
    }
}

/// Outside an utterance, batches at or under the threshold change nothing:
/// each is classified `Silence` and the state stays as it was.
pub proof fn lemma_idle_stays_idle(s: VadModel, energies: Seq<u32>)
    requires
        s.wf(),
        !s.is_speaking,
        forall|i: int| 0 <= i < energies.len() ==> !s.voiced(#[trigger] energies[i]),
    ensures
        s.after(energies) == s,
        forall|i: int|
            0 <= i < energies.len() ==> {
                &&& s.after(energies.take(i)) == s
                &&& #[trigger] s.statuses(energies)[i] == VadStatus::Silence
            },
    decreases energies.len(),
{
    if energies.len() > 0 {
        let front = energies.drop_last();
        lemma_idle_stays_idle(s, front);
        assert forall|i: int| 0 <= i < energies.len() implies {
            &&& s.after(energies.take(i)) == s
            &&& #[trigger] s.statuses(energies)[i] == VadStatus::Silence
        } by {
            if i < front.len() {
                assert(energies.take(i) =~= front.take(i));
                assert(s.statuses(front)[i] == VadStatus::Silence);
            } else {
                assert(energies.take(i) =~= front);
            }
            assert(!s.voiced(energies[i]));
        }
    }
}

/// `SpeechStarted` marks exactly the batches on which a session passes from
/// not speaking to speaking: the voiced batches that arrive outside an
/// utterance, however far above the threshold they are.
pub proof fn lemma_start_marks_onset(s: VadModel, energies: Seq<u32>, i: int)
    requires
        s.wf(),
        0 <= i < energies.len(),
    ensures
        s.statuses(energies)[i] == VadStatus::SpeechStarted <==> {
            &&& !s.after(energies.take(i)).is_speaking
            &&& s.after(energies.take(i + 1)).is_speaking
        },
        s.statuses(energies)[i] == VadStatus::SpeechStarted <==> {
            &&& !s.after(energies.take(i)).is_speaking
            &&& s.voiced(energies[i])
        },
{
    lemma_after_take(s, energies, i);
    lemma_after_wf(s, energies.take(i));
}

/// Inside an utterance a stretch of silent batches only counts up: after
/// `n` of them, starting behind the first `start` batches of the run, the
/// session still speaks and its counter has grown by `n`, as long as the
/// limit is not passed.
pub proof fn lemma_silent_stretch(s: VadModel, energies: Seq<u32>, start: int, n: int)
    requires
        s.wf(),
        0 <= start,
        0 <= n,
        start + n <= energies.len(),
        s.after(energies.take(start)).is_speaking,
        forall|i: int| start <= i < start + n ==> !s.voiced(#[trigger] energies[i]),
        s.after(energies.take(start)).silence_counter + n <= s.config.silence_threshold_chunks,
    ensures
        s.after(energies.take(start + n)) == (VadModel {
            config: s.config,
            is_speaking: true,
            silence_counter: (s.after(energies.take(start)).silence_counter + n) as nat,
        }),
        n > 0 ==> s.statuses(energies)[start + n - 1] == VadStatus::SilenceDuringSpeech,
    decreases n,
{
    lemma_after_wf(s, energies.take(start));
    if n > 0 {
        lemma_silent_stretch(s, energies, start, n - 1);
        lemma_after_take(s, energies, start + n - 1);
    }
}

/// A speaking session whose counter stands at `k` answers the next `N - k`
/// silent batches with `SilenceDuringSpeech` and goes on speaking, where
/// `N` is the configured limit; the silent batch after those is answered
/// with `SpeechEnded` and leaves the session not speaking with its counter
/// at 0. Right after a voiced batch `k` is 0: `N` silent batches are
/// tolerated and batch `N + 1` ends the utterance.
pub proof fn lemma_sustained_silence_ends_speech(s: VadModel, energies: Seq<u32>)
    requires
        s.wf(),
        s.is_speaking,
        energies.len() == s.config.silence_threshold_chunks - s.silence_counter + 1,
        forall|i: int| 0 <= i < energies.len() ==> !s.voiced(#[trigger] energies[i]),
    ensures
        forall|i: int|
            0 <= i < energies.len() - 1 ==> {
                &&& #[trigger] s.statuses(energies)[i] == VadStatus::SilenceDuringSpeech
                &&& s.after(energies.take(i + 1)).is_speaking
            },
        s.statuses(energies)[energies.len() - 1] == VadStatus::SpeechEnded,
        s.after(energies) == (VadModel {
            config: s.config,
            is_speaking: false,
            silence_counter: 0,
        }),
{
    let last = energies.len() - 1;
    lemma_after_take(s, energies, 0);
    assert forall|i: int| 0 <= i < last implies {
        &&& #[trigger] s.statuses(energies)[i] == VadStatus::SilenceDuringSpeech
        &&& s.after(energies.take(i + 1)).is_speaking
    } by {
        lemma_silent_stretch(s, energies, 0, i + 1);
    }
    lemma_silent_stretch(s, energies, 0, last);
    lemma_after_take(s, energies, last);
}

/// A voiced batch sets the counter back to 0 and never ends an utterance,
/// and the silent batches that follow it are counted from 0 again: up to
/// the configured limit of them, each is answered with
/// `SilenceDuringSpeech`, whatever stretch of silence came before.
pub proof fn lemma_voiced_batch_restarts_count(s: VadModel, energies: Seq<u32>, at: int, n: int)
    requires
        s.wf(),
        0 <= at < energies.len(),
        s.voiced(energies[at]),
        0 <= n <= s.config.silence_threshold_chunks,
        at + 1 + n <= energies.len(),
        forall|i: int| at < i <= at + n ==> !s.voiced(#[trigger] energies[i]),
    ensures
        s.statuses(energies)[at] == VadStatus::SpeechStarted || s.statuses(energies)[at]
            == VadStatus::Speaking,
        s.after(energies.take(at + 1)).is_speaking,
        s.after(energies.take(at + 1)).silence_counter == 0,
        forall|i: int|
            at < i <= at + n ==> {
                &&& #[trigger] s.statuses(energies)[i] == VadStatus::SilenceDuringSpeech
                &&& s.after(energies.take(i + 1)).is_speaking
            },
{
    lemma_after_take(s, energies, at);
    lemma_after_wf(s, energies.take(at));
    assert forall|i: int| at < i <= at + n implies {
        &&& #[trigger] s.statuses(energies)[i] == VadStatus::SilenceDuringSpeech
        &&& s.after(energies.take(i + 1)).is_speaking
    } by {
        lemma_silent_stretch(s, energies, at + 1, i - at);
    }
}

/// The batches of a schedule that go to one of two sessions, in order. An
/// entry of a schedule names the session (`true` for the first) and the
/// energy of the batch.
pub open spec fn own_batches(schedule: Seq<(bool, u32)>, first: bool) -> Seq<u32>
    decreases schedule.len(),
{
    if schedule.len() == 0 {
        Seq::empty()
    } else if schedule.last().0 == first {
        own_batches(schedule.drop_last(), first).push(schedule.last().1)
    } else {
        own_batches(schedule.drop_last(), first)
    }
}

/// The states of two sessions after a schedule that interleaves their batches.
pub open spec fn after_interleaved(a: VadModel, b: VadModel, schedule: Seq<(bool, u32)>) -> (
    VadModel,
    VadModel,
)
    decreases schedule.len(),
{
    if schedule.len() == 0 {
        (a, b)
    } else {
        let before = after_interleaved(a, b, schedule.drop_last());
        if schedule.last().0 {
            (before.0.next(schedule.last().1), before.1)
        } else {
            (before.0, before.1.next(schedule.last().1))
        }
    }
}

/// Sessions are isolated: however the batches of two sessions interleave,
/// each session ends in the state its own batches alone lead to.
pub proof fn lemma_sessions_are_isolated(a: VadModel, b: VadModel, schedule: Seq<(bool, u32)>)
    ensures
        after_interleaved(a, b, schedule).0 == a.after(own_batches(schedule, true)),
        after_interleaved(a, b, schedule).1 == b.after(own_batches(schedule, false)),
    decreases schedule.len(),
{
    if schedule.len() > 0 {
        let front = schedule.drop_last();
        lemma_sessions_are_isolated(a, b, front);
        let energy = schedule.last().1;
        assert(own_batches(front, true).push(energy).drop_last() =~= own_batches(front, true));
        assert(own_batches(front, false).push(energy).drop_last() =~= own_batches(front, false));
    }
}

} // verus!
