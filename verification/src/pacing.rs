use vstd::prelude::*;

verus! {

/// How the visualizers are paced: live on the screen, or rendering a video
/// frame by frame from a sound file.
#[derive(PartialEq, Eq, Structural, Debug, Clone, Copy)]
pub enum Pace {
    Live,
    Rendering { frame: usize },
}

/// What the loop does after a frame.
#[derive(PartialEq, Eq, Structural, Debug, Clone, Copy)]
pub enum Tick {
    /// Give the processor back for a moment (live mode).
    Yield,
    /// The sound file is exhausted: rendering is done.
    Finish,
    /// Analyse the next piece of sound, then continue with the next frame.
    Advance,
}

/// The pace after one tick.
pub open spec fn pace_after(p: Pace, played: bool) -> Pace {
    match p {
        Pace::Live => Pace::Live,
        Pace::Rendering { frame } => if played { Pace::Rendering { frame: (frame + 1) as usize } } else { p },
    }
}

/// What one tick tells the loop to do.
pub open spec fn tick_of(p: Pace, played: bool) -> Tick {
    match p {
        Pace::Live => Tick::Yield,
        Pace::Rendering { .. } => if played { Tick::Advance } else { Tick::Finish },
    }
}

/// The pace after a run of ticks with the given playback outcomes.
pub open spec fn pace_after_all(p: Pace, outcomes: Seq<bool>) -> Pace
    decreases outcomes.len(),
{
    if outcomes.len() == 0 {
        p
    } else {
        pace_after(pace_after_all(p, outcomes.drop_last()), outcomes.last())
    }
}

impl Pace {
    /// Whether the caller has to play back the sound of the next frame
    /// before calling `tick`.
    pub fn needs_playback(&self) -> (b: bool)
        ensures
            b == (*self is Rendering),
    {
        match self {
            Pace::Live => false,
            Pace::Rendering { .. } => true,
        }
    }

    /// One step of the frame loop. `played` is whether the sound of the next
    /// frame could be played back; it only matters while rendering.
    pub fn tick(&mut self, played: bool) -> (t: Tick)
        requires
            played ==> (*old(self) matches Pace::Rendering { frame } ==> frame < usize::MAX),
        ensures
            *final(self) == pace_after(*old(self), played),
            t == tick_of(*old(self), played),
    {
        match self {
            Pace::Live => Tick::Yield,
            Pace::Rendering { frame } => {
                if played {
                    *frame = *frame + 1;
                    Tick::Advance
                } else {
                    Tick::Finish
                }
            },
        }
    }
}

/// Rendering numbers the frames consecutively: `n` frames that are all
/// played back move the counter on by exactly `n`; live mode never changes.
pub proof fn lemma_frames_consecutive(p: Pace, outcomes: Seq<bool>)
    requires
        p matches Pace::Rendering { frame } ==> frame + outcomes.len() <= usize::MAX,
        forall|i: int| 0 <= i < outcomes.len() ==> #[trigger] outcomes[i],
    ensures
        p == Pace::Live ==> pace_after_all(p, outcomes) == Pace::Live,
        p matches Pace::Rendering { frame } ==> pace_after_all(p, outcomes) == (Pace::Rendering { frame: (frame + outcomes.len()) as usize }),
    decreases outcomes.len(),
{
    if outcomes.len() > 0 {
        let rest = outcomes.drop_last();
        assert forall|i: int| 0 <= i < rest.len() implies #[trigger] rest[i] by {
            assert(rest[i] == outcomes[i]);
        }
        lemma_frames_consecutive(p, rest);
        assert(outcomes.last() == outcomes[outcomes.len() - 1]);
    }
}

} // verus!
