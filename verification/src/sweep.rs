//! The arc sweep of a round joint, as a state machine.
//!
//! A round joint walks from the normal of the incoming segment towards the
//! normal of the outgoing one in fixed steps of half a degree and places a
//! sample after each step. Whether a sample has passed the target is for
//! the geometry to say; whether the walk goes on is decided here, so that
//! it ends whatever the geometry says.

use vstd::prelude::*;
use crate::joint::Direction;
use crate::mesh::Turn;

verus! {

/// The most samples one arc may hold: the steps of half a turn, and one
/// more for rounding.
pub const MAX_ARC_SAMPLES: u16 = 361;

/// Whether the sweep goes on after a sample: the sample still lies to the
/// same side of the target as the turn itself, and the arc has room.
pub open spec fn sweep_goes_on(side: Direction, sample_to_right: bool, samples: nat) -> bool {
    sample_to_right == (side is Right) && samples < MAX_ARC_SAMPLES
}

/// Number of samples on the arc once the sweep has stopped, when `samples`
/// are placed and `verdicts` holds, for the latest sample and each one
/// after it, whether the orientation test found it to the right of the
/// target. The sweep also stops where the verdicts run out.
pub open spec fn sweep_length(side: Direction, verdicts: Seq<bool>, samples: nat) -> nat
    decreases verdicts.len(),
{
    if verdicts.len() > 0 && sweep_goes_on(side, verdicts[0], samples) {
        sweep_length(side, verdicts.drop_first(), samples + 1)
    } else {
        samples
    }
}

/// The sweep of one round joint: the side of the turn and the samples
/// placed so far.
#[derive(Clone, Copy, Debug)]
pub struct ArcSweep {
    side: Direction,
    samples: u16,
}

impl ArcSweep {
    /// The side of the turn.
    pub closed spec fn side(&self) -> Direction {
        self.side
    }

    /// Number of samples placed so far.
    pub closed spec fn samples(&self) -> nat {
        self.samples as nat
    }

    /// A sweep holds at least its first sample and never more than
    /// [`MAX_ARC_SAMPLES`].
    pub open spec fn wf(&self) -> bool {
        1 <= self.samples() <= MAX_ARC_SAMPLES
    }

    /// Steps that the sweep can still take.
    pub open spec fn remaining(&self) -> nat {
        (MAX_ARC_SAMPLES - self.samples()) as nat
    }

    /// Starts the sweep. The first sample is placed whatever the angle.
    pub fn begin(side: Direction) -> (sweep: ArcSweep)
        ensures
            sweep.wf(),
            sweep.side() == side,
            sweep.samples() == 1,
    {
        ArcSweep { side, samples: 1 }
    }

    /// Takes the verdict of the orientation test on the latest sample and
    /// says whether another sample follows. Each step that goes on uses up
    /// one of the remaining steps.
    pub fn advance(&mut self, sample_to_right: bool) -> (goes_on: bool)
        requires
            old(self).wf(),
        ensures
            final(self).wf(),
            final(self).side() == old(self).side(),
            goes_on == sweep_goes_on(old(self).side(), sample_to_right, old(self).samples()),
            goes_on ==> final(self).samples() == old(self).samples() + 1,
            goes_on ==> final(self).remaining() < old(self).remaining(),
            !goes_on ==> final(self).samples() == old(self).samples(),
    {
        if sample_to_right == self.side.is_right() && self.samples < MAX_ARC_SAMPLES {
            self.samples = self.samples + 1;
            true
        } else {
            false
        }
    }

    /// Number of samples placed so far.
    pub fn taken(&self) -> (samples: u16)
        ensures
            samples == self.samples(),
    {
        self.samples
    }

    /// What the joint is told of this sweep: the side, and the steps taken
    /// after the first sample.
    pub fn turn(&self) -> (turn: Turn)
        requires
            self.wf(),
        ensures
            turn.side == self.side(),
            turn.sweep == self.samples() - 1,
    {
        Turn { side: self.side, sweep: self.samples - 1 }
    }
}

/// Whatever the orientation test says of each sample, the sweep stops with
/// at least one sample and at most [`MAX_ARC_SAMPLES`].
pub proof fn sweep_is_bounded(side: Direction, verdicts: Seq<bool>, samples: nat)
    requires
        1 <= samples <= MAX_ARC_SAMPLES,
    ensures
        samples <= sweep_length(side, verdicts, samples) <= MAX_ARC_SAMPLES,
        sweep_length(side, verdicts, samples) <= samples + verdicts.len(),
    decreases verdicts.len(),
{
    if verdicts.len() > 0 && sweep_goes_on(side, verdicts[0], samples) {
        sweep_is_bounded(side, verdicts.drop_first(), samples + 1);
    }
}

} // verus!
