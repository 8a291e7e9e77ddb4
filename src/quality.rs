use vstd::prelude::*;

verus! {

/// The seven quality levels of the encoder, from the highest fidelity down
/// to the highest speed.
#[derive(Clone, Copy, Debug, PartialEq, Eq, Structural)]
pub enum VorbisQuality {
    VeryHighQuality,
    HighQuality,
    Quality,
    Midium,
    Performance,
    HighPerforamnce,
    VeryHighPerformance,
}

impl VorbisQuality {
    /// Position of the level on the fidelity scale: 0 for the fastest, 6 for
    /// the most faithful.
    pub open spec fn fidelity_rank(self) -> int {
        match self {
            VorbisQuality::VeryHighPerformance => 0,
            VorbisQuality::HighPerforamnce => 1,
            VorbisQuality::Performance => 2,
            VorbisQuality::Midium => 3,
            VorbisQuality::Quality => 4,
            VorbisQuality::HighQuality => 5,
            VorbisQuality::VeryHighQuality => 6,
        }
    }

    /// The quality target that the level asks of the native VBR setup, in
    /// tenths: the target itself lies in [-0.1, 1.0]. This is the finer of
    /// the two tables in use for these levels (medium 0.5, quality 0.7, high
    /// quality 0.9); it replaces the coarser one (medium 0.4, quality 0.6,
    /// high quality 0.8), which is deprecated and not bit-for-bit compatible.
    pub open spec fn spec_target_tenths(self) -> int {
        match self {
            VorbisQuality::VeryHighPerformance => -1,
            VorbisQuality::HighPerforamnce => 1,
            VorbisQuality::Performance => 3,
            VorbisQuality::Midium => 5,
            VorbisQuality::Quality => 7,
            VorbisQuality::HighQuality => 9,
            VorbisQuality::VeryHighQuality => 10,
        }
    }

    /// The quality target of this level, in tenths (-1 stands for -0.1 and
    /// 10 for 1.0).
    pub fn target_tenths(&self) -> (r: i8)
        ensures
            r == self.spec_target_tenths(),
    {
        match self {
            VorbisQuality::VeryHighPerformance => -1,
            VorbisQuality::HighPerforamnce => 1,
            VorbisQuality::Performance => 3,
            VorbisQuality::Midium => 5,
            VorbisQuality::Quality => 7,
            VorbisQuality::HighQuality => 9,
            VorbisQuality::VeryHighQuality => 10,
        }
    }
}

/// The quality targets rise with fidelity and stay within [-0.1, 1.0]: a
/// more faithful level never asks for a lower target.
pub proof fn lemma_quality_monotonic(a: VorbisQuality, b: VorbisQuality)
    ensures
        -1 <= a.spec_target_tenths() <= 10,
        a.fidelity_rank() < b.fidelity_rank() ==> a.spec_target_tenths()
            < b.spec_target_tenths(),
        a.fidelity_rank() == b.fidelity_rank() ==> a == b,
{
}

} // verus!
