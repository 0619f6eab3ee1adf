use vstd::prelude::*;

verus! {

/// The full mark, in hundredths of a point.
pub const FULL_MARK: u32 = 10000;

#[derive(Debug, Clone, PartialEq, Eq)]
#[non_exhaustive]
pub enum TryNewScoreError {
    Invalid,
}

impl TryNewScoreError {
    pub fn message(&self) -> (r: &'static str) {
        "Score should be in [0, 100]"
    }
}

/// A score between 0 and 100 points, held exactly in hundredths of a point.
#[derive(Debug, Clone, Copy, PartialEq, Eq, Structural)]
pub struct Score(u32);

impl Score {
    pub closed spec fn spec_hundredths(&self) -> nat {
        self.0 as nat
    }

    pub closed spec fn wf(&self) -> bool {
        self.0 <= FULL_MARK
    }

    pub fn try_new(hundredths: i64) -> (r: Result<Self, TryNewScoreError>)
        ensures
            0 <= hundredths <= FULL_MARK ==> (r matches Ok(s) && s.wf() && s.spec_hundredths()
                == hundredths),
            !(0 <= hundredths <= FULL_MARK) ==> r == Err::<Self, _>(TryNewScoreError::Invalid),
    {
        if 0 <= hundredths && hundredths <= FULL_MARK as i64 {
            Ok(Score(hundredths as u32))
        } else {
            Err(TryNewScoreError::Invalid)
        }
    }

    pub fn from_hundredths(hundredths: u32) -> (r: Self)
        requires
            hundredths <= FULL_MARK,
        ensures
            r.wf(),
            r.spec_hundredths() == hundredths,
    {
        Score(hundredths)
    }

    /// The score in hundredths of a point.
    pub fn inner(&self) -> (r: u32)
        ensures
            r == self.spec_hundredths(),
    {
        self.0
    }
}

} // verus!
