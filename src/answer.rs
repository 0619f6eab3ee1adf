use vstd::prelude::*;

verus! {

/// Marks where an answer comes from: the answer key of a question, or a
/// user's submission.
pub trait AnswerSourceMarker: Copy {}

#[derive(Debug, Clone, Copy, PartialEq, Eq)]
pub enum AnswerSource {
    Standard(StandardSource),
    Submission(SubmissionSource),
}

/// The answer key of a question.
#[derive(Debug, Clone, Copy, PartialEq, Eq, Default)]
pub struct StandardSource;

impl AnswerSourceMarker for StandardSource {}

/// An answer that a user submitted.
#[derive(Debug, Clone, Copy, PartialEq, Eq, Default)]
pub struct SubmissionSource;

impl AnswerSourceMarker for SubmissionSource {}

#[derive(Debug, Clone, PartialEq, Eq)]
pub enum TryNewAnswerError {
    OptionDuplicated,
    OptionEmpty,
    ContentEmpty,
}

impl TryNewAnswerError {
    pub fn message(&self) -> (r: &'static str) {
        match self {
            TryNewAnswerError::OptionDuplicated => "Multiple selection have duplicated options",
            TryNewAnswerError::OptionEmpty => "Multiple selection must have at least one correct option",
            TryNewAnswerError::ContentEmpty => "Completion must have non-empty content as answer",
        }
    }
}

pub open spec fn has_duplicate(s: Seq<u32>) -> bool {
    exists|i: int, j: int| 0 <= i < j < s.len() && s[i] == s[j]
}

pub open spec fn strictly_increasing(s: Seq<u32>) -> bool {
    forall|i: int, j: int| 0 <= i < j < s.len() ==> s[i] < s[j]
}

/// Both sequences hold the same values.
pub open spec fn same_values(a: Seq<u32>, b: Seq<u32>) -> bool {
    forall|x: u32| a.contains(x) <==> b.contains(x)
}

/// Sorts the options in increasing order, or returns `None` if one of them
/// occurs twice.
fn sorted_unique(value: Vec<u32>) -> (r: Option<Vec<u32>>)
    ensures
        r is None <==> has_duplicate(value@),
        r matches Some(s) ==> strictly_increasing(s@) && same_values(s@, value@),
{
    let mut out: Vec<u32> = Vec::new();
    let n = value.len();
    let mut i: usize = 0;
    while i < n
        invariant
            n == value.len(),
            0 <= i <= n,
            strictly_increasing(out@),
            same_values(out@, value@.subrange(0, i as int)),
            !has_duplicate(value@.subrange(0, i as int)),
        decreases n - i,
    {
        let x = value[i];
        let mut k: usize = 0;
        while k < out.len() && out[k] < x
            invariant
                0 <= k <= out.len(),
                forall|m: int| 0 <= m < k ==> out@[m] < x,
            decreases out.len() - k,
        {
            k = k + 1;
        }
        if k < out.len() && out[k] == x {
            proof {
                assert(out@.contains(x));
                assert(value@.subrange(0, i as int).contains(x));
                let j = choose|j: int| 0 <= j < i && value@.subrange(0, i as int)[j] == x;
                assert(value@[j] == value@[i as int]);
            }
            return None;
        }
        proof {
            assert forall|m: int| k <= m < out@.len() implies out@[m] > x by {
                if m > k {
                    assert(out@[k as int] < out@[m]);
                }
            }
            assert(!value@.subrange(0, i as int).contains(x)) by {
                if value@.subrange(0, i as int).contains(x) {
                    assert(out@.contains(x));
                    let m = choose|m: int| 0 <= m < out@.len() && out@[m] == x;
                    if m < k {
                        assert(out@[m] < x);
                    } else {
                        assert(out@[m] > x);
                    }
                }
            }
        }
        let ghost old_out = out@;
        out.insert(k, x);
        proof {
            let pre = value@.subrange(0, i as int);
            let post = value@.subrange(0, i as int + 1);
            assert(post == pre.push(x));
            assert forall|y: u32| out@.contains(y) <==> post.contains(y) by {
                if out@.contains(y) {
                    let m = choose|m: int| 0 <= m < out@.len() && out@[m] == y;
                    if m < k {
                        assert(old_out[m] == y);
                        assert(pre.contains(y));
                    } else if m > k {
                        assert(old_out[m - 1] == y);
                        assert(pre.contains(y));
                    }
                    assert(post.contains(y)) by {
                        if y != x {
                            let q = choose|q: int| 0 <= q < pre.len() && pre[q] == y;
                            assert(post[q] == y);
                        } else {
                            assert(post[i as int] == y);
                        }
                    }
                }
                if post.contains(y) {
                    let q = choose|q: int| 0 <= q < post.len() && post[q] == y;
                    if q < i {
                        assert(pre[q] == y);
                        assert(old_out.contains(y));
                        let m = choose|m: int| 0 <= m < old_out.len() && old_out[m] == y;
                        if m < k {
                            assert(out@[m] == y);
                        } else {
                            assert(out@[m + 1] == y);
                        }
                    } else {
                        assert(out@[k as int] == y);
                    }
                }
            }
            assert forall|a: int, b: int| 0 <= a < b < post.len() implies post[a] != post[b] by {
                if b < i {
                    assert(pre[a] == post[a] && pre[b] == post[b]);
                } else {
                    assert(pre[a] == post[a]);
                    assert(pre.contains(post[a]));
                }
            }
        }
        i = i + 1;
    }
    proof {
        assert(value@.subrange(0, n as int) == value@);
    }
    Some(out)
}

/// Both option lists hold the same values in the same order.
fn same_options(a: &Vec<u32>, b: &Vec<u32>) -> (r: bool)
    ensures
        r == (a@ == b@),
{
    if a.len() != b.len() {
        return false;
    }
    let mut i: usize = 0;
    while i < a.len()
        invariant
            a.len() == b.len(),
            0 <= i <= a.len(),
            forall|m: int| 0 <= m < i ==> a@[m] == b@[m],
        decreases a.len() - i,
    {
        if a[i] != b[i] {
            return false;
        }
        i = i + 1;
    }
    proof {
        assert(a@ =~= b@);
    }
    true
}

/// A single-selection answer: the index of the chosen option.
#[derive(Debug, Clone, PartialEq, Eq)]
pub struct SingleSelectionAnswer<Src: AnswerSourceMarker> {
    value: u32,
    source: Src,
}

impl<Src: AnswerSourceMarker> SingleSelectionAnswer<Src> {
    pub closed spec fn value(&self) -> u32 {
        self.value
    }
}

impl SingleSelectionAnswer<StandardSource> {
    pub fn try_new(value: u32) -> (r: Result<Self, TryNewAnswerError>)
        ensures
            r matches Ok(a) && a.value() == value,
    {
        Ok(SingleSelectionAnswer { value, source: StandardSource })
    }

    pub fn source(&self) -> (r: AnswerSource)
        ensures
            r == AnswerSource::Standard(StandardSource),
    {
        AnswerSource::Standard(self.source)
    }

    pub fn check(&self, submission: &Answer<SubmissionSource>) -> (r: bool)
        ensures
            r == answer_matches(Answer::SingleSelection(*self), *submission),
    {
        match submission {
            Answer::SingleSelection(s) => self.value == s.value,
            _ => false,
        }
    }
}

impl SingleSelectionAnswer<SubmissionSource> {
    pub fn try_new(value: u32) -> (r: Result<Self, TryNewAnswerError>)
        ensures
            r matches Ok(a) && a.value() == value,
    {
        Ok(SingleSelectionAnswer { value, source: SubmissionSource })
    }

    pub fn source(&self) -> (r: AnswerSource)
        ensures
            r == AnswerSource::Submission(SubmissionSource),
    {
        AnswerSource::Submission(self.source)
    }
}

/// A multiple-selection answer: the indices of the chosen options, kept in
/// strictly increasing order.
#[derive(Debug, Clone, PartialEq, Eq)]
pub struct MultipleSelectionAnswer<Src: AnswerSourceMarker> {
    value: Vec<u32>,
    source: Src,
}

impl<Src: AnswerSourceMarker> MultipleSelectionAnswer<Src> {
    pub closed spec fn options(&self) -> Seq<u32> {
        self.value@
    }
}

impl MultipleSelectionAnswer<StandardSource> {
    /// The answer key needs at least one option, and no option twice.
    pub fn try_new(value: Vec<u32>) -> (r: Result<Self, TryNewAnswerError>)
        ensures
            r is Ok <==> value@.len() > 0 && !has_duplicate(value@),
            value@.len() == 0 <==> r == Err::<Self, _>(TryNewAnswerError::OptionEmpty),
            (value@.len() > 0 && has_duplicate(value@)) <==> r == Err::<Self, _>(
                TryNewAnswerError::OptionDuplicated,
            ),
            r matches Ok(a) ==> strictly_increasing(a.options()) && same_values(
                a.options(),
                value@,
            ),
    {
        if value.len() == 0 {
            return Err(TryNewAnswerError::OptionEmpty);
        }
        match sorted_unique(value) {
            Some(v) => Ok(MultipleSelectionAnswer { value: v, source: StandardSource }),
            None => Err(TryNewAnswerError::OptionDuplicated),
        }
    }

    pub fn source(&self) -> (r: AnswerSource)
        ensures
            r == AnswerSource::Standard(StandardSource),
    {
        AnswerSource::Standard(self.source)
    }

    pub fn check(&self, submission: &Answer<SubmissionSource>) -> (r: bool)
        ensures
            r == answer_matches(Answer::MultipleSelection(*self), *submission),
    {
        match submission {
            Answer::MultipleSelection(s) => same_options(&self.value, &s.value),
            _ => false,
        }
    }
}

impl MultipleSelectionAnswer<SubmissionSource> {
    /// A submission may choose no option, but none twice.
    pub fn try_new(value: Vec<u32>) -> (r: Result<Self, TryNewAnswerError>)
        ensures
            r is Ok <==> !has_duplicate(value@),
            has_duplicate(value@) <==> r == Err::<Self, _>(TryNewAnswerError::OptionDuplicated),
            r matches Ok(a) ==> strictly_increasing(a.options()) && same_values(
                a.options(),
                value@,
            ),
    {
        match sorted_unique(value) {
            Some(v) => Ok(MultipleSelectionAnswer { value: v, source: SubmissionSource }),
            None => Err(TryNewAnswerError::OptionDuplicated),
        }
    }

    pub fn source(&self) -> (r: AnswerSource)
        ensures
            r == AnswerSource::Submission(SubmissionSource),
    {
        AnswerSource::Submission(self.source)
    }
}

/// A completion answer: free text, matched exactly.
#[derive(Debug, Clone, PartialEq, Eq)]
pub struct CompletionAnswer<Src: AnswerSourceMarker> {
    value: String,
    source: Src,
}

impl<Src: AnswerSourceMarker> CompletionAnswer<Src> {
    pub closed spec fn text(&self) -> Seq<char> {
        self.value@
    }
}

impl CompletionAnswer<StandardSource> {
    /// The answer key must not be empty.
    pub fn try_new(value: &str) -> (r: Result<Self, TryNewAnswerError>)
        ensures
            r is Ok <==> value@.len() != 0,
            value@.len() == 0 <==> r == Err::<Self, _>(TryNewAnswerError::ContentEmpty),
            r matches Ok(a) ==> a.text() == value@,
    {
        if value.is_empty() {
            return Err(TryNewAnswerError::ContentEmpty);
        }
        Ok(CompletionAnswer { value: String::from_str(value), source: StandardSource })
    }

    pub fn source(&self) -> (r: AnswerSource)
        ensures
            r == AnswerSource::Standard(StandardSource),
    {
        AnswerSource::Standard(self.source)
    }

    pub fn check(&self, submission: &Answer<SubmissionSource>) -> (r: bool)
        ensures
            r == answer_matches(Answer::Completion(*self), *submission),
    {
        match submission {
            Answer::Completion(s) => self.value == s.value,
            _ => false,
        }
    }
}

impl CompletionAnswer<SubmissionSource> {
    pub fn try_new(value: &str) -> (r: Result<Self, TryNewAnswerError>)
        ensures
            r matches Ok(a) && a.text() == value@,
    {
        Ok(CompletionAnswer { value: String::from_str(value), source: SubmissionSource })
    }

    pub fn source(&self) -> (r: AnswerSource)
        ensures
            r == AnswerSource::Submission(SubmissionSource),
    {
        AnswerSource::Submission(self.source)
    }
}

#[derive(Debug, Clone, PartialEq, Eq)]
pub enum Answer<Src: AnswerSourceMarker> {
    SingleSelection(SingleSelectionAnswer<Src>),
    MultipleSelection(MultipleSelectionAnswer<Src>),
    Completion(CompletionAnswer<Src>),
}

/// A submitted answer is correct when it is of the same kind as the answer
/// key and holds the same value.
pub open spec fn answer_matches(key: Answer<StandardSource>, sub: Answer<SubmissionSource>) -> bool {
    match (key, sub) {
        (Answer::SingleSelection(k), Answer::SingleSelection(s)) => k.value() == s.value(),
        (Answer::MultipleSelection(k), Answer::MultipleSelection(s)) => k.options() == s.options(),
        (Answer::Completion(k), Answer::Completion(s)) => k.text() == s.text(),
        _ => false,
    }
}

impl Answer<StandardSource> {
    pub fn source(&self) -> (r: AnswerSource)
        ensures
            r == AnswerSource::Standard(StandardSource),
    {
        match self {
            Answer::SingleSelection(s) => s.source(),
            Answer::MultipleSelection(s) => s.source(),
            Answer::Completion(s) => s.source(),
        }
    }

    pub fn check(&self, submission: &Answer<SubmissionSource>) -> (r: bool)
        ensures
            r == answer_matches(*self, *submission),
    {
        match self {
            Answer::SingleSelection(s) => s.check(submission),
            Answer::MultipleSelection(s) => s.check(submission),
            Answer::Completion(s) => s.check(submission),
        }
    }
}

impl Answer<SubmissionSource> {
    pub fn source(&self) -> (r: AnswerSource)
        ensures
            r == AnswerSource::Submission(SubmissionSource),
    {
        match self {
            Answer::SingleSelection(s) => s.source(),
            Answer::MultipleSelection(s) => s.source(),
            Answer::Completion(s) => s.source(),
        }
    }
}

} // verus!
