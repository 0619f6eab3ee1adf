use vstd::prelude::*;

use crate::answer::{
    has_duplicate, same_values, CompletionAnswer, MultipleSelectionAnswer, SingleSelectionAnswer,
    StandardSource,
};
use crate::id::Id;
use crate::question::{
    selection_error, CompletionQuestion, MultipleSelectionQuestion, Question,
    SingleSelectionQuestion,
};
use crate::repository::{QuestionRepositoryError, Record, ScoreRepositoryError};
use crate::user::User;

verus! {

/// The stored kind of a single-selection question.
pub const SINGLE_SELECTION_KIND: i32 = 0;

/// The stored kind of a multiple-selection question.
pub const MULTIPLE_SELECTION_KIND: i32 = 1;

/// The stored kind of a completion question.
pub const COMPLETION_KIND: i32 = 2;

pub open spec fn is_digit(c: char) -> bool {
    '0' <= c && c <= '9'
}

pub open spec fn digit_value(c: char) -> nat {
    (c as u32 - '0' as u32) as nat
}

pub open spec fn digit_char(d: nat) -> char {
    ((d + 48) as u8) as char
}

/// The decimal digits of `n`, most significant first, without leading
/// zeros.
pub open spec fn decimal_digits(n: nat) -> Seq<char>
    decreases n,
{
    if n < 10 {
        seq![digit_char(n)]
    } else {
        decimal_digits(n / 10).push(digit_char(n % 10))
    }
}

/// The number a sequence of decimal digits stands for.
pub open spec fn decimal_value(s: Seq<char>) -> nat
    decreases s.len(),
{
    if s.len() == 0 {
        0
    } else {
        decimal_value(s.drop_last()) * 10 + digit_value(s.last())
    }
}

/// The option indices a stored multiple-selection answer names.
pub open spec fn digit_values(s: Seq<char>) -> Seq<u32> {
    s.map_values(|c: char| digit_value(c) as u32)
}

pub open spec fn all_digits(s: Seq<char>) -> bool {
    forall|i: int| 0 <= i < s.len() ==> is_digit(#[trigger] s[i])
}

/// Relies on std's `String::push`: the character is appended.
#[verifier::external_body]
fn push_char(s: &mut String, c: char)
    ensures
        final(s)@ == old(s)@.push(c),
{
    s.push(c)
}

fn write_decimal(s: &mut String, n: u32)
    ensures
        final(s)@ == old(s)@ + decimal_digits(n as nat),
    decreases n,
{
    if n >= 10 {
        write_decimal(s, n / 10);
    }
    let d = (n % 10) as u8;
    push_char(s, (48u8 + d) as char);
    proof {
        assert(old(s)@ + decimal_digits(n as nat) =~= (old(s)@ + if n >= 10 {
            decimal_digits((n / 10) as nat)
        } else {
            Seq::empty()
        }).push(digit_char((n % 10) as nat)));
    }
}

proof fn lemma_decimal_prefix(s: Seq<char>, i: int)
    requires
        0 <= i <= s.len(),
        all_digits(s),
    ensures
        decimal_value(s.subrange(0, i)) <= decimal_value(s),
    decreases s.len() - i,
{
    if i < s.len() {
        lemma_decimal_prefix(s, i + 1);
        let p = s.subrange(0, i + 1);
        assert(p.drop_last() == s.subrange(0, i));
    } else {
        assert(s.subrange(0, i) == s);
    }
}

/// The number written in decimal digits in `s`; `None` if `s` is empty,
/// holds another character, or names a number beyond `u32`.
pub fn parse_decimal(s: &str) -> (r: Option<u32>)
    ensures
        r matches Some(v) ==> s@.len() > 0 && all_digits(s@) && v == decimal_value(s@),
        s@.len() > 0 && all_digits(s@) && decimal_value(s@) <= u32::MAX ==> r is Some,
{
    let n = s.unicode_len();
    if n == 0 {
        return None;
    }
    let mut value: u32 = 0;
    let mut i: usize = 0;
    while i < n
        invariant
            n == s@.len(),
            0 <= i <= n,
            all_digits(s@.subrange(0, i as int)),
            value == decimal_value(s@.subrange(0, i as int)),
        decreases n - i,
    {
        let c = s.get_char(i);
        proof {
            let p = s@.subrange(0, i as int + 1);
            assert(p.drop_last() == s@.subrange(0, i as int));
        }
        if !('0' <= c && c <= '9') {
            return None;
        }
        let d = (c as u32) - ('0' as u32);
        if value > (u32::MAX - d) / 10 {
            proof {
                if all_digits(s@) {
                    lemma_decimal_prefix(s@, i as int + 1);
                }
            }
            return None;
        }
        value = value * 10 + d;
        i = i + 1;
    }
    proof {
        assert(s@.subrange(0, n as int) == s@);
    }
    Some(value)
}

/// The options of a stored selection question, all four present.
fn four_options(row: &QuestionRow) -> (r: Option<Vec<String>>)
    ensures
        r matches Some(v) ==> v@ == seq![
            row.option0->0,
            row.option1->0,
            row.option2->0,
            row.option3->0,
        ],
        r is None <==> (row.option0 is None || row.option1 is None || row.option2 is None
            || row.option3 is None),
{
    match (&row.option0, &row.option1, &row.option2, &row.option3) {
        (Some(a), Some(b), Some(c), Some(d)) => {
            let mut v: Vec<String> = Vec::new();
            v.push(a.clone());
            v.push(b.clone());
            v.push(c.clone());
            v.push(d.clone());
            proof {
                assert(v@ =~= seq![*a, *b, *c, *d]);
            }
            Some(v)
        },
        _ => None,
    }
}

/// The options of a multiple-selection answer as stored: one digit each.
fn digits_of(s: &str) -> (r: Option<Vec<u32>>)
    ensures
        r matches Some(v) ==> all_digits(s@) && v@ == digit_values(s@),
        all_digits(s@) ==> r is Some,
{
    let n = s.unicode_len();
    let mut out: Vec<u32> = Vec::new();
    let mut i: usize = 0;
    while i < n
        invariant
            n == s@.len(),
            0 <= i <= n,
            out@.len() == i,
            forall|m: int| 0 <= m < i ==> is_digit(#[trigger] s@[m]),
            forall|m: int| 0 <= m < i ==> out@[m] == digit_value(#[trigger] s@[m]),
        decreases n - i,
    {
        let c = s.get_char(i);
        if !('0' <= c && c <= '9') {
            return None;
        }
        out.push((c as u32) - ('0' as u32));
        i = i + 1;
    }
    proof {
        assert(out@ =~= digit_values(s@));
    }
    Some(out)
}

/// A stored question, as the questions table holds it.
#[derive(Debug, Clone, PartialEq, Eq)]
pub struct QuestionRow {
    pub id: i32,
    pub kind: i32,
    pub content: String,
    pub option0: Option<String>,
    pub option1: Option<String>,
    pub option2: Option<String>,
    pub option3: Option<String>,
    pub answer: String,
}

impl QuestionRow {
    /// The question the row stores; `None` for a row that no insertion of
    /// this library writes (an unknown kind, a missing option, an answer
    /// that does not parse, or content that fails validation).
    pub fn into_question(&self) -> (r: Option<Question>)
        ensures
            self.kind != SINGLE_SELECTION_KIND && self.kind != MULTIPLE_SELECTION_KIND
                && self.kind != COMPLETION_KIND ==> r is None,
            r matches Some(q) ==> q.spec_id() == Id(self.id as usize),
            r matches Some(q) ==> (q is SingleSelection <==> self.kind == SINGLE_SELECTION_KIND),
            r matches Some(q) ==> (q is MultipleSelection <==> self.kind
                == MULTIPLE_SELECTION_KIND),
            r matches Some(q) ==> (q is Completion <==> self.kind == COMPLETION_KIND),
            r matches Some(Question::SingleSelection(q)) ==> q.spec_content() == self.content@
                && decimal_value(self.answer@) == q.key().value(),
            r matches Some(Question::MultipleSelection(q)) ==> q.spec_content() == self.content@
                && same_values(q.key().options(), digit_values(self.answer@)),
            r matches Some(Question::Completion(q)) ==> q.spec_content() == self.content@
                && q.key().text() == self.answer@,
            self.kind == COMPLETION_KIND && self.content@.len() > 0 && self.answer@.len() > 0
                ==> r is Some,
            self.kind == MULTIPLE_SELECTION_KIND && self.option0 is Some && self.option1 is Some
                && self.option2 is Some && self.option3 is Some && self.answer@.len() > 0
                && all_digits(self.answer@) && !has_duplicate(digit_values(self.answer@))
                && selection_error(
                self.content@,
                seq![self.option0->0, self.option1->0, self.option2->0, self.option3->0],
            ) is None ==> r is Some,
            self.kind == SINGLE_SELECTION_KIND && self.option0 is Some && self.option1 is Some
                && self.option2 is Some && self.option3 is Some && self.answer@.len() > 0
                && all_digits(self.answer@) && decimal_value(self.answer@) <= u32::MAX
                && selection_error(
                self.content@,
                seq![self.option0->0, self.option1->0, self.option2->0, self.option3->0],
            ) is None ==> r is Some,
    {
        let id = Id(self.id as usize);
        if self.kind == SINGLE_SELECTION_KIND {
            let options = match four_options(self) {
                Some(o) => o,
                None => return None,
            };
            let value = match parse_decimal(self.answer.as_str()) {
                Some(v) => v,
                None => return None,
            };
            let answer = match SingleSelectionAnswer::<StandardSource>::try_new(value) {
                Ok(a) => a,
                Err(_) => return None,
            };
            match SingleSelectionQuestion::try_new(id, self.content.clone(), options, answer) {
                Ok(q) => Some(Question::SingleSelection(q)),
                Err(_) => None,
            }
        } else if self.kind == MULTIPLE_SELECTION_KIND {
            let options = match four_options(self) {
                Some(o) => o,
                None => return None,
            };
            let values = match digits_of(self.answer.as_str()) {
                Some(v) => v,
                None => return None,
            };
            let answer = match MultipleSelectionAnswer::<StandardSource>::try_new(values) {
                Ok(a) => a,
                Err(_) => return None,
            };
            match MultipleSelectionQuestion::try_new(id, self.content.clone(), options, answer) {
                Ok(q) => Some(Question::MultipleSelection(q)),
                Err(_) => None,
            }
        } else if self.kind == COMPLETION_KIND {
            let answer = match CompletionAnswer::<StandardSource>::try_new(self.answer.as_str()) {
                Ok(a) => a,
                Err(_) => return None,
            };
            match CompletionQuestion::try_new(id, self.content.clone(), answer) {
                Ok(q) => Some(Question::Completion(q)),
                Err(_) => None,
            }
        } else {
            None
        }
    }
}

/// A question to store, as the questions table takes it.
#[derive(Debug, Clone, PartialEq, Eq)]
pub struct QuestionInsertion {
    pub kind: i32,
    pub content: String,
    pub option0: Option<String>,
    pub option1: Option<String>,
    pub option2: Option<String>,
    pub option3: Option<String>,
    pub answer: String,
}

/// The option at `i`, if there is one.
pub open spec fn option_at(options: Seq<String>, i: int) -> Option<String> {
    if 0 <= i < options.len() {
        Some(options[i])
    } else {
        None
    }
}

fn option_of(options: &Vec<String>, i: usize) -> (r: Option<String>)
    ensures
        r == option_at(options@, i as int),
{
    if i < options.len() {
        Some(options[i].clone())
    } else {
        None
    }
}

/// The stored form of a multiple-selection answer: the decimal digits of
/// each option, one after another.
pub open spec fn options_text(values: Seq<u32>) -> Seq<char>
    decreases values.len(),
{
    if values.len() == 0 {
        Seq::empty()
    } else {
        options_text(values.drop_last()) + decimal_digits(values.last() as nat)
    }
}

fn write_options(values: &Vec<u32>) -> (r: String)
    ensures
        r@ == options_text(values@),
{
    let mut s = String::new();
    let mut i: usize = 0;
    while i < values.len()
        invariant
            0 <= i <= values.len(),
            s@ == options_text(values@.subrange(0, i as int)),
        decreases values.len() - i,
    {
        write_decimal(&mut s, values[i]);
        proof {
            let p = values@.subrange(0, i as int + 1);
            assert(p.drop_last() == values@.subrange(0, i as int));
        }
        i = i + 1;
    }
    proof {
        assert(values@.subrange(0, values@.len() as int) == values@);
    }
    s
}

impl QuestionInsertion {
    fn selection(kind: i32, content: String, options: &Vec<String>, answer: String) -> (r: Self)
        ensures
            r.kind == kind,
            r.content == content,
            r.option0 == option_at(options@, 0),
            r.option1 == option_at(options@, 1),
            r.option2 == option_at(options@, 2),
            r.option3 == option_at(options@, 3),
            r.answer == answer,
    {
        QuestionInsertion {
            kind,
            content,
            option0: option_of(options, 0),
            option1: option_of(options, 1),
            option2: option_of(options, 2),
            option3: option_of(options, 3),
            answer,
        }
    }

    /// A single-selection question to store, once it passes validation.
    pub fn new_single_selection(content: String, options: Vec<String>, answer: u32) -> (r: Result<
        Self,
        QuestionRepositoryError,
    >)
        ensures
            selection_error(content@, options@) matches Some(e) ==> (r matches Err(
                QuestionRepositoryError::QuestionInvalid { source },
            ) && source == e),
            selection_error(content@, options@) is None ==> (r matches Ok(row) && row.kind
                == SINGLE_SELECTION_KIND && row.content == content && row.option0 == option_at(
                options@,
                0,
            ) && row.option1 == option_at(options@, 1) && row.option2 == option_at(options@, 2)
                && row.option3 == option_at(options@, 3) && row.answer@ == decimal_digits(
                answer as nat,
            )),
    {
        let checked = match SingleSelectionAnswer::<StandardSource>::try_new(answer) {
            Ok(a) => a,
            Err(e) => return Err(QuestionRepositoryError::AnswerInvalid { source: e }),
        };
        if let Err(e) = SingleSelectionQuestion::try_new(
            Id(0),
            content.clone(),
            copy_texts(&options),
            checked,
        ) {
            return Err(QuestionRepositoryError::QuestionInvalid { source: e });
        }
        let mut text = String::new();
        write_decimal(&mut text, answer);
        Ok(Self::selection(SINGLE_SELECTION_KIND, content, &options, text))
    }

    /// A multiple-selection question to store, once its answer and the
    /// question pass validation.
    pub fn new_multiple_selection(content: String, options: Vec<String>, answer: Vec<u32>) -> (r:
        Result<Self, QuestionRepositoryError>)
        ensures
            answer@.len() == 0 ==> (r matches Err(QuestionRepositoryError::AnswerInvalid { source })
                && source == crate::answer::TryNewAnswerError::OptionEmpty),
            answer@.len() > 0 && has_duplicate(answer@) ==> (r matches Err(
                QuestionRepositoryError::AnswerInvalid { source },
            ) && source == crate::answer::TryNewAnswerError::OptionDuplicated),
            answer@.len() > 0 && !has_duplicate(answer@) && selection_error(content@, options@)
                is Some ==> (r matches Err(QuestionRepositoryError::QuestionInvalid { source })
                && Some(source) == selection_error(content@, options@)),
            answer@.len() > 0 && !has_duplicate(answer@) && selection_error(content@, options@)
                is None ==> (r matches Ok(row) && row.kind == MULTIPLE_SELECTION_KIND
                && row.content == content && row.option0 == option_at(options@, 0) && row.option1
                == option_at(options@, 1) && row.option2 == option_at(options@, 2) && row.option3
                == option_at(options@, 3) && row.answer@ == options_text(answer@)),
    {
        let text = write_options(&answer);
        let checked = match MultipleSelectionAnswer::<StandardSource>::try_new(answer) {
            Ok(a) => a,
            Err(e) => return Err(QuestionRepositoryError::AnswerInvalid { source: e }),
        };
        if let Err(e) = MultipleSelectionQuestion::try_new(
            Id(0),
            content.clone(),
            copy_texts(&options),
            checked,
        ) {
            return Err(QuestionRepositoryError::QuestionInvalid { source: e });
        }
        Ok(Self::selection(MULTIPLE_SELECTION_KIND, content, &options, text))
    }

    /// A completion question to store, once it passes validation.
    pub fn new_completion(content: String, answer: String) -> (r: Result<
        Self,
        QuestionRepositoryError,
    >)
        ensures
            answer@.len() == 0 ==> (r matches Err(QuestionRepositoryError::AnswerInvalid { source })
                && source == crate::answer::TryNewAnswerError::ContentEmpty),
            answer@.len() > 0 && content@.len() == 0 ==> (r matches Err(
                QuestionRepositoryError::QuestionInvalid { source },
            ) && source == crate::question::TryNewQuestionError::ContentEmpty),
            answer@.len() > 0 && content@.len() > 0 ==> (r matches Ok(row) && row.kind
                == COMPLETION_KIND && row.content == content && row.option0 is None && row.option1
                is None && row.option2 is None && row.option3 is None && row.answer == answer),
    {
        let checked = match CompletionAnswer::<StandardSource>::try_new(answer.as_str()) {
            Ok(a) => a,
            Err(e) => return Err(QuestionRepositoryError::AnswerInvalid { source: e }),
        };
        if let Err(e) = CompletionQuestion::try_new(Id(0), content.clone(), checked) {
            return Err(QuestionRepositoryError::QuestionInvalid { source: e });
        }
        Ok(QuestionInsertion {
            kind: COMPLETION_KIND,
            content,
            option0: None,
            option1: None,
            option2: None,
            option3: None,
            answer,
        })
    }
}

fn copy_texts(v: &Vec<String>) -> (r: Vec<String>)
    ensures
        r@ == v@,
{
    let mut out: Vec<String> = Vec::new();
    let mut i: usize = 0;
    while i < v.len()
        invariant
            0 <= i <= v.len(),
            out@ == v@.subrange(0, i as int),
        decreases v.len() - i,
    {
        out.push(v[i].clone());
        proof {
            assert(v@.subrange(0, i as int + 1) == v@.subrange(0, i as int).push(v@[i as int]));
        }
        i = i + 1;
    }
    proof {
        assert(v@.subrange(0, v@.len() as int) == v@);
    }
    out
}

/// The check after loading up to `expected` questions of one kind:
/// `Insufficient` when fewer came back.
pub fn check_selected(which: &str, expected: usize, total: usize) -> (r: Result<
    (),
    QuestionRepositoryError,
>)
    ensures
        total >= expected ==> r is Ok,
        total < expected ==> (r matches Err(
            QuestionRepositoryError::Insufficient { which: w, expected: e, total: t },
        ) && w@ == which@ && e == expected && t == total),
{
    if total >= expected {
        Ok(())
    } else {
        Err(
            QuestionRepositoryError::Insufficient {
                which: String::from_str(which),
                expected,
                total,
            },
        )
    }
}

/// The questions that rows of one kind store, in order; `None` if a row
/// does not hold a valid question.
pub fn questions_of(rows: &Vec<QuestionRow>) -> (r: Option<Vec<Question>>)
    ensures
        r matches Some(qs) ==> qs@.len() == rows@.len() && forall|i: int|
            0 <= i < rows@.len() ==> (#[trigger] qs@[i]).spec_id() == Id(rows@[i].id as usize),
{
    let mut out: Vec<Question> = Vec::new();
    let mut i: usize = 0;
    while i < rows.len()
        invariant
            0 <= i <= rows.len(),
            out@.len() == i,
            forall|m: int| 0 <= m < i ==> (#[trigger] out@[m]).spec_id() == Id(rows@[m].id as usize),
        decreases rows.len() - i,
    {
        match rows[i].into_question() {
            Some(q) => out.push(q),
            None => return None,
        }
        i = i + 1;
    }
    Some(out)
}

/// The first of the records a query returned, most relevant first;
/// `NotFound` for a user with no records.
pub fn first_record(records: Vec<Record>, user: &User) -> (r: Result<Record, ScoreRepositoryError>)
    ensures
        records@.len() == 0 ==> (r matches Err(ScoreRepositoryError::NotFound { user: u })
            && u == *user),
        records@.len() > 0 ==> r == Ok::<_, ScoreRepositoryError>(records@[0]),
{
    let mut records = records;
    if records.len() == 0 {
        return Err(ScoreRepositoryError::NotFound { user: user.duplicate() });
    }
    Ok(records.remove(0))
}

} // verus!
