use vstd::prelude::*;

verus! {

#[derive(Debug, Clone, PartialEq, Eq)]
#[non_exhaustive]
pub enum TryNewUserError {
    Empty,
    Invalid,
}

impl TryNewUserError {
    pub fn message(&self) -> (r: &'static str) {
        match self {
            TryNewUserError::Empty => "Username should not be empty",
            TryNewUserError::Invalid => "Username should only contains alphabets, numbers, dash and underscore",
        }
    }
}

/// A character allowed in a user name: an ASCII letter or digit, `-` or `_`.
pub open spec fn is_name_char(c: char) -> bool {
    ('a' <= c && c <= 'z') || ('A' <= c && c <= 'Z') || ('0' <= c && c <= '9') || c == '-' || c
        == '_'
}

pub open spec fn is_valid_name(s: Seq<char>) -> bool {
    forall|i: int| 0 <= i < s.len() ==> is_name_char(#[trigger] s[i])
}

fn name_char(c: char) -> (r: bool)
    ensures
        r == is_name_char(c),
{
    ('a' <= c && c <= 'z') || ('A' <= c && c <= 'Z') || ('0' <= c && c <= '9') || c == '-' || c
        == '_'
}

/// A user name: non-empty, made of ASCII letters, digits, `-` and `_`.
#[derive(Debug, Clone, PartialEq, Eq)]
pub struct User(String);

impl User {
    pub closed spec fn name(&self) -> Seq<char> {
        self.0@
    }

    pub fn try_new(user: &str) -> (r: Result<Self, TryNewUserError>)
        ensures
            user@.len() == 0 <==> r == Err::<Self, _>(TryNewUserError::Empty),
            (user@.len() != 0 && !is_valid_name(user@)) <==> r == Err::<Self, _>(
                TryNewUserError::Invalid,
            ),
            r matches Ok(u) ==> u.name() == user@,
    {
        let n = user.unicode_len();
        if n == 0 {
            return Err(TryNewUserError::Empty);
        }
        let mut i: usize = 0;
        while i < n
            invariant
                n == user@.len(),
                0 <= i <= n,
                forall|m: int| 0 <= m < i ==> is_name_char(#[trigger] user@[m]),
            decreases n - i,
        {
            if !name_char(user.get_char(i)) {
                return Err(TryNewUserError::Invalid);
            }
            i = i + 1;
        }
        Ok(User(String::from_str(user)))
    }

    pub fn inner(&self) -> (r: &str)
        ensures
            r@ == self.name(),
    {
        self.0.as_str()
    }

    /// A copy of this user.
    pub fn duplicate(&self) -> (r: User)
        ensures
            r == *self,
    {
        User(self.0.clone())
    }
}

} // verus!
