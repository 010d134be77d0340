//! The allow-list that a binary name must pass before it is handed to a
//! subprocess as an argument.

use vstd::prelude::*;
use crate::chars::{alphanumeric, ascii, is_alphanumeric, white};
use crate::text::{
    chars_of, leading_white, lemma_trim_blank, lemma_trim_keeps, lemma_trimmed_twice, push_char,
    trim, trimmed,
};

verus! {

/// The most characters a name may have.
pub const MAX_NAME_CHARS: usize = 255;

/// Why a name was refused.
#[derive(Clone, Copy, Debug, PartialEq, Eq, Structural)]
pub enum ValidationError {
    /// Nothing is left once the whitespace around the name is gone.
    Empty,
    /// The name has more than `MAX_NAME_CHARS` characters.
    TooLong,
    /// The name holds this character, the first that is not allowed.
    InvalidCharacter(char),
    /// The name starts with `.` or `-`.
    LeadingDotOrDash,
}

/// `c` may stand in a name: a letter, a digit, `-`, `_` or `.`.
pub open spec fn name_char(c: char) -> bool {
    alphanumeric(c) || c == '-' || c == '_' || c == '.'
}

/// `c` is one of the characters a shell gives a meaning to that the allow-list
/// is there to keep out.
pub open spec fn shell_special(c: char) -> bool {
    c == ';' || c == '|' || c == '&' || c == '$' || c == '`' || c == '>' || c == '<' || c == '*'
        || c == '?' || c == '/' || c == '\\' || c == '\'' || c == '"'
}

/// The index of the first character of `t` that may not stand in a name, or
/// the length of `t` if every character may.
pub open spec fn first_rejected(t: Seq<char>) -> int
    decreases t.len(),
{
    if t.len() == 0 || !name_char(t[0]) {
        0
    } else {
        1 + first_rejected(t.drop_first())
    }
}

/// What is wrong with the trimmed name `t`, if anything. The tests come in
/// this order: empty, too long, a character that is not allowed, a leading
/// `.` or `-`.
pub open spec fn rejection(t: Seq<char>) -> Option<ValidationError> {
    if t.len() == 0 {
        Some(ValidationError::Empty)
    } else if t.len() > MAX_NAME_CHARS {
        Some(ValidationError::TooLong)
    } else if first_rejected(t) < t.len() {
        Some(ValidationError::InvalidCharacter(t[first_rejected(t)]))
    } else if t[0] == '.' || t[0] == '-' {
        Some(ValidationError::LeadingDotOrDash)
    } else {
        None
    }
}

/// The name that `s` stands for, or why it stands for none: `s` is trimmed,
/// and what is left is the name if nothing is wrong with it.
pub open spec fn sanitized(s: Seq<char>) -> Result<Seq<char>, ValidationError> {
    match rejection(trimmed(s)) {
        Some(e) => Err(e),
        None => Ok(trimmed(s)),
    }
}

impl ValidationError {
    /// The text that reports this error.
    pub open spec fn message_text(self) -> Seq<char> {
        match self {
            ValidationError::Empty => "Binary name cannot be empty"@,
            ValidationError::TooLong => "Binary name is too long"@,
            ValidationError::InvalidCharacter(c) => {
                "Binary name contains invalid character: '"@.push(c) + "'"@
            },
            ValidationError::LeadingDotOrDash => "Binary name cannot start with '.' or '-'"@,
        }
    }

    /// The text that reports this error.
    pub fn message(&self) -> (m: String)
        ensures
            m@ == self.message_text(),
    {
        match self {
            ValidationError::Empty => String::from_str("Binary name cannot be empty"),
            ValidationError::TooLong => String::from_str("Binary name is too long"),
            ValidationError::InvalidCharacter(c) => {
                let mut m = String::from_str("Binary name contains invalid character: '");
                push_char(&mut m, *c);
                m.append("'");
                m
            },
            ValidationError::LeadingDotOrDash => String::from_str(
                "Binary name cannot start with '.' or '-'",
            ),
        }
    }
}

/// `first_rejected(t)` is the one index `k` before which every character may
/// stand in a name and at which, if `t` goes on, one stands that may not.
pub proof fn lemma_first_rejected(t: Seq<char>, k: int)
    requires
        0 <= k <= t.len(),
        forall|i: int| 0 <= i < k ==> name_char(#[trigger] t[i]),
        k < t.len() ==> !name_char(t[k]),
    ensures
        first_rejected(t) == k,
    decreases t.len(),
{
    if k > 0 {
        let u = t.drop_first();
        assert forall|i: int| 0 <= i < k - 1 implies name_char(#[trigger] u[i]) by {
            assert(u[i] == t[i + 1]);
        }
        lemma_first_rejected(u, k - 1);
    }
}

/// What `first_rejected(t)` is: in range, allowed characters before it, and
/// at it, if `t` goes on, one that is not allowed.
pub proof fn lemma_first_rejected_is(t: Seq<char>)
    ensures
        0 <= first_rejected(t) <= t.len(),
        forall|i: int| 0 <= i < first_rejected(t) ==> name_char(#[trigger] t[i]),
        first_rejected(t) < t.len() ==> !name_char(t[first_rejected(t)]),
    decreases t.len(),
{
    if t.len() > 0 && name_char(t[0]) {
        let u = t.drop_first();
        lemma_first_rejected_is(u);
        assert forall|i: int| 0 <= i < first_rejected(t) implies name_char(#[trigger] t[i]) by {
            if i > 0 {
                assert(t[i] == u[i - 1]);
            }
        }
        if first_rejected(t) < t.len() {
            assert(t[first_rejected(t)] == u[first_rejected(u)]);
        }
    }
}

/// `t` is a name as it stands: between one and `MAX_NAME_CHARS` characters,
/// each of them allowed, the first neither `.` nor `-`.
pub open spec fn well_formed(t: Seq<char>) -> bool {
    &&& 1 <= t.len() <= MAX_NAME_CHARS
    &&& forall|i: int| 0 <= i < t.len() ==> name_char(#[trigger] t[i])
    &&& t[0] != '.'
    &&& t[0] != '-'
}

/// A string is accepted exactly when what is left of it after trimming is
/// well formed, and what is returned is then the trimmed string, unchanged.
pub proof fn lemma_accepts_well_formed(s: Seq<char>)
    ensures
        sanitized(s) is Ok <==> well_formed(trimmed(s)),
        well_formed(trimmed(s)) ==> sanitized(s) == Ok::<Seq<char>, ValidationError>(trimmed(s)),
{
    let t = trimmed(s);
    lemma_first_rejected_is(t);
    if well_formed(t) {
        lemma_first_rejected(t, t.len() as int);
    }
}

/// A string that holds a character with a meaning to the shell, wherever it
/// stands, is refused.
pub proof fn lemma_rejects_shell_special(s: Seq<char>, i: int)
    requires
        0 <= i < s.len(),
        shell_special(s[i]),
    ensures
        sanitized(s) is Err,
{
    let t = trimmed(s);
    lemma_trim_keeps(s, i);
    lemma_first_rejected_is(t);
    let k = i - leading_white(s);
    assert(!name_char(t[k]));
}

/// A string of whitespace alone, the empty string among them, is refused as
/// empty.
pub proof fn lemma_rejects_blank(s: Seq<char>)
    requires
        forall|i: int| 0 <= i < s.len() ==> white(#[trigger] s[i]),
    ensures
        sanitized(s) == Err::<Seq<char>, ValidationError>(ValidationError::Empty),
{
    lemma_trim_blank(s);
}

/// A string that still has more than `MAX_NAME_CHARS` characters after
/// trimming is refused as too long.
pub proof fn lemma_rejects_long(s: Seq<char>)
    requires
        trimmed(s).len() > MAX_NAME_CHARS,
    ensures
        sanitized(s) == Err::<Seq<char>, ValidationError>(ValidationError::TooLong),
{
}

/// A string that starts with `.` or `-` after trimming is refused.
pub proof fn lemma_rejects_leading_dot_or_dash(s: Seq<char>)
    requires
        trimmed(s).len() > 0,
        trimmed(s)[0] == '.' || trimmed(s)[0] == '-',
    ensures
        sanitized(s) is Err,
{
}

/// What was accepted once is accepted again, and comes back as it is.
pub proof fn lemma_sanitized_is_fixed(s: Seq<char>)
    requires
        sanitized(s) is Ok,
    ensures
        sanitized(sanitized(s)->Ok_0) == sanitized(s),
{
    lemma_trimmed_twice(s);
}

/// An accepted name holds no whitespace and no character with a meaning to
/// the shell within ASCII, so it is one argument wherever it is put.
pub proof fn lemma_accepted_is_one_word(s: Seq<char>, i: int)
    requires
        sanitized(s) is Ok,
        0 <= i < sanitized(s)->Ok_0.len(),
    ensures
        !shell_special(sanitized(s)->Ok_0[i]),
        ascii(sanitized(s)->Ok_0[i]) ==> !white(sanitized(s)->Ok_0[i]),
{
    lemma_accepts_well_formed(s);
}

/// Whether `c` may stand in a name.
pub fn is_name_char(c: char) -> (r: bool)
    ensures
        r == name_char(c),
{
    is_alphanumeric(c) || c == '-' || c == '_' || c == '.'
}

/// Trims `binary_name` and holds what is left against the allow-list. Returns
/// the trimmed name, or the first thing that is wrong with it.
pub fn validate(binary_name: &str) -> (r: Result<String, ValidationError>)
    ensures
        match sanitized(binary_name@) {
            Ok(t) => r matches Ok(name) && name@ == t,
            Err(e) => r == Err::<String, ValidationError>(e),
        },
{
    let t = trim(binary_name);
    let v = chars_of(t);
    let n: usize = v.len();
    if n == 0 {
        return Err(ValidationError::Empty);
    }
    if n > MAX_NAME_CHARS {
        return Err(ValidationError::TooLong);
    }
    let mut i: usize = 0;
    while i < n
        invariant
            i <= n,
            n == v.len(),
            0 < n <= MAX_NAME_CHARS,
            v@ == trimmed(binary_name@),
            forall|j: int| 0 <= j < i ==> name_char(#[trigger] v@[j]),
        decreases n - i,
    {
        if !is_name_char(v[i]) {
            proof {
                lemma_first_rejected(v@, i as int);
            }
            return Err(ValidationError::InvalidCharacter(v[i]));
        }
        i = i + 1;
    }
    proof {
        lemma_first_rejected(v@, n as int);
    }
    if v[0] == '.' || v[0] == '-' {
        return Err(ValidationError::LeadingDotOrDash);
    }
    Ok(String::from_str(t))
}

/// Trims `binary_name` and holds what is left against the allow-list. Returns
/// the trimmed name, or the text that reports the first thing wrong with it.
pub fn sanitize_binary_name(binary_name: &str) -> (r: Result<String, String>)
    ensures
        match sanitized(binary_name@) {
            Ok(t) => r matches Ok(name) && name@ == t,
            Err(e) => r matches Err(m) && m@ == e.message_text(),
        },
{
    match validate(binary_name) {
        Ok(name) => Ok(name),
        Err(e) => Err(e.message()),
    }
}

} // verus!
