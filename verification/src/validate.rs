//! Validation of school names and session tokens.

use vstd::prelude::*;

use crate::error::Error;

verus! {

/// The character sets the validators accept.
#[derive(Debug, Clone, Copy, PartialEq, Eq, Structural)]
pub enum Charset {
    /// Lowercase letters and dashes, as school subdomains use them.
    SchoolName,
    /// The characters a session token may contain.
    Token,
}

/// Whether a charset accepts a character.
pub open spec fn char_allowed(set: Charset, c: char) -> bool {
    match set {
        Charset::SchoolName => ('a' <= c && c <= 'z') || c == '-',
        Charset::Token => ('A' <= c && c <= 'Z') || ('a' <= c && c <= 'z') || ('0' <= c && c
            <= '9') || c == '-' || c == '_' || c == '.',
    }
}

/// The first character from position `i` on that the charset refuses, as
/// an error, or success when there is none.
pub open spec fn first_bad(s: Seq<char>, set: Charset, i: int) -> Result<(), Error>
    decreases s.len() - i,
{
    if i < 0 || i >= s.len() {
        Ok(())
    } else if !char_allowed(set, s[i]) {
        Err(Error::InvalidCharacter { found: s[i] })
    } else {
        first_bad(s, set, i + 1)
    }
}

/// The outcome of validating a whole string against a charset: empty
/// strings are refused, otherwise the first refused character decides.
pub open spec fn charset_outcome(set: Charset, s: Seq<char>) -> Result<(), Error> {
    if s.len() == 0 {
        Err(Error::EmptyValue)
    } else {
        first_bad(s, set, 0)
    }
}

proof fn lemma_first_bad_ok(s: Seq<char>, set: Charset, i: int)
    requires
        0 <= i <= s.len(),
    ensures
        first_bad(s, set, i) is Ok <==> (forall|j: int| i <= j < s.len() ==> char_allowed(
            set,
            s[j],
        )),
    decreases s.len() - i,
{
    if i < s.len() {
        lemma_first_bad_ok(s, set, i + 1);
    }
}

proof fn lemma_first_bad_at(s: Seq<char>, set: Charset, k: int, i: int)
    requires
        0 <= i <= k < s.len(),
        forall|j: int| i <= j < k ==> char_allowed(set, s[j]),
        !char_allowed(set, s[k]),
    ensures
        first_bad(s, set, i) == Err::<(), Error>((Error::InvalidCharacter { found: s[k] })),
    decreases k - i,
{
    if i < k {
        lemma_first_bad_at(s, set, k, i + 1);
    }
}

fn char_allowed_exec(set: Charset, c: char) -> (r: bool)
    ensures
        r == char_allowed(set, c),
{
    match set {
        Charset::SchoolName => ('a' <= c && c <= 'z') || c == '-',
        Charset::Token => ('A' <= c && c <= 'Z') || ('a' <= c && c <= 'z') || ('0' <= c && c
            <= '9') || c == '-' || c == '_' || c == '.',
    }
}

/// Validates a whole string against a charset, reporting the first refused
/// character.
pub fn validate_charset(string: &str, set: Charset) -> (r: Result<(), Error>)
    ensures
        r == charset_outcome(set, string@),
        r is Ok <==> (string@.len() > 0 && forall|j: int|
            0 <= j < string@.len() ==> char_allowed(set, string@[j])),
{
    let n = string.unicode_len();
    if n == 0 {
        return Err(Error::EmptyValue);
    }
    let mut i: usize = 0;
    while i < n
        invariant
            i <= n,
            n == string@.len(),
            forall|j: int| 0 <= j < i ==> char_allowed(set, string@[j]),
        decreases n - i,
    {
        let c = string.get_char(i);
        if !char_allowed_exec(set, c) {
            proof {
                lemma_first_bad_at(string@, set, i as int, 0);
            }
            return Err(Error::InvalidCharacter { found: c });
        }
        i += 1;
    }
    proof {
        lemma_first_bad_ok(string@, set, 0);
        let fb = first_bad(string@, set, 0);
        assert(fb is Ok);
        assert(fb == Ok::<(), Error>(fb->Ok_0));
        assert(fb->Ok_0 == ());
    }
    Ok(())
}

/// Validates a school subdomain name.
pub fn school(school_name: &str) -> (r: Result<(), Error>)
    ensures
        r == charset_outcome(Charset::SchoolName, school_name@),
        r is Ok <==> (school_name@.len() > 0 && forall|j: int|
            0 <= j < school_name@.len() ==> char_allowed(Charset::SchoolName, school_name@[j])),
{
    validate_charset(school_name, Charset::SchoolName)
}

/// Validates one part of a session token, or any token-like value.
pub fn generic_token(token: &str) -> (r: Result<(), Error>)
    ensures
        r == charset_outcome(Charset::Token, token@),
        r is Ok <==> (token@.len() > 0 && forall|j: int|
            0 <= j < token@.len() ==> char_allowed(Charset::Token, token@[j])),
{
    validate_charset(token, Charset::Token)
}

/// The position of the first dot at or after `from`, or the text's length
/// when there is none.
pub open spec fn next_dot(s: Seq<char>, from: int) -> int
    decreases s.len() - from,
{
    if from < 0 || from >= s.len() {
        s.len() as int
    } else if s[from] == '.' {
        from
    } else {
        next_dot(s, from + 1)
    }
}

/// How many dots the text holds from position `from` on.
pub open spec fn dot_count(s: Seq<char>, from: int) -> int
    decreases s.len() - from,
{
    if from < 0 || from >= s.len() {
        0
    } else {
        (if s[from] == '.' {
            1int
        } else {
            0int
        }) + dot_count(s, from + 1)
    }
}

/// The outcome of validating a session token: it must split on dots into
/// exactly three parts, each a valid token in its own right. Parts are
/// checked in order, and a wrong part count is only reported once every
/// part seen before it was valid.
pub open spec fn token_outcome(s: Seq<char>) -> Result<(), Error> {
    let e1 = next_dot(s, 0);
    let seg1 = charset_outcome(Charset::Token, s.subrange(0, e1));
    if seg1 is Err {
        seg1
    } else if e1 == s.len() {
        Err(Error::WrongTokenPartCount { count: 1 })
    } else {
        let e2 = next_dot(s, e1 + 1);
        let seg2 = charset_outcome(Charset::Token, s.subrange(e1 + 1, e2));
        if seg2 is Err {
            seg2
        } else if e2 == s.len() {
            Err(Error::WrongTokenPartCount { count: 2 })
        } else {
            let e3 = next_dot(s, e2 + 1);
            let seg3 = charset_outcome(Charset::Token, s.subrange(e2 + 1, e3));
            if seg3 is Err {
                seg3
            } else if e3 != s.len() {
                Err(Error::WrongTokenPartCount { count: (3 + dot_count(s, e3)) as usize })
            } else {
                Ok(())
            }
        }
    }
}

proof fn lemma_next_dot(s: Seq<char>, from: int, k: int)
    requires
        0 <= from <= k <= s.len(),
        forall|j: int| from <= j < k ==> s[j] != '.',
        k == s.len() || s[k] == '.',
    ensures
        next_dot(s, from) == k,
    decreases k - from,
{
    if from < k {
        lemma_next_dot(s, from + 1, k);
    }
}

/// The position of the first dot at or after `from`.
fn find_dot(s: &str, from: usize) -> (r: usize)
    requires
        from <= s@.len(),
        s@.len() <= usize::MAX,
    ensures
        r == next_dot(s@, from as int),
        from <= r <= s@.len(),
        r < s@.len() ==> s@[r as int] == '.',
        forall|j: int| from <= j < r ==> s@[j] != '.',
{
    let n = s.unicode_len();
    let mut i: usize = from;
    while i < n && s.get_char(i) != '.'
        invariant
            from <= i <= n,
            n == s@.len(),
            forall|j: int| from <= j < i ==> s@[j] != '.',
        decreases n - i,
    {
        i += 1;
    }
    proof {
        lemma_next_dot(s@, from as int, i as int);
    }
    i
}

/// Counts the dots from position `from` on.
fn count_dots_from(s: &str, from: usize) -> (r: usize)
    requires
        from <= s@.len(),
        s@.len() <= usize::MAX,
    ensures
        r == dot_count(s@, from as int),
        r <= s@.len() - from,
{
    let n = s.unicode_len();
    let mut count: usize = 0;
    let mut i: usize = n;
    while i > from
        invariant
            from <= i <= n,
            n == s@.len(),
            count == dot_count(s@, i as int),
            count <= n - i,
        decreases i,
    {
        i -= 1;
        if s.get_char(i) == '.' {
            count += 1;
        }
    }
    count
}

/// Validates a whole session token, as [`token_outcome`] describes it.
pub fn untis_token(token: &str) -> (r: Result<(), Error>)
    ensures
        r == token_outcome(token@),
{
    let n = token.unicode_len();
    let e1 = find_dot(token, 0);
    let part1 = token.substring_char(0, e1);
    if let Err(e) = generic_token(part1) {
        return Err(e);
    }
    if e1 == n {
        return Err(Error::WrongTokenPartCount { count: 1 });
    }
    let e2 = find_dot(token, e1 + 1);
    let part2 = token.substring_char(e1 + 1, e2);
    if let Err(e) = generic_token(part2) {
        return Err(e);
    }
    if e2 == n {
        return Err(Error::WrongTokenPartCount { count: 2 });
    }
    let e3 = find_dot(token, e2 + 1);
    let part3 = token.substring_char(e2 + 1, e3);
    if let Err(e) = generic_token(part3) {
        return Err(e);
    }
    if e3 != n {
        let extra = count_dots_from(token, e3);
        return Err(Error::WrongTokenPartCount { count: 3 + extra });
    }
    Ok(())
}

} // verus!
