//! Webhook embed data and webhook URL validation.
//!
//! Sending is not the library's business; what is verified here is the
//! data a notification embed carries and the shape a webhook URL must
//! have before anything is ever sent to it.

use vstd::prelude::*;

use crate::datetime::{digit_value, is_digit};
use crate::error::{Error, UrlPart};
use crate::validate::{charset_outcome, validate_charset, Charset};

verus! {

/// An RGB color, as notification embeds carry it.
#[derive(Debug, Clone, Copy, PartialEq, Eq, Hash, Structural)]
pub struct Color {
    pub r: u8,
    pub g: u8,
    pub b: u8,
}

impl Color {
    pub fn new(r: u8, g: u8, b: u8) -> (c: Color)
        ensures
            c == (Color { r, g, b }),
    {
        Color { r, g, b }
    }

    /// The color as the single number the webhook wire format expects.
    pub fn to_discord(self) -> (n: u32)
        ensures
            n == self.r as u32 * 0x10000 + self.g as u32 * 0x100 + self.b as u32,
    {
        let r = self.r as u32;
        let g = self.g as u32;
        let b = self.b as u32;
        proof {
            assert((r << 16u32) | (g << 8u32) | b == r * 0x10000 + g * 0x100 + b) by (bit_vector)
                requires
                    r < 0x100,
                    g < 0x100,
                    b < 0x100,
            ;
        }
        (r << 16) | (g << 8) | b
    }
}

/// One name/value field of a notification embed.
#[derive(Debug, Clone)]
pub struct Field<'a> {
    pub name: &'a str,
    pub value: &'a str,
    pub inline: bool,
}

impl<'a> Field<'a> {
    pub fn new(name: &'a str, value: &'a str) -> (f: Field<'a>)
        ensures
            f.name@ == name@,
            f.value@ == value@,
            f.inline,
    {
        Field { name, value, inline: true }
    }
}

/// Content equality of two string slices.
fn str_eq(a: &str, b: &str) -> (r: bool)
    ensures
        r == (a@ == b@),
{
    let n = a.unicode_len();
    if n != b.unicode_len() {
        return false;
    }
    let mut i: usize = 0;
    while i < n
        invariant
            i <= n,
            n == a@.len(),
            n == b@.len(),
            forall|j: int| 0 <= j < i ==> a@[j] == b@[j],
        decreases n - i,
    {
        if a.get_char(i) != b.get_char(i) {
            return false;
        }
        i += 1;
    }
    proof {
        assert(a@ =~= b@);
    }
    true
}

/// Demands that a fixed part of a webhook URL has its expected value.
fn assert_url_part(expected: &str, actual: &str, part: UrlPart) -> (r: Result<(), Error>)
    ensures
        expected@ == actual@ ==> r == Ok::<(), Error>(()),
        expected@ != actual@ ==> r == Err::<(), Error>((Error::UrlPartMismatch { part })),
{
    if str_eq(expected, actual) {
        Ok(())
    } else {
        Err(Error::UrlPartMismatch { part })
    }
}

/// Whether a text is one or more decimal digits.
pub open spec fn all_digits(s: Seq<char>) -> bool {
    s.len() > 0 && (forall|i: int| 0 <= i < s.len() ==> is_digit(s[i]))
}

/// The number the first `n` digits denote.
pub open spec fn digits_prefix_value(s: Seq<char>, n: int) -> int
    decreases n,
{
    if n <= 0 {
        0
    } else {
        10 * digits_prefix_value(s, n - 1) + digit_value(s[n - 1])
    }
}

/// The number a digit text denotes.
pub open spec fn decimal_value(s: Seq<char>) -> int {
    digits_prefix_value(s, s.len() as int)
}

proof fn lemma_digits_prefix_mono(s: Seq<char>, a: int, b: int)
    requires
        0 <= a <= b <= s.len(),
        forall|i: int| 0 <= i < s.len() ==> is_digit(s[i]),
    ensures
        digits_prefix_value(s, a) <= digits_prefix_value(s, b),
    decreases b - a,
{
    if a < b {
        lemma_digits_prefix_mono(s, a, b - 1);
        assert(digits_prefix_value(s, b - 1) >= 0) by {
            lemma_digits_prefix_nonneg(s, b - 1);
        }
    }
}

proof fn lemma_digits_prefix_nonneg(s: Seq<char>, n: int)
    requires
        forall|i: int| 0 <= i < s.len() ==> is_digit(s[i]),
        n <= s.len(),
    ensures
        digits_prefix_value(s, n) >= 0,
    decreases n,
{
    if n > 0 {
        lemma_digits_prefix_nonneg(s, n - 1);
    }
}

/// Parses a webhook id: one or more decimal digits denoting a number that
/// fits the id's machine word.
pub fn parse_webhook_id(s: &str) -> (r: Result<u64, Error>)
    ensures
        all_digits(s@) && decimal_value(s@) <= u64::MAX ==> r == Ok::<u64, Error>(
            decimal_value(s@) as u64,
        ),
        !(all_digits(s@) && decimal_value(s@) <= u64::MAX) ==> r == Err::<u64, Error>(
            Error::InvalidWebhookId,
        ),
{
    let n = s.unicode_len();
    if n == 0 {
        return Err(Error::InvalidWebhookId);
    }
    let mut value: u64 = 0;
    let mut i: usize = 0;
    while i < n
        invariant
            i <= n,
            n == s@.len(),
            forall|j: int| 0 <= j < i ==> is_digit(s@[j]),
            value == digits_prefix_value(s@, i as int),
        decreases n - i,
    {
        let c = s.get_char(i);
        if !('0' <= c && c <= '9') {
            return Err(Error::InvalidWebhookId);
        }
        let d = (c as u32 - 48) as u64;
        if value > (u64::MAX - d) / 10 {
            proof {
                assert(10 * value + d > u64::MAX) by (nonlinear_arith)
                    requires
                        value > (u64::MAX - d) / 10,
                        d <= 9,
                ;
                lemma_all_digits_overflow(s@, i as int + 1);
            }
            return Err(Error::InvalidWebhookId);
        }
        proof {
            assert(10 * value + d <= u64::MAX) by (nonlinear_arith)
                requires
                    value <= (u64::MAX - d) / 10,
                    d <= 9,
            ;
        }
        value = 10 * value + d;
        i += 1;
    }
    Ok(value)
}

proof fn lemma_all_digits_overflow(s: Seq<char>, k: int)
    requires
        0 <= k <= s.len(),
        digits_prefix_value(s, k) > u64::MAX,
    ensures
        (forall|i: int| 0 <= i < s.len() ==> is_digit(s[i])) ==> decimal_value(s) > u64::MAX,
{
    if forall|i: int| 0 <= i < s.len() ==> is_digit(s[i]) {
        lemma_digits_prefix_mono(s, k, s.len() as int);
    }
}

/// The outcome of validating a webhook URL handed in as its parsed parts:
/// a fixed scheme and host, exactly four path segments with fixed first
/// and second segments, an id, a token, and neither query nor fragment.
pub open spec fn url_outcome(
    scheme: Seq<char>,
    host: Seq<char>,
    segments: Seq<Seq<char>>,
    query: Option<Seq<char>>,
    fragment: Option<Seq<char>>,
) -> Result<(), Error> {
    if scheme != "https"@ {
        Err(Error::UrlPartMismatch { part: UrlPart::Scheme })
    } else if host != "discord.com"@ {
        Err(Error::UrlPartMismatch { part: UrlPart::Host })
    } else if segments.len() != 4 {
        Err(Error::WrongSegmentCount { count: segments.len() as usize })
    } else if segments[0] != "api"@ {
        Err(Error::UrlPartMismatch { part: UrlPart::ApiSegment })
    } else if segments[1] != "webhooks"@ {
        Err(Error::UrlPartMismatch { part: UrlPart::WebhooksSegment })
    } else if !(all_digits(segments[2]) && decimal_value(segments[2]) <= u64::MAX) {
        Err(Error::InvalidWebhookId)
    } else if charset_outcome(Charset::Token, segments[3]) is Err {
        charset_outcome(Charset::Token, segments[3])
    } else if query is Some {
        Err(Error::UnexpectedQuery)
    } else if fragment is Some {
        Err(Error::UnexpectedFragment)
    } else {
        Ok(())
    }
}

/// Validates the shape of a webhook URL before a client is ever built
/// around it, as [`url_outcome`] describes it.
pub fn validate_url(
    scheme: &str,
    host: &str,
    segments: &Vec<String>,
    query: &Option<String>,
    fragment: &Option<String>,
) -> (r: Result<(), Error>)
    ensures
        r == url_outcome(
            scheme@,
            host@,
            crate::texts_view(segments@),
            crate::text_view(*query),
            crate::text_view(*fragment),
        ),
{
    let ghost segs = crate::texts_view(segments@);
    if let Err(e) = assert_url_part("https", scheme, UrlPart::Scheme) {
        return Err(e);
    }
    if let Err(e) = assert_url_part("discord.com", host, UrlPart::Host) {
        return Err(e);
    }
    if segments.len() != 4 {
        return Err(Error::WrongSegmentCount { count: segments.len() });
    }
    assert(segs.len() == 4);
    if let Err(e) = assert_url_part("api", segments[0].as_str(), UrlPart::ApiSegment) {
        return Err(e);
    }
    if let Err(e) = assert_url_part("webhooks", segments[1].as_str(), UrlPart::WebhooksSegment) {
        return Err(e);
    }
    if let Err(e) = parse_webhook_id(segments[2].as_str()) {
        return Err(e);
    }
    if let Err(e) = validate_charset(segments[3].as_str(), Charset::Token) {
        return Err(e);
    }
    if query.is_some() {
        return Err(Error::UnexpectedQuery);
    }
    if fragment.is_some() {
        return Err(Error::UnexpectedFragment);
    }
    Ok(())
}

} // verus!
