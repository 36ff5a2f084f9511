//! Interpreting the backend's structured error responses.
//!
//! When a request fails, the backend may report a top-level message, a
//! list of per-field validation messages, an error code, or nothing
//! useful at all; one summary line is distilled out of that.

use vstd::prelude::*;

verus! {

/// Whether an optional text holds at least one character.
pub open spec fn has_text(o: Option<String>) -> bool {
    match o {
        Some(s) => s@.len() > 0,
        None => false,
    }
}

/// The characters an optional text holds, empty when it holds none.
pub open spec fn forced_text(o: Option<String>) -> Seq<char> {
    match o {
        Some(s) => s@,
        None => Seq::empty(),
    }
}

/// The first `n` messages joined with the separator.
pub open spec fn joined_upto(msgs: Seq<String>, n: int) -> Seq<char>
    decreases n,
{
    if n <= 0 {
        Seq::empty()
    } else if n == 1 {
        msgs[0]@
    } else {
        joined_upto(msgs, n - 1) + " | "@ + msgs[n - 1]@
    }
}

/// All messages joined with the separator.
pub open spec fn joined_messages(msgs: Seq<String>) -> Seq<char> {
    joined_upto(msgs, msgs.len() as int)
}

/// The summary of a backend error response: the top-level message when it
/// says anything, else the joined validation messages when there are any,
/// else the error code when it says anything, else a fixed placeholder.
pub open spec fn error_summary(
    error_message: Option<String>,
    validation_errors: Option<Vec<String>>,
    error_code: Option<String>,
) -> Seq<char> {
    if has_text(error_message) {
        forced_text(error_message)
    } else if (match validation_errors {
        Some(v) => v@.len() > 0,
        None => false,
    }) {
        joined_messages(
            match validation_errors {
                Some(v) => v@,
                None => Seq::empty(),
            },
        )
    } else if has_text(error_code) {
        forced_text(error_code)
    } else {
        "<unknown>"@
    }
}

/// Distills one summary line out of a backend error response, as
/// [`error_summary`] describes it.
pub fn extract_error(
    error_message: Option<String>,
    validation_errors: Option<Vec<String>>,
    error_code: Option<String>,
) -> (r: String)
    ensures
        r@ == error_summary(error_message, validation_errors, error_code),
{
    let message_has_text = match &error_message {
        Some(m) => !m.as_str().is_empty(),
        None => false,
    };
    if message_has_text {
        return error_message.unwrap();
    }
    let message_count = match &validation_errors {
        Some(v) => v.len(),
        None => 0,
    };
    if message_count > 0 {
        let msgs = validation_errors.unwrap();
        let mut out = String::new();
        let mut i: usize = 0;
        while i < msgs.len()
            invariant
                i <= msgs@.len(),
                out@ == joined_upto(msgs@, i as int),
            decreases msgs@.len() - i,
        {
            if i > 0 {
                out.append(" | ");
            }
            out.append(msgs[i].as_str());
            i += 1;
        }
        return out;
    }
    let code_has_text = match &error_code {
        Some(c) => !c.as_str().is_empty(),
        None => false,
    };
    if code_has_text {
        return error_code.unwrap();
    }
    "<unknown>".to_owned()
}

/// How far a payload snippet reaches around the reported column.
pub const SNIPPET_REACH: usize = 50;

/// The window of a payload around a reported column, with an ellipsis on
/// every side where the payload is cut.
pub open spec fn snippet_of(s: Seq<char>, column: int) -> Seq<char> {
    let lo = if column - SNIPPET_REACH < 0 {
        0
    } else {
        column - SNIPPET_REACH
    };
    let lo = if lo > s.len() {
        s.len() as int
    } else {
        lo
    };
    let hi = if column + SNIPPET_REACH > s.len() {
        s.len() as int
    } else {
        column + SNIPPET_REACH
    };
    (if lo > 0 {
        "..."@
    } else {
        Seq::empty()
    }) + s.subrange(lo, hi) + (if hi < s.len() {
        "..."@
    } else {
        Seq::empty()
    })
}

/// Cuts the window of a payload around the column an error report points
/// at, so the offending spot can be shown without the whole payload.
pub fn error_snippet(text: &str, column: usize) -> (r: String)
    ensures
        r@ == snippet_of(text@, column as int),
{
    let n = text.unicode_len();
    let lo = if column > SNIPPET_REACH {
        column - SNIPPET_REACH
    } else {
        0
    };
    let lo = if lo > n {
        n
    } else {
        lo
    };
    let hi = if column >= n {
        n
    } else if n - column > SNIPPET_REACH {
        column + SNIPPET_REACH
    } else {
        n
    };
    let mut out = String::new();
    if lo > 0 {
        out.append("...");
    }
    let window = text.substring_char(lo, hi);
    out.append(window);
    if hi < n {
        out.append("...");
    }
    proof {
        assert(out@ =~= snippet_of(text@, column as int));
    }
    out
}

} // verus!
