//! The lesson projector: a resolved grid entry as a flat, comparable
//! lesson record.
//!
//! An entry whose first position carries an informational row is skipped
//! entirely; otherwise the subject and room must resolve strictly, the
//! teacher may be a removed one, and the four free-text fields are trimmed
//! and emptied to `None`.

use vstd::prelude::*;

use crate::entries::row::{resolve_slots, resolve_slots_strict};
use crate::entries::{Day, EntryText, GridEntry, Row, RowType};
use crate::error::Error;
use crate::{text_view, texts_view, LessonInfo};

verus! {

/// A character the projection treats as whitespace, following the Unicode
/// white-space property.
pub open spec fn is_space(c: char) -> bool {
    ||| c == '\u{0009}'
    ||| c == '\u{000A}'
    ||| c == '\u{000B}'
    ||| c == '\u{000C}'
    ||| c == '\u{000D}'
    ||| c == ' '
    ||| c == '\u{0085}'
    ||| c == '\u{00A0}'
    ||| c == '\u{1680}'
    ||| ('\u{2000}' <= c && c <= '\u{200A}')
    ||| c == '\u{2028}'
    ||| c == '\u{2029}'
    ||| c == '\u{202F}'
    ||| c == '\u{205F}'
    ||| c == '\u{3000}'
}

fn is_space_char(c: char) -> (r: bool)
    ensures
        r == is_space(c),
{
    c == '\u{0009}' || c == '\u{000A}' || c == '\u{000B}' || c == '\u{000C}' || c == '\u{000D}'
        || c == ' ' || c == '\u{0085}' || c == '\u{00A0}' || c == '\u{1680}' || ('\u{2000}' <= c
        && c <= '\u{200A}') || c == '\u{2028}' || c == '\u{2029}' || c == '\u{202F}' || c
        == '\u{205F}' || c == '\u{3000}'
}

/// How many whitespace characters the text starts with.
pub open spec fn leading_spaces(s: Seq<char>) -> int
    decreases s.len(),
{
    if s.len() == 0 {
        0
    } else if is_space(s[0]) {
        1 + leading_spaces(s.drop_first())
    } else {
        0
    }
}

/// How many whitespace characters the text ends with.
pub open spec fn trailing_spaces(s: Seq<char>) -> int
    decreases s.len(),
{
    if s.len() == 0 {
        0
    } else if is_space(s.last()) {
        1 + trailing_spaces(s.drop_last())
    } else {
        0
    }
}

/// The text with leading and trailing whitespace removed.
pub open spec fn trimmed(s: Seq<char>) -> Seq<char> {
    if leading_spaces(s) == s.len() {
        Seq::empty()
    } else {
        s.subrange(leading_spaces(s), s.len() - trailing_spaces(s))
    }
}

/// The projection's normalization of a free-text field: `None` when the
/// text is empty or whitespace-only after trimming, the trimmed text
/// otherwise.
pub open spec fn norm_text(s: Seq<char>) -> Option<Seq<char>> {
    if trimmed(s).len() == 0 {
        None
    } else {
        Some(trimmed(s))
    }
}

proof fn lemma_leading_spaces(s: Seq<char>, k: int)
    requires
        0 <= k <= s.len(),
        forall|j: int| 0 <= j < k ==> is_space(s[j]),
        k == s.len() || !is_space(s[k]),
    ensures
        leading_spaces(s) == k,
    decreases s.len(),
{
    if s.len() == 0 {
    } else if k == 0 {
    } else {
        assert(is_space(s[0]));
        lemma_leading_spaces(s.drop_first(), k - 1);
    }
}

proof fn lemma_trailing_spaces(s: Seq<char>, m: int)
    requires
        0 <= m <= s.len(),
        forall|j: int| m <= j < s.len() ==> is_space(s[j]),
        m == 0 || !is_space(s[m - 1]),
    ensures
        trailing_spaces(s) == s.len() - m,
    decreases s.len(),
{
    if s.len() == 0 {
    } else if m == s.len() {
    } else {
        assert(is_space(s.last()));
        lemma_trailing_spaces(s.drop_last(), m);
    }
}

/// Trims a text and maps an empty result to `None`.
pub fn normalize_str(string: &str) -> (r: Option<String>)
    ensures
        text_view(r) == norm_text(string@),
{
    let n = string.unicode_len();
    let mut start: usize = 0;
    while start < n && is_space_char(string.get_char(start))
        invariant
            start <= n,
            n == string@.len(),
            forall|j: int| 0 <= j < start ==> is_space(string@[j]),
        decreases n - start,
    {
        start += 1;
    }
    if start == n {
        proof {
            lemma_leading_spaces(string@, n as int);
        }
        return None;
    }
    proof {
        lemma_leading_spaces(string@, start as int);
    }
    let mut end: usize = n;
    while end > start && is_space_char(string.get_char(end - 1))
        invariant
            start <= end <= n,
            n == string@.len(),
            forall|j: int| end <= j < n ==> is_space(string@[j]),
        decreases end,
    {
        end -= 1;
    }
    assert(end > start) by {
        if end == start {
            assert(is_space(string@[start as int]));
        }
    }
    proof {
        lemma_trailing_spaces(string@, end as int);
    }
    let piece = string.substring_char(start, end);
    Some(piece.to_owned())
}

/// The character sequences a list of entry texts holds, in order.
pub open spec fn entry_texts_view(ts: Seq<EntryText>) -> Seq<Seq<char>> {
    ts.map_values(|t: EntryText| t.text@)
}

/// Copies the text of every entry text, preserving order.
fn collect_texts(ts: &Vec<EntryText>) -> (r: Vec<String>)
    ensures
        texts_view(r@) == entry_texts_view(ts@),
{
    let mut out: Vec<String> = Vec::new();
    let mut i: usize = 0;
    while i < ts.len()
        invariant
            i <= ts@.len(),
            out@.len() == i,
            forall|j: int| 0 <= j < i ==> out@[j]@ == ts@[j].text@,
        decreases ts@.len() - i,
    {
        out.push(ts[i].text.clone());
        i += 1;
    }
    assert(texts_view(out@) =~= entry_texts_view(ts@));
    out
}

/// The rows an entry's projection rests on: nothing for an informational
/// entry, the subject, teacher and room rows otherwise, or the first
/// resolution failure.
pub open spec fn projection_outcome(e: GridEntry) -> Result<Option<(Row, Row, Row)>, Error> {
    if resolve_slots_strict(e.position1@, RowType::Info) is Ok {
        Ok(None)
    } else {
        match resolve_slots_strict(e.position1@, RowType::Subject) {
            Err(err) => Err(err),
            Ok(subject) => match resolve_slots(e.position2@, RowType::Teacher) {
                Err(err) => Err(err),
                Ok((teacher, _)) => match resolve_slots_strict(e.position3@, RowType::Room) {
                    Err(err) => Err(err),
                    Ok(room) => Ok(Some((subject, teacher, room))),
                },
            },
        }
    }
}

/// How a projected lesson record relates to its entry and resolved rows.
pub open spec fn lesson_matches(
    li: LessonInfo,
    e: GridEntry,
    subject: Row,
    teacher: Row,
    room: Row,
) -> bool {
    &&& li.status == e.status
    &&& li.datetime == e.duration.start
    &&& li.subject@ == subject.long_name@
    &&& li.subject_status == subject.status
    &&& li.teacher@ == teacher.long_name@
    &&& li.teacher_status == teacher.status
    &&& li.room@ == room.long_name@
    &&& li.room_status == room.status
    &&& text_view(li.lesson_info) == norm_text(e.lesson_info@)
    &&& text_view(li.lesson_text) == norm_text(e.lesson_text@)
    &&& text_view(li.substitution_text) == norm_text(e.substitution_text@)
    &&& text_view(li.notes) == norm_text(e.notes_all@)
    &&& texts_view(li.texts@) == entry_texts_view(e.texts@)
}

/// An entry whose first position resolves as an informational row projects
/// to nothing — never to an error — whatever its other fields hold.
pub proof fn lemma_info_entry_is_skipped(e: GridEntry)
    requires
        resolve_slots_strict(e.position1@, RowType::Info) is Ok,
    ensures
        projection_outcome(e) == Ok::<Option<(Row, Row, Row)>, Error>(None::<(Row, Row, Row)>),
{
}

/// Projects one grid entry, as [`projection_outcome`] and
/// [`lesson_matches`] describe it.
pub fn extract_lesson_info(lesson: &GridEntry) -> (r: Result<Option<LessonInfo>, Error>)
    ensures
        match projection_outcome(*lesson) {
            Err(err) => r == Err::<Option<LessonInfo>, Error>(err),
            Ok(None) => r == Ok::<Option<LessonInfo>, Error>(None::<LessonInfo>),
            Ok(Some(rows)) => r matches Ok(Some(li)) && lesson_matches(
                li,
                *lesson,
                rows.0,
                rows.1,
                rows.2,
            ),
        },
{
    if lesson.info().is_ok() {
        return Ok(None);
    }
    let subject = match lesson.subject() {
        Ok(row) => row,
        Err(e) => { return Err(e) },
    };
    let teacher = match lesson.teacher_maybe_removed() {
        Ok(pair) => pair.0,
        Err(e) => { return Err(e) },
    };
    let room = match lesson.room() {
        Ok(row) => row,
        Err(e) => { return Err(e) },
    };
    let info = LessonInfo {
        status: lesson.status,
        datetime: lesson.duration.start,
        subject: subject.long_name.clone(),
        subject_status: subject.status,
        teacher: teacher.long_name.clone(),
        teacher_status: teacher.status,
        room: room.long_name.clone(),
        room_status: room.status,
        lesson_info: normalize_str(lesson.lesson_info.as_str()),
        lesson_text: normalize_str(lesson.lesson_text.as_str()),
        substitution_text: normalize_str(lesson.substitution_text.as_str()),
        notes: normalize_str(lesson.notes_all.as_str()),
        texts: collect_texts(&lesson.texts),
    };
    Ok(Some(info))
}

/// How many of the first `n` entries project to a lesson record.
pub open spec fn kept_count(entries: Seq<GridEntry>, n: int) -> int
    decreases n,
{
    if n <= 0 {
        0
    } else {
        kept_count(entries, n - 1) + (if projection_outcome(entries[n - 1]) matches Ok(Some(_)) {
            1int
        } else {
            0int
        })
    }
}

proof fn lemma_kept_count_mono(entries: Seq<GridEntry>, a: int, b: int)
    requires
        a <= b,
    ensures
        kept_count(entries, a) <= kept_count(entries, b),
    decreases b - a,
{
    if a < b {
        lemma_kept_count_mono(entries, a, b - 1);
    }
}

/// Projects every entry of a day, in order.
///
/// Informational entries are skipped; the first failing non-informational
/// entry fails the whole day, so a partial lesson list is never produced.
pub fn extract_all_lessons(day: &Day) -> (r: Result<Vec<LessonInfo>, Error>)
    ensures
        r matches Ok(v) ==> {
            &&& forall|i: int|
                0 <= i < day.grid_entries@.len() ==> !(#[trigger] projection_outcome(
                    day.grid_entries@[i],
                ) is Err)
            &&& v@.len() == kept_count(day.grid_entries@, day.grid_entries@.len() as int)
            &&& forall|i: int|
                0 <= i < day.grid_entries@.len() ==> (#[trigger] projection_outcome(
                    day.grid_entries@[i],
                ) matches Ok(Some(rows)) ==> lesson_matches(
                    v@[kept_count(day.grid_entries@, i)],
                    day.grid_entries@[i],
                    rows.0,
                    rows.1,
                    rows.2,
                ))
        },
        r matches Err(err) ==> exists|i: int|
            0 <= i < day.grid_entries@.len() && #[trigger] projection_outcome(day.grid_entries@[i])
                == Err::<Option<(Row, Row, Row)>, Error>(err) && (forall|j: int|
                0 <= j < i ==> !(#[trigger] projection_outcome(day.grid_entries@[j]) is Err)),
{
    let entries = &day.grid_entries;
    let mut lessons: Vec<LessonInfo> = Vec::new();
    let mut i: usize = 0;
    while i < entries.len()
        invariant
            i <= entries@.len(),
            entries@ == day.grid_entries@,
            forall|j: int|
                0 <= j < i ==> !(#[trigger] projection_outcome(entries@[j]) is Err),
            lessons@.len() == kept_count(entries@, i as int),
            forall|j: int|
                0 <= j < i ==> (#[trigger] projection_outcome(entries@[j]) matches Ok(Some(rows))
                    ==> lesson_matches(
                    lessons@[kept_count(entries@, j)],
                    entries@[j],
                    rows.0,
                    rows.1,
                    rows.2,
                )),
        decreases entries@.len() - i,
    {
        match extract_lesson_info(&entries[i]) {
            Err(e) => { return Err(e) },
            Ok(None) => {},
            Ok(Some(li)) => {
                proof {
                    assert forall|j: int|
                        0 <= j < i && #[trigger] projection_outcome(entries@[j]) matches Ok(
                            Some(_),
                        ) implies 0 <= kept_count(entries@, j) < kept_count(entries@, i as int) by {
                        lemma_kept_count_mono(entries@, 0, j);
                        assert(kept_count(entries@, j + 1) == kept_count(entries@, j) + 1);
                        lemma_kept_count_mono(entries@, j + 1, i as int);
                    }
                }
                lessons.push(li);
            },
        }
        i += 1;
    }
    Ok(lessons)
}

} // verus!
