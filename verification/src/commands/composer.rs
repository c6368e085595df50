//! The composer rules: which window focus is captured and handed back, when
//! a commit pastes, how a committed session is recorded in history, and
//! when dictated text goes straight into the composer.

use vstd::prelude::*;
use crate::text::{is_blank, is_blank_str, trim, trim_str, str_eq};
use crate::transform::{opt_str_view, opt_string_view};

verus! {

/// Window label of the composer webview.
pub const COMPOSER_WINDOW_LABEL: &'static str = "composer";

/// The window that owned foreground focus right before the composer opened:
/// a native window handle (Windows) or a process id (macOS), as an integer.
#[derive(Debug, Clone, Copy, PartialEq, Eq, Structural)]
pub struct CapturedFocus {
    pub raw: isize,
}

/// Remember the focus to hand back when the composer closes.
pub fn remember_focus(slot: &mut Option<CapturedFocus>, focus: Option<CapturedFocus>)
    ensures
        *final(slot) == focus,
{
    *slot = focus;
}

/// Take the remembered focus, leaving none behind.
pub fn take_captured_focus(slot: &mut Option<CapturedFocus>) -> (r: Option<CapturedFocus>)
    ensures
        r == *old(slot),
        *final(slot) is None,
{
    slot.take()
}

/// The focus worth capturing: the foreground window `candidate` (its handle
/// and the id of the process owning it), unless there is none or it belongs
/// to this process (the composer is already open, so the earlier capture
/// must be kept).
pub fn capture_focus(candidate: Option<(isize, i64)>, own_pid: i64) -> (r: Option<CapturedFocus>)
    ensures
        r == match candidate {
            Some((raw, pid)) => if pid == own_pid {
                None
            } else {
                Some(CapturedFocus { raw })
            },
            None => None,
        },
{
    match candidate {
        Some((raw, pid)) => {
            if pid == own_pid {
                None
            } else {
                Some(CapturedFocus { raw })
            }
        },
        None => None,
    }
}

/// Opening the composer: capture the foreground window before the composer
/// takes focus, keeping the earlier capture when there is nothing new to
/// hand back to.
pub fn remember_focus_on_open(
    slot: &mut Option<CapturedFocus>,
    candidate: Option<(isize, i64)>,
    own_pid: i64,
)
    ensures
        *final(slot) == match capture_focus_spec(candidate, own_pid) {
            Some(f) => Some(f),
            None => *old(slot),
        },
{
    match capture_focus(candidate, own_pid) {
        Some(focus) => remember_focus(slot, Some(focus)),
        None => {},
    }
}

/// The focus `capture_focus` captures.
pub open spec fn capture_focus_spec(candidate: Option<(isize, i64)>, own_pid: i64) -> Option<
    CapturedFocus,
> {
    match candidate {
        Some((raw, pid)) => if pid == own_pid {
            None
        } else {
            Some(CapturedFocus { raw })
        },
        None => None,
    }
}

/// Empty or whitespace-only text commits nothing: the composer just closes
/// and the clipboard is never touched.
pub fn should_commit(text: &str) -> (r: bool)
    ensures
        r == !is_blank(text@),
        r == (trim(text@).len() > 0),
{
    !is_blank_str(text)
}

/// A committed session was transformed when the pre-transform snapshot
/// differs from the committed text, surrounding white space aside.
pub open spec fn was_transformed(text: Seq<char>, original: Option<Seq<char>>) -> bool {
    match original {
        Some(o) => trim(o) != trim(text),
        None => false,
    }
}

/// The history row fields of a committed composer session, in the order
/// the history store takes them: file name, origin ("from"), whether a
/// transform was requested, transformed output ("to"), and prompt.
pub open spec fn history_fields(
    text: Seq<char>,
    original: Option<Seq<char>>,
    mode: Option<Seq<char>>,
) -> (Seq<char>, Seq<char>, bool, Option<Seq<char>>, Option<Seq<char>>) {
    (
        "composer"@,
        match original {
            Some(o) => o,
            None => text,
        },
        was_transformed(text, original),
        if was_transformed(text, original) {
            Some(text)
        } else {
            None
        },
        mode,
    )
}

/// Map a committed composer session onto the transcription-history schema.
/// The composer pastes its final `text` (the "to"); when a transform
/// rewrote the draft, `original` is the pre-transform snapshot (the
/// "from"); otherwise the committed text is also the origin. Composer
/// sessions have no recording, so the file name is `composer`.
pub fn composer_history_fields(text: &str, original: Option<&str>, mode: Option<&str>) -> (r: (
    String,
    String,
    bool,
    Option<String>,
    Option<String>,
))
    ensures
        (r.0@, r.1@, r.2, opt_string_view(r.3), opt_string_view(r.4)) == history_fields(
            text@,
            opt_str_view(original),
            opt_str_view(mode),
        ),
        original matches Some(o) ==> (trim(o@) != trim(text@) ==> r.2 && opt_string_view(r.3)
            == Some(text@) && r.1@ == o@),
        original matches Some(o) ==> (trim(o@) == trim(text@) ==> !r.2 && r.3 is None),
{
    let transformed = match original {
        Some(o) => !str_eq(trim_str(o), trim_str(text)),
        None => false,
    };
    let transcription_text = match original {
        Some(o) => o.to_owned(),
        None => text.to_owned(),
    };
    let post_processed_text = if transformed {
        Some(text.to_owned())
    } else {
        None
    };
    let prompt = match mode {
        Some(m) => Some(m.to_owned()),
        None => None,
    };
    ("composer".to_owned(), transcription_text, transformed, post_processed_text, prompt)
}

/// What a commit does: `None` when the text is blank (close the composer,
/// paste nothing, record nothing), otherwise the history row to record
/// before the text is pasted.
pub fn plan_commit(text: &str, original: Option<&str>, mode: Option<&str>) -> (r: Option<
    (String, String, bool, Option<String>, Option<String>),
>)
    ensures
        r is None <==> is_blank(text@),
        r matches Some(f) ==> (f.0@, f.1@, f.2, opt_string_view(f.3), opt_string_view(f.4))
            == history_fields(text@, opt_str_view(original), opt_str_view(mode)),
        r matches Some(f) ==> (original matches Some(o) ==> (trim(o@) != trim(text@) ==> f.2
            && opt_string_view(f.3) == Some(text@))),
{
    if !should_commit(text) {
        return None;
    }
    Some(composer_history_fields(text, original, mode))
}

/// Dictated text goes straight into the composer when it is not blank and
/// the composer window is both visible and focused; the caller then skips
/// the clipboard paste.
pub fn should_deliver_voice_input(text: &str, composer_visible: bool, composer_focused: bool) -> (r:
    bool)
    ensures
        r == (!is_blank(text@) && composer_visible && composer_focused),
{
    if is_blank_str(text) {
        return false;
    }
    composer_visible && composer_focused
}

/// A commit without a snapshot, or whose snapshot is the committed text up to
/// surrounding white space, records no transform and nothing as
/// post-processed; without a snapshot the committed text is the origin.
pub proof fn law_untransformed_commit_marks_nothing(
    text: Seq<char>,
    original: Option<Seq<char>>,
    mode: Option<Seq<char>>,
)
    ensures
        original is None ==> !history_fields(text, original, mode).2 && history_fields(
            text,
            original,
            mode,
        ).3 is None && history_fields(text, original, mode).1 == text,
        original matches Some(o) && trim(o) == trim(text) ==> !history_fields(text, original, mode).2
            && history_fields(text, original, mode).3 is None,
{
}

/// A commit whose snapshot differs from the committed text beyond
/// surrounding white space records a transform: the snapshot is the origin
/// and the committed text is recorded as the transform's output, whatever
/// the two texts' lengths.
pub proof fn law_transformed_commit_records_output(
    text: Seq<char>,
    o: Seq<char>,
    mode: Option<Seq<char>>,
)
    requires
        trim(o) != trim(text),
    ensures
        history_fields(text, Some(o), mode).2,
        history_fields(text, Some(o), mode).3 == Some(text),
        history_fields(text, Some(o), mode).1 == o,
        history_fields(text, Some(o), mode).4 == mode,
{
}

} // verus!
