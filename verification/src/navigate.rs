//! The screen navigator: idempotent "ensure screen X is visible" operations
//! and interruption-dialog handling.
//!
//! Every screen transition follows one idiom — check, then act, then
//! confirm: first a locate with the configured timeout (the screen may
//! already be open, in which case nothing is sent), then the opening macro,
//! then a re-locate.  A keystroke macro is never assumed to have succeeded;
//! the re-locate is the only evidence.

use vstd::prelude::*;
use vstd::string::StringExecFns;
use crate::keys::{append_steps, hold_keys_step, is_hold_keys, is_keys, is_settle, keys_step,
    settle_step, KeyMacro, KeyStep};
use crate::locator::{feed_finds, feed_first_found, feed_wf, find_first, POLL_INTERVAL_MS};
use crate::query::{ClassPredView, Filter, NamePredView, Query};
use crate::tree::{root_ref, ElementRef, UiSnapshot};
use crate::AbcError;
use crate::SHORT_WAIT_MS;

verus! {

/// Ensures the screen selected by `q` is visible: locate it (the screen may
/// already be open — then nothing at all is sent and the element found is
/// returned), otherwise dispatch the opening macro to the host window and
/// locate again.  Fails with `ElementNotFound` only when the screen still
/// cannot be located after the macro.  `before` and `after` are what the
/// tree shows at each poll tick of the two locate phases; the returned
/// macro is every step actually dispatched.
pub fn ensure_screen(
    before: &Vec<UiSnapshot>,
    after: &Vec<UiSnapshot>,
    scope: ElementRef,
    q: &Query,
    opening: &KeyMacro,
) -> (r: (Result<ElementRef, AbcError>, KeyMacro))
    requires
        feed_wf(before@, scope),
        feed_wf(after@, scope),
        before@.len() * POLL_INTERVAL_MS >= q.timeout_ms + POLL_INTERVAL_MS,
        after@.len() * POLL_INTERVAL_MS >= q.timeout_ms + POLL_INTERVAL_MS,
        q.timeout_ms + POLL_INTERVAL_MS <= u64::MAX,
    ensures
        feed_finds(before@, scope, q.filter(), q.timeout_ms) ==> {
            &&& r.1@.len() == 0
            &&& r.0 matches Ok(e) && feed_first_found(before@, scope, q.filter(), e)
        },
        !feed_finds(before@, scope, q.filter(), q.timeout_ms) ==> {
            &&& r.1@ == opening@
            &&& (r.0 is Ok <==> feed_finds(after@, scope, q.filter(), q.timeout_ms))
            &&& (r.0 matches Ok(e) ==> feed_first_found(after@, scope, q.filter(), e))
            &&& (r.0 is Err ==> r.0 == Err::<ElementRef, AbcError>(AbcError::ElementNotFound))
        },
{
    let mut trace: KeyMacro = Vec::new();
    let (first_try, _elapsed_check) = find_first(before, scope, q);
    if let Ok(e) = first_try {
        return (Ok(e), trace);
    }
    append_steps(&mut trace, opening);
    proof {
        assert(trace@ =~= opening@);
    }
    let (second_try, _elapsed_confirm) = find_first(after, scope, q);
    (second_try, trace)
}

/// The exact title of the unsaved-changes prompt of the host application.
pub const SAVE_PROMPT_TITLE: &'static str = "Save changes before proceeding?";

/// The filter that detects the unsaved-changes prompt of the host
/// application, by its exact dialog title.
pub open spec fn save_prompt_filter() -> Filter {
    Filter {
        name: NamePredView::Equals(SAVE_PROMPT_TITLE@),
        class: ClassPredView::AnyClass,
    }
}

/// The query that polls for the unsaved-changes prompt.  The timeout is
/// only half a base unit: absence of the prompt is the common case and is
/// not an error.
pub fn save_prompt_query() -> (q: Query)
    ensures
        q.filter() == save_prompt_filter(),
        q.timeout_ms == SHORT_WAIT_MS / 2,
{
    Query::new().name(SAVE_PROMPT_TITLE.to_owned()).timeout(SHORT_WAIT_MS / 2)
}

/// Decides what to send once the brief poll for the unsaved-changes prompt
/// has concluded.  No prompt means there were no unsaved changes: nothing
/// further is sent, and that is success, not an error.  A present prompt is
/// answered with the accept key to save, or with a navigate-then-accept
/// sequence that selects the discard option first.
pub fn confirm_or_discard(popup: Option<ElementRef>, save_changes: bool) -> (r: Option<KeyStep>)
    ensures
        popup is None ==> r is None,
        popup is Some && save_changes ==> (r matches Some(s) && is_keys(s, "{enter}"@,
        SHORT_WAIT_MS as int)),
        popup is Some && !save_changes ==> (r matches Some(s) && is_keys(s, "{right}{enter}"@,
        SHORT_WAIT_MS as int)),
{
    match popup {
        None => None,
        Some(_) => {
            if save_changes {
                Some(keys_step("{enter}", SHORT_WAIT_MS))
            } else {
                Some(keys_step("{right}{enter}", SHORT_WAIT_MS))
            }
        },
    }
}

/// Issues the "new record" combination (Ctrl+N held) and handles the
/// unsaved-changes prompt that may follow: polls briefly for the prompt
/// and, if it appears, answers it according to `save_changes`.  If no
/// prompt appears within the short timeout, nothing further is sent.
/// `popup_frames` is what the tree shows at each poll tick of the prompt
/// check; the returned macro is every step dispatched.
pub fn send_ctrl_n(popup_frames: &Vec<UiSnapshot>, save_changes: bool) -> (trace: KeyMacro)
    requires
        feed_wf(popup_frames@, root_ref()),
        popup_frames@.len() * POLL_INTERVAL_MS >= SHORT_WAIT_MS / 2 + POLL_INTERVAL_MS,
    ensures
        trace@.len() >= 2,
        is_hold_keys(trace@[0], "{Ctrl}"@, "N"@, SHORT_WAIT_MS as int),
        is_settle(trace@[1], SHORT_WAIT_MS as int),
        !feed_finds(popup_frames@, root_ref(), save_prompt_filter(), SHORT_WAIT_MS / 2)
            ==> trace@.len() == 2,
        feed_finds(popup_frames@, root_ref(), save_prompt_filter(), SHORT_WAIT_MS / 2)
            && save_changes ==> trace@.len() == 3 && is_keys(trace@[2], "{enter}"@,
        SHORT_WAIT_MS as int),
        feed_finds(popup_frames@, root_ref(), save_prompt_filter(), SHORT_WAIT_MS / 2)
            && !save_changes ==> trace@.len() == 3 && is_keys(trace@[2], "{right}{enter}"@,
        SHORT_WAIT_MS as int),
{
    let mut trace: KeyMacro = Vec::new();
    trace.push(hold_keys_step("{Ctrl}", "N", SHORT_WAIT_MS));
    trace.push(settle_step(SHORT_WAIT_MS));
    let q = save_prompt_query();
    let root = ElementRef { index: 0 };
    let (popup_result, _elapsed) = find_first(popup_frames, root, &q);
    let popup = match popup_result {
        Ok(e) => Some(e),
        Err(_) => None,
    };
    if let Some(step) = confirm_or_discard(popup, save_changes) {
        trace.push(step);
    }
    trace
}

} // verus!
