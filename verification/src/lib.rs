//! Screen-navigation and ordinal-field-access engine for driving a legacy,
//! keyboard-only accounting application ("the host application") through its
//! accessibility tree.
//!
//! The host application exposes no stable control identifiers: controls are
//! addressed by class name and ordinal position, screens by substrings of
//! their titles, and every transition is driven by keystroke macros followed
//! by a re-check of the tree.  This crate holds the verified core of that
//! engine: the element locator, the ordinal field accessor, the keystroke
//! macro recipes, and the decision logic of the navigation and invoice
//! settlement workflows.  The unverified shell that talks to the live
//! accessibility provider consumes these functions and performs the actual
//! key injection and tree walks.

use vstd::prelude::*;
use vstd::string::StringExecFns;

pub mod accounts_receivable;
pub mod customer_file;
pub mod fields;
pub mod keys;
pub mod locator;
pub mod navigate;
pub mod query;
pub mod reports;
pub mod text;
pub mod tree;

verus! {

/// Base settle/poll unit in milliseconds; every delay in the engine is a
/// small multiple or fraction of this unit.
pub const SHORT_WAIT_MS: u64 = 100;

/// The class name of the text-box controls that carry every field value in
/// the host application.
pub const TEXT_BOX_CLASS: &'static str = "ThunderRT6TextBox";

/// Typed failures of the engine.  Each carries enough context to diagnose
/// the failure without re-running the operation.
#[derive(Clone, Copy, Debug, PartialEq, Eq, Structural)]
pub enum AbcError {
    /// A locate exceeded its timeout without finding a matching element.
    ElementNotFound,
    /// An ordinal field access asked for an index beyond the number of
    /// matching controls; carries the attempted index.
    FieldIndexOutOfRange(usize),
    /// A keystroke dispatch was rejected, typically because the target
    /// element handle went stale.
    InjectionFailed,
}

/// The title fragment that identifies the host application's main window.
pub const ABC_WINDOW_TITLE: &'static str = "ABC Accounting Client";

/// The filter that locates the host application's main window among the
/// open windows, by a fragment of its title.
pub open spec fn abc_window_filter() -> query::Filter {
    query::Filter {
        name: query::NamePredView::Contains(ABC_WINDOW_TITLE@),
        class: query::ClassPredView::AnyClass,
    }
}

/// The query that locates the host application's main window.
pub fn abc_window_query() -> (q: query::Query)
    ensures
        q.filter() == abc_window_filter(),
        q.timeout_ms == query::DEFAULT_TIMEOUT_MS,
{
    query::Query::new().contains_name(ABC_WINDOW_TITLE.to_owned())
}

/// Locates the already-running host application's main window, polling
/// with the default timeout; fails with `ElementNotFound` when it is not
/// open.  `frames` is what the tree shows at each poll tick.
pub fn ensure_abc(frames: &Vec<tree::UiSnapshot>) -> (r: Result<tree::ElementRef, AbcError>)
    requires
        locator::feed_wf(frames@, tree::root_ref()),
        frames@.len() * locator::POLL_INTERVAL_MS >= query::DEFAULT_TIMEOUT_MS
            + locator::POLL_INTERVAL_MS,
    ensures
        r is Ok <==> locator::feed_finds(
            frames@,
            tree::root_ref(),
            abc_window_filter(),
            query::DEFAULT_TIMEOUT_MS,
        ),
        r matches Ok(e) ==> locator::feed_first_found(
            frames@,
            tree::root_ref(),
            abc_window_filter(),
            e,
        ),
        r is Err ==> r == Err::<tree::ElementRef, AbcError>(AbcError::ElementNotFound),
{
    let q = abc_window_query();
    let (found, _elapsed) = locator::find_first(frames, tree::ElementRef { index: 0 }, &q);
    found
}

/// Reads the displayed value of the text box at `box_index` (zero-based,
/// in tree order) on the given screen.  An empty string is a valid,
/// meaningful value; the error case arises exactly when fewer than
/// `box_index + 1` text boxes exist.
pub fn read_text_box_value(snap: &tree::UiSnapshot, screen: tree::ElementRef, box_index: usize) -> (r:
    Result<String, AbcError>)
    requires
        snap.wf(),
        screen.index < snap@.len(),
    ensures
        box_index < fields::field_positions(*snap, screen, TEXT_BOX_CLASS@).len() ==> (r matches
        Ok(v) && v@ == fields::field_value(*snap, screen, TEXT_BOX_CLASS@, box_index as int)),
        box_index >= fields::field_positions(*snap, screen, TEXT_BOX_CLASS@).len() ==> r == Err::<
            String,
            AbcError,
        >(AbcError::FieldIndexOutOfRange(box_index)),
{
    fields::read_field(snap, screen, TEXT_BOX_CLASS, box_index)
}

/// A run of `level` spaces: the indentation of one line of the rendered
/// tree.
pub open spec fn indent_spaces(level: nat) -> Seq<char> {
    Seq::new(level, |k: int| ' ')
}

/// The text of one line of the rendered tree: indentation by depth, then
/// the element's class name, display name, and displayed value.
pub open spec fn element_line_text(props: tree::ElementProps, level: nat) -> Seq<char> {
    indent_spaces(level) + "classname: '"@ + props.class_name@ + "', name: '"@ + props.name@
        + "', value: '"@ + props.value@ + "'"@
}

/// Renders one element as a line of the tree dump, indented `level` deep.
pub fn element_line(props: &tree::ElementProps, level: usize) -> (r: String)
    ensures
        r@ == element_line_text(*props, level as nat),
{
    let mut s = String::new();
    let mut i: usize = 0;
    while i < level
        invariant
            i <= level,
            s@ == indent_spaces(i as nat),
        decreases level - i,
    {
        s.append(" ");
        proof {
            reveal_strlit(" ");
            assert(s@ =~= indent_spaces((i + 1) as nat));
        }
        i += 1;
    }
    let line = s.concat("classname: '").concat(props.class_name.as_str()).concat(
        "', name: '",
    ).concat(props.name.as_str()).concat("', value: '").concat(props.value.as_str()).concat("'");
    proof {
        assert(line@ =~= element_line_text(*props, level as nat));
    }
    line
}

/// How many elements among the first `j` of the snapshot have a subtree
/// still open at position `i` — that is, how many of them are ancestors
/// of `i` when `j <= i`.
pub open spec fn open_above(s: Seq<tree::ElementNode>, i: int, j: int) -> int
    decreases j,
{
    if j <= 0 {
        0
    } else {
        open_above(s, i, j - 1) + (if s[j - 1].subtree_end > i {
            1int
        } else {
            0int
        })
    }
}

/// The depth of element `i` in the forest: the number of its ancestors.
pub open spec fn depth_of(s: Seq<tree::ElementNode>, i: int) -> int {
    open_above(s, i, i)
}

/// Renders the whole snapshot as the engine's tree dump: one line per
/// element in tree order, each indented by its depth.
pub fn render_tree(snap: &tree::UiSnapshot) -> (lines: Vec<String>)
    requires
        snap.wf(),
    ensures
        lines@.len() == snap@.len(),
        forall|i: int|
            0 <= i < snap@.len() ==> (#[trigger] lines@[i])@ == element_line_text(
                snap@[i].props,
                depth_of(snap@, i) as nat,
            ),
{
    let n = snap.len();
    let mut lines: Vec<String> = Vec::new();
    let mut i: usize = 0;
    while i < n
        invariant
            snap.wf(),
            n == snap@.len(),
            i <= n,
            lines@.len() == i,
            forall|ii: int|
                0 <= ii < i ==> (#[trigger] lines@[ii])@ == element_line_text(
                    snap@[ii].props,
                    depth_of(snap@, ii) as nat,
                ),
        decreases n - i,
    {
        let mut depth: usize = 0;
        let mut j: usize = 0;
        while j < i
            invariant
                n == snap@.len(),
                j <= i < n,
                depth <= j,
                depth == open_above(snap@, i as int, j as int),
            decreases i - j,
        {
            if snap.subtree_end(j) > i {
                depth += 1;
            }
            j += 1;
        }
        lines.push(element_line(snap.props(i), depth));
        i += 1;
    }
    lines
}

} // verus!
