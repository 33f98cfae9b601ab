//! The ordinal field accessor: reading and writing a control addressed
//! purely by its position among same-class siblings in tree order.
//!
//! The host application exposes no stable identifiers, so a field reference
//! is only {scope, class name, zero-based index}.  The index is validated
//! against the number of matching controls actually present: out-of-range is
//! a reported error carrying the attempted index, never a silently
//! substituted default.  An empty string read from a present control is a
//! valid, meaningful value, distinct from the error case.

use vstd::prelude::*;
use vstd::string::StringExecFns;
use crate::keys::FieldEntry;
use crate::locator::{find_all, lemma_matching_between_props, scope_matches};
use crate::query::{class_filter, Query};
use crate::tree::{ElementRef, UiSnapshot};
use crate::AbcError;
use crate::SHORT_WAIT_MS;

verus! {

/// The positions, in tree order, of the controls of class `class` within
/// the subtree of `scope`.  An ordinal field reference indexes into this
/// sequence.
pub open spec fn field_positions(snap: UiSnapshot, scope: ElementRef, class: Seq<char>) -> Seq<
    int,
> {
    scope_matches(snap, scope, class_filter(class))
}

/// The displayed value of the field at ordinal `index`, as a character
/// sequence.
pub open spec fn field_value(snap: UiSnapshot, scope: ElementRef, class: Seq<char>, index: int) -> Seq<
    char,
> {
    snap@[field_positions(snap, scope, class)[index]].props.value@
}

/// Collects the controls of class `class_name` under `scope`, in tree
/// order, and returns the element at `index`; fails with
/// `FieldIndexOutOfRange(index)` exactly when fewer than `index + 1` such
/// controls exist.
pub fn resolve_field(snap: &UiSnapshot, scope: ElementRef, class_name: &str, index: usize) -> (r:
    Result<ElementRef, AbcError>)
    requires
        snap.wf(),
        scope.index < snap@.len(),
    ensures
        index < field_positions(*snap, scope, class_name@).len() ==> (r matches Ok(e) && e.index
            == field_positions(*snap, scope, class_name@)[index as int] && e.index < snap@.len()),
        index >= field_positions(*snap, scope, class_name@).len() ==> r == Err::<
            ElementRef,
            AbcError,
        >(AbcError::FieldIndexOutOfRange(index)),
{
    let q = Query::new().classname(class_name.to_owned());
    proof {
        assert(q.filter() == class_filter(class_name@));
    }
    let all = find_all(snap, scope, &q);
    proof {
        assert(all@.len() == field_positions(*snap, scope, class_name@).len());
    }
    if index < all.len() {
        let e = all[index];
        proof {
            assert(all@.map_values(|e: ElementRef| e.index as int)[index as int]
                == field_positions(*snap, scope, class_name@)[index as int]);
            lemma_matching_between_props(
                snap@,
                class_filter(class_name@),
                scope.index as int,
                snap@[scope.index as int].subtree_end as int,
            );
        }
        Ok(e)
    } else {
        Err(AbcError::FieldIndexOutOfRange(index))
    }
}

/// Reads the displayed value of the field at ordinal `index` of class
/// `class_name` under `scope`.  An empty string is a valid result; the
/// error case arises exactly when the index is beyond the number of
/// matching controls, and carries the attempted index.
pub fn read_field(snap: &UiSnapshot, scope: ElementRef, class_name: &str, index: usize) -> (r:
    Result<String, AbcError>)
    requires
        snap.wf(),
        scope.index < snap@.len(),
    ensures
        index < field_positions(*snap, scope, class_name@).len() ==> (r matches Ok(v) && v@
            == field_value(*snap, scope, class_name@, index as int)),
        index >= field_positions(*snap, scope, class_name@).len() ==> r == Err::<
            String,
            AbcError,
        >(AbcError::FieldIndexOutOfRange(index)),
{
    match resolve_field(snap, scope, class_name, index) {
        Ok(e) => Ok(snap.props(e.index).value.clone()),
        Err(err) => Err(err),
    }
}

/// Plans a write into the field at ordinal `index` of class `class_name`
/// under `scope`: focus the control, then inject the literal text followed
/// by the confirmation key.  The plan does not re-read the control; a
/// caller needing confirmation must read the field back explicitly.  Fails
/// with `FieldIndexOutOfRange(index)` exactly when the index is beyond the
/// number of matching controls.
pub fn write_field(
    snap: &UiSnapshot,
    scope: ElementRef,
    class_name: &str,
    index: usize,
    text: &str,
) -> (r: Result<FieldEntry, AbcError>)
    requires
        snap.wf(),
        scope.index < snap@.len(),
    ensures
        index < field_positions(*snap, scope, class_name@).len() ==> (r matches Ok(w)
            && w.target.index == field_positions(*snap, scope, class_name@)[index as int]
            && w.keys@ == text@ + "{enter}"@ && w.interval_ms == SHORT_WAIT_MS),
        index >= field_positions(*snap, scope, class_name@).len() ==> r == Err::<
            FieldEntry,
            AbcError,
        >(AbcError::FieldIndexOutOfRange(index)),
{
    match resolve_field(snap, scope, class_name, index) {
        Ok(e) => Ok(
            FieldEntry {
                target: e,
                keys: text.to_owned().concat("{enter}"),
                interval_ms: SHORT_WAIT_MS,
            },
        ),
        Err(err) => Err(err),
    }
}

} // verus!
