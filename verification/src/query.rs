//! Locator queries: the predicates by which the engine addresses elements of
//! the host application.  A query combines an optional name predicate
//! (substring or exact) with an optional class-name predicate, conjunctively,
//! plus the retry timeout that a polled search is allowed to spend.
//!
//! Contracts speak of a query through its mathematical view, a [`Filter`]
//! over character sequences.

use vstd::prelude::*;
use crate::text::has_substring;
use crate::tree::ElementProps;

verus! {

/// The default retry timeout of a polled search, in milliseconds: thirty
/// base units, generous enough to cover the host application's redraw
/// latency after a navigation keystroke.
pub const DEFAULT_TIMEOUT_MS: u64 = 3000;

/// Predicate on an element's display name.
#[derive(Debug, Clone)]
pub enum NamePredicate {
    /// Any name is accepted.
    AnyName,
    /// The name must contain the given text.
    NameContains(String),
    /// The name must equal the given text exactly.
    NameEquals(String),
}

/// Predicate on an element's control class name.
#[derive(Debug, Clone)]
pub enum ClassPredicate {
    /// Any class is accepted.
    AnyClass,
    /// The class name must equal the given text exactly.
    ClassEquals(String),
}

/// The mathematical view of a name predicate.
pub enum NamePredView {
    AnyName,
    Contains(Seq<char>),
    Equals(Seq<char>),
}

/// The mathematical view of a class predicate.
pub enum ClassPredView {
    AnyClass,
    Equals(Seq<char>),
}

/// The mathematical view of what a query selects: its two predicates,
/// stripped of the retry timeout (which affects when a polled search gives
/// up, never which elements match).
pub struct Filter {
    pub name: NamePredView,
    pub class: ClassPredView,
}

impl View for NamePredicate {
    type V = NamePredView;

    open spec fn view(&self) -> NamePredView {
        match self {
            NamePredicate::AnyName => NamePredView::AnyName,
            NamePredicate::NameContains(s) => NamePredView::Contains(s@),
            NamePredicate::NameEquals(s) => NamePredView::Equals(s@),
        }
    }
}

impl View for ClassPredicate {
    type V = ClassPredView;

    open spec fn view(&self) -> ClassPredView {
        match self {
            ClassPredicate::AnyClass => ClassPredView::AnyClass,
            ClassPredicate::ClassEquals(s) => ClassPredView::Equals(s@),
        }
    }
}

/// Whether a display name satisfies a name predicate.
pub open spec fn name_matches(p: NamePredView, name: Seq<char>) -> bool {
    match p {
        NamePredView::AnyName => true,
        NamePredView::Contains(s) => has_substring(name, s),
        NamePredView::Equals(s) => name == s,
    }
}

/// Whether a class name satisfies a class predicate.
pub open spec fn class_matches(p: ClassPredView, class: Seq<char>) -> bool {
    match p {
        ClassPredView::AnyClass => true,
        ClassPredView::Equals(s) => class == s,
    }
}

/// Whether an element's properties satisfy every predicate of the filter.
pub open spec fn filter_matches(f: Filter, props: ElementProps) -> bool {
    name_matches(f.name, props.name@) && class_matches(f.class, props.class_name@)
}

/// The filter that selects exactly the controls of one class, regardless of
/// name: the shape of every ordinal field access.
pub open spec fn class_filter(class: Seq<char>) -> Filter {
    Filter { name: NamePredView::AnyName, class: ClassPredView::Equals(class) }
}

/// A locator query: name predicate and class predicate combined
/// conjunctively, with the retry timeout of a polled search.
#[derive(Debug, Clone)]
pub struct Query {
    pub name_pred: NamePredicate,
    pub class_pred: ClassPredicate,
    pub timeout_ms: u64,
}

impl Query {
    /// What this query selects, as a mathematical filter.
    pub open spec fn filter(&self) -> Filter {
        Filter { name: self.name_pred@, class: self.class_pred@ }
    }

    /// An unconstrained query with the default retry timeout; every element
    /// matches it.
    pub fn new() -> (q: Query)
        ensures
            q.filter().name is AnyName,
            q.filter().class is AnyClass,
            q.timeout_ms == DEFAULT_TIMEOUT_MS,
    {
        Query {
            name_pred: NamePredicate::AnyName,
            class_pred: ClassPredicate::AnyClass,
            timeout_ms: DEFAULT_TIMEOUT_MS,
        }
    }

    /// Requires the display name to contain `text`.
    pub fn contains_name(self, text: String) -> (q: Query)
        ensures
            q.filter().name == NamePredView::Contains(text@),
            q.filter().class == self.filter().class,
            q.timeout_ms == self.timeout_ms,
    {
        Query { name_pred: NamePredicate::NameContains(text), ..self }
    }

    /// Requires the display name to equal `text` exactly.
    pub fn name(self, text: String) -> (q: Query)
        ensures
            q.filter().name == NamePredView::Equals(text@),
            q.filter().class == self.filter().class,
            q.timeout_ms == self.timeout_ms,
    {
        Query { name_pred: NamePredicate::NameEquals(text), ..self }
    }

    /// Requires the control class name to equal `text` exactly.
    pub fn classname(self, text: String) -> (q: Query)
        ensures
            q.filter().class == ClassPredView::Equals(text@),
            q.filter().name == self.filter().name,
            q.timeout_ms == self.timeout_ms,
    {
        Query { class_pred: ClassPredicate::ClassEquals(text), ..self }
    }

    /// Sets the retry timeout of a polled search.
    pub fn timeout(self, ms: u64) -> (q: Query)
        ensures
            q.timeout_ms == ms,
            q.filter() == self.filter(),
    {
        Query { timeout_ms: ms, ..self }
    }

    /// Decides whether one element's properties satisfy the query.
    pub fn matches(&self, props: &ElementProps) -> (r: bool)
        ensures
            r == filter_matches(self.filter(), *props),
    {
        let name_ok = match &self.name_pred {
            NamePredicate::AnyName => true,
            NamePredicate::NameContains(s) => crate::text::str_contains(
                props.name.as_str(),
                s.as_str(),
            ),
            NamePredicate::NameEquals(s) => props.name == *s,
        };
        let class_ok = match &self.class_pred {
            ClassPredicate::AnyClass => true,
            ClassPredicate::ClassEquals(s) => props.class_name == *s,
        };
        name_ok && class_ok
    }
}

} // verus!
