//! Skip and expected-failure annotations of a test object.
//!
//! Two conventions are understood: the attributes that `unittest` decorators set
//! (`__unittest_skip__`, `__unittest_skip_why__`, `__unittest_expecting_failure__`),
//! and the `pytestmark` list that pytest's mark decorators fill.

use vstd::prelude::*;
use vstd::string::*;
use crate::text::same_text;

verus! {

/// One entry of a `pytestmark` list.
#[derive(Debug, Clone)]
pub struct Marker {
    /// The mark's name: `skip`, `skipIf`, `xfail`, ...
    pub name: String,
    /// The truth value of the mark's first positional argument, if it has one
    pub condition: Option<bool>,
    /// The mark's `reason` keyword argument, rendered as a string, if it has one
    pub reason: Option<String>,
}

/// What a test object declares about skipping and expected failure.
#[derive(Debug, Clone)]
pub struct Annotations {
    /// `__unittest_skip__` is present and truthy
    pub skip: bool,
    /// `__unittest_skip_why__`, rendered as a string, if present
    pub skip_why: Option<String>,
    /// `__unittest_expecting_failure__` is present and truthy
    pub expecting_failure: bool,
    /// The entries of `pytestmark`, if the object has that attribute
    pub marks: Option<Vec<Marker>>,
}

/// The text of an optional string, the empty text when absent.
pub open spec fn text_or_empty(s: Option<String>) -> Seq<char> {
    match s {
        Some(s) => s@,
        None => Seq::empty(),
    }
}

/// A mark that asks for the test to be skipped: `skip`, or `skipIf` with a true condition.
pub open spec fn mark_skips(m: Marker) -> bool {
    m.name@ == "skip"@ || (m.name@ == "skipIf"@ && m.condition == Some(true))
}

/// The reason of the first mark in `marks` that asks for a skip.
pub open spec fn first_skip(marks: Seq<Marker>) -> Option<Seq<char>>
    decreases marks.len(),
{
    if marks.len() == 0 {
        None
    } else if mark_skips(marks[0]) {
        Some(text_or_empty(marks[0].reason))
    } else {
        first_skip(marks.skip(1))
    }
}

/// Why the object is skipped, or `None` when it is not: the native attribute first,
/// then the first skipping mark.
pub open spec fn skip_reason(a: Annotations) -> Option<Seq<char>> {
    if a.skip {
        Some(text_or_empty(a.skip_why))
    } else {
        match a.marks {
            Some(marks) => first_skip(marks@),
            None => None,
        }
    }
}

/// The condition of the first `xfail` mark in `marks`: `None` when there is no such mark;
/// a mark without a condition is unconditional.
pub open spec fn first_xfail(marks: Seq<Marker>) -> Option<bool>
    decreases marks.len(),
{
    if marks.len() == 0 {
        None
    } else if marks[0].name@ == "xfail"@ {
        Some(
            match marks[0].condition {
                Some(c) => c,
                None => true,
            },
        )
    } else {
        first_xfail(marks.skip(1))
    }
}

/// Whether the object is marked as expected to fail.
pub open spec fn expects_failure(a: Annotations) -> bool {
    a.expecting_failure || match a.marks {
        Some(marks) => first_xfail(marks@) == Some(true),
        None => false,
    }
}

fn copy_text(s: &Option<String>) -> (r: String)
    ensures
        r@ == text_or_empty(*s),
{
    match s {
        Some(s) => s.clone(),
        None => String::new(),
    }
}

fn skip_from_marks(marks: &Vec<Marker>) -> (r: Option<String>)
    ensures
        r.is_some() == first_skip(marks@).is_some(),
        r.is_some() ==> r.unwrap()@ == first_skip(marks@).unwrap(),
{
    let mut i: usize = 0;
    assert(marks@.skip(0) =~= marks@);
    while i < marks.len()
        invariant
            i <= marks.len(),
            first_skip(marks@) == first_skip(marks@.skip(i as int)),
        decreases marks.len() - i,
    {
        let m = &marks[i];
        proof {
            assert(marks@.skip(i as int)[0] == marks@[i as int]);
            assert(marks@.skip(i as int).skip(1) =~= marks@.skip(i + 1));
        }
        let skips = same_text(m.name.as_str(), "skip") || (same_text(m.name.as_str(), "skipIf")
            && matches!(m.condition, Some(true)));
        if skips {
            return Some(copy_text(&m.reason));
        }
        i = i + 1;
    }
    None
}

fn xfail_from_marks(marks: &Vec<Marker>) -> (r: Option<bool>)
    ensures
        r == first_xfail(marks@),
{
    let mut i: usize = 0;
    assert(marks@.skip(0) =~= marks@);
    while i < marks.len()
        invariant
            i <= marks.len(),
            first_xfail(marks@) == first_xfail(marks@.skip(i as int)),
        decreases marks.len() - i,
    {
        let m = &marks[i];
        proof {
            assert(marks@.skip(i as int)[0] == marks@[i as int]);
            assert(marks@.skip(i as int).skip(1) =~= marks@.skip(i + 1));
        }
        if same_text(m.name.as_str(), "xfail") {
            return Some(
                match m.condition {
                    Some(c) => c,
                    None => true,
                },
            );
        }
        i = i + 1;
    }
    None
}

/// Checks an object's annotations for a request to skip the test, and returns the
/// reason given for skipping (empty when none is given).
pub fn has_skip_annotation(a: &Annotations) -> (r: Option<String>)
    ensures
        r.is_some() == skip_reason(*a).is_some(),
        r.is_some() ==> r.unwrap()@ == skip_reason(*a).unwrap(),
{
    if a.skip {
        return Some(copy_text(&a.skip_why));
    }
    match &a.marks {
        Some(marks) => skip_from_marks(marks),
        None => None,
    }
}

/// Checks an object's annotations for the mark of a test expected to fail.
pub fn is_expecting_failure(a: &Annotations) -> (r: bool)
    ensures
        r == expects_failure(*a),
{
    if a.expecting_failure {
        return true;
    }
    match &a.marks {
        Some(marks) => match xfail_from_marks(marks) {
            Some(c) => c,
            None => false,
        },
        None => false,
    }
}

} // verus!
