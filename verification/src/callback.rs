//! Work that is handed in as a closure.

use vstd::prelude::*;

verus! {

/// What is reported of a closure that returned `answer`.
pub open spec fn verdict(answer: bool) -> Seq<char> {
    if answer {
        "closure returned true"@
    } else {
        "closure returned false"@
    }
}

/// Calls `f` once and reports what it returned.
pub fn take_closure<F>(f: F) -> (report: &'static str) where F: FnOnce() -> bool
    requires
        f.requires(()),
    ensures
        exists|answer: bool| f.ensures((), answer) && report@ == #[trigger] verdict(answer),
{
    let answer = f();
    let report = if answer {
        "closure returned true"
    } else {
        "closure returned false"
    };
    assert(report@ == verdict(answer));
    report
}

} // verus!
