//! Laying a run of items out in rows of a fixed width.

use vstd::prelude::*;

verus! {

/// Where row number `index` begins when `len` items are laid out `span` to a
/// row: at its first item, or at the end when the items have run out.
pub open spec fn row_start(len: nat, span: nat, index: nat) -> nat {
    if index * span <= len {
        index * span
    } else {
        len
    }
}

/// The rows that `len` items take when laid out `span` to a row, each as the
/// indices of its first item and of the one after its last. There is one row
/// more than there are full rows, so the last row is empty when the items
/// fill their rows exactly.
pub fn fold_rows(len: usize, span: usize) -> (rows: Vec<(usize, usize)>)
    requires
        span > 0,
    ensures
        rows@.len() == 1 + len / span,
        forall|i: int|
            0 <= i < rows@.len() ==> #[trigger] rows@[i] == (
                row_start(len as nat, span as nat, i as nat) as usize,
                row_start(len as nat, span as nat, (i + 1) as nat) as usize,
            ),
{
    let times: usize = len / span;
    let mut rows: Vec<(usize, usize)> = Vec::new();
    let mut index: usize = 0;
    while index < times
        invariant
            span > 0,
            times == len / span,
            index <= times,
            rows@.len() == index,
            forall|i: int|
                0 <= i < rows@.len() ==> #[trigger] rows@[i] == (
                    row_start(len as nat, span as nat, i as nat) as usize,
                    row_start(len as nat, span as nat, (i + 1) as nat) as usize,
                ),
        decreases times - index,
    {
        proof {
            lemma_full_row(len as nat, span as nat, index as nat);
        }
        let start: usize = index * span;
        rows.push((start, start + span));
        index = index + 1;
    }
    proof {
        lemma_last_row(len as nat, span as nat);
    }
    rows.push((times * span, len));
    rows
}

/// A row before the last is full: it begins at `index * span` and ends `span`
/// items later, within the items.
proof fn lemma_full_row(len: nat, span: nat, index: nat)
    requires
        span > 0,
        index < len / span,
    ensures
        row_start(len, span, index) == index * span,
        row_start(len, span, index + 1) == index * span + span,
        index * span + span <= len,
{
    vstd::arithmetic::div_mod::lemma_fundamental_div_mod(len as int, span as int);
    assert((index + 1) * span == index * span + span) by (nonlinear_arith);
    assert((index + 1) * span <= (len / span) * span) by (nonlinear_arith)
        requires
            index + 1 <= len / span,
    ;
    assert(index * span >= 0) by (nonlinear_arith);
    assert(span * (len / span) == (len / span) * span) by (nonlinear_arith);
}

/// The last row begins after the full rows and ends with the items.
proof fn lemma_last_row(len: nat, span: nat)
    requires
        span > 0,
    ensures
        row_start(len, span, len / span) == (len / span) * span,
        row_start(len, span, len / span + 1) == len,
        (len / span) * span <= len,
{
    vstd::arithmetic::div_mod::lemma_fundamental_div_mod(len as int, span as int);
    assert(span * (len / span) == (len / span) * span) by (nonlinear_arith);
    assert((len / span + 1) * span == (len / span) * span + span) by (nonlinear_arith);
    assert((len / span) * span >= 0) by (nonlinear_arith);
}

} // verus!
