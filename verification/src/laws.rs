//! Engine-wide laws that relate the contracts of several operations.

use vstd::prelude::*;
use crate::engine::{Context, hook_current_value, hook_stored};

verus! {

/// Hook reads are positional and stable: whenever the active fiber's
/// alternate carries a state cell at the read cursor, the value a state
/// read observes is exactly that cell's prior value — whatever initial
/// value the caller supplies. The n-th read of a re-rendered functional
/// fiber therefore always observes the n-th cell of its previous
/// invocation, and the initial value only ever seeds the first render.
pub proof fn lemma_hook_reads_prior_slot(ctx: Context, f: int, idx: int, i1: u64, i2: u64)
    requires
        hook_stored(ctx, f, idx),
    ensures
        hook_current_value(ctx, f, idx, i1) == hook_current_value(ctx, f, idx, i2),
        hook_current_value(ctx, f, idx, i1) == ctx.fibers@[ctx.fibers@[f].alternate->0 as int].hooks@[idx],
{
}

} // verus!
