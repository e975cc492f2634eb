//! What holds of every plan.

use vstd::prelude::*;
use crate::palette::{ground_rgb, palette_rgb};
use crate::plan::{
    is_moving, is_outcome, moving_count, plan_at, rejected, Paint, RenderInput, RenderPlan,
    UnsupportedShape,
};
use crate::shape::Dimension;

verus! {

/// A collider on a static body whose entity asks for no colour is painted in
/// the ground tone, wherever it stands among the inputs.
pub proof fn lemma_static_is_ground<C>(dim: Dimension, inputs: Seq<RenderInput<C>>, i: int)
    requires
        0 <= i < inputs.len(),
        inputs[i].found matches Some(facts) && facts.is_static,
        inputs[i].custom is None,
    ensures
        plan_at(dim, inputs, i) matches Some(plan) && plan.paint == Paint::<C>::Fixed(
            ground_rgb(),
        ),
{
}

/// A colour that the entity asks for is the colour it gets, on a static body
/// and on a moving one.
pub proof fn lemma_custom_colour_wins<C>(
    dim: Dimension,
    inputs: Seq<RenderInput<C>>,
    i: int,
    colour: C,
)
    requires
        0 <= i < inputs.len(),
        inputs[i].found is Some,
        inputs[i].custom == Some(colour),
    ensures
        plan_at(dim, inputs, i) matches Some(plan) && plan.paint == Paint::Custom(colour),
{
}

/// A collider on a moving body whose entity asks for no colour is painted
/// with the palette entry that follows the number of moving bodies before it.
pub proof fn lemma_moving_follows_count<C>(dim: Dimension, inputs: Seq<RenderInput<C>>, i: int)
    requires
        0 <= i < inputs.len(),
        is_moving(inputs[i]),
        inputs[i].custom is None,
    ensures
        plan_at(dim, inputs, i) matches Some(plan) && plan.paint == Paint::<C>::Fixed(
            palette_rgb(moving_count(inputs, i) + 1),
        ),
{
}

/// The palette comes round again after three moving bodies.
pub proof fn lemma_palette_repeats(slot: int)
    ensures
        palette_rgb(slot + 3) == palette_rgb(slot),
{
}

/// Each collider of a moving body advances the count by one; static bodies
/// and inputs that were not found leave it as it is.
pub proof fn lemma_count_steps<C>(inputs: Seq<RenderInput<C>>, n: int)
    requires
        0 <= n < inputs.len(),
    ensures
        0 <= moving_count(inputs, n) <= n,
        is_moving(inputs[n]) ==> moving_count(inputs, n + 1) == moving_count(inputs, n) + 1,
        !is_moving(inputs[n]) ==> moving_count(inputs, n + 1) == moving_count(inputs, n),
    decreases n,
{
    if n > 0 {
        lemma_count_steps(inputs, n - 1);
    }
}

/// The count depends on nothing but which inputs are colliders of moving
/// bodies: neither colours asked for nor shape kinds disturb the palette.
pub proof fn lemma_count_ignores_the_rest<C>(
    a: Seq<RenderInput<C>>,
    b: Seq<RenderInput<C>>,
    n: int,
)
    requires
        0 <= n <= a.len(),
        n <= b.len(),
        forall|j: int| 0 <= j < n ==> is_moving(#[trigger] a[j]) == is_moving(b[j]),
    ensures
        moving_count(a, n) == moving_count(b, n),
    decreases n,
{
    if n > 0 {
        lemma_count_ignores_the_rest(a, b, n - 1);
    }
}

/// The same inputs have one outcome only: the same plans, or the same refusal.
pub proof fn lemma_outcome_is_unique<C>(
    dim: Dimension,
    inputs: Seq<RenderInput<C>>,
    first: Result<Vec<Option<RenderPlan<C>>>, UnsupportedShape>,
    second: Result<Vec<Option<RenderPlan<C>>>, UnsupportedShape>,
)
    requires
        is_outcome(dim, inputs, first),
        is_outcome(dim, inputs, second),
    ensures
        first is Ok <==> second is Ok,
        first matches Ok(p) ==> second matches Ok(q) && p@ == q@,
        first matches Err(e) ==> second matches Err(f) && e == f,
{
    match (first, second) {
        (Ok(p), Ok(q)) => {
            assert(p@ =~= q@);
        },
        (Err(e), Err(f)) => {
            if e.position < f.position {
                assert(!rejected(dim, inputs[e.position as int]));
            } else if f.position < e.position {
                assert(!rejected(dim, inputs[f.position as int]));
            }
        },
        (Ok(_), Err(f)) => {
            assert(!rejected(dim, inputs[f.position as int]));
        },
        (Err(e), Ok(_)) => {
            assert(!rejected(dim, inputs[e.position as int]));
        },
    }
}

} // verus!
