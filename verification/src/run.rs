//! What holds of every run of mints, whatever the blocks and whoever the senders.

use crate::draw::{lemma_draw_index_in_range, DrawContext};
use crate::pool::{lemma_initial_pool, lemma_pool_without};
use crate::state::StateView;
use vstd::prelude::*;

verus! {

/// The state of a minter that has just been set up is well formed.
pub proof fn lemma_initial_wf()
    ensures
        StateView::initial().wf(),
{
    lemma_initial_pool();
}

/// One mint from a well-formed state with something left: the count drops by
/// one, the state stays well formed, and the pool loses the minted identifier
/// and nothing else.
pub proof fn lemma_mint(state: StateView, ctx: DrawContext)
    requires
        state.wf(),
        state.token_count > 0,
    ensures
        0 <= ctx.place(state.token_count) < state.available_ids.len(),
        state.mint(ctx).token_count == state.token_count - 1,
        state.mint(ctx).token == state.token,
        state.mint(ctx).wf(),
        forall|id: u32|
            state.mint(ctx).available_ids.contains(id) <==> (state.available_ids.contains(id) && id
                != state.minted(ctx)),
{
    lemma_draw_index_in_range(ctx.height, ctx.time, ctx.sender, state.token_count);
    lemma_pool_without(state.available_ids, ctx.place(state.token_count));
}

/// After any number of mints in a row, none of which found the pool empty,
/// the count is lower by exactly that number, the state is still well formed
/// (the count mirrors the pool, which holds no identifier twice), and the pool
/// holds only identifiers that it held at the start.
pub proof fn lemma_mints_shrink_pool(start: StateView, run: Seq<DrawContext>)
    requires
        start.wf(),
        run.len() <= start.token_count,
    ensures
        start.mints(run).token_count == start.token_count - run.len(),
        start.mints(run).token == start.token,
        start.mints(run).wf(),
        forall|id: u32|
            start.mints(run).available_ids.contains(id) ==> start.available_ids.contains(id),
    decreases run.len(),
{
    if run.len() > 0 {
        lemma_mints_shrink_pool(start, run.drop_last());
        lemma_mint(start.mints(run.drop_last()), run.last());
    }
}

/// An identifier that has been minted is in no later pool: after mint number
/// `earlier` of a run has drawn it, the pool that any further number of mints
/// of the run leaves does not hold it.
pub proof fn lemma_minted_never_returns(
    start: StateView,
    run: Seq<DrawContext>,
    earlier: int,
    later: int,
)
    requires
        start.wf(),
        run.len() <= start.token_count,
        0 <= earlier < later <= run.len(),
    ensures
        !start.mints(run.take(later)).available_ids.contains(
            start.mints(run.take(earlier)).minted(run[earlier]),
        ),
    decreases later,
{
    let before = start.mints(run.take(later - 1));
    lemma_mints_shrink_pool(start, run.take(later - 1));
    lemma_mint(before, run[later - 1]);
    assert(run.take(later).drop_last() =~= run.take(later - 1));
    assert(run.take(later).last() == run[later - 1]);
    assert(start.mints(run.take(later)) == before.mint(run[later - 1]));
    if earlier < later - 1 {
        lemma_minted_never_returns(start, run, earlier, later - 1);
    }
}

/// The address of the child contract is whatever the last report on its
/// creation named: a second report replaces what the first recorded.
pub proof fn lemma_with_token_replaces(state: StateView, first: Seq<char>, second: Seq<char>)
    ensures
        state.with_token(first).token == first,
        state.with_token(first).with_token(second) == state.with_token(second),
        state.with_token(first).available_ids == state.available_ids,
        state.with_token(first).token_count == state.token_count,
{
}

} // verus!
