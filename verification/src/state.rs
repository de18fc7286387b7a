//! What the minter remembers between operations.

use crate::draw::DrawContext;
use crate::pool::{has_no_duplicates, initial_pool, lemma_pool_without, pool_without, POOL_SIZE};
use vstd::prelude::*;

verus! {

/// The three facts that the minter keeps: the address of the child token
/// contract, the identifiers that can still be drawn, and how many they are.
#[derive(Clone, Debug, PartialEq, Eq)]
pub struct State {
    /// The address of the child token contract; empty until the contract exists.
    pub token: String,
    /// How many identifiers can still be drawn.
    pub token_count: u64,
    /// The identifiers that can still be drawn, in no particular order.
    pub available_ids: Vec<u32>,
}

/// The state as mathematics sees it.
pub struct StateView {
    pub token: Seq<char>,
    pub token_count: nat,
    pub available_ids: Seq<u32>,
}

impl StateView {
    /// The count mirrors the pool, and no identifier is in the pool twice.
    pub open spec fn wf(self) -> bool {
        &&& self.token_count == self.available_ids.len()
        &&& self.available_ids.no_duplicates()
    }

    /// The state of a minter that has just been set up: the full pool, and no
    /// child contract yet.
    pub open spec fn initial() -> StateView {
        StateView {
            token: Seq::empty(),
            token_count: POOL_SIZE as nat,
            available_ids: initial_pool(),
        }
    }

    /// This state after the identifier at `index` has been drawn from the pool.
    pub open spec fn draw(self, index: int) -> StateView
        recommends
            0 <= index < self.available_ids.len(),
    {
        StateView {
            token: self.token,
            token_count: (self.token_count - 1) as nat,
            available_ids: pool_without(self.available_ids, index),
        }
    }

    /// The identifier that a mint in the circumstances `ctx` draws.
    pub open spec fn minted(self, ctx: DrawContext) -> u32
        recommends
            self.token_count > 0,
    {
        self.available_ids[ctx.place(self.token_count)]
    }

    /// This state after a mint in the circumstances `ctx`.
    pub open spec fn mint(self, ctx: DrawContext) -> StateView
        recommends
            self.token_count > 0,
    {
        self.draw(ctx.place(self.token_count))
    }

    /// This state after one mint for each member of `run`, in order.
    pub open spec fn mints(self, run: Seq<DrawContext>) -> StateView
        recommends
            run.len() <= self.token_count,
        decreases run.len(),
    {
        if run.len() == 0 {
            self
        } else {
            self.mints(run.drop_last()).mint(run.last())
        }
    }

    /// This state with `address` as the address of the child contract.
    pub open spec fn with_token(self, address: Seq<char>) -> StateView {
        StateView { token: address, ..self }
    }
}

impl View for State {
    type V = StateView;

    open spec fn view(&self) -> StateView {
        StateView {
            token: self.token@,
            token_count: self.token_count as nat,
            available_ids: self.available_ids@,
        }
    }
}

impl State {
    /// The count mirrors the pool, and no identifier is in the pool twice.
    pub open spec fn wf(&self) -> bool {
        self@.wf()
    }

    /// The state before anything has happened: no child contract, nothing to draw.
    pub fn new() -> (state: State)
        ensures
            state@.token == Seq::<char>::empty(),
            state@.token_count == 0,
            state@.available_ids == Seq::<u32>::empty(),
            state.wf(),
    {
        State { token: String::new(), token_count: 0, available_ids: Vec::new() }
    }

    /// Draws the identifier at place `index` of the pool: takes it out, moves
    /// the last identifier into its place, and counts one less.
    pub fn draw(&mut self, index: u64) -> (token_id: u32)
        requires
            old(self).wf(),
            index < old(self).token_count,
        ensures
            token_id == old(self)@.available_ids[index as int],
            final(self)@ == old(self)@.draw(index as int),
            final(self).wf(),
    {
        let len = self.available_ids.len();
        let place = index as usize;
        assert(place == index && place < len);
        proof {
            lemma_pool_without(self.available_ids@, index as int);
        }
        let token_id = self.available_ids.swap_remove(place);
        self.token_count = self.token_count - 1;
        token_id
    }

    /// Tells whether the state is well formed. A state that comes from outside,
    /// from storage for one, is to pass this test before it is operated on.
    pub fn is_well_formed(&self) -> (ok: bool)
        ensures
            ok == self.wf(),
    {
        let len = self.available_ids.len();
        len as u64 == self.token_count && has_no_duplicates(&self.available_ids)
    }
}

} // verus!
