use crate::types::{Id, IdView};
use vstd::prelude::*;

verus! {

/// Hands out consecutive request ids, starting at 1.
#[derive(Debug)]
pub struct IdGenerator {
    next_id: u64,
}

impl View for IdGenerator {
    type V = nat;

    /// The id that the next call will hand out.
    closed spec fn view(&self) -> nat {
        self.next_id as nat
    }
}

impl IdGenerator {
    /// Creates a generator whose first id is 1.
    pub fn new() -> (generator: IdGenerator)
        ensures
            generator@ == 1,
    {
        IdGenerator { next_id: 1 }
    }

    /// Whether another id can be handed out.
    pub fn has_next(&self) -> (left: bool)
        ensures
            left == (self@ < u64::MAX),
    {
        self.next_id < u64::MAX
    }

    /// Returns the next id and advances the generator by one.
    pub fn next_int(&mut self) -> (id: u64)
        requires
            old(self)@ < u64::MAX,
        ensures
            id == old(self)@,
            final(self)@ == old(self)@ + 1,
            id_step(*old(self), *final(self), id),
    {
        let id = self.next_id;
        self.next_id += 1;
        id
    }

    /// Returns the next id as a request id and advances the generator by one.
    pub fn next(&mut self) -> (id: Id)
        requires
            old(self)@ < u64::MAX,
        ensures
            id@ == IdView::Num(old(self)@ as u64),
            final(self)@ == old(self)@ + 1,
            id_step(*old(self), *final(self), old(self)@ as u64),
    {
        let id = Id::Num(self.next_id);
        self.next_id += 1;
        id
    }
}

/// One call of `next_int` or `next`: it hands out the number `id` and takes the generator
/// from `before` to `after`.
pub open spec fn id_step(before: IdGenerator, after: IdGenerator, id: u64) -> bool {
    id == before@ && after@ == before@ + 1
}

proof fn lemma_count_after_steps(gens: Seq<IdGenerator>, ids: Seq<u64>, k: int)
    requires
        gens.len() == ids.len() + 1,
        gens[0]@ == 1,
        forall|i: int| 0 <= i < ids.len() ==> #[trigger] id_step(gens[i], gens[i + 1], ids[i]),
        0 <= k <= ids.len(),
    ensures
        gens[k]@ == k + 1,
    decreases k,
{
    if k > 0 {
        lemma_count_after_steps(gens, ids, k - 1);
        assert(id_step(gens[k - 1], gens[k], ids[k - 1]));
    }
}

/// One generator, from its creation on, hands out 1, 2, 3, ... whichever of `next_int` and
/// `next` is called: the calls draw from one counter, the ids count up by one, never
/// repeat and are never 0. `gens` are the states of the generator from its creation on,
/// `ids` the numbers that the calls between them handed out.
pub proof fn law_ids_count_up_from_one(gens: Seq<IdGenerator>, ids: Seq<u64>)
    requires
        gens.len() == ids.len() + 1,
        gens[0]@ == 1,
        forall|i: int| 0 <= i < ids.len() ==> #[trigger] id_step(gens[i], gens[i + 1], ids[i]),
    ensures
        forall|i: int| 0 <= i < ids.len() ==> #[trigger] ids[i] == i + 1,
        forall|i: int, j: int| 0 <= i < j < ids.len() ==> #[trigger] ids[i] < #[trigger] ids[j],
        gens[ids.len() as int]@ == ids.len() + 1,
{
    assert forall|i: int| 0 <= i < ids.len() implies #[trigger] ids[i] == i + 1 by {
        lemma_count_after_steps(gens, ids, i);
        assert(id_step(gens[i], gens[i + 1], ids[i]));
    }
    assert forall|i: int, j: int| 0 <= i < j < ids.len() implies #[trigger] ids[i] < #[trigger] ids[j] by {
        assert(ids[i] == i + 1);
        assert(ids[j] == j + 1);
    }
    lemma_count_after_steps(gens, ids, ids.len() as int);
}

} // verus!
