//! Prefix iterators of the storage that guests have opened.

use vstd::prelude::*;

verus! {

/// The number by which a guest refers to an iterator.
#[derive(Clone, Copy, Debug, PartialEq, Eq, Structural)]
pub struct PrefixIteratorId {
    id: u64,
}

impl PrefixIteratorId {
    /// The number that the guest sees.
    pub closed spec fn number(self) -> u64 {
        self.id
    }

    /// The iterator to which a guest refers by a number.
    pub fn new(id: u64) -> (iter_id: PrefixIteratorId)
        ensures
            iter_id.number() == id,
    {
        PrefixIteratorId { id }
    }

    /// The number that the guest sees.
    pub fn id(&self) -> (id: u64)
        ensures
            id == self.number(),
    {
        self.id
    }
}

/// What pairs of key bytes and value bytes hold.
pub open spec fn pairs_of(pairs: Seq<(Vec<u8>, Vec<u8>)>) -> Seq<(Seq<u8>, Seq<u8>)> {
    Seq::new(pairs.len(), |i: int| (pairs[i].0@, pairs[i].1@))
}

/// The pairs that one iterator has not handed out yet, the next one last.
struct PrefixIterator {
    rest: Vec<(Vec<u8>, Vec<u8>)>,
}

impl PrefixIterator {
    /// The pairs that are left, the next one first.
    spec fn remaining(self) -> Seq<(Seq<u8>, Seq<u8>)> {
        Seq::new(
            self.rest@.len(),
            |i: int|
                (
                    self.rest@[self.rest@.len() - 1 - i].0@,
                    self.rest@[self.rest@.len() - 1 - i].1@,
                ),
        )
    }

    /// An iterator over pairs in the order in which they are given.
    fn new(pairs: Vec<(Vec<u8>, Vec<u8>)>) -> (iter: PrefixIterator)
        ensures
            iter.remaining() == pairs_of(pairs@),
    {
        let mut from = pairs;
        let mut rest: Vec<(Vec<u8>, Vec<u8>)> = Vec::new();
        while from.len() > 0
            invariant
                from@.len() + rest@.len() == pairs@.len(),
                forall|i: int| 0 <= i < from@.len() ==> from@[i] == pairs@[i],
                forall|i: int|
                    0 <= i < rest@.len() ==> #[trigger] rest@[i] == pairs@[pairs@.len() - 1 - i],
            decreases from@.len(),
        {
            if let Some(pair) = from.pop() {
                rest.push(pair);
            }
        }
        let iter = PrefixIterator { rest };
        assert(iter.remaining() =~= pairs_of(pairs@));
        iter
    }

    /// Hands out the next pair.
    fn next(&mut self) -> (pair: Option<(Vec<u8>, Vec<u8>)>)
        ensures
            match pair {
                Some(pair) => {
                    &&& old(self).remaining().len() > 0
                    &&& (pair.0@, pair.1@) == old(self).remaining()[0]
                    &&& final(self).remaining() == old(self).remaining().drop_first()
                },
                None => {
                    &&& old(self).remaining().len() == 0
                    &&& final(self).remaining() == old(self).remaining()
                },
            },
    {
        let pair = self.rest.pop();
        proof {
            if pair is Some {
                assert(self.remaining() =~= old(self).remaining().drop_first());
            } else {
                assert(self.remaining() =~= old(self).remaining());
            }
        }
        pair
    }
}

/// The iterators that a guest has opened. An iterator stays for as long as the guest runs.
pub struct PrefixIterators {
    iterators: Vec<PrefixIterator>,
}

impl View for PrefixIterators {
    type V = Seq<Seq<(Seq<u8>, Seq<u8>)>>;

    /// The pairs that each iterator has left, the next one first. Iterators are numbered in the
    /// order in which they were opened.
    closed spec fn view(&self) -> Seq<Seq<(Seq<u8>, Seq<u8>)>> {
        Seq::new(self.iterators@.len(), |i: int| self.iterators@[i].remaining())
    }
}

/// The pairs that an iterator has left: none where no iterator has the number.
pub open spec fn left(
    iterators: Seq<Seq<(Seq<u8>, Seq<u8>)>>,
    iter_id: u64,
) -> Seq<(Seq<u8>, Seq<u8>)> {
    if iter_id < iterators.len() {
        iterators[iter_id as int]
    } else {
        Seq::empty()
    }
}

/// The iterators after `n` pairs of one of them were handed out.
pub open spec fn advanced(
    iterators: Seq<Seq<(Seq<u8>, Seq<u8>)>>,
    iter_id: u64,
    n: nat,
) -> Seq<Seq<(Seq<u8>, Seq<u8>)>> {
    if iter_id < iterators.len() {
        iterators.update(iter_id as int, iterators[iter_id as int].skip(n as int))
    } else {
        iterators
    }
}

impl PrefixIterators {
    /// No iterators.
    pub fn new() -> (iterators: PrefixIterators)
        ensures
            iterators@ == Seq::<Seq<(Seq<u8>, Seq<u8>)>>::empty(),
    {
        let iterators = PrefixIterators { iterators: Vec::new() };
        assert(iterators@ =~= Seq::<Seq<(Seq<u8>, Seq<u8>)>>::empty());
        iterators
    }

    /// Adds an iterator over pairs of the storage, and gives it the next number.
    pub fn insert(&mut self, pairs: Vec<(Vec<u8>, Vec<u8>)>) -> (iter_id: PrefixIteratorId)
        ensures
            iter_id.number() == old(self)@.len(),
            final(self)@ == old(self)@.push(pairs_of(pairs@)),
    {
        let id: u64 = self.iterators.len() as u64;
        self.iterators.push(PrefixIterator::new(pairs));
        assert(self@ =~= old(self)@.push(pairs_of(pairs@)));
        PrefixIteratorId { id }
    }

    /// Hands out the next pair of an iterator. There is none where the iterator is at its end, or
    /// where no iterator has the number.
    pub fn next(&mut self, iter_id: PrefixIteratorId) -> (pair: Option<(Vec<u8>, Vec<u8>)>)
        ensures
            match pair {
                Some(pair) => {
                    &&& left(old(self)@, iter_id.number()).len() > 0
                    &&& (pair.0@, pair.1@) == left(old(self)@, iter_id.number())[0]
                    &&& final(self)@ == advanced(old(self)@, iter_id.number(), 1)
                },
                None => {
                    &&& left(old(self)@, iter_id.number()).len() == 0
                    &&& final(self)@ == old(self)@
                },
            },
    {
        if iter_id.id < self.iterators.len() as u64 {
            let pair = self.iterators[iter_id.id as usize].next();
            proof {
                let i = iter_id.id as int;
                if pair is Some {
                    assert(old(self)@[i].drop_first() =~= old(self)@[i].skip(1));
                    assert(self@ =~= advanced(old(self)@, iter_id.number(), 1));
                } else {
                    assert(self@ =~= old(self)@);
                }
            }
            pair
        } else {
            None
        }
    }
}

} // verus!
