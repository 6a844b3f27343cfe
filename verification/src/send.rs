//! Send contexts and the table that keeps them alive while a send is in
//! flight.
//!
//! A send hands its buffers to the engine and returns before the engine is
//! done with them. The buffers therefore live in a [`SendTable`] from the
//! moment the send is accepted until the matching completion arrives. The
//! engine is given a [`SendToken`] and gives it back, unchanged, with the
//! completion. A token is honoured once: after its context has been reclaimed
//! the table never accepts it again, and never issues it again.

use crate::buffer::{concat, BufferRef};
use vstd::prelude::*;

verus! {

/// The buffers of one send, owned until the engine has finished with them.
#[derive(Debug)]
pub struct SendContext {
    buffers: Vec<Vec<u8>>,
}

impl View for SendContext {
    type V = Seq<Seq<u8>>;

    closed spec fn view(&self) -> Seq<Seq<u8>> {
        Seq::new(self.buffers@.len(), |i: int| self.buffers@[i]@)
    }
}

impl SendContext {
    /// A context that owns `buffers`.
    pub fn new(buffers: Vec<Vec<u8>>) -> (context: Self)
        ensures
            context@ == Seq::new(buffers@.len(), |i: int| buffers@[i]@),
    {
        SendContext { buffers }
    }

    /// A context of one buffer.
    pub fn from_bytes(bytes: Vec<u8>) -> (context: Self)
        ensures
            context@ == seq![bytes@],
    {
        let mut buffers: Vec<Vec<u8>> = Vec::new();
        buffers.push(bytes);
        let context = SendContext { buffers };
        assert(context@ =~= seq![bytes@]);
        context
    }

    /// Number of buffers.
    pub fn buffer_count(&self) -> (n: usize)
        ensures
            n == self@.len(),
    {
        self.buffers.len()
    }

    /// A view over buffer `i`, as it is handed to the engine.
    pub fn buffer(&self, i: usize) -> (buffer: BufferRef<'_>)
        requires
            i < self@.len(),
        ensures
            buffer@ == self@[i as int],
    {
        BufferRef::new(self.buffers[i].as_slice())
    }

    /// All bytes of the context, in order.
    pub fn to_bytes(&self) -> (bytes: Vec<u8>)
        ensures
            bytes@ == concat(self@),
    {
        let mut bytes: Vec<u8> = Vec::new();
        let mut i: usize = 0;
        while i < self.buffers.len()
            invariant
                i <= self.buffers@.len(),
                bytes@ == concat(self@.take(i as int)),
            decreases self.buffers@.len() - i,
        {
            let ghost before = bytes@;
            bytes.extend_from_slice(self.buffers[i].as_slice());
            proof {
                assert(self@.take(i + 1).drop_last() =~= self@.take(i as int));
                assert(self@.take(i + 1).last() == self.buffers@[i as int]@);
                assert(bytes@ =~= before + self.buffers@[i as int]@);
            }
            i += 1;
        }
        proof {
            assert(self@.take(i as int) =~= self@);
        }
        bytes
    }

    /// Gives the buffers back to the caller.
    pub fn into_buffers(self) -> (buffers: Vec<Vec<u8>>)
        ensures
            self@ == Seq::new(buffers@.len(), |i: int| buffers@[i]@),
    {
        self.buffers
    }
}

/// Names one accepted send. To the engine it is an opaque integer.
#[derive(Clone, Copy, Debug, PartialEq, Eq, Structural)]
pub struct SendToken {
    /// The slot that holds the context.
    pub index: u32,
    /// How often that slot had been vacated when the token was issued.
    pub generation: u32,
}

impl SendToken {
    /// The integer that stands for the token.
    pub open spec fn spec_to_raw(self) -> u64 {
        (self.generation as u64 * 0x1_0000_0000 + self.index as u64) as u64
    }

    /// The token that an integer stands for.
    pub open spec fn spec_from_raw(raw: u64) -> SendToken {
        SendToken {
            index: (raw % 0x1_0000_0000) as u32,
            generation: (raw / 0x1_0000_0000) as u32,
        }
    }

    /// The integer handed to the engine with a send.
    #[verifier::when_used_as_spec(spec_to_raw)]
    pub fn to_raw(self) -> (raw: u64)
        ensures
            raw == self.spec_to_raw(),
            SendToken::spec_from_raw(raw) == self,
    {
        self.generation as u64 * 0x1_0000_0000 + self.index as u64
    }

    /// The token that the engine hands back with a completion. Every integer
    /// stands for exactly one token.
    #[verifier::when_used_as_spec(spec_from_raw)]
    pub fn from_raw(raw: u64) -> (token: SendToken)
        ensures
            token == SendToken::spec_from_raw(raw),
            token.spec_to_raw() == raw,
    {
        SendToken {
            index: (raw % 0x1_0000_0000) as u32,
            generation: (raw / 0x1_0000_0000) as u32,
        }
    }
}

#[derive(Debug)]
struct Slot {
    generation: u32,
    context: Option<SendContext>,
}

/// The contexts of the sends in flight on one object, found by token in
/// constant time.
#[derive(Debug)]
pub struct SendTable {
    slots: Vec<Slot>,
    free: Vec<u32>,
    live: usize,
    limit: u32,
}

impl SendTable {
    spec fn vacant(&self, k: int) -> bool {
        &&& 0 <= k < self.slots@.len()
        &&& self.slots@[k].context is None
        &&& self.slots@[k].generation < u32::MAX
    }

    spec fn holds(&self, token: SendToken) -> bool {
        &&& token.index < self.slots@.len()
        &&& self.slots@[token.index as int].generation == token.generation
        &&& self.slots@[token.index as int].context is Some
    }

    /// The contexts in flight, by token.
    pub closed spec fn pending(&self) -> Map<SendToken, Seq<Seq<u8>>> {
        Map::new(
            |token: SendToken| self.holds(token),
            |token: SendToken| self.slots@[token.index as int].context->Some_0@,
        )
    }

    /// Every token that the table has handed out so far, reclaimed or not.
    pub closed spec fn issued(&self) -> Set<SendToken> {
        Set::new(
            |token: SendToken|
                token.index < self.slots@.len() && (token.generation
                    < self.slots@[token.index as int].generation || self.holds(token)),
        )
    }

    /// How many more sends the table can take in before one is reclaimed.
    pub closed spec fn spare(&self) -> nat {
        (self.free@.len() + self.limit - self.slots@.len()) as nat
    }

    /// The token that the next accepted send gets, if the table has room.
    pub closed spec fn upcoming(&self) -> Option<SendToken> {
        if self.free@.len() > 0 {
            let index = self.free@.last();
            Some(SendToken { index, generation: self.slots@[index as int].generation })
        } else if self.slots@.len() < self.limit {
            Some(SendToken { index: self.slots@.len() as u32, generation: 0 })
        } else {
            None
        }
    }

    /// The most contexts that the table holds at once.
    pub closed spec fn limit(&self) -> nat {
        self.limit as nat
    }

    /// The table's invariant.
    pub closed spec fn wf(&self) -> bool {
        &&& self.slots@.len() <= self.limit
        &&& self.live + self.free@.len() <= self.slots@.len()
        &&& self.pending().dom().finite()
        &&& self.pending().dom().len() == self.live
        &&& forall|k: int|
            0 <= k < self.slots@.len() && (#[trigger] self.slots@[k]).context is Some
                ==> self.slots@[k].generation < u32::MAX
        &&& forall|k: int|
            0 <= k < self.slots@.len() ==> (#[trigger] self.slots@[k]).context is Some
                || self.slots@[k].generation > 0
        &&& forall|i: int| 0 <= i < self.free@.len() ==> self.vacant(#[trigger] self.free@[i] as int)
        &&& forall|i: int, j: int|
            0 <= i < j < self.free@.len() ==> #[trigger] self.free@[i] != #[trigger] self.free@[j]
    }

    /// An empty table that holds at most `limit` contexts at once.
    pub fn with_limit(limit: u32) -> (table: Self)
        ensures
            table.wf(),
            table.pending() == Map::<SendToken, Seq<Seq<u8>>>::empty(),
            table.issued() == Set::<SendToken>::empty(),
            table.spare() == limit,
            table.limit() == limit,
    {
        let table = SendTable { slots: Vec::new(), free: Vec::new(), live: 0, limit };
        proof {
            assert(table.pending() =~= Map::<SendToken, Seq<Seq<u8>>>::empty());
            assert(table.pending().dom() =~= Set::<SendToken>::empty());
            assert(table.issued() =~= Set::<SendToken>::empty());
        }
        table
    }

    /// An empty table with the largest limit that tokens allow.
    pub fn new() -> (table: Self)
        ensures
            table.wf(),
            table.pending() == Map::<SendToken, Seq<Seq<u8>>>::empty(),
            table.issued() == Set::<SendToken>::empty(),
            table.spare() == u32::MAX,
            table.limit() == u32::MAX,
    {
        SendTable::with_limit(u32::MAX)
    }

    /// Number of contexts in flight.
    pub fn len(&self) -> (n: usize)
        requires
            self.wf(),
        ensures
            n == self.pending().len(),
    {
        self.live
    }

    /// Whether no context is in flight.
    pub fn is_empty(&self) -> (b: bool)
        requires
            self.wf(),
        ensures
            b == (self.pending() == Map::<SendToken, Seq<Seq<u8>>>::empty()),
    {
        proof {
            if self.live == 0 {
                assert(self.pending().dom() =~= Set::<SendToken>::empty());
                assert(self.pending() =~= Map::<SendToken, Seq<Seq<u8>>>::empty());
            }
        }
        self.live == 0
    }

    /// Whether the table has never issued a token.
    pub fn is_unused(&self) -> (b: bool)
        requires
            self.wf(),
        ensures
            b == (self.issued() == Set::<SendToken>::empty()),
            b ==> self.pending() == Map::<SendToken, Seq<Seq<u8>>>::empty(),
    {
        proof {
            if self.slots@.len() == 0 {
                assert(self.issued() =~= Set::<SendToken>::empty());
                assert(self.pending() =~= Map::<SendToken, Seq<Seq<u8>>>::empty());
            } else {
                let first = SendToken { index: 0, generation: 0 };
                assert(self.slots@[0].context is Some || self.slots@[0].generation > 0);
                assert(self.issued().contains(first));
            }
        }
        self.slots.len() == 0
    }

    /// How many more sends the table can take in before one is reclaimed.
    pub fn spare_slots(&self) -> (n: usize)
        requires
            self.wf(),
        ensures
            n == self.spare(),
    {
        self.free.len() + (self.limit as usize - self.slots.len())
    }

    /// The token that the next accepted send gets: the one to hand to the
    /// engine with that send. `None` when the table is full.
    pub fn next_token(&self) -> (token: Option<SendToken>)
        requires
            self.wf(),
        ensures
            token == self.upcoming(),
            token is Some <==> self.spare() > 0,
            token matches Some(t) ==> !self.issued().contains(t),
    {
        if self.free.len() > 0 {
            let index = self.free[self.free.len() - 1];
            assert(self.vacant(index as int));
            Some(SendToken { index, generation: self.slots[index as usize].generation })
        } else if self.slots.len() < self.limit as usize {
            Some(SendToken { index: self.slots.len() as u32, generation: 0 })
        } else {
            None
        }
    }

    /// Whether `token` names a context in flight.
    pub fn contains(&self, token: SendToken) -> (b: bool)
        requires
            self.wf(),
        ensures
            b == self.pending().dom().contains(token),
    {
        let index = token.index as usize;
        index < self.slots.len() && self.slots[index].generation == token.generation
            && self.slots[index].context.is_some()
    }

    /// The context that `token` names, if it is in flight.
    pub fn get(&self, token: SendToken) -> (context: Option<&SendContext>)
        requires
            self.wf(),
        ensures
            context is Some <==> self.pending().dom().contains(token),
            context matches Some(c) ==> c@ == self.pending()[token],
    {
        let index = token.index as usize;
        if index < self.slots.len() && self.slots[index].generation == token.generation {
            self.slots[index].context.as_ref()
        } else {
            None
        }
    }

    /// Takes a context in and names it. The token is new: the table has never
    /// issued it before. When the table is full the context comes back as it
    /// was and nothing changes.
    pub fn insert(&mut self, context: SendContext) -> (result: Result<SendToken, SendContext>)
        requires
            old(self).wf(),
        ensures
            final(self).wf(),
            final(self).limit() == old(self).limit(),
            old(self).spare() == 0 ==> {
                &&& result == Err::<SendToken, SendContext>(context)
                &&& final(self).pending() == old(self).pending()
                &&& final(self).issued() == old(self).issued()
                &&& final(self).spare() == old(self).spare()
            },
            old(self).spare() > 0 ==> {
                &&& result matches Ok(token)
                &&& old(self).upcoming() == Some(token)
                &&& !old(self).issued().contains(token)
                &&& final(self).pending() == old(self).pending().insert(token, context@)
                &&& final(self).pending().dom().contains(token)
                &&& final(self).issued() == old(self).issued().insert(token)
                &&& final(self).spare() == old(self).spare() - 1
            },
    {
        let ghost before = *self;
        if self.free.len() > 0 {
            let index = self.free.pop().unwrap();
            let generation = self.slots[index as usize].generation;
            let token = SendToken { index, generation };
            assert(before.vacant(index as int));
            self.slots.set(index as usize, Slot { generation, context: Some(context) });
            self.live = self.live + 1;
            proof {
                assert(self.pending() =~= before.pending().insert(token, context@));
                assert(self.issued() =~= before.issued().insert(token));
                assert(self.pending().dom() =~= before.pending().dom().insert(token));
                assert forall|i: int| 0 <= i < self.free@.len() implies self.vacant(
                    #[trigger] self.free@[i] as int,
                ) by {
                    assert(before.vacant(before.free@[i] as int));
                    assert(before.free@[i] != before.free@[before.free@.len() - 1]);
                }
            }
            Ok(token)
        } else if self.slots.len() < self.limit as usize {
            let index = self.slots.len() as u32;
            let token = SendToken { index, generation: 0 };
            self.slots.push(Slot { generation: 0, context: Some(context) });
            self.live = self.live + 1;
            proof {
                assert(self.pending() =~= before.pending().insert(token, context@));
                assert(self.issued() =~= before.issued().insert(token));
                assert(self.pending().dom() =~= before.pending().dom().insert(token));
                assert forall|i: int| 0 <= i < self.free@.len() implies self.vacant(
                    #[trigger] self.free@[i] as int,
                ) by {
                    assert(before.vacant(before.free@[i] as int));
                }
            }
            Ok(token)
        } else {
            Err(context)
        }
    }

    /// Gives back the context that `token` names and forgets the token. A
    /// token that names nothing in flight (never issued, or reclaimed
    /// already) yields `None` and changes nothing.
    pub fn reclaim(&mut self, token: SendToken) -> (context: Option<SendContext>)
        requires
            old(self).wf(),
        ensures
            final(self).wf(),
            final(self).limit() == old(self).limit(),
            final(self).issued() == old(self).issued(),
            old(self).spare() <= final(self).spare() <= old(self).spare() + 1,
            old(self).pending().dom().contains(token) ==> {
                &&& context matches Some(c)
                &&& c@ == old(self).pending()[token]
                &&& final(self).pending() == old(self).pending().remove(token)
                &&& final(self).spare() == old(self).spare() + if token.generation + 1
                    < u32::MAX {
                    1nat
                } else {
                    0nat
                }
            },
            !old(self).pending().dom().contains(token) ==> {
                &&& context is None
                &&& final(self).pending() == old(self).pending()
                &&& final(self).spare() == old(self).spare()
            },
    {
        let ghost before = *self;
        let index = token.index as usize;
        if index >= self.slots.len() || self.slots[index].generation != token.generation
            || self.slots[index].context.is_none() {
            return None;
        }
        assert(before.holds(token));
        assert(before.pending().dom().remove(token).len() + 1 == before.pending().dom().len());
        let generation = token.generation + 1;
        let mut slot = Slot { generation, context: None };
        self.slots.set_and_swap(index, &mut slot);
        self.live = self.live - 1;
        if generation < u32::MAX {
            self.free.push(token.index);
        }
        proof {
            assert(self.pending() =~= before.pending().remove(token));
            assert(self.issued() =~= before.issued());
            assert(self.pending().dom() =~= before.pending().dom().remove(token));
            assert forall|i: int| 0 <= i < self.free@.len() implies self.vacant(
                #[trigger] self.free@[i] as int,
            ) by {
                if i < before.free@.len() {
                    assert(before.vacant(before.free@[i] as int));
                }
            }
            assert forall|i: int, j: int| 0 <= i < j < self.free@.len() implies #[trigger] self.free@[i]
                != #[trigger] self.free@[j] by {
                if j == before.free@.len() {
                    assert(before.vacant(before.free@[i] as int));
                }
            }
        }
        slot.context
    }
}

} // verus!
