use std::collections::VecDeque;
use vstd::prelude::*;

verus! {

/// How many chunks the queue between the caller and the uplink holds at most.
pub const QUEUE_CAPACITY: usize = 32;

/// The chunks of a queue as plain sequences of bytes.
pub open spec fn chunks_of(queue: Seq<Vec<u8>>) -> Seq<Seq<u8>> {
    queue.map_values(|chunk: Vec<u8>| chunk@)
}

/// A first-in, first-out queue of audio chunks that takes no chunk once it holds
/// [`QUEUE_CAPACITY`] of them. A chunk leaves it as it came in: whole, and after every
/// chunk that came before.
pub struct ChunkQueue {
    chunks: VecDeque<Vec<u8>>,
}

impl View for ChunkQueue {
    type V = Seq<Seq<u8>>;

    closed spec fn view(&self) -> Seq<Seq<u8>> {
        chunks_of(self.chunks@)
    }
}

impl ChunkQueue {
    /// An empty queue.
    pub fn new() -> (queue: ChunkQueue)
        ensures
            queue@ == Seq::<Seq<u8>>::empty(),
    {
        let queue = ChunkQueue { chunks: VecDeque::new() };
        proof {
            assert(queue@ =~= Seq::<Seq<u8>>::empty());
        }
        queue
    }

    /// How many chunks wait in the queue.
    pub fn len(&self) -> (count: usize)
        ensures
            count == self@.len(),
    {
        self.chunks.len()
    }

    /// Puts `chunk` behind the chunks that wait. A full queue stays as it is and hands the
    /// chunk back.
    pub fn offer(&mut self, chunk: Vec<u8>) -> (refused: Option<Vec<u8>>)
        ensures
            old(self)@.len() < QUEUE_CAPACITY ==> refused is None && final(self)@ == old(self)@.push(
                chunk@,
            ),
            old(self)@.len() >= QUEUE_CAPACITY ==> refused == Some(chunk) && final(self)@ == old(
                self,
            )@,
    {
        if self.chunks.len() < QUEUE_CAPACITY {
            let ghost before = self.chunks@;
            self.chunks.push_back(chunk);
            proof {
                assert(chunks_of(before.push(chunk)) =~= chunks_of(before).push(chunk@));
            }
            None
        } else {
            Some(chunk)
        }
    }

    /// Takes the chunk that has waited longest out of the queue.
    pub fn take(&mut self) -> (chunk: Option<Vec<u8>>)
        ensures
            old(self)@.len() == 0 ==> chunk is None && final(self)@ == old(self)@,
            old(self)@.len() > 0 ==> chunk is Some && chunk->0@ == old(self)@[0] && final(self)@
                == old(self)@.drop_first(),
    {
        let ghost before = self.chunks@;
        let chunk = self.chunks.pop_front();
        proof {
            if before.len() > 0 {
                assert(chunks_of(before.subrange(1, before.len() as int)) =~= chunks_of(
                    before,
                ).drop_first());
            }
        }
        chunk
    }
}

} // verus!
