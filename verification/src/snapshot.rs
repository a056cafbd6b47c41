//! Snapshots: several reads of the ledger at one block height.
//!
//! A batch is opened at a height and pins every read that is enqueued to
//! that height. Executing it plans the round trips, none larger than the
//! node's payload limit allows. Each answer comes back tagged with the
//! height it was read at, and a read resolves only to an answer from the
//! height of its batch: what one batch resolves was all read from one state
//! of the ledger. One read's failure leaves its siblings alone.

use vstd::prelude::*;

use crate::exchange::StatusValues;
use crate::ledger::{Address, Failure, Query, Read, Value};
use crate::word::Word256;

verus! {

/// Why a snapshot could not be taken, or a read of it not resolved.
#[derive(Clone, Copy, Debug, PartialEq, Eq, Hash, Structural)]
pub enum SnapshotError {
    /// The node does not serve the height.
    HeightUnavailable(u64),
    /// The read has no usable answer from the batch's height.
    RemoteCallFailed,
}

/// The heights that a node serves: it has pruned what is older and has not
/// seen what is newer.
#[derive(Clone, Copy, Debug, PartialEq, Eq, Hash, Structural)]
pub struct HeightRange {
    /// The oldest height served.
    pub oldest: u64,
    /// The newest height served.
    pub newest: u64,
}

/// The answer to one read, tagged with the height it was read at.
#[derive(Clone, Copy, Debug, PartialEq, Eq)]
pub struct Answer {
    /// The height whose state the answer shows.
    pub height: u64,
    /// The value, or how the read failed.
    pub value: Result<Value, Failure>,
}

/// The handle of a read that is enqueued in a batch.
#[derive(Clone, Copy, Debug, PartialEq, Eq, Hash, Structural)]
pub struct PendingRead {
    /// The place of the read in its batch.
    pub slot: usize,
}

/// A batch of reads at one height.
pub struct BatchHandle {
    height: u64,
    queries: Vec<Query>,
    answers: Vec<Option<Answer>>,
}

/// The round trips that carry a run of reads, none larger than `max`: all
/// are full but the last, and none is empty.
pub open spec fn chunked(queries: Seq<Query>, max: nat) -> Seq<Seq<Query>>
    decreases queries.len(),
{
    if queries.len() == 0 || max == 0 {
        Seq::empty()
    } else if queries.len() <= max {
        seq![queries]
    } else {
        seq![queries.take(max as int)] + chunked(queries.skip(max as int), max)
    }
}

/// The reads of a list of round trips.
pub open spec fn chunks_view(chunks: Seq<Vec<Query>>) -> Seq<Seq<Query>> {
    chunks.map_values(|c: Vec<Query>| c@)
}

/// What a read resolves to: the value that its answer carries, if the answer
/// is there, is from the batch's height and is a value.
pub open spec fn resolved(height: u64, answers: Seq<Option<Answer>>, slot: int) -> Result<
    Value,
    SnapshotError,
> {
    if 0 <= slot < answers.len() {
        match answers[slot] {
            Some(answer) => match answer.value {
                Ok(value) => if answer.height == height {
                    Ok(value)
                } else {
                    Err(SnapshotError::RemoteCallFailed)
                },
                Err(_) => Err(SnapshotError::RemoteCallFailed),
            },
            None => Err(SnapshotError::RemoteCallFailed),
        }
    } else {
        Err(SnapshotError::RemoteCallFailed)
    }
}

/// Round trips carry the reads they were planned for, in order; each carries
/// at least one read and at most `max`.
pub proof fn lemma_chunked(queries: Seq<Query>, max: nat)
    requires
        max > 0,
    ensures
        chunked(queries, max).flatten() == queries,
        forall|i: int|
            0 <= i < chunked(queries, max).len() ==> 1 <= (#[trigger] chunked(queries, max)[i]).len()
                <= max,
        forall|i: int|
            0 <= i < chunked(queries, max).len() - 1 ==> (#[trigger] chunked(queries, max)[i]).len()
                == max,
    decreases queries.len(),
{
    let chunks = chunked(queries, max);
    if queries.len() == 0 {
        assert(chunks.flatten() =~= queries);
    } else if queries.len() <= max {
        assert(chunks.drop_first() =~= Seq::<Seq<Query>>::empty());
        assert(chunks.drop_first().flatten() =~= Seq::<Query>::empty());
        assert(chunks.flatten() =~= queries);
    } else {
        let rest = chunked(queries.skip(max as int), max);
        lemma_chunked(queries.skip(max as int), max);
        assert(chunks.drop_first() =~= rest);
        assert(chunks.first() == queries.take(max as int));
        assert(chunks.flatten() =~= queries.take(max as int) + rest.flatten());
        assert(chunks.flatten() =~= queries);
        assert forall|i: int| 0 <= i < chunks.len() implies 1 <= (#[trigger] chunks[i]).len()
            <= max by {
            if i > 0 {
                assert(chunks[i] == rest[i - 1]);
            }
        }
        assert forall|i: int| 0 <= i < chunks.len() - 1 implies (#[trigger] chunks[i]).len()
            == max by {
            if i > 0 {
                assert(chunks[i] == rest[i - 1]);
            }
        }
    }
}

/// Every read of a round trip is one of the reads that were planned for.
pub proof fn lemma_chunked_members(queries: Seq<Query>, max: nat, i: int, j: int)
    requires
        0 <= i < chunked(queries, max).len(),
        0 <= j < chunked(queries, max)[i].len(),
    ensures
        queries.contains(chunked(queries, max)[i][j]),
    decreases queries.len(),
{
    let chunks = chunked(queries, max);
    if queries.len() <= max {
        assert(chunks[0] == queries);
        assert(queries[j] == chunks[i][j]);
    } else if i == 0 {
        assert(queries[j] == chunks[i][j]);
    } else {
        let tail = queries.skip(max as int);
        let rest = chunked(tail, max);
        assert(chunks[i] == rest[i - 1]);
        lemma_chunked_members(tail, max, i - 1, j);
        let k = choose|k: int| 0 <= k < tail.len() && tail[k] == rest[i - 1][j];
        assert(queries[k + max] == chunks[i][j]);
    }
}

impl BatchHandle {
    /// Every read is pinned to the batch's height, and has a place for its
    /// answer.
    #[verifier::type_invariant]
    closed spec fn wf(self) -> bool {
        &&& self.answers@.len() == self.queries@.len()
        &&& forall|i: int|
            0 <= i < self.queries@.len() ==> (#[trigger] self.queries@[i]).block == Some(
                self.height,
            )
    }

    /// The height that the batch is pinned to.
    pub closed spec fn height(&self) -> u64 {
        self.height
    }

    /// The reads enqueued so far, in order.
    pub closed spec fn queries(&self) -> Seq<Query> {
        self.queries@
    }

    /// The answers delivered so far, each at the place of its read.
    pub closed spec fn answers(&self) -> Seq<Option<Answer>> {
        self.answers@
    }

    /// Opens a batch at a height that the node serves.
    pub fn open(at_height: u64, served: HeightRange) -> (r: Result<BatchHandle, SnapshotError>)
        ensures
            r is Ok <==> served.oldest <= at_height <= served.newest,
            r matches Ok(batch) ==> batch.height() == at_height && batch.queries() == Seq::<
                Query,
            >::empty() && batch.answers() == Seq::<Option<Answer>>::empty(),
            r matches Err(e) ==> e == SnapshotError::HeightUnavailable(at_height),
    {
        if served.oldest <= at_height && at_height <= served.newest {
            Ok(BatchHandle { height: at_height, queries: Vec::new(), answers: Vec::new() })
        } else {
            Err(SnapshotError::HeightUnavailable(at_height))
        }
    }

    /// The height that the batch is pinned to.
    pub fn pinned_height(&self) -> (h: u64)
        ensures
            h == self.height(),
    {
        self.height
    }

    /// The number of reads enqueued.
    pub fn len(&self) -> (n: usize)
        ensures
            n == self.queries().len(),
            n == self.answers().len(),
    {
        proof {
            use_type_invariant(self);
        }
        self.queries.len()
    }

    /// Registers a read of a contract, pinned to the batch's height. Nothing
    /// is sent yet.
    pub fn enqueue(self, to: Address, read: Read) -> (r: (BatchHandle, PendingRead))
        ensures
            r.0.height() == self.height(),
            r.0.queries() == self.queries().push(Query { to, read, block: Some(self.height()) }),
            r.0.answers() == self.answers().push(None),
            r.1.slot == self.queries().len(),
    {
        proof {
            use_type_invariant(&self);
        }
        let BatchHandle { height, mut queries, mut answers } = self;
        let slot: usize = queries.len();
        queries.push(Query { to, read, block: Some(height) });
        answers.push(None);
        (BatchHandle { height, queries, answers }, PendingRead { slot })
    }

    /// Plans the round trips that carry the enqueued reads, at most
    /// `max_batch_size` reads to each. Every read goes out pinned to the
    /// batch's height. No plan can be made for round trips of no size.
    pub fn execute(&self, max_batch_size: usize) -> (r: Option<Vec<Vec<Query>>>)
        ensures
            r is Some <==> max_batch_size > 0,
            r matches Some(chunks) ==> chunks_view(chunks@) == chunked(
                self.queries(),
                max_batch_size as nat,
            ),
            r matches Some(chunks) ==> forall|i: int, j: int|
                0 <= i < chunks@.len() && 0 <= j < chunks@[i]@.len() ==> (#[trigger] chunks@[i]@[j]).block
                    == Some(self.height()),
    {
        if max_batch_size == 0 {
            return None;
        }
        proof {
            use_type_invariant(self);
        }
        let n: usize = self.queries.len();
        let ghost all = self.queries@;
        let ghost max = max_batch_size as nat;
        let mut chunks: Vec<Vec<Query>> = Vec::new();
        let mut start: usize = 0;
        assert(all.skip(0) =~= all);
        assert(chunks_view(chunks@) =~= Seq::<Seq<Query>>::empty());
        while start < n
            invariant
                start <= n,
                n == all.len(),
                all == self.queries@,
                max == max_batch_size,
                max > 0,
                chunked(all, max) == chunks_view(chunks@) + chunked(all.skip(start as int), max),
            decreases n - start,
        {
            let end: usize = if n - start > max_batch_size {
                start + max_batch_size
            } else {
                n
            };
            let mut chunk: Vec<Query> = Vec::new();
            let mut j: usize = start;
            while j < end
                invariant
                    start <= j <= end <= n,
                    n == all.len(),
                    all == self.queries@,
                    chunk@ == all.subrange(start as int, j as int),
                decreases end - j,
            {
                chunk.push(self.queries[j]);
                j += 1;
                assert(chunk@ =~= all.subrange(start as int, j as int));
            }
            proof {
                let tail = all.skip(start as int);
                if end == n {
                    assert(chunk@ =~= tail);
                    assert(all.skip(end as int) =~= Seq::<Query>::empty());
                    assert(chunked(tail, max) =~= seq![tail] + chunked(all.skip(end as int), max));
                } else {
                    assert(chunk@ =~= tail.take(max as int));
                    assert(tail.skip(max as int) =~= all.skip(end as int));
                }
                assert(chunks_view(chunks@.push(chunk)) =~= chunks_view(chunks@) + seq![chunk@]);
            }
            chunks.push(chunk);
            start = end;
        }
        proof {
            assert(chunked(all.skip(start as int), max) =~= Seq::<Seq<Query>>::empty());
            assert(chunks_view(chunks@) =~= chunked(all, max));
            assert forall|i: int, j: int|
                0 <= i < chunks@.len() && 0 <= j < chunks@[i]@.len() implies (#[trigger] chunks@[i]@[j]).block
                == Some(self.height) by {
                assert(chunks_view(chunks@)[i] == chunks@[i]@);
                lemma_chunked_members(all, max, i, j);
                let q = chunks@[i]@[j];
                let k = choose|k: int| 0 <= k < all.len() && all[k] == q;
                assert(all[k].block == Some(self.height));
            }
        }
        Some(chunks)
    }

    /// Takes in the answer to the read at a place. An answer for a place
    /// that the batch does not have is dropped.
    pub fn deliver(self, pending: PendingRead, answer: Answer) -> (r: (BatchHandle, bool))
        ensures
            r.1 == (pending.slot < self.queries().len()),
            r.0.height() == self.height(),
            r.0.queries() == self.queries(),
            r.1 ==> r.0.answers() == self.answers().update(pending.slot as int, Some(answer)),
            !r.1 ==> r.0.answers() == self.answers(),
    {
        proof {
            use_type_invariant(&self);
        }
        let BatchHandle { height, queries, mut answers } = self;
        if pending.slot < answers.len() {
            answers.set(pending.slot, Some(answer));
            (BatchHandle { height, queries, answers }, true)
        } else {
            (BatchHandle { height, queries, answers }, false)
        }
    }

    /// Resolves a read to its value. The value is the one that was delivered
    /// for the read, and was read at the height of the batch; a read without
    /// such a value fails on its own.
    pub fn resolve(&self, pending: PendingRead) -> (r: Result<Value, SnapshotError>)
        ensures
            r == resolved(self.height(), self.answers(), pending.slot as int),
            r is Ok ==> (self.answers()[pending.slot as int] matches Some(answer) && answer.height
                == self.height()),
    {
        if pending.slot < self.answers.len() {
            match self.answers[pending.slot] {
                Some(answer) => match answer.value {
                    Ok(value) => if answer.height == self.height {
                        Ok(value)
                    } else {
                        Err(SnapshotError::RemoteCallFailed)
                    },
                    Err(_) => Err(SnapshotError::RemoteCallFailed),
                },
                None => Err(SnapshotError::RemoteCallFailed),
            }
        } else {
            Err(SnapshotError::RemoteCallFailed)
        }
    }
}

/// What one read resolves to does not depend on the answers to the others.
pub proof fn lemma_reads_resolve_alone(
    height: u64,
    answers: Seq<Option<Answer>>,
    slot: int,
    other: int,
    answer: Answer,
)
    requires
        0 <= slot < answers.len(),
        0 <= other < answers.len(),
        other != slot,
    ensures
        resolved(height, answers.update(other, Some(answer)), slot) == resolved(
            height,
            answers,
            slot,
        ),
{
}

/// The handles of the five reads of the sale's status.
#[derive(Clone, Copy, Debug, PartialEq, Eq, Hash, Structural)]
pub struct StatusReads {
    /// The phase code.
    pub state: PendingRead,
    /// What the sale can still take.
    pub left_eth: PendingRead,
    /// What the sale can still give out.
    pub left_scm: PendingRead,
    /// The token on sale.
    pub scm: PendingRead,
    /// The wrapped-ether token.
    pub weth: PendingRead,
}

/// The five reads of the sale's status, pinned to a height.
pub open spec fn status_queries(sale: Address, height: u64) -> Seq<Query> {
    seq![
        Query { to: sale, read: Read::State, block: Some(height) },
        Query { to: sale, read: Read::LeftEth, block: Some(height) },
        Query { to: sale, read: Read::LeftScm, block: Some(height) },
        Query { to: sale, read: Read::ScmToken, block: Some(height) },
        Query { to: sale, read: Read::WethToken, block: Some(height) },
    ]
}

/// A resolved read as a phase code; a value of another kind is no answer.
pub open spec fn code_of(r: Result<Value, SnapshotError>) -> Result<u8, Failure> {
    match r {
        Ok(Value::Code(code)) => Ok(code),
        _ => Err(Failure::Remote),
    }
}

/// A resolved read as a number; a value of another kind is no answer.
pub open spec fn word_of(r: Result<Value, SnapshotError>) -> Result<Word256, Failure> {
    match r {
        Ok(Value::Word(word)) => Ok(word),
        _ => Err(Failure::Remote),
    }
}

/// A resolved read as an address; a value of another kind is no answer.
pub open spec fn address_of(r: Result<Value, SnapshotError>) -> Result<Address, Failure> {
    match r {
        Ok(Value::Address(address)) => Ok(address),
        _ => Err(Failure::Remote),
    }
}

/// Opens a batch at a height and enqueues the five reads of the sale's status.
pub fn status_batch(sale: Address, height: u64, served: HeightRange) -> (r: Result<
    (BatchHandle, StatusReads),
    SnapshotError,
>)
    ensures
        r is Ok <==> served.oldest <= height <= served.newest,
        r matches Err(e) ==> e == SnapshotError::HeightUnavailable(height),
        r matches Ok(pair) ==> {
            &&& pair.0.height() == height
            &&& pair.0.queries() == status_queries(sale, height)
            &&& pair.0.answers() == Seq::new(5, |i: int| None::<Answer>)
            &&& pair.1 == (StatusReads {
                state: PendingRead { slot: 0 },
                left_eth: PendingRead { slot: 1 },
                left_scm: PendingRead { slot: 2 },
                scm: PendingRead { slot: 3 },
                weth: PendingRead { slot: 4 },
            })
        },
{
    match BatchHandle::open(height, served) {
        Err(e) => Err(e),
        Ok(batch) => {
            let (batch, state) = batch.enqueue(sale, Read::State);
            let (batch, left_eth) = batch.enqueue(sale, Read::LeftEth);
            let (batch, left_scm) = batch.enqueue(sale, Read::LeftScm);
            let (batch, scm) = batch.enqueue(sale, Read::ScmToken);
            let (batch, weth) = batch.enqueue(sale, Read::WethToken);
            assert(batch.queries() =~= status_queries(sale, height));
            assert(batch.answers() =~= Seq::new(5, |i: int| None::<Answer>));
            Ok((batch, StatusReads { state, left_eth, left_scm, scm, weth }))
        },
    }
}

/// Resolves the five reads of the sale's status, each on its own.
pub fn status_values(batch: &BatchHandle, reads: &StatusReads) -> (values: StatusValues)
    ensures
        values.height == batch.height(),
        values.state == code_of(
            resolved(batch.height(), batch.answers(), reads.state.slot as int),
        ),
        values.left_eth == word_of(
            resolved(batch.height(), batch.answers(), reads.left_eth.slot as int),
        ),
        values.left_scm == word_of(
            resolved(batch.height(), batch.answers(), reads.left_scm.slot as int),
        ),
        values.scm == address_of(resolved(batch.height(), batch.answers(), reads.scm.slot as int)),
        values.weth == address_of(
            resolved(batch.height(), batch.answers(), reads.weth.slot as int),
        ),
{
    let state = match batch.resolve(reads.state) {
        Ok(Value::Code(code)) => Ok(code),
        _ => Err(Failure::Remote),
    };
    let left_eth = match batch.resolve(reads.left_eth) {
        Ok(Value::Word(word)) => Ok(word),
        _ => Err(Failure::Remote),
    };
    let left_scm = match batch.resolve(reads.left_scm) {
        Ok(Value::Word(word)) => Ok(word),
        _ => Err(Failure::Remote),
    };
    let scm = match batch.resolve(reads.scm) {
        Ok(Value::Address(address)) => Ok(address),
        _ => Err(Failure::Remote),
    };
    let weth = match batch.resolve(reads.weth) {
        Ok(Value::Address(address)) => Ok(address),
        _ => Err(Failure::Remote),
    };
    StatusValues { height: batch.pinned_height(), state, left_eth, left_scm, scm, weth }
}

} // verus!
