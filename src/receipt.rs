//! Receipts of sent messages and the recall requests built from them.
use vstd::prelude::*;

verus! {

/// Why a receipt or a recall request could not be built.
#[derive(Debug, PartialEq, Eq, Clone, Copy)]
pub enum ReceiptError {
    /// No sequence numbers were returned.
    EmptySeqs,
    /// No nonces were returned.
    EmptyRands,
    /// Sequence numbers and nonces do not pair up one to one.
    Mismatched,
}

/// Where a message was sent.
#[derive(Debug, PartialEq, Eq, Clone, Copy)]
pub enum ReceiptKind {
    Friend,
    Group,
}

/// The receipt of a sent message: its first sequence number and nonce, all of both, the send
/// time and the target.
#[derive(Debug, PartialEq, Eq, Clone)]
pub struct RawMessageReceipt {
    pub seq: i32,
    pub rand: i32,
    pub raw_seqs: Vec<i32>,
    pub raw_rands: Vec<i32>,
    pub time: i64,
    pub kind: ReceiptKind,
    pub target: i64,
}

impl RawMessageReceipt {
    pub fn new(seqs: Vec<i32>, rands: Vec<i32>, time: i64, kind: ReceiptKind, target: i64) -> (r:
        Result<Self, ReceiptError>)
        ensures
            seqs@.len() == 0 ==> r == Err::<Self, ReceiptError>(ReceiptError::EmptySeqs),
            seqs@.len() != 0 && rands@.len() == 0 ==> r == Err::<Self, ReceiptError>(
                ReceiptError::EmptyRands,
            ),
            seqs@.len() != 0 && rands@.len() != 0 ==> (r matches Ok(x) && x.seq == seqs@[0]
                && x.rand == rands@[0] && x.raw_seqs@ == seqs@ && x.raw_rands@ == rands@
                && x.time == time && x.kind == kind && x.target == target),
    {
        if seqs.len() == 0 {
            return Err(ReceiptError::EmptySeqs);
        }
        if rands.len() == 0 {
            return Err(ReceiptError::EmptyRands);
        }
        let seq = seqs[0];
        let rand = rands[0];
        Ok(RawMessageReceipt { seq, rand, raw_seqs: seqs, raw_rands: rands, time, kind, target })
    }

    /// A placeholder receipt sent at `time`, for a message that produced none.
    pub fn empty(kind: ReceiptKind, target: i64, time: i64) -> (r: Self)
        ensures
            r.seq == 0 && r.rand == 0 && r.raw_seqs@ == seq![0i32] && r.raw_rands@ == seq![0i32],
            r.time == time && r.kind == kind && r.target == target,
    {
        let mut seqs: Vec<i32> = Vec::new();
        seqs.push(0);
        let mut rands: Vec<i32> = Vec::new();
        rands.push(0);
        assert(seqs@ =~= seq![0i32]);
        assert(rands@ =~= seq![0i32]);
        RawMessageReceipt { seq: 0, rand: 0, raw_seqs: seqs, raw_rands: rands, time, kind, target }
    }
}

/// The message that a recall names: a friend conversation at a send time, or a group.
#[derive(Debug, PartialEq, Eq, Clone, Copy)]
pub enum RecallTarget {
    Friend { uin: i64, time: i64 },
    Group { uin: i64 },
}

/// The (sequence number, nonce) pairs of a message, when both lists pair up one to one.
pub open spec fn recall_pairs(seqs: Seq<i32>, rands: Seq<i32>) -> Option<Seq<(i32, i32)>> {
    if seqs.len() == 0 || seqs.len() != rands.len() {
        None
    } else {
        Some(Seq::new(seqs.len(), |i: int| (seqs[i], rands[i])))
    }
}

/// A recall request: the target and the paired sequence numbers and nonces to withdraw.
#[derive(Debug, PartialEq, Eq, Clone)]
pub struct RecallRequest {
    target: RecallTarget,
    seqs: Vec<i32>,
    rands: Vec<i32>,
}

impl RecallRequest {
    pub closed spec fn target_view(&self) -> RecallTarget {
        self.target
    }

    pub closed spec fn seqs_view(&self) -> Seq<i32> {
        self.seqs@
    }

    pub closed spec fn rands_view(&self) -> Seq<i32> {
        self.rands@
    }

    /// A request for these pairs; refused unless both lists are non-empty and of one length.
    pub fn new(target: RecallTarget, seqs: Vec<i32>, rands: Vec<i32>) -> (r: Result<
        Self,
        ReceiptError,
    >)
        ensures
            seqs@.len() == 0 ==> r == Err::<Self, ReceiptError>(ReceiptError::EmptySeqs),
            seqs@.len() != 0 && rands@.len() == 0 ==> r == Err::<Self, ReceiptError>(
                ReceiptError::EmptyRands,
            ),
            seqs@.len() != 0 && rands@.len() != 0 && seqs@.len() != rands@.len() ==> r == Err::<
                Self,
                ReceiptError,
            >(ReceiptError::Mismatched),
            r is Ok <==> recall_pairs(seqs@, rands@) is Some,
            r matches Ok(x) ==> x.target_view() == target && x.seqs_view() == seqs@ && x.rands_view()
                == rands@,
    {
        if seqs.len() == 0 {
            return Err(ReceiptError::EmptySeqs);
        }
        if rands.len() == 0 {
            return Err(ReceiptError::EmptyRands);
        }
        if seqs.len() != rands.len() {
            return Err(ReceiptError::Mismatched);
        }
        Ok(RecallRequest { target, seqs, rands })
    }

    /// A request for a single message, as the recall calls that take one pair build it.
    pub fn single(target: RecallTarget, seq: i32, rand: i32) -> (r: Self)
        ensures
            r.target_view() == target,
            r.seqs_view() == seq![seq],
            r.rands_view() == seq![rand],
    {
        let mut seqs: Vec<i32> = Vec::new();
        seqs.push(seq);
        let mut rands: Vec<i32> = Vec::new();
        rands.push(rand);
        assert(seqs@ =~= seq![seq]);
        assert(rands@ =~= seq![rand]);
        RecallRequest { target, seqs, rands }
    }

    /// The request that withdraws the message of `receipt`, with every pair it returned.
    pub fn from_receipt(receipt: &RawMessageReceipt) -> (r: Result<Self, ReceiptError>)
        ensures
            r is Ok <==> recall_pairs(receipt.raw_seqs@, receipt.raw_rands@) is Some,
            r matches Ok(x) ==> x.seqs_view() == receipt.raw_seqs@ && x.rands_view()
                == receipt.raw_rands@ && x.target_view() == (match receipt.kind {
                ReceiptKind::Friend => RecallTarget::Friend {
                    uin: receipt.target,
                    time: receipt.time,
                },
                ReceiptKind::Group => RecallTarget::Group { uin: receipt.target },
            }),
    {
        let target = match receipt.kind {
            ReceiptKind::Friend => RecallTarget::Friend { uin: receipt.target, time: receipt.time },
            ReceiptKind::Group => RecallTarget::Group { uin: receipt.target },
        };
        let seqs = receipt.raw_seqs.clone();
        let rands = receipt.raw_rands.clone();
        assert(seqs@ =~= receipt.raw_seqs@);
        assert(rands@ =~= receipt.raw_rands@);
        RecallRequest::new(target, seqs, rands)
    }

    /// Where the message to withdraw was sent.
    pub fn target(&self) -> (r: RecallTarget)
        ensures
            r == self.target_view(),
    {
        self.target
    }

    /// The sequence numbers to withdraw.
    pub fn seqs(&self) -> (r: Vec<i32>)
        ensures
            r@ == self.seqs_view(),
    {
        let r = self.seqs.clone();
        assert(r@ =~= self.seqs@);
        r
    }

    /// The nonces to withdraw, paired with [`RecallRequest::seqs`] by position.
    pub fn rands(&self) -> (r: Vec<i32>)
        ensures
            r@ == self.rands_view(),
    {
        let r = self.rands.clone();
        assert(r@ =~= self.rands@);
        r
    }
}

/// Pairing law: the pairs of a receipt split back into exactly its sequence numbers and nonces,
/// and lists that do not pair up one to one give no pairs at all.
pub proof fn lemma_recall_pairing(seqs: Seq<i32>, rands: Seq<i32>)
    ensures
        recall_pairs(seqs, rands) matches Some(p) ==> p.map_values(|x: (i32, i32)| x.0) == seqs
            && p.map_values(|x: (i32, i32)| x.1) == rands,
        seqs.len() != rands.len() ==> recall_pairs(seqs, rands) is None,
{
    if let Some(p) = recall_pairs(seqs, rands) {
        assert(p.map_values(|x: (i32, i32)| x.0) =~= seqs);
        assert(p.map_values(|x: (i32, i32)| x.1) =~= rands);
    }
}

} // verus!
