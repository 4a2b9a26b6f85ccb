use vstd::prelude::*;
use crate::error::GenError;

verus! {

/// The sequence slot that every entry of a generation session is tagged with.
pub const SEQ_SLOT: i32 = 0;

/// How many entries one batch can hold; also the context window of a session.
pub const BATCH_CAPACITY: usize = 4096;

/// One entry of a batch submitted to the inference context for a decode step.
#[derive(Clone, Copy, Debug, PartialEq, Eq, Structural)]
pub struct BatchEntry {
    pub token: i32,
    pub pos: i32,
    pub seq: i32,
    pub logits: bool,
}

/// The entry at index `i` of the prefill batch for `tokens`: the token at its
/// own position, in the single slot, asking for logits only at the last index.
pub open spec fn prefill_entry(tokens: Seq<i32>, i: int) -> BatchEntry {
    BatchEntry { token: tokens[i], pos: i as i32, seq: SEQ_SLOT, logits: i == tokens.len() - 1 }
}

/// The whole prefill batch for a prompt of `tokens`.
pub open spec fn prefill_spec(tokens: Seq<i32>) -> Seq<BatchEntry> {
    Seq::new(tokens.len(), |i: int| prefill_entry(tokens, i))
}

/// Whether a batch asks for logits at exactly one entry, its last one.
pub open spec fn logits_only_last(b: Seq<BatchEntry>) -> bool {
    &&& b.len() > 0
    &&& b.last().logits
    &&& forall|i: int| 0 <= i < b.len() - 1 ==> !(#[trigger] b[i]).logits
}

/// The single-entry batch that feeds a sampled token back at position `pos`.
pub fn step_entry(token: i32, pos: i32) -> (e: BatchEntry)
    ensures
        e == (BatchEntry { token, pos, seq: SEQ_SLOT, logits: true }),
{
    BatchEntry { token, pos, seq: SEQ_SLOT, logits: true }
}

/// Builds the prefill batch for the prompt `tokens`: every token at its
/// position in the prompt, one sequence slot, logits for the last token only.
/// An empty prompt cannot be submitted (`Tokenize`); one longer than a batch
/// does not fit the context window (`ContextCreate`).
pub fn prefill_batch(tokens: &Vec<i32>) -> (r: Result<Vec<BatchEntry>, GenError>)
    ensures
        tokens@.len() == 0 ==> r == Err::<Vec<BatchEntry>, GenError>(GenError::Tokenize),
        tokens@.len() > BATCH_CAPACITY ==> r == Err::<Vec<BatchEntry>, GenError>(
            GenError::ContextCreate,
        ),
        0 < tokens@.len() <= BATCH_CAPACITY ==> r is Ok,
        r matches Ok(b) ==> b@ == prefill_spec(tokens@) && logits_only_last(b@),
{
    let n = tokens.len();
    if n == 0 {
        return Err(GenError::Tokenize);
    }
    if n > BATCH_CAPACITY {
        return Err(GenError::ContextCreate);
    }
    let mut b: Vec<BatchEntry> = Vec::with_capacity(n);
    let mut i: usize = 0;
    while i < n
        invariant
            n == tokens@.len(),
            0 < n <= BATCH_CAPACITY,
            i <= n,
            b@ == prefill_spec(tokens@).take(i as int),
        decreases n - i,
    {
        let e = BatchEntry { token: tokens[i], pos: i as i32, seq: SEQ_SLOT, logits: i == n - 1 };
        b.push(e);
        i = i + 1;
        assert(b@ =~= prefill_spec(tokens@).take(i as int));
    }
    assert(b@ =~= prefill_spec(tokens@));
    Ok(b)
}

} // verus!
