//! Service-level laws, stated over the contracts of the operations.
//!
//! The operations' own `ensures` pin each reply down; these proof
//! functions state what follows across calls: rejection until the first
//! successful load, determinism of embedding, agreement of the generate
//! stream with the embed vector, and the shape of the stream's end.

use vstd::prelude::*;
use crate::hexfmt::hex_seq;
use crate::hexfmt::hex_val;
use crate::hexfmt::lemma_hex_round_trip;
use crate::present::sep_seq;
use crate::present::stream_header;
use crate::present::stream_spec;
use crate::store::StoreView;
use crate::store::pipeline_spec;

verus! {

/// One service operation as the store observes it: a successful load with
/// what it loads, a failed load, or any of the read-only requests.
pub enum ServiceOp {
    InitSuccess { source: Seq<char>, dim: int },
    InitFailure,
    Embed,
    Generate,
    ModelInfo,
    Health,
}

/// How one operation moves the observable store state: a successful load
/// replaces it, everything else leaves it alone.  This is exactly what the
/// operations' contracts allow: `init_model` mutates the store only on
/// success, and the four other operations borrow it immutably.
pub open spec fn step_view(v: StoreView, op: ServiceOp) -> StoreView {
    match op {
        ServiceOp::InitSuccess { source, dim } => StoreView::Loaded { source, dim },
        _ => v,
    }
}

/// The observable state after a run of operations.
pub open spec fn run_view(v: StoreView, ops: Seq<ServiceOp>) -> StoreView
    decreases ops.len(),
{
    if ops.len() == 0 {
        v
    } else {
        run_view(step_view(v, ops[0]), ops.drop_first())
    }
}

/// From the empty state, a run in which every initialize failed leaves the
/// store empty; `embed_op` and `generate_op` then still answer the
/// precondition failure, by their contracts on an empty store.
pub proof fn lemma_rejects_until_first_successful_load(ops: Seq<ServiceOp>)
    requires
        forall|i: int| 0 <= i < ops.len() ==> !((#[trigger] ops[i]) is InitSuccess),
    ensures
        run_view(StoreView::Empty, ops) is Empty,
    decreases ops.len(),
{
    if ops.len() > 0 {
        assert(!(ops[0] is InitSuccess));
        assert(step_view(StoreView::Empty, ops[0]) is Empty);
        assert(forall|i: int|
            0 <= i < ops.drop_first().len() ==> !((#[trigger] ops.drop_first()[i]) is
            InitSuccess));
        lemma_rejects_until_first_successful_load(ops.drop_first());
    }
}

/// Embedding is deterministic: one loaded encoder and tokenizer admit at
/// most one vector for a text, so two embed calls on the same loaded store
/// return bit-identical vectors, in whatever order they are served.  The
/// operations' contracts tie their results to the pipeline where the
/// tokenizer encodes deterministically; a sub-word model serialized with
/// merge dropout is outside that premise.
pub proof fn lemma_embed_deterministic(
    m: candle_transformers::models::bert::BertModel,
    tok: tokenizers::Tokenizer,
    text: Seq<char>,
    v1: Seq<u32>,
    v2: Seq<u32>,
)
    requires
        pipeline_spec(m, tok, text) == Some(v1),
        pipeline_spec(m, tok, text) == Some(v2),
    ensures
        v1 == v2,
{
}

/// The stream built for `bits` carries the embedding exactly: the chunk for
/// entry `i` is its eight hexadecimal digits followed by the separator, and
/// reading those digits back yields the entry's bits.  Since generate's
/// vector and embed's vector on one store and one text are both what the
/// pipeline yields, the stream decodes to the embed vector.
pub proof fn lemma_stream_entry_decodes(
    prompt: Seq<char>,
    bits: Seq<u32>,
    min_text: Seq<char>,
    max_text: Seq<char>,
    i: int,
)
    requires
        0 <= i < bits.len(),
    ensures
        ({
            let h = stream_header(prompt, bits, min_text, max_text);
            let c = stream_spec(prompt, bits, min_text, max_text)[h.len() + i];
            &&& c.0 == hex_seq(bits[i]) + sep_seq(i)
            &&& hex_val(c.0.take(8)) == bits[i]
            &&& c.2 == i
            &&& !c.1
        }),
{
    let h = stream_header(prompt, bits, min_text, max_text);
    let c = stream_spec(prompt, bits, min_text, max_text)[h.len() + i];
    assert(c.0 =~= hex_seq(bits[i]) + sep_seq(i));
    assert(c.0.take(8) =~= hex_seq(bits[i]));
    lemma_hex_round_trip(bits[i]);
}

/// The stream ends well: its last chunk is empty, done, and counts the
/// whole vector, and no chunk before it is done; there is nothing after it.
pub proof fn lemma_stream_termination(
    prompt: Seq<char>,
    bits: Seq<u32>,
    min_text: Seq<char>,
    max_text: Seq<char>,
)
    ensures
        ({
            let s = stream_spec(prompt, bits, min_text, max_text);
            &&& s.len() >= 1
            &&& s.last() == (Seq::<char>::empty(), true, bits.len() as int)
            &&& forall|j: int| 0 <= j < s.len() - 1 ==> !((#[trigger] s[j]).1)
        }),
{
    let s = stream_spec(prompt, bits, min_text, max_text);
    assert(s.last().0 =~= Seq::<char>::empty());
}

} // verus!
