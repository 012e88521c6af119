//! Trusted boundary around the inference stack.
//!
//! The encoder model, the tokenizer, the parsed configuration and the
//! tensors they exchange are opaque outside values.  Each outside call the
//! pipeline makes stands behind one wrapper here; the names below stand for
//! what those calls return, so that the callers' contracts can be exact.
//! Everything else in the crate is verified against these contracts.

use vstd::prelude::*;
use crate::bytes::i64_row_bytes;

verus! {

#[verifier::external_type_specification]
#[verifier::external_body]
pub struct ExTensor(candle_core::Tensor);

#[verifier::external_type_specification]
#[verifier::external_body]
pub struct ExCandleError(candle_core::Error);

#[verifier::external_type_specification]
#[verifier::external_body]
pub struct ExBertModel(candle_transformers::models::bert::BertModel);

#[verifier::external_type_specification]
#[verifier::external_body]
pub struct ExBertConfig(candle_transformers::models::bert::Config);

#[verifier::external_type_specification]
#[verifier::external_body]
pub struct ExTokenizer(tokenizers::Tokenizer);

/// The dimensions of a tensor, outermost first.
pub uninterp spec fn tensor_dims(t: candle_core::Tensor) -> Seq<int>;

/// The elements of a tensor as its little-endian byte run, row-major.
pub uninterp spec fn tensor_bytes(t: candle_core::Tensor) -> Seq<u8>;

/// The element type of a tensor, as one of the tags below.  Two tensors
/// with one byte run but different element types are different inputs to
/// every kernel, so the contracts keep the type in view.
pub uninterp spec fn tensor_dtype(t: candle_core::Tensor) -> int;

/// The tag `tensor_dtype` gives a row of 64-bit signed integers.
pub open spec fn dtype_i64() -> int {
    1
}

/// The tag `tensor_dtype` gives a row of unsigned bytes.
pub open spec fn dtype_u8() -> int {
    2
}

/// The tag `tensor_dtype` gives a tensor of 32-bit floats.
pub open spec fn dtype_f32() -> int {
    3
}

/// The width of the hidden vectors an encoder model produces.
pub uninterp spec fn bert_hidden(m: candle_transformers::models::bert::BertModel) -> int;

/// Whether the encoder holds its parameters as 32-bit floats, so that its
/// output is a 32-bit float tensor.
pub uninterp spec fn bert_f32(m: candle_transformers::models::bert::BertModel) -> bool;

/// The `hidden_size` entry of a parsed model configuration.
pub uninterp spec fn config_hidden(c: candle_transformers::models::bert::Config) -> int;

/// What parsing a configuration text yields: the parsed configuration, or
/// the parser's reporting text.
pub uninterp spec fn config_result_of(text: Seq<char>) -> Result<
    candle_transformers::models::bert::Config,
    Seq<char>,
>;

/// What parsing a tokenizer description yields: the tokenizer, or the
/// parser's reporting text.
pub uninterp spec fn tokenizer_result_of(data: Seq<u8>) -> Result<tokenizers::Tokenizer, Seq<char>>;

/// Whether building an encoder from a weights image under a parsed
/// configuration succeeds.  Only success is a function of these inputs:
/// the built model's arithmetic depends on the running machine's kernels,
/// and the failure text on the environment, so neither is named.
pub uninterp spec fn bert_builds(
    weights: Seq<u8>,
    cfg: candle_transformers::models::bert::Config,
) -> bool;

/// Whether this tokenizer's encoding is a function of the text alone.  A
/// sub-word model serialized with merge dropout draws live randomness while
/// encoding, so nothing relates its outcomes to `encode_result`; the
/// clauses below that speak of `encode_result` hold under this premise.
pub uninterp spec fn encode_deterministic(t: tokenizers::Tokenizer) -> bool;

/// What tokenizing a text yields, for a tokenizer whose encoding is
/// deterministic: the token-id row and the parallel attention-mask row, or
/// nothing when the tokenizer rejects the text.
pub uninterp spec fn encode_result(t: tokenizers::Tokenizer, text: Seq<char>) -> Option<
    (Seq<u32>, Seq<u32>),
>;

/// What the encoder's forward pass yields on a `[1, n]` 64-bit token row, a
/// same-shaped 64-bit segment row and a same-shaped byte attention mask, as
/// the byte run of the `[1, n, hidden]` 32-bit float output, or nothing
/// when inference fails.
pub uninterp spec fn forward_bytes(
    m: candle_transformers::models::bert::BertModel,
    ids: Seq<u8>,
    tts: Seq<u8>,
    mask: Seq<u8>,
) -> Option<Seq<u8>>;

/// What averaging a 32-bit float tensor with the given byte run and
/// dimensions over its middle axis yields, or nothing when the reduction
/// fails.
pub uninterp spec fn mean_bytes(b: Seq<u8>, dims: Seq<int>) -> Option<Seq<u8>>;

/// Relies on `serde_json::from_str` parsing a transformer configuration:
/// the result and the error text are functions of the input text, and a
/// parsed `hidden_size` is a machine word, so nonnegative.
#[verifier::external_body]
pub fn parse_config(text: &str) -> (r: Result<candle_transformers::models::bert::Config, String>)
    ensures
        (r is Ok) == (config_result_of(text@) is Ok),
        r matches Ok(c) ==> (config_result_of(text@) matches Ok(cc) && cc == c),
        r matches Err(m) ==> (config_result_of(text@) matches Err(t) && t == m@),
        r matches Ok(c) ==> config_hidden(c) >= 0,
{
    match serde_json::from_str::<candle_transformers::models::bert::Config>(text) {
        Ok(c) => Ok(c),
        Err(e) => Err(e.to_string()),
    }
}

/// Relies on the `hidden_size` field of the parsed configuration.
#[verifier::external_body]
pub fn config_hidden_size(c: &candle_transformers::models::bert::Config) -> (r: usize)
    ensures
        r as int == config_hidden(*c),
{
    c.hidden_size
}

/// Relies on `VarBuilder::from_buffered_safetensors` reading 32-bit float
/// parameters from an in-memory safetensors image, and on
/// `BertModel::load` sizing the encoder by the configuration's
/// `hidden_size`; whether they succeed is a function of the bytes and the
/// configuration, and the builder type cannot be declared here, so the two
/// calls share this wrapper.  Nothing ties the built model or the failure
/// text to the inputs: the model's arithmetic varies with the machine's
/// kernels, and the text with the environment's backtrace capture.
#[verifier::external_body]
pub fn load_bert(weights: &Vec<u8>, cfg: &candle_transformers::models::bert::Config) -> (r: Result<
    candle_transformers::models::bert::BertModel,
    String,
>)
    ensures
        (r is Ok) == bert_builds(weights@, *cfg),
        r matches Ok(m) ==> bert_hidden(m) == config_hidden(*cfg),
        r matches Ok(m) ==> bert_f32(m),
{
    let dev = candle_core::Device::Cpu;
    let vb = match candle_nn::VarBuilder::from_buffered_safetensors(
        weights.clone(),
        candle_transformers::models::bert::DTYPE,
        &dev,
    ) {
        Ok(v) => v,
        Err(e) => return Err(e.to_string()),
    };
    match candle_transformers::models::bert::BertModel::load(vb, cfg) {
        Ok(m) => Ok(m),
        Err(e) => Err(e.to_string()),
    }
}

/// Relies on `Tokenizer::from_bytes` parsing a tokenizer description: the
/// result and the error text are functions of the input bytes.
#[verifier::external_body]
pub fn tokenizer_from_bytes(data: &Vec<u8>) -> (r: Result<tokenizers::Tokenizer, String>)
    ensures
        (r is Ok) == (tokenizer_result_of(data@) is Ok),
        r matches Ok(t) ==> (tokenizer_result_of(data@) matches Ok(tt) && tt == t),
        r matches Err(m) ==> (tokenizer_result_of(data@) matches Err(mm) && mm == m@),
{
    match tokenizers::Tokenizer::from_bytes(data.as_slice()) {
        Ok(t) => Ok(t),
        Err(e) => Err(e.to_string()),
    }
}

/// Relies on `Tokenizer::encode` with special-token addition enabled, and
/// on `Encoding::get_ids` and `Encoding::get_attention_mask`, which hand
/// out two rows of one common length whose mask entries are zero or one.
/// The clauses over `encode_result` hold where the tokenizer encodes
/// deterministically; a model with merge dropout does not.
#[verifier::external_body]
pub fn tok_encode(t: &tokenizers::Tokenizer, text: &str) -> (r: Result<(Vec<u32>, Vec<u32>), String>)
    ensures
        encode_deterministic(*t) ==> (r is Ok) == (encode_result(*t, text@) is Some),
        encode_deterministic(*t) ==> (r matches Ok(p) ==> encode_result(*t, text@) == Some(
            (p.0@, p.1@),
        )),
        r matches Ok(p) ==> p.0@.len() == p.1@.len(),
        r matches Ok(p) ==> (forall|i: int| 0 <= i < p.1@.len() ==> p.1@[i] == 0 || p.1@[i] == 1),
{
    match t.encode(text, true) {
        Ok(e) => Ok((e.get_ids().to_vec(), e.get_attention_mask().to_vec())),
        Err(e) => Err(e.to_string()),
    }
}

/// Relies on `Tensor::new` building a rank-one 64-bit integer tensor from a
/// slice on the CPU device, which the source shows cannot fail there.
#[verifier::external_body]
pub fn tensor_row_i64(vals: &Vec<i64>) -> (r: Result<candle_core::Tensor, String>)
    ensures
        r is Ok,
        r matches Ok(t) ==> tensor_dims(t) == seq![vals@.len() as int],
        r matches Ok(t) ==> tensor_bytes(t) == i64_row_bytes(vals@),
        r matches Ok(t) ==> tensor_dtype(t) == dtype_i64(),
{
    match candle_core::Tensor::new(vals.as_slice(), &candle_core::Device::Cpu) {
        Ok(t) => Ok(t),
        Err(e) => Err(e.to_string()),
    }
}

/// Relies on `Tensor::new` building a rank-one 8-bit tensor from a slice on
/// the CPU device, which the source shows cannot fail there.
#[verifier::external_body]
pub fn tensor_row_u8(vals: &Vec<u8>) -> (r: Result<candle_core::Tensor, String>)
    ensures
        r is Ok,
        r matches Ok(t) ==> tensor_dims(t) == seq![vals@.len() as int],
        r matches Ok(t) ==> tensor_bytes(t) == vals@,
        r matches Ok(t) ==> tensor_dtype(t) == dtype_u8(),
{
    match candle_core::Tensor::new(vals.as_slice(), &candle_core::Device::Cpu) {
        Ok(t) => Ok(t),
        Err(e) => Err(e.to_string()),
    }
}

/// Relies on `Tensor::unsqueeze` with dimension zero, which inserts a
/// leading size-one axis, keeps the elements and their type, and cannot
/// fail there.
#[verifier::external_body]
pub fn unsqueeze0(t: &candle_core::Tensor) -> (r: Result<candle_core::Tensor, String>)
    ensures
        r is Ok,
        r matches Ok(o) ==> tensor_dims(o) == seq![1int] + tensor_dims(*t),
        r matches Ok(o) ==> tensor_bytes(o) == tensor_bytes(*t),
        r matches Ok(o) ==> tensor_dtype(o) == tensor_dtype(*t),
{
    match t.unsqueeze(0) {
        Ok(o) => Ok(o),
        Err(e) => Err(e.to_string()),
    }
}

/// Relies on `BertModel::forward` running a 32-bit float encoder on the
/// CPU: on a 64-bit token row, a 64-bit segment row and a byte mask, the
/// output is a 32-bit float tensor with one hidden vector per input
/// position, and its bytes are a fixed function of the model and the input
/// rows within the running process.
#[verifier::external_body]
pub fn bert_forward(
    m: &candle_transformers::models::bert::BertModel,
    ids: &candle_core::Tensor,
    tts: &candle_core::Tensor,
    mask: &candle_core::Tensor,
) -> (r: Result<candle_core::Tensor, String>)
    requires
        bert_f32(*m),
        tensor_dims(*ids).len() == 2,
        tensor_dims(*ids)[0] == 1,
        tensor_dims(*tts) == tensor_dims(*ids),
        tensor_dims(*mask) == tensor_dims(*ids),
        tensor_dtype(*ids) == dtype_i64(),
        tensor_dtype(*tts) == dtype_i64(),
        tensor_dtype(*mask) == dtype_u8(),
    ensures
        (r is Ok) == (forward_bytes(*m, tensor_bytes(*ids), tensor_bytes(*tts), tensor_bytes(*mask))
            is Some),
        r matches Ok(o) ==> forward_bytes(
            *m,
            tensor_bytes(*ids),
            tensor_bytes(*tts),
            tensor_bytes(*mask),
        ) == Some(tensor_bytes(o)),
        r matches Ok(o) ==> tensor_dims(o) == tensor_dims(*ids).push(bert_hidden(*m)),
        r matches Ok(o) ==> tensor_bytes(o).len() == 4 * tensor_dims(*ids)[1] * bert_hidden(*m),
        r matches Ok(o) ==> tensor_dtype(o) == dtype_f32(),
{
    match m.forward(ids, tts, Some(mask)) {
        Ok(o) => Ok(o),
        Err(e) => Err(e.to_string()),
    }
}

/// Relies on `Tensor::mean` over axis one, which averages out the middle
/// axis of a rank-three tensor of 32-bit floats.
#[verifier::external_body]
pub fn mean_axis1(t: &candle_core::Tensor) -> (r: Result<candle_core::Tensor, String>)
    requires
        tensor_dims(*t).len() == 3,
        tensor_bytes(*t).len() == 4 * tensor_dims(*t)[1] * tensor_dims(*t)[2],
        tensor_dims(*t)[0] == 1,
        tensor_dtype(*t) == dtype_f32(),
    ensures
        (r is Ok) == (mean_bytes(tensor_bytes(*t), tensor_dims(*t)) is Some),
        r matches Ok(o) ==> mean_bytes(tensor_bytes(*t), tensor_dims(*t)) == Some(tensor_bytes(o)),
        r matches Ok(o) ==> tensor_dims(o) == seq![tensor_dims(*t)[0], tensor_dims(*t)[2]],
        r matches Ok(o) ==> tensor_bytes(o).len() == 4 * tensor_dims(*t)[0] * tensor_dims(*t)[2],
        r matches Ok(o) ==> tensor_dtype(o) == dtype_f32(),
{
    match t.mean(1) {
        Ok(o) => Ok(o),
        Err(e) => Err(e.to_string()),
    }
}

/// Relies on `Tensor::squeeze` with dimension zero, which drops a leading
/// size-one axis, keeps the elements and their type, and cannot fail on a
/// rank-two input.
#[verifier::external_body]
pub fn squeeze0(t: &candle_core::Tensor) -> (r: Result<candle_core::Tensor, String>)
    requires
        tensor_dims(*t).len() == 2,
        tensor_dims(*t)[0] == 1,
    ensures
        r is Ok,
        r matches Ok(o) ==> tensor_dims(o) == seq![tensor_dims(*t)[1]],
        r matches Ok(o) ==> tensor_bytes(o) == tensor_bytes(*t),
        r matches Ok(o) ==> tensor_dtype(o) == tensor_dtype(*t),
{
    match t.squeeze(0) {
        Ok(o) => Ok(o),
        Err(e) => Err(e.to_string()),
    }
}

/// Relies on the `safetensors::View` implementation for tensors, which
/// serializes the elements of a 32-bit float tensor as little-endian bytes
/// in row-major order; on that element type its conversion cannot fail.
#[verifier::external_body]
pub fn tensor_le_bytes(t: &candle_core::Tensor) -> (r: Vec<u8>)
    requires
        tensor_dtype(*t) == dtype_f32(),
    ensures
        r@ == tensor_bytes(*t),
{
    safetensors::View::data(t).into_owned()
}

} // verus!
