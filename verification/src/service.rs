//! The service facade: the five operations over one model store.
//!
//! Each operation states exactly what it returns in every state.  The
//! caller owns the lock around the store; these functions take the store
//! directly, so serialization is whatever the caller's lock gives.

use vstd::prelude::*;
use vstd::string::StringExecFns;
use crate::store::ModelStore;
use crate::store::EmbedError;
use crate::store::StoreView;
use crate::store::pipeline_spec;
use crate::store::load_plan;
use crate::backend::bert_builds;
use crate::backend::config_hidden;
use crate::backend::config_result_of;
use crate::backend::encode_deterministic;
use crate::backend::tokenizer_result_of;
use crate::numfmt::str_chars;

verus! {

/// How a source string is resolved: a repository identifier when it holds a
/// slash, a local directory otherwise.
pub enum SourceKind {
    Remote,
    Local,
}

/// Whether a source string names a remote repository.
pub open spec fn is_remote_source(s: Seq<char>) -> bool {
    exists|i: int| 0 <= i < s.len() && s[i] == '/'
}

/// Resolves a source string: remote exactly when it holds a slash.
pub fn resolve_source(source: &str) -> (r: SourceKind)
    ensures
        (r is Remote) == is_remote_source(source@),
{
    let cs = str_chars(source);
    let mut i: usize = 0;
    while i < cs.len()
        invariant
            i <= cs@.len(),
            cs@ == source@,
            forall|k: int| 0 <= k < i ==> source@[k] != '/',
        decreases cs@.len() - i,
    {
        if cs[i] == '/' {
            return SourceKind::Remote;
        }
        i = i + 1;
    }
    SourceKind::Local
}

/// The name of the tokenizer description artifact.
pub fn tokenizer_file_name() -> (r: String)
    ensures
        r@ == "tokenizer.json"@,
{
    String::from_str("tokenizer.json")
}

/// The name of the model configuration artifact.
pub fn config_file_name() -> (r: String)
    ensures
        r@ == "config.json"@,
{
    String::from_str("config.json")
}

/// The name of the model weights artifact.
pub fn weights_file_name() -> (r: String)
    ensures
        r@ == "model.safetensors"@,
{
    String::from_str("model.safetensors")
}

/// The report for a required artifact that is absent under a directory.
pub fn missing_artifact_message(name: &str, dir: &str) -> (r: String)
    ensures
        r@ == name@ + " not found in "@ + dir@,
{
    let mut s = String::from_str(name);
    s.append(" not found in ");
    s.append(dir);
    proof {
        assert(s@ =~= name@ + " not found in "@ + dir@);
    }
    s
}

/// The reply to an initialize request.
pub struct InitResponse {
    pub success: bool,
    pub message: String,
}

/// The failing initialize reply for a load that broke down with the given
/// detail; the transport call itself still succeeds.
pub fn init_failure_response(detail: &str) -> (r: InitResponse)
    ensures
        !r.success,
        r.message@ == "Failed to load model: "@ + detail@,
{
    let mut s = String::from_str("Failed to load model: ");
    s.append(detail);
    InitResponse { success: false, message: s }
}

/// Initializes the store from the three artifacts of `source`.  The reply
/// reports success exactly when the load goes through; the store then
/// holds the new model, its dimension is the parsed configuration's hidden
/// size, and the message says where it came from.  On failure the store is
/// exactly what it was and the message carries the originating error's
/// text after the fixed prefix — exactly for the two parse stages, whose
/// texts are functions of the bytes; the build stage's text depends on the
/// environment, so only the prefix is pinned there.  Never a transport
/// failure.
pub fn init_model(
    store: &mut ModelStore,
    source: &str,
    config_text: &str,
    tokenizer_data: &Vec<u8>,
    weights: &Vec<u8>,
) -> (r: InitResponse)
    requires
        old(store).wf(),
    ensures
        final(store).wf(),
        r.success == (load_plan(config_text@, tokenizer_data@, weights@) is Some),
        r.success ==> (final(store)@ matches StoreView::Loaded { source: s, dim } && s == source@
            && (load_plan(config_text@, tokenizer_data@, weights@) matches Some(p) && dim
            == config_hidden(p.0))),
        r.success ==> r.message@ == "Embedding model loaded from "@ + source@,
        !r.success ==> *final(store) == *old(store),
        !r.success ==> ("Failed to load model: "@).is_prefix_of(r.message@),
        config_result_of(config_text@) matches Err(t) ==> (!r.success && r.message@
            == "Failed to load model: "@ + t),
        config_result_of(config_text@) matches Ok(c) ==> (bert_builds(weights@, c) ==> (
        tokenizer_result_of(tokenizer_data@) matches Err(t) ==> (!r.success && r.message@
            == "Failed to load model: "@ + t))),
{
    match store.load(source, config_text, tokenizer_data, weights) {
        Ok(()) => {
            let mut s = String::from_str("Embedding model loaded from ");
            s.append(source);
            InitResponse { success: true, message: s }
        },
        Err(e) => {
            let m = e.message();
            init_failure_response(m.as_str())
        },
    }
}

/// A transport-level rejection of a request.
#[derive(Debug)]
pub enum ServiceError {
    FailedPrecondition(String),
    Internal(String),
}

/// A computed embedding: the bit patterns of the vector's entries, and the
/// store's dimension, which the vector's length always equals.
pub struct EmbedOk {
    pub bits: Vec<u32>,
    pub dim: usize,
}

/// Serves an embed request.  An empty store is a precondition failure; a
/// loaded store answers a vector as long as the reported dimension, and a
/// pipeline breakdown is an internal error.  Where the tokenizer encodes
/// deterministically, the answer is exactly what the pipeline yields on
/// this store and this text.
pub fn embed_op(store: &ModelStore, text: &str) -> (r: Result<EmbedOk, ServiceError>)
    requires
        store.wf(),
    ensures
        store@ is Empty ==> (r matches Err(ServiceError::FailedPrecondition(m)) && m@
            == "Model not initialized"@),
        *store matches ModelStore::Loaded { model, tokenizer, dim, .. } ==> {
            &&& (r matches Ok(o) ==> o.dim == dim && o.bits@.len() == dim)
            &&& (r matches Err(e) ==> e matches ServiceError::Internal(m) && ("Embedding error: "@).is_prefix_of(
                m@,
            ))
            &&& (encode_deterministic(tokenizer) ==> ((r is Ok) <==> (pipeline_spec(
                model,
                tokenizer,
                text@,
            ) is Some)))
            &&& (encode_deterministic(tokenizer) ==> (r matches Ok(o) ==> pipeline_spec(
                model,
                tokenizer,
                text@,
            ) == Some(o.bits@)))
        },
{
    if !store.is_loaded() {
        return Err(ServiceError::FailedPrecondition(String::from_str("Model not initialized")));
    }
    let dim = store.dim();
    match store.embed(text) {
        Ok(bits) => Ok(EmbedOk { bits, dim }),
        Err(e) => {
            let detail = match e {
                EmbedError::NotLoaded => String::new(),
                EmbedError::Pipeline(m) => m,
            };
            let mut s = String::from_str("Embedding error: ");
            s.append(detail.as_str());
            Err(ServiceError::Internal(s))
        },
    }
}

/// Serves the embedding part of a generate request: the same vector embed
/// yields, with an empty result reported as an internal failure instead.
/// On a loaded store every failure is internal: the pipeline's with the
/// fixed prefix, or the exact empty-vector report.
pub fn generate_op(store: &ModelStore, prompt: &str) -> (r: Result<EmbedOk, ServiceError>)
    requires
        store.wf(),
    ensures
        store@ is Empty ==> (r matches Err(ServiceError::FailedPrecondition(m)) && m@
            == "Model not initialized"@),
        *store matches ModelStore::Loaded { model, tokenizer, dim, .. } ==> {
            &&& (r matches Ok(o) ==> o.dim == dim && o.bits@.len() == dim && dim > 0)
            &&& (r matches Err(e) ==> (e matches ServiceError::Internal(m) && (("Embedding error: "@).is_prefix_of(
                m@,
            ) || m@ == "Failed to generate embedding"@)))
            &&& (encode_deterministic(tokenizer) ==> ((r is Ok) <==> (pipeline_spec(
                model,
                tokenizer,
                prompt@,
            ) is Some && dim > 0)))
            &&& (encode_deterministic(tokenizer) ==> (r matches Ok(o) ==> pipeline_spec(
                model,
                tokenizer,
                prompt@,
            ) == Some(o.bits@)))
            &&& (encode_deterministic(tokenizer) ==> ((pipeline_spec(model, tokenizer, prompt@)
                is Some && dim == 0) ==> (r matches Err(ServiceError::Internal(m)) && m@
                == "Failed to generate embedding"@)))
            &&& (encode_deterministic(tokenizer) ==> ((pipeline_spec(model, tokenizer, prompt@)
                is None) ==> (r matches Err(ServiceError::Internal(m)) && ("Embedding error: "@).is_prefix_of(
                m@,
            ))))
        },
{
    match embed_op(store, prompt) {
        Ok(o) => {
            if o.bits.len() == 0 {
                Err(ServiceError::Internal(String::from_str("Failed to generate embedding")))
            } else {
                Ok(o)
            }
        },
        Err(e) => Err(e),
    }
}

/// The model descriptor the service reports.
pub struct ModelInfo {
    pub model_name: String,
    pub vocab_size: i32,
    pub context_size: i32,
    pub backend: String,
}

/// Reports the loaded source with its backend tag, or the unloaded
/// sentinel, beside the fixed vocabulary size, context size and backend.
pub fn model_info_op(store: &ModelStore) -> (r: ModelInfo)
    ensures
        store@ matches StoreView::Loaded { source, .. } ==> r.model_name@ == source
            + " (candle BERT)"@,
        store@ is Empty ==> r.model_name@ == "Not loaded"@,
        r.vocab_size == 30522,
        r.context_size == 512,
        r.backend@ == "candle"@,
{
    let model_name = if store.is_loaded() {
        let mut s = store.source();
        s.append(" (candle BERT)");
        s
    } else {
        String::from_str("Not loaded")
    };
    ModelInfo {
        model_name,
        vocab_size: 30522,
        context_size: 512,
        backend: String::from_str("candle"),
    }
}

/// The health report.
pub struct HealthStatus {
    pub healthy: bool,
    pub message: String,
}

/// Reports health: true in every state, with a message that tells the
/// loaded and unloaded cases apart.
pub fn health_op(store: &ModelStore) -> (r: HealthStatus)
    ensures
        r.healthy,
        store@ is Loaded ==> r.message@ == "Embedding service is healthy (model loaded)"@,
        store@ is Empty ==> r.message@ == "Embedding service is healthy (no model)"@,
{
    let message = if store.is_loaded() {
        String::from_str("Embedding service is healthy (model loaded)")
    } else {
        String::from_str("Embedding service is healthy (no model)")
    };
    HealthStatus { healthy: true, message }
}

} // verus!
