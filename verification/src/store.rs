//! The model store: the lifecycle state machine and the embedding pipeline.
//!
//! The store is either empty or loaded; a loaded store holds the encoder,
//! the tokenizer, the source it was loaded from and the embedding
//! dimension, which always equals the width of the encoder's output.  A
//! failed load leaves the store exactly as it was.

use vstd::prelude::*;
use crate::backend::bert_f32;
use crate::backend::bert_forward;
use crate::backend::bert_hidden;
use crate::backend::bert_builds;
use crate::backend::config_hidden;
use crate::backend::config_result_of;
use crate::backend::encode_deterministic;
use crate::backend::config_hidden_size;
use crate::backend::encode_result;
use crate::backend::forward_bytes;
use crate::backend::load_bert;
use crate::backend::mean_axis1;
use crate::backend::mean_bytes;
use crate::backend::parse_config;
use crate::backend::squeeze0;
use crate::backend::tensor_dims;
use crate::backend::tensor_le_bytes;
use crate::backend::tensor_row_i64;
use crate::backend::tensor_row_u8;
use crate::backend::tok_encode;
use crate::backend::tokenizer_from_bytes;
use crate::backend::tokenizer_result_of;
use crate::backend::unsqueeze0;
use crate::bytes::i64_row_bytes;
use crate::bytes::le_words;
use crate::bytes::words_from_le;

verus! {

/// What the service observes of a store: its state, and when loaded, the
/// source and the embedding dimension.
pub enum StoreView {
    Empty,
    Loaded { source: Seq<char>, dim: int },
}

/// The store itself: empty, or holding the encoder and tokenizer together
/// with the source they came from and the embedding dimension.  The two
/// handles cannot drift apart: they are present or absent jointly.
pub enum ModelStore {
    Empty,
    Loaded {
        model: candle_transformers::models::bert::BertModel,
        tokenizer: tokenizers::Tokenizer,
        source: String,
        dim: usize,
    },
}

/// Why a load was rejected; each variant carries the reporting text of the
/// stage that failed.
pub enum LoadError {
    Config(String),
    Model(String),
    Tokenizer(String),
}

impl LoadError {
    /// The reporting text carried by the error.
    pub fn message(&self) -> (r: String)
        ensures
            self matches LoadError::Config(m) ==> r@ == m@,
            self matches LoadError::Model(m) ==> r@ == m@,
            self matches LoadError::Tokenizer(m) ==> r@ == m@,
    {
        match self {
            LoadError::Config(m) => m.clone(),
            LoadError::Model(m) => m.clone(),
            LoadError::Tokenizer(m) => m.clone(),
        }
    }
}

/// Why an embedding request failed.
pub enum EmbedError {
    NotLoaded,
    Pipeline(String),
}

impl View for ModelStore {
    type V = StoreView;

    open spec fn view(&self) -> StoreView {
        match *self {
            ModelStore::Empty => StoreView::Empty,
            ModelStore::Loaded { source, dim, .. } => StoreView::Loaded {
                source: source@,
                dim: dim as int,
            },
        }
    }
}

/// What the pipeline computes on a loaded store: the bit patterns of the
/// pooled vector, or nothing at whichever stage the outside call fails.
/// The stages mirror the executable pipeline exactly: tokenize with
/// special tokens, tensorize the id row, an all-zero segment row and the
/// mask row, run the encoder, average over the sequence axis, and read the
/// pooled row back as 32-bit words.
pub open spec fn pipeline_spec(
    m: candle_transformers::models::bert::BertModel,
    tok: tokenizers::Tokenizer,
    text: Seq<char>,
) -> Option<Seq<u32>> {
    match encode_result(tok, text) {
        Option::None => Option::None,
        Option::Some(enc) => {
            let ids64 = Seq::new(enc.0.len(), |i: int| enc.0[i] as i64);
            let zeros64 = Seq::new(enc.0.len(), |i: int| 0i64);
            let mask8 = Seq::new(enc.1.len(), |i: int| enc.1[i] as u8);
            match forward_bytes(m, i64_row_bytes(ids64), i64_row_bytes(zeros64), mask8) {
                Option::None => Option::None,
                Option::Some(hid) => {
                    match mean_bytes(hid, seq![1int, enc.0.len() as int, bert_hidden(m)]) {
                        Option::None => Option::None,
                        Option::Some(pooled) => Option::Some(le_words(pooled)),
                    }
                },
            }
        },
    }
}

/// What loading from the three artifacts yields: the parsed configuration
/// and the parsed tokenizer, provided the encoder builds from the weights
/// under that configuration; nothing at the first stage that refuses.  The
/// stages mirror the executable load exactly.  The built encoder itself is
/// not named: its arithmetic depends on the running machine.
pub open spec fn load_plan(
    config_text: Seq<char>,
    tokenizer_data: Seq<u8>,
    weights: Seq<u8>,
) -> Option<(candle_transformers::models::bert::Config, tokenizers::Tokenizer)> {
    match config_result_of(config_text) {
        Result::Err(_) => Option::None,
        Result::Ok(c) => if !bert_builds(weights, c) {
            Option::None
        } else {
            match tokenizer_result_of(tokenizer_data) {
                Result::Err(_) => Option::None,
                Result::Ok(t) => Option::Some((c, t)),
            }
        },
    }
}

impl ModelStore {
    /// A loaded store records as its dimension exactly the width of its
    /// encoder's output, and its encoder computes in 32-bit floats.
    pub open spec fn wf(&self) -> bool {
        *self matches ModelStore::Loaded { model, dim, .. } ==> (dim as int == bert_hidden(model)
            && bert_f32(model))
    }

    /// A fresh store is empty.
    pub fn new() -> (r: ModelStore)
        ensures
            r@ is Empty,
            r.wf(),
    {
        ModelStore::Empty
    }

    /// Loads a model from its three artifacts: the configuration text, the
    /// tokenizer description and the weights image.  The load succeeds
    /// exactly when the configuration parses, the encoder builds from the
    /// weights under it, and the tokenizer parses; the store then holds
    /// the results together with the source, and its dimension is the
    /// configuration's hidden size.  On any failure the store is left
    /// exactly as it was and the error names the first stage that refused;
    /// the parse stages carry their exact reporting texts, the build stage
    /// an environment-dependent one.
    pub fn load(
        &mut self,
        source: &str,
        config_text: &str,
        tokenizer_data: &Vec<u8>,
        weights: &Vec<u8>,
    ) -> (r: Result<(), LoadError>)
        requires
            old(self).wf(),
        ensures
            final(self).wf(),
            (r is Ok) == (load_plan(config_text@, tokenizer_data@, weights@) is Some),
            r is Err ==> *final(self) == *old(self),
            r is Ok ==> (*final(self) matches ModelStore::Loaded { tokenizer, source: s, dim, .. }
                && (load_plan(config_text@, tokenizer_data@, weights@) matches Some(p) && tokenizer
                == p.1 && s@ == source@ && dim as int == config_hidden(p.0))),
            r matches Err(e) ==> ((e is Config) <==> (config_result_of(config_text@) is Err)),
            r matches Err(e) ==> ((e is Model) <==> (config_result_of(config_text@) matches Ok(c)
                && !bert_builds(weights@, c))),
            r matches Err(e) ==> ((e is Tokenizer) <==> (config_result_of(config_text@) matches Ok(
                c,
            ) && bert_builds(weights@, c) && tokenizer_result_of(tokenizer_data@) is Err)),
            r matches Err(e) ==> (e matches LoadError::Config(m) ==> (config_result_of(config_text@)
                matches Err(t) && m@ == t)),
            r matches Err(e) ==> (e matches LoadError::Tokenizer(m) ==> (tokenizer_result_of(
                tokenizer_data@,
            ) matches Err(t) && m@ == t)),
    {
        let cfg = match parse_config(config_text) {
            Ok(c) => c,
            Err(m) => {
                return Err(LoadError::Config(m));
            },
        };
        let h = config_hidden_size(&cfg);
        let model = match load_bert(weights, &cfg) {
            Ok(m) => m,
            Err(m) => {
                return Err(LoadError::Model(m));
            },
        };
        let tok = match tokenizer_from_bytes(tokenizer_data) {
            Ok(t) => t,
            Err(m) => {
                return Err(LoadError::Tokenizer(m));
            },
        };
        *self = ModelStore::Loaded { model, tokenizer: tok, source: source.to_owned(), dim: h };
        Ok(())
    }

    /// Computes the embedding of `text` as the bit patterns of the pooled
    /// vector.  Requires nothing of the input: an empty store reports the
    /// state violation, and a loaded store returns a vector as wide as the
    /// store's dimension.  Where the tokenizer encodes deterministically,
    /// the result is exactly what the pipeline yields on this store and
    /// this text.
    pub fn embed(&self, text: &str) -> (r: Result<Vec<u32>, EmbedError>)
        requires
            self.wf(),
        ensures
            *self is Empty ==> r == Result::<Vec<u32>, EmbedError>::Err(EmbedError::NotLoaded),
            *self matches ModelStore::Loaded { model, tokenizer, dim, .. } ==> {
                &&& (r matches Ok(v) ==> v@.len() == dim)
                &&& (r matches Err(e) ==> e is Pipeline)
                &&& (encode_deterministic(tokenizer) ==> ((r is Ok) <==> (pipeline_spec(
                    model,
                    tokenizer,
                    text@,
                ) is Some)))
                &&& (encode_deterministic(tokenizer) ==> (r matches Ok(v) ==> pipeline_spec(
                    model,
                    tokenizer,
                    text@,
                ) == Some(v@)))
            },
    {
        let (model, tokenizer) = match self {
            ModelStore::Empty => {
                return Err(EmbedError::NotLoaded);
            },
            ModelStore::Loaded { model, tokenizer, .. } => (model, tokenizer),
        };
        let (ids, mask) = match tok_encode(tokenizer, text) {
            Ok(p) => p,
            Err(m) => {
                return Err(EmbedError::Pipeline(m));
            },
        };
        let n = ids.len();
        let mut ids64: Vec<i64> = Vec::new();
        let mut zeros64: Vec<i64> = Vec::new();
        let mut mask8: Vec<u8> = Vec::new();
        let mut i: usize = 0;
        while i < n
            invariant
                n == ids@.len(),
                mask@.len() == n,
                forall|k: int| 0 <= k < n ==> mask@[k] == 0 || mask@[k] == 1,
                i <= n,
                ids64@ =~= Seq::new(i as nat, |k: int| ids@[k] as i64),
                zeros64@ =~= Seq::new(i as nat, |k: int| 0i64),
                mask8@ =~= Seq::new(i as nat, |k: int| mask@[k] as u8),
            decreases n - i,
        {
            ids64.push(ids[i] as i64);
            zeros64.push(0i64);
            mask8.push(mask[i] as u8);
            i = i + 1;
        }
        proof {
            assert(ids64@ =~= Seq::new(ids@.len(), |k: int| ids@[k] as i64));
            assert(zeros64@ =~= Seq::new(ids@.len(), |k: int| 0i64));
            assert(mask8@ =~= Seq::new(mask@.len(), |k: int| mask@[k] as u8));
        }
        let t_ids = match tensor_row_i64(&ids64) {
            Ok(t) => t,
            Err(m) => {
                return Err(EmbedError::Pipeline(m));
            },
        };
        let t_tts = match tensor_row_i64(&zeros64) {
            Ok(t) => t,
            Err(m) => {
                return Err(EmbedError::Pipeline(m));
            },
        };
        let t_mask = match tensor_row_u8(&mask8) {
            Ok(t) => t,
            Err(m) => {
                return Err(EmbedError::Pipeline(m));
            },
        };
        let t_ids = match unsqueeze0(&t_ids) {
            Ok(t) => t,
            Err(m) => {
                return Err(EmbedError::Pipeline(m));
            },
        };
        let t_tts = match unsqueeze0(&t_tts) {
            Ok(t) => t,
            Err(m) => {
                return Err(EmbedError::Pipeline(m));
            },
        };
        let t_mask = match unsqueeze0(&t_mask) {
            Ok(t) => t,
            Err(m) => {
                return Err(EmbedError::Pipeline(m));
            },
        };
        let hidden = match bert_forward(model, &t_ids, &t_tts, &t_mask) {
            Ok(t) => t,
            Err(m) => {
                return Err(EmbedError::Pipeline(m));
            },
        };
        proof {
            assert(tensor_dims(hidden) =~= seq![1int, ids@.len() as int, bert_hidden(*model)]);
        }
        let pooled = match mean_axis1(&hidden) {
            Ok(t) => t,
            Err(m) => {
                return Err(EmbedError::Pipeline(m));
            },
        };
        let flat = match squeeze0(&pooled) {
            Ok(t) => t,
            Err(m) => {
                return Err(EmbedError::Pipeline(m));
            },
        };
        let payload = tensor_le_bytes(&flat);
        let bits = words_from_le(&payload);
        Ok(bits)
    }

    /// Whether a model is loaded.
    pub fn is_loaded(&self) -> (r: bool)
        ensures
            r == (self@ is Loaded),
    {
        match self {
            ModelStore::Empty => false,
            ModelStore::Loaded { .. } => true,
        }
    }

    /// The recorded embedding dimension of a loaded store.
    pub fn dim(&self) -> (r: usize)
        requires
            self@ is Loaded,
        ensures
            self@ matches StoreView::Loaded { dim, .. } && r as int == dim,
    {
        match self {
            ModelStore::Empty => 0,
            ModelStore::Loaded { dim, .. } => *dim,
        }
    }

    /// The source of the most recent successful load.
    pub fn source(&self) -> (r: String)
        requires
            self@ is Loaded,
        ensures
            self@ matches StoreView::Loaded { source, .. } && r@ == source,
    {
        match self {
            ModelStore::Empty => String::new(),
            ModelStore::Loaded { source, .. } => source.clone(),
        }
    }
}

} // verus!
