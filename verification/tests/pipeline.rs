//! End-to-end runs of the load and embed pipeline on a tiny handmade
//! encoder: four hidden units, one layer, a whitespace word-level
//! tokenizer.  These runs exercise the real inference stack behind the
//! library's trusted boundary.

use sidecar::service::{embed_op, generate_op, health_op, init_model, model_info_op};
use sidecar::store::ModelStore;

const HIDDEN: usize = 4;

const CONFIG: &str = r#"{
  "vocab_size": 8,
  "hidden_size": 4,
  "num_hidden_layers": 1,
  "num_attention_heads": 2,
  "intermediate_size": 8,
  "hidden_act": "gelu",
  "hidden_dropout_prob": 0.0,
  "max_position_embeddings": 8,
  "type_vocab_size": 2,
  "initializer_range": 0.02,
  "layer_norm_eps": 1e-12,
  "pad_token_id": 0,
  "model_type": "bert"
}"#;

const TOKENIZER: &str = r#"{
  "version": "1.0",
  "truncation": null,
  "padding": null,
  "added_tokens": [],
  "normalizer": null,
  "pre_tokenizer": {"type": "Whitespace"},
  "post_processor": null,
  "decoder": null,
  "model": {
    "type": "WordLevel",
    "vocab": {"[UNK]": 0, "hello": 1, "world": 2, "embed": 3},
    "unk_token": "[UNK]"
  }
}"#;

fn le_bytes(vals: &[f32]) -> Vec<u8> {
    let mut out = Vec::new();
    for v in vals {
        out.extend_from_slice(&v.to_le_bytes());
    }
    out
}

fn filled(n: usize, seed: usize) -> Vec<f32> {
    (0..n)
        .map(|k| ((k * 31 + seed * 17 + 7) % 13) as f32 * 0.03 - 0.15)
        .collect()
}

fn tiny_weights() -> Vec<u8> {
    let h = HIDDEN;
    let names_shapes: Vec<(&str, Vec<usize>, Vec<f32>)> = vec![
        ("embeddings.word_embeddings.weight", vec![8, h], filled(8 * h, 1)),
        ("embeddings.position_embeddings.weight", vec![8, h], filled(8 * h, 2)),
        ("embeddings.token_type_embeddings.weight", vec![2, h], filled(2 * h, 3)),
        ("embeddings.LayerNorm.weight", vec![h], vec![1.0; h]),
        ("embeddings.LayerNorm.bias", vec![h], vec![0.0; h]),
        ("encoder.layer.0.attention.self.query.weight", vec![h, h], filled(h * h, 4)),
        ("encoder.layer.0.attention.self.query.bias", vec![h], vec![0.0; h]),
        ("encoder.layer.0.attention.self.key.weight", vec![h, h], filled(h * h, 5)),
        ("encoder.layer.0.attention.self.key.bias", vec![h], vec![0.0; h]),
        ("encoder.layer.0.attention.self.value.weight", vec![h, h], filled(h * h, 6)),
        ("encoder.layer.0.attention.self.value.bias", vec![h], vec![0.0; h]),
        ("encoder.layer.0.attention.output.dense.weight", vec![h, h], filled(h * h, 7)),
        ("encoder.layer.0.attention.output.dense.bias", vec![h], vec![0.0; h]),
        ("encoder.layer.0.attention.output.LayerNorm.weight", vec![h], vec![1.0; h]),
        ("encoder.layer.0.attention.output.LayerNorm.bias", vec![h], vec![0.0; h]),
        ("encoder.layer.0.intermediate.dense.weight", vec![2 * h, h], filled(2 * h * h, 8)),
        ("encoder.layer.0.intermediate.dense.bias", vec![2 * h], vec![0.0; 2 * h]),
        ("encoder.layer.0.output.dense.weight", vec![h, 2 * h], filled(2 * h * h, 9)),
        ("encoder.layer.0.output.dense.bias", vec![h], vec![0.0; h]),
        ("encoder.layer.0.output.LayerNorm.weight", vec![h], vec![1.0; h]),
        ("encoder.layer.0.output.LayerNorm.bias", vec![h], vec![0.0; h]),
    ];
    let buffers: Vec<(String, Vec<usize>, Vec<u8>)> = names_shapes
        .into_iter()
        .map(|(n, s, v)| (n.to_string(), s, le_bytes(&v)))
        .collect();
    let views: Vec<(&String, safetensors::tensor::TensorView)> = buffers
        .iter()
        .map(|(n, s, b)| {
            (n, safetensors::tensor::TensorView::new(safetensors::Dtype::F32, s.clone(), b).unwrap())
        })
        .collect();
    safetensors::tensor::serialize(views, None).unwrap()
}

fn loaded_store() -> ModelStore {
    let mut store = ModelStore::new();
    let r = init_model(
        &mut store,
        "tiny-local",
        CONFIG,
        &TOKENIZER.as_bytes().to_vec(),
        &tiny_weights(),
    );
    assert!(r.success, "load failed: {}", r.message);
    assert_eq!(r.message, "Embedding model loaded from tiny-local");
    store
}

#[test]
fn successful_load_reports_and_serves() {
    let store = loaded_store();
    assert!(store.is_loaded());
    let h = health_op(&store);
    assert!(h.healthy);
    assert_eq!(h.message, "Embedding service is healthy (model loaded)");
    let info = model_info_op(&store);
    assert_eq!(info.model_name, "tiny-local (candle BERT)");
    assert_eq!(info.backend, "candle");
}

#[test]
fn embed_returns_a_vector_of_the_reported_dimension() {
    let store = loaded_store();
    let o = embed_op(&store, "hello world").expect("embedding must succeed");
    assert_eq!(o.dim, HIDDEN);
    assert_eq!(o.bits.len(), HIDDEN);
    // Entries are finite floats.
    for b in &o.bits {
        assert!(f32::from_bits(*b).is_finite());
    }
}

#[test]
fn embed_is_deterministic_and_generate_agrees() {
    let store = loaded_store();
    let a = embed_op(&store, "hello").expect("embedding must succeed");
    let b = embed_op(&store, "hello").expect("embedding must succeed");
    assert_eq!(a.bits, b.bits);
    let g = generate_op(&store, "hello").expect("generate must succeed");
    assert_eq!(g.bits, a.bits);
    // A different text moves the vector.
    let w = embed_op(&store, "world").expect("embedding must succeed");
    assert_eq!(w.bits.len(), HIDDEN);
    assert_ne!(w.bits, a.bits);
}

#[test]
fn failed_reload_keeps_the_loaded_model() {
    let mut store = loaded_store();
    let before = embed_op(&store, "hello").expect("embedding must succeed");
    let r = init_model(
        &mut store,
        "elsewhere",
        "this is not a configuration",
        &TOKENIZER.as_bytes().to_vec(),
        &tiny_weights(),
    );
    assert!(!r.success);
    assert!(r.message.starts_with("Failed to load model: "));
    // The prior model still answers, unchanged.
    assert_eq!(model_info_op(&store).model_name, "tiny-local (candle BERT)");
    let after = embed_op(&store, "hello").expect("embedding must succeed");
    assert_eq!(after.bits, before.bits);
}

#[test]
fn input_beyond_the_context_window_fails_cleanly() {
    let store = loaded_store();
    // The tiny encoder knows eight positions; a longer input may be
    // rejected with an inference error, never a crash or a precondition
    // failure.
    let long = "hello world embed hello world embed hello world embed hello";
    match embed_op(&store, long) {
        Ok(o) => assert_eq!(o.bits.len(), HIDDEN),
        Err(sidecar::service::ServiceError::Internal(m)) => {
            assert!(m.starts_with("Embedding error: "))
        }
        Err(e) => panic!("unexpected rejection: {e:?}"),
    }
}

#[test]
fn concurrent_embeds_return_identical_vectors() {
    let store = std::sync::Arc::new(tokio::sync::Mutex::new(loaded_store()));
    let rt = tokio::runtime::Builder::new_multi_thread()
        .worker_threads(2)
        .build()
        .unwrap();
    let (a, b) = rt.block_on(async {
        let s1 = store.clone();
        let s2 = store.clone();
        let t1 = tokio::spawn(async move {
            let guard = s1.lock().await;
            embed_op(&guard, "hello").map(|o| o.bits)
        });
        let t2 = tokio::spawn(async move {
            let guard = s2.lock().await;
            embed_op(&guard, "hello").map(|o| o.bits)
        });
        (t1.await.unwrap(), t2.await.unwrap())
    });
    let a = a.expect("embedding must succeed");
    let b = b.expect("embedding must succeed");
    assert_eq!(a, b);
}

#[test]
fn generate_stream_on_the_loaded_model_reports_its_dimension() {
    let store = loaded_store();
    let g = generate_op(&store, "hello").expect("generate must succeed");
    let stats = sidecar::present::vector_stats(&g.bits);
    let min_text = format!("{:.4}", f32::from_bits(stats.min_abs_bits));
    let max_text = format!("{:.4}", f32::from_bits(stats.max_abs_bits));
    let chunks = sidecar::present::stream_chunks("hello", &g.bits, &min_text, &max_text);
    let header: String = chunks
        .iter()
        .take_while(|c| c.text.chars().count() == 1)
        .map(|c| c.text.as_str())
        .collect();
    assert!(header.contains("Dim: 4"), "header was: {header}");
    let last = chunks.last().unwrap();
    assert!(last.done);
    assert_eq!(last.tokens_generated, HIDDEN);
}

#[test]
fn empty_input_is_never_a_precondition_failure() {
    let store = loaded_store();
    // This whitespace tokenizer adds no boundary tokens, so an empty string
    // yields an empty row; if the encoder rejects the empty row, the reply
    // is an internal error, not a crash; if it accepts it, the vector still
    // has the full dimension.
    match embed_op(&store, "") {
        Ok(o) => assert_eq!(o.bits.len(), HIDDEN),
        Err(e) => match e {
            sidecar::service::ServiceError::Internal(m) => {
                assert!(m.starts_with("Embedding error: "))
            }
            _ => panic!("an empty input must not be a precondition failure"),
        },
    }
}
