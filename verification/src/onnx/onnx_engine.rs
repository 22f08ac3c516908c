//! Embedding engine: the verified pipeline around the opaque tensor runtime.
//!
//! Per text the pipeline tokenizes, builds three equal-length integer input
//! sequences, hands them to the runtime, checks the claimed output shape,
//! checks that the attention mask admits pooling, and then lets the backend
//! mean-pool and normalize.  The runtime call and the floating-point
//! arithmetic of pooling and normalization live behind the
//! [`TensorBackend`] capability, of which nothing is assumed: every rule the
//! pipeline enforces — rejection of an empty batch, shape validation, the
//! refusal to pool over an all-zero mask, one output per input in order — is
//! proved for every backend behaviour.
//!
//! Float values are carried as raw bit patterns of 32-bit floats throughout.

use crate::models::config::str_eq;
use crate::models::Embedding;
use crate::models::EmbeddingError;
use vstd::prelude::*;
use vstd::string::StringExecFns;

verus! {

/// Configuration for the tensor runtime.
#[derive(Debug)]
pub struct OnnxConfig {
    /// Path of the runtime library to load.
    pub library_path: String,
    /// Runtime version label.
    pub version: String,
    /// Enable profiling.
    pub enable_profiling: bool,
    /// Enable memory optimization.
    pub enable_memory_optimization: bool,
    /// Thread pool size for inference.
    pub thread_pool_size: usize,
}

impl Clone for OnnxConfig {
    /// A clone carries the same settings.
    fn clone(&self) -> (r: OnnxConfig)
        ensures
            r.library_path@ == self.library_path@,
            r.version@ == self.version@,
            r.enable_profiling == self.enable_profiling,
            r.enable_memory_optimization == self.enable_memory_optimization,
            r.thread_pool_size == self.thread_pool_size,
    {
        OnnxConfig {
            library_path: self.library_path.clone(),
            version: self.version.clone(),
            enable_profiling: self.enable_profiling,
            enable_memory_optimization: self.enable_memory_optimization,
            thread_pool_size: self.thread_pool_size,
        }
    }
}

impl Default for OnnxConfig {
    /// The usual runtime location and settings.
    fn default() -> (r: OnnxConfig)
        ensures
            r.library_path@ == "onnxruntime-win-x64-1.22.0/lib/onnxruntime.dll"@,
            r.version@ == "1.22.0"@,
            !r.enable_profiling,
            r.enable_memory_optimization,
            r.thread_pool_size == 4,
    {
        OnnxConfig {
            library_path: "onnxruntime-win-x64-1.22.0/lib/onnxruntime.dll".to_owned(),
            version: "1.22.0".to_owned(),
            enable_profiling: false,
            enable_memory_optimization: true,
            thread_pool_size: 4,
        }
    }
}

/// The three named integer inputs of one runtime invocation.
pub struct ModelInputs {
    /// Token ids.
    pub input_ids: Vec<i64>,
    /// Attention mask, 1 on real tokens and 0 on padding.
    pub attention_mask: Vec<i64>,
    /// Segment ids, all zero for a single sequence.
    pub token_type_ids: Vec<i64>,
}

/// What the runtime hands back: a claimed shape and the flat float data as
/// bit patterns.
pub struct TensorOutput {
    /// Claimed dimensions, expected rank 3: `[1, seq_len, hidden_size]`.
    pub shape: Vec<usize>,
    /// Flat float data, one 32-bit pattern per element.
    pub data: Vec<u32>,
}

impl TensorOutput {
    /// Well-formed rank-3 output for a sequence of `seq_len` positions: the
    /// claimed shape has rank 3, its sequence axis matches, and the data
    /// holds exactly as many elements as the shape claims.
    pub open spec fn spec_is_3d(self, seq_len: int) -> bool {
        &&& self.shape@.len() == 3
        &&& self.shape@[1] == seq_len
        &&& self.data@.len() == self.shape@[0] * self.shape@[1] * self.shape@[2]
    }
}

/// The capability the pipeline requires of a tensor runtime: running the
/// model and the floating-point post-processing, which the verified core
/// does not model.  Nothing is assumed of the results.
pub trait TensorBackend {
    /// Runs the model on the named integer inputs, yielding the raw
    /// per-token vectors.
    fn run(&mut self, inputs: &ModelInputs) -> Result<TensorOutput, String>;

    /// Mean-pools the sequence axis over the positions where the mask is 1.
    fn pool_mean(&self, output: &TensorOutput, attention_mask: &Vec<u32>) -> Vec<u32>
        requires
            output.spec_is_3d(attention_mask@.len() as int),
            spec_valid_positions(attention_mask@) > 0,
    ;

    /// L2-normalizes the vector; nothing when its norm is exactly zero.
    fn normalize(&self, embedding: &Vec<u32>) -> Option<Vec<u32>>;

    /// The runtime's input tensor names.
    fn input_names(&self) -> Vec<String>;

    /// The runtime's output tensor names.
    fn output_names(&self) -> Vec<String>;
}

/// Each mask entry as a 64-bit value.
pub open spec fn spec_widened(v: Seq<u32>) -> Seq<i64> {
    v.map_values(|x: u32| x as i64)
}

/// How many positions of the mask are exactly 1.
pub open spec fn spec_valid_positions(mask: Seq<u32>) -> int
    decreases mask.len(),
{
    if mask.len() == 0 {
        0
    } else {
        spec_valid_positions(mask.drop_last()) + (if mask.last() == 1 {
            1int
        } else {
            0int
        })
    }
}

/// Builds the three equal-length integer sequences of one invocation: the
/// ids and the mask widened, and an all-zero segment sequence beside the ids.
pub fn build_model_inputs(input_ids: &Vec<u32>, attention_mask: &Vec<u32>) -> (r: ModelInputs)
    ensures
        r.input_ids@ == spec_widened(input_ids@),
        r.attention_mask@ == spec_widened(attention_mask@),
        r.token_type_ids@.len() == input_ids@.len(),
        forall|i: int| 0 <= i < r.token_type_ids@.len() ==> (#[trigger] r.token_type_ids@[i]) == 0,
{
    let mut ids: Vec<i64> = Vec::new();
    let mut i: usize = 0;
    while i < input_ids.len()
        invariant
            i <= input_ids@.len(),
            ids@.len() == i,
            forall|j: int| 0 <= j < i ==> (#[trigger] ids@[j]) == input_ids@[j] as i64,
        decreases input_ids@.len() - i,
    {
        ids.push(input_ids[i] as i64);
        i += 1;
    }
    let mut mask: Vec<i64> = Vec::new();
    let mut k: usize = 0;
    while k < attention_mask.len()
        invariant
            k <= attention_mask@.len(),
            mask@.len() == k,
            forall|j: int| 0 <= j < k ==> (#[trigger] mask@[j]) == attention_mask@[j] as i64,
        decreases attention_mask@.len() - k,
    {
        mask.push(attention_mask[k] as i64);
        k += 1;
    }
    let mut segments: Vec<i64> = Vec::new();
    let mut t: usize = 0;
    while t < input_ids.len()
        invariant
            t <= input_ids@.len(),
            segments@.len() == t,
            forall|j: int| 0 <= j < t ==> (#[trigger] segments@[j]) == 0,
        decreases input_ids@.len() - t,
    {
        segments.push(0);
        t += 1;
    }
    proof {
        assert(ids@ =~= spec_widened(input_ids@));
        assert(mask@ =~= spec_widened(attention_mask@));
    }
    ModelInputs { input_ids: ids, attention_mask: mask, token_type_ids: segments }
}

/// Counts the mask positions that are exactly 1.
pub fn valid_token_count(attention_mask: &Vec<u32>) -> (n: usize)
    ensures
        n == spec_valid_positions(attention_mask@),
{
    let mut n: usize = 0;
    let mut i: usize = 0;
    while i < attention_mask.len()
        invariant
            i <= attention_mask@.len(),
            n == spec_valid_positions(attention_mask@.subrange(0, i as int)),
            n <= i,
        decreases attention_mask@.len() - i,
    {
        proof {
            let prefix = attention_mask@.subrange(0, i + 1);
            assert(prefix.drop_last() =~= attention_mask@.subrange(0, i as int));
            assert(prefix.last() == attention_mask@[i as int]);
        }
        if attention_mask[i] == 1 {
            n += 1;
        }
        i += 1;
    }
    proof {
        assert(attention_mask@.subrange(0, attention_mask@.len() as int) =~= attention_mask@);
    }
    n
}

/// Mean-pools the runtime output over the positions the mask marks real.
/// Succeeds exactly on a well-formed rank-3 output whose sequence axis
/// matches the mask and whose mask admits at least one real position; an
/// all-zero mask is rejected, never pooled into a degenerate vector.
pub fn mean_pooling<B: TensorBackend>(
    backend: &B,
    output: &TensorOutput,
    attention_mask: &Vec<u32>,
) -> (r: Result<Vec<u32>, EmbeddingError>)
    ensures
        r is Ok <==> output.spec_is_3d(attention_mask@.len() as int) && spec_valid_positions(
            attention_mask@,
        ) > 0,
        r matches Err(e) ==> e is EmbeddingFailed,
{
    if output.shape.len() != 3 {
        return Err(EmbeddingError::EmbeddingFailed {
            error: "Expected 3D output tensor".to_owned(),
        });
    }
    if output.shape[1] != attention_mask.len() {
        return Err(EmbeddingError::EmbeddingFailed {
            error: "Attention mask length doesn't match sequence length".to_owned(),
        });
    }
    let s0 = output.shape[0];
    let s1 = output.shape[1];
    let s2 = output.shape[2];
    let dlen = output.data.len();
    if s0 == 0 || s1 == 0 || s2 == 0 {
        proof {
            assert((s0 as int) * (s1 as int) * (s2 as int) == 0) by (nonlinear_arith)
                requires
                    s0 == 0 || s1 == 0 || s2 == 0,
            ;
        }
        if dlen != 0 {
            return Err(EmbeddingError::EmbeddingFailed {
                error: "Failed to create output array view".to_owned(),
            });
        }
    } else {
        let expected = match s0.checked_mul(s1) {
            Some(p) => match p.checked_mul(s2) {
                Some(v) => Some(v),
                None => {
                    proof {
                        assert((s0 * s1) * s2 >= s0 * s1) by (nonlinear_arith)
                            requires
                                s2 >= 1,
                                s0 * s1 >= 0,
                        ;
                    }
                    None
                },
            },
            None => {
                proof {
                    assert((s0 * s1) * s2 >= s0 * s1) by (nonlinear_arith)
                        requires
                            s2 >= 1,
                            s0 * s1 >= 0,
                    ;
                }
                None
            },
        };
        match expected {
            Some(v) => {
                if dlen != v {
                    return Err(EmbeddingError::EmbeddingFailed {
                        error: "Failed to create output array view".to_owned(),
                    });
                }
            },
            None => {
                return Err(EmbeddingError::EmbeddingFailed {
                    error: "Failed to create output array view".to_owned(),
                });
            },
        }
    }
    let valid = valid_token_count(attention_mask);
    if valid == 0 {
        return Err(EmbeddingError::EmbeddingFailed {
            error: "No valid tokens found in attention mask".to_owned(),
        });
    }
    Ok(backend.pool_mean(output, attention_mask))
}

/// L2-normalizes through the backend; a zero-norm vector is rejected, never
/// coerced.
pub fn normalize_embedding<B: TensorBackend>(backend: &B, embedding: &Vec<u32>) -> (r: Result<
    Vec<u32>,
    EmbeddingError,
>)
    ensures
        r matches Err(e) ==> e is EmbeddingFailed,
{
    match backend.normalize(embedding) {
        Some(v) => Ok(v),
        None => Err(
            EmbeddingError::EmbeddingFailed { error: "Cannot normalize zero vector".to_owned() },
        ),
    }
}

/// Information about the loaded runtime model.
#[derive(Debug)]
pub struct ModelInfo {
    /// Names of input tensors.
    pub input_names: Vec<String>,
    /// Names of output tensors.
    pub output_names: Vec<String>,
    /// Dimension of output embeddings.
    pub embedding_dimension: usize,
}

/// The embedding engine: tokenizer, runtime backend and tuning settings.
pub struct OnnxEmbeddingEngine<B: TensorBackend> {
    /// Text tokenizer.
    tokenizer: tokenizers::Tokenizer,
    /// The opaque tensor runtime.
    backend: B,
    /// Runtime configuration, kept as given.
    config: OnnxConfig,
    /// Device setting; affects subsequent calls only.
    device: String,
    /// Batch size setting.
    batch_size: usize,
    /// Maximum sequence length setting.
    max_seq_length: usize,
}

impl<B: TensorBackend> OnnxEmbeddingEngine<B> {
    /// The device setting.
    pub closed spec fn spec_device(self) -> Seq<char> {
        self.device@
    }

    /// The batch size setting.
    pub closed spec fn spec_batch_size(self) -> usize {
        self.batch_size
    }

    /// The maximum sequence length setting.
    pub closed spec fn spec_max_seq_length(self) -> usize {
        self.max_seq_length
    }

    /// An engine over a parsed tokenizer definition and a ready backend,
    /// with the usual tuning: CPU, batches of 32, sequences up to 512.
    /// Succeeds exactly when the tokenizer definition parses.
    pub fn new(tokenizer_bytes: &[u8], backend: B, onnx_config: &OnnxConfig) -> (r: Result<
        OnnxEmbeddingEngine<B>,
        EmbeddingError,
    >)
        ensures
            r is Ok <==> tokenizer_parse_ok(tokenizer_bytes@),
            r matches Ok(e) ==> e.spec_device() == "cpu"@ && e.spec_batch_size() == 32
                && e.spec_max_seq_length() == 512,
            r matches Err(err) ==> err is ModelLoadFailed,
    {
        Self::new_with_config(tokenizer_bytes, backend, onnx_config, "cpu", 32, 512)
    }

    /// An engine with explicit tuning.  Succeeds exactly when the tokenizer
    /// definition parses.
    pub fn new_with_config(
        tokenizer_bytes: &[u8],
        backend: B,
        onnx_config: &OnnxConfig,
        device: &str,
        batch_size: usize,
        max_seq_length: usize,
    ) -> (r: Result<OnnxEmbeddingEngine<B>, EmbeddingError>)
        ensures
            r is Ok <==> tokenizer_parse_ok(tokenizer_bytes@),
            r matches Ok(e) ==> e.spec_device() == device@ && e.spec_batch_size() == batch_size
                && e.spec_max_seq_length() == max_seq_length,
            r matches Err(err) ==> err is ModelLoadFailed,
    {
        match tokenizer_from_bytes(tokenizer_bytes) {
            Ok(tokenizer) => Ok(
                OnnxEmbeddingEngine {
                    tokenizer,
                    backend,
                    config: onnx_config.clone(),
                    device: device.to_owned(),
                    batch_size,
                    max_seq_length,
                },
            ),
            Err(error) => Err(EmbeddingError::ModelLoadFailed { error }),
        }
    }

    /// Embeds each text in order: one embedding per input text.  An empty
    /// batch is rejected as invalid input — exactly then does the engine
    /// report `InvalidInput`; any failure inside the pipeline is an
    /// `EmbeddingFailed` naming its stage.
    pub fn embed_texts(&mut self, texts: &Vec<String>) -> (r: Result<Vec<Embedding>,
        EmbeddingError,
    >)
        ensures
            texts@.len() == 0 <==> (r matches Err(e) && e is InvalidInput),
            texts@.len() != 0 ==> (r matches Err(e) ==> e is EmbeddingFailed),
            r matches Ok(out) ==> out@.len() == texts@.len(),
            final(self).spec_device() == old(self).spec_device(),
            final(self).spec_batch_size() == old(self).spec_batch_size(),
            final(self).spec_max_seq_length() == old(self).spec_max_seq_length(),
    {
        if texts.len() == 0 {
            return Err(
                EmbeddingError::InvalidInput {
                    message: "Cannot embed empty text list".to_owned(),
                },
            );
        }
        let mut embeddings: Vec<Embedding> = Vec::new();
        let mut i: usize = 0;
        while i < texts.len()
            invariant
                i <= texts@.len(),
                embeddings@.len() == i,
                self.spec_device() == old(self).spec_device(),
                self.spec_batch_size() == old(self).spec_batch_size(),
                self.spec_max_seq_length() == old(self).spec_max_seq_length(),
            decreases texts@.len() - i,
        {
            match self.embed_one(texts[i].as_str()) {
                Ok(embedding) => {
                    embeddings.push(embedding);
                },
                Err(e) => {
                    return Err(e);
                },
            }
            i += 1;
        }
        Ok(embeddings)
    }

    /// Runs the whole pipeline for one text.
    fn embed_one(&mut self, text: &str) -> (r: Result<Embedding, EmbeddingError>)
        ensures
            r matches Err(e) ==> e is EmbeddingFailed,
            final(self).spec_device() == old(self).spec_device(),
            final(self).spec_batch_size() == old(self).spec_batch_size(),
            final(self).spec_max_seq_length() == old(self).spec_max_seq_length(),
    {
        let encoded = match tokenizer_encode(&self.tokenizer, text) {
            Ok(p) => p,
            Err(error) => {
                return Err(
                    EmbeddingError::EmbeddingFailed {
                        error: "Tokenization failed: ".to_owned().concat(error.as_str()),
                    },
                );
            },
        };
        let inputs = build_model_inputs(&encoded.0, &encoded.1);
        let output = match self.backend.run(&inputs) {
            Ok(o) => o,
            Err(error) => {
                return Err(EmbeddingError::EmbeddingFailed { error });
            },
        };
        let pooled = match mean_pooling(&self.backend, &output, &encoded.1) {
            Ok(p) => p,
            Err(e) => {
                return Err(e);
            },
        };
        normalize_embedding(&self.backend, &pooled)
    }

    /// Information about the loaded model as the runtime reports it, with
    /// the engine's fixed embedding dimension.
    pub fn get_model_info(&self) -> (r: Result<ModelInfo, EmbeddingError>)
        ensures
            r is Ok,
            r matches Ok(info) ==> info.embedding_dimension == 384,
    {
        Ok(
            ModelInfo {
                input_names: self.backend.input_names(),
                output_names: self.backend.output_names(),
                embedding_dimension: 384,
            },
        )
    }

    /// Applies a configuration change.  The three engine keys parse their
    /// value and update exactly their setting; every other key is ignored.
    /// A value that does not parse leaves the engine unchanged and reports
    /// the failure.
    pub fn handle_config_change(&mut self, key: &str, value: &str) -> (r: Result<(),
        EmbeddingError,
    >)
        ensures
            key@ == "embedding.onnx.device"@ ==> match json_string_of(value@) {
                Some(d) => r is Ok && final(self).spec_device() == d && final(self).spec_batch_size() == old(self).spec_batch_size() && final(self).spec_max_seq_length() == old(self).spec_max_seq_length(),
                None => r matches Err(e) && e is EmbeddingFailed && *final(self) == *old(self),
            },
            key@ == "embedding.onnx.batch_size"@ ==> match json_usize_of(value@) {
                Some(n) => r is Ok && final(self).spec_batch_size() == n && final(self).spec_device() == old(self).spec_device() && final(self).spec_max_seq_length()
                    == old(self).spec_max_seq_length(),
                None => r matches Err(e) && e is EmbeddingFailed && *final(self) == *old(self),
            },
            key@ == "embedding.onnx.max_seq_length"@ ==> match json_usize_of(value@) {
                Some(n) => r is Ok && final(self).spec_max_seq_length() == n && final(self).spec_device() == old(self).spec_device() && final(self).spec_batch_size() == old(self).spec_batch_size(),
                None => r matches Err(e) && e is EmbeddingFailed && *final(self) == *old(self),
            },
            (key@ != "embedding.onnx.device"@ && key@ != "embedding.onnx.batch_size"@ && key@
                != "embedding.onnx.max_seq_length"@) ==> r is Ok && final(self).spec_device()
                == old(self).spec_device() && final(self).spec_batch_size() == old(self).spec_batch_size() && final(self).spec_max_seq_length() == old(self).spec_max_seq_length(),
    {
        proof {
            // Reveal the key literals so the unmatched clauses are decidably
            // vacuous; the length facts make the literals distinct.
            reveal_strlit("embedding.onnx.device");
            reveal_strlit("embedding.onnx.batch_size");
            reveal_strlit("embedding.onnx.max_seq_length");
            assert("embedding.onnx.device"@.len() == 21);
            assert("embedding.onnx.batch_size"@.len() == 25);
            assert("embedding.onnx.max_seq_length"@.len() == 29);
        }
        if str_eq(key, "embedding.onnx.device") {
            match parse_json_string(value) {
                Some(device) => {
                    self.update_device(device);
                    Ok(())
                },
                None => Err(
                    EmbeddingError::EmbeddingFailed { error: "Invalid device config".to_owned() },
                ),
            }
        } else if str_eq(key, "embedding.onnx.batch_size") {
            match parse_json_usize(value) {
                Some(batch_size) => {
                    self.update_batch_size(batch_size);
                    Ok(())
                },
                None => Err(
                    EmbeddingError::EmbeddingFailed {
                        error: "Invalid batch_size config".to_owned(),
                    },
                ),
            }
        } else if str_eq(key, "embedding.onnx.max_seq_length") {
            match parse_json_usize(value) {
                Some(max_seq_length) => {
                    self.update_max_sequence_length(max_seq_length);
                    Ok(())
                },
                None => Err(
                    EmbeddingError::EmbeddingFailed {
                        error: "Invalid max_seq_length config".to_owned(),
                    },
                ),
            }
        } else {
            Ok(())
        }
    }

    /// Updates the device setting, affecting subsequent calls only.
    fn update_device(&mut self, device: String)
        ensures
            final(self).spec_device() == device@,
            final(self).spec_batch_size() == old(self).spec_batch_size(),
            final(self).spec_max_seq_length() == old(self).spec_max_seq_length(),
    {
        self.device = device;
    }

    /// Updates the batch size setting.
    fn update_batch_size(&mut self, batch_size: usize)
        ensures
            final(self).spec_batch_size() == batch_size,
            final(self).spec_device() == old(self).spec_device(),
            final(self).spec_max_seq_length() == old(self).spec_max_seq_length(),
    {
        self.batch_size = batch_size;
    }

    /// Updates the maximum sequence length setting.
    fn update_max_sequence_length(&mut self, max_seq_length: usize)
        ensures
            final(self).spec_max_seq_length() == max_seq_length,
            final(self).spec_device() == old(self).spec_device(),
            final(self).spec_batch_size() == old(self).spec_batch_size(),
    {
        self.max_seq_length = max_seq_length;
    }
}

} // verus!

verus! {

/// Declares the tokenizer's type so the engine can hold one.
#[verifier::external_type_specification]
#[verifier::external_body]
pub struct ExTokenizer(tokenizers::Tokenizer);

/// Whether `tokenizers::Tokenizer::from_bytes` accepts a serialized
/// definition: a function of the bytes alone, as the parse reads nothing
/// but them.
pub uninterp spec fn tokenizer_parse_ok(bytes: Seq<u8>) -> bool;

/// Relies on `tokenizers::Tokenizer::from_bytes`: parses a tokenizer
/// definition from its serialized form, succeeding on a function of the
/// bytes alone.
#[verifier::external_body]
fn tokenizer_from_bytes(bytes: &[u8]) -> (r: Result<tokenizers::Tokenizer, String>)
    ensures
        r is Ok <==> tokenizer_parse_ok(bytes@),
{
    match tokenizers::Tokenizer::from_bytes(bytes) {
        Ok(t) => Ok(t),
        Err(e) => Err(e.to_string()),
    }
}

/// Relies on `tokenizers::Tokenizer::encode`: turns a text into one
/// encoding, of which the token ids and the attention mask are taken.
#[verifier::external_body]
fn tokenizer_encode(
    tokenizer: &tokenizers::Tokenizer,
    text: &str,
) -> Result<(Vec<u32>, Vec<u32>), String> {
    match tokenizer.encode(text, true) {
        Ok(encoding) => Ok((encoding.get_ids().to_vec(), encoding.get_attention_mask().to_vec())),
        Err(e) => Err(e.to_string()),
    }
}

/// The value `serde_json::from_str::<String>` reads from a text: a function
/// of the characters alone.
pub uninterp spec fn json_string_of(s: Seq<char>) -> Option<Seq<char>>;

/// Relies on `serde_json::from_str::<String>`: parses a JSON string value,
/// depending on the text alone.
#[verifier::external_body]
fn parse_json_string(value: &str) -> (r: Option<String>)
    ensures
        r matches Some(s) ==> json_string_of(value@) == Some(s@),
        r is None ==> json_string_of(value@) is None,
{
    serde_json::from_str::<String>(value).ok()
}

/// The value `serde_json::from_str::<usize>` reads from a text: a function
/// of the characters alone.
pub uninterp spec fn json_usize_of(s: Seq<char>) -> Option<usize>;

/// Relies on `serde_json::from_str::<usize>`: parses a JSON integer,
/// depending on the text alone.
#[verifier::external_body]
fn parse_json_usize(value: &str) -> (r: Option<usize>)
    ensures
        r == json_usize_of(value@),
{
    serde_json::from_str::<usize>(value).ok()
}

} // verus!
