//! Neural-accelerator inference sessions.
//!
//! The accelerator runs models loaded from files.  Model loading validates
//! the path — the file must be present and carry a model extension — and
//! the session's inference interface works on plain tensors.  Inference
//! itself is a placeholder that returns a zero tensor of the input's
//! shape; it models the session interface without driving hardware.

use vstd::prelude::*;

use crate::error::Error;
use crate::text::dec_u64;
use crate::text::spec_dec;

verus! {

/// Neural-accelerator operation types.
#[derive(Clone, Copy, Debug, PartialEq, Eq, Hash, Structural)]
pub enum AneOp {
    /// Convolution operations.
    Convolution,
    /// Matrix multiplication.
    MatMul,
    /// Pooling operations (max, average).
    Pooling,
    /// Activation functions (ReLU, sigmoid and others).
    Activation,
    /// Normalization (batch norm, layer norm).
    Normalization,
    /// Element-wise operations.
    Elementwise,
    /// Reshape and transpose.
    Reshape,
    /// Attention mechanisms.
    Attention,
}

/// Display name of an operation type.
pub open spec fn spec_op_name(op: AneOp) -> Seq<char> {
    match op {
        AneOp::Convolution => "Convolution"@,
        AneOp::MatMul => "MatMul"@,
        AneOp::Pooling => "Pooling"@,
        AneOp::Activation => "Activation"@,
        AneOp::Normalization => "Normalization"@,
        AneOp::Elementwise => "Elementwise"@,
        AneOp::Reshape => "Reshape"@,
        AneOp::Attention => "Attention"@,
    }
}

impl AneOp {
    /// Human-readable display name.
    pub fn name(&self) -> (r: String)
        ensures
            r@ == spec_op_name(*self),
    {
        match self {
            AneOp::Convolution => "Convolution".to_owned(),
            AneOp::MatMul => "MatMul".to_owned(),
            AneOp::Pooling => "Pooling".to_owned(),
            AneOp::Activation => "Activation".to_owned(),
            AneOp::Normalization => "Normalization".to_owned(),
            AneOp::Elementwise => "Elementwise".to_owned(),
            AneOp::Reshape => "Reshape".to_owned(),
            AneOp::Attention => "Attention".to_owned(),
        }
    }
}

/// Capabilities of the neural accelerator.  Throughput is carried in
/// thousandths of a tera-operation per second.
#[derive(Clone, Debug)]
pub struct AneCapabilities {
    /// Throughput in thousandths of a tera-operation per second.
    pub tops: u64,
    /// Maximum batch size supported.
    pub max_batch_size: u32,
    /// Supported operations.
    pub supported_ops: Vec<AneOp>,
    /// Chip generation name.
    pub chip_generation: String,
    /// Number of accelerator cores.
    pub core_count: u32,
}

impl Default for AneCapabilities {
    /// Baseline capabilities: 15.8 tera-operations per second, batches of
    /// 32, every operation type, 16 cores, unknown generation.
    fn default() -> (r: AneCapabilities)
        ensures
            r.tops == 15_800,
            r.max_batch_size == 32,
            r.supported_ops@ =~= seq![
                AneOp::Convolution,
                AneOp::MatMul,
                AneOp::Pooling,
                AneOp::Activation,
                AneOp::Normalization,
                AneOp::Elementwise,
                AneOp::Reshape,
                AneOp::Attention,
            ],
            r.chip_generation@ == "Unknown"@,
            r.core_count == 16,
    {
        let mut supported_ops: Vec<AneOp> = Vec::new();
        supported_ops.push(AneOp::Convolution);
        supported_ops.push(AneOp::MatMul);
        supported_ops.push(AneOp::Pooling);
        supported_ops.push(AneOp::Activation);
        supported_ops.push(AneOp::Normalization);
        supported_ops.push(AneOp::Elementwise);
        supported_ops.push(AneOp::Reshape);
        supported_ops.push(AneOp::Attention);
        proof {
            assert(supported_ops@ =~= seq![
                AneOp::Convolution,
                AneOp::MatMul,
                AneOp::Pooling,
                AneOp::Activation,
                AneOp::Normalization,
                AneOp::Elementwise,
                AneOp::Reshape,
                AneOp::Attention,
            ]);
        }
        AneCapabilities {
            tops: 15_800,
            max_batch_size: 32,
            supported_ops,
            chip_generation: "Unknown".to_owned(),
            core_count: 16,
        }
    }
}

/// The number of elements of a tensor shape: the product of its
/// dimensions; 1 for the empty shape.
pub open spec fn spec_numel(shape: Seq<usize>) -> int
    decreases shape.len(),
{
    if shape.len() == 0 {
        1
    } else {
        spec_numel(shape.drop_last()) * shape.last()
    }
}

proof fn lemma_numel_nonneg(shape: Seq<usize>)
    ensures
        spec_numel(shape) >= 0,
    decreases shape.len(),
{
    if shape.len() > 0 {
        lemma_numel_nonneg(shape.drop_last());
        assert(spec_numel(shape.drop_last()) * shape.last() >= 0) by (nonlinear_arith)
            requires
                spec_numel(shape.drop_last()) >= 0,
                shape.last() >= 0,
        ;
    }
}

proof fn lemma_numel_prefix_le(shape: Seq<usize>, i: int)
    requires
        0 <= i <= shape.len(),
        forall|j: int| 0 <= j < shape.len() ==> (#[trigger] shape[j]) >= 1,
    ensures
        spec_numel(shape.take(i)) <= spec_numel(shape),
    decreases shape.len() - i,
{
    if i == shape.len() {
        assert(shape.take(i) =~= shape);
    } else {
        assert(shape.take(i + 1).drop_last() =~= shape.take(i));
        lemma_numel_nonneg(shape.take(i));
        assert(spec_numel(shape.take(i)) <= spec_numel(shape.take(i)) * shape[i]) by (
        nonlinear_arith)
            requires
                spec_numel(shape.take(i)) >= 0,
                shape[i] >= 1,
        ;
        lemma_numel_prefix_le(shape, i + 1);
    }
}

proof fn lemma_numel_zero_dim(shape: Seq<usize>, z: int)
    requires
        0 <= z < shape.len(),
        shape[z] == 0,
    ensures
        spec_numel(shape) == 0,
    decreases shape.len(),
{
    if z == shape.len() - 1 {
        assert(spec_numel(shape) == spec_numel(shape.drop_last()) * 0);
        assert(spec_numel(shape.drop_last()) * 0 == 0) by (nonlinear_arith);
    } else {
        lemma_numel_zero_dim(shape.drop_last(), z);
        assert(spec_numel(shape) == 0 * shape.last());
        assert(0 * shape.last() == 0) by (nonlinear_arith);
    }
}

/// Simple tensor for inference input and output: a shape and the flat
/// element data, one integer unit per element.
#[derive(Clone, Debug)]
pub struct Tensor {
    /// Shape of the tensor.
    pub shape: Vec<usize>,
    /// Flattened data.
    pub data: Vec<i64>,
}

impl Tensor {
    /// A tensor whose data length agrees with its shape.
    pub open spec fn wf(&self) -> bool {
        self.data@.len() == spec_numel(self.shape@)
    }

    /// Create a tensor with the given shape and data.
    ///
    /// Fails with invalid input when the data length does not match the
    /// shape's element count, or when that count does not fit in memory.
    pub fn new(shape: Vec<usize>, data: Vec<i64>) -> (r: Result<Tensor, Error>)
        ensures
            spec_numel(shape@) > usize::MAX ==> (r matches Err(e) && e matches Error::InvalidInput {
                reason,
            } && reason@ == "tensor shape is too large"@),
            spec_numel(shape@) <= usize::MAX && data@.len() != spec_numel(shape@) ==> (r matches
                Err(e) && e matches Error::InvalidInput { reason } && reason@ == "data length "@
                + spec_dec(data@.len() as nat) + " doesn't match shape (expected "@ + spec_dec(
                spec_numel(shape@) as nat,
            ) + ")"@),
            data@.len() == spec_numel(shape@) ==> (r matches Ok(t) && t.shape@ == shape@ && t.data@
                == data@ && t.wf()),
    {
        let data_len = data.len();
        let expected = match shape_numel(&shape) {
            Some(expected) => expected,
            None => {
                return Err(Error::invalid_input("tensor shape is too large"));
            },
        };
        if data_len != expected {
            let mut reason = "data length ".to_owned();
            reason.append(dec_u64(data.len() as u64).as_str());
            reason.append(" doesn't match shape (expected ");
            reason.append(dec_u64(expected as u64).as_str());
            reason.append(")");
            proof {
                assert(reason@ =~= "data length "@ + spec_dec(data@.len() as nat)
                    + " doesn't match shape (expected "@ + spec_dec(spec_numel(shape@) as nat)
                    + ")"@);
            }
            return Err(Error::invalid_input(reason.as_str()));
        }
        Ok(Tensor { shape, data })
    }

    /// Create a tensor of zeros with the given shape.
    pub fn zeros(shape: Vec<usize>) -> (r: Tensor)
        requires
            spec_numel(shape@) <= usize::MAX,
        ensures
            r.shape@ == shape@,
            r.data@.len() == spec_numel(shape@),
            forall|i: int| 0 <= i < r.data@.len() ==> r.data@[i] == 0,
            r.wf(),
    {
        let n = match shape_numel(&shape) {
            Some(n) => n,
            None => {
                proof {
                    assert(false);
                }
                0
            },
        };
        let mut data: Vec<i64> = Vec::new();
        let mut i: usize = 0;
        while i < n
            invariant
                i <= n,
                data@.len() == i,
                forall|j: int| 0 <= j < i ==> data@[j] == 0,
            decreases n - i,
        {
            data.push(0);
            i = i + 1;
        }
        Tensor { shape, data }
    }

    /// The total number of elements.
    pub fn numel(&self) -> (r: usize)
        requires
            self.wf(),
        ensures
            r == spec_numel(self.shape@),
            r == self.data@.len(),
    {
        self.data.len()
    }

    /// The number of dimensions.
    pub fn ndim(&self) -> (r: usize)
        ensures
            r == self.shape@.len(),
    {
        self.shape.len()
    }
}

/// The element count of a shape, when it fits in memory.
fn shape_numel(shape: &Vec<usize>) -> (r: Option<usize>)
    ensures
        match r {
            Some(n) => n == spec_numel(shape@),
            None => spec_numel(shape@) > usize::MAX,
        },
{
    let len = shape.len();
    let mut z: usize = 0;
    while z < len
        invariant
            z <= len,
            len == shape@.len(),
            forall|j: int| 0 <= j < z ==> (#[trigger] shape@[j]) >= 1,
        decreases len - z,
    {
        if shape[z] == 0 {
            proof {
                lemma_numel_zero_dim(shape@, z as int);
            }
            return Some(0);
        }
        z = z + 1;
    }
    let mut n: usize = 1;
    let mut i: usize = 0;
    while i < len
        invariant
            i <= len,
            len == shape@.len(),
            forall|j: int| 0 <= j < len ==> (#[trigger] shape@[j]) >= 1,
            n == spec_numel(shape@.take(i as int)),
        decreases len - i,
    {
        proof {
            assert(shape@.take(i + 1).drop_last() =~= shape@.take(i as int));
        }
        let dim = shape[i];
        n = match n.checked_mul(dim) {
            Some(n2) => n2,
            None => {
                proof {
                    lemma_numel_prefix_le(shape@, i + 1);
                }
                return None;
            },
        };
        i = i + 1;
    }
    proof {
        assert(shape@.take(len as int) =~= shape@);
    }
    Some(n)
}

/// The final path component: everything after the last slash.
pub open spec fn spec_basename(path: Seq<char>) -> Seq<char> {
    match crate::text::spec_find_char(path.reverse(), '/', 0) {
        Some(p) => path.subrange(path.len() - p, path.len() as int),
        None => path,
    }
}

/// The extension of a path: the part of the final component after its
/// last dot.  A component with no dot, and a hidden file whose only dot
/// leads it, have none.
pub open spec fn spec_extension(path: Seq<char>) -> Option<Seq<char>> {
    let base = spec_basename(path);
    match crate::text::spec_find_char(base.reverse(), '.', 0) {
        Some(p) => {
            let d = base.len() - 1 - p;
            if d > 0 {
                Some(base.subrange(d + 1, base.len() as int))
            } else {
                None
            }
        },
        None => None,
    }
}

/// Whether a path carries one of the model extensions.
pub open spec fn spec_is_model_path(path: Seq<char>) -> bool {
    spec_extension(path) == Some("mlmodel"@) || spec_extension(path) == Some("mlmodelc"@)
}

fn rfind_char(s: &str, c: char) -> (r: Option<usize>)
    ensures
        match r {
            Some(p) => {
                &&& p < s@.len()
                &&& Some((s@.len() - 1 - p) as int) == crate::text::spec_find_char(
                    s@.reverse(),
                    c,
                    0,
                )
            },
            None => crate::text::spec_find_char(s@.reverse(), c, 0) is None,
        },
{
    let n = s.unicode_len();
    let mut back: usize = 0;
    while back < n
        invariant
            back <= n,
            n == s@.len(),
            crate::text::spec_find_char(s@.reverse(), c, 0) == crate::text::spec_find_char(
                s@.reverse(),
                c,
                back as int,
            ),
        decreases n - back,
    {
        proof {
            assert(s@.reverse()[back as int] == s@[n - 1 - back]);
        }
        if s.get_char(n - 1 - back) == c {
            return Some(n - 1 - back);
        }
        back = back + 1;
    }
    None
}

/// Split off the extension of `path`, if it has one.
fn extension_of(path: &str) -> (r: Option<&str>)
    ensures
        match r {
            Some(e) => spec_extension(path@) == Some(e@),
            None => spec_extension(path@) is None,
        },
{
    let n = path.unicode_len();
    let base_start: usize = match rfind_char(path, '/') {
        Some(p) => p + 1,
        None => 0,
    };
    let base = path.substring_char(base_start, n);
    proof {
        assert(base@ =~= spec_basename(path@));
    }
    let base_len = base.unicode_len();
    match rfind_char(base, '.') {
        Some(d) => {
            if d > 0 {
                let ext = base.substring_char(d + 1, base_len);
                proof {
                    assert(spec_extension(path@) == Some(ext@));
                }
                Some(ext)
            } else {
                None
            }
        },
        None => None,
    }
}

/// Decide what a model path means, given whether a file is present at it.
///
/// A missing file is reported as not found; a present file without a
/// model extension as invalid input; a present model file is accepted.
pub fn validate_model_path(path: &str, exists: bool) -> (r: Result<(), Error>)
    ensures
        !exists ==> (r matches Err(e) && e matches Error::NotFound { resource } && resource@
            == "model file: "@ + path@),
        exists && !spec_is_model_path(path@) ==> (r matches Err(e) && e matches
            Error::InvalidInput { reason } && reason@ == "unsupported model format: ."@ + (match
        spec_extension(path@) {
            Some(ext) => ext,
            None => Seq::<char>::empty(),
        }) + " (expected .mlmodel or .mlmodelc)"@),
        exists && spec_is_model_path(path@) ==> r matches Ok(_),
{
    if !exists {
        let mut resource = "model file: ".to_owned();
        resource.append(path);
        return Err(Error::not_found(resource.as_str()));
    }
    let ext: &str = match extension_of(path) {
        Some(ext) => ext,
        None => "",
    };
    proof {
        reveal_strlit("");
        assert(""@ =~= Seq::<char>::empty());
        reveal_strlit("mlmodel");
        reveal_strlit("mlmodelc");
    }
    if crate::text::str_eq(ext, "mlmodel") || crate::text::str_eq(ext, "mlmodelc") {
        Ok(())
    } else {
        let mut reason = "unsupported model format: .".to_owned();
        reason.append(ext);
        reason.append(" (expected .mlmodel or .mlmodelc)");
        Err(Error::invalid_input(reason.as_str()))
    }
}

/// Whether a file is present at `path`.
///
/// Relies on `std::path::Path::exists`.  The answer depends on the state
/// of the disk at the moment of the call, so nothing is promised of it.
#[verifier::external_body]
fn path_exists(path: &str) -> bool {
    std::path::Path::new(path).exists()
}

/// Neural-accelerator inference session.
///
/// The session is confined to the context that created it; it is not
/// shared between threads.
#[derive(Debug)]
pub struct NeuralEngineSession {
    model_path: String,
}

impl NeuralEngineSession {
    /// Check if the neural accelerator is present.  This build does not
    /// target a platform with one, so the probe reports `false`.
    pub fn is_available() -> (r: bool)
        ensures
            !r,
    {
        false
    }

    /// Query accelerator capabilities: `None` exactly when the
    /// accelerator is not available.
    pub fn capabilities() -> (r: Option<AneCapabilities>)
        ensures
            r is None,
    {
        if !Self::is_available() {
            return None;
        }
        Some(AneCapabilities::default())
    }

    /// Load a model for inference.
    ///
    /// The file must be present — a missing file is reported as not
    /// found — and must carry a model extension, else the format is
    /// rejected as invalid input.  The session records the path.
    pub fn load(model_path: &str) -> (r: Result<NeuralEngineSession, Error>)
        ensures
            r matches Ok(s) ==> s.spec_model_path() == model_path@ && spec_is_model_path(
                model_path@,
            ),
            !spec_is_model_path(model_path@) ==> r is Err,
            r matches Err(e) ==> (e matches Error::NotFound { .. } || e matches
                Error::InvalidInput { .. }),
            r matches Err(e) ==> (e matches Error::NotFound { resource } ==> resource@
                == "model file: "@ + model_path@),
            r matches Err(e) ==> (e matches Error::InvalidInput { reason } ==> (
            !spec_is_model_path(model_path@) && reason@ == "unsupported model format: ."@ + (match
            spec_extension(model_path@) {
                Some(ext) => ext,
                None => Seq::<char>::empty(),
            }) + " (expected .mlmodel or .mlmodelc)"@)),
    {
        let exists = path_exists(model_path);
        match validate_model_path(model_path, exists) {
            Ok(_) => Ok(NeuralEngineSession { model_path: model_path.to_owned() }),
            Err(e) => Err(e),
        }
    }

    /// The loaded model path, as seen by specifications.
    pub closed spec fn spec_model_path(&self) -> Seq<char> {
        self.model_path@
    }

    /// Run inference on the loaded model.
    ///
    /// This is a placeholder for the accelerator call: it yields a zero
    /// tensor of the input's shape.
    pub fn infer(&self, input: &Tensor) -> (r: Result<Tensor, Error>)
        requires
            input.wf(),
        ensures
            r matches Ok(t) && t.shape@ == input.shape@ && t.wf() && (forall|i: int|
                0 <= i < t.data@.len() ==> t.data@[i] == 0),
    {
        let data_len = input.data.len();
        let shape = input.shape.clone();
        proof {
            assert(shape@ =~= input.shape@);
        }
        Ok(Tensor::zeros(shape))
    }

    /// Get the model path.
    pub fn model_path(&self) -> (r: &str)
        ensures
            r@ == self.spec_model_path(),
    {
        self.model_path.as_str()
    }
}

/// Check if the neural accelerator is available; same answer as
/// [`NeuralEngineSession::is_available`].
pub fn is_available() -> (r: bool)
    ensures
        !r,
{
    NeuralEngineSession::is_available()
}

} // verus!
