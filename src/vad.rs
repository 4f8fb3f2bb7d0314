use vstd::prelude::*;

use crate::error::{AudioError, InferenceFailure};
use crate::pipeline::{bits_ge, float_ge};
use crate::tensor::{all_zero, shape_size, Tensor};

verus! {

/// Number of values in each recurrent tensor: 2 layers, batch 1, 64 units.
pub const STATE_LEN: usize = 128;

/// The shape of each recurrent tensor: (layers, batch, hidden).
pub open spec fn state_dims() -> Seq<usize> {
    seq![2usize, 1usize, 64usize]
}

/// The sample rates that the detector's model accepts.
pub open spec fn supported_rate(rate: usize) -> bool {
    rate == 8000 || rate == 16000
}

/// A recurrent tensor of all `+0.0`.
pub open spec fn zero_state() -> Seq<u32> {
    Seq::new(STATE_LEN as nat, |i: int| 0u32)
}

/// What a detector holds: its sample rate and the values of its hidden and
/// cell tensors.
pub struct VadModel {
    pub sample_rate: usize,
    pub h: Seq<u32>,
    pub c: Seq<u32>,
}

/// A detector as it stands after construction, or after `reset`.
pub open spec fn fresh_model(rate: usize) -> VadModel {
    VadModel { sample_rate: rate, h: zero_state(), c: zero_state() }
}

/// A detector after `reset`: same sample rate, recurrent tensors zeroed.
pub open spec fn reset_of(m: VadModel) -> VadModel {
    VadModel { h: zero_state(), c: zero_state(), ..m }
}

/// What one step hands the engine: the frame as a `(1, n)` tensor, the sample
/// rate, and the recurrent state.
pub struct VadRequestModel {
    pub input_dims: Seq<usize>,
    pub input: Seq<u32>,
    pub sr: Seq<i64>,
    pub h: Seq<u32>,
    pub c: Seq<u32>,
}

/// The request that detector state `m` makes for `frame`.
pub open spec fn request_of(m: VadModel, frame: Seq<u32>) -> VadRequestModel {
    VadRequestModel {
        input_dims: seq![1usize, frame.len() as usize],
        input: frame,
        sr: seq![m.sample_rate as i64],
        h: m.h,
        c: m.c,
    }
}

/// The bit pattern of `1.0f32`.
pub const ONE_BITS: u32 = 0x3F80_0000;

/// `p` is the pattern of a float `x` with `0.0 <= x <= 1.0` (so not NaN).
pub open spec fn is_probability(p: u32) -> bool {
    float_ge(p, 0u32) && float_ge(ONE_BITS, p)
}

/// The values of an output, if the engine gave it.
pub open spec fn output_values(o: Option<Vec<u32>>) -> Option<Seq<u32>> {
    match o {
        Some(v) => Some(v@),
        None => None,
    }
}

/// The error that a step reports for the given outputs, checked in the order
/// `hn`, its shape, `cn`, its shape, `output`, the range of its first value;
/// `None` when all are usable.
pub open spec fn step_error(
    hn: Option<Seq<u32>>,
    cn: Option<Seq<u32>>,
    output: Option<Seq<u32>>,
) -> Option<AudioError> {
    if hn is None {
        Some(AudioError::Inference(InferenceFailure::MissingOutput))
    } else if hn.unwrap().len() != STATE_LEN {
        Some(AudioError::Inference(InferenceFailure::ShapeMismatch))
    } else if cn is None {
        Some(AudioError::Inference(InferenceFailure::MissingOutput))
    } else if cn.unwrap().len() != STATE_LEN {
        Some(AudioError::Inference(InferenceFailure::ShapeMismatch))
    } else if output is None {
        Some(AudioError::Inference(InferenceFailure::MissingOutput))
    } else if output.unwrap().len() > 0 && !is_probability(output.unwrap()[0]) {
        Some(AudioError::Inference(InferenceFailure::ProbabilityOutOfRange))
    } else {
        None
    }
}

/// The speech probability read from the `output` tensor: its first value, or
/// `+0.0` when it is empty.
pub open spec fn probability_of(output: Seq<u32>) -> u32 {
    if output.len() == 0 {
        0u32
    } else {
        output[0]
    }
}

/// The result of a step and the detector state after it, for detector state
/// `m` and the engine's outputs. On error the state is left as it was.
pub open spec fn step_of(
    m: VadModel,
    hn: Option<Seq<u32>>,
    cn: Option<Seq<u32>>,
    output: Option<Seq<u32>>,
) -> (Result<u32, AudioError>, VadModel) {
    match step_error(hn, cn, output) {
        Some(e) => (Err(e), m),
        None => (
            Ok(probability_of(output.unwrap())),
            VadModel { sample_rate: m.sample_rate, h: hn.unwrap(), c: cn.unwrap() },
        ),
    }
}

/// The tensors that one detector step hands the inference engine, under the
/// names `input`, `sr`, `h` and `c`.
#[derive(Debug)]
pub struct VadRequest {
    pub input: Tensor,
    pub sr: Vec<i64>,
    pub h: Tensor,
    pub c: Tensor,
}

impl VadRequest {
    /// The shape of the frame tensor and the values of all four inputs.
    pub open spec fn model(&self) -> VadRequestModel {
        VadRequestModel {
            input_dims: self.input.dims(),
            input: self.input.values(),
            sr: self.sr@,
            h: self.h.values(),
            c: self.c.values(),
        }
    }
}

/// The engine's outputs `hn`, `cn` and `output`, each as its values in
/// row-major order, or `None` where the engine gave no such output.
#[derive(Debug)]
pub struct VadOutputs {
    pub hn: Option<Vec<u32>>,
    pub cn: Option<Vec<u32>>,
    pub output: Option<Vec<u32>>,
}

/// The decisions of a voice activity detector around its recurrent model: it
/// validates the sample rate, owns the hidden and cell tensors, builds each
/// step's inputs and takes each step's outputs in.
#[derive(Debug)]
pub struct VadCore {
    sample_rate: usize,
    h: Tensor,
    c: Tensor,
}

impl View for VadCore {
    type V = VadModel;

    closed spec fn view(&self) -> VadModel {
        VadModel { sample_rate: self.sample_rate, h: self.h.values(), c: self.c.values() }
    }
}

impl VadCore {
    /// The sample rate is supported and both recurrent tensors have shape
    /// (2, 1, 64).
    pub closed spec fn wf(&self) -> bool {
        &&& supported_rate(self.sample_rate)
        &&& self.h.wf() && self.h.dims() == state_dims()
        &&& self.c.wf() && self.c.dims() == state_dims()
    }

    /// What a valid detector guarantees: a supported sample rate and
    /// recurrent tensors of 128 values each.
    pub proof fn lemma_wf_facts(&self)
        requires
            self.wf(),
        ensures
            supported_rate(self@.sample_rate),
            self@.h.len() == STATE_LEN,
            self@.c.len() == STATE_LEN,
    {
        lemma_state_size();
    }

    /// A detector for `sample_rate` with zeroed recurrent state; fails with
    /// `UnsupportedSampleRate` unless the rate is 8000 or 16000.
    pub fn new(sample_rate: usize) -> (r: Result<VadCore, AudioError>)
        ensures
            r is Ok <==> supported_rate(sample_rate),
            match r {
                Ok(v) => v.wf() && v@ == fresh_model(sample_rate),
                Err(e) => e == AudioError::UnsupportedSampleRate,
            },
    {
        if sample_rate != 8000 && sample_rate != 16000 {
            return Err(AudioError::UnsupportedSampleRate);
        }
        let h = zero_state_tensor();
        let c = zero_state_tensor();
        let v = VadCore { sample_rate, h, c };
        proof {
            assert(v@.h =~= zero_state());
            assert(v@.c =~= zero_state());
        }
        Ok(v)
    }

    /// The sample rate that the detector was built for.
    pub fn sample_rate(&self) -> (r: usize)
        ensures
            r == self@.sample_rate,
    {
        self.sample_rate
    }

    /// Sets both recurrent tensors back to zero.
    pub fn reset(&mut self)
        requires
            old(self).wf(),
        ensures
            final(self).wf(),
            final(self)@ == reset_of(old(self)@),
    {
        self.h.fill_zero();
        self.c.fill_zero();
        proof {
            lemma_state_size();
            assert(self@.h =~= zero_state());
            assert(self@.c =~= zero_state());
        }
    }

    /// The engine inputs for one frame: the frame as a `(1, n)` tensor, the
    /// sample rate as a one-element tensor, and copies of the recurrent
    /// tensors in their (2, 1, 64) shape.
    pub fn request(&self, frame: &[u32]) -> (r: VadRequest)
        requires
            self.wf(),
        ensures
            r.model() == request_of(self@, frame@),
            r.input.wf(),
            r.h.wf() && r.h.dims() == state_dims(),
            r.c.wf() && r.c.dims() == state_dims(),
    {
        let n = frame.len();
        let mut input_shape: Vec<usize> = Vec::new();
        input_shape.push(1);
        input_shape.push(n);
        proof {
            lemma_size_of_row(n);
            assert(input_shape@ =~= seq![1usize, n]);
        }
        let data = crate::tensor::copy_vec_u32(frame);
        let input = match Tensor::from_shape_vec(input_shape, data) {
            Ok(t) => t,
            Err(_) => {
                proof {
                    assert(false);
                }
                Tensor::zeros(Vec::new(), 1)
            },
        };
        let mut sr: Vec<i64> = Vec::new();
        sr.push(self.sample_rate as i64);
        let r = VadRequest { input, sr, h: self.h.copy(), c: self.c.copy() };
        proof {
            assert(r.model().input_dims =~= request_of(self@, frame@).input_dims);
            assert(r.model().sr =~= request_of(self@, frame@).sr);
        }
        r
    }

    /// Takes the engine's outputs for one step in. On success the hidden and
    /// cell tensors become `hn` and `cn` in shape (2, 1, 64), and the result
    /// is the first value of `output` (`+0.0` when it is empty). A missing
    /// output, one that does not hold 128 values, or a first `output` value
    /// that is NaN or outside [0, 1] is an inference error, and then the
    /// recurrent state is left unchanged. So every probability returned lies
    /// in [0, 1].
    pub fn absorb(&mut self, outputs: VadOutputs) -> (r: Result<u32, AudioError>)
        requires
            old(self).wf(),
        ensures
            final(self).wf(),
            (r, final(self)@) == step_of(
                old(self)@,
                output_values(outputs.hn),
                output_values(outputs.cn),
                output_values(outputs.output),
            ),
            r matches Ok(p) ==> is_probability(p),
    {
        let ghost hn_v = output_values(outputs.hn);
        let ghost cn_v = output_values(outputs.cn);
        let ghost out_v = output_values(outputs.output);
        let missing = AudioError::Inference(InferenceFailure::MissingOutput);
        let mismatch = AudioError::Inference(InferenceFailure::ShapeMismatch);
        let hn = match outputs.hn {
            Some(v) => v,
            None => return Err(missing),
        };
        let h = match reshape_state(hn) {
            Some(t) => t,
            None => return Err(mismatch),
        };
        let cn = match outputs.cn {
            Some(v) => v,
            None => return Err(missing),
        };
        let c = match reshape_state(cn) {
            Some(t) => t,
            None => return Err(mismatch),
        };
        let out = match outputs.output {
            Some(v) => v,
            None => return Err(missing),
        };
        let prob = if out.len() == 0 {
            0u32
        } else {
            out[0]
        };
        if !(bits_ge(prob, 0) && bits_ge(ONE_BITS, prob)) {
            return Err(AudioError::Inference(InferenceFailure::ProbabilityOutOfRange));
        }
        self.h = h;
        self.c = c;
        Ok(prob)
    }
}

proof fn lemma_size_of_row(n: usize)
    ensures
        shape_size(seq![1usize, n]) == n,
{
    let s = seq![1usize, n];
    assert(s.drop_last() =~= seq![1usize]);
    assert(seq![1usize].drop_last() =~= Seq::<usize>::empty());
    assert(shape_size(seq![1usize]) == shape_size(Seq::<usize>::empty()) * 1);
    assert(shape_size(s) == shape_size(seq![1usize]) * (n as nat));
}

proof fn lemma_state_size()
    ensures
        shape_size(state_dims()) == STATE_LEN,
{
    let e = Seq::<usize>::empty();
    let a = e.push(2usize);
    let b = a.push(1usize);
    let c = b.push(64usize);
    assert(a.drop_last() =~= e);
    assert(b.drop_last() =~= a);
    assert(c.drop_last() =~= b);
    assert(a.last() == 2usize);
    assert(b.last() == 1usize);
    assert(c.last() == 64usize);
    assert(shape_size(e) == 1);
    assert(shape_size(a) == 2);
    assert(shape_size(b) == 2);
    assert(shape_size(c) == 128);
    assert(c =~= state_dims());
}

/// The shape (2, 1, 64) as a vector.
fn state_shape() -> (r: Vec<usize>)
    ensures
        r@ == state_dims(),
{
    let mut s: Vec<usize> = Vec::new();
    s.push(2);
    s.push(1);
    s.push(64);
    proof {
        assert(s@ =~= state_dims());
    }
    s
}

/// A recurrent tensor of shape (2, 1, 64) holding `+0.0` throughout.
fn zero_state_tensor() -> (r: Tensor)
    ensures
        r.wf(),
        r.dims() == state_dims(),
        r.values() == zero_state(),
{
    proof {
        lemma_state_size();
    }
    let t = Tensor::zeros(state_shape(), STATE_LEN);
    proof {
        assert(all_zero(t.values()));
        assert(t.values() =~= zero_state());
    }
    t
}

/// `values` as a recurrent tensor of shape (2, 1, 64), or `None` when it does
/// not hold exactly 128 values.
fn reshape_state(values: Vec<u32>) -> (r: Option<Tensor>)
    ensures
        r is Some <==> values@.len() == STATE_LEN,
        match r {
            Some(t) => t.wf() && t.dims() == state_dims() && t.values() == values@,
            None => true,
        },
{
    proof {
        lemma_state_size();
    }
    match Tensor::from_shape_vec(state_shape(), values) {
        Ok(t) => Some(t),
        Err(_) => None,
    }
}

/// After `reset`, a detector builds the same request for a frame, and draws the
/// same probability and next state from the same engine outputs, as a newly
/// built detector with the same sample rate.
pub proof fn reset_acts_as_new(
    before: VadModel,
    frame: Seq<u32>,
    hn: Option<Seq<u32>>,
    cn: Option<Seq<u32>>,
    output: Option<Seq<u32>>,
)
    requires
        supported_rate(before.sample_rate),
    ensures
        ({
            let after_reset = reset_of(before);
            let built = fresh_model(before.sample_rate);
            &&& request_of(after_reset, frame) == request_of(built, frame)
            &&& step_of(after_reset, hn, cn, output) == step_of(built, hn, cn, output)
        }),
{
}

} // verus!
