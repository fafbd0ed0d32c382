//! Request validation, the sentiment rule and model dispatch.

use crate::encoding::{decimal_text, usize_text};
use crate::error::{status_of, EnclaveError};
use crate::models::{load_post, model_kind_of, ModelKind, ModelLoader, ModelSource, ONNXModel};
use crate::signing::{compute_input_hash, input_hash_text};
use vstd::prelude::*;

verus! {

/// The number of pixels of an MNIST image (28 by 28).
pub const MNIST_PIXELS: usize = 784;

/// What a request's input holds, as far as the models' schemas go: the
/// number of pixels when it reads as an MNIST image, the sentiment input
/// when it reads as one.
pub struct JobInput {
    pub pixel_count: Option<usize>,
    pub sentiment: Option<SentimentInput>,
}

/// An inference request.
pub struct InferenceRequest {
    pub job_id: String,
    pub model_id: String,
    pub input: JobInput,
}

/// Sentiment analysis input.
pub struct SentimentInput {
    pub text: String,
}

/// Timing and version facts attached to a result.
pub struct ComputationMetadata {
    pub timestamp: u64,
    pub model_version: String,
    pub inference_time_ms: u64,
}

/// The result of a job, with the hash of its input and its metadata.
pub struct InferenceResponse<R> {
    pub job_id: String,
    pub model_id: String,
    pub result: R,
    pub input_hash: String,
    pub computation_metadata: ComputationMetadata,
}

/// What validation decides: the model to run, or the status (400 or 404)
/// and message of the rejection. Rules apply in order; the first failure wins.
pub open spec fn validation_verdict(
    job_id: Seq<char>,
    model_id: Seq<char>,
    pixel_count: Option<usize>,
    has_text: bool,
) -> Result<ModelKind, (u16, Seq<char>)> {
    if job_id.len() == 0 {
        Err((400u16, "Job ID cannot be empty"@))
    } else if model_id.len() == 0 {
        Err((400u16, "Model ID cannot be empty"@))
    } else {
        match model_kind_of(model_id) {
            None => Err((404u16, "Unknown model: "@ + model_id)),
            Some(ModelKind::MnistClassifier) => match pixel_count {
                None => Err((400u16, "Invalid MNIST input: expected 784 numbers under \"pixels\" or \"data\""@)),
                Some(n) => if n == 784 {
                    Ok(ModelKind::MnistClassifier)
                } else {
                    Err((400u16, "MNIST input must have 784 pixels, got "@ + decimal_text(n as nat)))
                },
            },
            Some(ModelKind::SentimentAnalysis) => if has_text {
                Ok(ModelKind::SentimentAnalysis)
            } else {
                Err((400u16, "Invalid sentiment input: expected a string under \"text\""@))
            },
        }
    }
}

/// The verdict on a request.
pub open spec fn request_verdict(req: InferenceRequest) -> Result<ModelKind, (u16, Seq<char>)> {
    validation_verdict(req.job_id@, req.model_id@, req.input.pixel_count, req.input.sentiment is Some)
}

/// `e` is the error a rejection with status and message `v` reports.
pub open spec fn reports(e: EnclaveError, v: (u16, Seq<char>)) -> bool {
    &&& status_of(e) == v.0
    &&& match e {
        EnclaveError::ValidationError(m) => m@ == v.1,
        EnclaveError::ModelNotFound(m) => m@ == v.1,
        _ => false,
    }
}

fn reject(status: u16, prefix: &str, tail: &str) -> (r: EnclaveError)
    requires
        status == 400 || status == 404,
    ensures
        reports(r, (status, prefix@ + tail@)),
{
    let mut m = String::from_str(prefix);
    m.append(tail);
    if status == 404 {
        EnclaveError::ModelNotFound(m)
    } else {
        EnclaveError::ValidationError(m)
    }
}

/// Checks a request before any resource is touched: a non-empty job id, a
/// non-empty and known model id, then the model's input schema.
pub fn validate(req: &InferenceRequest) -> (r: Result<ModelKind, EnclaveError>)
    ensures
        request_verdict(*req) matches Ok(k) ==> r == Ok::<ModelKind, EnclaveError>(k),
        request_verdict(*req) matches Err(v) ==> (r matches Err(e) && reports(e, v)),
{
    proof {
        reveal_strlit("");
    }
    if req.job_id.as_str().unicode_len() == 0 {
        return Err(reject(400, "Job ID cannot be empty", ""));
    }
    if req.model_id.as_str().unicode_len() == 0 {
        return Err(reject(400, "Model ID cannot be empty", ""));
    }
    let kind = match ModelKind::from_id(req.model_id.as_str()) {
        Some(k) => k,
        None => return Err(reject(404, "Unknown model: ", req.model_id.as_str())),
    };
    match kind {
        ModelKind::MnistClassifier => match req.input.pixel_count {
            None => Err(reject(400, "Invalid MNIST input: expected 784 numbers under \"pixels\" or \"data\"", "")),
            Some(n) => if n == MNIST_PIXELS {
                Ok(ModelKind::MnistClassifier)
            } else {
                let got = usize_text(n);
                Err(reject(400, "MNIST input must have 784 pixels, got ", got.as_str()))
            },
        },
        ModelKind::SentimentAnalysis => if req.input.sentiment.is_some() {
            Ok(ModelKind::SentimentAnalysis)
        } else {
            Err(reject(400, "Invalid sentiment input: expected a string under \"text\"", ""))
        },
    }
}

/// Validation law: a request with a job id, a known model and an input of
/// that model's shape is accepted; one without a job id is rejected as
/// invalid (status 400) whatever else it holds.
pub proof fn lemma_validation(job_id: Seq<char>, model_id: Seq<char>, pixel_count: Option<usize>, has_text: bool)
    ensures
        job_id.len() == 0 ==> (validation_verdict(job_id, model_id, pixel_count, has_text) matches Err(v) && v.0 == 400),
        job_id.len() > 0 && model_kind_of(model_id) == Some(ModelKind::MnistClassifier) && pixel_count == Some(784usize)
            ==> validation_verdict(job_id, model_id, pixel_count, has_text) == Ok::<ModelKind, (u16, Seq<char>)>(ModelKind::MnistClassifier),
        job_id.len() > 0 && model_kind_of(model_id) == Some(ModelKind::SentimentAnalysis) && has_text
            ==> validation_verdict(job_id, model_id, pixel_count, has_text) == Ok::<ModelKind, (u16, Seq<char>)>(ModelKind::SentimentAnalysis),
{
    reveal_strlit("mnist-classifier");
    reveal_strlit("sentiment-analysis");
}

/// The lowercase form of a text, as `str::to_lowercase` gives it.
pub uninterp spec fn lower_of(s: Seq<char>) -> Seq<char>;

/// Relies on str::to_lowercase: the result depends on the characters alone.
#[verifier::external_body]
fn lowercase(s: &str) -> (r: String)
    ensures
        r@ == lower_of(s@),
{
    s.to_lowercase()
}

/// `needle` occurs in `hay` as a contiguous run.
pub open spec fn occurs_in(hay: Seq<char>, needle: Seq<char>) -> bool {
    exists|i: int| 0 <= i && i + needle.len() <= hay.len() && #[trigger] hay.subrange(i, i + needle.len()) == needle
}

/// Relies on str::contains with a `&str` pattern: true exactly when the
/// pattern occurs as a substring.
#[verifier::external_body]
fn contains_text(hay: &str, needle: &str) -> (r: bool)
    ensures
        r == occurs_in(hay@, needle@),
{
    hay.contains(needle)
}

/// 1 when `w` occurs in `text`, else 0.
pub open spec fn hit(text: Seq<char>, w: Seq<char>) -> nat {
    if occurs_in(text, w) { 1 } else { 0 }
}

/// How many of the positive words occur in `text`.
pub open spec fn positive_hits(text: Seq<char>) -> nat {
    hit(text, "good"@) + hit(text, "great"@) + hit(text, "excellent"@) + hit(text, "amazing"@)
        + hit(text, "wonderful"@)
}

/// How many of the negative words occur in `text`.
pub open spec fn negative_hits(text: Seq<char>) -> nat {
    hit(text, "bad"@) + hit(text, "terrible"@) + hit(text, "awful"@) + hit(text, "horrible"@)
        + hit(text, "poor"@)
}

/// The sentiment class of a lowercased text: 1 positive, 0 negative, 2 neutral.
pub open spec fn sentiment_class(lowered: Seq<char>) -> usize {
    if positive_hits(lowered) > negative_hits(lowered) {
        1
    } else if negative_hits(lowered) > positive_hits(lowered) {
        0
    } else {
        2
    }
}

fn hit_count(text: &str, w: &str) -> (r: usize)
    ensures
        r as nat == hit(text@, w@),
{
    if contains_text(text, w) { 1 } else { 0 }
}

/// The sentiment class of an already lowercased text.
pub fn classify_lowered(lowered: &str) -> (r: usize)
    ensures
        r == sentiment_class(lowered@),
{
    let pos = hit_count(lowered, "good") + hit_count(lowered, "great") + hit_count(lowered, "excellent")
        + hit_count(lowered, "amazing") + hit_count(lowered, "wonderful");
    let neg = hit_count(lowered, "bad") + hit_count(lowered, "terrible") + hit_count(lowered, "awful")
        + hit_count(lowered, "horrible") + hit_count(lowered, "poor");
    if pos > neg {
        1
    } else if neg > pos {
        0
    } else {
        2
    }
}

/// The sentiment class of a text, matched without regard to case.
pub fn sentiment_prediction(text: &str) -> (r: usize)
    ensures
        r == sentiment_class(lower_of(text@)),
{
    let lowered = lowercase(text);
    classify_lowered(lowered.as_str())
}

/// What dispatch hands back: the loaded digit classifier, which runs on the
/// numeric input, or the computed sentiment class.
pub enum InferenceOutcome {
    Digits(ONNXModel),
    Sentiment(usize),
}

/// Validates `req` and runs it: the digit classifier is taken from the
/// registry (loaded at most once), the sentiment rule is applied to the
/// text. A rejected request touches nothing.
pub fn run_inference<S: ModelSource>(
    loader: &mut ModelLoader,
    req: &InferenceRequest,
    source: &S,
) -> (r: Result<InferenceOutcome, EnclaveError>)
    requires
        old(loader).wf(),
    ensures
        final(loader).wf(),
        request_verdict(*req) matches Err(v) ==> (*final(loader) == *old(loader) && (r matches Err(e) && reports(e, v))),
        request_verdict(*req) == Ok::<ModelKind, (u16, Seq<char>)>(ModelKind::SentimentAnalysis) ==> (
            *final(loader) == *old(loader)
            && r == Ok::<InferenceOutcome, EnclaveError>(InferenceOutcome::Sentiment(sentiment_class(lower_of(req.input.sentiment->Some_0.text@))))),
        request_verdict(*req) == Ok::<ModelKind, (u16, Seq<char>)>(ModelKind::MnistClassifier) ==> (
            match r {
                Ok(InferenceOutcome::Digits(m)) => load_post(*old(loader), "mnist-classifier"@, Ok(m), *final(loader)),
                Ok(InferenceOutcome::Sentiment(_)) => false,
                Err(e) => load_post(*old(loader), "mnist-classifier"@, Err(e), *final(loader)),
            }),
{
    let kind = match validate(req) {
        Ok(k) => k,
        Err(e) => return Err(e),
    };
    match kind {
        ModelKind::MnistClassifier => match loader.load_model("mnist-classifier", source) {
            Ok(m) => Ok(InferenceOutcome::Digits(m)),
            Err(e) => Err(e),
        },
        ModelKind::SentimentAnalysis => {
            let input = req.input.sentiment.as_ref().unwrap();
            Ok(InferenceOutcome::Sentiment(sentiment_prediction(input.text.as_str())))
        },
    }
}

/// Runs `req` without changing the registry, when that is possible: a
/// rejection, a sentiment job, or a digit job whose classifier is cached.
/// `None` means the classifier must first be loaded (see `run_inference`).
pub fn try_cached_inference(loader: &ModelLoader, req: &InferenceRequest) -> (r: Option<Result<InferenceOutcome, EnclaveError>>)
    ensures
        request_verdict(*req) matches Err(v) ==> (r matches Some(Err(e)) && reports(e, v)),
        request_verdict(*req) == Ok::<ModelKind, (u16, Seq<char>)>(ModelKind::SentimentAnalysis) ==>
            r == Some(Ok::<InferenceOutcome, EnclaveError>(InferenceOutcome::Sentiment(sentiment_class(lower_of(req.input.sentiment->Some_0.text@))))),
        request_verdict(*req) == Ok::<ModelKind, (u16, Seq<char>)>(ModelKind::MnistClassifier) ==> (
            match loader.cached(ModelKind::MnistClassifier) {
                Some(p) => r matches Some(Ok(InferenceOutcome::Digits(m))) && m.path() == p,
                None => r is None,
            }),
{
    let kind = match validate(req) {
        Ok(k) => k,
        Err(e) => return Some(Err(e)),
    };
    match kind {
        ModelKind::MnistClassifier => match loader.cached_model(ModelKind::MnistClassifier) {
            Some(m) => Some(Ok(InferenceOutcome::Digits(m))),
            None => None,
        },
        ModelKind::SentimentAnalysis => {
            let input = req.input.sentiment.as_ref().unwrap();
            Some(Ok(InferenceOutcome::Sentiment(sentiment_prediction(input.text.as_str()))))
        },
    }
}

/// The version reported for every model.
pub open spec fn model_version_text() -> Seq<char> {
    "v1.0.0"@
}

/// Assembles the response to `req`: its ids, the result, the audit hash of
/// the input's canonical JSON bytes and the computation metadata.
pub fn build_inference_response<R>(
    req: &InferenceRequest,
    result: R,
    input_bytes: &[u8],
    timestamp: u64,
    inference_time_ms: u64,
) -> (r: InferenceResponse<R>)
    ensures
        r.job_id@ == req.job_id@,
        r.model_id@ == req.model_id@,
        r.result == result,
        r.input_hash@ == input_hash_text(input_bytes@),
        r.computation_metadata.timestamp == timestamp,
        r.computation_metadata.model_version@ == model_version_text(),
        r.computation_metadata.inference_time_ms == inference_time_ms,
{
    InferenceResponse {
        job_id: req.job_id.clone(),
        model_id: req.model_id.clone(),
        result,
        input_hash: compute_input_hash(input_bytes),
        computation_metadata: ComputationMetadata {
            timestamp,
            model_version: String::from_str("v1.0.0"),
            inference_time_ms,
        },
    }
}

} // verus!
