use std::cell::RefCell;
use synapsemodel_tee_server::{
    attestation_response, build_inference_response, canonical_envelope_bytes, classify_lowered,
    compute_hash, compute_input_hash, error_response, from_seed, generate_keypair, get_attestation_document,
    get_public_key_hex, health_response, not_found_response, public_key_response, run_inference,
    sentiment_prediction, sign_data, to_signed_response, try_cached_inference, validate, verify_envelope, verify_pcrs,
    verify_signature, AppState, AttestationError, EnclaveError, InferenceOutcome, InferenceRequest, IntentMessage,
    IntentScope, JobInput, ModelKind, SentimentInput, ONNXModel, ModelLoader, ModelSource, MNIST_PIXELS,
};

/// A resource store that records every lookup.
struct CountingSource {
    present: bool,
    lookups: RefCell<Vec<String>>,
}

impl CountingSource {
    fn new(present: bool) -> Self {
        CountingSource { present, lookups: RefCell::new(Vec::new()) }
    }
    fn count(&self) -> usize {
        self.lookups.borrow().len()
    }
}

impl ModelSource for CountingSource {
    fn has_resource(&self, path: &str) -> bool {
        self.lookups.borrow_mut().push(path.to_string());
        self.present
    }
}

fn request(job_id: &str, model_id: &str, pixels: Option<usize>, text: Option<&str>) -> InferenceRequest {
    InferenceRequest {
        job_id: job_id.to_string(),
        model_id: model_id.to_string(),
        input: JobInput {
            pixel_count: pixels,
            sentiment: text.map(|t| SentimentInput { text: t.to_string() }),
        },
    }
}

#[test]
fn test_process_inference_validation() {
    let req = request("", "mnist-classifier", Some(784), None);
    let result = validate(&req);
    assert!(result.is_err());
}

#[test]
fn validate_accepts_full_mnist_job() {
    let req = request("test-job-1", "mnist-classifier", Some(MNIST_PIXELS), None);
    assert!(matches!(validate(&req), Ok(ModelKind::MnistClassifier)));
    let req = request("job", "sentiment-analysis", None, Some("hello"));
    assert!(matches!(validate(&req), Ok(ModelKind::SentimentAnalysis)));
}

#[test]
fn empty_job_id_rejected_whatever_the_model() {
    for model in ["mnist-classifier", "sentiment-analysis", "nonexistent-model", ""] {
        let req = request("", model, Some(784), Some("x"));
        match validate(&req) {
            Err(EnclaveError::ValidationError(m)) => assert_eq!(m, "Job ID cannot be empty"),
            other => panic!("unexpected {:?}", other),
        }
    }
}

#[test]
fn empty_model_id_rejected() {
    let req = request("job", "", Some(784), None);
    match validate(&req) {
        Err(EnclaveError::ValidationError(m)) => assert_eq!(m, "Model ID cannot be empty"),
        other => panic!("unexpected {:?}", other),
    }
}

#[test]
fn test_invalid_input() {
    let req = request("test-job-3", "mnist-classifier", Some(100), None);
    let err = validate(&req).unwrap_err();
    assert_eq!(err.status_code(), 400);
    match err {
        EnclaveError::ValidationError(m) => {
            assert_eq!(m, "MNIST input must have 784 pixels, got 100")
        }
        other => panic!("unexpected {:?}", other),
    }
}

#[test]
fn test_invalid_model() {
    let req = request("test-job-2", "nonexistent-model", None, None);
    let err = validate(&req).unwrap_err();
    assert_eq!(err.status_code(), 404);
    match err {
        EnclaveError::ModelNotFound(m) => assert_eq!(m, "Unknown model: nonexistent-model"),
        other => panic!("unexpected {:?}", other),
    }
}

#[test]
fn unparsed_inputs_rejected() {
    let req = request("j", "mnist-classifier", None, Some("text"));
    match validate(&req) {
        Err(EnclaveError::ValidationError(m)) => {
            assert_eq!(m, "Invalid MNIST input: expected 784 numbers under \"pixels\" or \"data\"")
        }
        other => panic!("unexpected {:?}", other),
    }
    let req = request("j", "sentiment-analysis", Some(784), None);
    match validate(&req) {
        Err(EnclaveError::ValidationError(m)) => {
            assert_eq!(m, "Invalid sentiment input: expected a string under \"text\"")
        }
        other => panic!("unexpected {:?}", other),
    }
}

#[test]
fn model_from_lookup() {
    assert_eq!(ONNXModel::from_lookup("/m/mnist.onnx", true).unwrap().model_path(), "/m/mnist.onnx");
    match ONNXModel::from_lookup("/m/mnist.onnx", false) {
        Err(EnclaveError::ModelNotFound(m)) => assert_eq!(m, "Model file not found"),
        _ => panic!("expected a missing model"),
    }
}

#[test]
fn key_pair_from_seed() {
    let seed = vec![7u8; 32];
    let a = from_seed(seed.clone());
    let b = from_seed(seed);
    assert_eq!(a.public_key_bytes(), b.public_key_bytes());
    assert_eq!(get_public_key_hex(&a).len(), 64);
    assert_eq!(sign_data(&a, b"m"), sign_data(&b, b"m"));
    assert!(verify_signature(&a.public_key_bytes(), b"m", &sign_data(&b, b"m")));
}

#[test]
fn test_mnist_inference() {
    let mut loader = ModelLoader::new("/app/models".to_string());
    let source = CountingSource::new(true);
    let req = request("test-job-1", "mnist-classifier", Some(784), None);
    match run_inference(&mut loader, &req, &source) {
        Ok(InferenceOutcome::Digits(m)) => assert_eq!(m.model_path(), "/app/models/mnist.onnx"),
        _ => panic!("expected the digit classifier"),
    }
    let resp = build_inference_response(&req, 7u32, b"{}", 1000, 3);
    assert_eq!(resp.job_id, "test-job-1");
    assert_eq!(resp.model_id, "mnist-classifier");
    assert_eq!(resp.result, 7);
    assert!(resp.input_hash.starts_with("0x"));
    assert_eq!(resp.input_hash.len(), 66);
    assert_eq!(resp.computation_metadata.model_version, "v1.0.0");
    assert_eq!(resp.computation_metadata.timestamp, 1000);
    assert_eq!(resp.computation_metadata.inference_time_ms, 3);
}

#[test]
fn rejected_request_loads_nothing() {
    let mut loader = ModelLoader::new("/app/models".to_string());
    let source = CountingSource::new(true);
    let req = request("job", "mnist-classifier", Some(100), None);
    assert!(run_inference(&mut loader, &req, &source).is_err());
    assert_eq!(source.count(), 0);
}

#[test]
fn second_dispatch_reuses_cached_backend() {
    let mut loader = ModelLoader::new("/models/".to_string());
    let source = CountingSource::new(true);
    let first = loader.load_model("mnist-classifier", &source).unwrap();
    let second = loader.load_model("mnist-classifier", &source).unwrap();
    assert_eq!(source.count(), 1);
    assert_eq!(first.model_path(), "/models/mnist.onnx");
    assert_eq!(first.model_path(), second.model_path());
    let req = request("j", "mnist-classifier", Some(784), None);
    assert!(run_inference(&mut loader, &req, &source).is_ok());
    assert_eq!(source.count(), 1);
}

#[test]
fn missing_resource_is_not_cached() {
    let mut loader = ModelLoader::default();
    let missing = CountingSource::new(false);
    match loader.load_model("sentiment-analysis", &missing) {
        Err(EnclaveError::ModelNotFound(m)) => {
            assert_eq!(m, "Model file not found")
        }
        _ => panic!("expected a missing model"),
    }
    let present = CountingSource::new(true);
    assert!(loader.load_model("sentiment-analysis", &present).is_ok());
    assert_eq!(present.count(), 1);
}

#[test]
fn unknown_model_id_on_load() {
    let mut loader = ModelLoader::new(String::new());
    let source = CountingSource::new(true);
    match loader.load_model("resnet", &source) {
        Err(EnclaveError::ModelNotFound(m)) => assert_eq!(m, "Unknown model ID: resnet"),
        _ => panic!("expected an unknown model"),
    }
    assert_eq!(source.count(), 0);
    let m = loader.load_model("mnist-classifier", &source).unwrap();
    assert_eq!(m.model_path(), "mnist.onnx");
}

#[test]
fn list_models_names_both() {
    let loader = ModelLoader::default();
    assert_eq!(loader.list_models(), vec!["mnist-classifier".to_string(), "sentiment-analysis".to_string()]);
}

#[test]
fn sentiment_rule() {
    assert_eq!(sentiment_prediction("This is GREAT"), 1);
    assert_eq!(sentiment_prediction("Bad and poor, but good"), 0);
    assert_eq!(sentiment_prediction("nothing to say"), 2);
    assert_eq!(sentiment_prediction("good but bad"), 2);
    assert_eq!(classify_lowered("GREAT"), 2);
    let mut loader = ModelLoader::default();
    let source = CountingSource::new(true);
    let req = request("j", "sentiment-analysis", None, Some("Amazing and Wonderful"));
    assert!(matches!(run_inference(&mut loader, &req, &source), Ok(InferenceOutcome::Sentiment(1))));
    assert_eq!(source.count(), 0);
}

#[test]
fn hash_of_abc() {
    assert_eq!(
        hex::encode(compute_hash(b"abc")),
        "ba7816bf8f01cfea414140de5dae2223b00361a396177a9cb410ff61f20015ad"
    );
    assert_eq!(
        compute_input_hash(b"abc"),
        "0xba7816bf8f01cfea414140de5dae2223b00361a396177a9cb410ff61f20015ad"
    );
}

#[test]
fn input_hash_ignores_key_order() {
    let a: serde_json::Value = serde_json::from_str(r#"{"pixels":[1,2],"data":"x"}"#).unwrap();
    let b: serde_json::Value = serde_json::from_str(r#"{"data":"x","pixels":[1,2]}"#).unwrap();
    let ha = compute_input_hash(&serde_json::to_vec(&a).unwrap());
    let hb = compute_input_hash(&serde_json::to_vec(&b).unwrap());
    assert_eq!(ha, hb);
    let c: serde_json::Value = serde_json::from_str(r#"{"data":"y","pixels":[1,2]}"#).unwrap();
    assert_ne!(ha, compute_input_hash(&serde_json::to_vec(&c).unwrap()));
}

#[test]
fn canonical_bytes_match_bcs() {
    let data = "hello".to_string();
    let data_bytes = bcs::to_bytes(&data).unwrap();
    let framed = canonical_envelope_bytes(0, 0x0102030405060708, &data_bytes);
    assert_eq!(framed, bcs::to_bytes(&(0u8, 0x0102030405060708u64, data)).unwrap());
    assert_eq!(&framed[..9], &[0, 8, 7, 6, 5, 4, 3, 2, 1]);
}

#[test]
fn signed_envelope_verifies_and_tampering_fails() {
    let kp = generate_keypair();
    let pk = hex::decode(get_public_key_hex(&kp)).unwrap();
    assert_eq!(pk, kp.public_key_bytes());
    let data_bytes = bcs::to_bytes(&"result".to_string()).unwrap();
    let signed = to_signed_response(&kp, "result", &data_bytes, 1234, IntentScope::ProcessData);
    assert_eq!(signed.response.intent, 0);
    assert_eq!(signed.response.timestamp_ms, 1234);
    assert_eq!(signed.response.data, "result");
    let sig = hex::decode(&signed.signature).unwrap();
    assert_eq!(sig.len(), 64);
    assert!(verify_envelope(&pk, 0, 1234, &data_bytes, &sig));
    let bytes = canonical_envelope_bytes(0, 1234, &data_bytes);
    assert!(verify_signature(&pk, &bytes, &sig));
    for i in 0..bytes.len() {
        let mut flipped = bytes.clone();
        flipped[i] ^= 0x01;
        assert!(!verify_signature(&pk, &flipped, &sig));
    }
    assert!(!verify_envelope(&pk, 0, 1235, &data_bytes, &sig));
}

#[test]
fn scope_is_signed() {
    let kp = generate_keypair();
    let pk = kp.public_key_bytes();
    let data_bytes = vec![1u8, 2, 3];
    let signed = to_signed_response(&kp, (), &data_bytes, 99, IntentScope::ParameterLoad);
    assert_eq!(signed.response.intent, 1);
    let sig = hex::decode(&signed.signature).unwrap();
    assert!(verify_envelope(&pk, 1, 99, &data_bytes, &sig));
    assert!(!verify_envelope(&pk, 0, 99, &data_bytes, &sig));
    assert_eq!(IntentScope::ProcessData.as_u8(), 0);
    assert_eq!(IntentScope::ParameterLoad.as_u8(), 1);
}

#[test]
fn sign_data_is_deterministic_and_verifies() {
    let kp = generate_keypair();
    let a = sign_data(&kp, b"message");
    let b = sign_data(&kp, b"message");
    assert_eq!(a, b);
    assert!(verify_signature(&kp.public_key_bytes(), b"message", &a));
    let other = generate_keypair();
    assert!(!verify_signature(&other.public_key_bytes(), b"message", &a));
    let state = AppState::new(kp);
    assert_eq!(get_public_key_hex(&state.eph_kp).len(), 64);
}

#[test]
fn intent_message_new() {
    let m = IntentMessage::new(5u8, 42, IntentScope::ParameterLoad);
    assert_eq!(m.intent, 1);
    assert_eq!(m.timestamp_ms, 42);
    assert_eq!(m.data, 5);
}

#[test]
fn error_statuses_and_bodies() {
    let cases = vec![
        (EnclaveError::ValidationError("v".to_string()), 400, "v"),
        (EnclaveError::ModelNotFound("m".to_string()), 404, "m"),
        (EnclaveError::GenericError("g".to_string()), 500, "Generic error: g"),
        (EnclaveError::InferenceError("i".to_string()), 500, "Inference error: i"),
        (EnclaveError::SerializationError("s".to_string()), 500, "Serialization error: s"),
        (EnclaveError::CryptoError("c".to_string()), 500, "Cryptography error: c"),
    ];
    for (e, status, text) in cases {
        let (code, body) = error_response(&e);
        assert_eq!(code, status);
        assert_eq!(body.error, text);
    }
    let (code, body) = not_found_response();
    assert_eq!(code, 404);
    assert_eq!(body.error, "Not found");
}

#[test]
fn main_test_health_check() {
    let h = health_response(17);
    assert_eq!(h.status, "healthy");
    assert_eq!(h.timestamp, 17);
    assert_eq!(h.version, "1.0.0");
}

#[test]
fn integration_test_test_health_check() {
    let h = health_response(0);
    assert_eq!(h.status, "healthy");
}

#[test]
fn test_public_key() {
    let kp = generate_keypair();
    let body = public_key_response(&kp);
    assert_eq!(body.format, "ed25519-hex");
    assert_eq!(body.public_key, hex::encode(kp.public_key_bytes()));
    assert_eq!(body.public_key.len(), 64);
}

#[test]
fn attestation_unavailable() {
    let doc = get_attestation_document();
    assert!(doc.is_err());
    let (code, body) = attestation_response(&doc, 5);
    assert_eq!(code, 503);
    assert_eq!(body.attestation, "Attestation not available in development mode");
    assert_eq!(body.timestamp, 5);
    let (code, body) = attestation_response(&Ok(vec![0xab, 0x01]), 6);
    assert_eq!(code, 200);
    assert_eq!(body.attestation, "ab01");
    let expected = [vec![1u8], vec![2], vec![3]];
    assert!(matches!(verify_pcrs(&expected, None), Err(AttestationError::Unavailable(_))));
    assert!(matches!(verify_pcrs(&expected, Some(&[vec![1], vec![2], vec![3]])), Ok(true)));
    assert!(matches!(verify_pcrs(&expected, Some(&[vec![1], vec![2], vec![4]])), Ok(false)));
    assert!(matches!(verify_pcrs(&expected, Some(&[vec![1], vec![2, 0], vec![3]])), Ok(false)));
}

#[test]
fn cached_path_reads_only() {
    let mut loader = ModelLoader::default();
    let req = request("j", "mnist-classifier", Some(784), None);
    assert!(try_cached_inference(&loader, &req).is_none());
    let source = CountingSource::new(true);
    assert!(run_inference(&mut loader, &req, &source).is_ok());
    match try_cached_inference(&loader, &req) {
        Some(Ok(InferenceOutcome::Digits(m))) => assert_eq!(m.model_path(), "/app/models/mnist.onnx"),
        _ => panic!("expected the cached classifier"),
    }
    assert_eq!(source.count(), 1);
    let bad = request("j", "nonexistent-model", None, None);
    assert!(matches!(try_cached_inference(&loader, &bad), Some(Err(EnclaveError::ModelNotFound(_)))));
    let text = request("j", "sentiment-analysis", None, Some("terrible"));
    assert!(matches!(try_cached_inference(&loader, &text), Some(Ok(InferenceOutcome::Sentiment(0)))));
    assert!(loader.cached_model(ModelKind::SentimentAnalysis).is_none());
}
