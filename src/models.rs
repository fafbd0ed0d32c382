//! The model registry: a closed set of models, their resource paths, and a
//! cache that loads each backend at most once.

use crate::error::EnclaveError;
use vstd::prelude::*;

verus! {

/// The models the gateway serves.
#[derive(Debug, Clone, Copy, PartialEq, Eq, Structural)]
pub enum ModelKind {
    MnistClassifier,
    SentimentAnalysis,
}

/// The model an identifier names, if any.
pub open spec fn model_kind_of(id: Seq<char>) -> Option<ModelKind> {
    if id == "mnist-classifier"@ {
        Some(ModelKind::MnistClassifier)
    } else if id == "sentiment-analysis"@ {
        Some(ModelKind::SentimentAnalysis)
    } else {
        None
    }
}

/// The identifier of a model.
pub open spec fn model_id_of(kind: ModelKind) -> Seq<char> {
    match kind {
        ModelKind::MnistClassifier => "mnist-classifier"@,
        ModelKind::SentimentAnalysis => "sentiment-analysis"@,
    }
}

/// The file name of a model's resource.
pub open spec fn model_file_of(kind: ModelKind) -> Seq<char> {
    match kind {
        ModelKind::MnistClassifier => "mnist.onnx"@,
        ModelKind::SentimentAnalysis => "sentiment.onnx"@,
    }
}

/// `file` under directory `dir`, with one `/` between them.
pub open spec fn join_path(dir: Seq<char>, file: Seq<char>) -> Seq<char> {
    if dir.len() == 0 {
        file
    } else if dir.last() == '/' {
        dir + file
    } else {
        dir + seq!['/'] + file
    }
}

/// Whether `s` reads exactly `lit`.
pub(crate) fn str_is(s: &str, lit: &str) -> (r: bool)
    ensures
        r == (s@ == lit@),
{
    let a = s.to_owned();
    let b = lit.to_owned();
    a.eq(&b)
}

impl ModelKind {
    /// The model that `id` names, if any.
    pub fn from_id(id: &str) -> (r: Option<ModelKind>)
        ensures
            r == model_kind_of(id@),
    {
        if str_is(id, "mnist-classifier") {
            Some(ModelKind::MnistClassifier)
        } else if str_is(id, "sentiment-analysis") {
            Some(ModelKind::SentimentAnalysis)
        } else {
            None
        }
    }

    /// The identifier of this model.
    pub fn id(&self) -> (r: String)
        ensures
            r@ == model_id_of(*self),
    {
        match self {
            ModelKind::MnistClassifier => String::from_str("mnist-classifier"),
            ModelKind::SentimentAnalysis => String::from_str("sentiment-analysis"),
        }
    }

    /// The file name of this model's resource.
    pub fn file_name(&self) -> (r: &'static str)
        ensures
            r@ == model_file_of(*self),
    {
        match self {
            ModelKind::MnistClassifier => "mnist.onnx",
            ModelKind::SentimentAnalysis => "sentiment.onnx",
        }
    }
}

/// The message of a model whose resource is missing.
pub open spec fn missing_model_text() -> Seq<char> {
    "Model file not found"@
}

/// Where model resources come from: answers whether a resource exists.
pub trait ModelSource {
    fn has_resource(&self, path: &str) -> bool;
}

/// A loaded model backend, known by its resource path.
pub struct ONNXModel {
    model_path: String,
}

impl ONNXModel {
    /// The resource path this model was loaded from.
    pub closed spec fn path(&self) -> Seq<char> {
        self.model_path@
    }

    /// The model at `path`, given whether its resource is `present`. The
    /// error names no path, so that none reaches a client.
    pub fn from_lookup(path: &str, present: bool) -> (r: Result<ONNXModel, EnclaveError>)
        ensures
            r is Ok <==> present,
            r matches Ok(m) ==> m.path() == path@,
            r matches Err(e) ==> (e matches EnclaveError::ModelNotFound(msg) && msg@ == missing_model_text()),
    {
        if present {
            Ok(ONNXModel { model_path: path.to_owned() })
        } else {
            Err(EnclaveError::ModelNotFound(String::from_str("Model file not found")))
        }
    }

    /// Loads the model at `path`, asking `source` whether it is there; a
    /// missing resource is `ModelNotFound`.
    pub fn load<S: ModelSource>(path: &str, source: &S) -> (r: Result<ONNXModel, EnclaveError>)
        ensures
            r matches Ok(m) ==> m.path() == path@,
            r matches Err(e) ==> (e matches EnclaveError::ModelNotFound(msg) && msg@ == missing_model_text()),
    {
        let present = source.has_resource(path);
        ONNXModel::from_lookup(path, present)
    }

    /// The resource path this model was loaded from.
    pub fn model_path(&self) -> (r: String)
        ensures
            r@ == self.path(),
    {
        self.model_path.clone()
    }

    /// Another handle on the same model.
    pub fn duplicate(&self) -> (r: ONNXModel)
        ensures
            r.path() == self.path(),
    {
        ONNXModel { model_path: self.model_path.clone() }
    }
}

/// The registry: a resource directory and one cache slot per model.
pub struct ModelLoader {
    models_dir: String,
    mnist: Option<ONNXModel>,
    sentiment: Option<ONNXModel>,
    loads: u64,
}

/// Everything `load_model` promises, from the registry before the call, the
/// identifier, the result and the registry after it.
pub open spec fn load_post(
    before: ModelLoader,
    model_id: Seq<char>,
    r: Result<ONNXModel, EnclaveError>,
    after: ModelLoader,
) -> bool {
    &&& after.wf()
    &&& after.dir() == before.dir()
    &&& match model_kind_of(model_id) {
        None => {
            &&& after == before
            &&& r matches Err(EnclaveError::ModelNotFound(msg))
            &&& msg@ == "Unknown model ID: "@ + model_id
        },
        Some(k) => match before.cached(k) {
            Some(p) => {
                &&& after == before
                &&& r matches Ok(m)
                &&& m.path() == p
            },
            None => match r {
                Ok(m) => {
                    &&& m.path() == before.path_of(k)
                    &&& after.cached(k) == Some(before.path_of(k))
                    &&& forall|o: ModelKind| o != k ==> after.cached(o) == before.cached(o)
                    &&& after.load_count() == before.load_count() + 1
                },
                Err(e) => {
                    &&& after == before
                    &&& e matches EnclaveError::ModelNotFound(msg)
                    &&& msg@ == missing_model_text()
                },
            },
        },
    }
}

impl ModelLoader {
    /// The resource directory.
    pub closed spec fn dir(&self) -> Seq<char> {
        self.models_dir@
    }

    /// The path of the model cached for `kind`, if one is.
    pub closed spec fn cached(&self, kind: ModelKind) -> Option<Seq<char>> {
        match kind {
            ModelKind::MnistClassifier => match self.mnist {
                Some(m) => Some(m.path()),
                None => None,
            },
            ModelKind::SentimentAnalysis => match self.sentiment {
                Some(m) => Some(m.path()),
                None => None,
            },
        }
    }

    /// How many backends this registry has loaded from their resources.
    pub closed spec fn load_count(&self) -> nat {
        self.loads as nat
    }

    /// The resource path of `kind` under this registry's directory.
    pub open spec fn path_of(&self, kind: ModelKind) -> Seq<char> {
        join_path(self.dir(), model_file_of(kind))
    }

    /// Each cached model came from its own resource path, and every load
    /// filled one empty slot: the count is the number of cached models.
    pub open spec fn wf(&self) -> bool {
        &&& forall|k: ModelKind| #[trigger] self.cached(k) matches Some(p) ==> p == self.path_of(k)
        &&& self.load_count() == (if self.cached(ModelKind::MnistClassifier) is Some { 1nat } else { 0nat })
            + (if self.cached(ModelKind::SentimentAnalysis) is Some { 1nat } else { 0nat })
    }

    /// An empty registry over `models_dir`.
    pub fn new(models_dir: String) -> (r: ModelLoader)
        ensures
            r.wf(),
            r.dir() == models_dir@,
            forall|k: ModelKind| #[trigger] r.cached(k) is None,
            r.load_count() == 0,
    {
        ModelLoader { models_dir, mnist: None, sentiment: None, loads: 0 }
    }

    /// The resource path of the model that `model_id` names.
    fn get_model_path(&self, model_id: &str) -> (r: Result<String, EnclaveError>)
        ensures
            r matches Ok(p) ==> (model_kind_of(model_id@) matches Some(k) && p@ == self.path_of(k)),
            r matches Err(e) ==> (model_kind_of(model_id@) is None && (e matches EnclaveError::ModelNotFound(msg)
                && msg@ == "Unknown model ID: "@ + model_id@)),
            model_kind_of(model_id@) is Some <==> r is Ok,
    {
        match ModelKind::from_id(model_id) {
            Some(k) => Ok(join_dir(&self.models_dir, k.file_name())),
            None => {
                let mut msg = String::from_str("Unknown model ID: ");
                msg.append(model_id);
                Err(EnclaveError::ModelNotFound(msg))
            },
        }
    }

    /// The backend for `model_id`: the cached one when there is one, else
    /// loaded from its resource and cached. A cached model is never reloaded.
    pub fn load_model<S: ModelSource>(&mut self, model_id: &str, source: &S) -> (r: Result<ONNXModel, EnclaveError>)
        requires
            old(self).wf(),
        ensures
            load_post(*old(self), model_id@, r, *final(self)),
    {
        let path = match self.get_model_path(model_id) {
            Ok(p) => p,
            Err(e) => return Err(e),
        };
        let kind = ModelKind::from_id(model_id).unwrap();
        match kind {
            ModelKind::MnistClassifier => {
                if let Some(m) = &self.mnist {
                    return Ok(m.duplicate());
                }
            },
            ModelKind::SentimentAnalysis => {
                if let Some(m) = &self.sentiment {
                    return Ok(m.duplicate());
                }
            },
        }
        let model = match ONNXModel::load(path.as_str(), source) {
            Ok(m) => m,
            Err(e) => return Err(e),
        };
        let handle = model.duplicate();
        match kind {
            ModelKind::MnistClassifier => {
                self.mnist = Some(model);
            },
            ModelKind::SentimentAnalysis => {
                self.sentiment = Some(model);
            },
        }
        self.loads = self.loads + 1;
        assert(self.cached(kind) == Some(old(self).path_of(kind)));
        assert forall|o: ModelKind| o != kind implies self.cached(o) == old(self).cached(o) by {
            match o {
                ModelKind::MnistClassifier => {},
                ModelKind::SentimentAnalysis => {},
            }
        }
        assert forall|o: ModelKind| #[trigger] self.cached(o) is Some implies self.cached(o)->Some_0 == self.path_of(o) by {
            if o != kind {
                assert(self.cached(o) == old(self).cached(o));
            }
        }
        Ok(handle)
    }

    /// The cached backend for `kind`, if one is loaded; reads only.
    pub fn cached_model(&self, kind: ModelKind) -> (r: Option<ONNXModel>)
        ensures
            r matches Some(m) ==> self.cached(kind) == Some(m.path()),
            r is None <==> self.cached(kind) is None,
    {
        let slot = match kind {
            ModelKind::MnistClassifier => &self.mnist,
            ModelKind::SentimentAnalysis => &self.sentiment,
        };
        match slot {
            Some(m) => Some(m.duplicate()),
            None => None,
        }
    }

    /// The identifiers of all served models.
    pub fn list_models(&self) -> (r: Vec<String>)
        ensures
            r@.len() == 2,
            r@[0]@ == model_id_of(ModelKind::MnistClassifier),
            r@[1]@ == model_id_of(ModelKind::SentimentAnalysis),
    {
        let mut v: Vec<String> = Vec::new();
        v.push(ModelKind::MnistClassifier.id());
        v.push(ModelKind::SentimentAnalysis.id());
        v
    }
}

impl Default for ModelLoader {
    /// An empty registry over `/app/models`.
    fn default() -> (r: ModelLoader)
        ensures
            r.wf(),
            r.dir() == "/app/models"@,
            forall|k: ModelKind| #[trigger] r.cached(k) is None,
            r.load_count() == 0,
    {
        ModelLoader::new(String::from_str("/app/models"))
    }
}

/// `file` joined under `dir`.
fn join_dir(dir: &String, file: &str) -> (r: String)
    ensures
        r@ == join_path(dir@, file@),
{
    let n = dir.as_str().unicode_len();
    if n == 0 {
        file.to_owned()
    } else if dir.as_str().get_char(n - 1) == '/' {
        let mut s = dir.clone();
        s.append(file);
        s
    } else {
        let mut s = dir.clone();
        s.append("/");
        s.append(file);
        proof {
            reveal_strlit("/");
        }
        assert(s@ =~= dir@ + seq!['/'] + file@);
        s
    }
}

/// Cache reuse: once a model has been loaded, loading it again returns the
/// same backend and leaves the registry, and its load count, unchanged.
pub proof fn lemma_cached_load_reuses(
    l0: ModelLoader,
    model_id: Seq<char>,
    r1: Result<ONNXModel, EnclaveError>,
    l1: ModelLoader,
    r2: Result<ONNXModel, EnclaveError>,
    l2: ModelLoader,
)
    requires
        l0.wf(),
        load_post(l0, model_id, r1, l1),
        r1 is Ok,
        load_post(l1, model_id, r2, l2),
    ensures
        r2 is Ok,
        r2->Ok_0.path() == r1->Ok_0.path(),
        l2 == l1,
        l2.load_count() == l1.load_count(),
{
}

} // verus!
