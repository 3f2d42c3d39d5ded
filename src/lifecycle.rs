//! Model lifecycle decisions: when a weight file must be downloaded, whether a
//! downloaded file is accepted, when the single cached inference session must be
//! rebuilt, and the status value shown to observers.
use vstd::prelude::*;
use crate::catalog::{get_model_config, model_name, ModelConfig, ModelType};

verus! {

/// Smallest size, in bytes, of a weight file taken as valid (1 MiB). Anything
/// smaller is a failed, partial or error-page download.
pub const MIN_WEIGHT_BYTES: u64 = 1024 * 1024;

/// Loading status of the inference model, shared with whatever presents it.
#[derive(Clone, Debug, PartialEq, Eq)]
pub enum ModelState {
    Unloaded,
    Loading,
    Ready(String),
}

impl ModelState {
    /// The status after a session for `config`'s model is in place, whether it
    /// was just built or reused.
    pub fn ready(config: &ModelConfig) -> (r: ModelState)
        ensures
            r matches ModelState::Ready(name) && name@ == config.name@,
    {
        ModelState::Ready(config.name.clone())
    }

    /// True while a model is being downloaded or loaded.
    pub fn is_loading(&self) -> (r: bool)
        ensures
            r == (self is Loading),
    {
        match self {
            ModelState::Loading => true,
            _ => false,
        }
    }
}

/// What to do about a model's weight file before building a session.
#[derive(Clone, Copy, PartialEq, Eq, Debug, Structural)]
pub enum WeightPlan {
    /// The local file is present and large enough: no network access.
    UseCached,
    /// The file is absent or undersized: set the status to loading, then download.
    Download,
}

/// Why weight acquisition failed.
#[derive(Clone, Copy, PartialEq, Eq, Debug, Structural)]
pub enum WeightError {
    /// The server answered with this non-success HTTP status.
    HttpStatus(u16),
    /// The downloaded file has this many bytes, below the size floor; it is to be deleted.
    TooSmall(u64),
}

/// A weight file of `len` bytes passes the size check.
pub open spec fn weight_file_usable(len: u64) -> bool {
    len >= MIN_WEIGHT_BYTES
}

/// A download is needed when the file is absent (`None`) or undersized.
pub open spec fn download_needed(existing_len: Option<u64>) -> bool {
    match existing_len {
        None => true,
        Some(len) => !weight_file_usable(len),
    }
}

/// An HTTP status in the success class.
pub open spec fn http_success(status: u16) -> bool {
    200 <= status < 300
}

/// The local file's size after one acquisition, given the size before (`None`:
/// absent) and the size that a download would write; a rejected download is
/// deleted.
pub open spec fn file_after_acquisition(existing_len: Option<u64>, downloaded_len: u64) -> Option<u64> {
    if !download_needed(existing_len) {
        existing_len
    } else if weight_file_usable(downloaded_len) {
        Some(downloaded_len)
    } else {
        None
    }
}

/// Decides from the local file's size (`None` when absent) whether to download.
pub fn plan_weights(existing_len: Option<u64>) -> (r: WeightPlan)
    ensures
        (r == WeightPlan::Download) == download_needed(existing_len),
{
    match existing_len {
        None => WeightPlan::Download,
        Some(len) => if len < MIN_WEIGHT_BYTES {
            WeightPlan::Download
        } else {
            WeightPlan::UseCached
        },
    }
}

/// Decides whether to download and, when so, marks the model as loading
/// before any network access; otherwise the status is kept.
pub fn begin_acquisition(existing_len: Option<u64>, state: &mut ModelState) -> (r: WeightPlan)
    ensures
        (r == WeightPlan::Download) == download_needed(existing_len),
        r == WeightPlan::Download ==> *final(state) == ModelState::Loading,
        r == WeightPlan::UseCached ==> *final(state) == *old(state),
{
    let plan = plan_weights(existing_len);
    if plan == WeightPlan::Download {
        *state = ModelState::Loading;
    }
    plan
}

/// Accepts a download response only with a success status.
pub fn check_http_status(status: u16) -> (r: Result<(), WeightError>)
    ensures
        r is Ok <==> http_success(status),
        r is Err ==> r == Err::<(), WeightError>(WeightError::HttpStatus(status)),
{
    if 200 <= status && status < 300 {
        Ok(())
    } else {
        Err(WeightError::HttpStatus(status))
    }
}

/// Re-checks the size of a freshly written weight file.
pub fn check_downloaded_weights(len: u64) -> (r: Result<(), WeightError>)
    ensures
        r is Ok <==> weight_file_usable(len),
        r is Err ==> r == Err::<(), WeightError>(WeightError::TooSmall(len)),
{
    if len < MIN_WEIGHT_BYTES {
        Err(WeightError::TooSmall(len))
    } else {
        Ok(())
    }
}

/// Once an acquisition has left a file in place, the next acquisition of the
/// same model uses it without any network access.
pub proof fn acquisition_then_cache_hit(existing_len: Option<u64>, downloaded_len: u64)
    requires
        file_after_acquisition(existing_len, downloaded_len) is Some,
    ensures
        !download_needed(file_after_acquisition(existing_len, downloaded_len)),
{
}

/// A local file below the size floor is never used: it is downloaded again.
pub proof fn undersized_file_is_downloaded_again(len: u64)
    requires
        len < MIN_WEIGHT_BYTES,
    ensures
        download_needed(Some(len)),
{
}

/// A session must be built unless the cached one was built for `requested`.
pub open spec fn construction_needed(loaded: Option<ModelType>, requested: ModelType) -> bool {
    loaded != Some(requested)
}

/// Number of sessions built while serving `requests` in order, starting from a
/// cache that holds a session for `loaded` (or none); after each request the
/// cache holds that request's model.
pub open spec fn constructions(loaded: Option<ModelType>, requests: Seq<ModelType>) -> nat
    decreases requests.len(),
{
    if requests.len() == 0 {
        0
    } else {
        (if construction_needed(loaded, requests[0]) {
            1nat
        } else {
            0nat
        }) + constructions(Some(requests[0]), requests.drop_first())
    }
}

/// The process-wide single slot for an inference session, tagged with the
/// model it was built from. Installing a session drops the previous one.
pub struct SessionSlot<S> {
    pub current: Option<(ModelType, S)>,
}

impl<S> SessionSlot<S> {
    /// The model whose session the slot holds, if any.
    pub open spec fn loaded_model(&self) -> Option<ModelType> {
        match self.current {
            Some((m, _)) => Some(m),
            None => None,
        }
    }

    /// An empty slot.
    pub fn new() -> (r: Self)
        ensures
            r.loaded_model() is None,
    {
        SessionSlot { current: None }
    }

    /// The model whose session the slot holds, if any.
    pub fn loaded(&self) -> (r: Option<ModelType>)
        ensures
            r == self.loaded_model(),
    {
        match &self.current {
            Some((m, _)) => Some(*m),
            None => None,
        }
    }

    /// Whether a request for `model` must build a new session (and set the
    /// status to loading first) rather than reuse the cached one.
    pub fn needs_construction(&self, model: ModelType) -> (r: bool)
        ensures
            r == construction_needed(self.loaded_model(), model),
    {
        match &self.current {
            Some((m, _)) => *m != model,
            None => true,
        }
    }

    /// Starts serving a request for `model`: tells whether a session must be
    /// built and, when so, marks the model as loading; otherwise the status is
    /// kept.
    pub fn begin_request(&self, model: ModelType, state: &mut ModelState) -> (r: bool)
        ensures
            r == construction_needed(self.loaded_model(), model),
            r ==> *final(state) == ModelState::Loading,
            !r ==> *final(state) == *old(state),
    {
        let construct = self.needs_construction(model);
        if construct {
            *state = ModelState::Loading;
        }
        construct
    }

    /// The status after a failed download or load: the cache is untouched by a
    /// failure, so the status names the model still cached, or none; it is
    /// never left at loading.
    pub fn status_after_failure(&self) -> (r: ModelState)
        ensures
            self.loaded_model() matches Some(m) ==> (r matches ModelState::Ready(name) && name@
                == model_name(m)),
            self.loaded_model() is None ==> r == ModelState::Unloaded,
    {
        match &self.current {
            Some((m, _)) => ModelState::ready(&get_model_config(*m)),
            None => ModelState::Unloaded,
        }
    }

    /// Replaces the cached session with `session`, built for `model`.
    pub fn install(&mut self, model: ModelType, session: S)
        ensures
            final(self).loaded_model() == Some(model),
            final(self).current matches Some((_, s)) && s == session,
    {
        self.current = Some((model, session));
    }
}

/// Requesting the same model twice in a row builds no session for the second
/// request.
pub proof fn repeated_request_reuses_session(loaded: Option<ModelType>, model: ModelType)
    ensures
        !construction_needed(Some(model), model),
        constructions(loaded, seq![model, model]) == constructions(loaded, seq![model]),
        constructions(loaded, seq![model, model]) <= 1,
{
    reveal_with_fuel(constructions, 3);
    assert(seq![model, model].drop_first() =~= seq![model]);
    assert(seq![model].drop_first() =~= Seq::<ModelType>::empty());
}

/// Requesting model `a`, then a different model `b`, builds `b`'s session
/// exactly once and leaves only `b`'s session cached.
pub proof fn switching_model_rebuilds_once(loaded: Option<ModelType>, a: ModelType, b: ModelType)
    requires
        a != b,
    ensures
        construction_needed(Some(a), b),
        constructions(Some(a), seq![b]) == 1,
        constructions(loaded, seq![a, b]) == constructions(loaded, seq![a]) + 1,
{
    reveal_with_fuel(constructions, 3);
    assert(seq![a, b].drop_first() =~= seq![b]);
    assert(seq![a].drop_first() =~= Seq::<ModelType>::empty());
    assert(seq![b].drop_first() =~= Seq::<ModelType>::empty());
}

} // verus!
