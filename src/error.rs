use vstd::prelude::*;

verus! {

/// Every way a load or a generation session can fail.
#[derive(Clone, Copy, Debug, PartialEq, Eq, Structural)]
pub enum GenError {
    /// The inference runtime could not be initialised.
    BackendInit,
    /// The model file is missing, corrupt or incompatible.
    ModelLoad,
    /// Memory for the model or the context could not be allocated.
    ResourceExhausted,
    /// A session was started while no model is installed.
    NotLoaded,
    /// The prompt could not be tokenized.
    Tokenize,
    /// The inference context could not be built for this prompt.
    ContextCreate,
    /// A decode step of the backend failed.
    Decode,
    /// The subscriber of the stream has gone away.
    SinkClosed,
    /// A worker thread panicked while loading or decoding.
    WorkerPanicked,
}

} // verus!
