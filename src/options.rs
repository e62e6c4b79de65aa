use vstd::prelude::*;
use crate::model::Model;

verus! {

/// Options given with a single invocation.
///
/// `model` is the model to call; `None` leaves the choice to the executor.
#[derive(Debug, Clone)]
pub struct PerInvocation {
    pub model: Option<Model>,
}

impl Default for PerInvocation {
    fn default() -> (r: Self)
        ensures
            r.model is None,
    {
        PerInvocation { model: None }
    }
}

impl PerInvocation {
    /// Options with no model set.
    pub fn new() -> (r: Self)
        ensures
            r.model is None,
    {
        Self::default()
    }

    /// These options with the model set to `model`; nothing else changes.
    pub fn for_model(self, model: Model) -> (r: Self)
        ensures
            r.model == Some(model),
    {
        PerInvocation { model: Some(model), ..self }
    }
}

/// Options held by an executor for all its invocations.
///
/// `api_key` is the credential to use; `None` leaves it to be found
/// elsewhere.
#[derive(Debug, Clone)]
pub struct PerExecutor {
    pub api_key: Option<String>,
}

impl Default for PerExecutor {
    fn default() -> (r: Self)
        ensures
            r.api_key is None,
    {
        PerExecutor { api_key: None }
    }
}

impl PerExecutor {
    /// Options with no credential set.
    pub fn new() -> (r: Self)
        ensures
            r.api_key is None,
    {
        Self::default()
    }
}

} // verus!
