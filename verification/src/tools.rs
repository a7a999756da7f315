//! Function calling: the calls a model asks for and the responses sent back.
use vstd::prelude::*;

verus! {

/// A function call requested by the model.
#[derive(Debug, Clone)]
pub struct FunctionCall {
    /// Name of the function to call.
    pub name: String,
    /// Arguments of the call, as a JSON document.
    pub args: serde_json::Value,
}

/// The result of a function call, sent back to the model.
#[derive(Debug, Clone)]
pub struct FunctionResponse {
    /// Name of the function that was called.
    pub name: String,
    /// What the function returned, as a JSON document.
    pub response: serde_json::Value,
}

impl FunctionResponse {
    /// Creates a function response from a name and a JSON value.
    pub fn new(name: String, response: serde_json::Value) -> (res: Self)
        ensures
            res.name == name,
            res.response == response,
    {
        FunctionResponse { name, response }
    }
}

} // verus!
