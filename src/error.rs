use vstd::prelude::*;

verus! {

/// The ways a provisioning or readiness flow can fail.
#[derive(Debug)]
pub enum ToolError {
    /// The provider answered, but reported a failure.
    Api(String),
    /// A call exceeded its fixed latency budget.
    Timeout(String),
    /// A response arrived but did not have the expected shape; carries the raw body.
    MetadataFormat(Vec<u8>),
    /// The retry budget for opening a control connection ran out.
    Connect(String),
    /// A required configuration input was missing or could not be parsed.
    Config(String),
}

impl ToolError {
    /// Human-readable description of the error.
    pub fn message(&self) -> (r: String)
        ensures
            self is Api ==> r@ == self->Api_0@,
            self is Timeout ==> r@ == self->Timeout_0@,
            self is MetadataFormat ==> r@ == "response did not match the expected format"@,
            self is Connect ==> r@ == self->Connect_0@,
            self is Config ==> r@ == self->Config_0@,
    {
        match self {
            ToolError::Api(m) => m.clone(),
            ToolError::Timeout(m) => m.clone(),
            ToolError::MetadataFormat(_) => String::from_str("response did not match the expected format"),
            ToolError::Connect(m) => m.clone(),
            ToolError::Config(m) => m.clone(),
        }
    }
}

} // verus!
