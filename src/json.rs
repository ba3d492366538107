use vstd::prelude::*;

verus! {

#[verifier::external_type_specification]
#[verifier::external_body]
pub struct ExJsonValue(serde_json::Value);

#[verifier::external_type_specification]
#[verifier::external_body]
pub struct ExJsonError(serde_json::Error);

/// What serde_json makes of a byte string read as JSON text: the value tree
/// it describes, or the error that the parser reports on it.
pub uninterp spec fn json_parse(b: Seq<u8>) -> Result<serde_json::Value, serde_json::Error>;

/// Relies on serde_json::from_slice, decoding into serde_json::Value: its
/// outcome depends on the bytes alone.
#[verifier::external_body]
pub(crate) fn parse_json(b: &[u8]) -> (r: Result<serde_json::Value, serde_json::Error>)
    ensures
        r == json_parse(b@),
{
    serde_json::from_slice(b)
}

/// Why a body could not be decoded: it is not JSON text, or not of the
/// shape that was asked for.
#[derive(Debug)]
pub struct DecodeError {
    /// The parser's own account of the failure, with its line and column.
    pub cause: serde_json::Error,
}

impl DecodeError {
    /// A human-readable description of the failure: the text that the
    /// parser's error writes through `Display`.
    pub fn message(&self) -> (r: String)
        ensures
            vstd::string::to_string_from_display_ensures::<serde_json::Error>(&self.cause, r),
    {
        self.cause.to_string()
    }
}

/// The outcome of decoding the bytes `b` as JSON.
pub open spec fn decoded(b: Seq<u8>) -> Result<serde_json::Value, DecodeError> {
    match json_parse(b) {
        Ok(v) => Ok(v),
        Err(e) => Err(DecodeError { cause: e }),
    }
}

/// Decoding is repeatable: the same bytes, decoded twice, give the same
/// outcome both times, the same value or the same error.
pub proof fn decoding_repeatable(first: Seq<u8>, second: Seq<u8>)
    requires
        first == second,
    ensures
        decoded(first) == decoded(second),
{
}

} // verus!
