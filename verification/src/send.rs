use vstd::prelude::*;

verus! {

/// What the transport layer reports back from one webhook POST: either
/// the response body it managed to read, or a description of the failure
/// that ended the exchange first.
pub enum SendOutcome {
    /// The POST went through and the response body was read.
    Response(String),
    /// The request failed before a response body could be read.
    TransportFailure(String),
}

/// A failed webhook send, carrying a description of the underlying cause.
#[derive(Debug)]
pub enum TransportError {
    /// The HTTP exchange itself failed: connection, TLS, or reading the
    /// response.
    Request(String),
    /// The exchange succeeded but the response body did not parse as
    /// JSON; the offending body is carried along.
    ResponseParse(String),
}

/// Whether serde_json accepts a string as one JSON document.
pub uninterp spec fn json_accepted(s: Seq<char>) -> bool;

/// Relies on `serde_json::from_str` with `serde_json::Value` as target:
/// whether a string parses as a JSON value depends on the string alone.
#[verifier::external_body]
fn is_accepted_json(s: &str) -> (r: bool)
    ensures
        r == json_accepted(s@),
{
    serde_json::from_str::<serde_json::Value>(s).is_ok()
}

/// Decides the result of one send from what the transport reported: a
/// transport failure, or a response body that does not parse as JSON, is
/// an error carrying its cause; only a response body that parses as JSON
/// is a success.
pub fn complete_send(outcome: SendOutcome) -> (r: Result<(), TransportError>)
    ensures
        outcome matches SendOutcome::TransportFailure(m) ==> r == Err::<(), TransportError>(
            TransportError::Request(m),
        ),
        outcome matches SendOutcome::Response(b) ==> (r is Ok <==> json_accepted(b@)),
        outcome matches SendOutcome::Response(b) ==> (json_accepted(b@) || r == Err::<
            (),
            TransportError,
        >(TransportError::ResponseParse(b))),
{
    match outcome {
        SendOutcome::TransportFailure(m) => Err(TransportError::Request(m)),
        SendOutcome::Response(b) => {
            if is_accepted_json(b.as_str()) {
                Ok(())
            } else {
                Err(TransportError::ResponseParse(b))
            }
        },
    }
}

} // verus!
