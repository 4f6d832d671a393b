//! The HTTP envelope of an archived response: where the preamble (status line
//! and headers) ends and the payload begins.

use vstd::prelude::*;

verus! {

/// `httparse::Error`, carried through as a value that nothing here looks into.
#[verifier::external_type_specification]
#[verifier::external_body]
pub struct ExHttparseError(httparse::Error);

/// What `httparse::Response::parse` makes of `bytes` when it has room for
/// `max_headers` headers: `Ok(Some(n))` for a complete preamble that ends at
/// offset `n`, `Ok(None)` for one that is cut short, `Err(())` for a malformed one.
pub uninterp spec fn response_preamble(bytes: Seq<u8>, max_headers: nat) -> Result<Option<nat>, ()>;

/// Calls `httparse::Response::parse` on `bytes` with a fresh table of
/// `max_headers` empty headers. The contract names the outcome and adds that the
/// offset of a complete preamble counts bytes that the parser consumed from
/// `bytes`, so it does not pass their end.
#[verifier::external_body]
fn parse_response_preamble(bytes: &[u8], max_headers: usize) -> (parsed: Result<
    Option<usize>,
    httparse::Error,
>)
    ensures
        preamble_view(parsed) == response_preamble(bytes@, max_headers as nat),
        parsed matches Ok(Some(offset)) ==> offset <= bytes@.len(),
{
    let mut headers = vec![httparse::EMPTY_HEADER; max_headers];
    match httparse::Response::new(&mut headers).parse(bytes) {
        Ok(httparse::Status::Complete(offset)) => Ok(Some(offset)),
        Ok(httparse::Status::Partial) => Ok(None),
        Err(error) => Err(error),
    }
}

/// Why a record body has no usable HTTP envelope.
#[derive(Clone, Copy, Debug, PartialEq, Eq, Structural)]
pub enum EnvelopeError {
    /// The preamble ends before its closing blank line.
    Incomplete,
    /// The preamble is not a well-formed status line and header block, or
    /// holds more headers than the budget allows.
    Malformed,
}

/// The number of headers a preamble may hold.
pub const HEADER_BUDGET: usize = 64;

/// The offset that a verdict of the parser stands for: that of a complete
/// preamble, and an error for any other.
pub open spec fn offset_of(preamble: Result<Option<nat>, ()>) -> Result<nat, EnvelopeError> {
    match preamble {
        Ok(Some(offset)) => Ok(offset),
        Ok(None) => Err(EnvelopeError::Incomplete),
        Err(_) => Err(EnvelopeError::Malformed),
    }
}

/// The offset at which the payload of `body` begins, as a function of the
/// parser's verdict on the preamble.
pub open spec fn envelope_of(body: Seq<u8>) -> Result<nat, EnvelopeError> {
    offset_of(response_preamble(body, HEADER_BUDGET as nat))
}

/// The mathematical value of a verdict of the parser.
pub open spec fn preamble_view(parsed: Result<Option<usize>, httparse::Error>) -> Result<
    Option<nat>,
    (),
> {
    match parsed {
        Ok(Some(offset)) => Ok(Some(offset as nat)),
        Ok(None) => Ok(None),
        Err(_) => Err(()),
    }
}

/// Reads the offset of the payload off a verdict of the parser.
pub fn payload_offset(parsed: Result<Option<usize>, httparse::Error>) -> (result: Result<
    usize,
    EnvelopeError,
>)
    ensures
        match result {
            Ok(offset) => offset_of(preamble_view(parsed)) == Ok::<nat, EnvelopeError>(
                offset as nat,
            ),
            Err(error) => offset_of(preamble_view(parsed)) == Err::<nat, EnvelopeError>(error),
        },
{
    match parsed {
        Ok(Some(offset)) => Ok(offset),
        Ok(None) => Err(EnvelopeError::Incomplete),
        Err(_) => Err(EnvelopeError::Malformed),
    }
}

/// Finds where the payload of an archived HTTP response begins.
pub fn parse_envelope(body: &[u8]) -> (result: Result<usize, EnvelopeError>)
    ensures
        match result {
            Ok(offset) => envelope_of(body@) == Ok::<nat, EnvelopeError>(offset as nat) && offset
                <= body@.len(),
            Err(error) => envelope_of(body@) == Err::<nat, EnvelopeError>(error),
        },
{
    payload_offset(parse_response_preamble(body, HEADER_BUDGET))
}

} // verus!
