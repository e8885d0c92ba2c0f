use vstd::prelude::*;

verus! {

/// Why an operation or a connection attempt did not succeed.
#[derive(Clone, Copy, Debug, PartialEq, Eq, Structural)]
pub enum LinkError {
    /// No connection has been established yet.
    NotYetConnected,
    /// The host could not be resolved to any network endpoint.
    AddressResolution,
    /// The underlying connection failed (refused, reset, broken pipe, ...).
    Transport,
    /// The remote unit answered with a malformed or mismatched frame.
    Protocol,
    /// The remote unit answered with a well-formed exception response.
    Exception(u8),
}

#[verifier::external_type_specification]
#[verifier::external_body]
pub struct ExModbusError(tokio_modbus::Error);

#[verifier::external_type_specification]
#[verifier::external_body]
pub struct ExExceptionCode(tokio_modbus::ExceptionCode);

/// Whether a tokio-modbus error is of its `Protocol` variant.
pub uninterp spec fn protocol_variant(e: tokio_modbus::Error) -> bool;

/// The byte on the wire of a tokio-modbus exception code.
pub uninterp spec fn exception_code_byte(c: tokio_modbus::ExceptionCode) -> u8;

/// Relies on the variants of tokio-modbus's `Error`: true for `Protocol` (a
/// malformed or mismatched response), false for `Transport` (an I/O error).
#[verifier::external_body]
fn is_protocol_error(e: &tokio_modbus::Error) -> (r: bool)
    ensures
        r == protocol_variant(*e),
{
    match e {
        tokio_modbus::Error::Protocol(_) => true,
        tokio_modbus::Error::Transport(_) => false,
    }
}

/// Relies on tokio-modbus's `From<ExceptionCode> for u8`: the code's byte
/// on the wire.
#[verifier::external_body]
fn exception_byte(code: tokio_modbus::ExceptionCode) -> (r: u8)
    ensures
        r == exception_code_byte(code),
{
    u8::from(code)
}

/// Classifies the outcome of one protocol call: a response, an exception
/// response of the remote unit, or a failure of the protocol or transport.
pub fn classify<T>(outcome: tokio_modbus::Result<T>) -> (r: Result<T, LinkError>)
    ensures
        match outcome {
            Ok(Ok(v)) => r == Ok::<T, LinkError>(v),
            Ok(Err(c)) => r == Err::<T, LinkError>(LinkError::Exception(exception_code_byte(c))),
            Err(e) => r == Err::<T, LinkError>(
                if protocol_variant(e) { LinkError::Protocol } else { LinkError::Transport },
            ),
        },
{
    match outcome {
        Ok(Ok(v)) => Ok(v),
        Ok(Err(code)) => Err(LinkError::Exception(exception_byte(code))),
        Err(e) => {
            if is_protocol_error(&e) {
                Err(LinkError::Protocol)
            } else {
                Err(LinkError::Transport)
            }
        },
    }
}

} // verus!
