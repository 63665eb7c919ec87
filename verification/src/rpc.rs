//! The transport-facing side of the diagnostic query endpoint: the wire
//! form of a numeric value, the conversions in and out of it, the error
//! codes the transport reports, and the endpoint itself.
//!
//! The endpoint has no ledger interaction: it decodes its argument,
//! passes it through the runtime's echo query, and encodes the answer.

use crate::escrow::Pallet;
use vstd::prelude::*;

verus! {

/// A numeric value as it crosses the query transport: either a plain
/// 64-bit number or a hexadecimal big integer of up to 256 bits, held
/// here as two 128-bit halves.
#[derive(Clone, Copy, PartialEq, Eq, Structural, Debug)]
pub enum NumberOrHex {
    Number(u64),
    Hex { high: u128, low: u128 },
}

/// The numeric code the transport assigns to ill-formed parameters.
pub const INVALID_PARAMS_CODE: i64 = -32602;

/// The code a transport-level error carries: the standard code for
/// ill-formed parameters, or a server-defined code.
#[derive(Clone, Copy, PartialEq, Eq, Structural, Debug)]
pub enum ErrorCode {
    InvalidParams,
    ServerError(i64),
}

impl ErrorCode {
    /// The numeric form of this code on the wire.
    pub open spec fn spec_code(self) -> i64 {
        match self {
            ErrorCode::InvalidParams => INVALID_PARAMS_CODE,
            ErrorCode::ServerError(code) => code,
        }
    }

    /// The numeric form of this code on the wire.
    pub fn code(&self) -> (c: i64)
        ensures
            c == self.spec_code(),
    {
        match self {
            ErrorCode::InvalidParams => INVALID_PARAMS_CODE,
            ErrorCode::ServerError(code) => *code,
        }
    }
}

/// An error as the transport reports it to the remote caller.
#[derive(Clone, Copy, PartialEq, Eq, Structural, Debug)]
pub struct RpcError {
    pub code: ErrorCode,
}

/// What can go wrong behind the query endpoint, each kind with its own
/// server error code.
#[derive(Clone, Copy, PartialEq, Eq, Structural, Debug)]
pub enum Error {
    RuntimeError,
    TemplateApiError,
    InvalidParams,
}

impl From<Error> for i64 {
    fn from(e: Error) -> (code: i64) {
        match e {
            Error::RuntimeError => 1,
            Error::TemplateApiError => 2,
            Error::InvalidParams => 3,
        }
    }
}

impl vstd::std_specs::convert::FromSpecImpl<Error> for i64 {
    open spec fn obeys_from_spec() -> bool {
        true
    }

    open spec fn from_spec(e: Error) -> i64 {
        match e {
            Error::RuntimeError => 1,
            Error::TemplateApiError => 2,
            Error::InvalidParams => 3,
        }
    }
}

/// What decoding a wire number yields: the value itself when it fits a
/// 128-bit balance, and a rejection with the ill-formed-parameters code
/// when the hexadecimal form carries anything in its upper half.
pub open spec fn spec_decode_hex(from: NumberOrHex) -> Result<u128, RpcError> {
    match from {
        NumberOrHex::Number(n) => Ok(n as u128),
        NumberOrHex::Hex { high, low } => if high == 0 {
            Ok(low)
        } else {
            Err(RpcError { code: ErrorCode::InvalidParams })
        },
    }
}

/// The wire form of a balance: every 128-bit value fits, as the
/// hexadecimal form with an empty upper half.
pub open spec fn spec_encode_balance(value: u128) -> NumberOrHex {
    NumberOrHex::Hex { high: 0, low: value }
}

/// Converts a wire number into the balance type the runtime works with;
/// a value that does not fit is rejected with `InvalidParams`.
pub fn decode_hex(from: NumberOrHex) -> (r: Result<u128, RpcError>)
    ensures
        r == spec_decode_hex(from),
{
    match from {
        NumberOrHex::Number(n) => Ok(n as u128),
        NumberOrHex::Hex { high, low } => {
            if high == 0 {
                Ok(low)
            } else {
                Err(RpcError { code: ErrorCode::InvalidParams })
            }
        },
    }
}

/// Converts a balance back into its wire form; this direction never
/// fails.
pub fn try_into_rpc_balance(value: u128) -> (r: Result<NumberOrHex, RpcError>)
    ensures
        r == Ok::<NumberOrHex, RpcError>(spec_encode_balance(value)),
{
    Ok(NumberOrHex::Hex { high: 0, low: value })
}

/// The transport error for a runtime that trapped while serving a query.
pub fn runtime_error_into_rpc_error() -> (r: RpcError)
    ensures
        r.code == ErrorCode::ServerError(1),
{
    RpcError { code: ErrorCode::ServerError(i64::from(Error::RuntimeError)) }
}

/// The transport error for a query the runtime answered with a failure.
pub fn test_rpc_error() -> (r: RpcError)
    ensures
        r.code == ErrorCode::ServerError(2),
{
    RpcError { code: ErrorCode::ServerError(i64::from(Error::TemplateApiError)) }
}

/// The query interface the transport serves.
pub trait TemplateApi {
    /// Serves the echo query: decodes the wire number, passes it through
    /// the runtime, and encodes the answer. A value that does not fit the
    /// runtime's balance type is rejected with `InvalidParams`; the
    /// numeric value itself comes back unchanged.
    fn test_rpc(&self, amount: NumberOrHex) -> (r: Result<NumberOrHex, RpcError>)
        ensures
            spec_decode_hex(amount) is Ok ==> r == Ok::<NumberOrHex, RpcError>(
                spec_encode_balance(spec_decode_hex(amount)->Ok_0),
            ),
            spec_decode_hex(amount) is Err ==> r == Err::<NumberOrHex, RpcError>(
                spec_decode_hex(amount)->Err_0,
            ),
    ;
}

/// The query endpoint as the transport sees it.
pub struct Api {}

impl Api {
    /// Creates the endpoint.
    pub fn new() -> (api: Api) {
        Api {}
    }
}

impl TemplateApi for Api {
    fn test_rpc(&self, amount: NumberOrHex) -> (r: Result<NumberOrHex, RpcError>) {
        let value = match decode_hex(amount) {
            Ok(value) => value,
            Err(e) => {
                return Err(e);
            },
        };
        let res = match Pallet::test_rpc(value) {
            Ok(res) => res,
            Err(_) => {
                return Err(test_rpc_error());
            },
        };
        try_into_rpc_balance(res)
    }
}

} // verus!
