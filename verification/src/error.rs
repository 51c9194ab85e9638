//! The errors of the Matter transports.

use vstd::prelude::*;

verus! {

/// The Matter error codes that the transports report on their own account.
#[derive(Debug, Clone, Copy, PartialEq, Eq, Structural)]
pub enum ErrorCode {
    /// A fixed-size buffer cannot take all of the data.
    NoSpace,
    /// The network interface is not there, or it failed.
    NoNetworkInterface,
    /// A value or a number of items is out of bounds.
    ConstraintError,
    /// The data is not of the kind that the operation takes.
    InvalidData,
}

/// Maps a failed ESP-IDF call, given by its `esp_err_t` code, to a Matter error.
pub fn to_matter_err(code: i32) -> (err: ErrorCode)
    ensures
        err == ErrorCode::NoNetworkInterface,
{
    ErrorCode::NoNetworkInterface
}

/// Maps a failed NimBLE call, given by its host code, to a Matter error.
pub fn to_matter_err_ble(code: i32) -> (err: ErrorCode)
    ensures
        err == ErrorCode::NoNetworkInterface,
{
    ErrorCode::NoNetworkInterface
}

/// The error of an operation on the network interface.
#[derive(Debug, Clone, Copy, PartialEq, Eq, Structural)]
pub enum NetError {
    /// An ESP-IDF call failed with this `esp_err_t` code.
    Net(i32),
    /// The operation was refused on the library's own account.
    Code(ErrorCode),
}

/// The error of an operation of the network controller.
#[derive(Debug, Clone, Copy, PartialEq, Eq, Structural)]
pub enum NetCtlError {
    /// The device could not join the network with the credentials that it was given.
    AuthFailure,
    /// Anything else.
    Other(NetError),
}

/// Maps a failed ESP-IDF call, given by its `esp_err_t` code, to an error of the network
/// controller.
pub fn to_net_ctl_error(code: i32) -> (err: NetCtlError)
    ensures
        err == NetCtlError::Other(NetError::Net(code)),
{
    NetCtlError::Other(NetError::Net(code))
}

/// Maps the refusal of an Operational Dataset, given by its `esp_err_t` code, to an error of the
/// network controller.
pub fn to_net_constr_error(code: i32) -> (err: NetCtlError)
    ensures
        err == NetCtlError::Other(NetError::Code(ErrorCode::ConstraintError)),
{
    NetCtlError::Other(NetError::Code(ErrorCode::ConstraintError))
}

} // verus!
