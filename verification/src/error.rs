//! Errors raised while setting a capture up. Failures of the transport
//! itself stay with the unverified connection layer; violations of the
//! per-frame event protocol are reported by the capture state machine as
//! part of its step outcome.

use vstd::prelude::*;

verus! {

/// A setup failure: either the server never advertised the capability the
/// client needs, or it advertised one at a version the client cannot speak.
#[derive(Debug)]
pub enum CaptureError {
    /// No advertisement carried the required interface, so the server does
    /// not support it at all. Carries the interface that was asked for, so a
    /// missing capture capability can be told apart from a missing output.
    CapabilityMissing { interface: String },
    /// The advertisement's version exceeds what this client supports for
    /// that interface.
    BindRejected { interface: String, advertised: u32, supported: u32 },
}

} // verus!
