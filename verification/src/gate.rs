use vstd::prelude::*;

use crate::errors::Error;

verus! {

/// What the external policy authority answered when asked whether a caller
/// may perform the privileged action.
#[derive(Clone, Copy, Debug, PartialEq, Eq, Structural)]
pub enum AuthorityOutcome {
    /// The authority decided the caller is authorized.
    Allowed,
    /// The authority decided the caller is not authorized.
    Denied,
    /// The authority could not answer: the request's subject could not be
    /// built from the sender metadata, or the transport failed.
    Fault,
}

/// The fixed action identifier presented to the policy authority with every
/// creation request.
pub fn action_id() -> (s: String)
    ensures
        s@ == "org.freedesktop.policykit.exec"@,
{
    "org.freedesktop.policykit.exec".to_owned()
}

/// The authorization gate's decision: binary by contract.
///
/// Only an explicit `Allowed` from the authority passes; a denial and every
/// transport-level fault alike map to `AccessDenied`, never to a distinct
/// fault. The decision is not cached; every creation request is gated anew.
pub fn gate_decision(outcome: AuthorityOutcome) -> (r: Result<(), Error>)
    ensures
        r is Ok <==> outcome == AuthorityOutcome::Allowed,
        r is Err ==> r->Err_0 == Error::AccessDenied,
{
    match outcome {
        AuthorityOutcome::Allowed => Ok(()),
        AuthorityOutcome::Denied => Err(Error::AccessDenied),
        AuthorityOutcome::Fault => Err(Error::AccessDenied),
    }
}

} // verus!
