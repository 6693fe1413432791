//! Interpretation of the remote switch action's outcome.
//!
//! The switch itself is one remote call made by the caller; a failed switch
//! is reported once, verbatim, and never silently retried — repeated switch
//! attempts are user-visible and rate-limited.

use vstd::prelude::*;

use crate::errors::SwitchError;

verus! {

/// The server's confirmation of a switch: the id that is current now.
#[derive(Debug, PartialEq, Eq)]
pub struct SwitchConfirmation {
    pub current_id: String,
}

/// Map the remote's raw outcome to the switch result: a success carries the
/// confirmed current id, a non-success response is wrapped verbatim.
pub fn interpret_switch_response(outcome: Result<String, String>) -> (r: Result<
    SwitchConfirmation,
    SwitchError,
>)
    ensures
        outcome matches Ok(cur) ==> r matches Ok(conf) && conf.current_id == cur,
        outcome matches Err(detail) ==> r == Err::<SwitchConfirmation, SwitchError>(
            SwitchError::Remote(detail),
        ),
{
    match outcome {
        Ok(cur) => Ok(SwitchConfirmation { current_id: cur }),
        Err(detail) => Err(SwitchError::Remote(detail)),
    }
}

} // verus!
