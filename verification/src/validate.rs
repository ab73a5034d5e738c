//! Validation of identifiers supplied with host commands.

use vstd::prelude::*;

verus! {

/// Check the conversation-partner identifier attached to a host command:
/// it must not be empty.
pub fn validate_connected_person(connected: &str) -> (r: Result<(), String>)
    ensures
        match r {
            Ok(_) => connected@.len() != 0,
            Err(m) => connected@.len() == 0 && m@ == "Connected person cannot be empty"@,
        },
{
    if connected.is_empty() {
        Err("Connected person cannot be empty".to_owned())
    } else {
        Ok(())
    }
}

} // verus!
