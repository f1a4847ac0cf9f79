//! The record of one inventory adjustment.
use vstd::prelude::*;

use crate::error::AppError;

verus! {

/// One inventory adjustment recorded on a device. Once queued it is never
/// changed, only added or removed as a whole.
#[derive(Debug)]
pub struct Commit {
    pub device_id: String,
    pub location: String,
    pub delta: i32,
    pub item_id: i16,
}

impl Commit {
    /// A commit is accepted only with a device to attribute it to.
    pub open spec fn is_valid(&self) -> bool {
        self.device_id@.len() > 0
    }

    /// Checks a commit at the boundary, before it is queued or sent: an empty
    /// `device_id` is a validation error.
    pub fn validate(&self) -> (r: Result<(), AppError>)
        ensures
            r is Ok <==> self.is_valid(),
            r is Err ==> (r matches Err(AppError::Validation(m)) && m@ == empty_device_message()),
    {
        if self.device_id.as_str().is_empty() {
            proof {
                reveal_strlit("device_id was empty");
            }
            Err(AppError::Validation(String::from_str("device_id was empty")))
        } else {
            Ok(())
        }
    }

    /// A field-by-field copy.
    pub fn duplicate(&self) -> (r: Commit)
        ensures
            r == *self,
    {
        Commit {
            device_id: self.device_id.clone(),
            location: self.location.clone(),
            delta: self.delta,
            item_id: self.item_id,
        }
    }
}

impl Clone for Commit {
    fn clone(&self) -> (r: Commit)
        ensures
            r == *self,
    {
        self.duplicate()
    }
}

/// The message of the validation error for a commit without a device.
pub open spec fn empty_device_message() -> Seq<char> {
    seq!['d', 'e', 'v', 'i', 'c', 'e', '_', 'i', 'd', ' ', 'w', 'a', 's', ' ', 'e', 'm', 'p', 't', 'y']
}

impl PartialEq for Commit {
    fn eq(&self, other: &Commit) -> (r: bool) {
        self.device_id == other.device_id && self.location == other.location && self.delta
            == other.delta && self.item_id == other.item_id
    }
}

impl vstd::std_specs::cmp::PartialEqSpecImpl for Commit {
    open spec fn obeys_eq_spec() -> bool {
        true
    }

    open spec fn eq_spec(&self, other: &Commit) -> bool {
        &&& self.device_id@ == other.device_id@
        &&& self.location@ == other.location@
        &&& self.delta == other.delta
        &&& self.item_id == other.item_id
    }
}

} // verus!
