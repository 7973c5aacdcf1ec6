//! The topic entity.
//!
//! A topic is created inside the scope of a participant, from a type
//! descriptor and a name, and the native middleware again answers with a
//! handle-or-failure-code integer. The classification of that answer lives
//! here; the native call, and the transient buffer the name travels in,
//! stay outside the library (the buffer is built by
//! [`crate::marshal::marshal_name`]).

use crate::error::{is_failure_code, retcode_to_result, Error};
use vstd::prelude::*;

verus! {

/// An owned handle to a native topic. The participant that scoped the
/// topic must outlive it; that ordering is the creating application's to
/// keep, since the native layer does not share ownership upward.
#[derive(Debug)]
pub struct Topic {
    entity: i32,
}

impl Topic {
    /// The native entity handle this topic owns.
    pub closed spec fn spec_entity(&self) -> i32 {
        self.entity
    }

    /// Returns the native entity handle this topic owns.
    pub fn entity(&self) -> (e: i32)
        ensures
            e == self.spec_entity(),
    {
        self.entity
    }

    /// Classifies the answer of the native topic creation call: a failure
    /// code becomes the typed error and leaves no owned resource behind;
    /// any other value is the handle of the new topic.
    pub fn from_retcode(retcode: i32) -> (r: Result<Topic, Error>)
        ensures
            r is Ok <==> !is_failure_code(retcode),
            (match r {
                Ok(t) => t.spec_entity() == retcode,
                Err(e) => e.spec_code() == retcode,
            }),
    {
        match retcode_to_result(retcode) {
            Ok(entity) => Ok(Topic { entity }),
            Err(e) => Err(e),
        }
    }
}

} // verus!
