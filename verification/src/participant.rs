//! The domain participant entity.
//!
//! The native middleware creates a participant from a domain identifier and
//! an optional policy block, and answers with a single signed integer that
//! is either the new entity handle or a failure code. The logic here maps
//! the caller's domain choice to the native identifier and classifies that
//! answer; the native call itself stays outside the library.

use crate::error::{is_failure_code, retcode_to_result, Error};
use vstd::prelude::*;

verus! {

/// The native identifier of the default domain (all bits set).
pub const DOMAIN_DEFAULT: u32 = 0xffff_ffff;

/// An owned handle to a native domain participant. Exactly one owner holds
/// a given handle; releasing it back to the middleware is the owner's job.
#[derive(Debug)]
pub struct Participant {
    entity: i32,
}

impl Participant {
    /// The native entity handle this participant owns.
    pub closed spec fn spec_entity(&self) -> i32 {
        self.entity
    }

    /// Returns the native entity handle this participant owns.
    pub fn entity(&self) -> (e: i32)
        ensures
            e == self.spec_entity(),
    {
        self.entity
    }

    /// The native domain identifier for a domain choice: a given domain
    /// keeps its number, and no choice means the default-domain sentinel.
    pub fn domain_to_raw(domain: Option<usize>) -> (r: u32)
        ensures
            (match domain {
                Some(d) => r == d as u32,
                None => r == DOMAIN_DEFAULT,
            }),
    {
        match domain {
            Some(d) => #[verifier::truncate] (d as u32),
            None => DOMAIN_DEFAULT,
        }
    }

    /// Classifies the answer of the native participant creation call: a
    /// failure code becomes the typed error and leaves no owned resource
    /// behind; any other value is the handle of the new participant.
    pub fn from_retcode(retcode: i32) -> (r: Result<Participant, Error>)
        ensures
            r is Ok <==> !is_failure_code(retcode),
            (match r {
                Ok(p) => p.spec_entity() == retcode,
                Err(e) => e.spec_code() == retcode,
            }),
    {
        match retcode_to_result(retcode) {
            Ok(entity) => Ok(Participant { entity }),
            Err(e) => Err(e),
        }
    }
}

} // verus!
