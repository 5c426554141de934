//! The two interfaces of the relay and what a transmit on one of them
//! reports.

use vstd::prelude::*;

verus! {

/// One of the two interfaces that the relay bridges.
#[derive(Clone, Copy, Debug, PartialEq, Eq, Structural)]
pub enum Side {
    External,
    Internal,
}

impl Side {
    /// The interface on the other side of the relay.
    pub open spec fn spec_peer(self) -> Side {
        match self {
            Side::External => Side::Internal,
            Side::Internal => Side::External,
        }
    }

    /// The interface on the other side of the relay.
    pub fn peer(self) -> (r: Side)
        ensures
            r == self.spec_peer(),
            r != self,
    {
        match self {
            Side::External => Side::Internal,
            Side::Internal => Side::External,
        }
    }
}

/// Why a transmit did not go out.
#[derive(Clone, Debug, PartialEq, Eq)]
pub enum SendError {
    /// The interface refused or failed the transmit; the text describes it.
    Transmit(String),
    /// The capability wanted an explicit destination and none was given.
    NoDestination,
}

/// Maps what a link-layer transmit returned to the relay's own outcome:
/// no answer means no destination could be resolved, an error is a
/// transmit failure with its description.
pub fn send_outcome(sent: Option<Result<(), String>>) -> (r: Result<(), SendError>)
    ensures
        sent is None ==> r == Err::<(), SendError>(SendError::NoDestination),
        sent matches Some(Ok(())) ==> r is Ok,
        sent matches Some(Err(m)) ==> r matches Err(SendError::Transmit(t)) && t@ == m@,
{
    match sent {
        None => Err(SendError::NoDestination),
        Some(Ok(())) => Ok(()),
        Some(Err(m)) => Err(SendError::Transmit(m)),
    }
}

/// The position of the interface called `wanted` among the host's
/// interface names: the first that matches, or none.
pub fn find_interface(names: &Vec<String>, wanted: &String) -> (r: Option<usize>)
    ensures
        r matches Some(i) ==> i < names@.len() && names@[i as int]@ == wanted@
            && forall|j: int| 0 <= j < i ==> names@[j]@ != wanted@,
        r is None ==> forall|j: int| 0 <= j < names@.len() ==> names@[j]@ != wanted@,
{
    let mut i: usize = 0;
    while i < names.len()
        invariant
            i <= names@.len(),
            forall|j: int| 0 <= j < i ==> names@[j]@ != wanted@,
        decreases names@.len() - i,
    {
        if names[i] == *wanted {
            return Some(i);
        }
        i = i + 1;
    }
    None
}

} // verus!
