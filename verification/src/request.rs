//! Requests: the user-supplied units of outside work.
use std::convert::Infallible;
use std::hash::Hash;
use vstd::prelude::*;

verus! {

/// The error type of a fetch that cannot fail. It has no value: its only
/// variant carries a value of the empty type.
pub enum Impossible {
    /// Never built: there is no value to put in it.
    Never(Infallible),
}

/// What a value of the empty type turns into. No execution ever holds such a
/// value, so no execution ever observes this one.
pub open spec fn vacuous<E>(never: Infallible) -> E {
    arbitrary()
}

/// Turns a value of the empty type into a value of any type.
///
/// Matches on a value of `std::convert::Infallible`. That type has no value,
/// so the match has no arm and the function is never entered; whatever is
/// said of its result holds of no execution.
#[verifier::external_body]
pub(crate) fn absurd<E>(never: Infallible) -> (e: E)
    ensures
        e == vacuous::<E>(never),
{
    match never {
    }
}

impl Impossible {
    /// What the error widens to under the error type `E`.
    pub open spec fn widened<E>(self) -> E {
        match self {
            Impossible::Never(never) => vacuous(never),
        }
    }

    /// The error under the error type `E`.
    pub fn widen<E>(self) -> (e: E)
        ensures
            e == self.widened::<E>(),
    {
        match self {
            Impossible::Never(never) => absurd(never),
        }
    }
}

/// A single-shot unit of outside work that produces a value or an error.
///
/// A request is a description of the data it asks for. It can be hashed and
/// compared so that equal requests can be recognised as the same question,
/// and it has one answer: `outcome` names the result that running it
/// produces, and `run` must return exactly that. Everything the library
/// proves of a fetch built from requests is stated over these outcomes, and
/// holds of requests that keep this promise.
pub trait Request<T, E = Impossible>: Hash + Clone + Eq {
    /// The result that running this request produces. A request that does
    /// not say what it produces has some result the library knows nothing
    /// more of.
    open spec fn outcome(&self) -> Result<T, E> {
        arbitrary()
    }

    /// Performs the work, consuming the request.
    fn run(self) -> (produced: Result<T, E>)
        ensures
            produced == self.outcome(),
    ;
}

} // verus!
