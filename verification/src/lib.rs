//! Batched, concurrent data fetching.
//!
//! A [`Fetch`] is a suspended computation that may ask for outside data.
//! Fetches are composed with [`Fetch::bind`], [`Fetch::fmap`], [`ap`], the
//! `lift` family, [`catch`] and the traversals; running one issues the
//! requests it reaches in parallel batches, as large as the composition
//! allows. What a fetch comes to when it is run is its [`Trace`]; what
//! reaches the function that runs the batches is on the record of the
//! [`Executor`] it is run on.
pub mod batch;
pub mod calls;
mod cell;
pub mod combinators;
pub mod executor;
pub mod fetch;
pub mod laws;
pub mod list;
pub mod parallel;
pub mod repeat;
pub mod request;
pub mod trace;
pub mod traverse;

pub use batch::AbsRequest;
pub use combinators::catch;
pub use combinators::catch_with;
pub use executor::Executor;
pub use fetch::throw;
pub use fetch::Fetch;
pub use fetch::ReqResult;
pub use list::List;
pub use parallel::ap;
pub use parallel::both;
pub use parallel::lift2;
pub use parallel::lift3;
pub use parallel::lift4;
pub use parallel::lift5;
pub use repeat::repeat_with;
pub use repeat::while_m;
pub use request::Impossible;
pub use request::Request;
pub use trace::Trace;
pub use traverse::cons_f;
pub use traverse::traverse_with;
pub use traverse::Sequence;
pub use traverse::Traversable;
