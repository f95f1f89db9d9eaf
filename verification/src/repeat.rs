//! Repetition: a fetch that runs round after round until one of them says
//! to stop.
//!
//! Each round is a fetch of its own, made from the state that the round
//! before it left, and is run to its end before the next is made: no request
//! of one round is ever batched with a request of another.
use vstd::prelude::*;

use crate::calls::result_of;
use crate::calls::result_of0;
use crate::combinators::continues;
use crate::combinators::Transform;
use crate::fetch::Fetch;
use crate::fetch::ReqResult;
use crate::fetch::Suspended;
use crate::trace::Trace;

verus! {

/// The rounds of a loop: a function from the state of the loop to the fetch
/// that is its next round. A round yields the state for the round after it,
/// or `None` to end the loop.
pub trait Round<S, E>: Sized {
    /// A round can be made of `state`.
    spec fn accepts(&self, state: S) -> bool;

    /// The trace of the round made of `state`.
    spec fn round(&self, state: S) -> Trace<Option<S>, E>;

    /// Makes the round that starts in `state`. All that a loop carries from
    /// round to round is its state: making a round leaves `self` as it was.
    fn start(&mut self, state: S) -> (n: Fetch<Option<S>, E>)
        requires
            old(self).accepts(state),
        ensures
            n.wf(),
            n@ == old(self).round(state),
            *final(self) == *old(self),
    ;
}

/// The loop that starts in `state` ends after at most `rounds` further
/// rounds, and every round it reaches can be made.
pub open spec fn stops_within<S, E, M: Round<S, E>>(maker: M, state: S, rounds: nat) -> bool
    decreases rounds,
{
    &&& maker.accepts(state)
    &&& maker.round(state).outcome matches Ok(Some(next)) ==> rounds > 0 && stops_within(
        maker,
        next,
        (rounds - 1) as nat,
    )
}

/// The trace of a round followed by whatever `rest` gives for the state the
/// round yields, if it yields one.
pub open spec fn followed<S, E>(round: Trace<Option<S>, E>, rest: Trace<(), E>) -> Trace<(), E> {
    match round.outcome {
        Ok(Some(_)) => Trace { batches: round.batches + rest.batches, outcome: rest.outcome },
        Ok(None) => Trace { batches: round.batches, outcome: Ok(()) },
        Err(e) => Trace { batches: round.batches, outcome: Err(e) },
    }
}

/// The trace of the loop that starts in `state`, followed for `rounds`
/// rounds after the first.
pub open spec fn repeated<S, E, M: Round<S, E>>(maker: M, state: S, rounds: nat) -> Trace<(), E>
    decreases rounds,
{
    let round = maker.round(state);
    if rounds > 0 && round.outcome is Ok && round.outcome->Ok_0 is Some {
        followed(round, repeated(maker, round.outcome->Ok_0->0, (rounds - 1) as nat))
    } else {
        followed(round, Trace::pure(()))
    }
}

/// A loop that ends within `a` rounds has one trace: following it for more
/// rounds than it takes adds nothing.
pub proof fn lemma_repeated_settles<S, E, M: Round<S, E>>(maker: M, state: S, a: nat, b: nat)
    requires
        stops_within(maker, state, a),
        stops_within(maker, state, b),
    ensures
        repeated(maker, state, a) == repeated(maker, state, b),
    decreases a,
{
    if let Ok(Some(next)) = maker.round(state).outcome {
        lemma_repeated_settles(maker, next, (a - 1) as nat, (b - 1) as nat);
    }
}

/// A round and what follows it are in sequence: what follows is bound to the
/// state that the round yields, so none of its batches is merged with a
/// batch of the round.
pub proof fn followed_is_bind<S, E>(round: Trace<Option<S>, E>, rest: Trace<(), E>)
    ensures
        followed(round, rest) == round.bind(
            |state: Option<S>|
                if state is Some {
                    rest
                } else {
                    Trace::pure(())
                },
        ),
{
}

/// A loop: its rounds, the state that the next round starts in or the round
/// that is being run, and how many rounds are left at most.
#[verifier::reject_recursive_types(S)]
#[verifier::reject_recursive_types(E)]
struct Repeat<S, E, M> {
    maker: M,
    state: Option<S>,
    running: Option<Fetch<Option<S>, E>>,
    left: Ghost<nat>,
}

impl<S: 'static, E: 'static, M: Round<S, E>> Repeat<S, E, M> {
    /// The trace of what follows the round that is being run.
    closed spec fn upcoming(&self, round: Trace<Option<S>, E>) -> Trace<(), E> {
        match round.outcome {
            Ok(Some(next)) => repeated(self.maker, next, (self.left@ - 1) as nat),
            _ => Trace::pure(()),
        }
    }
}

impl<S: 'static, E: 'static, M: Round<S, E>> Suspended<(), E> for Repeat<S, E, M> {
    closed spec fn wf(&self) -> bool {
        match self.running {
            Some(n) => {
                &&& n.wf()
                &&& n@.outcome matches Ok(Some(next)) ==> self.left@ > 0 && stops_within(
                    self.maker,
                    next,
                    (self.left@ - 1) as nat,
                )
            },
            None => self.state is Some && stops_within(self.maker, self.state->0, self.left@),
        }
    }

    closed spec fn view(&self) -> Trace<(), E> {
        match self.running {
            Some(n) => followed(n@, self.upcoming(n@)),
            None => repeated(self.maker, self.state->0, self.left@),
        }
    }

    fn step(&mut self) -> (r: ReqResult<(), E>) {
        loop
            invariant
                self.wf(),
                self@ == old(self)@,
            decreases self.left@,
        {
            let mut round = match self.running.take() {
                Some(n) => n,
                None => {
                    let state = self.state.take().unwrap();
                    self.maker.start(state)
                },
            };
            match round.get() {
                ReqResult::Done(Some(next)) => {
                    self.state = Some(next);
                    self.left = Ghost((self.left@ - 1) as nat);
                },
                ReqResult::Done(None) => {
                    return ReqResult::Done(());
                },
                ReqResult::Blocked(reqs) => {
                    self.running = Some(round);
                    return ReqResult::Blocked(reqs);
                },
                ReqResult::Throw(e) => {
                    return ReqResult::Throw(e);
                },
            }
        }
    }
}

/// Runs round after round, each made by `maker` from the state that the
/// round before it yielded and the first from `state`, until a round yields
/// no state or throws.
pub fn repeat_with<S: 'static, E: 'static, M: Round<S, E> + 'static>(state: S, maker: M) -> (r:
    Fetch<(), E>)
    ensures
        r.wf() <==> exists|rounds: nat| stops_within(maker, state, rounds),
        forall|rounds: nat| stops_within(maker, state, rounds) ==> r@ == repeated(maker, state, rounds),
{
    let ghost left = choose|rounds: nat| stops_within(maker, state, rounds);
    proof {
        assert forall|rounds: nat| stops_within(maker, state, rounds) implies repeated(
            maker,
            state,
            left,
        ) == repeated(maker, state, rounds) by {
            lemma_repeated_settles(maker, state, left, rounds);
        }
    }
    Fetch(Box::new(Repeat { maker, state: Some(state), running: None, left: Ghost(left) }))
}

/// `f` may be called, every fetch it can return is well formed, and all of
/// them have the same trace.
pub open spec fn restarts<B, E, F: FnOnce() -> Fetch<B, E>>(f: F) -> bool {
    &&& call_requires(f, ())
    &&& forall|n: Fetch<B, E>| #[trigger] call_ensures(f, (), n) ==> n.wf() && n@ == result_of0(f)@
}

/// Turns the answer of a condition into the state of a loop without state.
pub struct Again;

impl Transform<bool, Option<()>> for Again {
    open spec fn accepts(&self, again: bool) -> bool {
        true
    }

    open spec fn image(&self, again: bool) -> Option<()> {
        if again {
            Some(())
        } else {
            None
        }
    }

    fn apply(self, again: bool) -> (state: Option<()>) {
        if again {
            Some(())
        } else {
            None
        }
    }
}

/// The rounds that call `F`. The fetch that is a round is whatever the call
/// returns, named by [`result_of0`]; the loop goes on while it yields
/// `true`.
pub struct CallAgain<F>(pub F);

impl<E: 'static, F: FnMut() -> Fetch<bool, E>> Round<(), E> for CallAgain<F> {
    open spec fn accepts(&self, state: ()) -> bool {
        restarts(self.0)
    }

    open spec fn round(&self, state: ()) -> Trace<Option<()>, E> {
        result_of0(self.0)@.fmap(|again: bool| Again.image(again))
    }

    fn start(&mut self, state: ()) -> (n: Fetch<Option<()>, E>) {
        (self.0)().fmap_with(Again)
    }
}

/// The rounds that call `F` on the state. The fetch that is a round is
/// whatever the call returns, named by [`result_of`].
pub struct CallFrom<F>(pub F);

impl<S, E: 'static, F: FnMut(S) -> Fetch<Option<S>, E>> Round<S, E> for CallFrom<F> {
    open spec fn accepts(&self, state: S) -> bool {
        continues(self.0, state)
    }

    open spec fn round(&self, state: S) -> Trace<Option<S>, E> {
        result_of(self.0, state)@
    }

    fn start(&mut self, state: S) -> (n: Fetch<Option<S>, E>) {
        (self.0)(state)
    }
}

/// A loop over a function: [`repeat_with`] on the rounds that call `f`.
/// Runs the fetch that `f` returns; if it yields `true`, calls `f` again
/// and runs the fetch it returns then, and so on until one yields `false` or
/// throws.
///
/// A function has one trace for all its calls here, so a round that yields
/// `true` would do so forever: the loop has a trace only if its round does
/// not yield `true`, and then it is the trace of that one round. A loop that
/// is to take several rounds carries a state: see [`repeat_with`].
pub fn while_m<T: 'static, F: FnMut() -> Fetch<bool, T> + 'static>(f: F) -> (r: Fetch<(), T>)
    ensures
        r.wf() <==> restarts(f) && result_of0(f)@.outcome != Ok::<bool, T>(true),
        r.wf() ==> r@ == result_of0(f)@.fmap(|again: bool| ()),
{
    let maker = CallAgain(f);
    proof {
        lemma_stateless_loop(maker);
        assert(restarts(f) && result_of0(f)@.outcome != Ok::<bool, T>(true) ==> stops_within(
            maker,
            (),
            0,
        ));
    }
    repeat_with((), maker)
}

/// A loop without state either ends with its first round or never.
proof fn lemma_stateless_loop<E, M: Round<(), E>>(maker: M)
    ensures
        forall|rounds: nat|
            stops_within(maker, (), rounds) <==> maker.accepts(()) && !(maker.round(
                (),
            ).outcome matches Ok(Some(_))),
{
    assert forall|rounds: nat|
        stops_within(maker, (), rounds) <==> maker.accepts(()) && !(maker.round(
            (),
        ).outcome matches Ok(Some(_))) by {
        if maker.round(()).outcome matches Ok(Some(_)) {
            lemma_stateless_loop_goes_on(maker, rounds);
        }
    }
}

/// A loop without state whose round yields a state does not end.
proof fn lemma_stateless_loop_goes_on<E, M: Round<(), E>>(maker: M, rounds: nat)
    requires
        maker.round(()).outcome matches Ok(Some(_)),
    ensures
        !stops_within(maker, (), rounds),
    decreases rounds,
{
    if rounds > 0 {
        lemma_stateless_loop_goes_on(maker, (rounds - 1) as nat);
    }
}

} // verus!
