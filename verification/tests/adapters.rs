use batched_fetch::both;
use batched_fetch::catch_with;
use batched_fetch::combinators::Call1;
use batched_fetch::combinators::CallOnce;
use batched_fetch::parallel::Apply;
use batched_fetch::parallel::Call2;
use batched_fetch::parallel::Pairing;
use batched_fetch::repeat::CallFrom;
use batched_fetch::repeat_with;
use batched_fetch::throw;
use batched_fetch::traverse::CallEach;
use batched_fetch::traverse::Itself;
use batched_fetch::traverse_with;
use batched_fetch::Fetch;
use batched_fetch::Request;

/// A request that produces the result it holds.
#[derive(Hash, PartialEq, Eq, Clone, Debug)]
struct Holds {
    result: Result<i32, String>,
}

impl Request<i32, String> for Holds {
    fn run(self) -> Result<i32, String> {
        self.result
    }
}

fn ask(value: i32) -> Fetch<i32, String> {
    Fetch::new(Holds { result: Ok(value) })
}

#[test]
fn both_pairs_the_values_of_two_requests() {
    assert_eq!(both(ask(1), ask(2), Pairing).run_logged(), (Ok((1, 2)), vec![2]));
}

#[test]
fn both_calls_a_function_of_two_arguments() {
    let fetch = both(ask(6), ask(7), Call2(|a: i32, b: i32| a * b));
    assert_eq!(fetch.run_logged(), (Ok(42), vec![2]));
}

#[test]
fn both_applies_a_function_to_an_argument() {
    let f: Fetch<_, String> = Fetch::pure(|x: i32| x - 1);
    assert_eq!(both(f, ask(7), Apply).run_logged(), (Ok(6), vec![1]));
}

#[test]
fn fmap_with_a_called_function() {
    assert_eq!(ask(2).fmap_with(Call1(|x: i32| x + 40)).run_logged(), (Ok(42), vec![1]));
}

#[test]
fn bind_with_a_called_function() {
    let fetch = ask(2).bind_with(CallOnce(|x: i32| ask(x * 2)));
    assert_eq!(fetch.run_logged(), (Ok(4), vec![1, 1]));
}

#[test]
fn catch_with_a_called_handler() {
    let guarded = ask(1).bind(|_| throw::<i32, String>("lost".to_string()));
    let fetch: Fetch<i32, String> = catch_with(guarded, CallOnce(|e: String| ask(e.len() as i32)));
    assert_eq!(fetch.run_logged(), (Ok(4), vec![1, 1]));
}

#[test]
fn traverse_with_a_called_function() {
    let fetch = traverse_with(vec![3, 4], CallEach(|x: i32| ask(x * x)));
    assert_eq!(
        (fetch.run_logged().0.map(|list| list.into_vec())),
        Ok(vec![9, 16])
    );
}

#[test]
fn traverse_with_fetches_as_they_are() {
    let (result, batches) = traverse_with(vec![ask(3), ask(4)], Itself).run_logged();
    assert_eq!(result.map(|list| list.into_vec()), Ok(vec![3, 4]));
    assert_eq!(batches, vec![2]);
}

#[test]
fn repeat_carries_its_state_from_round_to_round() {
    let fetch = repeat_with(
        3,
        CallFrom(|left: i32| ask(left).fmap(|n| if n > 1 { Some(n - 1) } else { None })),
    );
    assert_eq!(fetch.run_logged(), (Ok(()), vec![1, 1, 1]));
}

#[test]
fn repeat_ends_with_the_first_throw() {
    let fetch = repeat_with(
        0,
        CallFrom(|seen: i32| {
            if seen < 2 {
                ask(seen).fmap(|n| Some(n + 1))
            } else {
                throw(format!("stopped at {}", seen))
            }
        }),
    );
    assert_eq!(fetch.run_logged(), (Err("stopped at 2".to_string()), vec![1, 1]));
}

#[test]
fn repeat_without_requests_issues_no_batch() {
    let fetch: Fetch<(), String> =
        repeat_with(5, CallFrom(|n: i32| Fetch::pure(if n > 0 { Some(n - 1) } else { None })));
    assert_eq!(fetch.run_logged(), (Ok(()), vec![]));
}
