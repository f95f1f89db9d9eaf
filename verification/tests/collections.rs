use std::cell::Cell;
use std::rc::Rc;

use batched_fetch::cons_f;
use batched_fetch::throw;
use batched_fetch::traverse::reversed;
use batched_fetch::while_m;
use batched_fetch::Fetch;
use batched_fetch::List;
use batched_fetch::Request;
use batched_fetch::Sequence;
use batched_fetch::Traversable;

/// A request that produces the result it holds.
#[derive(Hash, PartialEq, Eq, Clone, Debug)]
struct Holds {
    result: Result<i32, String>,
}

impl Request<i32, String> for Holds {
    fn run(self) -> Result<i32, String> {
        self.result
    }
}

fn ask(value: i32) -> Fetch<i32, String> {
    Fetch::new(Holds { result: Ok(value) })
}

fn fail(message: &str) -> Fetch<i32, String> {
    Fetch::new(Holds { result: Err(message.to_string()) })
}

fn values(run: (Result<List<i32>, String>, Vec<usize>)) -> (Result<Vec<i32>, String>, Vec<usize>) {
    (run.0.map(|list| list.into_vec()), run.1)
}

#[test]
fn list_keeps_what_is_pushed_in_order() {
    let list = List::new().push(1).push(2).push(3);
    assert_eq!(list.into_vec(), vec![1, 2, 3]);
    assert_eq!(List::<i32>::new().into_vec(), Vec::<i32>::new());
}

#[test]
fn reversed_turns_a_vector_around() {
    assert_eq!(reversed(vec![1, 2, 3]), vec![3, 2, 1]);
    assert_eq!(reversed(Vec::<i32>::new()), Vec::<i32>::new());
}

#[test]
fn cons_adds_the_value_at_the_end() {
    let list: Fetch<List<i32>, String> = Fetch::pure(List::new().push(1));
    assert_eq!(values(cons_f(list, ask(2)).run_logged()), (Ok(vec![1, 2]), vec![1]));
}

#[test]
fn traverse_of_nothing_is_the_empty_list() {
    let fetch = Vec::<i32>::new().traverse(ask);
    assert_eq!(values(fetch.run_logged()), (Ok(vec![]), vec![]));
}

#[test]
fn traverse_merges_every_round() {
    let fetch = vec![1, 2, 3].traverse(|x: i32| {
        if x == 2 {
            ask(x).bind(|y| ask(y * 10))
        } else {
            ask(x)
        }
    });
    assert_eq!(values(fetch.run_logged()), (Ok(vec![1, 20, 3]), vec![3, 1]));
}

#[test]
fn traverse_mixes_values_and_requests() {
    let fetch = vec![1, 2, 3, 4].traverse(|x: i32| {
        if x % 2 == 0 {
            Fetch::pure(x)
        } else {
            ask(x)
        }
    });
    assert_eq!(values(fetch.run_logged()), (Ok(vec![1, 2, 3, 4]), vec![2]));
}

#[test]
fn traverse_fails_with_its_first_failing_element() {
    let fetch = vec![1, 2, 3, 4].traverse(|x: i32| {
        if x == 2 {
            fail("two")
        } else if x == 4 {
            fail("four")
        } else {
            ask(x)
        }
    });
    assert_eq!(values(fetch.run_logged()), (Err("two".to_string()), vec![4]));
}

#[test]
fn traverse_calls_its_function_once_for_each_element() {
    let made = Rc::new(Cell::new(0));
    let counter = made.clone();
    let fetch = vec![1, 2].traverse(move |x: i32| {
        counter.set(counter.get() + 1);
        ask(x)
    });
    assert_eq!(values(fetch.run_logged()), (Ok(vec![1, 2]), vec![2]));
    assert_eq!(made.get(), 2);
}

#[test]
fn sequence_runs_its_fetches_side_by_side() {
    let fetch = vec![ask(1), Fetch::pure(2), ask(3).bind(|x| ask(x + 1))].sequence();
    assert_eq!(values(fetch.run_logged()), (Ok(vec![1, 2, 4]), vec![2, 1]));
}

#[test]
fn sequence_with_a_throw() {
    let fetch = vec![ask(1), throw("no".to_string()), ask(3)].sequence();
    assert_eq!(values(fetch.run_logged()), (Err("no".to_string()), vec![2]));
}

#[test]
fn loop_stops_when_the_condition_yields_false() {
    let fetch: Fetch<(), String> = while_m(|| Fetch::pure(false));
    assert_eq!(fetch.run_logged(), (Ok(()), vec![]));
}

#[test]
fn loop_runs_one_round_of_requests_at_a_time() {
    let mut left = 3;
    let fetch = while_m(move || {
        left -= 1;
        ask(left).fmap(|n| n > 0)
    });
    assert_eq!(fetch.run_logged(), (Ok(()), vec![1, 1, 1]));
}

#[test]
fn loop_passes_on_what_the_condition_throws() {
    let mut rounds = 0;
    let fetch = while_m(move || {
        rounds += 1;
        if rounds < 3 {
            ask(rounds).fmap(|_| true)
        } else {
            throw("enough".to_string())
        }
    });
    assert_eq!(fetch.run_logged(), (Err("enough".to_string()), vec![1, 1]));
}

#[test]
fn deferred_value_is_computed_when_the_fetch_is_run() {
    let calls = Rc::new(Cell::new(0));
    let counter = calls.clone();
    let fetch: Fetch<i32, String> = Fetch::pure_fn(move || {
        counter.set(counter.get() + 1);
        6 * 7
    });
    assert_eq!(calls.get(), 0);
    assert_eq!(fetch.run_logged(), (Ok(42), vec![]));
    assert_eq!(calls.get(), 1);
}
