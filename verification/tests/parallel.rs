use std::sync::atomic::AtomicUsize;
use std::sync::atomic::Ordering;
use std::sync::Arc;

use batched_fetch::ap;
use batched_fetch::batch::vec_merge;
use batched_fetch::lift2;
use batched_fetch::lift3;
use batched_fetch::lift4;
use batched_fetch::lift5;
use batched_fetch::throw;
use batched_fetch::Fetch;
use batched_fetch::Impossible;
use batched_fetch::Request;

/// A request that counts that it ran and says whether it ran on a worker of
/// the pool.
#[derive(Clone)]
struct Probe {
    runs: Arc<AtomicUsize>,
    on_worker: Arc<AtomicUsize>,
    result: Result<i32, String>,
}

impl std::hash::Hash for Probe {
    fn hash<H: std::hash::Hasher>(&self, state: &mut H) {
        self.result.hash(state)
    }
}

impl PartialEq for Probe {
    fn eq(&self, other: &Self) -> bool {
        self.result == other.result
    }
}

impl Eq for Probe {}

impl Request<i32, String> for Probe {
    fn run(self) -> Result<i32, String> {
        self.runs.fetch_add(1, Ordering::SeqCst);
        if rayon::current_thread_index().is_some() {
            self.on_worker.fetch_add(1, Ordering::SeqCst);
        }
        self.result
    }
}

struct Counters {
    runs: Arc<AtomicUsize>,
    on_worker: Arc<AtomicUsize>,
}

impl Counters {
    fn new() -> Counters {
        Counters { runs: Arc::new(AtomicUsize::new(0)), on_worker: Arc::new(AtomicUsize::new(0)) }
    }

    fn ask(&self, value: i32) -> Fetch<i32, String> {
        Fetch::new(Probe {
            runs: self.runs.clone(),
            on_worker: self.on_worker.clone(),
            result: Ok(value),
        })
    }

    fn fail(&self, message: &str) -> Fetch<i32, String> {
        Fetch::new(Probe {
            runs: self.runs.clone(),
            on_worker: self.on_worker.clone(),
            result: Err(message.to_string()),
        })
    }

    fn runs(&self) -> usize {
        self.runs.load(Ordering::SeqCst)
    }

    fn on_worker(&self) -> usize {
        self.on_worker.load(Ordering::SeqCst)
    }
}

#[test]
fn batches_run_on_the_worker_pool() {
    let c = Counters::new();
    let fetch = lift3(|a, b, d| a + b + d, c.ask(1), c.ask(2), c.ask(3)).bind(|x| Fetch::pure(x));
    assert_eq!(fetch.run_logged(), (Ok(6), vec![3]));
    assert_eq!(c.runs(), 3);
    assert_eq!(c.on_worker(), 3);
}

#[test]
fn ap_of_two_values_applies_at_once() {
    let fetch: Fetch<i32, String> = ap(Fetch::pure(|x: i32| x * 3), Fetch::pure(4));
    assert_eq!(fetch.run_logged(), (Ok(12), vec![]));
}

#[test]
fn ap_of_a_value_and_a_blocked_argument() {
    let c = Counters::new();
    let fetch = ap(Fetch::pure(|x: i32| x * 3), c.ask(4).bind(|x| Fetch::new(Probe {
        runs: Arc::new(AtomicUsize::new(0)),
        on_worker: Arc::new(AtomicUsize::new(0)),
        result: Ok(x + 1),
    })));
    assert_eq!(fetch.run_logged(), (Ok(15), vec![1, 1]));
}

#[test]
fn ap_of_a_blocked_function_and_a_value() {
    let c = Counters::new();
    let f = c.ask(10).fmap(|n| move |x: i32| x + n);
    assert_eq!(ap(f, Fetch::pure(1)).run_logged(), (Ok(11), vec![1]));
}

#[test]
fn ap_merges_the_rounds_of_both_sides() {
    let c = Counters::new();
    let f = c.ask(10).bind({
        let again = c.ask(20);
        move |n| again.fmap(move |m| move |x: i32| x + n + m)
    });
    let x = c.ask(1);
    assert_eq!(ap(f, x).run_logged(), (Ok(31), vec![2, 1]));
    assert_eq!(c.runs(), 3);
}

#[test]
fn longer_right_side_keeps_running_alone() {
    let c = Counters::new();
    let right = c.ask(1).bind({
        let second = c.ask(2);
        let third = c.ask(3);
        move |a| lift2(move |b, d| a + b + d, second, third)
    });
    let fetch = lift2(|l: i32, r: i32| l * r, c.ask(7), right);
    assert_eq!(fetch.run_logged(), (Ok(42), vec![2, 2]));
}

#[test]
fn thrown_left_side_discards_the_right_side() {
    let c = Counters::new();
    let fetch = lift2(|a: i32, b: i32| a + b, throw("left".to_string()), c.ask(1));
    assert_eq!(fetch.run_logged(), (Err("left".to_string()), vec![]));
    assert_eq!(c.runs(), 0);
}

#[test]
fn thrown_right_side_after_a_value_throws_at_once() {
    let fetch: Fetch<i32, String> =
        lift2(|a: i32, b: i32| a + b, Fetch::pure(1), throw("right".to_string()));
    assert_eq!(fetch.run_logged(), (Err("right".to_string()), vec![]));
}

#[test]
fn blocked_left_side_still_fires_when_the_right_side_throws() {
    let c = Counters::new();
    let fetch = lift2(|a: i32, b: i32| a + b, c.ask(1), throw("right".to_string()));
    assert_eq!(fetch.run_logged(), (Err("right".to_string()), vec![1]));
    assert_eq!(c.runs(), 1);
}

#[test]
fn error_of_the_left_side_wins() {
    let c = Counters::new();
    let left = c.ask(1).bind({
        let failing = c.fail("left");
        move |_| failing
    });
    let fetch = lift2(|a: i32, b: i32| a + b, left, c.fail("right"));
    assert_eq!(fetch.run_logged(), (Err("left".to_string()), vec![2, 1]));
}

#[test]
fn failed_left_side_cuts_the_rounds_of_the_right_side() {
    let c = Counters::new();
    let right = c.ask(1).bind({
        let second = c.ask(2);
        move |_| second
    });
    let fetch = lift2(|a: i32, b: i32| a + b, c.fail("left"), right);
    assert_eq!(fetch.run_logged(), (Err("left".to_string()), vec![2]));
    assert_eq!(c.runs(), 2);
}

#[test]
fn lift3_calls_its_function_on_all_three_values() {
    let c = Counters::new();
    let fetch = lift3(|a, b, d| format!("{}-{}-{}", a, b, d), c.ask(1), c.ask(2), c.ask(3));
    assert_eq!(fetch.run_logged(), (Ok("1-2-3".to_string()), vec![3]));
}

#[test]
fn lift4_calls_its_function_on_all_four_values() {
    let c = Counters::new();
    let fetch = lift4(
        |a, b, d, e| format!("{}-{}-{}-{}", a, b, d, e),
        c.ask(1),
        Fetch::pure(2),
        c.ask(3),
        c.ask(4),
    );
    assert_eq!(fetch.run_logged(), (Ok("1-2-3-4".to_string()), vec![3]));
}

#[test]
fn lift5_calls_its_function_on_all_five_values() {
    let c = Counters::new();
    let fetch = lift5(
        |a, b, d, e, f| vec![a, b, d, e, f],
        c.ask(1),
        c.ask(2),
        c.ask(3),
        c.ask(4),
        c.ask(5),
    );
    assert_eq!(fetch.run_logged(), (Ok(vec![1, 2, 3, 4, 5]), vec![5]));
    assert_eq!(c.runs(), 5);
}

#[test]
fn lift3_reports_the_leftmost_error() {
    let c = Counters::new();
    let fetch = lift3(|a: i32, b: i32, d: i32| a + b + d, c.ask(1), c.fail("two"), c.fail("three"));
    assert_eq!(fetch.run_logged(), (Err("two".to_string()), vec![3]));
}

#[test]
fn widened_fetch_keeps_its_value_and_batches() {
    #[derive(Hash, PartialEq, Eq, Clone)]
    struct Sure(i32);
    impl Request<i32> for Sure {
        fn run(self) -> Result<i32, Impossible> {
            Ok(self.0)
        }
    }
    let sure: Fetch<i32> = Fetch::new(Sure(8));
    let widened: Fetch<i32, String> = sure.into();
    assert_eq!(widened.run_logged(), (Ok(8), vec![1]));
}

#[test]
fn fetch_of_a_result() {
    assert_eq!(Fetch::<i32, String>::from_result(Ok(3)).run_logged(), (Ok(3), vec![]));
    assert_eq!(
        Fetch::<i32, String>::from_result(Err("no".to_string())).run_logged(),
        (Err("no".to_string()), vec![])
    );
}

#[test]
fn result_turned_into_a_fetch() {
    let ok: Fetch<i32, String> = Ok(3).into();
    assert_eq!(ok.run_logged(), (Ok(3), vec![]));
    let err: Fetch<i32, String> = Err("no".to_string()).into();
    assert_eq!(err.run_logged(), (Err("no".to_string()), vec![]));
}

#[test]
fn merge_appends_the_shorter_to_the_longer() {
    assert_eq!(vec_merge(vec![1, 2, 3], vec![4, 5]), vec![1, 2, 3, 4, 5]);
    assert_eq!(vec_merge(vec![1, 2], vec![3, 4, 5]), vec![3, 4, 5, 1, 2]);
    assert_eq!(vec_merge(vec![1, 2], vec![3, 4]), vec![1, 2, 3, 4]);
    assert_eq!(vec_merge(Vec::<i32>::new(), vec![3]), vec![3]);
    assert_eq!(vec_merge(Vec::<i32>::new(), Vec::new()), Vec::<i32>::new());
}
