use std::sync::atomic::AtomicUsize;
use std::sync::atomic::Ordering;
use std::sync::Arc;

use batched_fetch::lift2;
use batched_fetch::throw;
use batched_fetch::Fetch;
use batched_fetch::ReqResult;
use batched_fetch::Request;

/// A request that counts its runs.
#[derive(Clone)]
struct Counted {
    runs: Arc<AtomicUsize>,
    value: i32,
}

impl std::hash::Hash for Counted {
    fn hash<H: std::hash::Hasher>(&self, state: &mut H) {
        self.value.hash(state)
    }
}

impl PartialEq for Counted {
    fn eq(&self, other: &Self) -> bool {
        self.value == other.value
    }
}

impl Eq for Counted {}

impl Request<i32, String> for Counted {
    fn run(self) -> Result<i32, String> {
        self.runs.fetch_add(1, Ordering::SeqCst);
        Ok(self.value)
    }
}

#[test]
fn a_value_is_done_at_its_first_step() {
    let mut fetch: Fetch<i32, String> = Fetch::pure(3);
    assert!(matches!(fetch.get(), ReqResult::Done(3)));
}

#[test]
fn a_throw_throws_at_its_first_step() {
    let mut fetch: Fetch<i32, String> = throw("e".to_string());
    match fetch.get() {
        ReqResult::Throw(e) => assert_eq!(e, "e"),
        _ => panic!("expected a throw"),
    }
}

#[test]
fn a_request_blocks_and_then_yields_what_it_produced() {
    let runs = Arc::new(AtomicUsize::new(0));
    let mut fetch: Fetch<i32, String> = Fetch::new(Counted { runs: runs.clone(), value: 11 });
    let reqs = match fetch.get() {
        ReqResult::Blocked(reqs) => reqs,
        _ => panic!("expected a blocked step"),
    };
    assert_eq!(reqs.len(), 1);
    assert_eq!(runs.load(Ordering::SeqCst), 0);
    for req in reqs {
        req.run();
    }
    assert_eq!(runs.load(Ordering::SeqCst), 1);
    assert!(matches!(fetch.get(), ReqResult::Done(11)));
    assert_eq!(runs.load(Ordering::SeqCst), 1);
}

#[test]
fn a_request_that_was_never_handed_to_the_executor_is_run_by_its_reader() {
    let runs = Arc::new(AtomicUsize::new(0));
    let mut fetch: Fetch<i32, String> = Fetch::new(Counted { runs: runs.clone(), value: 11 });
    match fetch.get() {
        ReqResult::Blocked(reqs) => drop(reqs),
        _ => panic!("expected a blocked step"),
    }
    assert_eq!(runs.load(Ordering::SeqCst), 0);
    assert!(matches!(fetch.get(), ReqResult::Done(11)));
    assert_eq!(runs.load(Ordering::SeqCst), 1);
}

#[test]
fn a_request_handed_to_the_executor_after_its_reader_is_not_run_again() {
    let runs = Arc::new(AtomicUsize::new(0));
    let mut fetch: Fetch<i32, String> = Fetch::new(Counted { runs: runs.clone(), value: 11 });
    let reqs = match fetch.get() {
        ReqResult::Blocked(reqs) => reqs,
        _ => panic!("expected a blocked step"),
    };
    assert!(matches!(fetch.get(), ReqResult::Done(11)));
    assert_eq!(runs.load(Ordering::SeqCst), 1);
    for req in reqs {
        req.run();
    }
    assert_eq!(runs.load(Ordering::SeqCst), 1);
}

#[test]
fn two_requests_side_by_side_block_on_both() {
    let runs = Arc::new(AtomicUsize::new(0));
    let a: Fetch<i32, String> = Fetch::new(Counted { runs: runs.clone(), value: 1 });
    let b: Fetch<i32, String> = Fetch::new(Counted { runs: runs.clone(), value: 2 });
    let mut fetch = lift2(|a: i32, b: i32| a + b, a, b);
    let reqs = match fetch.get() {
        ReqResult::Blocked(reqs) => reqs,
        _ => panic!("expected a blocked step"),
    };
    assert_eq!(reqs.len(), 2);
    for req in reqs {
        req.run();
    }
    assert_eq!(runs.load(Ordering::SeqCst), 2);
    assert!(matches!(fetch.get(), ReqResult::Done(3)));
}
