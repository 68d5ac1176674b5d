use asio::Executor;
use asio::LoopScheduler;
use std::cell::RefCell;
use std::collections::HashMap;
use std::rc::Rc;

#[test]
fn it_works() {}

#[test]
fn loop_scheduler_run_is_fifo_exactly_once() {
    let mut s = LoopScheduler::new();
    s.post(10);
    s.post(11);
    s.post(12);
    let order = s.run();
    assert_eq!(order, vec![10, 11, 12]);
    // nothing fires twice: the queue is empty afterwards
    assert_eq!(s.next_job(), None);
    assert_eq!(s.run(), Vec::<u64>::new());
}

fn submit<E: Executor>(e: &mut E, job: u64) {
    e.post(job);
}

#[test]
fn loop_scheduler_post_through_executor_trait() {
    let mut s = LoopScheduler::new();
    submit(&mut s, 7);
    submit(&mut s, 8);
    assert_eq!(s.run(), vec![7, 8]);
}

#[test]
fn loop_scheduler_next_job_services_nested_posts_in_same_run() {
    // The degenerate scheduler re-checks the live queue after each pop, so a
    // job posted by a running callback is serviced within the same run —
    // unlike the reactor's drain pass, which defers it to a later iteration.
    let sched = Rc::new(RefCell::new(LoopScheduler::new()));
    let jobs: Rc<RefCell<HashMap<u64, Box<dyn FnOnce()>>>> = Rc::new(RefCell::new(HashMap::new()));
    let log: Rc<RefCell<Vec<&'static str>>> = Rc::new(RefCell::new(Vec::new()));

    let log_a = log.clone();
    let sched_a = sched.clone();
    let jobs_a = jobs.clone();
    jobs.borrow_mut().insert(
        1,
        Box::new(move || {
            log_a.borrow_mut().push("first");
            let log_c = log_a.clone();
            jobs_a
                .borrow_mut()
                .insert(2, Box::new(move || log_c.borrow_mut().push("nested")));
            sched_a.borrow_mut().post(2);
        }),
    );
    sched.borrow_mut().post(1);

    // one run call, popping one job at a time
    loop {
        let next = sched.borrow_mut().next_job();
        match next {
            Some(id) => {
                let f = jobs.borrow_mut().remove(&id).expect("job registered");
                f();
            }
            None => break,
        }
    }
    assert_eq!(*log.borrow(), vec!["first", "nested"]);
}
