use workshop::api::{get_requests, index, Reply};
use workshop::counter::{count_after, next_count, record_request, CounterError};
use workshop::middleware::Counter;
use workshop::store::{create_pool, prepare_schema};
use workshop::{create_state, State};

fn fresh_state() -> State {
    let db = create_pool(":memory:", 1).expect("in-memory store");
    prepare_schema(&db).expect("contacts table");
    create_state(db)
}

fn count_of(state: &State) -> i64 {
    match get_requests(state) {
        Reply::Count(c) => c.count,
        _ => panic!("the request count is always answered"),
    }
}

#[test]
fn middleware() {
    for count in 1..10 {
        let state = fresh_state();
        let mw = Counter.new_transform(());
        for _ in 0..count {
            let body = mw.call(&state, (), |_| index()).unwrap();
            assert_eq!(body, "Hello RustLab");
        }
        let reply = get_requests(&state);
        assert_eq!(reply.status(), 200);
        assert_eq!(count_of(&state), count);
    }
}

#[test]
fn counter_starts_at_zero() {
    let state = fresh_state();
    assert_eq!(count_of(&state), 0);
}

#[test]
fn record_request_returns_new_count() {
    let state = fresh_state();
    assert_eq!(record_request(&state.counter), Ok(1));
    assert_eq!(record_request(&state.counter), Ok(2));
    assert_eq!(count_of(&state), 2);
}

#[test]
fn next_count_adds_one() {
    assert_eq!(next_count(0), Some(1));
    assert_eq!(next_count(41), Some(42));
    assert_eq!(next_count(-1), Some(0));
}

#[test]
fn next_count_stops_at_largest() {
    assert_eq!(next_count(i64::MAX - 1), Some(i64::MAX));
    assert_eq!(next_count(i64::MAX), None);
}

#[test]
fn record_request_at_largest_count_fails_and_keeps_count() {
    let state = fresh_state();
    state.counter.store(i64::MAX, std::sync::atomic::Ordering::SeqCst);
    assert_eq!(record_request(&state.counter), Err(CounterError::Overflow));
    assert_eq!(count_of(&state), i64::MAX);
}

#[test]
fn complete_passes_response_through() {
    let state = fresh_state();
    let mw = Counter.new_transform(7u8);
    assert_eq!(mw.service, 7u8);
    assert_eq!(Counter.complete(&state, "body"), Ok("body"));
    assert_eq!(count_of(&state), 1);
}

#[test]
fn counted_after_handler_runs() {
    let state = fresh_state();
    let mw = Counter.new_transform(());
    let seen = mw.call(&state, 5i32, |x| (x * 2, count_of(&state))).unwrap();
    assert_eq!(seen, (10, 0));
    assert_eq!(count_of(&state), 1);
}

#[test]
fn count_after_maps_the_update() {
    assert_eq!(count_after(Ok(0)), Ok(1));
    assert_eq!(count_after(Ok(41)), Ok(42));
    assert_eq!(count_after(Err(i64::MAX)), Err(CounterError::Overflow));
}
