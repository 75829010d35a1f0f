use rhy::{DurationError, Poller, ProbeError, SettleError, Step, NANOS_PER_SEC};

#[test]
fn settles_at_once_when_younger_than_window() {
    let p = Poller::start("1h", 200, 10_000).unwrap();
    let age = 30 * NANOS_PER_SEC;
    assert_eq!(p.on_probe(Ok(age)), Step::Settled(age));
}

#[test]
fn window_is_converted_to_nanoseconds() {
    let p = Poller::start("5min", 200, 1_000).unwrap();
    assert_eq!(p.window_nanos, 300 * NANOS_PER_SEC);
    assert_eq!(p.sleeps_left, 5);
    assert_eq!(Poller::new(20, 3), Poller { window_nanos: 20 * NANOS_PER_SEC, sleeps_left: 3 });
}

#[test]
fn window_must_parse_before_polling() {
    assert_eq!(Poller::start("20x", 200, 1_000), Err(DurationError::InvalidDurationFormat));
    assert_eq!(
        Poller::start("99999999999999999999s", 200, 1_000),
        Err(DurationError::InvalidDurationFormat)
    );
}

#[test]
fn zero_window_times_out_at_ceiling() {
    let mut p = Poller::start("0s", 200, 1_000).unwrap();
    let mut sleeps = 0;
    loop {
        match p.on_probe(Ok(5 * NANOS_PER_SEC)) {
            Step::Polling(next) => {
                sleeps += 1;
                p = next;
                assert!(sleeps <= 5);
            }
            Step::Aborted(e) => {
                assert_eq!(e, SettleError::TimeoutExceeded);
                break;
            }
            Step::Settled(_) => panic!("a zero window never settles"),
        }
    }
    assert_eq!(sleeps, 5);
}

#[test]
fn keeps_polling_until_file_settles() {
    let p = Poller::new(10, 4);
    let p = match p.on_probe(Ok(10 * NANOS_PER_SEC)) {
        Step::Polling(q) => q,
        other => panic!("{:?}", other),
    };
    assert_eq!(p.sleeps_left, 3);
    assert_eq!(p.on_probe(Ok(10 * NANOS_PER_SEC - 1)), Step::Settled(10 * NANOS_PER_SEC - 1));
}

#[test]
fn probe_error_aborts() {
    let p = Poller::new(10, 4);
    assert_eq!(
        p.on_probe(Err(ProbeError::ClockSkew)),
        Step::Aborted(SettleError::Probe(ProbeError::ClockSkew))
    );
    assert_eq!(
        p.on_probe(Err(ProbeError::PathNotFound)),
        Step::Aborted(SettleError::Probe(ProbeError::PathNotFound))
    );
}
