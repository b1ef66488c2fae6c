use qmk_xap::event_loop::{
    loop_step, wait_step, LoopAction, WaitAction, ENUMERATION_INTERVAL_NANOS, POLL_INTERVAL_MILLIS,
    RESPONSE_RETRY_MILLIS, RESPONSE_TIMEOUT_NANOS,
};

#[test]
fn a_stopped_client_ends_the_loop() {
    assert_eq!(loop_step(false, 0), LoopAction::Stop);
    assert_eq!(loop_step(false, u64::MAX), LoopAction::Stop);
}

#[test]
fn enumeration_waits_for_more_than_a_second() {
    assert_eq!(loop_step(true, 0), LoopAction::Run { enumerate: false, sleep_millis: 100 });
    assert_eq!(
        loop_step(true, 1_000_000_000),
        LoopAction::Run { enumerate: false, sleep_millis: 100 }
    );
    assert_eq!(
        loop_step(true, 1_000_000_001),
        LoopAction::Run { enumerate: true, sleep_millis: 100 }
    );
    assert_eq!(ENUMERATION_INTERVAL_NANOS, 1_000_000_000);
    assert_eq!(POLL_INTERVAL_MILLIS, 100);
}

#[test]
fn a_run_enumerates_at_most_once_a_second() {
    let ms = 1_000_000u64;
    let times = [0, 500 * ms, 1100 * ms, 1500 * ms, 2000 * ms, 2200 * ms, 3200 * ms];
    let mut last = 0u64;
    let mut enumerated = Vec::new();
    for t in times {
        match loop_step(true, t - last) {
            LoopAction::Run { enumerate, sleep_millis } => {
                assert_eq!(sleep_millis, 100);
                if enumerate {
                    last = t;
                    enumerated.push(t / ms);
                }
            }
            LoopAction::Stop => panic!("running loop stopped"),
        }
    }
    assert_eq!(enumerated, vec![1100, 2200]);
}

#[test]
fn the_wait_for_a_response() {
    assert_eq!(RESPONSE_TIMEOUT_NANOS, 5_000_000_000);
    assert_eq!(RESPONSE_RETRY_MILLIS, 1);
    assert_eq!(wait_step(0, 0), WaitAction::Retry { sleep_millis: 1 });
    assert_eq!(wait_step(0, 5_000_000_000), WaitAction::Retry { sleep_millis: 1 });
    assert_eq!(wait_step(0, 5_000_000_001), WaitAction::TimedOut);
    assert_eq!(wait_step(64, 9_000_000_000), WaitAction::TakeResponse);
}
