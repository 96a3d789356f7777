use cat_scale::bthome::{build_bthome_payload, AdvertisingKind};
use cat_scale::weigh::{
    read_weight, read_weight_raw, Pending, Poll, Reply, Request, BATTERY_PCT, COUNTS_PER_KG,
    TARE_SAMPLES,
};

fn run(replies: &[Reply]) -> Pending {
    let mut pending = Pending::start();
    for reply in replies {
        pending = pending.next(*reply);
    }
    pending
}

const YES: Reply = Reply::Ready { ready: true };
const NO: Reply = Reply::Ready { ready: false };

#[test]
fn starts_by_asking_the_load_cell() {
    assert_eq!(Pending::start(), Pending::Scaled { poll: Poll::Check });
    assert!(matches!(Pending::start().request(), Request::PollReady));
}

#[test]
fn waits_ten_milliseconds_while_not_ready() {
    let waiting = run(&[NO]);
    assert_eq!(
        waiting,
        Pending::Scaled {
            poll: Poll::Backoff
        }
    );
    assert!(matches!(waiting.request(), Request::Sleep { ms: 10 }));
    assert_eq!(run(&[NO, Reply::Elapsed]), Pending::start());
    assert!(matches!(
        run(&[NO, Reply::Elapsed, NO, Reply::Elapsed, YES]).request(),
        Request::ReadScaled
    ));
}

#[test]
fn whole_round() {
    let scaled = Reply::Scaled {
        weight_converted: Some(452),
    };
    let raw = Reply::Raw {
        weight_raw: Some(258345),
    };
    let mut replies = vec![NO, Reply::Elapsed, YES, scaled];
    assert!(matches!(run(&replies).request(), Request::PollReady));
    replies.push(NO);
    assert!(matches!(
        run(&replies).request(),
        Request::Sleep { ms: 10 }
    ));
    replies.push(Reply::Elapsed);
    replies.push(YES);
    assert!(matches!(run(&replies).request(), Request::ReadRaw));
    replies.push(raw);
    assert_eq!(
        run(&replies),
        Pending::Broadcast {
            weight_converted: 452,
            weight_raw: 258345
        }
    );
    match run(&replies).request() {
        Request::Advertise { advertisement } => {
            assert_eq!(
                advertisement.adv_data,
                build_bthome_payload(452, 258345, 90)
            );
            assert_eq!(
                advertisement.kind,
                AdvertisingKind::NonconnectableScannableUndirected
            );
            assert_eq!(advertisement.timeout_ms, 2000);
        }
        _ => panic!("not broadcasting"),
    }
    replies.push(Reply::Advertised);
    assert_eq!(run(&replies), Pending::Rest);
    assert!(matches!(
        run(&replies).request(),
        Request::Sleep { ms: 5000 }
    ));
    replies.push(Reply::Elapsed);
    assert_eq!(run(&replies), Pending::start());
}

#[test]
fn failed_weight_ends_the_round() {
    let failed = Reply::Scaled {
        weight_converted: None,
    };
    assert_eq!(run(&[YES, failed]), Pending::Rest);
    assert_eq!(run(&[YES, failed, Reply::Elapsed]), Pending::start());
}

#[test]
fn failed_raw_reading_ends_the_round() {
    let scaled = Reply::Scaled {
        weight_converted: Some(7),
    };
    let failed = Reply::Raw { weight_raw: None };
    assert_eq!(run(&[YES, scaled, YES, failed]), Pending::Rest);
}

#[test]
fn replies_that_answer_nothing_are_ignored() {
    let raw = Reply::Raw {
        weight_raw: Some(3),
    };
    let start = Pending::start();
    assert_eq!(start.next(raw), start);
    assert_eq!(start.next(Reply::Elapsed), start);
    assert_eq!(start.next(Reply::Advertised), start);
    assert_eq!(Pending::Rest.next(YES), Pending::Rest);
    let busy = Pending::Broadcast {
        weight_converted: 1,
        weight_raw: 2,
    };
    assert_eq!(busy.next(Reply::Elapsed), busy);
}

#[test]
fn broadcast_carries_the_last_readings() {
    let round = |w: u16, r: i32| {
        vec![
            YES,
            Reply::Scaled {
                weight_converted: Some(w),
            },
            YES,
            Reply::Raw {
                weight_raw: Some(r),
            },
        ]
    };
    let mut replies = round(1, 10);
    replies.push(Reply::Advertised);
    replies.push(Reply::Elapsed);
    replies.extend(round(2, -20));
    assert_eq!(
        run(&replies),
        Pending::Broadcast {
            weight_converted: 2,
            weight_raw: -20
        }
    );
}

#[test]
fn what_is_asked_for_moves_the_loop_on() {
    let polls = [Poll::Check, Poll::Backoff, Poll::Read];
    let mut states = vec![
        Pending::Rest,
        Pending::Broadcast {
            weight_converted: 1,
            weight_raw: 2,
        },
    ];
    for poll in polls {
        states.push(Pending::Scaled { poll });
        states.push(Pending::Raw {
            poll,
            weight_converted: 3,
        });
    }
    for pending in states {
        let reply = match pending.request() {
            Request::PollReady => YES,
            Request::ReadScaled => Reply::Scaled {
                weight_converted: None,
            },
            Request::ReadRaw => Reply::Raw { weight_raw: None },
            Request::Sleep { .. } => Reply::Elapsed,
            Request::Advertise { .. } => Reply::Advertised,
        };
        assert_ne!(pending.next(reply), pending);
    }
}

#[test]
fn reading_follows_only_a_ready_answer() {
    let all = [
        YES,
        NO,
        Reply::Elapsed,
        Reply::Advertised,
        Reply::Scaled {
            weight_converted: Some(5),
        },
        Reply::Scaled {
            weight_converted: None,
        },
        Reply::Raw {
            weight_raw: Some(-5),
        },
        Reply::Raw { weight_raw: None },
    ];
    for reply in all {
        let is_reading = read_weight(Poll::Check, reply) == Pending::Scaled { poll: Poll::Read };
        assert_eq!(is_reading, reply == YES);
        let is_reading_raw = read_weight_raw(Poll::Check, 9, reply)
            == Pending::Raw {
                poll: Poll::Read,
                weight_converted: 9,
            };
        assert_eq!(is_reading_raw, reply == YES);
    }
}

#[test]
fn calibration() {
    assert_eq!(COUNTS_PER_KG, 57156);
    assert_eq!(1.0 / COUNTS_PER_KG as f32, 1.0 / 57156.0);
    assert_eq!(TARE_SAMPLES, 5);
    assert_eq!(BATTERY_PCT, 90);
}
