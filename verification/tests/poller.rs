use acfunonline::fatal::Fatal;
use acfunonline::poller::{
    Digest, Poller, Source, Tick, ERROR_NUM, LOOP_INTERVAL_SECS, MEDAL_DELAY_SECS,
};
use acfunonline::streamer::{Command, Liver, Livers};
use acfunonline::supervisor::CHANNEL_CAPACITY;
use tokio::sync::mpsc::channel;

fn liver(uid: i64, nickname: &str) -> Liver {
    Liver { uid, nickname: nickname.to_string() }
}

#[test]
fn constants_are_as_documented() {
    assert_eq!(ERROR_NUM, 10);
    assert_eq!(LOOP_INTERVAL_SECS, 30);
    assert_eq!(MEDAL_DELAY_SECS, 5);
    assert_eq!(CHANNEL_CAPACITY, 10);
}

#[test]
fn new_poller_has_no_errors() {
    let poller = Poller::new(Source::LiveRooms);
    assert_eq!(poller.errors(), 0);
    assert_eq!(poller.source(), Source::LiveRooms);
    assert_eq!(Poller::new(Source::Medals).source(), Source::Medals);
}

#[test]
fn medal_poller_waits_before_first_fetch() {
    assert_eq!(Poller::new(Source::LiveRooms).initial_delay_secs(), 0);
    assert_eq!(Poller::new(Source::Medals).initial_delay_secs(), 5);
}

#[test]
fn nine_failures_go_on_and_tenth_is_fatal() {
    let mut poller = Poller::new(Source::LiveRooms);
    for n in 1..=9 {
        let digest = poller.digest(Err(format!("reason {}", n)));
        assert!(matches!(digest, Digest::Retry));
        assert_eq!(poller.errors(), n);
    }
    match poller.digest(Err("reason 10".to_string())) {
        Digest::Fatal(Fatal::LiveList(reason)) => assert_eq!(reason, "reason 10"),
        _ => panic!("the tenth failure in a row is fatal"),
    }
    assert_eq!(poller.errors(), 10);
}

#[test]
fn success_resets_the_count() {
    let mut poller = Poller::new(Source::Medals);
    for _ in 0..9 {
        assert!(matches!(poller.digest(Err("down".to_string())), Digest::Retry));
    }
    assert_eq!(poller.errors(), 9);
    assert!(matches!(poller.digest(Ok(Vec::new())), Digest::Publish(Command::Medals(_))));
    assert_eq!(poller.errors(), 0);
    for n in 1..=9 {
        assert!(matches!(poller.digest(Err("down".to_string())), Digest::Retry));
        assert_eq!(poller.errors(), n);
    }
    match poller.digest(Err("last".to_string())) {
        Digest::Fatal(fatal) => {
            assert!(matches!(fatal, Fatal::MedalList(_)));
            assert_eq!(fatal.message(), "medal list error: last");
        },
        _ => panic!("the tenth failure in a row is fatal"),
    }
}

#[test]
fn failures_after_the_fatal_one_stay_fatal() {
    let mut poller = Poller::new(Source::LiveRooms);
    for _ in 0..10 {
        poller.digest(Err("down".to_string()));
    }
    assert!(matches!(poller.digest(Err("again".to_string())), Digest::Fatal(Fatal::LiveList(_))));
    assert_eq!(poller.errors(), 10);
}

#[test]
fn listing_becomes_report_of_its_source() {
    let mut rooms = Poller::new(Source::LiveRooms);
    match rooms.digest(Ok(vec![liver(1, "a"), liver(2, "b"), liver(1, "c")])) {
        Digest::Publish(Command::LiverRooms(livers)) => {
            assert_eq!(livers.len(), 2);
            assert_eq!(livers.get(1).unwrap().nickname, "c");
            assert_eq!(livers.get(2).unwrap().nickname, "b");
        },
        _ => panic!("a listing of live rooms is published as such"),
    }
    let mut medals = Poller::new(Source::Medals);
    match medals.digest(Ok(vec![liver(3, "d")])) {
        Digest::Publish(Command::Medals(livers)) => {
            assert_eq!(livers.len(), 1);
            assert_eq!(livers.get(3).unwrap().nickname, "d");
        },
        _ => panic!("a listing of medals is published as such"),
    }
}

#[test]
fn fatal_messages_name_the_listing() {
    assert_eq!(Fatal::LiveList("timeout".to_string()).message(), "live list error: timeout");
    assert_eq!(Fatal::MedalList("denied".to_string()).message(), "medal list error: denied");
    assert_eq!(Fatal::LiveList(String::new()).message(), "live list error: ");
    assert_eq!(Fatal::Stopped.message(), "stop keeping online");
}

#[test]
fn tick_after_offer() {
    assert_eq!(Tick::after_offer(true), Tick::Published);
    assert_eq!(Tick::after_offer(false), Tick::Dropped);
}

#[test]
fn step_publishes_on_the_channel() {
    let (tx, mut rx) = channel::<Command>(CHANNEL_CAPACITY);
    let mut poller = Poller::new(Source::LiveRooms);
    let round = poller.step(&tx, Ok(vec![liver(1, "a"), liver(2, "b")]));
    assert!(matches!(round, Ok(Tick::Published)));
    match rx.try_recv() {
        Ok(Command::LiverRooms(livers)) => {
            assert_eq!(livers.len(), 2);
            assert_eq!(livers.get(1).unwrap().nickname, "a");
            assert_eq!(livers.get(2).unwrap().nickname, "b");
        },
        _ => panic!("the report is on the channel"),
    }
    assert!(rx.try_recv().is_err());

    let mut medals = Poller::new(Source::Medals);
    assert!(matches!(medals.step(&tx, Ok(vec![liver(3, "c")])), Ok(Tick::Published)));
    match rx.try_recv() {
        Ok(Command::Medals(livers)) => assert!(livers.contains(3)),
        _ => panic!("the report is on the channel"),
    }
}

#[test]
fn full_channel_drops_report_and_poller_goes_on() {
    let (tx, mut rx) = channel::<Command>(CHANNEL_CAPACITY);
    for uid in 0..10 {
        assert!(tx.try_send(Command::Delete(uid)).is_ok());
    }
    let mut poller = Poller::new(Source::LiveRooms);
    for _ in 0..9 {
        assert!(matches!(poller.step(&tx, Err("down".to_string())), Ok(Tick::Failed)));
    }
    assert_eq!(poller.errors(), 9);
    let round = poller.step(&tx, Ok(vec![liver(1, "a")]));
    assert!(matches!(round, Ok(Tick::Dropped)));
    assert_eq!(poller.errors(), 0);
    let round = poller.step(&tx, Ok(vec![liver(1, "a")]));
    assert!(matches!(round, Ok(Tick::Dropped)));
    assert_eq!(poller.errors(), 0);
    for uid in 0..10 {
        assert!(matches!(rx.try_recv(), Ok(Command::Delete(got)) if got == uid));
    }
    assert!(rx.try_recv().is_err());
    let round = poller.step(&tx, Ok(vec![liver(1, "a")]));
    assert!(matches!(round, Ok(Tick::Published)));
    assert!(matches!(rx.try_recv(), Ok(Command::LiverRooms(_))));
}

#[test]
fn dropped_report_is_no_failure() {
    let (tx, _rx) = channel::<Command>(1);
    assert!(tx.try_send(Command::Delete(0)).is_ok());
    let mut poller = Poller::new(Source::Medals);
    for _ in 0..25 {
        assert!(matches!(poller.step(&tx, Ok(Vec::new())), Ok(Tick::Dropped)));
        assert_eq!(poller.errors(), 0);
    }
}

#[test]
fn closed_channel_drops_report_and_poller_goes_on() {
    let (tx, rx) = channel::<Command>(CHANNEL_CAPACITY);
    drop(rx);
    let mut poller = Poller::new(Source::LiveRooms);
    assert!(matches!(poller.step(&tx, Ok(Vec::new())), Ok(Tick::Dropped)));
    assert_eq!(poller.errors(), 0);
}

#[test]
fn step_ends_on_tenth_failure_in_a_row() {
    let (tx, mut rx) = channel::<Command>(CHANNEL_CAPACITY);
    let mut poller = Poller::new(Source::Medals);
    for n in 1..=9 {
        assert!(matches!(poller.step(&tx, Err("down".to_string())), Ok(Tick::Failed)));
        assert_eq!(poller.errors(), n);
    }
    match poller.step(&tx, Err("still down".to_string())) {
        Err(Fatal::MedalList(reason)) => assert_eq!(reason, "still down"),
        _ => panic!("the tenth failure in a row is fatal"),
    }
    assert!(rx.try_recv().is_err());
}

#[test]
fn report_with_empty_listing_clears_snapshot() {
    let (tx, mut rx) = channel::<Command>(CHANNEL_CAPACITY);
    let mut poller = Poller::new(Source::LiveRooms);
    assert!(matches!(poller.step(&tx, Ok(Vec::new())), Ok(Tick::Published)));
    match rx.try_recv() {
        Ok(Command::LiverRooms(livers)) => assert!(Livers::is_empty(&livers)),
        _ => panic!("the report is on the channel"),
    }
}
