use acfunonline::streamer::Liver;
use acfunonline::worker::{Incoming, Next, Note, Phase, Turn, Worker, WorkerEvent, TIMEOUT_SECS};

fn worker(uid: i64) -> Worker {
    Worker::new(Liver { uid, nickname: "name".to_string() })
}

#[test]
fn timeout_is_ten_seconds() {
    assert_eq!(TIMEOUT_SECS, 10);
}

#[test]
fn new_worker_waits_for_messages() {
    let w = worker(4);
    assert_eq!(w.phase(), Phase::Receiving);
    assert_eq!(w.pending(), Next::Receive);
    assert_eq!(w.liver().uid, 4);
    assert_eq!(w.liver().nickname, "name");
}

#[test]
fn messages_keep_the_worker_waiting() {
    let mut w = worker(4);
    for _ in 0..100 {
        let turn = w.step(WorkerEvent::Waited(Incoming::Message));
        assert_eq!(turn, Turn { note: None, next: Next::Receive });
        assert_eq!(w.phase(), Phase::Receiving);
    }
}

#[test]
fn timeout_closes_and_notifies_whatever_close_gives() {
    for close_ok in [true, false] {
        let mut w = worker(2);
        let turn = w.step(WorkerEvent::Waited(Incoming::Timeout));
        assert_eq!(turn, Turn { note: Some(Note::TimedOut), next: Next::Close });
        assert_eq!(w.phase(), Phase::Closing);
        let turn = w.step(WorkerEvent::Closed(close_ok));
        let note = if close_ok { None } else { Some(Note::CloseError) };
        assert_eq!(turn, Turn { note, next: Next::Notify(2) });
        assert_eq!(w.phase(), Phase::Notifying);
        let turn = w.step(WorkerEvent::Notified(true));
        assert_eq!(turn, Turn { note: None, next: Next::Finish });
        assert_eq!(w.phase(), Phase::Done);
    }
}

#[test]
fn end_of_stream_leaves_no_note() {
    let mut w = worker(2);
    let turn = w.step(WorkerEvent::Waited(Incoming::EndOfStream));
    assert_eq!(turn, Turn { note: None, next: Next::Close });
    assert_eq!(w.step(WorkerEvent::Closed(true)), Turn { note: None, next: Next::Notify(2) });
}

#[test]
fn receive_error_is_noted_and_ends_waiting() {
    let mut w = worker(-7);
    let turn = w.step(WorkerEvent::Waited(Incoming::Error));
    assert_eq!(turn, Turn { note: Some(Note::ReceiveError), next: Next::Close });
    assert_eq!(w.step(WorkerEvent::Closed(false)).next, Next::Notify(-7));
}

#[test]
fn lost_notice_is_noted_and_worker_ends() {
    let mut w = worker(1);
    w.step(WorkerEvent::Waited(Incoming::EndOfStream));
    w.step(WorkerEvent::Closed(true));
    let turn = w.step(WorkerEvent::Notified(false));
    assert_eq!(turn, Turn { note: Some(Note::NotifyFailed), next: Next::Finish });
    assert_eq!(w.phase(), Phase::Done);
    assert_eq!(w.pending(), Next::Finish);
}

#[test]
fn events_out_of_turn_change_nothing() {
    let mut w = worker(3);
    assert_eq!(w.step(WorkerEvent::Closed(false)), Turn { note: None, next: Next::Receive });
    assert_eq!(w.step(WorkerEvent::Notified(false)), Turn { note: None, next: Next::Receive });
    assert_eq!(w.phase(), Phase::Receiving);
    w.step(WorkerEvent::Waited(Incoming::Timeout));
    assert_eq!(
        w.step(WorkerEvent::Waited(Incoming::Message)),
        Turn { note: None, next: Next::Close }
    );
    assert_eq!(w.step(WorkerEvent::Waited(Incoming::Error)), Turn { note: None, next: Next::Close });
    assert_eq!(w.step(WorkerEvent::Notified(true)), Turn { note: None, next: Next::Close });
    assert_eq!(w.phase(), Phase::Closing);
    w.step(WorkerEvent::Closed(true));
    assert_eq!(w.step(WorkerEvent::Closed(false)), Turn { note: None, next: Next::Notify(3) });
    assert_eq!(w.phase(), Phase::Notifying);
    w.step(WorkerEvent::Notified(true));
    assert_eq!(w.step(WorkerEvent::Waited(Incoming::Message)), Turn { note: None, next: Next::Finish });
    assert_eq!(w.step(WorkerEvent::Notified(false)), Turn { note: None, next: Next::Finish });
    assert_eq!(w.phase(), Phase::Done);
}

#[test]
fn worker_never_waits_again_after_waiting_ended() {
    let mut w = worker(3);
    w.step(WorkerEvent::Waited(Incoming::Message));
    w.step(WorkerEvent::Waited(Incoming::Error));
    let events = [
        WorkerEvent::Waited(Incoming::Message),
        WorkerEvent::Closed(true),
        WorkerEvent::Waited(Incoming::Message),
        WorkerEvent::Notified(true),
        WorkerEvent::Waited(Incoming::Message),
    ];
    for event in events {
        assert_ne!(w.step(event).next, Next::Receive);
    }
    assert_eq!(w.phase(), Phase::Done);
}
