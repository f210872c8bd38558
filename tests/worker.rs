use bim_tcp::worker::{Action, Direction, Event, Phase, Step, Worker};

#[test]
fn download_session() {
    let mut w = Worker::new(Direction::Download);
    assert_eq!(w.step(Event::Connected, false), Step { action: Action::SendRequest, counted: 0 });
    assert_eq!(w.step(Event::RequestSent(21), false), Step { action: Action::Read, counted: 0 });
    assert_eq!(w.phase, Phase::FirstRead);
    assert_eq!(w.step(Event::Transferred(65536), false), Step { action: Action::Read, counted: 65536 });
    assert_eq!(w.step(Event::Transferred(100), true), Step { action: Action::Finish, counted: 100 });
    assert_eq!(w.phase, Phase::Done);
    assert_eq!(w.step(Event::Transferred(5), false), Step { action: Action::Finish, counted: 0 });
}

#[test]
fn download_first_read_ignores_stop() {
    let mut w = Worker::new(Direction::Download);
    w.step(Event::Connected, true);
    assert_eq!(w.step(Event::RequestSent(21), true), Step { action: Action::Read, counted: 0 });
}

#[test]
fn empty_first_chunk_aborts() {
    let mut w = Worker::new(Direction::Download);
    w.step(Event::Connected, false);
    w.step(Event::RequestSent(21), false);
    assert_eq!(w.step(Event::Transferred(0), false), Step { action: Action::Finish, counted: 0 });
    assert_eq!(w.phase, Phase::Done);
}

#[test]
fn upload_counts_request_line() {
    let mut w = Worker::new(Direction::Upload);
    w.step(Event::Connected, false);
    assert_eq!(w.step(Event::RequestSent(21), false), Step { action: Action::Write, counted: 21 });
    assert_eq!(w.step(Event::Transferred(4096), false), Step { action: Action::Write, counted: 4096 });
    assert_eq!(w.step(Event::TransferFailed, false), Step { action: Action::Finish, counted: 0 });
}

#[test]
fn failed_connection_counts_nothing() {
    let mut w = Worker::new(Direction::Upload);
    assert_eq!(w.step(Event::ConnectFailed, false), Step { action: Action::Finish, counted: 0 });
    assert_eq!(w.phase, Phase::Done);
    let mut w = Worker::new(Direction::Download);
    w.step(Event::Connected, false);
    assert_eq!(w.step(Event::RequestFailed, false), Step { action: Action::Finish, counted: 0 });
}

#[test]
fn transfer_action_per_direction() {
    assert_eq!(Worker::new(Direction::Download).transfer(), Action::Read);
    assert_eq!(Worker::new(Direction::Upload).transfer(), Action::Write);
}

#[test]
fn upload_total_is_request_plus_writes() {
    let mut w = Worker::new(Direction::Upload);
    w.step(Event::Connected, false);
    w.step(Event::RequestSent(21), false);
    for n in [65536u64, 1000, 0, 4096] {
        w.step(Event::Transferred(n), false);
    }
    w.step(Event::Transferred(7), true);
    assert_eq!(w.total, 21 + 65536 + 1000 + 4096 + 7);
    w.step(Event::Transferred(9), false);
    assert_eq!(w.total, 21 + 65536 + 1000 + 4096 + 7);
}
