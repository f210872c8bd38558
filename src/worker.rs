use vstd::prelude::*;

verus! {

/// Direction of a load run.
#[derive(Clone, Copy, Debug, PartialEq, Eq, Structural)]
pub enum Direction {
    Upload,
    Download,
}

/// Where one connection stands in its transfer.
#[derive(Clone, Copy, Debug, PartialEq, Eq, Structural)]
pub enum Phase {
    /// Waiting for the connection to be made.
    Connecting,
    /// Connected; the request line is to be sent.
    Requesting,
    /// Download only: the first chunk of the response is awaited.
    FirstRead,
    /// Moving data until the stop flag is seen.
    Streaming,
    /// Finished, for good or after a failure.
    Done,
}

/// What the connection reported after the last action.
#[derive(Clone, Copy, Debug, PartialEq, Eq, Structural)]
pub enum Event {
    Connected,
    ConnectFailed,
    /// The whole request line, of the given length, was written.
    RequestSent(u64),
    RequestFailed,
    /// One read or write moved the given number of bytes.
    Transferred(u64),
    TransferFailed,
}

/// What the connection should do next.
#[derive(Clone, Copy, Debug, PartialEq, Eq, Structural)]
pub enum Action {
    SendRequest,
    Read,
    Write,
    /// Stop and join the end rendezvous.
    Finish,
}

/// The result of one step: the next action and the bytes that this step
/// adds to the connection's counter.
#[derive(Clone, Copy, Debug, PartialEq, Eq, Structural)]
pub struct Step {
    pub action: Action,
    pub counted: u64,
}

/// The transfer action of a direction: downloads read, uploads write.
pub open spec fn transfer_action(d: Direction) -> Action {
    match d {
        Direction::Download => Action::Read,
        Direction::Upload => Action::Write,
    }
}

/// After counted bytes: go on streaming unless the stop flag is set.
pub open spec fn after_counted(d: Direction, stop: bool, n: u64) -> (Phase, Step) {
    if stop {
        (Phase::Done, Step { action: Action::Finish, counted: n })
    } else {
        (Phase::Streaming, Step { action: transfer_action(d), counted: n })
    }
}

/// The end of a connection, with nothing counted.
pub open spec fn finished() -> (Phase, Step) {
    (Phase::Done, Step { action: Action::Finish, counted: 0 })
}

/// The transfer protocol of one connection. A connection that fails at
/// any point, or whose first download chunk is empty, finishes and counts
/// nothing more; it is never retried and still counts as a participant.
/// An upload counts its request line; a download counts only what it reads.
pub open spec fn transition(d: Direction, p: Phase, e: Event, stop: bool) -> (Phase, Step) {
    match (p, e) {
        (Phase::Connecting, Event::Connected) => (
            Phase::Requesting,
            Step { action: Action::SendRequest, counted: 0 },
        ),
        (Phase::Requesting, Event::RequestSent(len)) => match d {
            Direction::Download => (Phase::FirstRead, Step { action: Action::Read, counted: 0 }),
            Direction::Upload => after_counted(d, stop, len),
        },
        (Phase::FirstRead, Event::Transferred(n)) => if n == 0 {
            finished()
        } else {
            after_counted(d, stop, n)
        },
        (Phase::Streaming, Event::Transferred(n)) => after_counted(d, stop, n),
        _ => finished(),
    }
}

/// One connection of a load run, with the bytes it has counted so far.
pub struct Worker {
    pub direction: Direction,
    pub phase: Phase,
    pub total: u128,
}

impl Worker {
    /// A connection about to be opened.
    pub fn new(direction: Direction) -> (r: Worker)
        ensures
            r.direction == direction,
            r.phase == Phase::Connecting,
            r.total == 0,
    {
        Worker { direction, phase: Phase::Connecting, total: 0 }
    }

    /// The action of a direction's transfer loop.
    pub fn transfer(&self) -> (r: Action)
        ensures
            r == transfer_action(self.direction),
    {
        match self.direction {
            Direction::Download => Action::Read,
            Direction::Upload => Action::Write,
        }
    }

    fn continue_or_stop(&mut self, stop: bool, n: u64) -> (r: Step)
        ensures
            final(self).direction == old(self).direction,
            final(self).total == old(self).total,
            (final(self).phase, r) == after_counted(old(self).direction, stop, n),
    {
        if stop {
            self.phase = Phase::Done;
            Step { action: Action::Finish, counted: n }
        } else {
            self.phase = Phase::Streaming;
            Step { action: self.transfer(), counted: n }
        }
    }

    fn finish(&mut self) -> (r: Step)
        ensures
            final(self).direction == old(self).direction,
            final(self).total == old(self).total,
            (final(self).phase, r) == finished(),
    {
        self.phase = Phase::Done;
        Step { action: Action::Finish, counted: 0 }
    }

    /// Advances the connection on an event; `stop` is the run's stop flag
    /// as last read. The step's count is added to the connection's total.
    pub fn step(&mut self, event: Event, stop: bool) -> (r: Step)
        requires
            old(self).total <= u128::MAX - u64::MAX,
        ensures
            final(self).direction == old(self).direction,
            (final(self).phase, r) == transition(old(self).direction, old(self).phase, event, stop),
            final(self).total == old(self).total + r.counted,
    {
        let r = self.advance(event, stop);
        self.total = self.total + r.counted as u128;
        r
    }

    fn advance(&mut self, event: Event, stop: bool) -> (r: Step)
        ensures
            final(self).direction == old(self).direction,
            final(self).total == old(self).total,
            (final(self).phase, r) == transition(old(self).direction, old(self).phase, event, stop),
    {
        match (self.phase, event) {
            (Phase::Connecting, Event::Connected) => {
                self.phase = Phase::Requesting;
                Step { action: Action::SendRequest, counted: 0 }
            },
            (Phase::Requesting, Event::RequestSent(len)) => match self.direction {
                Direction::Download => {
                    self.phase = Phase::FirstRead;
                    Step { action: Action::Read, counted: 0 }
                },
                Direction::Upload => self.continue_or_stop(stop, len),
            },
            (Phase::FirstRead, Event::Transferred(n)) => {
                if n == 0 {
                    self.finish()
                } else {
                    self.continue_or_stop(stop, n)
                }
            },
            (Phase::Streaming, Event::Transferred(n)) => self.continue_or_stop(stop, n),
            _ => self.finish(),
        }
    }
}

/// A connection finishes exactly when it reaches `Done`, and once there it
/// stays there and counts nothing more.
pub proof fn lemma_done_is_final(d: Direction, p: Phase, e: Event, stop: bool)
    ensures
        (transition(d, p, e, stop).1.action == Action::Finish) <==> (transition(d, p, e, stop).0
            == Phase::Done),
        p == Phase::Done ==> transition(d, p, e, stop) == finished(),
{
}

/// Nothing is counted before the request line is sent, nor on any failure.
pub proof fn lemma_failures_count_nothing(d: Direction, p: Phase, e: Event, stop: bool)
    ensures
        (e == Event::Connected || e == Event::ConnectFailed || e == Event::RequestFailed || e
            == Event::TransferFailed) ==> transition(d, p, e, stop).1.counted == 0,
        p == Phase::Connecting ==> transition(d, p, e, stop).1.counted == 0,
{
}

/// The phase reached and the bytes counted when a connection in phase `p`
/// sees the given events, each with the stop flag as read after it.
pub open spec fn replay(d: Direction, p: Phase, events: Seq<(Event, bool)>) -> (Phase, int)
    decreases events.len(),
{
    if events.len() == 0 {
        (p, 0)
    } else {
        let (q, s) = transition(d, p, events[0].0, events[0].1);
        let (f, n) = replay(d, q, events.drop_first());
        (f, s.counted + n)
    }
}

/// Sum of the sizes that a run of transfers reported.
pub open spec fn transferred_sum(sizes: Seq<u64>) -> int
    decreases sizes.len(),
{
    if sizes.len() == 0 {
        0
    } else {
        sizes[0] + transferred_sum(sizes.drop_first())
    }
}

/// The events of transfers of the given sizes, with the stop flag unset.
pub open spec fn transfers(sizes: Seq<u64>) -> Seq<(Event, bool)> {
    sizes.map_values(|w: u64| (Event::Transferred(w), false))
}

proof fn lemma_streaming_counts_all(d: Direction, sizes: Seq<u64>)
    ensures
        replay(d, Phase::Streaming, transfers(sizes)) == (Phase::Streaming, transferred_sum(sizes)),
    decreases sizes.len(),
{
    if sizes.len() > 0 {
        assert(transfers(sizes).drop_first() =~= transfers(sizes.drop_first()));
        lemma_streaming_counts_all(d, sizes.drop_first());
    }
}

/// An upload whose connection and request line succeed, followed by
/// writes of the given sizes before the stop flag is seen, counts exactly
/// the request line and every byte written, each once.
pub proof fn lemma_upload_counts_every_write(len: u64, sizes: Seq<u64>)
    ensures
        replay(
            Direction::Upload,
            Phase::Connecting,
            seq![(Event::Connected, false), (Event::RequestSent(len), false)] + transfers(sizes),
        ) == (Phase::Streaming, len + transferred_sum(sizes)),
{
    let evs = seq![(Event::Connected, false), (Event::RequestSent(len), false)] + transfers(sizes);
    let rest = evs.drop_first();
    assert(rest.drop_first() =~= transfers(sizes));
    assert(evs[0] == (Event::Connected, false));
    assert(rest[0] == (Event::RequestSent(len), false));
    lemma_streaming_counts_all(Direction::Upload, sizes);
    assert(replay(Direction::Upload, Phase::Requesting, rest) == (
        Phase::Streaming,
        len + transferred_sum(sizes),
    ));
}

} // verus!
