use vstd::prelude::*;

verus! {

/// One of the two directions in which bytes are copied.
#[derive(Clone, Copy, Debug, PartialEq, Eq, Structural)]
pub enum Direction {
    /// From the client to the destination.
    Outbound,
    /// From the destination to the client.
    Inbound,
}

/// Which directions of a spliced connection are still copying.
#[derive(Clone, Copy, Debug, PartialEq, Eq, Structural)]
pub struct SpliceState {
    pub outbound_open: bool,
    pub inbound_open: bool,
    /// A copy has failed: the connection is given up.
    pub failed: bool,
}

/// What happened to one direction.
#[derive(Clone, Copy, Debug, PartialEq, Eq, Structural)]
pub enum SpliceEvent {
    /// Its reader reached the end.
    Eof(Direction),
    /// Reading or writing failed.
    Failed(Direction),
}

/// What is done after an event.
#[derive(Clone, Copy, Debug, PartialEq, Eq, Structural)]
pub enum SpliceAction {
    /// Shut down the writer of this direction; the other direction goes on.
    HalfClose(Direction),
    /// Shut down the writer of this direction; both directions have ended
    /// and the task ends.
    Finish(Direction),
    /// Give the connection up with an error.
    Abort,
    /// Nothing: the event concerns a direction that is no longer copying.
    Ignore,
}

impl SpliceState {
    /// Whether a direction is still copying.
    pub open spec fn is_open(self, d: Direction) -> bool {
        match d {
            Direction::Outbound => self.outbound_open,
            Direction::Inbound => self.inbound_open,
        }
    }

    /// The state with a direction closed.
    pub open spec fn closed(self, d: Direction) -> SpliceState {
        match d {
            Direction::Outbound => SpliceState { outbound_open: false, ..self },
            Direction::Inbound => SpliceState { inbound_open: false, ..self },
        }
    }

    /// Whether the task has ended: both directions ended, or one failed.
    pub open spec fn done(self) -> bool {
        self.failed || (!self.outbound_open && !self.inbound_open)
    }
}

/// The other direction.
pub open spec fn opposite(d: Direction) -> Direction {
    match d {
        Direction::Outbound => Direction::Inbound,
        Direction::Inbound => Direction::Outbound,
    }
}

/// The state of a connection whose two copies have just been started.
pub open spec fn spliced() -> SpliceState {
    SpliceState { outbound_open: true, inbound_open: true, failed: false }
}

/// The step that an event causes. The end of a direction that is copying
/// closes that direction and shuts its writer down; the other direction is
/// not touched. A failure of a direction that is copying gives the whole
/// connection up. Anything else changes nothing.
pub open spec fn splice_step(state: SpliceState, event: SpliceEvent) -> (
    SpliceState,
    SpliceAction,
) {
    match event {
        SpliceEvent::Eof(d) => if state.failed || !state.is_open(d) {
            (state, SpliceAction::Ignore)
        } else if state.is_open(opposite(d)) {
            (state.closed(d), SpliceAction::HalfClose(d))
        } else {
            (state.closed(d), SpliceAction::Finish(d))
        },
        SpliceEvent::Failed(d) => if state.failed || !state.is_open(d) {
            (state, SpliceAction::Ignore)
        } else {
            (
                SpliceState { outbound_open: false, inbound_open: false, failed: true },
                SpliceAction::Abort,
            )
        },
    }
}

/// Starts the splice of a connection: both directions copy.
pub fn start_splice() -> (state: SpliceState)
    ensures
        state == spliced(),
{
    SpliceState { outbound_open: true, inbound_open: true, failed: false }
}

/// One step of the splice of a connection: takes the state and what
/// happened to one direction, returns the next state and what to do.
pub fn passthrough(state: SpliceState, event: SpliceEvent) -> (r: (SpliceState, SpliceAction))
    ensures
        r == splice_step(state, event),
{
    match event {
        SpliceEvent::Eof(d) => {
            let (open, other_open) = match d {
                Direction::Outbound => (state.outbound_open, state.inbound_open),
                Direction::Inbound => (state.inbound_open, state.outbound_open),
            };
            if state.failed || !open {
                return (state, SpliceAction::Ignore);
            }
            let next = match d {
                Direction::Outbound => SpliceState {
                    outbound_open: false,
                    inbound_open: state.inbound_open,
                    failed: state.failed,
                },
                Direction::Inbound => SpliceState {
                    outbound_open: state.outbound_open,
                    inbound_open: false,
                    failed: state.failed,
                },
            };
            if other_open {
                (next, SpliceAction::HalfClose(d))
            } else {
                (next, SpliceAction::Finish(d))
            }
        },
        SpliceEvent::Failed(d) => {
            let open = match d {
                Direction::Outbound => state.outbound_open,
                Direction::Inbound => state.inbound_open,
            };
            if state.failed || !open {
                (state, SpliceAction::Ignore)
            } else {
                (
                    SpliceState { outbound_open: false, inbound_open: false, failed: true },
                    SpliceAction::Abort,
                )
            }
        },
    }
}

/// After one direction of a fresh connection has ended, its writer is shut
/// down and the other direction goes on copying; the task is not over. It
/// is over once the other direction has ended too, and not before.
pub proof fn lemma_half_close(first: Direction)
    ensures
        ({
            let one = splice_step(spliced(), SpliceEvent::Eof(first));
            let two = splice_step(one.0, SpliceEvent::Eof(opposite(first)));
            &&& one.1 == SpliceAction::HalfClose(first)
            &&& one.0.is_open(opposite(first))
            &&& !one.0.is_open(first)
            &&& !one.0.done()
            &&& two.1 == SpliceAction::Finish(opposite(first))
            &&& two.0.done()
            &&& !two.0.failed
        }),
{
}

/// While nothing fails, the end of one direction never closes the other.
pub proof fn lemma_eof_leaves_other_direction(state: SpliceState, d: Direction)
    ensures
        splice_step(state, SpliceEvent::Eof(d)).0.is_open(opposite(d)) == state.is_open(
            opposite(d),
        ),
        splice_step(state, SpliceEvent::Eof(d)).0.failed == state.failed,
{
}

} // verus!
