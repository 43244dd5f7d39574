//! The render loop's decisions: what each event does to the dashboard.
//!
//! Snapshots, keystrokes and failures reach the loop as one ordered stream.
//! The loop holds the latest snapshot and the name toggle, and nothing else
//! touches them. [`step`] is the whole of its logic; the loop around it only
//! receives, draws and stops as it is told.

use crate::error::{Cause, Error};
use crate::message::SensorsMessage;
use vstd::prelude::*;

verus! {

/// The key that shows the sensors' names in place of their values, and back.
pub const KEY_NAMES: u8 = 115;

/// The key that ends the dashboard.
pub const KEY_QUIT: u8 = 113;

/// The escape key, which ends the dashboard as well.
pub const KEY_ESCAPE: u8 = 27;

/// What the loop receives.
#[derive(Clone, Debug, PartialEq, Eq)]
pub enum Event {
    /// A telemetry signal, with the snapshot that was its body if it had one.
    Sensors(Option<SensorsMessage>),
    /// One byte from the keyboard.
    Stdin(u8),
}

/// What the loop holds.
#[derive(Clone, Debug, PartialEq, Eq)]
pub enum Dashboard {
    /// No snapshot has arrived yet: there is nothing to draw.
    Waiting,
    /// The latest snapshot, and whether names are shown.
    Showing(SensorsMessage, bool),
}

/// What the loop is to do after an event.
#[derive(Clone, Debug, PartialEq, Eq)]
pub enum Action {
    /// Wait for the next event.
    Wait,
    /// Draw the dashboard, then wait for the next event.
    Draw,
    /// Leave the loop: the user asked for it.
    Quit,
    /// Leave the loop with this failure.
    Fail(Error),
}

/// Whether `byte` is one of the two keys that end the dashboard.
pub open spec fn is_quit_key(byte: u8) -> bool {
    byte == KEY_QUIT || byte == KEY_ESCAPE
}

/// The dashboard after an event, and what the loop does then.
///
/// A failure from a producer ends the loop, as does a signal without a
/// body. Before the first snapshot keystrokes are dropped, and the first
/// snapshot is held but not drawn. From then on every event but a quit key
/// leads to a drawing: a snapshot replaces the one held and keeps the toggle,
/// the names key flips the toggle, any other key changes nothing.
pub open spec fn stepped(state: Dashboard, input: Result<Event, Error>) -> (Dashboard, Action) {
    match input {
        Err(error) => (state, Action::Fail(error)),
        Ok(Event::Sensors(None)) => (state, Action::Fail(Error::Other(Cause::NoBody))),
        Ok(Event::Sensors(Some(message))) => match state {
            Dashboard::Waiting => (Dashboard::Showing(message, false), Action::Wait),
            Dashboard::Showing(_, show_sensor_names) => (
                Dashboard::Showing(message, show_sensor_names),
                Action::Draw,
            ),
        },
        Ok(Event::Stdin(byte)) => match state {
            Dashboard::Waiting => (Dashboard::Waiting, Action::Wait),
            Dashboard::Showing(message, show_sensor_names) => if byte == KEY_NAMES {
                (Dashboard::Showing(message, !show_sensor_names), Action::Draw)
            } else if is_quit_key(byte) {
                (state, Action::Quit)
            } else {
                (state, Action::Draw)
            },
        },
    }
}

/// Whether the loop goes on after an action.
pub open spec fn goes_on(action: Action) -> bool {
    action is Wait || action is Draw
}

/// The dashboard after the first `count` inputs, if the loop is still
/// running then; `None` once an input has ended it.
pub open spec fn run(inputs: Seq<Result<Event, Error>>, count: nat) -> Option<Dashboard>
    decreases count,
{
    if count == 0 {
        Some(Dashboard::Waiting)
    } else {
        match run(inputs, (count - 1) as nat) {
            None => None,
            Some(state) => {
                let (next, action) = stepped(state, inputs[count - 1]);
                if goes_on(action) {
                    Some(next)
                } else {
                    None
                }
            },
        }
    }
}

/// A quit key ends the loop at any point after the first snapshot, whatever
/// came before it.
pub proof fn lemma_quit_key_ends_the_loop_at_any_point(
    inputs: Seq<Result<Event, Error>>,
    count: nat,
)
    requires
        count < inputs.len(),
        run(inputs, count) matches Some(Dashboard::Showing(_, _)),
        inputs[count as int] matches Ok(Event::Stdin(byte)) && is_quit_key(byte),
    ensures
        run(inputs, count + 1) is None,
{
}

/// A key that is pressed before the first snapshot leaves no trace.
pub proof fn lemma_early_keys_are_dropped(inputs: Seq<Result<Event, Error>>, count: nat)
    requires
        count < inputs.len(),
        run(inputs, count) == Some(Dashboard::Waiting),
        inputs[count as int] is Ok,
        inputs[count as int]->Ok_0 is Stdin,
    ensures
        run(inputs, count + 1) == Some(Dashboard::Waiting),
{
}

/// Once the loop has ended, nothing that arrives later is heeded.
pub proof fn lemma_ended_stays_ended(inputs: Seq<Result<Event, Error>>, count: nat, later: nat)
    requires
        count <= later,
        run(inputs, count) is None,
    ensures
        run(inputs, later) is None,
    decreases later,
{
    if count < later {
        lemma_ended_stays_ended(inputs, count, (later - 1) as nat);
    }
}

/// Once a snapshot is shown, a quit key ends the loop, whatever is held.
pub proof fn lemma_quit_key_ends_the_loop(message: SensorsMessage, show_sensor_names: bool, byte: u8)
    requires
        is_quit_key(byte),
    ensures
        stepped(Dashboard::Showing(message, show_sensor_names), Ok(Event::Stdin(byte))).1
            == Action::Quit,
{
}

/// A snapshot never touches the toggle, and a key never touches the
/// snapshot.
pub proof fn lemma_sole_owner(
    held: SensorsMessage,
    show_sensor_names: bool,
    arrived: SensorsMessage,
    byte: u8,
)
    ensures
        stepped(Dashboard::Showing(held, show_sensor_names), Ok(Event::Sensors(Some(arrived)))).0
            == Dashboard::Showing(arrived, show_sensor_names),
        stepped(Dashboard::Showing(held, show_sensor_names), Ok(Event::Stdin(byte))).0
            matches Dashboard::Showing(kept, _) && kept == held,
{
}

/// Nothing is drawn, and no key is heeded, before the first snapshot.
pub proof fn lemma_waits_for_first_snapshot(input: Result<Event, Error>)
    ensures
        !(stepped(Dashboard::Waiting, input).1 is Draw),
        !(stepped(Dashboard::Waiting, input).1 is Quit),
        input matches Ok(Event::Stdin(_)) ==> stepped(Dashboard::Waiting, input) == (
            Dashboard::Waiting,
            Action::Wait,
        ),
{
}

/// Whether `byte` is one of the two keys that end the dashboard.
pub fn quits(byte: u8) -> (yes: bool)
    ensures
        yes == is_quit_key(byte),
{
    byte == KEY_QUIT || byte == KEY_ESCAPE
}

/// Takes one event: gives the dashboard after it and what the loop is to do.
pub fn step(state: Dashboard, input: Result<Event, Error>) -> (result: (Dashboard, Action))
    ensures
        result == stepped(state, input),
{
    match input {
        Err(error) => (state, Action::Fail(error)),
        Ok(Event::Sensors(None)) => (state, Action::Fail(Error::Other(Cause::NoBody))),
        Ok(Event::Sensors(Some(message))) => match state {
            Dashboard::Waiting => (Dashboard::Showing(message, false), Action::Wait),
            Dashboard::Showing(_, show_sensor_names) => (
                Dashboard::Showing(message, show_sensor_names),
                Action::Draw,
            ),
        },
        Ok(Event::Stdin(byte)) => match state {
            Dashboard::Waiting => (Dashboard::Waiting, Action::Wait),
            Dashboard::Showing(message, show_sensor_names) => if byte == KEY_NAMES {
                (Dashboard::Showing(message, !show_sensor_names), Action::Draw)
            } else if quits(byte) {
                (Dashboard::Showing(message, show_sensor_names), Action::Quit)
            } else {
                (Dashboard::Showing(message, show_sensor_names), Action::Draw)
            },
        },
    }
}

} // verus!
