//! The decisions of the two producer loops: what to send after a reading, and when to stop.
use vstd::prelude::*;
use crate::display::DisplayUpdate;
use crate::format::{data_text, measurement, measurement_text, nest_data, Measurement};
use crate::nest::{Data, NestError};

verus! {

/// How one iteration of a producer loop went.
#[derive(Clone, Copy, Debug, PartialEq, Eq)]
pub enum Attempt {
    /// The reading failed; nothing was sent.
    ReadFailed,
    /// An update was sent.
    Sent,
    /// The send failed: the consumer has gone.
    Disconnected,
}

/// What a producer loop does after an iteration.
#[derive(Clone, Copy, Debug, PartialEq, Eq)]
pub enum Control {
    /// Wait its interval and read again.
    Continue,
    /// Leave the loop.
    Stop,
}

pub open spec fn control_spec(a: Attempt) -> Control {
    if a == Attempt::Disconnected {
        Control::Stop
    } else {
        Control::Continue
    }
}

/// The number of iterations a producer loop runs when its iterations go as `attempts`
/// (or runs through all of them, where none of them stops it).
pub open spec fn iterations_run(attempts: Seq<Attempt>) -> nat
    decreases attempts.len(),
{
    if attempts.len() == 0 {
        0
    } else if control_spec(attempts[0]) == Control::Stop {
        1
    } else {
        1 + iterations_run(attempts.drop_first())
    }
}

/// A failed send stops the loop; a failed reading or a delivered update does not.
pub fn next_control(attempt: Attempt) -> (r: Control)
    ensures
        r == control_spec(attempt),
        r == Control::Stop <==> attempt == Attempt::Disconnected,
{
    match attempt {
        Attempt::Disconnected => Control::Stop,
        _ => Control::Continue,
    }
}

/// The update for a sensor reading, for the first line; none for a failed reading.
pub fn sensor_update(reading: Option<Measurement>) -> (r: Option<DisplayUpdate>)
    ensures
        match reading {
            Some(m) => r matches Some(DisplayUpdate::First(s)) && s@ == measurement_text(m),
            None => r is None,
        },
{
    match reading {
        Some(m) => Some(DisplayUpdate::First(measurement(&m))),
        None => None,
    }
}

/// The update for a thermostat reading, for the second line; none for a failed one.
pub fn nest_update(reading: &Result<Data, NestError>) -> (r: Option<DisplayUpdate>)
    ensures
        match reading {
            Ok(d) => r matches Some(DisplayUpdate::Second(s)) && s@ == data_text(*d),
            Err(_) => r is None,
        },
{
    match reading {
        Ok(d) => Some(DisplayUpdate::Second(nest_data(d))),
        Err(_) => None,
    }
}

/// A producer loop whose send fails because the consumer has gone runs no iteration after
/// that one, whatever the iterations before it did.
pub proof fn lemma_stops_after_disconnect(attempts: Seq<Attempt>, i: int)
    requires
        0 <= i < attempts.len(),
        attempts[i] == Attempt::Disconnected,
    ensures
        iterations_run(attempts) <= i + 1,
    decreases i,
{
    if i > 0 && control_spec(attempts[0]) != Control::Stop {
        assert(attempts.drop_first()[i - 1] == attempts[i]);
        lemma_stops_after_disconnect(attempts.drop_first(), i - 1);
    }
}

} // verus!
