//! Choosing the MIDI input port among those the system offers.

use vstd::prelude::*;

verus! {

/// How a port is to be chosen among `count` ports.
#[derive(Clone, Copy, Debug, PartialEq, Eq, Structural)]
pub enum PortPlan {
    /// There is no port: startup fails.
    NoPort,
    /// There is exactly one port: it is taken without asking.
    Only,
    /// There are several: the user picks one by its position.
    Ask,
}

/// Why no port could be chosen.
#[derive(Clone, Copy, Debug, PartialEq, Eq, Structural)]
pub enum PortError {
    NoPort,
    NotANumber,
    OutOfRange,
}

pub fn port_plan(count: usize) -> (r: PortPlan)
    ensures
        r == (if count == 0 {
            PortPlan::NoPort
        } else if count == 1 {
            PortPlan::Only
        } else {
            PortPlan::Ask
        }),
{
    if count == 0 {
        PortPlan::NoPort
    } else if count == 1 {
        PortPlan::Only
    } else {
        PortPlan::Ask
    }
}

/// The position of the chosen port. `choice` is the number the user typed,
/// `None` when the text was no number; it is only read when there are
/// several ports.
pub fn select_port(count: usize, choice: Option<usize>) -> (r: Result<usize, PortError>)
    ensures
        count == 0 ==> r == Err::<usize, PortError>(PortError::NoPort),
        count == 1 ==> r == Ok::<usize, PortError>(0),
        count > 1 ==> r == (match choice {
            None => Err(PortError::NotANumber),
            Some(i) => if i < count {
                Ok(i)
            } else {
                Err(PortError::OutOfRange)
            },
        }),
        r matches Ok(i) ==> i < count,
{
    match port_plan(count) {
        PortPlan::NoPort => Err(PortError::NoPort),
        PortPlan::Only => Ok(0),
        PortPlan::Ask => match choice {
            None => Err(PortError::NotANumber),
            Some(i) => if i < count {
                Ok(i)
            } else {
                Err(PortError::OutOfRange)
            },
        },
    }
}

} // verus!
