//! What the query layer asks of the machine.

use vstd::prelude::*;
use crate::motion::pulses_to_inches;
use crate::structs_and_consts::{AxisDirection, Inch, Pi, Stepper};

verus! {

/// The root of the queries.
pub struct Query;

/// The root of the mutations.
pub struct Mutation;

impl Query {
    /// The version of the interface.
    #[allow(non_snake_case)]
    pub fn apiVersion() -> (version: &'static str)
        ensures
            version@ == "1.0"@,
    {
        "1.0"
    }

    /// The position of an axis as a length from its zero, or nothing where
    /// the axis is not homed. The machine is read and stays as it is.
    pub fn axis(pi: &Pi, id: AxisDirection) -> (position: Option<Inch>)
        requires
            pi.stepper(id).calibrated(),
        ensures
            position == match pi.stepper(id).pos {
                None => None::<Inch>,
                Some(pulses) => Some(pi.stepper(id).inches_at(pulses as int) as Inch),
            },
    {
        let stepper: &Stepper = match id {
            AxisDirection::X => &pi.stepper_x,
            AxisDirection::Z => &pi.stepper_z,
        };
        match stepper.pos {
            None => None,
            Some(pulses) => Some(pulses_to_inches(pulses, stepper)),
        }
    }
}

} // verus!
