//! The fan of sensors that measures how far the engine is from what lies
//! around it.

use vstd::prelude::*;
use crate::game_logic::raycast::{RayCast, DEFAULT_MAX_DISTANCE};
use crate::scalar::Scalar;

verus! {

/// A list of sensors, one for each angle of the fan.
#[derive(Debug)]
pub struct EngineDistance {
    pub raycasts: Vec<RayCast>,
}

impl EngineDistance {
    /// The sensor that is mounted at `angle`.
    pub open spec fn sensor_at(angle: Scalar) -> RayCast {
        RayCast { max_distance: Scalar { bits: DEFAULT_MAX_DISTANCE }, angle }
    }

    /// One sensor of the default range for each of `angles`, in their order.
    pub fn new(angles: &Vec<Scalar>) -> (fan: EngineDistance)
        ensures
            fan.raycasts@.len() == angles@.len(),
            forall|i: int|
                0 <= i < angles@.len() ==> fan.raycasts@[i] == EngineDistance::sensor_at(
                    angles@[i],
                ),
    {
        let mut raycasts: Vec<RayCast> = Vec::new();
        let mut i: usize = 0;
        while i < angles.len()
            invariant
                i <= angles@.len(),
                raycasts@.len() == i,
                forall|j: int|
                    0 <= j < i ==> raycasts@[j] == EngineDistance::sensor_at(angles@[j]),
            decreases angles@.len() - i,
        {
            raycasts.push(RayCast::new(angles[i]));
            i = i + 1;
        }
        EngineDistance { raycasts }
    }
}

} // verus!
