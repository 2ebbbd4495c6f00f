//! The stages of a feature: a fixed set, numbered from 1. A number from
//! outside is checked against the set once, and only a checked stage ever
//! selects a slot or a column.

use vstd::prelude::*;
use crate::records::STAGE_COUNT;

verus! {

/// Whether a number names one of the fixed stages.
pub open spec fn is_stage(stage: int) -> bool {
    1 <= stage <= STAGE_COUNT
}

/// One of the fixed stages.
#[derive(Debug, Clone, Copy, PartialEq, Eq)]
pub struct Stage {
    number: u8,
}

impl View for Stage {
    type V = int;

    /// The number of the stage.
    closed spec fn view(&self) -> int {
        self.number as int
    }
}

impl Stage {
    #[verifier::type_invariant]
    spec fn in_range(self) -> bool {
        is_stage(self.number as int)
    }

    /// The stage of this number, if the number names one.
    pub fn new(number: i64) -> (stage: Option<Stage>)
        ensures
            stage is Some <==> is_stage(number as int),
            stage is Some ==> stage.unwrap()@ == number,
    {
        if 1 <= number && number <= STAGE_COUNT as i64 {
            Some(Stage { number: number as u8 })
        } else {
            None
        }
    }

    /// The number of the stage.
    pub fn number(&self) -> (number: i64)
        ensures
            number == self@,
            is_stage(number as int),
    {
        proof {
            use_type_invariant(self);
        }
        self.number as i64
    }

    /// The slot of a feature that holds the completion time of the stage.
    pub fn slot(&self) -> (slot: usize)
        ensures
            slot == self@ - 1,
            slot < STAGE_COUNT,
    {
        proof {
            use_type_invariant(self);
        }
        (self.number - 1) as usize
    }
}

} // verus!
