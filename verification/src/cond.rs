//! Condition decoder: maps the 4-bit condition field (bits 28-32 of the
//! raw word) to a named condition, or fails on the one reserved code.

use vstd::prelude::*;
use crate::error::ArmError;

verus! {

/// The fifteen named conditions, in the numeric order of their 4-bit
/// codes 0 through 14; code 15 is reserved and has no member here.
#[derive(Debug, Copy, Clone, PartialEq, Eq, Structural)]
pub enum ArmCond {
    Equal,
    NotEqual,
    UnsignedHigherOrSame,
    UnsignedLower,
    Negative,
    PositiveOrZero,
    Overflow,
    NoOverflow,
    UnsignedHigher,
    UnsignedLowerOrSame,
    GreaterOrEqual,
    LessThan,
    GreaterThan,
    LessThanOrEqual,
    Always,
}

/// The 4-bit code of a condition.
pub open spec fn cond_number(c: ArmCond) -> u32 {
    match c {
        ArmCond::Equal => 0,
        ArmCond::NotEqual => 1,
        ArmCond::UnsignedHigherOrSame => 2,
        ArmCond::UnsignedLower => 3,
        ArmCond::Negative => 4,
        ArmCond::PositiveOrZero => 5,
        ArmCond::Overflow => 6,
        ArmCond::NoOverflow => 7,
        ArmCond::UnsignedHigher => 8,
        ArmCond::UnsignedLowerOrSame => 9,
        ArmCond::GreaterOrEqual => 10,
        ArmCond::LessThan => 11,
        ArmCond::GreaterThan => 12,
        ArmCond::LessThanOrEqual => 13,
        ArmCond::Always => 14,
    }
}

/// The condition a code decodes to: the named condition for codes 0
/// through 14, the reserved-condition error for every other code.
pub open spec fn spec_condition(code: u32) -> Result<ArmCond, ArmError> {
    if code == 0 {
        Ok(ArmCond::Equal)
    } else if code == 1 {
        Ok(ArmCond::NotEqual)
    } else if code == 2 {
        Ok(ArmCond::UnsignedHigherOrSame)
    } else if code == 3 {
        Ok(ArmCond::UnsignedLower)
    } else if code == 4 {
        Ok(ArmCond::Negative)
    } else if code == 5 {
        Ok(ArmCond::PositiveOrZero)
    } else if code == 6 {
        Ok(ArmCond::Overflow)
    } else if code == 7 {
        Ok(ArmCond::NoOverflow)
    } else if code == 8 {
        Ok(ArmCond::UnsignedHigher)
    } else if code == 9 {
        Ok(ArmCond::UnsignedLowerOrSame)
    } else if code == 10 {
        Ok(ArmCond::GreaterOrEqual)
    } else if code == 11 {
        Ok(ArmCond::LessThan)
    } else if code == 12 {
        Ok(ArmCond::GreaterThan)
    } else if code == 13 {
        Ok(ArmCond::LessThanOrEqual)
    } else if code == 14 {
        Ok(ArmCond::Always)
    } else {
        Err(ArmError::UndefinedConditionCode(code))
    }
}

impl ArmCond {
    /// Decodes a condition code: codes 0 through 14 yield the named
    /// conditions in numeric order, all other codes the
    /// reserved-condition error carrying the code.
    pub fn decode(code: u32) -> (r: Result<ArmCond, ArmError>)
        ensures
            r == spec_condition(code),
    {
        if code == 0 {
            Ok(ArmCond::Equal)
        } else if code == 1 {
            Ok(ArmCond::NotEqual)
        } else if code == 2 {
            Ok(ArmCond::UnsignedHigherOrSame)
        } else if code == 3 {
            Ok(ArmCond::UnsignedLower)
        } else if code == 4 {
            Ok(ArmCond::Negative)
        } else if code == 5 {
            Ok(ArmCond::PositiveOrZero)
        } else if code == 6 {
            Ok(ArmCond::Overflow)
        } else if code == 7 {
            Ok(ArmCond::NoOverflow)
        } else if code == 8 {
            Ok(ArmCond::UnsignedHigher)
        } else if code == 9 {
            Ok(ArmCond::UnsignedLowerOrSame)
        } else if code == 10 {
            Ok(ArmCond::GreaterOrEqual)
        } else if code == 11 {
            Ok(ArmCond::LessThan)
        } else if code == 12 {
            Ok(ArmCond::GreaterThan)
        } else if code == 13 {
            Ok(ArmCond::LessThanOrEqual)
        } else if code == 14 {
            Ok(ArmCond::Always)
        } else {
            Err(ArmError::UndefinedConditionCode(code))
        }
    }
}

/// Condition coverage: codes 0 through 14 decode to conditions whose own
/// codes they are (so distinct codes give distinct conditions), every
/// condition is reached from its code, and every other code fails with
/// the reserved-condition error carrying that code.
pub proof fn lemma_condition_coverage()
    ensures
        forall|code: u32|
            code <= 14 ==> ((#[trigger] spec_condition(code)) matches Ok(c) && cond_number(c)
                == code),
        forall|c: ArmCond| #[trigger] spec_condition(cond_number(c)) == Ok::<ArmCond, ArmError>(c),
        forall|code: u32|
            code > 14 ==> #[trigger] spec_condition(code) == Err::<ArmCond, ArmError>(
                ArmError::UndefinedConditionCode(code),
            ),
{
}

} // verus!
