use vstd::prelude::*;

verus! {

/// The pieces of optimizer state that can be logged.
#[derive(Clone, Copy, Debug, PartialEq, Eq, Structural)]
pub enum StateData {
    BestCost,
    BestParam,
    Cost,
    FunctionCounts,
    IsBest,
    Iter,
    LastBestIter,
    MaxIters,
    Param,
    TargetCost,
    TerminationReason,
    TerminationStatus,
    Time,
}

/// The display name of a tag, used as the key of the entry it produces.
pub open spec fn data_name(d: StateData) -> Seq<char> {
    match d {
        StateData::BestCost => "BestCost"@,
        StateData::BestParam => "BestParam"@,
        StateData::Cost => "Cost"@,
        StateData::FunctionCounts => "FunctionCounts"@,
        StateData::IsBest => "IsBest"@,
        StateData::Iter => "Iter"@,
        StateData::LastBestIter => "LastBestIter"@,
        StateData::MaxIters => "MaxIters"@,
        StateData::Param => "Param"@,
        StateData::TargetCost => "TargetCost"@,
        StateData::TerminationReason => "TerminationReason"@,
        StateData::TerminationStatus => "TerminationStatus"@,
        StateData::Time => "Time"@,
    }
}

impl StateData {
    /// The display name of the tag.
    pub fn name(&self) -> (r: &'static str)
        ensures
            r@ == data_name(*self),
    {
        match self {
            StateData::BestCost => "BestCost",
            StateData::BestParam => "BestParam",
            StateData::Cost => "Cost",
            StateData::FunctionCounts => "FunctionCounts",
            StateData::IsBest => "IsBest",
            StateData::Iter => "Iter",
            StateData::LastBestIter => "LastBestIter",
            StateData::MaxIters => "MaxIters",
            StateData::Param => "Param",
            StateData::TargetCost => "TargetCost",
            StateData::TerminationReason => "TerminationReason",
            StateData::TerminationStatus => "TerminationStatus",
            StateData::Time => "Time",
        }
    }
}

} // verus!
