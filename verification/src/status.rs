use vstd::prelude::*;

verus! {

/// The closed set of statuses a grid cell can carry. `Emerging` is reserved
/// and never produced by any current operation.
#[derive(Clone, Copy, Debug, PartialEq, Eq, Structural)]
pub enum MoleStatus {
    Hidden,
    Emerging,
    Exposed,
    Whacked,
    QuantumTunneling,
}

/// Hammer tiers selectable by configuration; the service runs in `Foam` by
/// default.
#[derive(Clone, Copy, Debug, PartialEq, Eq, Structural)]
pub enum HammerType {
    Foam,
    Rubber,
    Quantum,
    Mjolnir,
}

/// The closed error set. `OutOfBounds` is the only error any current code
/// path produces; the remaining variants are reserved for forward
/// compatibility and are never raised.
#[derive(Clone, Copy, Debug, PartialEq, Eq, Structural)]
pub enum MoleError {
    OutOfBounds,
    MoleEscaped,
    HammerMalfunction,
    QuantumInterference,
}

impl HammerType {
    /// A printable label for the tier.
    pub fn label(&self) -> (r: &'static str)
        ensures
            r@ == match *self {
                HammerType::Foam => "Foam"@,
                HammerType::Rubber => "Rubber"@,
                HammerType::Quantum => "Quantum"@,
                HammerType::Mjolnir => "Mjolnir"@,
            },
    {
        match self {
            HammerType::Foam => "Foam",
            HammerType::Rubber => "Rubber",
            HammerType::Quantum => "Quantum",
            HammerType::Mjolnir => "Mjolnir",
        }
    }
}

/// Snapshot of the aggregated statistics: cumulative successful whacks, the
/// latency of the most recent whack operation, and the configured tier.
#[derive(Clone, Copy, Debug)]
pub struct Statistics {
    pub moles_whacked: u64,
    pub last_latency_ns: u64,
    pub hammer_tier: HammerType,
}

} // verus!
