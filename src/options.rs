use vstd::prelude::*;

verus! {

/// The operating mode that downstream components branch on.
#[derive(Clone, Copy, Debug, PartialEq, Eq, Structural, PartialOrd, Ord, Hash)]
pub enum Scenario {
    /// Track the UE and send the estimated transport capacity.
    TrackUeAndEstimateTransportCapacity,
    /// Only collect the cell's DCI data.
    TrackCellDciOnly,
    /// Download data while collecting connection information.
    PerformMeasurement,
}

/// Which API supplies cell data.
#[derive(Clone, Copy, Debug, PartialEq, Eq, Structural, PartialOrd, Ord, Hash)]
pub enum CellApiConfig {
    /// A Milesight router.
    Milesight,
    /// The DevicePublisher app.
    DevicePublisher,
}

/// How a model interval is interpreted: as a fixed number of milliseconds,
/// or as a factor of the round-trip time.
#[derive(Clone, Copy, Debug, PartialEq, Eq, Structural, PartialOrd, Ord, Hash)]
pub enum DynamicValue {
    FixedMs,
    RttFactor,
}

/// A traffic pattern used to match the UE's RNTI.
#[derive(Clone, Copy, Debug, PartialEq, Eq, Structural, PartialOrd, Ord, Hash)]
pub enum RntiMatchingTrafficPatternType {
    A,
    B,
    C,
    D,
    E,
    F,
    G,
    H,
}

/// The fatal conditions of configuration resolution.
#[derive(Clone, Copy, Debug, PartialEq, Eq, Structural)]
pub enum ConfigError {
    /// The command line gave part of a section that the stored snapshot lacks
    /// altogether, so the section cannot be filled.
    MissingStoredSection,
    /// A leaf that flattening needs is still unspecified after the merge.
    IncompleteAfterMerge,
}

} // verus!
