use vstd::prelude::*;

use crate::arguments::{Arguments, LeafField};
use crate::flatten::FlattenedArguments;
use crate::options::CellApiConfig;
use crate::sections::{DevicePublisherArgs, MilesightArgs};

verus! {

/// A leaf that the command line gives keeps the command line's value after
/// the merge, whatever the stored snapshot holds.
pub proof fn lemma_cli_value_wins(cli: Arguments, stored: Arguments)
    ensures
        forall|k: LeafField| #[trigger]
            cli.leaf(k) is Some ==> cli.merged(stored).leaf(k) == cli.leaf(k),
{
}

/// Against a complete stored snapshot the merge always succeeds, and a leaf
/// that the command line leaves unspecified takes the stored value.
pub proof fn lemma_stored_value_fills(cli: Arguments, stored: Arguments)
    requires
        stored.is_complete(),
    ensures
        cli.can_merge(stored),
        cli.merged(stored).is_complete(),
        forall|k: LeafField| #[trigger]
            cli.leaf(k) is None ==> cli.merged(stored).leaf(k) == stored.leaf(k),
{
    assert(stored.leaf(LeafField::MilesightAddress) is Some);
    assert(stored.leaf(LeafField::DevpubAddress) is Some);
    assert(stored.leaf(LeafField::NgPath) is Some);
    assert(stored.leaf(LeafField::MatchingLocalAddr) is Some);
    assert(stored.leaf(LeafField::ModelLogMetric) is Some);
    assert(stored.leaf(LeafField::DownloadBaseAddr) is Some);
    assert forall|k: LeafField| #[trigger] cli.merged(stored).leaf(k) is Some by {
        assert(stored.leaf(k) is Some);
    }
}

/// Loading a snapshot that holds the Default Table, with nothing given on the
/// command line, resolves to exactly that snapshot.
pub proof fn lemma_default_round_trip(stored: Arguments)
    requires
        stored.is_default_table(),
    ensures
        Arguments::unspecified().can_merge(stored),
        Arguments::unspecified().merged(stored) == stored,
        Arguments::unspecified().merged(stored).is_default_table(),
{
}

/// Flattening reads only the data-source section that is selected: the
/// other one may hold anything, or be absent, without changing the outcome.
pub proof fn lemma_unused_source_ignored(
    args: Arguments,
    milesight: Option<MilesightArgs>,
    devicepublisher: Option<DevicePublisherArgs>,
)
    ensures
        args.cellapi == Some(CellApiConfig::Milesight) ==> {
            let other = Arguments { devicepublisher, ..args };
            &&& FlattenedArguments::can_flatten(other) == FlattenedArguments::can_flatten(args)
            &&& FlattenedArguments::flat_of(other) == FlattenedArguments::flat_of(args)
        },
        args.cellapi == Some(CellApiConfig::DevicePublisher) ==> {
            let other = Arguments { milesight, ..args };
            &&& FlattenedArguments::can_flatten(other) == FlattenedArguments::can_flatten(args)
            &&& FlattenedArguments::flat_of(other) == FlattenedArguments::flat_of(args)
        },
{
}

/// An unspecified leaf in a scenario-agnostic section makes flattening fail,
/// whichever scenario is active.
pub proof fn lemma_agnostic_leaf_required(args: Arguments, k: LeafField)
    requires
        k.is_scenario_agnostic(),
        args.leaf(k) is None,
    ensures
        !FlattenedArguments::can_flatten(args),
{
}

} // verus!
