//! Whole runs of a batch download, and what holds of them whatever becomes
//! of the single addresses.

use crate::abi::ContractModel;
use crate::address::parsed_address;
use crate::orchestrator::{
    initial, transition, turn_to_address, ActionModel, DownloaderModel, EventModel, Stage,
};
use crate::table::TableKind;
use vstd::prelude::*;
use vstd::utf8::encode_utf8;

verus! {

/// What becomes of one address in a run.
pub enum Outcome {
    /// Its interface description was fetched and both tables were written.
    Stored(ContractModel),
    /// The fetch failed.
    NotFetched,
    /// Its interface description was fetched, but a table was not written.
    NotWritten(ContractModel),
}

/// What the caller reports for an address with this outcome, in order.
pub open spec fn events_of(outcome: Outcome) -> Seq<EventModel> {
    match outcome {
        Outcome::Stored(abi) => seq![
            EventModel::Fetched(abi),
            EventModel::Written,
            EventModel::Paused,
        ],
        Outcome::NotFetched => seq![EventModel::FetchFailed, EventModel::Paused],
        Outcome::NotWritten(abi) => seq![
            EventModel::Fetched(abi),
            EventModel::WriteFailed,
            EventModel::Paused,
        ],
    }
}

/// The state that `events` lead to, and the last action asked for; `asked`
/// where there is no event.
pub open spec fn after_events(
    run: DownloaderModel,
    asked: ActionModel,
    events: Seq<EventModel>,
) -> (DownloaderModel, ActionModel)
    decreases events.len(),
{
    if events.len() == 0 {
        (run, asked)
    } else {
        let next = transition(run, events[0]);
        after_events(next.0, next.1, events.skip(1))
    }
}

/// The state that a run reaches when its next addresses meet `outcomes`,
/// one after the other, and the last action asked for.
pub open spec fn after_outcomes(
    run: DownloaderModel,
    asked: ActionModel,
    outcomes: Seq<Outcome>,
) -> (DownloaderModel, ActionModel)
    decreases outcomes.len(),
{
    if outcomes.len() == 0 {
        (run, asked)
    } else {
        let next = after_events(run, asked, events_of(outcomes[0]));
        after_outcomes(next.0, next.1, outcomes.skip(1))
    }
}

/// A whole run over `addresses`: the directories are created, then each
/// address meets its outcome.
pub open spec fn whole_run(addresses: Seq<Seq<char>>, outcomes: Seq<Outcome>) -> (
    DownloaderModel,
    ActionModel,
) {
    let prepared = after_events(
        initial(addresses),
        ActionModel::CreateDirectories,
        seq![EventModel::Start, EventModel::DirectoriesCreated],
    );
    after_outcomes(prepared.0, prepared.1, outcomes)
}

/// The names of the tables of `kind` for those of `addresses` that were
/// stored, in the order of `addresses`.
pub open spec fn stored_files(
    kind: TableKind,
    addresses: Seq<Seq<char>>,
    outcomes: Seq<Outcome>,
) -> Seq<Seq<char>>
    decreases addresses.len(),
{
    if addresses.len() == 0 || outcomes.len() == 0 {
        Seq::empty()
    } else {
        let rest = stored_files(kind, addresses.skip(1), outcomes.skip(1));
        if outcomes[0] is Stored {
            seq![kind.file_text(addresses[0])] + rest
        } else {
            rest
        }
    }
}

/// How many of `outcomes` are `Stored`.
pub open spec fn stored_count(outcomes: Seq<Outcome>) -> nat
    decreases outcomes.len(),
{
    if outcomes.len() == 0 {
        0
    } else if outcomes[0] is Stored {
        1 + stored_count(outcomes.skip(1))
    } else {
        stored_count(outcomes.skip(1))
    }
}

/// Whether every one of `addresses` spells an address.
pub open spec fn all_well_formed(addresses: Seq<Seq<char>>) -> bool {
    forall|i: int|
        0 <= i < addresses.len() ==> parsed_address(encode_utf8(#[trigger] addresses[i])) is Ok
}

/// From an address onwards: a run that has just turned to the address at
/// `run.position` ends, after the outcomes of the addresses that are left,
/// with the tables it had and those of the addresses stored since.
proof fn lemma_rest_of_run(run: DownloaderModel, outcomes: Seq<Outcome>)
    requires
        0 <= run.position <= run.addresses.len(),
        run.position + outcomes.len() == run.addresses.len(),
        all_well_formed(run.addresses),
    ensures
        ({
            let turned = turn_to_address(run);
            let left = run.addresses.skip(run.position);
            after_outcomes(turned.0, turned.1, outcomes) == (
                DownloaderModel {
                    position: run.addresses.len() as int,
                    function_files: run.function_files + stored_files(
                        TableKind::Functions,
                        left,
                        outcomes,
                    ),
                    event_files: run.event_files + stored_files(TableKind::Events, left, outcomes),
                    stage: Stage::Finished,
                    ..run
                },
                ActionModel::Finish {
                    function_files: run.function_files + stored_files(
                        TableKind::Functions,
                        left,
                        outcomes,
                    ),
                    event_files: run.event_files + stored_files(TableKind::Events, left, outcomes),
                },
            )
        }),
    decreases outcomes.len(),
{
    let turned = turn_to_address(run);
    let left = run.addresses.skip(run.position);
    if outcomes.len() == 0 {
        assert(run.function_files + stored_files(TableKind::Functions, left, outcomes)
            =~= run.function_files);
        assert(run.event_files + stored_files(TableKind::Events, left, outcomes)
            =~= run.event_files);
    } else {
        assert(parsed_address(encode_utf8(run.addresses[run.position])) is Ok);
        let fetching = run.at(Stage::Fetching);
        assert(turned.0 == fetching);
        reveal_with_fuel(after_events, 4);
        let events = events_of(outcomes[0]);
        let paused = after_events(turned.0, turned.1, events);
        let stored = outcomes[0] is Stored;
        let moved = DownloaderModel {
            position: run.position + 1,
            function_files: if stored {
                run.function_files.push(TableKind::Functions.file_text(run.current()))
            } else {
                run.function_files
            },
            event_files: if stored {
                run.event_files.push(TableKind::Events.file_text(run.current()))
            } else {
                run.event_files
            },
            ..run
        };
        assert(paused == turn_to_address(moved)) by {
            match outcomes[0] {
                Outcome::Stored(abi) => {
                    assert(events.skip(1).skip(1) =~= seq![EventModel::Paused]);
                    assert(events.skip(1).skip(1).skip(1) =~= Seq::<EventModel>::empty());
                    assert(events.skip(1)[0] == EventModel::Written);
                },
                Outcome::NotFetched => {
                    assert(events.skip(1) =~= seq![EventModel::Paused]);
                    assert(events.skip(1).skip(1) =~= Seq::<EventModel>::empty());
                },
                Outcome::NotWritten(abi) => {
                    assert(events.skip(1).skip(1) =~= seq![EventModel::Paused]);
                    assert(events.skip(1).skip(1).skip(1) =~= Seq::<EventModel>::empty());
                    assert(events.skip(1)[0] == EventModel::WriteFailed);
                },
            }
        }
        lemma_rest_of_run(moved, outcomes.skip(1));
        assert(left.skip(1) =~= moved.addresses.skip(moved.position));
        assert(left[0] == run.current());
        assert(moved.function_files + stored_files(
            TableKind::Functions,
            left.skip(1),
            outcomes.skip(1),
        ) =~= run.function_files + stored_files(TableKind::Functions, left, outcomes));
        assert(moved.event_files + stored_files(TableKind::Events, left.skip(1), outcomes.skip(1))
            =~= run.event_files + stored_files(TableKind::Events, left, outcomes));
    }
}

/// Failures are isolated. In a run over well-formed addresses, an address
/// whose fetch or whose write fails takes nothing from the others: the run
/// finishes, and the tables it hands out are those of the addresses that
/// were stored, all of them, once each and in the order of the list.
pub proof fn lemma_failures_are_isolated(addresses: Seq<Seq<char>>, outcomes: Seq<Outcome>)
    requires
        outcomes.len() == addresses.len(),
        all_well_formed(addresses),
    ensures
        whole_run(addresses, outcomes).0.stage == Stage::Finished,
        whole_run(addresses, outcomes).1 == (ActionModel::Finish {
            function_files: stored_files(TableKind::Functions, addresses, outcomes),
            event_files: stored_files(TableKind::Events, addresses, outcomes),
        }),
        stored_files(TableKind::Functions, addresses, outcomes).len() == stored_count(outcomes),
        stored_files(TableKind::Events, addresses, outcomes).len() == stored_count(outcomes),
{
    reveal_with_fuel(after_events, 3);
    let ready = initial(addresses);
    let preparing = ready.at(Stage::Preparing);
    let events = seq![EventModel::Start, EventModel::DirectoriesCreated];
    assert(events.skip(1) =~= seq![EventModel::DirectoriesCreated]);
    assert(events.skip(1).skip(1) =~= Seq::<EventModel>::empty());
    assert(after_events(ready, ActionModel::CreateDirectories, events) == turn_to_address(
        preparing,
    ));
    lemma_rest_of_run(preparing, outcomes);
    assert(addresses.skip(0) =~= addresses);
    assert(Seq::<Seq<char>>::empty() + stored_files(TableKind::Functions, addresses, outcomes)
        =~= stored_files(TableKind::Functions, addresses, outcomes));
    assert(Seq::<Seq<char>>::empty() + stored_files(TableKind::Events, addresses, outcomes)
        =~= stored_files(TableKind::Events, addresses, outcomes));
    lemma_stored_files_len(TableKind::Functions, addresses, outcomes);
    lemma_stored_files_len(TableKind::Events, addresses, outcomes);
}

/// There is one table of each kind for each address that was stored.
pub proof fn lemma_stored_files_len(
    kind: TableKind,
    addresses: Seq<Seq<char>>,
    outcomes: Seq<Outcome>,
)
    requires
        outcomes.len() == addresses.len(),
    ensures
        stored_files(kind, addresses, outcomes).len() == stored_count(outcomes),
    decreases addresses.len(),
{
    if addresses.len() > 0 {
        lemma_stored_files_len(kind, addresses.skip(1), outcomes.skip(1));
    }
}

} // verus!
