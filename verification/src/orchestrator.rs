//! The decisions of a batch download: which address is fetched next, what
//! is written, when the run pauses, and how it ends. The caller does the
//! work that each step asks for and reports what came of it.

use crate::abi::{ContractAbi, ContractModel};
use crate::address::{address_from_str, lowercase_text, parsed_address};
use crate::error::DownloadError;
use crate::record::{
    contract_rows, event_rows, function_rows, record_models, AbiRecord, RecordModel,
};
use crate::table::TableKind;
use crate::text::texts;
use vstd::prelude::*;
use vstd::utf8::encode_utf8;

verus! {

/// The pause after each address, in milliseconds: at most three requests a
/// second.
pub const RATE_LIMIT_MILLIS: u64 = 333;

/// Where a run stands.
#[derive(Debug, Clone, Copy, PartialEq, Eq, Structural)]
pub enum Stage {
    /// Nothing has been asked for yet.
    Ready,
    /// The output directories are being created.
    Preparing,
    /// The interface description of the current address is being fetched.
    Fetching,
    /// The two tables of the current address are being written.
    Writing,
    /// The run pauses before the next address.
    Pausing,
    /// Every address has been dealt with.
    Finished,
    /// The run has ended early.
    Aborted,
}

/// What the caller reports.
#[derive(Debug)]
pub enum Event {
    /// The run begins.
    Start,
    /// Both output directories exist.
    DirectoriesCreated,
    /// The directory for the tables of this kind could not be created.
    DirectoryFailed(TableKind),
    /// The fetch service returned this interface description.
    Fetched(ContractAbi),
    /// The fetch service returned none.
    FetchFailed,
    /// Both tables were written.
    Written,
    /// A table could not be written.
    WriteFailed,
    /// The pause is over.
    Paused,
}

/// What the caller is asked to do next.
#[derive(Debug)]
pub enum Action {
    /// Create the two output directories, that of the functions first.
    CreateDirectories,
    /// Fetch the interface description of the contract at `address`, which
    /// the list spells `text`; it is address `number` of `total`.
    Fetch { address: [u8; 20], text: String, number: usize, total: usize },
    /// Write the two tables of the current address: `functions` to
    /// `functions_file` in the directory of the functions, `events` to
    /// `events_file` in that of the events.
    Write {
        functions_file: String,
        functions: Vec<AbiRecord>,
        events_file: String,
        events: Vec<AbiRecord>,
    },
    /// Wait for `millis` milliseconds.
    Pause { millis: u64 },
    /// The run is over: these are the tables that were written, by name
    /// within their directories, in the order of the addresses.
    Finish { function_files: Vec<String>, event_files: Vec<String> },
    /// The run has failed as a whole.
    Abort(DownloadError),
}

/// What an `Event` holds.
pub enum EventModel {
    Start,
    DirectoriesCreated,
    DirectoryFailed(TableKind),
    Fetched(ContractModel),
    FetchFailed,
    Written,
    WriteFailed,
    Paused,
}

/// What an `Action` holds.
pub enum ActionModel {
    CreateDirectories,
    Fetch { address: Seq<u8>, text: Seq<char>, number: int, total: int },
    Write {
        functions_file: Seq<char>,
        functions: Seq<RecordModel>,
        events_file: Seq<char>,
        events: Seq<RecordModel>,
    },
    Pause { millis: int },
    Finish { function_files: Seq<Seq<char>>, event_files: Seq<Seq<char>> },
    Abort(DownloadError),
}

impl View for Event {
    type V = EventModel;

    open spec fn view(&self) -> EventModel {
        match self {
            Event::Start => EventModel::Start,
            Event::DirectoriesCreated => EventModel::DirectoriesCreated,
            Event::DirectoryFailed(kind) => EventModel::DirectoryFailed(*kind),
            Event::Fetched(abi) => EventModel::Fetched(abi@),
            Event::FetchFailed => EventModel::FetchFailed,
            Event::Written => EventModel::Written,
            Event::WriteFailed => EventModel::WriteFailed,
            Event::Paused => EventModel::Paused,
        }
    }
}

impl View for Action {
    type V = ActionModel;

    open spec fn view(&self) -> ActionModel {
        match self {
            Action::CreateDirectories => ActionModel::CreateDirectories,
            Action::Fetch { address, text, number, total } => ActionModel::Fetch {
                address: address@,
                text: text@,
                number: *number as int,
                total: *total as int,
            },
            Action::Write { functions_file, functions, events_file, events } => ActionModel::Write {
                functions_file: functions_file@,
                functions: record_models(functions@),
                events_file: events_file@,
                events: record_models(events@),
            },
            Action::Pause { millis } => ActionModel::Pause { millis: *millis as int },
            Action::Finish { function_files, event_files } => ActionModel::Finish {
                function_files: texts(function_files@),
                event_files: texts(event_files@),
            },
            Action::Abort(error) => ActionModel::Abort(*error),
        }
    }
}

/// A batch download in progress.
#[derive(Debug)]
pub struct Downloader {
    addresses: Vec<String>,
    position: usize,
    function_files: Vec<String>,
    event_files: Vec<String>,
    stage: Stage,
}

/// What a `Downloader` holds: the addresses as the list spells them, how
/// many of them have been dealt with, the tables written so far, by name,
/// and the stage.
pub struct DownloaderModel {
    pub addresses: Seq<Seq<char>>,
    pub position: int,
    pub function_files: Seq<Seq<char>>,
    pub event_files: Seq<Seq<char>>,
    pub stage: Stage,
}

impl DownloaderModel {
    /// Whether the run is one that steps can lead to: the position lies
    /// within the list, and on an address while one is being dealt with;
    /// there are as many tables of functions as of events, and no more of
    /// them than addresses dealt with.
    pub open spec fn well_formed(self) -> bool {
        &&& 0 <= self.position <= self.addresses.len()
        &&& self.function_files.len() == self.event_files.len()
        &&& match self.stage {
            Stage::Ready | Stage::Preparing => self.position == 0 && self.function_files.len()
                == 0,
            Stage::Fetching | Stage::Writing => self.function_files.len() <= self.position
                < self.addresses.len(),
            Stage::Pausing => self.function_files.len() <= self.position + 1
                <= self.addresses.len(),
            Stage::Finished => self.position == self.addresses.len()
                && self.function_files.len() <= self.position,
            Stage::Aborted => self.function_files.len() <= self.addresses.len(),
        }
    }

    /// The same run at another stage.
    pub open spec fn at(self, stage: Stage) -> DownloaderModel {
        DownloaderModel { stage, ..self }
    }

    /// The address that is being dealt with.
    pub open spec fn current(self) -> Seq<char> {
        self.addresses[self.position]
    }
}

/// A run over `addresses` of which nothing has been asked yet.
pub open spec fn initial(addresses: Seq<Seq<char>>) -> DownloaderModel {
    DownloaderModel {
        addresses,
        position: 0,
        function_files: Seq::empty(),
        event_files: Seq::empty(),
        stage: Stage::Ready,
    }
}

/// What a run does when it turns to the address at its position: it ends
/// where the list is exhausted, fails as a whole where the address is
/// malformed, and asks for the fetch otherwise.
pub open spec fn turn_to_address(run: DownloaderModel) -> (DownloaderModel, ActionModel) {
    if run.position >= run.addresses.len() {
        (
            run.at(Stage::Finished),
            ActionModel::Finish {
                function_files: run.function_files,
                event_files: run.event_files,
            },
        )
    } else {
        match parsed_address(encode_utf8(run.current())) {
            Ok(address) => (
                run.at(Stage::Fetching),
                ActionModel::Fetch {
                    address,
                    text: run.current(),
                    number: run.position + 1,
                    total: run.addresses.len() as int,
                },
            ),
            Err(reason) => (
                run.at(Stage::Aborted),
                ActionModel::Abort(
                    DownloadError::MalformedAddress { position: run.position as usize, reason },
                ),
            ),
        }
    }
}

/// The next state of a run and what it asks for, given what the caller
/// reports.
pub open spec fn transition(run: DownloaderModel, event: EventModel) -> (
    DownloaderModel,
    ActionModel,
) {
    match (run.stage, event) {
        (Stage::Ready, EventModel::Start) => (
            run.at(Stage::Preparing),
            ActionModel::CreateDirectories,
        ),
        (Stage::Preparing, EventModel::DirectoriesCreated) => turn_to_address(run),
        (Stage::Preparing, EventModel::DirectoryFailed(kind)) => (
            run.at(Stage::Aborted),
            ActionModel::Abort(DownloadError::DirectoryCreation(kind)),
        ),
        (Stage::Fetching, EventModel::Fetched(abi)) => (
            run.at(Stage::Writing),
            ActionModel::Write {
                functions_file: TableKind::Functions.file_text(run.current()),
                functions: function_rows(lowercase_text(run.current()), abi.functions),
                events_file: TableKind::Events.file_text(run.current()),
                events: event_rows(lowercase_text(run.current()), abi.events),
            },
        ),
        (Stage::Fetching, EventModel::FetchFailed) => (
            run.at(Stage::Pausing),
            ActionModel::Pause { millis: RATE_LIMIT_MILLIS as int },
        ),
        (Stage::Writing, EventModel::Written) => (
            DownloaderModel {
                function_files: run.function_files.push(
                    TableKind::Functions.file_text(run.current()),
                ),
                event_files: run.event_files.push(TableKind::Events.file_text(run.current())),
                stage: Stage::Pausing,
                ..run
            },
            ActionModel::Pause { millis: RATE_LIMIT_MILLIS as int },
        ),
        (Stage::Writing, EventModel::WriteFailed) => (
            run.at(Stage::Pausing),
            ActionModel::Pause { millis: RATE_LIMIT_MILLIS as int },
        ),
        (Stage::Pausing, EventModel::Paused) => turn_to_address(
            DownloaderModel { position: run.position + 1, ..run },
        ),
        _ => (run.at(Stage::Aborted), ActionModel::Abort(DownloadError::UnexpectedEvent)),
    }
}

/// A copy of `strings`.
fn copy_strings(strings: &Vec<String>) -> (copy: Vec<String>)
    ensures
        texts(copy@) == texts(strings@),
{
    let mut copy: Vec<String> = Vec::new();
    let mut i: usize = 0;
    while i < strings.len()
        invariant
            i <= strings.len(),
            copy@.len() == i,
            forall|j: int| 0 <= j < i ==> (#[trigger] copy@[j])@ == strings@[j]@,
        decreases strings.len() - i,
    {
        copy.push(strings[i].clone());
        i += 1;
    }
    proof {
        assert(texts(copy@) =~= texts(strings@));
    }
    copy
}

impl Downloader {
    /// The invariant of a run.
    #[verifier::type_invariant]
    spec fn valid(self) -> bool {
        self@.well_formed()
    }

    /// A run over `addresses`, in their order, of which nothing has been
    /// asked yet.
    pub fn new(addresses: Vec<String>) -> (run: Downloader)
        ensures
            run@ == initial(texts(addresses@)),
            run@.well_formed(),
    {
        let run = Downloader {
            addresses,
            position: 0,
            function_files: Vec::new(),
            event_files: Vec::new(),
            stage: Stage::Ready,
        };
        proof {
            assert(run@.function_files =~= Seq::empty());
            assert(run@.event_files =~= Seq::empty());
        }
        run
    }

    /// Where the run stands.
    pub fn stage(&self) -> (stage: Stage)
        ensures
            stage == self@.stage,
    {
        self.stage
    }

    /// How many addresses have been dealt with.
    pub fn position(&self) -> (position: usize)
        ensures
            position == self@.position,
    {
        self.position
    }

    /// Turns to the address at `position`.
    fn turn(
        addresses: Vec<String>,
        position: usize,
        function_files: Vec<String>,
        event_files: Vec<String>,
    ) -> (next: (Downloader, Action))
        requires
            position <= addresses@.len(),
            function_files@.len() == event_files@.len(),
            function_files@.len() <= position,
        ensures
            (next.0@, next.1@) == turn_to_address(
                DownloaderModel {
                    addresses: texts(addresses@),
                    position: position as int,
                    function_files: texts(function_files@),
                    event_files: texts(event_files@),
                    stage: Stage::Pausing,
                },
            ),
    {
        if position >= addresses.len() {
            let action = Action::Finish {
                function_files: copy_strings(&function_files),
                event_files: copy_strings(&event_files),
            };
            (
                Downloader { addresses, position, function_files, event_files, stage: Stage::Finished },
                action,
            )
        } else {
            match address_from_str(addresses[position].as_str()) {
                Ok(address) => {
                    let action = Action::Fetch {
                        address,
                        text: addresses[position].clone(),
                        number: position + 1,
                        total: addresses.len(),
                    };
                    (
                        Downloader {
                            addresses,
                            position,
                            function_files,
                            event_files,
                            stage: Stage::Fetching,
                        },
                        action,
                    )
                },
                Err(reason) => (
                    Downloader {
                        addresses,
                        position,
                        function_files,
                        event_files,
                        stage: Stage::Aborted,
                    },
                    Action::Abort(DownloadError::MalformedAddress { position, reason }),
                ),
            }
        }
    }

    /// The run as it is, at another stage.
    fn moved_to(self, stage: Stage) -> (next: Downloader)
        requires
            self@.at(stage).well_formed(),
        ensures
            next@ == self@.at(stage),
    {
        Downloader {
            addresses: self.addresses,
            position: self.position,
            function_files: self.function_files,
            event_files: self.event_files,
            stage,
        }
    }

    /// Takes what the caller reports and says what to do next. An event
    /// that the run was not waiting for ends it.
    pub fn step(self, event: Event) -> (next: (Downloader, Action))
        ensures
            (next.0@, next.1@) == transition(self@, event@),
            next.0@.well_formed(),
    {
        proof {
            use_type_invariant(&self);
        }
        match (self.stage, event) {
            (Stage::Ready, Event::Start) => (
                self.moved_to(Stage::Preparing),
                Action::CreateDirectories,
            ),
            (Stage::Preparing, Event::DirectoriesCreated) => Downloader::turn(
                self.addresses,
                self.position,
                self.function_files,
                self.event_files,
            ),
            (Stage::Preparing, Event::DirectoryFailed(kind)) => (
                self.moved_to(Stage::Aborted),
                Action::Abort(DownloadError::DirectoryCreation(kind)),
            ),
            (Stage::Fetching, Event::Fetched(abi)) => {
                let text = self.addresses[self.position].as_str();
                let (functions, events) = contract_rows(text, &abi);
                let action = Action::Write {
                    functions_file: TableKind::Functions.file_name(text),
                    functions,
                    events_file: TableKind::Events.file_name(text),
                    events,
                };
                (self.moved_to(Stage::Writing), action)
            },
            (Stage::Fetching, Event::FetchFailed) => (
                self.moved_to(Stage::Pausing),
                Action::Pause { millis: RATE_LIMIT_MILLIS },
            ),
            (Stage::Writing, Event::Written) => {
                let text = self.addresses[self.position].as_str();
                let functions_file = TableKind::Functions.file_name(text);
                let events_file = TableKind::Events.file_name(text);
                let mut function_files = self.function_files;
                let mut event_files = self.event_files;
                function_files.push(functions_file);
                event_files.push(events_file);
                proof {
                    assert(texts(function_files@) =~= self@.function_files.push(
                        TableKind::Functions.file_text(self@.current()),
                    ));
                    assert(texts(event_files@) =~= self@.event_files.push(
                        TableKind::Events.file_text(self@.current()),
                    ));
                }
                (
                    Downloader {
                        addresses: self.addresses,
                        position: self.position,
                        function_files,
                        event_files,
                        stage: Stage::Pausing,
                    },
                    Action::Pause { millis: RATE_LIMIT_MILLIS },
                )
            },
            (Stage::Writing, Event::WriteFailed) => (
                self.moved_to(Stage::Pausing),
                Action::Pause { millis: RATE_LIMIT_MILLIS },
            ),
            (Stage::Pausing, Event::Paused) => {
                let total = self.addresses.len();
                assert(self.position < total);
                Downloader::turn(
                    self.addresses,
                    self.position + 1,
                    self.function_files,
                    self.event_files,
                )
            },
            _ => (self.moved_to(Stage::Aborted), Action::Abort(DownloadError::UnexpectedEvent)),
        }
    }
}

impl View for Downloader {
    type V = DownloaderModel;

    closed spec fn view(&self) -> DownloaderModel {
        DownloaderModel {
            addresses: texts(self.addresses@),
            position: self.position as int,
            function_files: texts(self.function_files@),
            event_files: texts(self.event_files@),
            stage: self.stage,
        }
    }
}

/// A run of which nothing has been asked yet is well formed.
pub proof fn lemma_initial_is_well_formed(addresses: Seq<Seq<char>>)
    ensures
        initial(addresses).well_formed(),
{
}

/// Every step keeps a run well formed, whatever the caller reports: the
/// tables of functions and of events stay equal in number, and there are
/// never more of them than addresses dealt with.
pub proof fn lemma_transition_keeps_well_formed(run: DownloaderModel, event: EventModel)
    requires
        run.well_formed(),
    ensures
        transition(run, event).0.well_formed(),
{
}

} // verus!
