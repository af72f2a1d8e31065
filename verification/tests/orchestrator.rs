use etherscan_abi_downloader::abi::{AbiEvent, AbiFunction, AbiParam, ContractAbi};
use etherscan_abi_downloader::address::AddressError;
use etherscan_abi_downloader::error::DownloadError;
use etherscan_abi_downloader::orchestrator::{Action, Downloader, Event, Stage, RATE_LIMIT_MILLIS};
use etherscan_abi_downloader::table::TableKind;

const FIRST: &str = "0xdAC17F958D2ee523a2206206994597C13D831ec7";
const SECOND: &str = "a0b86991c6218b36c1d19d4a2e9eb0ce3606eb48";
const THIRD: &str = "0X6B175474E89094C44Da98b954EedeAC495271d0F";

fn plain(ty: &str) -> AbiParam {
    AbiParam { ty: ty.to_string(), components: Vec::new() }
}

fn erc20_abi() -> ContractAbi {
    ContractAbi {
        functions: vec![AbiFunction {
            name: "transfer".to_string(),
            inputs: vec![plain("address"), plain("uint256")],
        }],
        events: vec![AbiEvent {
            name: "Transfer".to_string(),
            inputs: vec![plain("address"), plain("address"), plain("uint256")],
        }],
    }
}

fn addresses(list: &[&str]) -> Vec<String> {
    list.iter().map(|a| a.to_string()).collect()
}

/// Starts a run and creates its directories; returns the run and what it
/// asks for then.
fn prepared(list: &[&str]) -> (Downloader, Action) {
    let run = Downloader::new(addresses(list));
    assert_eq!(run.stage(), Stage::Ready);
    let (run, action) = run.step(Event::Start);
    assert!(matches!(action, Action::CreateDirectories));
    assert_eq!(run.stage(), Stage::Preparing);
    run.step(Event::DirectoriesCreated)
}

/// What becomes of one address in a scripted run.
#[derive(Clone, Copy, PartialEq)]
enum Script {
    Stored,
    NotFetched,
    NotWritten,
}

/// Drives a whole run with the scripted outcomes and returns the two lists
/// it hands out at the end.
fn drive(list: &[&str], script: &[Script]) -> (Vec<String>, Vec<String>) {
    let (mut run, mut action) = prepared(list);
    let mut fetched = 0;
    loop {
        let event = match action {
            Action::Fetch { number, total, ref text, .. } => {
                assert_eq!(number, fetched + 1);
                assert_eq!(total, list.len());
                assert_eq!(text, list[fetched]);
                fetched += 1;
                match script[number - 1] {
                    Script::NotFetched => Event::FetchFailed,
                    _ => Event::Fetched(erc20_abi()),
                }
            },
            Action::Write { .. } => match script[fetched - 1] {
                Script::Stored => Event::Written,
                _ => Event::WriteFailed,
            },
            Action::Pause { millis } => {
                assert_eq!(millis, 333);
                Event::Paused
            },
            Action::Finish { function_files, event_files } => {
                assert_eq!(run.stage(), Stage::Finished);
                assert_eq!(fetched, list.len());
                return (function_files, event_files);
            },
            other => panic!("unexpected action: {:?}", other),
        };
        let next = run.step(event);
        run = next.0;
        action = next.1;
    }
}

#[test]
fn rate_limit_is_a_third_of_a_second() {
    assert_eq!(RATE_LIMIT_MILLIS, 333);
}

#[test]
fn run_over_no_address_finishes_at_once() {
    let (run, action) = prepared(&[]);
    assert_eq!(run.stage(), Stage::Finished);
    match action {
        Action::Finish { function_files, event_files } => {
            assert!(function_files.is_empty());
            assert!(event_files.is_empty());
        },
        other => panic!("unexpected action: {:?}", other),
    }
}

#[test]
fn address_is_parsed_before_it_is_fetched() {
    let (run, action) = prepared(&[FIRST]);
    assert_eq!(run.stage(), Stage::Fetching);
    assert_eq!(run.position(), 0);
    match action {
        Action::Fetch { address, text, number, total } => {
            assert_eq!(
                address,
                [
                    0xda, 0xc1, 0x7f, 0x95, 0x8d, 0x2e, 0xe5, 0x23, 0xa2, 0x20, 0x62, 0x06, 0x99,
                    0x45, 0x97, 0xc1, 0x3d, 0x83, 0x1e, 0xc7
                ]
            );
            assert_eq!(text, FIRST);
            assert_eq!((number, total), (1, 1));
        },
        other => panic!("unexpected action: {:?}", other),
    }
}

#[test]
fn address_without_prefix_and_with_capital_prefix_are_accepted() {
    let (_, action) = prepared(&[SECOND]);
    match action {
        Action::Fetch { address, .. } => {
            assert_eq!(address[0], 0xa0);
            assert_eq!(address[19], 0x48);
        },
        other => panic!("unexpected action: {:?}", other),
    }
    let (_, action) = prepared(&[THIRD]);
    match action {
        Action::Fetch { address, .. } => {
            assert_eq!(address[0], 0x6b);
            assert_eq!(address[19], 0x0f);
        },
        other => panic!("unexpected action: {:?}", other),
    }
}

#[test]
fn fetched_description_is_written_under_the_names_of_the_address() {
    let (run, _) = prepared(&[FIRST]);
    let (run, action) = run.step(Event::Fetched(erc20_abi()));
    assert_eq!(run.stage(), Stage::Writing);
    match action {
        Action::Write { functions_file, functions, events_file, events } => {
            assert_eq!(functions_file, format!("{}_functions.parquet", FIRST));
            assert_eq!(events_file, format!("{}_events.parquet", FIRST));
            assert_eq!(functions.len(), 1);
            assert_eq!(functions[0].record_type, "function");
            assert_eq!(functions[0].contract_address, FIRST.to_lowercase());
            assert_eq!(functions[0].selector, "0xa9059cbb");
            assert_eq!(events.len(), 1);
            assert_eq!(events[0].record_type, "event");
            assert_eq!(events[0].signature, "Transfer(address,address,uint256)");
        },
        other => panic!("unexpected action: {:?}", other),
    }
    let (run, action) = run.step(Event::Written);
    assert_eq!(run.stage(), Stage::Pausing);
    assert!(matches!(action, Action::Pause { millis: 333 }));
    let (run, action) = run.step(Event::Paused);
    assert_eq!(run.stage(), Stage::Finished);
    assert_eq!(run.position(), 1);
    match action {
        Action::Finish { function_files, event_files } => {
            assert_eq!(function_files, [format!("{}_functions.parquet", FIRST)]);
            assert_eq!(event_files, [format!("{}_events.parquet", FIRST)]);
        },
        other => panic!("unexpected action: {:?}", other),
    }
}

#[test]
fn run_pauses_after_a_failed_fetch_too() {
    let (run, _) = prepared(&[FIRST, SECOND]);
    let (run, action) = run.step(Event::FetchFailed);
    assert_eq!(run.stage(), Stage::Pausing);
    assert!(matches!(action, Action::Pause { millis: 333 }));
    let (run, action) = run.step(Event::Paused);
    assert_eq!(run.stage(), Stage::Fetching);
    assert_eq!(run.position(), 1);
    assert!(matches!(action, Action::Fetch { number: 2, total: 2, .. }));
}

#[test]
fn all_stored_addresses_are_handed_out_in_order() {
    let list = [FIRST, SECOND, THIRD];
    let (function_files, event_files) = drive(&list, &[Script::Stored; 3]);
    let expected: Vec<String> = list.iter().map(|a| format!("{}_functions.parquet", a)).collect();
    assert_eq!(function_files, expected);
    let expected: Vec<String> = list.iter().map(|a| format!("{}_events.parquet", a)).collect();
    assert_eq!(event_files, expected);
}

#[test]
fn one_failed_fetch_leaves_the_others_in_their_order() {
    let list = [FIRST, SECOND, THIRD];
    for failing in 0..3 {
        let mut script = [Script::Stored; 3];
        script[failing] = Script::NotFetched;
        let (function_files, event_files) = drive(&list, &script);
        let kept: Vec<&str> =
            list.iter().enumerate().filter(|(i, _)| *i != failing).map(|(_, a)| *a).collect();
        assert_eq!(function_files.len(), 2);
        assert_eq!(event_files.len(), 2);
        for (i, address) in kept.iter().enumerate() {
            assert_eq!(function_files[i], format!("{}_functions.parquet", address));
            assert_eq!(event_files[i], format!("{}_events.parquet", address));
        }
    }
}

#[test]
fn failed_write_is_isolated_like_a_failed_fetch() {
    let list = [FIRST, SECOND, THIRD];
    let script = [Script::NotWritten, Script::Stored, Script::NotFetched];
    let (function_files, event_files) = drive(&list, &script);
    assert_eq!(function_files, [format!("{}_functions.parquet", SECOND)]);
    assert_eq!(event_files, [format!("{}_events.parquet", SECOND)]);
}

#[test]
fn run_where_every_fetch_fails_finishes_with_nothing() {
    let list = [FIRST, SECOND];
    let (function_files, event_files) = drive(&list, &[Script::NotFetched; 2]);
    assert!(function_files.is_empty());
    assert!(event_files.is_empty());
}

#[test]
fn same_address_twice_is_stored_twice() {
    let list = [FIRST, FIRST];
    let (function_files, _) = drive(&list, &[Script::Stored; 2]);
    assert_eq!(function_files.len(), 2);
    assert_eq!(function_files[0], function_files[1]);
}

#[test]
fn failed_directory_ends_the_run() {
    for kind in [TableKind::Functions, TableKind::Events] {
        let run = Downloader::new(addresses(&[FIRST]));
        let (run, _) = run.step(Event::Start);
        let (run, action) = run.step(Event::DirectoryFailed(kind));
        assert_eq!(run.stage(), Stage::Aborted);
        match action {
            Action::Abort(DownloadError::DirectoryCreation(failed)) => assert_eq!(failed, kind),
            other => panic!("unexpected action: {:?}", other),
        }
    }
}

fn abort_reason(list: &[&str], outcomes_before: usize) -> (usize, AddressError) {
    let (mut run, mut action) = prepared(list);
    for _ in 0..outcomes_before {
        assert!(matches!(action, Action::Fetch { .. }));
        let next = run.step(Event::FetchFailed);
        let next = next.0.step(Event::Paused);
        run = next.0;
        action = next.1;
    }
    assert_eq!(run.stage(), Stage::Aborted);
    match action {
        Action::Abort(DownloadError::MalformedAddress { position, reason }) => (position, reason),
        other => panic!("unexpected action: {:?}", other),
    }
}

#[test]
fn text_of_odd_length_is_no_address() {
    assert_eq!(abort_reason(&["0xabc"], 0), (0, AddressError::OddLength));
    assert_eq!(abort_reason(&["a"], 0), (0, AddressError::OddLength));
}

#[test]
fn text_of_another_length_is_no_address() {
    assert_eq!(abort_reason(&[""], 0), (0, AddressError::InvalidLength));
    assert_eq!(abort_reason(&["0x"], 0), (0, AddressError::InvalidLength));
    assert_eq!(abort_reason(&["0xabcd"], 0), (0, AddressError::InvalidLength));
    let long = format!("{}00", FIRST);
    assert_eq!(abort_reason(&[&long], 0), (0, AddressError::InvalidLength));
    // forty bytes in all, of which the prefix takes two
    assert_eq!(abort_reason(&[&FIRST[..40]], 0), (0, AddressError::InvalidLength));
}

#[test]
fn first_byte_that_is_no_digit_is_reported() {
    let bad = "0xdAC17F958D2ee523a2206206994597C13D831eg7";
    assert_eq!(
        abort_reason(&[bad], 0),
        (0, AddressError::InvalidCharacter { character: 'g', index: 38 })
    );
    let bad = "zzC17F958D2ee523a2206206994597C13D831ec7";
    assert_eq!(
        abort_reason(&[bad], 0),
        (0, AddressError::InvalidCharacter { character: 'z', index: 0 })
    );
    let spaced = " xdAC17F958D2ee523a2206206994597C13D831e";
    assert_eq!(
        abort_reason(&[spaced], 0),
        (0, AddressError::InvalidCharacter { character: ' ', index: 0 })
    );
}

#[test]
fn malformed_address_ends_the_run_where_it_stands() {
    let (position, reason) = abort_reason(&[FIRST, SECOND, "not an address!"], 2);
    assert_eq!(position, 2);
    assert_eq!(reason, AddressError::OddLength);
}

#[test]
fn event_out_of_turn_ends_the_run() {
    let run = Downloader::new(addresses(&[FIRST]));
    let (run, action) = run.step(Event::Paused);
    assert_eq!(run.stage(), Stage::Aborted);
    assert!(matches!(action, Action::Abort(DownloadError::UnexpectedEvent)));

    let (run, _) = prepared(&[FIRST]);
    let (run, action) = run.step(Event::Written);
    assert_eq!(run.stage(), Stage::Aborted);
    assert!(matches!(action, Action::Abort(DownloadError::UnexpectedEvent)));

    let (run, _) = prepared(&[]);
    let (run, action) = run.step(Event::Start);
    assert_eq!(run.stage(), Stage::Aborted);
    assert!(matches!(action, Action::Abort(DownloadError::UnexpectedEvent)));
    let (run, action) = run.step(Event::Start);
    assert_eq!(run.stage(), Stage::Aborted);
    assert!(matches!(action, Action::Abort(DownloadError::UnexpectedEvent)));
}
