//! The rows that functions and events are stored as.

use crate::abi::{AbiEvent, AbiFunction, ContractAbi, ItemModel};
use crate::address::{lowercase_text, to_lowercase};
use crate::error::DownloadError;
use crate::signature::{
    create_event_selector, create_event_signature, create_function_selector,
    create_function_signature,
};
use vstd::prelude::*;
use vstd::string::StringExecFns;

verus! {

/// One row of output: a function or an event of one contract.
#[derive(Debug)]
pub struct AbiRecord {
    /// `function` or `event`.
    pub record_type: String,
    /// The contract's address, in lowercase.
    pub contract_address: String,
    /// The name as the interface description declares it.
    pub name: String,
    /// The canonical signature.
    pub signature: String,
    /// The selector: four bytes for a function, 32 for an event.
    pub selector: String,
}

/// What a row holds: the text of each of its five fields.
pub struct RecordModel {
    pub record_type: Seq<char>,
    pub contract_address: Seq<char>,
    pub name: Seq<char>,
    pub signature: Seq<char>,
    pub selector: Seq<char>,
}

impl View for AbiRecord {
    type V = RecordModel;

    open spec fn view(&self) -> RecordModel {
        RecordModel {
            record_type: self.record_type@,
            contract_address: self.contract_address@,
            name: self.name@,
            signature: self.signature@,
            selector: self.selector@,
        }
    }
}

/// The models of `records`, in order.
pub open spec fn record_models(records: Seq<AbiRecord>) -> Seq<RecordModel> {
    Seq::new(records.len(), |i: int| records[i]@)
}

/// The row of the function `item` of the contract at `contract_address`.
pub open spec fn function_row(contract_address: Seq<char>, item: ItemModel) -> RecordModel {
    RecordModel {
        record_type: "function"@,
        contract_address,
        name: item.name,
        signature: item.signature(),
        selector: item.function_selector(),
    }
}

/// The row of the event `item` of the contract at `contract_address`.
pub open spec fn event_row(contract_address: Seq<char>, item: ItemModel) -> RecordModel {
    RecordModel {
        record_type: "event"@,
        contract_address,
        name: item.name,
        signature: item.signature(),
        selector: item.event_selector(),
    }
}

/// The rows of the functions `items`, one for each and in their order.
pub open spec fn function_rows(contract_address: Seq<char>, items: Seq<ItemModel>) -> Seq<
    RecordModel,
> {
    Seq::new(items.len(), |i: int| function_row(contract_address, items[i]))
}

/// The rows of the events `items`, one for each and in their order.
pub open spec fn event_rows(contract_address: Seq<char>, items: Seq<ItemModel>) -> Seq<
    RecordModel,
> {
    Seq::new(items.len(), |i: int| event_row(contract_address, items[i]))
}

/// A row that holds `address` and nothing else.
pub fn create_empty_record(address: &str) -> (record: AbiRecord)
    ensures
        record@ == (RecordModel {
            record_type: Seq::empty(),
            contract_address: address@,
            name: Seq::empty(),
            signature: Seq::empty(),
            selector: Seq::empty(),
        }),
{
    AbiRecord {
        record_type: String::new(),
        contract_address: String::from_str(address),
        name: String::new(),
        signature: String::new(),
        selector: String::new(),
    }
}

/// The row of the function `f` of the contract whose address is stored as
/// `contract_address`.
pub fn function_record(contract_address: String, f: &AbiFunction) -> (record: AbiRecord)
    ensures
        record@ == function_row(contract_address@, f@),
{
    AbiRecord {
        name: f.name.clone(),
        record_type: String::from_str("function"),
        contract_address,
        signature: create_function_signature(f),
        selector: create_function_selector(f),
    }
}

/// The row of the event `e` of the contract whose address is stored as
/// `contract_address`.
pub fn event_record(contract_address: String, e: &AbiEvent) -> (record: AbiRecord)
    ensures
        record@ == event_row(contract_address@, e@),
{
    AbiRecord {
        name: e.name.clone(),
        record_type: String::from_str("event"),
        contract_address,
        signature: create_event_signature(e),
        selector: create_event_selector(e),
    }
}

/// The rows of the contract at `address`: one for each function and one for
/// each event of `abi`, in the order of `abi`, each tagged with the address
/// in lowercase.
pub fn contract_rows(address: &str, abi: &ContractAbi) -> (rows: (Vec<AbiRecord>, Vec<AbiRecord>))
    ensures
        record_models(rows.0@) == function_rows(lowercase_text(address@), abi@.functions),
        record_models(rows.1@) == event_rows(lowercase_text(address@), abi@.events),
{
    let contract_address = to_lowercase(address);
    let mut functions: Vec<AbiRecord> = Vec::new();
    let mut i: usize = 0;
    while i < abi.functions.len()
        invariant
            i <= abi.functions.len(),
            functions@.len() == i,
            contract_address@ == lowercase_text(address@),
            record_models(functions@) == function_rows(contract_address@, abi@.functions.take(i as int)),
        decreases abi.functions.len() - i,
    {
        let ghost before = functions@;
        let record = function_record(contract_address.clone(), &abi.functions[i]);
        functions.push(record);
        proof {
            let upto = function_rows(contract_address@, abi@.functions.take(i + 1));
            assert forall|k: int| 0 <= k < upto.len() implies record_models(functions@)[k]
                == upto[k] by {
                if k == i {
                    assert(abi@.functions.take(i + 1)[k] == abi.functions@[k]@);
                } else {
                    assert(record_models(before)[k] == function_rows(
                        contract_address@,
                        abi@.functions.take(i as int),
                    )[k]);
                }
            }
            assert(record_models(functions@) =~= upto);
        }
        i += 1;
    }
    let mut events: Vec<AbiRecord> = Vec::new();
    let mut j: usize = 0;
    while j < abi.events.len()
        invariant
            j <= abi.events.len(),
            events@.len() == j,
            contract_address@ == lowercase_text(address@),
            record_models(events@) == event_rows(contract_address@, abi@.events.take(j as int)),
        decreases abi.events.len() - j,
    {
        let ghost before = events@;
        let record = event_record(contract_address.clone(), &abi.events[j]);
        events.push(record);
        proof {
            let upto = event_rows(contract_address@, abi@.events.take(j + 1));
            assert forall|k: int| 0 <= k < upto.len() implies record_models(events@)[k]
                == upto[k] by {
                if k == j {
                    assert(abi@.events.take(j + 1)[k] == abi.events@[k]@);
                } else {
                    assert(record_models(before)[k] == event_rows(
                        contract_address@,
                        abi@.events.take(j as int),
                    )[k]);
                }
            }
            assert(record_models(events@) =~= upto);
        }
        j += 1;
    }
    proof {
        assert(abi@.functions.take(abi.functions.len() as int) =~= abi@.functions);
        assert(abi@.events.take(abi.events.len() as int) =~= abi@.events);
    }
    (functions, events)
}

/// The rows of the contract at `address`, those of its functions and those
/// of its events. It never fails.
pub fn process_contract(address: &str, abi: &ContractAbi) -> (rows: Result<
    (Vec<AbiRecord>, Vec<AbiRecord>),
    DownloadError,
>)
    ensures
        rows matches Ok((functions, events)) && {
            &&& record_models(functions@) == function_rows(
                lowercase_text(address@),
                abi@.functions,
            )
            &&& record_models(events@) == event_rows(lowercase_text(address@), abi@.events)
        },
{
    Ok(contract_rows(address, abi))
}

} // verus!
