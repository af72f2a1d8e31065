//! Canonical signatures and selectors for contract interface descriptions,
//! the rows they are stored as, and the decisions of a rate-limited batch
//! download, all stated over mathematical models and proved.
//!
//! The library does no input or output. A caller reads the address list and
//! the credentials, hands their contents in, and runs a [`Downloader`]: it
//! does what each step asks for (create the directories, fetch, write,
//! pause) and reports what came of it.

pub mod abi;
pub mod address;
pub mod address_list;
pub mod config;
pub mod digest;
pub mod error;
pub mod hexadecimal;
pub mod orchestrator;
pub mod record;
pub mod signature;
pub mod table;
pub mod text;
pub mod whole_run;

pub use crate::abi::{AbiEvent, AbiFunction, AbiParam, ContractAbi};
pub use crate::address_list::read_addresses;
pub use crate::config::{read_api_key, ConfigError};
pub use crate::error::DownloadError;
pub use crate::orchestrator::{Action, Downloader, Event, Stage};
pub use crate::record::{create_empty_record, process_contract, AbiRecord};
pub use crate::signature::{
    create_event_selector, create_event_signature, create_function_selector,
    create_function_signature,
};
pub use crate::table::{table_columns, Column, TableKind};
