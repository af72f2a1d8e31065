//! The credentials file: an INI text with the key of the fetch service in a
//! fixed section, under a fixed name.

use configparser::ini::Ini;
use vstd::prelude::*;
use vstd::string::StringExecFns;

verus! {

/// One line of a section: a key and, where the line gives one, its value.
#[derive(Debug)]
pub struct IniEntry {
    pub key: String,
    pub value: Option<String>,
}

/// One section of an INI text.
#[derive(Debug)]
pub struct IniSection {
    pub name: String,
    pub entries: Vec<IniEntry>,
}

/// Why no key of the fetch service was found.
#[derive(Debug)]
pub enum ConfigError {
    /// The text is no INI text; the parser's message says why.
    Malformed(String),
    /// The text has no section `api_keys`.
    MissingSection,
    /// The section has no entry `etherscan_api_key`, or one without a value.
    MissingKey,
}

/// What a `ConfigError` holds.
pub enum ConfigErrorModel {
    Malformed(Seq<char>),
    MissingSection,
    MissingKey,
}

impl View for ConfigError {
    type V = ConfigErrorModel;

    open spec fn view(&self) -> ConfigErrorModel {
        match self {
            ConfigError::Malformed(message) => ConfigErrorModel::Malformed(message@),
            ConfigError::MissingSection => ConfigErrorModel::MissingSection,
            ConfigError::MissingKey => ConfigErrorModel::MissingKey,
        }
    }
}

impl ConfigErrorModel {
    /// The words that say what went wrong.
    pub open spec fn message(self) -> Seq<char> {
        match self {
            ConfigErrorModel::Malformed(why) => "Failed to load config file: "@ + why,
            ConfigErrorModel::MissingSection => "Could not find API key section in config file"@,
            ConfigErrorModel::MissingKey => "Could not find ETHERSCAN_API_KEY in config file"@,
        }
    }
}

impl ConfigError {
    /// The words that say what went wrong.
    pub fn message(&self) -> (message: String)
        ensures
            message@ == self@.message(),
    {
        match self {
            ConfigError::Malformed(why) => {
                let mut message = String::from_str("Failed to load config file: ");
                message.append(why.as_str());
                message
            },
            ConfigError::MissingSection => String::from_str(
                "Could not find API key section in config file",
            ),
            ConfigError::MissingKey => String::from_str(
                "Could not find ETHERSCAN_API_KEY in config file",
            ),
        }
    }
}

/// The values of a section by key; an entry without a value is `None`.
pub type EntriesModel = Map<Seq<char>, Option<Seq<char>>>;

/// The sections of an INI text by name.
pub type SectionsModel = Map<Seq<char>, EntriesModel>;

/// The view of an optional text.
pub open spec fn option_text(value: Option<String>) -> Option<Seq<char>> {
    match value {
        Some(text) => Some(text@),
        None => None,
    }
}

/// The map that lists `entries`: each key with its value, the first entry
/// of a key standing for it.
pub open spec fn listed_entries(entries: Seq<IniEntry>) -> EntriesModel
    decreases entries.len(),
{
    if entries.len() == 0 {
        Map::empty()
    } else {
        listed_entries(entries.skip(1)).insert(entries[0].key@, option_text(entries[0].value))
    }
}

/// The map that lists `sections`: each name with its entries, the first
/// section of a name standing for it.
pub open spec fn listed_sections(sections: Seq<IniSection>) -> SectionsModel
    decreases sections.len(),
{
    if sections.len() == 0 {
        Map::empty()
    } else {
        listed_sections(sections.skip(1)).insert(
            sections[0].name@,
            listed_entries(sections[0].entries@),
        )
    }
}

/// What `configparser::ini::Ini::read` makes of `text` with the parser's
/// default settings: the sections by name, or the message of its refusal.
pub uninterp spec fn ini_parse(text: Seq<char>) -> Result<SectionsModel, Seq<char>>;

/// The name of the section that holds the keys.
pub open spec fn key_section() -> Seq<char> {
    "api_keys"@
}

/// The name under which the key of the fetch service stands.
pub open spec fn key_name() -> Seq<char> {
    "etherscan_api_key"@
}

/// The key of the fetch service in a parsed credentials text, or why there
/// is none.
pub open spec fn api_key_of(parsed: Result<SectionsModel, Seq<char>>) -> Result<
    Seq<char>,
    ConfigErrorModel,
> {
    match parsed {
        Err(message) => Err(ConfigErrorModel::Malformed(message)),
        Ok(sections) => if !sections.contains_key(key_section()) {
            Err(ConfigErrorModel::MissingSection)
        } else if !sections[key_section()].contains_key(key_name()) {
            Err(ConfigErrorModel::MissingKey)
        } else {
            match sections[key_section()][key_name()] {
                Some(key) => Ok(key),
                None => Err(ConfigErrorModel::MissingKey),
            }
        },
    }
}

/// The view of the outcome of a search for the key.
pub open spec fn outcome_model(outcome: Result<String, ConfigError>) -> Result<
    Seq<char>,
    ConfigErrorModel,
> {
    match outcome {
        Ok(key) => Ok(key@),
        Err(error) => Err(error@),
    }
}

/// Calls `configparser::ini::Ini::read` on a parser with default settings
/// and lists the map that it returns: each section once, with each of its
/// entries once, in no particular order. A text that the parser refuses
/// gives its message.
#[verifier::external_body]
fn read_ini(text: &str) -> (parsed: Result<Vec<IniSection>, String>)
    ensures
        match parsed {
            Ok(sections) => ini_parse(text@) == Ok::<SectionsModel, Seq<char>>(
                listed_sections(sections@),
            ),
            Err(message) => ini_parse(text@) == Err::<SectionsModel, Seq<char>>(message@),
        },
{
    let map = Ini::new().read(text.to_string())?;
    let mut sections: Vec<IniSection> = Vec::new();
    for (name, values) in map {
        let mut entries: Vec<IniEntry> = Vec::new();
        for (key, value) in values {
            entries.push(IniEntry { key, value });
        }
        sections.push(IniSection { name, entries });
    }
    Ok(sections)
}

/// The index of the first section of `sections` called `name`, if any.
fn find_section(sections: &Vec<IniSection>, name: &String) -> (found: Option<usize>)
    ensures
        match found {
            Some(i) => i < sections@.len() && listed_sections(sections@).contains_key(name@)
                && listed_sections(sections@)[name@] == listed_entries(sections@[i as int].entries@),
            None => !listed_sections(sections@).contains_key(name@),
        },
{
    let mut i: usize = sections.len();
    let mut found: Option<usize> = None;
    while i > 0
        invariant
            i <= sections.len(),
            match found {
                Some(k) => i <= k < sections@.len() && listed_sections(
                    sections@.skip(i as int),
                ).contains_key(name@) && listed_sections(sections@.skip(i as int))[name@]
                    == listed_entries(sections@[k as int].entries@),
                None => !listed_sections(sections@.skip(i as int)).contains_key(name@),
            },
        decreases i,
    {
        i -= 1;
        proof {
            assert(sections@.skip(i as int).skip(1) =~= sections@.skip(i + 1));
        }
        if sections[i].name == *name {
            found = Some(i);
        }
    }
    proof {
        assert(sections@.skip(0) =~= sections@);
    }
    found
}

/// The value of the first entry of `entries` under `key`, if there is such
/// an entry.
fn find_entry(entries: &Vec<IniEntry>, key: &String) -> (found: Option<Option<String>>)
    ensures
        match found {
            Some(value) => listed_entries(entries@).contains_key(key@) && listed_entries(
                entries@,
            )[key@] == option_text(value),
            None => !listed_entries(entries@).contains_key(key@),
        },
{
    let mut i: usize = entries.len();
    let mut found: Option<Option<String>> = None;
    while i > 0
        invariant
            i <= entries.len(),
            match found {
                Some(value) => listed_entries(entries@.skip(i as int)).contains_key(key@)
                    && listed_entries(entries@.skip(i as int))[key@] == option_text(value),
                None => !listed_entries(entries@.skip(i as int)).contains_key(key@),
            },
        decreases i,
    {
        i -= 1;
        proof {
            assert(entries@.skip(i as int).skip(1) =~= entries@.skip(i + 1));
        }
        if entries[i].key == *key {
            found = Some(entries[i].value.clone());
        }
    }
    proof {
        assert(entries@.skip(0) =~= entries@);
    }
    found
}

/// The key of the fetch service among `sections`: the value of
/// `etherscan_api_key` in the section `api_keys`.
pub fn select_api_key(sections: &Vec<IniSection>) -> (outcome: Result<String, ConfigError>)
    ensures
        outcome_model(outcome) == api_key_of(
            Ok::<SectionsModel, Seq<char>>(listed_sections(sections@)),
        ),
{
    let section_name = String::from_str("api_keys");
    let entry_name = String::from_str("etherscan_api_key");
    match find_section(sections, &section_name) {
        None => Err(ConfigError::MissingSection),
        Some(i) => match find_entry(&sections[i].entries, &entry_name) {
            Some(Some(key)) => Ok(key),
            _ => Err(ConfigError::MissingKey),
        },
    }
}

/// The key of the fetch service in the credentials text `config_text`.
pub fn read_api_key(config_text: &str) -> (outcome: Result<String, ConfigError>)
    ensures
        outcome_model(outcome) == api_key_of(ini_parse(config_text@)),
{
    match read_ini(config_text) {
        Err(message) => Err(ConfigError::Malformed(message)),
        Ok(sections) => select_api_key(&sections),
    }
}

} // verus!
