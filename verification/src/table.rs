//! The layout of the output: the two kinds of table, where each is stored and
//! the columns that each has.

use crate::record::{AbiRecord, RecordModel};
use vstd::prelude::*;
use vstd::string::StringExecFns;

verus! {

/// The two kinds of table.
#[derive(Debug, Clone, Copy, PartialEq, Eq, Structural)]
pub enum TableKind {
    Functions,
    Events,
}

impl TableKind {
    /// The name of the subdirectory that holds the per-address tables of
    /// this kind.
    pub open spec fn directory_text(self) -> Seq<char> {
        match self {
            TableKind::Functions => "functions"@,
            TableKind::Events => "events"@,
        }
    }

    /// What follows the address in the name of a per-address table.
    pub open spec fn file_suffix_text(self) -> Seq<char> {
        match self {
            TableKind::Functions => "_functions.parquet"@,
            TableKind::Events => "_events.parquet"@,
        }
    }

    /// The name of the consolidated table of this kind.
    pub open spec fn merged_text(self) -> Seq<char> {
        match self {
            TableKind::Functions => "all_functions.parquet"@,
            TableKind::Events => "all_events.parquet"@,
        }
    }

    /// The name of the per-address table of this kind for `address`.
    pub open spec fn file_text(self, address: Seq<char>) -> Seq<char> {
        address + self.file_suffix_text()
    }

    /// The name of the subdirectory, under the output directory, that holds
    /// the per-address tables of this kind.
    pub fn directory_name(self) -> (name: String)
        ensures
            name@ == self.directory_text(),
    {
        match self {
            TableKind::Functions => String::from_str("functions"),
            TableKind::Events => String::from_str("events"),
        }
    }

    /// The name of the consolidated table of this kind, which stands in the
    /// output directory itself.
    pub fn merged_file_name(self) -> (name: String)
        ensures
            name@ == self.merged_text(),
    {
        match self {
            TableKind::Functions => String::from_str("all_functions.parquet"),
            TableKind::Events => String::from_str("all_events.parquet"),
        }
    }

    /// The name of the per-address table of this kind for `address`, within
    /// the subdirectory of this kind.
    pub fn file_name(self, address: &str) -> (name: String)
        ensures
            name@ == self.file_text(address@),
    {
        let mut name = String::from_str(address);
        match self {
            TableKind::Functions => name.append("_functions.parquet"),
            TableKind::Events => name.append("_events.parquet"),
        }
        name
    }
}

/// One column of a table: its name and a text for each row.
#[derive(Debug)]
pub struct Column {
    pub name: String,
    pub values: Vec<String>,
}

/// What a column holds.
pub struct ColumnModel {
    pub name: Seq<char>,
    pub values: Seq<Seq<char>>,
}

impl View for Column {
    type V = ColumnModel;

    open spec fn view(&self) -> ColumnModel {
        ColumnModel { name: self.name@, values: crate::text::texts(self.values@) }
    }
}

/// The models of `columns`, in order.
pub open spec fn column_models(columns: Seq<Column>) -> Seq<ColumnModel> {
    Seq::new(columns.len(), |i: int| columns[i]@)
}

/// The five columns of the table whose rows are `rows`: `record_type`,
/// `contract_address`, `name`, `signature` and `selector`, in this order,
/// each with one text for each row, in the order of the rows.
pub open spec fn table_of(rows: Seq<RecordModel>) -> Seq<ColumnModel> {
    seq![
        ColumnModel {
            name: "record_type"@,
            values: Seq::new(rows.len(), |i: int| rows[i].record_type),
        },
        ColumnModel {
            name: "contract_address"@,
            values: Seq::new(rows.len(), |i: int| rows[i].contract_address),
        },
        ColumnModel { name: "name"@, values: Seq::new(rows.len(), |i: int| rows[i].name) },
        ColumnModel {
            name: "signature"@,
            values: Seq::new(rows.len(), |i: int| rows[i].signature),
        },
        ColumnModel { name: "selector"@, values: Seq::new(rows.len(), |i: int| rows[i].selector) },
    ]
}

/// The rows of a table of five columns of one length: row `i` is made of
/// the `i`-th text of each column.
pub open spec fn rows_of(table: Seq<ColumnModel>) -> Seq<RecordModel> {
    Seq::new(
        table[0].values.len(),
        |i: int|
            RecordModel {
                record_type: table[0].values[i],
                contract_address: table[1].values[i],
                name: table[2].values[i],
                signature: table[3].values[i],
                selector: table[4].values[i],
            },
    )
}

/// A table holds its rows and nothing else: reading the rows back from the
/// columns gives the rows that the table was made of, in their order.
pub proof fn lemma_table_keeps_rows(rows: Seq<RecordModel>)
    ensures
        table_of(rows).len() == 5,
        forall|c: int| 0 <= c < 5 ==> (#[trigger] table_of(rows)[c]).values.len() == rows.len(),
        rows_of(table_of(rows)) == rows,
{
    assert(rows_of(table_of(rows)) =~= rows);
}

/// The kind of field that a column is made of.
#[derive(Debug, Clone, Copy, PartialEq, Eq, Structural)]
enum Field {
    RecordType,
    ContractAddress,
    Name,
    Signature,
    Selector,
}

/// The text of `field` in `row`.
spec fn field_text(row: RecordModel, field: Field) -> Seq<char> {
    match field {
        Field::RecordType => row.record_type,
        Field::ContractAddress => row.contract_address,
        Field::Name => row.name,
        Field::Signature => row.signature,
        Field::Selector => row.selector,
    }
}

/// The texts of `field` in `records`, in the order of the records.
fn field_values(records: &[AbiRecord], field: Field) -> (values: Vec<String>)
    ensures
        crate::text::texts(values@) == Seq::new(
            records@.len(),
            |i: int| field_text(records@[i]@, field),
        ),
{
    let mut values: Vec<String> = Vec::new();
    let mut i: usize = 0;
    while i < records.len()
        invariant
            i <= records.len(),
            values@.len() == i,
            forall|j: int| 0 <= j < i ==> (#[trigger] values@[j])@ == field_text(records@[j]@, field),
        decreases records.len() - i,
    {
        let record = &records[i];
        let value = match field {
            Field::RecordType => record.record_type.clone(),
            Field::ContractAddress => record.contract_address.clone(),
            Field::Name => record.name.clone(),
            Field::Signature => record.signature.clone(),
            Field::Selector => record.selector.clone(),
        };
        values.push(value);
        i += 1;
    }
    proof {
        assert(crate::text::texts(values@) =~= Seq::new(
            records@.len(),
            |i: int| field_text(records@[i]@, field),
        ));
    }
    values
}

/// The table of `records`: five columns of texts, one row for each record,
/// in the order of the records. No record gives a table of five empty
/// columns.
pub fn table_columns(records: &[AbiRecord]) -> (columns: Vec<Column>)
    ensures
        column_models(columns@) == table_of(crate::record::record_models(records@)),
{
    let mut columns: Vec<Column> = Vec::new();
    columns.push(
        Column {
            name: String::from_str("record_type"),
            values: field_values(records, Field::RecordType),
        },
    );
    columns.push(
        Column {
            name: String::from_str("contract_address"),
            values: field_values(records, Field::ContractAddress),
        },
    );
    columns.push(Column { name: String::from_str("name"), values: field_values(records, Field::Name) });
    columns.push(
        Column {
            name: String::from_str("signature"),
            values: field_values(records, Field::Signature),
        },
    );
    columns.push(
        Column {
            name: String::from_str("selector"),
            values: field_values(records, Field::Selector),
        },
    );
    proof {
        let rows = crate::record::record_models(records@);
        let expected = table_of(rows);
        let got = column_models(columns@);
        assert(got.len() == expected.len());
        assert forall|c: int| 0 <= c < 5 implies got[c] == expected[c] by {
            assert(got[c].values =~= expected[c].values);
        }
        assert(got =~= expected);
    }
    columns
}

} // verus!
