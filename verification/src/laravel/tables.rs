//! A project's database tables as the completion layer sees them: table
//! names, optionally with their columns, and a one-line description each.

use vstd::prelude::*;

use vstd::string::StringExecFns;

verus! {

/// One column of a table.
#[derive(Clone)]
pub struct Column {
    pub name: String,
}

/// The mathematical value of a `Column`.
pub struct ColumnV {
    pub name: Seq<char>,
}

impl View for Column {
    type V = ColumnV;

    open spec fn view(&self) -> ColumnV {
        ColumnV { name: self.name@ }
    }
}

/// One table: its name and, once loaded, its columns.
#[derive(Clone)]
pub struct Table {
    pub table: String,
    pub columns: Option<Vec<Column>>,
}

/// The mathematical value of a `Table`.
pub struct TableV {
    pub table: Seq<char>,
    pub columns: Option<Seq<ColumnV>>,
}

impl View for Table {
    type V = TableV;

    open spec fn view(&self) -> TableV {
        TableV {
            table: self.table@,
            columns: match self.columns {
                Some(cs) => Some(cs@.map_values(|c: Column| c@)),
                None => None,
            },
        }
    }
}

/// The values of a table list.
pub open spec fn table_views(ts: Seq<Table>) -> Seq<TableV> {
    ts.map_values(|t: Table| t@)
}

/// The description a table candidate displays.
pub open spec fn table_desc_spec(name: Seq<char>) -> Seq<char> {
    "Table: "@ + name
}

impl Table {
    /// The one-line description of the table.
    pub fn table_description(&self) -> (r: String)
        ensures
            r@ == table_desc_spec(self@.table),
    {
        let mut d = String::from_str("Table: ");
        d.append(self.table.as_str());
        d
    }

    /// The table's columns, if they were loaded.
    pub fn get_colums(&self) -> (r: Option<&Vec<Column>>)
        ensures
            match r {
                Some(cs) => self.columns matches Some(own) && *cs == own,
                None => self.columns is None,
            },
    {
        self.columns.as_ref()
    }
}

/// The collection of all tables of the project.
#[derive(Clone)]
pub struct Tables {
    pub tables: Vec<Table>,
}

} // verus!
