//! Schema change that introduces the events table.
use vstd::prelude::*;

use crate::schema::{ColType, Column, ColumnSpec, TableDef, TableDefSpec};

verus! {

/// The migration that creates (and, reversed, drops) the events table.
pub struct Migration;

impl Migration {
    /// The events table descriptor, stated as data.
    pub open spec fn table_spec() -> TableDefSpec {
        TableDefSpec {
            name: "events"@,
            columns: seq![
                ColumnSpec { name: "id"@, ty: ColType::PkAuto },
                ColumnSpec { name: "title"@, ty: ColType::Text },
                ColumnSpec { name: "description"@, ty: ColType::Text },
                ColumnSpec { name: "date"@, ty: ColType::TimestampWithTimeZone },
                ColumnSpec { name: "location"@, ty: ColType::Text },
                ColumnSpec { name: "event_type"@, ty: ColType::Text },
            ],
        }
    }

    /// Builds the descriptor the upward migration hands to the runner.
    pub fn up_table() -> (t: TableDef)
        ensures
            t@ == Self::table_spec(),
    {
        let mut columns: Vec<Column> = Vec::new();
        columns.push(Column { name: String::from_str("id"), ty: ColType::PkAuto });
        columns.push(Column { name: String::from_str("title"), ty: ColType::Text });
        columns.push(Column { name: String::from_str("description"), ty: ColType::Text });
        columns.push(Column { name: String::from_str("date"), ty: ColType::TimestampWithTimeZone });
        columns.push(Column { name: String::from_str("location"), ty: ColType::Text });
        columns.push(Column { name: String::from_str("event_type"), ty: ColType::Text });
        let t = TableDef { name: String::from_str("events"), columns };
        proof {
            assert(t@.columns =~= Self::table_spec().columns);
            assert(t@ =~= Self::table_spec());
        }
        t
    }

    /// The name of the table the downward migration drops.
    pub fn down_table_name() -> (n: String)
        ensures
            n@ == "events"@,
    {
        String::from_str("events")
    }
}

} // verus!
