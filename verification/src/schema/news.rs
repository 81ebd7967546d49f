//! Schema change that introduces the news table.
use vstd::prelude::*;

use crate::schema::{ColType, Column, ColumnSpec, TableDef, TableDefSpec};

verus! {

/// The migration that creates (and, reversed, drops) the news table.
pub struct Migration;

impl Migration {
    /// The news table descriptor, stated as data.
    pub open spec fn table_spec() -> TableDefSpec {
        TableDefSpec {
            name: "news"@,
            columns: seq![
                ColumnSpec { name: "id"@, ty: ColType::PkAuto },
                ColumnSpec { name: "title"@, ty: ColType::Text },
                ColumnSpec { name: "excerpt"@, ty: ColType::Text },
                ColumnSpec { name: "content"@, ty: ColType::Text },
                ColumnSpec { name: "published_at"@, ty: ColType::TimestampWithTimeZoneNull },
                ColumnSpec { name: "category"@, ty: ColType::Text },
                ColumnSpec { name: "read_time"@, ty: ColType::Integer },
                ColumnSpec { name: "featured"@, ty: ColType::Boolean },
            ],
        }
    }

    /// Builds the descriptor the upward migration hands to the runner.
    pub fn up_table() -> (t: TableDef)
        ensures
            t@ == Self::table_spec(),
    {
        let mut columns: Vec<Column> = Vec::new();
        columns.push(Column { name: String::from_str("id"), ty: ColType::PkAuto });
        columns.push(Column { name: String::from_str("title"), ty: ColType::Text });
        columns.push(Column { name: String::from_str("excerpt"), ty: ColType::Text });
        columns.push(Column { name: String::from_str("content"), ty: ColType::Text });
        columns.push(
            Column { name: String::from_str("published_at"), ty: ColType::TimestampWithTimeZoneNull },
        );
        columns.push(Column { name: String::from_str("category"), ty: ColType::Text });
        columns.push(Column { name: String::from_str("read_time"), ty: ColType::Integer });
        columns.push(Column { name: String::from_str("featured"), ty: ColType::Boolean });
        let t = TableDef { name: String::from_str("news"), columns };
        proof {
            assert(t@.columns =~= Self::table_spec().columns);
            assert(t@ =~= Self::table_spec());
        }
        t
    }

    /// The name of the table the downward migration drops.
    pub fn down_table_name() -> (n: String)
        ensures
            n@ == "news"@,
    {
        String::from_str("news")
    }
}

} // verus!
