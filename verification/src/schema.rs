//! Schema descriptors: the tables this crate defines, as plain data. A
//! migration runner (an outside collaborator) turns each descriptor into the
//! actual schema change; what is stated and checked here is the descriptors
//! themselves and the order they are applied in.
pub mod events;
pub mod news;

use vstd::prelude::*;

verus! {

/// Column type of a schema descriptor.
#[derive(Debug, Clone, Copy, PartialEq, Eq, Structural)]
pub enum ColType {
    /// Auto-incrementing primary key.
    PkAuto,
    /// Text column.
    Text,
    /// Integer column.
    Integer,
    /// Boolean column.
    Boolean,
    /// Timestamp with time zone.
    TimestampWithTimeZone,
    /// Nullable timestamp with time zone.
    TimestampWithTimeZoneNull,
}

/// One column of a table descriptor.
#[derive(Debug, Clone, PartialEq, Eq)]
pub struct Column {
    pub name: String,
    pub ty: ColType,
}

/// Mathematical form of a column.
#[verifier::ext_equal]
pub struct ColumnSpec {
    pub name: Seq<char>,
    pub ty: ColType,
}

impl View for Column {
    type V = ColumnSpec;

    open spec fn view(&self) -> ColumnSpec {
        ColumnSpec { name: self.name@, ty: self.ty }
    }
}

/// A table descriptor: the table's name and its columns, in order.
#[derive(Debug, Clone, PartialEq, Eq)]
pub struct TableDef {
    pub name: String,
    pub columns: Vec<Column>,
}

/// Mathematical form of a table descriptor.
#[verifier::ext_equal]
pub struct TableDefSpec {
    pub name: Seq<char>,
    pub columns: Seq<ColumnSpec>,
}

impl View for TableDef {
    type V = TableDefSpec;

    open spec fn view(&self) -> TableDefSpec {
        TableDefSpec { name: self.name@, columns: self.columns@.map_values(|c: Column| c@) }
    }
}

/// One entry of the migration plan: the migration's name and, where this
/// crate states it as data, the table descriptor the change creates. The
/// entries whose schema is owned elsewhere carry their name alone.
#[derive(Debug, Clone, PartialEq, Eq)]
pub struct MigrationDef {
    pub name: String,
    pub table: Option<TableDef>,
}

/// The ordered list of schema-change descriptors handed to the migration
/// runner.
pub struct Migrator;

impl Migrator {
    /// The descriptors in application order: users, projects, events, news.
    /// The users and projects changes are carried by name; the events and
    /// news tables are stated in full.
    pub fn migrations() -> (ms: Vec<MigrationDef>)
        ensures
            ms@.len() == 4,
            ms@[0].name@ == "m20220101_000001_users"@ && ms@[0].table is None,
            ms@[1].name@ == "m20251028_091506_projects"@ && ms@[1].table is None,
            ms@[2].name@ == "m20251028_091758_events"@,
            ms@[2].table is Some && ms@[2].table->0@ == events::Migration::table_spec(),
            ms@[3].name@ == "m20251028_092024_news"@,
            ms@[3].table is Some && ms@[3].table->0@ == news::Migration::table_spec(),
    {
        let mut ms: Vec<MigrationDef> = Vec::new();
        ms.push(MigrationDef { name: String::from_str("m20220101_000001_users"), table: None });
        ms.push(MigrationDef { name: String::from_str("m20251028_091506_projects"), table: None });
        ms.push(
            MigrationDef {
                name: String::from_str("m20251028_091758_events"),
                table: Some(events::Migration::up_table()),
            },
        );
        ms.push(
            MigrationDef {
                name: String::from_str("m20251028_092024_news"),
                table: Some(news::Migration::up_table()),
            },
        );
        ms
    }
}

} // verus!
