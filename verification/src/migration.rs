//! Schema migrations: versioned, one-time changes to the application database.
//!
//! A migration is a plain description of one schema change. The database
//! facility that receives the list applies every migration it has not applied
//! yet, in ascending order of version, and records what it applied; this module
//! only says which migrations exist and in which order they stand.

use vstd::prelude::*;

verus! {

/// The direction in which a migration changes the schema.
#[derive(Clone, Copy, Debug, PartialEq, Eq, Structural)]
pub enum MigrationKind {
    /// Moves the schema forward to the migration's version.
    Up,
    /// Takes the change of that version back.
    Down,
}

/// One schema change, as it is handed to the database facility.
#[derive(Clone, Copy, Debug, PartialEq, Eq)]
pub struct Migration {
    /// Position of the change in the schema's history: positive, and never
    /// given to two changes.
    pub version: i64,
    /// A label for people; nothing interprets it.
    pub description: &'static str,
    /// The text of the script that makes the change.
    pub sql: &'static str,
    /// Whether the script applies the change or takes it back.
    pub kind: MigrationKind,
}

/// What a [`Migration`] stands for: its version as a mathematical integer and
/// its two texts as sequences of characters.
pub struct MigrationView {
    pub version: int,
    pub description: Seq<char>,
    pub sql: Seq<char>,
    pub kind: MigrationKind,
}

impl View for Migration {
    type V = MigrationView;

    open spec fn view(&self) -> MigrationView {
        MigrationView {
            version: self.version as int,
            description: self.description@,
            sql: self.sql@,
            kind: self.kind,
        }
    }
}

/// The views of a list of migrations, in the order of the list.
pub open spec fn views(list: Seq<Migration>) -> Seq<MigrationView> {
    Seq::new(list.len(), |i: int| list[i]@)
}

/// A list is well ordered when every version is positive and each entry has a
/// higher version than all entries before it. Such a list holds no version
/// twice, and applying it front to back applies it in ascending order.
pub open spec fn well_ordered(list: Seq<MigrationView>) -> bool {
    &&& forall|i: int| 0 <= i < list.len() ==> (#[trigger] list[i]).version >= 1
    &&& forall|i: int, j: int|
        0 <= i < j < list.len() ==> (#[trigger] list[i]).version < (#[trigger] list[j]).version
}

/// The first migration: it creates the initial tables from the given script.
pub open spec fn initial_schema(sql: Seq<char>) -> MigrationView {
    MigrationView {
        version: 1,
        description: "create_initial_tables"@,
        sql,
        kind: MigrationKind::Up,
    }
}

/// The second migration: it hardens the schema with the given script.
pub open spec fn security_hardening(sql: Seq<char>) -> MigrationView {
    MigrationView {
        version: 2,
        description: "security_hardening"@,
        sql,
        kind: MigrationKind::Up,
    }
}

/// The schema's whole history, oldest change first, over the texts of its two
/// scripts.
pub open spec fn schema_history(
    initial_schema_sql: Seq<char>,
    security_hardening_sql: Seq<char>,
) -> Seq<MigrationView> {
    seq![initial_schema(initial_schema_sql), security_hardening(security_hardening_sql)]
}

/// Builds the list of migrations for the database facility.
///
/// The two arguments are the texts of `001_initial_schema.sql` and
/// `002_security_hardening.sql`. They are taken over as they are, so a caller
/// that embeds the files at build time gets descriptors that hold exactly the
/// embedded scripts. The list is built afresh on every call and holds no state.
pub fn migrations(
    initial_schema_sql: &'static str,
    security_hardening_sql: &'static str,
) -> (list: Vec<Migration>)
    ensures
        views(list@) == schema_history(initial_schema_sql@, security_hardening_sql@),
{
    let mut list: Vec<Migration> = Vec::new();
    list.push(
        Migration {
            version: 1,
            description: "create_initial_tables",
            sql: initial_schema_sql,
            kind: MigrationKind::Up,
        },
    );
    list.push(
        Migration {
            version: 2,
            description: "security_hardening",
            sql: security_hardening_sql,
            kind: MigrationKind::Up,
        },
    );
    assert(views(list@) =~= schema_history(initial_schema_sql@, security_hardening_sql@));
    list
}

/// A well-ordered list holds no version twice.
pub proof fn lemma_well_ordered_versions_unique(list: Seq<MigrationView>)
    requires
        well_ordered(list),
    ensures
        forall|i: int, j: int|
            0 <= i < list.len() && 0 <= j < list.len() && i != j ==> (#[trigger] list[i]).version
                != (#[trigger] list[j]).version,
{
    assert forall|i: int, j: int|
        0 <= i < list.len() && 0 <= j < list.len() && i != j implies (#[trigger] list[i]).version
        != (#[trigger] list[j]).version by {
        if i < j {
            assert(list[i].version < list[j].version);
        } else {
            assert(list[j].version < list[i].version);
        }
    }
}

/// The history has exactly two entries, with versions 1 and 2, and is well
/// ordered: versions are positive and strictly ascending, whatever the scripts
/// hold.
pub proof fn lemma_history_well_ordered(
    initial_schema_sql: Seq<char>,
    security_hardening_sql: Seq<char>,
)
    ensures
        ({
            let history = schema_history(initial_schema_sql, security_hardening_sql);
            &&& history.len() == 2
            &&& history[0].version == 1
            &&& history[1].version == 2
            &&& well_ordered(history)
        }),
{
}

/// Every entry of the history moves the schema forward.
pub proof fn lemma_history_only_moves_up(
    initial_schema_sql: Seq<char>,
    security_hardening_sql: Seq<char>,
)
    ensures
        ({
            let history = schema_history(initial_schema_sql, security_hardening_sql);
            forall|i: int|
                0 <= i < history.len() ==> (#[trigger] history[i]).kind == MigrationKind::Up
        }),
{
}

/// Each entry carries its own script unchanged, the first script in the first
/// entry and the second in the second. So every entry has a script that is not
/// empty exactly when neither of the two texts is empty.
pub proof fn lemma_history_keeps_scripts(
    initial_schema_sql: Seq<char>,
    security_hardening_sql: Seq<char>,
)
    ensures
        ({
            let history = schema_history(initial_schema_sql, security_hardening_sql);
            &&& history[0].sql == initial_schema_sql
            &&& history[1].sql == security_hardening_sql
            &&& (forall|i: int| 0 <= i < history.len() ==> (#[trigger] history[i]).sql.len() > 0)
                <==> (initial_schema_sql.len() > 0 && security_hardening_sql.len() > 0)
        }),
{
    let history = schema_history(initial_schema_sql, security_hardening_sql);
    assert(history[0].sql == initial_schema_sql);
    assert(history[1].sql == security_hardening_sql);
}

} // verus!
