//! Discovering what a subject's database holds.
//!
//! The engine's catalog differs between versions, so tables and columns are
//! looked for by several strategies in a fixed order. The probes here decide
//! which statement is tried next and what is made of its outcome; running the
//! statements is the caller's part. A strategy that fails, or finds nothing,
//! never ends a probe: the next one is tried.

use vstd::prelude::*;
use vstd::string::StringExecFns;
use crate::catalog::{
    columns_view, duplicate_columns, ColumnDescriptor, ColumnView, TableEntry, TableView,
};
use crate::text::{copy_str, has_prefix, same_str, str_has_prefix, texts};

verus! {

/// The statement that lists the user's tables from the catalog.
pub const CATALOG_TABLES: &'static str =
    "SELECT name FROM sqlite_master WHERE type='table' AND name NOT LIKE 'sqlite_%' AND name NOT LIKE 'duck_%' AND name NOT LIKE 'pg_%'";

/// The engine's own command that lists tables.
pub const LIST_TABLES: &'static str = "SHOW TABLES";

/// The pragma that lists tables; the name is in its second column.
pub const PRAGMA_TABLES: &'static str = "PRAGMA table_list";

/// The number of table names that are tried when nothing lists any.
pub const CONVENTIONAL_COUNT: usize = 4;

/// The table name that is tried at position `k` when nothing lists any; the
/// last one for every position from the last on.
pub open spec fn conventional_name(k: int) -> Seq<char> {
    if k == 0 {
        "orders"@
    } else if k == 1 {
        "customers"@
    } else if k == 2 {
        "products"@
    } else {
        "sales"@
    }
}

/// The conventional table name at position `k`.
pub fn conventional(k: usize) -> (r: &'static str)
    ensures
        r@ == conventional_name(k as int),
{
    if k == 0 {
        "orders"
    } else if k == 1 {
        "customers"
    } else if k == 2 {
        "products"
    } else {
        "sales"
    }
}

/// The name belongs to the engine, not to the user.
pub open spec fn is_internal_name(name: Seq<char>) -> bool {
    has_prefix(name, "sqlite_"@) || has_prefix(name, "duck_"@) || has_prefix(name, "pg_"@)
}

/// The names among `names` that belong to the user, in order.
pub open spec fn user_tables(names: Seq<Seq<char>>) -> Seq<Seq<char>>
    decreases names.len(),
{
    if names.len() == 0 {
        Seq::empty()
    } else if is_internal_name(names.last()) {
        user_tables(names.drop_last())
    } else {
        user_tables(names.drop_last()).push(names.last())
    }
}

/// Computes [`is_internal_name`].
pub fn test_internal_name(name: &str) -> (r: bool)
    ensures
        r == is_internal_name(name@),
{
    str_has_prefix(name, "sqlite_") || str_has_prefix(name, "duck_") || str_has_prefix(
        name,
        "pg_",
    )
}

/// Computes [`user_tables`].
pub fn keep_user_tables(names: &Vec<String>) -> (r: Vec<String>)
    ensures
        texts(r@) == user_tables(texts(names@)),
{
    let mut r: Vec<String> = Vec::new();
    let ghost all = texts(names@);
    let mut i: usize = 0;
    assert(texts(r@) =~= user_tables(all.take(0)));
    while i < names.len()
        invariant
            i <= names.len(),
            all == texts(names@),
            texts(r@) == user_tables(all.take(i as int)),
        decreases names.len() - i,
    {
        let ghost before = texts(r@);
        proof {
            assert(all.take(i + 1).drop_last() =~= all.take(i as int));
            assert(all.take(i + 1).last() == names@[i as int]@);
        }
        if !test_internal_name(names[i].as_str()) {
            r.push(names[i].clone());
            assert(texts(r@) =~= before.push(names@[i as int]@));
        }
        i += 1;
    }
    assert(all.take(names.len() as int) =~= all);
    r
}

/// The statement that succeeds, without returning a row, exactly when the
/// table exists: it is how a conventional name is tried, and how the columns
/// of a table are read when nothing describes them.
pub open spec fn zero_row_select(table: Seq<char>) -> Seq<char> {
    "SELECT * FROM \""@ + table + "\" LIMIT 0"@
}

/// Builds [`zero_row_select`].
pub fn build_zero_row_select(table: &str) -> (r: String)
    ensures
        r@ == zero_row_select(table@),
{
    let mut r = copy_str("SELECT * FROM \"");
    r.append(table);
    r.append("\" LIMIT 0");
    r
}

/// Where a table probe stands.
#[derive(Debug, Clone, Copy, PartialEq, Eq, Structural)]
pub enum TableStage {
    /// The catalog is asked next.
    CatalogQuery,
    /// The engine's list command is tried next.
    ListCommand,
    /// The pragma is tried next.
    Pragma,
    /// The conventional names are being tried, one by one.
    Conventional,
    /// The probe is over.
    Done,
}

/// What the caller of a table probe is to do next.
#[derive(Debug)]
pub enum TableStep {
    /// Run the statement and hand back the texts in column `name_column` of
    /// its rows, or say that it failed.
    RunListing { sql: String, name_column: usize },
    /// Run the statement and say whether it ran without an error.
    TryTable { name: String, sql: String },
    /// Nothing: the probe is over and its tables can be taken.
    Finished,
}

/// The mathematical value of a [`TableStep`].
pub enum TableStepView {
    RunListing { sql: Seq<char>, name_column: nat },
    TryTable { name: Seq<char>, sql: Seq<char> },
    Finished,
}

impl View for TableStep {
    type V = TableStepView;

    open spec fn view(&self) -> TableStepView {
        match self {
            TableStep::RunListing { sql, name_column } => TableStepView::RunListing {
                sql: sql@,
                name_column: *name_column as nat,
            },
            TableStep::TryTable { name, sql } => TableStepView::TryTable { name: name@, sql: sql@ },
            TableStep::Finished => TableStepView::Finished,
        }
    }
}

/// What the caller of a table probe reports.
#[derive(Debug)]
pub enum TableEvent {
    /// The listing statement returned these names.
    Listed(Vec<String>),
    /// The listing statement failed.
    ListingFailed,
    /// The statement that tries a conventional name ran, or did not.
    Tried(bool),
}

/// The state of a table probe, as a mathematical value.
pub struct TableProbeView {
    pub stage: TableStage,
    pub trial: nat,
    pub found: Seq<Seq<char>>,
}

/// The step that a probe in the given state asks for.
pub open spec fn table_step(p: TableProbeView) -> TableStepView {
    match p.stage {
        TableStage::CatalogQuery => TableStepView::RunListing {
            sql: CATALOG_TABLES@,
            name_column: 0,
        },
        TableStage::ListCommand => TableStepView::RunListing { sql: LIST_TABLES@, name_column: 0 },
        TableStage::Pragma => TableStepView::RunListing { sql: PRAGMA_TABLES@, name_column: 1 },
        TableStage::Conventional => TableStepView::TryTable {
            name: conventional_name(p.trial as int),
            sql: zero_row_select(conventional_name(p.trial as int)),
        },
        TableStage::Done => TableStepView::Finished,
    }
}

/// The stage after a listing strategy that found nothing.
pub open spec fn stage_after(stage: TableStage) -> TableStage {
    match stage {
        TableStage::CatalogQuery => TableStage::ListCommand,
        TableStage::ListCommand => TableStage::Pragma,
        TableStage::Pragma => TableStage::Conventional,
        TableStage::Conventional => TableStage::Conventional,
        TableStage::Done => TableStage::Done,
    }
}

/// The stage is one that lists tables.
pub open spec fn is_listing_stage(stage: TableStage) -> bool {
    stage == TableStage::CatalogQuery || stage == TableStage::ListCommand || stage
        == TableStage::Pragma
}

/// The state after a listing strategy returned `names` (none when it
/// failed): the probe ends with the user's tables among them where there are
/// any, and moves on to the next strategy otherwise.
pub open spec fn after_listing(p: TableProbeView, names: Seq<Seq<char>>) -> TableProbeView {
    if user_tables(names).len() > 0 {
        TableProbeView { stage: TableStage::Done, trial: p.trial, found: user_tables(names) }
    } else {
        TableProbeView { stage: stage_after(p.stage), trial: p.trial, found: p.found }
    }
}

/// The state after a conventional name was tried: the name counts as found
/// where the statement ran, and the probe ends after the last name.
pub open spec fn after_trial(p: TableProbeView, ran: bool) -> TableProbeView {
    TableProbeView {
        stage: if p.trial + 1 >= CONVENTIONAL_COUNT {
            TableStage::Done
        } else {
            TableStage::Conventional
        },
        trial: p.trial + 1,
        found: if ran {
            p.found.push(conventional_name(p.trial as int))
        } else {
            p.found
        },
    }
}

/// The state after an event. An event that does not answer the step that the
/// probe asked for changes nothing.
pub open spec fn table_probe_next(p: TableProbeView, event: TableEvent) -> TableProbeView {
    match event {
        TableEvent::Listed(names) => if is_listing_stage(p.stage) {
            after_listing(p, texts(names@))
        } else {
            p
        },
        TableEvent::ListingFailed => if is_listing_stage(p.stage) {
            after_listing(p, Seq::empty())
        } else {
            p
        },
        TableEvent::Tried(ran) => if p.stage == TableStage::Conventional {
            after_trial(p, ran)
        } else {
            p
        },
    }
}

/// A probe for the tables of one database.
#[derive(Debug)]
pub struct TableProbe {
    stage: TableStage,
    trial: usize,
    found: Vec<String>,
}

impl View for TableProbe {
    type V = TableProbeView;

    closed spec fn view(&self) -> TableProbeView {
        TableProbeView { stage: self.stage, trial: self.trial as nat, found: texts(self.found@) }
    }
}

impl TableProbe {
    /// Before the conventional names are tried none was tried and nothing
    /// was found; while they are tried, one is left to try.
    pub open spec fn wf(&self) -> bool {
        &&& self@.trial <= CONVENTIONAL_COUNT
        &&& is_listing_stage(self@.stage) ==> self@.trial == 0 && self@.found.len() == 0
        &&& self@.stage == TableStage::Conventional ==> self@.trial < CONVENTIONAL_COUNT
    }

    /// A probe that has tried nothing yet.
    pub fn new() -> (r: Self)
        ensures
            r.wf(),
            r@ == (TableProbeView { stage: TableStage::CatalogQuery, trial: 0, found: Seq::empty() }),
    {
        let r = TableProbe { stage: TableStage::CatalogQuery, trial: 0, found: Vec::new() };
        assert(texts(r.found@) =~= Seq::<Seq<char>>::empty());
        r
    }

    /// The stage of the probe.
    pub fn stage(&self) -> (r: TableStage)
        ensures
            r == self@.stage,
    {
        self.stage
    }

    /// Whether the probe is over.
    pub fn is_done(&self) -> (r: bool)
        ensures
            r == (self@.stage == TableStage::Done),
    {
        matches!(self.stage, TableStage::Done)
    }

    /// What the caller is to do next.
    pub fn step(&self) -> (r: TableStep)
        ensures
            r@ == table_step(self@),
    {
        match self.stage {
            TableStage::CatalogQuery => TableStep::RunListing {
                sql: copy_str(CATALOG_TABLES),
                name_column: 0,
            },
            TableStage::ListCommand => TableStep::RunListing {
                sql: copy_str(LIST_TABLES),
                name_column: 0,
            },
            TableStage::Pragma => TableStep::RunListing {
                sql: copy_str(PRAGMA_TABLES),
                name_column: 1,
            },
            TableStage::Conventional => {
                let name = conventional(self.trial);
                TableStep::TryTable { name: copy_str(name), sql: build_zero_row_select(name) }
            },
            TableStage::Done => TableStep::Finished,
        }
    }

    /// Takes the outcome of the last step; see [`table_probe_next`].
    pub fn advance(&mut self, event: TableEvent)
        requires
            old(self).wf(),
        ensures
            final(self).wf(),
            final(self)@ == table_probe_next(old(self)@, event),
    {
        let listing: bool = matches!(
            self.stage,
            TableStage::CatalogQuery | TableStage::ListCommand | TableStage::Pragma
        );
        match event {
            TableEvent::Listed(names) => {
                if listing {
                    let kept = keep_user_tables(&names);
                    self.settle(kept);
                }
            },
            TableEvent::ListingFailed => {
                if listing {
                    let none: Vec<String> = Vec::new();
                    assert(texts(none@) =~= Seq::<Seq<char>>::empty());
                    self.settle(none);
                }
            },
            TableEvent::Tried(ran) => {
                if matches!(self.stage, TableStage::Conventional) {
                    if ran {
                        let ghost before = texts(self.found@);
                        self.found.push(copy_str(conventional(self.trial)));
                        assert(texts(self.found@) =~= before.push(
                            conventional_name(self.trial as int),
                        ));
                    }
                    self.trial = self.trial + 1;
                    if self.trial >= CONVENTIONAL_COUNT {
                        self.stage = TableStage::Done;
                    }
                }
            },
        }
    }

    /// Ends the probe with the tables kept of a listing, or moves on to the
    /// next strategy where none were kept.
    fn settle(&mut self, kept: Vec<String>)
        requires
            old(self).wf(),
            is_listing_stage(old(self)@.stage),
        ensures
            final(self).wf(),
            final(self)@ == (if kept@.len() > 0 {
                TableProbeView {
                    stage: TableStage::Done,
                    trial: old(self)@.trial,
                    found: texts(kept@),
                }
            } else {
                TableProbeView {
                    stage: stage_after(old(self)@.stage),
                    trial: old(self)@.trial,
                    found: old(self)@.found,
                }
            }),
    {
        if kept.len() > 0 {
            self.found = kept;
            self.stage = TableStage::Done;
        } else {
            self.stage = match self.stage {
                TableStage::CatalogQuery => TableStage::ListCommand,
                TableStage::ListCommand => TableStage::Pragma,
                _ => TableStage::Conventional,
            };
        }
    }

    /// The tables found so far; once the probe is over, the tables of the
    /// database.
    pub fn tables(&self) -> (r: &Vec<String>)
        ensures
            texts(r@) == self@.found,
    {
        &self.found
    }
}

/// The number of steps that a table probe in the given state asks for at
/// most before it is over.
pub open spec fn table_steps_left(p: TableProbeView) -> nat {
    match p.stage {
        TableStage::CatalogQuery => 7,
        TableStage::ListCommand => 6,
        TableStage::Pragma => 5,
        TableStage::Conventional => if p.trial < CONVENTIONAL_COUNT {
            (CONVENTIONAL_COUNT - p.trial) as nat
        } else {
            0
        },
        TableStage::Done => 0,
    }
}

/// The event answers the step that a probe in the given state asks for.
pub open spec fn answers_table_step(p: TableProbeView, event: TableEvent) -> bool {
    match event {
        TableEvent::Listed(_) => is_listing_stage(p.stage),
        TableEvent::ListingFailed => is_listing_stage(p.stage),
        TableEvent::Tried(_) => p.stage == TableStage::Conventional,
    }
}

/// A table probe always comes to an end: every answer to its step brings it
/// closer, whatever the answer is, and a probe with no step left is over.
pub proof fn lemma_table_probe_ends(p: TableProbeView, event: TableEvent)
    requires
        p.trial <= CONVENTIONAL_COUNT,
        is_listing_stage(p.stage) ==> p.trial == 0,
        p.stage == TableStage::Conventional ==> p.trial < CONVENTIONAL_COUNT,
        answers_table_step(p, event),
    ensures
        table_steps_left(table_probe_next(p, event)) < table_steps_left(p),
        table_steps_left(p) == 0 <==> p.stage == TableStage::Done,
{
}

/// A listing that names a user table settles the probe: the tables of the
/// first strategy that lists any are the tables found, in the order listed
/// and without the engine's own.
pub proof fn lemma_first_listing_wins(p: TableProbeView, names: Vec<String>)
    requires
        is_listing_stage(p.stage),
        user_tables(texts(names@)).len() > 0,
    ensures
        table_probe_next(p, TableEvent::Listed(names)).stage == TableStage::Done,
        table_probe_next(p, TableEvent::Listed(names)).found == user_tables(texts(names@)),
{
}

/// How the engine flags a column as `NOT NULL`: as a truth value or as a
/// number, depending on its version.
#[derive(Debug, Clone, Copy)]
pub enum NotNullFlag {
    Bool(bool),
    Int(i64),
}

/// Whether a column with the given flag may hold nulls: the flag is false,
/// or 0.
pub open spec fn nullable_of(flag: NotNullFlag) -> bool {
    match flag {
        NotNullFlag::Bool(b) => !b,
        NotNullFlag::Int(i) => i == 0,
    }
}

/// Computes [`nullable_of`].
pub fn nullable_from_flag(flag: NotNullFlag) -> (r: bool)
    ensures
        r == nullable_of(flag),
{
    match flag {
        NotNullFlag::Bool(b) => !b,
        NotNullFlag::Int(i) => i == 0,
    }
}

/// The column that a row of the catalog's column listing stands for; it
/// may hold nulls exactly when the catalog says `YES`.
pub fn column_from_catalog_row(name: &str, declared: &str, is_nullable: &str) -> (r:
    ColumnDescriptor)
    ensures
        r@ == (ColumnView {
            name: name@,
            declared_type: declared@,
            nullable: is_nullable@ == "YES"@,
        }),
{
    ColumnDescriptor::new(name, declared, same_str(is_nullable, "YES"))
}

/// The column that a row of the engine's table description stands for.
pub fn column_from_table_info(name: &str, declared: &str, flag: NotNullFlag) -> (r:
    ColumnDescriptor)
    ensures
        r@ == (ColumnView { name: name@, declared_type: declared@, nullable: nullable_of(flag) }),
{
    ColumnDescriptor::new(name, declared, nullable_from_flag(flag))
}

/// The column of which only the name is known: its type is `UNKNOWN`, and
/// it is taken to hold nulls.
pub fn column_from_name(name: &str) -> (r: ColumnDescriptor)
    ensures
        r@ == (ColumnView { name: name@, declared_type: "UNKNOWN"@, nullable: true }),
{
    ColumnDescriptor::new(name, "UNKNOWN", true)
}

/// The columns that are assumed for a conventional table of which nothing
/// could be discovered: those of `orders`, and none for any other table.
pub open spec fn assumed_columns(table: Seq<char>) -> Seq<ColumnView> {
    if table == "orders"@ {
        seq![
            ColumnView { name: "order_id"@, declared_type: "INTEGER"@, nullable: false },
            ColumnView { name: "customer_id"@, declared_type: "INTEGER"@, nullable: true },
            ColumnView { name: "order_date"@, declared_type: "DATE"@, nullable: true },
            ColumnView { name: "total_amount"@, declared_type: "DOUBLE"@, nullable: true },
        ]
    } else {
        Seq::empty()
    }
}

/// Builds [`assumed_columns`].
pub fn build_assumed_columns(table: &str) -> (r: Vec<ColumnDescriptor>)
    ensures
        columns_view(r@) == assumed_columns(table@),
{
    let mut r: Vec<ColumnDescriptor> = Vec::new();
    if same_str(table, "orders") {
        r.push(ColumnDescriptor::new("order_id", "INTEGER", false));
        r.push(ColumnDescriptor::new("customer_id", "INTEGER", true));
        r.push(ColumnDescriptor::new("order_date", "DATE", true));
        r.push(ColumnDescriptor::new("total_amount", "DOUBLE", true));
    }
    assert(columns_view(r@) =~= assumed_columns(table@));
    r
}

/// The statement that lists the columns of a table from the catalog: name,
/// type and nullability, in ordinal order.
pub open spec fn catalog_columns_statement(table: Seq<char>) -> Seq<char> {
    "SELECT column_name, data_type, is_nullable FROM information_schema.columns WHERE table_name = '"@
        + table + "' ORDER BY ordinal_position"@
}

/// The pragma that describes a table: name, type and `NOT NULL` flag in its
/// second, third and fourth column.
pub open spec fn table_info_statement(table: Seq<char>) -> Seq<char> {
    "PRAGMA table_info(\""@ + table + "\")"@
}

/// Where the columns of a table come from.
#[derive(Debug, Clone, Copy, PartialEq, Eq, Structural)]
pub enum ColumnSource {
    /// The catalog listed them.
    CatalogQuery,
    /// The engine's table description listed them.
    TableInfo,
    /// A statement over the table gave their names; their types are
    /// unknown.
    ZeroRowSelect,
    /// Nothing was discovered: they are the columns assumed for a
    /// conventional table and have no authority.
    Assumed,
    /// Nothing was discovered and nothing is assumed: there are none.
    Nothing,
}

/// Where a column probe stands.
#[derive(Debug, Clone, Copy, PartialEq, Eq, Structural)]
pub enum ColumnStage {
    CatalogQuery,
    TableInfo,
    ZeroRowSelect,
    Done,
}

/// What the caller of a column probe is to do next.
#[derive(Debug)]
pub enum ColumnStep {
    /// Run the statement, turn its rows into columns as the strategy has
    /// it, and hand them back, or say that the statement failed.
    Run { sql: String, strategy: ColumnStage },
    /// Nothing: the probe is over and its columns can be taken.
    Finished,
}

/// The mathematical value of a [`ColumnStep`].
pub enum ColumnStepView {
    Run { sql: Seq<char>, strategy: ColumnStage },
    Finished,
}

impl View for ColumnStep {
    type V = ColumnStepView;

    open spec fn view(&self) -> ColumnStepView {
        match self {
            ColumnStep::Run { sql, strategy } => ColumnStepView::Run {
                sql: sql@,
                strategy: *strategy,
            },
            ColumnStep::Finished => ColumnStepView::Finished,
        }
    }
}

/// The state of a column probe, as a mathematical value.
pub struct ColumnProbeView {
    pub table: Seq<char>,
    pub stage: ColumnStage,
    pub columns: Seq<ColumnView>,
    pub source: ColumnSource,
}

/// The step that a probe in the given state asks for.
pub open spec fn column_step(p: ColumnProbeView) -> ColumnStepView {
    match p.stage {
        ColumnStage::CatalogQuery => ColumnStepView::Run {
            sql: catalog_columns_statement(p.table),
            strategy: ColumnStage::CatalogQuery,
        },
        ColumnStage::TableInfo => ColumnStepView::Run {
            sql: table_info_statement(p.table),
            strategy: ColumnStage::TableInfo,
        },
        ColumnStage::ZeroRowSelect => ColumnStepView::Run {
            sql: zero_row_select(p.table),
            strategy: ColumnStage::ZeroRowSelect,
        },
        ColumnStage::Done => ColumnStepView::Finished,
    }
}

/// The source that stands for a strategy.
pub open spec fn source_of(stage: ColumnStage) -> ColumnSource {
    match stage {
        ColumnStage::CatalogQuery => ColumnSource::CatalogQuery,
        ColumnStage::TableInfo => ColumnSource::TableInfo,
        ColumnStage::ZeroRowSelect => ColumnSource::ZeroRowSelect,
        ColumnStage::Done => ColumnSource::Nothing,
    }
}

/// The end of a probe that discovered no column: the assumed columns where
/// there are any, marked as assumed, and no columns otherwise.
pub open spec fn settled_without_columns(table: Seq<char>) -> ColumnProbeView {
    if assumed_columns(table).len() > 0 {
        ColumnProbeView {
            table,
            stage: ColumnStage::Done,
            columns: assumed_columns(table),
            source: ColumnSource::Assumed,
        }
    } else {
        ColumnProbeView {
            table,
            stage: ColumnStage::Done,
            columns: Seq::empty(),
            source: ColumnSource::Nothing,
        }
    }
}

/// The columns that a strategy gave: none where its statement failed.
pub open spec fn listed_columns(outcome: Option<Seq<ColumnView>>) -> Seq<ColumnView> {
    match outcome {
        Some(columns) => columns,
        None => Seq::empty(),
    }
}

/// The state after a strategy gave `outcome`: its columns, or none where
/// its statement failed.
///
/// A strategy that gave columns ends the probe with them. One that failed,
/// or ran and gave none, hands over to the next, and the last one to give
/// none ends the probe. A probe that ends without columns takes the assumed
/// ones. A probe that is over stays as it is.
pub open spec fn column_probe_next(p: ColumnProbeView, outcome: Option<Seq<ColumnView>>) -> ColumnProbeView {
    match p.stage {
        ColumnStage::Done => p,
        _ => if listed_columns(outcome).len() > 0 {
            ColumnProbeView {
                table: p.table,
                stage: ColumnStage::Done,
                columns: listed_columns(outcome),
                source: source_of(p.stage),
            }
        } else {
            match p.stage {
                ColumnStage::CatalogQuery => ColumnProbeView { stage: ColumnStage::TableInfo, ..p },
                ColumnStage::TableInfo => ColumnProbeView {
                    stage: ColumnStage::ZeroRowSelect,
                    ..p
                },
                _ => settled_without_columns(p.table),
            }
        },
    }
}

/// The view of an optional list of columns.
pub open spec fn outcome_view(outcome: Option<Vec<ColumnDescriptor>>) -> Option<Seq<ColumnView>> {
    match outcome {
        Some(c) => Some(columns_view(c@)),
        None => None,
    }
}

/// A probe for the columns of one table.
#[derive(Debug)]
pub struct ColumnProbe {
    table: String,
    stage: ColumnStage,
    columns: Vec<ColumnDescriptor>,
    source: ColumnSource,
}

impl View for ColumnProbe {
    type V = ColumnProbeView;

    closed spec fn view(&self) -> ColumnProbeView {
        ColumnProbeView {
            table: self.table@,
            stage: self.stage,
            columns: columns_view(self.columns@),
            source: self.source,
        }
    }
}

impl ColumnProbe {
    /// A probe for the columns of `table` that has tried nothing yet.
    pub fn new(table: &str) -> (r: Self)
        ensures
            r@ == (ColumnProbeView {
                table: table@,
                stage: ColumnStage::CatalogQuery,
                columns: Seq::empty(),
                source: ColumnSource::Nothing,
            }),
    {
        let r = ColumnProbe {
            table: copy_str(table),
            stage: ColumnStage::CatalogQuery,
            columns: Vec::new(),
            source: ColumnSource::Nothing,
        };
        assert(columns_view(r.columns@) =~= Seq::<ColumnView>::empty());
        r
    }

    /// Whether the probe is over.
    pub fn is_done(&self) -> (r: bool)
        ensures
            r == (self@.stage == ColumnStage::Done),
    {
        matches!(self.stage, ColumnStage::Done)
    }

    /// What the caller is to do next.
    pub fn step(&self) -> (r: ColumnStep)
        ensures
            r@ == column_step(self@),
    {
        match self.stage {
            ColumnStage::CatalogQuery => {
                let mut sql = copy_str(
                    "SELECT column_name, data_type, is_nullable FROM information_schema.columns WHERE table_name = '",
                );
                sql.append(self.table.as_str());
                sql.append("' ORDER BY ordinal_position");
                ColumnStep::Run { sql, strategy: ColumnStage::CatalogQuery }
            },
            ColumnStage::TableInfo => {
                let mut sql = copy_str("PRAGMA table_info(\"");
                sql.append(self.table.as_str());
                sql.append("\")");
                ColumnStep::Run { sql, strategy: ColumnStage::TableInfo }
            },
            ColumnStage::ZeroRowSelect => ColumnStep::Run {
                sql: build_zero_row_select(self.table.as_str()),
                strategy: ColumnStage::ZeroRowSelect,
            },
            ColumnStage::Done => ColumnStep::Finished,
        }
    }

    /// Takes the outcome of the last step; see [`column_probe_next`].
    pub fn advance(&mut self, outcome: Option<Vec<ColumnDescriptor>>)
        ensures
            final(self)@ == column_probe_next(old(self)@, outcome_view(outcome)),
    {
        if matches!(self.stage, ColumnStage::Done) {
            return ;
        }
        let listed: Vec<ColumnDescriptor> = match outcome {
            Some(columns) => columns,
            None => Vec::new(),
        };
        assert(columns_view(listed@) =~= listed_columns(outcome_view(outcome)));
        if listed.len() > 0 {
            self.source = match self.stage {
                ColumnStage::CatalogQuery => ColumnSource::CatalogQuery,
                ColumnStage::TableInfo => ColumnSource::TableInfo,
                _ => ColumnSource::ZeroRowSelect,
            };
            self.columns = listed;
            self.stage = ColumnStage::Done;
        } else {
            match self.stage {
                ColumnStage::CatalogQuery => {
                    self.stage = ColumnStage::TableInfo;
                },
                ColumnStage::TableInfo => {
                    self.stage = ColumnStage::ZeroRowSelect;
                },
                _ => {
                    self.settle_without_columns();
                },
            }
        }
    }

    /// Ends the probe without discovered columns.
    fn settle_without_columns(&mut self)
        ensures
            final(self)@ == settled_without_columns(old(self)@.table),
    {
        let assumed = build_assumed_columns(self.table.as_str());
        if assumed.len() > 0 {
            self.columns = assumed;
            self.source = ColumnSource::Assumed;
        } else {
            self.columns = assumed;
            self.source = ColumnSource::Nothing;
        }
        self.stage = ColumnStage::Done;
        assert(self@ =~= settled_without_columns(old(self)@.table));
    }

    /// The columns found; once the probe is over, the columns of the table.
    pub fn columns(&self) -> (r: &Vec<ColumnDescriptor>)
        ensures
            columns_view(r@) == self@.columns,
    {
        &self.columns
    }

    /// Where the columns come from.
    pub fn source(&self) -> (r: ColumnSource)
        ensures
            r == self@.source,
    {
        self.source
    }

    /// The table as the catalog holds it: its name, the columns found, and
    /// the mark that says whether these are assumed.
    pub fn table_entry(&self) -> (r: TableEntry)
        ensures
            r@ == (TableView {
                name: self@.table,
                columns: self@.columns,
                assumed: self@.source == ColumnSource::Assumed,
            }),
    {
        TableEntry {
            name: self.table.clone(),
            columns: duplicate_columns(&self.columns),
            assumed: matches!(self.source, ColumnSource::Assumed),
        }
    }
}

/// Columns are never assumed in silence: a probe that is over holds assumed
/// columns only under the source `Assumed`, and holds no columns under the
/// source `Nothing`.
pub proof fn lemma_assumed_columns_are_marked(p: ColumnProbeView, outcome: Option<Seq<ColumnView>>)
    requires
        p.stage != ColumnStage::Done,
        column_probe_next(p, outcome).stage == ColumnStage::Done,
    ensures
        ({
            let q = column_probe_next(p, outcome);
            &&& q.source == ColumnSource::Assumed ==> q.columns == assumed_columns(p.table)
            &&& q.source == ColumnSource::Nothing ==> q.columns.len() == 0
            &&& q.source != ColumnSource::Assumed && q.source != ColumnSource::Nothing ==> outcome
                == Some(q.columns) && q.source == source_of(p.stage)
        }),
{
}

} // verus!
