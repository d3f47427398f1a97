//! The schema catalog: for each subject the tables that were discovered in
//! its database, and for each table its columns in ordinal order.
//!
//! A snapshot is built whole and then installed in one step; nothing in an
//! installed snapshot is changed in place.

use vstd::prelude::*;
use vstd::string::StringExecFns;
use crate::lexer::free_of;
use crate::resolve::{Names, Scope};
use crate::text::{
    chars_of, ci_eq, copy_str, is_alphanumeric_char, same_str, same_str_ignoring_case,
    test_alphanumeric, texts,
};

verus! {

/// One column of a table. `declared_type` is the type as the engine reports
/// it; `"UNKNOWN"` stands for a type that no probe could determine.
#[derive(Debug)]
pub struct ColumnDescriptor {
    pub name: String,
    pub declared_type: String,
    pub nullable: bool,
}

/// The mathematical value of a [`ColumnDescriptor`].
pub struct ColumnView {
    pub name: Seq<char>,
    pub declared_type: Seq<char>,
    pub nullable: bool,
}

/// One table with its columns in ordinal order. `assumed` marks columns
/// that were not discovered but taken for granted of a conventional table;
/// they have no authority and are shown as assumed wherever they are shown.
#[derive(Debug)]
pub struct TableEntry {
    pub name: String,
    pub columns: Vec<ColumnDescriptor>,
    pub assumed: bool,
}

/// The mathematical value of a [`TableEntry`].
pub struct TableView {
    pub name: Seq<char>,
    pub columns: Seq<ColumnView>,
    pub assumed: bool,
}

/// The tables of one subject, in the order of their discovery.
#[derive(Debug)]
pub struct SubjectSchema {
    pub name: String,
    pub tables: Vec<TableEntry>,
}

/// The mathematical value of a [`SubjectSchema`].
pub struct SubjectView {
    pub name: Seq<char>,
    pub tables: Seq<TableView>,
}

/// The mathematical value of a [`SchemaSnapshot`].
pub struct SnapshotView {
    pub subjects: Seq<SubjectView>,
    pub last_refreshed: int,
}

/// Why a subject was not taken into a snapshot.
#[derive(Debug, Clone, Copy, PartialEq, Eq, Structural)]
pub enum CatalogError {
    /// The name holds a character that is neither alphanumeric nor an
    /// underscore, or a double quote.
    InvalidSubjectName,
    /// The snapshot holds a subject of that name already.
    DuplicateSubject,
    /// Two of the subject's tables have the same name.
    DuplicateTable,
}

impl View for ColumnDescriptor {
    type V = ColumnView;

    open spec fn view(&self) -> ColumnView {
        ColumnView { name: self.name@, declared_type: self.declared_type@, nullable: self.nullable }
    }
}

/// The values of the columns in `columns`.
pub open spec fn columns_view(columns: Seq<ColumnDescriptor>) -> Seq<ColumnView> {
    Seq::new(columns.len(), |i: int| columns[i]@)
}

impl View for TableEntry {
    type V = TableView;

    open spec fn view(&self) -> TableView {
        TableView {
            name: self.name@,
            columns: columns_view(self.columns@),
            assumed: self.assumed,
        }
    }
}

/// The values of the tables in `tables`.
pub open spec fn tables_view(tables: Seq<TableEntry>) -> Seq<TableView> {
    Seq::new(tables.len(), |i: int| tables[i]@)
}

impl View for SubjectSchema {
    type V = SubjectView;

    open spec fn view(&self) -> SubjectView {
        SubjectView { name: self.name@, tables: tables_view(self.tables@) }
    }
}

/// The values of the subjects in `subjects`.
pub open spec fn subjects_view(subjects: Seq<SubjectSchema>) -> Seq<SubjectView> {
    Seq::new(subjects.len(), |i: int| subjects[i]@)
}

/// The character may stand in a subject name: it is alphanumeric or an
/// underscore.
pub open spec fn is_subject_char(c: char) -> bool {
    is_alphanumeric_char(c) || c == '_'
}

/// A valid subject name: every character of it is alphanumeric or an
/// underscore.
pub open spec fn is_subject_name(name: Seq<char>) -> bool {
    forall|i: int| 0 <= i < name.len() ==> is_subject_char(#[trigger] name[i])
}

/// A subject name that a snapshot takes: a valid one that holds no double
/// quote, so that it can stand between double quotes.
pub open spec fn is_storable_name(name: Seq<char>) -> bool {
    is_subject_name(name) && free_of(name, '"')
}

/// The tables of `tables` without those whose name an earlier one has: of
/// tables of one name the first stays.
pub open spec fn first_of_each(tables: Seq<TableView>) -> Seq<TableView>
    decreases tables.len(),
{
    if tables.len() == 0 {
        Seq::empty()
    } else if table_names(first_of_each(tables.drop_last())).contains(tables.last().name) {
        first_of_each(tables.drop_last())
    } else {
        first_of_each(tables.drop_last()).push(tables.last())
    }
}

/// The names of `tables`, in order.
pub open spec fn table_names(tables: Seq<TableView>) -> Seq<Seq<char>> {
    Seq::new(tables.len(), |i: int| tables[i].name)
}

/// The names of `columns`, in order.
pub open spec fn column_names(columns: Seq<ColumnView>) -> Seq<Seq<char>> {
    Seq::new(columns.len(), |i: int| columns[i].name)
}

/// The names of the columns of all of `tables`: table by table, and within
/// a table in ordinal order.
pub open spec fn all_column_names(tables: Seq<TableView>) -> Seq<Seq<char>>
    decreases tables.len(),
{
    if tables.len() == 0 {
        Seq::empty()
    } else {
        all_column_names(tables.drop_last()) + column_names(tables.last().columns)
    }
}

/// No two of `names` are equal.
pub open spec fn distinct(names: Seq<Seq<char>>) -> bool {
    forall|i: int, j: int| 0 <= i < j < names.len() ==> names[i] != names[j]
}

/// The index of the first of `tables` at or after `i` whose name is `name`;
/// the number of tables when there is none.
pub open spec fn table_index_from(tables: Seq<TableView>, name: Seq<char>, i: int) -> int
    decreases tables.len() - i,
{
    if i < 0 || i >= tables.len() {
        tables.len() as int
    } else if tables[i].name == name {
        i
    } else {
        table_index_from(tables, name, i + 1)
    }
}

/// The index of the first of `subjects` at or after `i` whose name is
/// `name`; the number of subjects when there is none.
pub open spec fn subject_index_from(subjects: Seq<SubjectView>, name: Seq<char>, i: int) -> int
    decreases subjects.len() - i,
{
    if i < 0 || i >= subjects.len() {
        subjects.len() as int
    } else if subjects[i].name == name {
        i
    } else {
        subject_index_from(subjects, name, i + 1)
    }
}

impl SubjectView {
    /// The names against which a statement for this subject is rewritten.
    pub open spec fn scope(self) -> Scope {
        Scope {
            subject: self.name,
            tables: table_names(self.tables),
            columns: all_column_names(self.tables),
        }
    }

    /// A table of that name, in any letter case, is among the tables.
    pub open spec fn has_table(self, table: Seq<char>) -> bool {
        exists|i: int| 0 <= i < self.tables.len() && ci_eq(#[trigger] self.tables[i].name, table)
    }

    /// The index of the table of exactly that name; the number of tables
    /// when there is none.
    pub open spec fn table_index(self, table: Seq<char>) -> int {
        table_index_from(self.tables, table, 0)
    }
}

impl SnapshotView {
    /// Subject names are valid, hold no double quote and occur once;
    /// within a subject, table names occur once.
    pub open spec fn wf(self) -> bool {
        &&& forall|i: int|
            0 <= i < self.subjects.len() ==> is_storable_name(#[trigger] self.subjects[i].name)
        &&& forall|i: int, j: int|
            0 <= i < j < self.subjects.len() ==> self.subjects[i].name != self.subjects[j].name
        &&& forall|i: int|
            0 <= i < self.subjects.len() ==> distinct(
                table_names(#[trigger] self.subjects[i].tables),
            )
    }

    /// The index of the subject of that name; the number of subjects when
    /// the snapshot holds no such subject.
    pub open spec fn subject_index(self, subject: Seq<char>) -> int {
        subject_index_from(self.subjects, subject, 0)
    }

    /// The snapshot holds a subject of that name.
    pub open spec fn has_subject(self, subject: Seq<char>) -> bool {
        self.subject_index(subject) < self.subjects.len()
    }

    /// The names of the subject's tables, in order; none for an unknown
    /// subject.
    pub open spec fn tables_of(self, subject: Seq<char>) -> Seq<Seq<char>> {
        if self.has_subject(subject) {
            table_names(self.subjects[self.subject_index(subject)].tables)
        } else {
            Seq::empty()
        }
    }

    /// The columns of the table of exactly that name in the subject.
    pub open spec fn columns_of(self, subject: Seq<char>, table: Seq<char>) -> Option<
        Seq<ColumnView>,
    > {
        if self.has_subject(subject) {
            let s = self.subjects[self.subject_index(subject)];
            if s.table_index(table) < s.tables.len() {
                Some(s.tables[s.table_index(table)].columns)
            } else {
                None
            }
        } else {
            None
        }
    }

    /// The subject is known and has a table of that name, in any letter
    /// case.
    pub open spec fn has_table(self, subject: Seq<char>, table: Seq<char>) -> bool {
        self.has_subject(subject) && self.subjects[self.subject_index(subject)].has_table(table)
    }
}

/// What [`subject_index_from`] returns: the first subject of that name at or
/// after `i`.
pub proof fn lemma_subject_index_from(subjects: Seq<SubjectView>, name: Seq<char>, i: int)
    requires
        0 <= i <= subjects.len(),
    ensures
        i <= subject_index_from(subjects, name, i) <= subjects.len(),
        subject_index_from(subjects, name, i) < subjects.len() ==> subjects[subject_index_from(
            subjects,
            name,
            i,
        )].name == name,
        forall|j: int|
            i <= j < subject_index_from(subjects, name, i) ==> (#[trigger] subjects[j]).name
                != name,
    decreases subjects.len() - i,
{
    if i < subjects.len() && subjects[i].name != name {
        lemma_subject_index_from(subjects, name, i + 1);
    }
}

/// The line that describes one column.
pub open spec fn column_line(c: ColumnView) -> Seq<char> {
    "- "@ + c.name + " ("@ + c.declared_type + ")"@ + (if c.nullable {
        Seq::<char>::empty()
    } else {
        " NOT NULL"@
    }) + "\n"@
}

/// The lines that describe `columns`, in order.
pub open spec fn column_lines(columns: Seq<ColumnView>) -> Seq<char>
    decreases columns.len(),
{
    if columns.len() == 0 {
        Seq::empty()
    } else {
        column_lines(columns.drop_last()) + column_line(columns.last())
    }
}

/// The section that describes one table: its name, then its columns, or a
/// note that none are known. Assumed columns stand under a heading that says
/// so.
pub open spec fn table_section(t: TableView) -> Seq<char> {
    "### Table: "@ + t.name + "\n\n"@ + (if t.columns.len() == 0 {
        "No column information available.\n\n"@
    } else {
        (if t.assumed {
            "#### Columns (assumed, not discovered):\n"@
        } else {
            "#### Columns:\n"@
        }) + column_lines(t.columns) + "\n"@
    })
}

/// The sections that describe `tables`, in order.
pub open spec fn table_sections(tables: Seq<TableView>) -> Seq<char>
    decreases tables.len(),
{
    if tables.len() == 0 {
        Seq::empty()
    } else {
        table_sections(tables.drop_last()) + table_section(tables.last())
    }
}

/// The schema description of one subject.
pub open spec fn subject_document(s: SubjectView) -> Seq<char> {
    "## Database: "@ + s.name + "\n\n"@ + (if s.tables.len() == 0 {
        "No tables found in this database.\n\n"@
    } else {
        table_sections(s.tables)
    })
}

/// The schema description that a snapshot gives of a subject; for a subject
/// that it does not hold, one line that says so.
pub open spec fn context_document(snapshot: SnapshotView, subject: Seq<char>) -> Seq<char> {
    if snapshot.has_subject(subject) {
        subject_document(snapshot.subjects[snapshot.subject_index(subject)])
    } else {
        "No databases found. Please upload data files first.\n"@
    }
}

impl ColumnDescriptor {
    /// A column of the given name, type and nullability.
    pub fn new(name: &str, declared_type: &str, nullable: bool) -> (r: Self)
        ensures
            r@ == (ColumnView { name: name@, declared_type: declared_type@, nullable }),
    {
        ColumnDescriptor { name: copy_str(name), declared_type: copy_str(declared_type), nullable }
    }

    /// A copy of this column.
    pub fn duplicate(&self) -> (r: Self)
        ensures
            r@ == self@,
    {
        ColumnDescriptor {
            name: self.name.clone(),
            declared_type: self.declared_type.clone(),
            nullable: self.nullable,
        }
    }

    /// Appends the line that describes this column.
    fn render(&self, doc: &mut String)
        ensures
            final(doc)@ == old(doc)@ + column_line(self@),
    {
        doc.append("- ");
        doc.append(self.name.as_str());
        doc.append(" (");
        doc.append(self.declared_type.as_str());
        doc.append(")");
        if !self.nullable {
            doc.append(" NOT NULL");
        }
        doc.append("\n");
        assert(doc@ =~= old(doc)@ + column_line(self@));
    }
}

/// Copies of `columns`, in order.
pub fn duplicate_columns(columns: &Vec<ColumnDescriptor>) -> (r: Vec<ColumnDescriptor>)
    ensures
        columns_view(r@) == columns_view(columns@),
{
    let mut r: Vec<ColumnDescriptor> = Vec::new();
    let mut i: usize = 0;
    while i < columns.len()
        invariant
            i <= columns.len(),
            r@.len() == i,
            forall|k: int| 0 <= k < i ==> r@[k]@ == columns@[k]@,
        decreases columns.len() - i,
    {
        r.push(columns[i].duplicate());
        i += 1;
    }
    assert(columns_view(r@) =~= columns_view(columns@));
    r
}

impl TableEntry {
    /// A table of the given name with the columns discovered of it.
    pub fn new(name: &str, columns: Vec<ColumnDescriptor>) -> (r: Self)
        ensures
            r@ == (TableView { name: name@, columns: columns_view(columns@), assumed: false }),
    {
        TableEntry { name: copy_str(name), columns, assumed: false }
    }

    /// A table of the given name with columns that are assumed of it.
    pub fn with_assumed_columns(name: &str, columns: Vec<ColumnDescriptor>) -> (r: Self)
        ensures
            r@ == (TableView { name: name@, columns: columns_view(columns@), assumed: true }),
    {
        TableEntry { name: copy_str(name), columns, assumed: true }
    }

    /// A copy of this table.
    pub fn duplicate(&self) -> (r: Self)
        ensures
            r@ == self@,
    {
        TableEntry {
            name: self.name.clone(),
            columns: duplicate_columns(&self.columns),
            assumed: self.assumed,
        }
    }

    /// Appends the section that describes this table.
    fn render(&self, doc: &mut String)
        ensures
            final(doc)@ == old(doc)@ + table_section(self@),
    {
        doc.append("### Table: ");
        doc.append(self.name.as_str());
        doc.append("\n\n");
        if self.columns.len() == 0 {
            doc.append("No column information available.\n\n");
            assert(doc@ =~= old(doc)@ + table_section(self@));
        } else {
            if self.assumed {
                doc.append("#### Columns (assumed, not discovered):\n");
            } else {
                doc.append("#### Columns:\n");
            }
            let ghost base = doc@;
            let ghost cols = columns_view(self.columns@);
            let mut i: usize = 0;
            while i < self.columns.len()
                invariant
                    i <= self.columns.len(),
                    cols == columns_view(self.columns@),
                    doc@ == base + column_lines(cols.take(i as int)),
                decreases self.columns.len() - i,
            {
                self.columns[i].render(doc);
                proof {
                    assert(cols.take(i + 1).drop_last() =~= cols.take(i as int));
                    assert(cols.take(i + 1).last() == self.columns@[i as int]@);
                    assert(doc@ =~= base + column_lines(cols.take(i + 1)));
                }
                i += 1;
            }
            assert(cols.take(self.columns.len() as int) =~= cols);
            doc.append("\n");
            assert(doc@ =~= old(doc)@ + table_section(self@));
        }
    }
}

/// Copies of `tables`, in order.
pub fn duplicate_tables(tables: &Vec<TableEntry>) -> (r: Vec<TableEntry>)
    ensures
        tables_view(r@) == tables_view(tables@),
{
    let mut r: Vec<TableEntry> = Vec::new();
    let mut i: usize = 0;
    while i < tables.len()
        invariant
            i <= tables.len(),
            r@.len() == i,
            forall|k: int| 0 <= k < i ==> r@[k]@ == tables@[k]@,
        decreases tables.len() - i,
    {
        r.push(tables[i].duplicate());
        i += 1;
    }
    assert(tables_view(r@) =~= tables_view(tables@));
    r
}

impl SubjectSchema {
    /// Appends the schema description of this subject.
    fn render(&self, doc: &mut String)
        ensures
            final(doc)@ == old(doc)@ + subject_document(self@),
    {
        doc.append("## Database: ");
        doc.append(self.name.as_str());
        doc.append("\n\n");
        if self.tables.len() == 0 {
            doc.append("No tables found in this database.\n\n");
            assert(doc@ =~= old(doc)@ + subject_document(self@));
        } else {
            let ghost base = doc@;
            let ghost tabs = tables_view(self.tables@);
            let mut i: usize = 0;
            while i < self.tables.len()
                invariant
                    i <= self.tables.len(),
                    tabs == tables_view(self.tables@),
                    doc@ == base + table_sections(tabs.take(i as int)),
                decreases self.tables.len() - i,
            {
                self.tables[i].render(doc);
                proof {
                    assert(tabs.take(i + 1).drop_last() =~= tabs.take(i as int));
                    assert(tabs.take(i + 1).last() == self.tables@[i as int]@);
                    assert(doc@ =~= base + table_sections(tabs.take(i + 1)));
                }
                i += 1;
            }
            assert(tabs.take(self.tables.len() as int) =~= tabs);
            assert(doc@ =~= old(doc)@ + subject_document(self@));
        }
    }

    /// The names against which a statement for this subject is rewritten.
    pub fn names(&self) -> (r: Names)
        ensures
            r@ == self@.scope(),
    {
        let ghost tabs = tables_view(self.tables@);
        let mut tables: Vec<Vec<char>> = Vec::new();
        let mut columns: Vec<Vec<char>> = Vec::new();
        let mut i: usize = 0;
        while i < self.tables.len()
            invariant
                i <= self.tables.len(),
                tabs == tables_view(self.tables@),
                tables@.len() == i,
                forall|k: int| 0 <= k < i ==> tables@[k]@ == tabs[k].name,
                crate::resolve::names_view(&columns) == all_column_names(tabs.take(i as int)),
            decreases self.tables.len() - i,
        {
            let t = &self.tables[i];
            tables.push(chars_of(t.name.as_str()));
            let ghost before = crate::resolve::names_view(&columns);
            let ghost cols = columns_view(t.columns@);
            let mut j: usize = 0;
            while j < t.columns.len()
                invariant
                    j <= t.columns.len(),
                    cols == columns_view(t.columns@),
                    crate::resolve::names_view(&columns) == before + column_names(cols.take(j as int)),
                decreases t.columns.len() - j,
            {
                let ghost prev = crate::resolve::names_view(&columns);
                columns.push(chars_of(t.columns[j].name.as_str()));
                proof {
                    assert(crate::resolve::names_view(&columns) =~= prev.push(cols[j as int].name));
                    assert(column_names(cols.take(j + 1)) =~= column_names(cols.take(j as int)).push(
                        cols[j as int].name,
                    ));
                    assert(crate::resolve::names_view(&columns) =~= before + column_names(
                        cols.take(j + 1),
                    ));
                }
                j += 1;
            }
            proof {
                assert(cols.take(t.columns.len() as int) =~= cols);
                assert(tabs.take(i + 1).drop_last() =~= tabs.take(i as int));
                assert(tabs.take(i + 1).last() == tabs[i as int]);
            }
            i += 1;
        }
        let r = Names { subject: chars_of(self.name.as_str()), tables, columns };
        proof {
            assert(tabs.take(self.tables.len() as int) =~= tabs);
            assert(crate::resolve::names_view(&r.tables) =~= table_names(tabs));
        }
        r
    }

    /// Whether the subject has a table of that name, in any letter case.
    pub fn has_table(&self, table: &str) -> (r: bool)
        ensures
            r == self@.has_table(table@),
    {
        let mut i: usize = 0;
        while i < self.tables.len()
            invariant
                i <= self.tables.len(),
                forall|k: int| 0 <= k < i ==> !ci_eq(#[trigger] self@.tables[k].name, table@),
            decreases self.tables.len() - i,
        {
            if same_str_ignoring_case(self.tables[i].name.as_str(), table) {
                assert(ci_eq(self@.tables[i as int].name, table@));
                return true;
            }
            i += 1;
        }
        false
    }

    /// The position of the table of exactly that name; the number of tables
    /// when there is none.
    pub fn find_table(&self, table: &str) -> (k: usize)
        ensures
            k == self@.table_index(table@),
            k <= self.tables@.len(),
    {
        let mut i: usize = 0;
        while i < self.tables.len()
            invariant
                i <= self.tables.len(),
                self@.table_index(table@) == table_index_from(self@.tables, table@, i as int),
            decreases self.tables.len() - i,
        {
            if same_str(self.tables[i].name.as_str(), table) {
                return i;
            }
            i += 1;
        }
        i
    }
}

/// Whether a character may stand in a subject name, given whether it is
/// alphanumeric.
pub fn test_subject_char(c: char, alphanumeric: bool) -> (r: bool)
    ensures
        r == (alphanumeric || c == '_'),
{
    alphanumeric || c == '_'
}

/// Whether `name` is a valid subject name.
pub fn test_subject_name(name: &str) -> (r: bool)
    ensures
        r == is_subject_name(name@),
{
    let v = chars_of(name);
    let mut i: usize = 0;
    while i < v.len()
        invariant
            i <= v.len(),
            v@ == name@,
            forall|k: int| 0 <= k < i ==> is_subject_char(#[trigger] v@[k]),
        decreases v.len() - i,
    {
        if !test_subject_char(v[i], test_alphanumeric(v[i])) {
            return false;
        }
        i += 1;
    }
    true
}

/// Whether `name` is a subject name that a snapshot takes.
pub fn test_storable_name(name: &str) -> (r: bool)
    ensures
        r == is_storable_name(name@),
{
    if !test_subject_name(name) {
        return false;
    }
    let v = chars_of(name);
    let mut i: usize = 0;
    while i < v.len()
        invariant
            i <= v.len(),
            v@ == name@,
            forall|k: int| 0 <= k < i ==> #[trigger] v@[k] != '"',
        decreases v.len() - i,
    {
        if v[i] == '"' {
            return false;
        }
        i += 1;
    }
    true
}

/// Whether one of `tables` has the name `name`.
pub fn holds_table_named(tables: &Vec<TableEntry>, name: &str) -> (r: bool)
    ensures
        r == table_names(tables_view(tables@)).contains(name@),
{
    let ghost names = table_names(tables_view(tables@));
    let mut i: usize = 0;
    while i < tables.len()
        invariant
            i <= tables.len(),
            names == table_names(tables_view(tables@)),
            forall|k: int| 0 <= k < i ==> names[k] != name@,
        decreases tables.len() - i,
    {
        if same_str(tables[i].name.as_str(), name) {
            assert(names[i as int] == name@);
            return true;
        }
        i += 1;
    }
    false
}

/// Computes [`first_of_each`].
pub fn keep_first_tables(tables: &Vec<TableEntry>) -> (r: Vec<TableEntry>)
    ensures
        tables_view(r@) == first_of_each(tables_view(tables@)),
{
    let ghost all = tables_view(tables@);
    let mut r: Vec<TableEntry> = Vec::new();
    let mut i: usize = 0;
    assert(tables_view(r@) =~= first_of_each(all.take(0)));
    while i < tables.len()
        invariant
            i <= tables.len(),
            all == tables_view(tables@),
            tables_view(r@) == first_of_each(all.take(i as int)),
        decreases tables.len() - i,
    {
        let ghost before = tables_view(r@);
        proof {
            assert(all.take(i + 1).drop_last() =~= all.take(i as int));
            assert(all.take(i + 1).last() == tables@[i as int]@);
        }
        if !holds_table_named(&r, tables[i].name.as_str()) {
            r.push(tables[i].duplicate());
            assert(tables_view(r@) =~= before.push(tables@[i as int]@));
        }
        i += 1;
    }
    assert(all.take(tables.len() as int) =~= all);
    r
}

/// Of tables of one name only the first is kept, so no two of the kept
/// tables share a name.
pub proof fn lemma_first_of_each_distinct(tables: Seq<TableView>)
    ensures
        distinct(table_names(first_of_each(tables))),
    decreases tables.len(),
{
    if tables.len() > 0 {
        let d = first_of_each(tables.drop_last());
        lemma_first_of_each_distinct(tables.drop_last());
        if !table_names(d).contains(tables.last().name) {
            let k = d.push(tables.last());
            assert forall|i: int, j: int| 0 <= i < j < table_names(k).len() implies table_names(
                k,
            )[i] != table_names(k)[j] by {
                if j == d.len() {
                    assert(table_names(d)[i] == table_names(k)[i]);
                    assert(table_names(d).contains(table_names(d)[i]));
                } else {
                    assert(table_names(d)[i] == table_names(k)[i]);
                    assert(table_names(d)[j] == table_names(k)[j]);
                }
            }
        }
    }
}

/// Whether no two of `tables` have the same name.
pub fn test_distinct_tables(tables: &Vec<TableEntry>) -> (r: bool)
    ensures
        r == distinct(table_names(tables_view(tables@))),
{
    let ghost names = table_names(tables_view(tables@));
    let mut j: usize = 0;
    while j < tables.len()
        invariant
            j <= tables.len(),
            names == table_names(tables_view(tables@)),
            forall|a: int, b: int| 0 <= a < b < j ==> names[a] != names[b],
        decreases tables.len() - j,
    {
        let mut i: usize = 0;
        while i < j
            invariant
                i <= j,
                j < tables.len(),
                names == table_names(tables_view(tables@)),
                forall|a: int| 0 <= a < i ==> names[a] != names[j as int],
            decreases j - i,
        {
            if same_str(tables[i].name.as_str(), tables[j].name.as_str()) {
                assert(names[i as int] == names[j as int]);
                return false;
            }
            i += 1;
        }
        j += 1;
    }
    true
}

/// The cached schema of every subject as of one refresh.
#[derive(Debug)]
pub struct SchemaSnapshot {
    subjects: Vec<SubjectSchema>,
    last_refreshed: i64,
}

impl View for SchemaSnapshot {
    type V = SnapshotView;

    closed spec fn view(&self) -> SnapshotView {
        SnapshotView {
            subjects: subjects_view(self.subjects@),
            last_refreshed: self.last_refreshed as int,
        }
    }
}

impl SchemaSnapshot {
    /// The snapshot's invariant; see [`SnapshotView::wf`].
    pub open spec fn wf(&self) -> bool {
        self@.wf()
    }

    /// A snapshot without subjects, taken at the given time (seconds since
    /// the epoch).
    pub fn new(last_refreshed: i64) -> (r: Self)
        ensures
            r.wf(),
            r@.subjects.len() == 0,
            r@.last_refreshed == last_refreshed,
    {
        SchemaSnapshot { subjects: Vec::new(), last_refreshed }
    }

    /// The time of the refresh that built this snapshot.
    pub fn last_refreshed(&self) -> (r: i64)
        ensures
            r == self@.last_refreshed,
    {
        self.last_refreshed
    }

    /// The number of subjects.
    pub fn subject_count(&self) -> (r: usize)
        ensures
            r == self@.subjects.len(),
    {
        self.subjects.len()
    }

    /// The position of the subject of that name; the number of subjects
    /// when the snapshot holds none.
    pub fn find_subject(&self, subject: &str) -> (k: usize)
        ensures
            k == self@.subject_index(subject@),
            k <= self@.subjects.len(),
    {
        let mut i: usize = 0;
        while i < self.subjects.len()
            invariant
                i <= self.subjects.len(),
                self@.subject_index(subject@) == subject_index_from(
                    self@.subjects,
                    subject@,
                    i as int,
                ),
            decreases self.subjects.len() - i,
        {
            if same_str(self.subjects[i].name.as_str(), subject) {
                return i;
            }
            i += 1;
        }
        i
    }

    /// The schema of the subject of that name, if the snapshot holds it.
    pub fn subject(&self, subject: &str) -> (r: Option<&SubjectSchema>)
        ensures
            r is Some == self@.has_subject(subject@),
            r matches Some(s) ==> s@ == self@.subjects[self@.subject_index(subject@)],
    {
        let k = self.find_subject(subject);
        if k < self.subjects.len() {
            Some(&self.subjects[k])
        } else {
            None
        }
    }

    /// Takes a subject with its tables into the snapshot.
    ///
    /// The name must be valid, hold no double quote and be new to the
    /// snapshot, and no two tables may share a name; otherwise the snapshot
    /// stays as it is and the error says which of these failed first.
    pub fn insert_subject(&mut self, name: &str, tables: Vec<TableEntry>) -> (r: Result<
        (),
        CatalogError,
    >)
        requires
            old(self).wf(),
        ensures
            final(self).wf(),
            final(self)@.last_refreshed == old(self)@.last_refreshed,
            r == (if !is_storable_name(name@) {
                Err::<(), CatalogError>(CatalogError::InvalidSubjectName)
            } else if old(self)@.has_subject(name@) {
                Err(CatalogError::DuplicateSubject)
            } else if !distinct(table_names(tables_view(tables@))) {
                Err(CatalogError::DuplicateTable)
            } else {
                Ok(())
            }),
            r is Err ==> final(self)@ == old(self)@,
            r is Ok ==> final(self)@.subjects == old(self)@.subjects.push(
                SubjectView { name: name@, tables: tables_view(tables@) },
            ),
    {
        if !test_storable_name(name) {
            return Err(CatalogError::InvalidSubjectName);
        }
        let k = self.find_subject(name);
        if k < self.subjects.len() {
            return Err(CatalogError::DuplicateSubject);
        }
        if !test_distinct_tables(&tables) {
            return Err(CatalogError::DuplicateTable);
        }
        proof {
            lemma_subject_index_from(self@.subjects, name@, 0);
        }
        let entry = SubjectSchema { name: copy_str(name), tables };
        self.subjects.push(entry);
        proof {
            assert(self@.subjects =~= old(self)@.subjects.push(
                SubjectView { name: name@, tables: tables_view(tables@) },
            ));
        }
        Ok(())
    }

    /// The names of the subject's tables, in order; none for a subject that
    /// the snapshot does not hold.
    pub fn tables_of(&self, subject: &str) -> (r: Vec<String>)
        ensures
            r@.len() == self@.tables_of(subject@).len(),
            forall|i: int| 0 <= i < r@.len() ==> r@[i]@ == self@.tables_of(subject@)[i],
    {
        let mut r: Vec<String> = Vec::new();
        match self.subject(subject) {
            None => {},
            Some(s) => {
                let mut i: usize = 0;
                while i < s.tables.len()
                    invariant
                        i <= s.tables.len(),
                        r@.len() == i,
                        forall|k: int| 0 <= k < i ==> r@[k]@ == s@.tables[k].name,
                    decreases s.tables.len() - i,
                {
                    r.push(s.tables[i].name.clone());
                    i += 1;
                }
            },
        }
        r
    }

    /// The columns of the table of exactly that name in the subject; `None`
    /// where the snapshot holds no such subject or the subject no such table.
    pub fn columns_of(&self, subject: &str, table: &str) -> (r: Option<Vec<ColumnDescriptor>>)
        ensures
            r is Some == self@.columns_of(subject@, table@) is Some,
            r matches Some(c) ==> columns_view(c@) == self@.columns_of(subject@, table@)->Some_0,
    {
        match self.subject(subject) {
            None => None,
            Some(s) => {
                let k = s.find_table(table);
                if k < s.tables.len() {
                    Some(duplicate_columns(&s.tables[k].columns))
                } else {
                    None
                }
            },
        }
    }

    /// Whether the subject is known and has a table of that name, in any
    /// letter case.
    pub fn has_table(&self, subject: &str, table: &str) -> (r: bool)
        ensures
            r == self@.has_table(subject@, table@),
    {
        match self.subject(subject) {
            None => false,
            Some(s) => s.has_table(table),
        }
    }

    /// The schema description of one subject, for a reader or a language
    /// model: each table with its columns, their types and nullability.
    pub fn to_context_document(&self, subject: &str) -> (r: String)
        ensures
            r@ == context_document(self@, subject@),
    {
        let mut doc = String::new();
        match self.subject(subject) {
            None => {
                doc.append("No databases found. Please upload data files first.\n");
            },
            Some(s) => {
                s.render(&mut doc);
            },
        }
        assert(doc@ =~= context_document(self@, subject@));
        doc
    }
}

/// The definition of one column in a `CREATE TABLE` statement.
pub open spec fn column_definition(c: ColumnView) -> Seq<char> {
    "    \""@ + c.name + "\" "@ + c.declared_type + (if c.nullable {
        Seq::<char>::empty()
    } else {
        " NOT NULL"@
    })
}

/// The definitions of the first `n` of `columns`, each on a line of its own
/// and each but the last of all of `columns` followed by a comma.
pub open spec fn column_definitions(columns: Seq<ColumnView>, n: int) -> Seq<char>
    decreases n,
{
    if n <= 0 || n > columns.len() {
        Seq::empty()
    } else {
        column_definitions(columns, n - 1) + column_definition(columns[n - 1]) + (if n
            < columns.len() {
            ",\n"@
        } else {
            "\n"@
        })
    }
}

/// The statement that would create the table in the schema of its subject.
/// Where the columns are assumed, a comment line before it says so.
pub open spec fn create_table_statement(subject: Seq<char>, t: TableView) -> Seq<char> {
    (if t.assumed {
        "-- columns assumed, not discovered\n"@
    } else {
        Seq::<char>::empty()
    }) + "CREATE TABLE \""@ + subject + "\".\""@ + t.name + "\" (\n"@ + column_definitions(
        t.columns,
        t.columns.len() as int,
    ) + ");"@
}

/// The statements that would create the first `n` tables of a subject, with
/// `pending` telling whether a statement precedes them; statements are
/// separated by an empty line.
pub open spec fn subject_ddl(s: SubjectView, n: int, pending: bool) -> Seq<char>
    decreases n,
{
    if n <= 0 || n > s.tables.len() {
        Seq::empty()
    } else {
        subject_ddl(s, n - 1, pending) + (if pending || n > 1 {
            "\n\n"@
        } else {
            Seq::<char>::empty()
        }) + create_table_statement(s.name, s.tables[n - 1])
    }
}

/// The statements that would create every table of the first `n` subjects.
pub open spec fn snapshot_ddl(subjects: Seq<SubjectView>, n: int) -> Seq<char>
    decreases n,
{
    if n <= 0 || n > subjects.len() {
        Seq::empty()
    } else {
        snapshot_ddl(subjects, n - 1) + subject_ddl(
            subjects[n - 1],
            subjects[n - 1].tables.len() as int,
            snapshot_ddl(subjects, n - 1).len() > 0,
        )
    }
}

impl ColumnDescriptor {
    /// Appends the definition of this column.
    fn render_definition(&self, doc: &mut String)
        ensures
            final(doc)@ == old(doc)@ + column_definition(self@),
    {
        doc.append("    \"");
        doc.append(self.name.as_str());
        doc.append("\" ");
        doc.append(self.declared_type.as_str());
        if !self.nullable {
            doc.append(" NOT NULL");
        }
        assert(doc@ =~= old(doc)@ + column_definition(self@));
    }
}

impl TableEntry {
    /// Appends the statement that would create this table.
    fn render_ddl(&self, subject: &str, doc: &mut String)
        ensures
            final(doc)@ == old(doc)@ + create_table_statement(subject@, self@),
    {
        if self.assumed {
            doc.append("-- columns assumed, not discovered\n");
        }
        doc.append("CREATE TABLE \"");
        doc.append(subject);
        doc.append("\".\"");
        doc.append(self.name.as_str());
        doc.append("\" (\n");
        let ghost base = doc@;
        let ghost cols = columns_view(self.columns@);
        let n: usize = self.columns.len();
        let mut i: usize = 0;
        while i < n
            invariant
                i <= n,
                n == self.columns@.len(),
                cols == columns_view(self.columns@),
                doc@ == base + column_definitions(cols, i as int),
            decreases n - i,
        {
            let ghost before = doc@;
            self.columns[i].render_definition(doc);
            if i + 1 < n {
                doc.append(",\n");
            } else {
                doc.append("\n");
            }
            proof {
                assert(cols[i as int] == self.columns@[i as int]@);
                assert(doc@ =~= base + column_definitions(cols, i + 1));
            }
            i += 1;
        }
        doc.append(");");
        assert(doc@ =~= old(doc)@ + create_table_statement(subject@, self@));
    }
}

impl SchemaSnapshot {
    /// The data definition of everything cached: one `CREATE TABLE`
    /// statement for each table of each subject, in order, with an empty
    /// line between statements.
    pub fn to_ddl(&self) -> (r: String)
        ensures
            r@ == snapshot_ddl(self@.subjects, self@.subjects.len() as int),
    {
        let mut doc = String::new();
        let ghost subs = subjects_view(self.subjects@);
        let mut some: bool = false;
        let mut i: usize = 0;
        while i < self.subjects.len()
            invariant
                i <= self.subjects.len(),
                subs == subjects_view(self.subjects@),
                doc@ == snapshot_ddl(subs, i as int),
                some == (doc@.len() > 0),
            decreases self.subjects.len() - i,
        {
            let s = &self.subjects[i];
            let ghost base = doc@;
            let ghost pending = some;
            let ghost sv = subs[i as int];
            let mut j: usize = 0;
            while j < s.tables.len()
                invariant
                    j <= s.tables.len(),
                    sv == s@,
                    pending == (base.len() > 0),
                    doc@ == base + subject_ddl(sv, j as int, pending),
                    some == (doc@.len() > 0),
                decreases s.tables.len() - j,
            {
                if some {
                    doc.append("\n\n");
                }
                s.tables[j].render_ddl(s.name.as_str(), &mut doc);
                proof {
                    reveal_strlit("\n\n");
                    reveal_strlit("CREATE TABLE \"");
                    assert(sv.tables[j as int] == s.tables@[j as int]@);
                    assert(create_table_statement(sv.name, sv.tables[j as int]).len() > 0);
                    assert(some == (pending || j > 0)) by {
                        if j > 0 {
                            assert(subject_ddl(sv, j as int, pending).len() > 0);
                        }
                    }
                    assert(doc@ =~= base + subject_ddl(sv, j + 1, pending));
                }
                some = true;
                j += 1;
            }
            i += 1;
        }
        doc
    }
}

/// The schema descriptions of the first `n` of `subjects`, one after the
/// other.
pub open spec fn context_documents(
    snapshot: SnapshotView,
    subjects: Seq<Seq<char>>,
    n: int,
) -> Seq<char>
    decreases n,
{
    if n <= 0 || n > subjects.len() {
        Seq::empty()
    } else {
        context_documents(snapshot, subjects, n - 1) + context_document(snapshot, subjects[n - 1])
    }
}

/// What a language model is told of the schema: the description of the
/// selected subject, or, where none is selected, the descriptions of all of
/// `subjects`, and the line that says that there is no database where there
/// is no subject.
pub open spec fn table_metadata(
    snapshot: SnapshotView,
    subjects: Seq<Seq<char>>,
    current: Option<Seq<char>>,
) -> Seq<char> {
    match current {
        Some(c) => context_document(snapshot, c),
        None => if subjects.len() == 0 {
            "No databases found. Please upload data files first.\n"@
        } else {
            context_documents(snapshot, subjects, subjects.len() as int)
        },
    }
}

impl SchemaSnapshot {
    /// What a language model is told of the schema; see
    /// [`table_metadata`].
    pub fn get_table_metadata(&self, subjects: &Vec<String>, current: Option<&str>) -> (r: String)
        ensures
            r@ == table_metadata(
                self@,
                texts(subjects@),
                match current {
                    Some(c) => Some(c@),
                    None => None,
                },
            ),
    {
        match current {
            Some(c) => self.to_context_document(c),
            None => {
                if subjects.len() == 0 {
                    return copy_str("No databases found. Please upload data files first.\n");
                }
                let ghost names = texts(subjects@);
                let mut doc = String::new();
                let mut i: usize = 0;
                while i < subjects.len()
                    invariant
                        i <= subjects.len(),
                        names == texts(subjects@),
                        doc@ == context_documents(self@, names, i as int),
                    decreases subjects.len() - i,
                {
                    let one = self.to_context_document(subjects[i].as_str());
                    doc.append(one.as_str());
                    i += 1;
                }
                doc
            },
        }
    }
}

} // verus!
