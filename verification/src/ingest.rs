//! Loading files into a subject's database: which loader a file goes to,
//! which statements load it, and how the engine's report of the new table is
//! read.

use vstd::prelude::*;
use vstd::string::StringExecFns;
use crate::db::subject_db_path;
use crate::db::subject_dir_path;
use crate::text::{
    chars_of, ci_eq, copy_range, copy_str, decimal, is_word, lower_text, push_decimal, string_of,
    to_lower_text,
};

verus! {

/// Why a file was not loaded.
#[derive(Debug)]
pub enum IngestError {
    /// Reading the file failed; the text is the system's message.
    IoError(String),
    /// The engine refused a statement.
    DatabaseError(String),
    /// The file is of a type for which there is no loader; the text is its
    /// extension.
    UnsupportedFileType(String),
}

/// The mathematical value of an [`IngestError`].
pub enum IngestErrorView {
    IoError(Seq<char>),
    DatabaseError(Seq<char>),
    UnsupportedFileType(Seq<char>),
}

impl View for IngestError {
    type V = IngestErrorView;

    open spec fn view(&self) -> IngestErrorView {
        match self {
            IngestError::IoError(m) => IngestErrorView::IoError(m@),
            IngestError::DatabaseError(m) => IngestErrorView::DatabaseError(m@),
            IngestError::UnsupportedFileType(m) => IngestErrorView::UnsupportedFileType(m@),
        }
    }
}

/// The text that describes an error.
pub open spec fn ingest_error_message(e: IngestErrorView) -> Seq<char> {
    match e {
        IngestErrorView::IoError(m) => "IO error: "@ + m,
        IngestErrorView::DatabaseError(m) => "Database error: "@ + m,
        IngestErrorView::UnsupportedFileType(m) => "Unsupported file type: "@ + m,
    }
}

impl IngestError {
    /// The text that describes this error.
    pub fn message(&self) -> (r: String)
        ensures
            r@ == ingest_error_message(self@),
    {
        let mut r = String::new();
        match self {
            IngestError::IoError(m) => {
                r.append("IO error: ");
                r.append(m.as_str());
            },
            IngestError::DatabaseError(m) => {
                r.append("Database error: ");
                r.append(m.as_str());
            },
            IngestError::UnsupportedFileType(m) => {
                r.append("Unsupported file type: ");
                r.append(m.as_str());
            },
        }
        assert(r@ =~= ingest_error_message(self@));
        r
    }
}

/// The type of a column as far as loading cares.
#[derive(Debug)]
pub enum DataType {
    Integer,
    BigInt,
    Double,
    String,
    Boolean,
    Date,
    Timestamp,
    Unknown(String),
}

/// The mathematical value of a [`DataType`].
pub enum DataTypeView {
    Integer,
    BigInt,
    Double,
    String,
    Boolean,
    Date,
    Timestamp,
    Unknown(Seq<char>),
}

impl View for DataType {
    type V = DataTypeView;

    open spec fn view(&self) -> DataTypeView {
        match self {
            DataType::Integer => DataTypeView::Integer,
            DataType::BigInt => DataTypeView::BigInt,
            DataType::Double => DataTypeView::Double,
            DataType::String => DataTypeView::String,
            DataType::Boolean => DataTypeView::Boolean,
            DataType::Date => DataTypeView::Date,
            DataType::Timestamp => DataTypeView::Timestamp,
            DataType::Unknown(t) => DataTypeView::Unknown(t@),
        }
    }
}

/// The type that the engine's name for it stands for, in any letter case;
/// a name that is not known is kept, in small letters.
pub open spec fn named_data_type(name: Seq<char>) -> DataTypeView {
    if ci_eq(name, "integer"@) {
        DataTypeView::Integer
    } else if ci_eq(name, "bigint"@) {
        DataTypeView::BigInt
    } else if ci_eq(name, "double"@) {
        DataTypeView::Double
    } else if ci_eq(name, "varchar"@) || ci_eq(name, "text"@) {
        DataTypeView::String
    } else if ci_eq(name, "boolean"@) {
        DataTypeView::Boolean
    } else if ci_eq(name, "date"@) {
        DataTypeView::Date
    } else if ci_eq(name, "timestamp"@) {
        DataTypeView::Timestamp
    } else {
        DataTypeView::Unknown(lower_text(name))
    }
}

impl DataType {
    /// Reads the engine's name of a type; see [`named_data_type`].
    pub fn parse(name: &str) -> (r: DataType)
        ensures
            r@ == named_data_type(name@),
    {
        let n = chars_of(name);
        let w = n.as_slice();
        if is_word(w, "integer") {
            DataType::Integer
        } else if is_word(w, "bigint") {
            DataType::BigInt
        } else if is_word(w, "double") {
            DataType::Double
        } else if is_word(w, "varchar") || is_word(w, "text") {
            DataType::String
        } else if is_word(w, "boolean") {
            DataType::Boolean
        } else if is_word(w, "date") {
            DataType::Date
        } else if is_word(w, "timestamp") {
            DataType::Timestamp
        } else {
            let l = to_lower_text(w);
            DataType::Unknown(string_of(l.as_slice()))
        }
    }
}

/// One column of a loaded table.
#[derive(Debug)]
pub struct ColumnSchema {
    pub name: String,
    pub data_type: DataType,
    pub nullable: bool,
}

/// The mathematical value of a [`ColumnSchema`].
pub struct ColumnSchemaView {
    pub name: Seq<char>,
    pub data_type: DataTypeView,
    pub nullable: bool,
}

impl View for ColumnSchema {
    type V = ColumnSchemaView;

    open spec fn view(&self) -> ColumnSchemaView {
        ColumnSchemaView { name: self.name@, data_type: self.data_type@, nullable: self.nullable }
    }
}

impl ColumnSchema {
    /// The column that one row of the engine's table description stands
    /// for: its name, the name of its type, and whether it is declared
    /// `NOT NULL`.
    pub fn from_table_info(name: &str, declared: &str, not_null: bool) -> (r: ColumnSchema)
        ensures
            r@ == (ColumnSchemaView {
                name: name@,
                data_type: named_data_type(declared@),
                nullable: !not_null,
            }),
    {
        ColumnSchema {
            name: copy_str(name),
            data_type: DataType::parse(declared),
            nullable: !not_null,
        }
    }
}

/// The columns of a loaded table.
#[derive(Debug)]
pub struct TableSchema {
    pub name: String,
    pub columns: Vec<ColumnSchema>,
}

impl TableSchema {
    /// Takes the columns that the engine reports for the table once it is
    /// created; where it reports none, the inferred columns stay.
    pub fn update_columns(&mut self, reported: Vec<ColumnSchema>)
        ensures
            final(self).name == old(self).name,
            final(self).columns == (if reported@.len() > 0 {
                reported
            } else {
                old(self).columns
            }),
    {
        if reported.len() > 0 {
            self.columns = reported;
        }
    }
}

/// Loads one file into one table of one subject.
pub trait FileIngestor {
    fn ingest(&self, path: &str, table_name: &str, subject: &str) -> Result<
        TableSchema,
        IngestError,
    >;
}

/// The loaders there are.
#[derive(Debug, Clone, Copy, PartialEq, Eq, Structural)]
pub enum FileKind {
    Csv,
    Parquet,
}

/// The statements that load a file into a table, in the order in which they
/// are run.
#[derive(Debug)]
pub struct IngestStatements {
    pub drop_table: String,
    pub create_table: String,
    pub verify: String,
}

/// The statement that removes an earlier table of that name.
pub open spec fn drop_statement(table: Seq<char>) -> Seq<char> {
    "DROP TABLE IF EXISTS \""@ + table + "\""@
}

/// The statement that counts the rows of the new table.
pub open spec fn verify_statement(table: Seq<char>) -> Seq<char> {
    "SELECT COUNT(*) FROM \""@ + table + "\""@
}

/// The statement that creates a table from a CSV file.
pub open spec fn csv_create_statement(table: Seq<char>, path: Seq<char>) -> Seq<char> {
    "CREATE TABLE \""@ + table + "\" AS SELECT * FROM read_csv_auto('"@ + path
        + "', HEADER=true, AUTO_DETECT=true)"@
}

/// The statement that creates a table from a Parquet file.
pub open spec fn parquet_create_statement(table: Seq<char>, path: Seq<char>) -> Seq<char> {
    "CREATE TABLE \""@ + table + "\" AS SELECT * FROM read_parquet('"@ + path
        + "', BINARY_AS_STRING=TRUE, FILENAME=TRUE)"@
}

/// The statement that has the engine infer the schema of a CSV file from a
/// sample of it.
pub open spec fn csv_inference_statement(path: Seq<char>, sample_size: nat) -> Seq<char> {
    "CREATE TABLE temp_schema AS SELECT * FROM read_csv_auto('"@ + path + "', SAMPLE_SIZE="@
        + decimal(sample_size) + ")"@
}

/// The statement that has the engine infer the schema of a Parquet file.
pub open spec fn parquet_inference_statement(path: Seq<char>) -> Seq<char> {
    "CREATE TABLE temp_schema AS SELECT * FROM read_parquet('"@ + path
        + "', BINARY_AS_STRING=TRUE) LIMIT 0"@
}

/// Builds [`drop_statement`].
fn build_drop_statement(table: &str) -> (r: String)
    ensures
        r@ == drop_statement(table@),
{
    let mut r = copy_str("DROP TABLE IF EXISTS \"");
    r.append(table);
    r.append("\"");
    r
}

/// Builds [`verify_statement`].
fn build_verify_statement(table: &str) -> (r: String)
    ensures
        r@ == verify_statement(table@),
{
    let mut r = copy_str("SELECT COUNT(*) FROM \"");
    r.append(table);
    r.append("\"");
    r
}

/// Loads CSV files. The schema is inferred from a sample of the file.
#[derive(Debug)]
pub struct CsvIngestor {
    sample_size: usize,
    connection_string: String,
}

impl CsvIngestor {
    /// The number of sampled characters.
    pub closed spec fn sample_size_spec(&self) -> nat {
        self.sample_size as nat
    }

    /// The place of the database.
    pub closed spec fn connection_string_spec(&self) -> Seq<char> {
        self.connection_string@
    }

    /// A loader that samples 1000 characters.
    pub fn new(connection_string: String) -> (r: Self)
        ensures
            r.sample_size_spec() == 1000,
            r.connection_string_spec() == connection_string@,
    {
        CsvIngestor { sample_size: 1000, connection_string }
    }

    /// A loader that samples `sample_size` characters.
    pub fn with_sample_size(connection_string: String, sample_size: usize) -> (r: Self)
        ensures
            r.sample_size_spec() == sample_size,
            r.connection_string_spec() == connection_string@,
    {
        CsvIngestor { sample_size, connection_string }
    }

    /// The number of sampled characters.
    pub fn sample_size(&self) -> (r: usize)
        ensures
            r == self.sample_size_spec(),
    {
        self.sample_size
    }

    /// The statement that infers the schema of the file at `path`.
    pub fn inference_statement(&self, path: &str) -> (r: String)
        ensures
            r@ == csv_inference_statement(path@, self.sample_size_spec()),
    {
        let mut r = copy_str("CREATE TABLE temp_schema AS SELECT * FROM read_csv_auto('");
        r.append(path);
        r.append("', SAMPLE_SIZE=");
        push_decimal(&mut r, self.sample_size);
        r.append(")");
        r
    }

    /// The statements that load the file at `path` into `table`.
    pub fn statements(&self, path: &str, table: &str) -> (r: IngestStatements)
        ensures
            r.drop_table@ == drop_statement(table@),
            r.create_table@ == csv_create_statement(table@, path@),
            r.verify@ == verify_statement(table@),
    {
        let mut c = copy_str("CREATE TABLE \"");
        c.append(table);
        c.append("\" AS SELECT * FROM read_csv_auto('");
        c.append(path);
        c.append("', HEADER=true, AUTO_DETECT=true)");
        IngestStatements {
            drop_table: build_drop_statement(table),
            create_table: c,
            verify: build_verify_statement(table),
        }
    }
}

/// Loads Parquet files.
#[derive(Debug)]
pub struct ParquetIngestor {}

impl ParquetIngestor {
    /// A loader.
    pub fn new() -> (r: Self) {
        ParquetIngestor {  }
    }

    /// The statement that infers the schema of the file at `path`.
    pub fn inference_statement(&self, path: &str) -> (r: String)
        ensures
            r@ == parquet_inference_statement(path@),
    {
        let mut r = copy_str("CREATE TABLE temp_schema AS SELECT * FROM read_parquet('");
        r.append(path);
        r.append("', BINARY_AS_STRING=TRUE) LIMIT 0");
        r
    }

    /// The statements that load the file at `path` into `table`.
    pub fn statements(&self, path: &str, table: &str) -> (r: IngestStatements)
        ensures
            r.drop_table@ == drop_statement(table@),
            r.create_table@ == parquet_create_statement(table@, path@),
            r.verify@ == verify_statement(table@),
    {
        let mut c = copy_str("CREATE TABLE \"");
        c.append(table);
        c.append("\" AS SELECT * FROM read_parquet('");
        c.append(path);
        c.append("', BINARY_AS_STRING=TRUE, FILENAME=TRUE)");
        IngestStatements {
            drop_table: build_drop_statement(table),
            create_table: c,
            verify: build_verify_statement(table),
        }
    }
}

/// The index of the last `c` before index `j` of `s`; -1 when there is
/// none.
pub open spec fn last_before(s: Seq<char>, c: char, j: int) -> int
    decreases j,
{
    if j <= 0 || j > s.len() {
        -1
    } else if s[j - 1] == c {
        j - 1
    } else {
        last_before(s, c, j - 1)
    }
}

/// The last component of a path: what follows its last slash.
pub open spec fn file_name_of(path: Seq<char>) -> Seq<char> {
    path.subrange(last_before(path, '/', path.len() as int) + 1, path.len() as int)
}

/// Every character of `name` is a dot.
pub open spec fn all_dots(name: Seq<char>) -> bool {
    forall|i: int| 0 <= i < name.len() ==> #[trigger] name[i] == '.'
}

/// The extension of a path: what follows the last dot of its last
/// component, where that dot is not the component's first character. A
/// component made of dots alone has no extension.
pub open spec fn extension_of(path: Seq<char>) -> Option<Seq<char>> {
    let name = file_name_of(path);
    let d = last_before(name, '.', name.len() as int);
    if d <= 0 || all_dots(name) {
        None
    } else {
        Some(name.subrange(d + 1, name.len() as int))
    }
}

/// Computes [`all_dots`].
pub fn test_all_dots(name: &[char]) -> (r: bool)
    ensures
        r == all_dots(name@),
{
    let mut i: usize = 0;
    while i < name.len()
        invariant
            i <= name.len(),
            forall|k: int| 0 <= k < i ==> #[trigger] name@[k] == '.',
        decreases name.len() - i,
    {
        if name[i] != '.' {
            return false;
        }
        i += 1;
    }
    true
}

/// Computes [`last_before`]; `None` stands for -1.
pub fn find_last_before(s: &[char], c: char, j: usize) -> (r: Option<usize>)
    requires
        j <= s.len(),
    ensures
        match r {
            Some(k) => k == last_before(s@, c, j as int) && k < j,
            None => last_before(s@, c, j as int) == -1,
        },
{
    let mut i: usize = j;
    while i > 0
        invariant
            i <= j,
            j <= s.len(),
            last_before(s@, c, j as int) == last_before(s@, c, i as int),
        decreases i,
    {
        if s[i - 1] == c {
            return Some(i - 1);
        }
        i -= 1;
    }
    None
}

/// Computes [`extension_of`].
pub fn file_extension(path: &str) -> (r: Option<String>)
    ensures
        r is Some == extension_of(path@) is Some,
        r matches Some(e) ==> e@ == extension_of(path@)->Some_0,
{
    let p = chars_of(path);
    let start: usize = match find_last_before(p.as_slice(), '/', p.len()) {
        Some(k) => k + 1,
        None => 0,
    };
    let name = copy_range(p.as_slice(), start, p.len());
    assert(name@ == file_name_of(path@));
    match find_last_before(name.as_slice(), '.', name.len()) {
        Some(d) => {
            if d == 0 || test_all_dots(name.as_slice()) {
                None
            } else {
                let e = copy_range(name.as_slice(), d + 1, name.len());
                Some(string_of(e.as_slice()))
            }
        },
        None => None,
    }
}

/// The loader for a file, by the file's extension in any letter case, or
/// the error for a file that has none or one that no loader takes.
pub open spec fn loader_for(path: Seq<char>) -> Result<FileKind, IngestErrorView> {
    match extension_of(path) {
        None => Err(IngestErrorView::UnsupportedFileType("No extension"@)),
        Some(e) => if ci_eq(e, "csv"@) {
            Ok(FileKind::Csv)
        } else if ci_eq(e, "parquet"@) {
            Ok(FileKind::Parquet)
        } else {
            Err(IngestErrorView::UnsupportedFileType(e))
        },
    }
}

/// What loading one file comes to: the loader, where the subject's data
/// lives, and the statements to run there.
#[derive(Debug)]
pub struct IngestPlan {
    pub kind: FileKind,
    pub subject_dir: String,
    pub db_path: String,
    pub inference: String,
    pub statements: IngestStatements,
}

/// `p` is the plan for loading the file at `path` by the loader `kind` into
/// the table `table` of `subject`, with a CSV sample of `sample_size`
/// characters.
pub open spec fn is_plan(
    p: IngestPlan,
    kind: FileKind,
    path: Seq<char>,
    table: Seq<char>,
    subject: Seq<char>,
    data_dir: Seq<char>,
    sample_size: nat,
) -> bool {
    &&& p.kind == kind
    &&& p.subject_dir@ == subject_dir_path(data_dir, subject)
    &&& p.db_path@ == subject_db_path(data_dir, subject)
    &&& p.statements.drop_table@ == drop_statement(table)
    &&& p.statements.verify@ == verify_statement(table)
    &&& p.statements.create_table@ == (match kind {
        FileKind::Csv => csv_create_statement(table, path),
        FileKind::Parquet => parquet_create_statement(table, path),
    })
    &&& p.inference@ == (match kind {
        FileKind::Csv => csv_inference_statement(path, sample_size),
        FileKind::Parquet => parquet_inference_statement(path),
    })
}

/// The view of a planning result: the loader, or the error.
pub open spec fn plan_kind(r: Result<IngestPlan, IngestError>) -> Result<
    FileKind,
    IngestErrorView,
> {
    match r {
        Ok(p) => Ok(p.kind),
        Err(e) => Err(e@),
    }
}

/// Sends each file to the loader for its type.
#[derive(Debug)]
pub struct IngestManager {
    csv_ingestor: CsvIngestor,
    parquet_ingestor: ParquetIngestor,
}

impl IngestManager {
    /// The CSV loader.
    pub closed spec fn csv(&self) -> CsvIngestor {
        self.csv_ingestor
    }

    /// A manager whose loaders name no database of their own: each file is
    /// loaded into the database of its subject.
    pub fn new() -> (r: Self)
        ensures
            r.csv().sample_size_spec() == 1000,
            r.csv().connection_string_spec() == Seq::<char>::empty(),
    {
        IngestManager {
            csv_ingestor: CsvIngestor::new(String::new()),
            parquet_ingestor: ParquetIngestor::new(),
        }
    }

    /// A manager whose loaders know the main database.
    pub fn with_connection_string(connection_string: String) -> (r: Self)
        ensures
            r.csv().sample_size_spec() == 1000,
            r.csv().connection_string_spec() == connection_string@,
    {
        IngestManager {
            csv_ingestor: CsvIngestor::new(connection_string),
            parquet_ingestor: ParquetIngestor::new(),
        }
    }

    /// Plans the loading of the file at `path` by the loader `kind` into the
    /// table `table_name` of `subject`, whose data lives under `data_dir`:
    /// the subject's directory and database file, and the statements of the
    /// loader.
    pub fn plan_for(
        &self,
        kind: FileKind,
        path: &str,
        table_name: &str,
        subject: &str,
        data_dir: &str,
    ) -> (p: IngestPlan)
        ensures
            is_plan(p, kind, path@, table_name@, subject@, data_dir@, self.csv().sample_size_spec()),
    {
        let mut subject_dir = copy_str(data_dir);
        subject_dir.append("/");
        subject_dir.append(subject);
        let mut db_path = copy_str(data_dir);
        db_path.append("/");
        db_path.append(subject);
        db_path.append("/");
        db_path.append(subject);
        db_path.append(".duckdb");
        let (inference, statements) = match kind {
            FileKind::Csv => (
                self.csv_ingestor.inference_statement(path),
                self.csv_ingestor.statements(path, table_name),
            ),
            FileKind::Parquet => (
                self.parquet_ingestor.inference_statement(path),
                self.parquet_ingestor.statements(path, table_name),
            ),
        };
        IngestPlan { kind, subject_dir, db_path, inference, statements }
    }

    /// Plans the loading of the file at `path` into the table `table_name`
    /// of `subject`, whose data lives under `data_dir`.
    ///
    /// The loader goes by the file's extension; see [`loader_for`] for the
    /// errors. The plan is the one that [`IngestManager::plan_for`] makes
    /// for that loader.
    pub fn plan(&self, path: &str, table_name: &str, subject: &str, data_dir: &str) -> (r: Result<
        IngestPlan,
        IngestError,
    >)
        ensures
            plan_kind(r) == loader_for(path@),
            r matches Ok(p) ==> is_plan(
                p,
                p.kind,
                path@,
                table_name@,
                subject@,
                data_dir@,
                self.csv().sample_size_spec(),
            ),
    {
        let extension = match file_extension(path) {
            None => {
                return Err(IngestError::UnsupportedFileType(copy_str("No extension")));
            },
            Some(e) => e,
        };
        let e = chars_of(extension.as_str());
        let kind = if is_word(e.as_slice(), "csv") {
            FileKind::Csv
        } else if is_word(e.as_slice(), "parquet") {
            FileKind::Parquet
        } else {
            return Err(IngestError::UnsupportedFileType(extension));
        };
        Ok(self.plan_for(kind, path, table_name, subject, data_dir))
    }
}

impl Default for IngestManager {
    /// The manager that [`IngestManager::new`] makes.
    fn default() -> (r: Self)
        ensures
            r.csv().sample_size_spec() == 1000,
            r.csv().connection_string_spec() == Seq::<char>::empty(),
    {
        IngestManager::new()
    }
}

} // verus!
