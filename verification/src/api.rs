//! What the service's interface decides before and after the engine runs a
//! statement: which subject a request is for, what is run on a subject's own
//! database, and what is reported back.

use vstd::prelude::*;
use vstd::string::StringExecFns;
use crate::pattern::{capture, option_text, regex_capture, regex_replace_all, replace_all};
use crate::text::{
    chars_of, copy_str, is_alphanumeric_char, same_str, string_of, test_alphanumeric,
};

verus! {

/// A request to run a statement as it is.
#[derive(Debug)]
pub struct ExecuteQueryRequest {
    pub query: String,
}

/// What is reported of a statement that ran.
#[derive(Debug)]
pub struct QueryMetadata {
    pub columns: Vec<String>,
    pub row_count: usize,
    pub execution_time_ms: u64,
}

/// A question in natural language.
#[derive(Debug)]
pub struct NlQueryRequest {
    pub question: String,
}

/// A subject as it is listed: its tables and the number of its files.
#[derive(Debug)]
pub struct Subject {
    pub name: String,
    pub tables: Vec<String>,
    pub file_count: usize,
}

/// The state of the service.
#[derive(Debug)]
pub struct SystemStatus {
    pub version: String,
    pub uptime_seconds: i64,
    pub subject_count: usize,
    pub table_count: usize,
    pub report_count: usize,
}

/// The seconds from `startup` to `now`, kept within the range of `i64`.
pub open spec fn uptime(startup: i64, now: i64) -> int {
    if now - startup > i64::MAX {
        i64::MAX as int
    } else if now - startup < i64::MIN {
        i64::MIN as int
    } else {
        now - startup
    }
}

impl SystemStatus {
    /// The status at time `now` of a service that started at `startup`
    /// (both in seconds since the epoch). No reports are kept, so none are
    /// counted.
    pub fn new(
        version: &str,
        startup: i64,
        now: i64,
        subject_count: usize,
        table_count: usize,
    ) -> (r: Self)
        ensures
            r.version@ == version@,
            r.uptime_seconds == uptime(startup, now),
            r.subject_count == subject_count,
            r.table_count == table_count,
            r.report_count == 0,
    {
        let uptime_seconds: i64 = if startup < 0 && now > i64::MAX + startup {
            i64::MAX
        } else if startup > 0 && now < i64::MIN + startup {
            i64::MIN
        } else {
            now - startup
        };
        SystemStatus {
            version: copy_str(version),
            uptime_seconds,
            subject_count,
            table_count,
            report_count: 0,
        }
    }
}

/// A reference to a table that is qualified by a quoted name: `"a"."b"`, with
/// either kind of quote and white space allowed around the dot.
pub const QUALIFIED_REFERENCE: &'static str =
    "[\"']([a-zA-Z0-9_]+)[\"']\\s*\\.\\s*[\"']([a-zA-Z0-9_]+)[\"']";

/// What stands for a qualified reference on a subject's own database: the
/// table alone, in double quotes.
pub const TABLE_ALONE: &'static str = "\"$2\"";

/// A name followed by a dot and another name, each quoted or not; its first
/// group is the name before the dot.
pub const SCHEMA_REFERENCE: &'static str = "[\"']?([a-zA-Z0-9_]+)[\"']?\\.[\"']?[a-zA-Z0-9_]+";

/// The statement as it is run on a subject's own database, where tables
/// need no qualifier: every `"a"."b"` is replaced by `"b"`.
pub open spec fn stripped_query(query: Seq<char>) -> Seq<char> {
    replaced_or_original(query, regex_replace_all(QUALIFIED_REFERENCE@, query, TABLE_ALONE@))
}

/// The replaced text where there is one, the statement itself otherwise.
pub open spec fn replaced_or_original(query: Seq<char>, replaced: Option<Seq<char>>) -> Seq<
    char,
> {
    match replaced {
        Some(s) => s,
        None => query,
    }
}

/// Takes the outcome of the replacement: the replaced text where there is
/// one, a copy of the statement otherwise.
pub fn stripped_from(query: &str, replaced: Option<String>) -> (r: String)
    ensures
        r@ == replaced_or_original(query@, option_text(replaced)),
{
    match replaced {
        Some(s) => s,
        None => copy_str(query),
    }
}

/// Strips the qualifiers from the table references of a statement that is
/// run as it is on a subject's own database; see [`stripped_query`]. This is
/// not the rewriting of a statement for a subject, which
/// [`crate::qualifier::qualify`] does.
pub fn strip_table_qualifiers(query: &str) -> (r: String)
    ensures
        r@ == stripped_query(query@),
{
    let replaced = replace_all(QUALIFIED_REFERENCE, query, TABLE_ALONE);
    stripped_from(query, replaced)
}

/// The name that qualifies the first qualified reference of a statement.
pub open spec fn schema_named_in(query: Seq<char>) -> Option<Seq<char>> {
    regex_capture(SCHEMA_REFERENCE@, query, 1)
}

/// Finds the name that qualifies the first qualified reference of a
/// statement; see [`schema_named_in`].
pub fn extract_schema_from_query(query: &str) -> (r: Option<String>)
    ensures
        option_text(r) == schema_named_in(query@),
{
    capture(SCHEMA_REFERENCE, query, 1)
}

/// The subject on whose database a statement is run as it is: the selected
/// one; else the one that the statement names; else the first known one;
/// else `main`.
pub open spec fn direct_subject(
    current: Option<Seq<char>>,
    named: Option<Seq<char>>,
    subjects: Seq<String>,
) -> Seq<char> {
    match current {
        Some(c) => c,
        None => match named {
            Some(n) => n,
            None => if subjects.len() > 0 {
                subjects[0]@
            } else {
                "main"@
            },
        },
    }
}

/// Chooses among the selected subject, the subject that the statement was
/// found to name, and the known subjects; see [`direct_subject`].
pub fn choose_direct_subject(
    current: Option<&str>,
    named: Option<String>,
    subjects: &Vec<String>,
) -> (r: String)
    ensures
        r@ == direct_subject(
            match current {
                Some(c) => Some(c@),
                None => None,
            },
            option_text(named),
            subjects@,
        ),
{
    match current {
        Some(c) => copy_str(c),
        None => match named {
            Some(n) => n,
            None => if subjects.len() > 0 {
                subjects[0].clone()
            } else {
                copy_str("main")
            },
        },
    }
}

/// The subject on whose database the statement `query` is run as it is.
pub fn direct_query_subject(current: Option<&str>, query: &str, subjects: &Vec<String>) -> (r:
    String)
    ensures
        r@ == direct_subject(
            match current {
                Some(c) => Some(c@),
                None => None,
            },
            schema_named_in(query@),
            subjects@,
        ),
{
    let named = extract_schema_from_query(query);
    choose_direct_subject(current, named, subjects)
}

/// What is answered in place of a result.
#[derive(Debug)]
pub struct ApiError {
    pub status: u16,
    pub message: String,
}

/// `name` is one of `subjects`.
pub open spec fn is_listed(subjects: Seq<String>, name: Seq<char>) -> bool {
    exists|i: int| 0 <= i < subjects.len() && (#[trigger] subjects[i])@ == name
}

/// Whether `name` is one of `subjects`.
pub fn test_listed(subjects: &Vec<String>, name: &str) -> (r: bool)
    ensures
        r == is_listed(subjects@, name@),
{
    let mut i: usize = 0;
    while i < subjects.len()
        invariant
            i <= subjects.len(),
            forall|k: int| 0 <= k < i ==> (#[trigger] subjects@[k])@ != name@,
        decreases subjects.len() - i,
    {
        if same_str(subjects[i].as_str(), name) {
            return true;
        }
        i += 1;
    }
    false
}

/// Chooses the subject that a question is put to.
///
/// With no subject known the request is refused with status 400. The
/// selected subject is taken where it is still known, the first known
/// subject otherwise.
pub fn determine_query_subject(subjects: &Vec<String>, current: Option<&str>) -> (r: Result<
    String,
    ApiError,
>)
    ensures
        r is Err == (subjects@.len() == 0),
        r matches Err(e) ==> e.status == 400 && e.message@
            == "No subjects found. Please create a subject and upload data files."@,
        r matches Ok(s) ==> s@ == (match current {
            Some(c) => if is_listed(subjects@, c@) {
                c@
            } else {
                subjects@[0]@
            },
            None => subjects@[0]@,
        }),
{
    if subjects.len() == 0 {
        return Err(
            ApiError {
                status: 400,
                message: copy_str(
                    "No subjects found. Please create a subject and upload data files.",
                ),
            },
        );
    }
    match current {
        Some(c) => {
            if test_listed(subjects, c) {
                return Ok(copy_str(c));
            }
        },
        None => {},
    }
    Ok(subjects[0].clone())
}

/// The statement that creates the schema of a subject in the main database.
pub open spec fn create_schema_statement(subject: Seq<char>) -> Seq<char> {
    "CREATE SCHEMA IF NOT EXISTS \""@ + subject + "\""@
}

/// The statement that drops the schema of a subject from the main database.
pub open spec fn drop_schema_statement(subject: Seq<char>) -> Seq<char> {
    "DROP SCHEMA IF EXISTS \""@ + subject + "\" CASCADE"@
}

/// Builds [`create_schema_statement`].
pub fn build_create_schema_statement(subject: &str) -> (r: String)
    ensures
        r@ == create_schema_statement(subject@),
{
    let mut r = copy_str("CREATE SCHEMA IF NOT EXISTS \"");
    r.append(subject);
    r.append("\"");
    r
}

/// Builds [`drop_schema_statement`].
pub fn build_drop_schema_statement(subject: &str) -> (r: String)
    ensures
        r@ == drop_schema_statement(subject@),
{
    let mut r = copy_str("DROP SCHEMA IF EXISTS \"");
    r.append(subject);
    r.append("\" CASCADE");
    r
}

/// `format` is a format that results may one day be exported in.
pub open spec fn is_export_format(format: Seq<char>) -> bool {
    format == "csv"@ || format == "json"@ || format == "parquet"@
}

/// Answers a request to export results: no format is implemented, which is
/// said with status 501 for the formats that are planned and with status 400
/// for every other.
pub fn export_refusal(format: &str) -> (r: ApiError)
    ensures
        is_export_format(format@) ==> r.status == 501 && r.message@ == "Export to "@ + format@
            + " not yet implemented"@,
        !is_export_format(format@) ==> r.status == 400 && r.message@
            == "Unsupported export format"@,
{
    if same_str(format, "csv") || same_str(format, "json") || same_str(format, "parquet") {
        let mut m = copy_str("Export to ");
        m.append(format);
        m.append(" not yet implemented");
        ApiError { status: 501, message: m }
    } else {
        ApiError { status: 400, message: copy_str("Unsupported export format") }
    }
}

/// The character may stand in the name of an uploaded file: it is
/// alphanumeric, a dot, a hyphen or an underscore.
pub open spec fn is_file_name_char(c: char) -> bool {
    is_alphanumeric_char(c) || c == '.' || c == '-' || c == '_'
}

/// The name under which an uploaded file is stored: the name it came with,
/// with an underscore in the place of every character that may not stand in
/// a file name.
pub open spec fn safe_file_name(name: Seq<char>) -> Seq<char> {
    Seq::new(name.len(), |i: int| if is_file_name_char(name[i]) { name[i] } else { '_' })
}

/// The character that stands for `c` in a safe file name, given whether `c`
/// is alphanumeric.
pub fn safe_char(c: char, alphanumeric: bool) -> (r: char)
    ensures
        r == (if alphanumeric || c == '.' || c == '-' || c == '_' {
            c
        } else {
            '_'
        }),
{
    if alphanumeric || c == '.' || c == '-' || c == '_' {
        c
    } else {
        '_'
    }
}

/// Computes [`safe_file_name`].
pub fn sanitize_file_name(name: &str) -> (r: String)
    ensures
        r@ == safe_file_name(name@),
{
    let n = chars_of(name);
    let mut out: Vec<char> = Vec::new();
    let mut i: usize = 0;
    while i < n.len()
        invariant
            i <= n.len(),
            n@ == name@,
            out@.len() == i,
            forall|k: int| 0 <= k < i ==> out@[k] == safe_file_name(name@)[k],
        decreases n.len() - i,
    {
        let c: char = n[i];
        out.push(safe_char(c, test_alphanumeric(c)));
        i += 1;
    }
    assert(out@ =~= safe_file_name(name@));
    string_of(out.as_slice())
}

} // verus!
