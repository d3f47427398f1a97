//! Answering a question asked in natural language, step by step.
//!
//! The library decides; the caller acts. A request starts with the schema
//! description of its subject, goes on with what the language model
//! answered, and ends with what the engine made of the statement. Between
//! the steps the caller invokes the model and runs the statement. A statement
//! that fails, or an answer in which no SQL is found, is followed by one
//! attempt at a minimal count over a conventional table; a failure of the
//! model itself is not.

use vstd::prelude::*;
use vstd::string::StringExecFns;
use crate::api::QueryMetadata;
use crate::catalog::{context_document, SchemaSnapshot, SnapshotView};
use crate::discovery::{conventional, conventional_name, CONVENTIONAL_COUNT};
use crate::extract::{extract_sql, extracted_sql, is_degenerate, test_degenerate};
use crate::llm::{llm_error_message, LlmError, LlmErrorView};
use crate::qualifier::{qualify, qualify_spec};
use crate::text::{copy_str, texts};

verus! {

/// Where a request stands.
#[derive(Debug, Clone, Copy, PartialEq, Eq, Structural)]
pub enum NlStage {
    ReceivedQuestion,
    ContextBuilt,
    ModelInvoked,
    SqlExtracted,
    SqlQualified,
    Executed,
    FallbackAttempted,
    Succeeded,
    Failed,
}

/// Why a question was not answered.
#[derive(Debug)]
pub enum NlError {
    /// The catalog holds no subject of that name.
    UnknownSubject(String),
    /// The subject has no discovered tables; the model was not asked.
    NoData(String),
    /// The model failed; this is its error, unchanged.
    Generation(LlmError),
    /// Nothing to run was found in the model's answer, which is kept.
    Extraction(String),
    /// The engine refused the statement; this is its message, unchanged.
    Execution(String),
}

/// The mathematical value of an [`NlError`].
pub enum NlErrorView {
    UnknownSubject(Seq<char>),
    NoData(Seq<char>),
    Generation(LlmErrorView),
    Extraction(Seq<char>),
    Execution(Seq<char>),
}

impl View for NlError {
    type V = NlErrorView;

    open spec fn view(&self) -> NlErrorView {
        match self {
            NlError::UnknownSubject(s) => NlErrorView::UnknownSubject(s@),
            NlError::NoData(s) => NlErrorView::NoData(s@),
            NlError::Generation(e) => NlErrorView::Generation(e@),
            NlError::Extraction(raw) => NlErrorView::Extraction(raw@),
            NlError::Execution(m) => NlErrorView::Execution(m@),
        }
    }
}

/// The text that describes an error to the one who asked.
pub open spec fn nl_error_message(e: NlErrorView) -> Seq<char> {
    match e {
        NlErrorView::UnknownSubject(s) => "Unknown subject: "@ + s,
        NlErrorView::NoData(s) => "No data available for subject "@ + s,
        NlErrorView::Generation(e) => llm_error_message(e),
        NlErrorView::Extraction(_) => "No SQL statement was found in the model's answer"@,
        NlErrorView::Execution(m) => m,
    }
}

impl NlError {
    /// The text that describes this error to the one who asked.
    pub fn message(&self) -> (r: String)
        ensures
            r@ == nl_error_message(self@),
    {
        match self {
            NlError::UnknownSubject(s) => {
                let mut r = copy_str("Unknown subject: ");
                r.append(s.as_str());
                r
            },
            NlError::NoData(s) => {
                let mut r = copy_str("No data available for subject ");
                r.append(s.as_str());
                r
            },
            NlError::Generation(e) => e.message(),
            NlError::Extraction(_) => copy_str("No SQL statement was found in the model's answer"),
            NlError::Execution(m) => m.clone(),
        }
    }
}

/// A request whose subject is known and has tables: the model is to be
/// asked next.
#[derive(Debug)]
pub struct PendingGeneration {
    pub question: String,
    pub subject: String,
    pub context: String,
}

/// The mathematical value of a [`PendingGeneration`].
pub struct GenerationView {
    pub question: Seq<char>,
    pub subject: Seq<char>,
    pub context: Seq<char>,
}

impl View for PendingGeneration {
    type V = GenerationView;

    open spec fn view(&self) -> GenerationView {
        GenerationView { question: self.question@, subject: self.subject@, context: self.context@ }
    }
}

/// A request with a statement to run. `sql_used` is the statement that is
/// run and reported. `first_error` is what went wrong before the fallback
/// was taken.
#[derive(Debug)]
pub struct PendingExecution {
    pub subject: String,
    pub sql_used: String,
    pub fallback: bool,
    pub first_error: Option<NlError>,
}

/// The mathematical value of a [`PendingExecution`].
pub struct ExecutionView {
    pub subject: Seq<char>,
    pub sql_used: Seq<char>,
    pub fallback: bool,
    pub first_error: Option<NlErrorView>,
}

impl View for PendingExecution {
    type V = ExecutionView;

    open spec fn view(&self) -> ExecutionView {
        ExecutionView {
            subject: self.subject@,
            sql_used: self.sql_used@,
            fallback: self.fallback,
            first_error: match self.first_error {
                Some(e) => Some(e@),
                None => None,
            },
        }
    }
}

/// The answer to a question: the statement that was run and what the engine
/// reported of it.
#[derive(Debug)]
pub struct NlAnswer {
    pub sql_used: String,
    pub columns: Vec<String>,
    pub row_count: usize,
    pub execution_time_ms: u64,
}

/// The mathematical value of an [`NlAnswer`].
pub struct AnswerView {
    pub sql_used: Seq<char>,
    pub columns: Seq<Seq<char>>,
    pub row_count: nat,
    pub execution_time_ms: nat,
}

impl View for NlAnswer {
    type V = AnswerView;

    open spec fn view(&self) -> AnswerView {
        AnswerView {
            sql_used: self.sql_used@,
            columns: texts(self.columns@),
            row_count: self.row_count as nat,
            execution_time_ms: self.execution_time_ms as nat,
        }
    }
}

/// What follows the engine's report.
#[derive(Debug)]
pub enum Verdict {
    /// The statement ran: this is the answer.
    Answer(NlAnswer),
    /// The statement failed: the fallback is to be run.
    Retry(PendingExecution),
    /// The request failed for good.
    Fail(NlError),
}

/// The mathematical value of a [`Verdict`].
pub enum VerdictView {
    Answer(AnswerView),
    Retry(ExecutionView),
    Fail(NlErrorView),
}

impl View for Verdict {
    type V = VerdictView;

    open spec fn view(&self) -> VerdictView {
        match self {
            Verdict::Answer(a) => VerdictView::Answer(a@),
            Verdict::Retry(p) => VerdictView::Retry(p@),
            Verdict::Fail(e) => VerdictView::Fail(e@),
        }
    }
}

/// The count over one table, before it is qualified.
pub open spec fn count_statement(table: Seq<char>) -> Seq<char> {
    "SELECT COUNT(*) FROM "@ + table
}

/// The fallback statement for a subject, looking at the conventional names
/// from position `k` on: the qualified count over the first of them that the
/// subject has a table of.
pub open spec fn fallback_from(snapshot: SnapshotView, subject: Seq<char>, k: int) -> Option<
    Seq<char>,
>
    decreases CONVENTIONAL_COUNT - k,
{
    if k < 0 || k >= CONVENTIONAL_COUNT {
        None
    } else if snapshot.has_table(subject, conventional_name(k)) {
        Some(qualify_spec(count_statement(conventional_name(k)), subject, snapshot))
    } else {
        fallback_from(snapshot, subject, k + 1)
    }
}

/// The fallback statement for a subject: a count over the first
/// conventional table that it has; none where it has no such table.
pub open spec fn fallback_sql(snapshot: SnapshotView, subject: Seq<char>) -> Option<Seq<char>> {
    fallback_from(snapshot, subject, 0)
}

/// The request that runs `sql`.
pub open spec fn execution_of(
    subject: Seq<char>,
    sql: Seq<char>,
    fallback: bool,
    first_error: Option<NlErrorView>,
) -> ExecutionView {
    ExecutionView { subject, sql_used: sql, fallback, first_error }
}

/// How a request starts. An unknown subject and a subject without tables
/// end it at once; otherwise the model is asked the question, with the
/// subject's schema description as context.
pub open spec fn begun(question: Seq<char>, subject: Seq<char>, snapshot: SnapshotView) -> Result<
    GenerationView,
    NlErrorView,
> {
    if !snapshot.has_subject(subject) {
        Err(NlErrorView::UnknownSubject(subject))
    } else if snapshot.tables_of(subject).len() == 0 {
        Err(NlErrorView::NoData(subject))
    } else {
        Ok(GenerationView { question, subject, context: context_document(snapshot, subject) })
    }
}

/// What follows the model's answer.
///
/// An error of the model ends the request with that error. From an answer
/// the SQL is extracted; where it holds something to run, it is qualified
/// for the subject and is to be run. Where it holds nothing to run, the
/// fallback statement is to be run in its place, and the request fails where
/// the subject has none.
pub open spec fn after_generation(
    subject: Seq<char>,
    outcome: Result<Seq<char>, LlmErrorView>,
    snapshot: SnapshotView,
) -> Result<ExecutionView, NlErrorView> {
    match outcome {
        Err(e) => Err(NlErrorView::Generation(e)),
        Ok(raw) => if is_degenerate(extracted_sql(raw)) {
            match fallback_sql(snapshot, subject) {
                Some(f) => Ok(execution_of(subject, f, true, Some(NlErrorView::Extraction(raw)))),
                None => Err(NlErrorView::Extraction(raw)),
            }
        } else {
            Ok(
                execution_of(
                    subject,
                    qualify_spec(extracted_sql(raw), subject, snapshot),
                    false,
                    None,
                ),
            )
        },
    }
}

/// What follows the engine's report on the statement of `p`.
///
/// A statement that ran is the answer. A statement that failed is followed
/// by the fallback statement, once: where the statement that failed was the
/// fallback itself, or the subject has none, the request fails, and it fails
/// with the first error, not with that of the fallback.
pub open spec fn after_execution(
    p: ExecutionView,
    outcome: Result<QueryMetadata, String>,
    snapshot: SnapshotView,
) -> VerdictView {
    match outcome {
        Ok(m) => VerdictView::Answer(
            AnswerView {
                sql_used: p.sql_used,
                columns: texts(m.columns@),
                row_count: m.row_count as nat,
                execution_time_ms: m.execution_time_ms as nat,
            },
        ),
        Err(message) => if p.fallback {
            match p.first_error {
                Some(e) => VerdictView::Fail(e),
                None => VerdictView::Fail(NlErrorView::Execution(message@)),
            }
        } else {
            match fallback_sql(snapshot, p.subject) {
                Some(f) => VerdictView::Retry(
                    execution_of(p.subject, f, true, Some(NlErrorView::Execution(message@))),
                ),
                None => VerdictView::Fail(NlErrorView::Execution(message@)),
            }
        },
    }
}

/// The view of a result of [`begin`].
pub open spec fn begin_view(r: Result<PendingGeneration, NlError>) -> Result<
    GenerationView,
    NlErrorView,
> {
    match r {
        Ok(p) => Ok(p@),
        Err(e) => Err(e@),
    }
}

/// The view of a result of [`PendingGeneration::generated`].
pub open spec fn generated_view(r: Result<PendingExecution, NlError>) -> Result<
    ExecutionView,
    NlErrorView,
> {
    match r {
        Ok(p) => Ok(p@),
        Err(e) => Err(e@),
    }
}

/// The view of what a model returned.
pub open spec fn model_outcome_view(r: Result<String, LlmError>) -> Result<
    Seq<char>,
    LlmErrorView,
> {
    match r {
        Ok(s) => Ok(s@),
        Err(e) => Err(e@),
    }
}

/// Computes [`fallback_sql`].
pub fn fallback_statement(snapshot: &SchemaSnapshot, subject: &str) -> (r: Option<String>)
    ensures
        crate::pattern::option_text(r) == fallback_sql(snapshot@, subject@),
{
    let mut k: usize = 0;
    while k < CONVENTIONAL_COUNT
        invariant
            k <= CONVENTIONAL_COUNT,
            fallback_sql(snapshot@, subject@) == fallback_from(snapshot@, subject@, k as int),
        decreases CONVENTIONAL_COUNT - k,
    {
        let name = conventional(k);
        if snapshot.has_table(subject, name) {
            let mut count = copy_str("SELECT COUNT(*) FROM ");
            count.append(name);
            return Some(qualify(count.as_str(), subject, snapshot));
        }
        k += 1;
    }
    None
}

/// The request that runs `sql`; see [`execution_of`].
fn execution(subject: String, sql: String, fallback: bool, first_error: Option<NlError>) -> (r:
    PendingExecution)
    ensures
        r@ == execution_of(
            subject@,
            sql@,
            fallback,
            match first_error {
                Some(e) => Some(e@),
                None => None,
            },
        ),
{
    PendingExecution { subject, sql_used: sql, fallback, first_error }
}

/// Starts a request; see [`begun`].
pub fn begin(question: &str, subject: &str, snapshot: &SchemaSnapshot) -> (r: Result<
    PendingGeneration,
    NlError,
>)
    ensures
        begin_view(r) == begun(question@, subject@, snapshot@),
{
    match snapshot.subject(subject) {
        None => Err(NlError::UnknownSubject(copy_str(subject))),
        Some(s) => {
            if s.tables.len() == 0 {
                Err(NlError::NoData(copy_str(subject)))
            } else {
                Ok(
                    PendingGeneration {
                        question: copy_str(question),
                        subject: copy_str(subject),
                        context: snapshot.to_context_document(subject),
                    },
                )
            }
        },
    }
}

impl PendingGeneration {
    /// The stage of the request: the context is built.
    pub fn stage(&self) -> (r: NlStage)
        ensures
            r == NlStage::ContextBuilt,
    {
        NlStage::ContextBuilt
    }

    /// Takes what the model returned; see [`after_generation`].
    pub fn generated(self, outcome: Result<String, LlmError>, snapshot: &SchemaSnapshot) -> (r:
        Result<PendingExecution, NlError>)
        ensures
            generated_view(r) == after_generation(
                self@.subject,
                model_outcome_view(outcome),
                snapshot@,
            ),
    {
        match outcome {
            Err(e) => Err(NlError::Generation(e)),
            Ok(raw) => {
                let sql = extract_sql(raw.as_str());
                if test_degenerate(sql.as_str()) {
                    match fallback_statement(snapshot, self.subject.as_str()) {
                        Some(f) => Ok(
                            execution(self.subject, f, true, Some(NlError::Extraction(raw))),
                        ),
                        None => Err(NlError::Extraction(raw)),
                    }
                } else {
                    let q = qualify(sql.as_str(), self.subject.as_str(), snapshot);
                    Ok(execution(self.subject, q, false, None))
                }
            },
        }
    }
}

impl PendingExecution {
    /// The stage of the request: the fallback is being attempted, or the
    /// qualified statement is to be run.
    pub fn stage(&self) -> (r: NlStage)
        ensures
            r == (if self.fallback {
                NlStage::FallbackAttempted
            } else {
                NlStage::SqlQualified
            }),
    {
        if self.fallback {
            NlStage::FallbackAttempted
        } else {
            NlStage::SqlQualified
        }
    }

    /// Takes what the engine reported of the statement; see
    /// [`after_execution`].
    pub fn executed(self, outcome: Result<QueryMetadata, String>, snapshot: &SchemaSnapshot) -> (r:
        Verdict)
        ensures
            r@ == after_execution(self@, outcome, snapshot@),
    {
        match outcome {
            Ok(m) => Verdict::Answer(
                NlAnswer {
                    sql_used: self.sql_used,
                    columns: m.columns,
                    row_count: m.row_count,
                    execution_time_ms: m.execution_time_ms,
                },
            ),
            Err(message) => {
                if self.fallback {
                    match self.first_error {
                        Some(e) => Verdict::Fail(e),
                        None => Verdict::Fail(NlError::Execution(message)),
                    }
                } else {
                    match fallback_statement(snapshot, self.subject.as_str()) {
                        Some(f) => Verdict::Retry(
                            execution(self.subject, f, true, Some(NlError::Execution(message))),
                        ),
                        None => Verdict::Fail(NlError::Execution(message)),
                    }
                }
            },
        }
    }
}

impl Verdict {
    /// The stage of the request after the engine's report.
    pub fn stage(&self) -> (r: NlStage)
        ensures
            r == (match self@ {
                VerdictView::Answer(_) => NlStage::Succeeded,
                VerdictView::Retry(_) => NlStage::FallbackAttempted,
                VerdictView::Fail(_) => NlStage::Failed,
            }),
    {
        match self {
            Verdict::Answer(_) => NlStage::Succeeded,
            Verdict::Retry(_) => NlStage::FallbackAttempted,
            Verdict::Fail(_) => NlStage::Failed,
        }
    }
}

/// The fallback is attempted at most once: what is to be retried is marked
/// as the fallback, and the failure of a fallback is never followed by
/// another statement.
pub proof fn lemma_one_fallback(
    p: ExecutionView,
    outcome: Result<QueryMetadata, String>,
    snapshot: SnapshotView,
)
    ensures
        after_execution(p, outcome, snapshot) matches VerdictView::Retry(q) ==> q.fallback
            && !p.fallback && outcome is Err,
        p.fallback ==> !(after_execution(p, outcome, snapshot) is Retry),
{
}

/// Where the fallback fails too, the first error is the one that is
/// reported: that of the statement that failed, or that of the extraction
/// that found nothing.
pub proof fn lemma_first_error_surfaces(
    p: ExecutionView,
    first: NlErrorView,
    message: String,
    snapshot: SnapshotView,
)
    requires
        p.fallback,
        p.first_error == Some(first),
    ensures
        after_execution(p, Err(message), snapshot) == VerdictView::Fail(first),
{
}

/// No failure of the model is followed by a statement: the request ends with
/// the model's error.
pub proof fn lemma_generation_error_ends(
    subject: Seq<char>,
    e: LlmErrorView,
    snapshot: SnapshotView,
)
    ensures
        after_generation(subject, Err(e), snapshot) == Err::<ExecutionView, NlErrorView>(
            NlErrorView::Generation(e),
        ),
{
}

} // verus!
