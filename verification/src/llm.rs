//! The language model side: which backend answers, what it is asked, and
//! what is made of its answer.

use vstd::prelude::*;
use vstd::string::StringExecFns;
use crate::config::LlmConfig;
use crate::extract::{
    extract_sql, extracted_sql, find_tagged_block, is_degenerate, tagged_block, test_degenerate,
};
use crate::text::{chars_of, copy_str, same_str, string_of};

verus! {

/// Why no SQL came back from the language model.
#[derive(Debug)]
pub enum LlmError {
    /// The backend could not be reached.
    ConnectionError(String),
    /// The backend answered, but not with something usable.
    ResponseError(String),
    /// The configuration names no usable backend.
    ConfigError(String),
}

/// The mathematical value of an [`LlmError`].
pub enum LlmErrorView {
    ConnectionError(Seq<char>),
    ResponseError(Seq<char>),
    ConfigError(Seq<char>),
}

impl View for LlmError {
    type V = LlmErrorView;

    open spec fn view(&self) -> LlmErrorView {
        match self {
            LlmError::ConnectionError(m) => LlmErrorView::ConnectionError(m@),
            LlmError::ResponseError(m) => LlmErrorView::ResponseError(m@),
            LlmError::ConfigError(m) => LlmErrorView::ConfigError(m@),
        }
    }
}

/// The text that describes an error.
pub open spec fn llm_error_message(e: LlmErrorView) -> Seq<char> {
    match e {
        LlmErrorView::ConnectionError(m) => "LLM connection error: "@ + m,
        LlmErrorView::ResponseError(m) => "LLM response error: "@ + m,
        LlmErrorView::ConfigError(m) => "LLM configuration error: "@ + m,
    }
}

impl LlmError {
    /// The text that describes this error.
    pub fn message(&self) -> (r: String)
        ensures
            r@ == llm_error_message(self@),
    {
        let mut r = String::new();
        match self {
            LlmError::ConnectionError(m) => {
                r.append("LLM connection error: ");
                r.append(m.as_str());
            },
            LlmError::ResponseError(m) => {
                r.append("LLM response error: ");
                r.append(m.as_str());
            },
            LlmError::ConfigError(m) => {
                r.append("LLM configuration error: ");
                r.append(m.as_str());
            },
        }
        assert(r@ =~= llm_error_message(self@));
        r
    }

    /// A copy of this error.
    pub fn duplicate(&self) -> (r: Self)
        ensures
            r@ == self@,
    {
        match self {
            LlmError::ConnectionError(m) => LlmError::ConnectionError(m.clone()),
            LlmError::ResponseError(m) => LlmError::ResponseError(m.clone()),
            LlmError::ConfigError(m) => LlmError::ConfigError(m.clone()),
        }
    }
}

/// Turns a question and a schema description into SQL. This is the one
/// capability asked of a language model backend.
pub trait SqlGenerator {
    fn generate_sql(&self, question: &str, schema: &str) -> Result<String, LlmError>;
}

/// What is asked of a model.
#[derive(Debug)]
pub struct SqlGenerationInput {
    pub question: String,
    pub schema: String,
}

/// What a model answered.
#[derive(Debug)]
pub struct SqlGenerationOutput {
    pub sql: String,
    pub explanation: Option<String>,
}

/// A question that was asked, with what was made of it. Times are in
/// seconds since the epoch.
#[derive(Debug)]
pub struct NlQuery {
    pub question: String,
    pub generated_sql: Option<String>,
    pub error: Option<String>,
    pub created_at: i64,
}

/// A question that was kept under a name, with its statement.
#[derive(Debug)]
pub struct SavedQuery {
    pub id: String,
    pub name: String,
    pub question: String,
    pub sql: String,
    pub created_at: i64,
    pub updated_at: i64,
}

/// One run of a statement.
#[derive(Debug)]
pub struct QueryHistoryItem {
    pub question: String,
    pub sql: String,
    pub execution_time_ms: u64,
    pub row_count: usize,
    pub timestamp: i64,
}

/// The prompt up to the first mention of the question.
pub const PROMPT_HEAD: &'static str =
    "\n### Instructions:\nYour task is to convert a question into a SQL query, given a database schema.\nAdhere to these rules:\n- **Deliberately go through the question and database schema word by word** to appropriately answer the question\n- **Use Table Aliases** to prevent ambiguity. For example, `SELECT table1.col1, table2.col1 FROM table1 JOIN table2 ON table1.id = table2.id`.\n- When creating a ratio, always cast the numerator as float\n\n### Input:\nGenerate a SQL query that answers the question `";

/// The prompt between the question and the schema.
pub const PROMPT_SCHEMA: &'static str =
    "`.\nThis query will run on a database whose schema is represented in this string:\n";

/// The prompt between the schema and the second mention of the question.
pub const PROMPT_RESPONSE: &'static str =
    "\n\n### Response:\nBased on your instructions, here is the SQL query I have generated to answer the question `";

/// The end of the prompt: the opening of the block the model is to fill.
pub const PROMPT_TAIL: &'static str = "`:\n```sql\n";

/// The prompt for a model served by Ollama, up to the first mention of the
/// question.
pub const OLLAMA_HEAD: &'static str =
    "\n### Instructions:\nYour task is to convert a question into a SQL query for DuckDB, given a database schema.\nAdhere to these rules:\n- **Be careful with column names - they are case sensitive**\n- **Use the exact spelling of column names as provided in the schema**\n- **Deliberately go through the question and database schema word by word** to appropriately answer the question\n- **Use Table Aliases** to prevent ambiguity. For example, `SELECT table1.col1, table2.col1 FROM table1 JOIN table2 ON table1.id = table2.id`.\n- When creating a ratio, always cast the numerator as float\n\n### Input:\nGenerate a SQL query that answers the question `";

/// The Ollama prompt between the question and the schema.
pub const OLLAMA_SCHEMA: &'static str =
    "`.\nThis query will run on a DuckDB database with the following tables and columns:\n\n";

/// The Ollama prompt between the schema and the second mention of the
/// question.
pub const OLLAMA_RESPONSE: &'static str =
    "\n\n### Expected SQL Format:\n- Use lowercase for SQL keywords (SELECT, FROM, WHERE, etc.)\n- Reference column names exactly as shown in the schema\n- Make sure to use double quotes around column names with spaces or special characters\n- End your query with a semicolon\n\n### Response:\nBased on your instructions, here is the SQL query I have generated to answer the question `";

/// The URL at which Ollama listens where the configuration names none.
pub const OLLAMA_DEFAULT_URL: &'static str = "http://localhost:11434/api/generate";

/// The prompt for the local and the remote backend.
pub open spec fn plain_prompt(question: Seq<char>, schema: Seq<char>) -> Seq<char> {
    PROMPT_HEAD@ + question + PROMPT_SCHEMA@ + schema + PROMPT_RESPONSE@ + question + PROMPT_TAIL@
}

/// The prompt for a model served by Ollama.
pub open spec fn ollama_prompt(question: Seq<char>, schema: Seq<char>) -> Seq<char> {
    OLLAMA_HEAD@ + question + OLLAMA_SCHEMA@ + schema + OLLAMA_RESPONSE@ + question + PROMPT_TAIL@
}

/// Builds [`plain_prompt`].
pub fn build_plain_prompt(question: &str, schema: &str) -> (r: String)
    ensures
        r@ == plain_prompt(question@, schema@),
{
    let mut r = String::new();
    r.append(PROMPT_HEAD);
    r.append(question);
    r.append(PROMPT_SCHEMA);
    r.append(schema);
    r.append(PROMPT_RESPONSE);
    r.append(question);
    r.append(PROMPT_TAIL);
    assert(r@ =~= plain_prompt(question@, schema@));
    r
}

/// Builds [`ollama_prompt`].
pub fn build_ollama_prompt(question: &str, schema: &str) -> (r: String)
    ensures
        r@ == ollama_prompt(question@, schema@),
{
    let mut r = String::new();
    r.append(OLLAMA_HEAD);
    r.append(question);
    r.append(OLLAMA_SCHEMA);
    r.append(schema);
    r.append(OLLAMA_RESPONSE);
    r.append(question);
    r.append(PROMPT_TAIL);
    assert(r@ =~= ollama_prompt(question@, schema@));
    r
}

/// A model that runs on this machine.
#[derive(Debug)]
pub struct LocalLlmProvider {
    model_path: String,
}

impl LocalLlmProvider {
    /// The path of the model.
    pub closed spec fn model_path_spec(&self) -> Seq<char> {
        self.model_path@
    }

    /// A provider for the model that the configuration names. This never
    /// fails.
    pub fn new(config: &LlmConfig) -> (r: Result<Self, LlmError>)
        ensures
            r matches Ok(p) && p.model_path_spec() == config.model@,
    {
        Ok(LocalLlmProvider { model_path: config.model.clone() })
    }

    /// The path of the model.
    pub fn model_path(&self) -> (r: &str)
        ensures
            r@ == self.model_path_spec(),
    {
        self.model_path.as_str()
    }

    /// The prompt that puts the question and the schema to the model.
    pub fn prepare_prompt(&self, question: &str, schema: &str) -> (r: String)
        ensures
            r@ == plain_prompt(question@, schema@),
    {
        build_plain_prompt(question, schema)
    }
}

impl SqlGenerator for LocalLlmProvider {
    /// No local model is built in: every question is answered by a
    /// configuration error that says so.
    fn generate_sql(&self, question: &str, schema: &str) -> (r: Result<String, LlmError>)
        ensures
            r matches Err(e) && e@ == LlmErrorView::ConfigError(
                "Local LLM provider not fully implemented"@,
            ),
    {
        Err(LlmError::ConfigError(copy_str("Local LLM provider not fully implemented")))
    }
}

/// What is needed to ask a remote model: where, with which key, and which
/// model.
#[derive(Debug)]
pub struct RemoteSettings {
    pub api_url: String,
    pub api_key: String,
    pub model: String,
}

/// What is needed to ask a model served by Ollama.
#[derive(Debug)]
pub struct OllamaSettings {
    pub api_url: String,
    pub model: String,
}

/// The backend that answers.
#[derive(Debug)]
pub enum LlmBackend {
    Remote(RemoteSettings),
    Ollama(OllamaSettings),
}

/// The mathematical value of an [`LlmBackend`].
pub enum BackendView {
    Remote { api_url: Seq<char>, api_key: Seq<char>, model: Seq<char> },
    Ollama { api_url: Seq<char>, model: Seq<char> },
}

impl View for LlmBackend {
    type V = BackendView;

    open spec fn view(&self) -> BackendView {
        match self {
            LlmBackend::Remote(s) => BackendView::Remote {
                api_url: s.api_url@,
                api_key: s.api_key@,
                model: s.model@,
            },
            LlmBackend::Ollama(s) => BackendView::Ollama { api_url: s.api_url@, model: s.model@ },
        }
    }
}

/// The backend that a configuration selects, or why it selects none.
///
/// `"remote"` needs a URL and a key, and the lack of the URL is reported
/// first. `"ollama"` takes its usual URL where none is given. Every other
/// backend name is refused.
pub open spec fn selected_backend(config: LlmConfig) -> Result<BackendView, LlmErrorView> {
    if config.backend@ == "remote"@ {
        match (config.api_url, config.api_key) {
            (None, _) => Err(
                LlmErrorView::ConfigError("API URL is required for remote LLM provider"@),
            ),
            (Some(_), None) => Err(
                LlmErrorView::ConfigError("API key is required for remote LLM provider"@),
            ),
            (Some(url), Some(key)) => Ok(
                BackendView::Remote { api_url: url@, api_key: key@, model: config.model@ },
            ),
        }
    } else if config.backend@ == "ollama"@ {
        Ok(
            BackendView::Ollama {
                api_url: match config.api_url {
                    Some(url) => url@,
                    None => OLLAMA_DEFAULT_URL@,
                },
                model: config.model@,
            },
        )
    } else {
        Err(LlmErrorView::ConfigError("Unsupported LLM backend: "@ + config.backend@))
    }
}

/// The view of a result of [`LlmManager::new`].
pub open spec fn manager_result_view(r: Result<LlmManager, LlmError>) -> Result<
    BackendView,
    LlmErrorView,
> {
    match r {
        Ok(m) => Ok(m.backend_spec()@),
        Err(e) => Err(e@),
    }
}

/// The SQL in the answer of a remote model: the inside of its tagged block,
/// or the whole answer where it holds none.
pub open spec fn remote_sql(content: Seq<char>) -> Seq<char> {
    match tagged_block(content) {
        Some(x) => x,
        None => content,
    }
}

/// What is made of the answer of a model served by Ollama: the SQL
/// extracted from it, or an error where that holds nothing to run (it is
/// empty, or white space, or nothing but `--` comments).
pub open spec fn ollama_sql(content: Seq<char>) -> Result<Seq<char>, LlmErrorView> {
    if is_degenerate(extracted_sql(content)) {
        Err(LlmErrorView::ResponseError("Failed to extract valid SQL from response"@))
    } else {
        Ok(extracted_sql(content))
    }
}

/// The view of a result that holds SQL.
pub open spec fn sql_result_view(r: Result<String, LlmError>) -> Result<
    Seq<char>,
    LlmErrorView,
> {
    match r {
        Ok(s) => Ok(s@),
        Err(e) => Err(e@),
    }
}

/// Holds the backend that the configuration selected.
#[derive(Debug)]
pub struct LlmManager {
    backend: LlmBackend,
}

impl LlmManager {
    /// The selected backend.
    pub closed spec fn backend_spec(&self) -> LlmBackend {
        self.backend
    }

    /// Selects the backend that the configuration names; see
    /// [`selected_backend`].
    pub fn new(config: &LlmConfig) -> (r: Result<Self, LlmError>)
        ensures
            manager_result_view(r) == selected_backend(*config),
    {
        if same_str(config.backend.as_str(), "remote") {
            match &config.api_url {
                None => Err(
                    LlmError::ConfigError(copy_str("API URL is required for remote LLM provider")),
                ),
                Some(url) => match &config.api_key {
                    None => Err(
                        LlmError::ConfigError(
                            copy_str("API key is required for remote LLM provider"),
                        ),
                    ),
                    Some(key) => Ok(
                        LlmManager {
                            backend: LlmBackend::Remote(
                                RemoteSettings {
                                    api_url: url.clone(),
                                    api_key: key.clone(),
                                    model: config.model.clone(),
                                },
                            ),
                        },
                    ),
                },
            }
        } else if same_str(config.backend.as_str(), "ollama") {
            let api_url = match &config.api_url {
                Some(url) => url.clone(),
                None => copy_str(OLLAMA_DEFAULT_URL),
            };
            Ok(
                LlmManager {
                    backend: LlmBackend::Ollama(
                        OllamaSettings { api_url, model: config.model.clone() },
                    ),
                },
            )
        } else {
            let mut m = copy_str("Unsupported LLM backend: ");
            m.append(config.backend.as_str());
            Err(LlmError::ConfigError(m))
        }
    }

    /// The selected backend.
    pub fn backend(&self) -> (r: &LlmBackend)
        ensures
            *r == self.backend_spec(),
    {
        &self.backend
    }

    /// The prompt that puts the question and the schema to the selected
    /// backend.
    pub fn prepare_prompt(&self, question: &str, schema: &str) -> (r: String)
        ensures
            r@ == (match self.backend_spec() {
                LlmBackend::Remote(_) => plain_prompt(question@, schema@),
                LlmBackend::Ollama(_) => ollama_prompt(question@, schema@),
            }),
    {
        match &self.backend {
            LlmBackend::Remote(_) => build_plain_prompt(question, schema),
            LlmBackend::Ollama(_) => build_ollama_prompt(question, schema),
        }
    }

    /// What is made of the text that the selected backend answered; see
    /// [`remote_sql`] and [`ollama_sql`].
    pub fn sql_from_answer(&self, content: &str) -> (r: Result<String, LlmError>)
        ensures
            sql_result_view(r) == (match self.backend_spec() {
                LlmBackend::Remote(_) => Ok::<Seq<char>, LlmErrorView>(remote_sql(content@)),
                LlmBackend::Ollama(_) => ollama_sql(content@),
            }),
    {
        match &self.backend {
            LlmBackend::Remote(_) => Ok(sql_of_remote_answer(content)),
            LlmBackend::Ollama(_) => sql_of_ollama_answer(content),
        }
    }
}

/// Computes [`remote_sql`].
pub fn sql_of_remote_answer(content: &str) -> (r: String)
    ensures
        r@ == remote_sql(content@),
{
    let s = chars_of(content);
    match find_tagged_block(s.as_slice()) {
        Some(x) => string_of(x.as_slice()),
        None => copy_str(content),
    }
}

/// Computes [`ollama_sql`].
pub fn sql_of_ollama_answer(content: &str) -> (r: Result<String, LlmError>)
    ensures
        sql_result_view(r) == ollama_sql(content@),
{
    let sql = extract_sql(content);
    if test_degenerate(sql.as_str()) {
        Err(LlmError::ResponseError(copy_str("Failed to extract valid SQL from response")))
    } else {
        Ok(sql)
    }
}

} // verus!
