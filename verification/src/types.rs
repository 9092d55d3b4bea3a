//! Value types exchanged with the query service.

use vstd::prelude::*;
use vstd::string::*;
use crate::text::{decimal, decimal_string};

verus! {

/// `serde_json::Value`: a parsed JSON document. Nothing is known of what a
/// value holds; rows of this type are carried through unread.
#[verifier::external_type_specification]
#[verifier::external_body]
pub struct ExJsonValue(serde_json::Value);

/// Where a remote execution stands. The service alone moves an execution
/// from one state to another; a client only observes.
#[derive(Clone, Copy, Debug, PartialEq, Eq, Structural)]
pub enum ExecutionState {
    Pending,
    Executing,
    Completed,
    Failed,
    Cancelled,
}

impl ExecutionState {
    /// A terminal state is never left again: completed, failed or cancelled.
    pub open spec fn spec_is_terminal(self) -> bool {
        self == ExecutionState::Completed || self == ExecutionState::Failed || self
            == ExecutionState::Cancelled
    }

    /// Whether the execution has come to rest.
    #[verifier::when_used_as_spec(spec_is_terminal)]
    pub fn is_terminal(self) -> (r: bool)
        ensures
            r == self.spec_is_terminal(),
    {
        match self {
            ExecutionState::Pending => false,
            ExecutionState::Executing => false,
            ExecutionState::Completed => true,
            ExecutionState::Failed => true,
            ExecutionState::Cancelled => true,
        }
    }
}

/// The machine size a query asks to run on.
#[derive(Clone, Copy, Debug, PartialEq, Eq, Structural)]
pub enum Performance {
    Medium,
    Large,
}

/// A named parameter of a query.
#[derive(Clone, Debug, PartialEq, Eq)]
pub struct QueryParameter {
    pub name: String,
    pub value: String,
}

/// What is sent to run SQL text.
#[derive(Clone, Debug, PartialEq, Eq)]
pub struct ExecuteSqlRequest {
    pub sql: String,
    pub parameters: Option<Vec<QueryParameter>>,
    pub performance: Option<Performance>,
}

impl ExecuteSqlRequest {
    /// A request to run `sql` with the service's defaults.
    pub fn new(sql: String) -> (r: ExecuteSqlRequest)
        ensures
            r.sql == sql,
            r.parameters.is_none(),
            r.performance.is_none(),
    {
        ExecuteSqlRequest { sql, parameters: None, performance: None }
    }
}

impl Default for ExecuteSqlRequest {
    fn default() -> (r: ExecuteSqlRequest)
        ensures
            r.sql@.len() == 0,
            r.parameters.is_none(),
            r.performance.is_none(),
    {
        ExecuteSqlRequest { sql: String::new(), parameters: None, performance: None }
    }
}

/// What is sent to run a saved query or a pipeline.
#[derive(Clone, Debug, PartialEq, Eq)]
pub struct ExecuteQueryRequest {
    pub parameters: Option<Vec<QueryParameter>>,
    pub performance: Option<Performance>,
}

impl Default for ExecuteQueryRequest {
    fn default() -> (r: ExecuteQueryRequest)
        ensures
            r.parameters.is_none(),
            r.performance.is_none(),
    {
        ExecuteQueryRequest { parameters: None, performance: None }
    }
}

/// The handle that the service gives to a new execution.
#[derive(Clone, Debug, PartialEq, Eq)]
pub struct ExecuteResponse {
    pub execution_id: String,
}

/// The handles of a pipeline: the root execution and those it depends on.
#[derive(Clone, Debug, PartialEq, Eq)]
pub struct PipelineExecuteResponse {
    pub execution_id: String,
    pub child_execution_ids: Option<Vec<String>>,
}

/// One observation of an execution.
#[derive(Clone, Debug, PartialEq, Eq)]
pub struct ExecutionStatusResponse {
    pub execution_id: String,
    pub state: ExecutionState,
    pub submitted_at: Option<String>,
    pub started_at: Option<String>,
    pub ended_at: Option<String>,
}

/// What is known about a result's rows as a whole.
#[derive(Clone, Debug, PartialEq, Eq)]
pub struct ResultMetadata {
    pub column_names: Vec<String>,
    pub row_count: Option<u64>,
}

/// The rows of a finished execution, in the order the service gave them.
#[derive(Clone, Debug, PartialEq)]
pub struct ResultSet {
    pub rows: Vec<serde_json::Value>,
    pub metadata: ResultMetadata,
}

/// The answer to a request for results.
#[derive(Clone, Debug, PartialEq)]
pub struct ExecutionResultsResponse {
    pub state: ExecutionState,
    pub result: Option<ResultSet>,
}

/// The answer to a request to cancel.
#[derive(Clone, Copy, Debug, PartialEq, Eq)]
pub struct CancelExecutionResponse {
    pub success: bool,
}

/// Which part of a result is wanted. An absent option leaves the choice to
/// the service.
#[derive(Clone, Debug, PartialEq, Eq)]
pub struct ResultOptions {
    pub limit: Option<u64>,
    pub offset: Option<u64>,
    pub sort_by: Option<String>,
}

/// The views of a list of name and value pairs.
pub open spec fn pairs_view(pairs: Seq<(String, String)>) -> Seq<(Seq<char>, Seq<char>)> {
    Seq::new(pairs.len(), |i: int| (pairs[i].0@, pairs[i].1@))
}

/// The one pair of a numeric option, or nothing where it is absent.
pub open spec fn number_param(name: Seq<char>, value: Option<u64>) -> Seq<(Seq<char>, Seq<char>)> {
    match value {
        Some(n) => seq![(name, decimal(n as nat))],
        None => Seq::empty(),
    }
}

/// The one pair of a text option, or nothing where it is absent.
pub open spec fn text_param(name: Seq<char>, value: Option<String>) -> Seq<(Seq<char>, Seq<char>)> {
    match value {
        Some(s) => seq![(name, s@)],
        None => Seq::empty(),
    }
}

impl ResultOptions {
    /// The query parameters that carry these options: one pair for each
    /// option that is present, in the order limit, offset, sort.
    pub open spec fn spec_query_params(self) -> Seq<(Seq<char>, Seq<char>)> {
        number_param("limit"@, self.limit) + number_param("offset"@, self.offset) + text_param(
            "sortBy"@,
            self.sort_by,
        )
    }

    /// How many options are present.
    pub open spec fn present(self) -> nat {
        (if self.limit.is_some() { 1nat } else { 0 })
        + (if self.offset.is_some() { 1nat } else { 0 })
        + (if self.sort_by.is_some() { 1nat } else { 0 })
    }

    /// The options as query parameters.
    pub fn to_query_params(&self) -> (r: Vec<(String, String)>)
        ensures
            pairs_view(r@) == self.spec_query_params(),
    {
        let mut out: Vec<(String, String)> = Vec::new();
        assert(pairs_view(out@) =~= Seq::empty());
        if let Some(n) = self.limit {
            out.push((String::from_str("limit"), decimal_string(n)));
        }
        assert(pairs_view(out@) =~= number_param("limit"@, self.limit));
        if let Some(n) = self.offset {
            out.push((String::from_str("offset"), decimal_string(n)));
        }
        assert(pairs_view(out@) =~= number_param("limit"@, self.limit) + number_param(
            "offset"@,
            self.offset,
        ));
        if let Some(s) = &self.sort_by {
            out.push((String::from_str("sortBy"), s.clone()));
        }
        assert(pairs_view(out@) =~= self.spec_query_params());
        out
    }
}

impl Default for ResultOptions {
    fn default() -> (r: ResultOptions)
        ensures
            r.limit.is_none(),
            r.offset.is_none(),
            r.sort_by.is_none(),
    {
        ResultOptions { limit: None, offset: None, sort_by: None }
    }
}

/// The parameters hold one pair for each option that is present and no
/// other: their number is the number of present options, and each present
/// option is found among them under its name with its value.
pub proof fn lemma_query_params_exact(options: ResultOptions)
    ensures
        options.spec_query_params().len() == options.present(),
        options.limit matches Some(n) ==> options.spec_query_params().contains(
            ("limit"@, decimal(n as nat)),
        ),
        options.offset matches Some(n) ==> options.spec_query_params().contains(
            ("offset"@, decimal(n as nat)),
        ),
        options.sort_by matches Some(s) ==> options.spec_query_params().contains(("sortBy"@, s@)),
        options.present() == 0 ==> options.spec_query_params() =~= Seq::empty(),
{
    let a = number_param("limit"@, options.limit);
    let b = number_param("offset"@, options.offset);
    let c = text_param("sortBy"@, options.sort_by);
    let all = options.spec_query_params();
    assert(all =~= a + b + c);
    if let Some(n) = options.limit {
        assert(all[0] == ("limit"@, decimal(n as nat)));
    }
    if let Some(n) = options.offset {
        assert(all[a.len() as int] == ("offset"@, decimal(n as nat)));
    }
    if let Some(s) = options.sort_by {
        assert(all[(a.len() + b.len()) as int] == ("sortBy"@, s@));
    }
}

} // verus!
