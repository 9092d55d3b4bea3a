//! The client: a checked credential and a base address, the requests of
//! each operation, and the reading of each answer.

use vstd::prelude::*;
use vstd::string::*;
use crate::error::DuneError;
use crate::http::{header_value_accepts, is_header_text, ApiRequest, HttpMethod, HttpStatus, RequestBody, status_display};
use crate::json::{error_message_of, extract_error_message};
use crate::span::TimeSpan;
use crate::text::{decimal, decimal_string};
use crate::types::{pairs_view, ExecuteQueryRequest, ExecuteSqlRequest, ResultOptions};
use crate::wait::{Submission, WaitAction, WaitMachine, WaitPhase};

verus! {

/// Where the service lives unless a client is told otherwise.
pub const BASE_URL: &'static str = "https://api.dune.com/api";

/// The name of the header that carries the credential.
pub const API_KEY_HEADER: &'static str = "X-Dune-Api-Key";

/// The seconds after which a single request is given up.
pub const DEFAULT_TIMEOUT_SECS: u64 = 30;

/// A credential that can be sent: not empty, and acceptable as a header
/// value.
pub open spec fn is_valid_api_key(key: Seq<char>) -> bool {
    key.len() > 0 && is_header_text(key)
}

/// The address of an operation on one execution.
pub open spec fn execution_url(base: Seq<char>, execution_id: Seq<char>, tail: Seq<char>) -> Seq<
    char,
> {
    base + "/v1/execution/"@ + execution_id + tail
}

/// The address of an operation on one saved query.
pub open spec fn query_url(base: Seq<char>, query_id: u64, tail: Seq<char>) -> Seq<char> {
    base + "/v1/query/"@ + decimal(query_id as nat) + tail
}

/// The message of a rejected request: the service's own words where it gave
/// any, else the status line and the body as they came.
pub open spec fn rejection_text(
    status_line: Seq<char>,
    body: Seq<char>,
    extracted: Option<Seq<char>>,
) -> Seq<char> {
    match extracted {
        Some(message) => message,
        None => "HTTP "@ + status_line + ": "@ + body,
    }
}

/// The message with which any endpoint rejects an answer of this status and
/// body: the body's `error` member where the body is JSON and has one as a
/// string, else the status line and the body as they came.
pub open spec fn rejection_of(status: HttpStatus, body: Seq<char>) -> Seq<char> {
    rejection_text(status_display(status.spec_code()), body, error_message_of(body))
}

/// Builds the message of a rejected request from the status line, the body
/// and the message found in the body, if one was found.
pub fn rejection_message(status_line: &str, body: &str, extracted: Option<String>) -> (r: String)
    ensures
        r@ == rejection_text(
            status_line@,
            body@,
            match extracted {
                Some(m) => Some(m@),
                None => None,
            },
        ),
{
    match extracted {
        Some(message) => message,
        None => {
            let mut out = String::from_str("HTTP ");
            out.append(status_line);
            out.append(": ");
            out.append(body);
            out
        },
    }
}

/// A client of the query service.
#[derive(Debug, PartialEq, Eq)]
pub struct DuneClient {
    api_key: String,
    base_url: String,
}

impl Clone for DuneClient {
    fn clone(&self) -> (r: DuneClient)
        ensures
            r == *self,
    {
        proof {
            use_type_invariant(self);
        }
        DuneClient { api_key: self.api_key.clone(), base_url: self.base_url.clone() }
    }
}

impl DuneClient {
    #[verifier::type_invariant]
    spec fn well_formed(self) -> bool {
        is_valid_api_key(self.api_key@)
    }

    /// The credential that every request carries.
    pub closed spec fn spec_api_key(self) -> Seq<char> {
        self.api_key@
    }

    /// The address that every path is appended to.
    pub closed spec fn spec_base_url(self) -> Seq<char> {
        self.base_url@
    }

    /// A client of the service at its usual address. Fails only for a
    /// credential that cannot be sent.
    pub fn new(api_key: &str) -> (r: Result<DuneClient, DuneError>)
        ensures
            r.is_ok() == is_valid_api_key(api_key@),
            r matches Ok(client) ==> client.spec_api_key() == api_key@ && client.spec_base_url()
                == BASE_URL@,
            r matches Err(e) ==> e == DuneError::InvalidApiKey,
    {
        Self::with_base_url(api_key, BASE_URL)
    }

    /// A client of the service at `base_url`. Fails only for a credential
    /// that cannot be sent.
    pub fn with_base_url(api_key: &str, base_url: &str) -> (r: Result<DuneClient, DuneError>)
        ensures
            r.is_ok() == is_valid_api_key(api_key@),
            r matches Ok(client) ==> client.spec_api_key() == api_key@ && client.spec_base_url()
                == base_url@,
            r matches Err(e) ==> e == DuneError::InvalidApiKey,
    {
        if api_key.is_empty() {
            return Err(DuneError::InvalidApiKey);
        }
        if !header_value_accepts(api_key) {
            return Err(DuneError::InvalidApiKey);
        }
        Ok(DuneClient { api_key: String::from_str(api_key), base_url: String::from_str(base_url) })
    }

    /// The credential that every request carries.
    pub fn api_key(&self) -> (r: &str)
        ensures
            r@ == self.spec_api_key(),
            is_valid_api_key(r@),
    {
        proof {
            use_type_invariant(self);
        }
        self.api_key.as_str()
    }

    /// The address that every path is appended to.
    pub fn base_url(&self) -> (r: &str)
        ensures
            r@ == self.spec_base_url(),
    {
        self.base_url.as_str()
    }

    fn execution_endpoint(&self, execution_id: &str, tail: &str) -> (r: String)
        ensures
            r@ == execution_url(self.spec_base_url(), execution_id@, tail@),
    {
        let mut url = self.base_url.clone();
        url.append("/v1/execution/");
        url.append(execution_id);
        url.append(tail);
        url
    }

    fn query_endpoint(&self, query_id: u64, tail: &str) -> (r: String)
        ensures
            r@ == query_url(self.spec_base_url(), query_id, tail@),
    {
        let mut url = self.base_url.clone();
        url.append("/v1/query/");
        let id = decimal_string(query_id);
        url.append(id.as_str());
        url.append(tail);
        url
    }

    /// The request that submits SQL text with the service's defaults.
    pub fn execute_sql(&self, sql: &str) -> (r: ApiRequest)
        ensures
            r.method == HttpMethod::Post,
            r.url@ == self.spec_base_url() + "/v1/sql/execute"@,
            r.query@.len() == 0,
            r.body matches RequestBody::Sql(request) && request.sql@ == sql@
                && request.parameters.is_none() && request.performance.is_none(),
    {
        self.execute_sql_with_options(ExecuteSqlRequest::new(String::from_str(sql)))
    }

    /// The request that submits SQL text as `request` describes it.
    pub fn execute_sql_with_options(&self, request: ExecuteSqlRequest) -> (r: ApiRequest)
        ensures
            r.method == HttpMethod::Post,
            r.url@ == self.spec_base_url() + "/v1/sql/execute"@,
            r.query@.len() == 0,
            r.body == RequestBody::Sql(request),
    {
        let mut url = self.base_url.clone();
        url.append("/v1/sql/execute");
        ApiRequest { method: HttpMethod::Post, url, query: Vec::new(), body: RequestBody::Sql(request) }
    }

    /// The request that runs a saved query with the service's defaults.
    pub fn execute_query(&self, query_id: u64) -> (r: ApiRequest)
        ensures
            r.method == HttpMethod::Post,
            r.url@ == query_url(self.spec_base_url(), query_id, "/execute"@),
            r.query@.len() == 0,
            r.body matches RequestBody::Query(request) && request.parameters.is_none()
                && request.performance.is_none(),
    {
        self.execute_query_with_options(
            query_id,
            ExecuteQueryRequest { parameters: None, performance: None },
        )
    }

    /// The request that runs a saved query as `request` describes it.
    pub fn execute_query_with_options(&self, query_id: u64, request: ExecuteQueryRequest) -> (r:
        ApiRequest)
        ensures
            r.method == HttpMethod::Post,
            r.url@ == query_url(self.spec_base_url(), query_id, "/execute"@),
            r.query@.len() == 0,
            r.body == RequestBody::Query(request),
    {
        let url = self.query_endpoint(query_id, "/execute");
        ApiRequest {
            method: HttpMethod::Post,
            url,
            query: Vec::new(),
            body: RequestBody::Query(request),
        }
    }

    /// The request that runs a saved query together with the queries it
    /// depends on, with the service's defaults.
    pub fn execute_pipeline(&self, query_id: u64) -> (r: ApiRequest)
        ensures
            r.method == HttpMethod::Post,
            r.url@ == query_url(self.spec_base_url(), query_id, "/pipeline/execute"@),
            r.query@.len() == 0,
            r.body matches RequestBody::Query(request) && request.parameters.is_none()
                && request.performance.is_none(),
    {
        self.execute_pipeline_with_options(
            query_id,
            ExecuteQueryRequest { parameters: None, performance: None },
        )
    }

    /// The request that runs a pipeline as `request` describes it.
    pub fn execute_pipeline_with_options(
        &self,
        query_id: u64,
        request: ExecuteQueryRequest,
    ) -> (r: ApiRequest)
        ensures
            r.method == HttpMethod::Post,
            r.url@ == query_url(self.spec_base_url(), query_id, "/pipeline/execute"@),
            r.query@.len() == 0,
            r.body == RequestBody::Query(request),
    {
        let url = self.query_endpoint(query_id, "/pipeline/execute");
        ApiRequest {
            method: HttpMethod::Post,
            url,
            query: Vec::new(),
            body: RequestBody::Query(request),
        }
    }

    /// The request that asks where an execution stands.
    pub fn get_execution_status(&self, execution_id: &str) -> (r: ApiRequest)
        ensures
            r.method == HttpMethod::Get,
            r.url@ == execution_url(self.spec_base_url(), execution_id@, "/status"@),
            r.query@.len() == 0,
            r.body == RequestBody::Empty,
    {
        let url = self.execution_endpoint(execution_id, "/status");
        ApiRequest { method: HttpMethod::Get, url, query: Vec::new(), body: RequestBody::Empty }
    }

    /// The request that fetches an execution's rows, all options left to
    /// the service.
    pub fn get_execution_results(&self, execution_id: &str) -> (r: ApiRequest)
        ensures
            r.method == HttpMethod::Get,
            r.url@ == execution_url(self.spec_base_url(), execution_id@, "/results"@),
            r.query@.len() == 0,
            r.body == RequestBody::Empty,
    {
        let r = self.get_execution_results_with_options(
            execution_id,
            ResultOptions { limit: None, offset: None, sort_by: None },
        );
        assert(pairs_view(r.query@).len() == 0);
        r
    }

    /// The request that fetches an execution's rows.
    pub fn get_execution_results_with_options(
        &self,
        execution_id: &str,
        options: ResultOptions,
    ) -> (r: ApiRequest)
        ensures
            r.method == HttpMethod::Get,
            r.url@ == execution_url(self.spec_base_url(), execution_id@, "/results"@),
            pairs_view(r.query@) == options.spec_query_params(),
            r.body == RequestBody::Empty,
    {
        let url = self.execution_endpoint(execution_id, "/results");
        let query = options.to_query_params();
        ApiRequest { method: HttpMethod::Get, url, query, body: RequestBody::Empty }
    }

    /// The request that fetches an execution's rows as CSV text, all
    /// options left to the service.
    pub fn get_execution_results_csv(&self, execution_id: &str) -> (r: ApiRequest)
        ensures
            r.method == HttpMethod::Get,
            r.url@ == execution_url(self.spec_base_url(), execution_id@, "/results/csv"@),
            r.query@.len() == 0,
            r.body == RequestBody::Empty,
    {
        let r = self.get_execution_results_csv_with_options(
            execution_id,
            ResultOptions { limit: None, offset: None, sort_by: None },
        );
        assert(pairs_view(r.query@).len() == 0);
        r
    }

    /// The request that fetches an execution's rows as CSV text.
    pub fn get_execution_results_csv_with_options(
        &self,
        execution_id: &str,
        options: ResultOptions,
    ) -> (r: ApiRequest)
        ensures
            r.method == HttpMethod::Get,
            r.url@ == execution_url(self.spec_base_url(), execution_id@, "/results/csv"@),
            pairs_view(r.query@) == options.spec_query_params(),
            r.body == RequestBody::Empty,
    {
        let url = self.execution_endpoint(execution_id, "/results/csv");
        let query = options.to_query_params();
        ApiRequest { method: HttpMethod::Get, url, query, body: RequestBody::Empty }
    }

    /// The request that fetches the latest rows of a saved query, all
    /// options left to the service.
    pub fn get_latest_results(&self, query_id: u64) -> (r: ApiRequest)
        ensures
            r.method == HttpMethod::Get,
            r.url@ == query_url(self.spec_base_url(), query_id, "/results"@),
            r.query@.len() == 0,
            r.body == RequestBody::Empty,
    {
        let r = self.get_latest_results_with_options(
            query_id,
            ResultOptions { limit: None, offset: None, sort_by: None },
        );
        assert(pairs_view(r.query@).len() == 0);
        r
    }

    /// The request that fetches the latest rows of a saved query.
    pub fn get_latest_results_with_options(&self, query_id: u64, options: ResultOptions) -> (r:
        ApiRequest)
        ensures
            r.method == HttpMethod::Get,
            r.url@ == query_url(self.spec_base_url(), query_id, "/results"@),
            pairs_view(r.query@) == options.spec_query_params(),
            r.body == RequestBody::Empty,
    {
        let url = self.query_endpoint(query_id, "/results");
        let query = options.to_query_params();
        ApiRequest { method: HttpMethod::Get, url, query, body: RequestBody::Empty }
    }

    /// The request that fetches the latest rows of a saved query as CSV
    /// text, all options left to the service.
    pub fn get_latest_results_csv(&self, query_id: u64) -> (r: ApiRequest)
        ensures
            r.method == HttpMethod::Get,
            r.url@ == query_url(self.spec_base_url(), query_id, "/results/csv"@),
            r.query@.len() == 0,
            r.body == RequestBody::Empty,
    {
        let r = self.get_latest_results_csv_with_options(
            query_id,
            ResultOptions { limit: None, offset: None, sort_by: None },
        );
        assert(pairs_view(r.query@).len() == 0);
        r
    }

    /// The request that fetches the latest rows of a saved query as CSV
    /// text.
    pub fn get_latest_results_csv_with_options(
        &self,
        query_id: u64,
        options: ResultOptions,
    ) -> (r: ApiRequest)
        ensures
            r.method == HttpMethod::Get,
            r.url@ == query_url(self.spec_base_url(), query_id, "/results/csv"@),
            pairs_view(r.query@) == options.spec_query_params(),
            r.body == RequestBody::Empty,
    {
        let url = self.query_endpoint(query_id, "/results/csv");
        let query = options.to_query_params();
        ApiRequest { method: HttpMethod::Get, url, query, body: RequestBody::Empty }
    }

    /// The request that asks the service to cancel an execution.
    pub fn cancel_execution(&self, execution_id: &str) -> (r: ApiRequest)
        ensures
            r.method == HttpMethod::Post,
            r.url@ == execution_url(self.spec_base_url(), execution_id@, "/cancel"@),
            r.query@.len() == 0,
            r.body == RequestBody::Empty,
    {
        let url = self.execution_endpoint(execution_id, "/cancel");
        ApiRequest { method: HttpMethod::Post, url, query: Vec::new(), body: RequestBody::Empty }
    }

    /// Begins a run of SQL text: the first thing to do is to submit it.
    pub fn run_sql(&self, sql: &str, timeout: TimeSpan) -> (r: (WaitMachine, WaitAction))
        ensures
            r.0.phase == WaitPhase::Submitting,
            r.0.execution_id@.len() == 0,
            r.0.timeout == timeout,
            r.1 matches WaitAction::Submit(Submission::Sql(text)) && text@ == sql@,
    {
        (
            WaitMachine { phase: WaitPhase::Submitting, execution_id: String::new(), timeout },
            WaitAction::Submit(Submission::Sql(String::from_str(sql))),
        )
    }

    /// Begins a run of a saved query: the first thing to do is to submit it.
    pub fn run_query(&self, query_id: u64, timeout: TimeSpan) -> (r: (WaitMachine, WaitAction))
        ensures
            r.0.phase == WaitPhase::Submitting,
            r.0.execution_id@.len() == 0,
            r.0.timeout == timeout,
            r.1 == WaitAction::Submit(Submission::Query(query_id)),
    {
        (
            WaitMachine { phase: WaitPhase::Submitting, execution_id: String::new(), timeout },
            WaitAction::Submit(Submission::Query(query_id)),
        )
    }

    /// Begins the wait for an execution that was submitted before: the
    /// first thing to do is to start the clock.
    pub fn wait_for_results(&self, execution_id: &str, timeout: TimeSpan) -> (r: (
        WaitMachine,
        WaitAction,
    ))
        ensures
            r.0.phase == WaitPhase::StartingClock,
            r.0.execution_id@ == execution_id@,
            r.0.timeout == timeout,
            r.1 == WaitAction::StartClock,
    {
        (
            WaitMachine {
                phase: WaitPhase::StartingClock,
                execution_id: String::from_str(execution_id),
                timeout,
            },
            WaitAction::StartClock,
        )
    }

    /// The error for an answer outside the success range. Its message is
    /// the body's `error` member where the body is JSON and has one, else
    /// the status line and the body as they came. Every endpoint rejects
    /// in this one way.
    fn rejection(status: HttpStatus, body: &str) -> (r: DuneError)
        ensures
            r matches DuneError::Api { message } && message@ == rejection_of(status, body@),
    {
        let extracted = extract_error_message(body);
        let line = status.display();
        let message = rejection_message(line.as_str(), body, extracted);
        DuneError::Api { message }
    }

    /// Reads the answer to a request whose body is JSON. A success hands
    /// the body back untouched, to be decoded; anything else is a rejection
    /// whose message is the body's `error` member where the body is JSON
    /// and has one, else the status line and the body.
    pub fn handle_response(&self, status: HttpStatus, body: String) -> (r: Result<String, DuneError>)
        ensures
            status.spec_is_success() ==> r == Ok::<String, DuneError>(body),
            !status.spec_is_success() ==> (r matches Err(DuneError::Api { message }) && message@
                == rejection_of(status, body@)),
    {
        if status.is_success() {
            Ok(body)
        } else {
            Err(Self::rejection(status, body.as_str()))
        }
    }

    /// Reads the answer to a request whose body is plain text. A success
    /// hands the body back untouched, whatever it holds; anything else is a
    /// rejection with the same message as on every other endpoint: the
    /// body's `error` member where the body is JSON and has one, else the
    /// status line and the body.
    pub fn handle_text_response(&self, status: HttpStatus, body: String) -> (r: Result<
        String,
        DuneError,
    >)
        ensures
            status.spec_is_success() ==> r == Ok::<String, DuneError>(body),
            !status.spec_is_success() ==> (r matches Err(DuneError::Api { message }) && message@
                == rejection_of(status, body@)),
    {
        if status.is_success() {
            Ok(body)
        } else {
            Err(Self::rejection(status, body.as_str()))
        }
    }
}

} // verus!
