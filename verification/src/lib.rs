//! Client-side logic for a remote analytics query service.
//!
//! The crate plans requests, interprets responses and decides each step of
//! the submit-and-wait lifecycle. It performs no network or clock access
//! itself: a caller sends the planned requests and reports back what it saw.

pub mod client;
pub mod error;
pub mod http;
pub mod json;
pub mod span;
pub mod text;
pub mod trace;
pub mod types;
pub mod wait;

pub use client::DuneClient;
pub use error::DuneError;
pub use http::{ApiRequest, HttpMethod, HttpStatus, RequestBody};
pub use span::TimeSpan;
pub use types::{
    CancelExecutionResponse, ExecuteQueryRequest, ExecuteResponse, ExecuteSqlRequest,
    ExecutionResultsResponse, ExecutionState, ExecutionStatusResponse, Performance,
    PipelineExecuteResponse, QueryParameter, ResultMetadata, ResultOptions, ResultSet,
};
pub use wait::{Submission, WaitAction, WaitEvent, WaitMachine, WaitPhase};
