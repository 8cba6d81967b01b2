//! Bolt: a concurrent HTTP load generator.
//!
//! The library holds the verified core: the request and response value
//! types, the statistics accumulator with its exact latency quantiles, and
//! the run controller that decides phases, pacing and what is counted.
//! Transport, timers and terminal output live in the application around it.

pub use body::{Body, ContentType};
pub use debug::{ApiDebugResult, format_response_body};
pub use engine::{ConfigError, LoadTestConfig, LoadTestState, RunController, SampleOutcome, WorkerAction};
pub use errors::{HttpClientError, RequestOptions};
pub use headers::{Headers, default_headers};
pub use http_method::HttpMethod;
pub use perf::{
    ConnectionPoolManager, ConnectionPoolStats, MetricsSnapshot, PerformanceConfig, PerformanceMetrics,
    ReqwestClientFactory,
};
pub use request::{HttpRequest, HttpResponse, build_request};
pub use result::LoadTestResult;
pub use url::{Url, UrlError};
pub use utils::{format_duration, validate_url};

pub mod body;
pub mod debug;
pub mod engine;
pub mod errors;
pub mod headers;
pub mod http_method;
pub mod perf;
pub mod request;
pub mod result;
pub mod url;
pub mod utils;
