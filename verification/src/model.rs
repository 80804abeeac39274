//! The APM intake data model: the record shapes shipped to the
//! collector. Durations are carried in microseconds; the wire encoder
//! divides by 1000 when it serializes.

use vstd::prelude::*;

use crate::attrs::AttrValue;

verus! {

/// Header map captured from a request or response, in order.
pub type Headers = Vec<(String, String)>;

/// Left-over (non-reserved) attributes attached to a batch as labels.
pub type Labels = Vec<(String, AttrValue)>;

/// Name and version of the programming language used.
#[derive(Debug, PartialEq)]
pub struct Language {
    pub name: String,
    pub version: Option<String>,
}

/// Name and version of the language runtime running this service.
#[derive(Debug, PartialEq)]
pub struct Runtime {
    pub name: String,
    pub version: String,
}

/// Name and version of the web framework used.
#[derive(Debug, PartialEq)]
pub struct Framework {
    pub name: Option<String>,
    pub version: Option<String>,
}

/// The agent shipping these records.
#[derive(Debug, PartialEq)]
pub struct Agent {
    pub name: String,
    pub version: String,
    pub ephemeral_id: Option<String>,
}

/// Unique meaningful name of the service node.
#[derive(Debug, PartialEq)]
pub struct ServiceNode {
    pub configured_name: Option<String>,
}

/// The instrumented service.
#[derive(Debug, PartialEq)]
pub struct Service {
    pub name: String,
    pub version: Option<String>,
    pub environment: Option<String>,
    pub language: Option<Language>,
    pub runtime: Option<Runtime>,
    pub framework: Option<Framework>,
    pub agent: Agent,
    pub node: Option<ServiceNode>,
}

/// Process information.
#[derive(Debug, PartialEq)]
pub struct Process {
    /// Process ID of the service.
    pub pid: i32,
    /// Parent process ID of the service.
    pub ppid: Option<i32>,
    pub title: Option<String>,
    /// Command line arguments used to start this process.
    pub argv: Option<Vec<String>>,
}

/// Container information.
#[derive(Debug, PartialEq)]
pub struct Container {
    /// Container ID.
    pub id: String,
}

/// Kubernetes node.
#[derive(Debug, PartialEq)]
pub struct Node {
    /// Kubernetes node name.
    pub name: Option<String>,
}

/// Kubernetes pod.
#[derive(Debug, PartialEq)]
pub struct Pod {
    /// Kubernetes pod name.
    pub name: Option<String>,
    /// Kubernetes pod uid.
    pub uid: Option<String>,
}

/// Kubernetes placement of the service.
#[derive(Debug, PartialEq)]
pub struct Kubernetes {
    /// Kubernetes namespace.
    pub namespace: Option<String>,
    pub pod: Option<Pod>,
    pub node: Option<Node>,
}

/// Host information.
#[derive(Debug, PartialEq)]
pub struct System {
    pub architecture: Option<String>,
    pub hostname: Option<String>,
    pub detected_hostname: Option<String>,
    pub configured_hostname: Option<String>,
    pub platform: Option<String>,
    pub container: Option<Container>,
    pub kubernetes: Option<Kubernetes>,
}

/// The logged-in user, if the application reports one.
#[derive(Debug, PartialEq)]
pub struct User {
    /// Identifier of the logged in user, e.g. the primary key of the user.
    pub id: Option<String>,
    /// Email of the logged in user.
    pub email: Option<String>,
    /// The username of the logged in user.
    pub username: Option<String>,
}

/// Cloud account.
#[derive(Debug, PartialEq)]
pub struct Account {
    /// Cloud account ID.
    pub id: Option<String>,
    /// Cloud account name.
    pub name: Option<String>,
}

/// Cloud machine type.
#[derive(Debug, PartialEq)]
pub struct Machine {
    /// Cloud instance/machine type.
    pub machine_type: Option<String>,
}

/// Cloud project.
#[derive(Debug, PartialEq)]
pub struct Project {
    /// Cloud project ID.
    pub id: Option<String>,
    /// Cloud project name.
    pub name: Option<String>,
}

/// Cloud instance.
#[derive(Debug, PartialEq)]
pub struct Instance {
    /// Cloud instance/machine ID.
    pub id: Option<String>,
    /// Cloud instance/machine name.
    pub name: Option<String>,
}

/// Cloud placement of the service.
#[derive(Debug, PartialEq)]
pub struct Cloud {
    pub account: Option<Account>,
    /// Cloud availability zone name. e.g. us-east-1a.
    pub availability_zone: Option<String>,
    pub instance: Option<Instance>,
    pub machine: Option<Machine>,
    pub project: Option<Project>,
    /// Cloud provider name. e.g. aws, azure, gcp, digitalocean.
    pub provider: String,
    /// Cloud region name. e.g. us-east-1.
    pub region: Option<String>,
}

/// The per-process descriptor sent with every batch.
#[derive(Debug, PartialEq)]
pub struct Metadata {
    pub service: Service,
    pub process: Option<Process>,
    pub system: Option<System>,
    pub user: Option<User>,
    pub cloud: Option<Cloud>,
    pub labels: Option<Labels>,
}

/// Span counts of a transaction.
#[derive(Debug, PartialEq)]
pub struct SpanCount {
    pub started: i32,
    pub dropped: Option<i32>,
}

/// Response half of an HTTP exchange.
#[derive(Debug, PartialEq)]
pub struct Response {
    pub status_code: Option<i64>,
    pub headers: Option<Headers>,
}

/// Low-level socket information of a request.
#[derive(Debug, PartialEq)]
pub struct Socket {
    pub encrypted: Option<bool>,
    pub remote_address: Option<String>,
}

/// Destructured request URL.
#[derive(Debug, PartialEq)]
pub struct Url {
    pub raw: Option<String>,
    pub protocol: Option<String>,
    pub full: Option<String>,
    pub hostname: Option<String>,
    pub port: Option<i64>,
    pub pathname: Option<String>,
    pub search: Option<String>,
    pub hash: Option<String>,
}

/// Request half of an HTTP exchange.
#[derive(Debug, PartialEq)]
pub struct Request {
    pub body: Option<String>,
    pub headers: Option<Headers>,
    pub http_version: Option<String>,
    pub method: String,
    pub socket: Option<Socket>,
    pub url: Url,
}

/// Web page context.
#[derive(Debug, PartialEq)]
pub struct Page {
    pub referer: Option<String>,
    pub url: Option<String>,
}

/// Message queue name.
#[derive(Debug, PartialEq)]
pub struct Queue {
    pub name: Option<String>,
}

/// Message age.
#[derive(Debug, PartialEq)]
pub struct Age {
    pub ms: Option<i64>,
}

/// Messaging context of a span.
#[derive(Debug, PartialEq)]
pub struct Message {
    pub queue: Option<Queue>,
    pub age: Option<Age>,
    pub body: Option<String>,
    pub headers: Option<Headers>,
}

/// Context attached to a transaction.
#[derive(Debug, PartialEq)]
pub struct TransactionContext {
    pub response: Option<Response>,
    pub request: Option<Request>,
    pub user: Option<User>,
    pub page: Option<Page>,
    pub message: Option<Message>,
}

/// How the work a record stands for turned out.
#[derive(Clone, Copy, Debug, PartialEq, Eq, Structural)]
pub enum Outcome {
    Success,
    Failure,
    Unknown,
}

/// The outcome a closing record gets: an explicit `span.outcome` hint
/// wins, with `success` the only success spelling; otherwise a status
/// of 400 or above means failure, any other present status success,
/// and no status at all leaves the outcome unknown.
pub open spec fn outcome_of_spec(explicit: Option<Seq<char>>, status: Option<i64>) -> Outcome {
    match explicit {
        Some(o) => if o == "success"@ {
            Outcome::Success
        } else {
            Outcome::Failure
        },
        None => match status {
            Some(c) => if c >= 400 {
                Outcome::Failure
            } else {
                Outcome::Success
            },
            None => Outcome::Unknown,
        },
    }
}

/// Classify an outcome from the explicit hint and the HTTP status.
pub fn outcome_of(explicit: &Option<String>, status: &Option<i64>) -> (r: Outcome)
    ensures
        r == outcome_of_spec(
            match *explicit {
                Some(o) => Some(o@),
                None => None,
            },
            *status,
        ),
{
    match explicit {
        Some(o) => {
            if crate::strutil::str_eq(o.as_str(), "success") {
                Outcome::Success
            } else {
                Outcome::Failure
            }
        },
        None => match status {
            Some(c) => if *c >= 400 {
                Outcome::Failure
            } else {
                Outcome::Success
            },
            None => Outcome::Unknown,
        },
    }
}

/// Outcome classification: a status in the 200 to 399 range means
/// success, 400 or above means failure, and an absent status with no
/// explicit hint leaves the outcome unknown.
pub proof fn lemma_outcome_classification(status: i64)
    ensures
        200 <= status <= 399 ==> outcome_of_spec(None, Some(status)) == Outcome::Success,
        status >= 400 ==> outcome_of_spec(None, Some(status)) == Outcome::Failure,
        outcome_of_spec(None, None) == Outcome::Unknown,
{
}

/// A root span as represented in APM intake.
#[derive(Debug, PartialEq)]
pub struct Transaction {
    /// Wall-clock time at span open, Unix-epoch microseconds.
    pub timestamp: Option<u64>,
    pub name: Option<String>,
    pub transaction_type: String,
    pub subtype: Option<String>,
    pub id: String,
    pub trace_id: String,
    pub parent_id: Option<String>,
    pub span_count: SpanCount,
    pub context: Option<TransactionContext>,
    /// Accumulated entered time, microseconds.
    pub duration_us: u64,
    pub result: Option<String>,
    pub outcome: Option<Outcome>,
    pub sampled: Option<bool>,
}

/// The service a span talks to.
#[derive(Debug, PartialEq)]
pub struct DestinationService {
    pub service_type: String,
    pub name: String,
    pub resource: String,
}

/// Where a span's outbound call goes.
#[derive(Debug, PartialEq)]
pub struct Destination {
    pub address: Option<String>,
    pub port: Option<i64>,
    pub service: Option<DestinationService>,
}

/// Database access context of a span.
#[derive(Debug, PartialEq)]
pub struct Db {
    pub instance: Option<String>,
    pub link: Option<String>,
    pub statement: Option<String>,
    pub db_type: Option<String>,
    pub user: Option<String>,
    pub rows_affected: Option<i64>,
}

/// HTTP context of a span.
#[derive(Debug, PartialEq)]
pub struct Http {
    pub url: Option<String>,
    pub status_code: Option<i64>,
    pub method: Option<String>,
    pub response: Option<Response>,
}

/// Target of a downstream call.
#[derive(Debug, PartialEq)]
pub struct Target {
    pub target_type: String,
    pub name: Option<String>,
}

/// Origin service of a message.
#[derive(Debug, PartialEq)]
pub struct ServiceOrigin {
    pub id: Option<String>,
    pub name: Option<String>,
    pub version: Option<String>,
}

/// Service information attached to a span.
#[derive(Debug, PartialEq)]
pub struct SpanService {
    pub agent: Option<Agent>,
    pub environment: Option<String>,
    pub framework: Option<Framework>,
    pub id: Option<String>,
    pub language: Option<Language>,
    pub name: Option<String>,
    pub node: Option<ServiceNode>,
    pub origin: Option<ServiceOrigin>,
    pub runtime: Option<Runtime>,
    pub target: Option<Target>,
    pub version: Option<String>,
}

/// Context attached to a span.
#[derive(Debug, PartialEq)]
pub struct SpanContext {
    pub destination: Option<Destination>,
    pub db: Option<Db>,
    pub http: Option<Http>,
    pub message: Option<Message>,
}

/// A non-root span as represented in APM intake.
#[derive(Debug, PartialEq)]
pub struct Span {
    /// Wall-clock time at span open, Unix-epoch microseconds.
    pub timestamp: Option<u64>,
    pub span_type: String,
    pub subtype: Option<String>,
    pub id: String,
    pub transaction_id: Option<String>,
    pub trace_id: String,
    pub parent_id: String,
    pub child_ids: Option<Vec<String>>,
    pub action: Option<String>,
    pub outcome: Option<Outcome>,
    pub context: Option<SpanContext>,
    /// Accumulated entered time, microseconds.
    pub duration_us: u64,
    pub name: String,
    pub sync: Option<bool>,
}

/// Log details of an error record.
#[derive(Debug, PartialEq)]
pub struct Log {
    pub level: Option<String>,
    pub logger_name: Option<String>,
    pub message: String,
    pub param_message: Option<String>,
}

/// Exception details of an error record.
#[derive(Debug, PartialEq)]
pub struct Exception {
    pub code: Option<String>,
    pub message: Option<String>,
    pub module: Option<String>,
    pub exception_type: Option<String>,
    pub handled: Option<bool>,
}

/// The transaction an error belongs to.
#[derive(Debug, PartialEq)]
pub struct ErrorTransaction {
    pub sampled: Option<bool>,
    pub transaction_type: Option<String>,
}

/// An error-level event as represented in APM intake.
#[derive(Debug, PartialEq)]
pub struct Error {
    pub id: String,
    pub trace_id: Option<String>,
    pub transaction_id: Option<String>,
    pub parent_id: Option<String>,
    pub transaction: Option<ErrorTransaction>,
    pub context: Option<TransactionContext>,
    pub culprit: Option<String>,
    pub exception: Option<Exception>,
    pub log: Option<Log>,
}

} // verus!
