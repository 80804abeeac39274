//! Layer configuration.

use vstd::prelude::*;

use crate::model::{Cloud, Process, System, User};
use crate::service::Service;

verus! {

/// Name for the trace id field, if one needs to be supplied manually.
pub const TRACE_ID_FIELD_NAME: &'static str = "trace_id";

/// An API key credential: its id and secret part.
#[derive(Debug)]
pub struct ApiKey {
    pub id: String,
    pub key: String,
}

impl ApiKey {
    /// Pair an API key id with its secret.
    pub fn new(id: String, key: String) -> (r: Self)
        ensures
            r.id == id,
            r.key == key,
    {
        ApiKey { id, key }
    }
}

/// APM authorization method.
#[derive(Debug)]
pub enum Authorization {
    SecretToken(String),
    ApiKey(ApiKey),
}

/// Everything the layer needs to know before it starts: where the
/// collector is, how to authenticate, what to say about the service,
/// and which request paths to suppress.
#[derive(Debug)]
pub struct Config {
    pub apm_address: String,
    pub authorization: Option<Authorization>,
    pub service: Option<Service>,
    pub process: Option<Process>,
    pub system: Option<System>,
    pub user: Option<User>,
    pub cloud: Option<Cloud>,
    pub allow_invalid_certs: bool,
    pub root_cert_path: Option<String>,
    pub ignore_urls: Option<String>,
}

impl Config {
    /// A configuration that only knows the collector address.
    pub fn new(apm_address: String) -> (r: Self)
        ensures
            r.apm_address == apm_address,
            r.authorization is None,
            r.service is None,
            r.process is None,
            r.system is None,
            r.user is None,
            r.cloud is None,
            r.allow_invalid_certs == false,
            r.root_cert_path is None,
            r.ignore_urls is None,
    {
        Config {
            apm_address,
            authorization: None,
            service: None,
            process: None,
            system: None,
            user: None,
            cloud: None,
            allow_invalid_certs: false,
            root_cert_path: None,
            ignore_urls: None,
        }
    }

    /// Toggle acceptance of invalid TLS certificates.
    pub fn allow_invalid_certificates(self, verify: bool) -> (r: Self)
        ensures
            r == (Config { allow_invalid_certs: verify, ..self }),
    {
        Config { allow_invalid_certs: verify, ..self }
    }

    /// Use a PEM root certificate at the given path.
    pub fn with_root_cert_path(self, cert_path: String) -> (r: Self)
        ensures
            r == (Config { root_cert_path: Some(cert_path), ..self }),
    {
        Config { root_cert_path: Some(cert_path), ..self }
    }

    /// Authenticate with the given method.
    pub fn with_authorization(self, authorization: Authorization) -> (r: Self)
        ensures
            r == (Config { authorization: Some(authorization), ..self }),
    {
        Config { authorization: Some(authorization), ..self }
    }

    /// Describe the instrumented service.
    pub fn with_service(self, service: Service) -> (r: Self)
        ensures
            r == (Config { service: Some(service), ..self }),
    {
        Config { service: Some(service), ..self }
    }

    /// Describe the process.
    pub fn with_process(self, process: Process) -> (r: Self)
        ensures
            r == (Config { process: Some(process), ..self }),
    {
        Config { process: Some(process), ..self }
    }

    /// Describe the host system.
    pub fn with_system(self, system: System) -> (r: Self)
        ensures
            r == (Config { system: Some(system), ..self }),
    {
        Config { system: Some(system), ..self }
    }

    /// Attach user information.
    pub fn with_user(self, user: User) -> (r: Self)
        ensures
            r == (Config { user: Some(user), ..self }),
    {
        Config { user: Some(user), ..self }
    }

    /// Attach cloud placement information.
    pub fn with_cloud(self, cloud: Cloud) -> (r: Self)
        ensures
            r == (Config { cloud: Some(cloud), ..self }),
    {
        Config { cloud: Some(cloud), ..self }
    }

    /// Suppress emission for request paths matching this regex.
    pub fn with_ignore_urls(self, ignore_urls: String) -> (r: Self)
        ensures
            r == (Config { ignore_urls: Some(ignore_urls), ..self }),
    {
        Config { ignore_urls: Some(ignore_urls), ..self }
    }
}

} // verus!
