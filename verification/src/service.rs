//! Configuration-level description of the instrumented service.

use vstd::prelude::*;

use crate::model::{Framework, Language, Runtime, ServiceNode};

verus! {

/// The service being instrumented, as configured before the layer is
/// built; every part is optional until the metadata is assembled.
#[derive(Debug)]
pub struct Service {
    pub name: Option<String>,
    pub version: Option<String>,
    pub environment: Option<String>,
    pub language: Option<Language>,
    pub runtime: Option<Runtime>,
    pub framework: Option<Framework>,
    pub node: Option<ServiceNode>,
}

impl Service {
    /// Assemble a service description from its parts.
    pub fn new(
        name: Option<String>,
        version: Option<String>,
        environment: Option<String>,
        language: Option<Language>,
        runtime: Option<Runtime>,
        framework: Option<Framework>,
        node: Option<ServiceNode>,
    ) -> (r: Self)
        ensures
            r.name == name,
            r.version == version,
            r.environment == environment,
            r.language == language,
            r.runtime == runtime,
            r.framework == framework,
            r.node == node,
    {
        Service { name, version, environment, language, runtime, framework, node }
    }
}

} // verus!
