//! Assembling the per-process Metadata record and per-batch labels.

use vstd::prelude::*;

use crate::attrs::{bag_entries_v, bag_set_v, lemma_bag_set_v, AttrBag, AttrValue};
use crate::config::Config;
use crate::model::{Agent, Labels, Metadata, Process, Service, System};

verus! {

impl Metadata {
    /// Build the process-wide metadata once, at layer construction:
    /// the configured service description with this crate's agent
    /// identity, the probed process and system descriptions, and the
    /// configured user and cloud information.
    pub fn new(config: Config, process: Option<Process>, system: Option<System>) -> (r: Metadata)
        requires
            config.service matches Some(s) && s.name is Some,
        ensures
            (match config.service {
                Some(s) => {
                    &&& Some(r.service.name) == s.name
                    &&& r.service.version == s.version
                    &&& r.service.environment == s.environment
                    &&& r.service.language == s.language
                    &&& r.service.runtime == s.runtime
                    &&& r.service.framework == s.framework
                    &&& r.service.node == s.node
                },
                None => false,
            }),
            r.service.agent.name@ == "otlp"@,
            r.service.agent.version@ == "unknown"@,
            r.service.agent.ephemeral_id is None,
            r.process == process,
            r.system == system,
            r.user == config.user,
            r.cloud == config.cloud,
            r.labels is None,
    {
        let service = match config.service {
            Some(s) => s,
            None => {
                proof {
                    assert(false);
                }
                crate::service::Service {
                    name: None,
                    version: None,
                    environment: None,
                    language: None,
                    runtime: None,
                    framework: None,
                    node: None,
                }
            },
        };
        let name = match service.name {
            Some(n) => n,
            None => {
                proof {
                    assert(false);
                }
                String::from_str("")
            },
        };
        Metadata {
            service: Service {
                name,
                version: service.version,
                environment: service.environment,
                language: service.language,
                runtime: service.runtime,
                framework: service.framework,
                agent: Agent {
                    name: String::from_str("otlp"),
                    version: String::from_str("unknown"),
                    ephemeral_id: None,
                },
                node: service.node,
            },
            process,
            system,
            user: config.user,
            cloud: config.cloud,
            labels: None,
        }
    }
}

impl Metadata {
    /// The per-batch variant of this metadata: the same descriptor
    /// with the batch's labels attached.
    pub fn create_metadata(self, bag: &AttrBag, level: String, target: String) -> (r: Metadata)
        requires
            bag.wf(),
        ensures
            r.service == self.service,
            r.process == self.process,
            r.system == self.system,
            r.user == self.user,
            r.cloud == self.cloud,
            labels_match(r.labels, bag@, level, target),
    {
        let labels = batch_labels(bag, level, target);
        Metadata {
            service: self.service,
            process: self.process,
            system: self.system,
            user: self.user,
            cloud: self.cloud,
            labels,
        }
    }
}

/// How batch labels relate to the leftover attributes of a record
/// build: absent exactly when nothing was left over, otherwise the
/// leftovers with the event's level and target stamped on top.
pub open spec fn labels_match(
    l: Option<Labels>,
    leftover: Seq<(String, AttrValue)>,
    level: String,
    target: String,
) -> bool {
    &&& (l is None <==> leftover.len() == 0)
    &&& (match l {
        Some(ls) => bag_entries_v(ls@) == bag_set_v(
            bag_set_v(bag_entries_v(leftover), "level"@, AttrValue::Str(level)),
            "target"@,
            AttrValue::Str(target),
        ),
        None => true,
    })
}

/// The labels a batch carries: nothing when every attribute was
/// consumed by the record build; otherwise the leftover attributes
/// with the event's level and target stamped on top.
pub fn batch_labels(bag: &AttrBag, level: String, target: String) -> (r: Option<Labels>)
    requires
        bag.wf(),
    ensures
        labels_match(r, bag@, level, target),
{
    if bag.is_empty() {
        return None;
    }
    let mut labels = bag.duplicate();
    let ghost l0 = labels@;
    proof {
        assert(labels.wf());
    }
    let level_key = String::from_str("level");
    let target_key = String::from_str("target");
    let ghost lk = level_key;
    let ghost tk = target_key;
    let ghost lv = level;
    let ghost tv = target;
    labels.insert(level_key, AttrValue::Str(level));
    let ghost l1 = labels@;
    labels.insert(target_key, AttrValue::Str(target));
    proof {
        lemma_bag_set_v(l0, lk, AttrValue::Str(lv));
        lemma_bag_set_v(l1, tk, AttrValue::Str(tv));
        assert(bag_entries_v(labels@) =~= bag_set_v(
            bag_set_v(bag_entries_v(bag@), "level"@, AttrValue::Str(lv)),
            "target"@,
            AttrValue::Str(tv),
        ));
    }
    Some(labels.into_entries())
}

} // verus!
