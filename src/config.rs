use vstd::prelude::*;
use crate::address::{remove_trailing_slash, without_trailing_slash};

verus! {

/// Where the source queue is bound, when the relay declares it at startup.
pub struct SourceBinding {
    pub exchange: String,
    pub routing_key: String,
}

/// Everything the relay needs to know, fixed before it starts.
///
/// `target_routing_key` is the routing key of every publish; when the target
/// exchange is the default exchange it names the target queue.
pub struct RelayConfig {
    pub source_addr: String,
    pub source_queue: String,
    /// Present exactly when the source queue is to be declared and bound
    /// before consuming.
    pub source_binding: Option<SourceBinding>,
    pub target_addr: String,
    pub target_exchange: String,
    pub target_routing_key: String,
}

impl RelayConfig {
    /// Builds a configuration; both broker addresses are normalized.
    pub fn new(
        source_addr: &str,
        source_queue: String,
        source_binding: Option<SourceBinding>,
        target_addr: &str,
        target_exchange: String,
        target_routing_key: String,
    ) -> (r: RelayConfig)
        ensures
            r.source_addr@ == without_trailing_slash(source_addr@),
            r.source_queue == source_queue,
            r.source_binding == source_binding,
            r.target_addr@ == without_trailing_slash(target_addr@),
            r.target_exchange == target_exchange,
            r.target_routing_key == target_routing_key,
    {
        RelayConfig {
            source_addr: remove_trailing_slash(source_addr),
            source_queue,
            source_binding,
            target_addr: remove_trailing_slash(target_addr),
            target_exchange,
            target_routing_key,
        }
    }

    /// Whether the source queue is declared and bound at startup.
    pub fn declares(&self) -> (r: bool)
        ensures
            r == self.source_binding.is_some(),
    {
        self.source_binding.is_some()
    }
}

} // verus!
