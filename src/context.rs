use vstd::prelude::*;

use crate::operator::OperatorRegistry;
use crate::plugin::PluginRegistry;
use crate::response::Response;
use crate::table::ModuleHolder;

verus! {

/// The shared state that commands run against: the live operators and the
/// registered plugins.
pub struct CommandContext<O> {
    pub operators: OperatorRegistry<O>,
    pub plugin_registry: PluginRegistry,
}

/// What executing a command produced: the reply for the caller, and the module
/// that nothing holds any more, which the host may now unload.
#[derive(Debug)]
pub struct Execution {
    pub response: Response,
    pub released: Option<u64>,
}

impl<O> CommandContext<O> {
    pub fn new(operators: OperatorRegistry<O>, plugin_registry: PluginRegistry) -> (r: Self)
        ensures
            r.operators@ == operators@,
            r.plugin_registry@ == plugin_registry@,
    {
        CommandContext { operators, plugin_registry }
    }

    pub fn operators(&self) -> (r: &OperatorRegistry<O>)
        ensures
            r@ == self.operators@,
    {
        &self.operators
    }

    pub fn plugin_registry(&self) -> (r: &PluginRegistry)
        ensures
            r@ == self.plugin_registry@,
    {
        &self.plugin_registry
    }

    /// Whether a registered plugin or a live operator keeps module `m` loaded.
    pub open spec fn holds_spec(&self, m: u64) -> bool {
        self.plugin_registry.holds_spec(m) || self.operators.holds_spec(m)
    }

    /// No two registered plugins come from the same module.
    pub open spec fn plugin_modules_distinct(&self) -> bool {
        forall|a: Seq<char>, b: Seq<char>|
            #[trigger] self.plugin_registry@.contains_key(a) && #[trigger]
                self.plugin_registry@.contains_key(b) && a != b
                ==> self.plugin_registry@[a].held_module() != self.plugin_registry@[b].held_module()
    }

    /// The module `m` that was let go of, if nothing holds it any more.
    pub open spec fn release_spec(&self, m: Option<u64>) -> Option<u64> {
        match m {
            Some(m) => if self.holds_spec(m) {
                None
            } else {
                Some(m)
            },
            None => None,
        }
    }

    pub fn holds(&self, m: u64) -> (r: bool)
        ensures
            r == self.holds_spec(m),
    {
        self.plugin_registry.holds(m) || self.operators.holds(m)
    }

    pub fn release(&self, m: Option<u64>) -> (r: Option<u64>)
        ensures
            r == self.release_spec(m),
    {
        match m {
            Some(m) => if self.holds(m) {
                None
            } else {
                Some(m)
            },
            None => None,
        }
    }
}

} // verus!
