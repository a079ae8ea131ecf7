use vstd::prelude::*;
use vstd::string::*;

use crate::context::{CommandContext, Execution};
use crate::events::Event;
use crate::operator::Operator;
use crate::plugin::{
    not_registered_text, ConstructorCall, Error as PluginError, OperatorPlugin, Plugin,
    PluginLibrary,
};
use crate::response::Response;
use crate::table::ModuleHolder;
use crate::text::{append_position, append_quoted, position_text, quoted};

verus! {

/// Why a request could not be turned into a command.
#[derive(Debug, Clone, PartialEq, Eq)]
#[non_exhaustive]
pub enum Error {
    SerdeError(String),
    CommandRegistrationFailed(String),
    CommandDeregistrationFailed(String),
    CommandDoesNotExist(String),
    MutexPoisoned(String),
    ContextInvalid(String),
}

impl Error {
    pub open spec fn text(&self) -> Seq<char> {
        match self {
            Error::SerdeError(e) => "Malformed command: "@ + e@,
            Error::CommandRegistrationFailed(e) => "Command registration failed: "@ + e@,
            Error::CommandDeregistrationFailed(e) => "Command deregistration failed: "@ + e@,
            Error::CommandDoesNotExist(e) => "Command does not exist: "@ + e@,
            Error::MutexPoisoned(e) => "Lock poisoned: "@ + e@,
            Error::ContextInvalid(e) => "Context invalid: "@ + e@,
        }
    }

    pub fn describe(&self) -> (r: String)
        ensures
            r@ == self.text(),
    {
        let (head, detail) = match self {
            Error::SerdeError(e) => ("Malformed command: ", e),
            Error::CommandRegistrationFailed(e) => ("Command registration failed: ", e),
            Error::CommandDeregistrationFailed(e) => ("Command deregistration failed: ", e),
            Error::CommandDoesNotExist(e) => ("Command does not exist: ", e),
            Error::MutexPoisoned(e) => ("Lock poisoned: ", e),
            Error::ContextInvalid(e) => ("Context invalid: ", e),
        };
        let mut r = String::from_str(head);
        r.append(detail.as_str());
        r
    }

    /// The error in its debug form: the variant's name, then its detail as a
    /// quoted string in parentheses.
    pub open spec fn debug_text(&self) -> Seq<char> {
        match self {
            Error::SerdeError(e) => "SerdeError("@ + quoted(e@) + ")"@,
            Error::CommandRegistrationFailed(e) => "CommandRegistrationFailed("@ + quoted(e@)
                + ")"@,
            Error::CommandDeregistrationFailed(e) => "CommandDeregistrationFailed("@ + quoted(e@)
                + ")"@,
            Error::CommandDoesNotExist(e) => "CommandDoesNotExist("@ + quoted(e@) + ")"@,
            Error::MutexPoisoned(e) => "MutexPoisoned("@ + quoted(e@) + ")"@,
            Error::ContextInvalid(e) => "ContextInvalid("@ + quoted(e@) + ")"@,
        }
    }

    pub fn debug(&self) -> (r: String)
        ensures
            r@ == self.debug_text(),
    {
        let (head, detail) = match self {
            Error::SerdeError(e) => ("SerdeError(", e),
            Error::CommandRegistrationFailed(e) => ("CommandRegistrationFailed(", e),
            Error::CommandDeregistrationFailed(e) => ("CommandDeregistrationFailed(", e),
            Error::CommandDoesNotExist(e) => ("CommandDoesNotExist(", e),
            Error::MutexPoisoned(e) => ("MutexPoisoned(", e),
            Error::ContextInvalid(e) => ("ContextInvalid(", e),
        };
        let mut r = String::from_str(head);
        append_quoted(&mut r, detail.as_str());
        r.append(")");
        proof {
            assert(r@ =~= self.debug_text());
        }
        r
    }

    /// The reply to a request that could not be turned into a command; the
    /// connection stays open.
    pub fn reply(&self) -> (r: Response)
        ensures
            r is Error,
            r.text() == "Command execution failed: "@ + self.debug_text(),
    {
        let mut msg = String::from_str("Command execution failed: ");
        msg.append(self.debug().as_str());
        Response::Error(msg)
    }
}

/// A request from the remote controller.
#[derive(Debug)]
#[non_exhaustive]
pub enum Command {
    LoadPlugin(LoadPluginCommand),
    UnloadPlugin(UnloadPluginCommand),
    SpawnOperator(SpawnOperatorCommand),
    ScheduleEvent(ScheduleEventCommand),
    RetreatOperator(RetreatOperatorCommand),
}

/// Why a load was refused whose module handle was already held.
pub open spec fn handle_in_use_text() -> Seq<char> {
    "the module handle is already in use"@
}

/// Load the native module at `path` and register it as plugin `name`.
#[derive(Debug)]
pub struct LoadPluginCommand {
    pub name: String,
    pub path: String,
}

impl LoadPluginCommand {
    /// The plugin that loading the file gives, once the host has opened it as
    /// module `m`.
    pub open spec fn plugin_for(&self, m: u64) -> Plugin {
        Plugin::Operator(
            OperatorPlugin { library: PluginLibrary { module: m, path: self.path }, name: self.name },
        )
    }

    /// Executing the command, where opening the file gave `opened`, took the
    /// context from `before` to `after` and produced `r`.
    pub open spec fn effect<O>(
        &self,
        opened: Result<u64, PluginError>,
        before: CommandContext<O>,
        after: CommandContext<O>,
        r: Execution,
    ) -> bool {
        &&& after.operators@ == before.operators@
        &&& match opened {
            Ok(m) => if before.holds_spec(m) {
                &&& after.plugin_registry@ == before.plugin_registry@
                &&& r.response is Error
                &&& r.response.text() == "Failed to load plugin: "@ + handle_in_use_text()
                &&& r.released is None
            } else {
                &&& after.plugin_registry@ == before.plugin_registry@.insert(
                    self.name@,
                    self.plugin_for(m),
                )
                &&& r.response is Success
                &&& r.response.text() == "Loaded plugin: "@ + self.name@
                &&& r.released == after.release_spec(
                    if before.plugin_registry@.contains_key(self.name@) {
                        Some(before.plugin_registry@[self.name@].held_module())
                    } else {
                        None
                    },
                )
            },
            Err(e) => {
                &&& after.plugin_registry@ == before.plugin_registry@
                &&& r.response is Error
                &&& r.response.text() == "Failed to load plugin: "@ + e.debug_text()
                &&& r.released is None
            },
        }
    }

    /// Registers the plugin, replacing any plugin of the same name, once the
    /// host has tried to open the file: `opened` is the module's handle or why
    /// it could not be opened. A handle that something already holds names
    /// another module, and is refused.
    pub fn execute<O>(&self, ctx: &mut CommandContext<O>, opened: Result<u64, PluginError>) -> (r:
        Execution)
        ensures
            self.effect(opened, *old(ctx), *final(ctx), r),
    {
        match opened {
            Ok(m) => {
                if ctx.holds(m) {
                    let mut msg = String::from_str("Failed to load plugin: ");
                    msg.append("the module handle is already in use");
                    return Execution { response: Response::Error(msg), released: None };
                }
                let library = PluginLibrary::new(m, self.path.clone());
                let plugin = Plugin::Operator(OperatorPlugin { library, name: self.name.clone() });
                let replaced = ctx.plugin_registry.register_plugin(self.name.clone(), plugin);
                let previous = match replaced {
                    Some(p) => Some(p.module()),
                    None => None,
                };
                let released = ctx.release(previous);
                let mut msg = String::from_str("Loaded plugin: ");
                msg.append(self.name.as_str());
                Execution { response: Response::Success(msg), released }
            },
            Err(e) => {
                let mut msg = String::from_str("Failed to load plugin: ");
                msg.append(e.debug().as_str());
                Execution { response: Response::Error(msg), released: None }
            },
        }
    }
}

/// Deregister plugin `name`.
#[derive(Debug)]
pub struct UnloadPluginCommand {
    pub name: String,
}

impl UnloadPluginCommand {
    pub open spec fn effect<O>(
        &self,
        before: CommandContext<O>,
        after: CommandContext<O>,
        r: Execution,
    ) -> bool {
        &&& after.operators@ == before.operators@
        &&& after.plugin_registry@ == before.plugin_registry@.remove(self.name@)
        &&& if before.plugin_registry@.contains_key(self.name@) {
            let p = before.plugin_registry@[self.name@];
            &&& r.response is Success
            &&& r.response.text() == "Unloaded plugin: "@ + self.name@ + " / "@ + p.name_of()
            &&& r.released == after.release_spec(Some(p.held_module()))
        } else {
            &&& r.response is Error
            &&& r.response.text() == "Failed to unload plugin: "@ + "Plugin is not in registry: "@
                + not_registered_text(self.name@)
            &&& r.released is None
        }
    }

    /// Removes the plugin. Its module stays loaded while operators built from
    /// it live; otherwise it is released.
    pub fn execute<O>(&self, ctx: &mut CommandContext<O>) -> (r: Execution)
        ensures
            self.effect(*old(ctx), *final(ctx), r),
    {
        match ctx.plugin_registry.deregister_plugin(self.name.as_str()) {
            Ok(plugin) => {
                let released = ctx.release(Some(plugin.module()));
                let mut msg = String::from_str("Unloaded plugin: ");
                msg.append(self.name.as_str());
                msg.append(" / ");
                msg.append(plugin.name());
                proof {
                    assert(msg@ =~= "Unloaded plugin: "@ + self.name@ + " / "@ + plugin.name_of());
                }
                Execution { response: Response::Success(msg), released }
            },
            Err(e) => {
                let mut msg = String::from_str("Failed to unload plugin: ");
                msg.append(e.describe().as_str());
                proof {
                    assert(msg@ =~= "Failed to unload plugin: "@ + "Plugin is not in registry: "@
                        + not_registered_text(self.name@));
                }
                Execution { response: Response::Error(msg), released: None }
            },
        }
    }
}

/// Why a spawn whose operator was built could not keep it: the plugin was
/// loaded anew from another module meanwhile.
pub open spec fn plugin_replaced_text() -> Seq<char> {
    "the plugin was replaced while the operator was built"@
}

/// The reply text of a spawn of `name` that failed for `detail`.
pub open spec fn spawn_failure_text(name: Seq<char>, detail: Seq<char>) -> Seq<char> {
    "Failed to spawn operator "@ + name + ": "@ + detail
}

fn spawn_failure(name: &str, detail: &str) -> (r: Response)
    ensures
        r is Error,
        r.text() == spawn_failure_text(name@, detail@),
{
    let mut msg = String::from_str("Failed to spawn operator ");
    msg.append(name);
    msg.append(": ");
    msg.append(detail);
    proof {
        assert(msg@ =~= spawn_failure_text(name@, detail@));
    }
    Response::Error(msg)
}

/// Build an operator named `name` from plugin `name`, and make it live.
#[derive(Debug)]
pub struct SpawnOperatorCommand {
    pub name: String,
    pub position: (i32, i32),
}

impl SpawnOperatorCommand {
    /// Looking up the plugin in `ctx` gave `r`.
    pub open spec fn prepare_effect<O>(
        &self,
        ctx: CommandContext<O>,
        r: Result<ConstructorCall, Response>,
    ) -> bool {
        &&& r is Ok <==> ctx.plugin_registry@.contains_key(self.name@)
        &&& r matches Ok(c) ==> {
            &&& c.module == ctx.plugin_registry@[self.name@].held_module()
            &&& c.id matches Some(id) && id@ == self.name@
        }
        &&& r matches Err(resp) ==> {
            &&& resp is Error
            &&& resp.text() == spawn_failure_text(
                self.name@,
                "Plugin is not in registry: "@ + not_registered_text(self.name@),
            )
        }
    }

    /// Looks up the plugin to build from. Either the constructor call that the
    /// host must make, or the reply when there is nothing to build.
    pub fn prepare<O>(&self, ctx: &CommandContext<O>) -> (r: Result<ConstructorCall, Response>)
        ensures
            self.prepare_effect(*ctx, r),
    {
        match ctx.plugin_registry.get_plugin(self.name.as_str()) {
            Ok(found) => match crate::plugin::cast_plugin_to(found) {
                Ok(plugin) => Ok(plugin.build(Some(self.name.clone()))),
                Err(e) => Err(spawn_failure(self.name.as_str(), e.describe().as_str())),
            },
            Err(e) => Err(spawn_failure(self.name.as_str(), e.describe().as_str())),
        }
    }

    pub open spec fn effect<O: Operator>(
        &self,
        module: u64,
        built: Result<O, PluginError>,
        before: CommandContext<O>,
        after: CommandContext<O>,
        r: Execution,
    ) -> bool {
        &&& after.plugin_registry@ == before.plugin_registry@
        &&& if !before.plugin_registry@.contains_key(self.name@) {
            &&& after.operators@ == before.operators@
            &&& r.response is Error
            &&& r.response.text() == spawn_failure_text(
                self.name@,
                "Plugin is not in registry: "@ + not_registered_text(self.name@),
            )
            &&& r.released is None
        } else {
            match built {
                Err(e) => {
                    &&& after.operators@ == before.operators@
                    &&& r.response is Error
                    &&& r.response.text() == spawn_failure_text(self.name@, e.text())
                    &&& r.released is None
                },
                Ok(op) => if before.plugin_registry@[self.name@].held_module() != module {
                    &&& after.operators@ == before.operators@
                    &&& r.response is Error
                    &&& r.response.text() == spawn_failure_text(
                        self.name@,
                        plugin_replaced_text(),
                    )
                    &&& r.released is None
                } else {
                    &&& after.operators@.dom() == before.operators@.dom().insert(self.name@)
                    &&& after.operators@[self.name@].module == module
                    &&& after.operators@[self.name@].operator.animations()
                        == op.animations().push("Relax"@)
                    &&& after.operators@[self.name@].operator.handled() == op.handled()
                    &&& forall|k: Seq<char>|
                        #[trigger] before.operators@.contains_key(k) && k != self.name@
                            ==> after.operators@[k] == before.operators@[k]
                    &&& r.response is Success
                    &&& r.response.text() == "spawned operator "@ + self.name@ + " at "@
                        + position_text(self.position)
                    &&& r.released == after.release_spec(
                        if before.operators@.contains_key(self.name@) {
                            Some(before.operators@[self.name@].module)
                        } else {
                            None
                        },
                    )
                },
            }
        }
    }

    /// Makes the operator that the host built from `module` live under the
    /// command's name, replacing any operator of that name, once its default
    /// animation is started. `built` is what the module's constructor
    /// returned. The spawn is refused when plugin `name` is not registered, or
    /// is no longer registered with `module`.
    pub fn execute<O: Operator>(
        &self,
        ctx: &mut CommandContext<O>,
        module: u64,
        built: Result<O, PluginError>,
    ) -> (r: Execution)
        ensures
            self.effect(module, built, *old(ctx), *final(ctx), r),
    {
        let registered = match ctx.plugin_registry.get_plugin(self.name.as_str()) {
            Ok(plugin) => plugin.module(),
            Err(e) => {
                let response = spawn_failure(self.name.as_str(), e.describe().as_str());
                return Execution { response, released: None };
            },
        };
        match built {
            Err(e) => {
                let response = spawn_failure(self.name.as_str(), e.describe().as_str());
                Execution { response, released: None }
            },
            Ok(operator) => {
                if registered != module {
                    let response = spawn_failure(
                        self.name.as_str(),
                        "the plugin was replaced while the operator was built",
                    );
                    return Execution { response, released: None };
                }
                let mut operator = operator;
                operator.start_animation("Relax");
                let replaced = ctx.operators.insert(self.name.clone(), module, operator);
                let previous = match replaced {
                    Some(live) => Some(live.module),
                    None => None,
                };
                let released = ctx.release(previous);
                let mut msg = String::from_str("spawned operator ");
                msg.append(self.name.as_str());
                msg.append(" at ");
                append_position(&mut msg, self.position);
                proof {
                    assert(msg@ =~= "spawned operator "@ + self.name@ + " at "@ + position_text(
                        self.position,
                    ));
                    assert(ctx.operators@.dom() =~= old(ctx).operators@.dom().insert(self.name@));
                }
                Execution { response: Response::Success(msg), released }
            },
        }
    }
}

/// Remove the live operator `name`.
#[derive(Debug)]
pub struct RetreatOperatorCommand {
    pub name: String,
    pub position: (i32, i32),
}

impl RetreatOperatorCommand {
    pub open spec fn effect<O>(
        &self,
        before: CommandContext<O>,
        after: CommandContext<O>,
        r: Execution,
    ) -> bool {
        &&& after.plugin_registry@ == before.plugin_registry@
        &&& after.operators@ == before.operators@.remove(self.name@)
        &&& if before.operators@.contains_key(self.name@) {
            &&& r.response is Success
            &&& r.response.text() == "retreated operator "@ + self.name@ + " at "@ + position_text(
                self.position,
            )
            &&& r.released == after.release_spec(Some(before.operators@[self.name@].module))
        } else {
            &&& r.response is Error
            &&& r.response.text() == "operator "@ + self.name@ + " is not loaded"@
            &&& r.released is None
        }
    }

    /// Removes the operator; the module it came from is released when nothing
    /// else holds it.
    pub fn execute<O>(&self, ctx: &mut CommandContext<O>) -> (r: Execution)
        ensures
            self.effect(*old(ctx), *final(ctx), r),
    {
        match ctx.operators.remove(self.name.as_str()) {
            Some(live) => {
                let module = live.module;
                let released = ctx.release(Some(module));
                let mut msg = String::from_str("retreated operator ");
                msg.append(self.name.as_str());
                msg.append(" at ");
                append_position(&mut msg, self.position);
                proof {
                    assert(msg@ =~= "retreated operator "@ + self.name@ + " at "@ + position_text(
                        self.position,
                    ));
                }
                Execution { response: Response::Success(msg), released }
            },
            None => {
                let mut msg = String::from_str("operator ");
                msg.append(self.name.as_str());
                msg.append(" is not loaded");
                proof {
                    assert(msg@ =~= "operator "@ + self.name@ + " is not loaded"@);
                }
                Execution { response: Response::Error(msg), released: None }
            },
        }
    }
}

/// Hand an event to the router.
#[derive(Debug)]
pub struct ScheduleEventCommand {
    pub event: Event,
}

impl ScheduleEventCommand {
    /// The reply once the host has handed the event to the router's queue;
    /// `queued` says whether the queue took it, and `echo` is the event as it
    /// travels on the wire. Acceptance is not delivery: an event for an
    /// operator that is not live is accepted too.
    pub fn execute(&self, echo: &str, queued: bool) -> (r: Response)
        ensures
            r is Success <==> queued,
            queued ==> r.text() == "Scheduled event "@ + echo@,
            !queued ==> r.text() == "Failed to schedule event "@ + echo@
                + ": the event router is not running"@,
    {
        if queued {
            let mut msg = String::from_str("Scheduled event ");
            msg.append(echo);
            Response::Success(msg)
        } else {
            let mut msg = String::from_str("Failed to schedule event ");
            msg.append(echo);
            msg.append(": the event router is not running");
            proof {
                assert(msg@ =~= "Failed to schedule event "@ + echo@
                    + ": the event router is not running"@);
            }
            Response::Error(msg)
        }
    }
}

} // verus!
