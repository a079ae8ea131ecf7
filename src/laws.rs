use vstd::prelude::*;

use crate::commands::{
    spawn_failure_text, LoadPluginCommand, RetreatOperatorCommand, SpawnOperatorCommand,
    UnloadPluginCommand,
};
use crate::context::{CommandContext, Execution};
use crate::events::Event;
use crate::operator::{route_effect, LiveOperator, Operator};
use crate::plugin::{not_registered_text, ConstructorCall, Error as PluginError};
use crate::response::Response;
use crate::table::ModuleHolder;

verus! {

/// Loading a plugin and then unloading it under the same name leaves no
/// plugin of that name, and a spawn that names it afterwards is answered with
/// a not-registered error rather than anything worse, in its lookup and in
/// its completion alike.
pub proof fn law_load_then_unload<O: Operator>(
    load: LoadPluginCommand,
    unload: UnloadPluginCommand,
    spawn: SpawnOperatorCommand,
    opened: Result<u64, PluginError>,
    module: u64,
    built: Result<O, PluginError>,
    c0: CommandContext<O>,
    c1: CommandContext<O>,
    c2: CommandContext<O>,
    c3: CommandContext<O>,
    r1: Execution,
    r2: Execution,
    r3: Result<ConstructorCall, Response>,
    r4: Execution,
)
    requires
        unload.name@ == load.name@,
        spawn.name@ == load.name@,
        load.effect(opened, c0, c1, r1),
        unload.effect(c1, c2, r2),
        spawn.prepare_effect(c2, r3),
        spawn.effect(module, built, c2, c3, r4),
    ensures
        !c2.plugin_registry@.contains_key(load.name@),
        (opened matches Ok(m) && !c0.holds_spec(m)) ==> r1.response is Success
            && r2.response is Success,
        r3 matches Err(resp) && resp is Error && resp.text() == spawn_failure_text(
            load.name@,
            "Plugin is not in registry: "@ + not_registered_text(load.name@),
        ),
        r4.response is Error,
        r4.response.text() == spawn_failure_text(
            load.name@,
            "Plugin is not in registry: "@ + not_registered_text(load.name@),
        ),
        c3.operators@ == c2.operators@,
{
}

/// A spawn that names a plugin which is not registered is answered with an
/// error, whatever the host built, and leaves every operator as it was.
pub proof fn law_spawn_without_plugin<O: Operator>(
    spawn: SpawnOperatorCommand,
    module: u64,
    built: Result<O, PluginError>,
    c0: CommandContext<O>,
    c1: CommandContext<O>,
    r: Execution,
    prepared: Result<ConstructorCall, Response>,
)
    requires
        !c0.plugin_registry@.contains_key(spawn.name@),
        spawn.prepare_effect(c0, prepared),
        spawn.effect(module, built, c0, c1, r),
    ensures
        prepared matches Err(resp) && resp is Error,
        r.response is Error,
        r.released is None,
        c1.operators@ == c0.operators@,
        c1.plugin_registry@ == c0.plugin_registry@,
{
}

/// Loading a plugin under a name already in use, from a newly opened module,
/// replaces the old entry. The old module is released by that load exactly
/// when no live operator came from it; otherwise it stays loaded.
pub proof fn law_replace_plugin<O>(
    load: LoadPluginCommand,
    m: u64,
    c0: CommandContext<O>,
    c1: CommandContext<O>,
    r: Execution,
)
    requires
        c0.plugin_modules_distinct(),
        c0.plugin_registry@.contains_key(load.name@),
        !c0.holds_spec(m),
        load.effect(Ok(m), c0, c1, r),
    ensures
        r.response is Success,
        c1.plugin_registry@[load.name@] == load.plugin_for(m),
        c1.plugin_registry@.dom() == c0.plugin_registry@.dom(),
        r.released == Some(c0.plugin_registry@[load.name@].held_module()) <==> !c0.operators.holds_spec(
            c0.plugin_registry@[load.name@].held_module(),
        ),
        r.released is Some ==> r.released == Some(c0.plugin_registry@[load.name@].held_module()),
{
    let old_m = c0.plugin_registry@[load.name@].held_module();
    assert(c0.plugin_registry@.contains_key(load.name@) && c0.plugin_registry@[load.name@].held_module() == old_m);
    assert(c0.holds_spec(old_m));
    assert(c1.plugin_registry@.dom() =~= c0.plugin_registry@.dom());
    if c1.plugin_registry.holds_spec(old_m) {
        let k = choose|k: Seq<char>|
            c1.plugin_registry@.contains_key(k) && (#[trigger] c1.plugin_registry@[k]).held_module()
                == old_m;
        assert(c0.plugin_registry@.contains_key(k));
    }
}

/// Every load keeps the modules of the registered plugins distinct.
pub proof fn law_load_keeps_plugin_modules_distinct<O>(
    load: LoadPluginCommand,
    opened: Result<u64, PluginError>,
    c0: CommandContext<O>,
    c1: CommandContext<O>,
    r: Execution,
)
    requires
        c0.plugin_modules_distinct(),
        load.effect(opened, c0, c1, r),
    ensures
        c1.plugin_modules_distinct(),
{
    if let Ok(m) = opened {
        if !c0.holds_spec(m) {
            assert forall|a: Seq<char>, b: Seq<char>|
                #[trigger] c1.plugin_registry@.contains_key(a) && #[trigger]
                    c1.plugin_registry@.contains_key(b) && a != b implies c1.plugin_registry@[
                    a
                ].held_module() != c1.plugin_registry@[b].held_module() by {
                if a == load.name@ {
                    assert(c0.plugin_registry@.contains_key(b) && c0.plugin_registry@[b].held_module()
                        == c1.plugin_registry@[b].held_module());
                } else if b == load.name@ {
                    assert(c0.plugin_registry@.contains_key(a) && c0.plugin_registry@[a].held_module()
                        == c1.plugin_registry@[a].held_module());
                }
            }
        }
    }
}

/// Every unload keeps the modules of the registered plugins distinct.
pub proof fn law_unload_keeps_plugin_modules_distinct<O>(
    unload: UnloadPluginCommand,
    c0: CommandContext<O>,
    c1: CommandContext<O>,
    r: Execution,
)
    requires
        c0.plugin_modules_distinct(),
        unload.effect(c0, c1, r),
    ensures
        c1.plugin_modules_distinct(),
{
}

/// A plugin's module is never released while a live operator runs its code:
/// unloading the plugin then leaves the module loaded.
pub proof fn law_unload_keeps_module_of_live_operators<O>(
    unload: UnloadPluginCommand,
    c0: CommandContext<O>,
    c1: CommandContext<O>,
    r: Execution,
)
    requires
        unload.effect(c0, c1, r),
        c0.plugin_registry@.contains_key(unload.name@),
        c0.operators.holds_spec(c0.plugin_registry@[unload.name@].held_module()),
    ensures
        r.response is Success,
        r.released is None,
{
}

/// When the last holder of a module retreats, the module is released.
pub proof fn law_last_operator_releases<O>(
    retreat: RetreatOperatorCommand,
    c0: CommandContext<O>,
    c1: CommandContext<O>,
    r: Execution,
)
    requires
        retreat.effect(c0, c1, r),
        c0.operators@.contains_key(retreat.name@),
        !c0.plugin_registry.holds_spec(c0.operators@[retreat.name@].module),
        forall|k: Seq<char>|
            #[trigger] c0.operators@.contains_key(k) && k != retreat.name@
                ==> c0.operators@[k].module != c0.operators@[retreat.name@].module,
    ensures
        r.released == Some(c0.operators@[retreat.name@].module),
{
    let mo = c0.operators@[retreat.name@].module;
    if c1.operators.holds_spec(mo) {
        let k = choose|k: Seq<char>|
            c1.operators@.contains_key(k) && (#[trigger] c1.operators@[k]).held_module() == mo;
        assert(c0.operators@.contains_key(k) && k != retreat.name@);
    }
}

/// Retreating an operator removes it; retrying the same retreat is answered
/// with an error and changes nothing.
pub proof fn law_retreat_twice<O>(
    retreat: RetreatOperatorCommand,
    c0: CommandContext<O>,
    c1: CommandContext<O>,
    c2: CommandContext<O>,
    r1: Execution,
    r2: Execution,
)
    requires
        c0.operators@.contains_key(retreat.name@),
        retreat.effect(c0, c1, r1),
        retreat.effect(c1, c2, r2),
    ensures
        r1.response is Success,
        !c1.operators@.contains_key(retreat.name@),
        r2.response is Error,
        r2.released is None,
        c2.operators@ == c1.operators@,
        c2.plugin_registry@ == c1.plugin_registry@,
{
    assert(c2.operators@ =~= c1.operators@);
}

/// An event addressed to an operator that is not live reaches nobody and
/// leaves every operator as it was.
pub proof fn law_event_for_absent_operator<O: Operator>(
    before: Map<Seq<char>, LiveOperator<O>>,
    after: Map<Seq<char>, LiveOperator<O>>,
    event: Event,
    delivered: bool,
)
    requires
        route_effect(before, after, event, delivered),
        !before.contains_key(event.target()),
    ensures
        !delivered,
        after == before,
{
}

/// Two spawns that both find their plugin registered with the module the
/// host built from both succeed. Under distinct names each name holds the
/// operator built for it; under one name the later spawn's operator is the one
/// that stays. Either way each stored operator is the built one with its
/// default animation started.
pub proof fn law_two_spawns<O: Operator>(
    s1: SpawnOperatorCommand,
    s2: SpawnOperatorCommand,
    m1: u64,
    m2: u64,
    op1: O,
    op2: O,
    c0: CommandContext<O>,
    c1: CommandContext<O>,
    c2: CommandContext<O>,
    r1: Execution,
    r2: Execution,
)
    requires
        c0.plugin_registry@.contains_key(s1.name@),
        c0.plugin_registry@.contains_key(s2.name@),
        c0.plugin_registry@[s1.name@].held_module() == m1,
        c0.plugin_registry@[s2.name@].held_module() == m2,
        s1.effect(m1, Ok(op1), c0, c1, r1),
        s2.effect(m2, Ok(op2), c1, c2, r2),
    ensures
        r1.response is Success,
        r2.response is Success,
        c2.operators@.dom() == c0.operators@.dom().insert(s1.name@).insert(s2.name@),
        c2.operators@[s2.name@].module == m2,
        c2.operators@[s2.name@].operator.animations() == op2.animations().push("Relax"@),
        c2.operators@[s2.name@].operator.handled() == op2.handled(),
        s1.name@ != s2.name@ ==> {
            &&& c2.operators@[s1.name@].module == m1
            &&& c2.operators@[s1.name@].operator.animations() == op1.animations().push("Relax"@)
            &&& c2.operators@[s1.name@].operator.handled() == op1.handled()
        },
{
    if s1.name@ != s2.name@ {
        assert(c1.operators@.contains_key(s1.name@));
    }
}

} // verus!
