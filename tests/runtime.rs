use arkomp::commands::{
    LoadPluginCommand, RetreatOperatorCommand, ScheduleEventCommand, SpawnOperatorCommand,
    UnloadPluginCommand,
};
use arkomp::context::CommandContext;
use arkomp::events::{Coordinates, Event};
use arkomp::operator::{Operator, OperatorRegistry};
use arkomp::plugin::{Error, OperatorPlugin, Plugin, PluginLibrary, PluginRegistry};
use arkomp::protocol::{frame_action, Frame, FrameAction};
use arkomp::response::Response;
use std::sync::{Arc, Mutex};

#[derive(Debug, Default)]
struct Journal {
    events: Vec<Event>,
    animations: Vec<String>,
}

#[derive(Debug)]
struct Recorder {
    id: String,
    journal: Arc<Mutex<Journal>>,
}

impl Recorder {
    fn new(id: &str) -> (Recorder, Arc<Mutex<Journal>>) {
        let journal = Arc::new(Mutex::new(Journal::default()));
        (Recorder { id: id.to_string(), journal: journal.clone() }, journal)
    }
}

impl Operator for Recorder {
    fn id(&self) -> String {
        self.id.clone()
    }

    fn start_animation(&mut self, anim: &str) {
        self.journal.lock().unwrap().animations.push(anim.to_string());
    }

    fn event_handler(&mut self, event: Event) {
        self.journal.lock().unwrap().events.push(event);
    }
}

fn context() -> CommandContext<Recorder> {
    CommandContext::new(OperatorRegistry::new(), PluginRegistry::new())
}

fn load(name: &str, path: &str) -> LoadPluginCommand {
    LoadPluginCommand { name: name.to_string(), path: path.to_string() }
}

fn spawn_cmd(name: &str, position: (i32, i32)) -> SpawnOperatorCommand {
    SpawnOperatorCommand { name: name.to_string(), position }
}

fn retreat_cmd(name: &str) -> RetreatOperatorCommand {
    RetreatOperatorCommand { name: name.to_string(), position: (3, 4) }
}

/// Runs both halves of a spawn with a freshly built recorder.
fn spawn(
    ctx: &mut CommandContext<Recorder>,
    cmd: &SpawnOperatorCommand,
) -> (Response, Option<u64>, Arc<Mutex<Journal>>) {
    let (op, journal) = Recorder::new(&cmd.name);
    match cmd.prepare(ctx) {
        Ok(call) => {
            assert_eq!(call.id.as_deref(), Some(cmd.name.as_str()));
            let done = cmd.execute(ctx, call.module, Ok(op));
            (done.response, done.released, journal)
        }
        Err(response) => (response, None, journal),
    }
}

fn move_to(op: &str, x: f32, y: f32) -> Event {
    Event::MoveTo {
        op_id: op.to_string(),
        pos: Coordinates { x_bits: x.to_bits(), y_bits: y.to_bits() },
    }
}

#[test]
fn end_to_end_crow() {
    let mut ctx = context();
    let loaded = load("crow", "./plugins/crow.so").execute(&mut ctx, Ok(1));
    assert_eq!(loaded.response, Response::Success("Loaded plugin: crow".to_string()));
    assert_eq!(loaded.released, None);

    let (response, released, journal) = spawn(&mut ctx, &spawn_cmd("crow", (0, 0)));
    assert_eq!(response, Response::Success("spawned operator crow at (0, 0)".to_string()));
    assert_eq!(released, None);
    assert!(ctx.operators().contains("crow"));
    assert_eq!(ctx.operators().get("crow").unwrap().module, 1);
    assert_eq!(journal.lock().unwrap().animations, vec!["Relax".to_string()]);

    let event = move_to("crow", 5.0, 5.0);
    let echo = r#"{"MoveTo":{"op_id":"crow","pos":[5.0,5.0]}}"#;
    let reply = ScheduleEventCommand { event: event.clone() }.execute(echo, true);
    assert_eq!(reply, Response::Success(format!("Scheduled event {}", echo)));

    assert!(ctx.operators.route_event(event.clone()));
    assert_eq!(journal.lock().unwrap().events, vec![event]);
}

#[test]
fn events_for_one_operator_arrive_in_order() {
    let mut ctx = context();
    load("crow", "crow.so").execute(&mut ctx, Ok(1));
    let (_, _, journal) = spawn(&mut ctx, &spawn_cmd("crow", (0, 0)));
    let first = move_to("crow", 1.0, 2.0);
    let second = Event::Sit { op_id: "crow".to_string() };
    let third = Event::CustomEvent { op_id: "crow".to_string(), payload: "caw".to_string() };
    for e in [first.clone(), second.clone(), third.clone()] {
        assert!(ctx.operators.route_event(e));
    }
    assert_eq!(journal.lock().unwrap().events, vec![first, second, third]);
}

#[test]
fn load_then_unload_then_spawn_is_refused() {
    let mut ctx = context();
    load("crow", "./plugins/crow.so").execute(&mut ctx, Ok(7));
    let unloaded = UnloadPluginCommand { name: "crow".to_string() }.execute(&mut ctx);
    assert_eq!(unloaded.response, Response::Success("Unloaded plugin: crow / crow".to_string()));
    assert_eq!(unloaded.released, Some(7));
    assert!(!ctx.plugin_registry().contains("crow"));
    assert!(ctx.plugin_registry().is_empty());
    let (response, _, _) = spawn(&mut ctx, &spawn_cmd("crow", (0, 0)));
    assert_eq!(
        response,
        Response::Error(
            "Failed to spawn operator crow: Plugin is not in registry: Plugin crow is not registered"
                .to_string()
        )
    );
    assert!(ctx.operators().is_empty());
}

#[test]
fn spawn_of_never_loaded_plugin_is_an_error() {
    let mut ctx = context();
    let (response, released, _) = spawn(&mut ctx, &spawn_cmd("ghost", (1, 1)));
    assert!(matches!(response, Response::Error(_)));
    assert_eq!(released, None);
    assert!(ctx.operators().is_empty());
}

#[test]
fn replacing_a_plugin_releases_its_unused_module() {
    let mut ctx = context();
    load("crow", "old.so").execute(&mut ctx, Ok(1));
    let again = load("crow", "new.so").execute(&mut ctx, Ok(2));
    assert_eq!(again.response, Response::Success("Loaded plugin: crow".to_string()));
    assert_eq!(again.released, Some(1));
    assert_eq!(ctx.plugin_registry().plugin_list(), vec!["crow".to_string()]);
    let plugin = ctx.plugin_registry().get_plugin("crow").unwrap();
    let op_plugin = arkomp::plugin::cast_plugin_to(plugin).unwrap();
    assert_eq!(op_plugin.library.module, 2);
    assert_eq!(op_plugin.library.path(), "new.so");
}

#[test]
fn replaced_module_stays_until_its_last_operator_retreats() {
    let mut ctx = context();
    load("crow", "old.so").execute(&mut ctx, Ok(1));
    spawn(&mut ctx, &spawn_cmd("crow", (0, 0)));
    let again = load("crow", "new.so").execute(&mut ctx, Ok(2));
    assert_eq!(again.released, None);
    assert!(ctx.holds(1));
    let gone = retreat_cmd("crow").execute(&mut ctx);
    assert_eq!(gone.response, Response::Success("retreated operator crow at (3, 4)".to_string()));
    assert_eq!(gone.released, Some(1));
    assert!(!ctx.holds(1));
    assert!(ctx.holds(2));
}

#[test]
fn unload_keeps_module_of_live_operator() {
    let mut ctx = context();
    load("crow", "crow.so").execute(&mut ctx, Ok(5));
    spawn(&mut ctx, &spawn_cmd("crow", (0, 0)));
    let unloaded = UnloadPluginCommand { name: "crow".to_string() }.execute(&mut ctx);
    assert!(matches!(unloaded.response, Response::Success(_)));
    assert_eq!(unloaded.released, None);
    let gone = retreat_cmd("crow").execute(&mut ctx);
    assert_eq!(gone.released, Some(5));
}

#[test]
fn unload_of_unknown_plugin_is_an_error() {
    let mut ctx = context();
    let r = UnloadPluginCommand { name: "owl".to_string() }.execute(&mut ctx);
    assert_eq!(
        r.response,
        Response::Error(
            "Failed to unload plugin: Plugin is not in registry: Plugin owl is not registered"
                .to_string()
        )
    );
    assert_eq!(r.released, None);
}

#[test]
fn retreat_twice_second_is_error() {
    let mut ctx = context();
    load("crow", "crow.so").execute(&mut ctx, Ok(1));
    spawn(&mut ctx, &spawn_cmd("crow", (0, 0)));
    let first = retreat_cmd("crow").execute(&mut ctx);
    assert!(matches!(first.response, Response::Success(_)));
    assert_eq!(first.released, None);
    assert!(!ctx.operators().contains("crow"));
    let second = retreat_cmd("crow").execute(&mut ctx);
    assert_eq!(second.response, Response::Error("operator crow is not loaded".to_string()));
    assert_eq!(second.released, None);
}

#[test]
fn event_for_unknown_operator_is_accepted_and_dropped() {
    let mut ctx = context();
    load("crow", "crow.so").execute(&mut ctx, Ok(1));
    let (_, _, journal) = spawn(&mut ctx, &spawn_cmd("crow", (0, 0)));
    let event = Event::Sleep { op_id: "nobody".to_string() };
    let reply = ScheduleEventCommand { event: event.clone() }.execute("{}", true);
    assert_eq!(reply, Response::Success("Scheduled event {}".to_string()));
    assert!(!ctx.operators.route_event(event));
    assert!(journal.lock().unwrap().events.is_empty());
    assert_eq!(ctx.operators().ids(), vec!["crow".to_string()]);
}

#[test]
fn two_names_from_one_plugin_make_two_operators() {
    let mut ctx = context();
    load("crow", "./plugins/crow.so").execute(&mut ctx, Ok(1));
    load("crow2", "./plugins/crow.so").execute(&mut ctx, Ok(2));
    let (ra, _, ja) = spawn(&mut ctx, &spawn_cmd("crow", (0, 0)));
    let (rb, _, jb) = spawn(&mut ctx, &spawn_cmd("crow2", (1, 1)));
    assert!(matches!(ra, Response::Success(_)));
    assert!(matches!(rb, Response::Success(_)));
    let mut ids = ctx.operators().ids();
    ids.sort();
    assert_eq!(ids, vec!["crow".to_string(), "crow2".to_string()]);
    assert_eq!(ctx.operators().get("crow").unwrap().operator.id(), "crow");
    assert_eq!(ctx.operators().get("crow2").unwrap().operator.id(), "crow2");
    assert_eq!(ja.lock().unwrap().animations, vec!["Relax".to_string()]);
    assert_eq!(jb.lock().unwrap().animations, vec!["Relax".to_string()]);
}

#[test]
fn same_name_spawned_twice_leaves_one_operator() {
    let mut ctx = context();
    load("crow", "crow.so").execute(&mut ctx, Ok(1));
    let cmd = spawn_cmd("crow", (0, 0));
    let call = cmd.prepare(&ctx).unwrap();
    let (first, _) = Recorder::new("first");
    let (second, _) = Recorder::new("second");
    cmd.execute(&mut ctx, call.module, Ok(first));
    let r = cmd.execute(&mut ctx, call.module, Ok(second));
    assert!(matches!(r.response, Response::Success(_)));
    assert_eq!(r.released, None);
    assert_eq!(ctx.operators().ids(), vec!["crow".to_string()]);
    assert_eq!(ctx.operators().get("crow").unwrap().operator.id(), "second");
}

#[test]
fn spawn_refused_when_plugin_unloaded_meanwhile() {
    let mut ctx = context();
    load("crow", "crow.so").execute(&mut ctx, Ok(1));
    let cmd = spawn_cmd("crow", (0, 0));
    let call = cmd.prepare(&ctx).unwrap();
    UnloadPluginCommand { name: "crow".to_string() }.execute(&mut ctx);
    let (op, journal) = Recorder::new("crow");
    let r = cmd.execute(&mut ctx, call.module, Ok(op));
    assert_eq!(
        r.response,
        Response::Error(
            "Failed to spawn operator crow: Plugin is not in registry: Plugin crow is not registered"
                .to_string()
        )
    );
    assert_eq!(r.released, None);
    assert!(ctx.operators().is_empty());
    assert!(journal.lock().unwrap().animations.is_empty());
}

#[test]
fn spawn_refused_when_plugin_replaced_meanwhile() {
    let mut ctx = context();
    load("crow", "crow.so").execute(&mut ctx, Ok(1));
    let cmd = spawn_cmd("crow", (0, 0));
    let call = cmd.prepare(&ctx).unwrap();
    let reloaded = load("crow", "crow2.so").execute(&mut ctx, Ok(2));
    assert_eq!(reloaded.released, Some(1));
    let (op, _) = Recorder::new("crow");
    let r = cmd.execute(&mut ctx, call.module, Ok(op));
    assert_eq!(
        r.response,
        Response::Error(
            "Failed to spawn operator crow: the plugin was replaced while the operator was built"
                .to_string()
        )
    );
    assert!(ctx.operators().is_empty());
}

#[test]
fn spawn_execute_without_plugin_is_an_error() {
    let mut ctx = context();
    let cmd = spawn_cmd("ghost", (0, 0));
    let (op, _) = Recorder::new("ghost");
    let r = cmd.execute(&mut ctx, 0, Ok(op));
    assert_eq!(
        r.response,
        Response::Error(
            "Failed to spawn operator ghost: Plugin is not in registry: Plugin ghost is not registered"
                .to_string()
        )
    );
    assert!(ctx.operators().is_empty());
}

#[test]
fn load_with_handle_in_use_is_refused() {
    let mut ctx = context();
    load("crow", "crow.so").execute(&mut ctx, Ok(1));
    let r = load("owl", "owl.so").execute(&mut ctx, Ok(1));
    assert_eq!(
        r.response,
        Response::Error("Failed to load plugin: the module handle is already in use".to_string())
    );
    assert_eq!(r.released, None);
    assert_eq!(ctx.plugin_registry().plugin_list(), vec!["crow".to_string()]);
}

#[test]
fn constructor_failure_is_reported() {
    let mut ctx = context();
    load("crow", "crow.so").execute(&mut ctx, Ok(1));
    let cmd = spawn_cmd("crow", (0, 0));
    let call = cmd.prepare(&ctx).unwrap();
    let r = cmd.execute(&mut ctx, call.module, Err(Error::SymbolNotFound("new".to_string())));
    assert_eq!(
        r.response,
        Response::Error("Failed to spawn operator crow: Symbol not found: new".to_string())
    );
    assert!(ctx.operators().is_empty());
}

#[test]
fn failed_load_is_reported_and_registers_nothing() {
    let mut ctx = context();
    let detail = r#"DlOpen { desc: "missing.so: cannot open shared object file" }"#;
    let r = load("crow", "missing.so")
        .execute(&mut ctx, Err(Error::PluginFileNotFound(detail.to_string())));
    assert_eq!(
        r.response,
        Response::Error(format!("Failed to load plugin: PluginFileNotFound({})", detail))
    );
    assert!(r.response.message().starts_with("Failed to load plugin: PluginFileNotFound"));
    assert_eq!(r.released, None);
    assert!(ctx.plugin_registry().is_empty());
}

#[test]
fn positions_are_written_in_decimal() {
    let mut ctx = context();
    load("crow", "crow.so").execute(&mut ctx, Ok(1));
    let (r, _, _) = spawn(&mut ctx, &spawn_cmd("crow", (-10, i32::MAX)));
    assert_eq!(r, Response::Success("spawned operator crow at (-10, 2147483647)".to_string()));
    let gone = RetreatOperatorCommand { name: "crow".to_string(), position: (i32::MIN, 905) }
        .execute(&mut ctx);
    assert_eq!(gone.response.message(), "retreated operator crow at (-2147483648, 905)");
}

#[test]
fn error_texts() {
    let cases = [
        (Error::PluginNotRegistered("a".to_string()), "Plugin is not in registry: a"),
        (Error::PluginFileNotFound("b".to_string()), "Plugin file not found: b"),
        (Error::SymbolNotFound("c".to_string()), "Symbol not found: c"),
        (Error::UnsupportedCast("d".to_string()), "Cast is not supported: d"),
        (Error::Other("e".to_string()), "Other error: e"),
    ];
    for (e, text) in cases {
        assert_eq!(e.describe(), text);
    }
}

#[test]
fn registry_lookups() {
    let mut reg = PluginRegistry::new();
    assert!(reg.is_empty());
    assert!(matches!(reg.get_plugin("x"), Err(Error::PluginNotRegistered(_))));
    let mut ctx = context();
    load("x", "x.so").execute(&mut ctx, Ok(3));
    load("y", "y.so").execute(&mut ctx, Ok(4));
    let mut names = ctx.plugin_registry().plugin_list();
    names.sort();
    assert_eq!(names, vec!["x".to_string(), "y".to_string()]);
    assert_eq!(ctx.plugin_registry().get_plugin("y").unwrap().name(), "y");
    match reg.deregister_plugin("x") {
        Err(Error::PluginNotRegistered(d)) => assert_eq!(d, "Plugin x is not registered"),
        other => panic!("unexpected {:?}", other),
    }
}

#[test]
fn operator_id_of_each_event() {
    let events = [
        Event::Retreat { op_id: "a".to_string() },
        Event::SetSkin { op_id: "a".to_string(), skin: "winter".to_string() },
        Event::SetAnimation { op_id: "a".to_string(), ani: "Move".to_string() },
        move_to("a", 0.5, -1.5),
        Event::Sleep { op_id: "a".to_string() },
        Event::Sit { op_id: "a".to_string() },
        Event::CustomEvent { op_id: "a".to_string(), payload: "p".to_string() },
    ];
    for e in events {
        assert_eq!(e.operator_id(), "a");
    }
}

#[test]
fn response_message() {
    assert_eq!(Response::Success("ok".to_string()).message(), "ok");
    assert_eq!(Response::Error("bad".to_string()).message(), "bad");
}

#[test]
fn schedule_without_router_is_an_error() {
    let event = Event::Sit { op_id: "crow".to_string() };
    let reply = ScheduleEventCommand { event }.execute("{\"Sit\":{\"op_id\":\"crow\"}}", false);
    assert_eq!(
        reply,
        Response::Error(
            "Failed to schedule event {\"Sit\":{\"op_id\":\"crow\"}}: the event router is not running"
                .to_string()
        )
    );
}

#[test]
fn frames_decide_the_connection_loop() {
    let cmd = r#"{"command":"UnloadPlugin","name":"crow"}"#.to_string();
    assert_eq!(frame_action(Frame::Text(cmd.clone())), FrameAction::Execute(cmd));
    assert_eq!(
        frame_action(Frame::Binary),
        FrameAction::Reply(Response::Error(
            "Unsupported frame: commands travel in text frames".to_string()
        ))
    );
    assert_eq!(frame_action(Frame::Control), FrameAction::Skip);
    assert_eq!(frame_action(Frame::Close), FrameAction::Stop);
    assert_eq!(frame_action(Frame::Failed("reset".to_string())), FrameAction::Stop);
}

#[test]
fn malformed_request_reply() {
    let e = arkomp::commands::Error::SerdeError("expected value at line 1 column 1".to_string());
    assert_eq!(
        e.reply(),
        Response::Error(
            "Command execution failed: SerdeError(\"expected value at line 1 column 1\")"
                .to_string()
        )
    );
    let detail = "bad \"x\" \\ end\n\ttab\u{1b}\u{0}é";
    assert_eq!(
        arkomp::commands::Error::SerdeError(detail.to_string()).debug(),
        format!("SerdeError({:?})", detail)
    );
    assert_eq!(
        arkomp::commands::Error::MutexPoisoned("operators".to_string()).describe(),
        "Lock poisoned: operators"
    );
}

#[test]
fn constructor_domain_error_becomes_other() {
    let skin = arkomp::skin::Error::AtlasFileNotFound("crow.atlas".to_string());
    assert_eq!(skin.describe(), "Atlas error: crow.atlas");
    let e = arkomp::operator::Error::SkinError(skin);
    assert_eq!(
        Error::constructor_failed(&e),
        Error::Other("Atlas error: crow.atlas".to_string())
    );
    let mut ctx = context();
    load("crow", "crow.so").execute(&mut ctx, Ok(1));
    let cmd = spawn_cmd("crow", (0, 0));
    let call = cmd.prepare(&ctx).unwrap();
    let r = cmd.execute(&mut ctx, call.module, Err(Error::constructor_failed(&e)));
    assert_eq!(
        r.response.message(),
        "Failed to spawn operator crow: Other error: Atlas error: crow.atlas"
    );
    assert_eq!(
        arkomp::skin::Error::TextureFileNotFound("t.png".to_string()).describe(),
        "Texture error: t.png"
    );
    assert_eq!(
        arkomp::skin::Error::SkeletonFileNotFound("s.skel".to_string()).describe(),
        "Skeleton error: s.skel"
    );
}

#[test]
fn operator_plugin_from_open_outcome() {
    let opened = OperatorPlugin::new(Ok(PluginLibrary::new(9, "crow.so".to_string())), "crow".to_string());
    let plugin = opened.unwrap();
    assert_eq!(plugin.name(), "crow");
    let call = plugin.build(Some("crow1".to_string()));
    assert_eq!(call.module, 9);
    assert_eq!(call.id.as_deref(), Some("crow1"));
    let wrapped = Plugin::Operator(plugin);
    assert_eq!(arkomp::plugin::cast_plugin_to(&wrapped).unwrap().library.path(), "crow.so");
    let failed = OperatorPlugin::new(
        Err(Error::PluginFileNotFound("gone.so".to_string())),
        "gone".to_string(),
    );
    assert_eq!(failed.unwrap_err(), Error::PluginFileNotFound("gone.so".to_string()));
    assert_eq!(arkomp::plugin::CONSTRUCTOR_SYMBOL, "new");
}

#[test]
fn plugin_error_debug_forms() {
    let cases = [
        (Error::PluginNotRegistered("Plugin a is not registered".to_string()),
            "PluginNotRegistered(\"Plugin a is not registered\")"),
        (Error::PluginFileNotFound("DlOpenUnknown".to_string()), "PluginFileNotFound(DlOpenUnknown)"),
        (Error::SymbolNotFound("DlSymUnknown".to_string()), "SymbolNotFound(DlSymUnknown)"),
        (Error::UnsupportedCast("x".to_string()), "UnsupportedCast(\"x\")"),
        (Error::Other("say \"hi\"".to_string()), "Other(\"say \\\"hi\\\"\")"),
    ];
    for (e, text) in cases {
        assert_eq!(e.debug(), text);
    }
    let odd = "tab\tquote\"back\\slash\rdel\u{7f}bell\u{7}";
    assert_eq!(Error::Other(odd.to_string()).debug(), format!("Other({:?})", odd));
}

#[test]
fn routed_event_reaches_only_its_target() {
    let mut ctx = context();
    load("crow", "crow.so").execute(&mut ctx, Ok(1));
    load("owl", "owl.so").execute(&mut ctx, Ok(2));
    let (_, _, crow) = spawn(&mut ctx, &spawn_cmd("crow", (0, 0)));
    let (_, _, owl) = spawn(&mut ctx, &spawn_cmd("owl", (1, 1)));
    let event = move_to("owl", 5.0, 5.0);
    assert!(ctx.operators.route_event(event.clone()));
    assert!(crow.lock().unwrap().events.is_empty());
    assert_eq!(owl.lock().unwrap().events, vec![event]);
    assert_eq!(owl.lock().unwrap().animations, vec!["Relax".to_string()]);
}
