use vstd::prelude::*;
use vstd::string::*;

use crate::table::{ModuleHolder, Table};
use crate::text::{append_quoted, quoted};

verus! {

/// The name under which a native module exports its operator constructor.
pub const CONSTRUCTOR_SYMBOL: &'static str = "new";

/// Why a plugin could not be loaded, found or used. `PluginFileNotFound` and
/// `SymbolNotFound` carry the module loader's own account of the failure,
/// written in its debug form; the other variants carry plain text.
#[derive(Debug, Clone, PartialEq, Eq)]
#[non_exhaustive]
pub enum Error {
    PluginNotRegistered(String),
    PluginFileNotFound(String),
    SymbolNotFound(String),
    UnsupportedCast(String),
    Other(String),
}

impl Error {
    /// The error as one line of text.
    pub open spec fn text(&self) -> Seq<char> {
        match self {
            Error::PluginNotRegistered(e) => "Plugin is not in registry: "@ + e@,
            Error::PluginFileNotFound(e) => "Plugin file not found: "@ + e@,
            Error::SymbolNotFound(e) => "Symbol not found: "@ + e@,
            Error::UnsupportedCast(e) => "Cast is not supported: "@ + e@,
            Error::Other(e) => "Other error: "@ + e@,
        }
    }

    /// The error in its debug form: the variant's name, then its detail in
    /// parentheses, quoted where the detail is plain text.
    pub open spec fn debug_text(&self) -> Seq<char> {
        match self {
            Error::PluginNotRegistered(e) => "PluginNotRegistered("@ + quoted(e@) + ")"@,
            Error::PluginFileNotFound(e) => "PluginFileNotFound("@ + e@ + ")"@,
            Error::SymbolNotFound(e) => "SymbolNotFound("@ + e@ + ")"@,
            Error::UnsupportedCast(e) => "UnsupportedCast("@ + quoted(e@) + ")"@,
            Error::Other(e) => "Other("@ + quoted(e@) + ")"@,
        }
    }

    pub fn debug(&self) -> (r: String)
        ensures
            r@ == self.debug_text(),
    {
        let mut r = String::new();
        match self {
            Error::PluginNotRegistered(e) => {
                r.append("PluginNotRegistered(");
                append_quoted(&mut r, e.as_str());
            },
            Error::PluginFileNotFound(e) => {
                r.append("PluginFileNotFound(");
                r.append(e.as_str());
            },
            Error::SymbolNotFound(e) => {
                r.append("SymbolNotFound(");
                r.append(e.as_str());
            },
            Error::UnsupportedCast(e) => {
                r.append("UnsupportedCast(");
                append_quoted(&mut r, e.as_str());
            },
            Error::Other(e) => {
                r.append("Other(");
                append_quoted(&mut r, e.as_str());
            },
        }
        r.append(")");
        proof {
            reveal_strlit("");
            assert(r@ =~= self.debug_text());
        }
        r
    }

    /// The error that a constructor's own failure `e` is reported as.
    pub fn constructor_failed(e: &crate::operator::Error) -> (r: Error)
        ensures
            r matches Error::Other(d) && d@ == e.text(),
    {
        Error::Other(e.describe())
    }

    pub fn describe(&self) -> (r: String)
        ensures
            r@ == self.text(),
    {
        let (head, detail) = match self {
            Error::PluginNotRegistered(e) => ("Plugin is not in registry: ", e),
            Error::PluginFileNotFound(e) => ("Plugin file not found: ", e),
            Error::SymbolNotFound(e) => ("Symbol not found: ", e),
            Error::UnsupportedCast(e) => ("Cast is not supported: ", e),
            Error::Other(e) => ("Other error: ", e),
        };
        let mut r = String::from_str(head);
        r.append(detail.as_str());
        r
    }
}

/// The detail of the error for a name that no plugin is registered under.
pub open spec fn not_registered_text(name: Seq<char>) -> Seq<char> {
    "Plugin "@ + name + " is not registered"@
}

fn not_registered(name: &str) -> (r: Error)
    ensures
        r matches Error::PluginNotRegistered(d) && d@ == not_registered_text(name@),
{
    let mut d = String::from_str("Plugin ");
    d.append(name);
    d.append(" is not registered");
    Error::PluginNotRegistered(d)
}

/// A loaded native module: the host's handle for it and the file it came from.
#[derive(Debug)]
pub struct PluginLibrary {
    pub module: u64,
    pub path: String,
}

impl PluginLibrary {
    pub fn new(module: u64, path: String) -> (r: Self)
        ensures
            r.module == module,
            r.path == path,
    {
        PluginLibrary { module, path }
    }

    pub fn path(&self) -> (r: &String)
        ensures
            *r == self.path,
    {
        &self.path
    }
}

/// What the host must do to build an operator: call the constructor that
/// `module` exports under `CONSTRUCTOR_SYMBOL`, passing `id` through.
#[derive(Debug)]
pub struct ConstructorCall {
    pub module: u64,
    pub id: Option<String>,
}

/// A plugin whose module builds operators.
#[derive(Debug)]
pub struct OperatorPlugin {
    pub library: PluginLibrary,
    pub name: String,
}

impl OperatorPlugin {
    /// The plugin `name` over the module that opening its file gave, or the
    /// opening's error.
    pub fn new(opened: Result<PluginLibrary, Error>, name: String) -> (r: Result<Self, Error>)
        ensures
            opened is Ok <==> r is Ok,
            r matches Ok(p) ==> opened == Ok::<PluginLibrary, Error>(p.library) && p.name == name,
            r matches Err(e) ==> opened == Err::<PluginLibrary, Error>(e),
    {
        match opened {
            Ok(library) => Ok(OperatorPlugin { library, name }),
            Err(e) => Err(e),
        }
    }

    pub fn name(&self) -> (r: &str)
        ensures
            r@ == self.name@,
    {
        self.name.as_str()
    }

    /// The constructor call that builds an operator with the given id.
    pub fn build(&self, id: Option<String>) -> (r: ConstructorCall)
        ensures
            r.module == self.library.module,
            r.id == id,
    {
        ConstructorCall { module: self.library.module, id }
    }
}

/// A registered plugin, of one of the kinds the runtime knows.
#[derive(Debug)]
#[non_exhaustive]
pub enum Plugin {
    Operator(OperatorPlugin),
}

impl Plugin {
    pub open spec fn library_of(&self) -> PluginLibrary {
        match self {
            Plugin::Operator(p) => p.library,
        }
    }

    pub open spec fn name_of(&self) -> Seq<char> {
        match self {
            Plugin::Operator(p) => p.name@,
        }
    }

    pub fn name(&self) -> (r: &str)
        ensures
            r@ == self.name_of(),
    {
        match self {
            Plugin::Operator(p) => p.name(),
        }
    }
}

impl ModuleHolder for Plugin {
    open spec fn held_module(&self) -> u64 {
        self.library_of().module
    }

    fn module(&self) -> (r: u64) {
        match self {
            Plugin::Operator(p) => p.library.module,
        }
    }
}

/// Recovers the operator-building capability of a registered plugin.
pub fn cast_plugin_to(plugin: &Plugin) -> (r: Result<&OperatorPlugin, Error>)
    ensures
        match plugin {
            Plugin::Operator(p) => r == Ok::<&OperatorPlugin, Error>(p),
        },
{
    match plugin {
        Plugin::Operator(p) => Ok(p),
    }
}

/// The plugins, each under a unique name.
pub struct PluginRegistry {
    plugins: Table<Plugin>,
}

impl View for PluginRegistry {
    type V = Map<Seq<char>, Plugin>;

    closed spec fn view(&self) -> Map<Seq<char>, Plugin> {
        self.plugins@
    }
}

impl PluginRegistry {
    /// Whether some registered plugin comes from module `m`.
    pub open spec fn holds_spec(&self, m: u64) -> bool {
        exists|k: Seq<char>| self@.contains_key(k) && (#[trigger] self@[k]).held_module() == m
    }

    pub fn new() -> (r: Self)
        ensures
            r@ == Map::<Seq<char>, Plugin>::empty(),
    {
        PluginRegistry { plugins: Table::new() }
    }

    /// Registers `plugin` under `name`, replacing and handing back any plugin
    /// registered there before.
    pub fn register_plugin(&mut self, name: String, plugin: Plugin) -> (r: Option<Plugin>)
        ensures
            final(self)@ == old(self)@.insert(name@, plugin),
            r is Some <==> old(self)@.contains_key(name@),
            r matches Some(p) ==> p == old(self)@[name@],
    {
        self.plugins.insert(name, plugin)
    }

    pub fn get_plugin(&self, name: &str) -> (r: Result<&Plugin, Error>)
        ensures
            r is Ok <==> self@.contains_key(name@),
            r matches Ok(p) ==> *p == self@[name@],
            r matches Err(e) ==> e matches Error::PluginNotRegistered(d) && d@ == not_registered_text(
                name@,
            ),
    {
        match self.plugins.get(name) {
            Some(p) => Ok(p),
            None => Err(not_registered(name)),
        }
    }

    /// Removes the plugin registered under `name` and hands it back.
    pub fn deregister_plugin(&mut self, name: &str) -> (r: Result<Plugin, Error>)
        ensures
            final(self)@ == old(self)@.remove(name@),
            r is Ok <==> old(self)@.contains_key(name@),
            r matches Ok(p) ==> p == old(self)@[name@],
            r matches Err(e) ==> e matches Error::PluginNotRegistered(d) && d@ == not_registered_text(
                name@,
            ),
    {
        match self.plugins.remove(name) {
            Some(p) => Ok(p),
            None => Err(not_registered(name)),
        }
    }

    pub fn contains(&self, name: &str) -> (r: bool)
        ensures
            r == self@.contains_key(name@),
    {
        self.plugins.contains_key(name)
    }

    pub fn is_empty(&self) -> (r: bool)
        ensures
            r == (self@ == Map::<Seq<char>, Plugin>::empty()),
    {
        self.plugins.is_empty()
    }

    /// The registered names, each once.
    pub fn plugin_list(&self) -> (r: Vec<String>)
        ensures
            r@.len() == self@.dom().len(),
            forall|i: int| 0 <= i < r@.len() ==> self@.contains_key(#[trigger] r@[i]@),
            forall|k: Seq<char>| #[trigger] self@.contains_key(k) ==> exists|i: int|
                0 <= i < r@.len() && r@[i]@ == k,
    {
        self.plugins.keys()
    }

    /// Whether some registered plugin comes from module `m`.
    pub fn holds(&self, m: u64) -> (r: bool)
        ensures
            r == self.holds_spec(m),
    {
        let r = self.plugins.holds(m);
        proof {
            if r {
                let k = choose|k: Seq<char>|
                    self.plugins@.contains_key(k) && (#[trigger] self.plugins@[k]).held_module() == m;
                assert(self@.contains_key(k) && self@[k].held_module() == m);
            }
        }
        r
    }
}

} // verus!
