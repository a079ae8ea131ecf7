use vstd::prelude::*;
use vstd::string::*;

use crate::events::Event;
use crate::table::{ModuleHolder, Table};

verus! {

/// A live entity built by a plugin's module. Each module supplies its own
/// implementation; rendering hooks are the host's business.
///
/// An implementation keeps two records: the events it was handed and the
/// animations it was told to start, each in order. A verified implementation
/// defines both; their closed default, an empty record, only lets
/// implementations built outside verified code compile, since no
/// implementation that keeps it can meet the contracts of the methods below.
pub trait Operator {
    /// The events handed to this operator so far, in order.
    closed spec fn handled(&self) -> Seq<Event> {
        Seq::empty()
    }

    /// The names of the animations this operator was told to start, in order.
    closed spec fn animations(&self) -> Seq<Seq<char>> {
        Seq::empty()
    }

    fn id(&self) -> String;

    fn start_animation(&mut self, anim: &str)
        ensures
            final(self).animations() == old(self).animations().push(anim@),
            final(self).handled() == old(self).handled(),
    ;

    fn event_handler(&mut self, event: Event)
        ensures
            final(self).handled() == old(self).handled().push(event),
            final(self).animations() == old(self).animations(),
    ;
}

/// Why a module's constructor could not build an operator.
#[derive(Debug, Clone, PartialEq, Eq)]
#[non_exhaustive]
pub enum Error {
    SkinError(crate::skin::Error),
}

impl Error {
    pub open spec fn text(&self) -> Seq<char> {
        match self {
            Error::SkinError(e) => e.text(),
        }
    }

    pub fn describe(&self) -> (r: String)
        ensures
            r@ == self.text(),
    {
        match self {
            Error::SkinError(e) => e.describe(),
        }
    }
}

/// A live operator together with the module whose code it runs, which must
/// stay loaded for as long as the operator lives.
#[derive(Debug)]
pub struct LiveOperator<O> {
    pub module: u64,
    pub operator: O,
}

impl<O> ModuleHolder for LiveOperator<O> {
    open spec fn held_module(&self) -> u64 {
        self.module
    }

    fn module(&self) -> (r: u64) {
        self.module
    }
}

/// The live operators, each under a unique id.
pub struct OperatorRegistry<O> {
    operators: Table<LiveOperator<O>>,
}

impl<O> View for OperatorRegistry<O> {
    type V = Map<Seq<char>, LiveOperator<O>>;

    closed spec fn view(&self) -> Map<Seq<char>, LiveOperator<O>> {
        self.operators@
    }
}

impl<O> OperatorRegistry<O> {
    /// Whether some live operator runs code from module `m`.
    pub open spec fn holds_spec(&self, m: u64) -> bool {
        exists|k: Seq<char>| self@.contains_key(k) && (#[trigger] self@[k]).held_module() == m
    }

    pub fn new() -> (r: Self)
        ensures
            r@ == Map::<Seq<char>, LiveOperator<O>>::empty(),
    {
        OperatorRegistry { operators: Table::new() }
    }

    pub fn contains(&self, id: &str) -> (r: bool)
        ensures
            r == self@.contains_key(id@),
    {
        self.operators.contains_key(id)
    }

    pub fn get(&self, id: &str) -> (r: Option<&LiveOperator<O>>)
        ensures
            r is Some <==> self@.contains_key(id@),
            r matches Some(v) ==> *v == self@[id@],
    {
        self.operators.get(id)
    }

    /// Stores `operator`, built from `module`, under `id`, handing back the
    /// operator it replaces.
    pub fn insert(&mut self, id: String, module: u64, operator: O) -> (r: Option<LiveOperator<O>>)
        ensures
            final(self)@ == old(self)@.insert(id@, LiveOperator { module, operator }),
            r is Some <==> old(self)@.contains_key(id@),
            r matches Some(v) ==> v == old(self)@[id@],
    {
        self.operators.insert(id, LiveOperator { module, operator })
    }

    /// Takes the operator with id `id` out of the registry.
    pub fn remove(&mut self, id: &str) -> (r: Option<LiveOperator<O>>)
        ensures
            final(self)@ == old(self)@.remove(id@),
            r is Some <==> old(self)@.contains_key(id@),
            r matches Some(v) ==> v == old(self)@[id@],
    {
        self.operators.remove(id)
    }

    pub fn is_empty(&self) -> (r: bool)
        ensures
            r == (self@ == Map::<Seq<char>, LiveOperator<O>>::empty()),
    {
        self.operators.is_empty()
    }

    /// The ids of the live operators, each once.
    pub fn ids(&self) -> (r: Vec<String>)
        ensures
            r@.len() == self@.dom().len(),
            forall|i: int| 0 <= i < r@.len() ==> self@.contains_key(#[trigger] r@[i]@),
            forall|k: Seq<char>| #[trigger] self@.contains_key(k) ==> exists|i: int|
                0 <= i < r@.len() && r@[i]@ == k,
    {
        self.operators.keys()
    }

    /// Whether some live operator runs code from module `m`.
    pub fn holds(&self, m: u64) -> (r: bool)
        ensures
            r == self.holds_spec(m),
    {
        let r = self.operators.holds(m);
        proof {
            if r {
                let k = choose|k: Seq<char>|
                    self.operators@.contains_key(k) && (#[trigger] self.operators@[k]).held_module()
                        == m;
                assert(self@.contains_key(k) && self@[k].held_module() == m);
            }
        }
        r
    }
}

/// `after` has the operators of `before`, with the same modules, and differs
/// from it at most in the operator under `id`.
pub open spec fn touched_only<O>(
    before: Map<Seq<char>, LiveOperator<O>>,
    after: Map<Seq<char>, LiveOperator<O>>,
    id: Seq<char>,
) -> bool {
    &&& after.dom() == before.dom()
    &&& forall|k: Seq<char>| #[trigger] after.contains_key(k) ==> after[k].module == before[k].module
    &&& forall|k: Seq<char>| #[trigger] after.contains_key(k) && k != id ==> after[k] == before[k]
}

/// Routing `event` took the operators from `before` to `after`, and `delivered`
/// says whether an operator received it: the target's handler was handed the
/// event once, and no other operator was touched.
pub open spec fn route_effect<O: Operator>(
    before: Map<Seq<char>, LiveOperator<O>>,
    after: Map<Seq<char>, LiveOperator<O>>,
    event: Event,
    delivered: bool,
) -> bool {
    &&& delivered == before.contains_key(event.target())
    &&& !delivered ==> after == before
    &&& touched_only(before, after, event.target())
    &&& delivered ==> after[event.target()].operator.handled() == before[
        event.target()
    ].operator.handled().push(event)
    &&& delivered ==> after[event.target()].operator.animations() == before[
        event.target()
    ].operator.animations()
}

impl<O: Operator> OperatorRegistry<O> {
    /// Delivers `event` to the operator it is addressed to, if that operator
    /// is live; the event is dropped otherwise. Returns whether it was
    /// delivered.
    pub fn route_event(&mut self, event: Event) -> (r: bool)
        ensures
            route_effect(old(self)@, final(self)@, event, r),
    {
        let id = event.operator_id().to_owned();
        match self.operators.remove(id.as_str()) {
            Some(live) => {
                let LiveOperator { module, mut operator } = live;
                operator.event_handler(event);
                self.operators.insert(id, LiveOperator { module, operator });
                proof {
                    assert(self@.dom() =~= old(self)@.dom());
                }
                true
            },
            None => {
                proof {
                    assert(self@ =~= old(self)@);
                }
                false
            },
        }
    }
}

} // verus!
