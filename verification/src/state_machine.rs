//! Definitions of state machines.

use crate::decode::{
    number_of, option_view, read_number, read_text, refuse, require, required, text_of,
    DecodeError,
};
use crate::execution::{Execution, ExecutionView, StateExecutionHandler, StatusView};
use crate::json::{json_read, Json, JsonNumber, JsonValue};
use crate::states::all_states::States;
use crate::states::map::{read_states, states_decoded};
use crate::text::{join, str_equal};
use crate::types::StateMachineContext;
use std::rc::Rc;
use vstd::prelude::*;

verus! {

/// The place of the first state that goes by `name`, at or after `from`.
pub open spec fn state_index_from(states: Seq<(String, States)>, name: Seq<char>, from: int) -> Option<int>
    decreases states.len() - from,
{
    if from < 0 || from >= states.len() {
        None
    } else if states[from].0@ == name {
        Some(from)
    } else {
        state_index_from(states, name, from + 1)
    }
}

/// The place that `state_index_from` gives lies within the states, at or
/// after `from`, and holds a state of the name.
pub proof fn lemma_state_index(states: Seq<(String, States)>, name: Seq<char>, from: int)
    ensures
        state_index_from(states, name, from) matches Some(i) ==> from <= i < states.len() && 0 <= i
            && states[i].0@ == name,
    decreases states.len() - from,
{
    if 0 <= from < states.len() && states[from].0@ != name {
        lemma_state_index(states, name, from + 1);
    }
}

/// The place of the state that goes by `name`.
pub open spec fn state_index(states: Seq<(String, States)>, name: Seq<char>) -> Option<int> {
    state_index_from(states, name, 0)
}

/// The state that goes by `name` among `states`: the first, should two
/// share the name.
pub fn find_state<'a>(states: &'a Vec<(String, States)>, name: &str) -> (res: Option<&'a States>)
    ensures
        match state_index(states@, name@) {
            Some(i) => (0 <= i < states.len()) && res == Some(&states@[i].1),
            None => res is None,
        },
{
    let mut i: usize = 0;
    while i < states.len()
        invariant
            i <= states.len(),
            state_index(states@, name@) == state_index_from(states@, name@, i as int),
        decreases states.len() - i,
    {
        if str_equal(states[i].0.as_str(), name) {
            return Some(&states[i].1);
        }
        i += 1;
    }
    None
}

/// A state machine as it is written: its states by name, and the name of
/// the state at which it starts. A definition can be run only where no two
/// of its states share a name.
#[derive(Debug, PartialEq, Eq)]
pub struct StateMachineDefinition {
    pub states: Vec<(String, States)>,
    pub comment: Option<String>,
    pub start_at: String,
    pub version: Option<String>,
    pub timeout_seconds: Option<JsonNumber>,
}

/// The names of `states`, in order.
pub open spec fn state_names(states: Seq<(String, States)>) -> Seq<Seq<char>> {
    Seq::new(states.len(), |i: int| states[i].0@)
}

/// The texts that a vector of strings stands for.
pub open spec fn texts_view(texts: Seq<String>) -> Seq<Seq<char>> {
    Seq::new(texts.len(), |i: int| texts[i]@)
}

impl StateMachineDefinition {
    /// The names of the states, in order.
    pub fn names(&self) -> (res: Vec<String>)
        ensures
            texts_view(res@) == state_names(self.states@),
    {
        let mut names: Vec<String> = Vec::new();
        let mut i: usize = 0;
        while i < self.states.len()
            invariant
                i <= self.states.len(),
                names.len() == i,
                forall|k: int| 0 <= k < i ==> names@[k]@ == self.states@[k].0@,
            decreases self.states.len() - i,
        {
            names.push(self.states[i].0.clone());
            i += 1;
        }
        assert(texts_view(names@) =~= state_names(self.states@));
        names
    }
}

impl StateMachineDefinition {
    /// Whether the definition is what a document says, which has to be an
    /// object: `StartAt` names the state at which the machine starts,
    /// `States` holds the states, and `Comment`, `Version` and
    /// `TimeoutSeconds` hold what the fields of their names hold.
    pub open spec fn decoded_from(self, json: Json) -> bool {
        &&& json is Object
        &&& required(text_of(json.field("StartAt"@))) == Some(self.start_at@)
        &&& states_decoded(self.states@, json.field("States"@))
        &&& text_of(json.field("Comment"@)) == Some(option_view(self.comment))
        &&& text_of(json.field("Version"@)) == Some(option_view(self.version))
        &&& number_of(json.field("TimeoutSeconds"@)) == Some(option_view(self.timeout_seconds))
    }

    /// Whether the definition can be run: it holds the state at which it
    /// starts, and every state to which a state may hand over.
    pub open spec fn runnable(self) -> bool {
        state_index(self.states@, self.start_at@) is Some && self.distinct() && self.closed()
    }

    /// Whether no two states share a name.
    pub open spec fn distinct(self) -> bool {
        forall|i: int, j: int|
            0 <= i < j < self.states@.len() ==> (#[trigger] self.states@[i]).0@
                != (#[trigger] self.states@[j]).0@
    }

    /// A name that two states share: that of the first state whose name
    /// comes again, or none where no two states share a name.
    #[verifier::loop_isolation(false)]
    pub fn repeated(&self) -> (res: Option<String>)
        ensures
            res is None <==> self.distinct(),
            res matches Some(name) ==> exists|i: int, j: int|
                0 <= i < j < self.states@.len() && (#[trigger] self.states@[i]).0@ == name@
                    && (#[trigger] self.states@[j]).0@ == name@,
    {
        let mut i: usize = 0;
        while i < self.states.len()
            invariant
                i <= self.states.len(),
                forall|a: int, b: int|
                    0 <= a < i && a < b < self.states@.len() ==> (#[trigger] self.states@[a]).0@
                        != (#[trigger] self.states@[b]).0@,
            decreases self.states.len() - i,
        {
            let mut j: usize = i + 1;
            while j < self.states.len()
                invariant
                    i < j <= self.states.len(),
                    forall|b: int|
                        i < b < j ==> self.states@[i as int].0@ != (#[trigger] self.states@[b]).0@,
                decreases self.states.len() - j,
            {
                if str_equal(self.states[i].0.as_str(), self.states[j].0.as_str()) {
                    let res = Some(self.states[i].0.clone());
                    proof {
                        assert(self.states@[i as int].0@ == res->Some_0@);
                        assert(self.states@[j as int].0@ == res->Some_0@);
                    }
                    return res;
                }
                j += 1;
            }
            i += 1;
        }
        None
    }

    /// Reads a definition from a document.
    pub fn decode(json: &JsonValue) -> (res: Result<StateMachineDefinition, DecodeError>)
        ensures
            res matches Ok(definition) ==> definition.decoded_from(json@),
            res is Err ==> forall|definition: StateMachineDefinition| !definition.decoded_from(json@),
    {
        if !json.is_object() {
            return refuse("Expected an object for ", "a state machine");
        }
        let start_at = require(read_text(json.field("StartAt"), "StartAt")?, "StartAt")?;
        let states = match json.field("States") {
            None => {
                return refuse("Missing ", "States");
            },
            Some(held) => match read_states(held) {
                Ok(states) => states,
                Err(e) => {
                    proof {
                        assert forall|other: StateMachineDefinition| !other.decoded_from(json@) by {
                            assert(!states_decoded(other.states@, json@.field("States"@)));
                        }
                    }
                    return Err(e);
                },
            },
        };
        let comment = read_text(json.field("Comment"), "Comment")?;
        let version = read_text(json.field("Version"), "Version")?;
        let timeout_seconds = read_number(json.field("TimeoutSeconds"), "TimeoutSeconds")?;
        Ok(StateMachineDefinition { states, comment, start_at, version, timeout_seconds })
    }
}

impl StateMachineDefinition {
    /// Whether the state at place `i` may hand over to a state `name` that
    /// the definition does not hold.
    pub open spec fn dangles(self, i: int, name: Seq<char>) -> bool {
        0 <= i < self.states@.len() && self.states@[i].1.leads_to(name) && state_index(
            self.states@,
            name,
        ) is None
    }

    /// Whether every state to which a state may hand over is a state of the
    /// definition.
    pub open spec fn closed(self) -> bool {
        forall|i: int, name: Seq<char>| !#[trigger] self.dangles(i, name)
    }

    /// A state, and a state to which it may hand over that the definition
    /// does not hold: the first such pair, or none where every hand-over
    /// leads to a state of the definition.
    #[verifier::loop_isolation(false)]
    pub fn dangling(&self) -> (res: Option<(String, String)>)
        ensures
            res is None ==> self.closed(),
            res is Some ==> exists|i: int|
                (#[trigger] self.dangles(i, res->Some_0.1@)) && self.states@[i].0@
                    == res->Some_0.0@,
    {
        let mut i: usize = 0;
        while i < self.states.len()
            invariant
                i <= self.states.len(),
                forall|k: int, name: Seq<char>| 0 <= k < i ==> !#[trigger] self.dangles(k, name),
            decreases self.states.len() - i,
        {
            let targets = self.states[i].1.targets();
            let mut j: usize = 0;
            while j < targets.len()
                invariant
                    j <= targets.len(),
                    forall|k: int|
                        0 <= k < j ==> state_index(self.states@, (#[trigger] targets@[k])@) is Some,
                decreases targets.len() - j,
            {
                if find_state(&self.states, targets[j].as_str()).is_none() {
                    let res = Some((self.states[i].0.clone(), targets[j].clone()));
                    proof {
                        assert(self.states@[i as int].1.leads_to(targets@[j as int]@));
                        assert(self.dangles(i as int, res->Some_0.1@));
                        assert(self.states@[i as int].0@ == res->Some_0.0@);
                    }
                    return res;
                }
                j += 1;
            }
            proof {
                assert forall|name: Seq<char>| !#[trigger] self.dangles(i as int, name) by {
                    if self.states@[i as int].1.leads_to(name) {
                        let k = choose|k: int|
                            0 <= k < targets@.len() && (#[trigger] targets@[k])@ == name;
                        assert(state_index(self.states@, targets@[k]@) is Some);
                    }
                }
            }
            i += 1;
        }
        None
    }
}

/// What a parse error stands for in contracts.
pub enum ParseErrorView {
    StartStateNotDefinedInListOfStates { starts_at: Seq<char>, states: Seq<Seq<char>> },
    MalformedInput(Seq<char>),
}

/// Why a definition is refused.
#[derive(Debug, PartialEq, Eq)]
pub enum ParseError {
    /// The definition starts at a state that it does not hold.
    StartStateNotDefinedInListOfStates { starts_at: String, states: Vec<String> },
    /// The text is no definition; what the reader said of it.
    MalformedInput(String),
}

impl View for ParseError {
    type V = ParseErrorView;

    open spec fn view(&self) -> ParseErrorView {
        match self {
            ParseError::StartStateNotDefinedInListOfStates { starts_at, states } => ParseErrorView::StartStateNotDefinedInListOfStates {
                starts_at: starts_at@,
                states: texts_view(states@),
            },
            ParseError::MalformedInput(message) => ParseErrorView::MalformedInput(message@),
        }
    }
}

/// A state machine that can be run: its definition holds the state at
/// which it starts and every state to which a state may hand over.
#[derive(Debug, PartialEq, Eq)]
pub struct StateMachine {
    definition: StateMachineDefinition,
}

impl StateMachine {
    /// The definition of the machine.
    pub closed spec fn spec_definition(&self) -> StateMachineDefinition {
        self.definition
    }

    /// What holds of every machine.
    #[verifier::type_invariant]
    spec fn sound(self) -> bool {
        self.definition.runnable()
    }

    /// A machine for a definition. A definition that starts at a state that
    /// it does not hold is refused, with the name of that state and the names
    /// of its states; one in which two states share a name, or a state may
    /// hand over to a state that it does not hold, is refused as malformed.
    pub fn new(definition: StateMachineDefinition) -> (res: Result<StateMachine, ParseError>)
        ensures
            match state_index(definition.states@, definition.start_at@) {
                Some(_) => if definition.distinct() && definition.closed() {
                    res matches Ok(machine) && machine.spec_definition() == definition
                } else {
                    res matches Err(ParseError::MalformedInput(_))
                },
                None => res matches Err(e) && e@
                    == (ParseErrorView::StartStateNotDefinedInListOfStates {
                    starts_at: definition.start_at@,
                    states: state_names(definition.states@),
                }),
            },
    {
        if find_state(&definition.states, definition.start_at.as_str()).is_none() {
            return Err(
                ParseError::StartStateNotDefinedInListOfStates {
                    starts_at: definition.start_at.clone(),
                    states: definition.names(),
                },
            );
        }
        if let Some(name) = definition.repeated() {
            let a = join("More than one state is named '", name.as_str());
            return Err(ParseError::MalformedInput(join(a.as_str(), "'")));
        }
        let message = match definition.dangling() {
            None => None,
            Some(pair) => {
                let a = join("The state '", pair.0.as_str());
                let b = join(a.as_str(), "' leads to the state '");
                let c = join(b.as_str(), pair.1.as_str());
                Some(join(c.as_str(), "', which is not defined"))
            },
        };
        match message {
            None => Ok(StateMachine { definition }),
            Some(message) => Err(ParseError::MalformedInput(message)),
        }
    }


    /// Whether `res` is what reading a machine from a text comes to. A text
    /// that is not JSON is refused as malformed, in the words of the reader
    /// of JSON; so is a document that is no definition. A definition that
    /// starts at a state that it does not hold is refused with the name of
    /// that state and the names of its states; one in which two states share
    /// a name, or a state may hand over to a state that it does not hold, is
    /// refused as malformed. Any other text gives the machine of the
    /// definition that it holds.
    pub open spec fn parsed(text: Seq<char>, res: Result<StateMachine, ParseError>) -> bool {
        match json_read(text) {
            Err(message) => res matches Err(ParseError::MalformedInput(said)) && said@ == message,
            Ok(json) => match res {
                Ok(machine) => machine.spec_definition().decoded_from(json)
                    && machine.spec_definition().runnable(),
                Err(ParseError::MalformedInput(_)) => (forall|definition: StateMachineDefinition|
                    !definition.decoded_from(json)) || exists|definition: StateMachineDefinition|
                    #![trigger definition.decoded_from(json)]
                    definition.decoded_from(json) && state_index(
                        definition.states@,
                        definition.start_at@,
                    ) is Some && !(definition.distinct() && definition.closed()),
                Err(ParseError::StartStateNotDefinedInListOfStates { starts_at, states }) => exists|
                    definition: StateMachineDefinition,
                |
                    #![trigger definition.decoded_from(json)]
                    definition.decoded_from(json) && state_index(
                        definition.states@,
                        definition.start_at@,
                    ) is None && starts_at@ == definition.start_at@ && texts_view(states@)
                        == state_names(definition.states@),
            },
        }
    }

    /// Reads a machine from the text of its definition.
    pub fn parse(definition: &str) -> (res: Result<StateMachine, ParseError>)
        ensures
            Self::parsed(definition@, res),
    {
        let json = match JsonValue::parse(definition) {
            Ok(json) => json,
            Err(message) => {
                return Err(ParseError::MalformedInput(message));
            },
        };
        let decoded = match StateMachineDefinition::decode(&json) {
            Ok(decoded) => decoded,
            Err(e) => {
                return Err(ParseError::MalformedInput(e.message));
            },
        };
        let ghost held = decoded;
        let res = StateMachine::new(decoded);
        proof {
            if res is Err {
                assert(held.decoded_from(json@));
            }
        }
        res
    }

    /// The definition of the machine, which can be run.
    pub fn definition(&self) -> (res: &StateMachineDefinition)
        ensures
            *res == self.spec_definition(),
            res.runnable(),
    {
        proof {
            use_type_invariant(self);
        }
        &self.definition
    }

    /// An execution of the machine on `input`, with `state_execution_handler`
    /// as its host: it is at the start state, has made no step, and holds
    /// the context object of `context`.
    pub fn start<T>(
        &self,
        input: &JsonValue,
        state_execution_handler: T,
        context: Rc<dyn StateMachineContext>,
    ) -> (res: Execution<'_, T>) where T: StateExecutionHandler
        ensures
            res@ == (ExecutionView {
                definition: self.spec_definition(),
                next_state_name: Some(self.spec_definition().start_at@),
                input: input@,
                status: StatusView::Executing,
                context: context.json(),
            }),
            res@.definition.runnable(),
            res.host() == state_execution_handler,
    {
        proof {
            use_type_invariant(self);
        }
        Execution::begin(
            &self.definition,
            state_execution_handler,
            input.clone(),
            context.as_value().clone(),
        )
    }
}

} // verus!
