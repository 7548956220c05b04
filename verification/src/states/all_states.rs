//! The sum of all states, and how a state hands over.

use crate::decode::{
    flag_of, read_flag, read_text, refuse, require, required, text_of, DecodeError,
};
use crate::error_handling::Catcher;
use crate::json::{Json, JsonValue};
use crate::text::str_equal;
use crate::states::choice::Choice;
use crate::states::fail::Fail;
use crate::states::map::MapState;
use crate::states::parallel::Parallel;
use crate::states::pass::Pass;
use crate::states::succeed::Succeed;
use crate::states::task::Task;
use crate::states::wait::Wait;
use vstd::prelude::*;

verus! {

/// A state of a definition.
#[derive(Debug, PartialEq, Eq)]
pub enum States {
    Task(Task),
    Parallel(Parallel),
    MapState(MapState),
    Pass(Pass),
    Wait(Wait),
    Choice(Choice),
    Succeed(Succeed),
    Fail(Fail),
}

/// What follows a state: the end of the execution, or the state of that
/// name.
#[derive(Debug, PartialEq, Eq)]
pub enum EndOrNext {
    End,
    Next(String),
}

impl View for EndOrNext {
    type V = Option<Seq<char>>;

    /// The name of the state that follows, if any.
    open spec fn view(&self) -> Option<Seq<char>> {
        match self {
            EndOrNext::End => None,
            EndOrNext::Next(name) => Some(name@),
        }
    }
}

impl Clone for EndOrNext {
    fn clone(&self) -> (res: Self)
        ensures
            res@ == self@,
    {
        match self {
            EndOrNext::End => EndOrNext::End,
            EndOrNext::Next(name) => EndOrNext::Next(name.clone()),
        }
    }
}

impl EndOrNext {
    /// What an object says of what follows a state: the end, where it has a
    /// member `End` with a truth value, whatever the value; else the state
    /// that its member `Next` names. Nothing where `End` holds something
    /// else, or `End` is missing and `Next` names no state.
    pub open spec fn read(json: Json) -> Option<Option<Seq<char>>> {
        match flag_of(json.field("End"@)) {
            None => None,
            Some(Some(_)) => Some(None),
            Some(None) => match required(text_of(json.field("Next"@))) {
                Some(name) => Some(Some(name)),
                None => None,
            },
        }
    }

    /// Reads what follows a state from the object of the state.
    pub fn decode(json: &JsonValue) -> (res: Result<EndOrNext, DecodeError>)
        ensures
            match Self::read(json@) {
                Some(next) => res matches Ok(found) && found@ == next,
                None => res is Err,
            },
    {
        match read_flag(json.field("End"), "End")? {
            Some(_) => Ok(EndOrNext::End),
            None => {
                let name = require(read_text(json.field("Next"), "Next")?, "Next")?;
                Ok(EndOrNext::Next(name))
            },
        }
    }

    /// The name of the state that follows, if any.
    pub fn into_next_state_name(self) -> (res: Option<String>)
        ensures
            match self {
                EndOrNext::End => res is None,
                EndOrNext::Next(name) => res == Some(name),
            },
    {
        match self {
            EndOrNext::End => None,
            EndOrNext::Next(name) => Some(name),
        }
    }
}

impl States {
    /// The name by which an object says of what kind a state is.
    pub open spec fn kind_name(self) -> Seq<char> {
        match self {
            States::Task(_) => "Task"@,
            States::Parallel(_) => "Parallel"@,
            States::MapState(_) => "Map"@,
            States::Pass(_) => "Pass"@,
            States::Wait(_) => "Wait"@,
            States::Choice(_) => "Choice"@,
            States::Succeed(_) => "Succeed"@,
            States::Fail(_) => "Fail"@,
        }
    }

    /// Whether the state is what an object says: its member `Type` names the
    /// kind of the state, and the object is read as a state of that kind.
    pub open spec fn decoded_from(self, json: Json) -> bool
        decreases self,
    {
        &&& required(text_of(json.field("Type"@))) == Some(self.kind_name())
        &&& match self {
            States::Task(task) => task.decoded_from(json),
            States::Parallel(parallel) => parallel.decoded_from(json),
            States::MapState(map) => map.decoded_from(json),
            States::Pass(pass) => pass.decoded_from(json),
            States::Wait(wait) => wait.decoded_from(json),
            States::Choice(choice) => choice.decoded_from(json),
            States::Succeed(succeed) => succeed.decoded_from(json),
            States::Fail(fail) => fail.decoded_from(json),
        }
    }

    /// The name of a kind belongs to that kind alone.
    pub proof fn lemma_kind_names(self)
        ensures
            self.kind_name() == "Task"@ <==> self is Task,
            self.kind_name() == "Parallel"@ <==> self is Parallel,
            self.kind_name() == "Map"@ <==> self is MapState,
            self.kind_name() == "Pass"@ <==> self is Pass,
            self.kind_name() == "Wait"@ <==> self is Wait,
            self.kind_name() == "Choice"@ <==> self is Choice,
            self.kind_name() == "Succeed"@ <==> self is Succeed,
            self.kind_name() == "Fail"@ <==> self is Fail,
    {
        reveal_strlit("Task");
        reveal_strlit("Parallel");
        reveal_strlit("Map");
        reveal_strlit("Pass");
        reveal_strlit("Wait");
        reveal_strlit("Choice");
        reveal_strlit("Succeed");
        reveal_strlit("Fail");
        assert("Task"@.len() == 4 && "Task"@[0] == 'T');
        assert("Pass"@.len() == 4 && "Pass"@[0] == 'P');
        assert("Wait"@.len() == 4 && "Wait"@[0] == 'W');
        assert("Fail"@.len() == 4 && "Fail"@[0] == 'F');
        assert("Map"@.len() == 3);
        assert("Choice"@.len() == 6);
        assert("Succeed"@.len() == 7);
        assert("Parallel"@.len() == 8);
    }

    /// Reads a state from an object.
    pub fn decode(json: &JsonValue) -> (res: Result<States, DecodeError>)
        ensures
            res matches Ok(state) ==> state.decoded_from(json@),
            res is Err ==> forall|state: States| !state.decoded_from(json@),
        decreases json@, 3int,
    {
        let kind = require(read_text(json.field("Type"), "Type")?, "Type")?;
        let kind = kind.as_str();
        if str_equal(kind, "Task") {
            match Task::decode(json) {
                Ok(task) => Ok(States::Task(task)),
                Err(e) => {
                    proof {
                        assert forall|other: States| !other.decoded_from(json@) by {
                            other.lemma_kind_names();
                            if let States::Task(inner) = other {
                                assert(!inner.decoded_from(json@));
                            }
                        }
                    }
                    Err(e)
                },
            }
        } else if str_equal(kind, "Parallel") {
            match Parallel::decode(json) {
                Ok(parallel) => Ok(States::Parallel(parallel)),
                Err(e) => {
                    proof {
                        assert forall|other: States| !other.decoded_from(json@) by {
                            other.lemma_kind_names();
                            if let States::Parallel(inner) = other {
                                assert(!inner.decoded_from(json@));
                            }
                        }
                    }
                    Err(e)
                },
            }
        } else if str_equal(kind, "Map") {
            match MapState::decode(json) {
                Ok(map) => Ok(States::MapState(map)),
                Err(e) => {
                    proof {
                        assert forall|other: States| !other.decoded_from(json@) by {
                            other.lemma_kind_names();
                            if let States::MapState(inner) = other {
                                assert(!inner.decoded_from(json@));
                            }
                        }
                    }
                    Err(e)
                },
            }
        } else if str_equal(kind, "Pass") {
            match Pass::decode(json) {
                Ok(pass) => Ok(States::Pass(pass)),
                Err(e) => {
                    proof {
                        assert forall|other: States| !other.decoded_from(json@) by {
                            other.lemma_kind_names();
                            if let States::Pass(inner) = other {
                                assert(!inner.decoded_from(json@));
                            }
                        }
                    }
                    Err(e)
                },
            }
        } else if str_equal(kind, "Wait") {
            match Wait::decode(json) {
                Ok(wait) => Ok(States::Wait(wait)),
                Err(e) => {
                    proof {
                        assert forall|other: States| !other.decoded_from(json@) by {
                            other.lemma_kind_names();
                            if let States::Wait(inner) = other {
                                assert(!inner.decoded_from(json@));
                            }
                        }
                    }
                    Err(e)
                },
            }
        } else if str_equal(kind, "Choice") {
            match Choice::decode(json) {
                Ok(choice) => Ok(States::Choice(choice)),
                Err(e) => {
                    proof {
                        assert forall|other: States| !other.decoded_from(json@) by {
                            other.lemma_kind_names();
                            if let States::Choice(inner) = other {
                                assert(!inner.decoded_from(json@));
                            }
                        }
                    }
                    Err(e)
                },
            }
        } else if str_equal(kind, "Succeed") {
            match Succeed::decode(json) {
                Ok(succeed) => Ok(States::Succeed(succeed)),
                Err(e) => {
                    proof {
                        assert forall|other: States| !other.decoded_from(json@) by {
                            other.lemma_kind_names();
                            if let States::Succeed(inner) = other {
                                assert(!inner.decoded_from(json@));
                            }
                        }
                    }
                    Err(e)
                },
            }
        } else if str_equal(kind, "Fail") {
            match Fail::decode(json) {
                Ok(fail) => Ok(States::Fail(fail)),
                Err(e) => {
                    proof {
                        assert forall|other: States| !other.decoded_from(json@) by {
                            other.lemma_kind_names();
                            if let States::Fail(inner) = other {
                                assert(!inner.decoded_from(json@));
                            }
                        }
                    }
                    Err(e)
                },
            }
        } else {
            proof {
                assert forall|other: States| !other.decoded_from(json@) by {
                    other.lemma_kind_names();
                }
            }
            refuse("Unknown kind of state: ", kind)
        }
    }
}

/// Whether one of the catchers hands over to the state `name`.
pub open spec fn catches_to(catch: Option<Vec<Catcher>>, name: Seq<char>) -> bool {
    catch matches Some(catchers) && exists|i: int|
        0 <= i < catchers@.len() && (#[trigger] catchers@[i]).next@ == name
}

impl States {
    /// Whether the state may hand over to the state `name`: by its `Next`,
    /// by one of its catchers, by one of its rules or by its default.
    pub open spec fn leads_to(self, name: Seq<char>) -> bool {
        match self {
            States::Task(task) => task.end_or_next@ == Some(name) || catches_to(task.catch, name),
            States::Parallel(parallel) => parallel.end_or_next@ == Some(name) || catches_to(
                parallel.catch,
                name,
            ),
            States::MapState(map) => map.end_or_next@ == Some(name) || catches_to(map.catch, name),
            States::Pass(pass) => pass.end_or_next@ == Some(name),
            States::Wait(wait) => wait.end_or_next@ == Some(name),
            States::Choice(choice) => (choice.default matches Some(default) && default@ == name)
                || exists|i: int|
                0 <= i < choice.choices@.len() && (#[trigger] choice.choices@[i]).next@ == name,
            States::Succeed(_) => false,
            States::Fail(_) => false,
        }
    }

    /// The names of the states to which the state may hand over.
    #[verifier::loop_isolation(false)]
    pub fn targets(&self) -> (res: Vec<&String>)
        ensures
            forall|name: Seq<char>|
                self.leads_to(name) <==> exists|k: int|
                    0 <= k < res@.len() && (#[trigger] res@[k])@ == name,
    {
        let mut out: Vec<&String> = Vec::new();
        let (end_or_next, catch): (Option<&EndOrNext>, Option<&Vec<Catcher>>) = match self {
            States::Task(task) => (Some(&task.end_or_next), task.catch.as_ref()),
            States::Parallel(parallel) => (Some(&parallel.end_or_next), parallel.catch.as_ref()),
            States::MapState(map) => (Some(&map.end_or_next), map.catch.as_ref()),
            States::Pass(pass) => (Some(&pass.end_or_next), None),
            States::Wait(wait) => (Some(&wait.end_or_next), None),
            States::Choice(choice) => {
                if let Some(default) = &choice.default {
                    out.push(default);
                }
                let ghost first = out@;
                assert(match choice.default {
                    Some(default) => first.len() == 1 && first[0]@ == default@,
                    None => first.len() == 0,
                });
                let mut i: usize = 0;
                while i < choice.choices.len()
                    invariant
                        i <= choice.choices.len(),
                        out@.len() == first.len() + i,
                        forall|k: int| 0 <= k < first.len() ==> out@[k] == first[k],
                        forall|k: int|
                            0 <= k < i ==> (#[trigger] out@[first.len() + k])@
                                == choice.choices@[k].next@,
                    decreases choice.choices.len() - i,
                {
                    out.push(&choice.choices[i].next);
                    i += 1;
                }
                proof {
                    assert forall|name: Seq<char>| self.leads_to(name) implies exists|k: int|
                        0 <= k < out@.len() && (#[trigger] out@[k])@ == name by {
                        if choice.default matches Some(default) && default@ == name {
                            assert(out@[0]@ == name);
                        } else {
                            let i = choose|i: int|
                                0 <= i < choice.choices@.len() && (#[trigger] choice.choices@[i]).next@
                                    == name;
                            assert(out@[first.len() + i]@ == name);
                        }
                    }
                    assert forall|name: Seq<char>|
                        (exists|k: int| 0 <= k < out@.len() && (#[trigger] out@[k])@ == name)
                        implies self.leads_to(name) by {
                        let k = choose|k: int| 0 <= k < out@.len() && (#[trigger] out@[k])@ == name;
                        if k >= first.len() {
                            assert(out@[first.len() + (k - first.len())]@ == name);
                            assert(choice.choices@[k - first.len()].next@ == name);
                        }
                    }
                }
                return out;
            },
            States::Succeed(_) => (None, None),
            States::Fail(_) => (None, None),
        };
        if let Some(EndOrNext::Next(name)) = end_or_next {
            out.push(name);
        }
        let ghost first = out@;
        assert(match end_or_next {
            Some(EndOrNext::Next(name)) => first.len() == 1 && first[0]@ == name@,
            _ => first.len() == 0,
        });
        if let Some(catchers) = catch {
            let mut i: usize = 0;
            while i < catchers.len()
                invariant
                    i <= catchers.len(),
                    out@.len() == first.len() + i,
                    forall|k: int| 0 <= k < first.len() ==> out@[k] == first[k],
                    forall|k: int|
                        0 <= k < i ==> (#[trigger] out@[first.len() + k])@ == catchers@[k].next@,
                decreases catchers.len() - i,
            {
                out.push(&catchers[i].next);
                i += 1;
            }
        }
        proof {
            let catchers: Seq<Catcher> = match catch {
                Some(list) => list@,
                None => Seq::empty(),
            };
            assert forall|name: Seq<char>| self.leads_to(name) implies exists|k: int|
                0 <= k < out@.len() && (#[trigger] out@[k])@ == name by {
                if end_or_next matches Some(EndOrNext::Next(next)) && next@ == name {
                    assert(out@[0]@ == name);
                } else {
                    let i = choose|i: int|
                        0 <= i < catchers.len() && (#[trigger] catchers[i]).next@ == name;
                    assert(out@[first.len() + i]@ == name);
                }
            }
            assert forall|name: Seq<char>|
                (exists|k: int| 0 <= k < out@.len() && (#[trigger] out@[k])@ == name)
                implies self.leads_to(name) by {
                let k = choose|k: int| 0 <= k < out@.len() && (#[trigger] out@[k])@ == name;
                if k >= first.len() {
                    assert(out@[first.len() + (k - first.len())]@ == name);
                    assert(catchers[k - first.len()].next@ == name);
                }
            }
        }
        out
    }
}

} // verus!
