//! The map state: one run of a nested definition for each item of an array.

use crate::decode::{
    count_of, dynamic_of, found_json, option_view, path_of, read_count, read_dynamic, read_path,
    read_text, read_value, refuse, require, required, text_of, DecodeError,
};
use crate::error_handling::{
    catchers_decoded, read_catchers, read_retriers, retriers_decoded, Catcher, Retrier,
};
use crate::json::{
    lemma_entry_smaller, lemma_member_smaller, lemma_object_json, object_json, Json, JsonValue,
};
use crate::states::all_states::{EndOrNext, States};
use crate::types::{DynamicValue, InvertedJsonPath, MyJsonPath, Parameters, Payload, ResultSelector};
use vstd::prelude::*;

verus! {

/// The nested definition that a map state runs for each item.
#[derive(Debug, PartialEq, Eq)]
pub struct MapStateIterator {
    pub start_at: String,
    pub states: Vec<(String, States)>,
    pub processor_config: Option<JsonValue>,
}

/// Where a map state writes its results.
#[derive(Debug, PartialEq, Eq, Clone, Copy, Structural)]
pub struct ResultWriterConfiguration {}

/// The share of items that may fail, in percent: a number, or the path to
/// one.
#[derive(Debug, PartialEq, Eq)]
pub enum ToleratedFailurePercentage {
    ToleratedFailurePercentage(u32),
    ToleratedFailurePercentagePath(MyJsonPath),
}

/// The number of items that may fail: a number, or the path to one.
#[derive(Debug, PartialEq, Eq)]
pub enum ToleratedFailureCount {
    ToleratedFailureCount(u32),
    ToleratedFailureCountPath(MyJsonPath),
}

/// The most items that one batch holds: a number, or the path to one.
#[derive(Debug, PartialEq, Eq)]
pub enum MaxItemsPerBatch {
    MaxItemsPerBatch(u32),
    MaxItemsPerBatchPath(MyJsonPath),
}

/// The most bytes of input that one batch holds: a number, or the path to
/// one.
#[derive(Debug, PartialEq, Eq)]
pub enum MaxInputBytesPerBatch {
    MaxInputBytesPerBatch(u32),
    MaxInputBytesPerBatchPath(MyJsonPath),
}

/// How a map state groups its items into batches.
#[derive(Debug, PartialEq, Eq)]
pub struct ItemBatcherConfiguration {
    pub batch_input: Option<Payload>,
    pub max_items_per_batch: Option<MaxItemsPerBatch>,
    pub max_input_bytes_per_batch: Option<MaxInputBytesPerBatch>,
}

/// A state that hands over without running its nested definition.
#[derive(Debug, PartialEq, Eq)]
pub struct MapState {
    pub max_concurrency: Option<u32>,
    pub item_processor: MapStateIterator,
    pub items_path: Option<MyJsonPath>,
    pub item_selector: Option<Vec<(InvertedJsonPath, MyJsonPath)>>,
    pub item_batcher: Option<ItemBatcherConfiguration>,
    pub result_writer: Option<ResultWriterConfiguration>,
    pub tolerated_failure_count: Option<u32>,
    pub tolerated_failure_percentage: Option<u32>,
    pub comment: Option<String>,
    pub input_path: Option<DynamicValue>,
    pub output_path: Option<DynamicValue>,
    pub end_or_next: EndOrNext,
    pub result_path: Option<DynamicValue>,
    pub parameters: Option<Parameters>,
    pub result_selector: Option<ResultSelector>,
    pub retry: Option<Vec<Retrier>>,
    pub catch: Option<Vec<Catcher>>,
}

/// Whether states are what the member `States` says, which has to hold an
/// object with at least one member: each member names a state and holds
/// its object, and the states come in the order of the members.
pub open spec fn states_decoded(states: Seq<(String, States)>, found: Option<Json>) -> bool
    decreases states,
{
    found matches Some(Json::Object(members)) && members.len() > 0 && states.len() == members.len()
        && forall|i: int|
        0 <= i < states.len() ==> (#[trigger] states[i]).0@ == members[i].0
            && states[i].1.decoded_from(members[i].1)
}

/// The states that the member `States` holds, which holds `held`.
#[verifier::loop_isolation(false)]
pub fn read_states(held: &JsonValue) -> (res: Result<Vec<(String, States)>, DecodeError>)
    ensures
        res matches Ok(states) ==> states_decoded(states@, Some(held@)),
        res is Err ==> forall|states: Seq<(String, States)>| !states_decoded(states, Some(held@)),
    decreases held@, 0int,
{
    let ghost found = Some(held@);
    match held {
        JsonValue::Object(members) => {
            if members.len() == 0 {
                proof {
                    lemma_object_json(members@);
                }
                return refuse("Expected at least one state in ", "States");
            }
            let ghost all = object_json(members@);
            proof {
                lemma_object_json(members@);
            }
            let mut states: Vec<(String, States)> = Vec::new();
            let mut i: usize = 0;
            while i < members.len()
                invariant
                    i <= members.len(),
                    states.len() == i,
                    forall|k: int|
                        0 <= k < i ==> (#[trigger] states@[k]).0@ == all[k].0
                            && states@[k].1.decoded_from(all[k].1),
                decreases members.len() - i,
            {
                proof {
                    lemma_entry_smaller(held@, i as int);
                }
                match States::decode(&members[i].1) {
                    Ok(state) => {
                        states.push((members[i].0.clone(), state));
                    },
                    Err(e) => {
                        proof {
                            assert forall|other: Seq<(String, States)>|
                                !states_decoded(other, found) by {
                                if states_decoded(other, found) {
                                    assert(other[i as int].1.decoded_from(all[i as int].1));
                                }
                            }
                        }
                        return Err(e);
                    },
                }
                i += 1;
            }
            Ok(states)
        },
        _ => refuse("Expected an object in ", "States"),
    }
}

impl MapStateIterator {
    /// Whether the nested definition is what an object says: `StartAt`
    /// names the state at which it starts, `States` holds its states, and
    /// `ProcessorConfig` what the field of its name holds.
    pub open spec fn decoded_from(self, json: Json) -> bool
        decreases self,
    {
        &&& json is Object
        &&& required(text_of(json.field("StartAt"@))) == Some(self.start_at@)
        &&& states_decoded(self.states@, json.field("States"@))
        &&& json.field("ProcessorConfig"@) == option_view(self.processor_config)
    }

    /// Reads a nested definition from an object.
    pub fn decode(json: &JsonValue) -> (res: Result<MapStateIterator, DecodeError>)
        ensures
            res matches Ok(iterator) ==> iterator.decoded_from(json@),
            res is Err ==> forall|iterator: MapStateIterator| !iterator.decoded_from(json@),
        decreases json@, 1int,
    {
        if !json.is_object() {
            return refuse("Expected an object for ", "an item processor");
        }
        let start_at = require(read_text(json.field("StartAt"), "StartAt")?, "StartAt")?;
        proof {
            lemma_member_smaller(json@, "States"@);
        }
        let states = match json.field("States") {
            None => {
                return refuse("Missing ", "States");
            },
            Some(held) => match read_states(held) {
                Ok(states) => states,
                Err(e) => {
                    proof {
                        assert forall|other: MapStateIterator| !other.decoded_from(json@) by {
                            assert(!states_decoded(other.states@, json@.field("States"@)));
                        }
                    }
                    return Err(e);
                },
            },
        };
        let processor_config = read_value(json.field("ProcessorConfig"));
        Ok(MapStateIterator { start_at, states, processor_config })
    }
}

/// Whether a selector of items is what a member says that may be missing:
/// it holds an object whose members each hold a JSONPath query.
pub open spec fn selector_decoded(
    selector: Option<Vec<(InvertedJsonPath, MyJsonPath)>>,
    found: Option<Json>,
) -> bool {
    match found {
        None => selector is None,
        Some(Json::Object(members)) => selector matches Some(list) && list@.len() == members.len()
            && forall|i: int|
            0 <= i < members.len() ==> (#[trigger] list@[i]).0@ == members[i].0 && path_of(
                Some(members[i].1),
            ) == Some(Some(list@[i].1@)),
        Some(_) => false,
    }
}

/// The selector of items that the member `ItemSelector` holds.
#[verifier::loop_isolation(false)]
pub fn read_selector(found: Option<&JsonValue>) -> (res: Result<
    Option<Vec<(InvertedJsonPath, MyJsonPath)>>,
    DecodeError,
>)
    ensures
        res matches Ok(selector) ==> selector_decoded(selector, found_json(found)),
        res is Err ==> forall|selector: Option<Vec<(InvertedJsonPath, MyJsonPath)>>|
            !selector_decoded(selector, found_json(found)),
{
    match found {
        None => Ok(None),
        Some(JsonValue::Object(members)) => {
            let ghost all = object_json(members@);
            proof {
                lemma_object_json(members@);
            }
            let mut list: Vec<(InvertedJsonPath, MyJsonPath)> = Vec::new();
            let mut i: usize = 0;
            while i < members.len()
                invariant
                    i <= members.len(),
                    list.len() == i,
                    forall|k: int|
                        0 <= k < i ==> (#[trigger] list@[k]).0@ == all[k].0 && path_of(
                            Some(all[k].1),
                        ) == Some(Some(list@[k].1@)),
                decreases members.len() - i,
            {
                match read_path(Some(&members[i].1), "ItemSelector") {
                    Ok(Some(path)) => {
                        list.push((members[i].0.clone(), path));
                    },
                    Ok(None) => {
                        return refuse("Expected a path in ", "ItemSelector");
                    },
                    Err(e) => {
                        proof {
                            assert forall|other: Option<Vec<(InvertedJsonPath, MyJsonPath)>>|
                                !selector_decoded(other, found_json(found)) by {
                                if selector_decoded(other, found_json(found)) {
                                    assert(other->Some_0@[i as int].0@ == all[i as int].0);
                                }
                            }
                        }
                        return Err(e);
                    },
                }
                i += 1;
            }
            Ok(Some(list))
        },
        Some(_) => refuse("Expected an object in ", "ItemSelector"),
    }
}

/// Whether a limit on the items of a batch is what an object says: the
/// count of its member `MaxItemsPerBatch`, or the path of its member
/// `MaxItemsPerBatchPath`, or none where it has neither. An object with
/// both says nothing.
pub open spec fn max_items_decoded(limit: Option<MaxItemsPerBatch>, json: Json) -> bool {
    match (json.field("MaxItemsPerBatch"@), json.field("MaxItemsPerBatchPath"@)) {
        (Some(_), Some(_)) => false,
        (Some(count), None) => limit matches Some(MaxItemsPerBatch::MaxItemsPerBatch(n))
            && count_of(Some(count)) == Some(Some(n)),
        (None, Some(path)) => limit matches Some(MaxItemsPerBatch::MaxItemsPerBatchPath(p))
            && path_of(Some(path)) == Some(Some(p@)),
        (None, None) => limit is None,
    }
}

/// Whether a limit on the bytes of a batch is what an object says: the
/// count of its member `MaxInputBytesPerBatch`, or the path of its member
/// `MaxInputBytesPerBatchPath`, or none where it has neither. An object
/// with both says nothing.
pub open spec fn max_bytes_decoded(limit: Option<MaxInputBytesPerBatch>, json: Json) -> bool {
    match (json.field("MaxInputBytesPerBatch"@), json.field("MaxInputBytesPerBatchPath"@)) {
        (Some(_), Some(_)) => false,
        (Some(count), None) => limit matches Some(MaxInputBytesPerBatch::MaxInputBytesPerBatch(n))
            && count_of(Some(count)) == Some(Some(n)),
        (None, Some(path)) => limit matches Some(
            MaxInputBytesPerBatch::MaxInputBytesPerBatchPath(p),
        ) && path_of(Some(path)) == Some(Some(p@)),
        (None, None) => limit is None,
    }
}

/// The limit on the items of a batch that an object writes.
pub fn read_max_items(json: &JsonValue) -> (res: Result<Option<MaxItemsPerBatch>, DecodeError>)
    ensures
        res matches Ok(limit) ==> max_items_decoded(limit, json@),
        res is Err ==> forall|limit: Option<MaxItemsPerBatch>| !max_items_decoded(limit, json@),
{
    let count = json.field("MaxItemsPerBatch");
    let path = json.field("MaxItemsPerBatchPath");
    if count.is_some() && path.is_some() {
        return refuse("Expected only one of MaxItemsPerBatch and ", "MaxItemsPerBatchPath");
    }
    if count.is_some() {
        let n = require(read_count(count, "MaxItemsPerBatch")?, "MaxItemsPerBatch")?;
        Ok(Some(MaxItemsPerBatch::MaxItemsPerBatch(n)))
    } else if path.is_some() {
        let p = require(read_path(path, "MaxItemsPerBatchPath")?, "MaxItemsPerBatchPath")?;
        Ok(Some(MaxItemsPerBatch::MaxItemsPerBatchPath(p)))
    } else {
        Ok(None)
    }
}

/// The limit on the bytes of a batch that an object writes.
pub fn read_max_bytes(json: &JsonValue) -> (res: Result<Option<MaxInputBytesPerBatch>, DecodeError>)
    ensures
        res matches Ok(limit) ==> max_bytes_decoded(limit, json@),
        res is Err ==> forall|limit: Option<MaxInputBytesPerBatch>| !max_bytes_decoded(limit, json@),
{
    let count = json.field("MaxInputBytesPerBatch");
    let path = json.field("MaxInputBytesPerBatchPath");
    if count.is_some() && path.is_some() {
        return refuse(
            "Expected only one of MaxInputBytesPerBatch and ",
            "MaxInputBytesPerBatchPath",
        );
    }
    if count.is_some() {
        let n = require(read_count(count, "MaxInputBytesPerBatch")?, "MaxInputBytesPerBatch")?;
        Ok(Some(MaxInputBytesPerBatch::MaxInputBytesPerBatch(n)))
    } else if path.is_some() {
        let p = require(
            read_path(path, "MaxInputBytesPerBatchPath")?,
            "MaxInputBytesPerBatchPath",
        )?;
        Ok(Some(MaxInputBytesPerBatch::MaxInputBytesPerBatchPath(p)))
    } else {
        Ok(None)
    }
}

impl ItemBatcherConfiguration {
    /// Whether the configuration is what an object says: `BatchInput` holds
    /// the input of each batch, and the two limits are each written as a
    /// count or as a path, not both.
    pub open spec fn decoded_from(self, json: Json) -> bool {
        &&& json is Object
        &&& json.field("BatchInput"@) == option_view(self.batch_input)
        &&& max_items_decoded(self.max_items_per_batch, json)
        &&& max_bytes_decoded(self.max_input_bytes_per_batch, json)
    }

    /// Reads how a map state groups its items from an object.
    pub fn decode(json: &JsonValue) -> (res: Result<ItemBatcherConfiguration, DecodeError>)
        ensures
            res matches Ok(batcher) ==> batcher.decoded_from(json@),
            res is Err ==> forall|batcher: ItemBatcherConfiguration| !batcher.decoded_from(json@),
    {
        if !json.is_object() {
            return refuse("Expected an object in ", "ItemBatcher");
        }
        let batch_input = read_value(json.field("BatchInput"));
        let max_items_per_batch = read_max_items(json)?;
        let max_input_bytes_per_batch = read_max_bytes(json)?;
        Ok(ItemBatcherConfiguration { batch_input, max_items_per_batch, max_input_bytes_per_batch })
    }
}

/// Whether a batcher is what a member says that may be missing.
pub open spec fn batcher_decoded(batcher: Option<ItemBatcherConfiguration>, found: Option<Json>) -> bool {
    match found {
        None => batcher is None,
        Some(held) => batcher matches Some(b) && b.decoded_from(held),
    }
}

/// Whether a writer of results is what a member says that may be missing:
/// it holds an object.
pub open spec fn writer_decoded(writer: Option<ResultWriterConfiguration>, found: Option<Json>) -> bool {
    match found {
        None => writer is None,
        Some(held) => writer is Some && held is Object,
    }
}

/// The object of the nested definition of a map state: the member
/// `ItemProcessor`, or `Iterator` where that is missing.
pub open spec fn processor_field(json: Json) -> Option<Json> {
    match json.field("ItemProcessor"@) {
        Some(held) => Some(held),
        None => json.field("Iterator"@),
    }
}

impl MapState {
    /// Whether the state is what an object says: `ItemProcessor`, or
    /// `Iterator` in its place, holds the nested definition; every other
    /// member holds what the field of its name holds; `End` or `Next` says
    /// what follows.
    pub open spec fn decoded_from(self, json: Json) -> bool
        decreases self,
    {
        &&& json is Object
        &&& count_of(json.field("MaxConcurrency"@)) == Some(self.max_concurrency)
        &&& processor_field(json) matches Some(held) && self.item_processor.decoded_from(held)
        &&& path_of(json.field("ItemsPath"@)) == Some(option_view(self.items_path))
        &&& selector_decoded(self.item_selector, json.field("ItemSelector"@))
        &&& batcher_decoded(self.item_batcher, json.field("ItemBatcher"@))
        &&& writer_decoded(self.result_writer, json.field("ResultWriter"@))
        &&& count_of(json.field("ToleratedFailureCount"@)) == Some(self.tolerated_failure_count)
        &&& count_of(json.field("ToleratedFailurePercentage"@)) == Some(
            self.tolerated_failure_percentage,
        )
        &&& text_of(json.field("Comment"@)) == Some(option_view(self.comment))
        &&& dynamic_of(json.field("InputPath"@)) == Some(option_view(self.input_path))
        &&& dynamic_of(json.field("OutputPath"@)) == Some(option_view(self.output_path))
        &&& EndOrNext::read(json) == Some(self.end_or_next@)
        &&& dynamic_of(json.field("ResultPath"@)) == Some(option_view(self.result_path))
        &&& json.field("Parameters"@) == option_view(self.parameters)
        &&& json.field("ResultSelector"@) == option_view(self.result_selector)
        &&& retriers_decoded(self.retry, json.field("Retry"@))
        &&& catchers_decoded(self.catch, json.field("Catch"@))
    }

    /// Reads a map state from the object of a state.
    pub fn decode(json: &JsonValue) -> (res: Result<MapState, DecodeError>)
        ensures
            res matches Ok(map) ==> map.decoded_from(json@),
            res is Err ==> forall|map: MapState| !map.decoded_from(json@),
        decreases json@, 2int,
    {
        if !json.is_object() {
            return refuse("Expected an object for ", "a map state");
        }
        let max_concurrency = read_count(json.field("MaxConcurrency"), "MaxConcurrency")?;
        let held = match json.field("ItemProcessor") {
            Some(held) => Some(held),
            None => json.field("Iterator"),
        };
        proof {
            lemma_member_smaller(json@, "ItemProcessor"@);
            lemma_member_smaller(json@, "Iterator"@);
        }
        let item_processor = match held {
            None => {
                return refuse("Missing ", "ItemProcessor");
            },
            Some(held) => match MapStateIterator::decode(held) {
                Ok(iterator) => iterator,
                Err(e) => {
                    proof {
                        assert forall|other: MapState| !other.decoded_from(json@) by {
                            assert(!other.item_processor.decoded_from(held@));
                        }
                    }
                    return Err(e);
                },
            },
        };
        let items_path = read_path(json.field("ItemsPath"), "ItemsPath")?;
        let item_selector = read_selector(json.field("ItemSelector"))?;
        let item_batcher = match json.field("ItemBatcher") {
            None => None,
            Some(held) => Some(ItemBatcherConfiguration::decode(held)?),
        };
        let result_writer = match json.field("ResultWriter") {
            None => None,
            Some(held) => if held.is_object() {
                Some(ResultWriterConfiguration {  })
            } else {
                return refuse("Expected an object in ", "ResultWriter");
            },
        };
        let tolerated_failure_count = read_count(
            json.field("ToleratedFailureCount"),
            "ToleratedFailureCount",
        )?;
        let tolerated_failure_percentage = read_count(
            json.field("ToleratedFailurePercentage"),
            "ToleratedFailurePercentage",
        )?;
        let comment = read_text(json.field("Comment"), "Comment")?;
        let input_path = read_dynamic(json.field("InputPath"), "InputPath")?;
        let output_path = read_dynamic(json.field("OutputPath"), "OutputPath")?;
        let end_or_next = EndOrNext::decode(json)?;
        let result_path = read_dynamic(json.field("ResultPath"), "ResultPath")?;
        let parameters = read_value(json.field("Parameters"));
        let result_selector = read_value(json.field("ResultSelector"));
        let retry = read_retriers(json.field("Retry"))?;
        let catch = read_catchers(json.field("Catch"))?;
        Ok(
            MapState {
                max_concurrency,
                item_processor,
                items_path,
                item_selector,
                item_batcher,
                result_writer,
                tolerated_failure_count,
                tolerated_failure_percentage,
                comment,
                input_path,
                output_path,
                end_or_next,
                result_path,
                parameters,
                result_selector,
                retry,
                catch,
            },
        )
    }
}

} // verus!
