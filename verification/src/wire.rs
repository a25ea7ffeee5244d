//! The JSON shape of every value that travels: which tree stands for a
//! message or a response, and which trees are read as one.
//!
//! A variant without content is a bare string (`"List"`); a variant with
//! content is an object with the variant's name as its one key. A task and a
//! task delta are objects with one member per field, written in the order of
//! the fields and read in any order. An id is a number, a
//! priority the name of its variant, an absent optional value `null`, and a
//! due date the array of its nine numbers.

use crate::delta::{Delta, TaskDelta, TaskDeltaView};
use crate::error::{RpcErrorView, YabuRpcError};
use crate::json::{
    distinct_keys, has_key, items_view, json_array, json_as_array, json_as_bool, json_as_i64,
    json_as_str, json_bool, json_get, json_insert, json_int, json_is_null, json_null,
    json_object, json_object_len, json_string, lemma_lookup, lemma_put_new, lookup, value_view,
    JsonView,
};
use crate::message::{tasks_view, Message, MessageView, Response, ResponseView};
use crate::task::{same_text, Priority, Task, TaskId, TaskView};
use crate::timestamp::{timestamp_from_parts, Timestamp, TimestampView};
use vstd::prelude::*;
use vstd::string::*;

verus! {

/// The object with one member.
pub open spec fn tagged(tag: Seq<char>, content: JsonView) -> JsonView {
    JsonView::Object(seq![(tag, content)])
}

/// An id is a plain number.
pub open spec fn id_json(id: u32) -> JsonView {
    JsonView::Int(id as int)
}

/// An absent id is `null`.
pub open spec fn optional_id_json(id: Option<u32>) -> JsonView {
    match id {
        Some(id) => id_json(id),
        None => JsonView::Null,
    }
}

/// A priority is the name of its variant.
pub open spec fn priority_json(priority: Priority) -> JsonView {
    JsonView::Str(priority.spec_wire_name())
}

/// A due date is the array of its nine numbers: year, day of the year, hour,
/// minute, second, nanosecond, and the offset's hours, minutes and seconds.
pub open spec fn timestamp_json(t: TimestampView) -> JsonView {
    JsonView::Array(
        seq![
            JsonView::Int(t.year as int),
            JsonView::Int(t.ordinal as int),
            JsonView::Int(t.hour as int),
            JsonView::Int(t.minute as int),
            JsonView::Int(t.second as int),
            JsonView::Int(t.nanosecond as int),
            JsonView::Int(t.offset_hours as int),
            JsonView::Int(t.offset_minutes as int),
            JsonView::Int(t.offset_seconds as int),
        ],
    )
}

/// An absent due date is `null`.
pub open spec fn due_date_json(due: Option<TimestampView>) -> JsonView {
    match due {
        Some(t) => timestamp_json(t),
        None => JsonView::Null,
    }
}

/// A task is an object with one member per field, in the order of the
/// fields.
pub open spec fn task_json(task: TaskView) -> JsonView {
    JsonView::Object(
        seq![
            ("id"@, optional_id_json(task.id)),
            ("complete"@, JsonView::Bool(task.complete)),
            ("description"@, JsonView::Str(task.description)),
            ("priority"@, priority_json(task.priority)),
            ("due_date"@, due_date_json(task.due_date)),
        ],
    )
}

/// A delta is `"Unchanged"`, or the new value under the key `Changed`.
pub open spec fn delta_json(delta: Delta<JsonView>) -> JsonView {
    match delta {
        Delta::Unchanged => JsonView::Str("Unchanged"@),
        Delta::Changed(value) => tagged("Changed"@, value),
    }
}

/// The tree of a delta of the flag `complete`.
pub open spec fn complete_delta_json(delta: Delta<bool>) -> JsonView {
    delta_json(
        match delta {
            Delta::Unchanged => Delta::Unchanged,
            Delta::Changed(b) => Delta::Changed(JsonView::Bool(b)),
        },
    )
}

/// The tree of a delta of the description.
pub open spec fn description_delta_json(delta: Delta<Seq<char>>) -> JsonView {
    delta_json(
        match delta {
            Delta::Unchanged => Delta::Unchanged,
            Delta::Changed(text) => Delta::Changed(JsonView::Str(text)),
        },
    )
}

/// The tree of a delta of the priority.
pub open spec fn priority_delta_json(delta: Delta<Priority>) -> JsonView {
    delta_json(
        match delta {
            Delta::Unchanged => Delta::Unchanged,
            Delta::Changed(p) => Delta::Changed(priority_json(p)),
        },
    )
}

/// The tree of a delta of the due date. A due date that is taken away is
/// `null` under the key `Changed`.
pub open spec fn due_date_delta_json(delta: Delta<Option<TimestampView>>) -> JsonView {
    delta_json(
        match delta {
            Delta::Unchanged => Delta::Unchanged,
            Delta::Changed(due) => Delta::Changed(due_date_json(due)),
        },
    )
}

/// A task delta is an object with one member per field, in the order of the
/// fields.
pub open spec fn task_delta_json(delta: TaskDeltaView) -> JsonView {
    JsonView::Object(
        seq![
            ("complete"@, complete_delta_json(delta.complete)),
            ("description"@, description_delta_json(delta.description)),
            ("priority"@, priority_delta_json(delta.priority)),
            ("due_date"@, due_date_delta_json(delta.due_date)),
        ],
    )
}

/// The tree that stands for a request.
pub open spec fn message_json(message: MessageView) -> JsonView {
    match message {
        MessageView::Add(task) => tagged("Add"@, task_json(task)),
        MessageView::List => JsonView::Str("List"@),
        MessageView::Update(id, delta) => tagged(
            "Update"@,
            JsonView::Array(seq![id_json(id), task_delta_json(delta)]),
        ),
        MessageView::Remove(id) => tagged("Remove"@, id_json(id)),
    }
}

/// The tree that stands for an error inside a response.
pub open spec fn rpc_error_json(error: RpcErrorView) -> JsonView {
    match error {
        RpcErrorView::TaskDoesntExist(id) => tagged("TaskDoesntExist"@, id_json(id)),
        RpcErrorView::UnknownPriority(text) => tagged("UnknownPriority"@, JsonView::Str(text)),
    }
}

/// The trees of a list of tasks.
pub open spec fn tasks_json(tasks: Seq<TaskView>) -> Seq<JsonView> {
    tasks.map_values(|task: TaskView| task_json(task))
}

/// The tree that stands for an answer.
pub open spec fn response_json(response: ResponseView) -> JsonView {
    match response {
        ResponseView::Nothing => JsonView::Str("Nothing"@),
        ResponseView::Tasks(tasks) => tagged("Tasks"@, JsonView::Array(tasks_json(tasks))),
        ResponseView::Error(error) => tagged("Error"@, rpc_error_json(error)),
    }
}

/// The tree with one member.
fn tagged_value(tag: &str, content: serde_json::Value) -> (r: serde_json::Value)
    ensures
        value_view(r) == tagged(tag@, value_view(content)),
{
    let mut object = json_object();
    json_insert(&mut object, tag, content);
    assert(value_view(object)->Object_0 =~= seq![(tag@, value_view(content))]);
    object
}

/// Puts a member of a new key last.
fn add_member(object: &mut serde_json::Value, key: &str, value: serde_json::Value)
    requires
        value_view(*old(object)) is Object,
        forall|i: int|
            0 <= i < value_view(*old(object))->Object_0.len() ==> (
            #[trigger] value_view(*old(object))->Object_0[i]).0 != key@,
    ensures
        value_view(*final(object)) == JsonView::Object(
            value_view(*old(object))->Object_0.push((key@, value_view(value))),
        ),
{
    proof {
        lemma_put_new(value_view(*object)->Object_0, key@, value_view(value));
    }
    json_insert(object, key, value);
}

fn id_to_json(id: &TaskId) -> (r: serde_json::Value)
    ensures
        value_view(r) == id_json(id@),
{
    json_int(id.get() as i64)
}

fn optional_id_to_json(id: &Option<TaskId>) -> (r: serde_json::Value)
    ensures
        value_view(r) == optional_id_json(
            match *id {
                Some(id) => Some(id@),
                None => None,
            },
        ),
{
    match id {
        Some(id) => id_to_json(id),
        None => json_null(),
    }
}

fn priority_to_json(priority: &Priority) -> (r: serde_json::Value)
    ensures
        value_view(r) == priority_json(*priority),
{
    json_string(String::from_str(priority.wire_name()))
}

fn timestamp_to_json(t: &Timestamp) -> (r: serde_json::Value)
    ensures
        value_view(r) == timestamp_json(t@),
{
    let parts = t.parts();
    let mut items: Vec<serde_json::Value> = Vec::new();
    items.push(json_int(parts.0 as i64));
    items.push(json_int(parts.1 as i64));
    items.push(json_int(parts.2 as i64));
    items.push(json_int(parts.3 as i64));
    items.push(json_int(parts.4 as i64));
    items.push(json_int(parts.5 as i64));
    items.push(json_int(parts.6 as i64));
    items.push(json_int(parts.7 as i64));
    items.push(json_int(parts.8 as i64));
    assert(items_view(items@) =~= timestamp_json(t@)->Array_0);
    json_array(items)
}

fn due_date_to_json(due: &Option<Timestamp>) -> (r: serde_json::Value)
    ensures
        value_view(r) == due_date_json(
            match *due {
                Some(t) => Some(t@),
                None => None,
            },
        ),
{
    match due {
        Some(t) => timestamp_to_json(t),
        None => json_null(),
    }
}

impl Task {
    /// The tree that stands for the task. It is read back as the task.
    pub fn to_json(&self) -> (r: serde_json::Value)
        ensures
            value_view(r) == task_json(self@),
            json_task(value_view(r)) == Some(self@),
    {
        self.check_valid();
        proof {
            lemma_task_round_trip(self@);
        }
        proof {
            lemma_field_names();
        }
        let mut object = json_object();
        add_member(&mut object, "id", optional_id_to_json(&self.id));
        add_member(&mut object, "complete", json_bool(self.complete));
        add_member(&mut object, "description", json_string(self.description.clone()));
        add_member(&mut object, "priority", priority_to_json(&self.priority));
        add_member(&mut object, "due_date", due_date_to_json(&self.due_date));
        assert(value_view(object)->Object_0 =~= task_json(self@)->Object_0);
        object
    }
}

fn delta_to_json(delta: Delta<serde_json::Value>) -> (r: serde_json::Value)
    ensures
        value_view(r) == delta_json(
            match delta {
                Delta::Unchanged => Delta::Unchanged,
                Delta::Changed(value) => Delta::Changed(value_view(value)),
            },
        ),
{
    match delta {
        Delta::Unchanged => json_string(String::from_str("Unchanged")),
        Delta::Changed(value) => tagged_value("Changed", value),
    }
}

impl TaskDelta {
    /// The tree that stands for this delta. It is read back as the delta.
    pub fn to_json(&self) -> (r: serde_json::Value)
        ensures
            value_view(r) == task_delta_json(self@),
            json_task_delta(value_view(r)) == Some(self@),
    {
        self.check_valid();
        proof {
            lemma_task_delta_round_trip(self@);
        }
        let complete = delta_to_json(
            match self.complete {
                Delta::Unchanged => Delta::Unchanged,
                Delta::Changed(b) => Delta::Changed(json_bool(b)),
            },
        );
        let description = delta_to_json(
            match &self.description {
                Delta::Unchanged => Delta::Unchanged,
                Delta::Changed(text) => Delta::Changed(json_string(text.clone())),
            },
        );
        let priority = delta_to_json(
            match &self.priority {
                Delta::Unchanged => Delta::Unchanged,
                Delta::Changed(p) => Delta::Changed(priority_to_json(p)),
            },
        );
        let due_date = delta_to_json(
            match &self.due_date {
                Delta::Unchanged => Delta::Unchanged,
                Delta::Changed(due) => Delta::Changed(due_date_to_json(due)),
            },
        );
        proof {
            lemma_field_names();
        }
        let mut object = json_object();
        add_member(&mut object, "complete", complete);
        add_member(&mut object, "description", description);
        add_member(&mut object, "priority", priority);
        add_member(&mut object, "due_date", due_date);
        assert(value_view(object)->Object_0 =~= task_delta_json(self@)->Object_0);
        object
    }
}

impl Message {
    /// The tree that stands for this request. It is read back as the
    /// request.
    pub fn to_json(&self) -> (r: serde_json::Value)
        ensures
            value_view(r) == message_json(self@),
            json_message(value_view(r)) == Some(self@),
    {
        self.check_valid();
        proof {
            lemma_message_round_trip(self@);
        }
        match self {
            Message::Add(task) => tagged_value("Add", task.to_json()),
            Message::List => json_string(String::from_str("List")),
            Message::Update(id, delta) => {
                let mut items: Vec<serde_json::Value> = Vec::new();
                items.push(id_to_json(id));
                items.push(delta.to_json());
                assert(items_view(items@) =~= seq![id_json(id@), task_delta_json(delta@)]);
                tagged_value("Update", json_array(items))
            },
            Message::Remove(id) => tagged_value("Remove", id_to_json(id)),
        }
    }
}

impl YabuRpcError {
    /// The tree that stands for this error. It is read back as the error.
    pub fn to_json(&self) -> (r: serde_json::Value)
        ensures
            value_view(r) == rpc_error_json(self@),
            json_rpc_error(value_view(r)) == Some(self@),
    {
        self.check_valid();
        proof {
            lemma_rpc_error_round_trip(self@);
        }
        match self {
            YabuRpcError::TaskDoesntExist(id) => tagged_value("TaskDoesntExist", id_to_json(id)),
            YabuRpcError::UnknownPriority(text) => tagged_value(
                "UnknownPriority",
                json_string(text.clone()),
            ),
        }
    }
}

impl Response {
    /// The tree that stands for this answer. It is read back as the answer.
    pub fn to_json(&self) -> (r: serde_json::Value)
        ensures
            value_view(r) == response_json(self@),
            json_response(value_view(r)) == Some(self@),
    {
        self.check_valid();
        proof {
            lemma_response_round_trip(self@);
        }
        match self {
            Response::Nothing => json_string(String::from_str("Nothing")),
            Response::Tasks(tasks) => {
                let mut items: Vec<serde_json::Value> = Vec::new();
                let mut i: usize = 0;
                while i < tasks.len()
                    invariant
                        i <= tasks.len(),
                        items.len() == i,
                        forall|j: int|
                            0 <= j < i ==> value_view(#[trigger] items[j]) == task_json(
                                tasks[j]@,
                            ),
                    decreases tasks.len() - i,
                {
                    items.push(tasks[i].to_json());
                    i += 1;
                }
                assert(items_view(items@) =~= tasks_json(tasks_view(tasks@)));
                tagged_value("Tasks", json_array(items))
            },
            Response::Error(error) => tagged_value("Error", error.to_json()),
        }
    }
}

/// Whether a tree is the object whose one member stands under `tag`.
pub open spec fn holds_only(tree: JsonView, tag: Seq<char>) -> bool {
    &&& tree is Object
    &&& tree->Object_0.len() == 1
    &&& tree->Object_0[0].0 == tag
}

/// The content of the variant `tag`, if the tree is that variant with
/// content.
pub open spec fn variant_content(tree: JsonView, tag: Seq<char>) -> Option<JsonView> {
    if holds_only(tree, tag) {
        Some(tree->Object_0[0].1)
    } else {
        None
    }
}

/// Whether a tree is the variant `tag` without content: the bare name, or the
/// name with `null` under it.
pub open spec fn is_unit_variant(tree: JsonView, tag: Seq<char>) -> bool {
    tree == JsonView::Str(tag) || variant_content(tree, tag) == Some(JsonView::Null)
}

/// The value of an object under `key`, if the tree is an object that has
/// one.
pub open spec fn entry(tree: JsonView, key: Seq<char>) -> Option<JsonView> {
    match tree {
        JsonView::Object(members) => if has_key(members, key) {
            Some(lookup(members, key))
        } else {
            None
        },
        _ => None,
    }
}

/// The integer that a tree is, if it is one from `low` to `high`.
pub open spec fn int_within(tree: JsonView, low: int, high: int) -> Option<int> {
    match tree {
        JsonView::Int(n) => if low <= n <= high {
            Some(n)
        } else {
            None
        },
        _ => None,
    }
}

/// The id that a tree is: a number from 1 that 32 bits hold.
pub open spec fn json_id(tree: JsonView) -> Option<u32> {
    match int_within(tree, 1, u32::MAX as int) {
        Some(n) => Some(n as u32),
        None => None,
    }
}

/// The optional id that an entry is: none where the entry is missing or
/// `null`.
pub open spec fn json_optional_id(found: Option<JsonView>) -> Option<Option<u32>> {
    match found {
        None => Some(None),
        Some(JsonView::Null) => Some(None),
        Some(tree) => match json_id(tree) {
            Some(id) => Some(Some(id)),
            None => None,
        },
    }
}

/// The priority that a tree names.
pub open spec fn json_priority(tree: JsonView) -> Option<Priority> {
    if is_unit_variant(tree, "Lowest"@) {
        Some(Priority::Lowest)
    } else if is_unit_variant(tree, "Low"@) {
        Some(Priority::Low)
    } else if is_unit_variant(tree, "Medium"@) {
        Some(Priority::Medium)
    } else if is_unit_variant(tree, "High"@) {
        Some(Priority::High)
    } else if is_unit_variant(tree, "Critical"@) {
        Some(Priority::Critical)
    } else {
        None
    }
}

/// The due date that a tree is: an array of nine integers, each within the
/// range of its place, that name a date, a time and an offset.
pub open spec fn json_timestamp(tree: JsonView) -> Option<TimestampView> {
    match tree {
        JsonView::Array(items) => if items.len() == 9 && int_within(
            items[0],
            i32::MIN as int,
            i32::MAX as int,
        ) is Some && int_within(items[1], 0, u16::MAX as int) is Some && int_within(
            items[2],
            0,
            u8::MAX as int,
        ) is Some && int_within(items[3], 0, u8::MAX as int) is Some && int_within(
            items[4],
            0,
            u8::MAX as int,
        ) is Some && int_within(items[5], 0, u32::MAX as int) is Some && int_within(
            items[6],
            i8::MIN as int,
            i8::MAX as int,
        ) is Some && int_within(items[7], i8::MIN as int, i8::MAX as int) is Some && int_within(
            items[8],
            i8::MIN as int,
            i8::MAX as int,
        ) is Some {
            timestamp_from_parts(
                items[0]->Int_0 as i32,
                items[1]->Int_0 as u16,
                items[2]->Int_0 as u8,
                items[3]->Int_0 as u8,
                items[4]->Int_0 as u8,
                items[5]->Int_0 as u32,
                items[6]->Int_0 as i8,
                items[7]->Int_0 as i8,
                items[8]->Int_0 as i8,
            )
        } else {
            None
        },
        _ => None,
    }
}

/// The optional due date that an entry is: none where the entry is missing
/// or `null`.
pub open spec fn json_due_date(found: Option<JsonView>) -> Option<Option<TimestampView>> {
    match found {
        None => Some(None),
        Some(JsonView::Null) => Some(None),
        Some(tree) => match json_timestamp(tree) {
            Some(t) => Some(Some(t)),
            None => None,
        },
    }
}

/// The boolean that an entry is.
pub open spec fn json_flag(found: Option<JsonView>) -> Option<bool> {
    match found {
        Some(JsonView::Bool(b)) => Some(b),
        _ => None,
    }
}

/// The text that an entry is.
pub open spec fn json_string_entry(found: Option<JsonView>) -> Option<Seq<char>> {
    match found {
        Some(JsonView::Str(text)) => Some(text),
        _ => None,
    }
}

/// The priority that an entry names.
pub open spec fn json_priority_entry(found: Option<JsonView>) -> Option<Priority> {
    match found {
        Some(tree) => json_priority(tree),
        None => None,
    }
}

/// The field of a record that a tree holds: the member under the field's
/// name where the tree is an object, and the item at the field's place where
/// it is an array of as many items as the record has fields.
pub open spec fn field(tree: JsonView, place: int, fields: int, name: Seq<char>) -> Option<
    JsonView,
> {
    match tree {
        JsonView::Array(items) => if items.len() == fields && 0 <= place < fields {
            Some(items[place])
        } else {
            None
        },
        _ => entry(tree, name),
    }
}

/// The task that a tree is: an object whose members `complete`,
/// `description` and `priority` are a boolean, a text and a priority, and
/// whose members `id` and `due_date`, where it has them, are an id and a
/// due date, or `null`. Other members do not count. The array of the five
/// fields in their order is the same task.
pub open spec fn json_task(tree: JsonView) -> Option<TaskView> {
    let id = json_optional_id(field(tree, 0, 5, "id"@));
    let complete = json_flag(field(tree, 1, 5, "complete"@));
    let description = json_string_entry(field(tree, 2, 5, "description"@));
    let priority = json_priority_entry(field(tree, 3, 5, "priority"@));
    let due_date = json_due_date(field(tree, 4, 5, "due_date"@));
    if (tree is Object || tree is Array) && id is Some && complete is Some && description is Some && priority is Some
        && due_date is Some {
        Some(
            TaskView {
                id: id->Some_0,
                complete: complete->Some_0,
                description: description->Some_0,
                priority: priority->Some_0,
                due_date: due_date->Some_0,
            },
        )
    } else {
        None
    }
}

/// The delta that an entry is, its new value still a tree.
pub open spec fn json_delta(found: Option<JsonView>) -> Option<Delta<JsonView>> {
    match found {
        Some(tree) => if is_unit_variant(tree, "Unchanged"@) {
            Some(Delta::Unchanged)
        } else {
            match variant_content(tree, "Changed"@) {
                Some(value) => Some(Delta::Changed(value)),
                None => None,
            }
        },
        None => None,
    }
}

/// The delta of the flag `complete` that an entry is.
pub open spec fn json_complete_delta(found: Option<JsonView>) -> Option<Delta<bool>> {
    match json_delta(found) {
        Some(Delta::Unchanged) => Some(Delta::Unchanged),
        Some(Delta::Changed(JsonView::Bool(b))) => Some(Delta::Changed(b)),
        _ => None,
    }
}

/// The delta of the description that an entry is.
pub open spec fn json_description_delta(found: Option<JsonView>) -> Option<Delta<Seq<char>>> {
    match json_delta(found) {
        Some(Delta::Unchanged) => Some(Delta::Unchanged),
        Some(Delta::Changed(JsonView::Str(text))) => Some(Delta::Changed(text)),
        _ => None,
    }
}

/// The delta of the priority that an entry is.
pub open spec fn json_priority_delta(found: Option<JsonView>) -> Option<Delta<Priority>> {
    match json_delta(found) {
        Some(Delta::Unchanged) => Some(Delta::Unchanged),
        Some(Delta::Changed(value)) => match json_priority(value) {
            Some(p) => Some(Delta::Changed(p)),
            None => None,
        },
        None => None,
    }
}

/// The delta of the due date that an entry is. `null` under the key
/// `Changed` takes the due date away.
pub open spec fn json_due_date_delta(found: Option<JsonView>) -> Option<
    Delta<Option<TimestampView>>,
> {
    match json_delta(found) {
        Some(Delta::Unchanged) => Some(Delta::Unchanged),
        Some(Delta::Changed(value)) => match json_due_date(Some(value)) {
            Some(due) => Some(Delta::Changed(due)),
            None => None,
        },
        None => None,
    }
}

/// The task delta that a tree is: an object with a delta under each of
/// `complete`, `description`, `priority` and `due_date`, or the array of the
/// four deltas in that order.
pub open spec fn json_task_delta(tree: JsonView) -> Option<TaskDeltaView> {
    let complete = json_complete_delta(field(tree, 0, 4, "complete"@));
    let description = json_description_delta(field(tree, 1, 4, "description"@));
    let priority = json_priority_delta(field(tree, 2, 4, "priority"@));
    let due_date = json_due_date_delta(field(tree, 3, 4, "due_date"@));
    if complete is Some && description is Some && priority is Some && due_date is Some {
        Some(
            TaskDeltaView {
                complete: complete->Some_0,
                description: description->Some_0,
                priority: priority->Some_0,
                due_date: due_date->Some_0,
            },
        )
    } else {
        None
    }
}

/// The id and the delta that the content of an update is: an array of the
/// two.
pub open spec fn json_update(content: JsonView) -> Option<(u32, TaskDeltaView)> {
    match content {
        JsonView::Array(items) => if items.len() == 2 && json_id(items[0]) is Some
            && json_task_delta(items[1]) is Some {
            Some((json_id(items[0])->Some_0, json_task_delta(items[1])->Some_0))
        } else {
            None
        },
        _ => None,
    }
}

/// The request that a tree is, if it is one.
pub open spec fn json_message(tree: JsonView) -> Option<MessageView> {
    if is_unit_variant(tree, "List"@) {
        Some(MessageView::List)
    } else if holds_only(tree, "Add"@) {
        match json_task(tree->Object_0[0].1) {
            Some(task) => Some(MessageView::Add(task)),
            None => None,
        }
    } else if holds_only(tree, "Update"@) {
        match json_update(tree->Object_0[0].1) {
            Some((id, delta)) => Some(MessageView::Update(id, delta)),
            None => None,
        }
    } else if holds_only(tree, "Remove"@) {
        match json_id(tree->Object_0[0].1) {
            Some(id) => Some(MessageView::Remove(id)),
            None => None,
        }
    } else {
        None
    }
}

/// The error that a tree is, if it is one.
pub open spec fn json_rpc_error(tree: JsonView) -> Option<RpcErrorView> {
    if holds_only(tree, "TaskDoesntExist"@) {
        match json_id(tree->Object_0[0].1) {
            Some(id) => Some(RpcErrorView::TaskDoesntExist(id)),
            None => None,
        }
    } else if holds_only(tree, "UnknownPriority"@) {
        match tree->Object_0[0].1 {
            JsonView::Str(text) => Some(RpcErrorView::UnknownPriority(text)),
            _ => None,
        }
    } else {
        None
    }
}

/// The tasks that the items of an array are, if each is one.
pub open spec fn json_tasks(items: Seq<JsonView>) -> Option<Seq<TaskView>> {
    if forall|i: int| 0 <= i < items.len() ==> json_task(#[trigger] items[i]) is Some {
        Some(items.map_values(|item: JsonView| json_task(item)->Some_0))
    } else {
        None
    }
}

/// The answer that a tree is, if it is one.
pub open spec fn json_response(tree: JsonView) -> Option<ResponseView> {
    if is_unit_variant(tree, "Nothing"@) {
        Some(ResponseView::Nothing)
    } else if holds_only(tree, "Tasks"@) {
        match tree->Object_0[0].1 {
            JsonView::Array(items) => match json_tasks(items) {
                Some(tasks) => Some(ResponseView::Tasks(tasks)),
                None => None,
            },
            _ => None,
        }
    } else if holds_only(tree, "Error"@) {
        match json_rpc_error(tree->Object_0[0].1) {
            Some(error) => Some(ResponseView::Error(error)),
            None => None,
        }
    } else {
        None
    }
}

/// The content of the variant `tag`, if the tree is that variant with
/// content.
fn content_of<'a>(v: &'a serde_json::Value, tag: &str) -> (r: Option<&'a serde_json::Value>)
    ensures
        match r {
            Some(content) => variant_content(value_view(*v), tag@) == Some(value_view(*content)),
            None => variant_content(value_view(*v), tag@) is None,
        },
{
    match json_object_len(v) {
        Some(n) => if n == 1 {
            json_get(v, tag)
        } else {
            None
        },
        None => None,
    }
}

/// Whether the tree is the variant `tag` without content.
fn is_unit(v: &serde_json::Value, tag: &str) -> (r: bool)
    ensures
        r == is_unit_variant(value_view(*v), tag@),
{
    match json_as_str(v) {
        Some(name) => same_text(name, tag),
        None => match content_of(v, tag) {
            Some(content) => json_is_null(content),
            None => false,
        },
    }
}

/// The entry under `key`, if the tree is an object that has one.
fn entry_of<'a>(v: &'a serde_json::Value, key: &str) -> (r: Option<&'a serde_json::Value>)
    ensures
        match r {
            Some(found) => entry(value_view(*v), key@) == Some(value_view(*found)),
            None => entry(value_view(*v), key@) is None,
        },
{
    json_get(v, key)
}

/// The field of a record that the tree holds.
fn field_of<'a>(v: &'a serde_json::Value, place: usize, fields: usize, name: &str) -> (r: Option<
    &'a serde_json::Value,
>)
    ensures
        match r {
            Some(found) => field(value_view(*v), place as int, fields as int, name@) == Some(
                value_view(*found),
            ),
            None => field(value_view(*v), place as int, fields as int, name@) is None,
        },
{
    match json_as_array(v) {
        Some(items) => if items.len() == fields && place < fields {
            assert(items_view(items@)[place as int] == value_view(items[place as int]));
            Some(&items[place])
        } else {
            None
        },
        None => entry_of(v, name),
    }
}

/// The integer that the tree is, if it is one from `low` to `high`.
fn int_from_json(v: &serde_json::Value, low: i64, high: i64) -> (r: Option<i64>)
    ensures
        match r {
            Some(n) => int_within(value_view(*v), low as int, high as int) == Some(n as int),
            None => int_within(value_view(*v), low as int, high as int) is None,
        },
{
    match json_as_i64(v) {
        Some(n) => if low <= n && n <= high {
            Some(n)
        } else {
            None
        },
        None => None,
    }
}

fn id_from_json(v: &serde_json::Value) -> (r: Option<TaskId>)
    ensures
        match r {
            Some(id) => json_id(value_view(*v)) == Some(id@),
            None => json_id(value_view(*v)) is None,
        },
{
    match int_from_json(v, 1, 0xffff_ffff) {
        Some(n) => match TaskId::try_from(n as u32) {
            Ok(id) => Some(id),
            Err(_) => None,
        },
        None => None,
    }
}

fn optional_id_from_json(found: Option<&serde_json::Value>) -> (r: Option<Option<TaskId>>)
    ensures
        match r {
            Some(Some(id)) => json_optional_id(found_view(found)) == Some(Some(id@)),
            Some(None) => json_optional_id(found_view(found)) == Some(None::<u32>),
            None => json_optional_id(found_view(found)) is None,
        },
{
    match found {
        None => Some(None),
        Some(v) => if json_is_null(v) {
            Some(None)
        } else {
            match id_from_json(v) {
                Some(id) => Some(Some(id)),
                None => None,
            }
        },
    }
}

/// The tree of an entry that was looked up.
pub open spec fn found_view(found: Option<&serde_json::Value>) -> Option<JsonView> {
    match found {
        Some(v) => Some(value_view(*v)),
        None => None,
    }
}

fn priority_from_json(v: &serde_json::Value) -> (r: Option<Priority>)
    ensures
        r == json_priority(value_view(*v)),
{
    if is_unit(v, "Lowest") {
        Some(Priority::Lowest)
    } else if is_unit(v, "Low") {
        Some(Priority::Low)
    } else if is_unit(v, "Medium") {
        Some(Priority::Medium)
    } else if is_unit(v, "High") {
        Some(Priority::High)
    } else if is_unit(v, "Critical") {
        Some(Priority::Critical)
    } else {
        None
    }
}

impl Timestamp {
    /// The due date that a tree is, if it is one.
    pub fn from_json(v: &serde_json::Value) -> (r: Option<Timestamp>)
        ensures
            match r {
                Some(t) => json_timestamp(value_view(*v)) == Some(t@),
                None => json_timestamp(value_view(*v)) is None,
            },
    {
        timestamp_from_json(v)
    }

    /// The tree that stands for the due date. It is read back as the due
    /// date.
    pub fn to_json(&self) -> (r: serde_json::Value)
        ensures
            value_view(r) == timestamp_json(self@),
            json_timestamp(value_view(r)) == Some(self@),
    {
        self.check_valid();
        proof {
            lemma_timestamp_round_trip(self@);
        }
        timestamp_to_json(self)
    }
}

fn timestamp_from_json(v: &serde_json::Value) -> (r: Option<Timestamp>)
    ensures
        match r {
            Some(t) => json_timestamp(value_view(*v)) == Some(t@),
            None => json_timestamp(value_view(*v)) is None,
        },
{
    let items = match json_as_array(v) {
        Some(items) => items,
        None => {
            return None;
        },
    };
    if items.len() != 9 {
        return None;
    }
    assert(forall|i: int| 0 <= i < 9 ==> items_view(items@)[i] == value_view(#[trigger] items[i]));
    let year = int_from_json(&items[0], -0x8000_0000, 0x7fff_ffff);
    let ordinal = int_from_json(&items[1], 0, 0xffff);
    let hour = int_from_json(&items[2], 0, 0xff);
    let minute = int_from_json(&items[3], 0, 0xff);
    let second = int_from_json(&items[4], 0, 0xff);
    let nanosecond = int_from_json(&items[5], 0, 0xffff_ffff);
    let offset_hours = int_from_json(&items[6], -0x80, 0x7f);
    let offset_minutes = int_from_json(&items[7], -0x80, 0x7f);
    let offset_seconds = int_from_json(&items[8], -0x80, 0x7f);
    match (
        year,
        ordinal,
        hour,
        minute,
        second,
        nanosecond,
        offset_hours,
        offset_minutes,
        offset_seconds,
    ) {
        (Some(y), Some(o), Some(h), Some(mi), Some(s), Some(n), Some(oh), Some(om), Some(os)) => {
            Timestamp::new(
                y as i32,
                o as u16,
                h as u8,
                mi as u8,
                s as u8,
                n as u32,
                oh as i8,
                om as i8,
                os as i8,
            )
        },
        _ => None,
    }
}

fn due_date_from_json(found: Option<&serde_json::Value>) -> (r: Option<Option<Timestamp>>)
    ensures
        match r {
            Some(Some(t)) => json_due_date(found_view(found)) == Some(Some(t@)),
            Some(None) => json_due_date(found_view(found)) == Some(None::<TimestampView>),
            None => json_due_date(found_view(found)) is None,
        },
{
    match found {
        None => Some(None),
        Some(v) => if json_is_null(v) {
            Some(None)
        } else {
            match timestamp_from_json(v) {
                Some(t) => Some(Some(t)),
                None => None,
            }
        },
    }
}

fn flag_from_json(found: Option<&serde_json::Value>) -> (r: Option<bool>)
    ensures
        r == json_flag(found_view(found)),
{
    match found {
        Some(v) => json_as_bool(v),
        None => None,
    }
}

fn string_from_json(found: Option<&serde_json::Value>) -> (r: Option<String>)
    ensures
        match r {
            Some(text) => json_string_entry(found_view(found)) == Some(text@),
            None => json_string_entry(found_view(found)) is None,
        },
{
    match found {
        Some(v) => match json_as_str(v) {
            Some(text) => Some(String::from_str(text)),
            None => None,
        },
        None => None,
    }
}

impl Task {
    /// The task that a tree is, if it is one.
    pub fn from_json(v: &serde_json::Value) -> (r: Option<Task>)
        ensures
            match r {
                Some(task) => json_task(value_view(*v)) == Some(task@),
                None => json_task(value_view(*v)) is None,
            },
    {
        let id = optional_id_from_json(field_of(v, 0, 5, "id"));
        let complete = flag_from_json(field_of(v, 1, 5, "complete"));
        let description = string_from_json(field_of(v, 2, 5, "description"));
        let priority = match field_of(v, 3, 5, "priority") {
            Some(found) => priority_from_json(found),
            None => None,
        };
        let due_date = due_date_from_json(field_of(v, 4, 5, "due_date"));
        match (id, complete, description, priority, due_date) {
            (Some(id), Some(complete), Some(description), Some(priority), Some(due_date)) => Some(
                Task { id, complete, description, priority, due_date },
            ),
            _ => None,
        }
    }
}

/// The delta that an entry is, its new value still a tree.
fn delta_from_json<'a>(found: Option<&'a serde_json::Value>) -> (r: Option<
    Delta<&'a serde_json::Value>,
>)
    ensures
        match r {
            Some(Delta::Unchanged) => json_delta(found_view(found)) == Some(
                Delta::<JsonView>::Unchanged,
            ),
            Some(Delta::Changed(value)) => json_delta(found_view(found)) == Some(
                Delta::Changed(value_view(*value)),
            ),
            None => json_delta(found_view(found)) is None,
        },
{
    match found {
        Some(v) => if is_unit(v, "Unchanged") {
            Some(Delta::Unchanged)
        } else {
            match content_of(v, "Changed") {
                Some(value) => Some(Delta::Changed(value)),
                None => None,
            }
        },
        None => None,
    }
}

impl TaskDelta {
    /// The task delta that a tree is, if it is one.
    pub fn from_json(v: &serde_json::Value) -> (r: Option<TaskDelta>)
        ensures
            match r {
                Some(delta) => json_task_delta(value_view(*v)) == Some(delta@),
                None => json_task_delta(value_view(*v)) is None,
            },
    {
        let complete: Option<Delta<bool>> = match delta_from_json(
            field_of(v, 0, 4, "complete"),
        ) {
            Some(Delta::Unchanged) => Some(Delta::Unchanged),
            Some(Delta::Changed(value)) => match json_as_bool(value) {
                Some(b) => Some(Delta::Changed(b)),
                None => None,
            },
            None => None,
        };
        let description: Option<Delta<String>> = match delta_from_json(
            field_of(v, 1, 4, "description"),
        ) {
            Some(Delta::Unchanged) => Some(Delta::Unchanged),
            Some(Delta::Changed(value)) => match json_as_str(value) {
                Some(text) => Some(Delta::Changed(String::from_str(text))),
                None => None,
            },
            None => None,
        };
        let priority: Option<Delta<Priority>> = match delta_from_json(
            field_of(v, 2, 4, "priority"),
        ) {
            Some(Delta::Unchanged) => Some(Delta::Unchanged),
            Some(Delta::Changed(value)) => match priority_from_json(value) {
                Some(p) => Some(Delta::Changed(p)),
                None => None,
            },
            None => None,
        };
        let due_date: Option<Delta<Option<Timestamp>>> = match delta_from_json(
            field_of(v, 3, 4, "due_date"),
        ) {
            Some(Delta::Unchanged) => Some(Delta::Unchanged),
            Some(Delta::Changed(value)) => match due_date_from_json(Some(value)) {
                Some(due) => Some(Delta::Changed(due)),
                None => None,
            },
            None => None,
        };
        match (complete, description, priority, due_date) {
            (Some(complete), Some(description), Some(priority), Some(due_date)) => Some(
                TaskDelta { complete, description, priority, due_date },
            ),
            _ => None,
        }
    }
}

fn update_from_json(content: &serde_json::Value) -> (r: Option<(TaskId, TaskDelta)>)
    ensures
        match r {
            Some((id, delta)) => json_update(value_view(*content)) == Some((id@, delta@)),
            None => json_update(value_view(*content)) is None,
        },
{
    match json_as_array(content) {
        Some(items) => {
            if items.len() != 2 {
                return None;
            }
            assert(forall|i: int|
                0 <= i < 2 ==> items_view(items@)[i] == value_view(#[trigger] items[i]));
            match (id_from_json(&items[0]), TaskDelta::from_json(&items[1])) {
                (Some(id), Some(delta)) => Some((id, delta)),
                _ => None,
            }
        },
        None => None,
    }
}

impl Message {
    /// The request that a tree is, if it is one.
    pub fn from_json(v: &serde_json::Value) -> (r: Option<Message>)
        ensures
            match r {
                Some(message) => json_message(value_view(*v)) == Some(message@),
                None => json_message(value_view(*v)) is None,
            },
    {
        if is_unit(v, "List") {
            return Some(Message::List);
        }
        match content_of(v, "Add") {
            Some(content) => {
                return match Task::from_json(content) {
                    Some(task) => Some(Message::Add(task)),
                    None => None,
                };
            },
            None => {},
        }
        match content_of(v, "Update") {
            Some(content) => {
                return match update_from_json(content) {
                    Some((id, delta)) => Some(Message::Update(id, delta)),
                    None => None,
                };
            },
            None => {},
        }
        match content_of(v, "Remove") {
            Some(content) => match id_from_json(content) {
                Some(id) => Some(Message::Remove(id)),
                None => None,
            },
            None => None,
        }
    }
}

impl YabuRpcError {
    /// The error that a tree is, if it is one.
    pub fn from_json(v: &serde_json::Value) -> (r: Option<YabuRpcError>)
        ensures
            match r {
                Some(error) => json_rpc_error(value_view(*v)) == Some(error@),
                None => json_rpc_error(value_view(*v)) is None,
            },
    {
        match content_of(v, "TaskDoesntExist") {
            Some(content) => {
                return match id_from_json(content) {
                    Some(id) => Some(YabuRpcError::TaskDoesntExist(id)),
                    None => None,
                };
            },
            None => {},
        }
        match content_of(v, "UnknownPriority") {
            Some(content) => match json_as_str(content) {
                Some(text) => Some(YabuRpcError::UnknownPriority(String::from_str(text))),
                None => None,
            },
            None => None,
        }
    }
}

fn tasks_from_json(items: &Vec<serde_json::Value>) -> (r: Option<Vec<Task>>)
    ensures
        match r {
            Some(tasks) => json_tasks(items_view(items@)) == Some(tasks_view(tasks@)),
            None => json_tasks(items_view(items@)) is None,
        },
{
    let mut tasks: Vec<Task> = Vec::new();
    let mut i: usize = 0;
    while i < items.len()
        invariant
            i <= items.len(),
            tasks.len() == i,
            forall|j: int|
                0 <= j < i ==> json_task(value_view(#[trigger] items[j])) == Some(tasks[j]@),
        decreases items.len() - i,
    {
        match Task::from_json(&items[i]) {
            Some(task) => {
                tasks.push(task);
            },
            None => {
                assert(json_task(items_view(items@)[i as int]) is None);
                return None;
            },
        }
        i += 1;
    }
    proof {
        let trees = items_view(items@);
        assert forall|j: int| 0 <= j < trees.len() implies json_task(#[trigger] trees[j])
            is Some by {
            assert(json_task(value_view(items[j])) == Some(tasks[j]@));
        }
        assert(json_tasks(trees)->Some_0 =~= tasks_view(tasks@)) by {
            assert forall|j: int| 0 <= j < trees.len() implies json_task(trees[j])->Some_0
                == tasks[j]@ by {
                assert(json_task(value_view(items[j])) == Some(tasks[j]@));
            }
        }
    }
    Some(tasks)
}

impl Response {
    /// The answer that a tree is, if it is one.
    pub fn from_json(v: &serde_json::Value) -> (r: Option<Response>)
        ensures
            match r {
                Some(response) => json_response(value_view(*v)) == Some(response@),
                None => json_response(value_view(*v)) is None,
            },
    {
        if is_unit(v, "Nothing") {
            return Some(Response::Nothing);
        }
        match content_of(v, "Tasks") {
            Some(content) => {
                return match json_as_array(content) {
                    Some(items) => match tasks_from_json(items) {
                        Some(tasks) => Some(Response::Tasks(tasks)),
                        None => None,
                    },
                    None => None,
                };
            },
            None => {},
        }
        match content_of(v, "Error") {
            Some(content) => match YabuRpcError::from_json(content) {
                Some(error) => Some(Response::Error(error)),
                None => None,
            },
            None => None,
        }
    }
}

/// The object with one member holds only that member.
pub proof fn lemma_tagged(tag: Seq<char>, content: JsonView)
    ensures
        holds_only(tagged(tag, content), tag),
        variant_content(tagged(tag, content), tag) == Some(content),
        forall|other: Seq<char>| other != tag ==> !holds_only(tagged(tag, content), other),
        !(tagged(tag, content) is Str),
{
}

/// The names of the fields of a task and of a task delta differ from one
/// another.
pub proof fn lemma_field_names()
    ensures
        "id"@ != "complete"@,
        "id"@ != "description"@,
        "id"@ != "priority"@,
        "id"@ != "due_date"@,
        "complete"@ != "description"@,
        "complete"@ != "priority"@,
        "complete"@ != "due_date"@,
        "description"@ != "priority"@,
        "description"@ != "due_date"@,
        "priority"@ != "due_date"@,
{
    reveal_strlit("id");
    reveal_strlit("complete");
    reveal_strlit("description");
    reveal_strlit("priority");
    reveal_strlit("due_date");
    assert("id"@.len() == 2 && "complete"@.len() == 8 && "description"@.len() == 11
        && "priority"@.len() == 8 && "due_date"@.len() == 8);
    assert("complete"@[0] != "priority"@[0]);
    assert("complete"@[0] != "due_date"@[0]);
    assert("priority"@[0] != "due_date"@[0]);
}

/// An id is read back from its tree.
pub proof fn lemma_id_round_trip(id: u32)
    requires
        id != 0,
    ensures
        json_id(id_json(id)) == Some(id),
        !(id_json(id) is Null),
{
}

/// A priority is read back from its tree.
pub proof fn lemma_priority_round_trip(priority: Priority)
    ensures
        json_priority(priority_json(priority)) == Some(priority),
        !(priority_json(priority) is Null),
{
    reveal_strlit("Lowest");
    reveal_strlit("Low");
    reveal_strlit("Medium");
    reveal_strlit("High");
    reveal_strlit("Critical");
    assert("Lowest"@.len() == 6 && "Low"@.len() == 3 && "Medium"@.len() == 6 && "High"@.len() == 4
        && "Critical"@.len() == 8);
    assert("Lowest"@[0] != "Medium"@[0]);
}

/// A due date is read back from its tree.
pub proof fn lemma_timestamp_round_trip(t: TimestampView)
    requires
        t.valid(),
    ensures
        json_timestamp(timestamp_json(t)) == Some(t),
        !(timestamp_json(t) is Null),
{
}

/// A task is read back from its tree.
pub proof fn lemma_task_round_trip(task: TaskView)
    requires
        task.valid(),
    ensures
        json_task(task_json(task)) == Some(task),
{
    lemma_field_names();
    let tree = task_json(task);
    let members = tree->Object_0;
    assert(distinct_keys(members));
    lemma_lookup(members, 0);
    lemma_lookup(members, 1);
    lemma_lookup(members, 2);
    lemma_lookup(members, 3);
    lemma_lookup(members, 4);
    assert(entry(tree, "id"@) == Some(optional_id_json(task.id)));
    assert(entry(tree, "complete"@) == Some(JsonView::Bool(task.complete)));
    assert(entry(tree, "description"@) == Some(JsonView::Str(task.description)));
    assert(entry(tree, "priority"@) == Some(priority_json(task.priority)));
    assert(entry(tree, "due_date"@) == Some(due_date_json(task.due_date)));
    if task.id is Some {
        lemma_id_round_trip(task.id->Some_0);
    }
    lemma_priority_round_trip(task.priority);
    if task.due_date is Some {
        lemma_timestamp_round_trip(task.due_date->Some_0);
    }
}

/// A delta is read back from its tree, its new value still a tree.
pub proof fn lemma_delta_round_trip(delta: Delta<JsonView>)
    ensures
        json_delta(Some(delta_json(delta))) == Some(delta),
{
    reveal_strlit("Unchanged");
    reveal_strlit("Changed");
    assert("Unchanged"@.len() == 9 && "Changed"@.len() == 7);
    match delta {
        Delta::Unchanged => {},
        Delta::Changed(value) => {
            lemma_tagged("Changed"@, value);
        },
    }
}

/// A task delta is read back from its tree.
pub proof fn lemma_task_delta_round_trip(delta: TaskDeltaView)
    requires
        delta.valid(),
    ensures
        json_task_delta(task_delta_json(delta)) == Some(delta),
{
    lemma_field_names();
    let tree = task_delta_json(delta);
    let members = tree->Object_0;
    assert(distinct_keys(members));
    lemma_lookup(members, 0);
    lemma_lookup(members, 1);
    lemma_lookup(members, 2);
    lemma_lookup(members, 3);
    assert(entry(tree, "complete"@) == Some(complete_delta_json(delta.complete)));
    assert(entry(tree, "description"@) == Some(description_delta_json(delta.description)));
    assert(entry(tree, "priority"@) == Some(priority_delta_json(delta.priority)));
    assert(entry(tree, "due_date"@) == Some(due_date_delta_json(delta.due_date)));
    match delta.complete {
        Delta::Unchanged => {
            lemma_delta_round_trip(Delta::Unchanged);
        },
        Delta::Changed(b) => {
            lemma_delta_round_trip(Delta::Changed(JsonView::Bool(b)));
        },
    }
    match delta.description {
        Delta::Unchanged => {
            lemma_delta_round_trip(Delta::Unchanged);
        },
        Delta::Changed(text) => {
            lemma_delta_round_trip(Delta::Changed(JsonView::Str(text)));
        },
    }
    match delta.priority {
        Delta::Unchanged => {
            lemma_delta_round_trip(Delta::Unchanged);
        },
        Delta::Changed(p) => {
            lemma_delta_round_trip(Delta::Changed(priority_json(p)));
            lemma_priority_round_trip(p);
        },
    }
    match delta.due_date {
        Delta::Unchanged => {
            lemma_delta_round_trip(Delta::Unchanged);
        },
        Delta::Changed(due) => {
            lemma_delta_round_trip(Delta::Changed(due_date_json(due)));
            if due is Some {
                lemma_timestamp_round_trip(due->Some_0);
            }
        },
    }
}

/// Every request is read back from its tree.
pub proof fn lemma_message_round_trip(message: MessageView)
    requires
        message.valid(),
    ensures
        json_message(message_json(message)) == Some(message),
{
    reveal_strlit("Add");
    reveal_strlit("List");
    reveal_strlit("Update");
    reveal_strlit("Remove");
    assert("Add"@.len() == 3 && "List"@.len() == 4 && "Update"@.len() == 6 && "Remove"@.len()
        == 6);
    assert("Update"@[0] != "Remove"@[0]);
    match message {
        MessageView::Add(task) => {
            lemma_tagged("Add"@, task_json(task));
            lemma_task_round_trip(task);
        },
        MessageView::List => {},
        MessageView::Update(id, delta) => {
            lemma_tagged("Update"@, JsonView::Array(seq![id_json(id), task_delta_json(delta)]));
            lemma_id_round_trip(id);
            lemma_task_delta_round_trip(delta);
        },
        MessageView::Remove(id) => {
            lemma_tagged("Remove"@, id_json(id));
            lemma_id_round_trip(id);
        },
    }
}

/// Every error is read back from its tree.
pub proof fn lemma_rpc_error_round_trip(error: RpcErrorView)
    requires
        error.valid(),
    ensures
        json_rpc_error(rpc_error_json(error)) == Some(error),
{
    reveal_strlit("TaskDoesntExist");
    reveal_strlit("UnknownPriority");
    assert("TaskDoesntExist"@[0] != "UnknownPriority"@[0]);
    match error {
        RpcErrorView::TaskDoesntExist(id) => {
            lemma_tagged("TaskDoesntExist"@, id_json(id));
            lemma_id_round_trip(id);
        },
        RpcErrorView::UnknownPriority(text) => {
            lemma_tagged("UnknownPriority"@, JsonView::Str(text));
        },
    }
}

/// Every answer is read back from its tree.
pub proof fn lemma_response_round_trip(response: ResponseView)
    requires
        response.valid(),
    ensures
        json_response(response_json(response)) == Some(response),
{
    reveal_strlit("Nothing");
    reveal_strlit("Tasks");
    reveal_strlit("Error");
    assert("Nothing"@.len() == 7 && "Tasks"@.len() == 5 && "Error"@.len() == 5);
    assert("Tasks"@[0] != "Error"@[0]);
    match response {
        ResponseView::Nothing => {},
        ResponseView::Tasks(tasks) => {
            let trees = tasks_json(tasks);
            lemma_tagged("Tasks"@, JsonView::Array(trees));
            assert forall|i: int| 0 <= i < trees.len() implies json_task(#[trigger] trees[i])
                == Some(tasks[i]) by {
                lemma_task_round_trip(tasks[i]);
            }
            assert(json_tasks(trees)->Some_0 =~= tasks);
        },
        ResponseView::Error(error) => {
            lemma_tagged("Error"@, rpc_error_json(error));
            lemma_rpc_error_round_trip(error);
        },
    }
}

} // verus!
