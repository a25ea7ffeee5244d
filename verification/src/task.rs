//! Tasks, their ids and their priorities.

use crate::error::YabuError;
use crate::text::{decimal, decimal_text, parse_u32, spec_parse_u32};
use crate::timestamp::{Timestamp, TimestampView};
use vstd::prelude::*;
use vstd::string::*;

verus! {

/// Identifies one stored task. Never zero.
#[derive(Clone, Copy, Debug, PartialEq, Eq, Hash, PartialOrd, Ord)]
pub struct TaskId(u32);

impl View for TaskId {
    type V = u32;

    closed spec fn view(&self) -> u32 {
        self.0
    }
}

impl TaskId {
    #[verifier::type_invariant]
    spec fn nonzero(self) -> bool {
        self.0 != 0
    }

    /// The id with this number. Zero is no id.
    pub fn try_from(value: u32) -> (r: Result<TaskId, YabuError>)
        ensures
            value != 0 ==> r is Ok && r->Ok_0@ == value,
            value == 0 ==> r == Err::<TaskId, YabuError>(YabuError::TaskIdZero),
    {
        if value == 0 {
            Err(YabuError::TaskIdZero)
        } else {
            Ok(TaskId(value))
        }
    }

    /// The id that a text spells in decimal digits.
    pub fn from_str(s: &str) -> (r: Option<TaskId>)
        ensures
            match r {
                Some(id) => spec_parse_u32(s@) == Some(id@) && id@ != 0,
                None => spec_parse_u32(s@) is None || spec_parse_u32(s@) == Some(0u32),
            },
    {
        match parse_u32(s) {
            Some(value) => if value == 0 {
                None
            } else {
                Some(TaskId(value))
            },
            None => None,
        }
    }

    /// The id in decimal digits.
    pub fn to_string(&self) -> (text: String)
        ensures
            text@ == decimal(self@ as nat),
    {
        decimal_text(self.0 as u64)
    }

    /// Every id is other than zero.
    pub fn check_valid(&self)
        ensures
            self@ != 0,
    {
        proof {
            use_type_invariant(self);
        }
    }

    /// The number of this id.
    pub fn get(&self) -> (value: u32)
        ensures
            value == self@,
            value != 0,
    {
        proof {
            use_type_invariant(self);
        }
        self.0
    }
}

/// How much a task matters. Later variants matter more.
#[derive(Clone, Copy, Debug, PartialEq, Eq, PartialOrd, Ord, Hash)]
pub enum Priority {
    Lowest,
    Low,
    Medium,
    High,
    Critical,
}

impl Default for Priority {
    fn default() -> (r: Self)
        ensures
            r == Priority::Medium,
    {
        Priority::Medium
    }
}

/// An ASCII capital as its small letter; any other character as it is.
pub open spec fn lower_char(c: char) -> char {
    if 'A' <= c && c <= 'Z' {
        ((c as u8) + 32) as char
    } else {
        c
    }
}

/// A text with its ASCII capitals made small.
pub open spec fn ascii_lowercase(text: Seq<char>) -> Seq<char> {
    text.map_values(|c: char| lower_char(c))
}

/// The small letter of an ASCII capital; any other character as it is.
fn to_lower(c: char) -> (r: char)
    ensures
        r == lower_char(c),
{
    if 'A' <= c && c <= 'Z' {
        ((c as u8) + 32) as char
    } else {
        c
    }
}

/// Whether a text is a name, whatever the case of its letters.
fn is_name(text: &str, name: &str) -> (r: bool)
    ensures
        r == (ascii_lowercase(text@) == name@),
{
    let length = text.unicode_len();
    if length != name.unicode_len() {
        return false;
    }
    let mut i: usize = 0;
    while i < length
        invariant
            i <= length,
            length == text@.len(),
            length == name@.len(),
            forall|j: int| 0 <= j < i ==> lower_char(text@[j]) == name@[j],
        decreases length - i,
    {
        if to_lower(text.get_char(i)) != name.get_char(i) {
            assert(ascii_lowercase(text@)[i as int] != name@[i as int]);
            return false;
        }
        i += 1;
    }
    assert(ascii_lowercase(text@) =~= name@);
    true
}

/// Whether two texts are the same.
pub(crate) fn same_text(a: &str, b: &str) -> (same: bool)
    ensures
        same == (a@ == b@),
{
    String::from_str(a) == String::from_str(b)
}

impl Priority {
    /// Small-letter name, as users write and read it.
    pub open spec fn spec_name(self) -> Seq<char> {
        match self {
            Priority::Lowest => "lowest"@,
            Priority::Low => "low"@,
            Priority::Medium => "medium"@,
            Priority::High => "high"@,
            Priority::Critical => "critical"@,
        }
    }

    /// Name on the wire.
    pub open spec fn spec_wire_name(self) -> Seq<char> {
        match self {
            Priority::Lowest => "Lowest"@,
            Priority::Low => "Low"@,
            Priority::Medium => "Medium"@,
            Priority::High => "High"@,
            Priority::Critical => "Critical"@,
        }
    }

    /// Place in the order, from 0 for the lowest.
    pub open spec fn spec_to_u32(self) -> u32 {
        match self {
            Priority::Lowest => 0,
            Priority::Low => 1,
            Priority::Medium => 2,
            Priority::High => 3,
            Priority::Critical => 4,
        }
    }

    /// The priority at a place in the order.
    pub open spec fn spec_from_u32(n: u32) -> Option<Priority> {
        if n == 0 {
            Some(Priority::Lowest)
        } else if n == 1 {
            Some(Priority::Low)
        } else if n == 2 {
            Some(Priority::Medium)
        } else if n == 3 {
            Some(Priority::High)
        } else if n == 4 {
            Some(Priority::Critical)
        } else {
            None
        }
    }

    /// The priority that a text names, whatever the case of its letters.
    pub open spec fn spec_from_str(text: Seq<char>) -> Option<Priority> {
        let small = ascii_lowercase(text);
        if small == "lowest"@ {
            Some(Priority::Lowest)
        } else if small == "low"@ {
            Some(Priority::Low)
        } else if small == "medium"@ {
            Some(Priority::Medium)
        } else if small == "high"@ {
            Some(Priority::High)
        } else if small == "critical"@ {
            Some(Priority::Critical)
        } else {
            None
        }
    }

    /// Reads a priority by its name, in small or capital letters.
    pub fn from_str(s: &str) -> (r: Result<Priority, YabuError>)
        ensures
            match r {
                Ok(p) => Priority::spec_from_str(s@) == Some(p),
                Err(e) => Priority::spec_from_str(s@) is None && e@
                    == crate::error::ErrorView::UnknownPriority(s@),
            },
    {
        if is_name(s, "lowest") {
            Ok(Priority::Lowest)
        } else if is_name(s, "low") {
            Ok(Priority::Low)
        } else if is_name(s, "medium") {
            Ok(Priority::Medium)
        } else if is_name(s, "high") {
            Ok(Priority::High)
        } else if is_name(s, "critical") {
            Ok(Priority::Critical)
        } else {
            Err(YabuError::UnknownPriority(String::from_str(s)))
        }
    }

    /// Small-letter name, as users write and read it.
    pub fn name(&self) -> (r: &'static str)
        ensures
            r@ == self.spec_name(),
    {
        match self {
            Priority::Lowest => "lowest",
            Priority::Low => "low",
            Priority::Medium => "medium",
            Priority::High => "high",
            Priority::Critical => "critical",
        }
    }

    /// Name on the wire.
    pub fn wire_name(&self) -> (r: &'static str)
        ensures
            r@ == self.spec_wire_name(),
    {
        match self {
            Priority::Lowest => "Lowest",
            Priority::Low => "Low",
            Priority::Medium => "Medium",
            Priority::High => "High",
            Priority::Critical => "Critical",
        }
    }

    /// Place in the order, from 0 for the lowest.
    pub fn to_u32(&self) -> (n: u32)
        ensures
            n == self.spec_to_u32(),
    {
        match self {
            Priority::Lowest => 0,
            Priority::Low => 1,
            Priority::Medium => 2,
            Priority::High => 3,
            Priority::Critical => 4,
        }
    }

    /// The priority at a place in the order.
    pub fn from_u32(n: u32) -> (r: Option<Priority>)
        ensures
            r == Priority::spec_from_u32(n),
    {
        if n == 0 {
            Some(Priority::Lowest)
        } else if n == 1 {
            Some(Priority::Low)
        } else if n == 2 {
            Some(Priority::Medium)
        } else if n == 3 {
            Some(Priority::High)
        } else if n == 4 {
            Some(Priority::Critical)
        } else {
            None
        }
    }

    /// A priority is read back from its own name, and from its own place in
    /// the order.
    pub proof fn lemma_name_round_trip(self)
        ensures
            Priority::spec_from_str(self.spec_name()) == Some(self),
            Priority::spec_from_u32(self.spec_to_u32()) == Some(self),
    {
        reveal_strlit("lowest");
        reveal_strlit("low");
        reveal_strlit("medium");
        reveal_strlit("high");
        reveal_strlit("critical");
        let name = self.spec_name();
        assert forall|i: int| 0 <= i < name.len() implies lower_char(name[i]) == name[i] by {
            assert('a' <= name[i] && name[i] <= 'z');
        }
        assert(ascii_lowercase(name) =~= name);
        assert("lowest"@[0] != "medium"@[0]);
    }

    /// The places in the order follow the order of the variants.
    pub proof fn lemma_order()
        ensures
            Priority::Lowest.spec_to_u32() < Priority::Low.spec_to_u32(),
            Priority::Low.spec_to_u32() < Priority::Medium.spec_to_u32(),
            Priority::Medium.spec_to_u32() < Priority::High.spec_to_u32(),
            Priority::High.spec_to_u32() < Priority::Critical.spec_to_u32(),
    {
    }
}

/// One entry of the task list.
#[derive(Debug, PartialEq, Eq)]
pub struct Task {
    /// Absent until the store has taken the task in.
    pub id: Option<TaskId>,
    pub complete: bool,
    pub description: String,
    pub priority: Priority,
    pub due_date: Option<Timestamp>,
}

/// Mathematical value of a [`Task`].
pub ghost struct TaskView {
    pub id: Option<u32>,
    pub complete: bool,
    pub description: Seq<char>,
    pub priority: Priority,
    pub due_date: Option<TimestampView>,
}

impl TaskView {
    /// An id, where there is one, is not zero, and a due date, where there is
    /// one, exists. Every [`Task`] has such a value.
    pub open spec fn valid(self) -> bool {
        &&& self.id matches Some(id) ==> id != 0
        &&& self.due_date matches Some(due) ==> due.valid()
    }
}

impl View for Task {
    type V = TaskView;

    open spec fn view(&self) -> TaskView {
        TaskView {
            id: match self.id {
                Some(id) => Some(id@),
                None => None,
            },
            complete: self.complete,
            description: self.description@,
            priority: self.priority,
            due_date: match self.due_date {
                Some(due) => Some(due@),
                None => None,
            },
        }
    }
}

impl Clone for Task {
    fn clone(&self) -> (r: Self)
        ensures
            r@ == self@,
    {
        Task {
            id: self.id,
            complete: self.complete,
            description: self.description.clone(),
            priority: self.priority,
            due_date: self.due_date,
        }
    }
}

impl Task {
    /// A task of these parts.
    pub fn new(
        id: Option<TaskId>,
        complete: bool,
        description: String,
        priority: Priority,
        due_date: Option<Timestamp>,
    ) -> (task: Task)
        ensures
            task == (Task { id, complete, description, priority, due_date }),
    {
        Task { id, complete, description, priority, due_date }
    }

    /// The id of a task that the store has taken in.
    pub fn id_or_error(&self) -> (r: Result<TaskId, YabuError>)
        ensures
            match self.id {
                Some(id) => r == Ok::<TaskId, YabuError>(id),
                None => r == Err::<TaskId, YabuError>(YabuError::TaskHasNoId),
            },
    {
        match self.id {
            Some(id) => Ok(id),
            None => Err(YabuError::TaskHasNoId),
        }
    }

    /// Every task has a valid value.
    pub fn check_valid(&self)
        ensures
            self@.valid(),
    {
        match self.id {
            Some(id) => {
                id.check_valid();
            },
            None => {},
        }
        match self.due_date {
            Some(due) => {
                due.check_valid();
            },
            None => {},
        }
    }
}

} // verus!
