//! The task record and the payloads that create or change one.
use vstd::prelude::*;

verus! {

/// A stored task: three free-text fields.
pub struct Task {
    pub name: String,
    pub priority: String,
    pub details: String,
}

/// The body of a create request: every field is required.
pub struct CreateTask {
    pub name: String,
    pub priority: String,
    pub details: String,
}

/// The body of an update request: each field is present or absent on its own.
pub struct UpdateTask {
    pub name: Option<String>,
    pub priority: Option<String>,
    pub details: Option<String>,
}

/// The mathematical value of a task: its three fields as character sequences.
pub struct TaskView {
    pub name: Seq<char>,
    pub priority: Seq<char>,
    pub details: Seq<char>,
}

impl View for Task {
    type V = TaskView;

    open spec fn view(&self) -> TaskView {
        TaskView { name: self.name@, priority: self.priority@, details: self.details@ }
    }
}

/// The text that an optional update field leaves in place of `current`.
pub open spec fn merged_field(current: Seq<char>, given: Option<String>) -> Seq<char> {
    match given {
        Some(s) => s@,
        None => current,
    }
}

/// What an update payload makes of a task: each given field replaces the old one.
pub open spec fn updated(t: TaskView, p: UpdateTask) -> TaskView {
    TaskView {
        name: merged_field(t.name, p.name),
        priority: merged_field(t.priority, p.priority),
        details: merged_field(t.details, p.details),
    }
}

impl Default for Task {
    /// The empty task, with all three fields empty.
    fn default() -> (t: Task)
        ensures
            t@.name.len() == 0,
            t@.priority.len() == 0,
            t@.details.len() == 0,
    {
        Task { name: String::new(), priority: String::new(), details: String::new() }
    }
}

impl Clone for Task {
    fn clone(&self) -> (t: Task)
        ensures
            t@ == self@,
    {
        Task {
            name: self.name.clone(),
            priority: self.priority.clone(),
            details: self.details.clone(),
        }
    }
}

impl Task {
    /// The task that a create payload describes, field for field.
    pub fn from_create(payload: CreateTask) -> (t: Task)
        ensures
            t@.name == payload.name@,
            t@.priority == payload.priority@,
            t@.details == payload.details@,
    {
        Task { name: payload.name, priority: payload.priority, details: payload.details }
    }

    /// Overwrites exactly the fields that the payload carries and leaves the
    /// others as they were.
    pub fn apply_update(&mut self, payload: UpdateTask)
        ensures
            final(self)@ == updated(old(self)@, payload),
            payload.name matches Some(n) ==> final(self)@.name == n@,
            payload.priority matches Some(p) ==> final(self)@.priority == p@,
            payload.details matches Some(d) ==> final(self)@.details == d@,
            payload.name is None ==> final(self)@.name == old(self)@.name,
            payload.priority is None ==> final(self)@.priority == old(self)@.priority,
            payload.details is None ==> final(self)@.details == old(self)@.details,
    {
        let ghost p = payload;
        if let Some(name) = payload.name {
            self.name = name;
        }
        if let Some(priority) = payload.priority {
            self.priority = priority;
        }
        if let Some(details) = payload.details {
            self.details = details;
        }
        assert(self@ == updated(old(self)@, p));
    }
}

} // verus!
