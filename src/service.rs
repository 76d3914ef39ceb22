//! What each handler decides. The file operations themselves are done by the
//! caller, which hands back what they gave; every decision between them, and
//! every response, is made here.
use vstd::prelude::*;
use crate::codec::{decode_task, decoded, encode_task, encoded, encoded_list, encode_task_list, frame_task_list, task_list_json};
use crate::error::TaskError;
use crate::task::{CreateTask, Task, TaskView, UpdateTask, updated};

verus! {

/// The HTTP statuses that the handlers answer with.
#[derive(Debug, Clone, Copy, PartialEq, Eq, Structural)]
pub enum Status {
    Success,
    Created,
    InternalServerError,
}

pub open spec fn code_of(s: Status) -> u16 {
    match s {
        Status::Success => 200,
        Status::Created => 201,
        Status::InternalServerError => 500,
    }
}

impl Status {
    /// The numeric HTTP status code.
    pub fn code(&self) -> (r: u16)
        ensures
            r == code_of(*self),
    {
        match self {
            Status::Success => 200,
            Status::Created => 201,
            Status::InternalServerError => 500,
        }
    }
}

/// A response that carries a task as its body.
pub struct TaskResponse {
    pub status: Status,
    pub task: Task,
}

/// A task file still to be written, and the task that the response carries
/// once it is.
pub struct PendingWrite {
    pub path: String,
    pub content: String,
    pub task: Task,
}

/// What became of reading one task file.
pub enum FileRead {
    /// The file could not be opened.
    OpenFailed,
    /// The file was opened, and reading it through failed.
    ReadFailed,
    /// The file's whole text.
    Content(String),
}

/// The text form of a canonical UUID: 36 characters, hyphens at positions 8,
/// 13, 18 and 23, lower-case hexadecimal digits elsewhere.
pub open spec fn is_uuid_text(s: Seq<char>) -> bool {
    &&& s.len() == 36
    &&& forall|i: int|
        0 <= i < 36 ==> if i == 8 || i == 13 || i == 18 || i == 23 {
            #[trigger] s[i] == '-'
        } else {
            ('0' <= s[i] <= '9') || ('a' <= s[i] <= 'f')
        }
}

/// The name of the file that holds the task with identifier `id`.
pub open spec fn file_name_of(id: Seq<char>) -> Seq<char> {
    id + ".json"@
}

/// Where, under directory `dir`, the file `file_name` lies.
pub open spec fn path_in(dir: Seq<char>, file_name: Seq<char>) -> Seq<char> {
    dir + "/"@ + file_name
}

/// The text of one decimal digit.
pub open spec fn digit_text(d: nat) -> Seq<char> {
    if d == 0 { "0"@ }
    else if d == 1 { "1"@ }
    else if d == 2 { "2"@ }
    else if d == 3 { "3"@ }
    else if d == 4 { "4"@ }
    else if d == 5 { "5"@ }
    else if d == 6 { "6"@ }
    else if d == 7 { "7"@ }
    else if d == 8 { "8"@ }
    else { "9"@ }
}

/// A natural number written in decimal, with no leading zeros.
pub open spec fn decimal(n: nat) -> Seq<char>
    decreases n,
{
    if n < 10 {
        digit_text(n)
    } else {
        decimal(n / 10) + digit_text(n % 10)
    }
}

/// The status page: the number of stored tasks, or a notice that the storage
/// directory could not be listed.
pub open spec fn root_text(count: Option<usize>) -> Seq<char> {
    match count {
        Some(n) => "Welcome to Your Virtual To-Do List!\nTotal number of tasks to complete: "@
            + decimal(n as nat) + "\nLet's get organized!!"@,
        None => "Failed to read tasks directory"@,
    }
}

/// The answer to reading one task file.
pub open spec fn show_text(file_name: Seq<char>, read: FileRead) -> Seq<char> {
    match read {
        FileRead::Content(c) => "Task "@ + file_name + ":\n"@ + c@,
        FileRead::ReadFailed | FileRead::OpenFailed => "Failed to show task "@ + file_name,
    }
}

/// The status that answers a delete, by whether the file was removed.
pub open spec fn delete_status_of(removed: bool) -> Status {
    if removed { Status::Success } else { Status::InternalServerError }
}

pub open spec fn is_empty_task(t: TaskView) -> bool {
    t.name.len() == 0 && t.priority.len() == 0 && t.details.len() == 0
}

/// The task that a create payload describes.
pub open spec fn created(p: CreateTask) -> TaskView {
    TaskView { name: p.name@, priority: p.priority@, details: p.details@ }
}

fn digit_str(d: u64) -> (r: &'static str)
    requires
        d < 10,
    ensures
        r@ == digit_text(d as nat),
{
    if d == 0 { "0" }
    else if d == 1 { "1" }
    else if d == 2 { "2" }
    else if d == 3 { "3" }
    else if d == 4 { "4" }
    else if d == 5 { "5" }
    else if d == 6 { "6" }
    else if d == 7 { "7" }
    else if d == 8 { "8" }
    else { "9" }
}

/// Writes a count in decimal.
pub fn decimal_text(n: usize) -> (r: String)
    ensures
        r@ == decimal(n as nat),
{
    let mut m: u64 = n as u64;
    let mut tail = String::new();
    while m >= 10
        invariant
            decimal(n as nat) == decimal(m as nat) + tail@,
        decreases m,
    {
        let mut s = String::from_str(digit_str(m % 10));
        s.append(tail.as_str());
        assert(decimal(m as nat) == decimal((m / 10) as nat) + digit_text((m % 10) as nat));
        assert(decimal(m as nat) + tail@ =~= decimal((m / 10) as nat) + s@);
        tail = s;
        m = m / 10;
    }
    let mut r = String::from_str(digit_str(m));
    r.append(tail.as_str());
    r
}

/// The status page, given how many entries the storage directory holds, or
/// `None` where it could not be listed.
pub fn root_message(count: Option<usize>) -> (r: String)
    ensures
        r@ == root_text(count),
{
    match count {
        Some(n) => {
            let mut r = String::from_str("Welcome to Your Virtual To-Do List!\nTotal number of tasks to complete: ");
            let digits = decimal_text(n);
            r.append(digits.as_str());
            r.append("\nLet's get organized!!");
            r
        },
        None => String::from_str("Failed to read tasks directory"),
    }
}

/// The name of the file that holds the task with identifier `id`.
pub fn task_file_name(id: &str) -> (r: String)
    ensures
        r@ == file_name_of(id@),
{
    let mut r = String::from_str(id);
    r.append(".json");
    r
}

/// Answers a read of one task file: its text behind a heading, or a notice.
pub fn show_message(file_name: &str, read: FileRead) -> (r: String)
    ensures
        r@ == show_text(file_name@, read),
{
    match read {
        FileRead::Content(c) => {
            let mut r = String::from_str("Task ");
            r.append(file_name);
            r.append(":\n");
            r.append(c.as_str());
            r
        },
        FileRead::ReadFailed | FileRead::OpenFailed => {
            let mut r = String::from_str("Failed to show task ");
            r.append(file_name);
            r
        },
    }
}

/// The body that lists no task.
pub fn empty_list_body() -> (r: String)
    ensures
        r@ == task_list_json(seq![]),
{
    let empty: Vec<String> = Vec::new();
    let body = frame_task_list(&empty);
    assert(empty@.map_values(|q: String| q@) =~= seq![]);
    body
}

/// Answers a listing from the encoded list of names: `Created` with that body,
/// or `InternalServerError` with no names where encoding failed.
pub fn list_reply(body: Result<String, TaskError>) -> (r: (Status, String))
    ensures
        body matches Ok(b) ==> r.0 == Status::Created && r.1@ == b@,
        body is Err ==> r.0 == Status::InternalServerError && r.1@ == task_list_json(seq![]),
{
    match body {
        Ok(b) => (Status::Created, b),
        Err(_) => (Status::InternalServerError, empty_list_body()),
    }
}

/// Answers a listing, given the directory's entry names, or `None` where it
/// could not be listed: `Created` with the names in the order given, or
/// `InternalServerError` with no names.
pub fn list_tasks(entries: Option<Vec<String>>) -> (r: (Status, String))
    ensures
        entries is None ==> r.0 == Status::InternalServerError && r.1@ == task_list_json(seq![]),
        entries matches Some(names) ==> r.0 == Status::Created
            && r.1@ == encoded_list(names@.map_values(|n: String| n@)),
{
    match entries {
        Some(names) => list_reply(encode_task_list(&names)),
        None => (Status::InternalServerError, empty_list_body()),
    }
}

/// Turns an encoded task into the write still to be done, or, where encoding
/// failed, into a server error that carries `fallback`.
pub fn plan_write(path: String, task: Task, content: Result<String, TaskError>, fallback: Task) -> (r: Result<PendingWrite, TaskResponse>)
    ensures
        content matches Ok(c) ==> (r matches Ok(w) && w.path@ == path@ && w.content@ == c@ && w.task@ == task@),
        content is Err ==> (r matches Err(resp) && resp.status == Status::InternalServerError && resp.task@ == fallback@),
{
    match content {
        Ok(c) => Ok(PendingWrite { path, content: c, task }),
        Err(_) => Err(TaskResponse { status: Status::InternalServerError, task: fallback }),
    }
}

/// Answers a create once its file write is done: `Created` with the task where
/// the file was written, else `InternalServerError` with the task.
pub fn create_written(task: Task, written: bool) -> (r: TaskResponse)
    ensures
        r.status == (if written { Status::Created } else { Status::InternalServerError }),
        r.task@ == task@,
{
    if written {
        TaskResponse { status: Status::Created, task }
    } else {
        TaskResponse { status: Status::InternalServerError, task }
    }
}

/// Answers an update once its file write is done: `Success` with the merged
/// task where the file was written, else `InternalServerError` with it.
pub fn update_written(task: Task, written: bool) -> (r: TaskResponse)
    ensures
        r.status == (if written { Status::Success } else { Status::InternalServerError }),
        r.task@ == task@,
{
    if written {
        TaskResponse { status: Status::Success, task }
    } else {
        TaskResponse { status: Status::InternalServerError, task }
    }
}

/// Relies on `uuid::Uuid::new_v4` for a random identifier, and on its
/// `Display`, which writes the hyphenated lower-case form.
#[verifier::external_body]
fn new_task_id() -> (r: String)
    ensures
        is_uuid_text(r@),
{
    uuid::Uuid::new_v4().to_string()
}

/// Where the task files lie: one directory, fixed when the store is made.
pub struct TaskStore {
    pub dir: String,
}

impl TaskStore {
    pub fn new(dir: String) -> (r: TaskStore)
        ensures
            r.dir@ == dir@,
    {
        TaskStore { dir }
    }

    /// The path of the file `file_name` in the storage directory.
    pub fn path_of(&self, file_name: &str) -> (r: String)
        ensures
            r@ == path_in(self.dir@, file_name@),
    {
        let mut r = self.dir.clone();
        r.append("/");
        r.append(file_name);
        r
    }

    /// Plans the create of a task under identifier `id`: the file
    /// `<id>.json` is to hold the task's JSON text.
    pub fn plan_create(&self, id: &str, payload: CreateTask) -> (r: Result<PendingWrite, TaskResponse>)
        ensures
            r matches Ok(w) && {
                &&& w.path@ == path_in(self.dir@, file_name_of(id@))
                &&& w.content@ == encoded(created(payload))
                &&& w.task@ == created(payload)
            },
    {
        let task = Task::from_create(payload);
        let content = encode_task(&task);
        let file_name = task_file_name(id);
        let path = self.path_of(file_name.as_str());
        plan_write(path, task, content, Task::default())
    }

    /// Plans the create of a task under a fresh random identifier.
    pub fn create_task(&self, payload: CreateTask) -> (r: Result<PendingWrite, TaskResponse>)
        ensures
            r matches Ok(w) && {
                &&& exists|id: Seq<char>| is_uuid_text(id) && w.path@ == path_in(self.dir@, file_name_of(id))
                &&& w.content@ == encoded(created(payload))
                &&& w.task@ == created(payload)
            },
    {
        let id = new_task_id();
        self.plan_create(id.as_str(), payload)
    }

    /// Plans the update of the task file `file_name`, given its text, or
    /// `None` where it could not be read. The stored task is read back, the
    /// payload's fields are put over it, and the file is to be rewritten with
    /// the result. Where the file cannot be read or decoded the answer is a
    /// server error with the empty task.
    pub fn plan_update(&self, file_name: &str, existing: Option<String>, payload: UpdateTask) -> (r: Result<PendingWrite, TaskResponse>)
        ensures
            match existing {
                None => (r matches Err(resp) && resp.status == Status::InternalServerError && is_empty_task(resp.task@)),
                Some(text) => match decoded(text@) {
                    None => (r matches Err(resp) && resp.status == Status::InternalServerError && is_empty_task(resp.task@)),
                    Some(t) => (r matches Ok(w) && w.path@ == path_in(self.dir@, file_name@)
                        && w.content@ == encoded(updated(t, payload)) && w.task@ == updated(t, payload)),
                },
            },
    {
        let text = match existing {
            Some(text) => text,
            None => return Err(TaskResponse { status: Status::InternalServerError, task: Task::default() }),
        };
        let mut task = match decode_task(text.as_str()) {
            Ok(t) => t,
            Err(_) => return Err(TaskResponse { status: Status::InternalServerError, task: Task::default() }),
        };
        task.apply_update(payload);
        let content = encode_task(&task);
        let path = self.path_of(file_name);
        let fallback = task.clone();
        plan_write(path, task, content, fallback)
    }
}

/// The status that answers a delete, by whether the file was removed.
pub fn delete_status(removed: bool) -> (r: Status)
    ensures
        r == delete_status_of(removed),
{
    if removed { Status::Success } else { Status::InternalServerError }
}

} // verus!
