use task_store::codec::{decode_task, encode_task, frame_task, frame_task_list, encode_task_list, find_field, task_from_entries};
use task_store::error::TaskError;
use task_store::service::{
    create_written, decimal_text, delete_status, list_reply, list_tasks, plan_write, root_message, show_message,
    task_file_name, update_written, FileRead, Status, TaskStore,
};
use task_store::task::{CreateTask, Task, UpdateTask};

const ID: &str = "1b4e28ba-2fa1-4d2e-8c6b-0c9f4a2b7e11";
const MILK: &str = "{\"name\":\"Buy milk\",\"priority\":\"low\",\"details\":\"2%\"}";

fn store() -> TaskStore {
    TaskStore::new("./tasks".to_string())
}

fn milk() -> CreateTask {
    CreateTask { name: "Buy milk".to_string(), priority: "low".to_string(), details: "2%".to_string() }
}

fn task(name: &str, priority: &str, details: &str) -> Task {
    Task { name: name.to_string(), priority: priority.to_string(), details: details.to_string() }
}

fn assert_task(t: &Task, name: &str, priority: &str, details: &str) {
    assert_eq!(t.name, name);
    assert_eq!(t.priority, priority);
    assert_eq!(t.details, details);
}

#[test]
fn create_echoes_task_with_created() {
    let w = match store().plan_create(ID, milk()) {
        Ok(w) => w,
        Err(_) => panic!("create planned no write"),
    };
    assert_eq!(w.path, format!("./tasks/{}.json", ID));
    assert_eq!(w.content, MILK);
    let resp = create_written(w.task, true);
    assert_eq!(resp.status, Status::Created);
    assert_eq!(resp.status.code(), 201);
    assert_eq!(encode_task(&resp.task), Ok(MILK.to_string()));
}

#[test]
fn create_write_failure_is_server_error_with_task() {
    let resp = create_written(task("a", "b", "c"), false);
    assert_eq!(resp.status.code(), 500);
    assert_task(&resp.task, "a", "b", "c");
}

#[test]
fn create_task_uses_fresh_uuid_file_names() {
    let s = store();
    let a = match s.create_task(milk()) {
        Ok(w) => w,
        Err(_) => panic!("create planned no write"),
    };
    let b = match s.create_task(milk()) {
        Ok(w) => w,
        Err(_) => panic!("create planned no write"),
    };
    assert_ne!(a.path, b.path);
    for w in [&a, &b] {
        assert!(w.path.starts_with("./tasks/"));
        assert!(w.path.ends_with(".json"));
        assert_eq!(w.path.len(), "./tasks/".len() + 36 + ".json".len());
        let id = &w.path["./tasks/".len().."./tasks/".len() + 36];
        for (i, c) in id.chars().enumerate() {
            if i == 8 || i == 13 || i == 18 || i == 23 {
                assert_eq!(c, '-');
            } else {
                assert!(c.is_ascii_digit() || ('a'..='f').contains(&c));
            }
        }
        assert_eq!(w.content, MILK);
    }
}

#[test]
fn list_after_one_create() {
    let name = task_file_name(ID);
    let (status, body) = list_tasks(Some(vec![name.clone()]));
    assert_eq!(status, Status::Created);
    assert_eq!(status.code(), 201);
    assert_eq!(body, format!("{{\"task_ids\":[\"{}\"]}}", name));
}

#[test]
fn list_keeps_every_name_in_order() {
    let names = vec!["b.json".to_string(), "a.json".to_string(), "c.json".to_string()];
    let (status, body) = list_tasks(Some(names));
    assert_eq!(status, Status::Created);
    assert_eq!(body, "{\"task_ids\":[\"b.json\",\"a.json\",\"c.json\"]}");
}

#[test]
fn list_of_empty_directory() {
    assert_eq!(list_tasks(Some(Vec::new())), (Status::Created, "{\"task_ids\":[]}".to_string()));
}

#[test]
fn list_of_unreadable_directory() {
    let (status, body) = list_tasks(None);
    assert_eq!(status.code(), 500);
    assert_eq!(body, "{\"task_ids\":[]}");
}

#[test]
fn list_reply_on_encoding_failure() {
    assert_eq!(list_reply(Err(TaskError::Serialization)), (Status::InternalServerError, "{\"task_ids\":[]}".to_string()));
    assert_eq!(list_reply(Ok("x".to_string())), (Status::Created, "x".to_string()));
}

#[test]
fn update_priority_only() {
    let name = task_file_name(ID);
    let payload = UpdateTask { name: None, priority: Some("high".to_string()), details: None };
    let w = match store().plan_update(&name, Some(MILK.to_string()), payload) {
        Ok(w) => w,
        Err(_) => panic!("update planned no write"),
    };
    assert_eq!(w.path, format!("./tasks/{}", name));
    assert_eq!(w.content, "{\"name\":\"Buy milk\",\"priority\":\"high\",\"details\":\"2%\"}");
    let resp = update_written(w.task, true);
    assert_eq!(resp.status.code(), 200);
    assert_eq!(encode_task(&resp.task), Ok("{\"name\":\"Buy milk\",\"priority\":\"high\",\"details\":\"2%\"}".to_string()));
}

#[test]
fn update_of_unreadable_file_answers_empty_task() {
    let payload = UpdateTask { name: Some("x".to_string()), priority: None, details: None };
    match store().plan_update("missing.json", None, payload) {
        Ok(_) => panic!("update of a missing file planned a write"),
        Err(resp) => {
            assert_eq!(resp.status, Status::InternalServerError);
            assert_task(&resp.task, "", "", "");
        }
    }
}

#[test]
fn update_of_corrupt_file_answers_empty_task() {
    let payload = UpdateTask { name: Some("x".to_string()), priority: None, details: None };
    match store().plan_update("bad.json", Some("{\"name\":\"a\"".to_string()), payload) {
        Ok(_) => panic!("update of a corrupt file planned a write"),
        Err(resp) => {
            assert_eq!(resp.status.code(), 500);
            assert_task(&resp.task, "", "", "");
        }
    }
}

#[test]
fn update_write_failure_keeps_merged_task() {
    let resp = update_written(task("n", "p", "d"), false);
    assert_eq!(resp.status, Status::InternalServerError);
    assert_task(&resp.task, "n", "p", "d");
}

#[test]
fn apply_update_changes_only_given_fields() {
    let mut t = task("n", "p", "d");
    t.apply_update(UpdateTask { name: None, priority: None, details: None });
    assert_task(&t, "n", "p", "d");
    t.apply_update(UpdateTask { name: Some("N".to_string()), priority: None, details: Some("".to_string()) });
    assert_task(&t, "N", "p", "");
    t.apply_update(UpdateTask { name: Some("A".to_string()), priority: Some("B".to_string()), details: Some("C".to_string()) });
    assert_task(&t, "A", "B", "C");
}

#[test]
fn show_after_delete_reports_failure() {
    let name = task_file_name(ID);
    assert_eq!(delete_status(true), Status::Success);
    assert_eq!(delete_status(true).code(), 200);
    assert_eq!(show_message(&name, FileRead::OpenFailed), format!("Failed to show task {}", name));
}

#[test]
fn show_of_stored_task() {
    assert_eq!(show_message("a.json", FileRead::Content(MILK.to_string())), format!("Task a.json:\n{}", MILK));
    assert_eq!(show_message("a.json", FileRead::ReadFailed), "Failed to show task a.json");
}

#[test]
fn second_delete_fails() {
    assert_eq!(delete_status(false), Status::InternalServerError);
    assert_eq!(delete_status(false).code(), 500);
}

#[test]
fn root_without_directory_is_degraded_text() {
    assert_eq!(root_message(None), "Failed to read tasks directory");
}

#[test]
fn root_counts_tasks() {
    assert_eq!(
        root_message(Some(3)),
        "Welcome to Your Virtual To-Do List!\nTotal number of tasks to complete: 3\nLet's get organized!!"
    );
    assert!(root_message(Some(0)).contains("complete: 0\n"));
}

#[test]
fn decimal_text_of_counts() {
    assert_eq!(decimal_text(0), "0");
    assert_eq!(decimal_text(9), "9");
    assert_eq!(decimal_text(10), "10");
    assert_eq!(decimal_text(1234567), "1234567");
    assert_eq!(decimal_text(usize::MAX), usize::MAX.to_string());
}

#[test]
fn stored_text_reads_back() {
    let t = task("say \"hi\"\n", "\\ top", "tab\there é");
    let text = match encode_task(&t) {
        Ok(s) => s,
        Err(_) => panic!("encoding failed"),
    };
    assert_eq!(text, "{\"name\":\"say \\\"hi\\\"\\n\",\"priority\":\"\\\\ top\",\"details\":\"tab\\there é\"}");
    match decode_task(&text) {
        Ok(back) => assert_task(&back, "say \"hi\"\n", "\\ top", "tab\there é"),
        Err(_) => panic!("decoding failed"),
    }
}

#[test]
fn decode_accepts_any_layout_and_extra_keys() {
    let text = " { \"details\" : \"d\", \"extra\": [1, 2], \"priority\":\"p\",\n\"name\":\"n\" } ";
    match decode_task(text) {
        Ok(t) => assert_task(&t, "n", "p", "d"),
        Err(_) => panic!("decoding failed"),
    }
}

#[test]
fn decode_rejects_bad_text() {
    assert!(matches!(decode_task("not json"), Err(TaskError::Deserialization)));
    assert!(matches!(decode_task("[\"n\",\"p\",\"d\"]"), Err(TaskError::Deserialization)));
    assert!(matches!(decode_task("{\"name\":\"n\",\"priority\":\"p\"}"), Err(TaskError::Deserialization)));
    assert!(matches!(decode_task("{\"name\":1,\"priority\":\"p\",\"details\":\"d\"}"), Err(TaskError::Deserialization)));
}

#[test]
fn fields_from_entries() {
    let entries = vec![
        ("details".to_string(), Some("d".to_string())),
        ("name".to_string(), None),
        ("priority".to_string(), Some("p".to_string())),
    ];
    assert_eq!(find_field(&entries, "details"), Some("d".to_string()));
    assert_eq!(find_field(&entries, "name"), None);
    assert_eq!(find_field(&entries, "other"), None);
    assert!(matches!(task_from_entries(&entries), Err(TaskError::Deserialization)));
    let entries = vec![
        ("name".to_string(), Some("n".to_string())),
        ("priority".to_string(), Some("p".to_string())),
        ("details".to_string(), Some("d".to_string())),
    ];
    match task_from_entries(&entries) {
        Ok(t) => assert_task(&t, "n", "p", "d"),
        Err(_) => panic!("fields not found"),
    }
}

#[test]
fn framing_of_literals() {
    assert_eq!(frame_task("\"a\"", "\"b\"", "\"c\""), "{\"name\":\"a\",\"priority\":\"b\",\"details\":\"c\"}");
    assert_eq!(frame_task_list(&vec!["\"x\"".to_string(), "\"y\"".to_string()]), "{\"task_ids\":[\"x\",\"y\"]}");
    assert_eq!(encode_task_list(&vec!["q\"".to_string()]), Ok("{\"task_ids\":[\"q\\\"\"]}".to_string()));
}

#[test]
fn plan_write_outcomes() {
    match plan_write("p".to_string(), task("a", "b", "c"), Ok("x".to_string()), Task::default()) {
        Ok(w) => {
            assert_eq!(w.path, "p");
            assert_eq!(w.content, "x");
            assert_task(&w.task, "a", "b", "c");
        }
        Err(_) => panic!("no write planned"),
    }
    match plan_write("p".to_string(), task("a", "b", "c"), Err(TaskError::Serialization), task("f", "g", "h")) {
        Ok(_) => panic!("write planned without content"),
        Err(resp) => {
            assert_eq!(resp.status.code(), 500);
            assert_task(&resp.task, "f", "g", "h");
        }
    }
}

#[test]
fn names_and_paths() {
    assert_eq!(task_file_name("abc"), "abc.json");
    assert_eq!(store().path_of("abc.json"), "./tasks/abc.json");
    assert_task(&Task::default(), "", "", "");
    let t = Task::from_create(milk());
    assert_task(&t, "Buy milk", "low", "2%");
}

#[test]
fn control_characters_are_escaped() {
    let t = task("\u{1}\u{1f}\u{8}\u{c}\r", "\u{7f}/", "");
    assert_eq!(
        encode_task(&t),
        Ok("{\"name\":\"\\u0001\\u001f\\b\\f\\r\",\"priority\":\"\u{7f}/\",\"details\":\"\"}".to_string())
    );
}
