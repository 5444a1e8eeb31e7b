use todo_api::db::DB;
use todo_api::error::Error;
use todo_api::task::{Task, Timestamp};

fn at(secs: i64, nanos: u32) -> Timestamp {
    Timestamp { secs, nanos }
}

fn titles(db: &DB) -> Vec<String> {
    db.get_all_tasks().unwrap().into_iter().map(|t| t.title).collect()
}

fn create(db: &mut DB, title: &str, id: &str, now: Timestamp) -> Task {
    db.add_task(title.to_string(), id.to_string(), now).unwrap()
}

#[test]
fn created_task_has_title_and_is_open() {
    let mut db = DB::new();
    let task = create(&mut db, "Buy milk", "tasks:1", at(100, 5));
    assert_eq!(task.title, "Buy milk");
    assert!(!task.completed);
    assert_eq!(task.id, Some("tasks:1".to_string()));
    assert_eq!(task.created_at, Some(at(100, 5)));
}

#[test]
fn empty_title_is_stored_as_given() {
    let mut db = DB::new();
    let task = create(&mut db, "", "tasks:1", at(1, 0));
    assert_eq!(task.title, "");
    assert_eq!(titles(&db), vec!["".to_string()]);
}

#[test]
fn created_task_is_found_by_its_id() {
    let mut db = DB::new();
    create(&mut db, "first", "tasks:a", at(10, 0));
    let made = create(&mut db, "second", "tasks:b", at(20, 0));
    let got = db.get_task("tasks:b".to_string()).unwrap().unwrap();
    assert_eq!(got.id, made.id);
    assert_eq!(got.title, made.title);
    assert_eq!(got.completed, made.completed);
    assert_eq!(got.created_at, made.created_at);
}

#[test]
fn unknown_id_is_found_as_nothing() {
    let mut db = DB::new();
    create(&mut db, "first", "tasks:a", at(10, 0));
    assert!(db.get_task("tasks:zzz".to_string()).unwrap().is_none());
    assert!(DB::new().get_task("tasks:a".to_string()).unwrap().is_none());
}

#[test]
fn an_id_in_use_is_refused_and_nothing_changes() {
    let mut db = DB::new();
    create(&mut db, "first", "tasks:a", at(10, 0));
    let again = db.add_task("other".to_string(), "tasks:a".to_string(), at(20, 0));
    match again {
        Err(Error::Surreal(m)) => assert_eq!(m, "Database record `tasks:a` already exists"),
        _ => panic!("an identifier in use was accepted"),
    }
    assert_eq!(titles(&db), vec!["first".to_string()]);
}

#[test]
fn all_tasks_come_in_the_order_of_creation() {
    let mut db = DB::new();
    create(&mut db, "c", "tasks:c", at(30, 0));
    create(&mut db, "a", "tasks:a", at(10, 0));
    create(&mut db, "d", "tasks:d", at(30, 1));
    create(&mut db, "b", "tasks:b", at(10, 999_999_999));
    assert_eq!(titles(&db), vec!["a", "b", "c", "d"]);
    let all = db.get_all_tasks().unwrap();
    for pair in all.windows(2) {
        let (x, y) = (pair[0].created_at.unwrap(), pair[1].created_at.unwrap());
        assert!(x.is_at_or_before(&y));
    }
}

#[test]
fn tasks_of_one_instant_keep_the_order_of_arrival() {
    let mut db = DB::new();
    create(&mut db, "one", "tasks:1", at(5, 5));
    create(&mut db, "two", "tasks:2", at(5, 5));
    create(&mut db, "zero", "tasks:0", at(5, 4));
    create(&mut db, "three", "tasks:3", at(5, 5));
    assert_eq!(titles(&db), vec!["zero", "one", "two", "three"]);
}

#[test]
fn an_empty_store_lists_nothing() {
    assert!(DB::new().get_all_tasks().unwrap().is_empty());
}

#[test]
fn toggling_turns_the_flag_over_and_twice_restores_it() {
    let mut db = DB::new();
    create(&mut db, "first", "tasks:a", at(10, 0));
    create(&mut db, "second", "tasks:b", at(20, 0));
    assert_eq!(db.toggle_task("tasks:a".to_string()).unwrap().rows_affected, 1);
    assert!(db.get_task("tasks:a".to_string()).unwrap().unwrap().completed);
    assert!(!db.get_task("tasks:b".to_string()).unwrap().unwrap().completed);
    assert_eq!(db.toggle_task("tasks:a".to_string()).unwrap().rows_affected, 1);
    let back = db.get_task("tasks:a".to_string()).unwrap().unwrap();
    assert!(!back.completed);
    assert_eq!(back.title, "first");
    assert_eq!(back.created_at, Some(at(10, 0)));
    assert_eq!(titles(&db), vec!["first", "second"]);
}

#[test]
fn a_deleted_task_is_found_no_longer() {
    let mut db = DB::new();
    create(&mut db, "first", "tasks:a", at(10, 0));
    create(&mut db, "second", "tasks:b", at(20, 0));
    create(&mut db, "third", "tasks:c", at(30, 0));
    assert_eq!(db.delete_task("tasks:b".to_string()).unwrap().rows_affected, 1);
    assert!(db.get_task("tasks:b".to_string()).unwrap().is_none());
    assert_eq!(titles(&db), vec!["first", "third"]);
}

#[test]
fn changes_of_an_unknown_id_report_one_row_and_change_nothing() {
    let mut db = DB::new();
    create(&mut db, "first", "tasks:a", at(10, 0));
    assert_eq!(db.toggle_task("tasks:nonexistent".to_string()).unwrap().rows_affected, 1);
    assert_eq!(db.delete_task("tasks:nonexistent".to_string()).unwrap().rows_affected, 1);
    let all = db.get_all_tasks().unwrap();
    assert_eq!(all.len(), 1);
    assert!(!all[0].completed);
}

#[test]
fn an_id_that_does_not_resolve_is_a_store_error_and_changes_nothing() {
    let mut db = DB::new();
    create(&mut db, "first", "tasks:a", at(10, 0));
    for id in ["", "nonexistent-id", "tasks", "tasks:", " ", "a:[\r "] {
        assert!(matches!(db.get_task(id.to_string()), Err(Error::Surreal(_))), "{:?}", id);
        assert!(matches!(db.toggle_task(id.to_string()), Err(Error::Surreal(_))), "{:?}", id);
        assert!(matches!(db.delete_task(id.to_string()), Err(Error::Surreal(_))), "{:?}", id);
        let made = db.add_task("other".to_string(), id.to_string(), at(20, 0));
        assert!(matches!(made, Err(Error::Surreal(_))), "{:?}", id);
    }
    let all = db.get_all_tasks().unwrap();
    assert_eq!(all.len(), 1);
    assert_eq!(all[0].title, "first");
    assert!(!all[0].completed);
}

#[test]
fn the_empty_id_is_refused_with_the_parsers_text() {
    let mut db = DB::new();
    match db.add_task("x".to_string(), "".to_string(), at(1, 0)) {
        Err(e) => assert_eq!(e.message(), "Specify some SQL code to execute"),
        Ok(_) => panic!("a task was created under the empty identifier"),
    }
    match db.get_task("".to_string()) {
        Err(e) => assert_eq!(e.message(), "Specify some SQL code to execute"),
        Ok(_) => panic!("the empty identifier was read"),
    }
    assert!(db.get_all_tasks().unwrap().is_empty());
}

#[test]
fn buy_milk_scenario() {
    let mut db = DB::new();
    let made = create(&mut db, "Buy milk", "tasks:milk", at(1_700_000_000, 0));
    assert_eq!(made.title, "Buy milk");
    assert!(!made.completed);
    assert!(made.id.is_some());
    assert!(made.created_at.is_some());
    let id = made.id.unwrap();
    assert_eq!(db.toggle_task(id.clone()).unwrap().rows_affected, 1);
    assert!(db.get_task(id.clone()).unwrap().unwrap().completed);
    assert_eq!(db.delete_task(id.clone()).unwrap().rows_affected, 1);
    assert!(db.get_task(id).unwrap().is_none());
    assert_eq!(db.toggle_task("tasks:nonexistent".to_string()).unwrap().rows_affected, 1);
    assert!(matches!(db.toggle_task("nonexistent-id".to_string()), Err(Error::Surreal(_))));
}

#[test]
fn instants_are_ordered_by_seconds_then_nanoseconds() {
    assert!(at(1, 0).is_at_or_before(&at(1, 0)));
    assert!(at(1, 999).is_at_or_before(&at(2, 0)));
    assert!(!at(2, 0).is_at_or_before(&at(1, 999)));
    assert!(at(-5, 10).is_at_or_before(&at(-5, 11)));
    assert!(!at(-5, 11).is_at_or_before(&at(-5, 10)));
    assert!(at(i64::MIN, 0).is_at_or_before(&at(i64::MAX, u32::MAX)));
}
