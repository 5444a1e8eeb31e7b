use todo_api::error::Error;
use todo_api::facade::{answer, percent_decode, route_of, Failure, Route};
use todo_api::statement::changed;
use todo_api::task::AffectedRows;

fn parts(path: &[&str]) -> Vec<String> {
    path.iter().map(|s| s.to_string()).collect()
}

#[test]
fn the_five_routes_are_found() {
    let all = route_of("GET", &parts(&["tasks"])).unwrap();
    assert_eq!(all.route, Route::GetAllTasks);
    assert_eq!(all.argument, None);
    let expect = [
        ("POST", Route::AddTask),
        ("GET", Route::GetTask),
        ("PATCH", Route::ToggleTask),
        ("DELETE", Route::DeleteTask),
    ];
    for (method, route) in expect {
        let q = route_of(method, &parts(&["task", "Buy milk"])).unwrap();
        assert_eq!(q.route, route);
        assert_eq!(q.argument, Some("Buy milk".to_string()));
    }
}

#[test]
fn nothing_else_is_routed() {
    assert!(route_of("POST", &parts(&["tasks"])).is_none());
    assert!(route_of("GET", &parts(&["task"])).is_none());
    assert!(route_of("GET", &parts(&["task", ""])).is_none());
    assert!(route_of("GET", &parts(&["task", "a", "b"])).is_none());
    assert!(route_of("GET", &parts(&["tasks", "a"])).is_none());
    assert!(route_of("PUT", &parts(&["task", "a"])).is_none());
    assert!(route_of("get", &parts(&["tasks"])).is_none());
    assert!(route_of("GET", &parts(&[])).is_none());
    assert!(route_of("GET", &parts(&["other", "a"])).is_none());
}

#[test]
fn a_change_reports_one_row_whatever_the_engine_replied() {
    let none: Result<Vec<u8>, Error> = Ok(vec![]);
    assert_eq!(changed(none).unwrap(), AffectedRows { rows_affected: 1 });
    let some: Result<Vec<u8>, Error> = Ok(vec![1, 2, 3]);
    assert_eq!(changed(some).unwrap(), AffectedRows { rows_affected: 1 });
}

#[test]
fn a_failed_change_passes_the_failure_on() {
    let failed: Result<Vec<u8>, Error> = Err(Error::Surreal("locked".to_string()));
    match changed(failed) {
        Err(Error::Surreal(m)) => assert_eq!(m, "locked"),
        _ => panic!("the failure was not passed on"),
    }
}

#[test]
fn a_reply_has_the_status_of_its_outcome() {
    assert_eq!(answer(Some(Ok("[]".to_string()))), (200, "[]".to_string()));
    let failed = Failure { status: 500, message: "Unable to fetch task.".to_string() };
    assert_eq!(answer(Some(Err(failed))), (500, "Unable to fetch task.".to_string()));
    assert_eq!(answer(None), (404, String::new()));
}

fn decoded(text: &str) -> Vec<u8> {
    percent_decode(&text.as_bytes().to_vec())
}

#[test]
fn escapes_in_a_segment_give_their_bytes() {
    assert_eq!(decoded("Buy%20milk"), b"Buy milk".to_vec());
    assert_eq!(decoded("a%2Fb%2fc"), b"a/b/c".to_vec());
    assert_eq!(decoded("%41%7a%00%fF"), vec![0x41, 0x7a, 0x00, 0xff]);
    assert_eq!(decoded("%e2%9f%a8"), "⟨".as_bytes().to_vec());
    assert_eq!(decoded("%2541"), b"%41".to_vec());
}

#[test]
fn what_is_no_escape_stands_for_itself() {
    assert_eq!(decoded(""), Vec::<u8>::new());
    assert_eq!(decoded("plain"), b"plain".to_vec());
    assert_eq!(decoded("%"), b"%".to_vec());
    assert_eq!(decoded("%4"), b"%4".to_vec());
    assert_eq!(decoded("%zz"), b"%zz".to_vec());
    assert_eq!(decoded("%4g%g4"), b"%4g%g4".to_vec());
    assert_eq!(decoded("100%"), b"100%".to_vec());
    assert_eq!(decoded("a+b"), b"a+b".to_vec());
}
