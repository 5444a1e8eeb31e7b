//! The service's five routes: the route table, the replies, and the five
//! handlers over the in-process store. The handlers of the service that is
//! backed by an engine take `reply` and `answer` from here and call the
//! engine themselves; the five handlers of this module serve `db::DB` only.

use vstd::prelude::*;
use vstd::string::*;
use crate::db::{created, deleted, found, fresh, holds, ordered, toggled, view_of, DB};
use crate::error::Error;
use crate::statement::resolved;
use crate::task::{task_views, AffectedRows, Task, Timestamp};

verus! {

/// The five routes of the service.
#[derive(Clone, Copy, Debug, PartialEq, Eq, Structural)]
pub enum Route {
    /// POST /task/{title}
    AddTask,
    /// GET /task/{id}
    GetTask,
    /// GET /tasks
    GetAllTasks,
    /// PATCH /task/{id}
    ToggleTask,
    /// DELETE /task/{id}
    DeleteTask,
}

/// A request that one of the routes takes: the route, and the title or the
/// identifier that the path carries, where the route has one.
#[derive(Debug)]
pub struct Request {
    pub route: Route,
    pub argument: Option<String>,
}

/// What a request holds, as mathematical values.
pub struct RequestView {
    pub route: Route,
    pub argument: Option<Seq<char>>,
}

impl View for Request {
    type V = RequestView;

    open spec fn view(&self) -> RequestView {
        RequestView {
            route: self.route,
            argument: match self.argument {
                Some(s) => Some(s@),
                None => None,
            },
        }
    }
}

/// The value of a byte that is a hexadecimal digit.
pub open spec fn hex_value(b: u8) -> Option<u8> {
    if 0x30 <= b <= 0x39 {
        Some((b - 0x30) as u8)
    } else if 0x41 <= b <= 0x46 {
        Some((b - 0x41 + 10) as u8)
    } else if 0x61 <= b <= 0x66 {
        Some((b - 0x61 + 10) as u8)
    } else {
        None
    }
}

/// The bytes begin with an escape: a percent sign and two hexadecimal
/// digits.
pub open spec fn begins_with_escape(s: Seq<u8>) -> bool {
    s.len() >= 3 && s[0] == 0x25 && hex_value(s[1]) is Some && hex_value(s[2]) is Some
}

/// The bytes that a segment of a path stands for: each escape gives the
/// byte that its two digits name, and every other byte stands for itself.
pub open spec fn percent_decoded(s: Seq<u8>) -> Seq<u8>
    decreases s.len(),
{
    if s.len() == 0 {
        Seq::<u8>::empty()
    } else if begins_with_escape(s) {
        seq![(16 * hex_value(s[1])->Some_0 + hex_value(s[2])->Some_0) as u8] + percent_decoded(
            s.skip(3),
        )
    } else {
        seq![s[0]] + percent_decoded(s.skip(1))
    }
}

/// The value of `b` as a hexadecimal digit, if it is one.
fn hex_digit(b: u8) -> (r: Option<u8>)
    ensures
        r == hex_value(b),
        r matches Some(v) ==> v < 16,
{
    if 0x30 <= b && b <= 0x39 {
        Some(b - 0x30)
    } else if 0x41 <= b && b <= 0x46 {
        Some(b - 0x41 + 10)
    } else if 0x61 <= b && b <= 0x66 {
        Some(b - 0x61 + 10)
    } else {
        None
    }
}

/// Decodes the bytes of a segment of a path.
pub fn percent_decode(bytes: &Vec<u8>) -> (out: Vec<u8>)
    ensures
        out@ == percent_decoded(bytes@),
{
    let mut out: Vec<u8> = Vec::new();
    let mut i: usize = 0;
    proof {
        assert(bytes@.skip(0) =~= bytes@);
        assert(out@ + percent_decoded(bytes@) =~= percent_decoded(bytes@));
    }
    while i < bytes.len()
        invariant
            i <= bytes.len(),
            out@ + percent_decoded(bytes@.skip(i as int)) == percent_decoded(bytes@),
        decreases bytes.len() - i,
    {
        let ghost rest = bytes@.skip(i as int);
        let mut byte: u8 = bytes[i];
        let mut step: usize = 1;
        if bytes[i] == 0x25 && bytes.len() - i >= 3 {
            let high = hex_digit(bytes[i + 1]);
            let low = hex_digit(bytes[i + 2]);
            if high.is_some() && low.is_some() {
                byte = 16 * high.unwrap() + low.unwrap();
                step = 3;
            }
        }
        proof {
            assert(rest.len() == bytes.len() - i);
            assert(rest[0] == bytes@[i as int]);
            if rest.len() >= 3 {
                assert(rest[1] == bytes@[i + 1]);
                assert(rest[2] == bytes@[i + 2]);
            }
            assert(rest.skip(step as int) =~= bytes@.skip(i + step));
            assert(percent_decoded(rest) == seq![byte] + percent_decoded(rest.skip(step as int)));
            assert(out@.push(byte) + percent_decoded(rest.skip(step as int)) =~= out@ + (seq![byte]
                + percent_decoded(rest.skip(step as int))));
        }
        out.push(byte);
        i = i + step;
    }
    proof {
        assert(bytes@.skip(i as int) =~= Seq::<u8>::empty());
        assert(out@ + Seq::<u8>::empty() =~= out@);
    }
    out
}

/// The texts of the segments of a path, in their order.
pub open spec fn segment_texts(segments: Seq<String>) -> Seq<Seq<char>> {
    segments.map_values(|s: String| s@)
}

/// The route table. `/tasks` is read with GET. `/task/` and one segment
/// that is not empty is created with POST, read with GET, toggled with PATCH
/// and deleted with DELETE; the segment is the title for POST and the
/// identifier for the others. Nothing else is routed.
pub open spec fn routed(method: Seq<char>, segments: Seq<Seq<char>>) -> Option<RequestView> {
    if segments.len() == 1 && segments[0] == "tasks"@ && method == "GET"@ {
        Some(RequestView { route: Route::GetAllTasks, argument: None })
    } else if segments.len() == 2 && segments[0] == "task"@ && segments[1].len() > 0 {
        if method == "POST"@ {
            Some(RequestView { route: Route::AddTask, argument: Some(segments[1]) })
        } else if method == "GET"@ {
            Some(RequestView { route: Route::GetTask, argument: Some(segments[1]) })
        } else if method == "PATCH"@ {
            Some(RequestView { route: Route::ToggleTask, argument: Some(segments[1]) })
        } else if method == "DELETE"@ {
            Some(RequestView { route: Route::DeleteTask, argument: Some(segments[1]) })
        } else {
            None
        }
    } else {
        None
    }
}

/// The view of a request that may be absent.
pub open spec fn request_view(request: Option<Request>) -> Option<RequestView> {
    match request {
        Some(q) => Some(q@),
        None => None,
    }
}

/// Whether `text` is the word `word`.
fn is_word(text: &str, word: &str) -> (b: bool)
    ensures
        b == (text@ == word@),
{
    String::from_str(text) == String::from_str(word)
}

/// The request that a method and the segments of a path make, by the route
/// table; nothing where the table has no route for them.
pub fn route_of(method: &str, segments: &Vec<String>) -> (r: Option<Request>)
    ensures
        request_view(r) == routed(method@, segment_texts(segments@)),
{
    if segments.len() == 1 && is_word(segments[0].as_str(), "tasks") && is_word(method, "GET") {
        Some(Request { route: Route::GetAllTasks, argument: None })
    } else if segments.len() == 2 && is_word(segments[0].as_str(), "task")
        && !segments[1].as_str().is_empty() {
        let argument = Some(segments[1].clone());
        if is_word(method, "POST") {
            Some(Request { route: Route::AddTask, argument })
        } else if is_word(method, "GET") {
            Some(Request { route: Route::GetTask, argument })
        } else if is_word(method, "PATCH") {
            Some(Request { route: Route::ToggleTask, argument })
        } else if is_word(method, "DELETE") {
            Some(Request { route: Route::DeleteTask, argument })
        } else {
            None
        }
    } else {
        None
    }
}

/// A reply that reports a failure: the status and the text of its body.
#[derive(Debug)]
pub struct Failure {
    pub status: u16,
    pub message: String,
}

/// The status of every failure: a server error, whatever failed.
pub open spec fn failure_status() -> u16 {
    500
}

/// The text that a route answers a failure with. Toggling passes the
/// failure's own text on; each of the others has one fixed text.
pub open spec fn failure_text(route: Route, error: Error) -> Seq<char> {
    match route {
        Route::AddTask => "Unable to create task."@,
        Route::GetTask => "Unable to fetch task."@,
        Route::GetAllTasks => "Unable to fetch all tasks."@,
        Route::ToggleTask => error.text(),
        Route::DeleteTask => "Unable to delete task."@,
    }
}

/// `failure` is the reply of `route` to `error`.
pub open spec fn is_failure_of(failure: Failure, route: Route, error: Error) -> bool {
    failure.status == failure_status() && failure.message@ == failure_text(route, error)
}

/// The reply of `route` to the failure `error`.
pub fn failure(route: Route, error: &Error) -> (f: Failure)
    ensures
        is_failure_of(f, route, *error),
{
    let message = match route {
        Route::AddTask => String::from_str("Unable to create task."),
        Route::GetTask => String::from_str("Unable to fetch task."),
        Route::GetAllTasks => String::from_str("Unable to fetch all tasks."),
        Route::ToggleTask => error.message(),
        Route::DeleteTask => String::from_str("Unable to delete task."),
    };
    Failure { status: 500, message }
}

/// The reply of `route` to what the store returned: the value as it is, or
/// the route's reply to the failure.
pub fn reply<T>(route: Route, outcome: Result<T, Error>) -> (r: Result<T, Failure>)
    ensures
        match outcome {
            Ok(v) => r == Ok::<T, Failure>(v),
            Err(e) => r matches Err(f) && is_failure_of(f, route, e),
        },
{
    match outcome {
        Ok(v) => Ok(v),
        Err(e) => Err(failure(route, &e)),
    }
}

/// The status of a reply that carries what was asked for.
pub open spec fn success_status() -> u16 {
    200
}

/// The status of the reply to a request that the route table does not know.
pub open spec fn unrouted_status() -> u16 {
    404
}

/// The status and the body of the reply to a request. `outcome` is what the
/// route's handler returned, the value as the text of its body; it is
/// absent where the request had no route.
pub fn answer(outcome: Option<Result<String, Failure>>) -> (r: (u16, String))
    ensures
        match outcome {
            Some(Ok(body)) => r.0 == success_status() && r.1 == body,
            Some(Err(f)) => r.0 == f.status && r.1 == f.message,
            None => r.0 == unrouted_status() && r.1@ == Seq::<char>::empty(),
        },
{
    match outcome {
        Some(Ok(body)) => (200, body),
        Some(Err(f)) => (f.status, f.message),
        None => (404, String::new()),
    }
}

/// `failure` is a reply with the status of every failure and the text `text`.
pub open spec fn fails_with(failure: Failure, text: Seq<char>) -> bool {
    failure.status == failure_status() && failure.message@ == text
}

/// POST /task/{title}: creates the task and answers with the new record.
/// `id` and `now` are what was drawn for it. Where the identifier does not
/// resolve, or a row has it already, nothing is created and the answer is
/// the route's failure.
pub fn add_task(db: &mut DB, title: String, id: String, now: Timestamp) -> (r: Result<
    Task,
    Failure,
>)
    requires
        old(db).inv(),
    ensures
        final(db).inv(),
        resolved(id@) is Err || holds(old(db)@, id@) ==> (r matches Err(f) && fails_with(
            f,
            "Unable to create task."@,
        )) && final(db)@ == old(db)@,
        resolved(id@) is Ok && !holds(old(db)@, id@) ==> r is Ok && r->Ok_0@ == fresh(
            title@,
            id@,
            now,
        ) && final(db)@ == created(old(db)@, fresh(title@, id@, now), now),
        r is Ok ==> id@.len() > 0,
{
    let outcome = db.add_task(title, id, now);
    reply(Route::AddTask, outcome)
}

/// GET /task/{id}: answers with the task, or with nothing where no row has
/// the identifier. Where the identifier does not resolve, the answer is the
/// route's failure.
pub fn get_task(db: &DB, id: String) -> (r: Result<Option<Task>, Failure>)
    requires
        db.inv(),
    ensures
        match resolved(id@) {
            Ok(_) => r matches Ok(task) && view_of(task) == found(db@, id@),
            Err(_) => r matches Err(f) && fails_with(f, "Unable to fetch task."@),
        },
{
    reply(Route::GetTask, db.get_task(id))
}

/// GET /tasks: answers with all tasks, in the order of their creation.
pub fn get_all_tasks(db: &DB) -> (r: Result<Vec<Task>, Failure>)
    requires
        db.inv(),
    ensures
        r is Ok,
        task_views(r->Ok_0@) == db@,
        ordered(task_views(r->Ok_0@)),
{
    reply(Route::GetAllTasks, db.get_all_tasks())
}

/// PATCH /task/{id}: turns over the task's completion flag and answers with
/// a count of 1, whether or not a row has the identifier. Where the
/// identifier does not resolve, nothing changes and the answer is a failure
/// with the text of the store's failure.
pub fn toggle_task(db: &mut DB, id: String) -> (r: Result<AffectedRows, Failure>)
    requires
        old(db).inv(),
    ensures
        final(db).inv(),
        match resolved(id@) {
            Ok(_) => r matches Ok(n) && n.rows_affected == 1 && final(db)@ == toggled(
                old(db)@,
                id@,
            ),
            Err(m) => (r matches Err(f) && fails_with(f, m)) && final(db)@ == old(db)@,
        },
{
    let outcome = db.toggle_task(id);
    reply(Route::ToggleTask, outcome)
}

/// DELETE /task/{id}: deletes the task and answers with a count of 1,
/// whether or not a row has the identifier. Where the identifier does not
/// resolve, nothing changes and the answer is the route's failure.
pub fn delete_task(db: &mut DB, id: String) -> (r: Result<AffectedRows, Failure>)
    requires
        old(db).inv(),
    ensures
        final(db).inv(),
        match resolved(id@) {
            Ok(_) => r matches Ok(n) && n.rows_affected == 1 && final(db)@ == deleted(
                old(db)@,
                id@,
            ),
            Err(_) => (r matches Err(f) && fails_with(f, "Unable to delete task."@))
                && final(db)@ == old(db)@,
        },
{
    let outcome = db.delete_task(id);
    reply(Route::DeleteTask, outcome)
}

} // verus!
