use vstd::prelude::*;
use vstd::string::*;
use crate::error::Error;
use crate::task::AffectedRows;

verus! {

/// A value bound to a variable of a statement.
#[derive(Debug)]
pub enum Bound {
    /// A text.
    Strand(String),
    /// A record, by its identifier as the caller gave it. The identifier
    /// resolves: the engine's parser takes it as a record reference.
    Thing(String),
}

/// What a bound value holds, as a mathematical value.
pub enum BoundView {
    Strand(Seq<char>),
    Thing(Seq<char>),
}

impl View for Bound {
    type V = BoundView;

    open spec fn view(&self) -> BoundView {
        match self {
            Bound::Strand(s) => BoundView::Strand(s@),
            Bound::Thing(s) => BoundView::Thing(s@),
        }
    }
}

/// A variable of a statement and the value bound to it.
#[derive(Debug)]
pub struct Binding {
    pub name: String,
    pub value: Bound,
}

impl View for Binding {
    type V = (Seq<char>, BoundView);

    open spec fn view(&self) -> (Seq<char>, BoundView) {
        (self.name@, self.value@)
    }
}

/// What a statement holds, as mathematical values.
pub struct StatementView {
    pub sql: Seq<char>,
    pub vars: Option<Seq<(Seq<char>, BoundView)>>,
}

/// A statement for the engine: its text, and the variables of the text with
/// the values bound to them, where it has any.
#[derive(Debug)]
pub struct Statement {
    pub sql: String,
    pub vars: Option<Vec<Binding>>,
}

impl View for Statement {
    type V = StatementView;

    open spec fn view(&self) -> StatementView {
        StatementView {
            sql: self.sql@,
            vars: match self.vars {
                Some(v) => Some(v@.map_values(|b: Binding| b@)),
                None => None,
            },
        }
    }
}

/// The text that creates a task: the title is bound, the task is open, and
/// the engine sets the time.
pub open spec fn create_sql() -> Seq<char> {
    "CREATE tasks SET title = $title, completed = false, created_at = time::now()"@
}

/// The text that reads one record.
pub open spec fn select_sql() -> Seq<char> {
    "SELECT * FROM $th"@
}

/// The text that reads all tasks, the earliest first.
pub open spec fn select_all_sql() -> Seq<char> {
    "SELECT * FROM tasks ORDER BY created_at ASC;"@
}

/// The text that turns over the completion flag of one record, in one
/// statement that the engine evaluates.
pub open spec fn toggle_sql() -> Seq<char> {
    "UPDATE $th SET completed = function() { return !this.completed; }"@
}

/// The text that deletes one record.
pub open spec fn delete_sql() -> Seq<char> {
    "Delete $th"@
}

/// A statement with one variable.
pub open spec fn with_one(sql: Seq<char>, name: Seq<char>, value: BoundView) -> StatementView {
    StatementView { sql, vars: Some(seq![(name, value)]) }
}

/// What the engine's parser of record references makes of a text: the
/// reference in the engine's notation, or the text of the parser's error.
pub uninterp spec fn thing_of(text: Seq<char>) -> Result<Seq<char>, Seq<char>>;

/// A character at which the engine's parser counts a new line, the line feed
/// apart: carriage return, vertical tab, form feed, next line, line
/// separator and paragraph separator.
pub open spec fn is_break(c: char) -> bool {
    c == '\r' || c == '\u{b}' || c == '\u{c}' || c == '\u{85}' || c == '\u{2028}' || c
        == '\u{2029}'
}

/// The text holds such a character.
pub open spec fn has_break(text: Seq<char>) -> bool {
    exists|i: int| 0 <= i < text.len() && is_break(#[trigger] text[i])
}

/// The text of the failure that refuses an identifier with such a character.
pub open spec fn break_text() -> Seq<char> {
    "The identifier holds a line break other than a line feed"@
}

/// What an identifier resolves to: the record reference in the engine's
/// notation, or the text of the failure. A text with a line break other than
/// a line feed is refused before the engine's parser sees it: the parser
/// cannot render its own error for such a text. Every other text resolves to
/// what the parser makes of it.
pub open spec fn resolved(text: Seq<char>) -> Result<Seq<char>, Seq<char>> {
    if has_break(text) {
        Err(break_text())
    } else {
        thing_of(text)
    }
}

/// Calls `surrealdb_core::sql::thing` on `text`. Trusted: the outcome is the
/// one that `thing_of` names for the text, the parsed reference and the error
/// each rendered as text; and the empty text is an error. Texts with a line
/// break other than a line feed are left out: on some of them the rendering
/// of the parser's error panics.
#[verifier::external_body]
fn parse_thing(text: &str) -> (r: Result<String, String>)
    requires
        !has_break(text@),
    ensures
        match r {
            Ok(t) => thing_of(text@) == Ok::<Seq<char>, Seq<char>>(t@),
            Err(m) => thing_of(text@) == Err::<Seq<char>, Seq<char>>(m@),
        },
        text@.len() == 0 ==> r is Err,
{
    match surrealdb_core::sql::thing(text) {
        Ok(t) => Ok(t.to_string()),
        Err(e) => Err(e.to_string()),
    }
}

/// Whether `c` is a line break other than a line feed.
fn is_break_char(c: char) -> (b: bool)
    ensures
        b == is_break(c),
{
    c == '\r' || c == '\u{b}' || c == '\u{c}' || c == '\u{85}' || c == '\u{2028}' || c
        == '\u{2029}'
}

/// Resolves an identifier: the record reference in the engine's notation, or
/// the text of the failure. The empty text never resolves.
pub fn resolve(text: &str) -> (r: Result<String, String>)
    ensures
        match r {
            Ok(t) => resolved(text@) == Ok::<Seq<char>, Seq<char>>(t@),
            Err(m) => resolved(text@) == Err::<Seq<char>, Seq<char>>(m@),
        },
        text@.len() == 0 ==> r is Err,
{
    let n = text.unicode_len();
    let mut i: usize = 0;
    while i < n
        invariant
            n == text@.len(),
            i <= n,
            forall|j: int| 0 <= j < i ==> !is_break(#[trigger] text@[j]),
        decreases n - i,
    {
        if is_break_char(text.get_char(i)) {
            return Err(String::from_str("The identifier holds a line break other than a line feed"));
        }
        i = i + 1;
    }
    parse_thing(text)
}

/// A statement with the text `sql` and the one variable `name`.
fn bind_one(sql: &str, name: &str, value: Bound) -> (s: Statement)
    ensures
        s@ == with_one(sql@, name@, value@),
{
    let mut vars: Vec<Binding> = Vec::new();
    vars.push(Binding { name: String::from_str(name), value });
    let s = Statement { sql: String::from_str(sql), vars: Some(vars) };
    assert(s@.vars->Some_0 =~= seq![(name@, value@)]);
    s
}

/// The statement `sql` addressed to the record `id`. `thing` is what the
/// identifier resolved to. Where it resolved, `th` is bound to the record by
/// the identifier as it was given; where it did not, the failure of the
/// resolution is the store's.
pub fn addressed(sql: &str, id: String, thing: Result<String, String>) -> (r: Result<
    Statement,
    Error,
>)
    ensures
        match thing {
            Ok(_) => r matches Ok(s) && s@ == with_one(sql@, "th"@, BoundView::Thing(id@)),
            Err(m) => r matches Err(Error::Surreal(e)) && e@ == m@,
        },
{
    match thing {
        Ok(_) => Ok(bind_one(sql, "th", Bound::Thing(id))),
        Err(m) => Err(Error::Surreal(m)),
    }
}

/// What `addressed` gives for the text `sql` and the identifier `id`.
pub open spec fn addressed_to(sql: Seq<char>, id: Seq<char>, r: Result<Statement, Error>) -> bool {
    match resolved(id) {
        Ok(_) => r matches Ok(s) && s@ == with_one(sql, "th"@, BoundView::Thing(id)),
        Err(m) => r matches Err(Error::Surreal(e)) && e@ == m,
    }
}

/// The statement that creates a task with the title `title`.
pub fn add_task(title: String) -> (s: Statement)
    ensures
        s@ == with_one(create_sql(), "title"@, BoundView::Strand(title@)),
{
    bind_one(
        "CREATE tasks SET title = $title, completed = false, created_at = time::now()",
        "title",
        Bound::Strand(title),
    )
}

/// The statement that reads the task `id`, where `id` resolves to a
/// reference.
pub fn get_task(id: String) -> (r: Result<Statement, Error>)
    ensures
        addressed_to(select_sql(), id@, r),
{
    let thing = resolve(id.as_str());
    addressed("SELECT * FROM $th", id, thing)
}

/// The statement that reads all tasks, the earliest first. It has no
/// variables.
pub fn get_all_tasks() -> (s: Statement)
    ensures
        s@ == (StatementView { sql: select_all_sql(), vars: None }),
{
    Statement { sql: String::from_str("SELECT * FROM tasks ORDER BY created_at ASC;"), vars: None }
}

/// The statement that turns over the completion flag of the task `id`, where
/// `id` resolves to a reference.
pub fn toggle_task(id: String) -> (r: Result<Statement, Error>)
    ensures
        addressed_to(toggle_sql(), id@, r),
{
    let thing = resolve(id.as_str());
    addressed("UPDATE $th SET completed = function() { return !this.completed; }", id, thing)
}

/// The statement that deletes the task `id`, where `id` resolves to a
/// reference.
pub fn delete_task(id: String) -> (r: Result<Statement, Error>)
    ensures
        addressed_to(delete_sql(), id@, r),
{
    let thing = resolve(id.as_str());
    addressed("Delete $th", id, thing)
}

/// The outcome of a statement, from the engine's replies: that of the first
/// reply.
pub fn first_result<T>(replies: Vec<Result<T, Error>>) -> (r: Result<T, Error>)
    requires
        replies.len() > 0,
    ensures
        r == replies[0],
{
    let mut replies = replies;
    replies.swap_remove(0)
}

/// What is reported after a statement that changes a record: the engine's
/// failure, or else a count of 1, whatever the engine replied.
pub fn changed<T>(outcome: Result<T, Error>) -> (r: Result<AffectedRows, Error>)
    ensures
        match outcome {
            Ok(_) => r == Ok::<AffectedRows, Error>(AffectedRows { rows_affected: 1 }),
            Err(e) => r == Err::<AffectedRows, Error>(e),
        },
{
    match outcome {
        Ok(_) => Ok(AffectedRows { rows_affected: 1 }),
        Err(e) => Err(e),
    }
}

} // verus!
