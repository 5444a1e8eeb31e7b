//! An in-process store of tasks, and what holds of it.
//!
//! The store keeps its rows in memory and stands in for an engine. It
//! resolves identifiers as the statements for the engine do, through
//! `statement`, and then works on its own rows. The service that sends
//! statements to a SurrealDB engine is not served by this store, and nothing
//! here says how that engine behaves: the laws of this module hold of `DB`.
//! The text with which an identifier in use is refused follows the engine's
//! wording; nothing holds the engine to it.

use vstd::prelude::*;
use vstd::string::*;
use crate::error::Error;
use crate::statement;
use crate::statement::resolved;
use crate::task::{task_views, AffectedRows, Task, TaskView, Timestamp};

verus! {

/// Some row has the identifier `id`.
pub open spec fn holds(rows: Seq<TaskView>, id: Seq<char>) -> bool {
    exists|i: int| 0 <= i < rows.len() && (#[trigger] rows[i]).id == Some(id)
}

/// The place of a row with the identifier `id`, where there is one.
pub open spec fn position(rows: Seq<TaskView>, id: Seq<char>) -> int {
    choose|i: int| 0 <= i < rows.len() && (#[trigger] rows[i]).id == Some(id)
}

/// The row with the identifier `id`, if there is one.
pub open spec fn found(rows: Seq<TaskView>, id: Seq<char>) -> Option<TaskView> {
    if holds(rows, id) {
        Some(rows[position(rows, id)])
    } else {
        None
    }
}

/// The row was created at `at` or before.
pub open spec fn made_by(row: TaskView, at: Timestamp) -> bool {
    match row.created_at {
        Some(t) => t.at_or_before(at),
        None => false,
    }
}

/// Where a row created at `at` goes: behind the last row created at `at` or
/// before.
pub open spec fn slot(rows: Seq<TaskView>, at: Timestamp) -> int
    decreases rows.len(),
{
    if rows.len() == 0 {
        0
    } else if made_by(rows.last(), at) {
        rows.len() as int
    } else {
        slot(rows.drop_last(), at)
    }
}

/// A task as the store creates it: open, with its identifier and its time
/// of creation.
pub open spec fn fresh(title: Seq<char>, id: Seq<char>, now: Timestamp) -> TaskView {
    TaskView { id: Some(id), title, completed: false, created_at: Some(now) }
}

/// The text of the failure that refuses an identifier already in use.
pub open spec fn in_use_text(id: Seq<char>) -> Seq<char> {
    "Database record `"@ + id + "` already exists"@
}

/// The rows after the creation of `task` at `now`.
pub open spec fn created(rows: Seq<TaskView>, task: TaskView, now: Timestamp) -> Seq<TaskView> {
    rows.insert(slot(rows, now), task)
}

/// The rows after the completion flag of the row `id` was turned over: the
/// same rows where there is no such row.
pub open spec fn toggled(rows: Seq<TaskView>, id: Seq<char>) -> Seq<TaskView> {
    if holds(rows, id) {
        rows.update(position(rows, id), rows[position(rows, id)].flipped())
    } else {
        rows
    }
}

/// The rows after the row `id` was deleted: the same rows where there is no
/// such row.
pub open spec fn deleted(rows: Seq<TaskView>, id: Seq<char>) -> Seq<TaskView> {
    if holds(rows, id) {
        rows.remove(position(rows, id))
    } else {
        rows
    }
}

/// No row was created later than a row behind it.
pub open spec fn ordered(rows: Seq<TaskView>) -> bool {
    forall|i: int, j: int|
        0 <= i < j < rows.len() ==> made_by(#[trigger] rows[i], (#[trigger] rows[j]).created_at.unwrap())
}

/// What holds of the rows of a store: each has its identifier, which is not
/// the empty text, and its time of creation, no identifier occurs twice, and
/// the rows stand in the order of their creation.
pub open spec fn well_formed(rows: Seq<TaskView>) -> bool {
    &&& forall|i: int| 0 <= i < rows.len() ==> (#[trigger] rows[i]).is_persisted()
    &&& forall|i: int, j: int|
        0 <= i < j < rows.len() ==> (#[trigger] rows[i]).id != (#[trigger] rows[j]).id
    &&& ordered(rows)
}

/// The view of a task that may be absent.
pub open spec fn view_of(task: Option<Task>) -> Option<TaskView> {
    match task {
        Some(t) => Some(t@),
        None => None,
    }
}

/// In well-formed rows, `slot` parts the rows created at `at` or before from
/// the rows created after.
pub proof fn lemma_slot_parts(rows: Seq<TaskView>, at: Timestamp)
    requires
        well_formed(rows),
    ensures
        0 <= slot(rows, at) <= rows.len(),
        forall|j: int| 0 <= j < slot(rows, at) ==> made_by(#[trigger] rows[j], at),
        forall|j: int| slot(rows, at) <= j < rows.len() ==> !made_by(#[trigger] rows[j], at),
    decreases rows.len(),
{
    if rows.len() > 0 && !made_by(rows.last(), at) {
        let front = rows.drop_last();
        lemma_slot_parts(front, at);
        assert forall|j: int| slot(rows, at) <= j < rows.len() implies !made_by(
            #[trigger] rows[j],
            at,
        ) by {
            if j < front.len() {
                assert(front[j] == rows[j]);
            }
        }
        assert forall|j: int| 0 <= j < slot(rows, at) implies made_by(#[trigger] rows[j], at) by {
            assert(front[j] == rows[j]);
        }
    }
}

/// In well-formed rows, the one place that parts the rows created at `at` or
/// before from the rows created after is `slot`.
pub proof fn lemma_slot_is_the_part(rows: Seq<TaskView>, at: Timestamp, p: int)
    requires
        well_formed(rows),
        0 <= p <= rows.len(),
        forall|j: int| 0 <= j < p ==> made_by(#[trigger] rows[j], at),
        forall|j: int| p <= j < rows.len() ==> !made_by(#[trigger] rows[j], at),
    ensures
        p == slot(rows, at),
{
    lemma_slot_parts(rows, at);
    let s = slot(rows, at);
    if p < s {
        assert(made_by(rows[p], at));
    }
    if s < p {
        assert(made_by(rows[s], at));
    }
}

/// In well-formed rows, a place that holds the identifier `id` is its
/// `position`.
pub proof fn lemma_position_is_the_place(rows: Seq<TaskView>, id: Seq<char>, k: int)
    requires
        well_formed(rows),
        0 <= k < rows.len(),
        rows[k].id == Some(id),
    ensures
        holds(rows, id),
        position(rows, id) == k,
        found(rows, id) == Some(rows[k]),
{
}

/// An in-process store of tasks: the rows, in the order of their creation.
#[derive(Debug)]
pub struct DB {
    rows: Vec<Task>,
}

impl View for DB {
    type V = Seq<TaskView>;

    closed spec fn view(&self) -> Seq<TaskView> {
        task_views(self.rows@)
    }
}

/// Whether the task was created at `at` or before.
fn was_made_by(task: &Task, at: &Timestamp) -> (b: bool)
    ensures
        b == made_by(task@, *at),
{
    match &task.created_at {
        Some(t) => t.is_at_or_before(at),
        None => false,
    }
}

/// Whether the task has the identifier `id`.
fn has_id(task: &Task, id: &String) -> (b: bool)
    ensures
        b == (task@.id == Some(id@)),
{
    match &task.id {
        Some(s) => *s == *id,
        None => false,
    }
}

impl DB {
    /// The rows are well formed.
    pub open spec fn inv(&self) -> bool {
        well_formed(self@)
    }

    /// A store without rows.
    pub fn new() -> (db: DB)
        ensures
            db.inv(),
            db@ == Seq::<TaskView>::empty(),
    {
        DB { rows: Vec::new() }
    }

    /// The place of the row `id`, if there is one.
    fn place(&self, id: &String) -> (r: Option<usize>)
        requires
            self.inv(),
        ensures
            r is Some == holds(self@, id@),
            r matches Some(k) ==> k < self@.len() && k == position(self@, id@),
    {
        let mut i: usize = 0;
        while i < self.rows.len()
            invariant
                i <= self.rows.len(),
                self.inv(),
                forall|j: int| 0 <= j < i ==> (#[trigger] self@[j]).id != Some(id@),
            decreases self.rows.len() - i,
        {
            if has_id(&self.rows[i], id) {
                proof {
                    lemma_position_is_the_place(self@, id@, i as int);
                }
                return Some(i);
            }
            i = i + 1;
        }
        None
    }

    /// Creates a task with the title `title`. The identifier `id` and the
    /// time `now` are what was drawn for it. The task is open; it goes
    /// behind the rows created at `now` or before, and is returned as it was
    /// stored. An identifier that does not resolve, and one that a row
    /// already has, is refused, and nothing changes. The identifier of a
    /// created task is never the empty text.
    pub fn add_task(&mut self, title: String, id: String, now: Timestamp) -> (r: Result<
        Task,
        Error,
    >)
        requires
            old(self).inv(),
        ensures
            final(self).inv(),
            resolved(id@) is Err ==> (r matches Err(Error::Surreal(m)) && m@ == resolved(
                id@,
            )->Err_0) && final(self)@ == old(self)@,
            resolved(id@) is Ok && holds(old(self)@, id@) ==> (r matches Err(Error::Surreal(m))
                && m@ == in_use_text(id@)) && final(self)@ == old(self)@,
            resolved(id@) is Ok && !holds(old(self)@, id@) ==> r is Ok && r->Ok_0@ == fresh(
                title@,
                id@,
                now,
            ) && final(self)@ == created(old(self)@, fresh(title@, id@, now), now),
            r is Ok ==> id@.len() > 0,
    {
        match statement::resolve(id.as_str()) {
            Err(text) => {
                return Err(Error::Surreal(text));
            },
            Ok(_) => {},
        }
        if self.place(&id).is_some() {
            let mut text = String::from_str("Database record `");
            text.append(id.as_str());
            text.append("` already exists");
            return Err(Error::Surreal(text));
        }
        let mut at: usize = self.rows.len();
        let mut searching = true;
        while searching && at > 0
            invariant
                at <= self.rows.len(),
                self.inv(),
                forall|j: int| at <= j < self@.len() ==> !made_by(#[trigger] self@[j], now),
                !searching ==> at > 0 && made_by(self@[at - 1], now),
            decreases at + (if searching { 1int } else { 0int }),
        {
            if was_made_by(&self.rows[at - 1], &now) {
                searching = false;
            } else {
                at = at - 1;
            }
        }
        let task = Task { id: Some(id), title, completed: false, created_at: Some(now) };
        let copy = task.clone();
        proof {
            let rows = self@;
            assert forall|j: int| 0 <= j < at implies made_by(#[trigger] rows[j], now) by {}
            lemma_slot_is_the_part(rows, now, at as int);
            law_created_is_found(rows, task@, now);
        }
        self.rows.insert(at, task);
        assert(self@ =~= created(old(self)@, copy@, now));
        Ok(copy)
    }

    /// The task with the identifier `id`, or nothing where no row has it. An
    /// identifier that does not resolve is a failure of the store, also where
    /// it has no table part: resolution comes before any row is looked at.
    /// A row is found by the text of its identifier as it was drawn.
    pub fn get_task(&self, id: String) -> (r: Result<Option<Task>, Error>)
        requires
            self.inv(),
        ensures
            match resolved(id@) {
                Ok(_) => r matches Ok(task) && view_of(task) == found(self@, id@),
                Err(m) => r matches Err(Error::Surreal(e)) && e@ == m,
            },
    {
        match statement::get_task(id.clone()) {
            Err(e) => Err(e),
            Ok(_) => match self.place(&id) {
                Some(k) => Ok(Some(self.rows[k].clone())),
                None => Ok(None),
            },
        }
    }

    /// All tasks, in the order of their creation.
    pub fn get_all_tasks(&self) -> (r: Result<Vec<Task>, Error>)
        requires
            self.inv(),
        ensures
            r is Ok,
            task_views(r->Ok_0@) == self@,
            ordered(task_views(r->Ok_0@)),
    {
        let mut all: Vec<Task> = Vec::new();
        let mut i: usize = 0;
        while i < self.rows.len()
            invariant
                i <= self.rows.len(),
                task_views(all@) =~= self@.take(i as int),
            decreases self.rows.len() - i,
        {
            all.push(self.rows[i].clone());
            proof {
                assert(self@.take(i as int + 1) =~= self@.take(i as int).push(self@[i as int]));
            }
            i = i + 1;
        }
        Ok(all)
    }

    /// Turns over the completion flag of the row `id`; where there is no such
    /// row, nothing changes. The count that is reported is 1 in both cases.
    /// An identifier that does not resolve is a failure of the store, and
    /// nothing changes: a text without a table part, such as
    /// `nonexistent-id`, is answered with the failure and not with a count.
    pub fn toggle_task(&mut self, id: String) -> (r: Result<AffectedRows, Error>)
        requires
            old(self).inv(),
        ensures
            final(self).inv(),
            match resolved(id@) {
                Ok(_) => r matches Ok(n) && n.rows_affected == 1 && final(self)@ == toggled(
                    old(self)@,
                    id@,
                ),
                Err(m) => (r matches Err(Error::Surreal(e)) && e@ == m)
                    && final(self)@ == old(self)@,
            },
    {
        match statement::toggle_task(id.clone()) {
            Err(e) => {
                return Err(e);
            },
            Ok(_) => {},
        }
        proof {
            law_changes_keep_rows_well_formed(self@, id@);
        }
        match self.place(&id) {
            Some(k) => {
                let row = self.rows[k].clone();
                let turned = Task {
                    id: row.id,
                    title: row.title,
                    completed: !row.completed,
                    created_at: row.created_at,
                };
                self.rows.set(k, turned);
                assert(self@ =~= toggled(old(self)@, id@));
            },
            None => {},
        }
        Ok(AffectedRows { rows_affected: 1 })
    }

    /// Deletes the row `id`; where there is no such row, nothing changes. The
    /// count that is reported is 1 in both cases. An identifier that does
    /// not resolve is a failure of the store, and nothing changes.
    pub fn delete_task(&mut self, id: String) -> (r: Result<AffectedRows, Error>)
        requires
            old(self).inv(),
        ensures
            final(self).inv(),
            match resolved(id@) {
                Ok(_) => r matches Ok(n) && n.rows_affected == 1 && final(self)@ == deleted(
                    old(self)@,
                    id@,
                ),
                Err(m) => (r matches Err(Error::Surreal(e)) && e@ == m)
                    && final(self)@ == old(self)@,
            },
    {
        match statement::delete_task(id.clone()) {
            Err(e) => {
                return Err(e);
            },
            Ok(_) => {},
        }
        proof {
            law_changes_keep_rows_well_formed(self@, id@);
        }
        match self.place(&id) {
            Some(k) => {
                let _ = self.rows.remove(k);
                assert(self@ =~= deleted(old(self)@, id@));
            },
            None => {},
        }
        Ok(AffectedRows { rows_affected: 1 })
    }
}

/// A task that was created is found under its identifier, as it was created,
/// and the rows stay well formed.
pub proof fn law_created_is_found(rows: Seq<TaskView>, task: TaskView, now: Timestamp)
    requires
        well_formed(rows),
        task.is_persisted(),
        task.created_at == Some(now),
        !holds(rows, task.id.unwrap()),
    ensures
        well_formed(created(rows, task, now)),
        found(created(rows, task, now), task.id.unwrap()) == Some(task),
{
    let s = slot(rows, now);
    let after = created(rows, task, now);
    lemma_slot_parts(rows, now);
    lemma_position_is_the_place(after, task.id.unwrap(), s);
}

/// Creating a task leaves every row that was there to be found as it was.
pub proof fn law_created_keeps_rows(
    rows: Seq<TaskView>,
    task: TaskView,
    now: Timestamp,
    other: Seq<char>,
)
    requires
        well_formed(rows),
        task.is_persisted(),
        task.created_at == Some(now),
        !holds(rows, task.id.unwrap()),
        other != task.id.unwrap(),
    ensures
        found(created(rows, task, now), other) == found(rows, other),
{
    let s = slot(rows, now);
    let after = created(rows, task, now);
    lemma_slot_parts(rows, now);
    law_created_is_found(rows, task, now);
    if holds(rows, other) {
        let j = position(rows, other);
        let a = if j < s { j } else { j + 1 };
        lemma_position_is_the_place(after, other, a);
    }
}

/// Turning over a flag and deleting a row keep the rows well formed, and so
/// in the order of their creation.
pub proof fn law_changes_keep_rows_well_formed(rows: Seq<TaskView>, id: Seq<char>)
    requires
        well_formed(rows),
    ensures
        well_formed(toggled(rows, id)),
        well_formed(deleted(rows, id)),
{
}

/// Whatever is created, toggled or deleted, and in whatever order, the rows
/// stay in the order of their creation.
pub proof fn law_rows_stay_ordered(rows: Seq<TaskView>, task: TaskView, now: Timestamp, id: Seq<char>)
    requires
        well_formed(rows),
        task.is_persisted(),
        task.created_at == Some(now),
        !holds(rows, task.id.unwrap()),
    ensures
        ordered(created(rows, task, now)),
        ordered(toggled(rows, id)),
        ordered(deleted(rows, id)),
{
    law_created_is_found(rows, task, now);
    law_changes_keep_rows_well_formed(rows, id);
}

/// Turning over the flag of the same row twice gives the rows back as they
/// were.
pub proof fn law_toggle_twice_restores(rows: Seq<TaskView>, id: Seq<char>)
    requires
        well_formed(rows),
    ensures
        toggled(toggled(rows, id), id) == rows,
{
    if holds(rows, id) {
        let k = position(rows, id);
        let once = toggled(rows, id);
        law_changes_keep_rows_well_formed(rows, id);
        lemma_position_is_the_place(once, id, k);
    }
}

/// After the flag of a row was turned over, the row is found with the flag
/// turned over and all else as it was.
pub proof fn law_toggled_is_flipped(rows: Seq<TaskView>, id: Seq<char>)
    requires
        well_formed(rows),
    ensures
        found(toggled(rows, id), id) == match found(rows, id) {
            Some(row) => Some(row.flipped()),
            None => None,
        },
{
    if holds(rows, id) {
        let k = position(rows, id);
        let once = toggled(rows, id);
        law_changes_keep_rows_well_formed(rows, id);
        lemma_position_is_the_place(once, id, k);
    }
}

/// Turning over the flag of one row, or deleting it, leaves every other row
/// to be found as it was.
pub proof fn law_other_rows_are_kept(rows: Seq<TaskView>, id: Seq<char>, other: Seq<char>)
    requires
        well_formed(rows),
        other != id,
    ensures
        found(toggled(rows, id), other) == found(rows, other),
        found(deleted(rows, id), other) == found(rows, other),
{
    if holds(rows, id) {
        let k = position(rows, id);
        let t = toggled(rows, id);
        let d = deleted(rows, id);
        law_changes_keep_rows_well_formed(rows, id);
        if holds(rows, other) {
            let j = position(rows, other);
            lemma_position_is_the_place(t, other, j);
            let a = if j < k { j } else { j - 1 };
            lemma_position_is_the_place(d, other, a);
        }
    }
}

/// A row that was deleted is no longer found.
pub proof fn law_deleted_is_gone(rows: Seq<TaskView>, id: Seq<char>)
    requires
        well_formed(rows),
    ensures
        found(deleted(rows, id), id) is None,
{
    let d = deleted(rows, id);
    if holds(rows, id) && holds(d, id) {
        let k = position(rows, id);
        let p = position(d, id);
        assert(d[p] == rows[if p < k { p } else { p + 1 }]);
    }
}

} // verus!
