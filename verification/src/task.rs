use vstd::prelude::*;
use vstd::string::*;

verus! {

/// An instant of the UTC time line: whole seconds since the Unix epoch, and
/// the nanoseconds that have passed of the second after.
#[derive(Clone, Copy, Debug, PartialEq, Eq, Structural)]
pub struct Timestamp {
    pub secs: i64,
    pub nanos: u32,
}

impl Timestamp {
    /// `self` is no later than `other`.
    pub open spec fn at_or_before(self, other: Timestamp) -> bool {
        self.secs < other.secs || (self.secs == other.secs && self.nanos <= other.nanos)
    }

    /// Whether `self` is no later than `other`.
    pub fn is_at_or_before(&self, other: &Timestamp) -> (b: bool)
        ensures
            b == self.at_or_before(*other),
    {
        self.secs < other.secs || (self.secs == other.secs && self.nanos <= other.nanos)
    }
}

/// What a task holds, as mathematical values.
pub struct TaskView {
    pub id: Option<Seq<char>>,
    pub title: Seq<char>,
    pub completed: bool,
    pub created_at: Option<Timestamp>,
}

impl TaskView {
    /// The task has been stored: it has its identifier, which is not the
    /// empty text, and its time of creation.
    pub open spec fn is_persisted(self) -> bool {
        self.id is Some && self.id->Some_0.len() > 0 && self.created_at is Some
    }

    /// The same task with its completion flag turned over.
    pub open spec fn flipped(self) -> TaskView {
        TaskView { completed: !self.completed, ..self }
    }
}

/// A task. `id` and `created_at` are absent until the store has assigned them.
#[derive(Debug)]
pub struct Task {
    pub id: Option<String>,
    pub title: String,
    pub completed: bool,
    pub created_at: Option<Timestamp>,
}

impl View for Task {
    type V = TaskView;

    open spec fn view(&self) -> TaskView {
        TaskView {
            id: match self.id {
                Some(s) => Some(s@),
                None => None,
            },
            title: self.title@,
            completed: self.completed,
            created_at: self.created_at,
        }
    }
}

impl Clone for Task {
    fn clone(&self) -> (t: Task)
        ensures
            t@ == self@,
    {
        let id = match &self.id {
            Some(s) => Some(s.clone()),
            None => None,
        };
        Task { id, title: self.title.clone(), completed: self.completed, created_at: self.created_at }
    }
}

/// The views of a row of tasks, in the same order.
pub open spec fn task_views(tasks: Seq<Task>) -> Seq<TaskView> {
    tasks.map_values(|t: Task| t@)
}

/// A value that a field of a record can hold.
#[derive(Debug)]
pub enum FieldValue {
    Text(String),
    Flag(bool),
}

/// What a field value holds, as a mathematical value.
pub enum FieldContent {
    Text(Seq<char>),
    Flag(bool),
}

impl View for FieldValue {
    type V = FieldContent;

    open spec fn view(&self) -> FieldContent {
        match self {
            FieldValue::Text(s) => FieldContent::Text(s@),
            FieldValue::Flag(b) => FieldContent::Flag(*b),
        }
    }
}

/// A named field of a record.
#[derive(Debug)]
pub struct Field {
    pub name: String,
    pub value: FieldValue,
}

impl View for Field {
    type V = (Seq<char>, FieldContent);

    open spec fn view(&self) -> (Seq<char>, FieldContent) {
        (self.name@, self.value@)
    }
}

/// The views of a row of fields, in the same order.
pub open spec fn field_views(fields: Seq<Field>) -> Seq<(Seq<char>, FieldContent)> {
    fields.map_values(|f: Field| f@)
}

/// A value that can be written to the store as a record: it gives the fields
/// that the record is made of.
pub trait Creatable: Sized {
    /// The fields of the record, by name and content.
    spec fn record(&self) -> Seq<(Seq<char>, FieldContent)>;

    /// Turns the value into the fields of its record.
    fn into_fields(self) -> (fields: Vec<Field>)
        ensures
            field_views(fields@) == self.record(),
    ;
}

impl Creatable for Task {
    /// The identifier, where the task has one, then the title and the
    /// completion flag. The time of creation is the store's to set and is no
    /// field of the record.
    open spec fn record(&self) -> Seq<(Seq<char>, FieldContent)> {
        let rest = seq![
            ("title"@, FieldContent::Text(self.title@)),
            ("completed"@, FieldContent::Flag(self.completed)),
        ];
        match self.id {
            Some(id) => seq![("id"@, FieldContent::Text(id@))] + rest,
            None => rest,
        }
    }

    fn into_fields(self) -> (fields: Vec<Field>) {
        let mut fields: Vec<Field> = Vec::new();
        if let Some(id) = self.id {
            fields.push(Field { name: String::from_str("id"), value: FieldValue::Text(id) });
        }
        fields.push(Field { name: String::from_str("title"), value: FieldValue::Text(self.title) });
        fields.push(
            Field { name: String::from_str("completed"), value: FieldValue::Flag(self.completed) },
        );
        fields
    }
}

/// The identifier of a stored row.
#[derive(Debug)]
pub struct RowId {
    pub id: String,
}

/// How many rows a change is reported to have touched.
#[derive(Clone, Copy, Debug, PartialEq, Eq, Structural)]
pub struct AffectedRows {
    pub rows_affected: u64,
}

} // verus!
