//! The task domain model: validated value objects (identifier, content,
//! description) and the lifecycle entities (draft, active, completed) with
//! their legal transitions.

use vstd::prelude::*;

verus! {

/// The attributes of a persisted task, as a mathematical value.
/// `ActiveTask` and `CompletedTask` both view as this type; which of the
/// two exec types holds the attributes encodes the completion state.
pub ghost struct TaskView {
    pub id: u64,
    pub content: Seq<char>,
    pub description: Seq<char>,
    pub created_at: int,
}

/// The attributes of an unsaved draft: no identifier, no timestamp yet.
pub ghost struct NewTaskView {
    pub content: Seq<char>,
    pub description: Seq<char>,
}

/// Opaque numeric task identifier, assigned by storage at creation time.
#[derive(Debug, Clone, Copy, PartialEq, Eq, Structural)]
pub struct TaskId(u64);

impl View for TaskId {
    type V = u64;

    closed spec fn view(&self) -> u64 {
        self.0
    }
}

impl From<u64> for TaskId {
    fn from(id: u64) -> (r: Self)
        ensures
            r@ == id,
    {
        TaskId(id)
    }
}

impl vstd::std_specs::convert::FromSpecImpl<u64> for TaskId {
    open spec fn obeys_from_spec() -> bool {
        true
    }

    closed spec fn from_spec(id: u64) -> Self {
        TaskId(id)
    }
}

impl From<TaskId> for u64 {
    fn from(val: TaskId) -> (r: u64)
        ensures
            r == val@,
    {
        val.0
    }
}

impl vstd::std_specs::convert::FromSpecImpl<TaskId> for u64 {
    open spec fn obeys_from_spec() -> bool {
        true
    }

    closed spec fn from_spec(val: TaskId) -> u64 {
        val.0
    }
}

/// Why a string was rejected as task content.
#[derive(Debug, Clone, Copy, PartialEq, Eq, Structural)]
pub enum TaskContentError {
    Empty,
    TooLong,
}

impl TaskContentError {
    /// A human-readable reason, for callers that report the failure.
    pub fn message(&self) -> (m: &'static str)
        ensures
            m@ == (match self {
                TaskContentError::Empty => "Task content must not be empty"@,
                TaskContentError::TooLong => "Task content is too long"@,
            }),
    {
        match self {
            TaskContentError::Empty => "Task content must not be empty",
            TaskContentError::TooLong => "Task content is too long",
        }
    }
}

/// Validated short text: the task's title. Between 1 and 500 characters,
/// checked once at construction and guaranteed for the value's lifetime.
#[derive(Debug)]
pub struct TaskContent(String);

impl View for TaskContent {
    type V = Seq<char>;

    closed spec fn view(&self) -> Seq<char> {
        self.0@
    }
}

impl TaskContent {
    #[verifier::type_invariant]
    spec fn wf(self) -> bool {
        1 <= self.0@.len() <= 500
    }

    /// The single validation point: succeeds exactly on strings of
    /// 1 to 500 characters, and keeps the string unchanged.
    pub fn new(value: String) -> (r: Result<Self, TaskContentError>)
        ensures
            match r {
                Ok(c) => 1 <= value@.len() <= 500 && c@ == value@,
                Err(TaskContentError::Empty) => value@.len() == 0,
                Err(TaskContentError::TooLong) => value@.len() > 500,
            },
    {
        let n = value.as_str().unicode_len();
        if n == 0 {
            return Err(TaskContentError::Empty);
        }
        if n > 500 {
            return Err(TaskContentError::TooLong);
        }
        Ok(TaskContent(value))
    }

    /// Like `new`, for callers that already know the string is valid.
    pub fn new_or_panic(value: String) -> (r: Self)
        requires
            1 <= value@.len() <= 500,
        ensures
            r@ == value@,
    {
        match TaskContent::new(value) {
            Ok(c) => c,
            Err(_) => vstd::pervasive::unreached(),
        }
    }
}

impl Clone for TaskContent {
    fn clone(&self) -> (r: Self)
        ensures
            r@ == self@,
    {
        proof {
            use_type_invariant(self);
        }
        TaskContent(self.0.clone())
    }
}

impl PartialEq for TaskContent {
    fn eq(&self, other: &Self) -> (r: bool) {
        self.0 == other.0
    }
}

impl vstd::std_specs::cmp::PartialEqSpecImpl for TaskContent {
    open spec fn obeys_eq_spec() -> bool {
        true
    }

    open spec fn eq_spec(&self, other: &Self) -> bool {
        self@ == other@
    }
}

impl From<TaskContent> for String {
    fn from(val: TaskContent) -> (r: String)
        ensures
            r@ == val@,
    {
        val.0
    }
}

impl vstd::std_specs::convert::FromSpecImpl<TaskContent> for String {
    open spec fn obeys_from_spec() -> bool {
        true
    }

    closed spec fn from_spec(val: TaskContent) -> String {
        val.0
    }
}

/// Why a string was rejected as a task description.
#[derive(Debug, Clone, Copy, PartialEq, Eq, Structural)]
pub enum TaskDescriptionError {
    Empty,
    TooLong,
}

impl TaskDescriptionError {
    /// A human-readable reason, for callers that report the failure.
    pub fn message(&self) -> (m: &'static str)
        ensures
            m@ == (match self {
                TaskDescriptionError::Empty => "Task description must not be empty"@,
                TaskDescriptionError::TooLong => "Task description is too long"@,
            }),
    {
        match self {
            TaskDescriptionError::Empty => "Task description must not be empty",
            TaskDescriptionError::TooLong => "Task description is too long",
        }
    }
}

/// Validated long-form text. Between 1 and 2000 characters, checked once
/// at construction; an empty description is rejected.
#[derive(Debug)]
pub struct TaskDescription(String);

impl View for TaskDescription {
    type V = Seq<char>;

    closed spec fn view(&self) -> Seq<char> {
        self.0@
    }
}

impl TaskDescription {
    #[verifier::type_invariant]
    spec fn wf(self) -> bool {
        1 <= self.0@.len() <= 2000
    }

    /// The single validation point: succeeds exactly on strings of
    /// 1 to 2000 characters, and keeps the string unchanged.
    pub fn new(value: String) -> (r: Result<Self, TaskDescriptionError>)
        ensures
            match r {
                Ok(d) => 1 <= value@.len() <= 2000 && d@ == value@,
                Err(TaskDescriptionError::Empty) => value@.len() == 0,
                Err(TaskDescriptionError::TooLong) => value@.len() > 2000,
            },
    {
        let n = value.as_str().unicode_len();
        if n == 0 {
            return Err(TaskDescriptionError::Empty);
        }
        if n > 2000 {
            return Err(TaskDescriptionError::TooLong);
        }
        Ok(TaskDescription(value))
    }

    /// Like `new`, for callers that already know the string is valid.
    pub fn new_or_panic(value: String) -> (r: Self)
        requires
            1 <= value@.len() <= 2000,
        ensures
            r@ == value@,
    {
        match TaskDescription::new(value) {
            Ok(d) => d,
            Err(_) => vstd::pervasive::unreached(),
        }
    }
}

impl Clone for TaskDescription {
    fn clone(&self) -> (r: Self)
        ensures
            r@ == self@,
    {
        proof {
            use_type_invariant(self);
        }
        TaskDescription(self.0.clone())
    }
}

impl PartialEq for TaskDescription {
    fn eq(&self, other: &Self) -> (r: bool) {
        self.0 == other.0
    }
}

impl vstd::std_specs::cmp::PartialEqSpecImpl for TaskDescription {
    open spec fn obeys_eq_spec() -> bool {
        true
    }

    open spec fn eq_spec(&self, other: &Self) -> bool {
        self@ == other@
    }
}

impl From<TaskDescription> for String {
    fn from(val: TaskDescription) -> (r: String)
        ensures
            r@ == val@,
    {
        val.0
    }
}

impl vstd::std_specs::convert::FromSpecImpl<TaskDescription> for String {
    open spec fn obeys_from_spec() -> bool {
        true
    }

    closed spec fn from_spec(val: TaskDescription) -> String {
        val.0
    }
}

/// A creation instant, in microseconds since the Unix epoch, local-zone
/// semantics. The conversion from a wall-clock value is the caller's
/// concern; the model only carries and compares the number.
#[derive(Debug, Clone, Copy, PartialEq, Eq, Structural)]
pub struct Timestamp(i64);

impl View for Timestamp {
    type V = int;

    closed spec fn view(&self) -> int {
        self.0 as int
    }
}

impl Timestamp {
    pub fn from_micros(micros: i64) -> (r: Self)
        ensures
            r@ == micros as int,
    {
        Timestamp(micros)
    }

    pub fn micros(&self) -> (r: i64)
        ensures
            r as int == self@,
    {
        self.0
    }
}

/// An unsaved draft: validated content and description, no identifier yet.
#[derive(Debug)]
pub struct NewTask {
    content: TaskContent,
    description: TaskDescription,
}

impl View for NewTask {
    type V = NewTaskView;

    closed spec fn view(&self) -> NewTaskView {
        NewTaskView { content: self.content@, description: self.description@ }
    }
}

impl NewTask {
    pub fn new(content: TaskContent, description: TaskDescription) -> (r: Self)
        ensures
            r@ == (NewTaskView { content: content@, description: description@ }),
    {
        NewTask { content, description }
    }

    pub fn content(&self) -> (r: &TaskContent)
        ensures
            r@ == self@.content,
    {
        &self.content
    }

    pub fn description(&self) -> (r: &TaskDescription)
        ensures
            r@ == self@.description,
    {
        &self.description
    }
}

/// The model of closing a task: the attributes are carried over unchanged.
pub open spec fn spec_close(t: TaskView) -> TaskView {
    t
}

/// The model of reopening a task: the attributes are carried over unchanged.
pub open spec fn spec_reopen(t: TaskView) -> TaskView {
    t
}

/// Law: closing then reopening, or reopening then closing, restores the
/// original task exactly (identifier, content, description and creation
/// time are all preserved).
pub proof fn lemma_close_reopen_round_trip(t: TaskView)
    ensures
        spec_reopen(spec_close(t)) == t,
        spec_close(spec_reopen(t)) == t,
{
}

/// A persisted, open task.
#[derive(Debug)]
pub struct ActiveTask {
    id: TaskId,
    content: TaskContent,
    description: TaskDescription,
    created_at: Timestamp,
}

impl View for ActiveTask {
    type V = TaskView;

    closed spec fn view(&self) -> TaskView {
        TaskView {
            id: self.id@,
            content: self.content@,
            description: self.description@,
            created_at: self.created_at@,
        }
    }
}

impl ActiveTask {
    pub fn new(id: TaskId, content: TaskContent, description: TaskDescription, created_at: Timestamp) -> (r: Self)
        ensures
            r@ == (TaskView {
                id: id@,
                content: content@,
                description: description@,
                created_at: created_at@,
            }),
    {
        ActiveTask { id, content, description, created_at }
    }

    pub fn id(&self) -> (r: &TaskId)
        ensures
            r@ == self@.id,
    {
        &self.id
    }

    pub fn content(&self) -> (r: &TaskContent)
        ensures
            r@ == self@.content,
    {
        &self.content
    }

    pub fn description(&self) -> (r: &TaskDescription)
        ensures
            r@ == self@.description,
    {
        &self.description
    }

    pub fn created_at(&self) -> (r: &Timestamp)
        ensures
            r@ == self@.created_at,
    {
        &self.created_at
    }

    /// Replaces the content; identifier, description and creation time
    /// are unchanged.
    pub fn modify_content(self, content: TaskContent) -> (r: Self)
        ensures
            r@ == (TaskView { content: content@, ..self@ }),
    {
        Self { id: self.id, content, description: self.description, created_at: self.created_at }
    }

    /// Replaces the description; identifier, content and creation time
    /// are unchanged.
    pub fn modify_description(self, description: TaskDescription) -> (r: Self)
        ensures
            r@ == (TaskView { description: description@, ..self@ }),
    {
        Self { id: self.id, content: self.content, description, created_at: self.created_at }
    }

    /// The only transition from open to completed.
    pub fn close(self) -> (r: CompletedTask)
        ensures
            r@ == spec_close(self@),
    {
        CompletedTask {
            id: self.id,
            content: self.content,
            description: self.description,
            created_at: self.created_at,
        }
    }
}

/// A persisted, closed task; reversible via `reopen`.
#[derive(Debug)]
pub struct CompletedTask {
    id: TaskId,
    content: TaskContent,
    description: TaskDescription,
    created_at: Timestamp,
}

impl View for CompletedTask {
    type V = TaskView;

    closed spec fn view(&self) -> TaskView {
        TaskView {
            id: self.id@,
            content: self.content@,
            description: self.description@,
            created_at: self.created_at@,
        }
    }
}

impl CompletedTask {
    pub fn new(id: TaskId, content: TaskContent, description: TaskDescription, created_at: Timestamp) -> (r: Self)
        ensures
            r@ == (TaskView {
                id: id@,
                content: content@,
                description: description@,
                created_at: created_at@,
            }),
    {
        CompletedTask { id, content, description, created_at }
    }

    pub fn id(&self) -> (r: &TaskId)
        ensures
            r@ == self@.id,
    {
        &self.id
    }

    pub fn content(&self) -> (r: &TaskContent)
        ensures
            r@ == self@.content,
    {
        &self.content
    }

    pub fn description(&self) -> (r: &TaskDescription)
        ensures
            r@ == self@.description,
    {
        &self.description
    }

    pub fn created_at(&self) -> (r: &Timestamp)
        ensures
            r@ == self@.created_at,
    {
        &self.created_at
    }

    /// The only transition from completed back to open.
    pub fn reopen(self) -> (r: ActiveTask)
        ensures
            r@ == spec_reopen(self@),
    {
        ActiveTask {
            id: self.id,
            content: self.content,
            description: self.description,
            created_at: self.created_at,
        }
    }
}

} // verus!
