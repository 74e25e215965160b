//! The per-day task list: tasks, their stored form, the statements that keep
//! them in the store, and the list of one day.

use crate::errors::ErrorKind;
use crate::sorting::{
    into_newest_first, newest_first, newest_first_commutes, newest_first_descends,
    newest_first_holds_keys, newest_first_holds_members, sort_by_key, stable_sort,
    stable_sort_commutes, stable_sort_keeps_members, stable_sort_sorts, strictly_descending,
    strictly_descending_keys_differ,
    texts, KeyText, Keyed,
};
use crate::text::{contains_text, decimal, decimal_string, occurs_at, str_contains, str_eq};
use vstd::prelude::*;

verus! {

/// The state of a task.
#[derive(Clone, Copy, Debug, PartialEq, Eq, Structural)]
pub enum TaskStatus {
    Pending,
    Completed,
    Cancelled,
}

impl TaskStatus {
    /// The text a status is stored as.
    pub open spec fn text(self) -> Seq<char> {
        match self {
            TaskStatus::Pending => "Pending"@,
            TaskStatus::Completed => "Completed"@,
            TaskStatus::Cancelled => "Cancelled"@,
        }
    }

    /// The status that a stored text stands for, if it stands for one.
    pub open spec fn parse(s: Seq<char>) -> Option<TaskStatus> {
        if s == "Pending"@ {
            Some(TaskStatus::Pending)
        } else if s == "Completed"@ {
            Some(TaskStatus::Completed)
        } else if s == "Cancelled"@ {
            Some(TaskStatus::Cancelled)
        } else {
            None
        }
    }

    /// The text the status is stored as.
    pub fn to_string(&self) -> (s: String)
        ensures
            s@ == self.text(),
    {
        match self {
            TaskStatus::Pending => "Pending".to_owned(),
            TaskStatus::Completed => "Completed".to_owned(),
            TaskStatus::Cancelled => "Cancelled".to_owned(),
        }
    }

    /// Reads a stored status. Any text but the three status names is
    /// malformed.
    pub fn from_str(s: &str) -> (status: Result<TaskStatus, ErrorKind>)
        ensures
            match status {
                Ok(found) => TaskStatus::parse(s@) == Some(found),
                Err(kind) => kind == ErrorKind::Malformed && TaskStatus::parse(s@) is None,
            },
    {
        if str_eq(s, "Pending") {
            Ok(TaskStatus::Pending)
        } else if str_eq(s, "Completed") {
            Ok(TaskStatus::Completed)
        } else if str_eq(s, "Cancelled") {
            Ok(TaskStatus::Cancelled)
        } else {
            Err(ErrorKind::Malformed)
        }
    }
}

/// A status that was stored is the status that is read back.
pub proof fn status_text_round_trips(status: TaskStatus)
    ensures
        TaskStatus::parse(status.text()) == Some(status),
{
    reveal_strlit("Pending");
    reveal_strlit("Completed");
    reveal_strlit("Cancelled");
    assert("Pending"@.len() == 7);
    assert("Completed"@[1] == 'o');
    assert("Cancelled"@[1] == 'a');
}

/// A task of the daily list.
#[derive(Clone, Debug, PartialEq, Eq)]
pub struct Task {
    /// Unique; the creation instant in milliseconds since the epoch.
    pub id: String,
    pub text: String,
    pub status: TaskStatus,
    /// The creation instant in UTC; it begins with the ISO date.
    pub timestamp: String,
}

/// Mathematical model of a [`Task`].
pub struct TaskView {
    pub id: Seq<char>,
    pub text: Seq<char>,
    pub status: TaskStatus,
    pub timestamp: Seq<char>,
}

/// A task as the store holds it: four texts.
#[derive(Clone, Debug, PartialEq, Eq)]
pub struct TaskRow {
    pub id: String,
    pub text: String,
    pub status: String,
    pub timestamp: String,
}

/// Mathematical model of a [`TaskRow`].
pub struct RowView {
    pub id: Seq<char>,
    pub text: Seq<char>,
    pub status: Seq<char>,
    pub timestamp: Seq<char>,
}

impl View for Task {
    type V = TaskView;

    open spec fn view(&self) -> TaskView {
        TaskView {
            id: self.id@,
            text: self.text@,
            status: self.status,
            timestamp: self.timestamp@,
        }
    }
}

impl View for TaskRow {
    type V = RowView;

    open spec fn view(&self) -> RowView {
        RowView {
            id: self.id@,
            text: self.text@,
            status: self.status@,
            timestamp: self.timestamp@,
        }
    }
}

impl Keyed for TaskView {
    open spec fn key(&self) -> Seq<char> {
        self.id
    }
}

impl Keyed for Task {
    open spec fn key(&self) -> Seq<char> {
        self.id@
    }
}

impl KeyText for Task {
    fn key_str(&self) -> (k: &str) {
        self.id.as_str()
    }
}

/// The models of the tasks of `v`.
pub open spec fn task_views(v: Seq<Task>) -> Seq<TaskView> {
    v.map_values(|t: Task| t@)
}

/// The models of the rows of `v`.
pub open spec fn row_views(v: Seq<TaskRow>) -> Seq<RowView> {
    v.map_values(|r: TaskRow| r@)
}

impl RowView {
    /// The task a row stands for; a row with a malformed status stands for
    /// none.
    pub open spec fn decoded(self) -> Option<TaskView> {
        match TaskStatus::parse(self.status) {
            Some(status) => Some(
                TaskView { id: self.id, text: self.text, status, timestamp: self.timestamp },
            ),
            None => None,
        }
    }
}

impl TaskView {
    /// The row a task is stored as.
    pub open spec fn encoded(self) -> RowView {
        RowView {
            id: self.id,
            text: self.text,
            status: self.status.text(),
            timestamp: self.timestamp,
        }
    }

    /// Whether the task belongs to the list of `day`: its timestamp holds the
    /// date.
    pub open spec fn is_on_day(self, day: Seq<char>) -> bool {
        contains_text(self.timestamp, day)
    }
}

/// A task that was stored is the task that is read back.
pub proof fn task_row_round_trips(task: TaskView)
    ensures
        task.encoded().decoded() == Some(task),
{
    status_text_round_trips(task.status);
}

impl TaskRow {
    /// Reads a stored row. A row with a malformed status is malformed.
    pub fn decode(self) -> (task: Result<Task, ErrorKind>)
        ensures
            match task {
                Ok(found) => self@.decoded() == Some(found@),
                Err(kind) => kind == ErrorKind::Malformed && self@.decoded() is None,
            },
    {
        match TaskStatus::from_str(self.status.as_str()) {
            Ok(status) => Ok(
                Task { id: self.id, text: self.text, status, timestamp: self.timestamp },
            ),
            Err(kind) => Err(kind),
        }
    }
}

impl Task {
    /// The row the task is stored as.
    pub fn encode(&self) -> (row: TaskRow)
        ensures
            row@ == self@.encoded(),
    {
        TaskRow {
            id: self.id.clone(),
            text: self.text.clone(),
            status: self.status.to_string(),
            timestamp: self.timestamp.clone(),
        }
    }
}

/// The tasks of `day` among the rows, in the order of the rows: the rows
/// that can be read and whose timestamp holds the date.
pub open spec fn tasks_on_day(rows: Seq<RowView>, day: Seq<char>) -> Seq<TaskView>
    decreases rows.len(),
{
    if rows.len() == 0 {
        Seq::empty()
    } else {
        match rows.last().decoded() {
            Some(task) => if task.is_on_day(day) {
                tasks_on_day(rows.drop_last(), day).push(task)
            } else {
                tasks_on_day(rows.drop_last(), day)
            },
            None => tasks_on_day(rows.drop_last(), day),
        }
    }
}

/// The list of `day`: its tasks ordered by id, newest first, one task for
/// each id.
pub open spec fn day_list(rows: Seq<RowView>, day: Seq<char>) -> Seq<TaskView> {
    newest_first(stable_sort(tasks_on_day(rows, day)))
}

/// Builds the list of `day` from the rows the store returned. Rows that
/// cannot be read and rows of other days are skipped. Whatever the order of
/// the rows, the ids of the list strictly descend, so no id occurs twice.
pub fn tasks_of_day(rows: Vec<TaskRow>, day: &str) -> (tasks: Vec<Task>)
    ensures
        task_views(tasks@) == day_list(row_views(rows@), day@),
        strictly_descending(tasks@),
{
    let ghost all = row_views(rows@);
    let mut found: Vec<Task> = Vec::new();
    for row in it: rows
        invariant
            it.seq() == rows@,
            all == row_views(rows@),
            task_views(found@) == tasks_on_day(all.take(it.index() as int), day@),
    {
        let ghost i = it.index() as int;
        let ghost before = found@;
        proof {
            assert(all.take(i + 1).drop_last() =~= all.take(i));
            assert(all.take(i + 1).last() == row@);
        }
        match row.decode() {
            Ok(task) => {
                if str_contains(task.timestamp.as_str(), day) {
                    found.push(task);
                    assert(task_views(found@) =~= task_views(before).push(task@));
                }
            },
            Err(_) => {},
        }
    }
    proof {
        assert(all.take(all.len() as int) =~= all);
    }
    let sorted: Vec<Task> = sort_by_key(found);
    let tasks: Vec<Task> = into_newest_first(sorted);
    proof {
        stable_sort_commutes(found@, |t: Task| t@);
        newest_first_commutes(sorted@, |t: Task| t@);
        stable_sort_sorts(found@);
        newest_first_descends(sorted@);
    }
    tasks
}

/// The text that `chrono` writes for the instant `ms` milliseconds after the
/// epoch as a `DateTime<Utc>`: date, time, and the zone `UTC`. `None` where
/// chrono has no such instant.
pub uninterp spec fn utc_timestamp_text(ms: i64) -> Option<Seq<char>>;

/// The text that `chrono` writes for the UTC date of the instant `ms`
/// milliseconds after the epoch. `None` where chrono has no such instant.
pub uninterp spec fn utc_date_text(ms: i64) -> Option<Seq<char>>;

/// The characters of an optional string.
pub open spec fn text_of(s: Option<String>) -> Option<Seq<char>> {
    match s {
        Some(t) => Some(t@),
        None => None,
    }
}

/// The timestamp of the instant `now_ms` milliseconds after the epoch.
pub open spec fn timestamp_at(now_ms: u64) -> Option<Seq<char>> {
    if now_ms <= i64::MAX {
        utc_timestamp_text(now_ms as i64)
    } else {
        None
    }
}

/// The UTC date of the instant `now_ms` milliseconds after the epoch.
pub open spec fn date_at(now_ms: u64) -> Option<Seq<char>> {
    if now_ms <= i64::MAX {
        utc_date_text(now_ms as i64)
    } else {
        None
    }
}

/// Calls `chrono::DateTime::<Utc>::from_timestamp_millis` and writes the
/// instant with `to_string`. The result is `None` exactly where chrono has no
/// instant for `ms`. The text starts with the date of the instant, written as
/// `date_naive().to_string()` writes it: chrono writes a `DateTime` as its
/// date, a space, its time, a space and its zone.
#[verifier::external_body]
fn format_utc_timestamp(ms: i64) -> (text: Option<String>)
    ensures
        text_of(text) == utc_timestamp_text(ms),
        text is Some ==> utc_date_text(ms) is Some && utc_date_text(ms)->0.is_prefix_of(
            text->0@,
        ),
{
    match chrono::DateTime::<chrono::Utc>::from_timestamp_millis(ms) {
        Some(instant) => Some(instant.to_string()),
        None => None,
    }
}

/// Calls `chrono::DateTime::<Utc>::from_timestamp_millis` and writes the
/// date of the instant with `date_naive().to_string()`. The result is `None`
/// exactly where chrono has no instant for `ms`.
#[verifier::external_body]
fn format_utc_date(ms: i64) -> (text: Option<String>)
    ensures
        text_of(text) == utc_date_text(ms),
{
    match chrono::DateTime::<chrono::Utc>::from_timestamp_millis(ms) {
        Some(instant) => Some(instant.date_naive().to_string()),
        None => None,
    }
}

/// The task that is created from `text` at the instant `now_ms`, whose
/// timestamp is `timestamp`: pending, with the decimal numeral of `now_ms` as
/// its id. No task is created from an empty text or without a timestamp.
pub open spec fn task_created(text: Seq<char>, now_ms: u64, timestamp: Option<Seq<char>>) -> Option<
    TaskView,
> {
    match timestamp {
        Some(stamp) => if text.len() == 0 {
            None
        } else {
            Some(
                TaskView {
                    id: decimal(now_ms as nat),
                    text,
                    status: TaskStatus::Pending,
                    timestamp: stamp,
                },
            )
        },
        None => None,
    }
}

/// The model of an optional task.
pub open spec fn task_view_of(task: Option<Task>) -> Option<TaskView> {
    match task {
        Some(t) => Some(t@),
        None => None,
    }
}

/// Creates the task for `text` with the given timestamp.
pub fn task_with_timestamp(text: &str, now_ms: u64, timestamp: Option<String>) -> (task: Option<
    Task,
>)
    ensures
        task_view_of(task) == task_created(text@, now_ms, text_of(timestamp)),
{
    match timestamp {
        Some(stamp) => {
            if text.unicode_len() == 0 {
                None
            } else {
                Some(
                    Task {
                        id: decimal_string(now_ms),
                        text: text.to_owned(),
                        status: TaskStatus::Pending,
                        timestamp: stamp,
                    },
                )
            }
        },
        None => None,
    }
}

/// The timestamp of the instant `now_ms` milliseconds after the epoch.
pub fn timestamp(now_ms: u64) -> (text: Option<String>)
    ensures
        text_of(text) == timestamp_at(now_ms),
        text is Some ==> date_at(now_ms) is Some && contains_text(text->0@, date_at(now_ms)->0),
{
    if now_ms > i64::MAX as u64 {
        return None;
    }
    let text: Option<String> = format_utc_timestamp(now_ms as i64);
    proof {
        if text is Some {
            let day = utc_date_text(now_ms as i64)->0;
            assert(occurs_at(text->0@, day, 0));
        }
    }
    text
}

/// The UTC date of the instant `now_ms` milliseconds after the epoch: the
/// day whose list is shown at that instant.
pub fn today(now_ms: u64) -> (day: Option<String>)
    ensures
        text_of(day) == date_at(now_ms),
{
    if now_ms > i64::MAX as u64 {
        return None;
    }
    format_utc_date(now_ms as i64)
}

/// Creates the task for `text` at the instant `now_ms` milliseconds after
/// the epoch. A task that is created belongs to the list of the day of its
/// creation.
pub fn new_task(text: &str, now_ms: u64) -> (task: Option<Task>)
    ensures
        task_view_of(task) == task_created(text@, now_ms, timestamp_at(now_ms)),
        task is Some ==> date_at(now_ms) is Some && task->0@.is_on_day(date_at(now_ms)->0),
{
    task_with_timestamp(text, now_ms, timestamp(now_ms))
}

/// A statement for the store: its text, and the values bound to its
/// placeholders in their order. Values never become part of the text.
#[derive(Clone, Debug, PartialEq, Eq)]
pub struct Statement {
    pub sql: String,
    pub params: Vec<String>,
}

/// The statement text that creates the task table.
pub open spec fn create_table_sql() -> Seq<char> {
    "CREATE TABLE IF NOT EXISTS tasks (id TEXT PRIMARY KEY NOT NULL, text TEXT NOT NULL, status TEXT NOT NULL, timestamp TEXT NOT NULL)"@
}

/// The statement text that stores a task.
pub open spec fn insert_sql() -> Seq<char> {
    "INSERT INTO tasks (id, text, status, timestamp) VALUES (?, ?, ?, ?)"@
}

/// The statement text that selects the rows of a day, newest first.
pub open spec fn select_sql() -> Seq<char> {
    "SELECT id, text, status, timestamp FROM tasks WHERE timestamp LIKE ? ORDER BY id DESC"@
}

/// The statement text that sets the status of a task.
pub open spec fn update_sql() -> Seq<char> {
    "UPDATE tasks SET status = ? WHERE id = ?"@
}

/// The statement text that removes a task.
pub open spec fn delete_sql() -> Seq<char> {
    "DELETE FROM tasks WHERE id = ?"@
}

/// The pattern that matches the timestamps that hold `day`.
pub open spec fn day_pattern(day: Seq<char>) -> Seq<char> {
    "%"@ + day + "%"@
}

/// The statement that makes sure the task table is there.
pub fn init_statement() -> (statement: Statement)
    ensures
        statement.sql@ == create_table_sql(),
        statement.params@.len() == 0,
{
    Statement {
        sql: "CREATE TABLE IF NOT EXISTS tasks (id TEXT PRIMARY KEY NOT NULL, text TEXT NOT NULL, status TEXT NOT NULL, timestamp TEXT NOT NULL)".to_owned(),
        params: Vec::new(),
    }
}

/// The statement that stores `task`.
pub fn insert_statement(task: &Task) -> (statement: Statement)
    ensures
        statement.sql@ == insert_sql(),
        texts(statement.params@) == seq![
            task.id@,
            task.text@,
            task.status.text(),
            task.timestamp@,
        ],
{
    let mut params: Vec<String> = Vec::new();
    params.push(task.id.clone());
    params.push(task.text.clone());
    params.push(task.status.to_string());
    params.push(task.timestamp.clone());
    assert(texts(params@) =~= seq![task.id@, task.text@, task.status.text(), task.timestamp@]);
    Statement {
        sql: "INSERT INTO tasks (id, text, status, timestamp) VALUES (?, ?, ?, ?)".to_owned(),
        params,
    }
}

/// The statement that selects the rows of `day`.
pub fn select_statement(day: &str) -> (statement: Statement)
    ensures
        statement.sql@ == select_sql(),
        texts(statement.params@) == seq![day_pattern(day@)],
{
    let mut pattern: String = "%".to_owned();
    pattern.append(day);
    pattern.append("%");
    let mut params: Vec<String> = Vec::new();
    params.push(pattern);
    assert(texts(params@) =~= seq![day_pattern(day@)]);
    Statement {
        sql: "SELECT id, text, status, timestamp FROM tasks WHERE timestamp LIKE ? ORDER BY id DESC".to_owned(),
        params,
    }
}

/// The statement that sets the status of the task `id`.
pub fn update_statement(id: &str, status: TaskStatus) -> (statement: Statement)
    ensures
        statement.sql@ == update_sql(),
        texts(statement.params@) == seq![status.text(), id@],
{
    let mut params: Vec<String> = Vec::new();
    params.push(status.to_string());
    params.push(id.to_owned());
    assert(texts(params@) =~= seq![status.text(), id@]);
    Statement { sql: "UPDATE tasks SET status = ? WHERE id = ?".to_owned(), params }
}

/// The statement that removes the task `id`.
pub fn delete_statement(id: &str) -> (statement: Statement)
    ensures
        statement.sql@ == delete_sql(),
        texts(statement.params@) == seq![id@],
{
    let mut params: Vec<String> = Vec::new();
    params.push(id.to_owned());
    assert(texts(params@) =~= seq![id@]);
    Statement { sql: "DELETE FROM tasks WHERE id = ?".to_owned(), params }
}

/// The result code by which the store reports a violated constraint.
pub const CONSTRAINT_CODE: isize = 19;

/// Why storing a task failed, told by the result code of the store: a
/// violated constraint is a conflict on the id, anything else is fatal.
pub fn insert_failure(code: Option<isize>) -> (kind: ErrorKind)
    ensures
        kind == if code == Some(CONSTRAINT_CODE) {
            ErrorKind::Conflict
        } else {
            ErrorKind::Fatal
        },
{
    match code {
        Some(c) => {
            if c == CONSTRAINT_CODE {
                ErrorKind::Conflict
            } else {
                ErrorKind::Fatal
            }
        },
        None => ErrorKind::Fatal,
    }
}

/// How many times a task is offered to the store before the user interface
/// gives up on it.
pub const MAX_ATTEMPTS: u64 = 16;

/// The instant of the attempt that follows a failed one. Only a conflict on
/// the id is answered by another attempt, with the id of the next
/// millisecond; after [`MAX_ATTEMPTS`] attempts there is none.
pub open spec fn following_attempt(kind: ErrorKind, start_ms: u64, attempt: u64) -> Option<u64> {
    if kind == ErrorKind::Conflict && attempt + 1 < MAX_ATTEMPTS && start_ms + attempt + 1
        <= u64::MAX {
        Some((start_ms + attempt + 1) as u64)
    } else {
        None
    }
}

/// Decides whether a task is offered to the store again. `attempt` counts
/// the attempts that failed before this one, from zero; `start_ms` is the
/// instant of the first attempt, and `kind` is why this attempt failed. The
/// result is the instant to create the task at for the next attempt, or
/// `None` where the task is given up.
pub fn next_attempt(kind: ErrorKind, start_ms: u64, attempt: u64) -> (next: Option<u64>)
    ensures
        next == following_attempt(kind, start_ms, attempt),
{
    match kind {
        ErrorKind::Conflict => {
            if attempt >= MAX_ATTEMPTS - 1 {
                None
            } else {
                start_ms.checked_add(attempt + 1)
            }
        },
        _ => None,
    }
}

/// A task is offered to the store at most [`MAX_ATTEMPTS`] times, each time
/// with a later instant, and only after a conflict.
pub proof fn attempts_are_bounded(kind: ErrorKind, start_ms: u64, attempt: u64)
    requires
        following_attempt(kind, start_ms, attempt) is Some,
    ensures
        kind == ErrorKind::Conflict,
        attempt + 1 < MAX_ATTEMPTS,
        following_attempt(kind, start_ms, attempt)->0 == start_ms + attempt + 1,
        following_attempt(kind, start_ms, attempt)->0 > start_ms,
{
}

/// The outcome of a status change or a removal that touched `changed` rows:
/// with no row touched, the id was not found.
pub fn change_outcome(changed: usize) -> (outcome: Result<(), ErrorKind>)
    ensures
        outcome == if changed == 0 {
            Err::<(), ErrorKind>(ErrorKind::NotFound)
        } else {
            Ok::<(), ErrorKind>(())
        },
{
    if changed == 0 {
        Err(ErrorKind::NotFound)
    } else {
        Ok(())
    }
}

/// The ids of a day's list strictly descend: no id occurs twice.
pub proof fn day_list_descends(rows: Seq<RowView>, day: Seq<char>)
    ensures
        strictly_descending(day_list(rows, day)),
        forall|i: int, j: int|
            0 <= i < day_list(rows, day).len() && 0 <= j < day_list(rows, day).len() && i != j
                ==> (#[trigger] day_list(rows, day)[i]).id != (#[trigger] day_list(rows, day)[j]).id,
{
    let list = day_list(rows, day);
    stable_sort_sorts(tasks_on_day(rows, day));
    newest_first_descends(stable_sort(tasks_on_day(rows, day)));
    assert forall|i: int, j: int| 0 <= i < list.len() && 0 <= j < list.len() && i != j implies (
    #[trigger] list[i]).id != (#[trigger] list[j]).id by {
        strictly_descending_keys_differ(list, i, j);
    }
}

/// Every task of a day's list is a readable row of that day.
pub proof fn day_list_holds_tasks_of_day(rows: Seq<RowView>, day: Seq<char>, i: int)
    requires
        0 <= i < day_list(rows, day).len(),
    ensures
        day_list(rows, day)[i].is_on_day(day),
        exists|k: int|
            0 <= k < rows.len() && (#[trigger] rows[k]).decoded() == Some(day_list(rows, day)[i]),
{
    let on_day = tasks_on_day(rows, day);
    let sorted = stable_sort(on_day);
    let task = day_list(rows, day)[i];
    newest_first_holds_members(sorted);
    assert(sorted.contains(task));
    stable_sort_keeps_members(on_day, task);
    let n = choose|n: int| 0 <= n < on_day.len() && on_day[n] == task;
    tasks_on_day_are_rows(rows, day, n);
}

/// Every task among the rows of a day is a readable row of that day.
pub proof fn tasks_on_day_are_rows(rows: Seq<RowView>, day: Seq<char>, n: int)
    requires
        0 <= n < tasks_on_day(rows, day).len(),
    ensures
        tasks_on_day(rows, day)[n].is_on_day(day),
        exists|k: int|
            0 <= k < rows.len() && (#[trigger] rows[k]).decoded() == Some(
                tasks_on_day(rows, day)[n],
            ),
    decreases rows.len(),
{
    let rest = rows.drop_last();
    let earlier = tasks_on_day(rest, day);
    if n < earlier.len() {
        tasks_on_day_are_rows(rest, day, n);
        let k = choose|k: int|
            0 <= k < rest.len() && (#[trigger] rest[k]).decoded() == Some(earlier[n]);
        assert(rows[k] == rest[k]);
    } else {
        assert(rows[rows.len() - 1] == rows.last());
    }
}

/// Every readable row of a day has its id in the day's list.
pub proof fn day_list_holds_every_id(rows: Seq<RowView>, day: Seq<char>, k: int)
    requires
        0 <= k < rows.len(),
        rows[k].decoded() is Some,
        rows[k].decoded()->0.is_on_day(day),
    ensures
        exists|i: int|
            0 <= i < day_list(rows, day).len() && (#[trigger] day_list(rows, day)[i]).id
                == rows[k].id,
{
    let on_day = tasks_on_day(rows, day);
    let sorted = stable_sort(on_day);
    let task = rows[k].decoded()->0;
    rows_are_tasks_on_day(rows, day, k);
    stable_sort_keeps_members(on_day, task);
    let n = choose|n: int| 0 <= n < sorted.len() && sorted[n] == task;
    newest_first_holds_keys(sorted, n);
    let list = newest_first(sorted);
    let i = choose|i: int| 0 <= i < list.len() && (#[trigger] list[i]).key() == sorted[n].key();
    assert(day_list(rows, day)[i].id == rows[k].id);
}

/// Every readable row of a day is among the tasks of that day.
pub proof fn rows_are_tasks_on_day(rows: Seq<RowView>, day: Seq<char>, k: int)
    requires
        0 <= k < rows.len(),
        rows[k].decoded() is Some,
        rows[k].decoded()->0.is_on_day(day),
    ensures
        tasks_on_day(rows, day).contains(rows[k].decoded()->0),
    decreases rows.len(),
{
    let rest = rows.drop_last();
    let earlier = tasks_on_day(rest, day);
    let all = tasks_on_day(rows, day);
    if k < rows.len() - 1 {
        assert(rest[k] == rows[k]);
        rows_are_tasks_on_day(rest, day, k);
        let n = choose|n: int| 0 <= n < earlier.len() && earlier[n] == rows[k].decoded()->0;
        assert(all[n] == earlier[n]);
    } else {
        assert(rows.last() == rows[k]);
        assert(all[all.len() - 1] == rows[k].decoded()->0);
    }
}

} // verus!
