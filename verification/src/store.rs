//! The storage gateway: the four operations on a task list.
//!
//! Each operation is one statement (marking a task is two) against the
//! database behind the connection. What the database answers is not known to
//! the verifier; what is proved is which statement is built for it, that an
//! invalid list name is refused before the database is touched, and how its
//! answer is turned into the operation's result.

use crate::engine::{
    column_flag, column_integer, column_text, execute, execute_with_integer, execute_with_text,
    prepare, query_tasks,
};
use crate::error::StorageError;
use crate::request::{
    insert_request, is_list_name, schema_request, select_request, update_request, Argument,
    Request,
};
use crate::task::Task;
use vstd::prelude::*;

verus! {

/// The operation was refused because of the list name.
pub open spec fn refused<T>(outcome: Result<T, StorageError>) -> bool {
    outcome matches Err(StorageError::InvalidListName)
}

/// Turns an answer of the database into a result of this crate: a value is
/// kept, an error is wrapped.
pub fn from_engine<T>(answer: Result<T, rusqlite::Error>) -> (outcome: Result<T, StorageError>)
    ensures
        match answer {
            Ok(value) => outcome == Ok::<T, StorageError>(value),
            Err(error) => outcome == Err::<T, StorageError>(StorageError::Engine(error)),
        },
{
    match answer {
        Ok(value) => Ok(value),
        Err(error) => Err(StorageError::Engine(error)),
    }
}

/// Decodes the current row of a query over a task table: the identifier, the
/// description and the completion flag, from the first three columns.
pub(crate) fn task_from_row(row: &rusqlite::Row<'_>) -> (outcome: Result<Task, rusqlite::Error>) {
    let id = column_integer(row, 0)?;
    let description = column_text(row, 1)?;
    let flag = column_flag(row, 2)?;
    Ok(Task::from_columns(id, description, flag))
}

/// Every row was decoded.
pub open spec fn all_decoded(rows: Seq<Result<Task, rusqlite::Error>>) -> bool {
    forall|i: int| 0 <= i < rows.len() ==> (#[trigger] rows[i]) is Ok
}

/// Row `at` is the first one that failed.
pub open spec fn first_failure(rows: Seq<Result<Task, rusqlite::Error>>, at: int) -> bool {
    &&& 0 <= at < rows.len()
    &&& rows[at] is Err
    &&& all_decoded(rows.take(at))
}

/// Gathers the rows of a query: all the tasks in the order of the rows, or
/// the error of the first row that failed.
pub fn collect_tasks(rows: Vec<Result<Task, rusqlite::Error>>) -> (outcome: Result<
    Vec<Task>,
    StorageError,
>)
    ensures
        match outcome {
            Ok(tasks) => {
                &&& all_decoded(rows@)
                &&& tasks@.len() == rows@.len()
                &&& forall|i: int|
                    0 <= i < tasks@.len() ==> rows@[i] == Ok::<Task, rusqlite::Error>(
                        #[trigger] tasks@[i],
                    )
            },
            Err(error) => exists|at: int| #[trigger]
                first_failure(rows@, at) && error == StorageError::Engine(rows@[at]->Err_0),
        },
{
    let ghost all = rows@;
    let mut tasks: Vec<Task> = Vec::new();
    for row in it: rows
        invariant
            it.seq() == all,
            tasks@.len() == it.index(),
            forall|i: int|
                0 <= i < tasks@.len() ==> all[i] == Ok::<Task, rusqlite::Error>(
                    #[trigger] tasks@[i],
                ),
    {
        match row {
            Ok(task) => {
                tasks.push(task);
            },
            Err(error) => {
                proof {
                    let at = it.index() as int;
                    assert forall|i: int| 0 <= i < at implies (#[trigger] all.take(
                        at,
                    )[i]) is Ok by {
                        assert(all[i] == Ok::<Task, rusqlite::Error>(tasks@[i]));
                    }
                    assert(first_failure(all, at));
                }
                return Err(StorageError::Engine(error));
            },
        }
    }
    proof {
        assert forall|i: int| 0 <= i < all.len() implies (#[trigger] all[i]) is Ok by {
            assert(all[i] == Ok::<Task, rusqlite::Error>(tasks@[i]));
        }
    }
    Ok(tasks)
}

/// Hands a request to the database and reports how many rows it changed.
/// A failure is always the database's.
fn run(conn: &rusqlite::Connection, request: &Request) -> (outcome: Result<usize, StorageError>)
    ensures
        !refused(outcome),
{
    let answer = match &request.argument {
        Argument::Nothing => execute(conn, request.sql.as_str()),
        Argument::Text(text) => execute_with_text(conn, request.sql.as_str(), text.as_str()),
        Argument::Integer(number) => execute_with_integer(conn, request.sql.as_str(), *number),
    };
    from_engine(answer)
}

/// Hands a query without parameters to the database and gathers the tasks
/// it yields, in the order in which the database yields them. A failure is
/// always the database's.
fn fetch(conn: &rusqlite::Connection, sql: &str) -> (outcome: Result<Vec<Task>, StorageError>)
    ensures
        !refused(outcome),
{
    let mut statement = from_engine(prepare(conn, sql))?;
    let rows = from_engine(query_tasks(&mut statement))?;
    collect_tasks(rows)
}

/// Creates the table of list `list_name` unless it exists already, so that
/// it can be called at every start.
///
/// The database is asked only if the name is a valid list name.
pub fn create_table(conn: &rusqlite::Connection, list_name: &str) -> (outcome: Result<
    (),
    StorageError,
>)
    ensures
        refused(outcome) <==> !is_list_name(list_name@),
{
    let request = schema_request(list_name)?;
    run(conn, &request)?;
    Ok(())
}

/// Adds a task to list `list_name`. The description is stored without its
/// surrounding white space, even if nothing is left of it; the database
/// assigns the identifier and the task starts out open.
///
/// The database is asked only if the name is a valid list name.
pub fn add_task(conn: &rusqlite::Connection, list_name: &str, description: &str) -> (outcome:
    Result<(), StorageError>)
    ensures
        refused(outcome) <==> !is_list_name(list_name@),
{
    let request = insert_request(list_name, description)?;
    run(conn, &request)?;
    Ok(())
}

/// Reads all tasks of list `list_name`, in the order in which the database
/// returns them.
///
/// The database is asked only if the name is a valid list name.
pub fn list_tasks(conn: &rusqlite::Connection, list_name: &str) -> (outcome: Result<
    Vec<Task>,
    StorageError,
>)
    ensures
        refused(outcome) <==> !is_list_name(list_name@),
{
    let request = select_request(list_name)?;
    fetch(conn, request.sql.as_str())
}

/// Marks the task with identifier `task_id` in list `list_name` as
/// completed and returns the list as it is afterwards. An identifier that no
/// task has changes nothing and is no error.
///
/// The database is asked only if the name is a valid list name.
pub fn mark_task_complete(conn: &rusqlite::Connection, list_name: &str, task_id: i32) -> (outcome:
    Result<Vec<Task>, StorageError>)
    ensures
        refused(outcome) <==> !is_list_name(list_name@),
{
    let request = update_request(list_name, task_id)?;
    run(conn, &request)?;
    list_tasks(conn, list_name)
}

} // verus!
