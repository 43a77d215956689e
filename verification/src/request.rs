//! The statements sent to the database, as data.
//!
//! A list name becomes part of the statement text (a table name cannot be
//! bound as a parameter), so only names made of ASCII letters, digits and
//! underscores are ever spliced in. Values travel as bound parameters.

use crate::error::StorageError;
use crate::text::{chars_of, is_blank, lemma_trim_blank, trim, trimmed};
use vstd::prelude::*;
use vstd::string::StringExecFns;

verus! {

/// A character that may appear in a list name.
pub open spec fn is_name_char(c: char) -> bool {
    ||| 'a' <= c <= 'z'
    ||| 'A' <= c <= 'Z'
    ||| '0' <= c <= '9'
    ||| c == '_'
}

/// A list name is a non-empty run of ASCII letters, digits and underscores.
pub open spec fn is_list_name(name: Seq<char>) -> bool {
    &&& name.len() > 0
    &&& forall|i: int| 0 <= i < name.len() ==> is_name_char(#[trigger] name[i])
}

/// Tells whether `name` can be used as a list name.
pub fn valid_list_name(name: &str) -> (valid: bool)
    ensures
        valid == is_list_name(name@),
{
    let chars = chars_of(name);
    if chars.len() == 0 {
        return false;
    }
    let mut i: usize = 0;
    while i < chars.len()
        invariant
            i <= chars.len(),
            chars@ == name@,
            forall|j: int| 0 <= j < i ==> is_name_char(#[trigger] name@[j]),
        decreases chars.len() - i,
    {
        let c = chars[i];
        let allowed = ('a' <= c && c <= 'z') || ('A' <= c && c <= 'Z') || ('0' <= c && c <= '9')
            || c == '_';
        if !allowed {
            return false;
        }
        i += 1;
    }
    true
}

/// The name of the list that the interactive program keeps. It is a valid
/// list name, so no operation on it is ever refused for its name.
pub fn default_list() -> (name: &'static str)
    ensures
        name@ == "default"@,
        is_list_name(name@),
{
    proof {
        reveal_strlit("default");
    }
    "default"
}

/// The value bound to the single parameter of a statement, as a model.
pub enum ArgumentView {
    Nothing,
    Text(Seq<char>),
    Integer(int),
}

/// The value bound to the single `?` of a statement, if it has one.
#[derive(Debug, PartialEq, Eq)]
pub enum Argument {
    Nothing,
    Text(String),
    Integer(i32),
}

impl View for Argument {
    type V = ArgumentView;

    open spec fn view(&self) -> ArgumentView {
        match self {
            Argument::Nothing => ArgumentView::Nothing,
            Argument::Text(text) => ArgumentView::Text(text@),
            Argument::Integer(number) => ArgumentView::Integer(*number as int),
        }
    }
}

/// The model of a request: the statement text and what is bound to it.
pub struct RequestView {
    pub sql: Seq<char>,
    pub argument: ArgumentView,
}

/// One statement, ready to be handed to the database.
#[derive(Debug, PartialEq, Eq)]
pub struct Request {
    pub sql: String,
    pub argument: Argument,
}

impl View for Request {
    type V = RequestView;

    open spec fn view(&self) -> RequestView {
        RequestView { sql: self.sql@, argument: self.argument@ }
    }
}

/// Statement text made of a fixed head, the list name, and a fixed tail.
pub open spec fn around(head: Seq<char>, name: Seq<char>, tail: Seq<char>) -> Seq<char> {
    head + name + tail
}

/// The request that creates the table of list `name` unless it exists.
pub open spec fn schema_request_of(name: Seq<char>) -> RequestView {
    RequestView {
        sql: around(
            "CREATE TABLE IF NOT EXISTS \""@,
            name,
            "\" (id INTEGER PRIMARY KEY AUTOINCREMENT, description TEXT NOT NULL, completed INTEGER DEFAULT 0)"@,
        ),
        argument: ArgumentView::Nothing,
    }
}

/// The request that inserts a task: the raw description is stored without
/// its surrounding whitespace.
pub open spec fn insert_request_of(name: Seq<char>, raw: Seq<char>) -> RequestView {
    RequestView {
        sql: around("INSERT INTO \""@, name, "\" (description) VALUES (?)"@),
        argument: ArgumentView::Text(trim(raw)),
    }
}

/// The request that reads every row of list `name`.
pub open spec fn select_request_of(name: Seq<char>) -> RequestView {
    RequestView { sql: around("SELECT * FROM \""@, name, "\""@), argument: ArgumentView::Nothing }
}

/// The request that sets the completion flag of the row with identifier `id`.
pub open spec fn update_request_of(name: Seq<char>, id: int) -> RequestView {
    RequestView {
        sql: around("UPDATE \""@, name, "\" SET completed = 1 WHERE id = ?"@),
        argument: ArgumentView::Integer(id),
    }
}

/// What a request builder returns for list `name`: the wanted request when
/// the name is valid, and `InvalidListName` otherwise.
pub open spec fn built(
    outcome: Result<Request, StorageError>,
    name: Seq<char>,
    wanted: RequestView,
) -> bool {
    match outcome {
        Ok(request) => is_list_name(name) && request@ == wanted,
        Err(error) => !is_list_name(name) && error == StorageError::InvalidListName,
    }
}

fn statement_text(head: &str, name: &str, tail: &str) -> (sql: String)
    ensures
        sql@ == around(head@, name@, tail@),
{
    let mut sql = String::from_str(head);
    sql.append(name);
    sql.append(tail);
    sql
}

/// Builds the request that creates the table of list `name`.
pub fn schema_request(name: &str) -> (outcome: Result<Request, StorageError>)
    ensures
        built(outcome, name@, schema_request_of(name@)),
{
    if !valid_list_name(name) {
        return Err(StorageError::InvalidListName);
    }
    let sql = statement_text(
        "CREATE TABLE IF NOT EXISTS \"",
        name,
        "\" (id INTEGER PRIMARY KEY AUTOINCREMENT, description TEXT NOT NULL, completed INTEGER DEFAULT 0)",
    );
    Ok(Request { sql, argument: Argument::Nothing })
}

/// Builds the request that inserts a task with the description `raw`,
/// stripped of its surrounding white space, into list `name`.
pub fn insert_request(name: &str, raw: &str) -> (outcome: Result<Request, StorageError>)
    ensures
        built(outcome, name@, insert_request_of(name@, raw@)),
{
    if !valid_list_name(name) {
        return Err(StorageError::InvalidListName);
    }
    let sql = statement_text("INSERT INTO \"", name, "\" (description) VALUES (?)");
    Ok(Request { sql, argument: Argument::Text(trimmed(raw)) })
}

/// Builds the request that reads every row of list `name`.
pub fn select_request(name: &str) -> (outcome: Result<Request, StorageError>)
    ensures
        built(outcome, name@, select_request_of(name@)),
{
    if !valid_list_name(name) {
        return Err(StorageError::InvalidListName);
    }
    let sql = statement_text("SELECT * FROM \"", name, "\"");
    Ok(Request { sql, argument: Argument::Nothing })
}

/// Builds the request that marks the task with identifier `id` in list
/// `name` as completed.
pub fn update_request(name: &str, id: i32) -> (outcome: Result<Request, StorageError>)
    ensures
        built(outcome, name@, update_request_of(name@, id as int)),
{
    if !valid_list_name(name) {
        return Err(StorageError::InvalidListName);
    }
    let sql = statement_text("UPDATE \"", name, "\" SET completed = 1 WHERE id = ?");
    Ok(Request { sql, argument: Argument::Integer(id) })
}

/// A description of white space only is stored as the empty text: the
/// request built for it binds nothing but an empty description.
pub proof fn lemma_blank_description(name: Seq<char>, raw: Seq<char>)
    requires
        is_blank(raw),
    ensures
        insert_request_of(name, raw).argument == ArgumentView::Text(Seq::<char>::empty()),
{
    lemma_trim_blank(raw);
}

} // verus!
