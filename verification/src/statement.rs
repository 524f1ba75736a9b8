//! The statements that the directory runs against its table.
//!
//! The table is `tantivy_blobs (filename TEXT UNIQUE NOT NULL, content BLOB
//! NOT NULL)`. Every operation on a file is one statement with the file's
//! name, and for a write its content, bound to the placeholders as blobs.

use vstd::prelude::*;

verus! {

/// One statement with the values for its placeholders, in their order.
pub struct Statement<'a> {
    /// The text of the statement.
    pub sql: &'static str,
    /// The values for the placeholders.
    pub params: Vec<&'a [u8]>,
}

impl<'a> Statement<'a> {
    /// The values for the placeholders, each as the bytes it holds.
    pub open spec fn bound(&self) -> Seq<Seq<u8>> {
        Seq::new(self.params@.len(), |i: int| self.params@[i]@)
    }
}

/// Creates the table unless it is there.
pub open spec fn init_sql() -> Seq<char> {
    "CREATE TABLE IF NOT EXISTS tantivy_blobs (filename TEXT UNIQUE NOT NULL, content BLOB NOT NULL)"@
}

/// One row with one column if the file is there, none if it is not.
pub open spec fn exists_sql() -> Seq<char> {
    "SELECT 1 FROM tantivy_blobs WHERE filename = ?"@
}

/// Removes the file's row.
pub open spec fn delete_sql() -> Seq<char> {
    "DELETE FROM tantivy_blobs WHERE filename = ?"@
}

/// Adds a row unless the file has one.
pub open spec fn create_sql() -> Seq<char> {
    "INSERT OR IGNORE INTO tantivy_blobs VALUES (?, ?)"@
}

/// Adds a row in place of the one that the file has, if it has one.
pub open spec fn write_sql() -> Seq<char> {
    "INSERT OR REPLACE INTO tantivy_blobs VALUES (?, ?)"@
}

/// The file's content.
pub open spec fn read_sql() -> Seq<char> {
    "SELECT content FROM tantivy_blobs WHERE filename = ?"@
}

/// The file's row and the size of its content.
pub open spec fn locate_sql() -> Seq<char> {
    "SELECT rowid, length(content) FROM tantivy_blobs WHERE filename = ?"@
}

/// The statement that creates the table: nothing is bound.
pub fn init_statement<'a>() -> (st: Statement<'a>)
    ensures
        st.sql@ == init_sql(),
        st.bound() == Seq::<Seq<u8>>::empty(),
{
    Statement {
        sql: "CREATE TABLE IF NOT EXISTS tantivy_blobs (filename TEXT UNIQUE NOT NULL, content BLOB NOT NULL)",
        params: Vec::new(),
    }
}

/// A statement about the one file `name`.
fn with_name<'a>(sql: &'static str, name: &'a [u8]) -> (st: Statement<'a>)
    ensures
        st.sql == sql,
        st.bound() == seq![name@],
{
    let mut params: Vec<&'a [u8]> = Vec::new();
    params.push(name);
    Statement { sql, params }
}

/// A statement that stores `content` under `name`.
fn with_name_and_content<'a>(sql: &'static str, name: &'a [u8], content: &'a [u8]) -> (st:
    Statement<'a>)
    ensures
        st.sql == sql,
        st.bound() == seq![name@, content@],
{
    let mut params: Vec<&'a [u8]> = Vec::new();
    params.push(name);
    params.push(content);
    Statement { sql, params }
}

/// The statement that asks whether `name` is there.
pub fn exists_statement<'a>(name: &'a [u8]) -> (st: Statement<'a>)
    ensures
        st.sql@ == exists_sql(),
        st.bound() == seq![name@],
{
    with_name("SELECT 1 FROM tantivy_blobs WHERE filename = ?", name)
}

/// The statement that deletes `name`.
pub fn delete_statement<'a>(name: &'a [u8]) -> (st: Statement<'a>)
    ensures
        st.sql@ == delete_sql(),
        st.bound() == seq![name@],
{
    with_name("DELETE FROM tantivy_blobs WHERE filename = ?", name)
}

/// The statement that creates `name` with no content, unless it is there.
pub fn create_statement<'a>(name: &'a [u8]) -> (st: Statement<'a>)
    ensures
        st.sql@ == create_sql(),
        st.bound() == seq![name@, Seq::<u8>::empty()],
{
    let empty: &'static [u8] = "".as_bytes();
    proof {
        reveal_strlit("");
    }
    with_name_and_content("INSERT OR IGNORE INTO tantivy_blobs VALUES (?, ?)", name, empty)
}

/// The statement that makes `data` the content of `name`.
pub fn write_statement<'a>(name: &'a [u8], data: &'a [u8]) -> (st: Statement<'a>)
    ensures
        st.sql@ == write_sql(),
        st.bound() == seq![name@, data@],
{
    with_name_and_content("INSERT OR REPLACE INTO tantivy_blobs VALUES (?, ?)", name, data)
}

/// The statement that reads the content of `name`.
pub fn read_statement<'a>(name: &'a [u8]) -> (st: Statement<'a>)
    ensures
        st.sql@ == read_sql(),
        st.bound() == seq![name@],
{
    with_name("SELECT content FROM tantivy_blobs WHERE filename = ?", name)
}

/// The statement that finds the row and the size of `name`.
pub fn locate_statement<'a>(name: &'a [u8]) -> (st: Statement<'a>)
    ensures
        st.sql@ == locate_sql(),
        st.bound() == seq![name@],
{
    with_name("SELECT rowid, length(content) FROM tantivy_blobs WHERE filename = ?", name)
}

} // verus!
