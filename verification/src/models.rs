//! Record types of the surrounding record-management application, an
//! independent consumer of the same database engine: one table of books with
//! an integer id, a text title and a text author.

use vstd::prelude::*;

verus! {

/// One stored record, as read back from the table.
#[derive(Debug)]
pub struct Book {
    pub id: i32,
    pub title: String,
    pub author: String,
}

/// A record to insert; the table assigns the id.
#[derive(Clone, Debug)]
pub struct NewBook<'a> {
    pub title: &'a str,
    pub author: &'a str,
}

} // verus!
