//! The pieces of the database layer that do not touch a database: statement
//! builders and the entity types.
use vstd::prelude::*;
use crate::senka_error::SenkaError;

verus! {

/// Something that builds an SQL statement.
pub trait SqlExecutable {
    fn build(&self) -> Result<String, SenkaError>;
}

/// A query statement.
#[derive(Debug)]
pub struct Queryable;

/// An insert statement.
#[derive(Debug)]
pub struct Insertable;

/// An update statement.
#[derive(Debug)]
pub struct Updateable;

/// A delete statement.
#[derive(Debug)]
pub struct Deleteable;

/// A statement that stores a value.
#[derive(Debug)]
pub struct Storageable;

/// A user as stored in the database.
#[derive(Debug)]
pub struct UserEntity {}

/// Prepares the database for use; there is nothing to prepare yet.
pub fn initialize_database() {
}

} // verus!
