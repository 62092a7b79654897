//! The record of one credential holder.

use vstd::prelude::*;

verus! {

/// One credential holder, as the credential store keeps it.
///
/// Timestamps are whole seconds since the Unix epoch.
#[derive(Debug, PartialEq, Eq)]
pub struct User {
    /// Unique identifier, assigned when the record is created: the 128 bits
    /// of a UUID.
    pub id: u128,
    /// The key under which the record is looked up.
    pub email: String,
    /// Output of a salted, slow password hash; never the password itself.
    pub password_hash: String,
    pub created_at: i64,
    pub updated_at: i64,
}

/// The mathematical value of a [`User`].
pub struct UserRecord {
    pub id: u128,
    pub email: Seq<char>,
    pub password_hash: Seq<char>,
    pub created_at: i64,
    pub updated_at: i64,
}

impl View for User {
    type V = UserRecord;

    open spec fn view(&self) -> UserRecord {
        UserRecord {
            id: self.id,
            email: self.email@,
            password_hash: self.password_hash@,
            created_at: self.created_at,
            updated_at: self.updated_at,
        }
    }
}

impl Clone for User {
    fn clone(&self) -> (copy: Self)
        ensures
            copy == *self,
    {
        User {
            id: self.id,
            email: self.email.clone(),
            password_hash: self.password_hash.clone(),
            created_at: self.created_at,
            updated_at: self.updated_at,
        }
    }
}

} // verus!
