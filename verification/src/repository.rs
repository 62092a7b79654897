//! The credential store: what the authentication service asks of it.

use vstd::prelude::*;

use crate::user::{User, UserRecord};

verus! {

/// Why the store could not answer.
#[derive(Clone, Copy, Debug, PartialEq, Eq, Structural)]
pub enum StoreError {
    /// The backing storage could not be reached or did not answer in time.
    Unavailable,
}

/// The record that `records` holds under `email`, if any.
pub open spec fn record_under(records: Map<Seq<char>, UserRecord>, email: Seq<char>) -> Option<
    UserRecord,
> {
    if records.contains_key(email) {
        Some(records[email])
    } else {
        None
    }
}

/// Whether some record of `records` has the identifier `id`.
pub open spec fn holds_id(records: Map<Seq<char>, UserRecord>, id: u128) -> bool {
    exists|email: Seq<char>| records.contains_key(email) && (#[trigger] records[email]).id == id
}

/// The mathematical value of what a lookup found.
pub open spec fn found_record(found: Option<User>) -> Option<UserRecord> {
    match found {
        Some(user) => Some(user@),
        None => None,
    }
}

/// A store of user records, looked up by email or by identifier.
///
/// A store holds at most one record per email: its contents are a map from
/// email to record. A lookup that finds nothing is an answer, not a failure;
/// `Err` means that the store itself could not answer.
pub trait UserRepository {
    /// The records that the store holds, each under its email.
    spec fn records(&self) -> Map<Seq<char>, UserRecord>;

    /// Whether the store answers every call: a store for which this holds
    /// never returns `Err`.
    spec fn always_answers(&self) -> bool;

    /// The record whose email is exactly `email`.
    fn find_by_email(&self, email: &str) -> (r: Result<Option<User>, StoreError>)
        ensures
            r matches Ok(found) ==> found_record(found) == record_under(self.records(), email@),
            r matches Ok(Some(user)) ==> user@.email == email@,
            self.always_answers() ==> r is Ok,
    ;

    /// Stores `user` under its email, in place of any record held there.
    fn save(&mut self, user: &User) -> (r: Result<(), StoreError>)
        ensures
            r is Ok ==> final(self).records() == old(self).records().insert(user@.email, user@),
            r is Err ==> final(self).records() == old(self).records(),
            old(self).always_answers() ==> r is Ok,
            final(self).always_answers() == old(self).always_answers(),
    ;

    /// A record whose identifier is `id`.
    fn find_by_id(&self, id: u128) -> (r: Result<Option<User>, StoreError>)
        ensures
            r matches Ok(Some(user)) ==> user@.id == id && record_under(
                self.records(),
                user@.email,
            ) == Some(user@),
            r matches Ok(None) ==> !holds_id(self.records(), id),
            self.always_answers() ==> r is Ok,
    ;
}

} // verus!
