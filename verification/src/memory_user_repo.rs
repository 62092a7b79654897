//! A credential store that lives in memory.

use vstd::prelude::*;

use crate::repository::{holds_id, record_under, StoreError, UserRepository};
use crate::user::{User, UserRecord};

verus! {

/// A credential store kept in memory. It never fails to answer.
pub struct InMemoryUserRepo {
    users: Vec<User>,
}

/// Whether no two entries of `users` share an email.
pub open spec fn distinct_emails(users: Seq<User>) -> bool {
    forall|i: int, j: int|
        0 <= i < j < users.len() ==> (#[trigger] users[i])@.email != (#[trigger] users[j])@.email
}

/// Whether some entry of `users` has the email `email`.
pub open spec fn has_email(users: Seq<User>, email: Seq<char>) -> bool {
    exists|i: int| 0 <= i < users.len() && (#[trigger] users[i])@.email == email
}

/// An index of `users` at which the entry has the email `email`.
pub open spec fn index_of_email(users: Seq<User>, email: Seq<char>) -> int {
    choose|i: int| 0 <= i < users.len() && (#[trigger] users[i])@.email == email
}

/// The map from email to record that the entries of `users` make up.
pub open spec fn records_of(users: Seq<User>) -> Map<Seq<char>, UserRecord> {
    Map::new(
        |email: Seq<char>| has_email(users, email),
        |email: Seq<char>| users[index_of_email(users, email)]@,
    )
}

/// The entries after `user` was saved: it takes the place of the entry that
/// has its email, or comes last where there is none.
pub open spec fn entries_after_save(users: Seq<User>, user: User) -> Seq<User> {
    if has_email(users, user@.email) {
        users.update(index_of_email(users, user@.email), user)
    } else {
        users.push(user)
    }
}

impl InMemoryUserRepo {
    #[verifier::type_invariant]
    spec fn distinct(self) -> bool {
        distinct_emails(self.users@)
    }

    /// The entries of the store, in the order in which their emails were
    /// first saved.
    pub closed spec fn entries(&self) -> Seq<User> {
        self.users@
    }

    /// An empty store.
    pub fn new() -> (repo: Self)
        ensures
            repo.entries().len() == 0,
            repo.records() == Map::<Seq<char>, UserRecord>::empty(),
    {
        let repo = InMemoryUserRepo { users: Vec::new() };
        assert(repo.records() =~= Map::<Seq<char>, UserRecord>::empty());
        repo
    }

    /// How many records the store holds: one for each entry, as no two
    /// entries share an email.
    pub fn len(&self) -> (n: usize)
        ensures
            n == self.entries().len(),
            distinct_emails(self.entries()),
            self.records() == records_of(self.entries()),
            self.records().dom().finite(),
            n == self.records().dom().len(),
    {
        proof {
            use_type_invariant(self);
            lemma_record_count(self.users@);
        }
        self.users.len()
    }

    /// The position of the entry whose email is `email`.
    fn position(&self, email: &str) -> (at: Option<usize>)
        ensures
            at matches Some(i) ==> i < self.entries().len() && self.entries()[i as int]@.email
                == email@,
            at is None ==> !has_email(self.entries(), email@),
    {
        let wanted = email.to_owned();
        let mut i: usize = 0;
        while i < self.users.len()
            invariant
                i <= self.users.len(),
                wanted@ == email@,
                forall|k: int| 0 <= k < i ==> (#[trigger] self.users@[k])@.email != email@,
            decreases self.users.len() - i,
        {
            if self.users[i].email == wanted {
                return Some(i);
            }
            i += 1;
        }
        None
    }
}

impl Clone for InMemoryUserRepo {
    fn clone(&self) -> (copy: Self)
        ensures
            copy.entries() == self.entries(),
            copy.records() == self.records(),
    {
        proof {
            use_type_invariant(self);
        }
        let mut users: Vec<User> = Vec::new();
        let mut i: usize = 0;
        while i < self.users.len()
            invariant
                i <= self.users.len(),
                users@ == self.users@.subrange(0, i as int),
            decreases self.users.len() - i,
        {
            users.push(self.users[i].clone());
            i += 1;
        }
        assert(users@ == self.users@);
        InMemoryUserRepo { users }
    }
}

/// In a store without repeated emails, an entry stands at the one index
/// that has its email.
pub proof fn lemma_index_at(users: Seq<User>, i: int)
    requires
        distinct_emails(users),
        0 <= i < users.len(),
    ensures
        has_email(users, users[i]@.email),
        index_of_email(users, users[i]@.email) == i,
{
    let email = users[i]@.email;
    assert(has_email(users, email));
    let j = index_of_email(users, email);
    if j < i {
        assert(users[j]@.email != users[i]@.email);
    } else if i < j {
        assert(users[i]@.email != users[j]@.email);
    }
}

/// In a store without repeated emails, the record under an entry's email is
/// that entry.
pub proof fn lemma_record_at(users: Seq<User>, i: int)
    requires
        distinct_emails(users),
        0 <= i < users.len(),
    ensures
        record_under(records_of(users), users[i]@.email) == Some(users[i]@),
{
    lemma_index_at(users, i);
}

impl UserRepository for InMemoryUserRepo {
    closed spec fn records(&self) -> Map<Seq<char>, UserRecord> {
        records_of(self.users@)
    }

    open spec fn always_answers(&self) -> bool {
        true
    }

    fn find_by_email(&self, email: &str) -> (r: Result<Option<User>, StoreError>) {
        proof {
            use_type_invariant(self);
        }
        match self.position(email) {
            Some(i) => {
                proof {
                    lemma_record_at(self.users@, i as int);
                }
                Ok(Some(self.users[i].clone()))
            },
            None => Ok(None),
        }
    }

    fn save(&mut self, user: &User) -> (r: Result<(), StoreError>)
        ensures
            final(self).entries() == entries_after_save(old(self).entries(), *user),
    {
        proof {
            use_type_invariant(&*self);
        }
        let ghost before = self.users@;
        let place = self.position(user.email.as_str());
        let mut users: Vec<User> = Vec::new();
        std::mem::swap(&mut users, &mut self.users);
        match place {
            Some(i) => {
                users.set(i, user.clone());
                proof {
                    lemma_index_at(before, i as int);
                    lemma_replace_entry(before, i as int, *user);
                }
            },
            None => {
                users.push(user.clone());
                proof {
                    lemma_append_entry(before, *user);
                }
            },
        }
        self.users = users;
        Ok(())
    }

    fn find_by_id(&self, id: u128) -> (r: Result<Option<User>, StoreError>) {
        proof {
            use_type_invariant(self);
        }
        let mut i: usize = 0;
        while i < self.users.len()
            invariant
                i <= self.users.len(),
                distinct_emails(self.users@),
                forall|k: int| 0 <= k < i ==> (#[trigger] self.users@[k])@.id != id,
            decreases self.users.len() - i,
        {
            if self.users[i].id == id {
                proof {
                    lemma_record_at(self.users@, i as int);
                }
                return Ok(Some(self.users[i].clone()));
            }
            i += 1;
        }
        proof {
            lemma_no_such_id(self.users@, id);
        }
        Ok(None)
    }
}

/// A store without repeated emails holds as many records as it has entries.
pub proof fn lemma_record_count(users: Seq<User>)
    requires
        distinct_emails(users),
    ensures
        records_of(users).dom().finite(),
        records_of(users).dom().len() == users.len(),
    decreases users.len(),
{
    if users.len() == 0 {
        assert(records_of(users).dom() =~= Set::<Seq<char>>::empty());
    } else {
        let front = users.drop_last();
        let last = users.last();
        assert(distinct_emails(front)) by {
            assert forall|i: int, j: int| 0 <= i < j < front.len() implies (#[trigger] front[i])@.email
                != (#[trigger] front[j])@.email by {
                assert(users[i]@.email != users[j]@.email);
            }
        }
        lemma_record_count(front);
        assert(!has_email(front, last@.email)) by {
            if has_email(front, last@.email) {
                let k = index_of_email(front, last@.email);
                assert(users[k]@.email != users[users.len() - 1]@.email);
            }
        }
        assert(records_of(users).dom() =~= records_of(front).dom().insert(last@.email)) by {
            assert forall|email: Seq<char>| has_email(users, email) <==> has_email(front, email)
                || email == last@.email by {
                if has_email(users, email) {
                    let k = index_of_email(users, email);
                    if k < front.len() {
                        assert(front[k]@.email == email);
                    }
                }
                if has_email(front, email) {
                    let k = index_of_email(front, email);
                    assert(users[k]@.email == email);
                }
                if email == last@.email {
                    assert(users[users.len() - 1]@.email == email);
                }
            }
        }
    }
}

/// Where no entry has the identifier `id`, no record of the store has it.
proof fn lemma_no_such_id(users: Seq<User>, id: u128)
    requires
        forall|k: int| 0 <= k < users.len() ==> (#[trigger] users[k])@.id != id,
    ensures
        !holds_id(records_of(users), id),
{
    if holds_id(records_of(users), id) {
        let email = choose|email: Seq<char>|
            records_of(users).contains_key(email) && (#[trigger] records_of(users)[email]).id
                == id;
        let j = index_of_email(users, email);
        assert(users[j]@.id != id);
    }
}

/// Putting `user` in place of the entry that has its email stores it under
/// that email and leaves the other records as they were.
proof fn lemma_replace_entry(users: Seq<User>, i: int, user: User)
    requires
        distinct_emails(users),
        0 <= i < users.len(),
        users[i]@.email == user@.email,
    ensures
        distinct_emails(users.update(i, user)),
        records_of(users.update(i, user)) == records_of(users).insert(user@.email, user@),
{
    let after = users.update(i, user);
    assert(distinct_emails(after)) by {
        assert forall|a: int, b: int| 0 <= a < b < after.len() implies (#[trigger] after[a])@.email
            != (#[trigger] after[b])@.email by {
            assert(users[a]@.email != users[b]@.email);
        }
    }
    let left = records_of(after);
    let right = records_of(users).insert(user@.email, user@);
    assert forall|email: Seq<char>| left.contains_key(email) <==> right.contains_key(
        email,
    ) by {
        if has_email(after, email) {
            let k = index_of_email(after, email);
            assert(users[k]@.email == email);
        }
        if has_email(users, email) {
            let k = index_of_email(users, email);
            assert(after[k]@.email == email);
        }
        if email == user@.email {
            assert(after[i]@.email == email);
        }
    }
    assert forall|email: Seq<char>| left.contains_key(email) implies left[email]
        == right[email] by {
        let k = index_of_email(after, email);
        lemma_record_at(after, k);
        if email != user@.email {
            assert(k != i);
            lemma_record_at(users, k);
        }
    }
    assert(left =~= right);
}

/// Appending `user`, whose email no entry has, stores it under that email and
/// leaves the other records as they were.
proof fn lemma_append_entry(users: Seq<User>, user: User)
    requires
        distinct_emails(users),
        !has_email(users, user@.email),
    ensures
        distinct_emails(users.push(user)),
        records_of(users.push(user)) == records_of(users).insert(user@.email, user@),
{
    let after = users.push(user);
    let last = users.len() as int;
    assert(distinct_emails(after)) by {
        assert forall|a: int, b: int| 0 <= a < b < after.len() implies (#[trigger] after[a])@.email
            != (#[trigger] after[b])@.email by {
            if b < last {
                assert(users[a]@.email != users[b]@.email);
            } else {
                assert(users[a]@.email != user@.email);
            }
        }
    }
    let left = records_of(after);
    let right = records_of(users).insert(user@.email, user@);
    assert forall|email: Seq<char>| left.contains_key(email) <==> right.contains_key(
        email,
    ) by {
        if has_email(after, email) {
            let k = index_of_email(after, email);
            if k < last {
                assert(users[k]@.email == email);
            }
        }
        if has_email(users, email) {
            let k = index_of_email(users, email);
            assert(after[k]@.email == email);
        }
        if email == user@.email {
            assert(after[last]@.email == email);
        }
    }
    assert forall|email: Seq<char>| left.contains_key(email) implies left[email]
        == right[email] by {
        let k = index_of_email(after, email);
        lemma_record_at(after, k);
        if email != user@.email {
            assert(k != last);
            lemma_record_at(users, k);
        }
    }
    assert(left =~= right);
}

} // verus!
