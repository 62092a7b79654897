use user_auth::memory_user_repo::InMemoryUserRepo;
use user_auth::repository::UserRepository;
use user_auth::user::User;

fn sample(id: u128, email: &str, hash: &str) -> User {
    User {
        id,
        email: email.to_string(),
        password_hash: hash.to_string(),
        created_at: 1_700_000_000,
        updated_at: 1_700_000_000,
    }
}

#[test]
fn empty_store_finds_nothing() {
    let repo = InMemoryUserRepo::new();
    assert_eq!(repo.len(), 0);
    assert_eq!(repo.find_by_email("a@b.com"), Ok(None));
    assert_eq!(repo.find_by_id(7), Ok(None));
}

#[test]
fn saved_record_is_found_by_email_and_id() {
    let mut repo = InMemoryUserRepo::new();
    assert_eq!(repo.save(&sample(7, "a@b.com", "h1")), Ok(()));
    assert_eq!(repo.find_by_email("a@b.com"), Ok(Some(sample(7, "a@b.com", "h1"))));
    assert_eq!(repo.find_by_id(7), Ok(Some(sample(7, "a@b.com", "h1"))));
    assert_eq!(repo.len(), 1);
}

#[test]
fn lookup_by_email_is_exact() {
    let mut repo = InMemoryUserRepo::new();
    repo.save(&sample(7, "a@b.com", "h1")).unwrap();
    assert_eq!(repo.find_by_email("A@B.COM"), Ok(None));
    assert_eq!(repo.find_by_email("a@b.co"), Ok(None));
    assert_eq!(repo.find_by_email("a@b.com "), Ok(None));
    assert_eq!(repo.find_by_email(""), Ok(None));
}

#[test]
fn saving_under_a_held_email_replaces_the_record() {
    let mut repo = InMemoryUserRepo::new();
    repo.save(&sample(7, "a@b.com", "h1")).unwrap();
    repo.save(&sample(8, "c@d.com", "h2")).unwrap();
    repo.save(&sample(9, "a@b.com", "h3")).unwrap();
    assert_eq!(repo.len(), 2);
    assert_eq!(repo.find_by_email("a@b.com"), Ok(Some(sample(9, "a@b.com", "h3"))));
    assert_eq!(repo.find_by_email("c@d.com"), Ok(Some(sample(8, "c@d.com", "h2"))));
    assert_eq!(repo.find_by_id(7), Ok(None));
    assert_eq!(repo.find_by_id(9), Ok(Some(sample(9, "a@b.com", "h3"))));
}

#[test]
fn store_holds_one_record_per_email() {
    let mut repo = InMemoryUserRepo::new();
    for round in 0..5u128 {
        repo.save(&sample(round, "a@b.com", "h")).unwrap();
        repo.save(&sample(100 + round, "c@d.com", "h")).unwrap();
    }
    assert_eq!(repo.len(), 2);
    assert_eq!(repo.find_by_email("a@b.com").unwrap().unwrap().id, 4);
    assert_eq!(repo.find_by_email("c@d.com").unwrap().unwrap().id, 104);
}

#[test]
fn missing_identifier_is_an_answer_not_a_failure() {
    let mut repo = InMemoryUserRepo::new();
    repo.save(&sample(7, "a@b.com", "h1")).unwrap();
    assert_eq!(repo.find_by_id(8), Ok(None));
}

#[test]
fn clone_of_a_store_holds_the_same_records() {
    let mut repo = InMemoryUserRepo::new();
    repo.save(&sample(7, "a@b.com", "h1")).unwrap();
    let copy = repo.clone();
    repo.save(&sample(8, "c@d.com", "h2")).unwrap();
    assert_eq!(copy.len(), 1);
    assert_eq!(copy.find_by_email("a@b.com"), Ok(Some(sample(7, "a@b.com", "h1"))));
    assert_eq!(copy.find_by_email("c@d.com"), Ok(None));
}

#[test]
fn clone_of_a_user_is_equal_to_it() {
    let user = sample(7, "a@b.com", "h1");
    assert_eq!(user.clone(), user);
}
