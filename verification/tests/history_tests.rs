use kifi::errors::Error;
use kifi::metafiles::{SearchResults, Snapshots, User};
use kifi::snapshot::{gen_name, gen_name_at};

fn test_user() -> User {
    User::new(&String::from("Test User"), &String::from("test@testing.com"))
        .expect("a plain address should register")
}

#[test]
fn latest_of_empty_history_is_an_error() {
    let history = Snapshots::new();
    assert!(matches!(
        history.get_last(),
        Err(Error::PreviewWithoutSnapshots)
    ));
}

#[test]
fn appending_keeps_newest_first_and_exact_lookup_works() {
    let user = test_user();
    let mut history = Snapshots::new();
    history.new_snap(&String::from("testuser_100"), &user);
    history.new_snap(&String::from("testuser_200"), &user);

    let last = history.get_last().expect("two snapshots were appended");
    assert_eq!(last.name, "testuser_200");
    assert_eq!(last.author, "Test User");
    assert_eq!(last.author_email, "test@testing.com");

    match history.find(String::from("testuser_100")) {
        SearchResults::FoundExact(snap) => assert_eq!(snap.name, "testuser_100"),
        _ => panic!("an exact name must be found exactly"),
    }
}

#[test]
fn lookup_falls_back_to_containment() {
    let user = test_user();
    let mut history = Snapshots::new();
    history.new_snap(&String::from("testuser_100"), &user);
    history.new_snap(&String::from("testuser_200"), &user);

    match history.find(String::from("user_1")) {
        SearchResults::FoundSimilar(snaps) => {
            assert_eq!(snaps.len(), 1);
            assert_eq!(snaps[0].name, "testuser_100");
        }
        _ => panic!("a contained query must offer candidates"),
    }

    match history.find(String::from("testuser")) {
        SearchResults::FoundSimilar(snaps) => assert_eq!(snaps.len(), 2),
        _ => panic!("a contained query must offer candidates"),
    }

    assert!(matches!(
        history.find(String::from("nowhere")),
        SearchResults::NotFound
    ));
}

#[test]
fn snapshot_names_stamp_user_and_second() {
    assert_eq!(gen_name_at(0), "testuser_0");
    assert_eq!(gen_name_at(1696000000), "testuser_1696000000");
    let now_name = gen_name();
    assert!(now_name.starts_with("testuser_"));
}

#[test]
fn registration_validates_the_address() {
    assert!(matches!(
        User::new(&String::from("n"), &String::from("not-an-address")),
        Err(Error::InvalidEmail)
    ));
    assert!(matches!(
        User::new(&String::from("n"), &String::from("a@b")),
        Err(Error::InvalidEmail)
    ));
    assert!(matches!(
        User::new(&String::from("n"), &String::from("a@b.c")),
        Err(Error::InvalidEmail)
    ));
    let user = User::new(&String::from("Ada"), &String::from("ada@calc.engine"))
        .expect("a plain address should register");
    assert_eq!(user.name(), "Ada");
    assert_eq!(user.email(), "ada@calc.engine");
    assert!(user.kignore().is_none());
}

#[test]
fn an_empty_query_offers_every_snapshot() {
    let user = test_user();
    let mut history = Snapshots::new();
    history.new_snap(&String::from("testuser_100"), &user);
    history.new_snap(&String::from("testuser_200"), &user);
    match history.find(String::from("")) {
        SearchResults::FoundSimilar(snaps) => assert_eq!(snaps.len(), 2),
        _ => panic!("every name contains the empty query"),
    }
}
