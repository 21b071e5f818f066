use std::str::FromStr;

use chrono::{DateTime, Local};
use layered::{
    Chrono, Email, Error, FixedClock, HaveTimeComponent, HaveUserRepository,
    HaveUserStorageComponent, MemoryStorage, Name, RealWorld, TestWorld, TimeComponent,
    Timestamp, User, UserRepository, UserStorageComponent,
};

fn timestamp_of(dt: &DateTime<Local>) -> Timestamp {
    Timestamp {
        secs: dt.timestamp(),
        nanos: dt.timestamp_subsec_nanos(),
        offset: dt.offset().local_minus_utc(),
    }
}

fn fixed_time() -> Timestamp {
    timestamp_of(&DateTime::<Local>::from_str("2018-08-20T10:00:00 +0900").unwrap())
}

fn name(s: &str) -> Name {
    Name { name: s.to_string() }
}

fn email(s: &str) -> Email {
    Email { email: s.to_string() }
}

fn user_at(n: &str, e: &str, secs: i64) -> User {
    let t = Timestamp { secs, nanos: 0, offset: 0 };
    User { name: name(n), email: email(e), create_time: t, update_time: t }
}

#[test]
fn add_user() {
    let mut app = TestWorld::new(fixed_time());

    let name = Name {
        name: "user1".to_string(),
    };
    let email = Email {
        email: "user1@example.com".to_string(),
    };

    app.user_repository_mut().insert(name.clone(), email.clone()).unwrap();

    let user = app.user_repository().get(name.clone()).unwrap();
    assert_eq!(user.name, name);
    assert_eq!(user.email, email);
    assert_eq!(
        user.create_time,
        timestamp_of(&DateTime::<Local>::from_str("2018-08-20T10:00:00 +0900").unwrap())
    );
    assert_eq!(
        user.update_time,
        timestamp_of(&DateTime::<Local>::from_str("2018-08-20T10:00:00 +0900").unwrap())
    );
}

#[test]
fn fixed_clock_instant_is_the_given_one() {
    let t = fixed_time();
    assert_eq!(t.secs, 1_534_726_800);
    assert_eq!(t.nanos, 0);
}

#[test]
fn insert_then_get_real_clock() {
    let mut app = RealWorld::new();
    app.user_repository_mut().insert(name("user_a"), email("user_a@example.com")).unwrap();
    let user = app.user_repository().get(name("user_a")).unwrap();
    assert_eq!(user.name, name("user_a"));
    assert_eq!(user.email, email("user_a@example.com"));
    assert_eq!(user.create_time, user.update_time);
    assert!(user.create_time.nanos < 2_000_000_000);
    assert!(user.create_time.secs > 1_500_000_000);
}

#[test]
fn fixed_clock_stamps_both_times() {
    let t0 = Timestamp { secs: 1_534_726_800, nanos: 0, offset: 32_400 };
    let mut app = TestWorld::new(t0);
    app.insert(name("n"), email("e")).unwrap();
    app.insert(name("m"), email("f")).unwrap();
    for n in ["n", "m"] {
        let user = app.get(name(n)).unwrap();
        assert_eq!(user.create_time, t0);
        assert_eq!(user.update_time, t0);
    }
}

#[test]
fn second_insert_replaces_first() {
    let mut app = TestWorld::new(fixed_time());
    app.insert(name("dup"), email("first@example.com")).unwrap();
    app.insert(name("dup"), email("second@example.com")).unwrap();
    let user = app.get(name("dup")).unwrap();
    assert_eq!(user.email, email("second@example.com"));
    let all = app.user_storage_component().read_all().unwrap();
    assert_eq!(all.len(), 1);
}

#[test]
fn get_unknown_name_is_not_found() {
    let mut app = TestWorld::new(fixed_time());
    assert_eq!(app.get(name("nobody")).unwrap_err(), Error::NotFound);
    app.insert(name("somebody"), email("s@example.com")).unwrap();
    assert_eq!(app.get(name("nobody")).unwrap_err(), Error::NotFound);
    let empty = RealWorld::new();
    assert_eq!(empty.get(name("")).unwrap_err(), Error::NotFound);
}

#[test]
fn scenario_user1_at_fixed_time() {
    let t0 = Timestamp { secs: 1_534_726_800, nanos: 0, offset: 32_400 };
    let mut app = TestWorld::new(t0);
    app.insert(name("user1"), email("user1@example.com")).unwrap();
    let user = app.get(name("user1")).unwrap();
    assert_eq!(user.name.name, "user1");
    assert_eq!(user.email.email, "user1@example.com");
    assert_eq!(user.create_time, Timestamp { secs: 1_534_726_800, nanos: 0, offset: 32_400 });
    assert_eq!(user.update_time, Timestamp { secs: 1_534_726_800, nanos: 0, offset: 32_400 });
}

#[test]
fn save_all_last_duplicate_wins() {
    let mut store = MemoryStorage::new();
    let entries = vec![
        (name("a"), user_at("a", "a1", 1)),
        (name("b"), user_at("b", "b1", 2)),
        (name("a"), user_at("a", "a2", 3)),
        (name("a"), user_at("a", "a3", 4)),
    ];
    store.save_all(&entries).unwrap();
    let a = store.read(name("a")).unwrap();
    assert_eq!(a.email, email("a3"));
    assert_eq!(a.create_time.secs, 4);
    assert_eq!(store.read(name("b")).unwrap().email, email("b1"));
    assert_eq!(store.read_all().unwrap().len(), 2);
}

#[test]
fn save_overwrites_and_read_all_lists_each_once() {
    let mut store = MemoryStorage::new();
    assert_eq!(store.read_all().unwrap().len(), 0);
    store.save(name("x"), user_at("x", "x1", 10)).unwrap();
    store.save(name("y"), user_at("y", "y1", 11)).unwrap();
    store.save(name("x"), user_at("x", "x2", 12)).unwrap();
    let mut emails: Vec<String> =
        store.read_all().unwrap().into_iter().map(|u| u.email.email).collect();
    emails.sort();
    assert_eq!(emails, vec!["x2".to_string(), "y1".to_string()]);
    assert_eq!(store.read(name("z")).unwrap_err(), Error::NotFound);
}

#[test]
fn save_all_empty_keeps_store() {
    let mut store = MemoryStorage::new();
    store.save(name("k"), user_at("k", "k1", 1)).unwrap();
    store.save_all(&[]).unwrap();
    assert_eq!(store.read(name("k")).unwrap().email, email("k1"));
}

#[test]
fn clocks_read_as_documented() {
    let t0 = Timestamp { secs: -5, nanos: 7, offset: -3600 };
    assert_eq!(FixedClock::new(t0).now(), t0);
    let world = TestWorld::new(t0);
    assert_eq!(world.time_component().now(), t0);
    let now = Chrono.now();
    assert!(now.secs > 1_500_000_000);
    assert!(now.offset > -86_400 && now.offset < 86_400);
    assert_eq!(now.offset, Local::now().offset().local_minus_utc());
}
