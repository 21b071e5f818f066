//! The records that the store keeps.

use vstd::prelude::*;

verus! {

/// An instant, as seconds and nanoseconds since the Unix epoch, together
/// with the offset from UTC (in seconds) under which it was read.
#[derive(Debug, Clone, Copy, PartialEq, Eq, Structural)]
pub struct Timestamp {
    pub secs: i64,
    /// Nanoseconds within the second; a leap second carries it past one
    /// billion.
    pub nanos: u32,
    /// Local time minus UTC, in seconds.
    pub offset: i32,
}

impl Timestamp {
    /// The ranges that a clock reading keeps to.
    pub open spec fn wf(&self) -> bool {
        &&& self.nanos < 2_000_000_000
        &&& -86_400 < self.offset < 86_400
    }
}

/// The key under which a user is stored.
#[derive(Debug, PartialOrd, Ord, PartialEq, Eq, Hash)]
pub struct Name {
    pub name: String,
}

impl View for Name {
    type V = Seq<char>;

    open spec fn view(&self) -> Seq<char> {
        self.name@
    }
}

impl Clone for Name {
    fn clone(&self) -> (r: Name)
        ensures
            r@ == self@,
    {
        Name { name: self.name.clone() }
    }
}

/// A user's mail address; no format is imposed on it.
#[derive(Debug, PartialOrd, Ord, PartialEq, Eq, Hash)]
pub struct Email {
    pub email: String,
}

impl View for Email {
    type V = Seq<char>;

    open spec fn view(&self) -> Seq<char> {
        self.email@
    }
}

impl Clone for Email {
    fn clone(&self) -> (r: Email)
        ensures
            r@ == self@,
    {
        Email { email: self.email.clone() }
    }
}

/// One account.
#[derive(Debug)]
pub struct User {
    pub name: Name,
    pub email: Email,
    pub create_time: Timestamp,
    pub update_time: Timestamp,
}

/// What a `User` holds, as plain values.
pub ghost struct UserView {
    pub name: Seq<char>,
    pub email: Seq<char>,
    pub create_time: Timestamp,
    pub update_time: Timestamp,
}

impl View for User {
    type V = UserView;

    open spec fn view(&self) -> UserView {
        UserView {
            name: self.name@,
            email: self.email@,
            create_time: self.create_time,
            update_time: self.update_time,
        }
    }
}

impl Clone for User {
    fn clone(&self) -> (r: User)
        ensures
            r@ == self@,
    {
        User {
            name: self.name.clone(),
            email: self.email.clone(),
            create_time: self.create_time,
            update_time: self.update_time,
        }
    }
}

} // verus!
