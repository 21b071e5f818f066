//! The user repository: `get` and `insert` for anything that holds both a
//! store and a clock.

use vstd::prelude::*;

use crate::entity::{Email, Name, Timestamp, User, UserView};
use crate::storage::{Error, HaveUserStorageComponent, UserStorageComponent};
use crate::time::{FixedClock, HaveTimeComponent, TimeComponent};

verus! {

/// The record that an insert at time `t` creates.
pub open spec fn stamped(name: Seq<char>, email: Seq<char>, t: Timestamp) -> UserView {
    UserView { name, email, create_time: t, update_time: t }
}

/// The table after inserting `name` and `email` at time `t`.
pub open spec fn inserted(
    table: Map<Seq<char>, UserView>,
    name: Seq<char>,
    email: Seq<char>,
    t: Timestamp,
) -> Map<Seq<char>, UserView> {
    table.insert(name, stamped(name, email, t))
}

/// Users by name, stamped with the time they were written.
pub trait UserRepository: HaveUserStorageComponent + HaveTimeComponent {
    /// The user stored under `name`.
    fn get(&self, name: Name) -> (r: Result<User, Error>)
        ensures
            match r {
                Ok(u) => self.storage().table().contains_key(name@) && u@ == self.storage().table()[name@],
                Err(Error::NotFound) => !self.storage().table().contains_key(name@),
                Err(Error::Io) => !self.storage().reliable(),
            },
            self.storage().reliable() ==> (r is Ok <==> self.storage().table().contains_key(name@)),
    {
        self.user_storage_component().read(name)
    }

    /// Stores a new user under `name`, created and updated at one reading of
    /// the clock; a user already stored under `name` is replaced.
    fn insert(&mut self, name: Name, email: Email) -> (r: Result<(), Error>)
        ensures
            final(self).storage().reliable() == old(self).storage().reliable(),
            match r {
                Ok(()) => exists|t: Timestamp|
                    #![trigger old(self).time().may_return(t)]
                    old(self).time().may_return(t) && final(self).storage().table() == inserted(
                        old(self).storage().table(),
                        name@,
                        email@,
                        t,
                    ),
                Err(e) => e == Error::Io && !old(self).storage().reliable(),
            },
    {
        let now = self.time_component().now();
        let user = User { name: name.clone(), email, create_time: now, update_time: now };
        self.user_storage_component_mut().save(name, user)
    }
}

impl<T: HaveUserStorageComponent + HaveTimeComponent> UserRepository for T {

}

/// Grants access to a repository.
pub trait HaveUserRepository {
    type UserRepository: UserRepository;

    /// The repository held.
    spec fn repository(&self) -> Self::UserRepository;

    fn user_repository(&self) -> (r: &Self::UserRepository)
        ensures
            *r == self.repository(),
    ;

    fn user_repository_mut(&mut self) -> (r: &mut Self::UserRepository)
        ensures
            *r == old(self).repository(),
            final(self).repository() == *final(r),
    ;
}

/// After an insert, the name leads to a user with that name and email,
/// created at the moment it was last updated.
pub proof fn lemma_insert_then_get(
    table: Map<Seq<char>, UserView>,
    name: Seq<char>,
    email: Seq<char>,
    t: Timestamp,
)
    ensures
        inserted(table, name, email, t).contains_key(name),
        inserted(table, name, email, t)[name].name == name,
        inserted(table, name, email, t)[name].email == email,
        inserted(table, name, email, t)[name].create_time == inserted(
            table,
            name,
            email,
            t,
        )[name].update_time,
{
}

/// Under a fixed clock, an inserted user is created and updated at the
/// clock's reading.
pub proof fn lemma_fixed_clock_stamps(
    clock: FixedClock,
    table: Map<Seq<char>, UserView>,
    name: Seq<char>,
    email: Seq<char>,
    t: Timestamp,
)
    requires
        clock.may_return(t),
    ensures
        inserted(table, name, email, t)[name].create_time == clock.at,
        inserted(table, name, email, t)[name].update_time == clock.at,
{
}

/// Two inserts under one name leave one record for it, with the second
/// email.
pub proof fn lemma_insert_last_wins(
    table: Map<Seq<char>, UserView>,
    name: Seq<char>,
    email1: Seq<char>,
    email2: Seq<char>,
    t1: Timestamp,
    t2: Timestamp,
)
    ensures
        inserted(inserted(table, name, email1, t1), name, email2, t2).dom() == table.dom().insert(
            name,
        ),
        inserted(inserted(table, name, email1, t1), name, email2, t2)[name].email == email2,
{
    assert(inserted(inserted(table, name, email1, t1), name, email2, t2).dom() =~= table.dom().insert(
        name,
    ));
}

} // verus!
