//! Environments: one clock and one store, wired together.

use vstd::prelude::*;

use crate::entity::Timestamp;
use crate::entity::UserView;
use crate::storage::{HaveUserStorageComponent, MemoryStorage, UserStorageComponent};
use crate::time::{Chrono, FixedClock, HaveTimeComponent};
use crate::repository::HaveUserRepository;

verus! {

/// The host's clock and an in-memory store.
pub struct RealWorld {
    time_component: Chrono,
    storage_component: MemoryStorage,
}

impl RealWorld {
    /// An environment with an empty store.
    pub fn new() -> (r: RealWorld)
        ensures
            r.storage().table() == Map::<Seq<char>, UserView>::empty(),
    {
        RealWorld { time_component: Chrono, storage_component: MemoryStorage::new() }
    }
}

impl HaveTimeComponent for RealWorld {
    type TimeComponent = Chrono;

    closed spec fn time(&self) -> Chrono {
        self.time_component
    }

    fn time_component(&self) -> (r: &Chrono) {
        &self.time_component
    }
}

impl HaveUserStorageComponent for RealWorld {
    type UserStorageComponent = MemoryStorage;

    closed spec fn storage(&self) -> MemoryStorage {
        self.storage_component
    }

    fn user_storage_component(&self) -> (r: &MemoryStorage) {
        &self.storage_component
    }

    fn user_storage_component_mut(&mut self) -> (r: &mut MemoryStorage) {
        &mut self.storage_component
    }
}

impl HaveUserRepository for RealWorld {
    type UserRepository = Self;

    open spec fn repository(&self) -> Self {
        *self
    }

    fn user_repository(&self) -> (r: &Self) {
        self
    }

    fn user_repository_mut(&mut self) -> (r: &mut Self) {
        self
    }
}

/// A clock fixed at one reading and an in-memory store, for deterministic
/// runs.
pub struct TestWorld {
    time_component: FixedClock,
    storage_component: MemoryStorage,
}

impl TestWorld {
    /// An environment whose clock always reads `at`, with an empty store.
    pub fn new(at: Timestamp) -> (r: TestWorld)
        ensures
            r.time().at == at,
            r.storage().table() == Map::<Seq<char>, UserView>::empty(),
    {
        TestWorld { time_component: FixedClock::new(at), storage_component: MemoryStorage::new() }
    }
}

impl HaveTimeComponent for TestWorld {
    type TimeComponent = FixedClock;

    closed spec fn time(&self) -> FixedClock {
        self.time_component
    }

    fn time_component(&self) -> (r: &FixedClock) {
        &self.time_component
    }
}

impl HaveUserStorageComponent for TestWorld {
    type UserStorageComponent = MemoryStorage;

    closed spec fn storage(&self) -> MemoryStorage {
        self.storage_component
    }

    fn user_storage_component(&self) -> (r: &MemoryStorage) {
        &self.storage_component
    }

    fn user_storage_component_mut(&mut self) -> (r: &mut MemoryStorage) {
        &mut self.storage_component
    }
}

impl HaveUserRepository for TestWorld {
    type UserRepository = Self;

    open spec fn repository(&self) -> Self {
        *self
    }

    fn user_repository(&self) -> (r: &Self) {
        self
    }

    fn user_repository_mut(&mut self) -> (r: &mut Self) {
        self
    }
}

} // verus!
