//! A small user registry built from injected capabilities: a clock and a
//! user store. A repository combines the two into `get` and `insert`, and an
//! environment bundles one implementation of each.

pub mod entity;
pub mod env;
pub mod repository;
pub mod storage;
pub mod time;

pub use entity::{Email, Name, Timestamp, User, UserView};
pub use env::{RealWorld, TestWorld};
pub use repository::{HaveUserRepository, UserRepository};
pub use storage::{Error, HaveUserStorageComponent, MemoryStorage, UserStorageComponent};
pub use time::{Chrono, FixedClock, HaveTimeComponent, TimeComponent};
