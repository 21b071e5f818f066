//! The storage capability: user records kept by name.

use vstd::prelude::*;

use crate::entity::{Name, User, UserView};

verus! {

/// Why a store operation failed.
#[derive(Debug, Clone, Copy, PartialEq, Eq, Structural)]
pub enum Error {
    /// No record is kept under the name asked for.
    NotFound,
    /// The backend itself failed.
    Io,
}

/// The table that results from saving `entries` into `t` one by one, in
/// order.
pub open spec fn saved_all(
    t: Map<Seq<char>, UserView>,
    entries: Seq<(Name, User)>,
) -> Map<Seq<char>, UserView>
    decreases entries.len(),
{
    if entries.len() == 0 {
        t
    } else {
        let last = entries.last();
        saved_all(t, entries.drop_last()).insert(last.0@, last.1@)
    }
}

/// Stores users by name. A record saved under a name replaces the one that
/// was there.
pub trait UserStorageComponent {
    /// The records kept, by name.
    spec fn table(&self) -> Map<Seq<char>, UserView>;

    /// Whether the backend never reports `Error::Io`.
    spec fn reliable(&self) -> bool;

    fn read(&self, name: Name) -> (r: Result<User, Error>)
        ensures
            match r {
                Ok(u) => self.table().contains_key(name@) && u@ == self.table()[name@],
                Err(Error::NotFound) => !self.table().contains_key(name@),
                Err(Error::Io) => !self.reliable(),
            },
            self.reliable() ==> (r is Ok <==> self.table().contains_key(name@)),
    ;

    fn save(&mut self, name: Name, user: User) -> (r: Result<(), Error>)
        ensures
            final(self).reliable() == old(self).reliable(),
            match r {
                Ok(()) => final(self).table() == old(self).table().insert(name@, user@),
                Err(e) => e == Error::Io && !old(self).reliable(),
            },
    ;

    /// Every record, each once, in no promised order.
    fn read_all(&self) -> (r: Result<Vec<User>, Error>)
        ensures
            match r {
                Ok(v) => {
                    &&& v@.len() == self.table().dom().len()
                    &&& v@.map_values(|u: User| u@).to_set() == self.table().values()
                },
                Err(e) => e == Error::Io && !self.reliable(),
            },
    ;

    /// Saves each entry in turn, so the last entry for a name wins.
    fn save_all(&mut self, users: &[(Name, User)]) -> (r: Result<(), Error>)
        ensures
            final(self).reliable() == old(self).reliable(),
            match r {
                Ok(()) => final(self).table() == saved_all(old(self).table(), users@),
                Err(e) => e == Error::Io && !old(self).reliable(),
            },
    ;
}

/// Grants access to a store.
pub trait HaveUserStorageComponent {
    type UserStorageComponent: UserStorageComponent;

    /// The store held.
    spec fn storage(&self) -> Self::UserStorageComponent;

    fn user_storage_component(&self) -> (r: &Self::UserStorageComponent)
        ensures
            *r == self.storage(),
    ;

    fn user_storage_component_mut(&mut self) -> (r: &mut Self::UserStorageComponent)
        ensures
            *r == old(self).storage(),
            final(self).storage() == *final(r),
    ;
}

/// Saving entries one by one leaves, under a name, the last entry given for
/// it.
pub proof fn lemma_save_all_last_wins(
    t: Map<Seq<char>, UserView>,
    entries: Seq<(Name, User)>,
    i: int,
)
    requires
        0 <= i < entries.len(),
        forall|j: int| i < j < entries.len() ==> entries[j].0@ != entries[i].0@,
    ensures
        saved_all(t, entries).contains_key(entries[i].0@),
        saved_all(t, entries)[entries[i].0@] == entries[i].1@,
    decreases entries.len(),
{
    if i < entries.len() - 1 {
        lemma_save_all_last_wins(t, entries.drop_last(), i);
    }
}

/// The names of a list of entries, in order.
pub open spec fn keys_of(list: Seq<(Name, User)>) -> Seq<Seq<char>> {
    list.map_values(|p: (Name, User)| p.0@)
}

/// A store held in memory. Each name occurs at most once in `list`.
pub struct MemoryStorage {
    list: Vec<(Name, User)>,
    model: Ghost<Map<Seq<char>, UserView>>,
}

impl MemoryStorage {
    #[verifier::type_invariant]
    spec fn wf(&self) -> bool {
        &&& keys_of(self.list@).no_duplicates()
        &&& self.model@.dom() == keys_of(self.list@).to_set()
        &&& forall|i: int|
            0 <= i < self.list@.len() ==> self.model@[#[trigger] self.list@[i].0@]
                == self.list@[i].1@
    }

    /// An empty store.
    pub fn new() -> (r: MemoryStorage)
        ensures
            r.table() == Map::<Seq<char>, UserView>::empty(),
    {
        let list: Vec<(Name, User)> = Vec::new();
        assert(keys_of(list@) =~= Seq::<Seq<char>>::empty());
        assert(keys_of(list@).to_set() =~= Set::<Seq<char>>::empty());
        MemoryStorage { list, model: Ghost(Map::empty()) }
    }
}

impl UserStorageComponent for MemoryStorage {
    closed spec fn table(&self) -> Map<Seq<char>, UserView> {
        self.model@
    }

    open spec fn reliable(&self) -> bool {
        true
    }

    fn read(&self, name: Name) -> (r: Result<User, Error>) {
        proof {
            use_type_invariant(self);
        }
        match Self::position(&self.list, &name) {
            Some(i) => {
                assert(keys_of(self.list@)[i as int] == name@);
                Ok(self.list[i].1.clone())
            },
            None => {
                assert(!keys_of(self.list@).contains(name@));
                Err(Error::NotFound)
            },
        }
    }

    fn save(&mut self, name: Name, user: User) -> (r: Result<(), Error>)
        ensures
            r is Ok,
    {
        proof {
            use_type_invariant(&*self);
        }
        let mut taken = MemoryStorage::new();
        std::mem::swap(self, &mut taken);
        let MemoryStorage { mut list, model } = taken;
        let ghost old_list = list@;
        let ghost new_model = model@.insert(name@, user@);
        match Self::position(&list, &name) {
            Some(i) => {
                assert(keys_of(old_list)[i as int] == name@);
                assert(keys_of(old_list).to_set().contains(name@));
                list.set(i, (name, user));
                assert(keys_of(list@) =~= keys_of(old_list));
                assert forall|j: int| 0 <= j < list@.len() implies new_model[#[trigger] list@[j].0@]
                    == list@[j].1@ by {
                    if j != i {
                        assert(keys_of(old_list)[j] != keys_of(old_list)[i as int]);
                    }
                }
            },
            None => {
                list.push((name, user));
                assert(keys_of(list@) =~= keys_of(old_list).push(name@));
                assert(!keys_of(old_list).contains(name@)) by {
                    if keys_of(old_list).contains(name@) {
                        let k = choose|k: int|
                            0 <= k < keys_of(old_list).len() && keys_of(old_list)[k] == name@;
                        assert(old_list[k].0@ == name@);
                    }
                }
                proof {
                    keys_of(old_list).lemma_push_to_set_commute(name@);
                }
                assert forall|j: int| 0 <= j < list@.len() implies new_model[#[trigger] list@[j].0@]
                    == list@[j].1@ by {
                    if j < old_list.len() {
                        assert(old_list[j].0@ == keys_of(old_list)[j]);
                    }
                }
            },
        }
        assert(new_model.dom() =~= keys_of(list@).to_set());
        *self = MemoryStorage { list, model: Ghost(new_model) };
        Ok(())
    }

    fn read_all(&self) -> (r: Result<Vec<User>, Error>)
        ensures
            r is Ok,
    {
        proof {
            use_type_invariant(self);
        }
        let mut out: Vec<User> = Vec::new();
        let mut i: usize = 0;
        while i < self.list.len()
            invariant
                i <= self.list@.len(),
                out@.len() == i,
                forall|j: int| 0 <= j < i ==> (#[trigger] out@[j])@ == self.list@[j].1@,
            decreases self.list@.len() - i,
        {
            out.push(self.list[i].1.clone());
            i = i + 1;
        }
        proof {
            let keys = keys_of(self.list@);
            keys.unique_seq_to_set();
            let views = out@.map_values(|u: User| u@);
            assert forall|v: UserView| views.to_set().contains(v) implies self.table().values().contains(
                v,
            ) by {
                let j = choose|j: int| 0 <= j < views.len() && views[j] == v;
                assert(keys[j] == self.list@[j].0@);
                assert(self.model@.dom().contains(self.list@[j].0@));
                assert(self.model@[self.list@[j].0@] == v);
            }
            assert forall|v: UserView| self.table().values().contains(v) implies views.to_set().contains(
                v,
            ) by {
                let k = choose|k: Seq<char>| self.model@.dom().contains(k) && self.model@[k] == v;
                assert(keys.to_set().contains(k));
                let j = choose|j: int| 0 <= j < keys.len() && keys[j] == k;
                assert(self.list@[j].0@ == k);
                assert(views[j] == v);
            }
            assert(views.to_set() =~= self.table().values());
        }
        Ok(out)
    }

    fn save_all(&mut self, users: &[(Name, User)]) -> (r: Result<(), Error>)
        ensures
            r is Ok,
    {
        let ghost start = self.table();
        let mut i: usize = 0;
        while i < users.len()
            invariant
                i <= users@.len(),
                self.table() == saved_all(start, users@.take(i as int)),
            decreases users@.len() - i,
        {
            let name = users[i].0.clone();
            let user = users[i].1.clone();
            let _ = self.save(name, user);
            assert(users@.take(i as int + 1).drop_last() =~= users@.take(i as int));
            i = i + 1;
        }
        assert(users@.take(i as int) =~= users@);
        Ok(())
    }
}

impl MemoryStorage {
    /// Where `name` is kept in `list`, if anywhere.
    fn position(list: &Vec<(Name, User)>, name: &Name) -> (r: Option<usize>)
        ensures
            match r {
                Some(i) => i < list@.len() && list@[i as int].0@ == name@,
                None => forall|i: int| 0 <= i < list@.len() ==> list@[i].0@ != name@,
            },
    {
        let mut i: usize = 0;
        while i < list.len()
            invariant
                i <= list@.len(),
                forall|j: int| 0 <= j < i ==> list@[j].0@ != name@,
            decreases list@.len() - i,
        {
            if list[i].0.name == name.name {
                return Some(i);
            }
            i = i + 1;
        }
        None
    }
}

} // verus!
