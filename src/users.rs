use vstd::prelude::*;
use crate::decimal::{append_nat, nat_text};
use std::collections::HashMap;

verus! {

broadcast use vstd::std_specs::hash::group_hash_axioms;

/// A stored user account.
#[derive(Clone, Debug)]
pub struct User {
    pub id: u32,
    pub name: String,
    pub email: String,
}

/// The mathematical value of a `User`: its id and the characters of its two text fields.
pub ghost struct UserModel {
    pub id: u32,
    pub name: Seq<char>,
    pub email: Seq<char>,
}

impl View for User {
    type V = UserModel;

    open spec fn view(&self) -> UserModel {
        UserModel { id: self.id, name: self.name@, email: self.email@ }
    }
}

impl User {
    pub fn new(id: u32, name: String, email: String) -> (r: User)
        ensures
            r.id == id,
            r.name@ == name@,
            r.email@ == email@,
    {
        User { id, name, email }
    }

    /// A field-by-field copy of the user.
    pub fn duplicate(&self) -> (r: User)
        ensures
            r@ == self@,
    {
        User { id: self.id, name: self.name.clone(), email: self.email.clone() }
    }

    /// The name followed by the e-mail address in parentheses: `name (email)`.
    pub fn display_name(&self) -> (r: String)
        ensures
            r@ == self.name@ + " ("@ + self.email@ + ")"@,
    {
        let mut s = self.name.clone();
        s.append(" (");
        s.append(self.email.as_str());
        s.append(")");
        s
    }
}

/// A handle on the user store, named by its connection string.
pub struct Database {
    connection: String,
}

impl Database {
    pub fn new(connection: String) -> (r: Database)
        ensures
            r.connection()@ == connection@,
    {
        Database { connection }
    }

    pub closed spec fn connection(&self) -> String {
        self.connection
    }

    /// The line logged when the store is asked for user `id`: `Querying user with id: <id>`.
    pub fn query_line(&self, id: u32) -> (r: String)
        ensures
            r@ == "Querying user with id: "@ + nat_text(id as nat),
    {
        let mut s = String::from_str("Querying user with id: ");
        append_nat(&mut s, id as u64);
        s
    }

    /// Looks a user up in the store. The store holds no rows, so nothing is ever found.
    /// The line it logs is `query_line`; the caller prints it.
    pub fn query_user(&self, id: u32) -> (r: Option<User>)
        ensures
            r.is_none(),
    {
        None
    }

    /// Writes a user to the store. The store accepts every update. The line it logs,
    /// `Updating user: ` and the user's `Debug` form, is printed by the caller.
    pub fn execute_update(&self, user: &User) -> (r: Result<(), String>)
        ensures
            r.is_ok(),
    {
        Ok(())
    }
}

/// Users read through a database, with an in-memory cache keyed by user id.
pub struct UserRepository {
    db: Database,
    cache: HashMap<u32, User>,
}

impl UserRepository {
    /// The cached users, by id.
    pub closed spec fn cached(&self) -> Map<u32, UserModel> {
        Map::new(|k: u32| self.cache@.contains_key(k), |k: u32| self.cache@[k]@)
    }

    /// The database the repository reads through.
    pub closed spec fn database(&self) -> Database {
        self.db
    }

    /// Every cached user is stored under its own id.
    pub closed spec fn wf(&self) -> bool {
        forall|k: u32| #[trigger] self.cache@.contains_key(k) ==> self.cache@[k].id == k
    }

    pub fn new(db: Database) -> (r: UserRepository)
        ensures
            r.wf(),
            r.database() == db,
            r.cached() == Map::<u32, UserModel>::empty(),
    {
        let r = UserRepository { db, cache: HashMap::new() };
        assert(r.cached() =~= Map::<u32, UserModel>::empty());
        r
    }

    /// Finds a user: from the cache when present, else from the database, caching
    /// what the database returns.
    pub fn find_by_id(&mut self, id: u32) -> (r: Option<User>)
        requires
            old(self).wf(),
        ensures
            final(self).wf(),
            final(self).database() == old(self).database(),
            r is Some ==> final(self).cached() == old(self).cached().insert(id, r.unwrap()@),
            r is None ==> final(self).cached() == old(self).cached(),
            old(self).cached().contains_key(id) ==> {
                &&& r.is_some()
                &&& r.unwrap()@ == old(self).cached()[id]
                &&& final(self).cached() == old(self).cached()
            },
            !old(self).cached().contains_key(id) ==> {
                &&& r.is_none()
                &&& final(self).cached() == old(self).cached()
            },
    {
        match self.cache.get(&id) {
            Some(user) => {
                let copy = user.duplicate();
                assert(self.cached().insert(id, copy@) =~= self.cached());
                return Some(copy);
            },
            None => {},
        }
        let found = self.db.query_user(id);
        match found {
            Some(user) => {
                let copy = user.duplicate();
                self.cache.insert(id, user);
                Some(copy)
            },
            None => None,
        }
    }

    /// Writes the user through to the database and, on success, caches it under its id.
    pub fn save(&mut self, user: User) -> (r: Result<(), String>)
        requires
            old(self).wf(),
        ensures
            final(self).wf(),
            final(self).database() == old(self).database(),
            r.is_ok(),
            final(self).cached() == old(self).cached().insert(user.id, user@),
    {
        let written = self.db.execute_update(&user);
        match written {
            Ok(()) => {},
            Err(e) => {
                return Err(e);
            },
        }
        let ghost before = self.cached();
        let ghost u = user@;
        self.cache.insert(user.id, user);
        assert(self.cached() =~= before.insert(u.id, u));
        Ok(())
    }

    /// Empties the cache.
    pub fn clear_cache(&mut self)
        ensures
            final(self).wf(),
            final(self).database() == old(self).database(),
            final(self).cached() == Map::<u32, UserModel>::empty(),
    {
        self.cache.clear();
        assert(self.cached() =~= Map::<u32, UserModel>::empty());
    }
}

/// The guest account: id 0, name `Guest`, e-mail `guest@example.com`.
pub fn create_default_user() -> (r: User)
    ensures
        r.id == 0,
        r.name@ == "Guest"@,
        r.email@ == "guest@example.com"@,
{
    User::new(0, String::from_str("Guest"), String::from_str("guest@example.com"))
}

} // verus!
