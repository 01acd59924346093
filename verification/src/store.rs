//! The credential store: a read-mostly table of user records keyed by
//! username and by id.
//!
//! Records are created out of band by provisioning; the request handlers
//! only look them up. Both keys are unique across the table.

use vstd::prelude::*;

verus! {

/// One user record, as the credential store holds it.
#[derive(Debug)]
pub struct UserRecord {
    pub id: i32,
    pub username: String,
    pub password_hash: String,
    pub profile_picture: String,
    pub hours: i32,
}

/// Two records carry the same data, field for field.
pub open spec fn same_record(a: UserRecord, b: UserRecord) -> bool {
    &&& a.id == b.id
    &&& a.username@ == b.username@
    &&& a.password_hash@ == b.password_hash@
    &&& a.profile_picture@ == b.profile_picture@
    &&& a.hours == b.hours
}

impl Clone for UserRecord {
    fn clone(&self) -> (r: Self)
        ensures
            same_record(r, *self),
    {
        UserRecord {
            id: self.id,
            username: self.username.clone(),
            password_hash: self.password_hash.clone(),
            profile_picture: self.profile_picture.clone(),
            hours: self.hours,
        }
    }
}

/// Usernames and ids are unique across the table.
pub open spec fn table_wf(s: Seq<UserRecord>) -> bool {
    &&& forall|i: int, j: int|
        0 <= i < j < s.len() ==> #[trigger] s[i].username@ != #[trigger] s[j].username@
    &&& forall|i: int, j: int| 0 <= i < j < s.len() ==> #[trigger] s[i].id != #[trigger] s[j].id
}

/// Some record of the table carries this username.
pub open spec fn has_name(s: Seq<UserRecord>, name: Seq<char>) -> bool {
    exists|i: int| 0 <= i < s.len() && #[trigger] s[i].username@ == name
}

/// The record of the table that carries this username.
pub open spec fn user_named(s: Seq<UserRecord>, name: Seq<char>) -> UserRecord {
    s[choose|i: int| 0 <= i < s.len() && #[trigger] s[i].username@ == name]
}

/// Some record of the table carries this id.
pub open spec fn has_id(s: Seq<UserRecord>, id: i32) -> bool {
    exists|i: int| 0 <= i < s.len() && #[trigger] s[i].id == id
}

/// The record of the table that carries this id.
pub open spec fn user_with_id(s: Seq<UserRecord>, id: i32) -> UserRecord {
    s[choose|i: int| 0 <= i < s.len() && #[trigger] s[i].id == id]
}

/// The credential store.
pub struct CredStore {
    users: Vec<UserRecord>,
}

impl View for CredStore {
    type V = Seq<UserRecord>;

    closed spec fn view(&self) -> Seq<UserRecord> {
        self.users@
    }
}

impl CredStore {
    /// Both keys stay unique across the table.
    pub open spec fn wf(&self) -> bool {
        table_wf(self@)
    }

    /// An empty store.
    pub fn new() -> (r: CredStore)
        ensures
            r.wf(),
            r@ == Seq::<UserRecord>::empty(),
    {
        let r = CredStore { users: Vec::new() };
        proof {
            assert(r@ =~= Seq::<UserRecord>::empty());
        }
        r
    }

    /// Provisions one record. The record is adopted exactly when neither its
    /// username nor its id is taken; otherwise the store is unchanged.
    pub fn add_user(&mut self, u: UserRecord) -> (ok: bool)
        requires
            old(self).wf(),
        ensures
            final(self).wf(),
            ok == (!has_name(old(self)@, u.username@) && !has_id(old(self)@, u.id)),
            ok ==> final(self)@ == old(self)@.push(u),
            !ok ==> final(self)@ == old(self)@,
    {
        let n = self.users.len();
        let mut i: usize = 0;
        while i < n
            invariant
                *self == *old(self),
                old(self).wf(),
                n == self@.len(),
                0 <= i <= n,
                forall|k: int| 0 <= k < i ==> #[trigger] self@[k].username@ != u.username@,
                forall|k: int| 0 <= k < i ==> #[trigger] self@[k].id != u.id,
            decreases n - i,
        {
            let name_taken = self.users[i].username.eq(&u.username);
            let id_taken = self.users[i].id == u.id;
            if name_taken || id_taken {
                return false;
            }
            proof {
                assert(self@[i as int].username@ != u.username@);
                assert(self@[i as int].id != u.id);
            }
            i = i + 1;
        }
        proof {
            assert(forall|k: int|
                0 <= k < old(self)@.len() ==> #[trigger] old(self)@[k].username@ != u.username@);
            assert(forall|k: int| 0 <= k < old(self)@.len() ==> #[trigger] old(self)@[k].id != u.id);
            assert(!has_name(old(self)@, u.username@));
            assert(!has_id(old(self)@, u.id));
        }
        self.users.push(u);
        proof {
            let s0 = old(self)@;
            assert(self@ =~= s0.push(u));
            assert forall|a: int, b: int| 0 <= a < b < self@.len() implies #[trigger] self@[a].username@
                != #[trigger] self@[b].username@ by {
                if b == s0.len() as int {
                    assert(self@[a] == s0[a]);
                    assert(self@[b] == u);
                } else {
                    assert(self@[a] == s0[a]);
                    assert(self@[b] == s0[b]);
                }
            }
            assert forall|a: int, b: int| 0 <= a < b < self@.len() implies #[trigger] self@[a].id
                != #[trigger] self@[b].id by {
                if b == s0.len() as int {
                    assert(self@[a] == s0[a]);
                    assert(self@[b] == u);
                } else {
                    assert(self@[a] == s0[a]);
                    assert(self@[b] == s0[b]);
                }
            }
        }
        true
    }

    /// Looks a record up by username: the counterpart of selecting one row
    /// where the username column equals the argument.
    pub fn find_by_username(&self, name: &String) -> (r: Option<&UserRecord>)
        requires
            self.wf(),
        ensures
            (r is Some) == has_name(self@, name@),
            r matches Some(u) ==> *u == user_named(self@, name@) && u.username@ == name@,
    {
        let n = self.users.len();
        let mut i: usize = 0;
        while i < n
            invariant
                n == self@.len(),
                0 <= i <= n,
                self.wf(),
                forall|k: int| 0 <= k < i ==> #[trigger] self@[k].username@ != name@,
            decreases n - i,
        {
            if self.users[i].username.eq(name) {
                proof {
                    let w = choose|k: int|
                        0 <= k < self@.len() && #[trigger] self@[k].username@ == name@;
                    assert(self@[w].username@ == self@[i as int].username@);
                    assert(w == i as int);
                }
                return Some(&self.users[i]);
            }
            i = i + 1;
        }
        None
    }

    /// Looks a record up by id: the counterpart of selecting one row where
    /// the id column equals the argument.
    pub fn find_by_id(&self, id: i32) -> (r: Option<&UserRecord>)
        requires
            self.wf(),
        ensures
            (r is Some) == has_id(self@, id),
            r matches Some(u) ==> *u == user_with_id(self@, id) && u.id == id,
    {
        let n = self.users.len();
        let mut i: usize = 0;
        while i < n
            invariant
                n == self@.len(),
                0 <= i <= n,
                self.wf(),
                forall|k: int| 0 <= k < i ==> #[trigger] self@[k].id != id,
            decreases n - i,
        {
            if self.users[i].id == id {
                proof {
                    let w = choose|k: int| 0 <= k < self@.len() && #[trigger] self@[k].id == id;
                    assert(self@[w].id == self@[i as int].id);
                    assert(w == i as int);
                }
                return Some(&self.users[i]);
            }
            i = i + 1;
        }
        None
    }
}

} // verus!
