//! The record store behind the services, offered through the narrow
//! repository contract the services rely on: get by id, get by field, list
//! by field, insert, update, delete.
//!
//! Rows live in memory.  The repositories enforce the storage invariants
//! the services build on: identifiers are unique and never reused, account
//! usernames are unique, and at most one session row ever references a
//! given refresh-token hash (the unique index behind single-use refresh
//! secrets).

use vstd::prelude::*;

use crate::codec::str_eq;
use crate::models::{AccountModel, CreateSessionOptions, SessionModel};

verus! {

// ---------------------------------------------------------------------------
// Account rows
// ---------------------------------------------------------------------------

/// Field-wise equality of account rows.
pub open spec fn account_eqv(a: AccountModel, b: AccountModel) -> bool {
    &&& a.id == b.id
    &&& a.username@ == b.username@
    &&& a.password@ == b.password@
    &&& a.created_at == b.created_at
    &&& a.updated_at == b.updated_at
}

pub open spec fn has_account_id(rows: Seq<AccountModel>, id: u64) -> bool {
    exists|i: int| 0 <= i < rows.len() && rows[i].id == id
}

pub open spec fn account_index(rows: Seq<AccountModel>, id: u64) -> int {
    choose|i: int| 0 <= i < rows.len() && rows[i].id == id
}

/// The row holding `id`, meaningful when `has_account_id` holds.
pub open spec fn account_of(rows: Seq<AccountModel>, id: u64) -> AccountModel {
    rows[account_index(rows, id)]
}

pub open spec fn has_username(rows: Seq<AccountModel>, username: Seq<char>) -> bool {
    exists|i: int| 0 <= i < rows.len() && rows[i].username@ == username
}

pub open spec fn username_index(rows: Seq<AccountModel>, username: Seq<char>) -> int {
    choose|i: int| 0 <= i < rows.len() && rows[i].username@ == username
}

/// The row holding `username`, meaningful when `has_username` holds.
pub open spec fn account_by_username(rows: Seq<AccountModel>, username: Seq<char>) -> AccountModel {
    rows[username_index(rows, username)]
}

/// The storage invariant on account rows: identifiers and usernames are
/// unique.
pub open spec fn accounts_wf(rows: Seq<AccountModel>) -> bool {
    &&& forall|i: int, j: int|
        0 <= i < j < rows.len() ==> #[trigger] rows[i].id != #[trigger] rows[j].id
    &&& forall|i: int, j: int|
        0 <= i < j < rows.len() ==> #[trigger] rows[i].username@ != #[trigger] rows[j].username@
}

/// Account storage: rows plus the next never-used identifier.
pub struct AccountRepository {
    accounts: Vec<AccountModel>,
    next_id: u64,
}

impl AccountRepository {
    /// The stored rows.
    pub closed spec fn rows(&self) -> Seq<AccountModel> {
        self.accounts@
    }

    /// Whether the identifier space is exhausted.
    pub closed spec fn at_capacity(&self) -> bool {
        self.next_id == u64::MAX
    }

    /// Rows satisfy the storage invariant and no stored identifier has
    /// reached the next free one.
    pub closed spec fn wf(&self) -> bool {
        &&& accounts_wf(self.accounts@)
        &&& forall|i: int|
            0 <= i < self.accounts@.len() ==> #[trigger] self.accounts@[i].id < self.next_id
    }

    pub fn new() -> (r: Self)
        ensures
            r.wf(),
            r.rows().len() == 0,
            !r.at_capacity(),
    {
        AccountRepository { accounts: Vec::new(), next_id: 0 }
    }

    /// The row with identifier `id`, if one is stored.
    pub fn get_by_id(&self, id: u64) -> (r: Option<AccountModel>)
        requires
            self.wf(),
        ensures
            match r {
                Some(a) => has_account_id(self.rows(), id) && account_eqv(
                    a,
                    account_of(self.rows(), id),
                ),
                None => !has_account_id(self.rows(), id),
            },
    {
        let mut i: usize = 0;
        while i < self.accounts.len()
            invariant
                self.wf(),
                0 <= i <= self.accounts@.len(),
                forall|k: int| 0 <= k < i ==> #[trigger] self.accounts@[k].id != id,
            decreases self.accounts@.len() - i,
        {
            if self.accounts[i].id == id {
                proof {
                    let rows = self.rows();
                    assert(has_account_id(rows, id));
                    let j = account_index(rows, id);
                    assert(rows[j].id == id);
                    if j < i as int {
                        assert(rows[j].id != rows[i as int].id);
                    } else if j > i as int {
                        assert(rows[i as int].id != rows[j].id);
                    }
                }
                return Some(self.accounts[i].clone());
            }
            i = i + 1;
        }
        None
    }

    /// The row with username `username`, if one is stored.
    pub fn get_by_username(&self, username: &str) -> (r: Option<AccountModel>)
        requires
            self.wf(),
        ensures
            match r {
                Some(a) => has_username(self.rows(), username@) && account_eqv(
                    a,
                    account_by_username(self.rows(), username@),
                ),
                None => !has_username(self.rows(), username@),
            },
    {
        let mut i: usize = 0;
        while i < self.accounts.len()
            invariant
                self.wf(),
                0 <= i <= self.accounts@.len(),
                forall|k: int| 0 <= k < i ==> #[trigger] self.accounts@[k].username@ != username@,
            decreases self.accounts@.len() - i,
        {
            if str_eq(self.accounts[i].username.as_str(), username) {
                proof {
                    let rows = self.rows();
                    assert(has_username(rows, username@));
                    let j = username_index(rows, username@);
                    assert(rows[j].username@ == username@);
                    if j < i as int {
                        assert(rows[j].username@ != rows[i as int].username@);
                    } else if j > i as int {
                        assert(rows[i as int].username@ != rows[j].username@);
                    }
                }
                return Some(self.accounts[i].clone());
            }
            i = i + 1;
        }
        None
    }

    /// Copies of all stored rows.
    pub fn get_all(&self) -> (r: Vec<AccountModel>)
        requires
            self.wf(),
        ensures
            r@.len() == self.rows().len(),
            forall|i: int| 0 <= i < r@.len() ==> account_eqv(#[trigger] r@[i], self.rows()[i]),
    {
        let mut out: Vec<AccountModel> = Vec::new();
        let mut i: usize = 0;
        while i < self.accounts.len()
            invariant
                0 <= i <= self.accounts@.len(),
                out@.len() == i,
                forall|k: int| 0 <= k < i ==> account_eqv(#[trigger] out@[k], self.accounts@[k]),
            decreases self.accounts@.len() - i,
        {
            out.push(self.accounts[i].clone());
            i = i + 1;
        }
        out
    }

    /// Persists a new row under a fresh identifier.  The caller has checked
    /// that the username is free; failure means the identifier space is
    /// exhausted, and then nothing changes.
    pub fn insert_account(&mut self, username: String, password_hash: String, now: u64) -> (r:
        Result<AccountModel, ()>)
        requires
            old(self).wf(),
            !has_username(old(self).rows(), username@),
        ensures
            final(self).wf(),
            match r {
                Ok(a) => {
                    &&& final(self).rows().len() == old(self).rows().len() + 1
                    &&& final(self).rows().drop_last() == old(self).rows()
                    &&& account_eqv(final(self).rows().last(), a)
                    &&& a.username@ == username@
                    &&& a.password@ == password_hash@
                    &&& a.created_at == now
                    &&& a.updated_at == now
                    &&& !has_account_id(old(self).rows(), a.id)
                },
                Err(_) => final(self).rows() == old(self).rows() && old(self).at_capacity(),
            },
            !old(self).at_capacity() ==> r is Ok,
    {
        if self.next_id == u64::MAX {
            return Err(());
        }
        let id = self.next_id;
        self.next_id = self.next_id + 1;
        let row = AccountModel {
            id,
            username,
            password: password_hash,
            created_at: now,
            updated_at: now,
        };
        let copy = row.clone();
        self.accounts.push(row);
        proof {
            assert(self.accounts@.drop_last() =~= old(self).accounts@);
        }
        Ok(copy)
    }

    /// Replaces the password hash of the row with identifier `id`, touching
    /// its update time; reports whether a row matched.
    pub fn update_password(&mut self, id: u64, new_hash: &str, now: u64) -> (r: bool)
        requires
            old(self).wf(),
        ensures
            final(self).wf(),
            r == has_account_id(old(self).rows(), id),
            final(self).rows().len() == old(self).rows().len(),
            forall|i: int|
                0 <= i < old(self).rows().len() && old(self).rows()[i].id != id ==> final(self).rows()[i] == old(self).rows()[i],
            forall|i: int|
                0 <= i < old(self).rows().len() && old(self).rows()[i].id == id ==> {
                    let n = #[trigger] final(self).rows()[i];
                    let o = old(self).rows()[i];
                    n.id == o.id && n.username@ == o.username@ && n.password@ == new_hash@
                        && n.created_at == o.created_at && n.updated_at == now
                },
    {
        let mut i: usize = 0;
        while i < self.accounts.len()
            invariant
                0 <= i <= self.accounts@.len(),
                self.accounts@ == old(self).accounts@,
                self.next_id == old(self).next_id,
                old(self).wf(),
                forall|k: int| 0 <= k < i ==> #[trigger] self.accounts@[k].id != id,
            decreases self.accounts@.len() - i,
        {
            if self.accounts[i].id == id {
                let mut row = self.accounts[i].clone();
                row.password = new_hash.to_owned();
                row.updated_at = now;
                self.accounts[i] = row;
                proof {
                    let oldrows = old(self).rows();
                    let newrows = self.accounts@;
                    assert(has_account_id(old(self).rows(), id));
                    assert forall|p: int, q: int| 0 <= p < q < newrows.len() implies
                        #[trigger] newrows[p].id != #[trigger] newrows[q].id && #[trigger] newrows[p].username@
                            != #[trigger] newrows[q].username@ by {
                        assert(oldrows[p].id != oldrows[q].id);
                        assert(oldrows[p].username@ != oldrows[q].username@);
                    }
                    assert forall|i2: int|
                        0 <= i2 < old(self).rows().len() && old(self).rows()[i2].id == id
                            && i2 != i as int implies false by {
                        if i2 < i as int {
                            assert(old(self).rows()[i2].id != old(self).rows()[i as int].id);
                        } else {
                            assert(old(self).rows()[i as int].id != old(self).rows()[i2].id);
                        }
                    }
                }
                return true;
            }
            i = i + 1;
        }
        false
    }

    /// Replaces the username of the row with identifier `id`, touching its
    /// update time; the caller has checked that the new username is free.
    /// Reports whether a row matched.
    pub fn update_username(&mut self, id: u64, new_username: &str, now: u64) -> (r: bool)
        requires
            old(self).wf(),
            !has_username(old(self).rows(), new_username@),
        ensures
            final(self).wf(),
            r == has_account_id(old(self).rows(), id),
            final(self).rows().len() == old(self).rows().len(),
            forall|i: int|
                0 <= i < old(self).rows().len() && old(self).rows()[i].id != id ==> final(self).rows()[i] == old(self).rows()[i],
            forall|i: int|
                0 <= i < old(self).rows().len() && old(self).rows()[i].id == id ==> {
                    let n = #[trigger] final(self).rows()[i];
                    let o = old(self).rows()[i];
                    n.id == o.id && n.username@ == new_username@ && n.password@ == o.password@
                        && n.created_at == o.created_at && n.updated_at == now
                },
    {
        let mut i: usize = 0;
        while i < self.accounts.len()
            invariant
                0 <= i <= self.accounts@.len(),
                self.accounts@ == old(self).accounts@,
                self.next_id == old(self).next_id,
                old(self).wf(),
                !has_username(old(self).rows(), new_username@),
                forall|k: int| 0 <= k < i ==> #[trigger] self.accounts@[k].id != id,
            decreases self.accounts@.len() - i,
        {
            if self.accounts[i].id == id {
                let mut row = self.accounts[i].clone();
                row.username = new_username.to_owned();
                row.updated_at = now;
                self.accounts[i] = row;
                proof {
                    let oldrows = old(self).rows();
                    let newrows = self.accounts@;
                    assert(has_account_id(oldrows, id));
                    assert forall|p: int, q: int| 0 <= p < q < newrows.len() implies
                        #[trigger] newrows[p].id != #[trigger] newrows[q].id && #[trigger] newrows[p].username@
                            != #[trigger] newrows[q].username@ by {
                        assert(oldrows[p].id != oldrows[q].id);
                        assert(oldrows[p].username@ != oldrows[q].username@);
                    }
                    assert forall|i2: int|
                        0 <= i2 < oldrows.len() && oldrows[i2].id == id && i2 != i as int
                            implies false by {
                        if i2 < i as int {
                            assert(oldrows[i2].id != oldrows[i as int].id);
                        } else {
                            assert(oldrows[i as int].id != oldrows[i2].id);
                        }
                    }
                }
                return true;
            }
            i = i + 1;
        }
        false
    }

    /// Removes the row with identifier `id`; removing an absent row is not
    /// an error.  Reports whether a row was removed.
    pub fn delete(&mut self, id: u64) -> (r: bool)
        requires
            old(self).wf(),
        ensures
            final(self).wf(),
            r == has_account_id(old(self).rows(), id),
            !has_account_id(final(self).rows(), id),
            has_account_id(old(self).rows(), id) ==> final(self).rows() == old(self).rows().remove(
                account_index(old(self).rows(), id),
            ),
            !has_account_id(old(self).rows(), id) ==> final(self).rows() == old(self).rows(),
    {
        let mut i: usize = 0;
        while i < self.accounts.len()
            invariant
                0 <= i <= self.accounts@.len(),
                self.accounts@ == old(self).accounts@,
                self.next_id == old(self).next_id,
                old(self).wf(),
                forall|k: int| 0 <= k < i ==> #[trigger] self.accounts@[k].id != id,
            decreases self.accounts@.len() - i,
        {
            if self.accounts[i].id == id {
                self.accounts.remove(i);
                proof {
                    let oldrows = old(self).rows();
                    assert(account_index(oldrows, id) == i as int);
                    assert forall|k: int|
                        0 <= k < self.accounts@.len() implies #[trigger] self.accounts@[k].id
                        != id by {
                        if k < i {
                            assert(self.accounts@[k] == oldrows[k]);
                        } else {
                            assert(self.accounts@[k] == oldrows[k + 1]);
                        }
                    }
                }
                return true;
            }
            i = i + 1;
        }
        false
    }
}

// ---------------------------------------------------------------------------
// Session rows
// ---------------------------------------------------------------------------

/// Field-wise equality of session rows.
pub open spec fn session_eqv(a: SessionModel, b: SessionModel) -> bool {
    &&& a.id == b.id
    &&& a.account_id == b.account_id
    &&& a.refresh_hash@ == b.refresh_hash@
    &&& a.created_at == b.created_at
    &&& a.expires_at == b.expires_at
    &&& a.is_active == b.is_active
    &&& a.ip_address@ == b.ip_address@
    &&& a.user_agent@ == b.user_agent@
}

/// Field-wise equality up to the active flag, which takes the given value.
pub open spec fn session_same_but_active(n: SessionModel, o: SessionModel, active: bool) -> bool {
    &&& n.id == o.id
    &&& n.account_id == o.account_id
    &&& n.refresh_hash@ == o.refresh_hash@
    &&& n.created_at == o.created_at
    &&& n.expires_at == o.expires_at
    &&& n.is_active == active
    &&& n.ip_address@ == o.ip_address@
    &&& n.user_agent@ == o.user_agent@
}

pub open spec fn has_session_id(rows: Seq<SessionModel>, id: u64) -> bool {
    exists|i: int| 0 <= i < rows.len() && rows[i].id == id
}

pub open spec fn session_index(rows: Seq<SessionModel>, id: u64) -> int {
    choose|i: int| 0 <= i < rows.len() && rows[i].id == id
}

/// The row holding `id`, meaningful when `has_session_id` holds.
pub open spec fn session_of(rows: Seq<SessionModel>, id: u64) -> SessionModel {
    rows[session_index(rows, id)]
}

pub open spec fn has_hash(rows: Seq<SessionModel>, hash: Seq<char>) -> bool {
    exists|i: int| 0 <= i < rows.len() && rows[i].refresh_hash@ == hash
}

pub open spec fn hash_index(rows: Seq<SessionModel>, hash: Seq<char>) -> int {
    choose|i: int| 0 <= i < rows.len() && rows[i].refresh_hash@ == hash
}

/// The row holding `hash`, meaningful when `has_hash` holds.
pub open spec fn session_by_hash(rows: Seq<SessionModel>, hash: Seq<char>) -> SessionModel {
    rows[hash_index(rows, hash)]
}

pub open spec fn has_account_session(rows: Seq<SessionModel>, account_id: u64) -> bool {
    exists|i: int| 0 <= i < rows.len() && rows[i].account_id == account_id
}

/// The storage invariant on session rows: identifiers are unique and at
/// most one row references a given refresh-token hash.
pub open spec fn sessions_wf(rows: Seq<SessionModel>) -> bool {
    &&& forall|i: int, j: int|
        0 <= i < j < rows.len() ==> #[trigger] rows[i].id != #[trigger] rows[j].id
    &&& forall|i: int, j: int|
        0 <= i < j < rows.len() ==> #[trigger] rows[i].refresh_hash@
            != #[trigger] rows[j].refresh_hash@
}

/// The list `v` holds exactly the rows of `rows` that belong to
/// `account_id`: each listed entry is such a row, every such row is
/// listed, and no row is listed twice.
pub open spec fn account_sessions_listed(
    v: Seq<SessionModel>,
    rows: Seq<SessionModel>,
    account_id: u64,
) -> bool {
    &&& forall|i: int|
        0 <= i < v.len() ==> #[trigger] v[i].account_id == account_id && exists|j: int|
            0 <= j < rows.len() && session_eqv(v[i], #[trigger] rows[j])
    &&& forall|j: int|
        0 <= j < rows.len() && #[trigger] rows[j].account_id == account_id ==> exists|i: int|
            0 <= i < v.len() && session_eqv(#[trigger] v[i], rows[j])
    &&& forall|i1: int, i2: int|
        0 <= i1 < i2 < v.len() ==> #[trigger] v[i1].id != #[trigger] v[i2].id
}

/// `newrows` is `oldrows` with every row of `account_id` removed.
pub open spec fn account_sessions_removed(
    newrows: Seq<SessionModel>,
    oldrows: Seq<SessionModel>,
    account_id: u64,
) -> bool {
    &&& !has_account_session(newrows, account_id)
    &&& forall|i: int|
        0 <= i < newrows.len() ==> #[trigger] newrows[i].account_id != account_id && exists|j: int|
            0 <= j < oldrows.len() && newrows[i] == #[trigger] oldrows[j]
    &&& forall|j: int|
        0 <= j < oldrows.len() && #[trigger] oldrows[j].account_id != account_id ==> exists|i: int|
            0 <= i < newrows.len() && #[trigger] newrows[i] == oldrows[j]
}

/// Session storage: rows plus the next never-used identifier.
pub struct SessionRepository {
    sessions: Vec<SessionModel>,
    next_id: u64,
}

impl SessionRepository {
    /// The stored rows.
    pub closed spec fn rows(&self) -> Seq<SessionModel> {
        self.sessions@
    }

    /// Whether the identifier space is exhausted.
    pub closed spec fn at_capacity(&self) -> bool {
        self.next_id == u64::MAX
    }

    /// The least identifier never handed out; identifiers are never reused,
    /// so every stored or previously stored identifier lies below it.
    pub closed spec fn id_bound(&self) -> u64 {
        self.next_id
    }

    /// Rows satisfy the storage invariant and no stored identifier has
    /// reached the next free one.
    pub closed spec fn wf(&self) -> bool {
        &&& sessions_wf(self.sessions@)
        &&& forall|i: int|
            0 <= i < self.sessions@.len() ==> #[trigger] self.sessions@[i].id < self.next_id
    }

    pub fn new() -> (r: Self)
        ensures
            r.wf(),
            r.rows().len() == 0,
            !r.at_capacity(),
    {
        SessionRepository { sessions: Vec::new(), next_id: 0 }
    }

    /// The row with identifier `id`, if one is stored.
    pub fn get_by_id(&self, id: u64) -> (r: Option<SessionModel>)
        requires
            self.wf(),
        ensures
            match r {
                Some(s) => has_session_id(self.rows(), id) && session_eqv(
                    s,
                    session_of(self.rows(), id),
                ),
                None => !has_session_id(self.rows(), id),
            },
    {
        let mut i: usize = 0;
        while i < self.sessions.len()
            invariant
                self.wf(),
                0 <= i <= self.sessions@.len(),
                forall|k: int| 0 <= k < i ==> #[trigger] self.sessions@[k].id != id,
            decreases self.sessions@.len() - i,
        {
            if self.sessions[i].id == id {
                proof {
                    let rows = self.rows();
                    assert(has_session_id(rows, id));
                    let j = session_index(rows, id);
                    assert(rows[j].id == id);
                    if j < i as int {
                        assert(rows[j].id != rows[i as int].id);
                    } else if j > i as int {
                        assert(rows[i as int].id != rows[j].id);
                    }
                }
                return Some(self.sessions[i].clone());
            }
            i = i + 1;
        }
        None
    }

    /// The row holding the given refresh-token hash, if one is stored.
    pub fn get_by_hash(&self, hash: &str) -> (r: Option<SessionModel>)
        requires
            self.wf(),
        ensures
            match r {
                Some(s) => has_hash(self.rows(), hash@) && session_eqv(
                    s,
                    session_by_hash(self.rows(), hash@),
                ),
                None => !has_hash(self.rows(), hash@),
            },
    {
        let mut i: usize = 0;
        while i < self.sessions.len()
            invariant
                self.wf(),
                0 <= i <= self.sessions@.len(),
                forall|k: int| 0 <= k < i ==> #[trigger] self.sessions@[k].refresh_hash@ != hash@,
            decreases self.sessions@.len() - i,
        {
            if str_eq(self.sessions[i].refresh_hash.as_str(), hash) {
                proof {
                    let rows = self.rows();
                    assert(has_hash(rows, hash@));
                    let j = hash_index(rows, hash@);
                    assert(rows[j].refresh_hash@ == hash@);
                    if j < i as int {
                        assert(rows[j].refresh_hash@ != rows[i as int].refresh_hash@);
                    } else if j > i as int {
                        assert(rows[i as int].refresh_hash@ != rows[j].refresh_hash@);
                    }
                }
                return Some(self.sessions[i].clone());
            }
            i = i + 1;
        }
        None
    }

    /// Copies of all stored rows.
    pub fn get_all(&self) -> (r: Vec<SessionModel>)
        requires
            self.wf(),
        ensures
            r@.len() == self.rows().len(),
            forall|i: int| 0 <= i < r@.len() ==> session_eqv(#[trigger] r@[i], self.rows()[i]),
    {
        let mut out: Vec<SessionModel> = Vec::new();
        let mut i: usize = 0;
        while i < self.sessions.len()
            invariant
                0 <= i <= self.sessions@.len(),
                out@.len() == i,
                forall|k: int| 0 <= k < i ==> session_eqv(#[trigger] out@[k], self.sessions@[k]),
            decreases self.sessions@.len() - i,
        {
            out.push(self.sessions[i].clone());
            i = i + 1;
        }
        out
    }

    /// Copies of the rows belonging to `account_id`, in storage order.
    pub fn list_for_account(&self, account_id: u64) -> (r: Vec<SessionModel>)
        requires
            self.wf(),
        ensures
            account_sessions_listed(r@, self.rows(), account_id),
    {
        let mut out: Vec<SessionModel> = Vec::new();
        let ghost mut src: Seq<int> = Seq::empty();
        let mut i: usize = 0;
        while i < self.sessions.len()
            invariant
                self.wf(),
                0 <= i <= self.sessions@.len(),
                src.len() == out@.len(),
                forall|k: int| 0 <= k < out@.len() ==> 0 <= #[trigger] src[k] < i,
                forall|k: int|
                    0 <= k < out@.len() ==> #[trigger] out@[k].id == self.sessions@[src[k]].id,
                forall|k1: int, k2: int|
                    0 <= k1 < k2 < out@.len() ==> #[trigger] src[k1] < #[trigger] src[k2],
                forall|k: int|
                    0 <= k < out@.len() ==> #[trigger] out@[k].account_id == account_id && exists|
                        j: int,
                    | 0 <= j < self.sessions@.len() && session_eqv(out@[k], #[trigger] self.sessions@[j]),
                forall|j: int|
                    0 <= j < i && #[trigger] self.sessions@[j].account_id == account_id ==> exists|
                        k: int,
                    | 0 <= k < out@.len() && session_eqv(#[trigger] out@[k], self.sessions@[j]),
            decreases self.sessions@.len() - i,
        {
            if self.sessions[i].account_id == account_id {
                let ghost prev = out@;
                out.push(self.sessions[i].clone());
                proof {
                    src = src.push(i as int);
                    assert(src[src.len() - 1] == i as int);
                    assert(out@[out@.len() - 1].id == self.sessions@[i as int].id);
                    assert(session_eqv(out@[out@.len() - 1], self.sessions@[i as int]));
                    assert forall|j: int|
                        0 <= j < i && #[trigger] self.sessions@[j].account_id == account_id
                            implies exists|k: int|
                            0 <= k < out@.len() && session_eqv(
                                #[trigger] out@[k],
                                self.sessions@[j],
                            ) by {
                        let k = choose|k: int|
                            0 <= k < prev.len() && session_eqv(#[trigger] prev[k], self.sessions@[j]);
                        assert(out@[k] == prev[k]);
                        assert(session_eqv(out@[k], self.sessions@[j]));
                    }
                }
            }
            i = i + 1;
        }
        proof {
            assert forall|k2: int|
                0 <= k2 < out@.len() implies exists|j: int|
                0 <= j < self.rows().len() && session_eqv(
                    #[trigger] out@[k2],
                    #[trigger] self.rows()[j],
                ) by {
                assert(out@[k2].account_id == account_id);
                let j = choose|j: int|
                    0 <= j < self.sessions@.len() && session_eqv(
                        out@[k2],
                        #[trigger] self.sessions@[j],
                    );
                assert(session_eqv(out@[k2], self.rows()[j]));
            }
        }
        out
    }

    /// Persists a new row under a fresh identifier.  Failure means either
    /// the unique index on the refresh-token hash rejected a duplicate, or
    /// the identifier space is exhausted; then nothing changes.
    pub fn insert_session(&mut self, options: CreateSessionOptions, now: u64) -> (r: Result<
        SessionModel,
        (),
    >)
        requires
            old(self).wf(),
        ensures
            final(self).wf(),
            match r {
                Ok(s) => {
                    &&& !has_hash(old(self).rows(), options.refresh_hash@)
                    &&& final(self).rows().len() == old(self).rows().len() + 1
                    &&& final(self).rows().drop_last() == old(self).rows()
                    &&& session_eqv(final(self).rows().last(), s)
                    &&& s.account_id == options.account_id
                    &&& s.refresh_hash@ == options.refresh_hash@
                    &&& s.created_at == now
                    &&& s.expires_at == options.expires_at
                    &&& s.is_active == options.is_active
                    &&& s.ip_address@ == options.ip_address@
                    &&& s.user_agent@ == options.user_agent@
                    &&& !has_session_id(old(self).rows(), s.id)
                    &&& s.id == old(self).id_bound()
                    &&& final(self).id_bound() == old(self).id_bound() + 1
                },
                Err(_) => final(self).rows() == old(self).rows() && final(self).id_bound() == old(
                    self,
                ).id_bound() && (has_hash(
                    old(self).rows(),
                    options.refresh_hash@,
                ) || old(self).at_capacity()),
            },
            !has_hash(old(self).rows(), options.refresh_hash@) && !old(self).at_capacity()
                ==> r is Ok,
    {
        if self.next_id == u64::MAX {
            return Err(());
        }
        let mut i: usize = 0;
        while i < self.sessions.len()
            invariant
                old(self).wf(),
                0 <= i <= self.sessions@.len(),
                self.sessions@ == old(self).sessions@,
                self.next_id == old(self).next_id,
                forall|k: int|
                    0 <= k < i ==> #[trigger] self.sessions@[k].refresh_hash@
                        != options.refresh_hash@,
            decreases self.sessions@.len() - i,
        {
            if str_eq(self.sessions[i].refresh_hash.as_str(), options.refresh_hash.as_str()) {
                return Err(());
            }
            i = i + 1;
        }
        let id = self.next_id;
        self.next_id = self.next_id + 1;
        let row = SessionModel {
            id,
            account_id: options.account_id,
            refresh_hash: options.refresh_hash,
            created_at: now,
            expires_at: options.expires_at,
            is_active: options.is_active,
            ip_address: options.ip_address,
            user_agent: options.user_agent,
        };
        let copy = row.clone();
        self.sessions.push(row);
        proof {
            assert(self.sessions@.drop_last() =~= old(self).sessions@);
        }
        Ok(copy)
    }

    /// Sets the active flag of the row with identifier `id`; reports
    /// whether a row matched.
    pub fn set_active(&mut self, id: u64, active: bool) -> (r: bool)
        requires
            old(self).wf(),
        ensures
            final(self).wf(),
            final(self).id_bound() == old(self).id_bound(),
            r == has_session_id(old(self).rows(), id),
            final(self).rows().len() == old(self).rows().len(),
            forall|i: int|
                0 <= i < old(self).rows().len() && old(self).rows()[i].id != id ==> final(self).rows()[i] == old(self).rows()[i],
            forall|i: int|
                0 <= i < old(self).rows().len() && old(self).rows()[i].id == id
                    ==> session_same_but_active(
                    #[trigger] final(self).rows()[i],
                    old(self).rows()[i],
                    active,
                ),
    {
        let mut i: usize = 0;
        while i < self.sessions.len()
            invariant
                0 <= i <= self.sessions@.len(),
                self.sessions@ == old(self).sessions@,
                self.next_id == old(self).next_id,
                old(self).wf(),
                forall|k: int| 0 <= k < i ==> #[trigger] self.sessions@[k].id != id,
            decreases self.sessions@.len() - i,
        {
            if self.sessions[i].id == id {
                let mut row = self.sessions[i].clone();
                row.is_active = active;
                self.sessions[i] = row;
                proof {
                    let oldrows = old(self).rows();
                    let newrows = self.sessions@;
                    assert(has_session_id(oldrows, id));
                    assert forall|p: int, q: int| 0 <= p < q < newrows.len() implies
                        #[trigger] newrows[p].id != #[trigger] newrows[q].id && #[trigger] newrows[p].refresh_hash@
                            != #[trigger] newrows[q].refresh_hash@ by {
                        assert(oldrows[p].id != oldrows[q].id);
                        assert(oldrows[p].refresh_hash@ != oldrows[q].refresh_hash@);
                    }
                    assert forall|i2: int|
                        0 <= i2 < oldrows.len() && oldrows[i2].id == id && i2 != i as int
                            implies false by {
                        if i2 < i as int {
                            assert(oldrows[i2].id != oldrows[i as int].id);
                        } else {
                            assert(oldrows[i as int].id != oldrows[i2].id);
                        }
                    }
                }
                return true;
            }
            i = i + 1;
        }
        false
    }

    /// Sets the active flag of the row with identifier `session_id` only if
    /// it belongs to `account_id`; reports whether such a row matched.
    pub fn set_active_for_account(&mut self, session_id: u64, account_id: u64, active: bool) -> (r:
        bool)
        requires
            old(self).wf(),
        ensures
            final(self).wf(),
            final(self).id_bound() == old(self).id_bound(),
            r == exists|i: int|
                0 <= i < old(self).rows().len() && #[trigger] old(self).rows()[i].id == session_id
                    && old(self).rows()[i].account_id == account_id,
            final(self).rows().len() == old(self).rows().len(),
            forall|i: int|
                0 <= i < old(self).rows().len() && !(old(self).rows()[i].id == session_id && old(self).rows()[i].account_id == account_id) ==> final(self).rows()[i] == old(self).rows()[i],
            forall|i: int|
                0 <= i < old(self).rows().len() && old(self).rows()[i].id == session_id && old(self).rows()[i].account_id == account_id ==> session_same_but_active(
                    #[trigger] final(self).rows()[i],
                    old(self).rows()[i],
                    active,
                ),
    {
        let mut i: usize = 0;
        while i < self.sessions.len()
            invariant
                0 <= i <= self.sessions@.len(),
                self.sessions@ == old(self).sessions@,
                self.next_id == old(self).next_id,
                old(self).wf(),
                forall|k: int|
                    0 <= k < i ==> !(#[trigger] self.sessions@[k].id == session_id
                        && self.sessions@[k].account_id == account_id),
            decreases self.sessions@.len() - i,
        {
            if self.sessions[i].id == session_id && self.sessions[i].account_id == account_id {
                let mut row = self.sessions[i].clone();
                row.is_active = active;
                self.sessions[i] = row;
                proof {
                    let oldrows = old(self).rows();
                    let newrows = self.sessions@;
                    assert forall|p: int, q: int| 0 <= p < q < newrows.len() implies
                        #[trigger] newrows[p].id != #[trigger] newrows[q].id && #[trigger] newrows[p].refresh_hash@
                            != #[trigger] newrows[q].refresh_hash@ by {
                        assert(oldrows[p].id != oldrows[q].id);
                        assert(oldrows[p].refresh_hash@ != oldrows[q].refresh_hash@);
                    }
                    assert forall|i2: int|
                        0 <= i2 < oldrows.len() && oldrows[i2].id == session_id && i2 != i as int
                            implies false by {
                        if i2 < i as int {
                            assert(oldrows[i2].id != oldrows[i as int].id);
                        } else {
                            assert(oldrows[i as int].id != oldrows[i2].id);
                        }
                    }
                }
                return true;
            }
            i = i + 1;
        }
        false
    }

    /// Sets the active flag of every row belonging to `account_id`;
    /// reports whether any row matched.
    pub fn set_active_all_for_account(&mut self, account_id: u64, active: bool) -> (r: bool)
        requires
            old(self).wf(),
        ensures
            final(self).wf(),
            final(self).id_bound() == old(self).id_bound(),
            r == has_account_session(old(self).rows(), account_id),
            final(self).rows().len() == old(self).rows().len(),
            forall|i: int|
                0 <= i < old(self).rows().len() && old(self).rows()[i].account_id != account_id
                    ==> final(self).rows()[i] == old(self).rows()[i],
            forall|i: int|
                0 <= i < old(self).rows().len() && old(self).rows()[i].account_id == account_id
                    ==> session_same_but_active(
                    #[trigger] final(self).rows()[i],
                    old(self).rows()[i],
                    active,
                ),
    {
        let mut touched = false;
        let mut i: usize = 0;
        while i < self.sessions.len()
            invariant
                0 <= i <= self.sessions@.len(),
                self.sessions@.len() == old(self).sessions@.len(),
                self.next_id == old(self).next_id,
                old(self).wf(),
                touched == exists|k: int|
                    0 <= k < i && #[trigger] old(self).sessions@[k].account_id == account_id,
                forall|k: int|
                    i <= k < self.sessions@.len() ==> #[trigger] self.sessions@[k] == old(self).sessions@[k],
                forall|k: int|
                    0 <= k < i && old(self).sessions@[k].account_id != account_id
                        ==> #[trigger] self.sessions@[k] == old(self).sessions@[k],
                forall|k: int|
                    0 <= k < i && old(self).sessions@[k].account_id == account_id
                        ==> session_same_but_active(
                        #[trigger] self.sessions@[k],
                        old(self).sessions@[k],
                        active,
                    ),
            decreases self.sessions@.len() - i,
        {
            if self.sessions[i].account_id == account_id {
                let mut row = self.sessions[i].clone();
                row.is_active = active;
                self.sessions[i] = row;
                touched = true;
            }
            i = i + 1;
        }
        proof {
            let oldrows = old(self).rows();
            let newrows = self.sessions@;
            assert forall|k: int|
                0 <= k < newrows.len() implies #[trigger] newrows[k].id == oldrows[k].id
                && newrows[k].refresh_hash@ == oldrows[k].refresh_hash@ by {
                if oldrows[k].account_id == account_id {
                    assert(session_same_but_active(newrows[k], oldrows[k], active));
                } else {
                    assert(newrows[k] == oldrows[k]);
                }
            }
            assert forall|p: int, q: int|
                0 <= p < q < newrows.len() implies #[trigger] newrows[p].id
                != #[trigger] newrows[q].id && #[trigger] newrows[p].refresh_hash@
                != #[trigger] newrows[q].refresh_hash@ by {
                assert(oldrows[p].id != oldrows[q].id);
                assert(oldrows[p].refresh_hash@ != oldrows[q].refresh_hash@);
            }
        }
        touched
    }

    /// Removes the row with identifier `id`; removing an absent row is not
    /// an error.  Reports whether a row was removed.
    pub fn delete(&mut self, id: u64) -> (r: bool)
        requires
            old(self).wf(),
        ensures
            final(self).wf(),
            final(self).id_bound() == old(self).id_bound(),
            r == has_session_id(old(self).rows(), id),
            !has_session_id(final(self).rows(), id),
            has_session_id(old(self).rows(), id) ==> final(self).rows() == old(self).rows().remove(
                session_index(old(self).rows(), id),
            ),
            !has_session_id(old(self).rows(), id) ==> final(self).rows() == old(self).rows(),
    {
        let mut i: usize = 0;
        while i < self.sessions.len()
            invariant
                0 <= i <= self.sessions@.len(),
                self.sessions@ == old(self).sessions@,
                self.next_id == old(self).next_id,
                old(self).wf(),
                forall|k: int| 0 <= k < i ==> #[trigger] self.sessions@[k].id != id,
            decreases self.sessions@.len() - i,
        {
            if self.sessions[i].id == id {
                self.sessions.remove(i);
                proof {
                    let oldrows = old(self).rows();
                    assert(session_index(oldrows, id) == i as int);
                    assert forall|k: int|
                        0 <= k < self.sessions@.len() implies #[trigger] self.sessions@[k].id
                        != id by {
                        if k < i {
                            assert(self.sessions@[k] == oldrows[k]);
                        } else {
                            assert(self.sessions@[k] == oldrows[k + 1]);
                        }
                    }
                }
                return true;
            }
            i = i + 1;
        }
        false
    }

    /// Removes every row belonging to `account_id`; the surviving rows are
    /// exactly the rows of other accounts.
    pub fn delete_all_for_account(&mut self, account_id: u64)
        requires
            old(self).wf(),
        ensures
            final(self).wf(),
            final(self).id_bound() == old(self).id_bound(),
            account_sessions_removed(final(self).rows(), old(self).rows(), account_id),
    {
        let ghost oldrows = self.sessions@;
        let ghost oldnext = self.next_id;
        let total = self.sessions.len();
        proof {
            assert(oldrows.len() == total);
        }
        let mut kept: Vec<SessionModel> = Vec::new();
        let ghost mut src: Seq<int> = Seq::empty();
        let ghost mut dst: Seq<int> = Seq::empty();
        let mut taken: usize = 0;
        while self.sessions.len() > 0
            invariant
                oldrows.len() <= usize::MAX,
                taken + self.sessions@.len() == oldrows.len(),
                self.sessions@ =~= oldrows.skip(taken as int),
                self.next_id == oldnext,
                sessions_wf(oldrows),
                forall|j: int| 0 <= j < oldrows.len() ==> #[trigger] oldrows[j].id < oldnext,
                src.len() == kept@.len(),
                dst.len() == taken,
                forall|k: int| 0 <= k < kept@.len() ==> 0 <= #[trigger] src[k] < taken,
                forall|k: int| 0 <= k < kept@.len() ==> #[trigger] kept@[k] == oldrows[src[k]],
                forall|k: int|
                    0 <= k < kept@.len() ==> #[trigger] kept@[k].account_id != account_id,
                forall|k1: int, k2: int|
                    0 <= k1 < k2 < kept@.len() ==> #[trigger] src[k1] < #[trigger] src[k2],
                forall|j: int|
                    0 <= j < taken && #[trigger] oldrows[j].account_id != account_id ==> 0
                        <= dst[j] < kept@.len() && kept@[dst[j]] == oldrows[j],
            decreases self.sessions@.len(),
        {
            let s = self.sessions.remove(0);
            proof {
                assert(oldrows.skip(taken as int)[0] == oldrows[taken as int]);
                assert(s == oldrows[taken as int]);
                assert(self.sessions@ =~= oldrows.skip(taken as int + 1));
            }
            if s.account_id != account_id {
                kept.push(s);
                proof {
                    src = src.push(taken as int);
                    dst = dst.push(kept@.len() - 1);
                    assert(kept@[kept@.len() - 1] == oldrows[taken as int]);
                    assert(src[src.len() - 1] == taken as int);
                    assert(dst[dst.len() - 1] == kept@.len() - 1);
                }
            } else {
                proof {
                    dst = dst.push(-1);
                }
            }
            taken = taken + 1;
        }
        let ghost keptv = kept@;
        self.sessions = kept;
        proof {
            assert(self.sessions@ == keptv);
            assert(taken == oldrows.len());
            assert forall|i2: int|
                0 <= i2 < self.sessions@.len() implies #[trigger] self.sessions@[i2].account_id
                != account_id by {
                assert(keptv[i2].account_id != account_id);
            }
            assert forall|i2: int| #![trigger self.sessions@[i2]]
                0 <= i2 < self.sessions@.len() implies exists|j: int|
                0 <= j < old(self).rows().len() && self.sessions@[i2] == #[trigger] old(
                    self,
                ).rows()[j] by {
                let j = src[i2];
                assert(self.sessions@[i2] == old(self).rows()[j]);
            }
            assert forall|j: int|
                0 <= j < old(self).rows().len() && #[trigger] old(self).rows()[j].account_id
                != account_id implies exists|i2: int|
                0 <= i2 < self.sessions@.len() && #[trigger] self.sessions@[i2] == old(
                    self,
                ).rows()[j] by {
                let i2 = dst[j];
                assert(self.sessions@[i2] == old(self).rows()[j]);
            }
            assert forall|p: int, q: int|
                0 <= p < q < self.sessions@.len() implies #[trigger] self.sessions@[p].id
                != #[trigger] self.sessions@[q].id && #[trigger] self.sessions@[p].refresh_hash@
                != #[trigger] self.sessions@[q].refresh_hash@ by {
                assert(src[p] < src[q]);
                assert(self.sessions@[p] == oldrows[src[p]]);
                assert(self.sessions@[q] == oldrows[src[q]]);
                assert(oldrows[src[p]].id != oldrows[src[q]].id);
                assert(oldrows[src[p]].refresh_hash@ != oldrows[src[q]].refresh_hash@);
            }
            assert forall|k: int|
                0 <= k < self.sessions@.len() implies #[trigger] self.sessions@[k].id
                < self.next_id by {
                assert(self.sessions@[k] == oldrows[src[k]]);
                assert(oldrows[src[k]].id < oldnext);
            }
        }
    }
}

/// The stored session rows satisfy the storage invariant.
pub proof fn lemma_sessions_rows_wf(repo: &SessionRepository)
    requires
        repo.wf(),
    ensures
        sessions_wf(repo.rows()),
{
}

/// The stored account rows satisfy the storage invariant.
pub proof fn lemma_accounts_rows_wf(repo: &AccountRepository)
    requires
        repo.wf(),
    ensures
        accounts_wf(repo.rows()),
{
}

/// Every stored session identifier lies below the repository's bound.
pub proof fn lemma_session_ids_bounded(repo: &SessionRepository)
    requires
        repo.wf(),
    ensures
        forall|i: int|
            0 <= i < repo.rows().len() ==> #[trigger] repo.rows()[i].id < repo.id_bound(),
{
}

} // verus!
