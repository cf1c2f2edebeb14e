use vstd::prelude::*;

verus! {

/// The mathematical content of one user row: the numeric id, the stored
/// password hash, and the logged-in flag. The username is not repeated here
/// because the table view uses it as the key.
pub ghost struct UserModel {
    pub id: int,
    pub hash: Seq<char>,
    pub logged_in: bool,
}

/// A [`UserModel`] with its logged-in flag replaced.
pub open spec fn with_logged_in(m: UserModel, logged_in: bool) -> UserModel {
    UserModel { id: m.id, hash: m.hash, logged_in }
}

/// One row of the `users` table.
pub struct UserRow {
    pub id: u64,
    pub username: String,
    pub password_hash: String,
    pub logged_in: bool,
}

impl UserRow {
    pub open spec fn model(self) -> UserModel {
        UserModel { id: self.id as int, hash: self.password_hash@, logged_in: self.logged_in }
    }
}

/// The failure of the credential store. The only constraint the store
/// enforces is username uniqueness; the error detail is surfaced to clients
/// inside the registration failure message.
#[derive(Clone, Copy, Debug, PartialEq, Eq, Structural)]
pub enum StoreError {
    DuplicateUsername,
}

impl StoreError {
    /// The error detail as a client sees it.
    pub open spec fn detail_spec(self) -> Seq<char> {
        "username is already taken"@
    }

    pub fn detail(&self) -> (r: String)
        ensures
            r@ == self.detail_spec(),
    {
        String::from_str("username is already taken")
    }
}

/// The credential store: the `users` table, held as a vector of rows and
/// viewed as a map from username to [`UserModel`]. Well-formed tables have
/// pairwise distinct usernames, and each row's id is its position, the way an
/// auto-incrementing key leaves a table that never deletes.
pub struct UsersTable {
    rows: Vec<UserRow>,
}

impl View for UsersTable {
    type V = Map<Seq<char>, UserModel>;

    closed spec fn view(&self) -> Map<Seq<char>, UserModel> {
        Map::new(
            |u: Seq<char>| self.contains_username(u),
            |u: Seq<char>| self.rows@[self.index_of(u)].model(),
        )
    }
}

impl UsersTable {
    /// Whether row `i` exists and carries username `u`.
    spec fn matches_at(self, u: Seq<char>, i: int) -> bool {
        0 <= i < self.rows@.len() && self.rows@[i].username@ == u
    }

    /// Whether some row carries username `u`.
    pub closed spec fn contains_username(self, u: Seq<char>) -> bool {
        exists|i: int| self.matches_at(u, i)
    }

    spec fn index_of(self, u: Seq<char>) -> int {
        choose|i: int| self.matches_at(u, i)
    }

    /// Usernames are pairwise distinct and each row's id is its position.
    pub closed spec fn wf(self) -> bool {
        &&& (forall|i: int, j: int|
            0 <= i < self.rows@.len() && 0 <= j < self.rows@.len() && i != j
                ==> self.rows@[i].username@ != self.rows@[j].username@)
        &&& (forall|i: int|
            0 <= i < self.rows@.len() ==> (#[trigger] self.rows@[i]).id as int == i)
    }

    proof fn lemma_view_dom(self, u: Seq<char>)
        ensures
            self@.contains_key(u) <==> self.contains_username(u),
    {
    }

    proof fn lemma_view_at(self, i: int)
        requires
            self.wf(),
            0 <= i < self.rows@.len(),
        ensures
            self@.contains_key(self.rows@[i].username@),
            self@[self.rows@[i].username@] == self.rows@[i].model(),
    {
        let u = self.rows@[i].username@;
        assert(self.matches_at(u, i));
        self.lemma_view_dom(u);
        let j = self.index_of(u);
        assert(self.matches_at(u, j));
        assert(j == i);
    }

    proof fn lemma_push_row(pre: Self, post: Self, row: UserRow)
        requires
            pre.wf(),
            !pre.contains_username(row.username@),
            row.id as int == pre.rows@.len(),
            post.rows@ == pre.rows@.push(row),
        ensures
            post.wf(),
            post@ == pre@.insert(row.username@, row.model()),
    {
        let u = row.username@;
        let n = pre.rows@.len() as int;
        assert forall|i: int, j: int|
            0 <= i < post.rows@.len() && 0 <= j < post.rows@.len() && i != j
                implies post.rows@[i].username@ != post.rows@[j].username@ by {
            if i < n && j < n {
                assert(pre.rows@[i].username@ != pre.rows@[j].username@);
            } else if i == n {
                assert(post.rows@[i] == row);
                assert(!pre.matches_at(u, j));
            } else {
                assert(post.rows@[j] == row);
                assert(!pre.matches_at(u, i));
            }
        }
        assert forall|i: int| 0 <= i < post.rows@.len()
            implies (#[trigger] post.rows@[i]).id as int == i by {
            if i < n {
                assert(post.rows@[i] == pre.rows@[i]);
            } else {
                assert(post.rows@[i] == row);
            }
        }
        let target = pre@.insert(u, row.model());
        assert forall|k: Seq<char>| post@.contains_key(k) <==> #[trigger] target.contains_key(k) by {
            post.lemma_view_dom(k);
            pre.lemma_view_dom(k);
            if k == u {
                assert(post.matches_at(u, n));
            } else {
                if post.contains_username(k) {
                    let i = choose|i: int| post.matches_at(k, i);
                    assert(post.matches_at(k, i));
                    assert(i < n);
                    assert(pre.matches_at(k, i));
                }
                if pre.contains_username(k) {
                    let i = choose|i: int| pre.matches_at(k, i);
                    assert(pre.matches_at(k, i));
                    assert(post.matches_at(k, i));
                }
            }
        }
        assert forall|k: Seq<char>| post@.contains_key(k) implies post@[k] == target[k] by {
            post.lemma_view_dom(k);
            pre.lemma_view_dom(k);
            if k == u {
                post.lemma_view_at(n);
            } else {
                let i = choose|i: int| post.matches_at(k, i);
                assert(post.matches_at(k, i));
                assert(i < n);
                post.lemma_view_at(i);
                assert(pre.matches_at(k, i));
                pre.lemma_view_at(i);
            }
        }
        assert(post@ =~= target);
    }

    proof fn lemma_set_flag(pre: Self, post: Self, i: int, flag: bool)
        requires
            pre.wf(),
            0 <= i < pre.rows@.len(),
            post.rows@.len() == pre.rows@.len(),
            post.rows@[i].id == pre.rows@[i].id,
            post.rows@[i].username == pre.rows@[i].username,
            post.rows@[i].password_hash == pre.rows@[i].password_hash,
            post.rows@[i].logged_in == flag,
            forall|j: int| 0 <= j < pre.rows@.len() && j != i
                ==> post.rows@[j] == pre.rows@[j],
        ensures
            post.wf(),
            post@ == pre@.insert(
                pre.rows@[i].username@,
                with_logged_in(pre.rows@[i].model(), flag),
            ),
    {
        let u = pre.rows@[i].username@;
        let n = pre.rows@.len() as int;
        assert forall|a: int| 0 <= a < post.rows@.len()
            implies (#[trigger] post.rows@[a]).username@ == pre.rows@[a].username@
                && post.rows@[a].id == pre.rows@[a].id by {
            if a != i {
                assert(post.rows@[a] == pre.rows@[a]);
            }
        }
        assert(post.wf());
        let target = pre@.insert(u, with_logged_in(pre.rows@[i].model(), flag));
        assert forall|k: Seq<char>| post@.contains_key(k) <==> #[trigger] target.contains_key(k) by {
            post.lemma_view_dom(k);
            pre.lemma_view_dom(k);
            if post.contains_username(k) {
                let a = choose|a: int| post.matches_at(k, a);
                assert(post.matches_at(k, a));
                assert(pre.matches_at(k, a));
            }
            if pre.contains_username(k) {
                let a = choose|a: int| pre.matches_at(k, a);
                assert(pre.matches_at(k, a));
                assert(post.matches_at(k, a));
            }
            if k == u {
                assert(pre.matches_at(u, i));
            }
        }
        assert forall|k: Seq<char>| post@.contains_key(k) implies post@[k] == target[k] by {
            post.lemma_view_dom(k);
            pre.lemma_view_dom(k);
            let a = choose|a: int| post.matches_at(k, a);
            assert(post.matches_at(k, a));
            post.lemma_view_at(a);
            assert(pre.matches_at(k, a));
            pre.lemma_view_at(a);
            if k == u {
                assert(a == i);
            } else {
                assert(a != i);
                assert(post.rows@[a] == pre.rows@[a]);
            }
        }
        assert(post@ =~= target);
    }

    /// An empty table, as the schema bootstrap leaves it on first start.
    pub fn new() -> (r: Self)
        ensures
            r.wf(),
            r@ == Map::<Seq<char>, UserModel>::empty(),
    {
        let r = UsersTable { rows: Vec::new() };
        proof {
            assert forall|u: Seq<char>| !(#[trigger] r@.contains_key(u)) by {
                r.lemma_view_dom(u);
                assert(forall|i: int| !r.matches_at(u, i));
            }
            assert(r@ =~= Map::<Seq<char>, UserModel>::empty());
        }
        r
    }

    /// `SELECT id, password FROM users WHERE username = ?`: the row for a
    /// username, if one exists.
    pub fn find_user(&self, username: &String) -> (r: Option<(u64, String)>)
        requires
            self.wf(),
        ensures
            (match r {
                Option::None => !self@.contains_key(username@),
                Option::Some(p) => self@.contains_key(username@)
                    && p.0 as int == self@[username@].id
                    && p.1@ == self@[username@].hash,
            }),
    {
        let n = self.rows.len();
        let mut i: usize = 0;
        while i < n
            invariant
                n == self.rows@.len(),
                i <= n,
                self.wf(),
                forall|j: int| 0 <= j < i ==> self.rows@[j].username@ != username@,
            decreases n - i,
        {
            if self.rows[i].username == *username {
                proof {
                    self.lemma_view_at(i as int);
                }
                return Some((self.rows[i].id, self.rows[i].password_hash.clone()));
            }
            i += 1;
        }
        proof {
            self.lemma_view_dom(username@);
            assert(forall|j: int| !self.matches_at(username@, j));
        }
        None
    }

    /// `INSERT INTO users (username, password, logged_in) VALUES (?, ?, 0)`:
    /// adds a fresh user with the logged-in flag off, or rejects a username
    /// that is already taken, leaving the table untouched.
    pub fn insert_user(&mut self, username: String, password_hash: String) -> (r: Result<
        u64,
        StoreError,
    >)
        requires
            old(self).wf(),
        ensures
            final(self).wf(),
            (match r {
                Result::Err(e) => e == StoreError::DuplicateUsername
                    && old(self)@.contains_key(username@)
                    && *final(self) == *old(self),
                Result::Ok(id) => !old(self)@.contains_key(username@)
                    && final(self)@ == old(self)@.insert(
                        username@,
                        (UserModel { id: id as int, hash: password_hash@, logged_in: false }),
                    ),
            }),
    {
        let ghost u = username@;
        let n = self.rows.len();
        let mut i: usize = 0;
        while i < n
            invariant
                n == self.rows@.len(),
                i <= n,
                self.wf(),
                *self == *old(self),
                forall|j: int| 0 <= j < i ==> self.rows@[j].username@ != u,
                username@ == u,
            decreases n - i,
        {
            if self.rows[i].username == username {
                proof {
                    self.lemma_view_at(i as int);
                }
                return Err(StoreError::DuplicateUsername);
            }
            i += 1;
        }
        proof {
            self.lemma_view_dom(u);
            assert(forall|j: int| !self.matches_at(u, j));
        }
        let ghost pre = *self;
        let id = self.rows.len() as u64;
        let row = UserRow { id, username, password_hash, logged_in: false };
        let ghost grow = row;
        self.rows.push(row);
        proof {
            Self::lemma_push_row(pre, *self, grow);
        }
        Ok(id)
    }

    /// `UPDATE users SET logged_in = 1 WHERE id = ?`: turns the logged-in
    /// flag on for the row with the given id; an id that matches no row
    /// changes nothing.
    pub fn mark_logged_in(&mut self, id: u64)
        requires
            old(self).wf(),
        ensures
            final(self).wf(),
            final(self)@.dom() == old(self)@.dom(),
            forall|u: Seq<char>| old(self)@.contains_key(u) ==> #[trigger] final(self)@[u] == (
                if old(self)@[u].id == id as int {
                    with_logged_in(old(self)@[u], true)
                } else {
                    old(self)@[u]
                }),
            forall|u: Seq<char>|
                old(self)@.contains_key(u) && (#[trigger] old(self)@[u]).id == id as int
                    ==> final(self)@ == old(self)@.insert(u, with_logged_in(old(self)@[u], true)),
    {
        let n = self.rows.len();
        if id < n as u64 {
            let i = id as usize;
            let ghost pre = *self;
            self.rows[i].logged_in = true;
            proof {
                Self::lemma_set_flag(pre, *self, i as int, true);
                let w = pre.rows@[i as int].username@;
                pre.lemma_view_at(i as int);
                assert forall|u: Seq<char>| pre@.contains_key(u) implies #[trigger] self@[u] == (
                    if pre@[u].id == id as int {
                        with_logged_in(pre@[u], true)
                    } else {
                        pre@[u]
                    }) by {
                    pre.lemma_view_dom(u);
                    let a = choose|a: int| pre.matches_at(u, a);
                    assert(pre.matches_at(u, a));
                    pre.lemma_view_at(a);
                    if u == w {
                        assert(a == i as int);
                    } else {
                        assert(a != i as int);
                    }
                }
                assert(self@.dom() =~= pre@.dom());
                assert forall|u: Seq<char>|
                    pre@.contains_key(u) && (#[trigger] pre@[u]).id == id as int
                        implies self@ == pre@.insert(u, with_logged_in(pre@[u], true)) by {
                    pre.lemma_view_dom(u);
                    let a = choose|a: int| pre.matches_at(u, a);
                    assert(pre.matches_at(u, a));
                    pre.lemma_view_at(a);
                    assert(a == i as int);
                    assert(u == w);
                }
            }
        } else {
            proof {
                assert forall|u: Seq<char>| old(self)@.contains_key(u)
                    implies (#[trigger] old(self)@[u]).id != id as int by {
                    old(self).lemma_view_dom(u);
                    let a = choose|a: int| old(self).matches_at(u, a);
                    assert(old(self).matches_at(u, a));
                    old(self).lemma_view_at(a);
                }
            }
        }
    }

    /// `UPDATE users SET logged_in = 0 WHERE username = ?`: turns the
    /// logged-in flag off for the row with the given username and reports how
    /// many rows were affected; an unknown username affects zero rows and
    /// changes nothing.
    pub fn logout_by_username(&mut self, username: &String) -> (r: u64)
        requires
            old(self).wf(),
        ensures
            final(self).wf(),
            (if old(self)@.contains_key(username@) {
                r == 1 && final(self)@ == old(self)@.insert(
                    username@,
                    with_logged_in(old(self)@[username@], false),
                )
            } else {
                r == 0 && *final(self) == *old(self)
            }),
    {
        let n = self.rows.len();
        let mut i: usize = 0;
        while i < n
            invariant
                n == self.rows@.len(),
                i <= n,
                self.wf(),
                *self == *old(self),
                forall|j: int| 0 <= j < i ==> self.rows@[j].username@ != username@,
            decreases n - i,
        {
            if self.rows[i].username == *username {
                let ghost pre = *self;
                self.rows[i].logged_in = false;
                proof {
                    Self::lemma_set_flag(pre, *self, i as int, false);
                    pre.lemma_view_at(i as int);
                }
                return 1;
            }
            i += 1;
        }
        proof {
            self.lemma_view_dom(username@);
            assert(forall|j: int| !self.matches_at(username@, j));
        }
        0
    }
}

} // verus!
