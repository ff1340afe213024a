//! The in-memory user record store: per-user preferences and gift
//! history, keyed by user id, with an explicit sweep for inactive users.
//! Time enters as a caller-supplied clock value in seconds.

use vstd::prelude::*;
use crate::error::ChatError;
use crate::text::str_eq;

verus! {

/// A user's gift preferences.
#[derive(Debug)]
pub struct UserPreference {
    pub preferred_categories: Vec<String>,
    pub excluded_categories: Vec<String>,
    pub min_price: Option<u64>,
    pub max_price: Option<u64>,
    pub last_updated: u64,
}

/// One gift the user gave, and to whom.
#[derive(Debug)]
pub struct GiftHistory {
    pub gift_name: String,
    pub recipient: String,
    pub price: u64,
    pub date: u64,
    pub occasion: String,
}

/// Everything the store knows of one user.
#[derive(Debug)]
pub struct UserRecord {
    pub user_id: String,
    pub preferences: UserPreference,
    pub gift_history: Vec<GiftHistory>,
    pub created_at: u64,
    pub last_active: u64,
}

/// Preferences equal in everything observable.
pub open spec fn pref_eq(a: UserPreference, b: UserPreference) -> bool {
    &&& a.preferred_categories@ == b.preferred_categories@
    &&& a.excluded_categories@ == b.excluded_categories@
    &&& a.min_price == b.min_price
    &&& a.max_price == b.max_price
    &&& a.last_updated == b.last_updated
}

/// Records equal in everything observable.
pub open spec fn rec_eq(a: UserRecord, b: UserRecord) -> bool {
    &&& a.user_id@ == b.user_id@
    &&& pref_eq(a.preferences, b.preferences)
    &&& a.gift_history@ == b.gift_history@
    &&& a.created_at == b.created_at
    &&& a.last_active == b.last_active
}

/// A record as `create_user` makes it at time `now`.
pub open spec fn is_fresh_record(r: UserRecord, uid: Seq<char>, now: u64) -> bool {
    &&& r.user_id@ == uid
    &&& r.preferences.preferred_categories@.len() == 0
    &&& r.preferences.excluded_categories@.len() == 0
    &&& r.preferences.min_price is None
    &&& r.preferences.max_price is None
    &&& r.preferences.last_updated == now
    &&& r.gift_history@.len() == 0
    &&& r.created_at == now
    &&& r.last_active == now
}

/// Index of the first record for `k`, `-1` when there is none.
spec fn find_at(rs: Seq<UserRecord>, k: Seq<char>) -> int
    decreases rs.len(),
{
    if rs.len() == 0 {
        -1
    } else if rs[0].user_id@ == k {
        0
    } else {
        let r = find_at(rs.drop_first(), k);
        if r == -1 {
            -1
        } else {
            r + 1
        }
    }
}

proof fn lemma_find_at_props(rs: Seq<UserRecord>, k: Seq<char>)
    ensures
        -1 <= find_at(rs, k) < rs.len(),
        find_at(rs, k) == -1 ==> forall|j: int|
            0 <= j < rs.len() ==> (#[trigger] rs[j].user_id@) != k,
        find_at(rs, k) >= 0 ==> rs[find_at(rs, k)].user_id@ == k && (forall|j: int|
            0 <= j < find_at(rs, k) ==> (#[trigger] rs[j].user_id@) != k),
    decreases rs.len(),
{
    if rs.len() == 0 {
    } else if rs[0].user_id@ == k {
    } else {
        lemma_find_at_props(rs.drop_first(), k);
        assert(forall|j: int|
            0 <= j < rs.len() - 1 ==> (#[trigger] rs.drop_first()[j].user_id@) == rs[j
                + 1].user_id@);
        assert(forall|j: int|
            1 <= j < rs.len() ==> (#[trigger] rs[j].user_id@) == rs.drop_first()[j - 1].user_id@);
        if find_at(rs.drop_first(), k) == -1 {
            assert(find_at(rs, k) == -1);
            assert forall|j: int| 0 <= j < rs.len() implies (#[trigger] rs[j].user_id@) != k by {
                if j >= 1 {
                    assert(rs.drop_first()[j - 1].user_id@ != k);
                }
            }
        } else {
            assert(find_at(rs, k) == find_at(rs.drop_first(), k) + 1);
        }
    }
}

proof fn lemma_find_at_from(rs: Seq<UserRecord>, k: Seq<char>, i: int)
    requires
        0 <= i < rs.len(),
        rs[i].user_id@ == k,
        forall|j: int| 0 <= j < i ==> (#[trigger] rs[j].user_id@) != k,
    ensures
        find_at(rs, k) == i,
    decreases i,
{
    if i == 0 {
    } else {
        assert(rs[0].user_id@ != k);
        assert(forall|j: int|
            0 <= j < rs.len() - 1 ==> (#[trigger] rs.drop_first()[j].user_id@) == rs[j
                + 1].user_id@);
        assert(forall|j: int|
            1 <= j < rs.len() ==> (#[trigger] rs[j].user_id@) == rs.drop_first()[j - 1].user_id@);
        lemma_find_at_from(rs.drop_first(), k, i - 1);
    }
}

/// The in-memory store of user records.
#[derive(Debug)]
pub struct UserDatabase {
    records: Vec<UserRecord>,
}

fn position_of(rs: &Vec<UserRecord>, key: &str) -> (r: Option<usize>)
    ensures
        match r {
            Option::Some(i) => i < rs@.len() && rs@[i as int].user_id@ == key@ && (forall|j: int|
                0 <= j < i ==> (#[trigger] rs@[j].user_id@) != key@),
            Option::None => forall|j: int|
                0 <= j < rs@.len() ==> (#[trigger] rs@[j].user_id@) != key@,
        },
{
    let n = rs.len();
    let mut i: usize = 0;
    while i < n
        invariant
            n == rs@.len(),
            i <= n,
            forall|j: int| 0 <= j < i ==> (#[trigger] rs@[j].user_id@) != key@,
        decreases n - i,
    {
        let e = &rs[i];
        if str_eq(e.user_id.as_str(), key) {
            return Option::Some(i);
        }
        i = i + 1;
    }
    Option::None
}

/// Copies a string vector.
pub fn dup_string_vec(v: &Vec<String>) -> (r: Vec<String>)
    ensures
        r@ == v@,
{
    let n = v.len();
    let mut r: Vec<String> = Vec::new();
    let mut i: usize = 0;
    while i < n
        invariant
            n == v@.len(),
            i <= n,
            r@ == v@.take(i as int),
        decreases n - i,
    {
        r.push(v[i].clone());
        proof {
            assert(v@.take(i + 1 as int) =~= v@.take(i as int).push(v@[i as int]));
        }
        i = i + 1;
    }
    proof {
        assert(v@.take(n as int) =~= v@);
    }
    r
}

impl UserPreference {
    /// An observably equal copy.
    pub fn dup(&self) -> (r: Self)
        ensures
            pref_eq(r, *self),
    {
        UserPreference {
            preferred_categories: dup_string_vec(&self.preferred_categories),
            excluded_categories: dup_string_vec(&self.excluded_categories),
            min_price: self.min_price,
            max_price: self.max_price,
            last_updated: self.last_updated,
        }
    }
}

impl GiftHistory {
    /// An equal copy.
    pub fn dup(&self) -> (r: Self)
        ensures
            r == *self,
    {
        GiftHistory {
            gift_name: self.gift_name.clone(),
            recipient: self.recipient.clone(),
            price: self.price,
            date: self.date,
            occasion: self.occasion.clone(),
        }
    }
}

/// Copies a history vector.
pub fn dup_history(v: &Vec<GiftHistory>) -> (r: Vec<GiftHistory>)
    ensures
        r@ == v@,
{
    let n = v.len();
    let mut r: Vec<GiftHistory> = Vec::new();
    let mut i: usize = 0;
    while i < n
        invariant
            n == v@.len(),
            i <= n,
            r@ == v@.take(i as int),
        decreases n - i,
    {
        r.push(v[i].dup());
        proof {
            assert(v@.take(i + 1 as int) =~= v@.take(i as int).push(v@[i as int]));
        }
        i = i + 1;
    }
    proof {
        assert(v@.take(n as int) =~= v@);
    }
    r
}

impl UserRecord {
    /// An observably equal copy.
    pub fn dup(&self) -> (r: Self)
        ensures
            rec_eq(r, *self),
    {
        UserRecord {
            user_id: self.user_id.clone(),
            preferences: self.preferences.dup(),
            gift_history: dup_history(&self.gift_history),
            created_at: self.created_at,
            last_active: self.last_active,
        }
    }
}

impl UserDatabase {
    #[verifier::type_invariant]
    spec fn wf(self) -> bool {
        forall|i: int, j: int|
            0 <= i < j < self.records@.len() ==> (#[trigger] self.records@[i].user_id@) != (
            #[trigger] self.records@[j].user_id@)
    }

    /// Whether the store knows user `k`.
    pub closed spec fn has_user(&self, k: Seq<char>) -> bool {
        find_at(self.records@, k) >= 0
    }

    /// The record stored for user `k`.
    pub closed spec fn record_at(&self, k: Seq<char>) -> UserRecord {
        self.records@[find_at(self.records@, k)]
    }

    /// How many users the store knows.
    pub closed spec fn user_count(&self) -> int {
        self.records@.len() as int
    }

    /// An empty store.
    pub fn new() -> (r: Self)
        ensures
            forall|k: Seq<char>| !(#[trigger] r.has_user(k)),
            r.user_count() == 0,
    {
        let r = UserDatabase { records: Vec::new() };
        proof {
            assert(forall|k: Seq<char>| find_at(r.records@, k) == -1);
        }
        r
    }

    /// Stores `rec` under its own user id, replacing whatever that id
    /// held.
    fn insert_record(&mut self, rec: UserRecord)
        ensures
            final (self).has_user(rec.user_id@),
            final (self).record_at(rec.user_id@) == rec,
            forall|k: Seq<char>|
                k != rec.user_id@ ==> #[trigger] final (self).has_user(k) == old(self).has_user(k),
            forall|k: Seq<char>|
                k != rec.user_id@ && old(self).has_user(k) ==> #[trigger] final (self).record_at(k)
                    == old(self).record_at(k),
            final (self).user_count() == old(self).user_count() + (if old(self).has_user(
                rec.user_id@,
            ) {
                0int
            } else {
                1int
            }),
    {
        proof {
            use_type_invariant(&*self);
        }
        let ghost old_rs = self.records@;
        let mut rs: Vec<UserRecord> = Vec::new();
        core::mem::swap(&mut rs, &mut self.records);
        let idx = position_of(&rs, rec.user_id.as_str());
        match idx {
            Option::Some(i) => {
                proof {
                    lemma_find_at_from(old_rs, rec.user_id@, i as int);
                }
                rs.set(i, rec);
                let ghost new_rs = rs@;
                proof {
                    assert(forall|j: int|
                        0 <= j < new_rs.len() ==> (#[trigger] new_rs[j].user_id@)
                            == old_rs[j].user_id@);
                    assert(forall|j: int|
                        0 <= j < old_rs.len() ==> (#[trigger] old_rs[j].user_id@)
                            == new_rs[j].user_id@);
                    lemma_find_at_from(new_rs, rec.user_id@, i as int);
                    assert forall|k: Seq<char>| k != rec.user_id@ implies (find_at(new_rs, k) >= 0
                        <==> find_at(old_rs, k) >= 0) && (find_at(old_rs, k) >= 0 ==> find_at(
                        new_rs,
                        k,
                    ) == find_at(old_rs, k) && new_rs[find_at(new_rs, k)] == old_rs[find_at(
                        old_rs,
                        k,
                    )]) by {
                        lemma_find_at_props(old_rs, k);
                        lemma_find_at_props(new_rs, k);
                        if find_at(old_rs, k) >= 0 {
                            lemma_find_at_from(new_rs, k, find_at(old_rs, k));
                        }
                        if find_at(new_rs, k) >= 0 {
                            let p = find_at(new_rs, k);
                            assert(new_rs[p].user_id@ == k);
                            assert(old_rs[p].user_id@ == k);
                            lemma_find_at_from(old_rs, k, p);
                        }
                    }
                }
                self.records = rs;
            },
            Option::None => {
                proof {
                    lemma_find_at_props(old_rs, rec.user_id@);
                }
                rs.push(rec);
                let ghost new_rs = rs@;
                proof {
                    assert(forall|j: int|
                        0 <= j < old_rs.len() ==> (#[trigger] new_rs[j].user_id@)
                            == old_rs[j].user_id@);
                    assert(forall|j: int|
                        0 <= j < old_rs.len() ==> (#[trigger] old_rs[j].user_id@)
                            == new_rs[j].user_id@);
                    lemma_find_at_from(new_rs, rec.user_id@, old_rs.len() as int);
                    assert forall|k: Seq<char>| k != rec.user_id@ implies (find_at(new_rs, k) >= 0
                        <==> find_at(old_rs, k) >= 0) && (find_at(old_rs, k) >= 0 ==> find_at(
                        new_rs,
                        k,
                    ) == find_at(old_rs, k) && new_rs[find_at(new_rs, k)] == old_rs[find_at(
                        old_rs,
                        k,
                    )]) by {
                        lemma_find_at_props(old_rs, k);
                        lemma_find_at_props(new_rs, k);
                        if find_at(old_rs, k) >= 0 {
                            lemma_find_at_from(new_rs, k, find_at(old_rs, k));
                        }
                        if find_at(new_rs, k) >= 0 {
                            let p = find_at(new_rs, k);
                            assert(new_rs[p].user_id@ == k);
                            assert(p < old_rs.len());
                            assert(old_rs[p].user_id@ == k);
                            lemma_find_at_from(old_rs, k, p);
                        }
                    }
                }
                self.records = rs;
            },
        }
    }

    /// Creates a user with empty preferences and history, replacing any
    /// earlier record, and hands the fresh record back.  Creation always
    /// succeeds.
    pub fn create_user(&mut self, user_id: String, now: u64) -> (r: Result<UserRecord, ChatError>)
        ensures
            r is Ok,
            is_fresh_record(r.unwrap(), user_id@, now),
            final (self).has_user(user_id@),
            is_fresh_record(final (self).record_at(user_id@), user_id@, now),
            forall|k: Seq<char>|
                k != user_id@ ==> #[trigger] final (self).has_user(k) == old(self).has_user(k),
            forall|k: Seq<char>|
                k != user_id@ && old(self).has_user(k) ==> #[trigger] final (self).record_at(k)
                    == old(self).record_at(k),
    {
        let rec = UserRecord {
            user_id,
            preferences: UserPreference {
                preferred_categories: Vec::new(),
                excluded_categories: Vec::new(),
                min_price: Option::None,
                max_price: Option::None,
                last_updated: now,
            },
            gift_history: Vec::new(),
            created_at: now,
            last_active: now,
        };
        let out = rec.dup();
        self.insert_record(rec);
        Result::Ok(out)
    }

    /// A copy of the user's record, if the user is known.
    pub fn get_user(&self, user_id: &str) -> (r: Option<UserRecord>)
        ensures
            match r {
                Option::Some(u) => self.has_user(user_id@) && rec_eq(u, self.record_at(user_id@)),
                Option::None => !self.has_user(user_id@),
            },
    {
        let idx = position_of(&self.records, user_id);
        match idx {
            Option::Some(i) => {
                proof {
                    lemma_find_at_from(self.records@, user_id@, i as int);
                }
                Option::Some(self.records[i].dup())
            },
            Option::None => {
                proof {
                    lemma_find_at_props(self.records@, user_id@);
                }
                Option::None
            },
        }
    }

    /// Stores `user` under its id, replacing whatever the id held.
    pub fn update_user(&mut self, user: UserRecord) -> (r: Result<(), ChatError>)
        ensures
            r is Ok,
            final (self).has_user(user.user_id@),
            final (self).record_at(user.user_id@) == user,
            forall|k: Seq<char>|
                k != user.user_id@ ==> #[trigger] final (self).has_user(k) == old(self).has_user(k),
            forall|k: Seq<char>|
                k != user.user_id@ && old(self).has_user(k) ==> #[trigger] final (self).record_at(k)
                    == old(self).record_at(k),
    {
        self.insert_record(user);
        Result::Ok(())
    }

    /// Appends one gift to a known user's history and marks the user
    /// active at `now`; an unknown user is left unknown.
    pub fn add_gift_history(&mut self, user_id: &str, history: GiftHistory, now: u64) -> (r: Result<
        (),
        ChatError,
    >)
        ensures
            r is Ok,
            final (self).has_user(user_id@) == old(self).has_user(user_id@),
            old(self).has_user(user_id@) ==> ({
                let pre = old(self).record_at(user_id@);
                let post = final (self).record_at(user_id@);
                &&& post.user_id@ == pre.user_id@
                &&& pref_eq(post.preferences, pre.preferences)
                &&& post.gift_history@ == pre.gift_history@.push(history)
                &&& post.created_at == pre.created_at
                &&& post.last_active == now
            }),
            forall|k: Seq<char>|
                k != user_id@ ==> #[trigger] final (self).has_user(k) == old(self).has_user(k),
            forall|k: Seq<char>|
                k != user_id@ && old(self).has_user(k) ==> #[trigger] final (self).record_at(k)
                    == old(self).record_at(k),
    {
        let idx = position_of(&self.records, user_id);
        match idx {
            Option::Some(i) => {
                proof {
                    lemma_find_at_from(self.records@, user_id@, i as int);
                }
                let mut rec = self.records[i].dup();
                rec.gift_history.push(history);
                rec.last_active = now;
                self.insert_record(rec);
            },
            Option::None => {
                proof {
                    lemma_find_at_props(self.records@, user_id@);
                }
            },
        }
        Result::Ok(())
    }

    /// Replaces a known user's preferences and marks the user active at
    /// `now`; an unknown user is left unknown.
    pub fn update_preferences(&mut self, user_id: &str, preferences: UserPreference, now: u64) -> (
        r: Result<(), ChatError>)
        ensures
            r is Ok,
            final (self).has_user(user_id@) == old(self).has_user(user_id@),
            old(self).has_user(user_id@) ==> ({
                let pre = old(self).record_at(user_id@);
                let post = final (self).record_at(user_id@);
                &&& post.user_id@ == pre.user_id@
                &&& pref_eq(post.preferences, preferences)
                &&& post.gift_history@ == pre.gift_history@
                &&& post.created_at == pre.created_at
                &&& post.last_active == now
            }),
            forall|k: Seq<char>|
                k != user_id@ ==> #[trigger] final (self).has_user(k) == old(self).has_user(k),
            forall|k: Seq<char>|
                k != user_id@ && old(self).has_user(k) ==> #[trigger] final (self).record_at(k)
                    == old(self).record_at(k),
    {
        let idx = position_of(&self.records, user_id);
        match idx {
            Option::Some(i) => {
                proof {
                    lemma_find_at_from(self.records@, user_id@, i as int);
                }
                let mut rec = self.records[i].dup();
                rec.preferences = preferences;
                rec.last_active = now;
                self.insert_record(rec);
            },
            Option::None => {
                proof {
                    lemma_find_at_props(self.records@, user_id@);
                }
            },
        }
        Result::Ok(())
    }

    /// The user's gifts given within the last `days` days as of `now`,
    /// newest criteria applied to each record's date.
    pub fn get_recent_gifts(&self, user_id: &str, days: u64, now: u64) -> (r: Result<
        Vec<GiftHistory>,
        ChatError,
    >)
        ensures
            r is Ok,
            !self.has_user(user_id@) ==> r.unwrap()@.len() == 0,
            self.has_user(user_id@) ==> r.unwrap()@ == self.record_at(user_id@).gift_history@.filter(
                |h: GiftHistory| h.date <= now && now - h.date <= days * 86400,
            ),
    {
        let idx = position_of(&self.records, user_id);
        let i = match idx {
            Option::Some(i) => i,
            Option::None => {
                proof {
                    lemma_find_at_props(self.records@, user_id@);
                }
                return Result::Ok(Vec::new());
            },
        };
        proof {
            lemma_find_at_from(self.records@, user_id@, i as int);
        }
        let window: u64 = if days <= u64::MAX / 86400 {
            days * 86400
        } else {
            u64::MAX
        };
        let hs = &self.records[i].gift_history;
        let n = hs.len();
        let mut out: Vec<GiftHistory> = Vec::new();
        let mut j: usize = 0;
        while j < n
            invariant
                n == hs@.len(),
                j <= n,
                window as int == if days * 86400 <= u64::MAX {
                    days * 86400
                } else {
                    u64::MAX as int
                },
                out@ == hs@.take(j as int).filter(
                    |h: GiftHistory| h.date <= now && now - h.date <= days * 86400,
                ),
            decreases n - j,
        {
            proof {
                assert(hs@.take(j + 1 as int) =~= hs@.take(j as int).push(hs@[j as int]));
                crate::seqs::lemma_filter_push(
                    hs@.take(j as int),
                    hs@[j as int],
                    |h: GiftHistory| h.date <= now && now - h.date <= days * 86400,
                );
            }
            let h = &hs[j];
            if h.date <= now && now - h.date <= window {
                out.push(h.dup());
            }
            j = j + 1;
        }
        proof {
            assert(hs@.take(n as int) =~= hs@);
        }
        Result::Ok(out)
    }

    /// The user's gifts given to `recipient`.
    pub fn get_gifts_by_recipient(&self, user_id: &str, recipient: &str) -> (r: Result<
        Vec<GiftHistory>,
        ChatError,
    >)
        ensures
            r is Ok,
            !self.has_user(user_id@) ==> r.unwrap()@.len() == 0,
            self.has_user(user_id@) ==> r.unwrap()@ == self.record_at(user_id@).gift_history@.filter(
                |h: GiftHistory| h.recipient@ == recipient@,
            ),
    {
        let idx = position_of(&self.records, user_id);
        let i = match idx {
            Option::Some(i) => i,
            Option::None => {
                proof {
                    lemma_find_at_props(self.records@, user_id@);
                }
                return Result::Ok(Vec::new());
            },
        };
        proof {
            lemma_find_at_from(self.records@, user_id@, i as int);
        }
        let hs = &self.records[i].gift_history;
        let n = hs.len();
        let mut out: Vec<GiftHistory> = Vec::new();
        let mut j: usize = 0;
        while j < n
            invariant
                n == hs@.len(),
                j <= n,
                out@ == hs@.take(j as int).filter(|h: GiftHistory| h.recipient@ == recipient@),
            decreases n - j,
        {
            proof {
                assert(hs@.take(j + 1 as int) =~= hs@.take(j as int).push(hs@[j as int]));
                crate::seqs::lemma_filter_push(
                    hs@.take(j as int),
                    hs@[j as int],
                    |h: GiftHistory| h.recipient@ == recipient@,
                );
            }
            let h = &hs[j];
            if str_eq(h.recipient.as_str(), recipient) {
                out.push(h.dup());
            }
            j = j + 1;
        }
        proof {
            assert(hs@.take(n as int) =~= hs@);
        }
        Result::Ok(out)
    }

    /// Drops every user inactive for more than `days` days as of `now`
    /// and reports how many were dropped.
    pub fn cleanup_inactive_users(&mut self, days: u64, now: u64) -> (r: Result<usize, ChatError>)
        ensures
            r is Ok,
            forall|k: Seq<char>|
                #[trigger] final (self).has_user(k) <==> (old(self).has_user(k) && ({
                    let u = old(self).record_at(k);
                    u.last_active <= now && now - u.last_active <= days * 86400
                })),
            forall|k: Seq<char>|
                #[trigger] final (self).has_user(k) ==> final (self).record_at(k) == old(
                    self,
                ).record_at(k),
            final (self).user_count() <= old(self).user_count(),
            r.unwrap() as int == old(self).user_count() - final (self).user_count(),
    {
        proof {
            use_type_invariant(&*self);
        }
        let ghost old_rs = self.records@;
        let mut rs: Vec<UserRecord> = Vec::new();
        core::mem::swap(&mut rs, &mut self.records);
        let n = rs.len();
        let window: u64 = if days <= u64::MAX / 86400 {
            days * 86400
        } else {
            u64::MAX
        };
        proof {
            assert(forall|k: Seq<char>| find_at(self.records@, k) == -1);
        }
        let mut kept: usize = 0;
        let mut j: usize = 0;
        while j < n
            invariant
                n == old_rs.len(),
                rs@ == old_rs.skip(j as int),
                j <= n,
                kept <= j,
                window as int == if days * 86400 <= u64::MAX {
                    days * 86400
                } else {
                    u64::MAX as int
                },
                forall|i1: int, i2: int|
                    0 <= i1 < i2 < old_rs.len() ==> (#[trigger] old_rs[i1].user_id@) != (
                    #[trigger] old_rs[i2].user_id@),
                forall|k: Seq<char>|
                    #[trigger] self.has_user(k) ==> exists|j2: int|
                        0 <= j2 < j && (#[trigger] old_rs[j2].user_id@) == k
                            && old_rs[j2].last_active <= now && now - old_rs[j2].last_active <= days
                            * 86400,
                forall|j2: int|
                    0 <= j2 < j && (#[trigger] old_rs[j2].last_active) <= now && now
                        - old_rs[j2].last_active <= days * 86400 ==> self.has_user(
                        old_rs[j2].user_id@,
                    ) && self.record_at(old_rs[j2].user_id@) == old_rs[j2],
                self.user_count() == kept,
            decreases n - j,
        {
            let u = rs.remove(0);
            proof {
                assert(u == old_rs[j as int]);
                assert(old_rs.skip(j as int).remove(0) =~= old_rs.skip(j + 1 as int));
            }
            if u.last_active <= now && now - u.last_active <= window {
                proof {
                    if self.has_user(u.user_id@) {
                        let j2 = choose|j2: int|
                            0 <= j2 < j && (#[trigger] old_rs[j2].user_id@) == u.user_id@
                                && old_rs[j2].last_active <= now && now - old_rs[j2].last_active
                                <= days * 86400;
                        assert(old_rs[j2].user_id@ == old_rs[j as int].user_id@);
                        assert(false);
                    }
                }
                self.insert_record(u);
                kept = kept + 1;
            }
            j = j + 1;
            proof {
                assert forall|j2: int|
                    0 <= j2 < j && (#[trigger] old_rs[j2].last_active) <= now && now
                        - old_rs[j2].last_active <= days * 86400 implies self.has_user(
                    old_rs[j2].user_id@,
                ) && self.record_at(old_rs[j2].user_id@) == old_rs[j2] by {
                    if j2 < j - 1 {
                        assert(old_rs[j2].user_id@ != old_rs[j - 1].user_id@);
                    }
                }
            }
        }
        proof {
            assert forall|k: Seq<char>|
                #[trigger] self.has_user(k) <==> (find_at(old_rs, k) >= 0 && ({
                    let u = old_rs[find_at(old_rs, k)];
                    u.last_active <= now && now - u.last_active <= days * 86400
                })) by {
                lemma_find_at_props(old_rs, k);
                if self.has_user(k) {
                    let j2 = choose|j2: int|
                        0 <= j2 < n && (#[trigger] old_rs[j2].user_id@) == k
                            && old_rs[j2].last_active <= now && now - old_rs[j2].last_active <= days
                            * 86400;
                    if find_at(old_rs, k) == -1 {
                        assert(false);
                    }
                    assert(find_at(old_rs, k) == j2);
                }
                if find_at(old_rs, k) >= 0 && old_rs[find_at(old_rs, k)].last_active <= now && now
                    - old_rs[find_at(old_rs, k)].last_active <= days * 86400 {
                    assert(self.has_user(old_rs[find_at(old_rs, k)].user_id@));
                }
            }
            assert forall|k: Seq<char>| #[trigger] self.has_user(k) implies self.record_at(k)
                == old_rs[find_at(old_rs, k)] by {
                lemma_find_at_props(old_rs, k);
                let j2 = choose|j2: int|
                    0 <= j2 < n && (#[trigger] old_rs[j2].user_id@) == k && old_rs[j2].last_active
                        <= now && now - old_rs[j2].last_active <= days * 86400;
                assert(find_at(old_rs, k) == j2);
            }
        }
        Result::Ok(n - kept)
    }
}

} // verus!
