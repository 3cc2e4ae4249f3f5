//! The guild registry: an idempotent upsert over the guild store. The store
//! keeps at most one row per guild identifier; `find_or_create` never
//! duplicates a row, and reactivates a soft-deleted one instead of inserting.

use vstd::prelude::*;

use crate::guilds::{GuildView, Model};
use crate::opt_str_view;

verus! {

/// Why a registry operation failed.
#[derive(Clone, Copy, Debug, PartialEq, Eq, Structural)]
pub enum RepoError {
    /// No row matches the given guild identifier.
    NotFound,
    /// A row with the given guild identifier already exists.
    Conflict,
}

/// The mathematical image of the store: the rows in insertion order, and the
/// next id the store will assign.
pub ghost struct StoreView {
    pub rows: Seq<GuildView>,
    pub next_id: int,
}

/// Well-formedness of the store: guild identifiers are unique, ids are
/// unique and below the next id to be assigned, and no row's update stamp
/// lies before its creation stamp.
pub open spec fn store_wf(m: StoreView) -> bool {
    &&& forall|i: int, j: int|
        0 <= i < j < m.rows.len() ==> (#[trigger] m.rows[i]).guild_id != (
        #[trigger] m.rows[j]).guild_id
    &&& forall|i: int| 0 <= i < m.rows.len() ==> (#[trigger] m.rows[i]).id < m.next_id
    &&& forall|i: int, j: int|
        0 <= i < j < m.rows.len() ==> (#[trigger] m.rows[i]).id != (#[trigger] m.rows[j]).id
    &&& forall|i: int|
        0 <= i < m.rows.len() ==> (#[trigger] m.rows[i]).updated_at >= m.rows[i].created_at
}

/// Some row carries the guild identifier `gid`.
pub open spec fn store_has(m: StoreView, gid: Seq<char>) -> bool {
    exists|i: int| 0 <= i < m.rows.len() && (#[trigger] m.rows[i]).guild_id == gid
}

/// The index of the row carrying `gid`; meaningful when `store_has`.
pub open spec fn store_index(m: StoreView, gid: Seq<char>) -> int {
    choose|i: int| 0 <= i < m.rows.len() && (#[trigger] m.rows[i]).guild_id == gid
}

/// The row carrying `gid`; meaningful when `store_has`.
pub open spec fn store_row(m: StoreView, gid: Seq<char>) -> GuildView {
    m.rows[store_index(m, gid)]
}

/// The row a fresh registration writes: active, empty settings document,
/// all three timestamps set to the present moment.
pub open spec fn new_guild(
    m: StoreView,
    gid: Seq<char>,
    name: Option<Seq<char>>,
    owner: Option<Seq<char>>,
    now: int,
) -> GuildView {
    GuildView {
        id: m.next_id,
        guild_id: gid,
        guild_name: name,
        owner_id: owner,
        joined_at: now,
        is_active: true,
        settings: "{}"@,
        created_at: now,
        updated_at: now,
    }
}

/// The store after inserting a fresh row for `gid`.
pub open spec fn spec_create(
    m: StoreView,
    gid: Seq<char>,
    name: Option<Seq<char>>,
    owner: Option<Seq<char>>,
    now: int,
) -> StoreView {
    StoreView { rows: m.rows.push(new_guild(m, gid, name, owner, now)), next_id: m.next_id + 1 }
}

/// A soft-deleted row brought back: active again, update stamp refreshed,
/// everything else as it was.
pub open spec fn reactivated(g: GuildView, now: int) -> GuildView {
    GuildView { is_active: true, updated_at: now, ..g }
}

/// A row after a partial update: each supplied field replaces the stored
/// one, the rest keep their values, and the update stamp is refreshed.
pub open spec fn updated_guild(
    g: GuildView,
    name: Option<Seq<char>>,
    active: Option<bool>,
    settings: Option<Seq<char>>,
    now: int,
) -> GuildView {
    GuildView {
        guild_name: if name is Some {
            name
        } else {
            g.guild_name
        },
        is_active: match active {
            Some(a) => a,
            None => g.is_active,
        },
        settings: match settings {
            Some(s) => s,
            None => g.settings,
        },
        updated_at: now,
        ..g
    }
}

/// The find-or-create transition: an active row is returned as it stands, an
/// inactive one is reactivated, a missing one is freshly inserted.
pub open spec fn spec_find_or_create(
    m: StoreView,
    gid: Seq<char>,
    name: Option<Seq<char>>,
    owner: Option<Seq<char>>,
    now: int,
) -> (StoreView, GuildView) {
    if store_has(m, gid) {
        let g = store_row(m, gid);
        if g.is_active {
            (m, g)
        } else {
            let g2 = reactivated(g, now);
            (StoreView { rows: m.rows.update(store_index(m, gid), g2), next_id: m.next_id }, g2)
        }
    } else {
        (spec_create(m, gid, name, owner, now), new_guild(m, gid, name, owner, now))
    }
}

/// The store after a partial update of the row carrying `gid`; meaningful
/// when `store_has`.
pub open spec fn spec_update(
    m: StoreView,
    gid: Seq<char>,
    name: Option<Seq<char>>,
    active: Option<bool>,
    settings: Option<Seq<char>>,
    now: int,
) -> StoreView {
    StoreView {
        rows: m.rows.update(store_index(m, gid), updated_guild(store_row(m, gid), name, active,
            settings, now)),
        next_id: m.next_id,
    }
}

/// In a well-formed store the row index for a guild identifier is unique.
pub proof fn lemma_store_index_unique(m: StoreView, gid: Seq<char>, i: int)
    requires
        store_wf(m),
        0 <= i < m.rows.len(),
        m.rows[i].guild_id == gid,
    ensures
        store_has(m, gid),
        store_index(m, gid) == i,
        store_row(m, gid) == m.rows[i],
{
    assert(store_has(m, gid));
    let k = store_index(m, gid);
    assert(0 <= k < m.rows.len() && m.rows[k].guild_id == gid);
    if k < i {
        assert(m.rows[k].guild_id != m.rows[i].guild_id);
    } else if i < k {
        assert(m.rows[i].guild_id != m.rows[k].guild_id);
    }
}

/// The active rows of the store, in storage order.
pub open spec fn active_rows(m: StoreView) -> Seq<GuildView> {
    m.rows.filter(|g: GuildView| g.is_active)
}

/// Newest join stamp first.
pub open spec fn sorted_newest_first(s: Seq<Model>) -> bool {
    forall|i: int, j: int|
        0 <= i < j < s.len() ==> (#[trigger] s[i]).joined_at >= (#[trigger] s[j]).joined_at
}

/// Find-or-create leaves the store well-formed, and the row it returns is
/// the row the store then holds for that identifier — active in every case.
pub proof fn lemma_find_or_create_wf(
    m: StoreView,
    gid: Seq<char>,
    name: Option<Seq<char>>,
    owner: Option<Seq<char>>,
    now: int,
)
    requires
        store_wf(m),
        store_has(m, gid) && !store_row(m, gid).is_active ==> now >= store_row(m, gid).updated_at,
    ensures
        ({
            let (m1, g1) = spec_find_or_create(m, gid, name, owner, now);
            store_wf(m1) && store_has(m1, gid) && store_row(m1, gid) == g1 && g1.is_active
                && g1.guild_id == gid
        }),
{
    let (m1, g1) = spec_find_or_create(m, gid, name, owner, now);
    if store_has(m, gid) {
        let i = store_index(m, gid);
        assert(0 <= i < m.rows.len() && m.rows[i].guild_id == gid);
        if m.rows[i].is_active {
            lemma_store_index_unique(m1, gid, i);
        } else {
            assert(m1.rows.len() == m.rows.len());
            assert(store_wf(m1));
            lemma_store_index_unique(m1, gid, i);
        }
    } else {
        let n = m.rows.len() as int;
        assert(forall|j: int| 0 <= j < n ==> (#[trigger] m.rows[j]).guild_id != gid);
        assert(m1.rows[n] == g1);
        assert(store_wf(m1));
        lemma_store_index_unique(m1, gid, n);
    }
}

/// Calling find-or-create twice in a row with the same guild identifier
/// changes nothing the second time and hands back the same row: the first
/// call settles the store, and no duplicate is ever inserted.
pub proof fn lemma_find_or_create_idempotent(
    m: StoreView,
    gid: Seq<char>,
    name1: Option<Seq<char>>,
    owner1: Option<Seq<char>>,
    now1: int,
    name2: Option<Seq<char>>,
    owner2: Option<Seq<char>>,
    now2: int,
)
    requires
        store_wf(m),
        store_has(m, gid) && !store_row(m, gid).is_active ==> now1 >= store_row(m, gid).updated_at,
    ensures
        ({
            let (m1, g1) = spec_find_or_create(m, gid, name1, owner1, now1);
            let (m2, g2) = spec_find_or_create(m1, gid, name2, owner2, now2);
            m2 == m1 && g2 == g1 && m1.rows.len() <= m.rows.len() + 1
        }),
{
    lemma_find_or_create_wf(m, gid, name1, owner1, now1);
}

/// Find-or-create on a soft-deleted guild reactivates the row in place: the
/// active flag flips to true, the update stamp is refreshed to `now`, and
/// the id, creation and join stamps stay what they were. No row is added.
pub proof fn lemma_find_or_create_reactivates(
    m: StoreView,
    gid: Seq<char>,
    name: Option<Seq<char>>,
    owner: Option<Seq<char>>,
    now: int,
)
    requires
        store_wf(m),
        store_has(m, gid),
        !store_row(m, gid).is_active,
        now >= store_row(m, gid).updated_at,
    ensures
        ({
            let (m1, g1) = spec_find_or_create(m, gid, name, owner, now);
            g1.is_active && g1.updated_at == now && g1.updated_at >= store_row(m, gid).updated_at
                && g1.created_at == store_row(m, gid).created_at && g1.joined_at == store_row(m,
                gid).joined_at && g1.id == store_row(m, gid).id && m1.rows.len() == m.rows.len()
                && store_row(m1, gid) == g1
        }),
{
    lemma_find_or_create_wf(m, gid, name, owner, now);
}

/// The guild store and registry. Rows live in insertion order; ids are
/// assigned from a counter that never repeats.
pub struct GuildRepository {
    rows: Vec<Model>,
    next_id: i64,
}

/// The views of a sequence of rows.
pub open spec fn views_of(s: Seq<Model>) -> Seq<GuildView> {
    s.map_values(|m: Model| m@)
}

impl View for GuildRepository {
    type V = StoreView;

    closed spec fn view(&self) -> StoreView {
        StoreView { rows: views_of(self.rows@), next_id: self.next_id as int }
    }
}

impl GuildRepository {
    /// An empty registry; the first row will get id 1.
    pub fn new() -> (r: GuildRepository)
        ensures
            r@.rows == Seq::<GuildView>::empty(),
            r@.next_id == 1,
            store_wf(r@),
    {
        let r = GuildRepository { rows: Vec::new(), next_id: 1 };
        proof {
            assert(views_of(r.rows@) =~= Seq::<GuildView>::empty());
        }
        r
    }

    /// Whether the store can still assign a fresh id.
    pub fn has_capacity(&self) -> (r: bool)
        ensures
            r == (self@.next_id < i64::MAX),
    {
        self.next_id < i64::MAX
    }

    /// The index of the row carrying `guild_id`, if any.
    fn find_index(&self, guild_id: &String) -> (r: Option<usize>)
        requires
            store_wf(self@),
        ensures
            r is Some <==> store_has(self@, guild_id@),
            r matches Some(i) ==> 0 <= i < self@.rows.len() && i == store_index(self@, guild_id@)
                && self@.rows[i as int] == store_row(self@, guild_id@),
    {
        let n = self.rows.len();
        let mut i: usize = 0;
        while i < n
            invariant
                0 <= i <= n,
                n == self.rows@.len(),
                store_wf(self@),
                self@.rows.len() == n,
                forall|j: int| 0 <= j < i ==> (#[trigger] self@.rows[j]).guild_id != guild_id@,
            decreases n - i,
        {
            if self.rows[i].guild_id == *guild_id {
                proof {
                    assert(self@.rows[i as int].guild_id == guild_id@);
                    lemma_store_index_unique(self@, guild_id@, i as int);
                }
                return Some(i);
            }
            i += 1;
        }
        proof {
            assert(forall|j: int|
                0 <= j < self@.rows.len() ==> (#[trigger] self@.rows[j]).guild_id != guild_id@);
        }
        None
    }

    /// Looks a guild up by its identifier.
    pub fn find_by_guild_id(&self, guild_id: &String) -> (r: Result<Option<Model>, RepoError>)
        requires
            store_wf(self@),
        ensures
            r matches Ok(o) && (o is Some <==> store_has(self@, guild_id@)) && (o matches Some(g)
                ==> g@ == store_row(self@, guild_id@)),
    {
        match self.find_index(guild_id) {
            Some(i) => Ok(Some(self.rows[i].clone())),
            None => Ok(None),
        }
    }

    /// Inserts a fresh row for `guild_id`. An existing row with the same
    /// identifier is the uniqueness conflict the store reports instead of
    /// ever writing a duplicate.
    pub fn create(&mut self, guild_id: String, guild_name: Option<String>, owner_id: Option<
        String>, now: i64) -> (r: Result<Model, RepoError>)
        requires
            store_wf(old(self)@),
            !store_has(old(self)@, guild_id@) ==> old(self)@.next_id < i64::MAX,
        ensures
            store_wf(final(self)@),
            r is Ok <==> !store_has(old(self)@, guild_id@),
            r matches Err(e) ==> e == RepoError::Conflict && final(self)@ == old(self)@,
            r matches Ok(g) ==> g@ == new_guild(old(self)@, guild_id@, opt_str_view(guild_name),
                opt_str_view(owner_id), now as int) && final(self)@ == spec_create(old(self)@,
                guild_id@, opt_str_view(guild_name), opt_str_view(owner_id), now as int),
    {
        match self.find_index(&guild_id) {
            Some(_) => Err(RepoError::Conflict),
            None => {
                let ghost m0 = self@;
                let row = Model {
                    id: self.next_id,
                    guild_id,
                    guild_name,
                    owner_id,
                    joined_at: now,
                    is_active: true,
                    settings: String::from_str("{}"),
                    created_at: now,
                    updated_at: now,
                };
                let out = row.clone();
                proof {
                    assert(row@ == new_guild(m0, row.guild_id@, opt_str_view(row.guild_name),
                        opt_str_view(row.owner_id), now as int));
                }
                self.rows.push(row);
                self.next_id = self.next_id + 1;
                proof {
                    assert(self@.rows =~= m0.rows.push(out@));
                    assert(forall|j: int|
                        0 <= j < m0.rows.len() ==> (#[trigger] m0.rows[j]).guild_id != out@
                            .guild_id);
                    assert(store_wf(self@));
                }
                Ok(out)
            },
        }
    }

    /// Returns the row for `guild_id` as the platform should see it: the
    /// existing active row as it stands, a soft-deleted row reactivated, or
    /// a freshly inserted one. Never writes a second row for the same
    /// identifier.
    pub fn find_or_create(&mut self, guild_id: String, guild_name: Option<String>, owner_id:
        Option<String>, now: i64) -> (r: Result<Model, RepoError>)
        requires
            store_wf(old(self)@),
            !store_has(old(self)@, guild_id@) ==> old(self)@.next_id < i64::MAX,
            store_has(old(self)@, guild_id@) && !store_row(old(self)@, guild_id@).is_active
                ==> now as int >= store_row(old(self)@, guild_id@).updated_at,
        ensures
            store_wf(final(self)@),
            ({
                let (m2, g2) = spec_find_or_create(old(self)@, guild_id@, opt_str_view(guild_name),
                    opt_str_view(owner_id), now as int);
                final(self)@ == m2 && (r matches Ok(g) && g@ == g2)
            }),
    {
        match self.find_index(&guild_id) {
            Some(i) => {
                if self.rows[i].is_active {
                    Ok(self.rows[i].clone())
                } else {
                    let ghost m0 = self@;
                    let mut g = self.rows.remove(i);
                    g.is_active = true;
                    g.updated_at = now;
                    let out = g.clone();
                    proof {
                        assert(out@ == reactivated(store_row(m0, guild_id@), now as int));
                    }
                    self.rows.insert(i, g);
                    proof {
                        assert(self@.rows =~= m0.rows.update(i as int, out@));
                        assert(store_wf(self@));
                    }
                    Ok(out)
                }
            },
            None => self.create(guild_id, guild_name, owner_id, now),
        }
    }

    /// Lists the active guilds, the most recently joined first: exactly the
    /// active rows of the store, reordered by descending join stamp.
    pub fn find_all_active(&self) -> (r: Result<Vec<Model>, RepoError>)
        requires
            store_wf(self@),
        ensures
            r matches Ok(v) && views_of(v@).to_multiset() == active_rows(self@).to_multiset()
                && sorted_newest_first(v@),
    {
        let ghost pred = |g: GuildView| g.is_active;
        let n = self.rows.len();
        let mut sorted: Vec<Model> = Vec::new();
        let mut i: usize = 0;
        proof {
            reveal(Seq::filter);
            assert(self@.rows.subrange(0, 0) =~= Seq::<GuildView>::empty());
            assert(views_of(sorted@) =~= Seq::<GuildView>::empty());
            assert(views_of(sorted@).to_multiset() =~= self@.rows.subrange(0, 0).filter(
                pred).to_multiset());
        }
        while i < n
            invariant
                i <= n,
                n == self.rows@.len(),
                n == self@.rows.len(),
                pred == (|g: GuildView| g.is_active),
                views_of(sorted@).to_multiset() == self@.rows.subrange(0, i as int).filter(
                    pred).to_multiset(),
                sorted_newest_first(sorted@),
            decreases n - i,
        {
            let ghost pre = self@.rows.subrange(0, i as int);
            let ghost rv = self@.rows[i as int];
            proof {
                assert(self@.rows.subrange(0, i + 1) =~= pre.push(rv));
                reveal(Seq::filter);
                assert(pre.push(rv).drop_last() =~= pre);
                assert(pre.push(rv).filter(pred) == if pred(rv) {
                    pre.filter(pred).push(rv)
                } else {
                    pre.filter(pred)
                });
            }
            if self.rows[i].is_active {
                let x = self.rows[i].clone();
                let xj = x.joined_at;
                let slen = sorted.len();
                let mut k: usize = 0;
                while k < slen && sorted[k].joined_at >= xj
                    invariant
                        k <= slen,
                        slen == sorted@.len(),
                        forall|j: int| 0 <= j < k ==> (#[trigger] sorted@[j]).joined_at >= xj,
                    decreases slen - k,
                {
                    k += 1;
                }
                let ghost old_sorted = sorted@;
                sorted.insert(k, x);
                proof {
                    broadcast use vstd::seq_lib::group_to_multiset_ensures;

                    old_sorted.insert_ensures(k as int, x);
                    assert(views_of(sorted@) =~= views_of(old_sorted).insert(k as int, x@));
                    assert(views_of(old_sorted).insert(k as int, x@).to_multiset() == views_of(
                        old_sorted).to_multiset().insert(x@));
                    assert(x@ == rv);
                    assert(pre.filter(pred).push(rv).to_multiset() == pre.filter(
                        pred).to_multiset().insert(rv));
                    assert(views_of(sorted@).to_multiset() == self@.rows.subrange(0, i
                        + 1).filter(pred).to_multiset());
                    assert forall|a: int, b: int| 0 <= a < b < sorted@.len() implies (
                    #[trigger] sorted@[a]).joined_at >= (#[trigger] sorted@[b]).joined_at by {
                        assert(b >= 1);
                        if a < k && b < k {
                            assert(sorted@[a] == old_sorted[a] && sorted@[b] == old_sorted[b]);
                        } else if a < k && b == k {
                            assert(sorted@[a] == old_sorted[a]);
                            assert(old_sorted[a].joined_at >= xj);
                        } else if a < k && b > k {
                            assert(sorted@[a] == old_sorted[a] && sorted@[b] == old_sorted[b
                                - 1]);
                            if a == b - 1 {
                                assert(a < k && k <= b - 1);
                            }
                        } else if a == k {
                            assert(sorted@[b] == old_sorted[b - 1]);
                            assert(k < slen ==> old_sorted[k as int].joined_at < xj);
                            assert(old_sorted[b - 1].joined_at <= old_sorted[k as int].joined_at
                                || b - 1 == k);
                        } else {
                            assert(sorted@[a] == old_sorted[a - 1] && sorted@[b] == old_sorted[b
                                - 1]);
                        }
                    }
                }
            } else {
                proof {
                    assert(views_of(sorted@).to_multiset() == self@.rows.subrange(0, i
                        + 1).filter(pred).to_multiset());
                }
            }
            i += 1;
        }
        proof {
            assert(self@.rows.subrange(0, n as int) =~= self@.rows);
        }
        Ok(sorted)
    }

    /// Applies a partial update to the row carrying `guild_id`, refreshing
    /// the update stamp; reports the absence of such a row instead. The
    /// update stamp never moves backwards: the caller's clock may not lie
    /// before the row's current stamp.
    pub fn update(&mut self, guild_id: &String, guild_name: Option<String>, is_active: Option<
        bool>, settings: Option<String>, now: i64) -> (r: Result<Model, RepoError>)
        requires
            store_wf(old(self)@),
            store_has(old(self)@, guild_id@) ==> now as int >= store_row(old(self)@, guild_id@)
                .updated_at,
        ensures
            store_wf(final(self)@),
            r is Ok <==> store_has(old(self)@, guild_id@),
            r matches Err(e) ==> e == RepoError::NotFound && final(self)@ == old(self)@,
            r matches Ok(g) ==> g@ == updated_guild(store_row(old(self)@, guild_id@), opt_str_view(
                guild_name), is_active, opt_str_view(settings), now as int) && final(self)@
                == spec_update(old(self)@, guild_id@, opt_str_view(guild_name), is_active,
                opt_str_view(settings), now as int),
            r matches Ok(g) ==> g@.updated_at >= store_row(old(self)@, guild_id@).updated_at && g@
                .created_at == store_row(old(self)@, guild_id@).created_at,
    {
        match self.find_index(guild_id) {
            None => Err(RepoError::NotFound),
            Some(i) => {
                let ghost m0 = self@;
                let mut g = self.rows.remove(i);
                match guild_name {
                    Some(n) => {
                        g.guild_name = Some(n);
                    },
                    None => {},
                }
                match is_active {
                    Some(a) => {
                        g.is_active = a;
                    },
                    None => {},
                }
                match settings {
                    Some(s) => {
                        g.settings = s;
                    },
                    None => {},
                }
                g.updated_at = now;
                let out = g.clone();
                self.rows.insert(i, g);
                proof {
                    assert(self@.rows =~= m0.rows.update(i as int, out@));
                    assert(store_wf(self@));
                }
                Ok(out)
            },
        }
    }

    /// Flips the active flag of the row carrying `guild_id`.
    pub fn update_active_status(&mut self, guild_id: &String, is_active: bool, now: i64) -> (r:
        Result<Model, RepoError>)
        requires
            store_wf(old(self)@),
            store_has(old(self)@, guild_id@) ==> now as int >= store_row(old(self)@, guild_id@)
                .updated_at,
        ensures
            store_wf(final(self)@),
            r is Ok <==> store_has(old(self)@, guild_id@),
            r matches Err(e) ==> e == RepoError::NotFound && final(self)@ == old(self)@,
            r matches Ok(g) ==> g@ == updated_guild(store_row(old(self)@, guild_id@), None, Some(
                is_active), None, now as int) && final(self)@ == spec_update(old(self)@, guild_id@,
                None, Some(is_active), None, now as int),
    {
        self.update(guild_id, None, Some(is_active), None, now)
    }

    /// Soft-deletes the row carrying `guild_id`: the row stays, its active
    /// flag goes false.
    pub fn soft_delete(&mut self, guild_id: &String, now: i64) -> (r: Result<Model, RepoError>)
        requires
            store_wf(old(self)@),
            store_has(old(self)@, guild_id@) ==> now as int >= store_row(old(self)@, guild_id@)
                .updated_at,
        ensures
            store_wf(final(self)@),
            r is Ok <==> store_has(old(self)@, guild_id@),
            r matches Err(e) ==> e == RepoError::NotFound && final(self)@ == old(self)@,
            r matches Ok(g) ==> g@ == updated_guild(store_row(old(self)@, guild_id@), None, Some(
                false), None, now as int) && final(self)@ == spec_update(old(self)@, guild_id@,
                None, Some(false), None, now as int),
    {
        self.update_active_status(guild_id, false, now)
    }
}

} // verus!
