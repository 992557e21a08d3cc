//! The game-role catalog: the stored set of self-assignable role ids, checked
//! against a point-in-time snapshot of the guild's roles.

use vstd::prelude::*;
use crate::text::{id_of, parse_id, ParseIdError};

verus! {

/// A role of the guild, as one snapshot shows it.
pub struct RoleInfo {
    pub id: u64,
    pub name: String,
}

/// A point-in-time read of the guild's role table and channel table.
pub struct GuildSnapshot {
    roles: Vec<RoleInfo>,
    channels: Vec<u64>,
}

impl GuildSnapshot {
    /// Role ids are distinct.
    pub closed spec fn wf(&self) -> bool {
        forall|i: int, j: int|
            0 <= i < self.roles@.len() && 0 <= j < self.roles@.len() && self.roles@[i].id
                == self.roles@[j].id ==> i == j
    }

    /// Whether the guild has the role `id`.
    pub closed spec fn has_role(&self, id: u64) -> bool {
        exists|i: int| 0 <= i < self.roles@.len() && self.roles@[i].id == id
    }

    /// The display name of the role `id`.
    pub closed spec fn name_of(&self, id: u64) -> Seq<char> {
        self.roles@[choose|i: int| 0 <= i < self.roles@.len() && self.roles@[i].id == id].name@
    }

    /// Whether the guild has the channel `id`.
    pub closed spec fn has_channel(&self, id: u64) -> bool {
        self.channels@.contains(id)
    }

    /// A snapshot of a guild with no roles and no channels.
    pub fn new() -> (r: Self)
        ensures
            r.wf(),
            forall|id: u64| !r.has_role(id) && !r.has_channel(id),
    {
        GuildSnapshot { roles: Vec::new(), channels: Vec::new() }
    }

    fn role_index(&self, id: u64) -> (r: Option<usize>)
        requires
            self.wf(),
        ensures
            r is None <==> !self.has_role(id),
            r matches Some(i) ==> i < self.roles@.len() && self.roles@[i as int].id == id
                && self.name_of(id) == self.roles@[i as int].name@,
    {
        let mut i: usize = 0;
        while i < self.roles.len()
            invariant
                self.wf(),
                i <= self.roles@.len(),
                forall|j: int| 0 <= j < i ==> self.roles@[j].id != id,
            decreases self.roles@.len() - i,
        {
            if self.roles[i].id == id {
                proof {
                    assert(self.has_role(id));
                    let k = choose|k: int| 0 <= k < self.roles@.len() && self.roles@[k].id == id;
                    assert(k == i);
                }
                return Some(i);
            }
            i = i + 1;
        }
        None
    }

    /// Records the role `id` under `name`, replacing the name it had.
    pub fn add_role(&mut self, id: u64, name: String)
        requires
            old(self).wf(),
        ensures
            final(self).wf(),
            final(self).has_role(id),
            final(self).name_of(id) == name@,
            forall|x: u64| x != id ==> (final(self).has_role(x) <==> old(self).has_role(x)),
            forall|x: u64|
                x != id && old(self).has_role(x) ==> final(self).name_of(x) == old(self).name_of(x),
            forall|x: u64| final(self).has_channel(x) == old(self).has_channel(x),
    {
        let ghost before = self.roles@;
        let ghost name_view = name@;
        match self.role_index(id) {
            Some(i) => {
                self.roles.set(i, RoleInfo { id, name });
                assert(self.roles@[i as int].id == id);
            },
            None => {
                self.roles.push(RoleInfo { id, name });
                assert(self.roles@[before.len() as int].id == id);
            },
        }
        assert forall|x: u64| x != id && old(self).has_role(x) implies final(self).name_of(x)
            == old(self).name_of(x) by {
            let k = choose|k: int| 0 <= k < before.len() && before[k].id == x;
            assert(self.roles@[k].id == x);
        }
        assert forall|x: u64| x != id && old(self).has_role(x) implies final(self).has_role(x) by {
            let k = choose|k: int| 0 <= k < before.len() && before[k].id == x;
            assert(self.roles@[k].id == x);
        }
        assert forall|x: u64| x != id && final(self).has_role(x) implies old(self).has_role(x) by {
            let k = choose|k: int| 0 <= k < self.roles@.len() && self.roles@[k].id == x;
            assert(before[k].id == x);
        }
        assert(self.has_role(id));
        let ghost k = choose|k: int| 0 <= k < self.roles@.len() && self.roles@[k].id == id;
        assert(self.roles@[k].name@ == name_view);
    }

    /// Records the channel `id`.
    pub fn add_channel(&mut self, id: u64)
        requires
            old(self).wf(),
        ensures
            final(self).wf(),
            final(self).has_channel(id),
            forall|x: u64| x != id ==> (final(self).has_channel(x) <==> old(self).has_channel(x)),
            forall|x: u64| final(self).has_role(x) == old(self).has_role(x),
            forall|x: u64| old(self).has_role(x) ==> final(self).name_of(x) == old(self).name_of(x),
    {
        self.channels.push(id);
        assert(self.channels@.last() == id);
        assert(self.roles@ == old(self).roles@);
        assert forall|x: u64| x != id && final(self).has_channel(x) implies old(self).has_channel(
            x,
        ) by {
            let k = choose|k: int| 0 <= k < self.channels@.len() && self.channels@[k] == x;
            assert(old(self).channels@[k] == x);
        }
        assert forall|x: u64| old(self).has_channel(x) implies final(self).has_channel(x) by {
            let k = choose|k: int| 0 <= k < old(self).channels@.len() && old(self).channels@[k] == x;
            assert(self.channels@[k] == x);
        }
    }

    /// Whether the guild has the role `id`.
    pub fn role_exists(&self, id: u64) -> (r: bool)
        requires
            self.wf(),
        ensures
            r == self.has_role(id),
    {
        self.role_index(id).is_some()
    }

    /// Whether the guild has the channel `id`.
    pub fn channel_exists(&self, id: u64) -> (r: bool)
        ensures
            r == self.has_channel(id),
    {
        let mut i: usize = 0;
        while i < self.channels.len()
            invariant
                i <= self.channels@.len(),
                forall|j: int| 0 <= j < i ==> self.channels@[j] != id,
            decreases self.channels@.len() - i,
        {
            if self.channels[i] == id {
                return true;
            }
            i = i + 1;
        }
        false
    }

    /// The display name of the role `id`, if the guild has it.
    pub fn role_name(&self, id: u64) -> (r: Option<String>)
        requires
            self.wf(),
        ensures
            r is Some <==> self.has_role(id),
            r matches Some(n) ==> n@ == self.name_of(id),
    {
        match self.role_index(id) {
            Some(i) => Some(self.roles[i].name.clone()),
            None => None,
        }
    }
}

/// Whether the snapshot `s` has every role of `ids`.
pub open spec fn all_resolved(ids: Seq<u64>, s: GuildSnapshot) -> bool {
    forall|i: int| 0 <= i < ids.len() ==> s.has_role(#[trigger] ids[i])
}

/// The display names of `ids`, in their order.
pub open spec fn names_of(ids: Seq<u64>, s: GuildSnapshot) -> Seq<Seq<char>> {
    Seq::new(ids.len(), |i: int| s.name_of(ids[i]))
}

/// Resolves each of `ids` to its display name; `None` when the snapshot lacks
/// any of them.
pub fn role_names(ids: &Vec<u64>, s: &GuildSnapshot) -> (r: Option<Vec<String>>)
    requires
        s.wf(),
    ensures
        r is Some <==> all_resolved(ids@, *s),
        r matches Some(v) ==> v@.len() == ids@.len() && forall|i: int|
            0 <= i < ids@.len() ==> #[trigger] v@[i]@ == names_of(ids@, *s)[i],
{
    let mut names: Vec<String> = Vec::new();
    let mut i: usize = 0;
    while i < ids.len()
        invariant
            s.wf(),
            i <= ids@.len(),
            names@.len() == i,
            forall|j: int| 0 <= j < i ==> s.has_role(#[trigger] ids@[j]),
            forall|j: int| 0 <= j < i ==> #[trigger] names@[j]@ == s.name_of(ids@[j]),
        decreases ids@.len() - i,
    {
        match s.role_name(ids[i]) {
            Some(n) => {
                names.push(n);
            },
            None => {
                return None;
            },
        }
        i = i + 1;
    }
    Some(names)
}

/// The text that lists `names`, one per line.
pub open spec fn lines_of(names: Seq<Seq<char>>) -> Seq<char>
    decreases names.len(),
{
    if names.len() == 0 {
        Seq::empty()
    } else {
        lines_of(names.drop_last()) + names.last() + "\n"@
    }
}

/// The characters of each of `v`.
pub open spec fn views_of(v: Seq<String>) -> Seq<Seq<char>> {
    v.map_values(|n: String| n@)
}

/// Lists `names`, one per line.
pub fn lines(names: &Vec<String>) -> (r: String)
    ensures
        r@ == lines_of(views_of(names@)),
{
    let mut out = String::new();
    let mut i: usize = 0;
    while i < names.len()
        invariant
            i <= names@.len(),
            out@ == lines_of(views_of(names@.take(i as int))),
        decreases names@.len() - i,
    {
        assert(views_of(names@.take(i + 1)).drop_last() =~= views_of(names@.take(i as int)));
        out.append(names[i].as_str());
        out.append("\n");
        i = i + 1;
    }
    assert(names@.take(names@.len() as int) =~= names@);
    out
}

/// Adds `x` to `s` unless `s` holds it already.
pub open spec fn add_one(s: Seq<u64>, x: u64) -> Seq<u64> {
    if s.contains(x) {
        s
    } else {
        s.push(x)
    }
}

/// `ids` added one by one, in order, to `s`.
pub open spec fn add_all(s: Seq<u64>, ids: Seq<u64>) -> Seq<u64>
    decreases ids.len(),
{
    if ids.len() == 0 {
        s
    } else {
        add_one(add_all(s, ids.drop_last()), ids.last())
    }
}

pub open spec fn in_seq(live: Seq<u64>) -> spec_fn(u64) -> bool {
    |x: u64| live.contains(x)
}

pub open spec fn not_in_seq(live: Seq<u64>) -> spec_fn(u64) -> bool {
    |x: u64| !live.contains(x)
}

pub open spec fn other_than(id: u64) -> spec_fn(u64) -> bool {
    |x: u64| x != id
}

proof fn lemma_add_one_no_duplicates(s: Seq<u64>, x: u64)
    requires
        s.no_duplicates(),
    ensures
        add_one(s, x).no_duplicates(),
        add_one(s, x).contains(x),
        forall|y: u64| add_one(s, x).contains(y) <==> (s.contains(y) || y == x),
{
    if !s.contains(x) {
        assert(s.push(x).last() == x);
        assert forall|y: u64| s.push(x).contains(y) implies (s.contains(y) || y == x) by {
            let k = choose|k: int| 0 <= k < s.push(x).len() && s.push(x)[k] == y;
            if k < s.len() {
                assert(s[k] == y);
            }
        }
        assert forall|y: u64| s.contains(y) implies s.push(x).contains(y) by {
            let k = choose|k: int| 0 <= k < s.len() && s[k] == y;
            assert(s.push(x)[k] == y);
        }
    }
}

/// Filtering keeps a sequence free of duplicates, and keeps exactly the
/// elements that pass.
pub proof fn lemma_filter_facts(s: Seq<u64>, p: spec_fn(u64) -> bool)
    requires
        s.no_duplicates(),
    ensures
        s.filter(p).no_duplicates(),
        forall|y: u64| s.filter(p).contains(y) <==> (s.contains(y) && p(y)),
    decreases s.len(),
{
    broadcast use vstd::seq_lib::group_filter_ensures;
    if s.len() > 0 {
        let t = s.drop_last();
        let x = s.last();
        assert(s =~= t.push(x));
        assert(t.no_duplicates());
        lemma_filter_facts(t, p);
        t.lemma_filter_push(x, p);
        assert(!t.contains(x));
        assert forall|y: u64| s.filter(p).contains(y) <==> (s.contains(y) && p(y)) by {
            if s.contains(y) && p(y) {
                let k = choose|k: int| 0 <= k < s.len() && s[k] == y;
                s.lemma_filter_contains(p, k);
            }
            if s.filter(p).contains(y) {
                s.lemma_filter_contains_rev(p, y);
                let k = choose|k: int| 0 <= k < s.filter(p).len() && s.filter(p)[k] == y;
                s.lemma_filter_pred(p, k);
            }
        }
        if p(x) {
            assert(!t.filter(p).contains(x));
            let f = t.filter(p);
            assert forall|i: int, j: int|
                0 <= i < f.push(x).len() && 0 <= j < f.push(x).len() && i != j implies f.push(
                x,
            )[i] != f.push(x)[j] by {
                if i < f.len() && j < f.len() {
                } else if i < f.len() {
                    assert(f[i] != x);
                } else if j < f.len() {
                    assert(f[j] != x);
                }
            }
        }
    }
}

/// The catalog of self-assignable game roles: distinct role ids, in the order
/// in which the store handed them out.
pub struct GameCatalog {
    ids: Vec<u64>,
}

impl View for GameCatalog {
    type V = Seq<u64>;

    closed spec fn view(&self) -> Seq<u64> {
        self.ids@
    }
}

impl GameCatalog {
    /// No id appears twice.
    pub closed spec fn wf(&self) -> bool {
        self.ids@.no_duplicates()
    }

    /// An empty catalog.
    pub fn new() -> (r: Self)
        ensures
            r.wf(),
            r@ == Seq::<u64>::empty(),
    {
        GameCatalog { ids: Vec::new() }
    }

    /// The catalog that holds `ids`, each once, in the order of first appearance.
    pub fn from_ids(ids: &Vec<u64>) -> (r: Self)
        ensures
            r.wf(),
            r@ == add_all(Seq::empty(), ids@),
    {
        let mut c = GameCatalog::new();
        let mut i: usize = 0;
        while i < ids.len()
            invariant
                i <= ids@.len(),
                c.wf(),
                c@ == add_all(Seq::empty(), ids@.take(i as int)),
            decreases ids@.len() - i,
        {
            assert(ids@.take(i + 1).drop_last() =~= ids@.take(i as int));
            c.add(ids[i]);
            i = i + 1;
        }
        assert(ids@.take(ids@.len() as int) =~= ids@);
        c
    }

    /// Reads the catalog from the entries that the store holds; the first entry
    /// that is not an id fails the reading.
    pub fn from_entries(entries: &Vec<String>) -> (r: Result<Self, ParseIdError>)
        ensures
            r is Ok <==> forall|i: int| 0 <= i < entries@.len() ==> #[trigger] id_of(entries@[i]@) is Ok,
            r matches Ok(c) ==> c.wf() && c@ == add_all(Seq::empty(), ids_of(entries@)),
            r matches Err(e) ==> exists|i: int|
                0 <= i < entries@.len() && id_of(#[trigger] entries@[i]@) == Err::<u64, ParseIdError>(e)
                    && forall|j: int| 0 <= j < i ==> #[trigger] id_of(entries@[j]@) is Ok,
    {
        match parse_ids(entries) {
            Ok(ids) => Ok(GameCatalog::from_ids(&ids)),
            Err(e) => Err(e),
        }
    }

    /// The ids, in catalog order.
    pub fn ids(&self) -> (r: &Vec<u64>)
        ensures
            r@ == self@,
    {
        &self.ids
    }

    /// Whether the catalog holds `id`.
    pub fn contains(&self, id: u64) -> (r: bool)
        ensures
            r == self@.contains(id),
    {
        let mut i: usize = 0;
        while i < self.ids.len()
            invariant
                i <= self.ids@.len(),
                forall|j: int| 0 <= j < i ==> self.ids@[j] != id,
            decreases self.ids@.len() - i,
        {
            if self.ids[i] == id {
                return true;
            }
            i = i + 1;
        }
        false
    }

    /// Adds `id`; returns whether the catalog changed.
    pub fn add(&mut self, id: u64) -> (r: bool)
        requires
            old(self).wf(),
        ensures
            final(self).wf(),
            final(self)@ == add_one(old(self)@, id),
            r == !old(self)@.contains(id),
    {
        proof {
            lemma_add_one_no_duplicates(self.ids@, id);
        }
        if self.contains(id) {
            false
        } else {
            self.ids.push(id);
            true
        }
    }

    /// Removes `id`; returns whether the catalog changed.
    pub fn remove(&mut self, id: u64) -> (r: bool)
        requires
            old(self).wf(),
        ensures
            final(self).wf(),
            final(self)@ == old(self)@.filter(other_than(id)),
            r == old(self)@.contains(id),
    {
        let keys = vec![id];
        let ghost one = keys@;
        proof {
            assert(one[0] == id);
            assert forall|x: u64| one.contains(x) <==> x == id by {
                if one.contains(x) {
                    let k = choose|k: int| 0 <= k < one.len() && one[k] == x;
                }
            }
            assert(not_in_seq(one) =~= other_than(id));
            lemma_filter_facts(self.ids@, other_than(id));
            lemma_filter_facts(self.ids@, in_seq(one));
        }
        let (kept, gone) = split_by(&self.ids, &keys);
        let r = gone.len() > 0;
        proof {
            if self.ids@.contains(id) {
                assert(gone@.contains(id));
            }
            if gone@.len() > 0 {
                assert(gone@.contains(gone@[0]));
            }
        }
        self.ids = kept;
        r
    }

    /// Evicts every id that `live` lacks; returns the evicted ids, in catalog order.
    pub fn evict_missing(&mut self, live: &Vec<u64>) -> (evicted: Vec<u64>)
        requires
            old(self).wf(),
        ensures
            final(self).wf(),
            final(self)@ == old(self)@.filter(in_seq(live@)),
            evicted@ == old(self)@.filter(not_in_seq(live@)),
            evicted@.no_duplicates(),
    {
        let (gone, kept) = split_by(&self.ids, live);
        proof {
            lemma_filter_facts(self.ids@, in_seq(live@));
            lemma_filter_facts(self.ids@, not_in_seq(live@));
        }
        self.ids = kept;
        gone
    }
}

/// Splits `ids` into those that `keys` lacks and those it holds, keeping order.
pub fn split_by(ids: &Vec<u64>, keys: &Vec<u64>) -> (r: (Vec<u64>, Vec<u64>))
    ensures
        r.0@ == ids@.filter(not_in_seq(keys@)),
        r.1@ == ids@.filter(in_seq(keys@)),
{
    let mut outside: Vec<u64> = Vec::new();
    let mut inside: Vec<u64> = Vec::new();
    let mut i: usize = 0;
    while i < ids.len()
        invariant
            i <= ids@.len(),
            outside@ == ids@.take(i as int).filter(not_in_seq(keys@)),
            inside@ == ids@.take(i as int).filter(in_seq(keys@)),
        decreases ids@.len() - i,
    {
        let x = ids[i];
        proof {
            assert(ids@.take(i + 1) =~= ids@.take(i as int).push(x));
            ids@.take(i as int).lemma_filter_push(x, not_in_seq(keys@));
            ids@.take(i as int).lemma_filter_push(x, in_seq(keys@));
        }
        if contains_id(keys, x) {
            inside.push(x);
        } else {
            outside.push(x);
        }
        i = i + 1;
    }
    assert(ids@.take(ids@.len() as int) =~= ids@);
    (outside, inside)
}

/// `ids` without any occurrence of `id`, in order.
pub fn drop_id(ids: &Vec<u64>, id: u64) -> (r: Vec<u64>)
    ensures
        r@ == ids@.filter(other_than(id)),
{
    let keys = vec![id];
    let ghost one = keys@;
    proof {
        assert(one[0] == id);
        assert forall|x: u64| one.contains(x) <==> x == id by {
            if one.contains(x) {
                let k = choose|k: int| 0 <= k < one.len() && one[k] == x;
            }
        }
        assert(not_in_seq(one) =~= other_than(id));
    }
    split_by(ids, &keys).0
}

/// Whether `ids` holds `id`.
pub fn contains_id(ids: &Vec<u64>, id: u64) -> (r: bool)
    ensures
        r == ids@.contains(id),
{
    let mut i: usize = 0;
    while i < ids.len()
        invariant
            i <= ids@.len(),
            forall|j: int| 0 <= j < i ==> ids@[j] != id,
        decreases ids@.len() - i,
    {
        if ids[i] == id {
            return true;
        }
        i = i + 1;
    }
    false
}

/// The ids that `entries` denote, where each of them denotes one.
pub open spec fn ids_of(entries: Seq<String>) -> Seq<u64> {
    Seq::new(entries.len(), |i: int| id_of(entries[i]@)->Ok_0)
}

/// Whether `m` is the message of the first of `entries` that is not an id.
pub open spec fn first_parse_failure(entries: Seq<String>, m: Seq<char>) -> bool {
    exists|i: int|
        0 <= i < entries.len() && id_of(#[trigger] entries[i]@) is Err && m == id_of(
            entries[i]@,
        )->Err_0.message_spec() && forall|j: int| 0 <= j < i ==> #[trigger] id_of(entries[j]@) is Ok
}

/// Reads each entry as an id; the first entry that is not one fails the reading.
pub fn parse_ids(entries: &Vec<String>) -> (r: Result<Vec<u64>, ParseIdError>)
    ensures
        r is Ok <==> forall|i: int| 0 <= i < entries@.len() ==> #[trigger] id_of(entries@[i]@) is Ok,
        r matches Ok(v) ==> v@ == ids_of(entries@),
        r matches Err(e) ==> exists|i: int|
            0 <= i < entries@.len() && id_of(#[trigger] entries@[i]@) == Err::<u64, ParseIdError>(e)
                && forall|j: int| 0 <= j < i ==> #[trigger] id_of(entries@[j]@) is Ok,
{
    let mut ids: Vec<u64> = Vec::new();
    let mut i: usize = 0;
    while i < entries.len()
        invariant
            i <= entries@.len(),
            ids@.len() == i,
            forall|j: int| 0 <= j < i ==> #[trigger] id_of(entries@[j]@) is Ok,
            forall|j: int| 0 <= j < i ==> ids@[j] == id_of(#[trigger] entries@[j]@)->Ok_0,
        decreases entries@.len() - i,
    {
        match parse_id(entries[i].as_str()) {
            Ok(id) => {
                ids.push(id);
            },
            Err(e) => {
                assert(id_of(entries@[i as int]@) == Err::<u64, ParseIdError>(e));
                return Err(e);
            },
        }
        i = i + 1;
    }
    assert(ids@ =~= ids_of(entries@));
    Ok(ids)
}

/// The catalog roles that a member holding `held` may still add.
pub open spec fn addable(catalog: Seq<u64>, held: Seq<u64>) -> Seq<u64> {
    catalog.filter(not_in_seq(held))
}

/// The catalog roles that a member holding `held` may remove.
pub open spec fn removable(catalog: Seq<u64>, held: Seq<u64>) -> Seq<u64> {
    catalog.filter(in_seq(held))
}

/// The catalog roles that a member holding `held` does not hold yet.
pub fn candidates_to_add(catalog: &GameCatalog, held: &Vec<u64>) -> (r: Vec<u64>)
    ensures
        r@ == addable(catalog@, held@),
{
    split_by(catalog.ids(), held).0
}

/// The catalog roles that a member holding `held` holds.
pub fn candidates_to_remove(catalog: &GameCatalog, held: &Vec<u64>) -> (r: Vec<u64>)
    ensures
        r@ == removable(catalog@, held@),
{
    split_by(catalog.ids(), held).1
}

/// Whether `x` stands at exactly one place of `s`.
pub open spec fn occurs_once<T>(s: Seq<T>, x: T) -> bool {
    exists|i: int|
        0 <= i < s.len() && s[i] == x && forall|j: int| 0 <= j < s.len() && s[j] == x ==> j == i
}

proof fn lemma_filter_keeps_all(s: Seq<u64>, p: spec_fn(u64) -> bool)
    requires
        forall|i: int| 0 <= i < s.len() ==> p(#[trigger] s[i]),
    ensures
        s.filter(p) == s,
    decreases s.len(),
{
    if s.len() > 0 {
        let t = s.drop_last();
        assert(s =~= t.push(s.last()));
        assert forall|i: int| 0 <= i < t.len() implies p(#[trigger] t[i]) by {
            assert(t[i] == s[i]);
        }
        lemma_filter_keeps_all(t, p);
        t.lemma_filter_push(s.last(), p);
        assert(p(s[s.len() - 1]));
    } else {
        reveal(Seq::filter);
    }
}

proof fn lemma_no_duplicates_once(s: Seq<u64>, x: u64)
    requires
        s.no_duplicates(),
        s.contains(x),
    ensures
        occurs_once(s, x),
{
    let k = choose|k: int| 0 <= k < s.len() && s[k] == x;
    assert forall|j: int| 0 <= j < s.len() && s[j] == x implies j == k by {
    }
}

/// Adding a role to the catalog is idempotent: adding it a second time
/// changes nothing, and the role is then held exactly once. Removing a role
/// that the catalog lacks changes nothing either.
pub proof fn law_add_remove_idempotent(c: GameCatalog, r: u64)
    requires
        c.wf(),
    ensures
        add_one(add_one(c@, r), r) == add_one(c@, r),
        occurs_once(add_one(add_one(c@, r), r), r),
        !c@.contains(r) ==> c@.filter(other_than(r)) == c@,
{
    let once = add_one(c@, r);
    lemma_add_one_no_duplicates(c@, r);
    lemma_no_duplicates_once(once, r);
    if !c@.contains(r) {
        assert forall|i: int| 0 <= i < c@.len() implies other_than(r)(#[trigger] c@[i]) by {
        }
        lemma_filter_keeps_all(c@, other_than(r));
    }
}

/// Listing the catalog after adding a role that the guild has shows that
/// role's name exactly once, provided every catalog role resolves and no
/// other catalog role bears the same name.
pub proof fn law_list_after_add(c: GameCatalog, s: GuildSnapshot, r: u64)
    requires
        c.wf(),
        s.wf(),
        s.has_role(r),
        all_resolved(c@, s),
        forall|i: int| 0 <= i < c@.len() && c@[i] != r ==> s.name_of(#[trigger] c@[i]) != s.name_of(r),
    ensures
        all_resolved(add_one(c@, r), s),
        occurs_once(names_of(add_one(c@, r), s), s.name_of(r)),
{
    let after = add_one(c@, r);
    lemma_add_one_no_duplicates(c@, r);
    lemma_no_duplicates_once(after, r);
    assert forall|i: int| 0 <= i < after.len() implies s.has_role(#[trigger] after[i]) by {
        if i < c@.len() {
            assert(after[i] == c@[i]);
        }
    }
    let k = choose|k: int|
        0 <= k < after.len() && after[k] == r && forall|j: int|
            0 <= j < after.len() && after[j] == r ==> j == k;
    let names = names_of(after, s);
    assert(names[k] == s.name_of(r));
    assert forall|j: int| 0 <= j < names.len() && names[j] == s.name_of(r) implies j == k by {
        if after[j] != r {
            if j < c@.len() {
                assert(after[j] == c@[j]);
            } else {
                assert(!c@.contains(r));
                assert(after[j] == r);
            }
        }
    }
}

/// The catalog heals itself: when some catalog role is gone from the guild,
/// listing finds the catalog stale, the repair against the guild's live roles
/// evicts at least one entry, and after the repair every remaining role
/// resolves, so the next listing shows them all. The repair keeps exactly the
/// catalog roles that the guild still has.
pub proof fn law_self_healing(c: GameCatalog, s: GuildSnapshot, live: Seq<u64>)
    requires
        c.wf(),
        s.wf(),
        forall|x: u64| live.contains(x) <==> s.has_role(x),
    ensures
        !all_resolved(c@, s) ==> c@.filter(not_in_seq(live)).len() > 0,
        all_resolved(c@.filter(in_seq(live)), s),
        forall|x: u64| c@.filter(in_seq(live)).contains(x) <==> (c@.contains(x) && s.has_role(x)),
{
    lemma_filter_facts(c@, in_seq(live));
    lemma_filter_facts(c@, not_in_seq(live));
    let kept = c@.filter(in_seq(live));
    assert forall|i: int| 0 <= i < kept.len() implies s.has_role(#[trigger] kept[i]) by {
        assert(kept.contains(kept[i]));
    }
    if !all_resolved(c@, s) {
        let i = choose|i: int| 0 <= i < c@.len() && !s.has_role(#[trigger] c@[i]);
        assert(c@.contains(c@[i]));
        assert(c@.filter(not_in_seq(live)).contains(c@[i]));
    }
}

} // verus!
