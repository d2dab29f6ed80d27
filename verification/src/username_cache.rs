//! A cache of player names and UUIDs, filled from the server's user cache
//! and from the answers of the Mojang profile services.

use vstd::prelude::*;
use std::collections::HashMap;
use crate::text::{concat, str_equal};
use crate::player_id::{hyphenated, uuid_text};

verus! {

/// A player's UUID and name, as the user cache and the profile services give them.
#[derive(Debug)]
pub struct LookupEntry {
    pub uuid: u128,
    pub name: String,
}

/// Player names by UUID and UUIDs by name. The two maps are filled
/// together but kept apart: a player who changed names keeps the old name
/// as a key of the second map.
#[derive(Debug)]
pub struct UsernameCache {
    uuid_to_name: HashMap<u128, String>,
    name_to_uuid: Vec<(String, u128)>,
}

/// The pair at `i` has the name `k`.
pub open spec fn name_at(v: Seq<(String, u128)>, i: int, k: Seq<char>) -> bool {
    0 <= i < v.len() && v[i].0@ == k
}

/// The service that gives a player's UUID for a name.
pub open spec fn spec_profile_url_for_name(name: Seq<char>) -> Seq<char> {
    "https://api.mojang.com/users/profiles/minecraft/"@ + name
}

/// The service that gives a player's name for a UUID.
pub open spec fn spec_profile_url_for_uuid(uuid: u128) -> Seq<char> {
    "https://api.minecraftservices.com/minecraft/profile/lookup/"@ + hyphenated(uuid)
}

/// The result of asking the cache for a player's UUID.
pub enum UuidLookup {
    /// The cache knows the UUID.
    Cached(u128),
    /// The cache does not know it; ask the profile service at this URL.
    Fetch(String),
}

/// The result of asking the cache for a player's name.
pub enum NameLookup {
    /// The cache knows the name.
    Cached(String),
    /// The cache does not know it; ask the profile service at this URL.
    Fetch(String),
}

/// The names by UUID after recording `entries` in order, starting from `m`.
pub open spec fn names_after(m: Map<u128, Seq<char>>, entries: Seq<(u128, Seq<char>)>) -> Map<u128, Seq<char>>
    decreases entries.len(),
{
    if entries.len() == 0 {
        m
    } else {
        names_after(m, entries.drop_last()).insert(entries.last().0, entries.last().1)
    }
}

/// The UUIDs by name after recording `entries` in order, starting from `m`.
pub open spec fn uuids_after(m: Map<Seq<char>, u128>, entries: Seq<(u128, Seq<char>)>) -> Map<Seq<char>, u128>
    decreases entries.len(),
{
    if entries.len() == 0 {
        m
    } else {
        uuids_after(m, entries.drop_last()).insert(entries.last().1, entries.last().0)
    }
}

pub open spec fn entries_view(entries: Seq<LookupEntry>) -> Seq<(u128, Seq<char>)> {
    entries.map_values(|e: LookupEntry| (e.uuid, e.name@))
}

impl Default for UsernameCache {
    /// An empty cache.
    fn default() -> (c: UsernameCache)
        ensures
            c.names() == Map::<u128, Seq<char>>::empty(),
            c.uuids() == Map::<Seq<char>, u128>::empty(),
    {
        UsernameCache::new()
    }
}

/// Once a profile service has answered a lookup and the answer was
/// recorded, the next lookup of the same name or UUID is answered by the
/// cache with that answer.
pub proof fn lemma_recorded_profile_is_cached(
    names: Map<u128, Seq<char>>,
    uuids: Map<Seq<char>, u128>,
    uuid: u128,
    name: Seq<char>,
)
    ensures
        names.insert(uuid, name).contains_key(uuid),
        names.insert(uuid, name)[uuid] == name,
        uuids.insert(name, uuid).contains_key(name),
        uuids.insert(name, uuid)[name] == uuid,
{
}

/// When the user cache lists a UUID, the last entry that lists it gives
/// its name; likewise the last entry with a name gives its UUID.
pub proof fn lemma_last_entry_wins(entries: Seq<(u128, Seq<char>)>, i: int)
    requires
        0 <= i < entries.len(),
    ensures
        (forall|j: int| i < j < entries.len() ==> entries[j].0 != entries[i].0) ==> names_after(
            Map::empty(),
            entries,
        ).contains_key(entries[i].0) && names_after(Map::empty(), entries)[entries[i].0]
            == entries[i].1,
        (forall|j: int| i < j < entries.len() ==> entries[j].1 != entries[i].1) ==> uuids_after(
            Map::empty(),
            entries,
        ).contains_key(entries[i].1) && uuids_after(Map::empty(), entries)[entries[i].1]
            == entries[i].0,
    decreases entries.len(),
{
    if i < entries.len() - 1 {
        let rest = entries.drop_last();
        lemma_last_entry_wins(rest, i);
        assert(forall|j: int| i < j < rest.len() ==> rest[j] == entries[j]);
    }
}

impl UsernameCache {
    /// Names by UUID.
    pub closed spec fn names(self) -> Map<u128, Seq<char>> {
        self.uuid_to_name@.map_values(|s: String| s@)
    }

    /// UUIDs by name.
    pub closed spec fn uuids(self) -> Map<Seq<char>, u128> {
        Map::new(
            |k: Seq<char>| exists|i: int| name_at(self.name_to_uuid@, i, k),
            |k: Seq<char>| self.name_to_uuid@[choose|i: int| name_at(self.name_to_uuid@, i, k)].1,
        )
    }

    #[verifier::type_invariant]
    closed spec fn names_distinct(self) -> bool {
        forall|i: int, j: int|
            0 <= i < self.name_to_uuid@.len() && 0 <= j < self.name_to_uuid@.len() && i != j
                ==> self.name_to_uuid@[i].0@ != self.name_to_uuid@[j].0@
    }

    /// An empty cache.
    pub fn new() -> (c: UsernameCache)
        ensures
            c.names() == Map::<u128, Seq<char>>::empty(),
            c.uuids() == Map::<Seq<char>, u128>::empty(),
    {
        let c = UsernameCache { uuid_to_name: HashMap::new(), name_to_uuid: Vec::new() };
        assert(c.names() =~= Map::<u128, Seq<char>>::empty());
        assert(c.uuids() =~= Map::<Seq<char>, u128>::empty());
        c
    }

    fn name_position(v: &Vec<(String, u128)>, name: &str) -> (r: Option<usize>)
        ensures
            match r {
                Some(k) => name_at(v@, k as int, name@),
                None => forall|i: int| !name_at(v@, i, name@),
            },
    {
        let mut i: usize = 0;
        while i < v.len()
            invariant
                i <= v.len(),
                forall|j: int| 0 <= j < i ==> !name_at(v@, j, name@),
            decreases v.len() - i,
        {
            if str_equal(v[i].0.as_str(), name) {
                return Some(i);
            }
            i = i + 1;
        }
        None
    }

    /// The UUID cached for a name.
    pub fn cached_uuid(&self, name: &str) -> (r: Option<u128>)
        ensures
            match r {
                Some(u) => self.uuids().contains_key(name@) && self.uuids()[name@] == u,
                None => !self.uuids().contains_key(name@),
            },
    {
        proof {
            use_type_invariant(self);
        }
        match Self::name_position(&self.name_to_uuid, name) {
            Some(k) => {
                let ghost w = choose|i: int| name_at(self.name_to_uuid@, i, name@);
                assert(name_at(self.name_to_uuid@, w, name@));
                assert(w == k as int);
                Some(self.name_to_uuid[k].1)
            },
            None => None,
        }
    }

    /// The name cached for a UUID.
    pub fn cached_name(&self, uuid: u128) -> (r: Option<String>)
        ensures
            match r {
                Some(n) => self.names().contains_key(uuid) && self.names()[uuid] == n@,
                None => !self.names().contains_key(uuid),
            },
    {
        broadcast use vstd::std_specs::hash::group_hash_axioms;
        match self.uuid_to_name.get(&uuid) {
            Some(n) => Some(n.clone()),
            None => None,
        }
    }

    /// Records a player's UUID and name in both maps.
    pub fn record(&mut self, uuid: u128, name: String)
        ensures
            final(self).names() == old(self).names().insert(uuid, name@),
            final(self).uuids() == old(self).uuids().insert(name@, uuid),
    {
        broadcast use vstd::std_specs::hash::group_hash_axioms;
        proof {
            use_type_invariant(&*self);
        }
        let ghost old_names = self.names();
        let ghost old_uuids = self.uuids();
        let ghost old_v = self.name_to_uuid@;
        let position = Self::name_position(&self.name_to_uuid, name.as_str());
        let mut pairs: Vec<(String, u128)> = Vec::new();
        std::mem::swap(&mut pairs, &mut self.name_to_uuid);
        let ghost key = name@;
        match position {
            Some(k) => {
                pairs.set(k, (name.clone(), uuid));
            },
            None => {
                pairs.push((name.clone(), uuid));
            },
        }
        let ghost v = pairs@;
        assert forall|i: int, j: int|
            0 <= i < v.len() && 0 <= j < v.len() && i != j implies v[i].0@ != v[j].0@ by {
            if position is None {
                if i == old_v.len() {
                    assert(!name_at(old_v, j, key));
                } else if j == old_v.len() {
                    assert(!name_at(old_v, i, key));
                } else {
                    assert(v[i] == old_v[i] && v[j] == old_v[j]);
                }
            } else {
                let k = position->0 as int;
                if i == k {
                    assert(name_at(old_v, k, key));
                    assert(v[j] == old_v[j]);
                } else if j == k {
                    assert(name_at(old_v, k, key));
                    assert(v[i] == old_v[i]);
                } else {
                    assert(v[i] == old_v[i] && v[j] == old_v[j]);
                }
            }
        }
        self.name_to_uuid = pairs;
        let mut by_uuid: HashMap<u128, String> = HashMap::new();
        std::mem::swap(&mut by_uuid, &mut self.uuid_to_name);
        by_uuid.insert(uuid, name);
        self.uuid_to_name = by_uuid;
        assert(self.names() =~= old_names.insert(uuid, key));
        let ghost new_uuids = self.uuids();
        assert forall|k2: Seq<char>| #[trigger] new_uuids.contains_key(k2) <==> old_uuids.insert(key, uuid).contains_key(k2) by {
            if k2 == key {
                if position is None {
                    assert(name_at(v, old_v.len() as int, key));
                } else {
                    assert(name_at(v, position->0 as int, key));
                }
            } else {
                if exists|i: int| name_at(v, i, k2) {
                    let i = choose|i: int| name_at(v, i, k2);
                    assert(name_at(old_v, i, k2));
                }
                if exists|i: int| name_at(old_v, i, k2) {
                    let i = choose|i: int| name_at(old_v, i, k2);
                    assert(name_at(v, i, k2));
                }
            }
        }
        assert forall|k2: Seq<char>| #[trigger] new_uuids.contains_key(k2) implies new_uuids[k2] == old_uuids.insert(key, uuid)[k2] by {
            let a = choose|i: int| name_at(v, i, k2);
            if k2 == key {
                if position is None {
                    assert(name_at(v, old_v.len() as int, key));
                    assert(a == old_v.len() as int);
                } else {
                    assert(name_at(v, position->0 as int, key));
                    assert(a == position->0 as int);
                }
            } else {
                assert(name_at(old_v, a, k2));
                let b = choose|i: int| name_at(old_v, i, k2);
                assert(a == b);
            }
        }
        assert(new_uuids =~= old_uuids.insert(key, uuid));
    }

    /// The cache filled from the entries of the server's user cache, in
    /// order: a later entry for the same UUID or name replaces an earlier one.
    pub fn from_entries(entries: Vec<LookupEntry>) -> (c: UsernameCache)
        ensures
            c.names() == names_after(Map::empty(), entries_view(entries@)),
            c.uuids() == uuids_after(Map::empty(), entries_view(entries@)),
    {
        let mut c = UsernameCache::new();
        let ghost ev = entries_view(entries@);
        let mut i: usize = 0;
        while i < entries.len()
            invariant
                i <= entries.len(),
                ev == entries_view(entries@),
                c.names() == names_after(Map::empty(), ev.subrange(0, i as int)),
                c.uuids() == uuids_after(Map::empty(), ev.subrange(0, i as int)),
            decreases entries.len() - i,
        {
            let e = &entries[i];
            assert(ev.subrange(0, i + 1).drop_last() =~= ev.subrange(0, i as int));
            assert(ev.subrange(0, i + 1).last() == (e.uuid, e.name@));
            c.record(e.uuid, e.name.clone());
            i = i + 1;
        }
        assert(ev.subrange(0, entries.len() as int) =~= ev);
        c
    }

    /// The first step of finding a player's UUID by name: the cached UUID,
    /// or the URL of the profile service to ask.
    pub fn begin_username_lookup(&self, name: &str) -> (r: UuidLookup)
        ensures
            match r {
                UuidLookup::Cached(u) => self.uuids().contains_key(name@) && self.uuids()[name@] == u,
                UuidLookup::Fetch(url) => !self.uuids().contains_key(name@) && url@
                    == spec_profile_url_for_name(name@),
            },
    {
        match self.cached_uuid(name) {
            Some(u) => UuidLookup::Cached(u),
            None => UuidLookup::Fetch(
                concat("https://api.mojang.com/users/profiles/minecraft/", name),
            ),
        }
    }

    /// The first step of finding a player's name by UUID: the cached name,
    /// or the URL of the profile service to ask.
    pub fn begin_uuid_lookup(&self, uuid: u128) -> (r: NameLookup)
        ensures
            match r {
                NameLookup::Cached(n) => self.names().contains_key(uuid) && self.names()[uuid] == n@,
                NameLookup::Fetch(url) => !self.names().contains_key(uuid) && url@
                    == spec_profile_url_for_uuid(uuid),
            },
    {
        match self.cached_name(uuid) {
            Some(n) => NameLookup::Cached(n),
            None => {
                let text = uuid_text(uuid);
                NameLookup::Fetch(
                    concat(
                        "https://api.minecraftservices.com/minecraft/profile/lookup/",
                        text.as_str(),
                    ),
                )
            },
        }
    }

    /// The last step of a lookup that asked a profile service: a profile
    /// it returned is recorded and its UUID given back; no profile leaves
    /// the cache as it was.
    pub fn finish_username_lookup(&mut self, profile: Option<LookupEntry>) -> (r: Option<u128>)
        ensures
            match profile {
                Some(p) => {
                    &&& r == Some(p.uuid)
                    &&& final(self).names() == old(self).names().insert(p.uuid, p.name@)
                    &&& final(self).uuids() == old(self).uuids().insert(p.name@, p.uuid)
                },
                None => r is None && final(self).names() == old(self).names()
                    && final(self).uuids() == old(self).uuids(),
            },
    {
        match profile {
            Some(p) => {
                let uuid = p.uuid;
                self.record(uuid, p.name);
                Some(uuid)
            },
            None => None,
        }
    }

    /// The last step of a lookup by UUID that asked a profile service: a
    /// profile it returned is recorded and its name given back; no profile
    /// leaves the cache as it was.
    pub fn finish_uuid_lookup(&mut self, profile: Option<LookupEntry>) -> (r: Option<String>)
        ensures
            match profile {
                Some(p) => {
                    &&& r matches Some(n) && n@ == p.name@
                    &&& final(self).names() == old(self).names().insert(p.uuid, p.name@)
                    &&& final(self).uuids() == old(self).uuids().insert(p.name@, p.uuid)
                },
                None => r is None && final(self).names() == old(self).names()
                    && final(self).uuids() == old(self).uuids(),
            },
    {
        match profile {
            Some(p) => {
                let name = p.name.clone();
                self.record(p.uuid, p.name);
                Some(name)
            },
            None => None,
        }
    }
}

} // verus!
