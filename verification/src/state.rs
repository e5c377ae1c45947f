//! The state ledger: the persisted record of what this tool last synced,
//! keyed by remote identifier per resource category. The caller loads and
//! persists it; every lookup and mutation here is verified.

use vstd::prelude::*;
use crate::text::lower_of;

verus! {

/// The last-synced attributes of one remote resource.
pub struct ResourceState {
    pub name: String,
    pub description: Option<String>,
    pub price: Option<u64>,
    pub is_for_sale: Option<bool>,
    pub is_enabled: Option<bool>,
    pub icon_hash: Option<String>,
    pub icon_asset_id: Option<u64>,
}

impl ResourceState {
    /// The ledger invariant: an icon asset identifier is only recorded
    /// together with the hash of the exact bytes that produced it.
    pub open spec fn wf(&self) -> bool {
        self.icon_asset_id is Some ==> self.icon_hash is Some
    }
}

fn clone_opt_string(o: &Option<String>) -> (r: Option<String>)
    ensures
        r == *o,
{
    match o {
        Some(s) => Some(s.clone()),
        None => None,
    }
}

impl Clone for ResourceState {
    fn clone(&self) -> (r: Self)
        ensures
            r == *self,
    {
        ResourceState {
            name: self.name.clone(),
            description: clone_opt_string(&self.description),
            price: self.price,
            is_for_sale: self.is_for_sale,
            is_enabled: self.is_enabled,
            icon_hash: clone_opt_string(&self.icon_hash),
            icon_asset_id: self.icon_asset_id,
        }
    }
}

/// No two entries of a category ledger share an identifier.
pub open spec fn ids_unique(entries: Seq<(u64, ResourceState)>) -> bool {
    forall|i: int, j: int|
        0 <= i < j < entries.len() ==> entries[i].0 != entries[j].0
}

/// A category ledger is well formed: identifiers are unique and every
/// entry satisfies the ledger invariant.
pub open spec fn entries_wf(entries: Seq<(u64, ResourceState)>) -> bool {
    &&& ids_unique(entries)
    &&& forall|i: int| 0 <= i < entries.len() ==> (#[trigger] entries[i]).1.wf()
}

/// The entry recorded under an identifier, if any.
pub open spec fn find_id_spec(entries: Seq<(u64, ResourceState)>, id: u64) -> Option<ResourceState>
    decreases entries.len(),
{
    if entries.len() == 0 {
        None
    } else if entries[0].0 == id {
        Some(entries[0].1)
    } else {
        find_id_spec(entries.drop_first(), id)
    }
}

/// The first entry whose name matches up to case, if any.
pub open spec fn find_by_name_spec(
    entries: Seq<(u64, ResourceState)>,
    name: Seq<char>,
) -> Option<(u64, ResourceState)>
    decreases entries.len(),
{
    if entries.len() == 0 {
        None
    } else if lower_of(entries[0].1.name@) == lower_of(name) {
        Some(entries[0])
    } else {
        find_by_name_spec(entries.drop_first(), name)
    }
}

/// An identifier is found exactly when some entry carries it.
pub proof fn lemma_find_id_none(entries: Seq<(u64, ResourceState)>, id: u64)
    ensures
        (find_id_spec(entries, id) is None) <==> (forall|i: int|
            0 <= i < entries.len() ==> (#[trigger] entries[i]).0 != id),
    decreases entries.len(),
{
    if entries.len() > 0 {
        lemma_find_id_none(entries.drop_first(), id);
        let rest = entries.drop_first();
        assert(forall|j: int| 0 <= j < rest.len() ==> #[trigger] rest[j] == entries[j + 1]);
        if find_id_spec(entries, id) is None {
            assert forall|i: int| 0 <= i < entries.len() implies (#[trigger] entries[i]).0 != id by {
                if i > 0 {
                    assert(rest[i - 1] == entries[i]);
                }
            }
        } else {
            if entries[0].0 != id {
                assert(find_id_spec(rest, id) is Some);
                let k = choose|k: int| 0 <= k < rest.len() && (#[trigger] rest[k]).0 == id;
                assert(entries[k + 1].0 == id);
            }
        }
    }
}

/// A name lookup that succeeds returns an entry the ledger holds.
pub proof fn lemma_find_by_name_some_in(entries: Seq<(u64, ResourceState)>, name: Seq<char>)
    ensures
        find_by_name_spec(entries, name) matches Some(p) ==> exists|k: int|
            0 <= k < entries.len() && entries[k] == p,
    decreases entries.len(),
{
    if entries.len() > 0 {
        if lower_of(entries[0].1.name@) == lower_of(name) {
            assert(entries[0] == find_by_name_spec(entries, name)->Some_0);
        } else {
            let rest = entries.drop_first();
            lemma_find_by_name_some_in(rest, name);
            if find_by_name_spec(entries, name) is Some {
                let p = find_by_name_spec(entries, name)->Some_0;
                let k = choose|k: int| 0 <= k < rest.len() && rest[k] == p;
                assert(entries[k + 1] == p);
            }
        }
    }
}

proof fn lemma_find_id_update(entries: Seq<(u64, ResourceState)>, i: int, id: u64, entry: ResourceState)
    requires
        ids_unique(entries),
        0 <= i < entries.len(),
        entries[i].0 == id,
    ensures
        find_id_spec(entries.update(i, (id, entry)), id) == Some(entry),
        forall|o: u64| o != id ==> find_id_spec(entries.update(i, (id, entry)), o)
            == find_id_spec(entries, o),
    decreases entries.len(),
{
    let updated = entries.update(i, (id, entry));
    if i == 0 {
        assert(updated[0] == (id, entry));
        assert(updated.drop_first() =~= entries.drop_first());
        assert forall|o: u64| o != id implies find_id_spec(updated, o) == find_id_spec(
            entries,
            o,
        ) by {
            assert(find_id_spec(updated, o) == find_id_spec(updated.drop_first(), o));
            assert(find_id_spec(entries, o) == find_id_spec(entries.drop_first(), o));
        }
    } else {
        assert(updated[0] == entries[0]);
        assert(updated.drop_first() =~= entries.drop_first().update(i - 1, (id, entry)));
        assert(entries.drop_first()[i - 1].0 == id);
        lemma_find_id_update(entries.drop_first(), i - 1, id, entry);
        assert(entries[0].0 != id);
        assert(find_id_spec(updated, id) == find_id_spec(updated.drop_first(), id));
        assert forall|o: u64| o != id implies find_id_spec(updated, o) == find_id_spec(
            entries,
            o,
        ) by {
            if updated[0].0 == o {
            } else {
                assert(find_id_spec(updated, o) == find_id_spec(updated.drop_first(), o));
                assert(find_id_spec(entries, o) == find_id_spec(entries.drop_first(), o));
            }
        }
    }
}

proof fn lemma_find_id_push(entries: Seq<(u64, ResourceState)>, id: u64, entry: ResourceState)
    requires
        forall|i: int| 0 <= i < entries.len() ==> (#[trigger] entries[i]).0 != id,
    ensures
        find_id_spec(entries.push((id, entry)), id) == Some(entry),
        forall|o: u64| o != id ==> find_id_spec(entries.push((id, entry)), o)
            == find_id_spec(entries, o),
    decreases entries.len(),
{
    let pushed = entries.push((id, entry));
    if entries.len() == 0 {
        assert(pushed[0] == (id, entry));
        assert(pushed.drop_first() =~= Seq::<(u64, ResourceState)>::empty());
        assert forall|o: u64| o != id implies find_id_spec(pushed, o) == find_id_spec(
            entries,
            o,
        ) by {
            assert(find_id_spec(pushed, o) == find_id_spec(pushed.drop_first(), o));
        }
    } else {
        assert(pushed[0] == entries[0]);
        assert(pushed.drop_first() =~= entries.drop_first().push((id, entry)));
        let rest = entries.drop_first();
        assert(forall|j: int| 0 <= j < rest.len() ==> #[trigger] rest[j] == entries[j + 1]);
        lemma_find_id_push(rest, id, entry);
        assert(entries[0].0 != id);
        assert(find_id_spec(pushed, id) == find_id_spec(pushed.drop_first(), id));
        assert forall|o: u64| o != id implies find_id_spec(pushed, o) == find_id_spec(
            entries,
            o,
        ) by {
            if pushed[0].0 == o {
            } else {
                assert(find_id_spec(pushed, o) == find_id_spec(pushed.drop_first(), o));
                assert(find_id_spec(entries, o) == find_id_spec(rest, o));
            }
        }
    }
}

/// Looks an entry up by identifier.
pub fn ledger_find_by_id(entries: &Vec<(u64, ResourceState)>, id: u64) -> (r: Option<&ResourceState>)
    ensures
        match r {
            Some(e) => find_id_spec(entries@, id) == Some(*e),
            None => find_id_spec(entries@, id) is None,
        },
{
    let mut i: usize = 0;
    assert(entries@.skip(0) =~= entries@);
    while i < entries.len()
        invariant
            i <= entries@.len(),
            find_id_spec(entries@, id) == find_id_spec(entries@.skip(i as int), id),
        decreases entries@.len() - i,
    {
        assert(entries@.skip(i as int)[0] == entries@[i as int]);
        if entries[i].0 == id {
            return Some(&entries[i].1);
        }
        assert(entries@.skip(i as int).drop_first() =~= entries@.skip(i + 1));
        i += 1;
    }
    assert(entries@.skip(i as int) =~= Seq::<(u64, ResourceState)>::empty());
    None
}

/// Looks an entry up by name, ignoring ASCII case.
pub fn ledger_find_by_name<'a>(
    entries: &'a Vec<(u64, ResourceState)>,
    name: &str,
) -> (r: Option<(u64, &'a ResourceState)>)
    ensures
        match r {
            Some(p) => find_by_name_spec(entries@, name@) == Some((p.0, *p.1)),
            None => find_by_name_spec(entries@, name@) is None,
        },
{
    let mut i: usize = 0;
    assert(entries@.skip(0) =~= entries@);
    while i < entries.len()
        invariant
            i <= entries@.len(),
            find_by_name_spec(entries@, name@) == find_by_name_spec(entries@.skip(i as int), name@),
        decreases entries@.len() - i,
    {
        assert(entries@.skip(i as int)[0] == entries@[i as int]);
        if crate::text::eq_ignore_case(entries[i].1.name.as_str(), name) {
            return Some((entries[i].0, &entries[i].1));
        }
        assert(entries@.skip(i as int).drop_first() =~= entries@.skip(i + 1));
        i += 1;
    }
    assert(entries@.skip(i as int) =~= Seq::<(u64, ResourceState)>::empty());
    None
}

/// Replaces the entry recorded under an identifier, or records a new one:
/// the entry is overwritten wholesale, never merged.
pub fn ledger_upsert(entries: &mut Vec<(u64, ResourceState)>, id: u64, entry: ResourceState)
    requires
        entries_wf(old(entries)@),
        entry.wf(),
    ensures
        entries_wf(final(entries)@),
        find_id_spec(final(entries)@, id) == Some(entry),
        forall|o: u64| o != id ==> find_id_spec(final(entries)@, o) == find_id_spec(old(entries)@, o),
        (exists|i: int|
            0 <= i < old(entries)@.len() && old(entries)@[i].0 == id
                && final(entries)@ == old(entries)@.update(i, (id, entry)))
            || (find_id_spec(old(entries)@, id) is None
                && final(entries)@ == old(entries)@.push((id, entry))),
{
    let ghost orig = entries@;
    let mut i: usize = 0;
    while i < entries.len()
        invariant
            entries@ == orig,
            orig == old(entries)@,
            entries_wf(orig),
            entry.wf(),
            i <= entries@.len(),
            forall|j: int| 0 <= j < i ==> (#[trigger] entries@[j]).0 != id,
        decreases entries@.len() - i,
    {
        if entries[i].0 == id {
            entries.remove(i);
            entries.insert(i, (id, entry));
            proof {
                assert(entries@ =~= orig.update(i as int, (id, entry)));
                assert(0 <= (i as int) && (i as int) < orig.len() && orig[i as int].0 == id
                    && entries@ == orig.update(i as int, (id, entry)));
                lemma_find_id_update(orig, i as int, id, entry);
                assert(ids_unique(entries@)) by {
                    assert(forall|k: int|
                        0 <= k < entries@.len() && k != i ==> entries@[k] == orig[k]);
                }
            }
            return;
        }
        i += 1;
    }
    entries.push((id, entry));
    proof {
        lemma_find_id_none(orig, id);
        assert(entries@ == orig.push((id, entry)));
        lemma_find_id_push(orig, id, entry);
        assert(forall|k: int|
            0 <= k < orig.len() ==> #[trigger] entries@[k] == orig[k]);
        assert(entries@[orig.len() as int] == (id, entry));
    }
}

/// The persisted ledger: one category ledger per resource kind.
pub struct SyncState {
    /// Game passes keyed by their remote identifier.
    pub game_passes: Vec<(u64, ResourceState)>,
    /// Developer products keyed by their remote identifier.
    pub developer_products: Vec<(u64, ResourceState)>,
    /// Badges keyed by their remote identifier.
    pub badges: Vec<(u64, ResourceState)>,
}

impl SyncState {
    pub open spec fn wf(&self) -> bool {
        &&& entries_wf(self.game_passes@)
        &&& entries_wf(self.developer_products@)
        &&& entries_wf(self.badges@)
    }

    /// An empty ledger: what a first run starts from.
    pub fn new() -> (r: Self)
        ensures
            r.wf(),
            r.game_passes@.len() == 0,
            r.developer_products@.len() == 0,
            r.badges@.len() == 0,
    {
        SyncState { game_passes: Vec::new(), developer_products: Vec::new(), badges: Vec::new() }
    }

    /// Find a game pass by name (case-insensitive) and return (id, state).
    pub fn find_game_pass_by_name<'a>(&'a self, name: &str) -> (r: Option<(u64, &'a ResourceState)>)
        ensures
            match r {
                Some(p) => find_by_name_spec(self.game_passes@, name@) == Some((p.0, *p.1)),
                None => find_by_name_spec(self.game_passes@, name@) is None,
            },
    {
        ledger_find_by_name(&self.game_passes, name)
    }

    /// Find a developer product by name (case-insensitive) and return (id, state).
    pub fn find_developer_product_by_name<'a>(&'a self, name: &str) -> (r: Option<
        (u64, &'a ResourceState),
    >)
        ensures
            match r {
                Some(p) => find_by_name_spec(self.developer_products@, name@) == Some((p.0, *p.1)),
                None => find_by_name_spec(self.developer_products@, name@) is None,
            },
    {
        ledger_find_by_name(&self.developer_products, name)
    }

    /// Find a badge by name (case-insensitive) and return (id, state).
    pub fn find_badge_by_name<'a>(&'a self, name: &str) -> (r: Option<(u64, &'a ResourceState)>)
        ensures
            match r {
                Some(p) => find_by_name_spec(self.badges@, name@) == Some((p.0, *p.1)),
                None => find_by_name_spec(self.badges@, name@) is None,
            },
    {
        ledger_find_by_name(&self.badges, name)
    }

    /// Overwrites the game-pass entry for an identifier with the given
    /// last-synced attributes.
    pub fn update_game_pass(
        &mut self,
        id: u64,
        name: String,
        description: Option<String>,
        price: Option<u64>,
        is_for_sale: Option<bool>,
        icon_hash: Option<String>,
        icon_asset_id: Option<u64>,
    )
        requires
            old(self).wf(),
            icon_asset_id is Some ==> icon_hash is Some,
        ensures
            final(self).wf(),
            find_id_spec(final(self).game_passes@, id) == Some(ResourceState {
                name,
                description,
                price,
                is_for_sale,
                is_enabled: None,
                icon_hash,
                icon_asset_id,
            }),
            forall|o: u64| o != id ==> find_id_spec(final(self).game_passes@, o)
                == find_id_spec(old(self).game_passes@, o),
            final(self).developer_products == old(self).developer_products,
            final(self).badges == old(self).badges,
    {
        let entry = ResourceState {
            name,
            description,
            price,
            is_for_sale,
            is_enabled: None,
            icon_hash,
            icon_asset_id,
        };
        ledger_upsert(&mut self.game_passes, id, entry);
    }

    /// Overwrites the developer-product entry for an identifier with the
    /// given last-synced attributes.
    pub fn update_developer_product(
        &mut self,
        id: u64,
        name: String,
        description: Option<String>,
        price: Option<u64>,
        icon_hash: Option<String>,
        icon_asset_id: Option<u64>,
    )
        requires
            old(self).wf(),
            icon_asset_id is Some ==> icon_hash is Some,
        ensures
            final(self).wf(),
            find_id_spec(final(self).developer_products@, id) == Some(ResourceState {
                name,
                description,
                price,
                is_for_sale: None,
                is_enabled: None,
                icon_hash,
                icon_asset_id,
            }),
            forall|o: u64| o != id ==> find_id_spec(final(self).developer_products@, o)
                == find_id_spec(old(self).developer_products@, o),
            final(self).game_passes == old(self).game_passes,
            final(self).badges == old(self).badges,
    {
        let entry = ResourceState {
            name,
            description,
            price,
            is_for_sale: None,
            is_enabled: None,
            icon_hash,
            icon_asset_id,
        };
        ledger_upsert(&mut self.developer_products, id, entry);
    }

    /// Overwrites the badge entry for an identifier with the given
    /// last-synced attributes.
    pub fn update_badge(
        &mut self,
        id: u64,
        name: String,
        description: Option<String>,
        is_enabled: Option<bool>,
        icon_hash: Option<String>,
        icon_asset_id: Option<u64>,
    )
        requires
            old(self).wf(),
            icon_asset_id is Some ==> icon_hash is Some,
        ensures
            final(self).wf(),
            find_id_spec(final(self).badges@, id) == Some(ResourceState {
                name,
                description,
                price: None,
                is_for_sale: None,
                is_enabled,
                icon_hash,
                icon_asset_id,
            }),
            forall|o: u64| o != id ==> find_id_spec(final(self).badges@, o)
                == find_id_spec(old(self).badges@, o),
            final(self).game_passes == old(self).game_passes,
            final(self).developer_products == old(self).developer_products,
    {
        let entry = ResourceState {
            name,
            description,
            price: None,
            is_for_sale: None,
            is_enabled,
            icon_hash,
            icon_asset_id,
        };
        ledger_upsert(&mut self.badges, id, entry);
    }
}

impl Default for SyncState {
    /// The empty ledger.
    fn default() -> (r: Self)
        ensures
            r.wf(),
            r.game_passes@.len() == 0,
            r.developer_products@.len() == 0,
            r.badges@.len() == 0,
    {
        SyncState::new()
    }
}

} // verus!
