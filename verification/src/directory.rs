//! The remote resource directory: the live name-to-identifier index of one
//! resource category, merged from all pages of the platform's listing. It
//! is recomputed every run and never persisted; the reconciler consults it
//! only when the ledger has no record of a name.

use vstd::prelude::*;

verus! {

/// One listed remote resource: identifier and name.
pub struct DirectoryEntry {
    pub id: u64,
    pub name: String,
}

impl Clone for DirectoryEntry {
    fn clone(&self) -> (r: Self)
        ensures
            r == *self,
    {
        DirectoryEntry { id: self.id, name: self.name.clone() }
    }
}

/// One page of a listing response: its items and the cursor of the next
/// page, absent on the terminal page.
pub struct ListResponse<T> {
    pub data: Vec<T>,
    pub next_page_cursor: Option<String>,
}

/// No two directory entries share a name.
pub open spec fn names_unique(entries: Seq<DirectoryEntry>) -> bool {
    forall|i: int, j: int|
        0 <= i < j < entries.len() ==> (#[trigger] entries[i]).name@ != (
        #[trigger] entries[j]).name@
}

/// The identifier filed under a name, if any.
pub open spec fn dir_find(entries: Seq<DirectoryEntry>, name: Seq<char>) -> Option<u64>
    decreases entries.len(),
{
    if entries.len() == 0 {
        None
    } else if entries[0].name@ == name {
        Some(entries[0].id)
    } else {
        dir_find(entries.drop_first(), name)
    }
}

/// The identifier of the last item with a name in a listing: the
/// last-seen-wins reading of a page stream.
pub open spec fn last_wins(items: Seq<DirectoryEntry>, name: Seq<char>) -> Option<u64>
    decreases items.len(),
{
    if items.len() == 0 {
        None
    } else if items.last().name@ == name {
        Some(items.last().id)
    } else {
        last_wins(items.drop_last(), name)
    }
}

/// What a directory holds after merging a page into it: the page's items,
/// last seen wins, over the directory's prior contents.
pub open spec fn merge_find(
    base: Seq<DirectoryEntry>,
    items: Seq<DirectoryEntry>,
    name: Seq<char>,
) -> Option<u64> {
    match last_wins(items, name) {
        Some(id) => Some(id),
        None => dir_find(base, name),
    }
}

/// Looks a name up in the directory; names match exactly.
pub fn directory_lookup(entries: &Vec<DirectoryEntry>, name: &str) -> (r: Option<u64>)
    ensures
        r == dir_find(entries@, name@),
{
    let mut i: usize = 0;
    assert(entries@.skip(0) =~= entries@);
    while i < entries.len()
        invariant
            i <= entries@.len(),
            dir_find(entries@, name@) == dir_find(entries@.skip(i as int), name@),
        decreases entries@.len() - i,
    {
        assert(entries@.skip(i as int)[0] == entries@[i as int]);
        if crate::text::eq_exact(entries[i].name.as_str(), name) {
            return Some(entries[i].id);
        }
        assert(entries@.skip(i as int).drop_first() =~= entries@.skip(i + 1));
        i += 1;
    }
    assert(entries@.skip(i as int) =~= Seq::<DirectoryEntry>::empty());
    None
}

proof fn lemma_dir_find_update(entries: Seq<DirectoryEntry>, i: int, item: DirectoryEntry)
    requires
        names_unique(entries),
        0 <= i < entries.len(),
        entries[i].name@ == item.name@,
    ensures
        dir_find(entries.update(i, item), item.name@) == Some(item.id),
        forall|n: Seq<char>| n != item.name@ ==> dir_find(entries.update(i, item), n) == dir_find(
            entries,
            n,
        ),
    decreases entries.len(),
{
    let updated = entries.update(i, item);
    if i == 0 {
        assert(updated[0] == item);
        assert(updated.drop_first() =~= entries.drop_first());
        assert forall|n: Seq<char>| n != item.name@ implies dir_find(updated, n) == dir_find(
            entries,
            n,
        ) by {
            assert(dir_find(updated, n) == dir_find(updated.drop_first(), n));
            assert(dir_find(entries, n) == dir_find(entries.drop_first(), n));
        }
    } else {
        assert(updated[0] == entries[0]);
        assert(updated.drop_first() =~= entries.drop_first().update(i - 1, item));
        assert(entries.drop_first()[i - 1].name@ == item.name@);
        lemma_dir_find_update(entries.drop_first(), i - 1, item);
        assert(entries[0].name@ != item.name@);
        assert(dir_find(updated, item.name@) == dir_find(updated.drop_first(), item.name@));
        assert forall|n: Seq<char>| n != item.name@ implies dir_find(updated, n) == dir_find(
            entries,
            n,
        ) by {
            if updated[0].name@ == n {
            } else {
                assert(dir_find(updated, n) == dir_find(updated.drop_first(), n));
                assert(dir_find(entries, n) == dir_find(entries.drop_first(), n));
            }
        }
    }
}

proof fn lemma_dir_find_push(entries: Seq<DirectoryEntry>, item: DirectoryEntry)
    requires
        forall|i: int| 0 <= i < entries.len() ==> (#[trigger] entries[i]).name@ != item.name@,
    ensures
        dir_find(entries.push(item), item.name@) == Some(item.id),
        forall|n: Seq<char>| n != item.name@ ==> dir_find(entries.push(item), n) == dir_find(
            entries,
            n,
        ),
    decreases entries.len(),
{
    let pushed = entries.push(item);
    if entries.len() == 0 {
        assert(pushed[0] == item);
        assert(pushed.drop_first() =~= Seq::<DirectoryEntry>::empty());
        assert forall|n: Seq<char>| n != item.name@ implies dir_find(pushed, n) == dir_find(
            entries,
            n,
        ) by {
            assert(dir_find(pushed, n) == dir_find(pushed.drop_first(), n));
        }
    } else {
        assert(pushed[0] == entries[0]);
        assert(pushed.drop_first() =~= entries.drop_first().push(item));
        let rest = entries.drop_first();
        assert(forall|j: int| 0 <= j < rest.len() ==> #[trigger] rest[j] == entries[j + 1]);
        lemma_dir_find_push(rest, item);
        assert(entries[0].name@ != item.name@);
        assert(dir_find(pushed, item.name@) == dir_find(pushed.drop_first(), item.name@));
        assert forall|n: Seq<char>| n != item.name@ implies dir_find(pushed, n) == dir_find(
            entries,
            n,
        ) by {
            if pushed[0].name@ == n {
            } else {
                assert(dir_find(pushed, n) == dir_find(pushed.drop_first(), n));
                assert(dir_find(entries, n) == dir_find(rest, n));
            }
        }
    }
}

/// Files an item under its name, replacing any prior entry with that name.
pub fn directory_upsert(entries: &mut Vec<DirectoryEntry>, item: DirectoryEntry)
    requires
        names_unique(old(entries)@),
    ensures
        names_unique(final(entries)@),
        dir_find(final(entries)@, item.name@) == Some(item.id),
        forall|n: Seq<char>| n != item.name@ ==> dir_find(final(entries)@, n) == dir_find(
            old(entries)@,
            n,
        ),
{
    let ghost orig = entries@;
    let mut i: usize = 0;
    while i < entries.len()
        invariant
            entries@ == orig,
            orig == old(entries)@,
            names_unique(orig),
            i <= entries@.len(),
            forall|j: int| 0 <= j < i ==> (#[trigger] entries@[j]).name@ != item.name@,
        decreases entries@.len() - i,
    {
        if crate::text::eq_exact(entries[i].name.as_str(), item.name.as_str()) {
            let ghost old_item = entries@[i as int];
            entries.remove(i);
            entries.insert(i, item);
            proof {
                assert(entries@ =~= orig.update(i as int, item));
                lemma_dir_find_update(orig, i as int, item);
                assert(names_unique(entries@)) by {
                    assert(forall|k: int|
                        0 <= k < entries@.len() && k != i ==> entries@[k] == orig[k]);
                    assert(entries@[i as int].name@ == old_item.name@);
                }
            }
            return;
        }
        i += 1;
    }
    entries.push(item);
    proof {
        lemma_dir_find_push(orig, item);
        assert(forall|k: int| 0 <= k < orig.len() ==> #[trigger] entries@[k] == orig[k]);
        assert(entries@[orig.len() as int] == item);
    }
}

/// Merges one page of a listing into the directory: every item is filed
/// under its name, later items overriding earlier ones and the directory's
/// prior contents.
pub fn merge_page(entries: &mut Vec<DirectoryEntry>, page: &Vec<DirectoryEntry>)
    requires
        names_unique(old(entries)@),
    ensures
        names_unique(final(entries)@),
        forall|n: Seq<char>| #![trigger dir_find(final(entries)@, n)]
            dir_find(final(entries)@, n) == merge_find(old(entries)@, page@, n),
{
    let ghost orig = entries@;
    let mut i: usize = 0;
    proof {
        assert(page@.subrange(0, 0) =~= Seq::<DirectoryEntry>::empty());
    }
    while i < page.len()
        invariant
            orig == old(entries)@,
            names_unique(entries@),
            i <= page@.len(),
            forall|n: Seq<char>| #![trigger dir_find(entries@, n)]
                dir_find(entries@, n) == merge_find(orig, page@.subrange(0, i as int), n),
        decreases page@.len() - i,
    {
        let ghost before = entries@;
        let item = page[i].clone();
        directory_upsert(entries, item);
        proof {
            let pre = page@.subrange(0, i as int);
            let post = page@.subrange(0, i + 1);
            assert(post.drop_last() =~= pre);
            assert(post.last() == page@[i as int]);
            assert forall|n: Seq<char>| #![trigger dir_find(entries@, n)]
                dir_find(entries@, n) == merge_find(orig, post, n) by {
                if n == item.name@ {
                    assert(last_wins(post, n) == Some(item.id));
                } else {
                    assert(last_wins(post, n) == last_wins(pre, n));
                    assert(dir_find(entries@, n) == dir_find(before, n));
                }
            }
        }
        i += 1;
    }
    proof {
        assert(page@.subrange(0, page@.len() as int) =~= page@);
    }
}

/// Appending pages composes by last-seen-wins: a name resolves through the
/// later pages first.
pub proof fn lemma_last_wins_append(a: Seq<DirectoryEntry>, b: Seq<DirectoryEntry>, name: Seq<char>)
    ensures
        last_wins(a + b, name) == match last_wins(b, name) {
            Some(id) => Some(id),
            None => last_wins(a, name),
        },
    decreases b.len(),
{
    if b.len() == 0 {
        assert(a + b =~= a);
    } else {
        let whole = a + b;
        assert(whole.last() == b.last());
        assert(whole.drop_last() =~= a + b.drop_last());
        if b.last().name@ == name {
        } else {
            lemma_last_wins_append(a, b.drop_last(), name);
        }
    }
}

/// Last-seen-wins, characterized: a name resolves exactly when some item
/// carries it, and it resolves to the identifier of the last such item.
pub proof fn lemma_last_wins_characterization(items: Seq<DirectoryEntry>, name: Seq<char>)
    ensures
        (last_wins(items, name) is Some) <==> (exists|i: int|
            0 <= i < items.len() && (#[trigger] items[i]).name@ == name),
        forall|k: int|
            (0 <= k < items.len() && (#[trigger] items[k]).name@ == name && (forall|j: int|
                k < j < items.len() ==> (#[trigger] items[j]).name@ != name)) ==> last_wins(
                items,
                name,
            ) == Some(items[k].id),
    decreases items.len(),
{
    if items.len() > 0 {
        lemma_last_wins_characterization(items.drop_last(), name);
        let head = items.drop_last();
        assert(forall|j: int| 0 <= j < head.len() ==> #[trigger] head[j] == items[j]);
        if items.last().name@ == name {
            assert(items[items.len() - 1].name@ == name);
        } else {
            if last_wins(items, name) is Some {
                let i = choose|i: int| 0 <= i < head.len() && (#[trigger] head[i]).name@ == name;
                assert(items[i].name@ == name);
            } else {
                assert forall|i: int|
                    0 <= i < items.len() implies (#[trigger] items[i]).name@ != name by {
                    if i < items.len() - 1 {
                        assert(head[i] == items[i]);
                    }
                }
            }
            assert forall|k: int|
                (0 <= k < items.len() && (#[trigger] items[k]).name@ == name && (forall|j: int|
                    k < j < items.len() ==> (#[trigger] items[j]).name@ != name)) implies last_wins(
                items,
                name,
            ) == Some(items[k].id) by {
                assert(k < items.len() - 1);
                assert(head[k] == items[k]);
                assert(forall|j: int| k < j < head.len() ==> #[trigger] head[j] == items[j]);
            }
        }
    }
}

/// Merging into an empty directory is exactly last-seen-wins over the
/// items themselves.
pub proof fn lemma_merge_find_empty_base(items: Seq<DirectoryEntry>, name: Seq<char>)
    ensures
        merge_find(Seq::<DirectoryEntry>::empty(), items, name) == last_wins(items, name),
{
}

/// Pagination completeness: merging one page and then the next reads the
/// same as merging their concatenation, so a directory built page by page
/// holds every item of every page, later pages overriding earlier ones.
pub proof fn lemma_merge_compose(
    d0: Seq<DirectoryEntry>,
    d1: Seq<DirectoryEntry>,
    d2: Seq<DirectoryEntry>,
    p1: Seq<DirectoryEntry>,
    p2: Seq<DirectoryEntry>,
    name: Seq<char>,
)
    requires
        forall|m: Seq<char>| #![trigger dir_find(d1, m)] dir_find(d1, m) == merge_find(d0, p1, m),
        forall|m: Seq<char>| #![trigger dir_find(d2, m)] dir_find(d2, m) == merge_find(d1, p2, m),
    ensures
        dir_find(d2, name) == merge_find(d0, p1 + p2, name),
{
    lemma_last_wins_append(p1, p2, name);
    assert(dir_find(d1, name) == merge_find(d0, p1, name));
    assert(dir_find(d2, name) == merge_find(d1, p2, name));
}

} // verus!
