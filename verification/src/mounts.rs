use crate::text::{decimal, lemma_decimal_injective, to_decimal};
use vstd::prelude::*;
use vstd::string::*;

verus! {

/// A mount of a container as the runtime reports it.
#[derive(Debug, Clone, PartialEq, Eq)]
pub struct Mount {
    pub name: Option<String>,
    pub destination: String,
}

/// A `Mount` as mathematical text.
pub struct MountView {
    pub name: Option<Seq<char>>,
    pub destination: Seq<char>,
}

impl View for Mount {
    type V = MountView;

    open spec fn view(&self) -> MountView {
        MountView { name: self.name.deep_view(), destination: self.destination@ }
    }
}

impl DeepView for Mount {
    type V = MountView;

    open spec fn deep_view(&self) -> MountView {
        self@
    }
}

/// A mount under the key by which its archive is named.
#[derive(Debug, Clone, PartialEq, Eq)]
pub struct MountDescriptor {
    pub key: String,
    pub destination: String,
}

/// A `MountDescriptor` as mathematical text.
pub struct DescriptorView {
    pub key: Seq<char>,
    pub destination: Seq<char>,
}

impl View for MountDescriptor {
    type V = DescriptorView;

    open spec fn view(&self) -> DescriptorView {
        DescriptorView { key: self.key@, destination: self.destination@ }
    }
}

impl DeepView for MountDescriptor {
    type V = DescriptorView;

    open spec fn deep_view(&self) -> DescriptorView {
        self@
    }
}

/// No two entries have the same key.
pub open spec fn distinct_keys(entries: Seq<DescriptorView>) -> bool {
    forall|i: int, j: int|
        0 <= i < j < entries.len() ==> (#[trigger] entries[i]).key != (#[trigger] entries[j]).key
}

/// Some entry has the key `key`.
pub open spec fn has_key(entries: Seq<DescriptorView>, key: Seq<char>) -> bool {
    exists|i: int| 0 <= i < entries.len() && (#[trigger] entries[i]).key == key
}

/// The entries after `key` was set to `destination`: an entry that has the
/// key keeps its place and takes the new destination; a new key goes to the end.
pub open spec fn inserted(
    entries: Seq<DescriptorView>,
    key: Seq<char>,
    destination: Seq<char>,
) -> Seq<DescriptorView> {
    if has_key(entries, key) {
        Seq::new(
            entries.len(),
            |i: int|
                if entries[i].key == key {
                    DescriptorView { key, destination }
                } else {
                    entries[i]
                },
        )
    } else {
        entries.push(DescriptorView { key, destination })
    }
}

/// The key of the mount at place `index`: its declared name, or the place
/// in base ten where it has none.
pub open spec fn mount_key(mount: MountView, index: int) -> Seq<char> {
    match mount.name {
        Some(name) => name,
        None => decimal(index as nat),
    }
}

/// The entries that the mounts of a container give, taken in their order.
pub open spec fn destinations(mounts: Seq<MountView>) -> Seq<DescriptorView>
    decreases mounts.len(),
{
    if mounts.len() == 0 {
        Seq::empty()
    } else {
        let last = mounts.len() - 1;
        inserted(
            destinations(mounts.take(last)),
            mount_key(mounts[last], last),
            mounts[last].destination,
        )
    }
}

/// The mapping from keys to destinations that a list of entries stands for.
pub open spec fn as_map(entries: Seq<DescriptorView>) -> Map<Seq<char>, Seq<char>> {
    Map::new(
        |key: Seq<char>| has_key(entries, key),
        |key: Seq<char>|
            entries[choose|i: int| 0 <= i < entries.len() && (#[trigger] entries[i]).key
                == key].destination,
    )
}

/// No two mounts get the same key: declared names differ from each other
/// and from the place of every mount without a name.
pub open spec fn names_apart(mounts: Seq<MountView>) -> bool {
    forall|i: int, j: int|
        0 <= i < mounts.len() && 0 <= j < mounts.len() && i != j && (#[trigger] mounts[i]).name
            is Some ==> mounts[i].name->0 != mount_key(#[trigger] mounts[j], j)
}

/// Setting a key keeps the keys distinct.
pub proof fn lemma_inserted_distinct(
    entries: Seq<DescriptorView>,
    key: Seq<char>,
    destination: Seq<char>,
)
    requires
        distinct_keys(entries),
    ensures
        distinct_keys(inserted(entries, key, destination)),
        has_key(inserted(entries, key, destination), key),
        inserted(entries, key, destination).len() == entries.len() + (if has_key(entries, key) {
            0int
        } else {
            1int
        }),
{
    let after = inserted(entries, key, destination);
    if has_key(entries, key) {
        let at = choose|i: int| 0 <= i < entries.len() && (#[trigger] entries[i]).key == key;
        assert(after[at].key == key);
        assert forall|i: int, j: int| 0 <= i < j < after.len() implies (#[trigger] after[i]).key
            != (#[trigger] after[j]).key by {
            assert(after[i].key == entries[i].key);
            assert(after[j].key == entries[j].key);
        }
    } else {
        assert(after[entries.len() as int].key == key);
        assert forall|i: int, j: int| 0 <= i < j < after.len() implies (#[trigger] after[i]).key
            != (#[trigger] after[j]).key by {
            assert(after[i] == entries[i]);
            if j < entries.len() {
                assert(after[j] == entries[j]);
            }
        }
    }
}

/// The mapping after a key was set is the mapping before with that key set.
pub proof fn lemma_inserted_map(
    entries: Seq<DescriptorView>,
    key: Seq<char>,
    destination: Seq<char>,
)
    requires
        distinct_keys(entries),
    ensures
        as_map(inserted(entries, key, destination)) == as_map(entries).insert(key, destination),
{
    let after = inserted(entries, key, destination);
    lemma_inserted_distinct(entries, key, destination);
    let before_map = as_map(entries).insert(key, destination);
    let after_map = as_map(after);
    assert forall|k: Seq<char>| after_map.dom().contains(k) == before_map.dom().contains(k) by {
        if has_key(after, k) {
            let i = choose|i: int| 0 <= i < after.len() && (#[trigger] after[i]).key == k;
            if k != key {
                assert(entries[i].key == k);
            }
        }
        if k == key {
            assert(has_key(after, k));
        } else if has_key(entries, k) {
            let i = choose|i: int| 0 <= i < entries.len() && (#[trigger] entries[i]).key == k;
            assert(after[i].key == k);
        }
    }
    assert forall|k: Seq<char>| after_map.dom().contains(k) implies after_map[k]
        == before_map[k] by {
        let i = choose|i: int| 0 <= i < after.len() && (#[trigger] after[i]).key == k;
        if k == key {
            assert(after[i].destination == destination);
        } else {
            assert(entries[i].key == k);
            let j = choose|j: int| 0 <= j < entries.len() && (#[trigger] entries[j]).key == k;
            assert(i == j);
            assert(after[i] == entries[i]);
        }
    }
    assert(after_map =~= before_map);
}

/// Whatever the mounts are, the entries they give have distinct keys, and
/// there are no more entries than mounts.
pub proof fn lemma_destinations_distinct(mounts: Seq<MountView>)
    ensures
        distinct_keys(destinations(mounts)),
        destinations(mounts).len() <= mounts.len(),
    decreases mounts.len(),
{
    if mounts.len() > 0 {
        let last = mounts.len() - 1;
        lemma_destinations_distinct(mounts.take(last));
        lemma_inserted_distinct(
            destinations(mounts.take(last)),
            mount_key(mounts[last], last),
            mounts[last].destination,
        );
    }
}

/// Every mount is found in the mapping under its key, with the destination
/// of the last mount that has this key.
pub proof fn lemma_last_mount_wins(mounts: Seq<MountView>, i: int)
    requires
        0 <= i < mounts.len(),
        forall|j: int| i < j < mounts.len() ==> mount_key(mounts[j], j) != mount_key(mounts[i], i),
    ensures
        as_map(destinations(mounts)).dom().contains(mount_key(mounts[i], i)),
        as_map(destinations(mounts))[mount_key(mounts[i], i)] == mounts[i].destination,
    decreases mounts.len(),
{
    let last = mounts.len() - 1;
    let before = mounts.take(last);
    lemma_destinations_distinct(before);
    lemma_inserted_map(destinations(before), mount_key(mounts[last], last), mounts[last].destination);
    if i < last {
        assert(before[i] == mounts[i]);
        assert forall|j: int| i < j < before.len() implies mount_key(before[j], j) != mount_key(
            before[i],
            i,
        ) by {
            assert(before[j] == mounts[j]);
        }
        lemma_last_mount_wins(before, i);
    }
}

/// Where no two mounts get the same key, there is one entry for each
/// mount, at the mount's place: under its name, or under its place in base
/// ten where it has no name.
pub proof fn lemma_one_entry_per_mount(mounts: Seq<MountView>)
    requires
        names_apart(mounts),
    ensures
        destinations(mounts).len() == mounts.len(),
        distinct_keys(destinations(mounts)),
        forall|i: int|
            0 <= i < mounts.len() ==> #[trigger] destinations(mounts)[i] == (DescriptorView {
                key: mount_key(mounts[i], i),
                destination: mounts[i].destination,
            }),
        forall|i: int|
            0 <= i < mounts.len() && mounts[i].name is None ==> (#[trigger] destinations(
                mounts,
            )[i]).key == decimal(i as nat),
    decreases mounts.len(),
{
    lemma_destinations_distinct(mounts);
    if mounts.len() > 0 {
        let last = mounts.len() - 1;
        let before = mounts.take(last);
        assert forall|i: int, j: int|
            0 <= i < before.len() && 0 <= j < before.len() && i != j && (#[trigger] before[i]).name
                is Some implies before[i].name->0 != mount_key(#[trigger] before[j], j) by {
            assert(before[i] == mounts[i]);
            assert(before[j] == mounts[j]);
        }
        lemma_one_entry_per_mount(before);
        let entries = destinations(before);
        let key = mount_key(mounts[last], last);
        assert(!has_key(entries, key)) by {
            if has_key(entries, key) {
                let i = choose|i: int| 0 <= i < entries.len() && (#[trigger] entries[i]).key == key;
                assert(entries[i].key == mount_key(before[i], i));
                assert(before[i] == mounts[i]);
                lemma_keys_differ(mounts, i, last);
            }
        }
        assert forall|i: int| 0 <= i < mounts.len() implies #[trigger] destinations(mounts)[i] == (
        DescriptorView { key: mount_key(mounts[i], i), destination: mounts[i].destination }) by {
            if i < last {
                assert(destinations(mounts)[i] == entries[i]);
                assert(before[i] == mounts[i]);
            }
        }
    }
}

/// Where declared names stand apart, two mounts at different places get
/// different keys.
pub proof fn lemma_keys_differ(mounts: Seq<MountView>, i: int, j: int)
    requires
        names_apart(mounts),
        0 <= i < mounts.len(),
        0 <= j < mounts.len(),
        i != j,
    ensures
        mount_key(mounts[i], i) != mount_key(mounts[j], j),
{
    if mounts[i].name is Some {
        assert(mounts[i].name->0 != mount_key(mounts[j], j));
    } else if mounts[j].name is Some {
        assert(mounts[j].name->0 != mount_key(mounts[i], i));
    } else {
        if decimal(i as nat) == decimal(j as nat) {
            lemma_decimal_injective(i as nat, j as nat);
        }
    }
}

/// The mounts of one container, by key. No key occurs twice.
#[derive(Debug, Clone)]
pub struct MountTable {
    entries: Vec<MountDescriptor>,
}

impl View for MountTable {
    type V = Map<Seq<char>, Seq<char>>;

    open spec fn view(&self) -> Map<Seq<char>, Seq<char>> {
        as_map(self.entries())
    }
}

impl MountTable {
    /// The entries in the order in which they are walked.
    pub closed spec fn entries(&self) -> Seq<DescriptorView> {
        self.entries.deep_view()
    }

    /// What holds of every table that was built by `new` and `insert`: no
    /// key occurs twice.
    pub open spec fn wf(&self) -> bool {
        distinct_keys(self.entries())
    }

    /// A table without entries.
    pub fn new() -> (table: MountTable)
        ensures
            table.entries() == Seq::<DescriptorView>::empty(),
            table.wf(),
    {
        let table = MountTable { entries: Vec::new() };
        assert(table.entries.deep_view() =~= Seq::<DescriptorView>::empty());
        table
    }

    /// The number of entries.
    pub fn len(&self) -> (count: usize)
        ensures
            count == self.entries().len(),
    {
        self.entries.len()
    }

    /// The entry at place `index`.
    pub fn entry(&self, index: usize) -> (descriptor: &MountDescriptor)
        requires
            index < self.entries().len(),
        ensures
            descriptor@ == self.entries()[index as int],
    {
        &self.entries[index]
    }

    /// The destination under `key`, where the table has the key.
    pub fn get(&self, key: &String) -> (destination: Option<&String>)
        requires
            self.wf(),
        ensures
            destination.deep_view() == (if self@.dom().contains(key@) {
                Some(self@[key@])
            } else {
                None
            }),
    {
        let ghost all = self.entries.deep_view();
        let mut index: usize = 0;
        while index < self.entries.len()
            invariant
                index <= self.entries.len(),
                all == self.entries.deep_view(),
                distinct_keys(all),
                forall|i: int| 0 <= i < index ==> (#[trigger] all[i]).key != key@,
            decreases self.entries.len() - index,
        {
            if self.entries[index].key == *key {
                assert(all[index as int].key == key@);
                let ghost chosen = choose|i: int|
                    0 <= i < all.len() && (#[trigger] all[i]).key == key@;
                assert(chosen == index);
                return Some(&self.entries[index].destination);
            }
            index = index + 1;
        }
        None
    }

    /// Sets `key` to `destination`.
    pub fn insert(&mut self, key: String, destination: String)
        requires
            old(self).wf(),
        ensures
            final(self).wf(),
            final(self).entries() == inserted(old(self).entries(), key@, destination@),
            final(self)@ == old(self)@.insert(key@, destination@),
    {
        let ghost before = self.entries.deep_view();
        proof {
            lemma_inserted_distinct(before, key@, destination@);
            lemma_inserted_map(before, key@, destination@);
        }
        let mut index: usize = 0;
        while index < self.entries.len()
            invariant
                index <= self.entries.len(),
                before == self.entries.deep_view(),
                before == old(self).entries(),
                distinct_keys(before),
                distinct_keys(inserted(before, key@, destination@)),
                as_map(inserted(before, key@, destination@)) == as_map(before).insert(
                    key@,
                    destination@,
                ),
                forall|i: int| 0 <= i < index ==> (#[trigger] before[i]).key != key@,
            decreases self.entries.len() - index,
        {
            if self.entries[index].key == key {
                assert(before[index as int].key == key@);
                self.entries.set(index, MountDescriptor { key, destination });
                assert(self.entries.deep_view() =~= inserted(before, key@, destination@));
                return ;
            }
            index = index + 1;
        }
        self.entries.push(MountDescriptor { key, destination });
        assert(self.entries.deep_view() =~= inserted(before, key@, destination@));
    }
}

/// Builds the table of a container's mounts from what its inspection
/// reported: each mount under its declared name, a mount without a name
/// under its place in the report.
pub fn retrieve_mount_destinations(mounts: &Vec<Mount>) -> (table: MountTable)
    ensures
        table.wf(),
        table.entries() == destinations(mounts.deep_view()),
{
    let mut table = MountTable::new();
    let mut index: usize = 0;
    while index < mounts.len()
        invariant
            index <= mounts.len(),
            table.wf(),
            table.entries() == destinations(mounts.deep_view().take(index as int)),
        decreases mounts.len() - index,
    {
        let mount = &mounts[index];
        let name = match &mount.name {
            Some(name) => name.clone(),
            None => to_decimal(index),
        };
        proof {
            let all = mounts.deep_view();
            assert(all.take(index + 1).take(index as int) =~= all.take(index as int));
            assert(all.take(index + 1)[index as int] == mount@);
        }
        table.insert(name, mount.destination.clone());
        index = index + 1;
    }
    assert(mounts.deep_view().take(index as int) =~= mounts.deep_view());
    table
}

} // verus!
