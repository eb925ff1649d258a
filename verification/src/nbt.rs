//! Named binary tag (NBT) trees, as the server keeps them and as plugins see
//! them: plugins get a tree as a flat list of tags in which list and compound
//! tags refer to their children by index.

use vstd::prelude::*;
use vstd::string::*;
use crate::text::{decimal_text, u64_to_string};

verus! {

/// A named binary tag, as the server keeps it. Floating-point values are
/// carried as their bits.
#[derive(Debug, PartialEq)]
pub enum NbtTag {
    End,
    Byte(i8),
    Short(i16),
    Int(i32),
    Long(i64),
    /// The bits of an `f32`.
    Float(u32),
    /// The bits of an `f64`.
    Double(u64),
    ByteArray(Vec<u8>),
    String(String),
    List(Vec<NbtTag>),
    /// Named children, in order.
    Compound(Vec<(String, NbtTag)>),
    IntArray(Vec<i32>),
    LongArray(Vec<i64>),
}

/// Mathematical form of an [`NbtTag`].
pub enum NbtValue {
    End,
    Byte(i8),
    Short(i16),
    Int(i32),
    Long(i64),
    Float(u32),
    Double(u64),
    ByteArray(Seq<u8>),
    String(Seq<char>),
    List(Seq<NbtValue>),
    Compound(Seq<(Seq<char>, NbtValue)>),
    IntArray(Seq<i32>),
    LongArray(Seq<i64>),
}

impl NbtTag {
    /// The tag as a mathematical value.
    pub open spec fn value(self) -> NbtValue
        decreases self,
    {
        match self {
            NbtTag::End => NbtValue::End,
            NbtTag::Byte(v) => NbtValue::Byte(v),
            NbtTag::Short(v) => NbtValue::Short(v),
            NbtTag::Int(v) => NbtValue::Int(v),
            NbtTag::Long(v) => NbtValue::Long(v),
            NbtTag::Float(v) => NbtValue::Float(v),
            NbtTag::Double(v) => NbtValue::Double(v),
            NbtTag::ByteArray(v) => NbtValue::ByteArray(v@),
            NbtTag::String(s) => NbtValue::String(s@),
            NbtTag::List(items) => NbtValue::List(
                Seq::new(
                    items@.len(),
                    |i: int|
                        if 0 <= i < items@.len() {
                            items@[i].value()
                        } else {
                            NbtValue::End
                        },
                ),
            ),
            NbtTag::Compound(entries) => NbtValue::Compound(
                Seq::new(
                    entries@.len(),
                    |i: int|
                        if 0 <= i < entries@.len() {
                            (entries@[i].0@, entries@[i].1.value())
                        } else {
                            (Seq::empty(), NbtValue::End)
                        },
                ),
            ),
            NbtTag::IntArray(v) => NbtValue::IntArray(v@),
            NbtTag::LongArray(v) => NbtValue::LongArray(v@),
        }
    }
}

/// An entry of a compound tag, as plugins see it: a name and the index of the
/// named tag.
#[derive(Debug, Clone, PartialEq)]
pub struct WitNbtEntry {
    pub key: String,
    pub value: u32,
}

/// A tag of a flattened tree, as plugins see it; list and compound tags hold
/// the indices of their children.
#[derive(Debug, Clone, PartialEq)]
pub enum WitNbtTag {
    Byte(i8),
    Short(i16),
    Int(i32),
    Long(i64),
    /// The bits of an `f32`.
    Float(u32),
    /// The bits of an `f64`.
    Double(u64),
    ByteArray(Vec<u8>),
    StringTag(String),
    ListTag(Vec<u32>),
    Compound(Vec<WitNbtEntry>),
    IntArray(Vec<i32>),
    LongArray(Vec<i64>),
}

/// A flattened tree: its tags, and the index of the root among them.
#[derive(Debug, Clone, PartialEq)]
pub struct WitNbtTree {
    pub root: u32,
    pub tags: Vec<WitNbtTag>,
}

/// Mathematical form of a [`WitNbtTag`].
pub enum WitNbtValue {
    Byte(i8),
    Short(i16),
    Int(i32),
    Long(i64),
    Float(u32),
    Double(u64),
    ByteArray(Seq<u8>),
    StringTag(Seq<char>),
    ListTag(Seq<u32>),
    Compound(Seq<(Seq<char>, u32)>),
    IntArray(Seq<i32>),
    LongArray(Seq<i64>),
}

impl View for WitNbtTag {
    type V = WitNbtValue;

    open spec fn view(&self) -> WitNbtValue {
        match self {
            WitNbtTag::Byte(v) => WitNbtValue::Byte(*v),
            WitNbtTag::Short(v) => WitNbtValue::Short(*v),
            WitNbtTag::Int(v) => WitNbtValue::Int(*v),
            WitNbtTag::Long(v) => WitNbtValue::Long(*v),
            WitNbtTag::Float(v) => WitNbtValue::Float(*v),
            WitNbtTag::Double(v) => WitNbtValue::Double(*v),
            WitNbtTag::ByteArray(v) => WitNbtValue::ByteArray(v@),
            WitNbtTag::StringTag(s) => WitNbtValue::StringTag(s@),
            WitNbtTag::ListTag(v) => WitNbtValue::ListTag(v@),
            WitNbtTag::Compound(entries) => WitNbtValue::Compound(
                Seq::new(entries@.len(), |i: int| (entries@[i].key@, entries@[i].value)),
            ),
            WitNbtTag::IntArray(v) => WitNbtValue::IntArray(v@),
            WitNbtTag::LongArray(v) => WitNbtValue::LongArray(v@),
        }
    }
}

/// The views of a list of flattened tags.
pub open spec fn wit_values(tags: Seq<WitNbtTag>) -> Seq<WitNbtValue> {
    tags.map_values(|t: WitNbtTag| t@)
}

/// Number of tags in a tree: the tag itself and all tags below it.
pub open spec fn node_count(v: NbtValue) -> nat
    decreases v,
{
    match v {
        NbtValue::List(items) => 1 + list_count(items),
        NbtValue::Compound(entries) => 1 + entries_count(entries),
        _ => 1,
    }
}

/// Number of tags in a list of trees.
pub open spec fn list_count(items: Seq<NbtValue>) -> nat
    decreases items,
{
    if items.len() == 0 {
        0
    } else {
        list_count(items.subrange(0, items.len() - 1)) + node_count(items[items.len() - 1])
    }
}

/// Number of tags in the values of a compound's entries.
pub open spec fn entries_count(entries: Seq<(Seq<char>, NbtValue)>) -> nat
    decreases entries,
{
    if entries.len() == 0 {
        0
    } else {
        entries_count(entries.subrange(0, entries.len() - 1)) + node_count(
            entries[entries.len() - 1].1,
        )
    }
}

/// The flattened tag for the root of `v` placed at index `base`: its children
/// come right after it, each after the whole tree of the one before. An end
/// tag becomes an empty compound.
pub open spec fn flat_node(v: NbtValue, base: int) -> WitNbtValue {
    match v {
        NbtValue::End => WitNbtValue::Compound(Seq::empty()),
        NbtValue::Byte(x) => WitNbtValue::Byte(x),
        NbtValue::Short(x) => WitNbtValue::Short(x),
        NbtValue::Int(x) => WitNbtValue::Int(x),
        NbtValue::Long(x) => WitNbtValue::Long(x),
        NbtValue::Float(x) => WitNbtValue::Float(x),
        NbtValue::Double(x) => WitNbtValue::Double(x),
        NbtValue::ByteArray(x) => WitNbtValue::ByteArray(x),
        NbtValue::String(x) => WitNbtValue::StringTag(x),
        NbtValue::List(items) => WitNbtValue::ListTag(
            Seq::new(items.len(), |k: int| (base + 1 + list_count(items.take(k))) as u32),
        ),
        NbtValue::Compound(entries) => WitNbtValue::Compound(
            Seq::new(
                entries.len(),
                |k: int| (entries[k].0, (base + 1 + entries_count(entries.take(k))) as u32),
            ),
        ),
        NbtValue::IntArray(x) => WitNbtValue::IntArray(x),
        NbtValue::LongArray(x) => WitNbtValue::LongArray(x),
    }
}

/// The tags of the tree `v` flattened from index `base` on, root first.
pub open spec fn flatten(v: NbtValue, base: int) -> Seq<WitNbtValue>
    decreases v,
{
    seq![flat_node(v, base)] + match v {
        NbtValue::List(items) => flatten_list(items, base + 1),
        NbtValue::Compound(entries) => flatten_entries(entries, base + 1),
        _ => Seq::empty(),
    }
}

/// The tags of a list of trees flattened one after the other from `base` on.
pub open spec fn flatten_list(items: Seq<NbtValue>, base: int) -> Seq<WitNbtValue>
    decreases items,
{
    if items.len() == 0 {
        Seq::empty()
    } else {
        let init = items.subrange(0, items.len() - 1);
        flatten_list(init, base) + flatten(items[items.len() - 1], base + list_count(init))
    }
}

/// The tags of the values of a compound's entries flattened one after the
/// other from `base` on.
pub open spec fn flatten_entries(entries: Seq<(Seq<char>, NbtValue)>, base: int) -> Seq<
    WitNbtValue,
>
    decreases entries,
{
    if entries.len() == 0 {
        Seq::empty()
    } else {
        let init = entries.subrange(0, entries.len() - 1);
        flatten_entries(init, base) + flatten(
            entries[entries.len() - 1].1,
            base + entries_count(init),
        )
    }
}

/// A flattened tree has one tag per node.
pub proof fn lemma_flatten_len(v: NbtValue, base: int)
    ensures
        flatten(v, base).len() == node_count(v),
    decreases v,
{
    match v {
        NbtValue::List(items) => lemma_flatten_list_len(items, base + 1),
        NbtValue::Compound(entries) => lemma_flatten_entries_len(entries, base + 1),
        _ => {},
    }
}

/// Flattened lists have one tag per node.
pub proof fn lemma_flatten_list_len(items: Seq<NbtValue>, base: int)
    ensures
        flatten_list(items, base).len() == list_count(items),
    decreases items,
{
    if items.len() > 0 {
        let init = items.subrange(0, items.len() - 1);
        lemma_flatten_list_len(init, base);
        lemma_flatten_len(items[items.len() - 1], base + list_count(init));
    }
}

/// Flattened entries have one tag per node.
pub proof fn lemma_flatten_entries_len(entries: Seq<(Seq<char>, NbtValue)>, base: int)
    ensures
        flatten_entries(entries, base).len() == entries_count(entries),
    decreases entries,
{
    if entries.len() > 0 {
        let init = entries.subrange(0, entries.len() - 1);
        lemma_flatten_entries_len(init, base);
        lemma_flatten_len(entries[entries.len() - 1].1, base + entries_count(init));
    }
}

/// Counting the nodes of a list of trees one tree further.
pub proof fn lemma_list_count_step(items: Seq<NbtValue>, k: int, base: int)
    requires
        0 <= k < items.len(),
    ensures
        list_count(items.take(k + 1)) == list_count(items.take(k)) + node_count(items[k]),
        flatten_list(items.take(k + 1), base) == flatten_list(items.take(k), base) + flatten(
            items[k],
            base + list_count(items.take(k)),
        ),
{
    assert(items.take(k + 1).subrange(0, k) =~= items.take(k));
}

/// The nodes of the first trees of a list are no more than those of the list.
pub proof fn lemma_list_count_prefix(items: Seq<NbtValue>, k: int)
    requires
        0 <= k <= items.len(),
    ensures
        list_count(items.take(k)) <= list_count(items),
    decreases items.len() - k,
{
    if k < items.len() {
        lemma_list_count_step(items, k, 0);
        lemma_list_count_prefix(items, k + 1);
    } else {
        assert(items.take(k) =~= items);
    }
}

/// Counting the nodes of a compound's entries one entry further.
pub proof fn lemma_entries_count_step(entries: Seq<(Seq<char>, NbtValue)>, k: int, base: int)
    requires
        0 <= k < entries.len(),
    ensures
        entries_count(entries.take(k + 1)) == entries_count(entries.take(k)) + node_count(
            entries[k].1,
        ),
        flatten_entries(entries.take(k + 1), base) == flatten_entries(entries.take(k), base)
            + flatten(entries[k].1, base + entries_count(entries.take(k))),
{
    assert(entries.take(k + 1).subrange(0, k) =~= entries.take(k));
}

/// The nodes of the first entries of a compound are no more than those of all.
pub proof fn lemma_entries_count_prefix(entries: Seq<(Seq<char>, NbtValue)>, k: int)
    requires
        0 <= k <= entries.len(),
    ensures
        entries_count(entries.take(k)) <= entries_count(entries),
    decreases entries.len() - k,
{
    if k < entries.len() {
        lemma_entries_count_step(entries, k, 0);
        lemma_entries_count_prefix(entries, k + 1);
    } else {
        assert(entries.take(k) =~= entries);
    }
}

/// Appends the tags of `tag`, flattened, to `tags` and returns the index of
/// its root: the root comes first, then the trees of its children one after
/// the other, each child referred to by the index of its root. An end tag
/// becomes an empty compound.
pub fn push_wit_nbt_tag(tag: NbtTag, tags: &mut Vec<WitNbtTag>) -> (res: u32)
    requires
        old(tags)@.len() + node_count(tag.value()) <= 0x1_0000_0000,
    ensures
        res == old(tags)@.len(),
        wit_values(final(tags)@) == wit_values(old(tags)@) + flatten(
            tag.value(),
            old(tags)@.len() as int,
        ),
    decreases tag,
{
    let ghost v = tag.value();
    let ghost whole = tag;
    let ghost base = tags@.len() as int;
    let ghost old_values = wit_values(tags@);
    let index = tags.len() as u32;
    tags.push(WitNbtTag::Byte(0));
    let node = match tag {
        NbtTag::End => WitNbtTag::Compound(Vec::new()),
        NbtTag::Byte(x) => WitNbtTag::Byte(x),
        NbtTag::Short(x) => WitNbtTag::Short(x),
        NbtTag::Int(x) => WitNbtTag::Int(x),
        NbtTag::Long(x) => WitNbtTag::Long(x),
        NbtTag::Float(x) => WitNbtTag::Float(x),
        NbtTag::Double(x) => WitNbtTag::Double(x),
        NbtTag::ByteArray(x) => WitNbtTag::ByteArray(x),
        NbtTag::String(x) => WitNbtTag::StringTag(x),
        NbtTag::IntArray(x) => WitNbtTag::IntArray(x),
        NbtTag::LongArray(x) => WitNbtTag::LongArray(x),
        NbtTag::List(items) => {
            let ghost vals = Seq::new(items@.len(), |i: int| items@[i].value());
            let ghost item_seq = items@;
            proof {
                assert(v->List_0 =~= vals);
            }
            let mut children: Vec<u32> = Vec::new();
            for item in it: items.into_iter()
                invariant
                    base == old_values.len(),
                    base + 1 + list_count(vals) <= 0x1_0000_0000,
                    whole == tag,
                    whole == NbtTag::List(items),
                    item_seq == items@,
                    it.seq() == item_seq,
                    vals.len() == item_seq.len(),
                    forall|j: int| 0 <= j < vals.len() ==> #[trigger] item_seq[j].value() == vals[j],
                    wit_values(tags@) == old_values.push(WitNbtValue::Byte(0)) + flatten_list(
                        vals.take(it.index() as int),
                        base + 1,
                    ),
                    children@.len() == it.index(),
                    forall|k: int|
                        0 <= k < it.index() ==> #[trigger] children@[k] as int == base + 1
                            + list_count(vals.take(k)),
            {
                proof {
                    let k = it.index() as int;
                    assert(item == item_seq[k]);
                    assert(decreases_to!(whole => whole->List_0));
                    assert(decreases_to!(items => items@));
                    assert(decreases_to!(items@ => items@[k]));
                    assert(decreases_to!(whole => item));
                    lemma_list_count_step(vals, k, base + 1);
                    lemma_list_count_prefix(vals, k + 1);
                    lemma_flatten_list_len(vals.take(k), base + 1);
                }
                proof {
                    let k = it.index() as int;
                    assert(wit_values(tags@).len() == tags@.len());
                    assert(flatten_list(vals.take(k), base + 1).len() == list_count(vals.take(k)));
                    assert(tags@.len() == base + 1 + list_count(vals.take(k)));
                    assert(item.value() == vals[k]);
                }
                let c = push_wit_nbt_tag(item, tags);
                children.push(c);
            }
            proof {
                assert(vals.take(vals.len() as int) =~= vals);
                assert(children@ =~= Seq::new(
                    vals.len(),
                    |k: int| (base + 1 + list_count(vals.take(k))) as u32,
                ));
                assert(flatten(v, base).skip(1) =~= flatten_list(vals, base + 1));
            }
            WitNbtTag::ListTag(children)
        },
        NbtTag::Compound(entries) => {
            let ghost vals = Seq::new(
                entries@.len(),
                |i: int| (entries@[i].0@, entries@[i].1.value()),
            );
            let ghost entry_seq = entries@;
            proof {
                assert(v->Compound_0 =~= vals);
            }
            let mut children: Vec<WitNbtEntry> = Vec::new();
            for entry in it: entries.into_iter()
                invariant
                    base == old_values.len(),
                    base + 1 + entries_count(vals) <= 0x1_0000_0000,
                    whole == tag,
                    whole == NbtTag::Compound(entries),
                    entry_seq == entries@,
                    it.seq() == entry_seq,
                    vals.len() == entry_seq.len(),
                    forall|j: int|
                        0 <= j < vals.len() ==> #[trigger] entry_seq[j].1.value() == vals[j].1
                            && entry_seq[j].0@ == vals[j].0,
                    wit_values(tags@) == old_values.push(WitNbtValue::Byte(0)) + flatten_entries(
                        vals.take(it.index() as int),
                        base + 1,
                    ),
                    children@.len() == it.index(),
                    forall|k: int|
                        0 <= k < it.index() ==> #[trigger] children@[k].key@ == vals[k].0
                            && children@[k].value as int == base + 1 + entries_count(vals.take(k)),
            {
                proof {
                    let k = it.index() as int;
                    assert(entry == entry_seq[k]);
                    assert(decreases_to!(whole => whole->Compound_0));
                    assert(decreases_to!(entries => entries@));
                    assert(decreases_to!(entries@ => entries@[k]));
                    assert(decreases_to!(entries@[k] => entries@[k].1));
                    assert(decreases_to!(whole => entry.1));
                    lemma_entries_count_step(vals, k, base + 1);
                    lemma_entries_count_prefix(vals, k + 1);
                    lemma_flatten_entries_len(vals.take(k), base + 1);
                }
                proof {
                    let k = it.index() as int;
                    assert(wit_values(tags@).len() == tags@.len());
                    assert(flatten_entries(vals.take(k), base + 1).len() == entries_count(
                        vals.take(k),
                    ));
                    assert(tags@.len() == base + 1 + entries_count(vals.take(k)));
                    assert(entry.1.value() == vals[k].1);
                }
                let (key, value) = entry;
                let c = push_wit_nbt_tag(value, tags);
                children.push(WitNbtEntry { key, value: c });
            }
            proof {
                assert(vals.take(vals.len() as int) =~= vals);
                assert(WitNbtTag::Compound(children)@->Compound_0 =~= Seq::new(
                    vals.len(),
                    |k: int| (vals[k].0, (base + 1 + entries_count(vals.take(k))) as u32),
                ));
                assert(flatten(v, base).skip(1) =~= flatten_entries(vals, base + 1));
            }
            WitNbtTag::Compound(children)
        },
    };
    proof {
        if !(v is List || v is Compound) {
            assert(flatten(v, base).skip(1) =~= Seq::<WitNbtValue>::empty());
            assert(wit_values(tags@) =~= old_values.push(WitNbtValue::Byte(0)));
        }
        if v is End {
            assert(node@->Compound_0 =~= Seq::<(Seq<char>, u32)>::empty());
        }
        assert(node@ == flat_node(v, base));
        assert(wit_values(tags@) == old_values.push(WitNbtValue::Byte(0)) + flatten(v, base).skip(1));
    }
    let ghost before = wit_values(tags@);
    let ghost node_view = node@;
    tags[index as usize] = node;
    proof {
        assert(wit_values(tags@) =~= before.update(base, node_view));
        assert(before.update(base, node_view) =~= old_values + flatten(v, base));
    }
    index
}

/// Flattens a tree for plugins: its tags in the order [`push_wit_nbt_tag`]
/// appends them, the root first, at index 0.
pub fn to_wit_nbt_tree(tag: NbtTag) -> (res: WitNbtTree)
    requires
        node_count(tag.value()) <= 0x1_0000_0000,
    ensures
        res.root == 0,
        wit_values(res.tags@) == flatten(tag.value(), 0),
{
    let mut tags: Vec<WitNbtTag> = Vec::new();
    proof {
        assert(wit_values(tags@) =~= Seq::<WitNbtValue>::empty());
    }
    let root = push_wit_nbt_tag(tag, &mut tags);
    proof {
        assert(Seq::<WitNbtValue>::empty() + flatten(tag.value(), 0) =~= flatten(tag.value(), 0));
    }
    WitNbtTree { root, tags }
}

/// Why a flattened tree cannot be read back.
#[derive(Clone, Copy, Debug, PartialEq, Eq, Structural)]
pub enum NbtReadError {
    /// A tag refers to an index past the last tag.
    OutOfBounds(u32),
    /// A tag is reached again below itself.
    Cycle(u32),
}

/// The indices of the tags being read, from the root down: all distinct, all
/// of existing tags.
pub open spec fn visiting_ok(tag_count: nat, visiting: Seq<u32>) -> bool {
    &&& visiting.no_duplicates()
    &&& forall|k: int| 0 <= k < visiting.len() ==> visiting[k] < tag_count
}

/// While some existing tag is not being read, fewer tags than exist are.
pub proof fn lemma_visiting_bound(tag_count: nat, visiting: Seq<u32>, index: u32)
    requires
        visiting_ok(tag_count, visiting),
        index < tag_count,
        !visiting.contains(index),
    ensures
        visiting.len() < tag_count,
        visiting_ok(tag_count, visiting.push(index)),
{
    let inner = visiting.push(index);
    let ints = inner.map_values(|x: u32| x as int);
    assert forall|a: int, b: int| 0 <= a < ints.len() && 0 <= b < ints.len() && a != b implies ints[a]
        != ints[b] by {
        if a < visiting.len() && b < visiting.len() {
        } else if a == visiting.len() {
            assert(visiting[b] != index);
        } else {
            assert(visiting[a] != index);
        }
    }
    assert(ints.no_duplicates());
    ints.unique_seq_to_set();
    vstd::set_lib::lemma_int_range(0, tag_count as int);
    assert(ints.to_set().subset_of(vstd::set_lib::set_int_range(0, tag_count as int))) by {
        assert forall|x: int| ints.to_set().contains(x) implies vstd::set_lib::set_int_range(
            0,
            tag_count as int,
        ).contains(x) by {
            assert(ints.contains(x));
            let k = choose|k: int| 0 <= k < ints.len() && ints[k] == x;
            if k < visiting.len() {
                assert(visiting[k] < tag_count);
            }
        }
    }
    vstd::set_lib::lemma_len_subset(
        ints.to_set(),
        vstd::set_lib::set_int_range(0, tag_count as int),
    );
    assert forall|k: int| 0 <= k < inner.len() implies inner[k] < tag_count by {
        if k < visiting.len() {
            assert(visiting[k] < tag_count);
        }
    }
}

/// Reading back the tag at `index` of `tags`, with the tags in `visiting`
/// being read above it: an index past the last tag, or one being read above,
/// is an error; a list or compound reads its children in order and stops at
/// the first error.
pub open spec fn read_value(tags: Seq<WitNbtValue>, index: u32, visiting: Seq<u32>) -> Result<
    NbtValue,
    NbtReadError,
>
    decreases tags.len() - visiting.len(), 0int,
    when visiting_ok(tags.len(), visiting)
{
    if index >= tags.len() {
        Err(NbtReadError::OutOfBounds(index))
    } else if visiting.contains(index) {
        Err(NbtReadError::Cycle(index))
    } else {
        let inner = visiting.push(index);
        proof {
            lemma_visiting_bound(tags.len(), visiting, index);
        }
        match tags[index as int] {
            WitNbtValue::Byte(x) => Ok(NbtValue::Byte(x)),
            WitNbtValue::Short(x) => Ok(NbtValue::Short(x)),
            WitNbtValue::Int(x) => Ok(NbtValue::Int(x)),
            WitNbtValue::Long(x) => Ok(NbtValue::Long(x)),
            WitNbtValue::Float(x) => Ok(NbtValue::Float(x)),
            WitNbtValue::Double(x) => Ok(NbtValue::Double(x)),
            WitNbtValue::ByteArray(x) => Ok(NbtValue::ByteArray(x)),
            WitNbtValue::StringTag(x) => Ok(NbtValue::String(x)),
            WitNbtValue::ListTag(children) => match read_list(tags, children, inner) {
                Ok(items) => Ok(NbtValue::List(items)),
                Err(e) => Err(e),
            },
            WitNbtValue::Compound(entries) => match read_entries(tags, entries, inner) {
                Ok(read) => Ok(NbtValue::Compound(read)),
                Err(e) => Err(e),
            },
            WitNbtValue::IntArray(x) => Ok(NbtValue::IntArray(x)),
            WitNbtValue::LongArray(x) => Ok(NbtValue::LongArray(x)),
        }
    }
}

/// Reading back the tags at `children`, in order, stopping at the first error.
pub open spec fn read_list(tags: Seq<WitNbtValue>, children: Seq<u32>, visiting: Seq<u32>) -> Result<
    Seq<NbtValue>,
    NbtReadError,
>
    decreases tags.len() - visiting.len(), children.len(),
    when visiting_ok(tags.len(), visiting)
{
    if children.len() == 0 {
        Ok(Seq::empty())
    } else {
        match read_list(tags, children.drop_last(), visiting) {
            Err(e) => Err(e),
            Ok(items) => match read_value(tags, children.last(), visiting) {
                Err(e) => Err(e),
                Ok(item) => Ok(items.push(item)),
            },
        }
    }
}

/// Reading back the tags that `entries` name, in order, stopping at the first
/// error.
pub open spec fn read_entries(
    tags: Seq<WitNbtValue>,
    entries: Seq<(Seq<char>, u32)>,
    visiting: Seq<u32>,
) -> Result<Seq<(Seq<char>, NbtValue)>, NbtReadError>
    decreases tags.len() - visiting.len(), entries.len(),
    when visiting_ok(tags.len(), visiting)
{
    if entries.len() == 0 {
        Ok(Seq::empty())
    } else {
        match read_entries(tags, entries.drop_last(), visiting) {
            Err(e) => Err(e),
            Ok(read) => match read_value(tags, entries.last().1, visiting) {
                Err(e) => Err(e),
                Ok(item) => Ok(read.push((entries.last().0, item))),
            },
        }
    }
}

/// Once reading the first children fails, reading more of them fails the same way.
proof fn lemma_read_list_error_stays(
    tags: Seq<WitNbtValue>,
    children: Seq<u32>,
    j: int,
    m: int,
    visiting: Seq<u32>,
)
    requires
        visiting_ok(tags.len(), visiting),
        0 <= j <= m <= children.len(),
        read_list(tags, children.take(j), visiting) is Err,
    ensures
        read_list(tags, children.take(m), visiting) == read_list(tags, children.take(j), visiting),
    decreases m - j,
{
    if j < m {
        lemma_read_list_error_stays(tags, children, j, m - 1, visiting);
        assert(children.take(m).drop_last() =~= children.take(m - 1));
    }
}

/// Once reading the first entries fails, reading more of them fails the same way.
proof fn lemma_read_entries_error_stays(
    tags: Seq<WitNbtValue>,
    entries: Seq<(Seq<char>, u32)>,
    j: int,
    m: int,
    visiting: Seq<u32>,
)
    requires
        visiting_ok(tags.len(), visiting),
        0 <= j <= m <= entries.len(),
        read_entries(tags, entries.take(j), visiting) is Err,
    ensures
        read_entries(tags, entries.take(m), visiting) == read_entries(
            tags,
            entries.take(j),
            visiting,
        ),
    decreases m - j,
{
    if j < m {
        lemma_read_entries_error_stays(tags, entries, j, m - 1, visiting);
        assert(entries.take(m).drop_last() =~= entries.take(m - 1));
    }
}

fn contains_index(list: &Vec<u32>, index: u32) -> (res: bool)
    ensures
        res == list@.contains(index),
{
    let mut i: usize = 0;
    while i < list.len()
        invariant
            i <= list@.len(),
            forall|k: int| 0 <= k < i ==> list@[k] != index,
        decreases list.len() - i,
    {
        if list[i] == index {
            return true;
        }
        i = i + 1;
    }
    false
}

fn read_tag(index: u32, tags: &Vec<WitNbtTag>, visiting: &mut Vec<u32>) -> (res: Result<
    NbtTag,
    NbtReadError,
>)
    requires
        visiting_ok(tags@.len(), old(visiting)@),
    ensures
        match read_value(wit_values(tags@), index, old(visiting)@) {
            Ok(v) => res matches Ok(t) && t.value() == v && final(visiting)@ == old(visiting)@,
            Err(e) => res == Err::<NbtTag, NbtReadError>(e),
        },
    decreases tags@.len() - old(visiting)@.len(),
{
    let ghost vals = wit_values(tags@);
    let ghost outer = visiting@;
    if index as usize >= tags.len() {
        return Err(NbtReadError::OutOfBounds(index));
    }
    if contains_index(visiting, index) {
        return Err(NbtReadError::Cycle(index));
    }
    proof {
        lemma_visiting_bound(tags@.len(), outer, index);
    }
    let ghost inner = outer.push(index);
    visiting.push(index);
    proof {
        assert(vals[index as int] == tags@[index as int]@);
    }
    let tag = match &tags[index as usize] {
        WitNbtTag::Byte(x) => NbtTag::Byte(*x),
        WitNbtTag::Short(x) => NbtTag::Short(*x),
        WitNbtTag::Int(x) => NbtTag::Int(*x),
        WitNbtTag::Long(x) => NbtTag::Long(*x),
        WitNbtTag::Float(x) => NbtTag::Float(*x),
        WitNbtTag::Double(x) => NbtTag::Double(*x),
        WitNbtTag::ByteArray(x) => NbtTag::ByteArray(vstd::slice::slice_to_vec(x.as_slice())),
        WitNbtTag::StringTag(x) => NbtTag::String(x.clone()),
        WitNbtTag::IntArray(x) => NbtTag::IntArray(vstd::slice::slice_to_vec(x.as_slice())),
        WitNbtTag::LongArray(x) => NbtTag::LongArray(vstd::slice::slice_to_vec(x.as_slice())),
        WitNbtTag::ListTag(children) => {
            let mut items: Vec<NbtTag> = Vec::new();
            let mut i: usize = 0;
            proof {
                assert(children@.take(0) =~= Seq::<u32>::empty());
            }
            while i < children.len()
                invariant
                    vals == wit_values(tags@),
                    outer == old(visiting)@,
                    visiting_ok(tags@.len(), outer),
                    index < tags@.len(),
                    !outer.contains(index),
                    tags@[index as int] == WitNbtTag::ListTag(*children),
                    vals[index as int] == tags@[index as int]@,
                    inner == outer.push(index),
                    visiting@ == inner,
                    visiting_ok(tags@.len(), inner),
                    inner.len() <= tags@.len(),
                    i <= children@.len(),
                    items@.len() == i,
                    read_list(vals, children@.take(i as int), inner) matches Ok(read) && read.len()
                        == i && forall|k: int| 0 <= k < i ==> #[trigger] items@[k].value() == read[k],
                decreases children.len() - i,
            {
                proof {
                    assert(children@.take(i + 1).drop_last() =~= children@.take(i as int));
                    assert(children@.take(i + 1).last() == children@[i as int]);
                }
                match read_tag(children[i], tags, visiting) {
                    Ok(t) => {
                        items.push(t);
                    },
                    Err(e) => {
                        proof {
                            lemma_read_list_error_stays(
                                vals,
                                children@,
                                i + 1,
                                children@.len() as int,
                                inner,
                            );
                            assert(children@.take(children@.len() as int) =~= children@);
                            assert(read_list(vals, children@, inner) == Err::<Seq<NbtValue>, NbtReadError>(e));
                            assert(read_value(vals, index, outer) == Err::<NbtValue, NbtReadError>(e));
                        }
                        return Err(e);
                    },
                }
                i = i + 1;
            }
            proof {
                assert(children@.take(children@.len() as int) =~= children@);
                let read = read_list(vals, children@, inner)->Ok_0;
                assert(read_list(vals, children@.take(i as int), inner) is Ok);
                assert(read.len() == items@.len());
                assert forall|k: int| 0 <= k < read.len() implies NbtTag::List(items).value()->List_0[k]
                    == read[k] by {
                    assert(items@[k].value() == read[k]);
                }
                assert(NbtTag::List(items).value()->List_0 =~= read);
                assert(read_value(vals, index, outer) == Ok::<NbtValue, NbtReadError>(
                    NbtTag::List(items).value(),
                ));
            }
            NbtTag::List(items)
        },
        WitNbtTag::Compound(entries) => {
            let ghost named = Seq::new(
                entries@.len(),
                |k: int| (entries@[k].key@, entries@[k].value),
            );
            let mut read_entries_out: Vec<(String, NbtTag)> = Vec::new();
            let mut i: usize = 0;
            proof {
                assert(named.take(0) =~= Seq::<(Seq<char>, u32)>::empty());
            }
            while i < entries.len()
                invariant
                    vals == wit_values(tags@),
                    outer == old(visiting)@,
                    visiting_ok(tags@.len(), outer),
                    index < tags@.len(),
                    !outer.contains(index),
                    tags@[index as int] == WitNbtTag::Compound(*entries),
                    vals[index as int] == tags@[index as int]@,
                    inner == outer.push(index),
                    visiting@ == inner,
                    visiting_ok(tags@.len(), inner),
                    inner.len() <= tags@.len(),
                    named.len() == entries@.len(),
                    forall|k: int|
                        0 <= k < named.len() ==> #[trigger] named[k] == (
                            entries@[k].key@,
                            entries@[k].value,
                        ),
                    i <= entries@.len(),
                    read_entries_out@.len() == i,
                    read_entries(vals, named.take(i as int), inner) matches Ok(read) && read.len()
                        == i && forall|k: int|
                        0 <= k < i ==> #[trigger] read_entries_out@[k].1.value() == read[k].1
                            && read_entries_out@[k].0@ == read[k].0,
                decreases entries.len() - i,
            {
                proof {
                    assert(named.take(i + 1).drop_last() =~= named.take(i as int));
                    assert(named.take(i + 1).last() == named[i as int]);
                }
                match read_tag(entries[i].value, tags, visiting) {
                    Ok(t) => {
                        read_entries_out.push((entries[i].key.clone(), t));
                    },
                    Err(e) => {
                        proof {
                            lemma_read_entries_error_stays(
                                vals,
                                named,
                                i + 1,
                                named.len() as int,
                                inner,
                            );
                            assert(named.take(named.len() as int) =~= named);
                            assert(vals[index as int]->Compound_0 =~= named);
                            assert(read_entries(vals, named, inner) == Err::<
                                Seq<(Seq<char>, NbtValue)>,
                                NbtReadError,
                            >(e));
                            assert(read_value(vals, index, outer) == Err::<NbtValue, NbtReadError>(e));
                        }
                        return Err(e);
                    },
                }
                i = i + 1;
            }
            proof {
                assert(named.take(named.len() as int) =~= named);
                assert(vals[index as int]->Compound_0 =~= named);
                let read = read_entries(vals, named, inner)->Ok_0;
                assert(read_entries(vals, named.take(i as int), inner) is Ok);
                assert(read.len() == read_entries_out@.len());
                assert forall|k: int| 0 <= k < read.len() implies NbtTag::Compound(
                    read_entries_out,
                ).value()->Compound_0[k] == read[k] by {
                    assert(read_entries_out@[k].1.value() == read[k].1);
                }
                assert(NbtTag::Compound(read_entries_out).value()->Compound_0 =~= read);
                assert(read_value(vals, index, outer) == Ok::<NbtValue, NbtReadError>(
                    NbtTag::Compound(read_entries_out).value(),
                ));
            }
            NbtTag::Compound(read_entries_out)
        },
    };
    proof {
        assert(read_value(vals, index, outer) == Ok::<NbtValue, NbtReadError>(tag.value()));
    }
    visiting.pop();
    proof {
        assert(visiting@ =~= outer);
    }
    Ok(tag)
}

/// Text of the error that reading back a flattened tree reports.
pub open spec fn read_error_text(e: NbtReadError) -> Seq<char> {
    match e {
        NbtReadError::OutOfBounds(index) => "NBT tag index "@ + decimal_text(index as int)
            + " is out of bounds"@,
        NbtReadError::Cycle(index) => "NBT tag tree contains a cycle at index "@ + decimal_text(
            index as int,
        ),
    }
}

/// Reads a flattened tree back, from its root: a tag that refers to a missing
/// index, or to a tag being read above it, makes the whole read fail with the
/// text of that error; a tag reached twice along different paths is read each
/// time.
pub fn from_wit_nbt_tree(tree: &WitNbtTree) -> (res: Result<NbtTag, String>)
    ensures
        match read_value(wit_values(tree.tags@), tree.root, Seq::empty()) {
            Ok(v) => res matches Ok(t) && t.value() == v,
            Err(e) => res matches Err(text) && text@ == read_error_text(e),
        },
{
    let mut visiting: Vec<u32> = Vec::new();
    proof {
        assert(visiting@ =~= Seq::<u32>::empty());
    }
    match read_tag(tree.root, &tree.tags, &mut visiting) {
        Ok(t) => Ok(t),
        Err(NbtReadError::OutOfBounds(index)) => {
            let number = u64_to_string(index as u64);
            Err(String::from_str("NBT tag index ").concat(number.as_str()).concat(" is out of bounds"))
        },
        Err(NbtReadError::Cycle(index)) => {
            let number = u64_to_string(index as u64);
            Err(String::from_str("NBT tag tree contains a cycle at index ").concat(number.as_str()))
        },
    }
}

/// The tree that reading back a flattened tree gives: end tags become empty
/// compounds, everything else stays.
pub open spec fn normalized(v: NbtValue) -> NbtValue
    decreases v,
{
    match v {
        NbtValue::End => NbtValue::Compound(Seq::empty()),
        NbtValue::List(items) => NbtValue::List(
            Seq::new(
                items.len(),
                |k: int|
                    if 0 <= k < items.len() {
                        normalized(items[k])
                    } else {
                        NbtValue::End
                    },
            ),
        ),
        NbtValue::Compound(entries) => NbtValue::Compound(
            Seq::new(
                entries.len(),
                |k: int|
                    if 0 <= k < entries.len() {
                        (entries[k].0, normalized(entries[k].1))
                    } else {
                        (Seq::empty(), NbtValue::End)
                    },
            ),
        ),
        _ => v,
    }
}

/// The trees of the first `j` items of a list are flattened at the start of
/// the list's tags.
proof fn lemma_flatten_list_prefix(items: Seq<NbtValue>, j: int, base: int)
    requires
        0 <= j <= items.len(),
    ensures
        list_count(items.take(j)) <= list_count(items),
        flatten_list(items, base).subrange(0, list_count(items.take(j)) as int) == flatten_list(
            items.take(j),
            base,
        ),
    decreases items.len() - j,
{
    lemma_list_count_prefix(items, j);
    lemma_flatten_list_len(items.take(j), base);
    lemma_flatten_list_len(items, base);
    if j == items.len() {
        assert(items.take(j) =~= items);
        assert(flatten_list(items, base).subrange(0, list_count(items) as int) =~= flatten_list(
            items,
            base,
        ));
    } else {
        lemma_flatten_list_prefix(items, j + 1, base);
        lemma_list_count_step(items, j, base);
        lemma_flatten_list_len(items.take(j + 1), base);
        assert(flatten_list(items, base).subrange(0, list_count(items.take(j)) as int)
            =~= flatten_list(items.take(j + 1), base).subrange(
            0,
            list_count(items.take(j)) as int,
        ));
        assert(flatten_list(items.take(j + 1), base).subrange(0, list_count(items.take(j)) as int)
            =~= flatten_list(items.take(j), base));
    }
}

/// The trees of the first `j` entries of a compound are flattened at the start
/// of the compound's tags.
proof fn lemma_flatten_entries_prefix(entries: Seq<(Seq<char>, NbtValue)>, j: int, base: int)
    requires
        0 <= j <= entries.len(),
    ensures
        entries_count(entries.take(j)) <= entries_count(entries),
        flatten_entries(entries, base).subrange(0, entries_count(entries.take(j)) as int)
            == flatten_entries(entries.take(j), base),
    decreases entries.len() - j,
{
    lemma_entries_count_prefix(entries, j);
    lemma_flatten_entries_len(entries.take(j), base);
    lemma_flatten_entries_len(entries, base);
    if j == entries.len() {
        assert(entries.take(j) =~= entries);
        assert(flatten_entries(entries, base).subrange(0, entries_count(entries) as int)
            =~= flatten_entries(entries, base));
    } else {
        lemma_flatten_entries_prefix(entries, j + 1, base);
        lemma_entries_count_step(entries, j, base);
        lemma_flatten_entries_len(entries.take(j + 1), base);
        assert(flatten_entries(entries, base).subrange(0, entries_count(entries.take(j)) as int)
            =~= flatten_entries(entries.take(j + 1), base).subrange(
            0,
            entries_count(entries.take(j)) as int,
        ));
        assert(flatten_entries(entries.take(j + 1), base).subrange(
            0,
            entries_count(entries.take(j)) as int,
        ) =~= flatten_entries(entries.take(j), base));
    }
}

/// Reading back the tags of a tree flattened at `base` inside `tags`, from
/// below tags that all lie before it, gives the tree, normalized.
proof fn lemma_read_flattened(tags: Seq<WitNbtValue>, v: NbtValue, base: int, visiting: Seq<u32>)
    requires
        0 <= base,
        base + node_count(v) <= tags.len(),
        tags.len() <= 0x1_0000_0000,
        tags.subrange(base, base + node_count(v)) == flatten(v, base),
        visiting_ok(tags.len(), visiting),
        forall|k: int| 0 <= k < visiting.len() ==> visiting[k] < base,
    ensures
        read_value(tags, base as u32, visiting) == Ok::<NbtValue, NbtReadError>(normalized(v)),
    decreases v, 0int,
{
    lemma_flatten_len(v, base);
    let index = base as u32;
    assert(index as int == base);
    if visiting.contains(index) {
        let k = choose|k: int| 0 <= k < visiting.len() && visiting[k] == index;
        assert(visiting[k] < base);
    }
    assert(tags[base] == flat_node(v, base)) by {
        assert(tags.subrange(base, base + node_count(v))[0] == tags[base]);
    }
    lemma_visiting_bound(tags.len(), visiting, index);
    let inner = visiting.push(index);
    assert forall|k: int| 0 <= k < inner.len() implies inner[k] < base + 1 by {
        if k < visiting.len() {
            assert(visiting[k] < base);
        }
    }
    match v {
        NbtValue::List(items) => {
            let n = items.len() as int;
            assert(tags.subrange(base + 1, base + 1 + list_count(items)) =~= flatten(
                v,
                base,
            ).subrange(1, node_count(v) as int));
            assert(flatten(v, base).subrange(1, node_count(v) as int) =~= flatten_list(
                items,
                base + 1,
            ));
            lemma_read_flattened_list(tags, items, base + 1, n, inner);
            let children = Seq::new(
                items.len(),
                |k: int| ((base + 1) + list_count(items.take(k))) as u32,
            );
            assert(children.take(n) =~= children);
            assert(flat_node(v, base)->ListTag_0 =~= children);
            assert(normalized(v)->List_0 =~= Seq::new(items.len(), |k: int| normalized(items[k])));
        },
        NbtValue::Compound(entries) => {
            let n = entries.len() as int;
            assert(tags.subrange(base + 1, base + 1 + entries_count(entries)) =~= flatten(
                v,
                base,
            ).subrange(1, node_count(v) as int));
            assert(flatten(v, base).subrange(1, node_count(v) as int) =~= flatten_entries(
                entries,
                base + 1,
            ));
            lemma_read_flattened_entries(tags, entries, base + 1, n, inner);
            let named = Seq::new(
                entries.len(),
                |k: int| (entries[k].0, ((base + 1) + entries_count(entries.take(k))) as u32),
            );
            assert(named.take(n) =~= named);
            assert(flat_node(v, base)->Compound_0 =~= named);
            assert(normalized(v)->Compound_0 =~= Seq::new(
                entries.len(),
                |k: int| (entries[k].0, normalized(entries[k].1)),
            ));
        },
        NbtValue::End => {
            assert(flat_node(v, base)->Compound_0 =~= Seq::<(Seq<char>, u32)>::empty());
            assert(read_entries(tags, Seq::empty(), inner) == Ok::<
                Seq<(Seq<char>, NbtValue)>,
                NbtReadError,
            >(Seq::empty()));
            assert(normalized(v)->Compound_0 =~= Seq::<(Seq<char>, NbtValue)>::empty());
        },
        _ => {},
    }
}

/// Reading back the first `j` trees of a list flattened at `base` inside
/// `tags`, from below tags that all lie before it, gives those trees,
/// normalized.
proof fn lemma_read_flattened_list(
    tags: Seq<WitNbtValue>,
    items: Seq<NbtValue>,
    base: int,
    j: int,
    visiting: Seq<u32>,
)
    requires
        0 <= j <= items.len(),
        0 <= base,
        base + list_count(items) <= tags.len(),
        tags.len() <= 0x1_0000_0000,
        tags.subrange(base, base + list_count(items)) == flatten_list(items, base),
        visiting_ok(tags.len(), visiting),
        forall|k: int| 0 <= k < visiting.len() ==> visiting[k] < base,
    ensures
        read_list(
            tags,
            Seq::new(items.len(), |k: int| (base + list_count(items.take(k))) as u32).take(j),
            visiting,
        ) == Ok::<Seq<NbtValue>, NbtReadError>(Seq::new(j as nat, |k: int| normalized(items[k]))),
    decreases items, j,
{
    let children = Seq::new(items.len(), |k: int| (base + list_count(items.take(k))) as u32);
    if j == 0 {
        assert(children.take(0) =~= Seq::<u32>::empty());
        assert(Seq::new(0, |k: int| normalized(items[k])) =~= Seq::<NbtValue>::empty());
    } else {
        lemma_read_flattened_list(tags, items, base, j - 1, visiting);
        assert(children.take(j).drop_last() =~= children.take(j - 1));
        let before = list_count(items.take(j - 1)) as int;
        let start = base + before;
        let size = node_count(items[j - 1]) as int;
        lemma_flatten_list_prefix(items, j, base);
        lemma_list_count_step(items, j - 1, base);
        lemma_flatten_list_len(items.take(j - 1), base);
        lemma_flatten_len(items[j - 1], start);
        assert(tags.subrange(start, start + size) =~= flatten_list(items, base).subrange(
            before,
            before + size,
        ));
        assert(flatten_list(items, base).subrange(before, before + size) =~= flatten_list(
            items.take(j),
            base,
        ).subrange(before, before + size));
        assert(flatten_list(items.take(j), base).subrange(before, before + size) =~= flatten(
            items[j - 1],
            start,
        ));
        assert forall|k: int| 0 <= k < visiting.len() implies visiting[k] < start by {
            assert(visiting[k] < base);
        }
        lemma_read_flattened(tags, items[j - 1], start, visiting);
        assert(children.take(j).last() == start as u32);
        assert(Seq::new(j as nat, |k: int| normalized(items[k])) =~= Seq::new(
            (j - 1) as nat,
            |k: int| normalized(items[k]),
        ).push(normalized(items[j - 1])));
    }
}

/// Reading back the first `j` entries of a compound flattened at `base`
/// inside `tags`, from below tags that all lie before it, gives those
/// entries, their trees normalized.
proof fn lemma_read_flattened_entries(
    tags: Seq<WitNbtValue>,
    entries: Seq<(Seq<char>, NbtValue)>,
    base: int,
    j: int,
    visiting: Seq<u32>,
)
    requires
        0 <= j <= entries.len(),
        0 <= base,
        base + entries_count(entries) <= tags.len(),
        tags.len() <= 0x1_0000_0000,
        tags.subrange(base, base + entries_count(entries)) == flatten_entries(entries, base),
        visiting_ok(tags.len(), visiting),
        forall|k: int| 0 <= k < visiting.len() ==> visiting[k] < base,
    ensures
        read_entries(
            tags,
            Seq::new(
                entries.len(),
                |k: int| (entries[k].0, (base + entries_count(entries.take(k))) as u32),
            ).take(j),
            visiting,
        ) == Ok::<Seq<(Seq<char>, NbtValue)>, NbtReadError>(
            Seq::new(j as nat, |k: int| (entries[k].0, normalized(entries[k].1))),
        ),
    decreases entries, j,
{
    let named = Seq::new(
        entries.len(),
        |k: int| (entries[k].0, (base + entries_count(entries.take(k))) as u32),
    );
    if j == 0 {
        assert(named.take(0) =~= Seq::<(Seq<char>, u32)>::empty());
        assert(Seq::new(0, |k: int| (entries[k].0, normalized(entries[k].1))) =~= Seq::<
            (Seq<char>, NbtValue),
        >::empty());
    } else {
        lemma_read_flattened_entries(tags, entries, base, j - 1, visiting);
        assert(named.take(j).drop_last() =~= named.take(j - 1));
        let before = entries_count(entries.take(j - 1)) as int;
        let start = base + before;
        let size = node_count(entries[j - 1].1) as int;
        lemma_flatten_entries_prefix(entries, j, base);
        lemma_entries_count_step(entries, j - 1, base);
        lemma_flatten_entries_len(entries.take(j - 1), base);
        lemma_flatten_len(entries[j - 1].1, start);
        assert(tags.subrange(start, start + size) =~= flatten_entries(entries, base).subrange(
            before,
            before + size,
        ));
        assert(flatten_entries(entries, base).subrange(before, before + size) =~= flatten_entries(
            entries.take(j),
            base,
        ).subrange(before, before + size));
        assert(flatten_entries(entries.take(j), base).subrange(before, before + size) =~= flatten(
            entries[j - 1].1,
            start,
        ));
        assert forall|k: int| 0 <= k < visiting.len() implies visiting[k] < start by {
            assert(visiting[k] < base);
        }
        assert(decreases_to!(entries => entries[j - 1]));
        lemma_read_flattened(tags, entries[j - 1].1, start, visiting);
        assert(named.take(j).last() == (entries[j - 1].0, start as u32));
        assert(Seq::new(j as nat, |k: int| (entries[k].0, normalized(entries[k].1))) =~= Seq::new(
            (j - 1) as nat,
            |k: int| (entries[k].0, normalized(entries[k].1)),
        ).push((entries[j - 1].0, normalized(entries[j - 1].1))));
    }
}

/// Reading back a flattened tree gives the tree, with its end tags turned into
/// empty compounds: the trees that plugins and the server exchange survive the
/// trip.
pub proof fn lemma_nbt_round_trip(v: NbtValue)
    requires
        node_count(v) <= 0x1_0000_0000,
    ensures
        read_value(flatten(v, 0), 0, Seq::empty()) == Ok::<NbtValue, NbtReadError>(normalized(v)),
{
    lemma_flatten_len(v, 0);
    assert(flatten(v, 0).subrange(0, node_count(v) as int) =~= flatten(v, 0));
    lemma_read_flattened(flatten(v, 0), v, 0, Seq::empty());
}

/// The tree holds no end tag at any depth.
pub open spec fn end_free(v: NbtValue) -> bool
    decreases v,
{
    match v {
        NbtValue::End => false,
        NbtValue::List(items) => list_end_free(items),
        NbtValue::Compound(entries) => entries_end_free(entries),
        _ => true,
    }
}

/// No tree of the list holds an end tag.
pub open spec fn list_end_free(items: Seq<NbtValue>) -> bool
    decreases items,
{
    items.len() == 0 || (list_end_free(items.subrange(0, items.len() - 1)) && end_free(
        items[items.len() - 1],
    ))
}

/// No value of the entries holds an end tag.
pub open spec fn entries_end_free(entries: Seq<(Seq<char>, NbtValue)>) -> bool
    decreases entries,
{
    entries.len() == 0 || (entries_end_free(entries.subrange(0, entries.len() - 1)) && end_free(
        entries[entries.len() - 1].1,
    ))
}

/// Normalizing leaves a tree without end tags as it is.
pub proof fn lemma_normalized_end_free(v: NbtValue)
    requires
        end_free(v),
    ensures
        normalized(v) == v,
    decreases v, 0int,
{
    match v {
        NbtValue::List(items) => {
            lemma_normalized_list_end_free(items, items.len() as int);
            assert(normalized(v)->List_0 =~= Seq::new(items.len(), |k: int| normalized(items[k])));
            assert(Seq::new(items.len(), |k: int| normalized(items[k])) =~= items);
        },
        NbtValue::Compound(entries) => {
            lemma_normalized_entries_end_free(entries, entries.len() as int);
            assert(normalized(v)->Compound_0 =~= Seq::new(
                entries.len(),
                |k: int| (entries[k].0, normalized(entries[k].1)),
            ));
            assert(Seq::new(entries.len(), |k: int| (entries[k].0, normalized(entries[k].1)))
                =~= entries);
        },
        _ => {},
    }
}

/// Normalizing leaves the first `j` trees of a list without end tags as they are.
proof fn lemma_normalized_list_end_free(items: Seq<NbtValue>, j: int)
    requires
        list_end_free(items),
        0 <= j <= items.len(),
    ensures
        forall|k: int| 0 <= k < j ==> #[trigger] normalized(items[k]) == items[k],
    decreases items, j,
{
    if j > 0 {
        lemma_normalized_list_end_free(items, j - 1);
        lemma_list_end_free_item(items, j - 1);
        lemma_normalized_end_free(items[j - 1]);
    }
}

/// Normalizing leaves the values of the first `j` entries without end tags as they are.
proof fn lemma_normalized_entries_end_free(entries: Seq<(Seq<char>, NbtValue)>, j: int)
    requires
        entries_end_free(entries),
        0 <= j <= entries.len(),
    ensures
        forall|k: int| 0 <= k < j ==> #[trigger] normalized(entries[k].1) == entries[k].1,
    decreases entries, j,
{
    if j > 0 {
        lemma_normalized_entries_end_free(entries, j - 1);
        lemma_entries_end_free_item(entries, j - 1);
        assert(decreases_to!(entries => entries[j - 1]));
        lemma_normalized_end_free(entries[j - 1].1);
    }
}

/// Each tree of a list without end tags has none.
proof fn lemma_list_end_free_item(items: Seq<NbtValue>, k: int)
    requires
        list_end_free(items),
        0 <= k < items.len(),
    ensures
        end_free(items[k]),
    decreases items.len(),
{
    let init = items.subrange(0, items.len() - 1);
    if k < items.len() - 1 {
        lemma_list_end_free_item(init, k);
        assert(init[k] == items[k]);
    }
}

/// Each value of entries without end tags has none.
proof fn lemma_entries_end_free_item(entries: Seq<(Seq<char>, NbtValue)>, k: int)
    requires
        entries_end_free(entries),
        0 <= k < entries.len(),
    ensures
        end_free(entries[k].1),
    decreases entries.len(),
{
    let init = entries.subrange(0, entries.len() - 1);
    if k < entries.len() - 1 {
        lemma_entries_end_free_item(init, k);
        assert(init[k] == entries[k]);
    }
}

/// A tree without end tags comes back exactly as it was, floating-point
/// values bit for bit, once flattened and read back.
pub proof fn lemma_nbt_round_trip_end_free(v: NbtValue)
    requires
        node_count(v) <= 0x1_0000_0000,
        end_free(v),
    ensures
        read_value(flatten(v, 0), 0, Seq::empty()) == Ok::<NbtValue, NbtReadError>(v),
{
    lemma_nbt_round_trip(v);
    lemma_normalized_end_free(v);
}

} // verus!
