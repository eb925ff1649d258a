use pumpkin_wasm_host::nbt::{
    NbtTag, WitNbtEntry, WitNbtTag, WitNbtTree, from_wit_nbt_tree, push_wit_nbt_tag,
    to_wit_nbt_tree,
};

fn sample() -> NbtTag {
    NbtTag::Compound(vec![
        ("name".to_string(), NbtTag::String("Steve".to_string())),
        (
            "pos".to_string(),
            NbtTag::List(vec![NbtTag::Double(1.5f64.to_bits()), NbtTag::Double((-2.0f64).to_bits())]),
        ),
        ("health".to_string(), NbtTag::Float(20.0f32.to_bits())),
        ("data".to_string(), NbtTag::ByteArray(vec![1, 2, 3])),
    ])
}

#[test]
fn trees_flatten_root_first() {
    let tree = to_wit_nbt_tree(sample());
    assert_eq!(tree.root, 0);
    assert_eq!(
        tree.tags,
        vec![
            WitNbtTag::Compound(vec![
                WitNbtEntry { key: "name".to_string(), value: 1 },
                WitNbtEntry { key: "pos".to_string(), value: 2 },
                WitNbtEntry { key: "health".to_string(), value: 5 },
                WitNbtEntry { key: "data".to_string(), value: 6 },
            ]),
            WitNbtTag::StringTag("Steve".to_string()),
            WitNbtTag::ListTag(vec![3, 4]),
            WitNbtTag::Double(1.5f64.to_bits()),
            WitNbtTag::Double((-2.0f64).to_bits()),
            WitNbtTag::Float(20.0f32.to_bits()),
            WitNbtTag::ByteArray(vec![1, 2, 3]),
        ]
    );
}

#[test]
fn pushing_appends_after_existing_tags() {
    let mut tags = vec![WitNbtTag::Int(9)];
    let index = push_wit_nbt_tag(NbtTag::List(vec![NbtTag::Byte(-1), NbtTag::End]), &mut tags);
    assert_eq!(index, 1);
    assert_eq!(
        tags,
        vec![
            WitNbtTag::Int(9),
            WitNbtTag::ListTag(vec![2, 3]),
            WitNbtTag::Byte(-1),
            WitNbtTag::Compound(Vec::new()),
        ]
    );
}

#[test]
fn flattened_trees_read_back() {
    assert_eq!(from_wit_nbt_tree(&to_wit_nbt_tree(sample())), Ok(sample()));
    let arrays = || NbtTag::List(vec![NbtTag::IntArray(vec![1, -2]), NbtTag::LongArray(vec![i64::MIN])]);
    assert_eq!(from_wit_nbt_tree(&to_wit_nbt_tree(arrays())), Ok(arrays()));
    assert_eq!(
        from_wit_nbt_tree(&to_wit_nbt_tree(NbtTag::List(vec![NbtTag::End]))),
        Ok(NbtTag::List(vec![NbtTag::Compound(Vec::new())]))
    );
}

#[test]
fn shared_children_are_read_twice() {
    let tree = WitNbtTree {
        root: 0,
        tags: vec![WitNbtTag::ListTag(vec![1, 1]), WitNbtTag::Short(7)],
    };
    assert_eq!(
        from_wit_nbt_tree(&tree),
        Ok(NbtTag::List(vec![NbtTag::Short(7), NbtTag::Short(7)]))
    );
}

#[test]
fn broken_trees_are_refused() {
    let missing = WitNbtTree { root: 0, tags: vec![WitNbtTag::ListTag(vec![5])] };
    assert_eq!(from_wit_nbt_tree(&missing), Err("NBT tag index 5 is out of bounds".to_string()));
    let empty = WitNbtTree { root: 0, tags: Vec::new() };
    assert_eq!(from_wit_nbt_tree(&empty), Err("NBT tag index 0 is out of bounds".to_string()));
    let cyclic = WitNbtTree {
        root: 0,
        tags: vec![
            WitNbtTag::Compound(vec![WitNbtEntry { key: "a".to_string(), value: 1 }]),
            WitNbtTag::ListTag(vec![0]),
        ],
    };
    assert_eq!(
        from_wit_nbt_tree(&cyclic),
        Err("NBT tag tree contains a cycle at index 0".to_string())
    );
    let first_error_wins = WitNbtTree {
        root: 0,
        tags: vec![WitNbtTag::ListTag(vec![9, 0])],
    };
    assert_eq!(
        from_wit_nbt_tree(&first_error_wins),
        Err("NBT tag index 9 is out of bounds".to_string())
    );
}
