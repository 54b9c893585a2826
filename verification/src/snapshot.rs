//! The snapshot of an inventory: its state as a JSON document.
//!
//! ```text
//! { "bags": { "armor_bag": [..], "consumable_bag": [..], "weapon_bag": [..] },
//!   "wallet": 100 }
//! ```
//!
//! Each collection is an array of entries `{ "qty": 5, "item": {..} }`, and an item is
//! `{ "name": "..", "description": "..", "effect": {..}, "item_type": "Armor", "value": 25 }`.
//! An effect is an object of one field, named after its variant: `{ "Heal": 15 }` or
//! `{ "Buff": [15, "Ap"] }`. A category is its name.
//!
//! This module says which document is the snapshot of which inventory, and shows that
//! the inventory can be read back from it. The functions that build and read documents
//! are in [`crate::persist`].

use crate::inventory::Inventory;
use crate::items::{EffectView, ItemType, ItemView};
use crate::json::{pretty, printed_levels, shallow, JsonView};
use crate::model::{all_representable, BagView, EntryView, InventoryView};
use vstd::prelude::*;

verus! {

/// The fields of a JSON object, in order.
pub type Fields = Seq<(Seq<char>, JsonView)>;

/// `i` is the position of the first field of `fields` with the key `key`.
pub open spec fn first_key(fields: Fields, key: Seq<char>, i: int) -> bool {
    &&& 0 <= i < fields.len()
    &&& fields[i].0 == key
    &&& forall|j: int| 0 <= j < i ==> (#[trigger] fields[j]).0 != key
}

/// The value of the first field with the key `key`, if there is one.
pub open spec fn field(fields: Fields, key: Seq<char>) -> Option<JsonView> {
    if exists|i: int| first_key(fields, key, i) {
        Some(fields[choose|i: int| first_key(fields, key, i)].1)
    } else {
        None
    }
}

/// The document of a number.
pub open spec fn int_tree(n: int) -> JsonView {
    JsonView::Number(Some(n))
}

/// The document of a category: its name.
pub open spec fn item_type_tree(item_type: ItemType) -> JsonView {
    match item_type {
        ItemType::Armor => JsonView::Text("Armor"@),
        ItemType::Consumable => JsonView::Text("Consumable"@),
        ItemType::Weapon => JsonView::Text("Weapon"@),
    }
}

/// The document of an effect: an object of one field, named after the variant, that holds
/// the amount, or the amount and the stat.
pub open spec fn effect_tree(effect: EffectView) -> JsonView {
    match effect {
        EffectView::Heal(n) => JsonView::Object(seq![("Heal"@, int_tree(n))]),
        EffectView::Damage(n) => JsonView::Object(seq![("Damage"@, int_tree(n))]),
        EffectView::Buff(n, stat) => JsonView::Object(
            seq![("Buff"@, JsonView::Array(seq![int_tree(n), JsonView::Text(stat)]))],
        ),
        EffectView::Debuff(n, stat) => JsonView::Object(
            seq![("Debuff"@, JsonView::Array(seq![int_tree(n), JsonView::Text(stat)]))],
        ),
    }
}

/// The document of an item: its five fields, in the order of their declaration.
pub open spec fn item_tree(item: ItemView) -> JsonView {
    JsonView::Object(
        seq![
            ("name"@, JsonView::Text(item.name)),
            ("description"@, JsonView::Text(item.description)),
            ("effect"@, effect_tree(item.effect)),
            ("item_type"@, item_type_tree(item.item_type)),
            ("value"@, int_tree(item.value)),
        ],
    )
}

/// The document of an entry: the quantity, then the item.
pub open spec fn entry_tree(entry: EntryView) -> JsonView {
    JsonView::Object(seq![("qty"@, int_tree(entry.qty)), ("item"@, item_tree(entry.item))])
}

/// The document of a collection: the array of its entries, in storage order.
pub open spec fn entries_tree(entries: Seq<EntryView>) -> JsonView {
    JsonView::Array(entries.map_values(|entry: EntryView| entry_tree(entry)))
}

/// The document of a bag: its three collections.
pub open spec fn bag_tree(bag: BagView) -> JsonView {
    JsonView::Object(
        seq![
            ("armor_bag"@, entries_tree(bag.armor)),
            ("consumable_bag"@, entries_tree(bag.consumable)),
            ("weapon_bag"@, entries_tree(bag.weapon)),
        ],
    )
}

/// The snapshot of an inventory: the bag, then the wallet.
pub open spec fn snapshot(inventory: InventoryView) -> JsonView {
    JsonView::Object(
        seq![("bags"@, bag_tree(inventory.bags)), ("wallet"@, int_tree(inventory.wallet))],
    )
}

/// The number of a document that is an integer of 32 bits with a sign.
pub open spec fn tree_int(tree: JsonView) -> Option<int> {
    match tree {
        JsonView::Number(Some(n)) => if i32::MIN <= n <= i32::MAX {
            Some(n)
        } else {
            None
        },
        _ => None,
    }
}

/// The string of a document that is one.
pub open spec fn tree_text(tree: JsonView) -> Option<Seq<char>> {
    match tree {
        JsonView::Text(text) => Some(text),
        _ => None,
    }
}

/// The category that a document names.
pub open spec fn tree_item_type(tree: JsonView) -> Option<ItemType> {
    match tree {
        JsonView::Text(name) => if name == "Armor"@ {
            Some(ItemType::Armor)
        } else if name == "Consumable"@ {
            Some(ItemType::Consumable)
        } else if name == "Weapon"@ {
            Some(ItemType::Weapon)
        } else {
            None
        },
        _ => None,
    }
}

/// The amount and the stat of a document that is an array of exactly these two.
pub open spec fn tree_amount_and_stat(tree: JsonView) -> Option<(int, Seq<char>)> {
    match tree {
        JsonView::Array(pair) => if pair.len() == 2 && tree_int(pair[0]) is Some && tree_text(
            pair[1],
        ) is Some {
            Some((tree_int(pair[0])->Some_0, tree_text(pair[1])->Some_0))
        } else {
            None
        },
        _ => None,
    }
}

/// The effect of a document: an object of exactly one field, whose key names the variant
/// and whose value fits it.
pub open spec fn tree_effect(tree: JsonView) -> Option<EffectView> {
    match tree {
        JsonView::Object(fields) => if fields.len() != 1 {
            None
        } else if fields[0].0 == "Heal"@ {
            match tree_int(fields[0].1) {
                Some(n) => Some(EffectView::Heal(n)),
                None => None,
            }
        } else if fields[0].0 == "Damage"@ {
            match tree_int(fields[0].1) {
                Some(n) => Some(EffectView::Damage(n)),
                None => None,
            }
        } else if fields[0].0 == "Buff"@ {
            match tree_amount_and_stat(fields[0].1) {
                Some((n, stat)) => Some(EffectView::Buff(n, stat)),
                None => None,
            }
        } else if fields[0].0 == "Debuff"@ {
            match tree_amount_and_stat(fields[0].1) {
                Some((n, stat)) => Some(EffectView::Debuff(n, stat)),
                None => None,
            }
        } else {
            None
        },
        _ => None,
    }
}

/// The value of the field `key` of a document that is an object.
pub open spec fn tree_field(tree: JsonView, key: Seq<char>) -> Option<JsonView> {
    match tree {
        JsonView::Object(fields) => field(fields, key),
        _ => None,
    }
}

/// The item of a document: an object whose fields `name`, `description`, `effect`,
/// `item_type` and `value` are there and fit. Other fields are passed over, and of two
/// fields with one key the first counts.
pub open spec fn tree_item(tree: JsonView) -> Option<ItemView> {
    match (
        tree_field(tree, "name"@),
        tree_field(tree, "description"@),
        tree_field(tree, "effect"@),
        tree_field(tree, "item_type"@),
        tree_field(tree, "value"@),
    ) {
        (Some(name), Some(description), Some(effect), Some(item_type), Some(value)) => match (
            tree_text(name),
            tree_text(description),
            tree_effect(effect),
            tree_item_type(item_type),
            tree_int(value),
        ) {
            (Some(name), Some(description), Some(effect), Some(item_type), Some(value)) => Some(
                ItemView { name, description, effect, item_type, value },
            ),
            _ => None,
        },
        _ => None,
    }
}

/// The entry of a document: an object whose fields `qty` and `item` are there and fit.
pub open spec fn tree_entry(tree: JsonView) -> Option<EntryView> {
    match (tree_field(tree, "qty"@), tree_field(tree, "item"@)) {
        (Some(qty), Some(item)) => match (tree_int(qty), tree_item(item)) {
            (Some(qty), Some(item)) => Some(EntryView { qty, item }),
            _ => None,
        },
        _ => None,
    }
}

/// The collection of a document: an array of entries.
pub open spec fn tree_entries(tree: JsonView) -> Option<Seq<EntryView>> {
    match tree {
        JsonView::Array(items) => if forall|i: int|
            0 <= i < items.len() ==> tree_entry(#[trigger] items[i]) is Some {
            Some(items.map_values(|item: JsonView| tree_entry(item)->Some_0))
        } else {
            None
        },
        _ => None,
    }
}

/// The bag of a document: an object whose fields `armor_bag`, `consumable_bag` and
/// `weapon_bag` are there and are collections.
pub open spec fn tree_bag(tree: JsonView) -> Option<BagView> {
    match (
        tree_field(tree, "armor_bag"@),
        tree_field(tree, "consumable_bag"@),
        tree_field(tree, "weapon_bag"@),
    ) {
        (Some(armor), Some(consumable), Some(weapon)) => match (
            tree_entries(armor),
            tree_entries(consumable),
            tree_entries(weapon),
        ) {
            (Some(armor), Some(consumable), Some(weapon)) => Some(
                BagView { armor, consumable, weapon },
            ),
            _ => None,
        },
        _ => None,
    }
}

/// The inventory that a document is the snapshot of: an object whose fields `bags` and
/// `wallet` are there and fit, and which keeps the inventory's invariant. `None` for every
/// other document.
pub open spec fn restore(tree: JsonView) -> Option<InventoryView> {
    match (tree_field(tree, "bags"@), tree_field(tree, "wallet"@)) {
        (Some(bags), Some(wallet)) => match (tree_bag(bags), tree_int(wallet)) {
            (Some(bags), Some(wallet)) => if (InventoryView { bags, wallet }).wf() {
                Some(InventoryView { bags, wallet })
            } else {
                None
            },
            _ => None,
        },
        _ => None,
    }
}

/// `field` gives the value at the first position of the key, and only that.
pub proof fn lemma_field(fields: Fields, key: Seq<char>)
    ensures
        forall|i: int| #[trigger] first_key(fields, key, i) ==> field(fields, key) == Some(fields[i].1),
        field(fields, key) is None <==> forall|i: int|
            0 <= i < fields.len() ==> (#[trigger] fields[i]).0 != key,
{
    assert forall|i: int| #[trigger] first_key(fields, key, i) implies field(fields, key) == Some(
        fields[i].1,
    ) by {
        let k = choose|k: int| first_key(fields, key, k);
        assert(k == i) by {
            if k < i {
                assert(fields[k].0 != key);
            }
            if i < k {
                assert(fields[i].0 != key);
            }
        }
    }
    if exists|i: int| 0 <= i < fields.len() && (#[trigger] fields[i]).0 == key {
        let k = choose|k: int| 0 <= k < fields.len() && (#[trigger] fields[k]).0 == key;
        lemma_first_key_exists(fields, key, k);
    }
}

/// Where some field up to `k` has the key, there is a first one.
proof fn lemma_first_key_exists(fields: Fields, key: Seq<char>, k: int)
    requires
        0 <= k < fields.len(),
        fields[k].0 == key,
    ensures
        exists|i: int| first_key(fields, key, i),
    decreases k,
{
    if forall|j: int| 0 <= j < k ==> (#[trigger] fields[j]).0 != key {
        assert(first_key(fields, key, k));
    } else {
        let j = choose|j: int| 0 <= j < k && (#[trigger] fields[j]).0 == key;
        lemma_first_key_exists(fields, key, j);
    }
}

/// The keys and names of the snapshot are what they read, so no two of them are the same.
proof fn lemma_words()
    ensures
        "bags"@ != "wallet"@,
        "armor_bag"@ != "consumable_bag"@,
        "armor_bag"@ != "weapon_bag"@,
        "consumable_bag"@ != "weapon_bag"@,
        "qty"@ != "item"@,
        "name"@ != "description"@,
        "name"@ != "effect"@,
        "name"@ != "item_type"@,
        "name"@ != "value"@,
        "description"@ != "effect"@,
        "description"@ != "item_type"@,
        "description"@ != "value"@,
        "effect"@ != "item_type"@,
        "effect"@ != "value"@,
        "item_type"@ != "value"@,
        "Heal"@ != "Damage"@,
        "Heal"@ != "Buff"@,
        "Heal"@ != "Debuff"@,
        "Damage"@ != "Buff"@,
        "Damage"@ != "Debuff"@,
        "Buff"@ != "Debuff"@,
        "Armor"@ != "Consumable"@,
        "Armor"@ != "Weapon"@,
        "Consumable"@ != "Weapon"@,
{
    reveal_strlit("bags");
    reveal_strlit("wallet");
    reveal_strlit("armor_bag");
    reveal_strlit("consumable_bag");
    reveal_strlit("weapon_bag");
    reveal_strlit("qty");
    reveal_strlit("item");
    reveal_strlit("name");
    reveal_strlit("description");
    reveal_strlit("effect");
    reveal_strlit("item_type");
    reveal_strlit("value");
    reveal_strlit("Heal");
    reveal_strlit("Damage");
    reveal_strlit("Buff");
    reveal_strlit("Debuff");
    reveal_strlit("Armor");
    reveal_strlit("Consumable");
    reveal_strlit("Weapon");
    assert("bags"@.len() == 4);
    assert("wallet"@.len() == 6);
    assert("armor_bag"@.len() == 9);
    assert("consumable_bag"@.len() == 14);
    assert("weapon_bag"@.len() == 10);
    assert("qty"@.len() == 3);
    assert("item"@.len() == 4);
    assert("name"@.len() == 4);
    assert("description"@.len() == 11);
    assert("effect"@.len() == 6);
    assert("item_type"@.len() == 9);
    assert("value"@.len() == 5);
    assert("Heal"@.len() == 4);
    assert("Damage"@.len() == 6);
    assert("Buff"@.len() == 4);
    assert("Debuff"@.len() == 6);
    assert("Armor"@.len() == 5);
    assert("Consumable"@.len() == 10);
    assert("Weapon"@.len() == 6);
    assert("Heal"@[0] == 'H' && "Buff"@[0] == 'B');
    assert("Damage"@[1] == 'a' && "Debuff"@[1] == 'e');
}

/// Reading the document of a category gives the category back.
pub proof fn lemma_item_type_round_trip(item_type: ItemType)
    ensures
        tree_item_type(item_type_tree(item_type)) == Some(item_type),
{
    lemma_words();
}

/// Reading the document of an effect gives the effect back.
pub proof fn lemma_effect_round_trip(effect: EffectView)
    requires
        effect.representable(),
    ensures
        tree_effect(effect_tree(effect)) == Some(effect),
{
    lemma_words();
}

/// Reading the document of an item gives the item back.
pub proof fn lemma_item_round_trip(item: ItemView)
    requires
        item.representable(),
    ensures
        tree_item(item_tree(item)) == Some(item),
{
    lemma_words();
    lemma_effect_round_trip(item.effect);
    lemma_item_type_round_trip(item.item_type);
    let fields = item_tree(item)->Object_0;
    lemma_field(fields, "name"@);
    lemma_field(fields, "description"@);
    lemma_field(fields, "effect"@);
    lemma_field(fields, "item_type"@);
    lemma_field(fields, "value"@);
    assert(first_key(fields, "name"@, 0));
    assert(first_key(fields, "description"@, 1));
    assert(first_key(fields, "effect"@, 2));
    assert(first_key(fields, "item_type"@, 3));
    assert(first_key(fields, "value"@, 4));
}

/// Reading the document of an entry gives the entry back.
pub proof fn lemma_entry_round_trip(entry: EntryView)
    requires
        entry.representable(),
    ensures
        tree_entry(entry_tree(entry)) == Some(entry),
{
    lemma_words();
    lemma_item_round_trip(entry.item);
    let fields = entry_tree(entry)->Object_0;
    lemma_field(fields, "qty"@);
    lemma_field(fields, "item"@);
    assert(first_key(fields, "qty"@, 0));
    assert(first_key(fields, "item"@, 1));
}

/// Reading the document of a collection gives the collection back.
pub proof fn lemma_entries_round_trip(entries: Seq<EntryView>)
    requires
        all_representable(entries),
    ensures
        tree_entries(entries_tree(entries)) == Some(entries),
{
    let items = entries_tree(entries)->Array_0;
    assert forall|i: int| 0 <= i < items.len() implies tree_entry(#[trigger] items[i]) == Some(
        entries[i],
    ) by {
        lemma_entry_round_trip(entries[i]);
    }
    assert(items.map_values(|item: JsonView| tree_entry(item)->Some_0) =~= entries);
}

/// Reading the document of a bag gives the bag back.
pub proof fn lemma_bag_round_trip(bag: BagView)
    requires
        bag.representable(),
    ensures
        tree_bag(bag_tree(bag)) == Some(bag),
{
    lemma_words();
    lemma_entries_round_trip(bag.armor);
    lemma_entries_round_trip(bag.consumable);
    lemma_entries_round_trip(bag.weapon);
    let fields = bag_tree(bag)->Object_0;
    lemma_field(fields, "armor_bag"@);
    lemma_field(fields, "consumable_bag"@);
    lemma_field(fields, "weapon_bag"@);
    assert(first_key(fields, "armor_bag"@, 0));
    assert(first_key(fields, "consumable_bag"@, 1));
    assert(first_key(fields, "weapon_bag"@, 2));
}

/// Round trip: restoring the snapshot of an inventory gives that inventory back, and the
/// snapshot of what was restored is the snapshot it was restored from, so that it is
/// printed as the same text.
pub proof fn lemma_snapshot_round_trip(inventory: InventoryView)
    requires
        inventory.wf(),
        inventory.representable(),
    ensures
        restore(snapshot(inventory)) == Some(inventory),
        restore(snapshot(inventory)) matches Some(restored) && snapshot(restored) == snapshot(
            inventory,
        ) && pretty(snapshot(restored)) == pretty(snapshot(inventory)),
{
    lemma_words();
    lemma_bag_round_trip(inventory.bags);
    let fields = snapshot(inventory)->Object_0;
    lemma_field(fields, "bags"@);
    lemma_field(fields, "wallet"@);
    assert(first_key(fields, "bags"@, 0));
    assert(first_key(fields, "wallet"@, 1));
}

/// The document of an item is nested three levels deep: the item, its effect, and the
/// effect's amount and stat.
pub proof fn lemma_item_shallow(item: ItemView, levels: nat)
    requires
        levels >= 3,
    ensures
        shallow(item_tree(item), levels),
{
    let fields = item_tree(item)->Object_0;
    assert forall|i: int| 0 <= i < fields.len() implies shallow(
        (#[trigger] fields[i]).1,
        (levels - 1) as nat,
    ) by {
        if i == 2 {
            let effect = effect_tree(item.effect)->Object_0;
            assert forall|j: int| 0 <= j < effect.len() implies shallow(
                (#[trigger] effect[j]).1,
                (levels - 2) as nat,
            ) by {
                if effect[j].1 is Array {
                    let pair = effect[j].1->Array_0;
                    assert forall|k: int| 0 <= k < pair.len() implies shallow(
                        #[trigger] pair[k],
                        (levels - 3) as nat,
                    ) by {
                        assert(pair[k] is Number || pair[k] is Text);
                    }
                }
            }
        }
    }
}

/// The document of a collection is nested five levels deep: the array, the entry, and
/// the three levels of the item.
pub proof fn lemma_entries_shallow(entries: Seq<EntryView>, levels: nat)
    requires
        levels >= 5,
    ensures
        shallow(entries_tree(entries), levels),
{
    let items = entries_tree(entries)->Array_0;
    assert forall|i: int| 0 <= i < items.len() implies shallow(
        #[trigger] items[i],
        (levels - 1) as nat,
    ) by {
        let fields = entry_tree(entries[i])->Object_0;
        assert(items[i] == entry_tree(entries[i]));
        assert forall|j: int| 0 <= j < fields.len() implies shallow(
            (#[trigger] fields[j]).1,
            (levels - 2) as nat,
        ) by {
            if j == 1 {
                lemma_item_shallow(entries[i].item, (levels - 2) as nat);
            }
        }
    }
}

/// A snapshot is nested seven levels deep, so it is one that can be printed.
pub proof fn lemma_snapshot_shallow(inventory: InventoryView)
    ensures
        shallow(snapshot(inventory), 7),
        shallow(snapshot(inventory), printed_levels()),
{
    lemma_snapshot_shallow_to(inventory, 7);
    lemma_snapshot_shallow_to(inventory, printed_levels());
}

/// A snapshot is nested no deeper than any `levels` from seven on.
proof fn lemma_snapshot_shallow_to(inventory: InventoryView, levels: nat)
    requires
        levels >= 7,
    ensures
        shallow(snapshot(inventory), levels),
{
    let fields = snapshot(inventory)->Object_0;
    assert forall|i: int| 0 <= i < fields.len() implies shallow(
        (#[trigger] fields[i]).1,
        (levels - 1) as nat,
    ) by {
        if i == 0 {
            let bags = bag_tree(inventory.bags)->Object_0;
            assert forall|j: int| 0 <= j < bags.len() implies shallow(
                (#[trigger] bags[j]).1,
                (levels - 2) as nat,
            ) by {
                lemma_entries_shallow(inventory.bags.armor, (levels - 2) as nat);
                lemma_entries_shallow(inventory.bags.consumable, (levels - 2) as nat);
                lemma_entries_shallow(inventory.bags.weapon, (levels - 2) as nat);
            }
        }
    }
}

/// A snapshot tells inventories apart: two inventories with the same snapshot are the
/// same.
pub proof fn lemma_snapshot_injective(a: InventoryView, b: InventoryView)
    requires
        a.wf(),
        a.representable(),
        b.wf(),
        b.representable(),
        snapshot(a) == snapshot(b),
    ensures
        a == b,
{
    lemma_snapshot_round_trip(a);
    lemma_snapshot_round_trip(b);
}

impl Inventory {
    /// Round trip for a stored inventory: the document that [`Inventory::to_json`] gives is
    /// one that [`Inventory::from_json`] restores to the same inventory.
    pub proof fn lemma_round_trip(&self)
        requires
            self.wf(),
        ensures
            restore(snapshot(self@)) == Some(self@),
    {
        self.lemma_representable();
        lemma_snapshot_round_trip(self@);
    }
}

} // verus!
