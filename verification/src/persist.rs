//! Saving and loading: the inventory as a snapshot, as a document and as text.
//!
//! Writing the text to a file and reading it back is left to the caller.

use crate::inventory::{entry_views, Bag, Entry, Inventory};
use crate::items::{Effect, Item, ItemType};
use crate::json::{parse, parsed, pretty, render, Json, JsonView};
use crate::model::InventoryView;
use crate::snapshot::{
    bag_tree, effect_tree, entries_tree, entry_tree, field, first_key, int_tree, item_tree,
    item_type_tree, lemma_field, lemma_snapshot_round_trip, lemma_snapshot_shallow, restore,
    snapshot,
    tree_amount_and_stat, tree_effect, tree_entries, tree_entry, tree_field, tree_int, tree_item,
    tree_item_type, tree_text,
};
use vstd::prelude::*;

verus! {

/// What went wrong when an inventory was saved or loaded.
#[derive(Debug, Clone, Copy, PartialEq, Eq, Structural)]
pub enum PersistError {
    /// The resource could not be opened for reading, or created for writing.
    ResourceUnavailable,
    /// The resource does not hold the snapshot of an inventory.
    MalformedSnapshot,
}

/// The name of the resource that holds the snapshot where the caller names no other.
pub fn default_resource() -> (name: &'static str)
    ensures
        name@ == "inventory.json"@,
{
    "inventory.json"
}

/// The inventory whose snapshot a text is: `None` where the text is no JSON document, or
/// its document no snapshot.
pub open spec fn restore_text(text: Seq<char>) -> Option<InventoryView> {
    match parsed(text) {
        Some(tree) => restore(tree),
        None => None,
    }
}

/// The text of what was read, where something was.
pub open spec fn contents_view(contents: Option<String>) -> Option<Seq<char>> {
    match contents {
        Some(text) => Some(text@),
        None => None,
    }
}

/// What loading makes of what was read from a resource: `contents` is the text read, or
/// `None` where the resource could not be opened.
pub open spec fn load_outcome(contents: Option<Seq<char>>) -> Result<InventoryView, PersistError> {
    match contents {
        None => Err(PersistError::ResourceUnavailable),
        Some(text) => match restore_text(text) {
            Some(inventory) => Ok(inventory),
            None => Err(PersistError::MalformedSnapshot),
        },
    }
}

impl Inventory {
    /// The snapshot of the inventory as a document: one from which [`Inventory::from_json`]
    /// restores the inventory.
    pub fn to_json(&self) -> (tree: Json)
        ensures
            tree@ == snapshot(self@),
            self.wf() ==> restore(tree@) == Some(self@),
    {
        proof {
            if self.wf() {
                self.lemma_round_trip();
            }
        }
        let mut fields: Vec<(String, Json)> = Vec::new();
        fields.push(("bags".to_owned(), bag_json(self.get_bags())));
        fields.push(("wallet".to_owned(), int_json(self.get_wallet())));
        let tree = Json::Object(fields);
        assert(tree@->Object_0 =~= snapshot(self@)->Object_0);
        tree
    }

    /// The inventory that `tree` is the snapshot of. Every other document is malformed.
    pub fn from_json(tree: &Json) -> (loaded: Result<Inventory, PersistError>)
        ensures
            loaded matches Ok(inventory) ==> inventory.wf() && restore(tree@) == Some(inventory@),
            loaded matches Err(error) ==> error == PersistError::MalformedSnapshot && restore(
                tree@,
            ) is None,
    {
        let bags = match json_field(tree, "bags") {
            Some(bags) => bags,
            None => { return Err(PersistError::MalformedSnapshot); },
        };
        let wallet = match json_field(tree, "wallet") {
            Some(wallet) => wallet,
            None => { return Err(PersistError::MalformedSnapshot); },
        };
        let armor = match json_field(bags, "armor_bag") {
            Some(armor) => armor,
            None => { return Err(PersistError::MalformedSnapshot); },
        };
        let consumable = match json_field(bags, "consumable_bag") {
            Some(consumable) => consumable,
            None => { return Err(PersistError::MalformedSnapshot); },
        };
        let weapon = match json_field(bags, "weapon_bag") {
            Some(weapon) => weapon,
            None => { return Err(PersistError::MalformedSnapshot); },
        };
        match (json_entries(armor), json_entries(consumable), json_entries(weapon), json_int(wallet)) {
            (Some(armor), Some(consumable), Some(weapon), Some(wallet)) => {
                match Inventory::from_parts(armor, consumable, weapon, wallet) {
                    Some(inventory) => Ok(inventory),
                    None => Err(PersistError::MalformedSnapshot),
                }
            },
            _ => Err(PersistError::MalformedSnapshot),
        }
    }

    /// The text of the inventory's snapshot, pretty-printed: what a caller writes to the
    /// resource that keeps it.
    pub fn save(&self) -> (text: String)
        ensures
            text@ == pretty(snapshot(self@)),
    {
        let tree = self.to_json();
        proof {
            lemma_snapshot_shallow(self@);
        }
        match render(&tree) {
            Ok(text) => text,
            // `render` is known not to fail.
            Err(_) => String::new(),
        }
    }

    /// The inventory whose snapshot `text` is. A text that is no JSON document, or whose
    /// document is no snapshot, is malformed.
    pub fn from_text(text: &str) -> (loaded: Result<Inventory, PersistError>)
        ensures
            loaded matches Ok(inventory) ==> inventory.wf() && restore_text(text@) == Some(
                inventory@,
            ),
            loaded matches Err(error) ==> error == PersistError::MalformedSnapshot && restore_text(
                text@,
            ) is None,
    {
        match parse(text) {
            Ok(tree) => Inventory::from_json(&tree),
            Err(_) => Err(PersistError::MalformedSnapshot),
        }
    }

    /// The inventory whose snapshot was read from a resource: `contents` is the text that
    /// was read, or `None` where the resource could not be opened.
    pub fn load(contents: Option<String>) -> (loaded: Result<Inventory, PersistError>)
        ensures
            loaded matches Ok(inventory) ==> inventory.wf() && load_outcome(contents_view(contents))
                == Ok::<InventoryView, PersistError>(inventory@),
            loaded matches Err(error) ==> load_outcome(contents_view(contents)) == Err::<
                InventoryView,
                PersistError,
            >(error),
    {
        match contents {
            Some(text) => Inventory::from_text(text.as_str()),
            None => Err(PersistError::ResourceUnavailable),
        }
    }
}

/// Loading what was saved gives the inventory back, and saving that gives the same text
/// again, as far as the parser reads the printed snapshot back as the document that was
/// printed. That it does is `serde_json`'s part, and is not shown here. What is shown is
/// the library's part: the snapshot, read back, restores the inventory.
pub proof fn lemma_saved_text_round_trip(inventory: InventoryView)
    requires
        inventory.wf(),
        inventory.representable(),
    ensures
        parsed(pretty(snapshot(inventory))) == Some(snapshot(inventory)) ==> load_outcome(
            Some(pretty(snapshot(inventory))),
        ) == Ok::<InventoryView, PersistError>(inventory),
{
    lemma_snapshot_round_trip(inventory);
}

/// The document of a number.
fn int_json(n: i32) -> (tree: Json)
    ensures
        tree@ == int_tree(n as int),
{
    Json::Number(Some(n as i64))
}

/// The document of a string.
fn text_json(text: String) -> (tree: Json)
    ensures
        tree@ == JsonView::Text(text@),
{
    Json::Text(text)
}

/// The document of a category.
fn item_type_json(item_type: &ItemType) -> (tree: Json)
    ensures
        tree@ == item_type_tree(*item_type),
{
    match item_type {
        ItemType::Armor => text_json("Armor".to_owned()),
        ItemType::Consumable => text_json("Consumable".to_owned()),
        ItemType::Weapon => text_json("Weapon".to_owned()),
    }
}

/// The document of an effect.
fn effect_json(effect: &Effect) -> (tree: Json)
    ensures
        tree@ == effect_tree(effect@),
{
    let mut fields: Vec<(String, Json)> = Vec::new();
    match effect {
        Effect::Heal(n) => {
            fields.push(("Heal".to_owned(), int_json(*n)));
        },
        Effect::Damage(n) => {
            fields.push(("Damage".to_owned(), int_json(*n)));
        },
        Effect::Buff(n, stat) => {
            fields.push(("Buff".to_owned(), amount_and_stat_json(*n, stat)));
        },
        Effect::Debuff(n, stat) => {
            fields.push(("Debuff".to_owned(), amount_and_stat_json(*n, stat)));
        },
    }
    let tree = Json::Object(fields);
    assert(tree@->Object_0 =~= effect_tree(effect@)->Object_0);
    tree
}

/// The array of an amount and the name of a stat.
fn amount_and_stat_json(amount: i32, stat: &String) -> (tree: Json)
    ensures
        tree@ == JsonView::Array(seq![int_tree(amount as int), JsonView::Text(stat@)]),
{
    let mut pair: Vec<Json> = Vec::new();
    pair.push(int_json(amount));
    pair.push(text_json(stat.clone()));
    let tree = Json::Array(pair);
    assert(tree@->Array_0 =~= seq![int_tree(amount as int), JsonView::Text(stat@)]);
    tree
}

/// The document of an item.
fn item_json(item: &Item) -> (tree: Json)
    ensures
        tree@ == item_tree(item@),
{
    let mut fields: Vec<(String, Json)> = Vec::new();
    fields.push(("name".to_owned(), text_json(item.get_name())));
    fields.push(("description".to_owned(), text_json(item.get_description())));
    fields.push(("effect".to_owned(), effect_json(&item.get_effect())));
    fields.push(("item_type".to_owned(), item_type_json(&item.get_type())));
    fields.push(("value".to_owned(), int_json(item.get_value())));
    let tree = Json::Object(fields);
    assert(tree@->Object_0 =~= item_tree(item@)->Object_0);
    tree
}

/// The document of an entry.
fn entry_json(entry: &Entry) -> (tree: Json)
    ensures
        tree@ == entry_tree(entry@),
{
    let mut fields: Vec<(String, Json)> = Vec::new();
    fields.push(("qty".to_owned(), int_json(entry.get_qty())));
    fields.push(("item".to_owned(), item_json(entry.get_item())));
    let tree = Json::Object(fields);
    assert(tree@->Object_0 =~= entry_tree(entry@)->Object_0);
    tree
}

/// The document of a collection.
fn entries_json(entries: &Vec<Entry>) -> (tree: Json)
    ensures
        tree@ == entries_tree(entry_views(entries@)),
{
    let mut items: Vec<Json> = Vec::new();
    let mut i: usize = 0;
    while i < entries.len()
        invariant
            i <= entries.len(),
            items@.len() == i,
            forall|j: int| 0 <= j < i ==> (#[trigger] items@[j])@ == entry_tree(entries@[j]@),
        decreases entries.len() - i,
    {
        items.push(entry_json(&entries[i]));
        i += 1;
    }
    let tree = Json::Array(items);
    assert(tree@->Array_0 =~= entries_tree(entry_views(entries@))->Array_0);
    tree
}

/// The document of a bag.
fn bag_json(bag: &Bag) -> (tree: Json)
    ensures
        tree@ == bag_tree(bag@),
{
    let mut fields: Vec<(String, Json)> = Vec::new();
    fields.push(("armor_bag".to_owned(), entries_json(bag.entries(&ItemType::Armor))));
    fields.push(("consumable_bag".to_owned(), entries_json(bag.entries(&ItemType::Consumable))));
    fields.push(("weapon_bag".to_owned(), entries_json(bag.entries(&ItemType::Weapon))));
    let tree = Json::Object(fields);
    assert(tree@->Object_0 =~= bag_tree(bag@)->Object_0);
    tree
}

/// The value of the field `key` of `tree`, where `tree` is an object that has one.
fn json_field<'a>(tree: &'a Json, key: &str) -> (value: Option<&'a Json>)
    ensures
        value matches Some(v) ==> tree_field(tree@, key@) == Some(v@),
        value is None ==> tree_field(tree@, key@) is None,
{
    match tree {
        Json::Object(fields) => {
            let wanted = key.to_owned();
            let ghost views = tree@->Object_0;
            proof {
                tree.lemma_object_view();
                lemma_field(views, key@);
            }
            let mut i: usize = 0;
            while i < fields.len()
                invariant
                    i <= fields.len(),
                    wanted@ == key@,
                    tree@ == JsonView::Object(views),
                    forall|k: int| #[trigger]
                        first_key(views, key@, k) ==> field(views, key@) == Some(views[k].1),
                    views.len() == fields@.len(),
                    forall|j: int|
                        0 <= j < views.len() ==> #[trigger] views[j] == (
                            fields@[j].0@,
                            fields@[j].1@,
                        ),
                    forall|j: int| 0 <= j < i ==> (#[trigger] views[j]).0 != key@,
                decreases fields.len() - i,
            {
                if fields[i].0 == wanted {
                    assert(first_key(views, key@, i as int));
                    return Some(&fields[i].1);
                }
                i += 1;
            }
            None
        },
        _ => None,
    }
}

/// The number of `tree`, where it is an integer of 32 bits with a sign.
fn json_int(tree: &Json) -> (n: Option<i32>)
    ensures
        n matches Some(i) ==> tree_int(tree@) == Some(i as int),
        n is None ==> tree_int(tree@) is None,
{
    match tree {
        Json::Number(Some(n)) => {
            if -2147483648 <= *n && *n <= 2147483647 {
                Some(*n as i32)
            } else {
                None
            }
        },
        _ => None,
    }
}

/// A copy of the string of `tree`, where it is one.
fn json_text(tree: &Json) -> (text: Option<String>)
    ensures
        text matches Some(s) ==> tree_text(tree@) == Some(s@),
        text is None ==> tree_text(tree@) is None,
{
    match tree {
        Json::Text(text) => Some(text.clone()),
        _ => None,
    }
}

/// The category that `tree` names.
fn json_item_type(tree: &Json) -> (item_type: Option<ItemType>)
    ensures
        item_type == tree_item_type(tree@),
{
    match tree {
        Json::Text(name) => {
            if *name == "Armor".to_owned() {
                Some(ItemType::Armor)
            } else if *name == "Consumable".to_owned() {
                Some(ItemType::Consumable)
            } else if *name == "Weapon".to_owned() {
                Some(ItemType::Weapon)
            } else {
                None
            }
        },
        _ => None,
    }
}

/// The amount and the stat of `tree`.
fn json_amount_and_stat(tree: &Json) -> (pair: Option<(i32, String)>)
    ensures
        pair matches Some((n, stat)) ==> tree_amount_and_stat(tree@) == Some((n as int, stat@)),
        pair is None ==> tree_amount_and_stat(tree@) is None,
{
    match tree {
        Json::Array(items) => {
            proof {
                tree.lemma_array_view();
            }
            if items.len() != 2 {
                return None;
            }
            match (json_int(&items[0]), json_text(&items[1])) {
                (Some(n), Some(stat)) => Some((n, stat)),
                _ => None,
            }
        },
        _ => None,
    }
}

/// The effect of `tree`.
fn json_effect(tree: &Json) -> (effect: Option<Effect>)
    ensures
        effect matches Some(e) ==> tree_effect(tree@) == Some(e@),
        effect is None ==> tree_effect(tree@) is None,
{
    match tree {
        Json::Object(fields) => {
            proof {
                tree.lemma_object_view();
            }
            if fields.len() != 1 {
                return None;
            }
            let key = &fields[0].0;
            let value = &fields[0].1;
            if *key == "Heal".to_owned() {
                match json_int(value) {
                    Some(n) => Some(Effect::Heal(n)),
                    None => None,
                }
            } else if *key == "Damage".to_owned() {
                match json_int(value) {
                    Some(n) => Some(Effect::Damage(n)),
                    None => None,
                }
            } else if *key == "Buff".to_owned() {
                match json_amount_and_stat(value) {
                    Some((n, stat)) => Some(Effect::Buff(n, stat)),
                    None => None,
                }
            } else if *key == "Debuff".to_owned() {
                match json_amount_and_stat(value) {
                    Some((n, stat)) => Some(Effect::Debuff(n, stat)),
                    None => None,
                }
            } else {
                None
            }
        },
        _ => None,
    }
}

/// The item of `tree`.
fn json_item(tree: &Json) -> (item: Option<Item>)
    ensures
        item matches Some(i) ==> tree_item(tree@) == Some(i@),
        item is None ==> tree_item(tree@) is None,
{
    let name = match json_field(tree, "name") {
        Some(name) => name,
        None => { return None; },
    };
    let description = match json_field(tree, "description") {
        Some(description) => description,
        None => { return None; },
    };
    let effect = match json_field(tree, "effect") {
        Some(effect) => effect,
        None => { return None; },
    };
    let item_type = match json_field(tree, "item_type") {
        Some(item_type) => item_type,
        None => { return None; },
    };
    let value = match json_field(tree, "value") {
        Some(value) => value,
        None => { return None; },
    };
    match (
        json_text(name),
        json_text(description),
        json_effect(effect),
        json_item_type(item_type),
        json_int(value),
    ) {
        (Some(name), Some(description), Some(effect), Some(item_type), Some(value)) => Some(
            Item::new(name, description, effect, item_type, value),
        ),
        _ => None,
    }
}

/// The entry of `tree`.
fn json_entry(tree: &Json) -> (entry: Option<Entry>)
    ensures
        entry matches Some(e) ==> tree_entry(tree@) == Some(e@),
        entry is None ==> tree_entry(tree@) is None,
{
    let qty = match json_field(tree, "qty") {
        Some(qty) => qty,
        None => { return None; },
    };
    let item = match json_field(tree, "item") {
        Some(item) => item,
        None => { return None; },
    };
    match (json_int(qty), json_item(item)) {
        (Some(qty), Some(item)) => Some(Entry::new(qty, item)),
        _ => None,
    }
}

/// The collection of `tree`.
fn json_entries(tree: &Json) -> (entries: Option<Vec<Entry>>)
    ensures
        entries matches Some(es) ==> tree_entries(tree@) == Some(entry_views(es@)),
        entries is None ==> tree_entries(tree@) is None,
{
    match tree {
        Json::Array(items) => {
            let ghost views = tree@->Array_0;
            proof {
                tree.lemma_array_view();
            }
            let mut entries: Vec<Entry> = Vec::new();
            let mut i: usize = 0;
            while i < items.len()
                invariant
                    i <= items.len(),
                    tree@ == JsonView::Array(views),
                    views.len() == items@.len(),
                    forall|j: int| 0 <= j < views.len() ==> #[trigger] views[j] == items@[j]@,
                    entries@.len() == i,
                    forall|j: int|
                        0 <= j < i ==> tree_entry(#[trigger] views[j]) == Some(entries@[j]@),
                decreases items.len() - i,
            {
                match json_entry(&items[i]) {
                    Some(entry) => {
                        entries.push(entry);
                    },
                    None => {
                        assert(tree_entry(views[i as int]) is None);
                        return None;
                    },
                }
                i += 1;
            }
            assert(entry_views(entries@) =~= views.map_values(
                |item: JsonView| tree_entry(item)->Some_0,
            ));
            Some(entries)
        },
        _ => None,
    }
}

} // verus!
