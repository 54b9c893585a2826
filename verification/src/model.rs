//! The mathematical model of an inventory: what its collections, its bag and its wallet
//! are, and what each operation makes of them.

use crate::items::{ItemType, ItemView};
use vstd::prelude::*;

verus! {

/// The mathematical value of an [`crate::inventory::Entry`].
pub ghost struct EntryView {
    pub qty: int,
    pub item: ItemView,
}

impl EntryView {
    /// The numbers are ones that an [`crate::inventory::Entry`] can hold.
    pub open spec fn representable(self) -> bool {
        &&& i32::MIN <= self.qty <= i32::MAX
        &&& self.item.representable()
    }
}

/// Every entry's numbers are ones that an [`crate::inventory::Entry`] can hold.
pub open spec fn all_representable(entries: Seq<EntryView>) -> bool {
    forall|i: int| 0 <= i < entries.len() ==> (#[trigger] entries[i]).representable()
}

/// `i` is the position of the first entry of `entries` that stocks `item`.
pub open spec fn first_match(entries: Seq<EntryView>, item: ItemView, i: int) -> bool {
    &&& 0 <= i < entries.len()
    &&& entries[i].item == item
    &&& forall|j: int| 0 <= j < i ==> (#[trigger] entries[j]).item != item
}

/// Some entry of `entries` stocks `item`.
pub open spec fn stocks(entries: Seq<EntryView>, item: ItemView) -> bool {
    exists|i: int| 0 <= i < entries.len() && (#[trigger] entries[i]).item == item
}

/// The position and quantity of the first entry that stocks `item`, if there is one.
pub open spec fn find(entries: Seq<EntryView>, item: ItemView) -> Option<(int, int)> {
    if exists|i: int| first_match(entries, item, i) {
        let i = choose|i: int| first_match(entries, item, i);
        Some((i, entries[i].qty))
    } else {
        None
    }
}

/// The collection after `qty` more of `item` came in: the quantity goes to the entry that
/// stocks the item, or a new entry is put at the end.
pub open spec fn stock(entries: Seq<EntryView>, qty: int, item: ItemView) -> Seq<EntryView> {
    match find(entries, item) {
        Some((i, held)) => entries.update(i, EntryView { qty: held + qty, item }),
        None => entries.push(EntryView { qty, item }),
    }
}

/// The collection after its entry at `i` left: the last entry takes the free place.
pub open spec fn evict(entries: Seq<EntryView>, i: int) -> Seq<EntryView> {
    entries.update(i, entries.last()).drop_last()
}

/// The collection after `qty` of `item` went out. An entry that would be left with nothing,
/// or less, is evicted; a collection that does not stock the item stays as it is.
pub open spec fn withdraw(entries: Seq<EntryView>, qty: int, item: ItemView) -> Seq<EntryView> {
    match find(entries, item) {
        Some((i, held)) => if held - qty <= 0 {
            evict(entries, i)
        } else {
            entries.update(i, EntryView { qty: held - qty, item })
        },
        None => entries,
    }
}

/// What holds of a collection that a bag keeps for the category `item_type`: every entry
/// has a positive quantity of an item of that category, and no item has two entries.
pub open spec fn well_stocked(entries: Seq<EntryView>, item_type: ItemType) -> bool {
    &&& forall|i: int|
        0 <= i < entries.len() ==> (#[trigger] entries[i]).qty > 0 && entries[i].item.item_type
            == item_type
    &&& forall|i: int, j: int|
        0 <= i < j < entries.len() ==> (#[trigger] entries[i]).item != (#[trigger] entries[j]).item
}

/// How many entries of `entries` stock `item`.
pub open spec fn count(entries: Seq<EntryView>, item: ItemView) -> nat
    decreases entries.len(),
{
    if entries.len() == 0 {
        0
    } else {
        count(entries.drop_last(), item) + if entries.last().item == item {
            1nat
        } else {
            0nat
        }
    }
}

/// `find` gives the first match, and only that.
pub proof fn lemma_find(entries: Seq<EntryView>, item: ItemView)
    ensures
        forall|i: int| #[trigger]
            first_match(entries, item, i) ==> find(entries, item) == Some((i, entries[i].qty)),
        find(entries, item) is None <==> !stocks(entries, item),
        find(entries, item) matches Some((i, held)) ==> first_match(entries, item, i) && held
            == entries[i].qty,
{
    assert forall|i: int| #[trigger] first_match(entries, item, i) implies find(entries, item)
        == Some((i, entries[i].qty)) by {
        let k = choose|k: int| first_match(entries, item, k);
        assert(first_match(entries, item, k));
        assert(k == i) by {
            if k < i {
                assert(entries[k].item != item);
            }
            if i < k {
                assert(entries[i].item != item);
            }
        }
    }
    if stocks(entries, item) {
        let k = choose|k: int| 0 <= k < entries.len() && (#[trigger] entries[k]).item == item;
        lemma_first_match_exists(entries, item, k);
    }
}

/// Where some entry up to `k` stocks the item, there is a first one.
proof fn lemma_first_match_exists(entries: Seq<EntryView>, item: ItemView, k: int)
    requires
        0 <= k < entries.len(),
        entries[k].item == item,
    ensures
        exists|i: int| first_match(entries, item, i),
    decreases k,
{
    if forall|j: int| 0 <= j < k ==> (#[trigger] entries[j]).item != item {
        assert(first_match(entries, item, k));
    } else {
        let j = choose|j: int| 0 <= j < k && (#[trigger] entries[j]).item == item;
        lemma_first_match_exists(entries, item, j);
    }
}

/// Stocking an item leaves a well-stocked collection well stocked.
pub proof fn lemma_stock_well_stocked(entries: Seq<EntryView>, qty: int, item: ItemView)
    requires
        well_stocked(entries, item.item_type),
        qty > 0,
    ensures
        well_stocked(stock(entries, qty, item), item.item_type),
{
    lemma_find(entries, item);
}

/// A withdrawal leaves a well-stocked collection well stocked.
pub proof fn lemma_withdraw_well_stocked(entries: Seq<EntryView>, qty: int, item: ItemView)
    requires
        well_stocked(entries, item.item_type),
    ensures
        well_stocked(withdraw(entries, qty, item), item.item_type),
{
    lemma_find(entries, item);
}

/// In a collection where no item has two entries, an item has one entry or none.
pub proof fn lemma_count(entries: Seq<EntryView>, item: ItemView, item_type: ItemType)
    requires
        well_stocked(entries, item_type),
    ensures
        count(entries, item) == if stocks(entries, item) {
            1nat
        } else {
            0nat
        },
    decreases entries.len(),
{
    if entries.len() > 0 {
        let front = entries.drop_last();
        lemma_count(front, item, item_type);
        let n = entries.len() - 1;
        if stocks(front, item) {
            let k = choose|k: int| 0 <= k < front.len() && (#[trigger] front[k]).item == item;
            assert(entries[k].item == item);
            assert(entries[k].item != entries[n].item);
        } else if entries.last().item == item {
            assert(entries[n].item == item);
        } else if stocks(entries, item) {
            let k = choose|k: int| 0 <= k < entries.len() && (#[trigger] entries[k]).item == item;
            assert(front[k].item == item);
        }
    }
}

/// The mathematical value of a [`crate::inventory::Bag`].
pub ghost struct BagView {
    pub armor: Seq<EntryView>,
    pub consumable: Seq<EntryView>,
    pub weapon: Seq<EntryView>,
}

impl BagView {
    /// The collection that stocks the items of the category `item_type`.
    pub open spec fn entries(self, item_type: ItemType) -> Seq<EntryView> {
        match item_type {
            ItemType::Armor => self.armor,
            ItemType::Consumable => self.consumable,
            ItemType::Weapon => self.weapon,
        }
    }

    /// The bag with `entries` in place of the collection of `item_type`.
    pub open spec fn with_entries(self, item_type: ItemType, entries: Seq<EntryView>) -> BagView {
        match item_type {
            ItemType::Armor => BagView { armor: entries, ..self },
            ItemType::Consumable => BagView { consumable: entries, ..self },
            ItemType::Weapon => BagView { weapon: entries, ..self },
        }
    }

    /// Each collection is well stocked for its category.
    pub open spec fn wf(self) -> bool {
        &&& well_stocked(self.armor, ItemType::Armor)
        &&& well_stocked(self.consumable, ItemType::Consumable)
        &&& well_stocked(self.weapon, ItemType::Weapon)
    }

    /// The numbers are ones that a [`crate::inventory::Bag`] can hold.
    pub open spec fn representable(self) -> bool {
        &&& all_representable(self.armor)
        &&& all_representable(self.consumable)
        &&& all_representable(self.weapon)
    }

    /// Where the bag stocks `item`, and how much of it.
    pub open spec fn find_item(self, item: ItemView) -> Option<(int, int)> {
        find(self.entries(item.item_type), item)
    }

    /// The bag after `qty` more of `item` came in.
    pub open spec fn add_item(self, qty: int, item: ItemView) -> BagView {
        self.with_entries(item.item_type, stock(self.entries(item.item_type), qty, item))
    }

    /// The bag after `qty` of `item` went out.
    pub open spec fn rm_item(self, qty: int, item: ItemView) -> BagView {
        self.with_entries(item.item_type, withdraw(self.entries(item.item_type), qty, item))
    }
}

/// The mathematical value of an [`crate::inventory::Inventory`].
pub ghost struct InventoryView {
    pub bags: BagView,
    pub wallet: int,
}

impl InventoryView {
    /// The bag is well formed and the wallet holds no debt.
    pub open spec fn wf(self) -> bool {
        &&& self.bags.wf()
        &&& self.wallet >= 0
    }

    /// The numbers are ones that an [`crate::inventory::Inventory`] can hold.
    pub open spec fn representable(self) -> bool {
        &&& self.bags.representable()
        &&& i32::MIN <= self.wallet <= i32::MAX
    }

    /// Where the inventory stocks `item`, and how much of it.
    pub open spec fn has_item(self, item: ItemView) -> Option<(int, int)> {
        self.bags.find_item(item)
    }

    /// How much of `item` the inventory holds: nothing where it does not stock the item.
    pub open spec fn qty_held(self, item: ItemView) -> int {
        match self.has_item(item) {
            Some((_, held)) => held,
            None => 0,
        }
    }

    /// The inventory after `qty` more of `item` came in.
    pub open spec fn add_item(self, qty: int, item: ItemView) -> InventoryView {
        InventoryView { bags: self.bags.add_item(qty, item), ..self }
    }

    /// The inventory after `qty` of `item` went out.
    pub open spec fn rm_item(self, qty: int, item: ItemView) -> InventoryView {
        InventoryView { bags: self.bags.rm_item(qty, item), ..self }
    }

    /// The inventory after `qty` was paid in.
    pub open spec fn add_money(self, qty: int) -> InventoryView {
        InventoryView { wallet: self.wallet + qty, ..self }
    }

    /// The inventory after `qty` was paid out, as far as the wallet went.
    pub open spec fn rm_money(self, qty: int) -> InventoryView {
        InventoryView { wallet: if self.wallet < qty { 0 } else { self.wallet - qty }, ..self }
    }
}

/// The inventory of three collections and a wallet.
pub open spec fn parts_view(
    armor: Seq<EntryView>,
    consumable: Seq<EntryView>,
    weapon: Seq<EntryView>,
    wallet: int,
) -> InventoryView {
    InventoryView { bags: BagView { armor, consumable, weapon }, wallet }
}

/// One call on an inventory.
pub ghost enum Operation {
    /// `qty` more of `item` comes in.
    AddItem { qty: int, item: ItemView },
    /// `qty` of `item` goes out.
    RmItem { qty: int, item: ItemView },
    /// `qty` is paid in.
    AddMoney { qty: int },
    /// `qty` is paid out.
    RmMoney { qty: int },
}

/// The inventory that stocks nothing and holds no money.
pub open spec fn empty_inventory() -> InventoryView {
    parts_view(Seq::empty(), Seq::empty(), Seq::empty(), 0)
}

impl InventoryView {
    /// The inventory after one call.
    pub open spec fn apply(self, operation: Operation) -> InventoryView {
        match operation {
            Operation::AddItem { qty, item } => self.add_item(qty, item),
            Operation::RmItem { qty, item } => self.rm_item(qty, item),
            Operation::AddMoney { qty } => self.add_money(qty),
            Operation::RmMoney { qty } => self.rm_money(qty),
        }
    }

    /// The inventory after a series of calls, made in order.
    pub open spec fn run(self, operations: Seq<Operation>) -> InventoryView
        decreases operations.len(),
    {
        if operations.len() == 0 {
            self
        } else {
            self.run(operations.drop_last()).apply(operations.last())
        }
    }
}

} // verus!
