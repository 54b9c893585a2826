//! The inventory: a bag of stacked items in three categories, and a wallet.

use crate::items::{Item, ItemType};
use crate::model::{
    empty_inventory, evict, find, first_match, lemma_find, lemma_withdraw_well_stocked,
    parts_view, stock, well_stocked, BagView, EntryView, InventoryView,
};
use vstd::prelude::*;

verus! {

/// A stocked quantity of one item.
#[derive(Debug)]
pub struct Entry {
    qty: i32,
    item: Item,
}

impl View for Entry {
    type V = EntryView;

    closed spec fn view(&self) -> EntryView {
        EntryView { qty: self.qty as int, item: self.item@ }
    }
}

/// The values of a collection's entries, in storage order.
pub open spec fn entry_views(entries: Seq<Entry>) -> Seq<EntryView> {
    entries.map_values(|e: Entry| e@)
}

impl Entry {
    /// An entry of `qty` of `item`.
    pub fn new(qty: i32, item: Item) -> (entry: Entry)
        ensures
            entry@ == (EntryView { qty: qty as int, item: item@ }),
    {
        Entry { qty, item }
    }

    /// A copy of the name of the stocked item.
    pub fn get_name(&self) -> (name: String)
        ensures
            name@ == self@.item.name,
    {
        self.item.get_name()
    }

    /// The stocked item.
    pub fn get_item(&self) -> (item: &Item)
        ensures
            item@ == self@.item,
    {
        &self.item
    }

    /// The stocked quantity.
    pub fn get_qty(&self) -> (qty: i32)
        ensures
            qty as int == self@.qty,
    {
        self.qty
    }

    /// Raises the quantity by `qty_to_add`.
    pub fn add_qty(&mut self, qty_to_add: i32)
        requires
            i32::MIN <= old(self)@.qty + qty_to_add <= i32::MAX,
        ensures
            final(self)@ == (EntryView { qty: old(self)@.qty + qty_to_add, item: old(self)@.item }),
    {
        self.qty += qty_to_add;
    }

    /// Lowers the quantity by `qty_to_drop` and returns what is left, which may be zero or
    /// less: the entry stays where it is, and who lowered it evicts it.
    pub fn rm_qty(&mut self, qty_to_drop: i32) -> (left: i32)
        requires
            i32::MIN <= old(self)@.qty - qty_to_drop <= i32::MAX,
        ensures
            final(self)@ == (EntryView { qty: old(self)@.qty - qty_to_drop, item: old(self)@.item }),
            left as int == old(self)@.qty - qty_to_drop,
    {
        self.qty -= qty_to_drop;
        self.qty
    }
}

impl Clone for Entry {
    fn clone(&self) -> (r: Self)
        ensures
            r@ == self@,
    {
        Entry { qty: self.qty, item: self.item.clone() }
    }
}

impl PartialEq for Entry {
    fn eq(&self, other: &Self) -> (r: bool) {
        self.qty == other.qty && self.item == other.item
    }
}

impl vstd::std_specs::cmp::PartialEqSpecImpl for Entry {
    open spec fn obeys_eq_spec() -> bool {
        true
    }

    open spec fn eq_spec(&self, other: &Self) -> bool {
        self@ == other@
    }
}

/// The stock: one ordered collection of entries for each category.
#[derive(Debug)]
pub struct Bag {
    armor_bag: Vec<Entry>,
    consumable_bag: Vec<Entry>,
    weapon_bag: Vec<Entry>,
}

impl View for Bag {
    type V = BagView;

    closed spec fn view(&self) -> BagView {
        BagView {
            armor: entry_views(self.armor_bag@),
            consumable: entry_views(self.consumable_bag@),
            weapon: entry_views(self.weapon_bag@),
        }
    }
}

/// Whether two collections hold the same entries in the same order.
fn same_entries(a: &Vec<Entry>, b: &Vec<Entry>) -> (same: bool)
    ensures
        same == (entry_views(a@) == entry_views(b@)),
{
    if a.len() != b.len() {
        return false;
    }
    let mut i: usize = 0;
    while i < a.len()
        invariant
            i <= a.len(),
            a.len() == b.len(),
            forall|j: int| 0 <= j < i ==> a@[j]@ == b@[j]@,
        decreases a.len() - i,
    {
        if !(a[i] == b[i]) {
            assert(entry_views(a@)[i as int] != entry_views(b@)[i as int]);
            return false;
        }
        i += 1;
    }
    assert(entry_views(a@) =~= entry_views(b@));
    true
}

impl PartialEq for Bag {
    fn eq(&self, other: &Self) -> (r: bool) {
        same_entries(&self.armor_bag, &other.armor_bag) && same_entries(
            &self.consumable_bag,
            &other.consumable_bag,
        ) && same_entries(&self.weapon_bag, &other.weapon_bag)
    }
}

impl vstd::std_specs::cmp::PartialEqSpecImpl for Bag {
    open spec fn obeys_eq_spec() -> bool {
        true
    }

    open spec fn eq_spec(&self, other: &Self) -> bool {
        self@ == other@
    }
}

/// Looks through `bag` from the front for the entry that stocks `thing`.
fn search(thing: &Item, bag: &Vec<Entry>) -> (found: Option<(usize, i32)>)
    ensures
        match found {
            Some((pos, qty)) => find(entry_views(bag@), thing@) == Some((pos as int, qty as int)),
            None => find(entry_views(bag@), thing@) is None,
        },
{
    let ghost entries = entry_views(bag@);
    let mut pos: usize = 0;
    while pos < bag.len()
        invariant
            pos <= bag.len(),
            entries == entry_views(bag@),
            forall|j: int| 0 <= j < pos ==> (#[trigger] entries[j]).item != thing@,
        decreases bag.len() - pos,
    {
        if bag[pos].item == *thing {
            proof {
                assert(first_match(entries, thing@, pos as int));
                lemma_find(entries, thing@);
            }
            return Some((pos, bag[pos].get_qty()));
        }
        pos += 1;
    }
    proof {
        lemma_find(entries, thing@);
    }
    None
}

impl Bag {
    /// The bag's invariant: see [`BagView::wf`].
    pub open spec fn wf(&self) -> bool {
        self@.wf()
    }

    /// An empty bag.
    pub fn new() -> (bag: Bag)
        ensures
            bag@ == empty_inventory().bags,
            bag.wf(),
    {
        assert(entry_views(Seq::<Entry>::empty()) =~= Seq::empty());
        Bag { armor_bag: Vec::new(), consumable_bag: Vec::new(), weapon_bag: Vec::new() }
    }

    /// The collection that stocks the items of the category `item_type`.
    pub fn entries(&self, item_type: &ItemType) -> (entries: &Vec<Entry>)
        ensures
            entry_views(entries@) == self@.entries(*item_type),
    {
        match item_type {
            ItemType::Armor => &self.armor_bag,
            ItemType::Consumable => &self.consumable_bag,
            ItemType::Weapon => &self.weapon_bag,
        }
    }

    /// The collection that stocks the items of the category `item_type`, to be changed:
    /// what is made of it is what the bag then holds for that category.
    fn entries_mut(&mut self, item_type: &ItemType) -> (entries: &mut Vec<Entry>)
        ensures
            entry_views(entries@) == old(self)@.entries(*item_type),
            final(self)@ == old(self)@.with_entries(*item_type, entry_views(final(entries)@)),
    {
        match item_type {
            ItemType::Armor => &mut self.armor_bag,
            ItemType::Consumable => &mut self.consumable_bag,
            ItemType::Weapon => &mut self.weapon_bag,
        }
    }

    /// Puts `qty` more of `item` into the collection of its category: onto the entry that
    /// stocks the item, or as a new entry at the end.
    pub fn add_item(&mut self, qty: i32, item: &Item)
        requires
            old(self).wf(),
            qty > 0,
            old(self)@.find_item(item@) matches Some((_, held)) ==> held + qty <= i32::MAX,
        ensures
            final(self)@ == old(self)@.add_item(qty as int, item@),
            final(self).wf(),
    {
        let ghost before = self@.entries(item@.item_type);
        proof {
            lemma_find(before, item@);
        }
        let bag = self.entries_mut(&item.get_type());
        match search(item, bag) {
            Some((location, _qty_held)) => {
                bag[location].add_qty(qty);
                assert(entry_views(bag@) =~= stock(before, qty as int, item@));
            },
            None => {
                bag.push(Entry::new(qty, item.clone()));
                assert(entry_views(bag@) =~= stock(before, qty as int, item@));
            },
        }
    }

    /// Where the bag stocks `item`, and how much of it: the position in the collection of
    /// the item's category and the quantity held there, or `None`.
    pub fn find_item(&self, item: &Item) -> (found: Option<(usize, i32)>)
        ensures
            match found {
                Some((pos, qty)) => self@.find_item(item@) == Some((pos as int, qty as int)),
                None => self@.find_item(item@) is None,
            },
    {
        search(item, self.entries(&item.get_type()))
    }
}

/// Takes `qty` out of the entry at `loc`, and evicts the entry if nothing is left of it.
fn take(loc: usize, qty: i32, bag: &mut Vec<Entry>)
    requires
        loc < old(bag).len(),
        i32::MIN <= old(bag)[loc as int]@.qty - qty <= i32::MAX,
    ensures
        entry_views(final(bag)@) == ({
            let before = entry_views(old(bag)@);
            let left = before[loc as int].qty - qty;
            if left <= 0 {
                evict(before, loc as int)
            } else {
                before.update(loc as int, EntryView { qty: left, item: before[loc as int].item })
            }
        }),
{
    let ghost before = entry_views(bag@);
    let remains = bag[loc].rm_qty(qty);
    if remains <= 0 {
        bag.swap_remove(loc);
        assert(entry_views(bag@) =~= evict(before, loc as int));
    } else {
        assert(entry_views(bag@) =~= before.update(
            loc as int,
            EntryView { qty: remains as int, item: before[loc as int].item },
        ));
    }
}

/// Whether `entries` is fit to be the collection of the category `item_type`.
fn is_well_stocked(entries: &Vec<Entry>, item_type: &ItemType) -> (fit: bool)
    ensures
        fit == well_stocked(entry_views(entries@), *item_type),
{
    let ghost views = entry_views(entries@);
    let mut i: usize = 0;
    while i < entries.len()
        invariant
            i <= entries.len(),
            views == entry_views(entries@),
            forall|k: int|
                0 <= k < i ==> (#[trigger] views[k]).qty > 0 && views[k].item.item_type
                    == *item_type,
            forall|k: int, l: int|
                0 <= k < l < views.len() && k < i ==> (#[trigger] views[k]).item
                    != (#[trigger] views[l]).item,
        decreases entries.len() - i,
    {
        if entries[i].get_qty() <= 0 || entries[i].get_item().get_type() != *item_type {
            return false;
        }
        let mut j: usize = i + 1;
        while j < entries.len()
            invariant
                i < j <= entries.len(),
                views == entry_views(entries@),
                forall|l: int| i < l < j ==> views[i as int].item != (#[trigger] views[l]).item,
            decreases entries.len() - j,
        {
            if entries[i].item == entries[j].item {
                assert(views[i as int].item == views[j as int].item);
                return false;
            }
            j += 1;
        }
        i += 1;
    }
    true
}

/// A player's belongings: the bag and the money.
#[derive(Debug)]
pub struct Inventory {
    bags: Bag,
    wallet: i32,
}

impl View for Inventory {
    type V = InventoryView;

    closed spec fn view(&self) -> InventoryView {
        InventoryView { bags: self.bags@, wallet: self.wallet as int }
    }
}

impl PartialEq for Inventory {
    fn eq(&self, other: &Self) -> (r: bool) {
        self.bags == other.bags && self.wallet == other.wallet
    }
}

impl vstd::std_specs::cmp::PartialEqSpecImpl for Inventory {
    open spec fn obeys_eq_spec() -> bool {
        true
    }

    open spec fn eq_spec(&self, other: &Self) -> bool {
        self@ == other@
    }
}

impl Inventory {
    /// The inventory's invariant: see [`InventoryView::wf`].
    pub open spec fn wf(&self) -> bool {
        self@.wf()
    }

    /// The numbers of an inventory fit the machine integers that hold them.
    pub proof fn lemma_representable(&self)
        ensures
            self@.representable(),
    {
        assert forall|i: int| 0 <= i < self@.bags.armor.len() implies (
        #[trigger] self@.bags.armor[i]).representable() by {
            self.bags.armor_bag@[i].item.lemma_representable();
        }
        assert forall|i: int| 0 <= i < self@.bags.consumable.len() implies (
        #[trigger] self@.bags.consumable[i]).representable() by {
            self.bags.consumable_bag@[i].item.lemma_representable();
        }
        assert forall|i: int| 0 <= i < self@.bags.weapon.len() implies (
        #[trigger] self@.bags.weapon[i]).representable() by {
            self.bags.weapon_bag@[i].item.lemma_representable();
        }
    }

    /// An inventory with an empty bag and an empty wallet.
    pub fn new() -> (inventory: Inventory)
        ensures
            inventory@ == empty_inventory(),
            inventory.wf(),
    {
        Inventory { bags: Bag::new(), wallet: 0 }
    }

    /// The inventory of the given collections and wallet, or `None` where these break
    /// the invariant: an entry without a positive quantity, an item in the collection of
    /// another category, an item with two entries, or a wallet in debt.
    pub fn from_parts(
        armor: Vec<Entry>,
        consumable: Vec<Entry>,
        weapon: Vec<Entry>,
        wallet: i32,
    ) -> (inventory: Option<Inventory>)
        ensures
            inventory matches Some(inv) ==> inv.wf() && inv@ == parts_view(
                entry_views(armor@),
                entry_views(consumable@),
                entry_views(weapon@),
                wallet as int,
            ),
            inventory is Some <==> parts_view(
                entry_views(armor@),
                entry_views(consumable@),
                entry_views(weapon@),
                wallet as int,
            ).wf(),
    {
        if wallet >= 0 && is_well_stocked(&armor, &ItemType::Armor) && is_well_stocked(
            &consumable,
            &ItemType::Consumable,
        ) && is_well_stocked(&weapon, &ItemType::Weapon) {
            Some(
                Inventory {
                    bags: Bag { armor_bag: armor, consumable_bag: consumable, weapon_bag: weapon },
                    wallet,
                },
            )
        } else {
            None
        }
    }

    /// The bag.
    pub fn get_bags(&self) -> (bags: &Bag)
        ensures
            bags@ == self@.bags,
    {
        &self.bags
    }

    /// Puts `qty` more of `item` into the bag: see [`Bag::add_item`].
    pub fn add_item(&mut self, qty: i32, item: &Item)
        requires
            old(self).wf(),
            qty > 0,
            old(self)@.qty_held(item@) + qty <= i32::MAX,
        ensures
            final(self)@ == old(self)@.add_item(qty as int, item@),
            final(self).wf(),
    {
        self.bags.add_item(qty, item);
    }

    /// Where the inventory stocks `item`, and how much of it: the position in the
    /// collection of the item's category and the quantity held there, or `None`.
    pub fn has_item(&self, item: &Item) -> (found: Option<(usize, i32)>)
        ensures
            match found {
                Some((pos, qty)) => self@.has_item(item@) == Some((pos as int, qty as int)),
                None => self@.has_item(item@) is None,
            },
    {
        match self.bags.find_item(item) {
            Some((location, qty_held)) => Some((location, qty_held)),
            None => None,
        }
    }

    /// Takes `qty` of `item` out of the bag. An entry of which nothing is left is evicted,
    /// and the last entry of its collection takes its place. An item that is not stocked
    /// is no error: nothing changes.
    pub fn rm_item(&mut self, qty: i32, item: &Item)
        requires
            old(self).wf(),
            old(self)@.has_item(item@) matches Some((_, held)) ==> held - qty <= i32::MAX,
        ensures
            final(self)@ == old(self)@.rm_item(qty as int, item@),
            final(self).wf(),
    {
        proof {
            lemma_withdraw_well_stocked(
                self@.bags.entries(item@.item_type),
                qty as int,
                item@,
            );
            lemma_find(self@.bags.entries(item@.item_type), item@);
        }
        if let Some((location, _qty_held)) = self.has_item(item) {
            take(location, qty, self.bags.entries_mut(&item.get_type()));
        }
    }

    /// Pays `qty` into the wallet.
    pub fn add_money(&mut self, qty: i32)
        requires
            old(self).wf(),
            0 <= old(self)@.wallet + qty <= i32::MAX,
        ensures
            final(self)@ == old(self)@.add_money(qty as int),
            final(self).wf(),
    {
        self.wallet += qty;
    }

    /// Pays `qty` out of the wallet. Where the wallet holds less, it is left empty.
    pub fn rm_money(&mut self, qty: i32)
        requires
            old(self).wf(),
            old(self)@.wallet - qty <= i32::MAX,
        ensures
            final(self)@ == old(self)@.rm_money(qty as int),
            final(self).wf(),
    {
        if self.wallet < qty {
            self.wallet = 0;
        } else {
            self.wallet -= qty;
        }
    }

    /// The money in the wallet.
    pub fn get_wallet(&self) -> (wallet: i32)
        ensures
            wallet as int == self@.wallet,
    {
        self.wallet
    }
}

} // verus!
