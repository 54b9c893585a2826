//! What holds of every inventory, whatever it stocks.

use crate::items::ItemView;
use crate::model::{
    count, empty_inventory, find, first_match, lemma_count, lemma_find, lemma_stock_well_stocked,
    lemma_withdraw_well_stocked, stock, stocks, withdraw, InventoryView, Operation,
};
use vstd::prelude::*;

verus! {

impl InventoryView {
    /// Stocking keeps the invariant.
    pub proof fn lemma_add_item_wf(self, qty: int, item: ItemView)
        requires
            self.wf(),
            qty > 0,
        ensures
            self.add_item(qty, item).wf(),
    {
        lemma_stock_well_stocked(self.bags.entries(item.item_type), qty, item);
    }

    /// A withdrawal keeps the invariant.
    pub proof fn lemma_rm_item_wf(self, qty: int, item: ItemView)
        requires
            self.wf(),
        ensures
            self.rm_item(qty, item).wf(),
    {
        lemma_withdraw_well_stocked(self.bags.entries(item.item_type), qty, item);
    }

    /// Stacking: after two deliveries of the same item, of positive quantities, the
    /// inventory has exactly one entry for the item, and that entry holds what was held
    /// before and both deliveries. So two deliveries of an item that was not stocked leave
    /// one entry with the sum of the two.
    pub proof fn lemma_add_twice_stacks(self, q1: int, q2: int, item: ItemView)
        requires
            self.wf(),
            q1 > 0,
            q2 > 0,
        ensures
            count(self.add_item(q1, item).add_item(q2, item).bags.entries(item.item_type), item)
                == 1,
            self.add_item(q1, item).add_item(q2, item).qty_held(item) == self.qty_held(item) + q1
                + q2,
            self.add_item(q1, item).has_item(item) matches Some((pos, held)) && self.add_item(
                q1,
                item,
            ).add_item(q2, item).has_item(item) == Some((pos, held + q2)),
    {
        let before = self.bags.entries(item.item_type);
        let once = stock(before, q1, item);
        let twice = stock(once, q2, item);
        lemma_find(before, item);
        lemma_stock_well_stocked(before, q1, item);
        lemma_find(once, item);
        let i = if find(before, item) is Some {
            find(before, item).unwrap().0
        } else {
            before.len() as int
        };
        assert(first_match(once, item, i));
        lemma_stock_well_stocked(once, q2, item);
        assert(first_match(twice, item, i));
        lemma_find(twice, item);
        lemma_count(twice, item, item.item_type);
        assert(twice[i].item == item);
    }

    /// An item that is not stocked stays so when another item, or the same, is withdrawn.
    pub proof fn lemma_rm_item_keeps_unstocked(self, qty: int, withdrawn: ItemView, item: ItemView)
        requires
            self.has_item(item) is None,
        ensures
            self.rm_item(qty, withdrawn).has_item(item) is None,
    {
        if item.item_type == withdrawn.item_type {
            let before = self.bags.entries(item.item_type);
            let after = withdraw(before, qty, withdrawn);
            lemma_find(before, withdrawn);
            lemma_find(before, item);
            lemma_find(after, item);
            if find(before, withdrawn) is Some && stocks(after, item) {
                let (w, held) = find(before, withdrawn).unwrap();
                let k = choose|k: int| 0 <= k < after.len() && (#[trigger] after[k]).item == item;
                let origin = if held - qty <= 0 && k == w {
                    before.len() - 1
                } else {
                    k
                };
                assert(before[origin].item == item);
            }
        }
    }

    /// A delivery of one item changes nothing for another: where the other is stocked, and
    /// how much of it, stays as it was. So an item that was never delivered is not stocked.
    pub proof fn lemma_add_item_keeps_others(self, qty: int, delivered: ItemView, item: ItemView)
        requires
            item != delivered,
        ensures
            self.add_item(qty, delivered).has_item(item) == self.has_item(item),
    {
        if item.item_type == delivered.item_type {
            let before = self.bags.entries(item.item_type);
            let after = stock(before, qty, delivered);
            lemma_find(before, delivered);
            lemma_find(before, item);
            lemma_find(after, item);
            if find(before, item) is Some {
                let (i, held) = find(before, item).unwrap();
                assert(first_match(after, item, i)) by {
                    assert forall|j: int| 0 <= j < i implies (#[trigger] after[j]).item != item by {
                        assert(before[j].item != item);
                    }
                }
            } else {
                assert(!stocks(after, item)) by {
                    if stocks(after, item) {
                        let k = choose|k: int|
                            0 <= k < after.len() && (#[trigger] after[k]).item == item;
                        assert(before[k].item == item);
                    }
                }
            }
        }
    }

    /// A withdrawal of one item leaves the quantity held of another as it was. The position
    /// of the other may change: an evicted entry's place goes to the last entry.
    pub proof fn lemma_rm_item_keeps_others(self, qty: int, withdrawn: ItemView, item: ItemView)
        requires
            self.wf(),
        ensures
            item != withdrawn ==> self.rm_item(qty, withdrawn).qty_held(item) == self.qty_held(
                item,
            ),
            item != withdrawn ==> (self.rm_item(qty, withdrawn).has_item(item) is None
                <==> self.has_item(item) is None),
    {
        if item.item_type == withdrawn.item_type {
            let before = self.bags.entries(item.item_type);
            let after = withdraw(before, qty, withdrawn);
            lemma_find(before, withdrawn);
            lemma_find(before, item);
            lemma_find(after, item);
            lemma_withdraw_well_stocked(before, qty, withdrawn);
            let last = before.len() - 1;
            if find(before, withdrawn) is Some {
                let (w, held_w) = find(before, withdrawn).unwrap();
                if stocks(after, item) {
                    let k = choose|k: int|
                        0 <= k < after.len() && (#[trigger] after[k]).item == item;
                    let origin = if held_w - qty <= 0 && k == w {
                        last
                    } else {
                        k
                    };
                    assert(before[origin].item == item);
                    if item != withdrawn {
                        assert(after[k].qty == before[origin].qty);
                        let (a, held_a) = find(after, item).unwrap();
                        let (b, held_b) = find(before, item).unwrap();
                        let origin_a = if held_w - qty <= 0 && a == w {
                            last
                        } else {
                            a
                        };
                        assert(before[origin_a].item == item);
                        assert(origin_a == b) by {
                            if origin_a < b {
                                assert(before[origin_a].item != before[b].item);
                            }
                            if b < origin_a {
                                assert(before[b].item != before[origin_a].item);
                            }
                        }
                    }
                } else if item != withdrawn && stocks(before, item) {
                    let (b, held_b) = find(before, item).unwrap();
                    assert(b != w);
                    let target = if held_w - qty <= 0 && b == last {
                        w
                    } else {
                        b
                    };
                    assert(after[target].item == item);
                }
            }
        }
    }

    /// A withdrawal of at least what is held leaves the item unstocked.
    pub proof fn lemma_rm_all_unstocks(self, qty: int, item: ItemView)
        requires
            self.wf(),
            qty >= self.qty_held(item),
        ensures
            self.rm_item(qty, item).has_item(item) is None,
    {
        let before = self.bags.entries(item.item_type);
        let after = withdraw(before, qty, item);
        lemma_find(before, item);
        lemma_find(after, item);
        if find(before, item) is Some {
            let (w, held) = find(before, item).unwrap();
            let last = before.len() - 1;
            if stocks(after, item) {
                let k = choose|k: int| 0 <= k < after.len() && (#[trigger] after[k]).item == item;
                if k == w {
                    assert(before[w].item != before[last].item);
                } else if k < w {
                    assert(before[k].item != before[w].item);
                } else {
                    assert(before[w].item != before[k].item);
                }
            }
        }
    }

    /// A withdrawal of less than what is held, and more than nothing, leaves the item
    /// where it was, with the rest.
    pub proof fn lemma_rm_part_keeps_rest(self, qty: int, item: ItemView)
        requires
            self.wf(),
            0 < qty < self.qty_held(item),
        ensures
            self.has_item(item) matches Some((pos, held)) && self.rm_item(qty, item).has_item(item)
                == Some((pos, held - qty)),
    {
        let before = self.bags.entries(item.item_type);
        let after = withdraw(before, qty, item);
        lemma_find(before, item);
        lemma_find(after, item);
        let (w, held) = find(before, item).unwrap();
        assert(first_match(after, item, w)) by {
            assert forall|j: int| 0 <= j < w implies (#[trigger] after[j]).item != item by {
                assert(before[j].item != item);
            }
        }
    }

    /// Paying out more than the wallet holds empties it, and no payment leaves a debt,
    /// whatever the amount.
    pub proof fn lemma_rm_money_saturates(self, qty: int)
        ensures
            qty > self.wallet ==> self.rm_money(qty).wallet == 0,
            qty <= self.wallet ==> self.rm_money(qty).wallet == self.wallet - qty,
            self.rm_money(qty).wallet >= 0,
            self.rm_money(qty).bags == self.bags,
    {
    }

    /// Paying an amount in and out again leaves the inventory as it was, where paying out
    /// does not overdraw: the amount is no more than the wallet holds after paying in.
    pub proof fn lemma_add_rm_money_round_trip(self, qty: int)
        requires
            qty <= self.wallet + qty,
        ensures
            self.add_money(qty).rm_money(qty) == self,
    {
    }
}

/// The empty inventory stocks no item.
pub proof fn lemma_empty_has_nothing(item: ItemView)
    ensures
        empty_inventory().has_item(item) is None,
        empty_inventory().wf(),
{
    lemma_find(empty_inventory().bags.entries(item.item_type), item);
}

/// An item that was never added is not stocked: whatever calls were made on an inventory
/// that began empty, if none of them added the item, the inventory does not stock it.
pub proof fn lemma_never_added_not_stocked(operations: Seq<Operation>, item: ItemView)
    requires
        forall|i: int|
            0 <= i < operations.len() ==> !(#[trigger] operations[i] matches Operation::AddItem {
                item: added,
                ..
            } && added == item),
    ensures
        empty_inventory().run(operations).has_item(item) is None,
    decreases operations.len(),
{
    if operations.len() == 0 {
        lemma_empty_has_nothing(item);
    } else {
        let earlier = operations.drop_last();
        assert forall|i: int| 0 <= i < earlier.len() implies !(
        #[trigger] earlier[i] matches Operation::AddItem { item: added, .. } && added == item) by {
            assert(earlier[i] == operations[i]);
        }
        lemma_never_added_not_stocked(earlier, item);
        let before = empty_inventory().run(earlier);
        let last = operations[operations.len() - 1];
        match last {
            Operation::AddItem { qty, item: added } => {
                before.lemma_add_item_keeps_others(qty, added, item);
            },
            Operation::RmItem { qty, item: withdrawn } => {
                before.lemma_rm_item_keeps_unstocked(qty, withdrawn, item);
            },
            Operation::AddMoney { qty } => {},
            Operation::RmMoney { qty } => {},
        }
    }
}

/// The invariant holds after every series of calls that each keep to their limits: a
/// delivery is of a positive quantity, and a payment in leaves no debt.
pub proof fn lemma_run_keeps_invariant(start: InventoryView, operations: Seq<Operation>)
    requires
        start.wf(),
        forall|i: int|
            0 <= i < operations.len() ==> match #[trigger] operations[i] {
                Operation::AddItem { qty, .. } => qty > 0,
                Operation::AddMoney { qty } => start.run(operations.take(i)).wallet + qty >= 0,
                _ => true,
            },
    ensures
        start.run(operations).wf(),
    decreases operations.len(),
{
    if operations.len() > 0 {
        let earlier = operations.drop_last();
        let n = operations.len() - 1;
        assert forall|i: int| 0 <= i < earlier.len() implies match #[trigger] earlier[i] {
            Operation::AddItem { qty, .. } => qty > 0,
            Operation::AddMoney { qty } => start.run(earlier.take(i)).wallet + qty >= 0,
            _ => true,
        } by {
            assert(earlier[i] == operations[i]);
            assert(earlier.take(i) =~= operations.take(i));
        }
        lemma_run_keeps_invariant(start, earlier);
        let before = start.run(earlier);
        assert(operations.take(n) =~= earlier);
        match operations[n] {
            Operation::AddItem { qty, item } => {
                before.lemma_add_item_wf(qty, item);
            },
            Operation::RmItem { qty, item } => {
                before.lemma_rm_item_wf(qty, item);
            },
            Operation::AddMoney { qty } => {},
            Operation::RmMoney { qty } => {},
        }
    }
}

} // verus!
