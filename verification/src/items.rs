//! Items: the immutable descriptions of the goods an inventory stocks.

use vstd::prelude::*;

verus! {

/// The category of an item. It decides which collection of a bag stocks the item.
#[derive(Debug, PartialEq, Eq, Structural)]
pub enum ItemType {
    /// Shields, trinkets and other armor pieces.
    Armor,
    /// Potions, food, poison and other goods that are used up.
    Consumable,
    /// Anything that can be wielded.
    Weapon,
}

impl Clone for ItemType {
    fn clone(&self) -> (r: Self)
        ensures
            r == *self,
    {
        match self {
            ItemType::Armor => ItemType::Armor,
            ItemType::Consumable => ItemType::Consumable,
            ItemType::Weapon => ItemType::Weapon,
        }
    }
}

/// What an item does to its target: an amount, and for the two stat
/// modifiers the name of the stat.
#[derive(Debug)]
pub enum Effect {
    /// Raises the target's hit points.
    Heal(i32),
    /// Lowers the target's hit points.
    Damage(i32),
    /// Raises the named stat.
    Buff(i32, String),
    /// Lowers the named stat.
    Debuff(i32, String),
}

/// The mathematical value of an [`Effect`].
pub ghost enum EffectView {
    Heal(int),
    Damage(int),
    Buff(int, Seq<char>),
    Debuff(int, Seq<char>),
}

impl EffectView {
    /// The amount by which the effect changes its target.
    pub open spec fn amount(self) -> int {
        match self {
            EffectView::Heal(n) => n,
            EffectView::Damage(n) => n,
            EffectView::Buff(n, _) => n,
            EffectView::Debuff(n, _) => n,
        }
    }

    /// The amount is one that an [`Effect`] can hold.
    pub open spec fn representable(self) -> bool {
        i32::MIN <= self.amount() <= i32::MAX
    }
}

impl View for Effect {
    type V = EffectView;

    open spec fn view(&self) -> EffectView {
        match self {
            Effect::Heal(n) => EffectView::Heal(*n as int),
            Effect::Damage(n) => EffectView::Damage(*n as int),
            Effect::Buff(n, stat) => EffectView::Buff(*n as int, stat@),
            Effect::Debuff(n, stat) => EffectView::Debuff(*n as int, stat@),
        }
    }
}

impl Clone for Effect {
    fn clone(&self) -> (r: Self)
        ensures
            r@ == self@,
    {
        match self {
            Effect::Heal(n) => Effect::Heal(*n),
            Effect::Damage(n) => Effect::Damage(*n),
            Effect::Buff(n, stat) => Effect::Buff(*n, stat.clone()),
            Effect::Debuff(n, stat) => Effect::Debuff(*n, stat.clone()),
        }
    }
}

impl PartialEq for Effect {
    fn eq(&self, other: &Self) -> (r: bool) {
        match (self, other) {
            (Effect::Heal(a), Effect::Heal(b)) => *a == *b,
            (Effect::Damage(a), Effect::Damage(b)) => *a == *b,
            (Effect::Buff(a, s), Effect::Buff(b, t)) => *a == *b && *s == *t,
            (Effect::Debuff(a, s), Effect::Debuff(b, t)) => *a == *b && *s == *t,
            _ => false,
        }
    }
}

impl vstd::std_specs::cmp::PartialEqSpecImpl for Effect {
    open spec fn obeys_eq_spec() -> bool {
        true
    }

    open spec fn eq_spec(&self, other: &Self) -> bool {
        self@ == other@
    }
}

/// A good of the game. Two items with the same fields are the same good.
#[derive(Debug)]
pub struct Item {
    name: String,
    description: String,
    effect: Effect,
    item_type: ItemType,
    value: i32,
}

/// The mathematical value of an [`Item`].
pub ghost struct ItemView {
    pub name: Seq<char>,
    pub description: Seq<char>,
    pub effect: EffectView,
    pub item_type: ItemType,
    pub value: int,
}

impl ItemView {
    /// The numbers are ones that an [`Item`] can hold.
    pub open spec fn representable(self) -> bool {
        &&& self.effect.representable()
        &&& i32::MIN <= self.value <= i32::MAX
    }
}

impl View for Item {
    type V = ItemView;

    closed spec fn view(&self) -> ItemView {
        ItemView {
            name: self.name@,
            description: self.description@,
            effect: self.effect@,
            item_type: self.item_type,
            value: self.value as int,
        }
    }
}

impl Item {
    /// Creates an item from its five fields.
    pub fn new(
        name: String,
        description: String,
        effect: Effect,
        item_type: ItemType,
        value: i32,
    ) -> (item: Item)
        ensures
            item@ == (ItemView {
                name: name@,
                description: description@,
                effect: effect@,
                item_type,
                value: value as int,
            }),
    {
        Item { name, description, effect, item_type, value }
    }

    /// A copy of the item's name.
    pub fn get_name(&self) -> (name: String)
        ensures
            name@ == self@.name,
    {
        self.name.clone()
    }

    /// A copy of the item's effect.
    pub fn get_effect(&self) -> (effect: Effect)
        ensures
            effect@ == self@.effect,
    {
        self.effect.clone()
    }

    /// A copy of the item's description.
    pub fn get_description(&self) -> (description: String)
        ensures
            description@ == self@.description,
    {
        self.description.clone()
    }

    /// The item's category.
    pub fn get_type(&self) -> (item_type: ItemType)
        ensures
            item_type == self@.item_type,
    {
        self.item_type.clone()
    }

    /// The price the item sells for.
    pub fn get_value(&self) -> (value: i32)
        ensures
            value as int == self@.value,
    {
        self.value
    }

    /// Every item's numbers fit the machine integers that hold them.
    pub proof fn lemma_representable(&self)
        ensures
            self@.representable(),
    {
    }
}

impl Clone for Item {
    fn clone(&self) -> (r: Self)
        ensures
            r@ == self@,
    {
        Item {
            name: self.name.clone(),
            description: self.description.clone(),
            effect: self.effect.clone(),
            item_type: self.item_type.clone(),
            value: self.value,
        }
    }
}

impl PartialEq for Item {
    fn eq(&self, other: &Self) -> (r: bool) {
        self.name == other.name && self.description == other.description && self.effect
            == other.effect && self.item_type == other.item_type && self.value == other.value
    }
}

impl vstd::std_specs::cmp::PartialEqSpecImpl for Item {
    open spec fn obeys_eq_spec() -> bool {
        true
    }

    open spec fn eq_spec(&self, other: &Self) -> bool {
        self@ == other@
    }
}

} // verus!
