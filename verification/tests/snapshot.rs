use uranusbound::inventory::Inventory;
use uranusbound::items::{Effect, Item, ItemType};
use uranusbound::json::Json;
use uranusbound::persist::{default_resource, PersistError};

fn potion() -> Item {
    Item::new(
        String::from("Potion"),
        String::from("This item heals you"),
        Effect::Heal(15),
        ItemType::Consumable,
        15,
    )
}

fn mana_pot() -> Item {
    Item::new(
        String::from("Mana Pot"),
        String::from("This item restores your mana"),
        Effect::Buff(15, String::from("Ap")),
        ItemType::Consumable,
        20,
    )
}

fn sword() -> Item {
    Item::new(
        String::from("Sword"),
        String::from("A cheap iron sword"),
        Effect::Damage(25),
        ItemType::Weapon,
        35,
    )
}

fn shield() -> Item {
    Item::new(
        String::from("Sheild"),
        String::from("A cheap iron sheild"),
        Effect::Debuff(10, String::from("Def")),
        ItemType::Armor,
        25,
    )
}

fn stocked() -> Inventory {
    let mut inv = Inventory::new();
    inv.add_item(5, &potion());
    inv.add_item(15, &mana_pot());
    inv.add_item(1, &sword());
    inv.add_item(2, &shield());
    inv.add_money(100);
    inv
}

fn string(s: &str) -> Json {
    Json::Text(String::from(s))
}

fn number(n: i64) -> Json {
    Json::Number(Some(n))
}

fn object(fields: Vec<(&str, Json)>) -> Json {
    Json::Object(fields.into_iter().map(|(k, v)| (String::from(k), v)).collect())
}

fn potion_json() -> Json {
    object(vec![
        ("name", string("Potion")),
        ("description", string("This item heals you")),
        ("effect", object(vec![("Heal", number(15))])),
        ("item_type", string("Consumable")),
        ("value", number(15)),
    ])
}

fn snapshot_json(armor: Vec<Json>, consumable: Vec<Json>, weapon: Vec<Json>, wallet: Json) -> Json {
    object(vec![
        (
            "bags",
            object(vec![
                ("armor_bag", Json::Array(armor)),
                ("consumable_bag", Json::Array(consumable)),
                ("weapon_bag", Json::Array(weapon)),
            ]),
        ),
        ("wallet", wallet),
    ])
}

fn entry_json(qty: Json, item: Json) -> Json {
    object(vec![("qty", qty), ("item", item)])
}

const EMPTY: &str = "{
  \"bags\": {
    \"armor_bag\": [],
    \"consumable_bag\": [],
    \"weapon_bag\": []
  },
  \"wallet\": 0
}";

const STOCKED: &str = "{
  \"bags\": {
    \"armor_bag\": [
      {
        \"qty\": 2,
        \"item\": {
          \"name\": \"Sheild\",
          \"description\": \"A cheap iron sheild\",
          \"effect\": {
            \"Debuff\": [
              10,
              \"Def\"
            ]
          },
          \"item_type\": \"Armor\",
          \"value\": 25
        }
      }
    ],
    \"consumable_bag\": [
      {
        \"qty\": 5,
        \"item\": {
          \"name\": \"Potion\",
          \"description\": \"This item heals you\",
          \"effect\": {
            \"Heal\": 15
          },
          \"item_type\": \"Consumable\",
          \"value\": 15
        }
      },
      {
        \"qty\": 15,
        \"item\": {
          \"name\": \"Mana Pot\",
          \"description\": \"This item restores your mana\",
          \"effect\": {
            \"Buff\": [
              15,
              \"Ap\"
            ]
          },
          \"item_type\": \"Consumable\",
          \"value\": 20
        }
      }
    ],
    \"weapon_bag\": [
      {
        \"qty\": 1,
        \"item\": {
          \"name\": \"Sword\",
          \"description\": \"A cheap iron sword\",
          \"effect\": {
            \"Damage\": 25
          },
          \"item_type\": \"Weapon\",
          \"value\": 35
        }
      }
    ]
  },
  \"wallet\": 100
}";

#[test]
fn default_resource_is_inventory_json() {
    assert_eq!(default_resource(), "inventory.json");
}

#[test]
fn save_of_an_empty_inventory() {
    assert_eq!(Inventory::new().save(), EMPTY);
}

#[test]
fn save_of_a_stocked_inventory() {
    assert_eq!(stocked().save(), STOCKED);
}

#[test]
fn save_escapes_strings() {
    let mut inv = Inventory::new();
    let item = Item::new(
        String::from("\"Quoted\""),
        String::from("line\nbreak \\ slash"),
        Effect::Heal(-3),
        ItemType::Weapon,
        -7,
    );
    inv.add_item(1, &item);
    let text = inv.save();
    assert!(text.contains("\"name\": \"\\\"Quoted\\\"\""));
    assert!(text.contains("\"description\": \"line\\nbreak \\\\ slash\""));
    assert!(text.contains("\"Heal\": -3"));
    assert!(text.contains("\"value\": -7"));
    assert_eq!(Inventory::from_text(&text), Ok(inv));
}

#[test]
fn to_json_of_an_inventory() {
    let mut inv = Inventory::new();
    inv.add_item(5, &potion());
    inv.add_money(3);
    assert_eq!(
        inv.to_json(),
        snapshot_json(vec![], vec![entry_json(number(5), potion_json())], vec![], number(3))
    );
}

#[test]
fn to_json_of_each_effect_and_category() {
    let inv = stocked();
    let tree = inv.to_json();
    let shield_json = object(vec![
        ("name", string("Sheild")),
        ("description", string("A cheap iron sheild")),
        ("effect", object(vec![("Debuff", Json::Array(vec![number(10), string("Def")]))])),
        ("item_type", string("Armor")),
        ("value", number(25)),
    ]);
    let mana_json = object(vec![
        ("name", string("Mana Pot")),
        ("description", string("This item restores your mana")),
        ("effect", object(vec![("Buff", Json::Array(vec![number(15), string("Ap")]))])),
        ("item_type", string("Consumable")),
        ("value", number(20)),
    ]);
    let sword_json = object(vec![
        ("name", string("Sword")),
        ("description", string("A cheap iron sword")),
        ("effect", object(vec![("Damage", number(25))])),
        ("item_type", string("Weapon")),
        ("value", number(35)),
    ]);
    assert_eq!(
        tree,
        snapshot_json(
            vec![entry_json(number(2), shield_json)],
            vec![entry_json(number(5), potion_json()), entry_json(number(15), mana_json)],
            vec![entry_json(number(1), sword_json)],
            number(100),
        )
    );
}

#[test]
fn from_json_restores_what_to_json_gave() {
    let inv = stocked();
    assert_eq!(Inventory::from_json(&inv.to_json()), Ok(stocked()));
    assert_eq!(Inventory::from_json(&Inventory::new().to_json()), Ok(Inventory::new()));
}

#[test]
fn from_text_restores_a_snapshot() {
    assert_eq!(Inventory::from_text(EMPTY), Ok(Inventory::new()));
    assert_eq!(Inventory::from_text(STOCKED), Ok(stocked()));
}

#[test]
fn from_text_reads_a_snapshot_without_line_breaks() {
    let compact = "{\"bags\":{\"armor_bag\":[],\"consumable_bag\":[{\"qty\":5,\"item\":{\"name\":\"Potion\",\"description\":\"This item heals you\",\"effect\":{\"Heal\":15},\"item_type\":\"Consumable\",\"value\":15}}],\"weapon_bag\":[]},\"wallet\":3}";
    let mut inv = Inventory::new();
    inv.add_item(5, &potion());
    inv.add_money(3);
    assert_eq!(Inventory::from_text(compact), Ok(inv));
}

#[test]
fn save_then_load_gives_the_same_inventory_and_text() {
    let inv = stocked();
    let text = inv.save();
    let back = Inventory::load(Some(text.clone())).unwrap();
    assert_eq!(back, inv);
    assert_eq!(back.save(), text);
}

#[test]
fn save_then_load_keeps_the_order_after_an_eviction() {
    let mut inv = stocked();
    inv.add_item(
        2,
        &Item::new(
            String::from("Bread"),
            String::from("A loaf"),
            Effect::Heal(2),
            ItemType::Consumable,
            1,
        ),
    );
    inv.rm_item(5, &potion());
    let text = inv.save();
    let back = Inventory::from_text(&text).unwrap();
    assert_eq!(back, inv);
    assert_eq!(back.has_item(&mana_pot()), Some((1, 15)));
    assert_eq!(back.save(), text);
}

#[test]
fn load_of_a_resource_that_could_not_be_read() {
    assert_eq!(Inventory::load(None), Err(PersistError::ResourceUnavailable));
}

#[test]
fn load_of_a_malformed_resource() {
    assert_eq!(Inventory::load(Some(String::from("not json"))), Err(PersistError::MalformedSnapshot));
    assert_eq!(Inventory::load(Some(String::new())), Err(PersistError::MalformedSnapshot));
}

#[test]
fn from_text_refuses_what_is_no_json() {
    assert_eq!(Inventory::from_text(""), Err(PersistError::MalformedSnapshot));
    assert_eq!(Inventory::from_text("{"), Err(PersistError::MalformedSnapshot));
    assert_eq!(Inventory::from_text("{\"bags\": }"), Err(PersistError::MalformedSnapshot));
    let mut cut = String::from(STOCKED);
    cut.pop();
    assert_eq!(Inventory::from_text(&cut), Err(PersistError::MalformedSnapshot));
}

#[test]
fn from_text_refuses_json_that_is_no_snapshot() {
    assert_eq!(Inventory::from_text("null"), Err(PersistError::MalformedSnapshot));
    assert_eq!(Inventory::from_text("[]"), Err(PersistError::MalformedSnapshot));
    assert_eq!(Inventory::from_text("{}"), Err(PersistError::MalformedSnapshot));
    assert_eq!(Inventory::from_text("{\"wallet\": 0}"), Err(PersistError::MalformedSnapshot));
    assert_eq!(
        Inventory::from_text("{\"bags\": {\"armor_bag\": [], \"consumable_bag\": []}, \"wallet\": 0}"),
        Err(PersistError::MalformedSnapshot)
    );
}

#[test]
fn from_text_refuses_numbers_that_do_not_fit() {
    let big = EMPTY.replace("\"wallet\": 0", "\"wallet\": 2147483648");
    assert_eq!(Inventory::from_text(&big), Err(PersistError::MalformedSnapshot));
    let fraction = EMPTY.replace("\"wallet\": 0", "\"wallet\": 1.5");
    assert_eq!(Inventory::from_text(&fraction), Err(PersistError::MalformedSnapshot));
    let huge = EMPTY.replace("\"wallet\": 0", "\"wallet\": 18446744073709551615");
    assert_eq!(Inventory::from_text(&huge), Err(PersistError::MalformedSnapshot));
    let largest = EMPTY.replace("\"wallet\": 0", "\"wallet\": 2147483647");
    assert_eq!(Inventory::from_text(&largest).map(|inv| inv.get_wallet()), Ok(i32::MAX));
}

#[test]
fn from_json_refuses_a_wallet_in_debt() {
    let tree = snapshot_json(vec![], vec![], vec![], number(-1));
    assert_eq!(Inventory::from_json(&tree), Err(PersistError::MalformedSnapshot));
}

#[test]
fn from_json_refuses_a_wallet_that_is_no_number() {
    let tree = snapshot_json(vec![], vec![], vec![], string("100"));
    assert_eq!(Inventory::from_json(&tree), Err(PersistError::MalformedSnapshot));
    let tree = snapshot_json(vec![], vec![], vec![], Json::Number(None));
    assert_eq!(Inventory::from_json(&tree), Err(PersistError::MalformedSnapshot));
    let tree = snapshot_json(vec![], vec![], vec![], Json::Null);
    assert_eq!(Inventory::from_json(&tree), Err(PersistError::MalformedSnapshot));
    let tree = snapshot_json(vec![], vec![], vec![], Json::Bool(true));
    assert_eq!(Inventory::from_json(&tree), Err(PersistError::MalformedSnapshot));
}

#[test]
fn from_json_refuses_a_quantity_that_is_not_positive() {
    let tree = snapshot_json(vec![], vec![entry_json(number(0), potion_json())], vec![], number(0));
    assert_eq!(Inventory::from_json(&tree), Err(PersistError::MalformedSnapshot));
    let tree = snapshot_json(vec![], vec![entry_json(number(-4), potion_json())], vec![], number(0));
    assert_eq!(Inventory::from_json(&tree), Err(PersistError::MalformedSnapshot));
}

#[test]
fn from_json_refuses_two_entries_of_one_item() {
    let tree = snapshot_json(
        vec![],
        vec![entry_json(number(1), potion_json()), entry_json(number(2), potion_json())],
        vec![],
        number(0),
    );
    assert_eq!(Inventory::from_json(&tree), Err(PersistError::MalformedSnapshot));
}

#[test]
fn from_json_refuses_an_item_in_the_wrong_collection() {
    let tree = snapshot_json(vec![entry_json(number(1), potion_json())], vec![], vec![], number(0));
    assert_eq!(Inventory::from_json(&tree), Err(PersistError::MalformedSnapshot));
}

#[test]
fn from_json_refuses_an_unknown_category_or_effect() {
    let item = object(vec![
        ("name", string("Potion")),
        ("description", string("This item heals you")),
        ("effect", object(vec![("Heal", number(15))])),
        ("item_type", string("Food")),
        ("value", number(15)),
    ]);
    let tree = snapshot_json(vec![], vec![entry_json(number(1), item)], vec![], number(0));
    assert_eq!(Inventory::from_json(&tree), Err(PersistError::MalformedSnapshot));
    let item = object(vec![
        ("name", string("Potion")),
        ("description", string("This item heals you")),
        ("effect", object(vec![("Cure", number(15))])),
        ("item_type", string("Consumable")),
        ("value", number(15)),
    ]);
    let tree = snapshot_json(vec![], vec![entry_json(number(1), item)], vec![], number(0));
    assert_eq!(Inventory::from_json(&tree), Err(PersistError::MalformedSnapshot));
}

#[test]
fn from_json_refuses_an_effect_of_the_wrong_shape() {
    let effects = vec![
        object(vec![]),
        object(vec![("Heal", number(1)), ("Damage", number(2))]),
        object(vec![("Heal", string("15"))]),
        object(vec![("Heal", Json::Array(vec![number(15), string("Ap")]))]),
        object(vec![("Buff", number(15))]),
        object(vec![("Buff", Json::Array(vec![number(15)]))]),
        object(vec![("Buff", Json::Array(vec![string("Ap"), number(15)]))]),
        object(vec![("Debuff", Json::Array(vec![number(15), string("Ap"), number(1)]))]),
        string("Heal"),
    ];
    for effect in effects {
        let item = object(vec![
            ("name", string("Potion")),
            ("description", string("This item heals you")),
            ("effect", effect),
            ("item_type", string("Consumable")),
            ("value", number(15)),
        ]);
        let tree = snapshot_json(vec![], vec![entry_json(number(1), item)], vec![], number(0));
        assert_eq!(Inventory::from_json(&tree), Err(PersistError::MalformedSnapshot));
    }
}

#[test]
fn from_json_refuses_an_item_that_lacks_a_field() {
    let all = vec![
        ("name", string("Potion")),
        ("description", string("This item heals you")),
        ("effect", object(vec![("Heal", number(15))])),
        ("item_type", string("Consumable")),
        ("value", number(15)),
    ];
    for missing in 0..all.len() {
        let mut fields = Vec::new();
        for (i, (key, value)) in all.iter().enumerate() {
            if i != missing {
                let copy = match value {
                    Json::Text(s) => Json::Text(s.clone()),
                    Json::Number(n) => Json::Number(*n),
                    _ => object(vec![("Heal", number(15))]),
                };
                fields.push((*key, copy));
            }
        }
        let tree = snapshot_json(vec![], vec![entry_json(number(1), object(fields))], vec![], number(0));
        assert_eq!(Inventory::from_json(&tree), Err(PersistError::MalformedSnapshot));
    }
}

#[test]
fn from_json_refuses_an_entry_that_lacks_a_field() {
    let tree = snapshot_json(vec![], vec![object(vec![("qty", number(1))])], vec![], number(0));
    assert_eq!(Inventory::from_json(&tree), Err(PersistError::MalformedSnapshot));
    let tree = snapshot_json(vec![], vec![object(vec![("item", potion_json())])], vec![], number(0));
    assert_eq!(Inventory::from_json(&tree), Err(PersistError::MalformedSnapshot));
    let tree = snapshot_json(vec![], vec![Json::Array(vec![number(1), potion_json()])], vec![], number(0));
    assert_eq!(Inventory::from_json(&tree), Err(PersistError::MalformedSnapshot));
}

#[test]
fn from_json_refuses_a_collection_that_is_no_array() {
    let tree = object(vec![
        (
            "bags",
            object(vec![
                ("armor_bag", Json::Array(vec![])),
                ("consumable_bag", object(vec![])),
                ("weapon_bag", Json::Array(vec![])),
            ]),
        ),
        ("wallet", number(0)),
    ]);
    assert_eq!(Inventory::from_json(&tree), Err(PersistError::MalformedSnapshot));
}

#[test]
fn from_json_passes_over_fields_it_does_not_know() {
    let tree = object(vec![
        ("version", number(2)),
        ("wallet", number(9)),
        (
            "bags",
            object(vec![
                ("weapon_bag", Json::Array(vec![])),
                ("note", string("hello")),
                ("consumable_bag", Json::Array(vec![entry_json(number(5), potion_json())])),
                ("armor_bag", Json::Array(vec![])),
            ]),
        ),
    ]);
    let mut inv = Inventory::new();
    inv.add_item(5, &potion());
    inv.add_money(9);
    assert_eq!(Inventory::from_json(&tree), Ok(inv));
}

#[test]
fn from_json_takes_the_first_of_two_fields_with_one_key() {
    let tree = object(vec![
        ("wallet", number(9)),
        ("wallet", number(10)),
        (
            "bags",
            object(vec![
                ("armor_bag", Json::Array(vec![])),
                ("consumable_bag", Json::Array(vec![])),
                ("weapon_bag", Json::Array(vec![])),
            ]),
        ),
    ]);
    assert_eq!(Inventory::from_json(&tree).map(|inv| inv.get_wallet()), Ok(9));
}

#[test]
fn from_json_refuses_a_value_that_does_not_fit() {
    let item = object(vec![
        ("name", string("Potion")),
        ("description", string("This item heals you")),
        ("effect", object(vec![("Heal", number(15))])),
        ("item_type", string("Consumable")),
        ("value", number(-2147483649)),
    ]);
    let tree = snapshot_json(vec![], vec![entry_json(number(1), item)], vec![], number(0));
    assert_eq!(Inventory::from_json(&tree), Err(PersistError::MalformedSnapshot));
}

#[test]
fn from_json_keeps_the_smallest_and_largest_numbers() {
    let item = object(vec![
        ("name", string("Potion")),
        ("description", string("This item heals you")),
        ("effect", object(vec![("Heal", number(-2147483648))])),
        ("item_type", string("Consumable")),
        ("value", number(-2147483648)),
    ]);
    let tree = snapshot_json(vec![], vec![entry_json(number(2147483647), item)], vec![], number(2147483647));
    let inv = Inventory::from_json(&tree).unwrap();
    assert_eq!(inv.get_wallet(), i32::MAX);
    let entry = &inv.get_bags().entries(&ItemType::Consumable)[0];
    assert_eq!(entry.get_qty(), i32::MAX);
    assert_eq!(entry.get_item().get_value(), i32::MIN);
    assert_eq!(entry.get_item().get_effect(), Effect::Heal(i32::MIN));
    assert_eq!(Inventory::from_text(&inv.save()), Ok(inv));
}
