use tile_world::components::{Attribute, Consumable, ItemType};
use tile_world::ui::{attribute_points, button_click, button_name};

fn water() -> ItemType {
    ItemType::Water {
        name: String::from("Water"),
        consume: Consumable { attribute_effect: vec![(Attribute::Thirst, 20)] },
    }
}

#[test]
fn attributes_are_shown_in_whole_points() {
    assert_eq!(attribute_points(10_000), 100);
    assert_eq!(attribute_points(9_990), 99);
    assert_eq!(attribute_points(99), 0);
    assert_eq!(attribute_points(0), 0);
    assert_eq!(attribute_points(-1), 0);
    assert_eq!(attribute_points(-99), 0);
    assert_eq!(attribute_points(-100), -1);
    assert_eq!(attribute_points(-250), -2);
    assert_eq!(attribute_points(i64::MAX), 92_233_720_368_547_758);
    assert_eq!(attribute_points(i64::MIN), -92_233_720_368_547_758);
}

#[test]
fn buttons_carry_the_name_of_the_item() {
    assert_eq!(button_name(&water()), "Water");
    assert_eq!(button_name(&ItemType::Wood { name: String::from("Oak") }), "Oak");
}

#[test]
fn only_water_buttons_ask_for_anything() {
    let event = button_click(&water()).unwrap();
    assert_eq!(event.0, water());
    assert!(button_click(&ItemType::Wood { name: String::from("Wood") }).is_none());
}
