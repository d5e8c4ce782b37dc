use rustbook::inventory::{ShirtColor, StoreInventory};

#[test]
fn most_stocked_picks_the_color_with_more_shirts() {
    let store = StoreInventory {
        shirts: vec![ShirtColor::Blue, ShirtColor::Red, ShirtColor::Blue],
    };
    assert_eq!(store.most_stocked(), ShirtColor::Blue);
    assert_eq!(store.giveaway(None), ShirtColor::Blue);
}

#[test]
fn giveaway_honours_the_preference() {
    let store = StoreInventory {
        shirts: vec![ShirtColor::Blue, ShirtColor::Red, ShirtColor::Blue],
    };
    assert_eq!(store.giveaway(Some(ShirtColor::Red)), ShirtColor::Red);
    assert_eq!(store.giveaway(Some(ShirtColor::Blue)), ShirtColor::Blue);
}

#[test]
fn most_stocked_with_a_single_color() {
    let store = StoreInventory { shirts: vec![ShirtColor::Red] };
    assert_eq!(store.most_stocked(), ShirtColor::Red);
    let store = StoreInventory { shirts: vec![ShirtColor::Red; 5] };
    assert_eq!(store.most_stocked(), ShirtColor::Red);
}

#[test]
fn most_stocked_on_a_tie_is_one_of_the_tied_colors() {
    let store = StoreInventory {
        shirts: vec![ShirtColor::Red, ShirtColor::Blue, ShirtColor::Blue, ShirtColor::Red],
    };
    let color = store.most_stocked();
    assert!(color == ShirtColor::Red || color == ShirtColor::Blue);
}

#[test]
fn most_stocked_with_many_shirts() {
    let mut shirts = vec![ShirtColor::Red; 1000];
    shirts.extend(vec![ShirtColor::Blue; 1001]);
    let store = StoreInventory { shirts };
    assert_eq!(store.most_stocked(), ShirtColor::Blue);
}
