use magi::color::{Color, Colors, HasColor};

#[test]
fn from_symbol() {
    assert_eq!(Some(Color::White), Color::from_symbol('W'));
    assert_eq!(Some(Color::Blue), Color::from_symbol('U'));
    assert_eq!(Some(Color::Black), Color::from_symbol('B'));
    assert_eq!(Some(Color::Red), Color::from_symbol('R'));
    assert_eq!(Some(Color::Green), Color::from_symbol('G'));
    assert_eq!(None, Color::from_symbol('?'));
}

#[test]
fn color_from_symbol() {
    assert_eq!(Some(Color::White), Color::from_symbol('W'));
    assert_eq!(Some(Color::Blue), Color::from_symbol('U'));
    assert_eq!(Some(Color::Black), Color::from_symbol('B'));
    assert_eq!(Some(Color::Red), Color::from_symbol('R'));
    assert_eq!(Some(Color::Green), Color::from_symbol('G'));
    assert_eq!(None, Color::from_symbol('?'));
}

#[test]
fn to_symbol() {
    assert_eq!(Color::White.symbol(), 'W');
    assert_eq!(Color::Blue.symbol(), 'U');
    assert_eq!(Color::Black.symbol(), 'B');
    assert_eq!(Color::Red.symbol(), 'R');
    assert_eq!(Color::Green.symbol(), 'G');
}

#[test]
fn color_to_symbol() {
    assert_eq!(Color::get_symbol(Color::White), 'W');
    assert_eq!(Color::get_symbol(Color::Blue), 'U');
    assert_eq!(Color::get_symbol(Color::Black), 'B');
    assert_eq!(Color::get_symbol(Color::Red), 'R');
    assert_eq!(Color::get_symbol(Color::Green), 'G');
}

#[test]
fn color_iter() {
    let mut colors = Color::all_colors().into_iter();

    assert_eq!(colors.next().unwrap(), Color::White);
    assert_eq!(colors.next().unwrap(), Color::Blue);
    assert_eq!(colors.next().unwrap(), Color::Black);
    assert_eq!(colors.next().unwrap(), Color::Red);
    assert_eq!(colors.next().unwrap(), Color::Green);
    assert_eq!(colors.next(), None);
}

#[test]
fn color_ord() {
    assert_eq!(Color::White < Color::Blue, true);
    assert_eq!(Color::Blue < Color::Black, true);
    assert_eq!(Color::Black < Color::Red, true);
    assert_eq!(Color::Red < Color::Green, true);
    assert_eq!(Color::Green < Color::White, false);

    assert_eq!(Color::White <= Color::Blue, true);
    assert_eq!(Color::Blue <= Color::Black, true);
    assert_eq!(Color::Black <= Color::Red, true);
    assert_eq!(Color::Red <= Color::Green, true);
    assert_eq!(Color::Green <= Color::White, false);

    assert_eq!(Color::White == Color::White, true);
    assert_eq!(Color::Blue == Color::Blue, true);
    assert_eq!(Color::Black == Color::Black, true);
    assert_eq!(Color::Red == Color::Red, true);
    assert_eq!(Color::Green == Color::Green, true);
}

#[test]
fn symbol_round_trips_for_every_color() {
    for color in Color::all_colors() {
        assert_eq!(Color::from_symbol(color.symbol()), Some(color));
        assert_eq!(Color::from_symbol(Color::get_symbol(color)), Some(color));
    }
}

#[test]
fn other_characters_stand_for_no_color() {
    for symbol in ['?', 'w', 'u', 'b', 'r', 'g', '0', ' ', 'C', 'X', 'S', 'P', '/', '{', '\u{0}'] {
        assert_eq!(Color::from_symbol(symbol), None);
    }
}

#[test]
fn all_colors_is_the_same_on_every_call() {
    let expected = [Color::White, Color::Blue, Color::Black, Color::Red, Color::Green];
    assert_eq!(Color::all_colors(), expected);
    assert_eq!(Color::all_colors(), expected);
    assert_eq!(Color::all_colors().len(), 5);
}

#[test]
fn order_agrees_with_enumeration() {
    let all = Color::all_colors();
    for i in 0..all.len() {
        for j in 0..all.len() {
            assert_eq!(all[i] < all[j], i < j);
            assert_eq!(all[i] <= all[j], i <= j);
            assert_eq!(all[i] > all[j], i > j);
            assert_eq!(all[i] == all[j], i == j);
            assert_eq!(all[i].partial_cmp(&all[j]), Some(i.cmp(&j)));
            assert_eq!(all[i].cmp(&all[j]), i.cmp(&j));
        }
    }
}

#[test]
fn color_renders_as_its_symbol() {
    assert_eq!(Color::White.to_string(), String::from("W"));
    assert_eq!(Color::Blue.to_string(), String::from("U"));
    assert_eq!(Color::Black.to_string(), String::from("B"));
    assert_eq!(Color::Red.to_string(), String::from("R"));
    assert_eq!(Color::Green.to_string(), String::from("G"));
    for color in Color::all_colors() {
        assert_eq!(color.as_str(), color.symbol().to_string());
    }
}

#[test]
fn single_color_is_colored_and_monocolored() {
    for color in Color::all_colors() {
        assert_eq!(color.is_colored(), true);
        assert_eq!(color.is_colorless(), false);
        assert_eq!(color.is_monocolored(), true);
        assert_eq!(color.is_multicolored(), false);
        assert_eq!(color.colors().len(), 1);
        for other in Color::all_colors() {
            assert_eq!(color.is_color(other), color == other);
            assert_eq!(color.colors().contains(other), color == other);
        }
    }
}

#[test]
fn empty_set_is_colorless() {
    let colors = Colors::new();
    assert_eq!(colors.len(), 0);
    assert_eq!(colors.is_empty(), true);
    assert_eq!(colors.is_colored(), false);
    assert_eq!(colors.is_colorless(), true);
    assert_eq!(colors.is_monocolored(), false);
    assert_eq!(colors.is_multicolored(), false);
    for color in Color::all_colors() {
        assert_eq!(colors.contains(color), false);
        assert_eq!(colors.is_color(color), false);
    }
}

#[test]
fn insert_adds_each_color_once() {
    let mut colors = Colors::new();
    assert_eq!(colors.insert(Color::Red), true);
    assert_eq!(colors.insert(Color::Red), false);
    assert_eq!(colors.len(), 1);
    assert_eq!(colors.is_monocolored(), true);
    assert_eq!(colors.is_multicolored(), false);
    assert_eq!(colors.insert(Color::White), true);
    assert_eq!(colors.len(), 2);
    assert_eq!(colors.is_monocolored(), false);
    assert_eq!(colors.is_multicolored(), true);
    assert_eq!(colors.contains(Color::Red), true);
    assert_eq!(colors.contains(Color::White), true);
    assert_eq!(colors.contains(Color::Blue), false);
    assert_eq!(colors.is_color(Color::Red), true);
    assert_eq!(colors.is_color(Color::Green), false);
    assert_eq!(colors.is_empty(), false);
}

#[test]
fn set_holds_at_most_five_colors() {
    let mut colors = Colors::new();
    for round in 0..3 {
        for color in Color::all_colors() {
            assert_eq!(colors.insert(color), round == 0);
        }
        assert_eq!(colors.len(), 5);
    }
}

#[test]
fn sets_are_equal_whatever_the_insertion_order() {
    let mut first = Colors::new();
    first.insert(Color::Blue);
    first.insert(Color::Black);
    let mut second = Colors::new();
    second.insert(Color::Black);
    second.insert(Color::Blue);
    second.insert(Color::Black);
    assert_eq!(first, second);
    assert_eq!(first.colors(), second);
    let mut third = Colors::new();
    third.insert(Color::Blue);
    assert_ne!(first, third);
}
