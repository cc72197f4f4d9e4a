//! The five colors, their one-letter symbols and their canonical order.

use std::cmp::Ordering;
use vstd::prelude::*;
use vstd::std_specs::cmp::PartialOrdSpec;

verus! {

/// One of the five colors, declared in canonical order.
#[derive(Debug, PartialEq, Eq, Structural, Copy, Clone, Hash, Ord)]
pub enum Color {
    White,
    Blue,
    Black,
    Red,
    Green,
}

impl Color {
    /// The letter that stands for this color.
    pub open spec fn spec_symbol(self) -> char {
        match self {
            Color::White => 'W',
            Color::Blue => 'U',
            Color::Black => 'B',
            Color::Red => 'R',
            Color::Green => 'G',
        }
    }

    /// The color that a letter stands for, if it stands for one.
    pub open spec fn spec_from_symbol(symbol: char) -> Option<Color> {
        if symbol == 'W' {
            Some(Color::White)
        } else if symbol == 'U' {
            Some(Color::Blue)
        } else if symbol == 'B' {
            Some(Color::Black)
        } else if symbol == 'R' {
            Some(Color::Red)
        } else if symbol == 'G' {
            Some(Color::Green)
        } else {
            None
        }
    }

    /// The place of this color in the canonical order, counted from zero.
    pub open spec fn position(self) -> nat {
        match self {
            Color::White => 0,
            Color::Blue => 1,
            Color::Black => 2,
            Color::Red => 3,
            Color::Green => 4,
        }
    }

    /// The five colors in canonical order.
    pub open spec fn canonical_order() -> Seq<Color> {
        seq![Color::White, Color::Blue, Color::Black, Color::Red, Color::Green]
    }

    /// Returns the letter used to represent the color.
    pub fn symbol(self) -> (letter: char)
        ensures
            letter == self.spec_symbol(),
            Color::spec_from_symbol(letter) == Some(self),
    {
        match self {
            Color::White => 'W',
            Color::Blue => 'U',
            Color::Black => 'B',
            Color::Red => 'R',
            Color::Green => 'G',
        }
    }

    /// Returns the color represented by a letter, and `None` for every
    /// other character. Letters are matched exactly: case matters.
    pub fn from_symbol(symbol: char) -> (found: Option<Color>)
        ensures
            found == Color::spec_from_symbol(symbol),
            found matches Some(color) ==> color.spec_symbol() == symbol,
            found is None <==> symbol != 'W' && symbol != 'U' && symbol != 'B' && symbol != 'R'
                && symbol != 'G',
    {
        match symbol {
            'W' => Some(Color::White),
            'U' => Some(Color::Blue),
            'B' => Some(Color::Black),
            'R' => Some(Color::Red),
            'G' => Some(Color::Green),
            _ => None,
        }
    }

    /// Returns the letter used to represent `color`.
    pub fn get_symbol(color: Color) -> (letter: char)
        ensures
            letter == color.spec_symbol(),
            Color::spec_from_symbol(letter) == Some(color),
    {
        color.symbol()
    }

    /// Returns the five colors in canonical order. Every call gives a fresh
    /// sequence, so it can be walked from the start as often as needed.
    pub fn all_colors() -> (colors: [Color; 5])
        ensures
            colors@ == Color::canonical_order(),
    {
        let colors = [Color::White, Color::Blue, Color::Black, Color::Red, Color::Green];
        assert(colors@ =~= Color::canonical_order());
        colors
    }

    /// Returns the color's letter as text.
    pub fn as_str(self) -> (text: &'static str)
        ensures
            text@ == seq![self.spec_symbol()],
    {
        proof {
            reveal_strlit("W");
            reveal_strlit("U");
            reveal_strlit("B");
            reveal_strlit("R");
            reveal_strlit("G");
        }
        let text = match self {
            Color::White => "W",
            Color::Blue => "U",
            Color::Black => "B",
            Color::Red => "R",
            Color::Green => "G",
        };
        assert(text@ =~= seq![self.spec_symbol()]);
        text
    }

    /// Renders the color as text: its letter and nothing else.
    pub fn to_string(self) -> (text: String)
        ensures
            text@ == seq![self.spec_symbol()],
    {
        String::from_str(self.as_str())
    }

    fn index(self) -> (place: u8)
        ensures
            place == self.position(),
    {
        match self {
            Color::White => 0,
            Color::Blue => 1,
            Color::Black => 2,
            Color::Red => 3,
            Color::Green => 4,
        }
    }
}

/// A color's letter leads back to the color.
pub proof fn symbol_round_trip(color: Color)
    ensures
        Color::spec_from_symbol(color.spec_symbol()) == Some(color),
{
}

/// A character stands for a color exactly when it is that color's letter:
/// reading a letter is the inverse of writing it, and no color has two
/// letters or shares one.
pub proof fn from_symbol_inverts_symbol(symbol: char, color: Color)
    ensures
        Color::spec_from_symbol(symbol) == Some(color) <==> color.spec_symbol() == symbol,
{
}

/// A character that is none of the five letters stands for no color.
pub proof fn other_characters_have_no_color(symbol: char)
    ensures
        Color::spec_from_symbol(symbol) is None <==> forall|color: Color|
            color.spec_symbol() != symbol,
{
    match Color::spec_from_symbol(symbol) {
        Some(color) => {
            assert(color.spec_symbol() == symbol);
        },
        None => {},
    }
}

/// Two colors with the same letter are the same color.
pub proof fn symbol_is_injective(first: Color, second: Color)
    requires
        first.spec_symbol() == second.spec_symbol(),
    ensures
        first == second,
{
}

/// The canonical order lists every color once, at its own position.
pub proof fn canonical_order_is_complete(color: Color)
    ensures
        Color::canonical_order().len() == 5,
        color.position() < 5,
        Color::canonical_order()[color.position() as int] == color,
{
}

/// Colors compare as their positions in the canonical order do: white
/// before blue before black before red before green.
pub proof fn order_follows_position(first: Color, second: Color)
    ensures
        first.partial_cmp_spec(&second) == Some(Ordering::Less) <==> first.position()
            < second.position(),
        first.partial_cmp_spec(&second) == Some(Ordering::Equal) <==> first == second,
        first.partial_cmp_spec(&second) == Some(Ordering::Greater) <==> first.position()
            > second.position(),
{
}

impl PartialOrd for Color {
    /// Compares two colors by their place in the canonical order.
    fn partial_cmp(&self, other: &Color) -> (order: Option<Ordering>) {
        let mine: u8 = self.index();
        let theirs: u8 = other.index();
        if mine < theirs {
            Some(Ordering::Less)
        } else if mine == theirs {
            Some(Ordering::Equal)
        } else {
            Some(Ordering::Greater)
        }
    }
}

impl vstd::std_specs::cmp::PartialOrdSpecImpl for Color {
    open spec fn obeys_partial_cmp_spec() -> bool {
        true
    }

    open spec fn partial_cmp_spec(&self, other: &Color) -> Option<Ordering> {
        if self.position() < other.position() {
            Some(Ordering::Less)
        } else if self.position() == other.position() {
            Some(Ordering::Equal)
        } else {
            Some(Ordering::Greater)
        }
    }
}

/// A set of colors: each color is in it or not, so it holds between zero
/// and five of them, none twice and in no particular order.
#[derive(Debug, PartialEq, Eq, Structural, Copy, Clone, Hash)]
pub struct Colors {
    white: bool,
    blue: bool,
    black: bool,
    red: bool,
    green: bool,
}

impl View for Colors {
    type V = Set<Color>;

    closed spec fn view(&self) -> Set<Color> {
        let none = Set::<Color>::empty();
        let w = if self.white { none.insert(Color::White) } else { none };
        let wu = if self.blue { w.insert(Color::Blue) } else { w };
        let wub = if self.black { wu.insert(Color::Black) } else { wu };
        let wubr = if self.red { wub.insert(Color::Red) } else { wub };
        if self.green { wubr.insert(Color::Green) } else { wubr }
    }
}

impl Colors {
    /// Returns the empty set.
    pub fn new() -> (colors: Colors)
        ensures
            colors@ == Set::<Color>::empty(),
    {
        Colors { white: false, blue: false, black: false, red: false, green: false }
    }

    /// Adds `color` to the set. Returns whether it was missing before.
    pub fn insert(&mut self, color: Color) -> (added: bool)
        ensures
            final(self)@ == old(self)@.insert(color),
            added == !old(self)@.contains(color),
    {
        let had = self.contains(color);
        match color {
            Color::White => { self.white = true; },
            Color::Blue => { self.blue = true; },
            Color::Black => { self.black = true; },
            Color::Red => { self.red = true; },
            Color::Green => { self.green = true; },
        }
        assert(self@ =~= old(self)@.insert(color));
        !had
    }

    /// Tells whether `color` is in the set.
    pub fn contains(&self, color: Color) -> (found: bool)
        ensures
            found == self@.contains(color),
    {
        match color {
            Color::White => self.white,
            Color::Blue => self.blue,
            Color::Black => self.black,
            Color::Red => self.red,
            Color::Green => self.green,
        }
    }

    /// Returns the number of colors in the set.
    pub fn len(&self) -> (count: usize)
        ensures
            count == self@.len(),
            count <= 5,
    {
        let mut count: usize = 0;
        if self.white {
            count = count + 1;
        }
        if self.blue {
            count = count + 1;
        }
        if self.black {
            count = count + 1;
        }
        if self.red {
            count = count + 1;
        }
        if self.green {
            count = count + 1;
        }
        count
    }

    /// Tells whether the set holds no color.
    pub fn is_empty(&self) -> (empty: bool)
        ensures
            empty == self@.is_empty(),
            empty == (self@.len() == 0),
    {
        !(self.white || self.blue || self.black || self.red || self.green)
    }
}

/// A set of colors is colored when it is not empty.
pub open spec fn colored(colors: Set<Color>) -> bool {
    !colors.is_empty()
}

/// A set of colors is colorless when it is empty.
pub open spec fn colorless(colors: Set<Color>) -> bool {
    colors.is_empty()
}

/// A set of colors is monocolored when it holds exactly one color.
pub open spec fn monocolored(colors: Set<Color>) -> bool {
    colors.len() == 1
}

/// A set of colors is multicolored when it holds more than one color.
pub open spec fn multicolored(colors: Set<Color>) -> bool {
    colors.len() > 1
}

/// Every set of colors is finite and holds at most five colors.
pub proof fn color_sets_are_small(colors: Set<Color>)
    ensures
        colors.finite(),
        colors.len() <= 5,
{
    let all = Color::canonical_order().to_set();
    assert(all =~= set![Color::White, Color::Blue, Color::Black, Color::Red, Color::Green]) by {
        let order = Color::canonical_order();
        assert(order[0] == Color::White);
        assert(order[1] == Color::Blue);
        assert(order[2] == Color::Black);
        assert(order[3] == Color::Red);
        assert(order[4] == Color::Green);
        assert forall|color: Color| all.contains(color) by {
            assert(order[color.position() as int] == color);
        }
    }
    assert(colors.subset_of(all)) by {
        assert forall|color: Color| colors.contains(color) implies all.contains(color) by {
            assert(color == Color::White || color == Color::Blue || color == Color::Black || color
                == Color::Red || color == Color::Green);
        }
    }
    vstd::set_lib::lemma_len_subset(colors, all);
}

/// A set of colors is either colored or colorless, never both; it is
/// colored exactly when it holds at least one color; and a colored set is
/// either monocolored or multicolored, never both.
pub proof fn classification_is_exclusive(colors: Set<Color>)
    ensures
        colored(colors) != colorless(colors),
        colored(colors) <==> colors.len() > 0,
        colorless(colors) ==> !monocolored(colors) && !multicolored(colors),
        colored(colors) ==> monocolored(colors) != multicolored(colors),
{
    color_sets_are_small(colors);
    if colors.len() == 0 {
        colors.lemma_len0_is_empty();
    }
}

/// Two sets of colors are equal exactly when they hold the same colors.
pub proof fn equal_sets_hold_the_same_colors(first: Colors, second: Colors)
    ensures
        first == second <==> first@ == second@,
{
    if first@ == second@ {
        assert(first.white == first@.contains(Color::White));
        assert(first.blue == first@.contains(Color::Blue));
        assert(first.black == first@.contains(Color::Black));
        assert(first.red == first@.contains(Color::Red));
        assert(first.green == first@.contains(Color::Green));
        assert(second.white == second@.contains(Color::White));
        assert(second.blue == second@.contains(Color::Blue));
        assert(second.black == second@.contains(Color::Black));
        assert(second.red == second@.contains(Color::Red));
        assert(second.green == second@.contains(Color::Green));
    }
}

/// Anything that has colors. An implementor says which colors it has; the
/// other queries are answered from that set. An implementor may answer one
/// of them in a cheaper way, but never differently: each answer is fixed by
/// the set of colors alone.
pub trait HasColor {
    /// The colors that this object has.
    spec fn spec_colors(&self) -> Set<Color>;

    /// Returns the set of colors that this object has.
    fn colors(&self) -> (colors: Colors)
        ensures
            colors@ == self.spec_colors(),
    ;

    /// Tells whether the object has at least one color.
    fn is_colored(&self) -> (answer: bool)
        ensures
            answer == colored(self.spec_colors()),
    {
        !self.colors().is_empty()
    }

    /// Tells whether the object has no color.
    fn is_colorless(&self) -> (answer: bool)
        ensures
            answer == colorless(self.spec_colors()),
    {
        !self.is_colored()
    }

    /// Tells whether the object has more than one color.
    fn is_multicolored(&self) -> (answer: bool)
        ensures
            answer == multicolored(self.spec_colors()),
    {
        self.colors().len() > 1
    }

    /// Tells whether the object has exactly one color.
    fn is_monocolored(&self) -> (answer: bool)
        ensures
            answer == monocolored(self.spec_colors()),
    {
        self.colors().len() == 1
    }

    /// Tells whether the object has the given color.
    fn is_color(&self, color: Color) -> (answer: bool)
        ensures
            answer == self.spec_colors().contains(color),
    {
        self.colors().contains(color)
    }
}

impl HasColor for Colors {
    open spec fn spec_colors(&self) -> Set<Color> {
        self@
    }

    fn colors(&self) -> (colors: Colors) {
        *self
    }
}

impl HasColor for Color {
    open spec fn spec_colors(&self) -> Set<Color> {
        set![*self]
    }

    fn colors(&self) -> (colors: Colors) {
        let mut set = Colors::new();
        set.insert(*self);
        set
    }

    fn is_colored(&self) -> (answer: bool) {
        true
    }

    fn is_colorless(&self) -> (answer: bool) {
        false
    }

    fn is_multicolored(&self) -> (answer: bool) {
        false
    }

    fn is_monocolored(&self) -> (answer: bool) {
        true
    }

    fn is_color(&self, color: Color) -> (answer: bool) {
        *self == color
    }
}

/// A color taken by itself is colored and monocolored, and the only color
/// it has is itself.
pub proof fn single_color_is_monocolored(color: Color)
    ensures
        colored(color.spec_colors()),
        !colorless(color.spec_colors()),
        monocolored(color.spec_colors()),
        !multicolored(color.spec_colors()),
        forall|other: Color| color.spec_colors().contains(other) <==> other == color,
{
    assert(color.spec_colors().contains(color));
}

} // verus!
