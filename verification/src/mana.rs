//! Mana symbols: what they cost, which colors they carry and how they are
//! written.

use crate::color::{colored, colorless, monocolored, multicolored, Color, Colors, HasColor};
use vstd::prelude::*;

verus! {

/// A single mana symbol, as it appears in a cost.
#[derive(Debug, PartialEq, Eq, Structural, Hash, Copy, Clone, Ord, PartialOrd)]
pub enum ManaType {
    /// A variable amount of mana, chosen by the player.
    X,
    /// Mana produced by a snow source.
    Snow,
    /// That many mana of any kind.
    Generic(u16),
    /// Mana that has no color.
    Colorless,
    /// Mana of the color, or a payment of life in its place.
    Phyrexian(Color),
    /// Two mana of any kind, or one of the color.
    GenericHybrid(Color),
    /// Mana of either of the two colors.
    ColorHybrid(Color, Color),
    /// Mana of the color.
    Colored(Color),
}

/// The character that stands for a digit below ten.
pub open spec fn digit_char(digit: nat) -> char
    recommends
        digit < 10,
{
    if digit == 0 {
        '0'
    } else if digit == 1 {
        '1'
    } else if digit == 2 {
        '2'
    } else if digit == 3 {
        '3'
    } else if digit == 4 {
        '4'
    } else if digit == 5 {
        '5'
    } else if digit == 6 {
        '6'
    } else if digit == 7 {
        '7'
    } else if digit == 8 {
        '8'
    } else {
        '9'
    }
}

/// A number written in base ten, without leading zeros; zero is "0".
pub open spec fn decimal_digits(n: nat) -> Seq<char>
    decreases n,
{
    if n < 10 {
        seq![digit_char(n)]
    } else {
        decimal_digits(n / 10).push(digit_char(n % 10))
    }
}

/// Returns the text of a digit below ten.
fn digit_str(digit: u16) -> (text: &'static str)
    requires
        digit < 10,
    ensures
        text@ == seq![digit_char(digit as nat)],
{
    proof {
        reveal_strlit("0");
        reveal_strlit("1");
        reveal_strlit("2");
        reveal_strlit("3");
        reveal_strlit("4");
        reveal_strlit("5");
        reveal_strlit("6");
        reveal_strlit("7");
        reveal_strlit("8");
        reveal_strlit("9");
    }
    let text = match digit {
        0 => "0",
        1 => "1",
        2 => "2",
        3 => "3",
        4 => "4",
        5 => "5",
        6 => "6",
        7 => "7",
        8 => "8",
        _ => "9",
    };
    assert(text@ =~= seq![digit_char(digit as nat)]);
    text
}

/// Writes a number in base ten.
fn decimal(n: u16) -> (text: String)
    ensures
        text@ == decimal_digits(n as nat),
    decreases n,
{
    if n < 10 {
        String::from_str(digit_str(n))
    } else {
        let mut text = decimal(n / 10);
        text.append(digit_str(n % 10));
        assert(text@ =~= decimal_digits(n as nat));
        text
    }
}

impl ManaType {
    /// What stands between the braces of the symbol's text.
    pub open spec fn spec_symbolic(self) -> Seq<char> {
        match self {
            ManaType::Colored(color) => seq![color.spec_symbol()],
            ManaType::Colorless => seq!['C'],
            ManaType::Snow => seq!['S'],
            ManaType::X => seq!['X'],
            ManaType::Generic(amount) => decimal_digits(amount as nat),
            ManaType::Phyrexian(color) => seq![color.spec_symbol(), '/', 'P'],
            ManaType::GenericHybrid(color) => seq!['2', '/', color.spec_symbol()],
            ManaType::ColorHybrid(first, second) => seq![
                first.spec_symbol(),
                '/',
                second.spec_symbol(),
            ],
        }
    }

    /// The symbol's canonical text: its inner part between one pair of braces.
    pub open spec fn spec_text(self) -> Seq<char> {
        seq!['{'] + self.spec_symbolic() + seq!['}']
    }

    /// What the symbol adds to a converted mana cost.
    pub open spec fn spec_cmc(self) -> nat {
        match self {
            ManaType::GenericHybrid(_) => 2,
            ManaType::Generic(amount) => amount as nat,
            ManaType::X => 0,
            _ => 1,
        }
    }

    /// Formats the symbol in the standard way: white mana is `{W}`, two
    /// generic mana `{2}`, a blue-green hybrid `{U/G}`.
    pub fn to_string(self) -> (text: String)
        ensures
            text@ == self.spec_text(),
    {
        proof {
            reveal_strlit("{");
            reveal_strlit("}");
        }
        let mut text = String::from_str("{");
        let inner = self.to_symbolic();
        text.append(inner.as_str());
        text.append("}");
        assert(text@ =~= self.spec_text());
        text
    }

    /// Returns the inner part of the symbol's text, without the braces.
    fn to_symbolic(self) -> (text: String)
        ensures
            text@ == self.spec_symbolic(),
    {
        proof {
            reveal_strlit("C");
            reveal_strlit("S");
            reveal_strlit("X");
            reveal_strlit("/P");
            reveal_strlit("2/");
            reveal_strlit("/");
        }
        let text = match self {
            ManaType::Colored(color) => color.to_string(),
            ManaType::Colorless => String::from_str("C"),
            ManaType::Snow => String::from_str("S"),
            ManaType::X => String::from_str("X"),
            ManaType::Generic(amount) => decimal(amount),
            ManaType::Phyrexian(color) => {
                let mut text = color.to_string();
                text.append("/P");
                text
            },
            ManaType::GenericHybrid(color) => {
                let mut text = String::from_str("2/");
                text.append(color.as_str());
                text
            },
            ManaType::ColorHybrid(first, second) => {
                let mut text = first.to_string();
                text.append("/");
                text.append(second.as_str());
                text
            },
        };
        assert(text@ =~= self.spec_symbolic());
        text
    }

    /// Returns the converted mana cost of the symbol: the amount of a generic
    /// symbol, 2 for a generic hybrid, 0 for X and 1 for every other symbol.
    pub fn cmc(self) -> (cost: u16)
        ensures
            cost == self.spec_cmc(),
    {
        match self {
            ManaType::GenericHybrid(_) => 2,
            ManaType::Generic(amount) => amount,
            ManaType::X => 0,
            _ => 1,
        }
    }
}

impl HasColor for ManaType {
    /// The colors that the symbol names: both colors of a color hybrid, the
    /// one color of a colored, Phyrexian or generic hybrid symbol, and none
    /// for the rest.
    open spec fn spec_colors(&self) -> Set<Color> {
        match *self {
            ManaType::Colored(color) => set![color],
            ManaType::Phyrexian(color) => set![color],
            ManaType::GenericHybrid(color) => set![color],
            ManaType::ColorHybrid(first, second) => set![first, second],
            _ => Set::empty(),
        }
    }

    fn colors(&self) -> (colors: Colors) {
        let mut colors = Colors::new();
        match *self {
            ManaType::Colored(color) => {
                colors.insert(color);
            },
            ManaType::Phyrexian(color) => {
                colors.insert(color);
            },
            ManaType::GenericHybrid(color) => {
                colors.insert(color);
            },
            ManaType::ColorHybrid(first, second) => {
                colors.insert(first);
                colors.insert(second);
            },
            _ => {},
        }
        colors
    }
}

/// A symbol is classified by how many distinct colors it names: with none
/// it is colorless, with one it is monocolored and not multicolored, with
/// two it is multicolored and not monocolored. A color hybrid that names
/// one color twice counts that color once.
pub proof fn symbols_classify_by_arity(mana: ManaType)
    ensures
        colored(mana.spec_colors()) != colorless(mana.spec_colors()),
        match mana {
            ManaType::X | ManaType::Snow | ManaType::Generic(_) | ManaType::Colorless => {
                &&& mana.spec_colors().len() == 0
                &&& colorless(mana.spec_colors())
                &&& !monocolored(mana.spec_colors())
                &&& !multicolored(mana.spec_colors())
            },
            ManaType::Colored(_) | ManaType::Phyrexian(_) | ManaType::GenericHybrid(_) => {
                &&& mana.spec_colors().len() == 1
                &&& colored(mana.spec_colors())
                &&& monocolored(mana.spec_colors())
                &&& !multicolored(mana.spec_colors())
            },
            ManaType::ColorHybrid(first, second) => if first == second {
                &&& mana.spec_colors().len() == 1
                &&& colored(mana.spec_colors())
                &&& monocolored(mana.spec_colors())
                &&& !multicolored(mana.spec_colors())
            } else {
                &&& mana.spec_colors().len() == 2
                &&& colored(mana.spec_colors())
                &&& !monocolored(mana.spec_colors())
                &&& multicolored(mana.spec_colors())
            },
        },
{
    match mana {
        ManaType::Colored(color) | ManaType::Phyrexian(color) | ManaType::GenericHybrid(color) => {
            assert(mana.spec_colors().contains(color));
        },
        ManaType::ColorHybrid(first, second) => {
            assert(mana.spec_colors().contains(first));
        },
        _ => {},
    }
}

/// A symbol has a color exactly when it names it.
pub proof fn symbols_have_the_colors_they_name(mana: ManaType, color: Color)
    ensures
        mana.spec_colors().contains(color) <==> match mana {
            ManaType::Colored(named) | ManaType::Phyrexian(named) | ManaType::GenericHybrid(
                named,
            ) => color == named,
            ManaType::ColorHybrid(first, second) => color == first || color == second,
            _ => false,
        },
{
}

/// A number in base ten has at least one digit, and only digits.
pub proof fn decimal_digits_are_digits(n: nat)
    ensures
        decimal_digits(n).len() >= 1,
        n >= 10 ==> decimal_digits(n).len() >= 2,
        forall|i: int|
            0 <= i < decimal_digits(n).len() ==> exists|digit: nat|
                digit < 10 && #[trigger] decimal_digits(n)[i] == digit_char(digit),
    decreases n,
{
    if n >= 10 {
        decimal_digits_are_digits(n / 10);
        assert forall|i: int| 0 <= i < decimal_digits(n).len() implies exists|digit: nat|
            digit < 10 && #[trigger] decimal_digits(n)[i] == digit_char(digit) by {
            if i == decimal_digits(n).len() - 1 {
                assert(decimal_digits(n)[i] == digit_char(n % 10));
            } else {
                assert(decimal_digits(n)[i] == decimal_digits(n / 10)[i]);
            }
        }
    } else {
        assert(decimal_digits(n)[0] == digit_char(n));
    }
}

/// A number is written without leading zeros: only zero starts with "0".
pub proof fn decimal_digits_have_no_leading_zero(n: nat)
    ensures
        decimal_digits(n)[0] == '0' <==> n == 0,
    decreases n,
{
    if n >= 10 {
        decimal_digits_have_no_leading_zero(n / 10);
        decimal_digits_are_digits(n / 10);
    }
}

/// Two numbers that are written alike are the same number.
pub proof fn decimal_digits_are_injective(first: nat, second: nat)
    requires
        decimal_digits(first) == decimal_digits(second),
    ensures
        first == second,
    decreases first,
{
    decimal_digits_are_digits(first);
    decimal_digits_are_digits(second);
    if first >= 10 {
        let shared = decimal_digits(first);
        let last = shared.len() - 1;
        assert(shared[last] == digit_char(first % 10));
        assert(shared[last] == digit_char(second % 10));
        assert(decimal_digits(first / 10) =~= shared.drop_last());
        assert(decimal_digits(second / 10) =~= shared.drop_last());
        decimal_digits_are_injective(first / 10, second / 10);
    } else {
        assert(decimal_digits(first)[0] == digit_char(first));
        assert(decimal_digits(second)[0] == digit_char(second));
    }
}

/// No two symbols are written alike: the canonical text tells which symbol
/// it came from.
pub proof fn text_is_injective(first: ManaType, second: ManaType)
    requires
        first.spec_text() == second.spec_text(),
    ensures
        first == second,
{
    let a = first.spec_symbolic();
    let b = second.spec_symbolic();
    assert(a =~= first.spec_text().subrange(1, first.spec_text().len() - 1));
    assert(b =~= second.spec_text().subrange(1, second.spec_text().len() - 1));
    assert(first.spec_text().len() == a.len() + 2);
    assert(second.spec_text().len() == b.len() + 2);
    assert(a == b);
    if first is Generic {
        decimal_digits_are_digits(first->Generic_0 as nat);
    }
    if second is Generic {
        decimal_digits_are_digits(second->Generic_0 as nat);
    }
    assert(a[0] == b[0]);
    match (first, second) {
        (ManaType::Generic(x), ManaType::Generic(y)) => {
            decimal_digits_are_injective(x as nat, y as nat);
        },
        (ManaType::Generic(x), ManaType::GenericHybrid(_)) => {
            assert(a[1] == b[1]);
        },
        (ManaType::GenericHybrid(_), ManaType::Generic(y)) => {
            assert(a[1] == b[1]);
        },
        (ManaType::Generic(x), _) => {},
        (_, ManaType::Generic(y)) => {},
        _ => {
            if a.len() == 3 {
                assert(a[1] == b[1]);
                assert(a[2] == b[2]);
            }
        },
    }
}

} // verus!
