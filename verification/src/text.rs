//! Numbers and table cells as text.

use vstd::prelude::*;

verus! {

/// The decimal digit of a number below ten.
pub open spec fn digit(n: nat) -> char {
    seq!['0', '1', '2', '3', '4', '5', '6', '7', '8', '9'][n as int]
}

/// A natural number in decimal, without leading zeros.
pub open spec fn decimal(n: nat) -> Seq<char>
    decreases n,
{
    if n < 10 {
        seq![digit(n)]
    } else {
        decimal(n / 10).push(digit(n % 10))
    }
}

/// An integer in decimal, with a minus sign where it is negative.
pub open spec fn signed_decimal(n: int) -> Seq<char> {
    if n < 0 {
        "-"@ + decimal((-n) as nat)
    } else {
        decimal(n as nat)
    }
}

/// An optional number, as it is written in source code.
pub open spec fn optional_decimal(n: Option<u64>) -> Seq<char> {
    match n {
        Some(n) => "Some("@ + decimal(n as nat) + ")"@,
        None => "None"@,
    }
}

/// A character a number of times.
pub open spec fn repeated(c: char, n: nat) -> Seq<char> {
    Seq::new(n, |i: int| c)
}

/// A text at the left of a cell of the given width. A text that is wider than the cell
/// is not cut.
pub open spec fn cell(text: Seq<char>, width: nat) -> Seq<char> {
    text + repeated(
        ' ',
        if text.len() < width {
            (width - text.len()) as nat
        } else {
            0
        },
    )
}

fn digit_text(n: u64) -> (text: &'static str)
    requires
        n < 10,
    ensures
        text@ == seq![digit(n as nat)],
{
    proof {
        reveal_strlit("0");
        reveal_strlit("1");
        reveal_strlit("2");
        reveal_strlit("3");
        reveal_strlit("4");
        reveal_strlit("5");
        reveal_strlit("6");
        reveal_strlit("7");
        reveal_strlit("8");
        reveal_strlit("9");
    }
    if n == 0 {
        "0"
    } else if n == 1 {
        "1"
    } else if n == 2 {
        "2"
    } else if n == 3 {
        "3"
    } else if n == 4 {
        "4"
    } else if n == 5 {
        "5"
    } else if n == 6 {
        "6"
    } else if n == 7 {
        "7"
    } else if n == 8 {
        "8"
    } else {
        "9"
    }
}

/// Writes a natural number in decimal.
pub fn decimal_text(n: u64) -> (text: String)
    ensures
        text@ == decimal(n as nat),
    decreases n,
{
    if n < 10 {
        digit_text(n).to_owned()
    } else {
        let mut text = decimal_text(n / 10);
        text.append(digit_text(n % 10));
        text
    }
}

/// Writes an integer in decimal.
pub fn signed_decimal_text(n: i64) -> (text: String)
    ensures
        text@ == signed_decimal(n as int),
{
    if n < 0 {
        let magnitude: u64 = (-(n + 1)) as u64 + 1;
        let mut text = "-".to_owned();
        text.append(decimal_text(magnitude).as_str());
        text
    } else {
        decimal_text(n as u64)
    }
}

/// Writes an optional number as it is written in source code.
pub fn optional_decimal_text(n: Option<u64>) -> (text: String)
    ensures
        text@ == optional_decimal(n),
{
    match n {
        Some(n) => {
            let mut text = "Some(".to_owned();
            text.append(decimal_text(n).as_str());
            text.append(")");
            text
        },
        None => "None".to_owned(),
    }
}

/// Writes a text a number of times in a row, where the text is one character.
pub fn repeated_text(piece: &str, n: usize) -> (text: String)
    requires
        piece@.len() == 1,
    ensures
        text@ == repeated(piece@[0], n as nat),
{
    let mut text = String::new();
    let mut i: usize = 0;
    while i < n
        invariant
            i <= n,
            piece@.len() == 1,
            text@ =~= repeated(piece@[0], i as nat),
        decreases n - i,
    {
        text.append(piece);
        i = i + 1;
    }
    text
}

/// Writes a text at the left of a cell of the given width.
pub fn cell_text(text: &str, width: usize) -> (padded: String)
    ensures
        padded@ == cell(text@, width as nat),
{
    let len: usize = text.unicode_len();
    let mut padded = text.to_owned();
    proof {
        reveal_strlit(" ");
    }
    if len < width {
        padded.append(repeated_text(" ", width - len).as_str());
    } else {
        assert(padded@ =~= cell(text@, width as nat));
    }
    padded
}

/// A number in decimal is made of digits, does not begin with a zero unless it is zero, and
/// reads back as the number.
pub proof fn law_decimal_reads_back(n: nat)
    ensures
        0 < decimal(n).len(),
        forall|i: int| 0 <= i < decimal(n).len() ==> '0' <= #[trigger] decimal(n)[i] <= '9',
        decimal(n)[0] == '0' ==> n == 0 && decimal(n).len() == 1,
        decimal(n).fold_left(0int, |read: int, c: char| 10 * read + (c as int - '0' as int)) == n,
    decreases n,
{
    let read = |read: int, c: char| 10 * read + (c as int - '0' as int);
    reveal_with_fuel(Seq::fold_left, 2);
    if n < 10 {
        assert(seq![digit(n)].drop_last() =~= Seq::<char>::empty());
    } else {
        law_decimal_reads_back(n / 10);
        let shorter = decimal(n / 10);
        assert(shorter.push(digit(n % 10)).drop_last() =~= shorter);
        assert(decimal(n).fold_left(0int, read) == read(
            shorter.fold_left(0int, read),
            digit(n % 10),
        ));
    }
}

/// A number that is not negative is written as its decimal; a negative one as a minus sign and
/// the decimal of what is left without its sign.
pub proof fn law_signed_decimal_has_the_sign_first(n: int)
    ensures
        0 <= n ==> signed_decimal(n) == decimal(n as nat),
        n < 0 ==> signed_decimal(n) == seq!['-'] + decimal((-n) as nat),
{
    reveal_strlit("-");
}

/// An optional number is written with the name of its variant.
pub proof fn law_optional_decimal_names_the_variant(n: u64)
    ensures
        optional_decimal(None) == seq!['N', 'o', 'n', 'e'],
        optional_decimal(Some(n)) == seq!['S', 'o', 'm', 'e', '('] + decimal(n as nat) + seq![')'],
{
    reveal_strlit("None");
    reveal_strlit("Some(");
    reveal_strlit(")");
}

/// A cell begins with its text, has only spaces after it, and is as wide as asked for, or as
/// its text where that is wider.
pub proof fn law_cell_pads_with_spaces(text: Seq<char>, width: nat)
    ensures
        cell(text, width).len() == vstd::math::max(text.len() as int, width as int),
        cell(text, width).take(text.len() as int) == text,
        forall|i: int|
            text.len() <= i < cell(text, width).len() ==> #[trigger] cell(text, width)[i] == ' ',
{
    assert(cell(text, width).take(text.len() as int) =~= text);
}

/// A repeated character is that character as often as asked for.
pub proof fn law_repeated_is_one_character(c: char, n: nat)
    ensures
        repeated(c, n).len() == n,
        forall|i: int| 0 <= i < n ==> #[trigger] repeated(c, n)[i] == c,
{
}

} // verus!
