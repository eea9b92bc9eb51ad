//! The texts that the service prints, logs and returns.
use vstd::prelude::*;

verus! {

/// The decimal digit `d`.
pub open spec fn digit(d: nat) -> char {
    (48 + d) as char
}

/// `n` in decimal, without leading zeros.
pub open spec fn decimal(n: nat) -> Seq<char>
    decreases n,
{
    if n < 10 {
        seq![digit(n)]
    } else {
        decimal(n / 10).push(digit(n % 10))
    }
}

/// The text of one decimal digit.
fn digit_text(d: u64) -> (text: &'static str)
    requires
        d < 10,
    ensures
        text@ == seq![digit(d as nat)],
{
    proof {
        reveal_strlit("0");
        reveal_strlit("1");
        reveal_strlit("2");
        reveal_strlit("3");
        reveal_strlit("4");
        reveal_strlit("5");
        reveal_strlit("6");
        reveal_strlit("7");
        reveal_strlit("8");
        reveal_strlit("9");
    }
    match d {
        0 => "0",
        1 => "1",
        2 => "2",
        3 => "3",
        4 => "4",
        5 => "5",
        6 => "6",
        7 => "7",
        8 => "8",
        _ => "9",
    }
}

/// Writes `n` in decimal.
pub fn decimal_text(n: u64) -> (text: String)
    ensures
        text@ == decimal(n as nat),
    decreases n,
{
    if n < 10 {
        digit_text(n).to_owned()
    } else {
        let mut text = decimal_text(n / 10);
        let ghost head = text@;
        text.append(digit_text(n % 10));
        assert(text@ == head.push(digit((n % 10) as nat)));
        text
    }
}

/// The number that a sequence of decimal digits spells.
pub open spec fn spelled(text: Seq<char>) -> int
    decreases text.len(),
{
    if text.len() == 0 {
        0
    } else {
        10 * spelled(text.drop_last()) + (text.last() as int - 48)
    }
}

/// A number written in decimal reads back as that number, so that no two numbers are
/// written alike.
pub proof fn law_decimal_reads_back(n: nat)
    ensures
        spelled(decimal(n)) == n,
    decreases n,
{
    if n < 10 {
        assert(decimal(n).drop_last() == Seq::<char>::empty());
        assert(spelled(Seq::<char>::empty()) == 0);
        assert(decimal(n).last() as int == 48 + n);
    } else {
        law_decimal_reads_back(n / 10);
        assert(decimal(n).drop_last() == decimal(n / 10));
        assert(decimal(n).last() as int == 48 + n % 10);
    }
}

/// `text`, followed by a position in a source file.
pub open spec fn located_text(text: Seq<char>, file: Seq<char>, line: nat) -> Seq<char> {
    text + " at ["@ + file + ", "@ + decimal(line) + "]"@
}

/// Puts the position `line` of `file` behind `text`.
pub fn located(text: &str, file: &str, line: u32) -> (full: String)
    ensures
        full@ == located_text(text@, file@, line as nat),
{
    let mut full = text.to_owned();
    full.append(" at [");
    full.append(file);
    full.append(", ");
    full.append(decimal_text(line as u64).as_str());
    full.append("]");
    full
}

/// The digits of a number below ten are the one character that stands for it, and a digit
/// behind a number is a character behind its digits. Characters count from `0`, which
/// stands at 48.
pub proof fn law_decimal_appends_digits(n: nat, d: nat)
    requires
        d < 10,
    ensures
        decimal(d).len() == 1,
        decimal(d)[0] as int == 48 + d,
        n > 0 ==> {
            &&& decimal(10 * n + d).len() == decimal(n).len() + 1
            &&& decimal(10 * n + d).drop_last() == decimal(n)
            &&& decimal(10 * n + d).last() as int == 48 + d
        },
{
    if n > 0 {
        let m: nat = 10 * n + d;
        assert(m / 10 == n && m % 10 == d);
        assert(decimal(m) == decimal(n).push(digit(d)));
        assert(decimal(m).drop_last() =~= decimal(n));
    }
}

/// A located text begins with the text and goes on with the file and the line in brackets.
pub proof fn law_located_text_names_file_and_line(text: Seq<char>, file: Seq<char>, line: nat)
    ensures
        located_text(text, file, line) == text + (" at ["@ + file + ", "@ + decimal(line)
            + "]"@),
{
    assert(located_text(text, file, line) =~= text + (" at ["@ + file + ", "@ + decimal(line)
        + "]"@));
}

} // verus!
