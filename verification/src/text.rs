//! The names of the lines: the long one that the card shows, and the short
//! one that a player types.

use crate::line::LineId;
use vstd::prelude::*;
use vstd::string::*;

verus! {

/// The name of a line as the card shows it.
pub open spec fn long_name(zid: LineId) -> Seq<char> {
    match zid {
        LineId::Ace => "Aces"@,
        LineId::Two => "Twos"@,
        LineId::Three => "Threes"@,
        LineId::Four => "Fours"@,
        LineId::Five => "Fives"@,
        LineId::Six => "Sixes"@,
        LineId::UpperSubtotal => "Subtotal"@,
        LineId::UpperBonus => ">63 bonus"@,
        LineId::UpperTotal => "Total"@,
        LineId::ThreeKind => "3 Kind"@,
        LineId::FourKind => "4 Kind"@,
        LineId::SmallStraight => "Small Straight"@,
        LineId::LargeStraight => "Large Straight"@,
        LineId::FullHouse => "Full House"@,
        LineId::Chance => "Chance"@,
        LineId::Dice5 => "Dice 5"@,
        LineId::BottomSubtotal => "Subtotal"@,
        LineId::Dice5Bonus => "Dice5 Bonus"@,
        LineId::GrandTotal => "Grand Total"@,
    }
}

/// The name by which a player calls a line that takes a hand. A line that
/// the card works out has none, and gets a mark of error.
pub open spec fn short_name(zid: LineId) -> Seq<char> {
    match zid {
        LineId::Ace => "1"@,
        LineId::Two => "2"@,
        LineId::Three => "3"@,
        LineId::Four => "4"@,
        LineId::Five => "5"@,
        LineId::Six => "6"@,
        LineId::ThreeKind => "3k"@,
        LineId::FourKind => "4k"@,
        LineId::SmallStraight => "ss"@,
        LineId::LargeStraight => "ls"@,
        LineId::FullHouse => "fh"@,
        LineId::Chance => "c"@,
        LineId::Dice5 => "d"@,
        _ => "*ERROR"@,
    }
}

/// The line that a player means by `name`: the line of that short name,
/// with `y` as a second name for five of a kind.
pub open spec fn id_of_short_name(name: Seq<char>) -> Result<LineId, ()> {
    if name == "1"@ {
        Ok(LineId::Ace)
    } else if name == "2"@ {
        Ok(LineId::Two)
    } else if name == "3"@ {
        Ok(LineId::Three)
    } else if name == "4"@ {
        Ok(LineId::Four)
    } else if name == "5"@ {
        Ok(LineId::Five)
    } else if name == "6"@ {
        Ok(LineId::Six)
    } else if name == "3k"@ {
        Ok(LineId::ThreeKind)
    } else if name == "4k"@ {
        Ok(LineId::FourKind)
    } else if name == "ss"@ {
        Ok(LineId::SmallStraight)
    } else if name == "ls"@ {
        Ok(LineId::LargeStraight)
    } else if name == "fh"@ {
        Ok(LineId::FullHouse)
    } else if name == "c"@ {
        Ok(LineId::Chance)
    } else if name == "d"@ || name == "y"@ {
        Ok(LineId::Dice5)
    } else {
        Err(())
    }
}

/// The name of the line `zid` as the card shows it.
pub fn get_long_name(zid: LineId) -> (name: String)
    ensures
        name@ == long_name(zid),
{
    match zid {
        LineId::Ace => "Aces".to_string(),
        LineId::Two => "Twos".to_string(),
        LineId::Three => "Threes".to_string(),
        LineId::Four => "Fours".to_string(),
        LineId::Five => "Fives".to_string(),
        LineId::Six => "Sixes".to_string(),
        LineId::UpperSubtotal => "Subtotal".to_string(),
        LineId::UpperBonus => ">63 bonus".to_string(),
        LineId::UpperTotal => "Total".to_string(),
        LineId::ThreeKind => "3 Kind".to_string(),
        LineId::FourKind => "4 Kind".to_string(),
        LineId::SmallStraight => "Small Straight".to_string(),
        LineId::LargeStraight => "Large Straight".to_string(),
        LineId::FullHouse => "Full House".to_string(),
        LineId::Chance => "Chance".to_string(),
        LineId::Dice5 => "Dice 5".to_string(),
        LineId::BottomSubtotal => "Subtotal".to_string(),
        LineId::Dice5Bonus => "Dice5 Bonus".to_string(),
        LineId::GrandTotal => "Grand Total".to_string(),
    }
}

/// The name by which a player calls the line `zid`.
pub fn get_short_name(zid: LineId) -> (name: String)
    ensures
        name@ == short_name(zid),
{
    match zid {
        LineId::Ace => "1".to_string(),
        LineId::Two => "2".to_string(),
        LineId::Three => "3".to_string(),
        LineId::Four => "4".to_string(),
        LineId::Five => "5".to_string(),
        LineId::Six => "6".to_string(),
        LineId::ThreeKind => "3k".to_string(),
        LineId::FourKind => "4k".to_string(),
        LineId::SmallStraight => "ss".to_string(),
        LineId::LargeStraight => "ls".to_string(),
        LineId::FullHouse => "fh".to_string(),
        LineId::Chance => "c".to_string(),
        LineId::Dice5 => "d".to_string(),
        _ => "*ERROR".to_string(),
    }
}

/// Whether two texts are the same, character by character.
fn same_text(s: &str, t: &str) -> (same: bool)
    ensures
        same == (s@ == t@),
{
    let n = s.unicode_len();
    if n != t.unicode_len() {
        return false;
    }
    for i in 0..n
        invariant
            n == s@.len(),
            n == t@.len(),
            forall|j: int| 0 <= j < i ==> s@[j] == t@[j],
    {
        if s.get_char(i) != t.get_char(i) {
            return false;
        }
    }
    proof {
        assert(s@ =~= t@);
    }
    true
}

/// The line that a player means by `s`, if `s` names one.
pub fn get_id_by_short_name(s: &str) -> (result: Result<LineId, ()>)
    ensures
        result == id_of_short_name(s@),
{
    if same_text(s, "1") {
        Ok(LineId::Ace)
    } else if same_text(s, "2") {
        Ok(LineId::Two)
    } else if same_text(s, "3") {
        Ok(LineId::Three)
    } else if same_text(s, "4") {
        Ok(LineId::Four)
    } else if same_text(s, "5") {
        Ok(LineId::Five)
    } else if same_text(s, "6") {
        Ok(LineId::Six)
    } else if same_text(s, "3k") {
        Ok(LineId::ThreeKind)
    } else if same_text(s, "4k") {
        Ok(LineId::FourKind)
    } else if same_text(s, "ss") {
        Ok(LineId::SmallStraight)
    } else if same_text(s, "ls") {
        Ok(LineId::LargeStraight)
    } else if same_text(s, "fh") {
        Ok(LineId::FullHouse)
    } else if same_text(s, "c") {
        Ok(LineId::Chance)
    } else if same_text(s, "d") || same_text(s, "y") {
        Ok(LineId::Dice5)
    } else {
        Err(())
    }
}

/// A player who types the short name of a line that takes a hand means that
/// line.
pub proof fn lemma_short_name_finds_line(zid: LineId)
    requires
        zid.is_scoreable(),
    ensures
        id_of_short_name(short_name(zid)) == Ok::<LineId, ()>(zid),
{
    reveal_strlit("1");
    reveal_strlit("2");
    reveal_strlit("3");
    reveal_strlit("4");
    reveal_strlit("5");
    reveal_strlit("6");
    reveal_strlit("3k");
    reveal_strlit("4k");
    reveal_strlit("ss");
    reveal_strlit("ls");
    reveal_strlit("fh");
    reveal_strlit("c");
    reveal_strlit("d");
    reveal_strlit("y");
    assert("1"@.len() == 1 && "2"@.len() == 1 && "3"@.len() == 1 && "4"@.len() == 1 && "5"@.len()
        == 1 && "6"@.len() == 1 && "c"@.len() == 1 && "d"@.len() == 1);
    assert("3k"@.len() == 2 && "4k"@.len() == 2 && "ss"@.len() == 2 && "ls"@.len() == 2 && "fh"@.len()
        == 2);
    assert("1"@[0] == '1');
    assert("2"@[0] == '2');
    assert("3"@[0] == '3');
    assert("4"@[0] == '4');
    assert("5"@[0] == '5');
    assert("6"@[0] == '6');
    assert("3k"@[0] == '3');
    assert("4k"@[0] == '4');
    assert("ss"@[0] == 's');
    assert("ls"@[0] == 'l');
    assert("fh"@[0] == 'f');
    assert("c"@[0] == 'c');
    assert("d"@[0] == 'd');
}

} // verus!
