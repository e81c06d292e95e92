//! The level selection screen: the level table and what the screen shows for
//! the selected level.
use vstd::prelude::*;
use vstd::string::StringExecFns;

verus! {

/// The number of levels on the selection screen.
pub const LEVEL_COUNT: usize = 6;

/// A level as the selection screen lists it. Its preview colour belongs to the
/// rendering side.
pub struct LevelInfo {
    pub name: &'static str,
    pub objective: &'static str,
    pub description: &'static str,
    pub locked: bool,
}

/// The name, objective, description and lock of the level at a position.
pub open spec fn spec_level(idx: int) -> (Seq<char>, Seq<char>, Seq<char>, bool) {
    if idx == 0 {
        ("LEVEL 1"@, "Placeholder objective for level 1"@, "Placeholder description for level 1. This text will be replaced with actual level details."@, false)
    } else if idx == 1 {
        ("LEVEL 2"@, "Placeholder objective for level 2"@, "Placeholder description for level 2. This text will be replaced with actual level details."@, true)
    } else if idx == 2 {
        ("LEVEL 3"@, "Placeholder objective for level 3"@, "Placeholder description for level 3. This text will be replaced with actual level details."@, true)
    } else if idx == 3 {
        ("LEVEL 4"@, "Placeholder objective for level 4"@, "Placeholder description for level 4. This text will be replaced with actual level details."@, true)
    } else if idx == 4 {
        ("LEVEL 5"@, "Placeholder objective for level 5"@, "Placeholder description for level 5. This text will be replaced with actual level details."@, true)
    } else {
        ("LEVEL 6"@, "Placeholder objective for level 6"@, "Placeholder description for level 6. This text will be replaced with actual level details."@, true)
    }
}

/// The level at a position of the table.
pub fn level_info(idx: usize) -> (r: LevelInfo)
    requires
        idx < LEVEL_COUNT,
    ensures
        (r.name@, r.objective@, r.description@, r.locked) == spec_level(idx as int),
{
    if idx == 0 {
        LevelInfo { name: "LEVEL 1", objective: "Placeholder objective for level 1", description: "Placeholder description for level 1. This text will be replaced with actual level details.", locked: false }
    } else if idx == 1 {
        LevelInfo { name: "LEVEL 2", objective: "Placeholder objective for level 2", description: "Placeholder description for level 2. This text will be replaced with actual level details.", locked: true }
    } else if idx == 2 {
        LevelInfo { name: "LEVEL 3", objective: "Placeholder objective for level 3", description: "Placeholder description for level 3. This text will be replaced with actual level details.", locked: true }
    } else if idx == 3 {
        LevelInfo { name: "LEVEL 4", objective: "Placeholder objective for level 4", description: "Placeholder description for level 4. This text will be replaced with actual level details.", locked: true }
    } else if idx == 4 {
        LevelInfo { name: "LEVEL 5", objective: "Placeholder objective for level 5", description: "Placeholder description for level 5. This text will be replaced with actual level details.", locked: true }
    } else {
        LevelInfo { name: "LEVEL 6", objective: "Placeholder objective for level 6", description: "Placeholder description for level 6. This text will be replaced with actual level details.", locked: true }
    }
}

/// The decimal digits of a number.
pub open spec fn decimal(n: nat) -> Seq<char>
    decreases n,
{
    if n < 10 {
        seq![digit_char(n)]
    } else {
        decimal(n / 10).push(digit_char(n % 10))
    }
}

/// The character of a decimal digit.
pub open spec fn digit_char(d: nat) -> char {
    (('0' as u8) + d) as char
}

/// Calls `usize::to_string`, which writes the number in decimal.
#[verifier::external_body]
fn decimal_text(n: usize) -> (r: String)
    ensures
        r@ == decimal(n as nat),
{
    n.to_string()
}

/// The label of a level's square in the grid: "???" for a locked level, else
/// "L" and the level's number, counted from one.
pub fn level_square_text(idx: usize) -> (r: String)
    requires
        idx < LEVEL_COUNT,
    ensures
        r@ == (if spec_level(idx as int).3 { "???"@ } else { "L"@ + decimal(idx as nat + 1) }),
{
    let level = level_info(idx);
    if level.locked {
        String::from_str("???")
    } else {
        let mut text = String::from_str("L");
        let number = decimal_text(idx + 1);
        text.append(number.as_str());
        text
    }
}

/// The texts shown for the selected level: its name, "OBJECTIVE: " and its
/// objective, and its description; for a locked level "???", "OBJECTIVE: ???"
/// and a note that it is locked.
pub open spec fn spec_selection_texts(idx: int) -> (Seq<char>, Seq<char>, Seq<char>) {
    if spec_level(idx).3 {
        ("???"@, "OBJECTIVE: ???"@, "Locked level. Complete previous levels to unlock."@)
    } else {
        (spec_level(idx).0, "OBJECTIVE: "@ + spec_level(idx).1, spec_level(idx).2)
    }
}

/// The name, objective and description texts for the selected level.
pub fn selection_texts(idx: usize) -> (r: (String, String, String))
    requires
        idx < LEVEL_COUNT,
    ensures
        (r.0@, r.1@, r.2@) == spec_selection_texts(idx as int),
{
    let level = level_info(idx);
    if level.locked {
        (
            String::from_str("???"),
            String::from_str("OBJECTIVE: ???"),
            String::from_str("Locked level. Complete previous levels to unlock."),
        )
    } else {
        let mut objective = String::from_str("OBJECTIVE: ");
        objective.append(level.objective);
        (String::from_str(level.name), objective, String::from_str(level.description))
    }
}

/// Whether the selected level can be entered: it is not locked.
pub fn can_enter_level(idx: usize) -> (r: bool)
    requires
        idx < LEVEL_COUNT,
    ensures
        r == !spec_level(idx as int).3,
{
    !level_info(idx).locked
}

/// The selected level after a frame of clicks: the last square pressed, or the
/// previous selection when none was pressed.
pub fn select_after_clicks(selected: usize, pressed: &Vec<usize>) -> (r: usize)
    ensures
        r == (if pressed@.len() == 0 { selected } else { pressed@.last() }),
{
    let mut current = selected;
    let mut i: usize = 0;
    while i < pressed.len()
        invariant
            i <= pressed@.len(),
            current == (if i == 0 { selected } else { pressed@[i - 1] }),
        decreases pressed.len() - i,
    {
        current = pressed[i];
        i = i + 1;
    }
    current
}

/// Only the first level is open; every other level is locked.
pub proof fn lemma_only_first_level_open(idx: int)
    requires
        0 <= idx < LEVEL_COUNT,
    ensures
        !spec_level(idx).3 <==> idx == 0,
{
}

/// Each level is named after its number, counted from one: "LEVEL " and the
/// number, with the objective and description texts that carry the same number.
pub proof fn lemma_levels_named_by_number(idx: int)
    requires
        0 <= idx < LEVEL_COUNT,
    ensures
        spec_level(idx).0 == "LEVEL "@ + decimal((idx + 1) as nat),
        spec_level(idx).1 == "Placeholder objective for level "@ + decimal((idx + 1) as nat),
        spec_level(idx).2 == "Placeholder description for level "@ + decimal((idx + 1) as nat)
            + ". This text will be replaced with actual level details."@,
{
    reveal_strlit("LEVEL ");
    reveal_strlit("Placeholder objective for level ");
    reveal_strlit("Placeholder description for level ");
    reveal_strlit(". This text will be replaced with actual level details.");
    reveal_strlit("LEVEL 1");
    reveal_strlit("LEVEL 2");
    reveal_strlit("LEVEL 3");
    reveal_strlit("LEVEL 4");
    reveal_strlit("LEVEL 5");
    reveal_strlit("LEVEL 6");
    reveal_strlit("Placeholder objective for level 1");
    reveal_strlit("Placeholder objective for level 2");
    reveal_strlit("Placeholder objective for level 3");
    reveal_strlit("Placeholder objective for level 4");
    reveal_strlit("Placeholder objective for level 5");
    reveal_strlit("Placeholder objective for level 6");
    reveal_strlit("Placeholder description for level 1. This text will be replaced with actual level details.");
    reveal_strlit("Placeholder description for level 2. This text will be replaced with actual level details.");
    reveal_strlit("Placeholder description for level 3. This text will be replaced with actual level details.");
    reveal_strlit("Placeholder description for level 4. This text will be replaced with actual level details.");
    reveal_strlit("Placeholder description for level 5. This text will be replaced with actual level details.");
    reveal_strlit("Placeholder description for level 6. This text will be replaced with actual level details.");
    let d = decimal((idx + 1) as nat);
    assert(d == seq![digit_char((idx + 1) as nat)]);
    assert(digit_char(1) == '1');
    assert(digit_char(2) == '2');
    assert(digit_char(3) == '3');
    assert(digit_char(4) == '4');
    assert(digit_char(5) == '5');
    assert(digit_char(6) == '6');
    assert(spec_level(idx).0 =~= "LEVEL "@ + d);
    assert(spec_level(idx).1 =~= "Placeholder objective for level "@ + d);
    assert(spec_level(idx).2 =~= "Placeholder description for level "@ + d
        + ". This text will be replaced with actual level details."@);
}

/// The selection texts: a locked level shows "???", "OBJECTIVE: ???" and the
/// locked note; an open level shows its name, "OBJECTIVE: " followed by its
/// objective, and its description.
pub proof fn lemma_selection_text_cases(idx: int)
    ensures
        spec_level(idx).3 ==> spec_selection_texts(idx)
            == ("???"@, "OBJECTIVE: ???"@, "Locked level. Complete previous levels to unlock."@),
        !spec_level(idx).3 ==> spec_selection_texts(idx).0 == spec_level(idx).0,
        !spec_level(idx).3 ==> spec_selection_texts(idx).1 == "OBJECTIVE: "@ + spec_level(idx).1,
        !spec_level(idx).3 ==> spec_selection_texts(idx).2 == spec_level(idx).2,
{
}

} // verus!
