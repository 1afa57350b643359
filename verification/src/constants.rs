//! Defines various global constants that are relevant to the whole game,
//! as far as they are plain values: the storyline intro text and how it is
//! joined into one block for the intro screen.

use vstd::prelude::*;
use vstd::string::StringExecFns;

verus! {

/// The lines joined with the given separator between them.
pub open spec fn spec_join(lines: Seq<Seq<char>>, sep: Seq<char>) -> Seq<char>
    decreases lines.len(),
{
    if lines.len() == 0 {
        Seq::empty()
    } else if lines.len() == 1 {
        lines[0]
    } else {
        spec_join(lines.drop_last(), sep) + sep + lines.last()
    }
}

/// The storyline intro text, line by line.
pub open spec fn spec_story_intro_lines() -> Seq<Seq<char>> {
    seq![
        "A darkness has fallen upon this once beautiful land."@,
        "What was once full of life is now permeated with the stench of death and decay"@,
        "Lake crystal clear and sky pure blue turned red by the smoke that chokes the air."@,
        "Where there were once animals and people living in harmony,"@,
        "There are now only creatures of darkness plotting their evil machinations."@,
        "Where there was once a great kingdon of dwarves, their halls filled with splendor,"@,
        "There is now only the remains of their dark and dusty halls..."@,
    ]
}

/// The storyline intro text defined as an array.
pub fn story_intro_lines() -> (lines: Vec<&'static str>)
    ensures
        lines@.map_values(|s: &'static str| s@) == spec_story_intro_lines(),
{
    let mut lines: Vec<&'static str> = Vec::new();
    lines.push("A darkness has fallen upon this once beautiful land.");
    lines.push("What was once full of life is now permeated with the stench of death and decay");
    lines.push(
        "Lake crystal clear and sky pure blue turned red by the smoke that chokes the air.",
    );
    lines.push("Where there were once animals and people living in harmony,");
    lines.push("There are now only creatures of darkness plotting their evil machinations.");
    lines.push(
        "Where there was once a great kingdon of dwarves, their halls filled with splendor,",
    );
    lines.push("There is now only the remains of their dark and dusty halls...");
    proof {
        assert(lines@.map_values(|s: &'static str| s@) =~= spec_story_intro_lines());
    }
    lines
}

/// Joins the lines with the separator between each pair of neighbours.
pub fn join_with(lines: &Vec<&str>, sep: &str) -> (joined: String)
    ensures
        joined@ == spec_join(lines@.map_values(|s: &str| s@), sep@),
{
    let mut joined = String::new();
    let mut i: usize = 0;
    while i < lines.len()
        invariant
            0 <= i <= lines@.len(),
            joined@ == spec_join(
                lines@.subrange(0, i as int).map_values(|s: &str| s@),
                sep@,
            ),
        decreases lines@.len() - i,
    {
        if i > 0 {
            joined.append(sep);
        }
        joined.append(lines[i]);
        proof {
            let prev = lines@.subrange(0, i as int).map_values(|s: &str| s@);
            let now = lines@.subrange(0, i as int + 1).map_values(|s: &str| s@);
            assert(now.drop_last() =~= prev);
            assert(now.last() == lines@[i as int]@);
            if i == 0 {
                assert(joined@ =~= now[0]);
            }
        }
        i = i + 1;
    }
    proof {
        assert(lines@.subrange(0, lines@.len() as int) =~= lines@);
    }
    joined
}

/// The storyline intro text as one block: the lines separated by blank
/// lines, as the intro screen shows it.
pub fn story_intro_text() -> (text: String)
    ensures
        text@ == spec_join(spec_story_intro_lines(), "\n\n"@),
{
    let lines = story_intro_lines();
    join_with(&lines, "\n\n")
}

} // verus!
