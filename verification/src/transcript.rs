//! The demonstration transcript shown in the terminal area.

use vstd::prelude::*;
use vstd::string::*;
use crate::text::{decimal, digits_value, lemma_decimal_denotes, push_decimal};

verus! {

/// How many demonstration commands the transcript holds.
pub const DEMO_COMMANDS: u32 = 20;

/// The step, in pixels, between the blur radii that the demonstration
/// commands mention.
pub const DEMO_RADIUS_STEP: u32 = 5;

/// The colour class of a transcript line.
#[derive(Clone, Copy, Debug, PartialEq, Eq, Structural)]
pub enum TextColor {
    Gray,
    White,
    Cyan,
    Green,
}

/// The CSS class of a text colour.
pub open spec fn color_class(c: TextColor) -> Seq<char> {
    match c {
        TextColor::Gray => "gray"@,
        TextColor::White => "white"@,
        TextColor::Cyan => "cyan"@,
        TextColor::Green => "green"@,
    }
}

impl TextColor {
    /// The CSS class of the colour.
    pub fn css_class(&self) -> (res: &'static str)
        ensures
            res@ == color_class(*self),
    {
        match self {
            TextColor::Gray => "gray",
            TextColor::White => "white",
            TextColor::Cyan => "cyan",
            TextColor::Green => "green",
        }
    }
}

/// An entry of the transcript: a line of text in a colour, or a prompt.
pub enum TerminalEntry {
    Line(String, TextColor),
    Prompt,
}

/// Whether an entry is a line with the given text and colour.
pub open spec fn is_line(e: TerminalEntry, text: Seq<char>, color: TextColor) -> bool {
    e matches TerminalEntry::Line(t, c) && t@ == text && c == color
}

/// The echo command of the `k`-th demonstration round.
pub open spec fn demo_command(k: int) -> Seq<char> {
    "echo 'Testing blur radius: "@ + decimal((k * DEMO_RADIUS_STEP) as nat) + "'"@
}

/// The output of the `k`-th demonstration round.
pub open spec fn demo_output(k: int) -> Seq<char> {
    "Testing blur radius: "@ + decimal((k * DEMO_RADIUS_STEP) as nat)
}

/// The transcript's shape: a gray login line, a prompt, for each round a
/// prompt, its white command and its cyan output, and a closing prompt.
pub open spec fn is_transcript(s: Seq<TerminalEntry>) -> bool {
    &&& s.len() == 3 * DEMO_COMMANDS + 3
    &&& is_line(s[0], "Last login: Sun Oct 19 14:23:45 on ttys001"@, TextColor::Gray)
    &&& s[1] is Prompt
    &&& forall|k: int|
        0 <= k < DEMO_COMMANDS ==> {
            &&& #[trigger] s[3 * k + 2] is Prompt
            &&& is_line(s[3 * k + 3], demo_command(k), TextColor::White)
            &&& is_line(s[3 * k + 4], demo_output(k), TextColor::Cyan)
        }
    &&& s[3 * DEMO_COMMANDS + 2] is Prompt
}

/// The transcript shown in the terminal area.
pub fn transcript() -> (res: Vec<TerminalEntry>)
    ensures
        is_transcript(res@),
{
    let mut res: Vec<TerminalEntry> = Vec::new();
    res.push(TerminalEntry::Line(String::from_str("Last login: Sun Oct 19 14:23:45 on ttys001"), TextColor::Gray));
    res.push(TerminalEntry::Prompt);
    let mut k: u32 = 0;
    while k < DEMO_COMMANDS
        invariant
            k <= DEMO_COMMANDS,
            res@.len() == 3 * k + 2,
            is_line(res@[0], "Last login: Sun Oct 19 14:23:45 on ttys001"@, TextColor::Gray),
            res@[1] is Prompt,
            forall|j: int|
                0 <= j < k ==> {
                    &&& #[trigger] res@[3 * j + 2] is Prompt
                    &&& is_line(res@[3 * j + 3], demo_command(j), TextColor::White)
                    &&& is_line(res@[3 * j + 4], demo_output(j), TextColor::Cyan)
                },
        decreases DEMO_COMMANDS - k,
    {
        let radius: u32 = k * DEMO_RADIUS_STEP;
        let mut command = String::from_str("echo 'Testing blur radius: ");
        push_decimal(&mut command, radius);
        command.append("'");
        let mut output = String::from_str("Testing blur radius: ");
        push_decimal(&mut output, radius);
        let ghost before = res@;
        res.push(TerminalEntry::Prompt);
        res.push(TerminalEntry::Line(command, TextColor::White));
        res.push(TerminalEntry::Line(output, TextColor::Cyan));
        assert forall|j: int| 0 <= j < k + 1 implies {
            &&& #[trigger] res@[3 * j + 2] is Prompt
            &&& is_line(res@[3 * j + 3], demo_command(j), TextColor::White)
            &&& is_line(res@[3 * j + 4], demo_output(j), TextColor::Cyan)
        } by {
            if j < k {
                assert(res@[3 * j + 2] == before[3 * j + 2]);
                assert(res@[3 * j + 3] == before[3 * j + 3]);
                assert(res@[3 * j + 4] == before[3 * j + 4]);
            }
        }
        k = k + 1;
    }
    res.push(TerminalEntry::Prompt);
    res
}

/// The `k`-th demonstration round mentions the radius `k` steps up: the
/// output is the fixed text followed by a numeral that denotes `k` times
/// the step, and the command echoes that output in quotes.
pub proof fn lemma_round_mentions_radius(k: int)
    requires
        0 <= k < DEMO_COMMANDS,
    ensures
        ({
            let prefix = "Testing blur radius: "@;
            let out = demo_output(k);
            &&& out.subrange(0, prefix.len() as int) == prefix
            &&& digits_value(out.subrange(prefix.len() as int, out.len() as int)) == k * DEMO_RADIUS_STEP
            &&& demo_command(k) == "echo '"@ + out + "'"@
        }),
{
    reveal_strlit("echo 'Testing blur radius: ");
    reveal_strlit("echo '");
    reveal_strlit("Testing blur radius: ");
    let prefix = "Testing blur radius: "@;
    let n = decimal((k * DEMO_RADIUS_STEP) as nat);
    lemma_decimal_denotes((k * DEMO_RADIUS_STEP) as nat);
    let out = demo_output(k);
    assert(out.subrange(0, prefix.len() as int) =~= prefix);
    assert(out.subrange(prefix.len() as int, out.len() as int) =~= n);
    assert(demo_command(k) =~= "echo '"@ + out + "'"@);
}

} // verus!
