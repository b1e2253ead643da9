//! The frame-rate readout as it goes to the terminal.

use vstd::prelude::*;
use vstd::string::StringExecFns;

verus! {

/// The control sequence that saves the cursor position.
pub open spec fn spec_cursor_save() -> Seq<char> {
    "\x1b[s"@
}

/// The control sequence that puts the cursor back where it was saved.
pub open spec fn spec_cursor_restore() -> Seq<char> {
    "\x1b[u"@
}

/// A readout that overwrites the one before it: the cursor is saved, the
/// number is written, and the cursor goes back to where it was, so that the
/// next readout lands on the same spot.
pub open spec fn spec_readout_text(number: Seq<char>) -> Seq<char> {
    spec_cursor_save() + number + spec_cursor_restore()
}

/// Wraps the formatted frame rate for the terminal.
pub fn readout_text(number: &str) -> (text: String)
    ensures
        text@ == spec_readout_text(number@),
{
    let mut text = String::from_str("\x1b[s");
    text.append(number);
    text.append("\x1b[u");
    text
}

/// The control sequences are three characters each, so a readout is six
/// characters longer than its number, which it holds unchanged in the middle.
pub proof fn lemma_readout_text(number: Seq<char>)
    ensures
        ({
            let text = spec_readout_text(number);
            let n = number.len() as int;
            &&& text.len() == n + 6
            &&& text.subrange(3, 3 + n) == number
            &&& text[0] == '\x1b' && text[1] == '[' && text[2] == 's'
            &&& text[n + 3] == '\x1b' && text[n + 4] == '[' && text[n + 5] == 'u'
        }),
{
    reveal_strlit("\x1b[s");
    reveal_strlit("\x1b[u");
    let n = number.len() as int;
    assert(spec_readout_text(number).subrange(3, 3 + n) =~= number);
}

} // verus!
