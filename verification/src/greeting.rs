//! The greeting text: three fixed lines joined by single newlines, and the
//! proof that the composed string has exactly that shape.

use vstd::prelude::*;
use vstd::string::StringExecFns;

verus! {

/// First line of the greeting.
pub open spec fn spec_line_one() -> Seq<char> {
    "Wishing you and your family"@
}

/// Second line of the greeting.
pub open spec fn spec_line_two() -> Seq<char> {
    "a very Happy New Year 2023."@
}

/// Third line of the greeting.
pub open spec fn spec_line_three() -> Seq<char> {
    "from Sachit Lele."@
}

/// A single logical line break.
pub open spec fn spec_newline() -> Seq<char> {
    "\n"@
}

/// The whole greeting: the three lines joined by single newlines.
pub open spec fn spec_greeting() -> Seq<char> {
    spec_line_one() + spec_newline() + spec_line_two() + spec_newline() + spec_line_three()
}

/// `sub` occurs contiguously inside `s`.
pub open spec fn contains_seq(s: Seq<char>, sub: Seq<char>) -> bool {
    exists|k: int|
        0 <= k && k + sub.len() <= s.len() && #[trigger] s.subrange(k, k + sub.len()) == sub
}

/// `s` holds no line break.
pub open spec fn single_line(s: Seq<char>) -> bool {
    forall|i: int| 0 <= i < s.len() ==> s[i] != '\n'
}

/// Composes the greeting string: three fixed lines joined by newlines.
pub fn greeting_text() -> (s: String)
    ensures
        s@ == spec_greeting(),
{
    let s = String::from_str("Wishing you and your family").concat("\n").concat(
        "a very Happy New Year 2023.",
    ).concat("\n").concat("from Sachit Lele.");
    proof {
        assert(s@ =~= spec_greeting());
    }
    s
}

/// The greeting is exactly three lines separated by single newlines; the
/// second line carries the new-year wish and the third the author's name.
pub proof fn lemma_greeting_structure()
    ensures
        spec_greeting() == spec_line_one() + spec_newline() + spec_line_two() + spec_newline()
            + spec_line_three(),
        spec_newline().len() == 1 && spec_newline()[0] == '\n',
        single_line(spec_line_one()),
        single_line(spec_line_two()),
        single_line(spec_line_three()),
        contains_seq(spec_line_two(), "Happy New Year 2023."@),
        contains_seq(spec_line_three(), "Sachit Lele."@),
{
    reveal_strlit("Wishing you and your family");
    reveal_strlit("a very Happy New Year 2023.");
    reveal_strlit("from Sachit Lele.");
    reveal_strlit("\n");
    reveal_strlit("Happy New Year 2023.");
    reveal_strlit("Sachit Lele.");
    assert(spec_line_two().subrange(7, 7 + "Happy New Year 2023."@.len() as int)
        =~= "Happy New Year 2023."@);
    assert(spec_line_three().subrange(5, 5 + "Sachit Lele."@.len() as int) =~= "Sachit Lele."@);
    assert(contains_seq(spec_line_two(), "Happy New Year 2023."@));
    assert(contains_seq(spec_line_three(), "Sachit Lele."@));
}

} // verus!
