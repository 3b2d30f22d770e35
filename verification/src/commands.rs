//! Recognition of the two chat commands the notifier answers. Incoming
//! message text is matched by literal prefix: the challenge listing is
//! invoked by a case-sensitive `!chal`, the version query by `!version` in
//! any mix of ASCII case. Nothing here reads or changes tracker state.

use vstd::prelude::*;
use vstd::string::StrSliceExecFns;

verus! {

/// The characters that invoke the challenge listing, in order.
pub open spec fn challenge_command_prefix() -> Seq<char> {
    seq!['!', 'c', 'h', 'a', 'l']
}

/// Whether `prefix` stands at the start of `text`.
pub open spec fn is_prefix_of(prefix: Seq<char>, text: Seq<char>) -> bool {
    prefix.len() <= text.len() && text.subrange(0, prefix.len() as int) == prefix
}

/// Whether `c` is the ASCII letter `lower` in either case; `upper` is that
/// letter's upper-case form.
pub open spec fn ascii_ci_eq(c: char, lower: char, upper: char) -> bool {
    c == lower || c == upper
}

/// Whether `text` starts with `!version`, each letter in either ASCII case.
pub open spec fn invokes_version(text: Seq<char>) -> bool {
    &&& text.len() >= 8
    &&& text[0] == '!'
    &&& ascii_ci_eq(text[1], 'v', 'V')
    &&& ascii_ci_eq(text[2], 'e', 'E')
    &&& ascii_ci_eq(text[3], 'r', 'R')
    &&& ascii_ci_eq(text[4], 's', 'S')
    &&& ascii_ci_eq(text[5], 'i', 'I')
    &&& ascii_ci_eq(text[6], 'o', 'O')
    &&& ascii_ci_eq(text[7], 'n', 'N')
}

/// Whether `text` invokes the challenge listing: it starts with the literal
/// prefix `!chal`, case-sensitively.
pub fn is_challenge_command(text: &str) -> (invoked: bool)
    ensures
        invoked == is_prefix_of(challenge_command_prefix(), text@),
{
    let invoked = text.unicode_len() >= 5 && text.get_char(0) == '!' && text.get_char(1) == 'c'
        && text.get_char(2) == 'h' && text.get_char(3) == 'a' && text.get_char(4) == 'l';
    proof {
        assert(challenge_command_prefix().len() == 5);
        if text@.len() >= 5 {
            assert forall|k: int| 0 <= k < 5 implies text@.subrange(0, 5)[k] == text@[k] by {}
            if invoked {
                assert(text@.subrange(0, 5) =~= challenge_command_prefix());
            } else {
                assert(text@.subrange(0, 5) != challenge_command_prefix());
            }
        }
    }
    invoked
}

/// Whether `text` invokes the version query: it starts with `!version` in
/// any mix of ASCII case.
pub fn is_version_command(text: &str) -> (invoked: bool)
    ensures
        invoked == invokes_version(text@),
{
    if text.unicode_len() < 8 {
        return false;
    }
    let c1 = text.get_char(1);
    let c2 = text.get_char(2);
    let c3 = text.get_char(3);
    let c4 = text.get_char(4);
    let c5 = text.get_char(5);
    let c6 = text.get_char(6);
    let c7 = text.get_char(7);
    text.get_char(0) == '!' && (c1 == 'v' || c1 == 'V') && (c2 == 'e' || c2 == 'E') && (c3 == 'r'
        || c3 == 'R') && (c4 == 's' || c4 == 'S') && (c5 == 'i' || c5 == 'I') && (c6 == 'o' || c6
        == 'O') && (c7 == 'n' || c7 == 'N')
}

} // verus!
