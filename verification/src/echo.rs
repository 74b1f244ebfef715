//! The string-echo utility's decisions: stripping the leading escape flags
//! from the argument list, and replacing escape sequences in the joined
//! arguments.

use crate::text::push_char;
use vstd::prelude::*;
use vstd::string::StrSliceExecFns;

verus! {

/// Options of the echo command.
pub struct EchoOptions {
    pub escaped_args: bool,
}

impl Default for EchoOptions {
    fn default() -> (r: EchoOptions)
        ensures
            r.escaped_args == false,
    {
        EchoOptions { escaped_args: false }
    }
}

/// Whether a piece of text is exactly the escape flag.
pub open spec fn is_e_flag(s: Seq<char>) -> bool {
    s.len() == 2 && s[0] == '-' && s[1] == 'e'
}

/// The length of the leading run of escape flags in the argument list.
pub open spec fn lead_e(args: Seq<String>) -> int
    decreases args.len(),
{
    if args.len() == 0 || !is_e_flag(args[0]@) {
        0
    } else {
        1 + lead_e(args.skip(1))
    }
}

/// The leading run never exceeds the list.
pub proof fn lemma_lead_e_bounds(args: Seq<String>)
    ensures
        0 <= lead_e(args) <= args.len(),
    decreases args.len(),
{
    if args.len() > 0 && is_e_flag(args[0]@) {
        lemma_lead_e_bounds(args.skip(1));
    }
}

/// Whether this argument is the escape flag.
fn is_dash_e(s: &str) -> (r: bool)
    ensures
        r == is_e_flag(s@),
{
    s.unicode_len() == 2 && s.get_char(0) == '-' && s.get_char(1) == 'e'
}

/// Removes the leading run of escape flags from the argument list, in
/// place, and reports whether at least one was present.
pub fn parse_options(args: &mut Vec<String>) -> (r: EchoOptions)
    ensures
        final(args)@ == old(args)@.skip(lead_e(old(args)@)),
        r.escaped_args == (lead_e(old(args)@) > 0),
{
    let mut options = EchoOptions::default();
    let ghost orig = args@;
    let ghost mut k: int = 0;
    proof {
        lemma_lead_e_bounds(orig);
        assert(orig.skip(0) =~= orig);
    }
    while args.len() > 0 && is_dash_e(args[0].as_str())
        invariant
            0 <= k <= orig.len(),
            args@ == orig.skip(k),
            lead_e(orig) == k + lead_e(args@),
            options.escaped_args == (k > 0),
        decreases args@.len(),
    {
        options.escaped_args = true;
        args.remove(0);
        proof {
            assert(orig.skip(k).remove(0) =~= orig.skip(k + 1));
            k = k + 1;
        }
    }
    options
}

/// What one escape sequence denotes: newline, tab, carriage return and
/// vertical tab are replaced; any other escaped character stands for
/// itself (backslashes and quotes included).
pub open spec fn esc_map(c: char) -> char {
    if c == 'n' {
        '\n'
    } else if c == 't' {
        '\t'
    } else if c == 'r' {
        '\r'
    } else if c == 'v' {
        '\x0B'
    } else {
        c
    }
}

/// The text with every escape sequence replaced: a backslash followed by a
/// character becomes what that sequence denotes, and a trailing lone
/// backslash stands for itself.
pub open spec fn unescaped(s: Seq<char>) -> Seq<char>
    decreases s.len(),
{
    if s.len() == 0 {
        Seq::empty()
    } else if s[0] == '\\' {
        if s.len() == 1 {
            seq!['\\']
        } else {
            seq![esc_map(s[1])] + unescaped(s.skip(2))
        }
    } else {
        seq![s[0]] + unescaped(s.skip(1))
    }
}

/// Replaces the common escape sequences in a string with the characters
/// they denote.
pub fn handle_escapes(s: &str) -> (r: String)
    ensures
        r@ == unescaped(s@),
{
    let mut result = String::new();
    let n = s.unicode_len();
    let mut i: usize = 0;
    proof {
        assert(s@.skip(0) =~= s@);
        assert(result@ + unescaped(s@) =~= unescaped(s@));
    }
    while i < n
        invariant
            n == s@.len(),
            i <= n,
            result@ + unescaped(s@.skip(i as int)) == unescaped(s@),
        decreases n - i,
    {
        let ghost rest = s@.skip(i as int);
        let c = s.get_char(i);
        proof {
            assert(rest[0] == s@[i as int]);
        }
        if c == '\\' {
            if i + 1 < n {
                let next_char = s.get_char(i + 1);
                proof {
                    assert(rest[1] == s@[i as int + 1]);
                }
                match next_char {
                    'n' => push_char(&mut result, '\n'),
                    't' => push_char(&mut result, '\t'),
                    'r' => push_char(&mut result, '\r'),
                    'v' => push_char(&mut result, '\x0B'),
                    '\\' => push_char(&mut result, '\\'),
                    '\'' => push_char(&mut result, '\''),
                    '"' => push_char(&mut result, '"'),
                    _ => push_char(&mut result, next_char),
                }
                proof {
                    assert(rest.skip(2) =~= s@.skip(i as int + 2));
                    assert(result@ + unescaped(s@.skip(i as int + 2)) =~= unescaped(s@));
                }
                i += 2;
            } else {
                push_char(&mut result, '\\');
                proof {
                    assert(rest.len() == 1);
                    assert(result@ + unescaped(s@.skip(i as int + 1)) =~= unescaped(s@));
                }
                i += 1;
            }
        } else {
            push_char(&mut result, c);
            proof {
                assert(rest.skip(1) =~= s@.skip(i as int + 1));
                assert(result@ + unescaped(s@.skip(i as int + 1)) =~= unescaped(s@));
            }
            i += 1;
        }
    }
    proof {
        assert(s@.skip(n as int) =~= Seq::<char>::empty());
        assert(result@ + unescaped(s@.skip(n as int)) =~= result@);
    }
    result
}

} // verus!
