//! Small verified text utilities over `String` and `&str`.

use vstd::prelude::*;

verus! {

/// Relies on `String::push`: appends the given character to the end of
/// the string.
#[verifier::external_body]
pub(crate) fn push_char(s: &mut String, c: char)
    ensures
        final(s)@ == old(s)@.push(c),
{
    s.push(c);
}

/// The text with every two-character `\"` pair collapsed to a bare quote,
/// scanning left to right. The wire format may double-escape the quotes of
/// a tool call's argument text; this is the normalisation applied before
/// the arguments are decoded.
pub open spec fn unescaped_quotes(s: Seq<char>) -> Seq<char>
    decreases s.len(),
{
    if s.len() == 0 {
        Seq::empty()
    } else if s.len() >= 2 && s[0] == '\\' && s[1] == '"' {
        seq!['"'] + unescaped_quotes(s.skip(2))
    } else {
        seq![s[0]] + unescaped_quotes(s.skip(1))
    }
}

/// Collapses every `\"` pair of the text to a bare quote.
pub fn unescape_quotes(s: &str) -> (r: String)
    ensures
        r@ == unescaped_quotes(s@),
{
    let n = s.unicode_len();
    let mut out = String::new();
    let mut i: usize = 0;
    proof {
        assert(s@.skip(0) =~= s@);
    }
    while i < n
        invariant
            i <= n,
            n == s@.len(),
            unescaped_quotes(s@) =~= out@ + unescaped_quotes(s@.skip(i as int)),
        decreases n - i,
    {
        let ghost rest = s@.skip(i as int);
        let c = s.get_char(i);
        assert(rest[0] == c);
        if c == '\\' && i + 1 < n && s.get_char(i + 1) == '"' {
            push_char(&mut out, '"');
            proof {
                assert(rest.len() >= 2 && rest[1] == '"');
                assert(rest.skip(2) =~= s@.skip(i + 2));
                assert(unescaped_quotes(rest) =~= seq!['"'] + unescaped_quotes(s@.skip(i + 2)));
            }
            i = i + 2;
        } else {
            push_char(&mut out, c);
            proof {
                assert(!(rest.len() >= 2 && rest[0] == '\\' && rest[1] == '"')) by {
                    if i + 1 < n {
                        assert(rest[1] == s@[i + 1]);
                    }
                }
                assert(rest.skip(1) =~= s@.skip(i + 1));
                assert(unescaped_quotes(rest) =~= seq![c] + unescaped_quotes(s@.skip(i + 1)));
            }
            i = i + 1;
        }
    }
    proof {
        assert(s@.skip(n as int) =~= Seq::<char>::empty());
        assert(unescaped_quotes(s@) =~= out@);
    }
    out
}

} // verus!
