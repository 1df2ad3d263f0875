//! Turning the query buffer into the text the provider call takes.

use vstd::prelude::*;
use vstd::string::StringExecFns;

verus! {

/// Relies on `String::push`: appends exactly one character at the end.
#[verifier::external_body]
fn push_char(s: &mut String, c: char)
    ensures
        final(s)@ == old(s)@.push(c),
{
    s.push(c);
}

/// The buffer's characters as one string, in order.
pub fn chars_to_string(chars: &Vec<char>) -> (r: String)
    ensures
        r@ == chars@,
{
    let n = chars.len();
    let mut s = String::new();
    let mut i: usize = 0;
    while i < n
        invariant
            i <= n,
            n == chars@.len(),
            s@ == chars@.take(i as int),
        decreases n - i,
    {
        proof {
            assert(chars@.take(i + 1) =~= chars@.take(i as int).push(chars@[i as int]));
        }
        push_char(&mut s, chars[i]);
        i = i + 1;
    }
    proof {
        assert(chars@.take(n as int) =~= chars@);
    }
    s
}

/// The argument string of the provider's search call: `q=` then the query.
pub fn search_args(query: &Vec<char>) -> (r: String)
    ensures
        r@ == "q="@ + query@,
{
    let mut s = "q=".to_owned();
    let q = chars_to_string(query);
    s.append(q.as_str());
    s
}

} // verus!
