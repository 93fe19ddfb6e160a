//! Small facts and operations on text.
use vstd::prelude::*;

verus! {

/// Whether two strings hold the same characters.
pub fn same_text(a: &str, b: &str) -> (r: bool)
    ensures
        r == (a@ == b@),
{
    let x = String::from_str(a);
    let y = String::from_str(b);
    x == y
}

/// `s` with every `/` turned into `_`.
pub open spec fn slashes_to_underscores(s: Seq<char>) -> Seq<char> {
    s.map_values(|c: char| if c == '/' { '_' } else { c })
}

/// Copies `path`, writing `_` for each `/`.
pub fn replace_slashes(path: &str) -> (r: String)
    ensures
        r@ == slashes_to_underscores(path@),
{
    let n = path.unicode_len();
    let mut out = String::new();
    let mut start: usize = 0;
    let mut i: usize = 0;
    proof {
        reveal_strlit("_");
    }
    while i < n
        invariant
            n == path@.len(),
            start <= i <= n,
            out@ + path@.subrange(start as int, i as int) == slashes_to_underscores(
                path@.subrange(0, i as int),
            ),
            forall|j: int| start <= j < i ==> path@[j] != '/',
        decreases n - i,
    {
        let c = path.get_char(i);
        let ghost old_out = out@;
        if c == '/' {
            let seg = path.substring_char(start, i);
            out.append(seg);
            out.append("_");
            proof {
                reveal_strlit("_");
            }
            assert("_"@ =~= seq!['_']);
            assert(out@ =~= old_out + path@.subrange(start as int, i as int) + seq!['_']);
            assert(slashes_to_underscores(path@.subrange(0, i + 1)) =~= slashes_to_underscores(
                path@.subrange(0, i as int),
            ).push('_'));
            assert(path@.subrange(i + 1, i + 1) =~= Seq::<char>::empty());
            assert(out@ + path@.subrange(i + 1, i + 1) =~= out@);
            start = i + 1;
        } else {
            assert(slashes_to_underscores(path@.subrange(0, i + 1)) =~= slashes_to_underscores(
                path@.subrange(0, i as int),
            ).push(c));
            assert(path@.subrange(start as int, i + 1) =~= path@.subrange(start as int, i as int).push(c));
        }
        i = i + 1;
    }
    let seg = path.substring_char(start, n);
    out.append(seg);
    assert(path@.subrange(0, n as int) =~= path@);
    out
}

} // verus!

verus! {

/// `s` without `prefix` where it starts with it; else `s` itself.
pub open spec fn strip_prefix_spec(s: Seq<char>, prefix: Seq<char>) -> Seq<char> {
    if prefix.len() <= s.len() && s.take(prefix.len() as int) == prefix {
        s.skip(prefix.len() as int)
    } else {
        s
    }
}

/// Takes `prefix` once off the front of `s`, where `s` starts with it.
pub fn strip_prefix<'a>(s: &'a str, prefix: &str) -> (r: &'a str)
    ensures
        r@ == strip_prefix_spec(s@, prefix@),
{
    let plen = prefix.unicode_len();
    let n = s.unicode_len();
    if plen > n {
        return s;
    }
    let head = s.substring_char(0, plen);
    assert(head@ =~= s@.take(plen as int));
    if !same_text(head, prefix) {
        return s;
    }
    let rest = s.substring_char(plen, n);
    assert(rest@ =~= s@.skip(plen as int));
    rest
}

} // verus!
