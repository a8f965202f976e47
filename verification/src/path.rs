//! Pure path utilities: the file name after the last slash, and the
//! extension after the last dot.
use vstd::prelude::*;

verus! {

pub const SLASH: u8 = 47;

pub const DOT: u8 = 46;

/// The index of the last occurrence of `b` in `s`, if any.
pub open spec fn spec_rfind(s: Seq<u8>, b: u8) -> Option<int>
    decreases s.len(),
{
    if s.len() == 0 {
        None
    } else if s[s.len() - 1] == b {
        Some(s.len() - 1)
    } else {
        spec_rfind(s.drop_last(), b)
    }
}

/// The part of `s` after the last occurrence of `b`, or all of `s`.
pub open spec fn spec_after_last(s: Seq<u8>, b: u8) -> Seq<u8> {
    match spec_rfind(s, b) {
        Some(i) => s.subrange(i + 1, s.len() as int),
        None => s,
    }
}

/// The file name: everything after the last `/`, or the whole string.
pub open spec fn spec_filename(s: Seq<u8>) -> Seq<u8> {
    spec_after_last(s, SLASH)
}

/// The extension: everything after the last `.` in the file name, or empty.
pub open spec fn spec_extension(filename: Seq<u8>) -> Seq<u8> {
    match spec_rfind(filename, DOT) {
        Some(i) => filename.subrange(i + 1, filename.len() as int),
        None => Seq::empty(),
    }
}

fn rfind(s: &[u8], b: u8) -> (r: Option<usize>)
    ensures
        match r {
            Some(i) => i < s@.len() && spec_rfind(s@, b) == Some(i as int),
            None => spec_rfind(s@, b) == None::<int>,
        },
{
    let mut i: usize = s.len();
    proof {
        assert(s@.subrange(0, i as int) =~= s@);
    }
    while i > 0
        invariant
            0 <= i <= s@.len(),
            spec_rfind(s@, b) == spec_rfind(s@.subrange(0, i as int), b),
        decreases i,
    {
        let j = i - 1;
        if s[j] == b {
            assert(s@.subrange(0, i as int)[j as int] == b);
            assert(spec_rfind(s@.subrange(0, i as int), b) == Some(j as int));
            return Some(j);
        }
        proof {
            assert(s@.subrange(0, i as int).drop_last() =~= s@.subrange(0, j as int));
        }
        i = j;
    }
    proof {
        assert(s@.subrange(0, 0) =~= Seq::<u8>::empty());
    }
    None
}

/// The file name part of a path: the substring after the last `/`.
pub fn filename(name: &[u8]) -> (r: &[u8])
    ensures
        r@ == spec_filename(name@),
{
    let n = name.len();
    match rfind(name, SLASH) {
        Some(i) => vstd::slice::slice_subrange(name, i + 1, n),
        None => name,
    }
}

/// The extension of a file name: the substring after the last `.`, or empty.
pub fn extension(filename: &[u8]) -> (r: &[u8])
    ensures
        r@ == spec_extension(filename@),
{
    let n = filename.len();
    match rfind(filename, DOT) {
        Some(i) => vstd::slice::slice_subrange(filename, i + 1, n),
        None => {
            let r = vstd::slice::slice_subrange(filename, 0, 0);
            assert(r@ =~= Seq::<u8>::empty());
            r
        },
    }
}

} // verus!
