//! The mode selector.
//!
//! A pure function of the input path decides the run's direction and its
//! output path. The path is a byte string; its file name is everything after
//! the last path separator, and the name's extension is everything after its
//! last dot, where a dot as the name's first byte opens no extension. A path
//! whose extension is the marker `c20` decrypts to the path with that
//! extension removed; any other path encrypts to the path with `.c20`
//! appended as one more suffix segment.

use vstd::prelude::*;
use vstd::slice::{slice_subrange, slice_to_vec};

verus! {

/// Which way a run transforms its input.
#[derive(Clone, Copy, Debug, PartialEq, Eq, Structural)]
pub enum Direction {
    Encrypt,
    Decrypt,
}

/// Whether `b` is a path separator byte.
pub open spec fn is_sep(b: u8) -> bool {
    b == '/' as u8 || b == '\\' as u8
}

/// The marker extension, as bytes: `c20`.
pub open spec fn marker() -> Seq<u8> {
    seq!['c' as u8, '2' as u8, '0' as u8]
}

/// The index where the path's file name begins: just after the last
/// separator, 0 when the path holds none.
pub open spec fn name_start(p: Seq<u8>) -> int
    decreases p.len(),
{
    if p.len() == 0 {
        0
    } else if is_sep(p.last()) {
        p.len() as int
    } else {
        name_start(p.drop_last())
    }
}

/// The index, within the file name, of the dot that opens its extension, or
/// -1 when the name has none: the last dot that is not the name's first byte.
pub open spec fn ext_dot(name: Seq<u8>) -> int
    decreases name.len(),
{
    if name.len() <= 1 {
        -1
    } else if name.last() == '.' as u8 {
        name.len() - 1
    } else {
        ext_dot(name.drop_last())
    }
}

/// The path's file name: everything after the last separator.
pub open spec fn spec_file_name(p: Seq<u8>) -> Seq<u8> {
    p.skip(name_start(p))
}

/// The extension of the path's file name, without its dot; `None` when the
/// name has none.
pub open spec fn spec_extension(p: Seq<u8>) -> Option<Seq<u8>> {
    let name = spec_file_name(p);
    if ext_dot(name) == -1 {
        None
    } else {
        Some(name.skip(ext_dot(name) + 1))
    }
}

/// Whether the path names an encrypted file: its extension is the marker.
pub open spec fn is_encrypted_name(p: Seq<u8>) -> bool {
    spec_extension(p) == Some(marker())
}

/// The paired output path: the marker extension stripped when it selects
/// decrypt, `.c20` appended otherwise.
pub open spec fn spec_output_name(p: Seq<u8>) -> Seq<u8> {
    if is_encrypted_name(p) {
        p.take(name_start(p) + ext_dot(spec_file_name(p)))
    } else {
        p + seq!['.' as u8] + marker()
    }
}

/// Finds where the file name begins: just after the last separator.
fn find_name_start(p: &Vec<u8>) -> (start: usize)
    ensures
        start as int == name_start(p@),
        start <= p@.len(),
{
    let mut i: usize = 0;
    let mut start: usize = 0;
    while i < p.len()
        invariant
            i <= p@.len(),
            start <= i,
            start as int == name_start(p@.take(i as int)),
        decreases p@.len() - i,
    {
        proof {
            assert(p@.take(i as int + 1).drop_last() =~= p@.take(i as int));
            assert(p@.take(i as int + 1).last() == p@[i as int]);
        }
        if p[i] == '/' as u8 || p[i] == '\\' as u8 {
            start = i + 1;
        }
        i = i + 1;
    }
    proof {
        assert(p@.take(p@.len() as int) =~= p@);
    }
    start
}

/// Finds the dot that opens the file name's extension, given where the name
/// begins. Returns whether there is one and its index within the name.
fn find_ext_dot(p: &Vec<u8>, start: usize) -> (r: (bool, usize))
    requires
        start <= p@.len(),
    ensures
        r.0 ==> ext_dot(p@.skip(start as int)) == r.1 as int && start + r.1 < p@.len(),
        (!r.0) ==> ext_dot(p@.skip(start as int)) == -1,
{
    let mut i: usize = start;
    let mut has: bool = false;
    let mut dot: usize = 0;
    while i < p.len()
        invariant
            start <= i <= p@.len(),
            has ==> dot as int == ext_dot(p@.subrange(start as int, i as int)) && start + dot < i,
            (!has) ==> ext_dot(p@.subrange(start as int, i as int)) == -1,
        decreases p@.len() - i,
    {
        proof {
            assert(p@.subrange(start as int, i as int + 1).drop_last()
                =~= p@.subrange(start as int, i as int));
            assert(p@.subrange(start as int, i as int + 1).last() == p@[i as int]);
        }
        if p[i] == '.' as u8 && i > start {
            has = true;
            dot = i - start;
        }
        i = i + 1;
    }
    proof {
        assert(p@.subrange(start as int, p@.len() as int) =~= p@.skip(start as int));
    }
    (has, dot)
}

/// Mode selection and output-path computation: a path whose extension is the
/// marker `c20` decrypts to the path without that extension; any other path
/// encrypts to the path with `.c20` appended.
pub fn prepare_output_file_name(input: &Vec<u8>) -> (r: (Vec<u8>, Direction))
    ensures
        r.0@ == spec_output_name(input@),
        r.1 == (if is_encrypted_name(input@) {
            Direction::Decrypt
        } else {
            Direction::Encrypt
        }),
{
    let start = find_name_start(input);
    let (has, dot) = find_ext_dot(input, start);
    let ghost name = spec_file_name(input@);

    let n = input.len();
    let is_dec: bool = if has {
        assert(start + dot < n);
        let ext_at = start + dot + 1;
        proof {
            assert(name.skip(dot as int + 1) =~= input@.skip(ext_at as int));
        }
        if n - ext_at == 3 {
            let m = input[ext_at] == 'c' as u8 && input[ext_at + 1] == '2' as u8
                && input[ext_at + 2] == '0' as u8;
            proof {
                if m {
                    assert(input@.skip(ext_at as int) =~= marker());
                } else {
                    assert(input@.skip(ext_at as int)[0] == input@[ext_at as int]);
                    assert(input@.skip(ext_at as int)[1] == input@[ext_at as int + 1]);
                    assert(input@.skip(ext_at as int)[2] == input@[ext_at as int + 2]);
                    assert(input@.skip(ext_at as int) != marker());
                }
            }
            m
        } else {
            false
        }
    } else {
        false
    };

    if is_dec {
        let out = slice_to_vec(slice_subrange(input.as_slice(), 0, start + dot));
        proof {
            assert(out@ =~= spec_output_name(input@));
        }
        (out, Direction::Decrypt)
    } else {
        let mut out = slice_to_vec(input.as_slice());
        out.push('.' as u8);
        out.push('c' as u8);
        out.push('2' as u8);
        out.push('0' as u8);
        proof {
            assert(out@ =~= spec_output_name(input@));
        }
        (out, Direction::Encrypt)
    }
}

} // verus!
