//! Building the genuine library's full path from the system-directory query.
//!
//! Paths are kept as sequences of wide (16-bit) code units, the form in
//! which the operating system's query hands the directory over and in which
//! the loader takes the full path back.

use vstd::prelude::*;

verus! {

/// The wide code units of the fixed fallback directory, `C:\Windows\System32`,
/// used when the system-directory query reports zero characters written.
pub open spec fn fallback_directory() -> Seq<u16> {
    seq![
        67u16,
        58u16,
        92u16,
        87u16,
        105u16,
        110u16,
        100u16,
        111u16,
        119u16,
        115u16,
        92u16,
        83u16,
        121u16,
        115u16,
        116u16,
        101u16,
        109u16,
        51u16,
        50u16,
    ]
}

/// The wide code units of `\dinput8.dll`: the separator and the genuine
/// library's fixed file name, appended to the directory.
pub open spec fn library_file_name() -> Seq<u16> {
    seq![92u16, 100u16, 105u16, 110u16, 112u16, 117u16, 116u16, 56u16, 46u16, 100u16, 108u16, 108u16]
}

/// The length of `s` once every trailing null code unit is stripped: the
/// index just past the last non-null unit, or zero if there is none.
pub open spec fn trimmed_len(s: Seq<u16>) -> nat
    decreases s.len(),
{
    if s.len() == 0 {
        0
    } else if s[s.len() - 1] == 0 {
        trimmed_len(s.drop_last())
    } else {
        s.len()
    }
}

/// `s` with every trailing null code unit stripped.
pub open spec fn trimmed(s: Seq<u16>) -> Seq<u16> {
    s.subrange(0, trimmed_len(s) as int)
}

/// The directory the path is built from: the fixed fallback when the query
/// reported zero characters written, and the query's buffer with its
/// trailing null padding stripped otherwise.
pub open spec fn resolved_directory(buffer: Seq<u16>, written: u32) -> Seq<u16> {
    if written == 0 {
        fallback_directory()
    } else {
        trimmed(buffer)
    }
}

/// The genuine library's full path: the resolved directory followed by the
/// library's file name.
pub open spec fn resolved_path(buffer: Seq<u16>, written: u32) -> Seq<u16> {
    resolved_directory(buffer, written) + library_file_name()
}

/// What `trimmed_len` picks out: it never exceeds the length, everything at
/// or past it is null, and the unit just before it (if any) is not.
pub proof fn lemma_trimmed_len_props(s: Seq<u16>)
    ensures
        trimmed_len(s) <= s.len(),
        forall|i: int| trimmed_len(s) <= i < s.len() ==> s[i] == 0,
        trimmed_len(s) > 0 ==> s[trimmed_len(s) - 1] != 0,
    decreases s.len(),
{
    if s.len() > 0 && s[s.len() - 1] == 0 {
        lemma_trimmed_len_props(s.drop_last());
        assert(forall|i: int| 0 <= i < s.len() - 1 ==> s.drop_last()[i] == s[i]);
    }
}

/// Null-trimming: a valid path — one without null code units — padded with
/// any number of trailing nulls trims back to exactly the path, so the
/// derived path contains no null at all.
pub proof fn lemma_null_trimming(path: Seq<u16>, padding: Seq<u16>)
    requires
        forall|i: int| 0 <= i < path.len() ==> path[i] != 0,
        forall|i: int| 0 <= i < padding.len() ==> padding[i] == 0,
    ensures
        trimmed(path + padding) == path,
        forall|i: int| 0 <= i < trimmed(path + padding).len() ==> trimmed(path + padding)[i] != 0,
    decreases padding.len(),
{
    if padding.len() == 0 {
        assert(path + padding =~= path);
        if path.len() > 0 {
            assert(path[path.len() - 1] != 0);
        }
        assert(trimmed_len(path) == path.len());
        assert(trimmed(path) =~= path);
    } else {
        let whole = path + padding;
        assert(whole[whole.len() - 1] == padding[padding.len() - 1]);
        assert(whole.drop_last() =~= path + padding.drop_last());
        lemma_null_trimming(path, padding.drop_last());
        lemma_trimmed_len_props(path + padding.drop_last());
        assert(trimmed_len(whole) == trimmed_len(path + padding.drop_last()));
        assert(trimmed(path + padding.drop_last()).len() == trimmed_len(
            path + padding.drop_last(),
        ));
        assert(trimmed_len(whole) == path.len());
        assert(whole.subrange(0, path.len() as int) =~= path);
    }
}

/// Fallback path: when the system-directory query reports zero characters
/// written, the constructed path is exactly the fixed fallback directory
/// followed by the genuine library's file name, whatever the buffer holds.
pub proof fn lemma_fallback_path(buffer: Seq<u16>, written: u32)
    requires
        written == 0,
    ensures
        resolved_path(buffer, written) == fallback_directory() + library_file_name(),
{
}

/// Builds the fixed fallback directory, `C:\Windows\System32`, as wide code
/// units.
pub fn fallback_directory_units() -> (v: Vec<u16>)
    ensures
        v@ == fallback_directory(),
{
    let mut v: Vec<u16> = Vec::new();
    v.push(67);
    v.push(58);
    v.push(92);
    v.push(87);
    v.push(105);
    v.push(110);
    v.push(100);
    v.push(111);
    v.push(119);
    v.push(115);
    v.push(92);
    v.push(83);
    v.push(121);
    v.push(115);
    v.push(116);
    v.push(101);
    v.push(109);
    v.push(51);
    v.push(50);
    proof {
        assert(v@ =~= fallback_directory());
    }
    v
}

/// Strips the trailing null padding the system-directory query leaves in
/// its fixed-size buffer, keeping everything up to the last non-null unit.
pub fn trim_trailing_nulls(buffer: &Vec<u16>) -> (r: Vec<u16>)
    ensures
        r@ == trimmed(buffer@),
{
    let mut n: usize = buffer.len();
    proof {
        assert(buffer@.subrange(0, n as int) =~= buffer@);
    }
    while n > 0 && buffer[n - 1] == 0
        invariant
            n <= buffer@.len(),
            trimmed_len(buffer@) == trimmed_len(buffer@.subrange(0, n as int)),
        decreases n,
    {
        proof {
            assert(buffer@.subrange(0, n as int).drop_last() =~= buffer@.subrange(0, n - 1));
        }
        n = n - 1;
    }
    proof {
        if n > 0 {
            assert(trimmed_len(buffer@.subrange(0, n as int)) == n);
        }
        assert(trimmed_len(buffer@) == n);
    }
    let mut r: Vec<u16> = Vec::new();
    let mut i: usize = 0;
    while i < n
        invariant
            i <= n,
            n <= buffer@.len(),
            r@ == buffer@.subrange(0, i as int),
        decreases n - i,
    {
        let unit = buffer[i];
        r.push(unit);
        proof {
            assert(buffer@.subrange(0, i as int).push(buffer@[i as int]) =~= buffer@.subrange(
                0,
                i + 1,
            ));
        }
        i = i + 1;
    }
    proof {
        assert(r@ =~= trimmed(buffer@));
    }
    r
}

/// Appends the genuine library's file name, `\dinput8.dll`, to a
/// directory's code units.
fn append_library_file_name(path: &mut Vec<u16>)
    ensures
        final(path)@ == old(path)@ + library_file_name(),
{
    path.push(92);
    path.push(100);
    path.push(105);
    path.push(110);
    path.push(112);
    path.push(117);
    path.push(116);
    path.push(56);
    path.push(46);
    path.push(100);
    path.push(108);
    path.push(108);
    proof {
        assert(path@ =~= old(path)@ + library_file_name());
    }
}

/// Builds the genuine library's full path from the system-directory query's
/// raw buffer and its count of characters written: the fixed fallback
/// directory when the count is zero, the buffer with its trailing null
/// padding stripped otherwise, followed either way by the library's file
/// name.
pub fn resolve_library_path(buffer: &Vec<u16>, written: u32) -> (path: Vec<u16>)
    ensures
        path@ == resolved_path(buffer@, written),
{
    let mut path: Vec<u16> = if written == 0 {
        fallback_directory_units()
    } else {
        trim_trailing_nulls(buffer)
    };
    append_library_file_name(&mut path);
    path
}

} // verus!
