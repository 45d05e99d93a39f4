//! Directory junctions: the NT form of the junction target and the layout
//! of the mount-point reparse buffer that makes a directory a junction.

use vstd::prelude::*;
use crate::text::{chars_of, push_chars, string_of_range, wide_null, encode_utf16};

verus! {

/// Reparse tag of a mount point (a directory junction).
pub const IO_REPARSE_TAG_MOUNT_POINT: u32 = 0xA0000003u32;

/// Control code that sets a reparse point on a directory.
pub const FSCTL_SET_REPARSE_POINT: u32 = 0x000900A4u32;

/// Number of UTF-16 units the reparse buffer holds for its two names.
pub const PATH_BUFFER_UNITS: usize = 0x3ff0usize;

/// `MAXIMUM_REPARSE_DATA_BUFFER_SIZE` of the Windows SDK bindings in
/// `windows-sys`; their source defines it as 16384.
#[verifier::external_body]
fn maximum_reparse_data_buffer_size() -> (r: u32)
    ensures
        r == 16384,
{
    windows_sys::Win32::Storage::FileSystem::MAXIMUM_REPARSE_DATA_BUFFER_SIZE
}

pub open spec fn starts_with(s: Seq<char>, p: Seq<char>) -> bool {
    s.len() >= p.len() && s.take(p.len() as int) == p
}

pub open spec fn verbatim_prefix() -> Seq<char> {
    seq!['\\', '\\', '?', '\\']
}

pub open spec fn unc_prefix() -> Seq<char> {
    seq!['\\', '\\']
}

pub open spec fn nt_prefix() -> Seq<char> {
    seq!['\\', '?', '?', '\\']
}

pub open spec fn nt_unc_prefix() -> Seq<char> {
    seq!['\\', '?', '?', '\\', 'U', 'N', 'C', '\\']
}

/// `s` without every leading `\\` pair.
pub open spec fn trim_leading_pairs(s: Seq<char>) -> Seq<char>
    decreases s.len(),
{
    if s.len() >= 2 && s[0] == '\\' && s[1] == '\\' {
        trim_leading_pairs(s.skip(2))
    } else {
        s
    }
}

/// The NT-namespace form of a canonical path: a verbatim path has its
/// `\\?\` replaced by `\??\` (so `\\?\UNC\server\...` becomes
/// `\??\UNC\server\...`), UNC paths become `\??\UNC\server\...`, others
/// get `\??\` in front.
pub open spec fn spec_native_target(t: Seq<char>) -> Seq<char> {
    if starts_with(t, verbatim_prefix()) {
        nt_prefix() + t.skip(4)
    } else if starts_with(t, unc_prefix()) {
        nt_unc_prefix() + trim_leading_pairs(t)
    } else {
        nt_prefix() + t
    }
}

fn starts_with_chars(v: &Vec<char>, p: &Vec<char>) -> (r: bool)
    ensures
        r == starts_with(v@, p@),
{
    if v.len() < p.len() {
        return false;
    }
    let mut i: usize = 0;
    while i < p.len()
        invariant
            i <= p@.len() <= v@.len(),
            forall|k: int| 0 <= k < i ==> v@[k] == p@[k],
        decreases p@.len() - i,
    {
        if v[i] != p[i] {
            assert(v@.take(p@.len() as int)[i as int] != p@[i as int]);
            return false;
        }
        i = i + 1;
    }
    assert(v@.take(p@.len() as int) =~= p@);
    true
}

/// Index where `v[from..]` stops starting with `\\` pairs.
fn after_leading_pairs(v: &Vec<char>, from: usize) -> (r: usize)
    requires
        from <= v@.len(),
    ensures
        from <= r <= v@.len(),
        trim_leading_pairs(v@.skip(from as int)) == v@.skip(r as int),
    decreases v@.len() - from,
{
    if v.len() - from >= 2 && v[from] == '\\' && v[from + 1] == '\\' {
        assert(v@.skip(from as int).skip(2) =~= v@.skip(from + 2));
        after_leading_pairs(v, from + 2)
    } else {
        from
    }
}

/// The junction target text for a canonical source path, in the NT
/// namespace.
pub fn native_target_text(canonical: &str) -> (r: String)
    ensures
        r@ == spec_native_target(canonical@),
{
    let v = chars_of(canonical);
    let verbatim = vec!['\\', '\\', '?', '\\'];
    let unc = vec!['\\', '\\'];
    assert(verbatim@ =~= verbatim_prefix());
    assert(unc@ =~= unc_prefix());
    if starts_with_chars(&v, &verbatim) {
        let head = vec!['\\', '?', '?', '\\'];
        let mut out = string_of_range(&head, 0, head.len());
        let rest = string_of_range(&v, 4, v.len());
        let restv = chars_of(rest.as_str());
        push_chars(&mut out, &restv);
        assert(head@.subrange(0, 4) =~= nt_prefix());
        assert(v@.subrange(4, v@.len() as int) =~= v@.skip(4));
        out
    } else if starts_with_chars(&v, &unc) {
        let k = after_leading_pairs(&v, 0);
        let head = vec!['\\', '?', '?', '\\', 'U', 'N', 'C', '\\'];
        let mut out = string_of_range(&head, 0, head.len());
        let rest = string_of_range(&v, k, v.len());
        let restv = chars_of(rest.as_str());
        push_chars(&mut out, &restv);
        assert(v@.skip(0) =~= v@);
        assert(v@.subrange(k as int, v@.len() as int) =~= v@.skip(k as int));
        assert(head@.subrange(0, 8) =~= nt_unc_prefix());
        out
    } else {
        let head = vec!['\\', '?', '?', '\\'];
        let mut out = string_of_range(&head, 0, head.len());
        push_chars(&mut out, &v);
        assert(head@.subrange(0, 4) =~= nt_prefix());
        out
    }
}

/// The junction target for a canonical source path, as a zero-terminated
/// UTF-16 string.
pub fn native_target(canonical: &str) -> (r: Vec<u16>)
    ensures
        r@ == encode_utf16(spec_native_target(canonical@)).push(0u16),
{
    let text = native_target_text(canonical);
    wide_null(text.as_str())
}

/// The header fields and name data of a mount-point reparse buffer.
pub struct MountPointLayout {
    pub reparse_tag: u32,
    pub reparse_data_length: u16,
    pub substitute_name_offset: u16,
    pub substitute_name_length: u16,
    pub print_name_offset: u16,
    pub print_name_length: u16,
    /// The substitute name followed by the print name, each zero-terminated.
    pub path_buffer: Vec<u16>,
    /// Bytes handed to the control call: the 8-byte reparse header plus the data.
    pub total_size: u32,
}

/// The target is too long for a reparse buffer.
#[derive(Debug, Clone, Copy, PartialEq, Eq)]
pub struct JunctionTargetTooLong;

/// Byte length of a zero-terminated name of `units` UTF-16 units, without its terminator.
pub open spec fn name_bytes(units: int) -> int {
    (units - 1) * 2
}

/// Reparse data length for names of `s` and `p` units (terminators included).
pub open spec fn spec_reparse_data_length(s: int, p: int) -> int {
    8 + name_bytes(s) + 2 + name_bytes(p) + 2
}

/// Lays out the reparse buffer for a junction whose NT target is
/// `substitute` and whose displayed target is `print` (both zero-terminated).
/// Fails when the whole buffer would exceed the largest reparse buffer the
/// system accepts (16384 bytes).
pub fn mount_point_layout(substitute: &Vec<u16>, print: &Vec<u16>) -> (r: Result<
    MountPointLayout,
    JunctionTargetTooLong,
>)
    requires
        substitute@.len() >= 1,
        print@.len() >= 1,
        substitute@.len() + print@.len() <= PATH_BUFFER_UNITS,
    ensures
        (r is Ok) == (8 + spec_reparse_data_length(substitute@.len() as int, print@.len() as int)
            <= 16384),
        r matches Ok(l) ==> {
            &&& l.reparse_tag == IO_REPARSE_TAG_MOUNT_POINT
            &&& l.substitute_name_offset == 0
            &&& l.substitute_name_length == name_bytes(substitute@.len() as int)
            &&& l.print_name_offset == name_bytes(substitute@.len() as int) + 2
            &&& l.print_name_length == name_bytes(print@.len() as int)
            &&& l.reparse_data_length == spec_reparse_data_length(
                substitute@.len() as int,
                print@.len() as int,
            )
            &&& l.total_size == 8 + l.reparse_data_length
            &&& l.path_buffer@ == substitute@ + print@
        },
{
    let substitute_name_length = ((substitute.len() - 1) * 2) as u16;
    let print_name_offset = substitute_name_length + 2;
    let print_name_length = ((print.len() - 1) * 2) as u16;
    let mut path_buffer: Vec<u16> = Vec::new();
    let mut i: usize = 0;
    while i < substitute.len()
        invariant
            i <= substitute@.len(),
            path_buffer@ == substitute@.take(i as int),
        decreases substitute@.len() - i,
    {
        path_buffer.push(substitute[i]);
        assert(substitute@.take(i + 1) =~= substitute@.take(i as int).push(substitute@[i as int]));
        i = i + 1;
    }
    let mut j: usize = 0;
    while j < print.len()
        invariant
            i == substitute@.len(),
            j <= print@.len(),
            path_buffer@ == substitute@ + print@.take(j as int),
        decreases print@.len() - j,
    {
        path_buffer.push(print[j]);
        assert(print@.take(j + 1) =~= print@.take(j as int).push(print@[j as int]));
        j = j + 1;
    }
    assert(substitute@.take(substitute@.len() as int) =~= substitute@);
    assert(print@.take(print@.len() as int) =~= print@);
    let reparse_data_length: u16 = 8 + substitute_name_length + 2 + print_name_length + 2;
    let total_size: u32 = 8 + reparse_data_length as u32;
    if total_size > maximum_reparse_data_buffer_size() {
        return Err(JunctionTargetTooLong);
    }
    Ok(MountPointLayout {
        reparse_tag: IO_REPARSE_TAG_MOUNT_POINT,
        reparse_data_length,
        substitute_name_offset: 0,
        substitute_name_length,
        print_name_offset,
        print_name_length,
        path_buffer,
        total_size,
    })
}

} // verus!
