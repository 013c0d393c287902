//! Staging-path construction and source-path inspection.
//!
//! Logo images are staged on the EFI System Partition under the fixed
//! directory `/EFI/Lenovo/Logo/`, with a file name that embeds the
//! descriptor's resolution and the source file's extension:
//! `mylogo_<width>x<height>.<ext>`.

use vstd::prelude::*;
use vstd::string::StrSliceExecFns;
use vstd::string::StringExecFns;

verus! {

/// The decimal digit characters.
pub open spec fn spec_digit_char(d: int) -> char
    recommends
        0 <= d < 10,
{
    if d == 0 {
        '0'
    } else if d == 1 {
        '1'
    } else if d == 2 {
        '2'
    } else if d == 3 {
        '3'
    } else if d == 4 {
        '4'
    } else if d == 5 {
        '5'
    } else if d == 6 {
        '6'
    } else if d == 7 {
        '7'
    } else if d == 8 {
        '8'
    } else {
        '9'
    }
}

/// The decimal rendering of a non-negative integer, without leading
/// zeros (except for zero itself).
pub open spec fn spec_u32_dec(n: int) -> Seq<char>
    recommends
        n >= 0,
    decreases n,
{
    if n < 10 {
        seq![spec_digit_char(n)]
    } else {
        spec_u32_dec(n / 10).push(spec_digit_char(n % 10))
    }
}

/// One decimal digit as a string.
fn digit_str(d: u32) -> (r: &'static str)
    requires
        d < 10,
    ensures
        r@ == seq![spec_digit_char(d as int)],
{
    let r: &'static str = match d {
        0 => "0",
        1 => "1",
        2 => "2",
        3 => "3",
        4 => "4",
        5 => "5",
        6 => "6",
        7 => "7",
        8 => "8",
        _ => "9",
    };
    proof {
        reveal_strlit("0");
        reveal_strlit("1");
        reveal_strlit("2");
        reveal_strlit("3");
        reveal_strlit("4");
        reveal_strlit("5");
        reveal_strlit("6");
        reveal_strlit("7");
        reveal_strlit("8");
        reveal_strlit("9");
        assert(r@ =~= seq![spec_digit_char(d as int)]);
    }
    r
}

/// Renders an integer in decimal.
pub fn u32_to_dec(n: u32) -> (r: String)
    ensures
        r@ == spec_u32_dec(n as int),
    decreases n,
{
    if n < 10 {
        String::from_str(digit_str(n))
    } else {
        let mut s = u32_to_dec(n / 10);
        s.append(digit_str(n % 10));
        proof {
            assert(s@ =~= spec_u32_dec(n as int));
        }
        s
    }
}

/// Position of the last `.` in the file-name part of a path: the scan
/// from the end stops at the first path separator.
pub open spec fn spec_last_dot(s: Seq<char>) -> Option<int>
    decreases s.len(),
{
    if s.len() == 0 {
        None
    } else if s.last() == '.' {
        Some(s.len() - 1)
    } else if s.last() == '/' || s.last() == '\\' {
        None
    } else {
        spec_last_dot(s.drop_last())
    }
}

/// The extension of a path: what follows the last `.` of its file-name
/// part, or nothing when the file name has no dot.
pub open spec fn spec_file_extension(s: Seq<char>) -> Option<Seq<char>> {
    match spec_last_dot(s) {
        None => None,
        Some(p) => Some(s.subrange(p + 1, s.len() as int)),
    }
}

/// Extracts the extension of a source path, as provided, without the
/// dot; `None` when the file name holds no dot.
pub fn file_extension(path: &str) -> (r: Option<String>)
    ensures
        r is Some <==> spec_file_extension(path@) is Some,
        r matches Some(e) ==> spec_file_extension(path@) == Some(e@),
{
    let len = path.unicode_len();
    let mut i: usize = len;
    proof {
        assert(path@.take(len as int) =~= path@);
    }
    while i > 0
        invariant
            i <= len,
            len == path@.len(),
            spec_last_dot(path@) == spec_last_dot(path@.take(i as int)),
        decreases i,
    {
        let c = path.get_char(i - 1);
        proof {
            assert(path@.take(i as int).last() == path@[i - 1]);
            assert(path@.take(i as int).drop_last() =~= path@.take(i - 1));
        }
        if c == '.' {
            let e = path.substring_char(i, len);
            return Some(String::from_str(e));
        }
        if c == '/' || c == '\\' {
            return None;
        }
        i = i - 1;
    }
    proof {
        assert(path@.take(0) =~= Seq::<char>::empty());
    }
    None
}

/// The fixed directory that holds the staged logo on the EFI System
/// Partition.
pub open spec fn spec_logo_dir() -> Seq<char> {
    "/EFI/Lenovo/Logo"@
}

/// Path of the staged-logo directory, relative to the partition root.
pub fn logo_dir_path() -> (r: &'static str)
    ensures
        r@ == spec_logo_dir(),
{
    "/EFI/Lenovo/Logo"
}

/// The staging destination for a logo of the given resolution and source
/// extension.
pub open spec fn spec_logo_dst_path(width: u32, height: u32, ext: Seq<char>) -> Seq<char> {
    "/EFI/Lenovo/Logo/mylogo_"@ + spec_u32_dec(width as int) + "x"@ + spec_u32_dec(height as int)
        + "."@ + ext
}

/// Builds the staging destination path `mylogo_<width>x<height>.<ext>`
/// under the fixed logo directory.
pub fn logo_dst_path(width: u32, height: u32, ext: &str) -> (r: String)
    ensures
        r@ == spec_logo_dst_path(width, height, ext@),
{
    let mut s = String::from_str("/EFI/Lenovo/Logo/mylogo_");
    let w = u32_to_dec(width);
    s.append(w.as_str());
    s.append("x");
    let h = u32_to_dec(height);
    s.append(h.as_str());
    s.append(".");
    s.append(ext);
    s
}

} // verus!
