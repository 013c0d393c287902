//! Firmware variable names and the Linux discovery fallback.
//!
//! The two records are looked up under fixed GUID-qualified names.  Some
//! Linux kernel builds expose them under a different qualified name, so
//! when the canonical name is absent the variable namespace is scanned
//! for the first entry whose name starts, case-insensitively, with the
//! vendor tag; scan order is directory enumeration order and the first
//! match wins.

use vstd::prelude::*;
use vstd::string::StrSliceExecFns;

verus! {

/// Canonical name of the device-descriptor variable.
pub open spec fn spec_lbldesp_var_name() -> Seq<char> {
    "LBLDESP-871455D0-5576-4FB8-9865-AF0824463B9E"@
}

/// The canonical GUID-qualified name of the device-descriptor variable.
pub fn lbldesp_var_name() -> (r: &'static str)
    ensures
        r@ == spec_lbldesp_var_name(),
{
    "LBLDESP-871455D0-5576-4FB8-9865-AF0824463B9E"
}

/// Canonical name of the device-check variable.
pub open spec fn spec_lbldvc_var_name() -> Seq<char> {
    "LBLDVC-871455D1-5576-4FB8-9865-AF0824463C9F"@
}

/// The canonical GUID-qualified name of the device-check variable.
pub fn lbldvc_var_name() -> (r: &'static str)
    ensures
        r@ == spec_lbldvc_var_name(),
{
    "LBLDVC-871455D1-5576-4FB8-9865-AF0824463C9F"
}

/// Vendor tag of the descriptor variable, for the scan fallback.
pub open spec fn spec_lbldesp_tag() -> Seq<char> {
    "LBLDESP"@
}

/// The descriptor variable's vendor tag.
pub fn lbldesp_tag() -> (r: &'static str)
    ensures
        r@ == spec_lbldesp_tag(),
{
    "LBLDESP"
}

/// Vendor tag of the check variable, for the scan fallback.
pub open spec fn spec_lbldvc_tag() -> Seq<char> {
    "LBLDVC"@
}

/// The check variable's vendor tag.
pub fn lbldvc_tag() -> (r: &'static str)
    ensures
        r@ == spec_lbldvc_tag(),
{
    "LBLDVC"
}

/// The canonical names and the vendor tags are not empty; a name that
/// matches a tag is not empty either.
pub proof fn lemma_var_names_nonempty()
    ensures
        spec_lbldesp_var_name().len() > 0,
        spec_lbldvc_var_name().len() > 0,
        spec_lbldesp_tag().len() == 7,
        spec_lbldvc_tag().len() == 6,
{
    reveal_strlit("LBLDESP-871455D0-5576-4FB8-9865-AF0824463B9E");
    reveal_strlit("LBLDVC-871455D1-5576-4FB8-9865-AF0824463C9F");
    reveal_strlit("LBLDESP");
    reveal_strlit("LBLDVC");
}

/// ASCII-case-insensitive character equality: the characters are equal,
/// or they are the same ASCII letter in different cases.
pub open spec fn spec_eq_ignore_ascii_case(a: char, b: char) -> bool {
    a == b || (97 <= a as u32 <= 122 && a as u32 - 32 == b as u32) || (97 <= b as u32 <= 122
        && b as u32 - 32 == a as u32)
}

/// A name matches a tag when it is at least as long and agrees with it
/// character by character up to ASCII case.
pub open spec fn spec_matches_tag(name: Seq<char>, tag: Seq<char>) -> bool {
    name.len() >= tag.len() && forall|i: int|
        0 <= i < tag.len() ==> spec_eq_ignore_ascii_case(name[i], tag[i])
}

/// Tests whether a variable name starts with the vendor tag, ignoring
/// ASCII case, as the namespace scan does.
pub fn name_matches_tag(name: &str, tag: &str) -> (r: bool)
    ensures
        r == spec_matches_tag(name@, tag@),
{
    let name_len = name.unicode_len();
    let tag_len = tag.unicode_len();
    if name_len < tag_len {
        return false;
    }
    let mut i: usize = 0;
    while i < tag_len
        invariant
            i <= tag_len,
            tag_len == tag@.len(),
            name@.len() >= tag@.len(),
            forall|j: int| 0 <= j < i ==> spec_eq_ignore_ascii_case(name@[j], tag@[j]),
        decreases tag_len - i,
    {
        let a = name.get_char(i);
        let b = tag.get_char(i);
        let au = a as u32;
        let bu = b as u32;
        let same = a == b || (97 <= au && au <= 122 && au - 32 == bu) || (97 <= bu && bu <= 122
            && bu - 32 == au);
        if !same {
            return false;
        }
        i = i + 1;
    }
    true
}

/// There is a name in the list that matches the tag.
pub open spec fn spec_has_match(names: Seq<String>, tag: Seq<char>) -> bool {
    exists|i: int| 0 <= i < names.len() && spec_matches_tag(names[i]@, tag)
}

/// Index `i` holds the first name in enumeration order that matches the
/// tag.
pub open spec fn spec_is_first_match(names: Seq<String>, tag: Seq<char>, i: int) -> bool {
    &&& 0 <= i < names.len()
    &&& spec_matches_tag(names[i]@, tag)
    &&& forall|j: int| 0 <= j < i ==> !spec_matches_tag(names[j]@, tag)
}

/// Finds the first name matching the tag, in enumeration order.
pub fn find_first_match(names: &Vec<String>, tag: &str) -> (r: Option<usize>)
    ensures
        r is Some <==> spec_has_match(names@, tag@),
        r matches Some(i) ==> spec_is_first_match(names@, tag@, i as int),
{
    let mut i: usize = 0;
    while i < names.len()
        invariant
            i <= names@.len(),
            forall|j: int| 0 <= j < i ==> !spec_matches_tag(names@[j]@, tag@),
        decreases names@.len() - i,
    {
        if name_matches_tag(names[i].as_str(), tag) {
            return Some(i);
        }
        i = i + 1;
    }
    None
}

/// Scans the variable namespace for the first name carrying the check
/// variable's tag (or any tag handed in) and adopts it.
pub fn find_lenovo_var(names: &Vec<String>, tag: &str) -> (r: Option<String>)
    ensures
        r is Some <==> spec_has_match(names@, tag@),
        r matches Some(n) ==> exists|i: int|
            spec_is_first_match(names@, tag@, i) && n@ == names@[i]@,
{
    match find_first_match(names, tag) {
        Some(i) => Some(names[i].clone()),
        None => None,
    }
}

/// Scans the variable namespace once for both records: the first name
/// matching the descriptor tag and the first name matching the check
/// tag.  Both must be present for the fallback to apply.
pub fn find_lenovo_vars(names: &Vec<String>) -> (r: Option<(String, String)>)
    ensures
        r is Some <==> (spec_has_match(names@, spec_lbldesp_tag()) && spec_has_match(
            names@,
            spec_lbldvc_tag(),
        )),
        r matches Some(p) ==> (exists|i: int|
            spec_is_first_match(names@, spec_lbldesp_tag(), i) && p.0@ == names@[i]@)
            && (exists|j: int|
            spec_is_first_match(names@, spec_lbldvc_tag(), j) && p.1@ == names@[j]@),
{
    let desp = find_lenovo_var(names, lbldesp_tag());
    let dvc = find_lenovo_var(names, lbldvc_tag());
    match (desp, dvc) {
        (Some(d), Some(v)) => Some((d, v)),
        _ => None,
    }
}

} // verus!
