//! Build identity: the update channel, build id, version string and update
//! manifests, from the values that the build sets.
//!
//! Each function takes the raw value that the build environment gave (`None`
//! where the build left it unset).
use vstd::prelude::*;
use vstd::string::*;
use crate::text::{str_eq, trim, trim_str};

verus! {

/// The characters of an optional string slice.
pub open spec fn opt_str_view(o: Option<&str>) -> Option<Seq<char>> {
    match o {
        Some(s) => Some(s@),
        None => None,
    }
}

/// A build value with surrounding whitespace removed, where anything is left.
pub open spec fn spec_non_empty(value: Option<Seq<char>>) -> Option<Seq<char>> {
    match value {
        Some(v) => if trim(v).len() == 0 {
            None
        } else {
            Some(trim(v))
        },
        None => None,
    }
}

/// The override where it is set and not empty, else the default.
pub open spec fn spec_manifest_url(value: Option<Seq<char>>, default: Seq<char>) -> Seq<char> {
    match value {
        Some(url) => if url.len() > 0 {
            url
        } else {
            default
        },
        None => default,
    }
}

/// The build channel: the trimmed value where one is set, `stable` otherwise.
pub open spec fn spec_channel(raw: Option<Seq<char>>) -> Seq<char> {
    match spec_non_empty(raw) {
        Some(c) => c,
        None => "stable"@,
    }
}

/// The version string: the base version on the stable channel; otherwise the
/// base version, a dash and the channel, then a dot and the build id where
/// there is one.
pub open spec fn spec_version(
    base: Seq<char>,
    raw_channel: Option<Seq<char>>,
    raw_build_id: Option<Seq<char>>,
) -> Seq<char> {
    let channel = spec_channel(raw_channel);
    if channel == "stable"@ {
        base
    } else {
        match spec_non_empty(raw_build_id) {
            Some(id) => base + "-"@ + channel + "."@ + id,
            None => base + "-"@ + channel,
        }
    }
}

/// A build value trimmed of surrounding whitespace, or `None` where it is
/// unset or holds only whitespace.
pub fn non_empty<'a>(value: Option<&'a str>) -> (r: Option<&'a str>)
    ensures
        opt_str_view(r) == spec_non_empty(opt_str_view(value)),
{
    match value {
        None => None,
        Some(v) => {
            let trimmed = trim_str(v);
            if trimmed.is_empty() {
                None
            } else {
                Some(trimmed)
            }
        },
    }
}

/// An update manifest URL: the build's override where it is set and not
/// empty, else `default`.
pub fn manifest_url<'a>(value: Option<&'a str>, default: &'a str) -> (r: &'a str)
    ensures
        r@ == spec_manifest_url(opt_str_view(value), default@),
{
    match value {
        Some(url) => if !url.is_empty() {
            url
        } else {
            default
        },
        None => default,
    }
}

/// The update channel that the build fixes, if any; builds that set one
/// ignore the configured channel.
pub fn fixed_update_channel<'a>(raw: Option<&'a str>) -> (r: Option<&'a str>)
    ensures
        opt_str_view(r) == spec_non_empty(opt_str_view(raw)),
{
    non_empty(raw)
}

/// The build channel, `stable` where the build sets none.
pub fn channel<'a>(raw: Option<&'a str>) -> (r: &'a str)
    ensures
        r@ == spec_channel(opt_str_view(raw)),
{
    match non_empty(raw) {
        Some(c) => c,
        None => "stable",
    }
}

/// The build id, if the build sets one.
pub fn build_id<'a>(raw: Option<&'a str>) -> (r: Option<&'a str>)
    ensures
        opt_str_view(r) == spec_non_empty(opt_str_view(raw)),
{
    non_empty(raw)
}

/// The version string of the build whose base version is `base_version`.
pub fn version(base_version: &str, raw_channel: Option<&str>, raw_build_id: Option<&str>) -> (r:
    String)
    ensures
        r@ == spec_version(base_version@, opt_str_view(raw_channel), opt_str_view(raw_build_id)),
{
    let ch = channel(raw_channel);
    if str_eq(ch, "stable") {
        return String::from_str(base_version);
    }
    let mut s = String::from_str(base_version);
    s.append("-");
    s.append(ch);
    match build_id(raw_build_id) {
        Some(id) => {
            s.append(".");
            s.append(id);
        },
        None => {},
    }
    s
}

/// Whether the build is on the preview channel.
pub fn is_preview(raw_channel: Option<&str>) -> (r: bool)
    ensures
        r == (spec_channel(opt_str_view(raw_channel)) == "preview"@),
{
    str_eq(channel(raw_channel), "preview")
}

} // verus!
