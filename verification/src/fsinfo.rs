//! File-listing records.
//!
//! The directory walk hands in one raw find-entry at a time: the entry name
//! as the query reported it (with trailing padding), the attribute bits and
//! the split file size. The record decision — trim, sanitize, skip the two
//! dot entries and empty names, decode the attribute bits and the size — is
//! verified here.

use vstd::prelude::*;

use crate::sanitize::{decode_if_encoded, decode_spec};

verus! {

/// One entry of a directory listing.
pub struct FileInfo {
    pub name: String,
    pub is_dir: bool,
    pub size: u64,
    pub readonly: bool,
    pub hidden: bool,
}

/// The name with its trailing padding characters removed.
pub open spec fn spec_trim_nuls(s: Seq<char>) -> Seq<char>
    decreases s.len(),
{
    if s.len() > 0 && s.last() == '\0' {
        spec_trim_nuls(s.drop_last())
    } else {
        s
    }
}

/// Entries the listing leaves out: the two dot entries and empty names.
pub open spec fn file_entry_skipped(name: Seq<char>) -> bool {
    name == "."@ || name == ".."@ || name.len() == 0
}

/// The 64-bit file size from its two halves.
pub open spec fn spec_file_size(high: u32, low: u32) -> u64 {
    (high * 0x1_0000_0000 + low) as u64
}

/// Field-by-field statement of a listing record.
pub open spec fn file_record_matches(
    raw_name: Seq<char>,
    attributes: u32,
    size_high: u32,
    size_low: u32,
    f: FileInfo,
) -> bool {
    &&& f.name@ == decode_spec(spec_trim_nuls(raw_name))
    &&& f.is_dir == (attributes & 0x10 != 0)
    &&& f.size == spec_file_size(size_high, size_low)
    &&& f.readonly == (attributes & 0x1 != 0)
    &&& f.hidden == (attributes & 0x2 != 0)
}

/// Removes the trailing padding characters a fixed-size name buffer leaves
/// behind.
pub fn trim_trailing_nuls<'a>(s: &'a str) -> (r: &'a str)
    ensures
        r@ == spec_trim_nuls(s@),
{
    let n = s.unicode_len();
    let mut k: usize = n;
    let mut stop = false;
    proof {
        assert(s@.take(n as int) =~= s@);
    }
    while k > 0 && !stop
        invariant
            n == s@.len(),
            k <= n,
            spec_trim_nuls(s@) == spec_trim_nuls(s@.take(k as int)),
            stop ==> k > 0 && s@[k as int - 1] != '\0',
        decreases k + (if stop {
            0int
        } else {
            1int
        }),
    {
        let c = s.get_char(k - 1);
        if c == '\0' {
            proof {
                assert(s@.take(k as int).last() == s@[k as int - 1]);
                assert(s@.take(k as int).drop_last() =~= s@.take(k as int - 1));
            }
            k = k - 1;
        } else {
            stop = true;
        }
    }
    proof {
        if k > 0 {
            assert(s@.take(k as int).last() == s@[k as int - 1]);
        }
        assert(spec_trim_nuls(s@.take(k as int)) == s@.take(k as int));
    }
    s.substring_char(0, k)
}

/// Decides the record for one raw find-entry: trims and sanitizes the name,
/// skips the dot entries and empty names, and decodes attribute bits and the
/// split size.
pub fn file_record_from_find(raw_name: &str, attributes: u32, size_high: u32, size_low: u32) -> (r:
    Option<FileInfo>)
    ensures
        match r {
            Some(f) => !file_entry_skipped(decode_spec(spec_trim_nuls(raw_name@)))
                && file_record_matches(raw_name@, attributes, size_high, size_low, f),
            None => file_entry_skipped(decode_spec(spec_trim_nuls(raw_name@))),
        },
{
    let trimmed = trim_trailing_nuls(raw_name);
    let name = decode_if_encoded(trimmed);
    let dot = String::from_str(".");
    let dotdot = String::from_str("..");
    if name == dot || name == dotdot || name.as_str().unicode_len() == 0 {
        return None;
    }
    let size = (size_high as u64) * 0x1_0000_0000 + (size_low as u64);
    Some(
        FileInfo {
            name,
            is_dir: attributes & 0x10 != 0,
            size,
            readonly: attributes & 0x1 != 0,
            hidden: attributes & 0x2 != 0,
        },
    )
}

} // verus!
