//! One directory entry as the browser shows it: plain values describing the
//! file, plus the formatted columns derived from them.

use vstd::prelude::*;
use vstd::string::StringExecFns;
use crate::text::{push_decimal_padded, spec_decimal_padded};

verus! {

pub const KIB: u64 = 1024;

pub const MIB: u64 = 1024 * 1024;

pub const GIB: u64 = 1024 * 1024 * 1024;

pub const TIB: u64 = 1024 * 1024 * 1024 * 1024;

pub const PIB: u64 = 1024 * 1024 * 1024 * 1024 * 1024;

/// A size in bytes as its table column shows it: the amount in the largest
/// unit the size exceeds, right-aligned to three characters, with the unit.
pub open spec fn spec_pretty_size(size: int) -> Seq<char> {
    if size > PIB {
        spec_decimal_padded(size / PIB as int, 3) + " PiB"@
    } else if size > TIB {
        spec_decimal_padded(size / TIB as int, 3) + " TiB"@
    } else if size > GIB {
        spec_decimal_padded(size / GIB as int, 3) + " GiB"@
    } else if size > MIB {
        spec_decimal_padded(size / MIB as int, 3) + " MiB"@
    } else if size > KIB {
        spec_decimal_padded(size / KIB as int, 3) + " KiB"@
    } else {
        spec_decimal_padded(size, 3) + " B"@
    }
}

/// What the browser knows of one directory entry, all as plain values: the
/// collaborator that lists directories fills these in.
#[derive(Clone, Debug)]
pub struct FileInfo {
    pub name: String,
    pub path_abs: String,
    pub is_dir: bool,
    pub permission_bits: u32,
    pub read_only: bool,
    /// Seconds since the Unix epoch of the last modification.
    pub modified_secs: i64,
    pub size_bytes: u64,
}

impl FileInfo {
    pub fn new(
        name: String,
        path_abs: String,
        is_dir: bool,
        permission_bits: u32,
        read_only: bool,
        modified_secs: i64,
        size_bytes: u64,
    ) -> (r: FileInfo)
        ensures
            r.name == name,
            r.path_abs == path_abs,
            r.is_dir == is_dir,
            r.permission_bits == permission_bits,
            r.read_only == read_only,
            r.modified_secs == modified_secs,
            r.size_bytes == size_bytes,
    {
        FileInfo { name, path_abs, is_dir, permission_bits, read_only, modified_secs, size_bytes }
    }

    pub fn path_str(&self) -> (r: &str)
        ensures
            r@ == self.path_abs@,
    {
        self.path_abs.as_str()
    }

    pub fn mode(&self) -> (r: u32)
        ensures
            r == self.permission_bits,
    {
        self.permission_bits
    }

    pub fn is_dir(&self) -> (r: bool)
        ensures
            r == self.is_dir,
    {
        self.is_dir
    }

    pub fn is_read_only(&self) -> (r: bool)
        ensures
            r == self.read_only,
    {
        self.read_only
    }

    pub fn name(&self) -> (r: &str)
        ensures
            r@ == self.name@,
    {
        self.name.as_str()
    }

    /// Seconds since the Unix epoch of the last modification.
    pub fn last_modified(&self) -> (r: i64)
        ensures
            r == self.modified_secs,
    {
        self.modified_secs
    }

    /// Returns the size with a unit, e.g. ` 10 KiB`.
    pub fn pretty_size(&self) -> (r: String)
        ensures
            r@ == spec_pretty_size(self.size_bytes as int),
    {
        let mut s = String::new();
        if self.size_bytes > PIB {
            push_decimal_padded(&mut s, self.size_bytes / PIB, 3);
            s.append(" PiB");
        } else if self.size_bytes > TIB {
            push_decimal_padded(&mut s, self.size_bytes / TIB, 3);
            s.append(" TiB");
        } else if self.size_bytes > GIB {
            push_decimal_padded(&mut s, self.size_bytes / GIB, 3);
            s.append(" GiB");
        } else if self.size_bytes > MIB {
            push_decimal_padded(&mut s, self.size_bytes / MIB, 3);
            s.append(" MiB");
        } else if self.size_bytes > KIB {
            push_decimal_padded(&mut s, self.size_bytes / KIB, 3);
            s.append(" KiB");
        } else {
            push_decimal_padded(&mut s, self.size_bytes, 3);
            s.append(" B");
        }
        proof {
            assert(s@ =~= spec_pretty_size(self.size_bytes as int));
        }
        s
    }
}

/// Relies on chrono's `DateTime::from_timestamp`, `with_timezone` and
/// `format`: renders the moment `secs` seconds after the Unix epoch as
/// `"%e %b %y"` (day, month name, two-digit year) in the machine's local
/// time zone. The result depends on that time zone, so nothing is stated of
/// it; out-of-range seconds fall back to the epoch itself.
#[verifier::external_body]
pub(crate) fn modified_label(secs: i64) -> String {
    let utc = chrono::DateTime::from_timestamp(secs, 0).unwrap_or_default();
    utc.with_timezone(&chrono::Local).format("%e %b %y").to_string()
}

} // verus!
