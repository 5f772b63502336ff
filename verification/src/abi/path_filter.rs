//! The in-kernel path prefix filter that the file probes consult.
use vstd::prelude::*;
use crate::abi::{FILE_FILTER_MAX_PREFIXES, FILE_FILTER_PREFIX_LEN};

verus! {

/// Path prefixes handed to the file probes through a BPF array map.
#[derive(Clone, Copy)]
pub struct FileFilterConfig {
    pub prefix_count: u32,
    pub prefixes: [[u8; FILE_FILTER_PREFIX_LEN]; FILE_FILTER_MAX_PREFIXES],
    pub prefix_lens: [u32; FILE_FILTER_MAX_PREFIXES],
}

impl FileFilterConfig {
    /// Every prefix length fits its prefix buffer.
    pub open spec fn well_formed(&self) -> bool {
        forall|i: int| 0 <= i < FILE_FILTER_MAX_PREFIXES ==> #[trigger] self.prefix_lens@[i]
            <= FILE_FILTER_PREFIX_LEN
    }

    /// A filter with no prefixes, which lets every path through.
    pub fn empty() -> (f: Self)
        ensures
            f.prefix_count == 0,
            f.well_formed(),
            forall|i: int| 0 <= i < FILE_FILTER_MAX_PREFIXES ==> #[trigger] f.prefix_lens@[i] == 0,
    {
        FileFilterConfig {
            prefix_count: 0,
            prefixes: [[0u8; 64]; 8],
            prefix_lens: [0u32; 8],
        }
    }
}

/// Prefix `i` of the filter is a non-empty prefix of the first `len` bytes of `name`.
pub open spec fn prefix_matches(f: FileFilterConfig, name: Seq<u8>, len: int, i: int) -> bool {
    let plen = f.prefix_lens@[i] as int;
    &&& plen > 0
    &&& plen <= len
    &&& name.take(plen) == f.prefixes@[i]@.take(plen)
}

/// The filter lets `name` (of length `len`) through: it holds no prefix, or
/// one of its first `prefix_count` prefixes matches.
pub open spec fn spec_passes_filter(f: FileFilterConfig, name: Seq<u8>, len: int) -> bool {
    f.prefix_count == 0 || exists|i: int|
        0 <= i < FILE_FILTER_MAX_PREFIXES && i < f.prefix_count && #[trigger] prefix_matches(
            f,
            name,
            len,
            i,
        )
}

/// Every prefix the filter compares against `name` fits both its own
/// buffer and `name`: those below `prefix_count` that are non-empty and no
/// longer than `len`.
pub open spec fn reads_in_bounds(f: FileFilterConfig, name: Seq<u8>, len: int) -> bool {
    forall|i: int|
        0 <= i < FILE_FILTER_MAX_PREFIXES && i < f.prefix_count && 0 < #[trigger] f.prefix_lens@[i] <= len
            ==> f.prefix_lens@[i] <= FILE_FILTER_PREFIX_LEN && f.prefix_lens@[i] <= name.len()
}

/// Whether the filename passes the in-kernel prefix filter.
pub fn file_passes_filter(filter: &FileFilterConfig, filename: &[u8], filename_len: u16) -> (r: bool)
    requires
        reads_in_bounds(*filter, filename@, filename_len as int),
    ensures
        r == spec_passes_filter(*filter, filename@, filename_len as int),
{
    if filter.prefix_count == 0 {
        return true;
    }
    let mut i: usize = 0;
    while i < FILE_FILTER_MAX_PREFIXES && (i as u32) < filter.prefix_count
        invariant
            reads_in_bounds(*filter, filename@, filename_len as int),
            i <= FILE_FILTER_MAX_PREFIXES,
            filter.prefix_count != 0,
            forall|k: int| 0 <= k < i && k < filter.prefix_count ==> !#[trigger] prefix_matches(
                *filter,
                filename@,
                filename_len as int,
                k,
            ),
        decreases FILE_FILTER_MAX_PREFIXES - i,
    {
        let prefix_len = filter.prefix_lens[i] as usize;
        if prefix_len != 0 && prefix_len <= filename_len as usize {
            assert(prefix_len <= FILE_FILTER_PREFIX_LEN && prefix_len <= filename@.len());
            let prefix = &filter.prefixes[i];
            let mut j: usize = 0;
            while j < prefix_len && filename[j] == prefix[j]
                invariant
                    prefix_len <= FILE_FILTER_PREFIX_LEN,
                    prefix_len <= filename@.len(),
                    j <= prefix_len,
                    prefix@.len() == FILE_FILTER_PREFIX_LEN,
                    forall|k: int| 0 <= k < j ==> filename@[k] == prefix@[k],
                decreases prefix_len - j,
            {
                j = j + 1;
            }
            if j == prefix_len {
                assert(filename@.take(prefix_len as int) =~= prefix@.take(prefix_len as int));
                assert(prefix_matches(*filter, filename@, filename_len as int, i as int));
                return true;
            }
            assert(filename@.take(prefix_len as int)[j as int] != prefix@.take(
                prefix_len as int,
            )[j as int]);
        }
        i = i + 1;
    }
    false
}

} // verus!
