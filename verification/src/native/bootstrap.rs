//! Negotiating the native function table: which caller tables are accepted,
//! and which part of the caller's table the library clears and fills, so the
//! library never writes past the caller's declared size nor a field cut by it.
use vstd::prelude::*;

use crate::native::abi::{ABI_MAJOR, API_INPUT_SIZE, API_PREFIX_SIZE, STATUS_ABI_MISMATCH, STATUS_OK};

verus! {

/// The caller's declared table size when the table is acceptable: it covers
/// the fixed prefix, fits `isize::MAX` and the address space from `address`,
/// and the caller asked for this major version.
pub open spec fn accepted_size(address: usize, caller_size: u32, requested_major: u32) -> Option<usize> {
    if caller_size <= isize::MAX && caller_size >= API_PREFIX_SIZE && requested_major == ABI_MAJOR
        && address + caller_size <= usize::MAX {
        Some(caller_size as usize)
    } else {
        None
    }
}

/// Checks the bootstrap prefix the caller wrote at `address` (whose pointer was
/// already checked): its declared size and requested major version.
pub fn bootstrap_caller_size(address: usize, caller_size: u32, requested_major: u32) -> (size: Option<usize>)
    ensures
        size == accepted_size(address, caller_size, requested_major),
{
    if caller_size as u64 > isize::MAX as u64 {
        return None;
    }
    let size = caller_size as usize;
    if size < API_PREFIX_SIZE || requested_major != ABI_MAJOR || address > usize::MAX - size {
        return None;
    }
    Some(size)
}

/// What the library writes into an accepted caller table.
#[derive(Debug)]
pub struct InstallPlan {
    /// The first byte cleared: everything after the permanent input prefix.
    pub clear_from: usize,
    /// The number of bytes cleared: up to the smaller of the two tables.
    pub clear_len: usize,
    /// For each field of the library's table (by offset and size), whether
    /// it is copied: only a field both tables cover completely.
    pub installed: Vec<bool>,
}

/// The smaller of two sizes.
pub open spec fn min_size(a: usize, b: usize) -> usize {
    if a <= b {
        a
    } else {
        b
    }
}

/// Plans installing a table of `table_size` bytes, whose fields lie at the
/// given offsets with the given sizes, into a caller table of `caller_size`
/// bytes.
pub fn install_plan(fields: &Vec<(usize, usize)>, caller_size: usize, table_size: usize) -> (plan: InstallPlan)
    requires
        caller_size >= API_PREFIX_SIZE,
        table_size >= API_PREFIX_SIZE,
    ensures
        plan.clear_from == API_INPUT_SIZE,
        plan.clear_len == min_size(caller_size, table_size) - API_INPUT_SIZE,
        plan.installed@.len() == fields@.len(),
        plan.clear_from + plan.clear_len <= caller_size,
        forall|i: int|
            0 <= i < fields@.len() && #[trigger] plan.installed@[i] ==> fields@[i].0 + fields@[i].1
                <= caller_size,
        forall|i: int|
            0 <= i < fields@.len() ==> #[trigger] plan.installed@[i] == (fields@[i].0 + fields@[i].1
                <= min_size(caller_size, table_size)),
{
    let limit = if caller_size <= table_size {
        caller_size
    } else {
        table_size
    };
    let mut installed: Vec<bool> = Vec::new();
    let mut i: usize = 0;
    while i < fields.len()
        invariant
            i <= fields@.len(),
            limit == min_size(caller_size, table_size),
            installed@.len() == i,
            forall|j: int|
                0 <= j < i ==> #[trigger] installed@[j] == (fields@[j].0 + fields@[j].1 <= limit),
        decreases fields@.len() - i,
    {
        let (offset, size) = fields[i];
        installed.push(offset <= limit && size <= limit - offset);
        i = i + 1;
    }
    InstallPlan { clear_from: API_INPUT_SIZE, clear_len: limit - API_INPUT_SIZE, installed }
}

/// Whether a field (its offset and staged bytes) lies wholly below `limit`.
pub open spec fn field_fits(field: (usize, Vec<u8>), limit: int) -> bool {
    field.0 + field.1@.len() <= limit
}

/// Whether byte `k` lies in one of the first `n` fields that fit below
/// `limit`.
pub open spec fn covered_upto(fields: Seq<(usize, Vec<u8>)>, n: int, limit: int, k: int) -> bool {
    exists|i: int|
        #![trigger fields[i]]
        0 <= i < n && field_fits(fields[i], limit) && fields[i].0 <= k < fields[i].0 + fields[i].1@.len()
}

/// Whether the fields lie after the input prefix, within a table of
/// `table_size` bytes, and do not overlap.
pub open spec fn fields_laid_out(fields: Seq<(usize, Vec<u8>)>, table_size: int) -> bool {
    &&& forall|i: int|
        #![trigger fields[i]]
        0 <= i < fields.len() ==> API_INPUT_SIZE <= fields[i].0 && fields[i].0 + fields[i].1@.len() <= table_size
    &&& forall|i: int, j: int|
        #![trigger fields[i], fields[j]]
        0 <= i < j < fields.len() ==> fields[i].0 + fields[i].1@.len() <= fields[j].0 || fields[j].0
            + fields[j].1@.len() <= fields[i].0
}

/// Installs the library's table into a copy of the caller's table (its first
/// `caller_size` bytes): the input prefix and every byte from the smaller of
/// the two table sizes on are left as they were; every field that lies
/// wholly below that limit holds its staged bytes; every other byte in
/// between, a field cut by the limit included, is zero.
pub fn install_table(table: &mut Vec<u8>, fields: &Vec<(usize, Vec<u8>)>, table_size: usize)
    requires
        old(table)@.len() >= API_PREFIX_SIZE,
        table_size >= API_PREFIX_SIZE,
        fields_laid_out(fields@, table_size as int),
    ensures
        final(table)@.len() == old(table)@.len(),
        forall|k: int| 0 <= k < API_INPUT_SIZE ==> #[trigger] final(table)@[k] == old(table)@[k],
        forall|k: int|
            min_size(old(table)@.len() as usize, table_size) <= k < old(table)@.len()
                ==> #[trigger] final(table)@[k] == old(table)@[k],
        forall|i: int, b: int|
            0 <= i < fields@.len() && field_fits(fields@[i], min_size(old(table)@.len() as usize, table_size) as int)
                && 0 <= b < fields@[i].1@.len() ==> #[trigger] final(table)@[fields@[i].0 + b]
                == #[trigger] fields@[i].1@[b],
        forall|k: int|
            API_INPUT_SIZE <= k < min_size(old(table)@.len() as usize, table_size) && !covered_upto(
                fields@,
                fields@.len() as int,
                min_size(old(table)@.len() as usize, table_size) as int,
                k,
            ) ==> #[trigger] final(table)@[k] == 0,
{
    let limit = if table.len() <= table_size {
        table.len()
    } else {
        table_size
    };
    let ghost initial = table@;
    let mut k: usize = API_INPUT_SIZE;
    while k < limit
        invariant
            API_INPUT_SIZE <= k <= limit,
            limit == min_size(initial.len() as usize, table_size),
            limit <= initial.len(),
            table@.len() == initial.len(),
            forall|j: int| (0 <= j < API_INPUT_SIZE || limit <= j < initial.len()) ==> #[trigger] table@[j] == initial[j],
            forall|j: int| API_INPUT_SIZE <= j < k ==> #[trigger] table@[j] == 0,
        decreases limit - k,
    {
        table.set(k, 0);
        k = k + 1;
    }
    let mut i: usize = 0;
    while i < fields.len()
        invariant
            i <= fields@.len(),
            limit == min_size(initial.len() as usize, table_size),
            limit <= initial.len(),
            table_size >= API_PREFIX_SIZE,
            fields_laid_out(fields@, table_size as int),
            table@.len() == initial.len(),
            forall|j: int| (0 <= j < API_INPUT_SIZE || limit <= j < initial.len()) ==> #[trigger] table@[j] == initial[j],
            forall|i2: int, b: int|
                0 <= i2 < i && field_fits(fields@[i2], limit as int) && 0 <= b < fields@[i2].1@.len()
                    ==> #[trigger] table@[fields@[i2].0 + b] == #[trigger] fields@[i2].1@[b],
            forall|j: int|
                API_INPUT_SIZE <= j < limit && !covered_upto(fields@, i as int, limit as int, j) ==> #[trigger] table@[j] == 0,
        decreases fields@.len() - i,
    {
        let offset = fields[i].0;
        let bytes = &fields[i].1;
        assert(fields@[i as int] == fields@[i as int]);
        if offset <= limit && bytes.len() <= limit - offset {
            let ghost before = table@;
            let mut b: usize = 0;
            while b < bytes.len()
                invariant
                    b <= bytes@.len(),
                    offset + bytes@.len() <= limit,
                    limit <= initial.len(),
                    table@.len() == before.len(),
                    before.len() == initial.len(),
                    forall|j: int| !(offset <= j < offset + b) && 0 <= j < before.len() ==> #[trigger] table@[j] == before[j],
                    forall|b2: int| 0 <= b2 < b ==> #[trigger] table@[offset + b2] == bytes@[b2],
                decreases bytes@.len() - b,
            {
                table.set(offset + b, bytes[b]);
                b = b + 1;
            }
            proof {
                assert forall|i2: int, c: int|
                    0 <= i2 < i + 1 && field_fits(fields@[i2], limit as int) && 0 <= c < fields@[i2].1@.len()
                    implies #[trigger] table@[fields@[i2].0 + c] == #[trigger] fields@[i2].1@[c] by {
                    if i2 < i {
                        assert(fields@[i2].0 + fields@[i2].1@.len() <= fields@[i as int].0 || fields@[i as int].0
                            + fields@[i as int].1@.len() <= fields@[i2].0);
                        assert(before[fields@[i2].0 + c] == fields@[i2].1@[c]);
                    } else {
                        assert(table@[offset + c] == bytes@[c]);
                    }
                }
                assert forall|j: int|
                    API_INPUT_SIZE <= j < limit && !covered_upto(fields@, i + 1, limit as int, j) implies #[trigger] table@[j] == 0 by {
                    if covered_upto(fields@, i as int, limit as int, j) {
                        let w = choose|w: int|
                            #![trigger fields@[w]]
                            0 <= w < i && field_fits(fields@[w], limit as int) && fields@[w].0 <= j < fields@[w].0 + fields@[w].1@.len();
                        assert(fields@[w] == fields@[w]);
                    }
                    if offset <= j < offset + bytes@.len() {
                        assert(fields@[i as int] == fields@[i as int]);
                    }
                    assert(before[j] == 0);
                }
            }
        } else {
            proof {
                assert forall|j: int|
                    API_INPUT_SIZE <= j < limit && !covered_upto(fields@, i + 1, limit as int, j) implies #[trigger] table@[j] == 0 by {
                    if covered_upto(fields@, i as int, limit as int, j) {
                        let w = choose|w: int|
                            #![trigger fields@[w]]
                            0 <= w < i && field_fits(fields@[w], limit as int) && fields@[w].0 <= j < fields@[w].0 + fields@[w].1@.len();
                        assert(fields@[w] == fields@[w]);
                    }
                }
            }
        }
        i = i + 1;
    }
}

/// Whether `after` is the caller's table `before` with the library's table
/// of `table_size` bytes installed (see [`install_table`]).
pub open spec fn table_installed(
    before: Seq<u8>,
    after: Seq<u8>,
    fields: Seq<(usize, Vec<u8>)>,
    table_size: usize,
) -> bool {
    let limit = min_size(before.len() as usize, table_size);
    &&& after.len() == before.len()
    &&& forall|k: int| 0 <= k < API_INPUT_SIZE ==> #[trigger] after[k] == before[k]
    &&& forall|k: int| limit <= k < before.len() ==> #[trigger] after[k] == before[k]
    &&& forall|i: int, b: int|
        0 <= i < fields.len() && field_fits(fields[i], limit as int) && 0 <= b < fields[i].1@.len()
            ==> #[trigger] after[fields[i].0 + b] == #[trigger] fields[i].1@[b]
    &&& forall|k: int|
        API_INPUT_SIZE <= k < limit && !covered_upto(fields, fields.len() as int, limit as int, k)
            ==> #[trigger] after[k] == 0
}

/// Answers a caller's request for the function table, given the caller's
/// table as far as it may be read (all `caller_size` bytes when the request
/// is acceptable): an unacceptable size or major version is an ABI mismatch
/// that changes nothing; otherwise the table is installed (see
/// [`install_table`]) and the answer is `STATUS_OK`.
pub fn negotiate_api(
    address: usize,
    caller_size: u32,
    requested_major: u32,
    table: &mut Vec<u8>,
    fields: &Vec<(usize, Vec<u8>)>,
    table_size: usize,
) -> (status: u32)
    requires
        old(table)@.len() >= API_PREFIX_SIZE,
        accepted_size(address, caller_size, requested_major) matches Some(n) ==> old(table)@.len() == n,
        table_size >= API_PREFIX_SIZE,
        fields_laid_out(fields@, table_size as int),
    ensures
        match accepted_size(address, caller_size, requested_major) {
            None => status == STATUS_ABI_MISMATCH && final(table)@ == old(table)@,
            Some(_) => status == STATUS_OK && table_installed(old(table)@, final(table)@, fields@, table_size),
        },
{
    match bootstrap_caller_size(address, caller_size, requested_major) {
        None => STATUS_ABI_MISMATCH,
        Some(_) => {
            install_table(table, fields, table_size);
            STATUS_OK
        },
    }
}

/// Checks that fields lie after the input prefix, within a table of
/// `table_size` bytes, and do not overlap.
pub fn check_fields_laid_out(fields: &Vec<(usize, Vec<u8>)>, table_size: usize) -> (ok: bool)
    ensures
        ok == fields_laid_out(fields@, table_size as int),
{
    let mut i: usize = 0;
    while i < fields.len()
        invariant
            i <= fields@.len(),
            forall|a: int|
                #![trigger fields@[a]]
                0 <= a < i ==> API_INPUT_SIZE <= fields@[a].0 && fields@[a].0 + fields@[a].1@.len() <= table_size,
            forall|a: int, c: int|
                #![trigger fields@[a], fields@[c]]
                0 <= a < c < i ==> fields@[a].0 + fields@[a].1@.len() <= fields@[c].0 || fields@[c].0
                    + fields@[c].1@.len() <= fields@[a].0,
        decreases fields@.len() - i,
    {
        let offset = fields[i].0;
        let length = fields[i].1.len();
        if offset < API_INPUT_SIZE || offset > table_size || length > table_size - offset {
            assert(fields@[i as int] == fields@[i as int]);
            return false;
        }
        let mut j: usize = 0;
        while j < i
            invariant
                j <= i < fields@.len(),
                offset == fields@[i as int].0,
                length == fields@[i as int].1@.len(),
                offset + length <= table_size,
                forall|c: int|
                    #![trigger fields@[c]]
                    0 <= c < j ==> fields@[c].0 + fields@[c].1@.len() <= offset || offset + length <= fields@[c].0,
            decreases i - j,
        {
            let other = fields[j].0;
            let other_length = fields[j].1.len();
            let apart = (other <= offset && other_length <= offset - other) || offset + length <= other;
            if !apart {
                assert(fields@[j as int] == fields@[j as int]);
                assert(fields@[i as int] == fields@[i as int]);
                return false;
            }
            j = j + 1;
        }
        i = i + 1;
    }
    true
}

} // verus!
