//! IPS patch codec.
//!
//! An IPS patch is a sparse difference between two files of one size:
//!
//! ```text
//! [5 bytes]   ASCII "PATCH"
//!
//! record (repeats):
//!   [3 bytes]   offset, big-endian; the bytes "EOF" end the patch instead
//!   [2 bytes]   length, big-endian
//!     length > 0:   [length bytes]  data
//!     length == 0:  [2 bytes] run length, big-endian, then [1 byte] fill byte
//!
//! [3 bytes]   ASCII "EOF"
//! ```
//!
//! [`encode`] writes plain records only; [`apply`] reads both kinds. Applying the encoded
//! difference gives back the new file, see [`lemma_round_trip`].
use vstd::prelude::*;
use vstd::string::StringExecFns;

use crate::mem::slice_copy;
use crate::text::{decimal, push_decimal};

verus! {

/// Largest offset that three bytes can hold.
pub const MAX_OFFSET: u32 = 0x00FF_FFFF;

/// Longest record that a two-byte length can describe.
pub const MAX_RECORD_LEN: usize = 0xFFFF;

/// The one offset whose three bytes spell the terminator.
pub const EOF_OFFSET: u32 = 0x0045_4F46;

#[derive(Debug, Clone, Copy, PartialEq, Eq, Structural)]
pub enum IpsError {
    /// The patch does not start with "PATCH", or is too short to.
    BadMagic,
    /// A record ends past the file, or would start at an offset that cannot be written.
    OffsetTooLarge(u32),
    /// The patch ends inside a record.
    Truncated,
    /// The file has bytes that no offset reaches.
    FileTooLarge(usize),
}

impl IpsError {
    /// The message as characters.
    pub open spec fn text(self) -> Seq<char> {
        match self {
            IpsError::BadMagic => "IPS patch missing 'PATCH' magic"@,
            IpsError::OffsetTooLarge(o) => "IPS patch offset "@ + decimal(o as nat)
                + " exceeds 24-bit maximum"@,
            IpsError::Truncated => "IPS patch truncated mid-record"@,
            IpsError::FileTooLarge(n) => "target file is "@ + decimal(n as nat)
                + " bytes; IPS supports at most "@ + decimal(0x100_0000) + " bytes"@,
        }
    }

    /// A message for the user.
    pub fn message(&self) -> (text: String)
        ensures
            text@ == self.text(),
    {
        let mut text: String = String::new();
        match self {
            IpsError::BadMagic => text.append("IPS patch missing 'PATCH' magic"),
            IpsError::OffsetTooLarge(o) => {
                text.append("IPS patch offset ");
                push_decimal(&mut text, *o as usize);
                text.append(" exceeds 24-bit maximum");
            }
            IpsError::Truncated => text.append("IPS patch truncated mid-record"),
            IpsError::FileTooLarge(n) => {
                text.append("target file is ");
                push_decimal(&mut text, *n);
                text.append(" bytes; IPS supports at most ");
                push_decimal(&mut text, MAX_OFFSET as usize + 1);
                text.append(" bytes");
            }
        }
        assert(text@ =~= self.text());
        text
    }
}

/// ASCII "PATCH".
pub open spec fn magic() -> Seq<u8> {
    seq![0x50u8, 0x41, 0x54, 0x43, 0x48]
}

/// ASCII "EOF".
pub open spec fn eof_marker() -> Seq<u8> {
    seq![0x45u8, 0x4F, 0x46]
}

/// `n` as two bytes, most significant first.
pub open spec fn be16_bytes(n: int) -> Seq<u8> {
    seq![(n / 0x100) as u8, (n % 0x100) as u8]
}

/// `n` as three bytes, most significant first.
pub open spec fn be24_bytes(n: int) -> Seq<u8> {
    seq![(n / 0x1_0000) as u8, (n / 0x100 % 0x100) as u8, (n % 0x100) as u8]
}

/// The number that the two bytes at `at` spell.
pub open spec fn be16(p: Seq<u8>, at: int) -> int {
    p[at] * 0x100 + p[at + 1]
}

/// The number that the three bytes at `at` spell.
pub open spec fn be24(p: Seq<u8>, at: int) -> int {
    p[at] * 0x1_0000 + p[at + 1] * 0x100 + p[at + 2]
}

/// `file` with `data` laid over it from `offset` on.
pub open spec fn overlaid(file: Seq<u8>, offset: int, data: Seq<u8>) -> Seq<u8> {
    Seq::new(
        file.len(),
        |i: int| if offset <= i < offset + data.len() { data[i - offset] } else { file[i] },
    )
}

/// `file` after the records that `p` starts with, up to the terminator.
pub open spec fn patched(file: Seq<u8>, p: Seq<u8>) -> Result<Seq<u8>, IpsError>
    decreases p.len(),
{
    if p.len() < 3 {
        Err(IpsError::Truncated)
    } else if p.take(3) == eof_marker() {
        Ok(file)
    } else if p.len() < 5 {
        Err(IpsError::Truncated)
    } else {
        let offset = be24(p, 0);
        let length = be16(p, 3);
        if length == 0 {
            if p.len() < 8 {
                Err(IpsError::Truncated)
            } else {
                let run = be16(p, 5);
                if offset + run > file.len() {
                    Err(IpsError::OffsetTooLarge((offset + run) as u32))
                } else {
                    patched(overlaid(file, offset, Seq::new(run as nat, |i: int| p[7])), p.skip(8))
                }
            }
        } else if p.len() < 5 + length {
            Err(IpsError::Truncated)
        } else if offset + length > file.len() {
            Err(IpsError::OffsetTooLarge((offset + length) as u32))
        } else {
            patched(overlaid(file, offset, p.subrange(5, 5 + length)), p.skip(5 + length))
        }
    }
}

/// What [`apply`] returns.
pub open spec fn applied(base: Seq<u8>, patch: Seq<u8>) -> Result<Seq<u8>, IpsError> {
    if patch.len() < 8 || patch.take(5) != magic() {
        Err(IpsError::BadMagic)
    } else {
        patched(base, patch.skip(5))
    }
}

/// A plain record.
pub struct Record {
    pub offset: int,
    pub data: Seq<u8>,
}

impl Record {
    pub open spec fn bytes(self) -> Seq<u8> {
        be24_bytes(self.offset) + be16_bytes(self.data.len() as int) + self.data
    }
}

/// How many bytes from `i` on differ in a row, counting no further than `room`.
pub open spec fn run_len(base: Seq<u8>, new: Seq<u8>, i: int, room: nat) -> nat
    decreases room,
{
    if room == 0 || i >= base.len() || base[i] == new[i] {
        0
    } else {
        1 + run_len(base, new, i + 1, (room - 1) as nat)
    }
}

/// The records for the differences from `i` on: each starts at a byte that differs, and
/// takes in the differing bytes that follow it, as many as a record can hold.
pub open spec fn records(base: Seq<u8>, new: Seq<u8>, i: int) -> Seq<Record>
    decreases base.len() - i,
    via records_end
{
    if i >= base.len() {
        Seq::empty()
    } else if base[i] == new[i] {
        records(base, new, i + 1)
    } else {
        let end = i + run_len(base, new, i, MAX_RECORD_LEN as nat);
        seq![Record { offset: i, data: new.subrange(i, end) }] + records(base, new, end)
    }
}

#[via_fn]
proof fn records_end(base: Seq<u8>, new: Seq<u8>, i: int) {
    if i < base.len() && base[i] != new[i] {
        lemma_run_len(base, new, i, MAX_RECORD_LEN as nat);
        assert(run_len(base, new, i, MAX_RECORD_LEN as nat) >= 1);
    }
}

/// The bytes of `records`, in order.
pub open spec fn record_bytes(records: Seq<Record>) -> Seq<u8>
    decreases records.len(),
{
    if records.len() == 0 {
        Seq::empty()
    } else {
        records[0].bytes() + record_bytes(records.skip(1))
    }
}

/// Whether a record starts where its offset would read as the terminator.
pub open spec fn spells_eof(records: Seq<Record>) -> bool {
    exists|k: int| 0 <= k < records.len() && (#[trigger] records[k]).offset == EOF_OFFSET
}

/// What [`encode`] returns.
pub open spec fn encoded(base: Seq<u8>, new: Seq<u8>) -> Result<Seq<u8>, IpsError> {
    if base.len() > MAX_OFFSET + 1 {
        Err(IpsError::FileTooLarge(base.len() as usize))
    } else if spells_eof(records(base, new, 0)) {
        Err(IpsError::OffsetTooLarge(EOF_OFFSET))
    } else {
        Ok(magic() + record_bytes(records(base, new, 0)) + eof_marker())
    }
}

/// An executable result against a mathematical one.
pub open spec fn agrees(result: Result<Vec<u8>, IpsError>, model: Result<Seq<u8>, IpsError>) -> bool {
    match (result, model) {
        (Ok(bytes), Ok(m)) => bytes@ == m,
        (Err(e), Err(m)) => e == m,
        _ => false,
    }
}

proof fn lemma_run_len(base: Seq<u8>, new: Seq<u8>, i: int, room: nat)
    ensures
        run_len(base, new, i, room) <= room,
        i <= base.len() ==> i + run_len(base, new, i, room) <= base.len(),
    decreases room,
{
    if room == 0 || i >= base.len() || base[i] == new[i] {
    } else {
        lemma_run_len(base, new, i + 1, (room - 1) as nat);
    }
}

/// Builds the patch that turns `base` into `new`, two files of one size. Bytes that differ
/// side by side share a record.
pub fn encode(base: &[u8], new: &[u8]) -> (result: Result<Vec<u8>, IpsError>)
    requires
        base@.len() == new@.len(),
    ensures
        agrees(result, encoded(base@, new@)),
{
    let n: usize = base.len();
    if n > MAX_OFFSET as usize + 1 {
        return Err(IpsError::FileTooLarge(n));
    }
    let mut out: Vec<u8> = vec![0x50, 0x41, 0x54, 0x43, 0x48];
    let ghost all = records(base@, new@, 0);
    let mut i: usize = 0;
    assert(out@ + record_bytes(all) =~= magic() + record_bytes(all));
    while i < n
        invariant
            n == base@.len(),
            n == new@.len(),
            n <= MAX_OFFSET + 1,
            i <= n,
            all == records(base@, new@, 0),
            out@ + record_bytes(records(base@, new@, i as int)) == magic() + record_bytes(all),
            spells_eof(all) == spells_eof(records(base@, new@, i as int)),
        decreases n - i,
    {
        if base[i] == new[i] {
            i = i + 1;
        } else {
            let start: usize = i;
            let mut end: usize = start;
            while end < n && end - start < MAX_RECORD_LEN && base[end] != new[end]
                invariant
                    n == base@.len(),
                    n == new@.len(),
                    start <= end <= n,
                    end - start <= MAX_RECORD_LEN,
                    run_len(base@, new@, start as int, MAX_RECORD_LEN as nat) == end - start + run_len(
                        base@,
                        new@,
                        end as int,
                        (MAX_RECORD_LEN - (end - start)) as nat,
                    ),
                decreases n - end,
            {
                end = end + 1;
            }
            let len: usize = end - start;
            let ghost record = Record { offset: start as int, data: new@.subrange(start as int, end as int) };
            let ghost rest = records(base@, new@, end as int);
            let ghost here = records(base@, new@, start as int);
            let ghost before = out@;
            proof {
                assert(here =~= seq![record] + rest);
                assert(here.skip(1) =~= rest);
                assert(here[0] == record);
                if start == EOF_OFFSET {
                    assert(spells_eof(here));
                }
            }
            if start == EOF_OFFSET as usize {
                return Err(IpsError::OffsetTooLarge(EOF_OFFSET));
            }
            out.push((start / 0x1_0000) as u8);
            out.push((start / 0x100 % 0x100) as u8);
            out.push((start % 0x100) as u8);
            out.push((len / 0x100) as u8);
            out.push((len % 0x100) as u8);
            assert(out@ =~= before + (be24_bytes(start as int) + be16_bytes(len as int)));
            let ghost header = out@;
            let mut k: usize = start;
            while k < end
                invariant
                    start <= k <= end <= n,
                    n == new@.len(),
                    out@ == header + new@.subrange(start as int, k as int),
                decreases end - k,
            {
                out.push(new[k]);
                k = k + 1;
                assert(out@ =~= header + new@.subrange(start as int, k as int));
            }
            proof {
                assert(out@ =~= before + record.bytes());
                assert(out@ + record_bytes(rest) =~= before + record_bytes(here));
                assert(spells_eof(here) == spells_eof(rest)) by {
                    if spells_eof(here) {
                        let j = choose|j: int| 0 <= j < here.len() && (#[trigger] here[j]).offset == EOF_OFFSET;
                        assert(rest[j - 1] == here[j]);
                    }
                    if spells_eof(rest) {
                        let j = choose|j: int| 0 <= j < rest.len() && (#[trigger] rest[j]).offset == EOF_OFFSET;
                        assert(here[j + 1] == rest[j]);
                    }
                }
            }
            i = end;
        }
    }
    assert(records(base@, new@, i as int) =~= Seq::empty());
    assert(out@ + record_bytes(records(base@, new@, i as int)) =~= out@);
    out.push(0x45);
    out.push(0x4F);
    out.push(0x46);
    assert(out@ =~= magic() + record_bytes(all) + eof_marker());
    Ok(out)
}

/// Applies `patch` to a copy of `base`. The file keeps its length: a record that reaches past
/// the end is refused. Bytes after the terminator are ignored.
pub fn apply(base: &[u8], patch: &[u8]) -> (result: Result<Vec<u8>, IpsError>)
    ensures
        agrees(result, applied(base@, patch@)),
{
    let n: usize = patch.len();
    if n < 8 {
        return Err(IpsError::BadMagic);
    }
    if !(patch[0] == 0x50 && patch[1] == 0x41 && patch[2] == 0x54 && patch[3] == 0x43 && patch[4] == 0x48) {
        proof {
            assert(patch@.take(5)[0] == patch@[0]);
            assert(patch@.take(5)[1] == patch@[1]);
            assert(patch@.take(5)[2] == patch@[2]);
            assert(patch@.take(5)[3] == patch@[3]);
            assert(patch@.take(5)[4] == patch@[4]);
        }
        return Err(IpsError::BadMagic);
    }
    assert(patch@.take(5) =~= magic());
    let mut out: Vec<u8> = slice_copy(base);
    let mut at: usize = 5;
    loop
        invariant
            n == patch@.len(),
            5 <= at <= n,
            out@.len() == base@.len(),
            applied(base@, patch@) == patched(out@, patch@.skip(at as int)),
        decreases n - at,
    {
        let ghost p = patch@.skip(at as int);
        if n - at < 3 {
            return Err(IpsError::Truncated);
        }
        if patch[at] == 0x45 && patch[at + 1] == 0x4F && patch[at + 2] == 0x46 {
            assert(p.take(3) =~= eof_marker());
            return Ok(out);
        }
        proof {
            assert(p.take(3)[0] == patch@[at as int]);
            assert(p.take(3)[1] == patch@[at + 1]);
            assert(p.take(3)[2] == patch@[at + 2]);
        }
        if n - at < 5 {
            return Err(IpsError::Truncated);
        }
        let offset: usize = patch[at] as usize * 0x1_0000 + patch[at + 1] as usize * 0x100 + patch[at + 2] as usize;
        let length: usize = patch[at + 3] as usize * 0x100 + patch[at + 4] as usize;
        if length == 0 {
            if n - at < 8 {
                return Err(IpsError::Truncated);
            }
            let run: usize = patch[at + 5] as usize * 0x100 + patch[at + 6] as usize;
            let fill: u8 = patch[at + 7];
            if offset + run > out.len() {
                return Err(IpsError::OffsetTooLarge((offset + run) as u32));
            }
            let ghost before = out@;
            let ghost data = Seq::new(run as nat, |i: int| p[7]);
            let mut k: usize = 0;
            while k < run
                invariant
                    k <= run,
                    offset + run <= out@.len(),
                    offset <= MAX_OFFSET,
                    run <= 0xFFFF,
                    data.len() == run,
                    forall|i: int| 0 <= i < run ==> data[i] == fill,
                    out@ =~= overlaid(before, offset as int, data.take(k as int)),
                decreases run - k,
            {
                out[offset + k] = fill;
                k = k + 1;
            }
            assert(data.take(run as int) =~= data);
            at = at + 8;
            assert(patch@.skip(at as int) =~= p.skip(8));
        } else {
            if n - at - 5 < length {
                return Err(IpsError::Truncated);
            }
            if offset + length > out.len() {
                return Err(IpsError::OffsetTooLarge((offset + length) as u32));
            }
            let ghost before = out@;
            let ghost data = p.subrange(5, 5 + length);
            let mut k: usize = 0;
            while k < length
                invariant
                    k <= length <= 0xFFFF,
                    offset <= MAX_OFFSET,
                    n == patch@.len(),
                    at + 5 + length <= n,
                    offset + length <= out@.len(),
                    data == patch@.subrange(at + 5, at + 5 + length),
                    out@ =~= overlaid(before, offset as int, data.take(k as int)),
                decreases length - k,
            {
                out[offset + k] = patch[at + 5 + k];
                k = k + 1;
            }
            assert(data.take(length as int) =~= data);
            at = at + 5 + length;
            assert(patch@.skip(at as int) =~= p.skip(5 + length));
        }
    }
}

/// A plain record in front of `rest` lays its data over the file.
proof fn lemma_record_applies(file: Seq<u8>, record: Record, rest: Seq<u8>)
    requires
        0 <= record.offset <= MAX_OFFSET,
        record.offset != EOF_OFFSET,
        1 <= record.data.len() <= MAX_RECORD_LEN,
        record.offset + record.data.len() <= file.len(),
    ensures
        patched(file, record.bytes() + rest) == patched(overlaid(file, record.offset, record.data), rest),
{
    let p = record.bytes() + rest;
    let length = record.data.len() as int;
    let offset = record.offset;
    assert(p[0] == (offset / 0x1_0000) as u8 && p[1] == (offset / 0x100 % 0x100) as u8 && p[2] == (offset
        % 0x100) as u8);
    assert(p[3] == (length / 0x100) as u8 && p[4] == (length % 0x100) as u8);
    assert(be24(p, 0) == offset);
    assert(be16(p, 3) == length);
    assert(p.take(3) != eof_marker()) by {
        assert(p.take(3)[0] == p[0] && p.take(3)[1] == p[1] && p.take(3)[2] == p[2]);
    }
    assert(p.subrange(5, 5 + length) =~= record.data);
    assert(p.skip(5 + length) =~= rest);
}

proof fn lemma_records_apply(base: Seq<u8>, new: Seq<u8>, i: int, file: Seq<u8>, tail: Seq<u8>)
    requires
        base.len() == new.len() == file.len(),
        base.len() <= MAX_OFFSET + 1,
        0 <= i <= base.len(),
        !spells_eof(records(base, new, i)),
        forall|j: int| 0 <= j < i ==> file[j] == new[j],
        forall|j: int| i <= j < base.len() ==> file[j] == base[j],
    ensures
        patched(file, record_bytes(records(base, new, i)) + eof_marker() + tail) == Ok::<
            Seq<u8>,
            IpsError,
        >(new),
    decreases base.len() - i,
{
    let recs = records(base, new, i);
    let p = record_bytes(recs) + eof_marker() + tail;
    if i >= base.len() {
        assert(p.take(3) =~= eof_marker());
        assert(file =~= new);
    } else if base[i] == new[i] {
        lemma_records_apply(base, new, i + 1, file, tail);
    } else {
        lemma_run_len(base, new, i, MAX_RECORD_LEN as nat);
        let length = run_len(base, new, i, MAX_RECORD_LEN as nat) as int;
        let end = i + length;
        let data = new.subrange(i, end);
        let record = Record { offset: i, data };
        let rest = records(base, new, end);
        assert(recs.skip(1) =~= rest);
        assert(recs[0] == record);
        assert(!spells_eof(rest)) by {
            if spells_eof(rest) {
                let j = choose|j: int| 0 <= j < rest.len() && (#[trigger] rest[j]).offset == EOF_OFFSET;
                assert(recs[j + 1] == rest[j]);
            }
        }
        let after = record_bytes(rest) + eof_marker() + tail;
        assert(p =~= record.bytes() + after);
        lemma_record_applies(file, record, after);
        let next = overlaid(file, i, data);
        lemma_run_differs(base, new, i, MAX_RECORD_LEN as nat);
        lemma_records_apply(base, new, end, next, tail);
    }
}

proof fn lemma_run_differs(base: Seq<u8>, new: Seq<u8>, i: int, room: nat)
    ensures
        forall|j: int| i <= j < i + run_len(base, new, i, room) ==> base[j] != new[j],
    decreases room,
{
    if room == 0 || i >= base.len() || base[i] == new[i] {
    } else {
        lemma_run_differs(base, new, i + 1, (room - 1) as nat);
    }
}

/// Applying the patch from `base` to `new` to `base` gives `new`, whatever follows the
/// terminator.
pub proof fn lemma_round_trip(base: Seq<u8>, new: Seq<u8>, tail: Seq<u8>)
    requires
        base.len() == new.len(),
        encoded(base, new) is Ok,
    ensures
        applied(base, encoded(base, new)->Ok_0) == Ok::<Seq<u8>, IpsError>(new),
        applied(base, encoded(base, new)->Ok_0 + tail) == Ok::<Seq<u8>, IpsError>(new),
{
    let patch = encoded(base, new)->Ok_0;
    let recs = records(base, new, 0);
    lemma_records_apply(base, new, 0, base, Seq::empty());
    lemma_records_apply(base, new, 0, base, tail);
    assert(patch.take(5) =~= magic());
    assert(patch.skip(5) =~= record_bytes(recs) + eof_marker() + Seq::empty());
    assert((patch + tail).take(5) =~= magic());
    assert((patch + tail).skip(5) =~= record_bytes(recs) + eof_marker() + tail);
}

/// Every pair of equally long files below the offset of the ambiguous record can be encoded.
pub proof fn lemma_encodable(base: Seq<u8>, new: Seq<u8>)
    requires
        base.len() == new.len(),
        base.len() <= EOF_OFFSET,
    ensures
        encoded(base, new) is Ok,
{
    lemma_records_offsets(base, new, 0);
}

proof fn lemma_records_offsets(base: Seq<u8>, new: Seq<u8>, i: int)
    ensures
        forall|k: int|
            0 <= k < records(base, new, i).len() ==> (#[trigger] records(base, new, i)[k]).offset < base.len(),
    decreases base.len() - i,
{
    if i >= base.len() {
    } else if base[i] == new[i] {
        lemma_records_offsets(base, new, i + 1);
        assert(records(base, new, i) == records(base, new, i + 1));
    } else {
        lemma_run_len(base, new, i, MAX_RECORD_LEN as nat);
        let end = i + run_len(base, new, i, MAX_RECORD_LEN as nat);
        let rest = records(base, new, end);
        lemma_records_offsets(base, new, end);
        let recs = records(base, new, i);
        assert forall|k: int| 0 <= k < recs.len() implies (#[trigger] recs[k]).offset < base.len() by {
            if k > 0 {
                assert(recs[k] == rest[k - 1]);
            }
        }
    }
}

/// Files that do not differ give a patch of nothing but its two markers.
pub proof fn lemma_empty_difference(base: Seq<u8>)
    requires
        base.len() <= MAX_OFFSET + 1,
    ensures
        encoded(base, base) == Ok::<Seq<u8>, IpsError>(magic() + eof_marker()),
{
    lemma_no_records(base, 0);
    assert(magic() + Seq::<u8>::empty() + eof_marker() =~= magic() + eof_marker());
}

proof fn lemma_no_records(base: Seq<u8>, i: int)
    ensures
        records(base, base, i) == Seq::<Record>::empty(),
    decreases base.len() - i,
{
    if i < base.len() {
        lemma_no_records(base, i + 1);
    }
}

/// A patched file is as long as the file before.
pub proof fn lemma_length_kept(base: Seq<u8>, patch: Seq<u8>)
    requires
        applied(base, patch) is Ok,
    ensures
        (applied(base, patch)->Ok_0).len() == base.len(),
{
    lemma_patched_length(base, patch.skip(5));
}

proof fn lemma_patched_length(file: Seq<u8>, p: Seq<u8>)
    requires
        patched(file, p) is Ok,
    ensures
        (patched(file, p)->Ok_0).len() == file.len(),
    decreases p.len(),
{
    if p.len() < 3 || p.take(3) == eof_marker() || p.len() < 5 {
    } else {
        let offset = be24(p, 0);
        let length = be16(p, 3);
        if length == 0 {
            let run = be16(p, 5);
            lemma_patched_length(overlaid(file, offset, Seq::new(run as nat, |i: int| p[7])), p.skip(8));
        } else {
            lemma_patched_length(overlaid(file, offset, p.subrange(5, 5 + length)), p.skip(5 + length));
        }
    }
}

} // verus!
