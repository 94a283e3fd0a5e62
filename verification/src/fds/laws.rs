//! What patches look like and what they do, byte by byte.
use vstd::prelude::*;

use crate::fds::ips::{applied, encoded, patched, record_bytes, records, run_len, IpsError};
use crate::text::decimal;

verus! {

/// The five bytes that a patch starts with, "PATCH".
pub open spec fn head() -> Seq<u8> {
    seq![0x50u8, 0x41u8, 0x54u8, 0x43u8, 0x48u8]
}

/// The three bytes that end it, "EOF".
pub open spec fn end() -> Seq<u8> {
    seq![0x45u8, 0x4Fu8, 0x46u8]
}

/// A plain record: its offset in three bytes and its length in two, most significant first, and the
/// bytes.
pub open spec fn plain(offset: int, data: Seq<u8>) -> Seq<u8> {
    seq![
        (offset / 0x1_0000) as u8,
        (offset / 0x100 % 0x100) as u8,
        (offset % 0x100) as u8,
        (data.len() / 0x100) as u8,
        (data.len() % 0x100) as u8,
    ] + data
}

/// A run record: its offset, a length of zero, the length of the run in two bytes, and the byte.
pub open spec fn run(offset: int, n: int, byte: u8) -> Seq<u8> {
    seq![
        (offset / 0x1_0000) as u8,
        (offset / 0x100 % 0x100) as u8,
        (offset % 0x100) as u8,
        0u8,
        0u8,
        (n / 0x100) as u8,
        (n % 0x100) as u8,
        byte,
    ]
}

/// A plain record lays its bytes over the file at its offset and leaves the others; what follows it is
/// applied to the result. One that reaches past the file is refused with where it would end.
pub proof fn lemma_plain_record(base: Seq<u8>, offset: int, data: Seq<u8>, rest: Seq<u8>, out: Seq<u8>)
    requires
        0 <= offset < 0x100_0000,
        offset != 0x45_4F46,
        0 < data.len() <= 0xFFFF,
        rest.len() >= 3,
        out.len() == base.len(),
        forall|i: int| 0 <= i < base.len() ==> out[i] == (if offset <= i < offset + data.len() {
            data[i - offset]
        } else {
            base[i]
        }),
    ensures
        offset + data.len() <= base.len() ==> applied(base, head() + plain(offset, data) + rest) == applied(
            out,
            head() + rest,
        ),
        offset + data.len() > base.len() ==> applied(base, head() + plain(offset, data) + rest) == Err::<
            Seq<u8>,
            IpsError,
        >(IpsError::OffsetTooLarge((offset + data.len()) as u32)),
{
    let whole = head() + plain(offset, data) + rest;
    let p = plain(offset, data) + rest;
    assert(whole.take(5) =~= head());
    assert(whole.skip(5) =~= p);
    let n = data.len() as int;
    assert(p.take(3)[0] == p[0] && p.take(3)[1] == p[1] && p.take(3)[2] == p[2]);
    assert(p.take(3) != end());
    assert(p.subrange(5, 5 + n) =~= data);
    assert(p.skip(5 + n) =~= rest);
    assert((head() + rest).take(5) =~= head());
    assert((head() + rest).skip(5) =~= rest);
    if offset + n <= base.len() {
        assert(crate::fds::ips::overlaid(base, offset, data) =~= out);
    }
}

/// A run record fills as many bytes as it says with its byte.
pub proof fn lemma_run_record(base: Seq<u8>, offset: int, n: int, byte: u8, rest: Seq<u8>, out: Seq<u8>)
    requires
        0 <= offset < 0x100_0000,
        offset != 0x45_4F46,
        0 <= n <= 0xFFFF,
        rest.len() >= 3,
        out.len() == base.len(),
        forall|i: int| 0 <= i < base.len() ==> out[i] == (if offset <= i < offset + n { byte } else { base[i] }),
    ensures
        offset + n <= base.len() ==> applied(base, head() + run(offset, n, byte) + rest) == applied(
            out,
            head() + rest,
        ),
        offset + n > base.len() ==> applied(base, head() + run(offset, n, byte) + rest) == Err::<Seq<u8>, IpsError>(
            IpsError::OffsetTooLarge((offset + n) as u32),
        ),
{
    let whole = head() + run(offset, n, byte) + rest;
    let p = run(offset, n, byte) + rest;
    assert(whole.take(5) =~= head());
    assert(whole.skip(5) =~= p);
    assert(p.take(3)[0] == p[0] && p.take(3)[1] == p[1] && p.take(3)[2] == p[2]);
    assert(p.take(3) != end());
    assert(p.skip(8) =~= rest);
    assert((head() + rest).take(5) =~= head());
    assert((head() + rest).skip(5) =~= rest);
    if offset + n <= base.len() {
        assert(crate::fds::ips::overlaid(base, offset, Seq::new(n as nat, |i: int| p[7])) =~= out);
    }
}

/// The terminator ends a patch, whatever comes after it.
pub proof fn lemma_terminator(base: Seq<u8>, tail: Seq<u8>)
    ensures
        applied(base, head() + end() + tail) == Ok::<Seq<u8>, IpsError>(base),
{
    let whole = head() + end() + tail;
    assert(whole.take(5) =~= head());
    assert(whole.skip(5) =~= end() + tail);
    assert((end() + tail).take(3) =~= end());
}

/// What does not start with the five bytes, or is too short for them and the terminator, is no patch.
pub proof fn lemma_no_patch(base: Seq<u8>, patch: Seq<u8>)
    ensures
        applied(base, patch) == Err::<Seq<u8>, IpsError>(IpsError::BadMagic) <==> patch.len() < 8 || patch[0] != 0x50
            || patch[1] != 0x41 || patch[2] != 0x54 || patch[3] != 0x43 || patch[4] != 0x48,
{
    if patch.len() >= 8 {
        let five = patch.take(5);
        assert(five[0] == patch[0] && five[1] == patch[1] && five[2] == patch[2] && five[3] == patch[3] && five[4]
            == patch[4]);
        if patch[0] == 0x50 && patch[1] == 0x41 && patch[2] == 0x54 && patch[3] == 0x43 && patch[4] == 0x48 {
            assert(five =~= head());
            lemma_records_have_no_magic(base, patch.skip(5));
        } else {
            assert(head()[0] == 0x50 && head()[1] == 0x41 && head()[2] == 0x54 && head()[3] == 0x43 && head()[4]
                == 0x48);
            assert(five != head());
        }
    }
}

proof fn lemma_records_have_no_magic(file: Seq<u8>, p: Seq<u8>)
    ensures
        patched(file, p) != Err::<Seq<u8>, IpsError>(IpsError::BadMagic),
    decreases p.len(),
{
    if p.len() >= 5 && p.take(3) != end() {
        let offset = p[0] * 0x1_0000 + p[1] * 0x100 + p[2];
        let length = p[3] * 0x100 + p[4];
        if length == 0 {
            if p.len() >= 8 {
                let n = p[5] * 0x100 + p[6];
                lemma_records_have_no_magic(
                    crate::fds::ips::overlaid(file, offset, Seq::new(n as nat, |i: int| p[7])),
                    p.skip(8),
                );
            }
        } else if p.len() >= 5 + length {
            lemma_records_have_no_magic(
                crate::fds::ips::overlaid(file, offset, p.subrange(5, 5 + length)),
                p.skip(5 + length),
            );
        }
    }
}

/// A patch that stops before a record or the terminator is whole is refused: without three bytes to
/// tell them apart, inside a record's offset and length, inside its bytes, or inside a run.
pub proof fn lemma_cut_short(base: Seq<u8>, offset: int, data: Seq<u8>, n: int)
    requires
        0 <= offset < 0x100_0000,
        offset != 0x45_4F46,
        0 < data.len() <= 0xFFFF,
        3 <= n < 5 + data.len(),
    ensures
        applied(base, head() + plain(offset, data).take(n)) == Err::<Seq<u8>, IpsError>(IpsError::Truncated),
{
    let p = plain(offset, data).take(n);
    let whole = head() + p;
    assert(whole.take(5) =~= head());
    assert(whole.skip(5) =~= p);
    assert(p.take(3)[0] == p[0] && p.take(3)[1] == p[1] && p.take(3)[2] == p[2]);
    assert(p.take(3) != end());
}

/// Two files that differ in one stretch of at most 65535 bytes, and nowhere else, give a patch of one
/// plain record with the new bytes of that stretch.
pub proof fn lemma_one_difference(base: Seq<u8>, new: Seq<u8>, from: int, to: int)
    requires
        base.len() == new.len(),
        base.len() <= 0x100_0000,
        0 <= from < to <= base.len(),
        to - from <= 0xFFFF,
        from != 0x45_4F46,
        forall|i: int| 0 <= i < base.len() ==> (#[trigger] base[i] != new[i] <==> from <= i < to),
    ensures
        encoded(base, new) == Ok::<Seq<u8>, IpsError>(head() + plain(from, new.subrange(from, to)) + end()),
{
    lemma_same_bytes(base, new, 0, from);
    lemma_same_bytes(base, new, to, base.len() as int);
    lemma_stretch(base, new, from, to, 0xFFFF);
    let all = records(base, new, 0);
    assert(records(base, new, base.len() as int) =~= Seq::empty());
    assert(all.len() == 1 && all[0].offset == from && all[0].data == new.subrange(from, to));
    assert(all.skip(1) =~= Seq::empty());
    reveal_with_fuel(record_bytes, 2);
    assert(record_bytes(all) =~= plain(from, new.subrange(from, to)));
}

proof fn lemma_same_bytes(base: Seq<u8>, new: Seq<u8>, from: int, to: int)
    requires
        base.len() == new.len(),
        0 <= from <= to <= base.len(),
        forall|i: int| from <= i < to ==> #[trigger] base[i] == new[i],
    ensures
        records(base, new, from) == records(base, new, to),
    decreases to - from,
{
    if from < to {
        lemma_same_bytes(base, new, from + 1, to);
    }
}

proof fn lemma_stretch(base: Seq<u8>, new: Seq<u8>, from: int, to: int, room: nat)
    requires
        base.len() == new.len(),
        0 <= from <= to <= base.len(),
        to - from <= room,
        forall|i: int| from <= i < to ==> #[trigger] base[i] != new[i],
        to == base.len() || base[to] == new[to],
    ensures
        run_len(base, new, from, room) == to - from,
    decreases to - from,
{
    if from < to {
        lemma_stretch(base, new, from + 1, to, (room - 1) as nat);
    }
}

/// A longer stretch is split: its first record takes 65535 bytes, and the next starts right after.
pub proof fn lemma_long_difference(base: Seq<u8>, new: Seq<u8>, from: int)
    requires
        base.len() == new.len(),
        0 <= from,
        from + 0xFFFF < base.len(),
        forall|i: int| from <= i <= from + 0xFFFF ==> #[trigger] base[i] != new[i],
    ensures
        records(base, new, from).len() >= 2,
        records(base, new, from)[0].offset == from,
        records(base, new, from)[0].data == new.subrange(from, from + 0xFFFF),
        records(base, new, from)[1].offset == from + 0xFFFF,
{
    lemma_full_run(base, new, from, 0xFFFF);
    let next = from + 0xFFFF;
    assert(base[from] != new[from]);
    assert(base[next] != new[next]);
    assert(records(base, new, next)[0].offset == next);
}

proof fn lemma_full_run(base: Seq<u8>, new: Seq<u8>, from: int, room: nat)
    requires
        base.len() == new.len(),
        0 <= from,
        from + room <= base.len(),
        forall|i: int| from <= i < from + room ==> #[trigger] base[i] != new[i],
    ensures
        run_len(base, new, from, room) == room,
    decreases room,
{
    if room > 0 {
        lemma_full_run(base, new, from + 1, (room - 1) as nat);
    }
}

/// A file has to fit in the offsets: 16 MiB and no more.
pub proof fn lemma_file_too_large(base: Seq<u8>, new: Seq<u8>)
    requires
        base.len() <= usize::MAX,
    ensures
        base.len() > 0x100_0000 ==> encoded(base, new) == Err::<Seq<u8>, IpsError>(
            IpsError::FileTooLarge(base.len() as usize),
        ),
        base.len() <= 0x100_0000 ==> (encoded(base, new) is Ok || encoded(base, new) == Err::<Seq<u8>, IpsError>(
            IpsError::OffsetTooLarge(0x45_4F46),
        )),
{
}

/// The messages, and the numbers in them.
pub proof fn lemma_messages(n: u32, size: usize)
    ensures
        IpsError::BadMagic.text() == "IPS patch missing 'PATCH' magic"@,
        IpsError::Truncated.text() == "IPS patch truncated mid-record"@,
        IpsError::OffsetTooLarge(n).text() == "IPS patch offset "@ + decimal(n as nat) + " exceeds 24-bit maximum"@,
        IpsError::FileTooLarge(size).text() == "target file is "@ + decimal(size as nat)
            + " bytes; IPS supports at most "@ + decimal(16_777_216) + " bytes"@,
{
}

} // verus!
