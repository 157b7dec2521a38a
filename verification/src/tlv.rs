//! Tag-length-value decoding: a cursor-based reader over a byte buffer that
//! extracts one record at a time without copying.
//!
//! A record is one tag byte, a length, then exactly `length` value bytes.
//! The length is either short form (one byte, at most `0x7f`) or long form
//! (a length-of-length byte with the high bit set, followed by that many
//! big-endian length bytes), matching the standard BER definite forms; the
//! reserved first bytes `0x80` (indefinite) and `0xff` are malformed.
//! Decoding is a forward, single-pass cursor walk: it fails with a typed
//! error -- never a panic or an out-of-bounds read -- when the buffer is
//! exhausted, the declared length exceeds the remaining bytes, or the length
//! encoding is malformed.

use crate::Status;
use vstd::prelude::*;

verus! {

/// The big-endian value of a byte string.
pub open spec fn be_value(s: Seq<u8>) -> nat
    decreases s.len(),
{
    if s.len() == 0 {
        0
    } else {
        be_value(s.drop_last()) * 256 + s.last() as nat
    }
}

/// Every prefix of a byte string has a big-endian value no larger than the
/// whole string's.
pub proof fn lemma_be_value_prefix_le(s: Seq<u8>, i: int)
    requires
        0 <= i <= s.len(),
    ensures
        be_value(s.subrange(0, i)) <= be_value(s),
    decreases s.len() - i,
{
    if i == s.len() {
        assert(s.subrange(0, i) =~= s);
    } else {
        assert(s.subrange(0, i + 1).drop_last() =~= s.subrange(0, i));
        assert(s.subrange(0, i + 1).last() == s[i]);
        assert(be_value(s.subrange(0, i)) <= be_value(s.subrange(0, i + 1)));
        lemma_be_value_prefix_le(s, i + 1);
    }
}

/// The big-endian value of at most four bytes fits in 32 bits.
pub proof fn lemma_be_value_bound(s: Seq<u8>)
    requires
        s.len() <= 4,
    ensures
        be_value(s) < 0x1_0000_0000,
    decreases s.len(),
{
    if s.len() > 0 {
        lemma_be_value_bound(s.drop_last());
        assert(be_value(s.drop_last()) * 256 <= (be_value(s.drop_last())) * 256);
        assert(be_value(s.drop_last()) <= 0xff_ffff) by {
            lemma_be_value_byte_bound(s.drop_last(), 3);
        }
    }
}

/// The big-endian value of at most `k` bytes is below `256^k`, spelled out
/// for the byte counts this protocol uses.
proof fn lemma_be_value_byte_bound(s: Seq<u8>, k: int)
    requires
        0 <= k <= 3,
        s.len() <= k,
    ensures
        k == 0 ==> be_value(s) < 1,
        k == 1 ==> be_value(s) < 0x100,
        k == 2 ==> be_value(s) < 0x1_0000,
        k == 3 ==> be_value(s) < 0x100_0000,
    decreases k,
{
    if s.len() > 0 {
        lemma_be_value_byte_bound(s.drop_last(), k - 1);
    } else if k > 0 {
        lemma_be_value_byte_bound(s, k - 1);
    }
}

/// One decoded record: its tag byte, its value bytes, and the cursor
/// position just past it.
pub struct SpecRecord {
    pub tag: u8,
    pub value: Seq<u8>,
    pub end: int,
}

/// Close a record whose value starts at `start` and is `len` bytes long, or
/// report that the declared length exceeds the remaining buffer.
pub open spec fn spec_record_with(d: Seq<u8>, tag: u8, start: int, len: int) -> Option<
    SpecRecord,
> {
    if start + len <= d.len() {
        Some(SpecRecord { tag, value: d.subrange(start, start + len), end: start + len })
    } else {
        None
    }
}

/// The record grammar at position `pos` of buffer `d`: `None` is a decoding
/// failure (buffer exhausted, malformed length, or length past the end).
pub open spec fn spec_record(d: Seq<u8>, pos: int) -> Option<SpecRecord> {
    if 0 <= pos && pos + 2 <= d.len() {
        let tag = d[pos];
        let first = d[pos + 1];
        if first < 0x80 {
            spec_record_with(d, tag, pos + 2, first as int)
        } else if first == 0x80 || first == 0xff {
            None
        } else {
            let n = (first - 0x80) as int;
            if pos + 2 + n <= d.len() {
                spec_record_with(
                    d,
                    tag,
                    pos + 2 + n,
                    be_value(d.subrange(pos + 2, pos + 2 + n)) as int,
                )
            } else {
                None
            }
        }
    } else {
        None
    }
}

/// A decoded record stays inside the buffer: its end lies past the tag and
/// length bytes and never past the end of the buffer.
pub proof fn lemma_record_bounds(d: Seq<u8>, pos: int)
    ensures
        match spec_record(d, pos) {
            Some(r) => pos + 2 <= r.end <= d.len() && r.value.len() <= d.len() - pos - 2,
            None => true,
        },
{
}

/// Read a four-byte field as a big-endian unsigned 32-bit integer.
pub fn be_u32(v: &[u8]) -> (r: u32)
    requires
        v@.len() == 4,
    ensures
        r as nat == be_value(v@),
{
    proof {
        let s = v@;
        lemma_be_value_bound(s);
        assert(s.subrange(0, 0).len() == 0);
        assert(be_value(s.subrange(0, 0)) == 0);
        assert(s.subrange(0, 1).drop_last() =~= s.subrange(0, 0));
        assert(s.subrange(0, 1).last() == s[0]);
        assert(be_value(s.subrange(0, 1)) == s[0]);
        assert(s.subrange(0, 2).drop_last() =~= s.subrange(0, 1));
        assert(s.subrange(0, 2).last() == s[1]);
        assert(be_value(s.subrange(0, 2)) == s[0] * 256 + s[1]);
        assert(s.subrange(0, 3).drop_last() =~= s.subrange(0, 2));
        assert(s.subrange(0, 3).last() == s[2]);
        assert(be_value(s.subrange(0, 3)) == (s[0] * 256 + s[1]) * 256 + s[2]);
        assert(s.drop_last() =~= s.subrange(0, 3));
        assert(s.last() == s[3]);
        assert(be_value(s) == ((s[0] * 256 + s[1]) * 256 + s[2]) * 256 + s[3]);
    }
    (v[0] as u32) * 0x100_0000 + (v[1] as u32) * 0x1_0000 + (v[2] as u32) * 0x100 + (v[3] as u32)
}

/// A forward cursor over a byte buffer.
pub struct Reader<'a> {
    data: &'a [u8],
    pos: usize,
}

impl<'a> Reader<'a> {
    /// The cursor never points past the end of the buffer.
    pub closed spec fn wf(&self) -> bool {
        self.pos <= self.data@.len()
    }

    /// The underlying buffer.
    pub closed spec fn spec_data(&self) -> Seq<u8> {
        self.data@
    }

    /// The cursor position.
    pub closed spec fn spec_pos(&self) -> int {
        self.pos as int
    }

    /// Start reading at the beginning of `data`.
    pub fn new(data: &'a [u8]) -> (r: Self)
        ensures
            r.wf(),
            r.spec_data() == data@,
            r.spec_pos() == 0,
    {
        Reader { data, pos: 0 }
    }

    /// The byte at the cursor, if any, without advancing.
    pub fn peek(&self) -> (r: Option<u8>)
        requires
            self.wf(),
        ensures
            r == (if self.spec_pos() < self.spec_data().len() {
                Some(self.spec_data()[self.spec_pos()])
            } else {
                None::<u8>
            }),
    {
        if self.pos < self.data.len() {
            Some(self.data[self.pos])
        } else {
            None
        }
    }

    /// Read the next two raw bytes -- the fixed-size-field entry point.
    /// Fails, leaving the cursor in place, when fewer than two bytes remain.
    pub fn read_byte_pair(&mut self) -> (r: Result<(u8, u8), Status>)
        requires
            old(self).wf(),
        ensures
            final(self).wf(),
            final(self).spec_data() == old(self).spec_data(),
            match r {
                Ok(pair) => old(self).spec_pos() + 2 <= final(self).spec_data().len()
                    && pair.0 == final(self).spec_data()[old(self).spec_pos()]
                    && pair.1 == final(self).spec_data()[old(self).spec_pos() + 1]
                    && final(self).spec_pos() == old(self).spec_pos() + 2,
                Err(e) => old(self).spec_pos() + 2 > final(self).spec_data().len()
                    && e == Status::IncorrectDataParameter
                    && final(self).spec_pos() == old(self).spec_pos(),
            },
    {
        if self.data.len() - self.pos < 2 {
            return Err(Status::IncorrectDataParameter);
        }
        let first = self.data[self.pos];
        let second = self.data[self.pos + 1];
        self.pos = self.pos + 2;
        Ok((first, second))
    }

    /// Decode the next record: tag byte, length, then exactly that many
    /// value bytes, handed out as a borrowed slice.  On success the cursor
    /// advances past the record; on failure it stays in place and the
    /// buffer holds no well-formed record at the old position.
    #[verifier::loop_isolation(false)]
    pub fn decode_next(&mut self) -> (r: Result<(u8, &'a [u8]), Status>)
        requires
            old(self).wf(),
        ensures
            final(self).wf(),
            final(self).spec_data() == old(self).spec_data(),
            match r {
                Ok(rec) => spec_record(final(self).spec_data(), old(self).spec_pos()) == Some(
                    SpecRecord { tag: rec.0, value: rec.1@, end: final(self).spec_pos() },
                ),
                Err(e) => spec_record(final(self).spec_data(), old(self).spec_pos()) is None
                    && e == Status::IncorrectDataParameter
                    && final(self).spec_pos() == old(self).spec_pos(),
            },
    {
        if self.data.len() - self.pos < 2 {
            return Err(Status::IncorrectDataParameter);
        }
        let tag = self.data[self.pos];
        let first = self.data[self.pos + 1];
        if first < 0x80 {
            self.take_value(tag, self.pos + 2, first as usize)
        } else if first == 0x80 || first == 0xff {
            Err(Status::IncorrectDataParameter)
        } else {
            let n = (first - 0x80) as usize;
            if self.data.len() - (self.pos + 2) < n {
                return Err(Status::IncorrectDataParameter);
            }
            let length_start = self.pos + 2;
            let value_start = length_start + n;
            let ghost length_bytes = self.data@.subrange(length_start as int, value_start as int);
            // Room left for value bytes: a length declared beyond it fails in
            // any case, which caps the accumulator far below overflow.
            let room: usize = self.data.len() - value_start;
            let mut declared: usize = 0;
            let mut i: usize = 0;
            while i < n
                invariant
                    self.wf(),
                    length_start == self.pos + 2,
                    value_start == length_start + n,
                    value_start <= self.data@.len(),
                    room == self.data@.len() - value_start,
                    length_bytes == self.data@.subrange(length_start as int, value_start as int),
                    length_bytes.len() == n,
                    0 <= i <= n,
                    declared == be_value(length_bytes.subrange(0, i as int)),
                    declared <= room,
                decreases n - i,
            {
                let byte = self.data[length_start + i];
                let next: u128 = declared as u128 * 256 + byte as u128;
                proof {
                    assert(length_bytes.subrange(0, i + 1).drop_last() =~= length_bytes.subrange(
                        0,
                        i as int,
                    ));
                    assert(length_bytes.subrange(0, i + 1).last() == length_bytes[i as int]);
                    assert(length_bytes[i as int] == self.data@[length_start + i]);
                    assert(next == be_value(length_bytes.subrange(0, i + 1)));
                }
                if next > room as u128 {
                    proof {
                        lemma_be_value_prefix_le(length_bytes, i + 1);
                        assert(be_value(length_bytes) > room);
                    }
                    return Err(Status::IncorrectDataParameter);
                }
                declared = next as usize;
                i = i + 1;
            }
            proof {
                assert(length_bytes.subrange(0, n as int) =~= length_bytes);
            }
            self.take_value(tag, value_start, declared)
        }
    }

    /// Close the record whose value starts at `start` and is `len` bytes
    /// long, advancing the cursor past it.
    fn take_value(&mut self, tag: u8, start: usize, len: usize) -> (r: Result<
        (u8, &'a [u8]),
        Status,
    >)
        requires
            old(self).wf(),
            old(self).spec_pos() <= start <= old(self).spec_data().len(),
            spec_record(old(self).spec_data(), old(self).spec_pos()) == spec_record_with(
                old(self).spec_data(),
                tag,
                start as int,
                len as int,
            ),
        ensures
            final(self).wf(),
            final(self).spec_data() == old(self).spec_data(),
            match r {
                Ok(rec) => spec_record(final(self).spec_data(), old(self).spec_pos()) == Some(
                    SpecRecord { tag: rec.0, value: rec.1@, end: final(self).spec_pos() },
                ),
                Err(e) => spec_record(final(self).spec_data(), old(self).spec_pos()) is None
                    && e == Status::IncorrectDataParameter
                    && final(self).spec_pos() == old(self).spec_pos(),
            },
    {
        if self.data.len() - start < len {
            return Err(Status::IncorrectDataParameter);
        }
        let value = vstd::slice::slice_subrange(self.data, start, start + len);
        self.pos = start + len;
        Ok((tag, value))
    }
}

} // verus!
