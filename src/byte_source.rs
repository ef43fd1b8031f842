//! A seekable byte source over a private copy of an in-memory blob, so that the
//! demuxer reads a blob the way it reads a file.

use vstd::prelude::*;

verus! {

/// Seek mode: from the start.
pub const SEEK_SET: i32 = 0;

/// Seek mode: from the cursor.
pub const SEEK_CUR: i32 = 1;

/// Seek mode: from the end.
pub const SEEK_END: i32 = 2;

/// Seek mode: report the total size, cursor unmoved.
pub const AVSEEK_SIZE: i32 = 65536;

/// What a seek that fails returns.
pub const SEEK_FAILED: i64 = -1;

/// The bytes of a source and its cursor.
pub struct SourceView {
    pub data: Seq<u8>,
    pub pos: int,
}

/// The bytes and the cursor of the source.
pub struct WrapperAvioBuffer {
    data: Vec<u8>,
    total: i64,
    size: i64,
}

impl View for WrapperAvioBuffer {
    type V = SourceView;

    closed spec fn view(&self) -> SourceView {
        SourceView { data: self.data@, pos: self.total - self.size }
    }
}

impl WrapperAvioBuffer {
    #[verifier::type_invariant]
    spec fn inv(&self) -> bool {
        &&& self.total as int == self.data@.len()
        &&& 0 <= self.size <= self.total
    }

    /// Total size in bytes.
    pub fn total(&self) -> (r: i64)
        ensures
            r as int == self@.data.len(),
    {
        proof {
            use_type_invariant(self);
        }
        self.total
    }

    /// Bytes left after the cursor.
    pub fn remaining(&self) -> (r: i64)
        ensures
            r as int == self@.data.len() - self@.pos,
    {
        proof {
            use_type_invariant(self);
        }
        self.size
    }

    /// The cursor.
    pub fn position(&self) -> (r: i64)
        ensures
            r as int == self@.pos,
            0 <= self@.pos <= self@.data.len(),
    {
        proof {
            use_type_invariant(self);
        }
        self.total - self.size
    }
}

/// Bytes that a read of at most `max` bytes hands out.
pub open spec fn read_len(data: Seq<u8>, pos: int, max: int) -> int {
    if max < data.len() - pos {
        max
    } else {
        data.len() - pos
    }
}

/// The cursor after a positioning seek, or `None` where the request is out of
/// range: the bytes left after it must lie in `[0, total)`.
pub open spec fn seek_target(total: int, pos: int, offset: int, whence: i32) -> Option<int> {
    if whence == SEEK_SET {
        if 0 <= offset < total {
            Some(offset)
        } else {
            None
        }
    } else if whence == SEEK_CUR {
        let left = (total - pos) - offset;
        if 0 <= left < total {
            Some(pos + offset)
        } else {
            None
        }
    } else if whence == SEEK_END {
        let left = -offset;
        if 0 <= left < total {
            Some(total + offset)
        } else {
            None
        }
    } else {
        None
    }
}

/// All that successive reads of `chunk` bytes hand out from cursor `pos` on,
/// until a read hands out nothing.
pub open spec fn drain(data: Seq<u8>, pos: int, chunk: int) -> Seq<u8>
    decreases data.len() - pos,
{
    if chunk <= 0 || pos < 0 || pos >= data.len() {
        Seq::empty()
    } else {
        let n = read_len(data, pos, chunk);
        data.subrange(pos, pos + n) + drain(data, pos + n, chunk)
    }
}

/// A source holding a copy of `blob`, its cursor at the start.
pub fn wrapper_fillin_buffer(blob: &[u8]) -> (r: WrapperAvioBuffer)
    requires
        blob@.len() <= i64::MAX,
    ensures
        r@.data == blob@,
        r@.pos == 0,
{
    let mut data: Vec<u8> = Vec::new();
    let mut i: usize = 0;
    while i < blob.len()
        invariant
            i <= blob@.len(),
            data@ == blob@.subrange(0, i as int),
        decreases blob@.len() - i,
    {
        data.push(blob[i]);
        i = i + 1;
    }
    assert(data@ == blob@);
    let total = blob.len() as i64;
    WrapperAvioBuffer { data, total, size: total }
}

/// Copies at most `buf_size` bytes after the cursor to the front of `buf` and
/// moves the cursor past them; returns how many were copied (0 once exhausted).
pub fn read_packet(bd: &mut WrapperAvioBuffer, buf: &mut Vec<u8>, buf_size: i32) -> (r: i32)
    requires
        0 <= buf_size,
        buf_size as int <= old(buf)@.len(),
    ensures
        0 <= old(bd)@.pos <= old(bd)@.data.len(),
        0 <= r,
        r as int == read_len(old(bd)@.data, old(bd)@.pos, buf_size as int),
        final(bd)@.data == old(bd)@.data,
        final(bd)@.pos == old(bd)@.pos + r,
        final(buf)@.len() == old(buf)@.len(),
        final(buf)@.subrange(0, r as int) == old(bd)@.data.subrange(old(bd)@.pos, old(bd)@.pos + r),
        final(buf)@.subrange(r as int, old(buf)@.len() as int) == old(buf)@.subrange(r as int, old(buf)@.len() as int),
{
    proof {
        use_type_invariant(&*bd);
    }
    let n: i32 = if (buf_size as i64) < bd.size {
        buf_size
    } else {
        bd.size as i32
    };
    let len: usize = bd.data.len();
    let start: usize = (bd.total - bd.size) as usize;
    let ghost src = bd.data@;
    assert(start as int == old(bd)@.pos);
    let ghost orig = buf@;
    let mut i: usize = 0;
    while i < n as usize
        invariant
            0 <= n <= buf_size,
            buf_size as int <= orig.len(),
            start as int + n as int <= src.len(),
            src.len() == len,
            i <= n as usize,
            bd.data@ == src,
            buf@.len() == orig.len(),
            forall|k: int| 0 <= k < i ==> buf@[k] == src[start as int + k],
            forall|k: int| i <= k < orig.len() ==> buf@[k] == orig[k],
        decreases n as usize - i,
    {
        buf[i] = bd.data[start + i];
        i = i + 1;
    }
    bd.size = bd.size - n as i64;
    assert(buf@.subrange(0, n as int) =~= src.subrange(start as int, start as int + n as int));
    assert(buf@.subrange(n as int, orig.len() as int) =~= orig.subrange(n as int, orig.len() as int));
    n
}

/// Moves the cursor as `whence` asks; returns the new cursor, the total size
/// for a size query, or the failure sentinel with the cursor unmoved.
pub fn seek_packet(bd: &mut WrapperAvioBuffer, offset: i64, whence: i32) -> (r: i64)
    ensures
        final(bd)@.data == old(bd)@.data,
        0 <= old(bd)@.pos <= old(bd)@.data.len(),
        0 <= final(bd)@.pos <= final(bd)@.data.len(),
        whence == AVSEEK_SIZE ==> r as int == old(bd)@.data.len() && final(bd)@.pos == old(bd)@.pos,
        whence != AVSEEK_SIZE ==> match seek_target(old(bd)@.data.len() as int, old(bd)@.pos, offset as int, whence) {
            Some(p) => r as int == p && final(bd)@.pos == p,
            None => r == SEEK_FAILED && final(bd)@.pos == old(bd)@.pos,
        },
{
    proof {
        use_type_invariant(&*bd);
    }
    if whence == SEEK_SET {
        if 0 <= offset && offset < bd.total {
            bd.size = bd.total - offset;
            return offset;
        }
    } else if whence == SEEK_CUR {
        // left = size - offset, kept in [0, total)
        if offset <= bd.size && offset > bd.size - bd.total {
            bd.size = bd.size - offset;
            return bd.total - bd.size;
        }
    } else if whence == SEEK_END {
        if offset <= 0 && offset > -bd.total {
            bd.size = -offset;
            return bd.total - bd.size;
        }
    } else if whence == AVSEEK_SIZE {
        return bd.total;
    }
    SEEK_FAILED
}

/// Reading a source from its start until a read hands out nothing yields the
/// blob it was made from, whatever the positive chunk size: a blob-backed
/// container sees the very bytes that a path-backed one reads from the file.
pub proof fn lemma_reads_reproduce_blob(blob: Seq<u8>, chunk: int)
    requires
        chunk > 0,
    ensures
        drain(blob, 0, chunk) == blob,
{
    lemma_drain_suffix(blob, 0, chunk);
    assert(blob.subrange(0, blob.len() as int) =~= blob);
}

/// From any cursor in range, draining yields exactly the bytes after it.
pub proof fn lemma_drain_suffix(data: Seq<u8>, pos: int, chunk: int)
    requires
        chunk > 0,
        0 <= pos <= data.len(),
    ensures
        drain(data, pos, chunk) == data.subrange(pos, data.len() as int),
    decreases data.len() - pos,
{
    if pos < data.len() {
        let n = read_len(data, pos, chunk);
        lemma_drain_suffix(data, pos + n, chunk);
        assert(data.subrange(pos, pos + n) + data.subrange(pos + n, data.len() as int)
            =~= data.subrange(pos, data.len() as int));
    } else {
        assert(data.subrange(pos, data.len() as int) =~= Seq::<u8>::empty());
    }
}

} // verus!
