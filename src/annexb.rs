//! Annex-B byte streams: NAL units separated by `00 00 01` or `00 00 00 01` start codes.
use crate::buffer::{bytes_advance, bytes_as_slice, bytes_contents, bytes_take_front};
use crate::error::Error;
use bytes::Bytes;
use vstd::prelude::*;
use vstd::slice::slice_subrange;

verus! {

/// Length of the start code that begins at offset `i` of `b`: 4 for `00 00 00 01`,
/// 3 for `00 00 01`, and 0 where none begins.
pub open spec fn start_code_len_at(b: Seq<u8>, i: int) -> nat {
    if 0 <= i && i + 4 <= b.len() && b[i] == 0 && b[i + 1] == 0 && b[i + 2] == 0 && b[i + 3] == 1 {
        4
    } else if 0 <= i && i + 3 <= b.len() && b[i] == 0 && b[i + 1] == 0 && b[i + 2] == 1 {
        3
    } else {
        0
    }
}

/// The plain scan: try every offset from `i` on, one byte at a time, and report the first
/// at which a start code begins, with its length.
pub open spec fn scan_from(b: Seq<u8>, i: int) -> Option<(int, nat)>
    decreases b.len() - i,
{
    if i < 0 || i >= b.len() {
        None
    } else if start_code_len_at(b, i) > 0 {
        Some((i, start_code_len_at(b, i)))
    } else {
        scan_from(b, i + 1)
    }
}

/// The start code at the front of `b`: its length, `None` while too few bytes are there to
/// decide, or the error that proves that `b` does not begin with one.
pub open spec fn leading_start_code(b: Seq<u8>) -> Result<Option<usize>, Error> {
    if b.len() < 3 {
        Ok(None)
    } else if b[0] != 0 || b[1] != 0 {
        Err(Error::MissingStartCode)
    } else if b[2] == 0 {
        if b.len() < 4 {
            Ok(None)
        } else if b[3] != 1 {
            Err(Error::MissingStartCode)
        } else {
            Ok(Some(4))
        }
    } else if b[2] == 1 {
        Ok(Some(3))
    } else {
        Err(Error::InvalidStartCode)
    }
}

/// Returns the length of the start code at the front of `b`, `None` when more bytes are
/// needed to decide, or an error when `b` provably does not begin with a start code.
pub fn after_start_code(b: &[u8]) -> (r: Result<Option<usize>, Error>)
    ensures
        r == leading_start_code(b@),
{
    if b.len() < 3 {
        return Ok(None);
    }
    if b[0] != 0 || b[1] != 0 {
        return Err(Error::MissingStartCode);
    }
    if b[2] == 0 {
        if b.len() < 4 {
            Ok(None)
        } else if b[3] != 1 {
            Err(Error::MissingStartCode)
        } else {
            Ok(Some(4))
        }
    } else if b[2] == 1 {
        Ok(Some(3))
    } else {
        Err(Error::InvalidStartCode)
    }
}

/// The front of a buffer is decided exactly when a start code stands there or the buffer
/// provably holds none: `00 00 01 ...` gives 3, `00 00 00 01 ...` gives 4, and fewer than
/// three bytes decide nothing.
pub proof fn lemma_leading_start_code(b: Seq<u8>)
    ensures
        start_code_len_at(b, 0) == 3 ==> leading_start_code(b) == Ok::<Option<usize>, Error>(
            Some(3usize),
        ),
        start_code_len_at(b, 0) == 4 ==> leading_start_code(b) == Ok::<Option<usize>, Error>(
            Some(4usize),
        ),
        b.len() < 3 ==> leading_start_code(b) == Ok::<Option<usize>, Error>(None),
        forall|k: usize| #[trigger]
            leading_start_code(b) == Ok::<Option<usize>, Error>(Some(k)) <==> k > 0
                && start_code_len_at(b, 0) == k,
{
}

/// A buffer of three or more bytes that does not begin with a start code is refused. The
/// one exception is `00 00 00` alone, which may still grow into `00 00 00 01`.
pub proof fn lemma_missing_start_code_refused(b: Seq<u8>)
    requires
        b.len() >= 3,
        start_code_len_at(b, 0) == 0,
        !(b.len() == 3 && b[0] == 0 && b[1] == 0 && b[2] == 0),
    ensures
        leading_start_code(b) is Err,
{
}

proof fn lemma_scan_skip(b: Seq<u8>, k: int, i: int)
    requires
        0 <= k <= i,
        forall|j: int| k <= j < i ==> start_code_len_at(b, j) == 0,
    ensures
        scan_from(b, k) == scan_from(b, i),
    decreases i - k,
{
    if k < i {
        lemma_scan_skip(b, k + 1, i);
    }
}

proof fn lemma_scan_none(b: Seq<u8>, i: int)
    requires
        0 <= i,
        forall|j: int| i <= j < b.len() ==> start_code_len_at(b, j) == 0,
    ensures
        scan_from(b, i) is None,
    decreases b.len() - i,
{
    if i < b.len() {
        lemma_scan_none(b, i + 1);
    }
}

proof fn lemma_scan_found(b: Seq<u8>, i: int)
    requires
        0 <= i,
    ensures
        scan_from(b, i) matches Some((o, n)) ==> i <= o && o + n <= b.len() && n > 0 && n
            == start_code_len_at(b, o),
    decreases b.len() - i,
{
    if i < b.len() && start_code_len_at(b, i) == 0 {
        lemma_scan_found(b, i + 1);
    }
}

/// Finds the first start code in `b`: the offset at which it begins and its length.
///
/// Where the byte two places ahead cannot belong to a start code the scan moves on by three
/// or four bytes at once; the result is still exactly that of the byte-by-byte scan.
pub fn find_start_code(b: &[u8]) -> (r: Option<(usize, usize)>)
    ensures
        match r {
            Some((off, len)) => scan_from(b@, 0) == Some((off as int, len as nat)),
            None => scan_from(b@, 0) is None,
        },
{
    let size = b.len();
    let mut i: usize = 0;
    while size - i >= 3
        invariant
            i <= size,
            size == b@.len(),
            forall|j: int| 0 <= j < i ==> start_code_len_at(b@, j) == 0,
        decreases size - i,
    {
        let c2 = b[i + 2];
        if c2 == 0 {
            if size - i >= 4 {
                let c3 = b[i + 3];
                if c3 == 1 {
                    if b[i + 1] == 0 {
                        if b[i] == 0 {
                            proof {
                                lemma_scan_skip(b@, 0, i as int);
                            }
                            return Some((i, 4));
                        } else {
                            proof {
                                lemma_scan_skip(b@, 0, i + 1);
                            }
                            return Some((i + 1, 3));
                        }
                    } else {
                        i = i + 4;
                    }
                } else if c3 == 0 {
                    i = i + 1;
                } else {
                    i = i + 4;
                }
            } else {
                proof {
                    lemma_scan_skip(b@, 0, i as int);
                    lemma_scan_none(b@, i as int);
                }
                return None;
            }
        } else if c2 == 1 && b[i + 1] == 0 && b[i] == 0 {
            proof {
                lemma_scan_skip(b@, 0, i as int);
            }
            return Some((i, 3));
        } else {
            i = i + 3;
        }
    }
    proof {
        lemma_scan_skip(b@, 0, i as int);
        lemma_scan_none(b@, i as int);
    }
    None
}

/// Where the current NAL unit starts: the cached length of the start code already known to
/// stand at the front, else the one found there now.
pub open spec fn resolve_start(cached: Option<usize>, b: Seq<u8>) -> Result<Option<usize>, Error> {
    match cached {
        Some(s) => Ok(Some(s)),
        None => leading_start_code(b),
    }
}

/// One step of the iteration over `b` from the cached start `cached`: the unit yielded (if
/// any), the number of bytes consumed from the front of `b`, and the start cached afterwards.
pub open spec fn nal_step(cached: Option<usize>, b: Seq<u8>) -> (
    Option<Result<Seq<u8>, Error>>,
    int,
    Option<usize>,
) {
    match resolve_start(cached, b) {
        Err(e) => (Some(Err(e)), 0, cached),
        Ok(None) => (None, 0, cached),
        Ok(Some(s)) => match scan_from(b.skip(s as int), 0) {
            None => (None, 0, cached),
            Some((size, len)) => (
                Some(Ok(b.subrange(s as int, s + size))),
                s + size,
                Some(len as usize),
            ),
        },
    }
}

/// What a final flush of `b` from the cached start `cached` yields: everything after the
/// start code, `None` while too few bytes are there to hold one, or the error.
pub open spec fn nal_flush(cached: Option<usize>, b: Seq<u8>) -> Result<Option<Seq<u8>>, Error> {
    match resolve_start(cached, b) {
        Err(e) => Err(e),
        Ok(None) => Ok(None),
        Ok(Some(s)) => Ok(Some(b.skip(s as int))),
    }
}

/// The bytes of a unit handed out by the iterator.
pub open spec fn unit_view(r: Option<Result<Bytes, Error>>) -> Option<Result<Seq<u8>, Error>> {
    match r {
        None => None,
        Some(Ok(nal)) => Some(Ok(bytes_contents(nal))),
        Some(Err(e)) => Some(Err(e)),
    }
}

/// The bytes of the unit handed out by a flush.
pub open spec fn flush_view(r: Result<Option<Bytes>, Error>) -> Result<Option<Seq<u8>>, Error> {
    match r {
        Ok(None) => Ok(None),
        Ok(Some(nal)) => Ok(Some(bytes_contents(nal))),
        Err(e) => Err(e),
    }
}

/// Two adjacent start codes enclose an empty NAL unit, which is yielded: it is neither
/// skipped nor refused.
pub proof fn lemma_adjacent_start_codes(cached: Option<usize>, b: Seq<u8>)
    requires
        start_code_len_at(b, 0) > 0,
        start_code_len_at(b, start_code_len_at(b, 0) as int) > 0,
        cached is None || cached == Some(start_code_len_at(b, 0) as usize),
    ensures
        nal_step(cached, b).0 == Some(Ok::<Seq<u8>, Error>(Seq::<u8>::empty())),
{
    let k = start_code_len_at(b, 0) as usize;
    lemma_leading_start_code(b);
    assert(b.subrange(k as int, k as int) =~= Seq::<u8>::empty());
}

/// Splits an Annex-B buffer into NAL units across calls. The caller threads the buffer
/// through each call; between calls the iterator remembers the length of the start code
/// that it already found at the buffer's front, so those bytes are not examined again.
pub struct NalIterator {
    start: Option<usize>,
}

impl NalIterator {
    /// The length of the start code known to stand at the front of the buffer, if any.
    pub closed spec fn cached_start(&self) -> Option<usize> {
        self.start
    }

    /// The cached start, if any, is that of the start code at the front of `b`.
    pub open spec fn valid_for(&self, b: Seq<u8>) -> bool {
        match self.cached_start() {
            None => true,
            Some(s) => s > 0 && start_code_len_at(b, 0) == s,
        }
    }

    pub fn new() -> (r: Self)
        ensures
            r.cached_start() is None,
    {
        NalIterator { start: None }
    }

    /// Yields the next complete NAL unit (the bytes between its start code and the next one)
    /// and removes it and its start code from the front of `buf`. Yields nothing, and leaves
    /// `buf` alone, while no further start code is in the buffer: more data may follow.
    pub fn next(&mut self, buf: &mut Bytes) -> (r: Option<Result<Bytes, Error>>)
        requires
            old(self).valid_for(bytes_contents(*old(buf))),
        ensures
            unit_view(r) == nal_step(old(self).cached_start(), bytes_contents(*old(buf))).0,
            bytes_contents(*final(buf)) == bytes_contents(*old(buf)).skip(
                nal_step(old(self).cached_start(), bytes_contents(*old(buf))).1,
            ),
            final(self).cached_start() == nal_step(
                old(self).cached_start(),
                bytes_contents(*old(buf)),
            ).2,
            final(self).valid_for(bytes_contents(*final(buf))),
    {
        let ghost b = bytes_contents(*buf);
        let start = match self.start {
            Some(start) => start,
            None => match after_start_code(bytes_as_slice(buf)) {
                Ok(Some(start)) => start,
                Ok(None) => return None,
                Err(e) => return Some(Err(e)),
            },
        };
        let found = {
            let data = bytes_as_slice(buf);
            find_start_code(slice_subrange(data, start, data.len()))
        };
        match found {
            None => None,
            Some((size, new_start)) => {
                proof {
                    lemma_scan_found(b.skip(start as int), 0);
                }
                bytes_advance(buf, start);
                let nal = bytes_take_front(buf, size);
                self.start = Some(new_start);
                proof {
                    assert(b.skip(start as int).skip(size as int) =~= b.skip(start + size));
                    assert(bytes_contents(nal) =~= b.subrange(start as int, start + size));
                }
                Some(Ok(nal))
            },
        }
    }

    /// Hands out everything after the current start code as the last NAL unit, for a caller
    /// that knows no further start code will come (the end of the stream). Yields `None`
    /// while the buffer is too short to hold a start code.
    pub fn flush(self, buf: &mut Bytes) -> (r: Result<Option<Bytes>, Error>)
        requires
            self.valid_for(bytes_contents(*old(buf))),
        ensures
            flush_view(r) == nal_flush(self.cached_start(), bytes_contents(*old(buf))),
            bytes_contents(*final(buf)) == (if r is Ok && r->Ok_0 is Some {
                Seq::<u8>::empty()
            } else {
                bytes_contents(*old(buf))
            }),
    {
        let ghost b = bytes_contents(*buf);
        let start = match self.start {
            Some(start) => start,
            None => match after_start_code(bytes_as_slice(buf)) {
                Ok(Some(start)) => start,
                Ok(None) => return Ok(None),
                Err(e) => return Err(e),
            },
        };
        bytes_advance(buf, start);
        let len = bytes_as_slice(buf).len();
        let nal = bytes_take_front(buf, len);
        proof {
            assert(bytes_contents(nal) =~= b.skip(start as int));
            assert(bytes_contents(*buf) =~= Seq::<u8>::empty());
        }
        Ok(Some(nal))
    }
}

} // verus!
