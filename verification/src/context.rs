//! A read cursor over one input binary's raw bytes, with the two dump
//! operations the pipeline uses: a verbatim byte slice of a section
//! and a human-readable hex dump.

use vstd::prelude::*;
use crate::errors::ErrorKind;

verus! {

/// The ASCII code of one lower-case hex digit.
pub open spec fn hex_digit(n: u8) -> u8 {
    if n < 10 {
        (48 + n) as u8
    } else {
        (87 + n) as u8
    }
}

/// The two hex digits of one byte, high nibble first.
pub open spec fn hex_byte(b: u8) -> Seq<u8> {
    seq![hex_digit(b / 16), hex_digit(b % 16)]
}

/// The last `k` hex digits of `a`, most significant first.
pub open spec fn hex_addr_digits(a: nat, k: nat) -> Seq<u8>
    decreases k,
{
    if k == 0 {
        Seq::empty()
    } else {
        hex_addr_digits(a / 16, (k - 1) as nat).push(hex_digit((a % 16) as u8))
    }
}

/// The dump text after the first `n` bytes: every sixteenth byte opens
/// a line with the sixteen-digit address and a tab, and every byte is
/// two digits and a space.
pub open spec fn dump_prefix(addr: int, bytes: Seq<u8>, n: int) -> Seq<u8>
    decreases n,
{
    if n <= 0 {
        Seq::empty()
    } else {
        dump_prefix(addr, bytes, n - 1) + (if (n - 1) % 16 == 0 {
            (if n - 1 > 0 {
                seq![10u8]
            } else {
                Seq::<u8>::empty()
            }) + hex_addr_digits((addr + n - 1) as nat, 16).push(9u8)
        } else {
            Seq::<u8>::empty()
        }) + hex_byte(bytes[n - 1]).push(32u8)
    }
}

/// A cursor over the memory-mapped bytes of one input binary.
pub struct FileContext<'a> {
    pub data: &'a [u8],
    pub pos: usize,
}

/// One lower-case hex digit as an ASCII byte.
fn hex_digit_exec(n: u8) -> (r: u8)
    requires
        n < 16,
    ensures
        r == hex_digit(n),
{
    if n < 10 {
        48 + n
    } else {
        87 + n
    }
}

/// Appends the last `k` hex digits of `a`, most significant first.
fn push_hex_digits(w: &mut Vec<u8>, a: usize, k: usize)
    ensures
        final(w)@ == old(w)@ + hex_addr_digits(a as nat, k as nat),
    decreases k,
{
    if k == 0 {
        proof {
            assert(old(w)@ + hex_addr_digits(a as nat, 0) =~= old(w)@);
        }
        return ;
    }
    push_hex_digits(w, a / 16, k - 1);
    w.push(hex_digit_exec((a % 16) as u8));
}

impl<'a> FileContext<'a> {
    pub fn new(payload: &'a [u8]) -> (r: FileContext<'a>)
        ensures
            r.data@ == payload@,
            r.pos == 0,
    {
        FileContext { data: payload, pos: 0 }
    }

    /// Moves the cursor to an absolute byte offset.
    pub fn seek(&mut self, offset: usize)
        ensures
            final(self).data == old(self).data,
            final(self).pos == offset,
    {
        self.pos = offset;
    }

    /// Reads the byte under the cursor and advances; reading past the
    /// end is an extraction failure.
    pub fn read_u8(&mut self) -> (r: Result<u8, ErrorKind>)
        ensures
            final(self).data == old(self).data,
            old(self).pos < old(self).data@.len() ==> (r matches Ok(b) && b == old(
                self,
            ).data@[old(self).pos as int] && final(self).pos == old(self).pos + 1),
            old(self).pos >= old(self).data@.len() ==> (r matches Err(e) && e
                == ErrorKind::ExtractionFailed && final(self).pos == old(self).pos),
    {
        if self.pos < self.data.len() {
            let b = self.data[self.pos];
            self.pos = self.pos + 1;
            Ok(b)
        } else {
            Err(ErrorKind::ExtractionFailed)
        }
    }

    /// Reads exactly `size` bytes at the cursor, verbatim: the bundle
    /// extraction path.  The section's virtual address is not needed
    /// for a raw copy.
    pub fn section_hex(&mut self, _addr: usize, size: usize) -> (r: Result<Vec<u8>, ErrorKind>)
        ensures
            final(self).data == old(self).data,
            old(self).pos + size <= old(self).data@.len() ==> (r matches Ok(w) && w@ == old(
                self,
            ).data@.subrange(old(self).pos as int, old(self).pos + size) && final(self).pos == old(
                self,
            ).pos + size),
            old(self).pos + size > old(self).data@.len() ==> (r matches Err(e) && e
                == ErrorKind::ExtractionFailed && final(self).pos == old(self).pos),
    {
        if self.pos > self.data.len() || size > self.data.len() - self.pos {
            return Err(ErrorKind::ExtractionFailed);
        }
        let mut w: Vec<u8> = Vec::new();
        let mut off: usize = 0;
        while off < size
            invariant
                self.data == old(self).data,
                self.pos == old(self).pos + off,
                off <= size,
                old(self).pos + size <= self.data@.len(),
                w@ =~= old(self).data@.subrange(old(self).pos as int, old(self).pos + off),
            decreases size - off,
        {
            let b = match self.read_u8() {
                Ok(b) => b,
                Err(_) => unreached(),
            };
            w.push(b);
            off = off + 1;
            proof {
                assert(w@ =~= old(self).data@.subrange(old(self).pos as int, old(self).pos + off));
            }
        }
        Ok(w)
    }

    /// Renders `size` bytes at the cursor as a classic hex dump:
    /// sixteen bytes per line, each line opened by the address.
    pub fn hexdump(&mut self, addr: usize, size: usize) -> (r: Result<Vec<u8>, ErrorKind>)
        requires
            addr + size <= usize::MAX,
        ensures
            final(self).data == old(self).data,
            old(self).pos + size <= old(self).data@.len() ==> (r matches Ok(w) && w@
                == dump_prefix(
                addr as int,
                old(self).data@.subrange(old(self).pos as int, old(self).pos + size),
                size as int,
            ).push(10u8) && final(self).pos == old(self).pos + size),
            old(self).pos + size > old(self).data@.len() ==> (r matches Err(e) && e
                == ErrorKind::ExtractionFailed && final(self).pos == old(self).pos),
    {
        if self.pos > self.data.len() || size > self.data.len() - self.pos {
            return Err(ErrorKind::ExtractionFailed);
        }
        let ghost bytes = self.data@.subrange(self.pos as int, self.pos + size);
        let mut w: Vec<u8> = Vec::new();
        let mut off: usize = 0;
        while off < size
            invariant
                self.data == old(self).data,
                self.pos == old(self).pos + off,
                off <= size,
                addr + size <= usize::MAX,
                old(self).pos + size <= self.data@.len(),
                bytes == self.data@.subrange(old(self).pos as int, old(self).pos + size),
                w@ == dump_prefix(addr as int, bytes, off as int),
            decreases size - off,
        {
            if off % 16 == 0 {
                if off > 0 {
                    w.push(10u8);
                }
                push_hex_digits(&mut w, addr + off, 16);
                w.push(9u8);
            }
            let b = match self.read_u8() {
                Ok(b) => b,
                Err(_) => unreached(),
            };
            proof {
                assert(b == bytes[off as int]);
            }
            w.push(hex_digit_exec(b / 16));
            w.push(hex_digit_exec(b % 16));
            w.push(32u8);
            off = off + 1;
            proof {
                assert(w@ =~= dump_prefix(addr as int, bytes, off as int));
            }
        }
        w.push(10u8);
        proof {
            assert(w@ =~= dump_prefix(addr as int, bytes, size as int).push(10u8));
        }
        Ok(w)
    }
}

} // verus!
