//! A stretch of reserved address room of which a prefix can be used.

use crate::mmap_pool::try_take;
use crate::text::{decimal, decimal_text};
use vstd::prelude::*;

verus! {

/// A stretch of `total` reserved bytes. The first bytes of it can be read and
/// written; the rest is only set aside.
///
/// `base` is what the mapping is told from others by, and nothing more: the bytes
/// do not lie there. It is the address of `place`, one byte that the mapping owns
/// for life and never looks at, so two mappings that exist together differ in it.
pub struct Mmap {
    base: usize,
    place: Vec<u8>,
    bytes: Vec<u8>,
    total: usize,
}

/// Why a mapping of `len` bytes was refused.
pub open spec fn refused_text(len: nat) -> Seq<char> {
    "cannot map "@ + decimal(len) + " bytes"@
}

/// The `accessible` bytes of a fresh mapping: what the backing file holds, and zeros
/// behind its end.
pub open spec fn fresh_bytes(accessible: nat, file: Seq<u8>) -> Seq<u8> {
    Seq::new(
        accessible,
        |i: int|
            if i < file.len() {
                file[i]
            } else {
                0u8
            },
    )
}

/// `bytes` with zeros behind them up to `len`.
pub open spec fn zero_extended(bytes: Seq<u8>, len: nat) -> Seq<u8> {
    Seq::new(
        if bytes.len() <= len {
            len
        } else {
            bytes.len()
        },
        |i: int|
            if i < bytes.len() {
                bytes[i]
            } else {
                0u8
            },
    )
}

/// `bytes` with `data` written over them from `start` on.
pub open spec fn overwritten(bytes: Seq<u8>, start: int, data: Seq<u8>) -> Seq<u8> {
    Seq::new(
        bytes.len(),
        |i: int|
            if start <= i < start + data.len() {
                data[i - start]
            } else {
                bytes[i]
            },
    )
}

/// `bytes` with zeros in `[start, end)`.
pub open spec fn zeroed(bytes: Seq<u8>, start: int, end: int) -> Seq<u8> {
    Seq::new(
        bytes.len(),
        |i: int|
            if start <= i < end {
                0u8
            } else {
                bytes[i]
            },
    )
}

/// Puts zeros behind `bytes` up to `len`.
fn extend_with_zeros(bytes: &mut Vec<u8>, len: usize)
    ensures
        final(bytes)@ == zero_extended(old(bytes)@, len as nat),
{
    if bytes.len() < len {
        bytes.resize(len, 0);
        assert forall|i: int| 0 <= i < old(bytes)@.len() implies bytes@[i] == old(bytes)@[i] by {
            assert(bytes@.subrange(0, old(bytes)@.len() as int)[i] == bytes@[i]);
        }
    }
    assert(bytes@ =~= zero_extended(old(bytes)@, len as nat));
}

/// `Vec::as_ptr`: where the buffer of `bytes` lies now. An address is the
/// machine's choice, so nothing is claimed of it.
#[verifier::external_body]
fn buffer_address(bytes: &Vec<u8>) -> (address: usize) {
    bytes.as_ptr() as usize
}

impl Mmap {
    /// What the mapping is told from others by.
    pub closed spec fn base(&self) -> usize {
        self.base
    }

    /// The usable bytes.
    pub closed spec fn bytes(&self) -> Seq<u8> {
        self.bytes@
    }

    /// All bytes that are set aside, usable or not.
    pub closed spec fn total(&self) -> nat {
        self.total as nat
    }

    /// The usable bytes lie within what is set aside, and that within what one
    /// allocation can have.
    pub open spec fn wf(&self) -> bool {
        self.bytes().len() <= self.total() <= isize::MAX
    }

    /// Sets `mapping` bytes aside and makes the first `accessible` of them
    /// usable. A backing file's bytes show through from the start of the
    /// mapping, as far as it is usable.
    pub fn accessible_reserved(accessible: usize, mapping: usize, file: &[u8]) -> (mapped: Result<
        Mmap,
        String,
    >)
        requires
            accessible <= mapping,
        ensures
            match mapped {
                Ok(m) => {
                    &&& mapping <= isize::MAX
                    &&& m.wf()
                    &&& m.total() == mapping
                    &&& m.bytes() == fresh_bytes(accessible as nat, file@)
                },
                Err(text) => mapping > isize::MAX && text@ == refused_text(mapping as nat),
            },
    {
        if let Some(pooled) = try_take(accessible, mapping) {
            return Ok(pooled);
        }
        if mapping > isize::MAX as usize {
            let mut text = "cannot map ".to_owned();
            text.append(decimal_text(mapping as u64).as_str());
            text.append(" bytes");
            return Err(text);
        }
        let from_file: usize = if file.len() <= accessible {
            file.len()
        } else {
            accessible
        };
        let mut bytes: Vec<u8> = vstd::slice::slice_to_vec(
            vstd::slice::slice_subrange(file, 0, from_file),
        );
        extend_with_zeros(&mut bytes, accessible);
        assert(bytes@ =~= fresh_bytes(accessible as nat, file@));
        let place: Vec<u8> = vec![0];
        let base: usize = buffer_address(&place);
        Ok(Mmap { base, place, bytes, total: mapping })
    }

    /// The same mapping, told from `other`. Addresses of two bytes that exist
    /// together differ, but nothing is claimed of an address; so that nothing hangs on
    /// it, one that did not differ gives way to a number at which no byte lies.
    pub fn apart_from(self, other: &Mmap) -> (mapping: Mmap)
        ensures
            mapping.base() != other.base(),
            mapping.total() == self.total(),
            mapping.bytes() == self.bytes(),
    {
        let base: usize = if self.base != other.base {
            self.base
        } else if other.base != 0 {
            0
        } else {
            1
        };
        Mmap { base, place: self.place, bytes: self.bytes, total: self.total }
    }

    /// Makes `[start, start + len)` usable as well; new bytes are zero.
    pub fn make_accessible(&mut self, start: usize, len: usize)
        requires
            old(self).wf(),
            start <= old(self).bytes().len(),
            start + len <= old(self).total(),
        ensures
            final(self).wf(),
            final(self).base() == old(self).base(),
            final(self).total() == old(self).total(),
            final(self).bytes() == zero_extended(old(self).bytes(), (start + len) as nat),
    {
        extend_with_zeros(&mut self.bytes, start + len);
    }

    /// What the mapping is told from others by.
    pub fn as_ptr(&self) -> (base: usize)
        ensures
            base == self.base(),
    {
        self.base
    }

    /// All bytes that are set aside, usable or not.
    pub fn len(&self) -> (len: usize)
        ensures
            len == self.total(),
    {
        self.total
    }

    /// The usable bytes.
    pub fn as_slice_accessible(&self) -> (bytes: &[u8])
        ensures
            bytes@ == self.bytes(),
    {
        self.bytes.as_slice()
    }

    /// Writes `data` over the usable bytes from `start` on.
    pub fn write(&mut self, start: usize, data: &[u8])
        requires
            start + data@.len() <= old(self).bytes().len(),
        ensures
            final(self).base() == old(self).base(),
            final(self).total() == old(self).total(),
            final(self).bytes() == overwritten(old(self).bytes(), start as int, data@),
    {
        let mut i: usize = 0;
        assert(self.bytes.len() <= usize::MAX);
        while i < data.len()
            invariant
                start + data@.len() <= usize::MAX,
                i <= data@.len(),
                start + data@.len() <= old(self).bytes@.len(),
                self.bytes@.len() == old(self).bytes@.len(),
                self.base == old(self).base,
                self.total == old(self).total,
                forall|k: int|
                    0 <= k < self.bytes@.len() ==> self.bytes@[k] == (if start <= k < start + i {
                        data@[k - start]
                    } else {
                        old(self).bytes@[k]
                    }),
            decreases data@.len() - i,
        {
            self.bytes[start + i] = data[i];
            i = i + 1;
        }
        assert(self.bytes@ =~= overwritten(old(self).bytes@, start as int, data@));
    }

    /// Writes zeros over the usable bytes `[start, end)`.
    pub fn zero(&mut self, start: usize, end: usize)
        requires
            start <= end <= old(self).bytes().len(),
        ensures
            final(self).base() == old(self).base(),
            final(self).total() == old(self).total(),
            final(self).bytes() == zeroed(old(self).bytes(), start as int, end as int),
    {
        let mut i: usize = start;
        while i < end
            invariant
                start <= i <= end <= old(self).bytes@.len(),
                self.bytes@.len() == old(self).bytes@.len(),
                self.base == old(self).base,
                self.total == old(self).total,
                forall|k: int|
                    0 <= k < self.bytes@.len() ==> self.bytes@[k] == (if start <= k < i {
                        0u8
                    } else {
                        old(self).bytes@[k]
                    }),
            decreases end - i,
        {
            self.bytes[i] = 0;
            i = i + 1;
        }
        assert(self.bytes@ =~= zeroed(old(self).bytes@, start as int, end as int));
    }

    /// A mapping of its own with the same extents. Of the usable bytes the first
    /// `used` are the same, and the others are zero.
    pub fn copy(&self, used: usize) -> (copy: Mmap)
        requires
            self.wf(),
        ensures
            copy.wf(),
            copy.base() != self.base(),
            copy.total() == self.total(),
            copy.bytes() == zeroed(self.bytes(), used as int, self.bytes().len() as int),
    {
        let kept: usize = if used <= self.bytes.len() {
            used
        } else {
            self.bytes.len()
        };
        let mut bytes: Vec<u8> = vstd::slice::slice_to_vec(
            vstd::slice::slice_subrange(self.bytes.as_slice(), 0, kept),
        );
        extend_with_zeros(&mut bytes, self.bytes.len());
        assert(bytes@ =~= zeroed(self.bytes@, used as int, self.bytes@.len() as int));
        let place: Vec<u8> = vec![0];
        let base: usize = buffer_address(&place);
        let copy = Mmap { base, place, bytes, total: self.total };
        copy.apart_from(self)
    }
}

} // verus!
