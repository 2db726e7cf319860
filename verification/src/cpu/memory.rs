use vstd::prelude::*;

use crate::trap::Trap;

verus! {

/// The little-endian 16-bit value of bytes `i` and `i + 1` of `s`.
pub open spec fn spec_le16(s: Seq<u8>, i: int) -> u16 {
    (s[i] as u16) | ((s[i + 1] as u16) << 8)
}

/// The little-endian 32-bit value of bytes `i` to `i + 3` of `s`.
pub open spec fn spec_le32(s: Seq<u8>, i: int) -> u32 {
    (s[i] as u32) | ((s[i + 1] as u32) << 8) | ((s[i + 2] as u32) << 16) | ((s[i + 3] as u32) << 24)
}

/// The little-endian 64-bit value of bytes `i` to `i + 7` of `s`.
pub open spec fn spec_le64(s: Seq<u8>, i: int) -> u64 {
    (s[i] as u64) | ((s[i + 1] as u64) << 8) | ((s[i + 2] as u64) << 16) | ((s[i + 3] as u64) << 24)
        | ((s[i + 4] as u64) << 32) | ((s[i + 5] as u64) << 40) | ((s[i + 6] as u64) << 48)
        | ((s[i + 7] as u64) << 56)
}

/// `s` with the `n` little-endian bytes of `v` stored from `i` on.
pub open spec fn spec_store_le(s: Seq<u8>, i: int, v: u64, n: nat) -> Seq<u8>
    decreases n,
{
    if n == 0 {
        s
    } else {
        spec_store_le(s.update(i, v as u8), i + 1, v >> 8, (n - 1) as nat)
    }
}

/// `m` with `bytes` stored from offset `at` on.
pub open spec fn spliced(m: Seq<u8>, at: int, bytes: Seq<u8>) -> Seq<u8> {
    m.subrange(0, at) + bytes + m.subrange(at + bytes.len(), m.len() as int)
}

/// Whether `n` bytes from `addr` lie inside a memory of `len` bytes.
pub open spec fn in_bounds(addr: u64, n: nat, len: nat) -> bool {
    addr + n <= len
}

/// Guest RAM: a flat array of bytes, addressed from 0.
pub struct Memory {
    data: Vec<u8>,
}

impl Memory {
    /// The bytes of the memory.
    pub closed spec fn view(&self) -> Seq<u8> {
        self.data@
    }

    pub fn new(size: usize) -> (m: Memory)
        ensures
            m.view() == Seq::new(size as nat, |i: int| 0u8),
    {
        let data: Vec<u8> = vec![0u8; size];
        assert(data@ =~= Seq::new(size as nat, |i: int| 0u8)) by {
            assert forall|i: int| 0 <= i < size implies data@[i] == 0u8 by {
                assert(cloned(0u8, data@[i]));
            }
        }
        Memory { data }
    }

    pub fn size(&self) -> (n: usize)
        ensures
            n == self.view().len(),
    {
        self.data.len()
    }

    /// Copies `buffer.len()` bytes starting at `addr` into `buffer`.
    pub fn read_bulk(&self, addr: u64, buffer: &mut [u8]) -> (r: Result<(), Trap>)
        ensures
            final(buffer)@.len() == old(buffer)@.len(),
            r is Ok <==> in_bounds(addr, old(buffer)@.len(), self.view().len()),
            r is Ok ==> final(buffer)@ == self.view().subrange(
                addr as int,
                addr + old(buffer)@.len(),
            ),
            r is Err ==> r == Err::<(), Trap>(Trap::LoadAccessFault(addr)) && final(buffer)@ == old(
                buffer,
            )@,
    {
        let len = self.data.len();
        let n = buffer.len();
        if addr > len as u64 || (len as u64 - addr) < n as u64 {
            return Err(Trap::LoadAccessFault(addr));
        }
        let start = addr as usize;
        let mut i: usize = 0;
        while i < n
            invariant
                start + n <= len,
                len == self.data.len(),
                n == buffer@.len(),
                start == addr,
                0 <= i <= n,
                forall|k: int| 0 <= k < i ==> buffer@[k] == self.data@[start + k],
            decreases n - i,
        {
            buffer[i] = self.data[start + i];
            i += 1;
        }
        assert(buffer@ =~= self.view().subrange(addr as int, addr + n));
        Ok(())
    }

    pub fn read8(&self, addr: u64) -> (r: Result<u8, Trap>)
        ensures
            r == if in_bounds(addr, 1, self.view().len()) {
                Ok(self.view()[addr as int])
            } else {
                Err(Trap::LoadAccessFault(addr))
            },
    {
        if addr < self.data.len() as u64 {
            Ok(self.data[addr as usize])
        } else {
            Err(Trap::LoadAccessFault(addr))
        }
    }

    pub fn read16(&self, addr: u64) -> (r: Result<u16, Trap>)
        ensures
            r == if in_bounds(addr, 2, self.view().len()) {
                Ok(spec_le16(self.view(), addr as int))
            } else {
                Err(Trap::LoadAccessFault(addr))
            },
    {
        let len = self.data.len() as u64;
        if addr <= len && len - addr >= 2 {
            let i = addr as usize;
            Ok((self.data[i] as u16) | ((self.data[i + 1] as u16) << 8))
        } else {
            Err(Trap::LoadAccessFault(addr))
        }
    }

    pub fn read32(&self, addr: u64) -> (r: Result<u32, Trap>)
        ensures
            r == if in_bounds(addr, 4, self.view().len()) {
                Ok(spec_le32(self.view(), addr as int))
            } else {
                Err(Trap::LoadAccessFault(addr))
            },
    {
        let len = self.data.len() as u64;
        if addr <= len && len - addr >= 4 {
            let i = addr as usize;
            Ok((self.data[i] as u32) | ((self.data[i + 1] as u32) << 8) | ((self.data[i + 2] as u32)
                << 16) | ((self.data[i + 3] as u32) << 24))
        } else {
            Err(Trap::LoadAccessFault(addr))
        }
    }

    pub fn read64(&self, addr: u64) -> (r: Result<u64, Trap>)
        ensures
            r == if in_bounds(addr, 8, self.view().len()) {
                Ok(spec_le64(self.view(), addr as int))
            } else {
                Err(Trap::LoadAccessFault(addr))
            },
    {
        let len = self.data.len() as u64;
        if addr <= len && len - addr >= 8 {
            let i = addr as usize;
            Ok((self.data[i] as u64) | ((self.data[i + 1] as u64) << 8) | ((self.data[i + 2] as u64)
                << 16) | ((self.data[i + 3] as u64) << 24) | ((self.data[i + 4] as u64) << 32) | ((
            self.data[i + 5] as u64) << 40) | ((self.data[i + 6] as u64) << 48) | ((self.data[i
                + 7] as u64) << 56))
        } else {
            Err(Trap::LoadAccessFault(addr))
        }
    }

    /// Reads a byte that the caller knows to lie inside memory.
    pub fn read8_unchecked(&self, addr: u64) -> (v: u8)
        requires
            in_bounds(addr, 1, self.view().len()),
        ensures
            v == self.view()[addr as int],
    {
        let _len: usize = self.data.len();
        self.data[addr as usize]
    }

    /// Reads a little-endian 16-bit value that the caller knows to lie inside memory.
    pub fn read16_unchecked(&self, addr: u64) -> (v: u16)
        requires
            in_bounds(addr, 2, self.view().len()),
        ensures
            v == spec_le16(self.view(), addr as int),
    {
        let _len: usize = self.data.len();
        let i = addr as usize;
        (self.data[i] as u16) | ((self.data[i + 1] as u16) << 8)
    }

    /// Reads a little-endian 32-bit value that the caller knows to lie inside memory.
    pub fn read32_unchecked(&self, addr: u64) -> (v: u32)
        requires
            in_bounds(addr, 4, self.view().len()),
        ensures
            v == spec_le32(self.view(), addr as int),
    {
        let _len: usize = self.data.len();
        let i = addr as usize;
        (self.data[i] as u32) | ((self.data[i + 1] as u32) << 8) | ((self.data[i + 2] as u32) << 16)
            | ((self.data[i + 3] as u32) << 24)
    }

    /// Reads a little-endian 64-bit value that the caller knows to lie inside memory.
    pub fn read64_unchecked(&self, addr: u64) -> (v: u64)
        requires
            in_bounds(addr, 8, self.view().len()),
        ensures
            v == spec_le64(self.view(), addr as int),
    {
        let _len: usize = self.data.len();
        let i = addr as usize;
        (self.data[i] as u64) | ((self.data[i + 1] as u64) << 8) | ((self.data[i + 2] as u64) << 16)
            | ((self.data[i + 3] as u64) << 24) | ((self.data[i + 4] as u64) << 32) | ((self.data[i
            + 5] as u64) << 40) | ((self.data[i + 6] as u64) << 48) | ((self.data[i + 7] as u64)
            << 56)
    }

    /// Stores the low `n` bytes of `v` from `addr` on, little-endian.
    fn store_le(&mut self, addr: u64, v: u64, n: u64)
        requires
            in_bounds(addr, n as nat, old(self).view().len()),
            n <= 8,
        ensures
            final(self).view() == spec_store_le(old(self).view(), addr as int, v, n as nat),
        decreases n,
    {
        if n > 0 {
            let len = self.data.len();
            assert(addr < len);
            let i = addr as usize;
            self.data.set(i, v as u8);
            self.store_le(addr + 1, v >> 8, n - 1);
        }
    }

    pub fn write8(&mut self, addr: u64, value: u8) -> (r: Result<(), Trap>)
        ensures
            r is Ok <==> in_bounds(addr, 1, old(self).view().len()),
            r is Ok ==> final(self).view() == old(self).view().update(addr as int, value),
            final(self).view().len() == old(self).view().len(),
            r is Err ==> r == Err::<(), Trap>(Trap::StoreAccessFault(addr)) && final(self).view()
                == old(self).view(),
    {
        if addr < self.data.len() as u64 {
            self.data.set(addr as usize, value);
            Ok(())
        } else {
            Err(Trap::StoreAccessFault(addr))
        }
    }

    pub fn write16(&mut self, addr: u64, value: u16) -> (r: Result<(), Trap>)
        ensures
            r is Ok <==> in_bounds(addr, 2, old(self).view().len()),
            r is Ok ==> final(self).view() == spec_store_le(old(self).view(), addr as int, value as u64, 2),
            final(self).view().len() == old(self).view().len(),
            r is Err ==> r == Err::<(), Trap>(Trap::StoreAccessFault(addr)) && final(self).view()
                == old(self).view(),
    {
        let len = self.data.len() as u64;
        if addr <= len && len - addr >= 2 {
            self.store_le(addr, value as u64, 2);
            proof {
                lemma_store_le_frame(old(self).view(), addr as int, value as u64, 2);
            }
            Ok(())
        } else {
            Err(Trap::StoreAccessFault(addr))
        }
    }

    pub fn write32(&mut self, addr: u64, value: u32) -> (r: Result<(), Trap>)
        ensures
            r is Ok <==> in_bounds(addr, 4, old(self).view().len()),
            r is Ok ==> final(self).view() == spec_store_le(old(self).view(), addr as int, value as u64, 4),
            final(self).view().len() == old(self).view().len(),
            r is Err ==> r == Err::<(), Trap>(Trap::StoreAccessFault(addr)) && final(self).view()
                == old(self).view(),
    {
        let len = self.data.len() as u64;
        if addr <= len && len - addr >= 4 {
            self.store_le(addr, value as u64, 4);
            proof {
                lemma_store_le_frame(old(self).view(), addr as int, value as u64, 4);
            }
            Ok(())
        } else {
            Err(Trap::StoreAccessFault(addr))
        }
    }

    pub fn write64(&mut self, addr: u64, value: u64) -> (r: Result<(), Trap>)
        ensures
            r is Ok <==> in_bounds(addr, 8, old(self).view().len()),
            r is Ok ==> final(self).view() == spec_store_le(old(self).view(), addr as int, value, 8),
            final(self).view().len() == old(self).view().len(),
            r is Err ==> r == Err::<(), Trap>(Trap::StoreAccessFault(addr)) && final(self).view()
                == old(self).view(),
    {
        let len = self.data.len() as u64;
        if addr <= len && len - addr >= 8 {
            self.store_le(addr, value, 8);
            proof {
                lemma_store_le_frame(old(self).view(), addr as int, value, 8);
            }
            Ok(())
        } else {
            Err(Trap::StoreAccessFault(addr))
        }
    }

    /// Writes a byte that the caller knows to lie inside memory.
    pub fn write8_unchecked(&mut self, addr: u64, value: u8)
        requires
            in_bounds(addr, 1, old(self).view().len()),
        ensures
            final(self).view() == old(self).view().update(addr as int, value),
    {
        let _len: usize = self.data.len();
        self.data.set(addr as usize, value);
    }

    /// Writes a little-endian 16-bit value that the caller knows to lie inside memory.
    pub fn write16_unchecked(&mut self, addr: u64, value: u16)
        requires
            in_bounds(addr, 2, old(self).view().len()),
        ensures
            final(self).view() == spec_store_le(old(self).view(), addr as int, value as u64, 2),
    {
        self.store_le(addr, value as u64, 2);
    }

    /// Writes a little-endian 32-bit value that the caller knows to lie inside memory.
    pub fn write32_unchecked(&mut self, addr: u64, value: u32)
        requires
            in_bounds(addr, 4, old(self).view().len()),
        ensures
            final(self).view() == spec_store_le(old(self).view(), addr as int, value as u64, 4),
    {
        self.store_le(addr, value as u64, 4);
    }

    /// Writes a little-endian 64-bit value that the caller knows to lie inside memory.
    pub fn write64_unchecked(&mut self, addr: u64, value: u64)
        requires
            in_bounds(addr, 8, old(self).view().len()),
        ensures
            final(self).view() == spec_store_le(old(self).view(), addr as int, value, 8),
    {
        self.store_le(addr, value, 8);
    }

    /// Copies `bytes` into memory starting at `addr`.
    pub fn load(&mut self, addr: u64, bytes: &[u8]) -> (r: Result<(), Trap>)
        ensures
            r is Ok <==> in_bounds(addr, bytes@.len(), old(self).view().len()),
            final(self).view().len() == old(self).view().len(),
            r is Ok ==> final(self).view() == old(self).view().subrange(0, addr as int) + bytes@
                + old(self).view().subrange(addr + bytes@.len(), old(self).view().len() as int),
            r is Err ==> r == Err::<(), Trap>(Trap::StoreAccessFault(addr)) && final(self).view()
                == old(self).view(),
    {
        let len = self.data.len();
        let n = bytes.len();
        if addr > len as u64 || (len as u64 - addr) < n as u64 {
            return Err(Trap::StoreAccessFault(addr));
        }
        let start = addr as usize;
        let mut i: usize = 0;
        while i < n
            invariant
                start + n <= len,
                len == self.data.len(),
                n == bytes@.len(),
                start == addr,
                0 <= i <= n,
                forall|k: int| 0 <= k < i ==> self.data@[start + k] == bytes@[k],
                forall|k: int|
                    0 <= k < len && !(start <= k < start + i) ==> self.data@[k] == old(self).data@[k],
            decreases n - i,
        {
            self.data.set(start + i, bytes[i]);
            i += 1;
        }
        assert(self.view() =~= old(self).view().subrange(0, addr as int) + bytes@ + old(
            self,
        ).view().subrange(addr + bytes@.len(), old(self).view().len() as int));
        Ok(())
    }
}


/// A little-endian store changes only the bytes it covers and keeps the length.
pub proof fn lemma_store_le_frame(s: Seq<u8>, i: int, v: u64, n: nat)
    requires
        0 <= i,
        i + n <= s.len(),
    ensures
        spec_store_le(s, i, v, n).len() == s.len(),
        forall|j: int|
            0 <= j < s.len() && !(i <= j < i + n) ==> #[trigger] spec_store_le(s, i, v, n)[j] == s[j],
    decreases n,
{
    if n > 0 {
        lemma_store_le_frame(s.update(i, v as u8), i + 1, v >> 8, (n - 1) as nat);
    }
}

/// A 16-bit store followed by a 16-bit load of the same address gives the
/// stored value back.
pub proof fn law_read_after_write16(s: Seq<u8>, i: int, v: u16)
    requires
        0 <= i,
        i + 2 <= s.len(),
    ensures
        spec_le16(spec_store_le(s, i, v as u64, 2), i) == v,
{
    reveal_with_fuel(spec_store_le, 3);
    let w = v as u64;
    assert(((w as u8) as u16) | ((((w >> 8) as u8) as u16) << 8) == v) by (bit_vector)
        requires w == v as u64;
}

/// A 32-bit store followed by a 32-bit load of the same address gives the
/// stored value back.
pub proof fn law_read_after_write32(s: Seq<u8>, i: int, v: u32)
    requires
        0 <= i,
        i + 4 <= s.len(),
    ensures
        spec_le32(spec_store_le(s, i, v as u64, 4), i) == v,
{
    reveal_with_fuel(spec_store_le, 5);
    let w = v as u64;
    assert(((w as u8) as u32) | ((((w >> 8) as u8) as u32) << 8) | (((((w >> 8) >> 8) as u8) as u32)
        << 16) | ((((((w >> 8) >> 8) >> 8) as u8) as u32) << 24) == v) by (bit_vector)
        requires w == v as u64;
}

/// A 64-bit store followed by a 64-bit load of the same address gives the
/// stored value back.
pub proof fn law_read_after_write64(s: Seq<u8>, i: int, v: u64)
    requires
        0 <= i,
        i + 8 <= s.len(),
    ensures
        spec_le64(spec_store_le(s, i, v, 8), i) == v,
{
    reveal_with_fuel(spec_store_le, 9);
    let v1 = v >> 8;
    let v2 = v1 >> 8;
    let v3 = v2 >> 8;
    let v4 = v3 >> 8;
    let v5 = v4 >> 8;
    let v6 = v5 >> 8;
    let v7 = v6 >> 8;
    assert(((v as u8) as u64) | (((v1 as u8) as u64) << 8) | (((v2 as u8) as u64) << 16) | (((v3 as u8)
        as u64) << 24) | (((v4 as u8) as u64) << 32) | (((v5 as u8) as u64) << 40) | (((v6 as u8)
        as u64) << 48) | (((v7 as u8) as u64) << 56) == v) by (bit_vector)
        requires
            v1 == v >> 8,
            v2 == v1 >> 8,
            v3 == v2 >> 8,
            v4 == v3 >> 8,
            v5 == v4 >> 8,
            v6 == v5 >> 8,
            v7 == v6 >> 8,
    ;
}

} // verus!
