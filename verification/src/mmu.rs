pub mod access_type;
pub mod address;
pub mod pte;
pub mod satp;
pub mod tlb;
pub mod translation;
pub mod walker;

use vstd::prelude::*;

use crate::cpu::bus::Bus;
use crate::cpu::Cpu;
use crate::mmu::access_type::AccessType;
use crate::mmu::walker::{translated, untranslated, walk_frame, PageWalker};
use crate::trap::Trap;

verus! {

/// Virtual-memory accesses of the hart.
pub struct Mmu;

/// The physical address a load (or, with `write`, a store) of `addr`
/// goes to, where it is known without a table walk: from the one-page
/// translation cache of that kind when it covers the page, or `addr`
/// itself when the access is untranslated.
pub open spec fn known_pa(cpu: &Cpu, addr: u64, write: bool) -> Option<u64> {
    let vpn = addr >> 12u64;
    if write && cpu.data_write_valid && cpu.data_write_vpn == vpn {
        Some(cpu.data_write_pa.wrapping_add(addr.wrapping_sub(cpu.data_write_va)))
    } else if !write && cpu.data_read_valid && cpu.data_read_vpn == vpn {
        Some(cpu.data_read_pa.wrapping_add(addr.wrapping_sub(cpu.data_read_va)))
    } else if untranslated(cpu, data_access(write)) {
        Some(addr)
    } else {
        None
    }
}

/// `new` differs from `old` at most in its bus, its TLB and its
/// translation caches.
pub open spec fn access_frame(old: &Cpu, new: &Cpu) -> bool {
    *new == Cpu {
        bus: new.bus,
        tlb: new.tlb,
        data_read_vpn: new.data_read_vpn,
        data_read_pa: new.data_read_pa,
        data_read_va: new.data_read_va,
        data_read_valid: new.data_read_valid,
        data_write_vpn: new.data_write_vpn,
        data_write_pa: new.data_write_pa,
        data_write_va: new.data_write_va,
        data_write_valid: new.data_write_valid,
        ..*old
    }
}

/// Whether an `n`-byte access at `addr` stays within one page.
pub open spec fn in_one_page(addr: u64, n: u64) -> bool {
    addr % 4096 + n <= 4096
}

/// The kind of a data access: a store with `write`, else a load.
pub open spec fn data_access(write: bool) -> AccessType {
    if write {
        AccessType::Write
    } else {
        AccessType::Read
    }
}

/// Whether the one-page translation cache of the access's kind covers
/// the page of `addr`.
pub open spec fn data_cache_hit(cpu: &Cpu, addr: u64, write: bool) -> bool {
    if write {
        cpu.data_write_valid && cpu.data_write_vpn == addr >> 12u64
    } else {
        cpu.data_read_valid && cpu.data_read_vpn == addr >> 12u64
    }
}

/// `cpu` with the translation of `addr` to `pa` cached for its kind.
pub open spec fn data_cache_filled(cpu: Cpu, addr: u64, pa: u64, write: bool) -> Cpu {
    if write {
        Cpu { data_write_vpn: addr >> 12u64, data_write_pa: pa, data_write_va: addr, data_write_valid: true, ..cpu }
    } else {
        Cpu { data_read_vpn: addr >> 12u64, data_read_pa: pa, data_read_va: addr, data_read_valid: true, ..cpu }
    }
}

/// What finding the physical address of a load (or, with `write`, a
/// store) of `addr` ends with: from the cache on a hit; otherwise the
/// address is translated (see `translated`) and the result cached.
pub open spec fn data_translated(old: &Cpu, new: &Cpu, addr: u64, write: bool, r: Result<u64, Trap>) -> bool {
    if data_cache_hit(old, addr, write) {
        r == Ok::<u64, Trap>(known_pa(old, addr, write)->Some_0) && *new == *old
    } else {
        exists|mid: Cpu|
            #![trigger translated(old, &mid, addr, data_access(write), r)]
            translated(old, &mid, addr, data_access(write), r) && match r {
                Err(_) => *new == mid,
                Ok(pa) => *new == data_cache_filled(mid, addr, pa, write),
            }
    }
}

/// A byte load at virtual address `addr` from hart state `old`: the
/// address is found (see `data_translated`), then the bus is read there.
pub open spec fn mmu_read8(old: &Cpu, new: &Cpu, addr: u64, r: Result<u8, Trap>) -> bool {
    exists|mid: Cpu, t: Result<u64, Trap>|
        #![trigger data_translated(old, &mid, addr, false, t)]
        data_translated(old, &mid, addr, false, t) && match t {
            Err(e) => r == Err::<u8, Trap>(e) && *new == mid,
            Ok(pa) => *new == (Cpu { bus: new.bus, ..mid }) && Bus::read8_post(&mid.bus, &new.bus, pa, r),
        }
}

/// A halfword load at virtual address `addr` from hart state `old`: the
/// address is found (see `data_translated`), then the bus is read there.
pub open spec fn mmu_read16(old: &Cpu, new: &Cpu, addr: u64, r: Result<u16, Trap>) -> bool {
    exists|mid: Cpu, t: Result<u64, Trap>|
        #![trigger data_translated(old, &mid, addr, false, t)]
        data_translated(old, &mid, addr, false, t) && match t {
            Err(e) => r == Err::<u16, Trap>(e) && *new == mid,
            Ok(pa) => *new == (Cpu { bus: new.bus, ..mid }) && Bus::read16_post(&mid.bus, &new.bus, pa, r),
        }
}

/// A word load at virtual address `addr` from hart state `old`: the
/// address is found (see `data_translated`), then the bus is read there.
pub open spec fn mmu_read32(old: &Cpu, new: &Cpu, addr: u64, r: Result<u32, Trap>) -> bool {
    exists|mid: Cpu, t: Result<u64, Trap>|
        #![trigger data_translated(old, &mid, addr, false, t)]
        data_translated(old, &mid, addr, false, t) && match t {
            Err(e) => r == Err::<u32, Trap>(e) && *new == mid,
            Ok(pa) => *new == (Cpu { bus: new.bus, ..mid }) && Bus::read32_post(&mid.bus, &new.bus, pa, r),
        }
}

/// A doubleword load at virtual address `addr` from hart state `old`: the
/// address is found (see `data_translated`), then the bus is read there.
pub open spec fn mmu_read64(old: &Cpu, new: &Cpu, addr: u64, r: Result<u64, Trap>) -> bool {
    exists|mid: Cpu, t: Result<u64, Trap>|
        #![trigger data_translated(old, &mid, addr, false, t)]
        data_translated(old, &mid, addr, false, t) && match t {
            Err(e) => r == Err::<u64, Trap>(e) && *new == mid,
            Ok(pa) => *new == (Cpu { bus: new.bus, ..mid }) && Bus::read64_post(&mid.bus, &new.bus, pa, r),
        }
}

/// A byte store at virtual address `addr` from hart state `old`: the
/// address is found (see `data_translated`), then the bus is written there.
pub open spec fn mmu_write8(old: &Cpu, new: &Cpu, addr: u64, value: u8, r: Result<(), Trap>) -> bool {
    exists|mid: Cpu, t: Result<u64, Trap>|
        #![trigger data_translated(old, &mid, addr, true, t)]
        data_translated(old, &mid, addr, true, t) && match t {
            Err(e) => r == Err::<(), Trap>(e) && *new == mid,
            Ok(pa) => *new == (Cpu { bus: new.bus, ..mid }) && Bus::write8_post(&mid.bus, &new.bus, pa, value, r),
        }
}

/// A halfword store at virtual address `addr` from hart state `old`: the
/// address is found (see `data_translated`), then the bus is written there.
pub open spec fn mmu_write16(old: &Cpu, new: &Cpu, addr: u64, value: u16, r: Result<(), Trap>) -> bool {
    exists|mid: Cpu, t: Result<u64, Trap>|
        #![trigger data_translated(old, &mid, addr, true, t)]
        data_translated(old, &mid, addr, true, t) && match t {
            Err(e) => r == Err::<(), Trap>(e) && *new == mid,
            Ok(pa) => *new == (Cpu { bus: new.bus, ..mid }) && Bus::write16_post(&mid.bus, &new.bus, pa, value, r),
        }
}

/// A word store at virtual address `addr` from hart state `old`: the
/// address is found (see `data_translated`), then the bus is written there.
pub open spec fn mmu_write32(old: &Cpu, new: &Cpu, addr: u64, value: u32, r: Result<(), Trap>) -> bool {
    exists|mid: Cpu, t: Result<u64, Trap>|
        #![trigger data_translated(old, &mid, addr, true, t)]
        data_translated(old, &mid, addr, true, t) && match t {
            Err(e) => r == Err::<(), Trap>(e) && *new == mid,
            Ok(pa) => *new == (Cpu { bus: new.bus, ..mid }) && Bus::write32_post(&mid.bus, &new.bus, pa, value, r),
        }
}

/// A doubleword store at virtual address `addr` from hart state `old`: the
/// address is found (see `data_translated`), then the bus is written there.
pub open spec fn mmu_write64(old: &Cpu, new: &Cpu, addr: u64, value: u64, r: Result<(), Trap>) -> bool {
    exists|mid: Cpu, t: Result<u64, Trap>|
        #![trigger data_translated(old, &mid, addr, true, t)]
        data_translated(old, &mid, addr, true, t) && match t {
            Err(e) => r == Err::<(), Trap>(e) && *new == mid,
            Ok(pa) => *new == (Cpu { bus: new.bus, ..mid }) && Bus::write64_post(&mid.bus, &new.bus, pa, value, r),
        }
}

/// A byte instruction fetch at virtual address `addr` from hart state
/// `old`: the address is translated (see `translated`), then the bus is
/// read there.
pub open spec fn fetched_byte(old: &Cpu, new: &Cpu, addr: u64, r: Result<u8, Trap>) -> bool {
    exists|mid: Cpu, t: Result<u64, Trap>|
        #![trigger translated(old, &mid, addr, AccessType::Instruction, t)]
        translated(old, &mid, addr, AccessType::Instruction, t) && match t {
            Err(e) => r == Err::<u8, Trap>(e) && *new == mid,
            Ok(pa) => *new == (Cpu { bus: new.bus, ..mid }) && Bus::read8_post(&mid.bus, &new.bus, pa, r),
        }
}

/// A byte read at `addr`: an instruction fetch (see `fetched_byte`) when
/// `fetch` holds, else a load (see `mmu_read8`).
pub open spec fn byte_read(old: &Cpu, new: &Cpu, addr: u64, r: Result<u8, Trap>, fetch: bool) -> bool {
    if fetch {
        fetched_byte(old, new, addr, r)
    } else {
        mmu_read8(old, new, addr, r)
    }
}

/// The byte reads of an access that crosses a page boundary: read `i`
/// takes `addr + i` (see `byte_read`) from hart state `states[i]` to
/// `states[i + 1]` with outcome `got[i]`; every read but the last
/// succeeded.
pub open spec fn read_chain(states: Seq<Cpu>, addr: u64, got: Seq<Result<u8, Trap>>, fetch: bool) -> bool {
    &&& states.len() == got.len() + 1
    &&& forall|i: int|
        #![trigger got[i]]
        0 <= i < got.len() ==> byte_read(&states[i], &states[i + 1], addr.wrapping_add(i as u64), got[i], fetch)
    &&& forall|i: int| #![trigger got[i]] 0 <= i < got.len() - 1 ==> got[i] is Ok
}

/// The little-endian value of the bytes loaded in `got` (a fault counts
/// as zero).
pub open spec fn le_value(got: Seq<Result<u8, Trap>>) -> u64
    decreases got.len(),
{
    if got.len() == 0 {
        0
    } else {
        let y: u8 = match got.last() {
            Ok(y) => y,
            Err(_) => 0,
        };
        le_value(got.drop_last()) | ((y as u64) << (((got.len() - 1) * 8) as u64))
    }
}

/// `k` bytes read from `addr` on, byte by byte (see `byte_read`), from
/// hart state `old` to `new`: the reads stop at the first fault, which is
/// the outcome; when all `k` succeed, the outcome is their little-endian
/// value.
pub open spec fn bytes_read(old: &Cpu, new: &Cpu, addr: u64, k: nat, r: Result<u64, Trap>, fetch: bool) -> bool {
    exists|states: Seq<Cpu>, got: Seq<Result<u8, Trap>>|
        #![trigger read_chain(states, addr, got, fetch)]
        read_chain(states, addr, got, fetch) && states[0] == *old && states.last() == *new && 1 <= got.len() <= k
            && match got.last() {
            Err(e) => r == Err::<u64, Trap>(e),
            Ok(_) => got.len() == k && r == Ok::<u64, Trap>(le_value(got)),
        }
}

/// A load of `k` bytes from `addr` on, byte by byte (see `bytes_read`).
pub open spec fn bytes_loaded(old: &Cpu, new: &Cpu, addr: u64, k: nat, r: Result<u64, Trap>) -> bool {
    bytes_read(old, new, addr, k, r, false)
}

/// An instruction fetch of `k` bytes from `addr` on, byte by byte (see
/// `bytes_read`).
pub open spec fn bytes_fetched(old: &Cpu, new: &Cpu, addr: u64, k: nat, r: Result<u64, Trap>) -> bool {
    bytes_read(old, new, addr, k, r, true)
}

/// A halfword instruction fetch within one page at virtual address
/// `addr`: the address is translated (see `translated`), then the bus is
/// read there.
pub open spec fn fetched16(old: &Cpu, new: &Cpu, addr: u64, r: Result<u16, Trap>) -> bool {
    exists|mid: Cpu, t: Result<u64, Trap>|
        #![trigger translated(old, &mid, addr, AccessType::Instruction, t)]
        translated(old, &mid, addr, AccessType::Instruction, t) && match t {
            Err(e) => r == Err::<u16, Trap>(e) && *new == mid,
            Ok(pa) => *new == (Cpu { bus: new.bus, ..mid }) && Bus::read16_post(&mid.bus, &new.bus, pa, r),
        }
}

/// A word instruction fetch within one page at virtual address `addr`:
/// the address is translated (see `translated`), then the bus is read
/// there.
pub open spec fn fetched32(old: &Cpu, new: &Cpu, addr: u64, r: Result<u32, Trap>) -> bool {
    exists|mid: Cpu, t: Result<u64, Trap>|
        #![trigger translated(old, &mid, addr, AccessType::Instruction, t)]
        translated(old, &mid, addr, AccessType::Instruction, t) && match t {
            Err(e) => r == Err::<u32, Trap>(e) && *new == mid,
            Ok(pa) => *new == (Cpu { bus: new.bus, ..mid }) && Bus::read32_post(&mid.bus, &new.bus, pa, r),
        }
}

/// The byte stores of a store that crosses a page boundary: store `i`
/// writes byte `i` of `value` (little-endian) to `addr + i` (through
/// `mmu_write8`) from hart state `states[i]` to `states[i + 1]` with
/// outcome `got[i]`; every store but the last succeeded.
pub open spec fn write_chain(states: Seq<Cpu>, addr: u64, value: u64, got: Seq<Result<(), Trap>>) -> bool {
    &&& states.len() == got.len() + 1
    &&& forall|i: int|
        #![trigger got[i]]
        0 <= i < got.len() ==> mmu_write8(
            &states[i],
            &states[i + 1],
            addr.wrapping_add(i as u64),
            (value >> ((i * 8) as u64)) as u8,
            got[i],
        )
    &&& forall|i: int| #![trigger got[i]] 0 <= i < got.len() - 1 ==> got[i] is Ok
}

/// A store of the low `k` bytes of `value` from `addr` on, byte by byte,
/// from hart state `old` to `new`: the stores stop at the first fault,
/// which is the outcome.
pub open spec fn bytes_stored(old: &Cpu, new: &Cpu, addr: u64, value: u64, k: nat, r: Result<(), Trap>) -> bool {
    exists|states: Seq<Cpu>, got: Seq<Result<(), Trap>>|
        #![trigger write_chain(states, addr, value, got)]
        write_chain(states, addr, value, got) && states[0] == *old && states.last() == *new && 1 <= got.len()
            <= k && match got.last() {
            Err(e) => r == Err::<(), Trap>(e),
            Ok(_) => got.len() == k && r == Ok::<(), Trap>(()),
        }
}

/// A byte or-ed in above a value of `s` bits gives a value of `s + 8`
/// bits.
proof fn lemma_or_byte_bound(value: u64, b: u64, s: u64)
    by (bit_vector)
    requires
        b < 256,
        s <= 48,
        value < (1u64 << s) || (s == 0 && value == 0),
    ensures
        value | (b << s) < (1u64 << (s + 8)),
        1u64 << 0u64 == 1,
        1u64 << 16u64 == 0x10000,
        1u64 << 32u64 == 0x1_0000_0000,
{
}

impl Mmu {
    /// Translates `virtual_address` for an access of kind `access` (see
    /// `translated`).
    pub fn translate(cpu: &mut Cpu, virtual_address: u64, access: AccessType) -> (r: Result<u64, Trap>)
        ensures
            translated(old(cpu), final(cpu), virtual_address, access, r),
    {
        PageWalker::translate(cpu, virtual_address, access)
    }

    /// The physical address of a load or store of `addr`, through the
    /// one-page translation cache of its kind (filled on a miss).
    fn translate_data(cpu: &mut Cpu, addr: u64, is_write: bool) -> (r: Result<u64, Trap>)
        ensures
            access_frame(old(cpu), final(cpu)),
            known_pa(old(cpu), addr, is_write) matches Some(pa) ==> r == Ok::<u64, Trap>(pa)
                && final(cpu).bus == old(cpu).bus,
            data_translated(old(cpu), final(cpu), addr, is_write, r),
    {
        let vpn = addr >> 12;
        if is_write {
            if cpu.data_write_valid && cpu.data_write_vpn == vpn {
                return Ok(cpu.data_write_pa.wrapping_add(addr.wrapping_sub(cpu.data_write_va)));
            }
            let pa = Mmu::translate(cpu, addr, AccessType::Write)?;
            cpu.data_write_vpn = vpn;
            cpu.data_write_pa = pa;
            cpu.data_write_va = addr;
            cpu.data_write_valid = true;
            Ok(pa)
        } else {
            if cpu.data_read_valid && cpu.data_read_vpn == vpn {
                return Ok(cpu.data_read_pa.wrapping_add(addr.wrapping_sub(cpu.data_read_va)));
            }
            let pa = Mmu::translate(cpu, addr, AccessType::Read)?;
            cpu.data_read_vpn = vpn;
            cpu.data_read_pa = pa;
            cpu.data_read_va = addr;
            cpu.data_read_valid = true;
            Ok(pa)
        }
    }

    /// A byte load from virtual address `addr`.
    pub fn read8(cpu: &mut Cpu, addr: u64) -> (r: Result<u8, Trap>)
        ensures
            access_frame(old(cpu), final(cpu)),
            known_pa(old(cpu), addr, false) matches Some(pa) ==> Bus::read8_post(&old(cpu).bus, &final(cpu).bus, pa, r),
            mmu_read8(old(cpu), final(cpu), addr, r),
    {
        let pa = Self::translate_data(cpu, addr, false)?;
        cpu.bus.read8(pa)
    }

    /// A halfword load; one crossing a page boundary is read byte by byte.
    pub fn read16(cpu: &mut Cpu, addr: u64) -> (r: Result<u16, Trap>)
        ensures
            access_frame(old(cpu), final(cpu)),
            in_one_page(addr, 2) ==> (known_pa(old(cpu), addr, false) matches Some(pa) ==> Bus::read16_post(
                &old(cpu).bus,
                &final(cpu).bus,
                pa,
                r,
            )),
            in_one_page(addr, 2) ==> mmu_read16(old(cpu), final(cpu), addr, r),
            !in_one_page(addr, 2) ==> bytes_loaded(old(cpu), final(cpu), addr, 2, match r {
                Ok(x) => Ok::<u64, Trap>(x as u64),
                Err(e) => Err(e),
            }),
    {
        proof {
            lemma_page_offset(addr);
        }
        if (addr & 0xFFF) + 2 <= 0x1000 {
            let pa = Self::translate_data(cpu, addr, false)?;
            cpu.bus.read16(pa)
        } else {
            let mut value: u64 = 0;
            let mut i: u64 = 0;
            let ghost mut states: Seq<Cpu> = seq![*cpu];
            let ghost mut got: Seq<Result<u8, Trap>> = Seq::empty();
            proof {
                lemma_or_byte_bound(0, 0, 0);
            }
            while i < 2
                invariant
                    i <= 2,
                    !in_one_page(addr, 2),
                    access_frame(old(cpu), cpu),
                    read_chain(states, addr, got, false),
                    got.len() == i,
                    states[0] == *old(cpu),
                    states.last() == *cpu,
                    forall|j: int| #![trigger got[j]] 0 <= j < got.len() ==> got[j] is Ok,
                    value == le_value(got),
                    value < (1u64 << ((i * 8) as u64)),
                decreases 2 - i,
            {
                let ghost prev = value;
                let ghost before = *cpu;
                let r8 = Self::read8(cpu, addr.wrapping_add(i));
                proof {
                    let g0 = got;
                    states = states.push(*cpu);
                    got = got.push(r8);
                    assert(states[i as int] == before);
                    assert(((i as int) as u64) == i);
                    assert(byte_read(&states[i as int], &states[i as int + 1], addr.wrapping_add((i as int) as u64), got[i as int], false));
                    assert(got.drop_last() =~= g0);
                    assert(read_chain(states, addr, got, false));
                }
                let b = match r8 {
                    Ok(b) => b,
                    Err(e) => {
                        return Err(e);
                    },
                };
                proof {
                    lemma_or_byte_bound(prev, b as u64, (i * 8) as u64);
                }
                value = value | ((b as u64) << (i * 8));
                i += 1;
            }
            proof {
                lemma_or_byte_bound(0, 0, 0);
                assert(read_chain(states, addr, got, false));
            }
            Ok(value as u16)
        }
    }

    /// A word load; one crossing a page boundary is read byte by byte.
    pub fn read32(cpu: &mut Cpu, addr: u64) -> (r: Result<u32, Trap>)
        ensures
            access_frame(old(cpu), final(cpu)),
            in_one_page(addr, 4) ==> (known_pa(old(cpu), addr, false) matches Some(pa) ==> Bus::read32_post(
                &old(cpu).bus,
                &final(cpu).bus,
                pa,
                r,
            )),
            in_one_page(addr, 4) ==> mmu_read32(old(cpu), final(cpu), addr, r),
            !in_one_page(addr, 4) ==> bytes_loaded(old(cpu), final(cpu), addr, 4, match r {
                Ok(x) => Ok::<u64, Trap>(x as u64),
                Err(e) => Err(e),
            }),
    {
        proof {
            lemma_page_offset(addr);
        }
        if (addr & 0xFFF) + 4 <= 0x1000 {
            let pa = Self::translate_data(cpu, addr, false)?;
            cpu.bus.read32(pa)
        } else {
            let mut value: u64 = 0;
            let mut i: u64 = 0;
            let ghost mut states: Seq<Cpu> = seq![*cpu];
            let ghost mut got: Seq<Result<u8, Trap>> = Seq::empty();
            proof {
                lemma_or_byte_bound(0, 0, 0);
            }
            while i < 4
                invariant
                    i <= 4,
                    !in_one_page(addr, 4),
                    access_frame(old(cpu), cpu),
                    read_chain(states, addr, got, false),
                    got.len() == i,
                    states[0] == *old(cpu),
                    states.last() == *cpu,
                    forall|j: int| #![trigger got[j]] 0 <= j < got.len() ==> got[j] is Ok,
                    value == le_value(got),
                    value < (1u64 << ((i * 8) as u64)),
                decreases 4 - i,
            {
                let ghost prev = value;
                let ghost before = *cpu;
                let r8 = Self::read8(cpu, addr.wrapping_add(i));
                proof {
                    let g0 = got;
                    states = states.push(*cpu);
                    got = got.push(r8);
                    assert(states[i as int] == before);
                    assert(((i as int) as u64) == i);
                    assert(byte_read(&states[i as int], &states[i as int + 1], addr.wrapping_add((i as int) as u64), got[i as int], false));
                    assert(got.drop_last() =~= g0);
                    assert(read_chain(states, addr, got, false));
                }
                let b = match r8 {
                    Ok(b) => b,
                    Err(e) => {
                        return Err(e);
                    },
                };
                proof {
                    lemma_or_byte_bound(prev, b as u64, (i * 8) as u64);
                }
                value = value | ((b as u64) << (i * 8));
                i += 1;
            }
            proof {
                lemma_or_byte_bound(0, 0, 0);
                assert(read_chain(states, addr, got, false));
            }
            Ok(value as u32)
        }
    }

    /// A doubleword load; one crossing a page boundary is read byte by byte.
    pub fn read64(cpu: &mut Cpu, addr: u64) -> (r: Result<u64, Trap>)
        ensures
            access_frame(old(cpu), final(cpu)),
            in_one_page(addr, 8) ==> (known_pa(old(cpu), addr, false) matches Some(pa) ==> Bus::read64_post(
                &old(cpu).bus,
                &final(cpu).bus,
                pa,
                r,
            )),
            in_one_page(addr, 8) ==> mmu_read64(old(cpu), final(cpu), addr, r),
            !in_one_page(addr, 8) ==> bytes_loaded(old(cpu), final(cpu), addr, 8, match r {
                Ok(x) => Ok::<u64, Trap>(x),
                Err(e) => Err(e),
            }),
    {
        proof {
            lemma_page_offset(addr);
        }
        if (addr & 0xFFF) + 8 <= 0x1000 {
            let pa = Self::translate_data(cpu, addr, false)?;
            cpu.bus.read64(pa)
        } else {
            let mut value: u64 = 0;
            let mut i: u64 = 0;
            let ghost mut states: Seq<Cpu> = seq![*cpu];
            let ghost mut got: Seq<Result<u8, Trap>> = Seq::empty();
            while i < 8
                invariant
                    i <= 8,
                    !in_one_page(addr, 8),
                    access_frame(old(cpu), cpu),
                    read_chain(states, addr, got, false),
                    got.len() == i,
                    states[0] == *old(cpu),
                    states.last() == *cpu,
                    forall|j: int| #![trigger got[j]] 0 <= j < got.len() ==> got[j] is Ok,
                    value == le_value(got),
                decreases 8 - i,
            {
                let ghost prev = value;
                let ghost before = *cpu;
                let r8 = Self::read8(cpu, addr.wrapping_add(i));
                proof {
                    let g0 = got;
                    states = states.push(*cpu);
                    got = got.push(r8);
                    assert(states[i as int] == before);
                    assert(((i as int) as u64) == i);
                    assert(byte_read(&states[i as int], &states[i as int + 1], addr.wrapping_add((i as int) as u64), got[i as int], false));
                    assert(got.drop_last() =~= g0);
                    assert(read_chain(states, addr, got, false));
                }
                let b = match r8 {
                    Ok(b) => b,
                    Err(e) => {
                        return Err(e);
                    },
                };
                value = value | ((b as u64) << (i * 8));
                i += 1;
            }
            proof {
                lemma_or_byte_bound(0, 0, 0);
                assert(read_chain(states, addr, got, false));
            }
            Ok(value)
        }
    }

    /// A byte store to virtual address `addr`.
    pub fn write8(cpu: &mut Cpu, addr: u64, value: u8) -> (r: Result<(), Trap>)
        ensures
            access_frame(old(cpu), final(cpu)),
            known_pa(old(cpu), addr, true) matches Some(pa) ==> Bus::write8_post(
                &old(cpu).bus,
                &final(cpu).bus,
                pa,
                value,
                r,
            ),
            mmu_write8(old(cpu), final(cpu), addr, value, r),
    {
        let pa = Self::translate_data(cpu, addr, true)?;
        cpu.bus.write8(pa, value)
    }

    /// A halfword store; one crossing a page boundary is written byte by
    /// byte.
    pub fn write16(cpu: &mut Cpu, addr: u64, value: u16) -> (r: Result<(), Trap>)
        ensures
            access_frame(old(cpu), final(cpu)),
            in_one_page(addr, 2) ==> (known_pa(old(cpu), addr, true) matches Some(pa) ==> Bus::write16_post(
                &old(cpu).bus,
                &final(cpu).bus,
                pa,
                value,
                r,
            )),
            in_one_page(addr, 2) ==> mmu_write16(old(cpu), final(cpu), addr, value, r),
            !in_one_page(addr, 2) ==> bytes_stored(old(cpu), final(cpu), addr, value as u64, 2, r),
    {
        proof {
            lemma_page_offset(addr);
        }
        if (addr & 0xFFF) + 2 <= 0x1000 {
            let pa = Self::translate_data(cpu, addr, true)?;
            cpu.bus.write16(pa, value)
        } else {
            let wide = value as u64;
            let mut i: u64 = 0;
            let ghost mut states: Seq<Cpu> = seq![*cpu];
            let ghost mut got: Seq<Result<(), Trap>> = Seq::empty();
            while i < 2
                invariant
                    i <= 2,
                    !in_one_page(addr, 2),
                    wide == value as u64,
                    access_frame(old(cpu), cpu),
                    write_chain(states, addr, wide, got),
                    got.len() == i,
                    states[0] == *old(cpu),
                    states.last() == *cpu,
                    forall|j: int| #![trigger got[j]] 0 <= j < got.len() ==> got[j] is Ok,
                decreases 2 - i,
            {
                let ghost before = *cpu;
                let res = Self::write8(cpu, addr.wrapping_add(i), (wide >> (i * 8)) as u8);
                proof {
                    states = states.push(*cpu);
                    got = got.push(res);
                    assert(states[i as int] == before);
                    assert(((i as int) as u64) == i);
                    assert((((i as int) * 8) as u64) == i * 8);
                    assert(mmu_write8(
                        &states[i as int],
                        &states[i as int + 1],
                        addr.wrapping_add((i as int) as u64),
                        (wide >> (((i as int) * 8) as u64)) as u8,
                        got[i as int],
                    ));
                    assert(write_chain(states, addr, wide, got));
                }
                if let Err(e) = res {
                    return Err(e);
                }
                i += 1;
            }
            proof {
                assert(write_chain(states, addr, wide, got));
            }
            Ok(())
        }
    }

    /// A word store; one crossing a page boundary is written byte by byte.
    pub fn write32(cpu: &mut Cpu, addr: u64, value: u32) -> (r: Result<(), Trap>)
        ensures
            access_frame(old(cpu), final(cpu)),
            in_one_page(addr, 4) ==> (known_pa(old(cpu), addr, true) matches Some(pa) ==> Bus::write32_post(
                &old(cpu).bus,
                &final(cpu).bus,
                pa,
                value,
                r,
            )),
            in_one_page(addr, 4) ==> mmu_write32(old(cpu), final(cpu), addr, value, r),
            !in_one_page(addr, 4) ==> bytes_stored(old(cpu), final(cpu), addr, value as u64, 4, r),
    {
        proof {
            lemma_page_offset(addr);
        }
        if (addr & 0xFFF) + 4 <= 0x1000 {
            let pa = Self::translate_data(cpu, addr, true)?;
            cpu.bus.write32(pa, value)
        } else {
            let wide = value as u64;
            let mut i: u64 = 0;
            let ghost mut states: Seq<Cpu> = seq![*cpu];
            let ghost mut got: Seq<Result<(), Trap>> = Seq::empty();
            while i < 4
                invariant
                    i <= 4,
                    !in_one_page(addr, 4),
                    wide == value as u64,
                    access_frame(old(cpu), cpu),
                    write_chain(states, addr, wide, got),
                    got.len() == i,
                    states[0] == *old(cpu),
                    states.last() == *cpu,
                    forall|j: int| #![trigger got[j]] 0 <= j < got.len() ==> got[j] is Ok,
                decreases 4 - i,
            {
                let ghost before = *cpu;
                let res = Self::write8(cpu, addr.wrapping_add(i), (wide >> (i * 8)) as u8);
                proof {
                    states = states.push(*cpu);
                    got = got.push(res);
                    assert(states[i as int] == before);
                    assert(((i as int) as u64) == i);
                    assert((((i as int) * 8) as u64) == i * 8);
                    assert(mmu_write8(
                        &states[i as int],
                        &states[i as int + 1],
                        addr.wrapping_add((i as int) as u64),
                        (wide >> (((i as int) * 8) as u64)) as u8,
                        got[i as int],
                    ));
                    assert(write_chain(states, addr, wide, got));
                }
                if let Err(e) = res {
                    return Err(e);
                }
                i += 1;
            }
            proof {
                assert(write_chain(states, addr, wide, got));
            }
            Ok(())
        }
    }

    /// A doubleword store; one crossing a page boundary is written byte by
    /// byte.
    pub fn write64(cpu: &mut Cpu, addr: u64, value: u64) -> (r: Result<(), Trap>)
        ensures
            access_frame(old(cpu), final(cpu)),
            in_one_page(addr, 8) ==> (known_pa(old(cpu), addr, true) matches Some(pa) ==> Bus::write64_post(
                &old(cpu).bus,
                &final(cpu).bus,
                pa,
                value,
                r,
            )),
            in_one_page(addr, 8) ==> mmu_write64(old(cpu), final(cpu), addr, value, r),
            !in_one_page(addr, 8) ==> bytes_stored(old(cpu), final(cpu), addr, value, 8, r),
    {
        proof {
            lemma_page_offset(addr);
        }
        if (addr & 0xFFF) + 8 <= 0x1000 {
            let pa = Self::translate_data(cpu, addr, true)?;
            cpu.bus.write64(pa, value)
        } else {
            let wide = value;
            let mut i: u64 = 0;
            let ghost mut states: Seq<Cpu> = seq![*cpu];
            let ghost mut got: Seq<Result<(), Trap>> = Seq::empty();
            while i < 8
                invariant
                    i <= 8,
                    !in_one_page(addr, 8),
                    wide == value,
                    access_frame(old(cpu), cpu),
                    write_chain(states, addr, wide, got),
                    got.len() == i,
                    states[0] == *old(cpu),
                    states.last() == *cpu,
                    forall|j: int| #![trigger got[j]] 0 <= j < got.len() ==> got[j] is Ok,
                decreases 8 - i,
            {
                let ghost before = *cpu;
                let res = Self::write8(cpu, addr.wrapping_add(i), (wide >> (i * 8)) as u8);
                proof {
                    states = states.push(*cpu);
                    got = got.push(res);
                    assert(states[i as int] == before);
                    assert(((i as int) as u64) == i);
                    assert((((i as int) * 8) as u64) == i * 8);
                    assert(mmu_write8(
                        &states[i as int],
                        &states[i as int + 1],
                        addr.wrapping_add((i as int) as u64),
                        (wide >> (((i as int) * 8) as u64)) as u8,
                        got[i as int],
                    ));
                    assert(write_chain(states, addr, wide, got));
                }
                if let Err(e) = res {
                    return Err(e);
                }
                i += 1;
            }
            proof {
                assert(write_chain(states, addr, wide, got));
            }
            Ok(())
        }
    }

    /// A byte instruction fetch (translated without the caches).
    fn fetch8(cpu: &mut Cpu, addr: u64) -> (r: Result<u8, Trap>)
        ensures
            walk_frame(old(cpu), final(cpu)),
            fetched_byte(old(cpu), final(cpu), addr, r),
    {
        let pa = Mmu::translate(cpu, addr, AccessType::Instruction)?;
        cpu.bus.read8(pa)
    }

    /// A halfword instruction fetch (translated without the caches); one
    /// crossing a page boundary is read byte by byte.
    pub fn fetch16(cpu: &mut Cpu, addr: u64) -> (r: Result<u16, Trap>)
        ensures
            walk_frame(old(cpu), final(cpu)),
            in_one_page(addr, 2) && untranslated(old(cpu), AccessType::Instruction) ==> Bus::read16_post(
                &old(cpu).bus,
                &final(cpu).bus,
                addr,
                r,
            ),
            in_one_page(addr, 2) ==> fetched16(old(cpu), final(cpu), addr, r),
            !in_one_page(addr, 2) ==> bytes_fetched(old(cpu), final(cpu), addr, 2, match r {
                Ok(x) => Ok::<u64, Trap>(x as u64),
                Err(e) => Err(e),
            }),
    {
        proof {
            lemma_page_offset(addr);
        }
        if (addr & 0xFFF) + 2 <= 0x1000 {
            let pa = Mmu::translate(cpu, addr, AccessType::Instruction)?;
            cpu.bus.read16(pa)
        } else {
            let mut value: u64 = 0;
            let mut i: u64 = 0;
            let ghost mut states: Seq<Cpu> = seq![*cpu];
            let ghost mut got: Seq<Result<u8, Trap>> = Seq::empty();
            proof {
                lemma_or_byte_bound(0, 0, 0);
            }
            while i < 2
                invariant
                    i <= 2,
                    !in_one_page(addr, 2),
                    walk_frame(old(cpu), cpu),
                    read_chain(states, addr, got, true),
                    got.len() == i,
                    states[0] == *old(cpu),
                    states.last() == *cpu,
                    forall|j: int| #![trigger got[j]] 0 <= j < got.len() ==> got[j] is Ok,
                    value == le_value(got),
                    value < (1u64 << ((i * 8) as u64)),
                decreases 2 - i,
            {
                let ghost prev = value;
                let ghost before = *cpu;
                let r8 = Self::fetch8(cpu, addr.wrapping_add(i));
                proof {
                    let g0 = got;
                    states = states.push(*cpu);
                    got = got.push(r8);
                    assert(states[i as int] == before);
                    assert(((i as int) as u64) == i);
                    assert(byte_read(&states[i as int], &states[i as int + 1], addr.wrapping_add((i as int) as u64), got[i as int], true));
                    assert(got.drop_last() =~= g0);
                    assert(read_chain(states, addr, got, true));
                }
                let b = match r8 {
                    Ok(b) => b,
                    Err(e) => {
                        return Err(e);
                    },
                };
                proof {
                    lemma_or_byte_bound(prev, b as u64, (i * 8) as u64);
                }
                value = value | ((b as u64) << (i * 8));
                i += 1;
            }
            proof {
                lemma_or_byte_bound(0, 0, 0);
                assert(read_chain(states, addr, got, true));
            }
            Ok(value as u16)
        }
    }

    /// A word instruction fetch (translated without the caches); one
    /// crossing a page boundary is read byte by byte.
    pub fn fetch32(cpu: &mut Cpu, addr: u64) -> (r: Result<u32, Trap>)
        ensures
            walk_frame(old(cpu), final(cpu)),
            in_one_page(addr, 4) && untranslated(old(cpu), AccessType::Instruction) ==> Bus::read32_post(
                &old(cpu).bus,
                &final(cpu).bus,
                addr,
                r,
            ),
            in_one_page(addr, 4) ==> fetched32(old(cpu), final(cpu), addr, r),
            !in_one_page(addr, 4) ==> bytes_fetched(old(cpu), final(cpu), addr, 4, match r {
                Ok(x) => Ok::<u64, Trap>(x as u64),
                Err(e) => Err(e),
            }),
    {
        proof {
            lemma_page_offset(addr);
        }
        if (addr & 0xFFF) + 4 <= 0x1000 {
            let pa = Mmu::translate(cpu, addr, AccessType::Instruction)?;
            cpu.bus.read32(pa)
        } else {
            let mut value: u64 = 0;
            let mut i: u64 = 0;
            let ghost mut states: Seq<Cpu> = seq![*cpu];
            let ghost mut got: Seq<Result<u8, Trap>> = Seq::empty();
            proof {
                lemma_or_byte_bound(0, 0, 0);
            }
            while i < 4
                invariant
                    i <= 4,
                    !in_one_page(addr, 4),
                    walk_frame(old(cpu), cpu),
                    read_chain(states, addr, got, true),
                    got.len() == i,
                    states[0] == *old(cpu),
                    states.last() == *cpu,
                    forall|j: int| #![trigger got[j]] 0 <= j < got.len() ==> got[j] is Ok,
                    value == le_value(got),
                    value < (1u64 << ((i * 8) as u64)),
                decreases 4 - i,
            {
                let ghost prev = value;
                let ghost before = *cpu;
                let r8 = Self::fetch8(cpu, addr.wrapping_add(i));
                proof {
                    let g0 = got;
                    states = states.push(*cpu);
                    got = got.push(r8);
                    assert(states[i as int] == before);
                    assert(((i as int) as u64) == i);
                    assert(byte_read(&states[i as int], &states[i as int + 1], addr.wrapping_add((i as int) as u64), got[i as int], true));
                    assert(got.drop_last() =~= g0);
                    assert(read_chain(states, addr, got, true));
                }
                let b = match r8 {
                    Ok(b) => b,
                    Err(e) => {
                        return Err(e);
                    },
                };
                proof {
                    lemma_or_byte_bound(prev, b as u64, (i * 8) as u64);
                }
                value = value | ((b as u64) << (i * 8));
                i += 1;
            }
            proof {
                lemma_or_byte_bound(0, 0, 0);
                assert(read_chain(states, addr, got, true));
            }
            Ok(value as u32)
        }
    }
}

/// The low twelve bits of an address are its offset in the page.
proof fn lemma_page_offset(addr: u64)
    ensures
        addr & 0xFFF == addr % 4096,
{
    assert(addr & 0xFFF == addr % 4096) by (bit_vector);
}

} // verus!
