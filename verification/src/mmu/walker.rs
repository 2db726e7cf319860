use vstd::prelude::*;

use crate::cpu::bus::Bus;
use crate::cpu::{Cpu, PrivilegeMode};
use crate::mmu::access_type::AccessType;
use crate::mmu::address::VirtualAddress;
use crate::mmu::pte::Pte;
use crate::mmu::satp::Satp;
use crate::mmu::tlb::{Tlb, TlbEntry};
use crate::trap::Trap;

verus! {

/// Sv39 address translation.
pub struct PageWalker;

/// Whether accesses of kind `access` bypass translation: in M-mode
/// (for data only when mstatus.MPRV is clear), or with satp in Bare mode.
pub open spec fn untranslated(cpu: &Cpu, access: AccessType) -> bool {
    (cpu.privilege_mode == PrivilegeMode::Machine && (access == AccessType::Instruction || (cpu.csr.mstatus
        >> 17u64) & 1 == 0)) || cpu.csr.satp >> 60u64 == 0
}

/// The page fault of an access of kind `access` to `addr`.
pub open spec fn spec_page_fault(access: AccessType, addr: u64) -> Trap {
    match access {
        AccessType::Instruction => Trap::InstructionPageFault(addr),
        AccessType::Read => Trap::LoadPageFault(addr),
        AccessType::Write => Trap::StorePageFault(addr),
    }
}

/// The privilege the access is checked with: mstatus.MPP for data
/// accesses in M-mode with MPRV set (`None` when MPP holds the reserved
/// value 2), else the current one.
pub open spec fn spec_effective_privilege(cpu: &Cpu, access: AccessType) -> Option<PrivilegeMode> {
    if cpu.privilege_mode == PrivilegeMode::Machine && access != AccessType::Instruction && (cpu.csr.mstatus
        >> 17u64) & 1 != 0 {
        if cpu.csr.mpp_valid() {
            Some(cpu.csr.spec_mpp())
        } else {
            None
        }
    } else {
        Some(cpu.privilege_mode)
    }
}

/// Whether a page whose entry has flags `pte` may be accessed: the user
/// bit must suit the privilege (S-mode reaches user data only with SUM and
/// never executes user pages; U-mode only reaches user pages), and the
/// page must be executable for fetches, readable (or executable with MXR)
/// for loads and writable for stores.
pub open spec fn page_allows(cpu: &Cpu, pte: Pte, access: AccessType) -> bool {
    let user = pte.flag(4);
    let sum = (cpu.csr.mstatus >> 18u64) & 1 != 0;
    let mxr = (cpu.csr.mstatus >> 19u64) & 1 != 0;
    let priv_ok = match spec_effective_privilege(cpu, access) {
        None => false,
        Some(PrivilegeMode::Machine) => true,
        Some(PrivilegeMode::Supervisor) => !(user && (access == AccessType::Instruction || !sum)),
        Some(PrivilegeMode::User) => user,
    };
    let kind_ok = match access {
        AccessType::Instruction => pte.flag(3),
        AccessType::Read => pte.flag(1) || (mxr && pte.flag(3)),
        AccessType::Write => pte.flag(2),
    };
    priv_ok && kind_ok
}

/// The TLB entry that serves `va` in the current address space, if the
/// slot for its page holds one.
pub open spec fn tlb_hit(cpu: &Cpu, va: u64) -> Option<TlbEntry> {
    let vpn = va >> 12u64;
    let asid = ((cpu.csr.satp >> 44u64) % 0x10000) as u16;
    let e = cpu.tlb.entries@[Tlb::spec_hash(vpn) as int];
    if e.valid && (e.is_global || e.asid == asid) && vpn & !(e.page_mask >> 12u64) == e.vpn & !(e.page_mask
        >> 12u64) {
        Some(e)
    } else {
        None
    }
}

/// The physical address a TLB entry gives `va`.
pub open spec fn entry_pa(e: TlbEntry, va: u64) -> u64 {
    (e.ppn << 12u64) | (va & e.page_mask)
}

/// `new` differs from `old` at most in its bus and TLB.
pub open spec fn walk_frame(old: &Cpu, new: &Cpu) -> bool {
    *new == Cpu { bus: new.bus, tlb: new.tlb, ..*old }
}

/// The index into the level-`level` table that `va` selects.
pub open spec fn vpn_at(va: u64, level: nat) -> u64 {
    if level == 2 {
        (va >> 30u64) % 512
    } else if level == 1 {
        (va >> 21u64) % 512
    } else {
        (va >> 12u64) % 512
    }
}

/// The address of the entry that `va` selects in the level-`level` table
/// at `table`.
pub open spec fn pte_addr_at(va: u64, level: nat, table: u64) -> u64 {
    table.wrapping_add((vpn_at(va, level) * 8) as u64)
}

/// Whether an entry read `got` takes the walk down a level: a valid
/// entry that is no leaf.
pub open spec fn walk_descends(got: Result<u64, Trap>) -> bool {
    got matches Ok(b) && !Pte(b).spec_is_invalid() && !Pte(b).spec_is_leaf()
}

/// The entry reads of an Sv39 table walk for `va`: read `k` takes the
/// entry at level `2 - k` of the table at `ts[k]` through the bus (see
/// `Bus::read64_post`), from bus `bs[k]` to `bs[k + 1]`, with outcome
/// `rs[k]`; every read but the last took the walk down to the table its
/// entry names.
pub open spec fn walk_reads(bs: Seq<Bus>, ts: Seq<u64>, rs: Seq<Result<u64, Trap>>, va: u64) -> bool {
    &&& bs.len() == rs.len() + 1 && ts.len() == rs.len() && rs.len() <= 3
    &&& forall|k: int|
        #![trigger rs[k]]
        0 <= k < rs.len() ==> Bus::read64_post(&bs[k], &bs[k + 1], pte_addr_at(va, (2 - k) as nat, ts[k]), rs[k])
    &&& forall|k: int|
        #![trigger rs[k]]
        0 <= k < rs.len() - 1 ==> walk_descends(rs[k]) && ts[k + 1] == Pte(rs[k]->Ok_0).spec_ppn() << 12u64
}

/// How a walk whose entry reads were `rs` (the last one at level
/// `3 - rs.len()`) ends: the fault of the read; a page fault for an
/// invalid entry, or for a non-leaf at level 0; `Ok((entry address,
/// entry, level))` for a leaf; `None` while it goes on.
pub open spec fn walk_result(ts: Seq<u64>, rs: Seq<Result<u64, Trap>>, va: u64, access: AccessType) -> Option<Result<(u64, u64, nat), Trap>> {
    let k = rs.len() - 1;
    let level = (2 - k) as nat;
    match rs.last() {
        Err(e) => Some(Err(e)),
        Ok(b) => if Pte(b).spec_is_invalid() {
            Some(Err(spec_page_fault(access, va)))
        } else if Pte(b).spec_is_leaf() {
            Some(Ok((pte_addr_at(va, level, ts[k]), b, level)))
        } else if level == 0 {
            Some(Err(spec_page_fault(access, va)))
        } else {
            None
        },
    }
}

/// The Sv39 table walk for `va` from the root table at `table`, from bus
/// `b0` to `b1` (a read of a device register can change the device):
/// the entries are read level by level (see `walk_reads`) until the walk
/// ends with `w` (see `walk_result`).
pub open spec fn walked(b0: Bus, b1: Bus, va: u64, access: AccessType, table: u64, w: Result<(u64, u64, nat), Trap>) -> bool {
    exists|bs: Seq<Bus>, ts: Seq<u64>, rs: Seq<Result<u64, Trap>>|
        #![trigger walk_reads(bs, ts, rs, va)]
        {
            &&& walk_reads(bs, ts, rs, va)
            &&& rs.len() >= 1 && ts[0] == table && bs[0] == b0 && bs.last() == b1
            &&& walk_result(ts, rs, va, access) == Some(w)
        }
}

/// The offset mask of a page mapped at `level`: 4 KiB, 2 MiB or 1 GiB.
pub open spec fn level_mask(level: nat) -> u64 {
    if level == 0 {
        0xFFF
    } else if level == 1 {
        0x1F_FFFF
    } else {
        0x3FFF_FFFF
    }
}

/// What a walk that found the leaf `bits` at `level` ends with: a page
/// fault unless the leaf allows the access and was accessed (and dirtied,
/// for a store) and a superpage is aligned; otherwise the physical
/// address, with the translation cached in the TLB slot of the page.
pub open spec fn leaf_outcome(old: &Cpu, new: &Cpu, va: u64, access: AccessType, bits: u64, level: nat, r: Result<u64, Trap>) -> bool {
    let pte = Pte(bits);
    let permitted = page_allows(old, pte, access) && pte.flag(6) && (access == AccessType::Write ==> pte.flag(7));
    let misaligned = (level == 1 && (bits >> 10u64) % 512 != 0) || (level == 2 && ((bits >> 10u64) % 512 != 0
        || (bits >> 19u64) % 512 != 0));
    if !permitted || misaligned {
        r == Err::<u64, Trap>(spec_page_fault(access, va)) && *new == *old
    } else {
        let entry = TlbEntry {
            vpn: va >> 12u64,
            asid: ((old.csr.satp >> 44u64) % 0x10000) as u16,
            is_global: bits & 0x20 != 0,
            valid: true,
            pte_bits: bits,
            page_mask: level_mask(level),
            ppn: pte.spec_ppn(),
        };
        &&& r == Ok::<u64, Trap>((pte.spec_ppn() << 12u64) | (va & level_mask(level)))
        &&& *new == Cpu { tlb: new.tlb, ..*old }
        &&& new.tlb.entries@ == old.tlb.entries@.update(Tlb::spec_hash(va >> 12u64) as int, entry)
    }
}

/// What translating `va` for an access of kind `access` from hart state
/// `old` ends with: the result `r` and the state `new` (see
/// `PageWalker::translate`).
pub open spec fn translated(old: &Cpu, new: &Cpu, va: u64, access: AccessType, r: Result<u64, Trap>) -> bool {
    &&& (walk_frame(old, new))
    &&& (untranslated(old, access) ==> r == Ok::<u64, Trap>(va) && *new == *old)
    &&& (!untranslated(old, access) && tlb_hit(old, va) is Some ==> {
        let e = tlb_hit(old, va)->Some_0;
        &&& *new == *old
        &&& r == if page_allows(old, Pte(e.pte_bits), access) {
            Ok::<u64, Trap>(entry_pa(e, va))
        } else {
            Err(spec_page_fault(access, va))
        }
    })
    &&& (!untranslated(old, access) && tlb_hit(old, va) is None && r is Ok ==> {
        let e = new.tlb.entries@[Tlb::spec_hash(va >> 12u64) as int];
        &&& e.valid && e.vpn == va >> 12u64
        &&& r == Ok::<u64, Trap>(entry_pa(e, va))
    })
    &&& (!untranslated(old, access) && tlb_hit(old, va) is None ==> {
        if !VirtualAddress(va).spec_is_canonical() {
            r == Err::<u64, Trap>(spec_page_fault(access, va)) && *new == *old
        } else {
            exists|mid: Bus, w: Result<(u64, u64, nat), Trap>|
                #![trigger walked(old.bus, mid, va, access, ((old.csr.satp % 0x1000_0000_0000) << 12u64) as u64, w)]
                walked(old.bus, mid, va, access, ((old.csr.satp % 0x1000_0000_0000) << 12u64) as u64, w) && match w {
                    Err(e) => r == Err::<u64, Trap>(e) && *new == (Cpu { bus: mid, ..*old }),
                    Ok((_, bits, level)) => leaf_outcome(&Cpu { bus: mid, ..*old }, new, va, access, bits, level, r),
                }
        }
    })
}

impl PageWalker {
    /// Translates `virtual_address` for an access of kind `access`.
    /// Untranslated accesses map to themselves. Otherwise a TLB entry for
    /// the page answers if there is one (a page fault when it does not
    /// allow the access), else the Sv39 tables are walked from satp.PPN:
    /// an invalid entry, a non-canonical address, a misaligned superpage
    /// or a leaf that does not allow the access (or lacks A, or D for a
    /// store) is a page fault, so a leaf that passes already has its A bit
    /// (and D bit for a store) set and memory is not written; the entries
    /// are read through the bus, whose fault ends the walk; the
    /// translation is cached in the TLB.
    pub fn translate(cpu: &mut Cpu, virtual_address: u64, access: AccessType) -> (r: Result<u64, Trap>)
        ensures
            translated(old(cpu), final(cpu), virtual_address, access, r),
    {
        if cpu.privilege_mode == PrivilegeMode::Machine {
            if access == AccessType::Instruction || !cpu.csr.mprv() {
                return Ok(virtual_address);
            }
        }
        let satp_raw = cpu.csr.satp;
        if satp_raw >> 60 == 0 {
            return Ok(virtual_address);
        }
        let vpn = virtual_address >> 12;
        let satp = Satp::new(satp_raw);
        let asid = satp.asid();
        let index = Tlb::hash(vpn);
        let entry = cpu.tlb.entries[index];
        if entry.valid && (entry.is_global || entry.asid == asid) {
            let mask_vpn = vpn & !(entry.page_mask >> 12);
            let entry_vpn = entry.vpn & !(entry.page_mask >> 12);
            if mask_vpn == entry_vpn {
                if !Self::allows(cpu, Pte::new(entry.pte_bits), access) {
                    return Err(Self::page_fault(access, virtual_address));
                }
                return Ok((entry.ppn << 12) | (virtual_address & entry.page_mask));
            }
        }
        let va = VirtualAddress::new(virtual_address);
        if !va.is_canonical() {
            return Err(Self::page_fault(access, virtual_address));
        }
        let mut level: u8 = 2;
        let mut table = satp.ppn() << 12;
        let ghost root = table;
        let ghost mut bs: Seq<Bus> = seq![cpu.bus];
        let ghost mut ts: Seq<u64> = Seq::empty();
        let ghost mut rs: Seq<Result<u64, Trap>> = Seq::empty();
        loop
            invariant
                level <= 2,
                root == ((old(cpu).csr.satp % 0x1000_0000_0000) << 12u64) as u64,
                walk_reads(bs, ts, rs, virtual_address),
                rs.len() == 2 - level,
                bs[0] == old(cpu).bus && bs.last() == cpu.bus,
                rs.len() == 0 ==> table == root,
                rs.len() > 0 ==> ts[0] == root && walk_descends(rs.last()) && table == Pte(rs.last()->Ok_0).spec_ppn()
                    << 12u64,
                *cpu == (Cpu { bus: cpu.bus, ..*old(cpu) }),
                va == VirtualAddress(virtual_address),
                va.spec_is_canonical(),
                !untranslated(old(cpu), access),
                tlb_hit(old(cpu), virtual_address) is None,
                vpn == virtual_address >> 12,
                index == Tlb::spec_hash(vpn),
                asid == ((cpu.csr.satp >> 44u64) % 0x10000) as u16,
            decreases level,
        {
            let walk_vpn: u64 = if level == 2 {
                va.vpn2() as u64
            } else if level == 1 {
                va.vpn1() as u64
            } else {
                va.vpn0() as u64
            };
            let pte_addr = table.wrapping_add(walk_vpn * 8);
            assert(pte_addr == pte_addr_at(virtual_address, level as nat, table));
            let ghost b_before = cpu.bus;
            let got = cpu.bus.read64(pte_addr);
            proof {
                let bs2 = bs.push(cpu.bus);
                let ts2 = ts.push(table);
                let rs2 = rs.push(got);
                assert forall|k: int|
                    #![trigger rs2[k]]
                    0 <= k < rs2.len() implies Bus::read64_post(
                        &bs2[k],
                        &bs2[k + 1],
                        pte_addr_at(virtual_address, (2 - k) as nat, ts2[k]),
                        rs2[k],
                    ) by {
                    if k < rs.len() {
                        assert(rs2[k] == rs[k]);
                    } else {
                        assert(bs2[k] == b_before);
                    }
                }
                assert forall|k: int|
                    #![trigger rs2[k]]
                    0 <= k < rs2.len() - 1 implies walk_descends(rs2[k]) && ts2[k + 1] == Pte(rs2[k]->Ok_0).spec_ppn()
                        << 12u64 by {
                    if k < rs.len() - 1 {
                        assert(rs2[k] == rs[k]);
                    } else {
                        assert(rs2[k] == rs.last());
                    }
                }
                bs = bs2;
                ts = ts2;
                rs = rs2;
                assert(walk_reads(bs, ts, rs, virtual_address));
            }
            let bits = match got {
                Ok(b) => b,
                Err(e) => {
                    proof {
                        assert(walk_result(ts, rs, virtual_address, access) == Some(Err::<(u64, u64, nat), Trap>(e)));
                        assert(walked(old(cpu).bus, cpu.bus, virtual_address, access, root, Err(e)));
                    }
                    return Err(e);
                },
            };
            let pte = Pte::new(bits);
            if pte.is_invalid() {
                proof {
                    let w = Err::<(u64, u64, nat), Trap>(spec_page_fault(access, virtual_address));
                    assert(walk_result(ts, rs, virtual_address, access) == Some(w));
                    assert(walked(old(cpu).bus, cpu.bus, virtual_address, access, root, w));
                }
                return Err(Self::page_fault(access, virtual_address));
            }
            if pte.is_leaf() {
                proof {
                    let w = Ok::<(u64, u64, nat), Trap>((pte_addr, bits, level as nat));
                    assert(walk_result(ts, rs, virtual_address, access) == Some(w));
                    assert(walked(old(cpu).bus, cpu.bus, virtual_address, access, root, w));
                }
                Self::check_permissions(cpu, pte, access, virtual_address)?;
                assert(pte.0 & 0x40 != 0 && (access == AccessType::Write ==> pte.0 & 0x80 != 0)) by {
                    let b = pte.0;
                    assert((b >> 6u64) & 1 == 1 ==> b & 0x40 != 0) by (bit_vector);
                    assert((b >> 7u64) & 1 == 1 ==> b & 0x80 != 0) by (bit_vector);
                }
                let mut pte_bits = pte.bits();
                let mut pte_updated = false;
                if (pte_bits & 0x40) == 0 {
                    pte_bits = pte_bits | 0x40;
                    pte_updated = true;
                }
                if access == AccessType::Write && (pte_bits & 0x80) == 0 {
                    pte_bits = pte_bits | 0x80;
                    pte_updated = true;
                }
                if pte_updated {
                    cpu.bus.write64(pte_addr, pte_bits)?;
                }
                let page_mask: u64 = if level == 0 {
                    0xFFF
                } else if level == 1 {
                    if pte.ppn0() != 0 {
                        return Err(Self::page_fault(access, virtual_address));
                    }
                    0x1F_FFFF
                } else {
                    if pte.ppn0() != 0 || pte.ppn1() != 0 {
                        return Err(Self::page_fault(access, virtual_address));
                    }
                    0x3FFF_FFFF
                };
                let ppn = pte.ppn();
                let pa = (ppn << 12) | (virtual_address & page_mask);
                let new_entry = TlbEntry {
                    vpn,
                    asid,
                    is_global: (pte_bits & 0x20) != 0,
                    valid: true,
                    pte_bits,
                    page_mask,
                    ppn,
                };
                cpu.tlb.entries[index] = new_entry;
                return Ok(pa);
            }
            if level == 0 {
                proof {
                    let w = Err::<(u64, u64, nat), Trap>(spec_page_fault(access, virtual_address));
                    assert(walk_result(ts, rs, virtual_address, access) == Some(w));
                    assert(walked(old(cpu).bus, cpu.bus, virtual_address, access, root, w));
                }
                return Err(Self::page_fault(access, virtual_address));
            }
            level = level - 1;
            table = pte.ppn() << 12;
        }
    }

    fn page_fault(access: AccessType, addr: u64) -> (t: Trap)
        ensures
            t == spec_page_fault(access, addr),
    {
        match access {
            AccessType::Instruction => Trap::InstructionPageFault(addr),
            AccessType::Read => Trap::LoadPageFault(addr),
            AccessType::Write => Trap::StorePageFault(addr),
        }
    }

    /// The privilege the access is checked with (see
    /// `spec_effective_privilege`).
    fn effective_privilege(cpu: &Cpu, access: AccessType) -> (p: Option<PrivilegeMode>)
        ensures
            p == spec_effective_privilege(cpu, access),
    {
        if cpu.privilege_mode == PrivilegeMode::Machine && access != AccessType::Instruction && cpu.csr.mprv() {
            if (cpu.csr.mstatus >> 11) & 0b11 == 2 {
                None
            } else {
                Some(cpu.csr.mpp())
            }
        } else {
            Some(cpu.privilege_mode)
        }
    }

    fn allows(cpu: &Cpu, pte: Pte, access: AccessType) -> (b: bool)
        ensures
            b == page_allows(cpu, pte, access),
    {
        let user = pte.user();
        let priv_ok = match Self::effective_privilege(cpu, access) {
            None => false,
            Some(PrivilegeMode::Machine) => true,
            Some(PrivilegeMode::Supervisor) => !(user && (access == AccessType::Instruction || !cpu.csr.sum())),
            Some(PrivilegeMode::User) => user,
        };
        let kind_ok = match access {
            AccessType::Instruction => pte.execute(),
            AccessType::Read => pte.read() || (cpu.csr.mxr() && pte.execute()),
            AccessType::Write => pte.write(),
        };
        priv_ok && kind_ok
    }

    /// A leaf entry allows the access (see `page_allows`) and has been
    /// accessed (and, for a store, dirtied); else a page fault.
    fn check_permissions(cpu: &Cpu, pte: Pte, access: AccessType, virtual_address: u64) -> (r: Result<(), Trap>)
        ensures
            r is Ok <==> page_allows(cpu, pte, access) && pte.flag(6) && (access == AccessType::Write ==> pte.flag(7)),
            r is Err ==> r == Err::<(), Trap>(spec_page_fault(access, virtual_address)),
    {
        if !Self::allows(cpu, pte, access) {
            return Err(Self::page_fault(access, virtual_address));
        }
        if !pte.accessed() || (access == AccessType::Write && !pte.dirty()) {
            return Err(Self::page_fault(access, virtual_address));
        }
        Ok(())
    }
}


/// A successful translation is remembered: translating the same address
/// again for the same kind of access hits the TLB, which allows the access
/// and gives the same physical address.
pub proof fn law_translation_is_cached(old: Cpu, new: Cpu, va: u64, access: AccessType, pa: u64)
    requires
        translated(&old, &new, va, access, Ok(pa)),
        !untranslated(&old, access),
    ensures
        tlb_hit(&new, va) matches Some(e) && entry_pa(e, va) == pa && page_allows(&new, Pte(e.pte_bits), access),
{
    if tlb_hit(&old, va) is None {
        let root = ((old.csr.satp % 0x1000_0000_0000) << 12u64) as u64;
        let (mid, w) = choose|mid: Bus, w: Result<(u64, u64, nat), Trap>|
            walked(old.bus, mid, va, access, root, w) && match w {
                Err(e) => Ok::<u64, Trap>(pa) == Err::<u64, Trap>(e) && new == (Cpu { bus: mid, ..old }),
                Ok((_, bits, level)) => leaf_outcome(&Cpu { bus: mid, ..old }, &new, va, access, bits, level, Ok(pa)),
            };
        match w {
            Ok((_, bits, level)) => {
                let e = new.tlb.entries@[Tlb::spec_hash(va >> 12u64) as int];
                assert(e.vpn == va >> 12u64);
                assert(tlb_hit(&new, va) == Some(e));
            },
            _ => {},
        }
    }
}

/// A TLB entry serves only its own address space: an entry that
/// `tlb_hit` gives is valid, and global or tagged with the ASID in satp.
pub proof fn law_tlb_hit_is_in_address_space(cpu: Cpu, va: u64)
    ensures
        tlb_hit(&cpu, va) matches Some(e) ==> e.valid && (e.is_global || e.asid == ((cpu.csr.satp >> 44u64)
            % 0x10000) as u16),
{
}

/// A translation never answers from another address space: after a
/// successful translated access, the TLB slot of the page holds a valid
/// entry, global or of the current ASID, that gives the answer.
pub proof fn law_translation_stays_in_address_space(old: Cpu, new: Cpu, va: u64, access: AccessType, pa: u64)
    requires
        translated(&old, &new, va, access, Ok(pa)),
        !untranslated(&old, access),
    ensures
        ({
            let e = new.tlb.entries@[Tlb::spec_hash(va >> 12u64) as int];
            &&& e.valid
            &&& e.is_global || e.asid == ((old.csr.satp >> 44u64) % 0x10000) as u16
            &&& pa == entry_pa(e, va)
        }),
{
    let slot = Tlb::spec_hash(va >> 12u64) as int;
    if tlb_hit(&old, va) is None {
        let root = ((old.csr.satp % 0x1000_0000_0000) << 12u64) as u64;
        let (mid, w) = choose|mid: Bus, w: Result<(u64, u64, nat), Trap>|
            walked(old.bus, mid, va, access, root, w) && match w {
                Err(e) => Ok::<u64, Trap>(pa) == Err::<u64, Trap>(e) && new == (Cpu { bus: mid, ..old }),
                Ok((_, bits, level)) => leaf_outcome(&Cpu { bus: mid, ..old }, &new, va, access, bits, level, Ok(pa)),
            };
    }
}

} // verus!
