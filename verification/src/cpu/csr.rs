use vstd::prelude::*;

use std::collections::HashMap;

use crate::cpu::PrivilegeMode;
use crate::trap::Trap;

verus! {

broadcast use vstd::std_specs::hash::group_hash_axioms;

pub const MISA_MXL_RV64: u64 = 0x8000_0000_0000_0000;
pub const MISA_A: u64 = 1 << 0;
pub const MISA_C: u64 = 1 << 2;
pub const MISA_D: u64 = 1 << 3;
pub const MISA_F: u64 = 1 << 5;
pub const MISA_I: u64 = 1 << 8;
pub const MISA_M: u64 = 1 << 12;
pub const MISA_S: u64 = 1 << 18;
pub const MISA_U: u64 = 1 << 20;
/// RV64 with I, M, A, F, D, C, S and U.
pub const MISA: u64 = 0x8000_0000_0014_112d;

pub const MSTATUS_MIE: u64 = 0x8;
pub const MSTATUS_MPIE: u64 = 0x80;

pub const SSTATUS_MASK: u64 = 0x8000_0003_000D_E162;

pub const MSTATUS_SIE: u64 = 0x2;
pub const MSTATUS_SPIE: u64 = 0x20;
pub const MSTATUS_SPP: u64 = 0x100;

pub const MSTATUS_MPP_SHIFT: u64 = 11;
pub const MSTATUS_MPP_MASK: u64 = 0x1800;

pub const CSR_MVENDORID: u16 = 0xF11;
pub const CSR_MARCHID: u16 = 0xF12;
pub const CSR_MIMPID: u16 = 0xF13;
pub const CSR_MHARTID: u16 = 0xF14;

pub const CSR_MSTATUS: u16 = 0x300;
pub const CSR_MISA: u16 = 0x301;
pub const CSR_MEDELEG: u16 = 0x302;
pub const CSR_MIDELEG: u16 = 0x303;
pub const CSR_MIE: u16 = 0x304;
pub const CSR_MTVEC: u16 = 0x305;

pub const CSR_MSCRATCH: u16 = 0x340;
pub const CSR_MEPC: u16 = 0x341;
pub const CSR_MCAUSE: u16 = 0x342;
pub const CSR_MTVAL: u16 = 0x343;
pub const CSR_MIP: u16 = 0x344;

pub const CSR_CYCLE: u16 = 0xC00;
pub const CSR_TIME: u16 = 0xC01;

pub const CSR_SATP: u16 = 0x180;
pub const CSR_SSTATUS: u16 = 0x100;
pub const CSR_SIE: u16 = 0x104;
pub const CSR_STVEC: u16 = 0x105;
pub const CSR_SSCRATCH: u16 = 0x140;
pub const CSR_SEPC: u16 = 0x141;
pub const CSR_SCAUSE: u16 = 0x142;
pub const CSR_STVAL: u16 = 0x143;
pub const CSR_SIP: u16 = 0x144;
/// The Sstc supervisor timer compare register.
pub const CSR_STIMECMP: u16 = 0x14D;
pub const SSIP: u64 = 0x2;
pub const STIP: u64 = 0x20;
pub const SEIP: u64 = 0x200;

pub const SIE_MASK: u64 = 0x222;
pub const SIP_MASK: u64 = 0x222;

pub const CSR_FFLAGS: u16 = 0x001;
pub const CSR_FRM: u16 = 0x002;
pub const CSR_FCSR: u16 = 0x003;

pub const CSR_MNSTATUS: u16 = 0x744;

/// Whether `csr` is a PMP configuration register (0x3A0..=0x3AF).
pub open spec fn is_pmpcfg(csr: u16) -> bool {
    0x3A0 <= csr <= 0x3AF
}

/// Whether `csr` is a PMP address register (0x3B0..=0x3EF).
pub open spec fn is_pmpaddr(csr: u16) -> bool {
    0x3B0 <= csr <= 0x3EF
}

/// Whether `csr` is one of the read-only machine information registers.
pub open spec fn is_read_only(csr: u16) -> bool {
    csr == CSR_MHARTID || csr == CSR_MVENDORID || csr == CSR_MARCHID || csr == CSR_MIMPID
}

/// Whether `csr` is read from a field of its own (or is an alias of one);
/// the others are kept in a general table. Writes of `time` and `cycle`
/// go to the general table too, so reads keep giving the fields.
pub open spec fn is_named(csr: u16) -> bool {
    csr == CSR_MHARTID || csr == CSR_MSTATUS || csr == CSR_MISA || csr == CSR_MEDELEG || csr
        == CSR_MIDELEG || csr == CSR_MTVEC || csr == CSR_MSCRATCH || csr == CSR_MEPC || csr
        == CSR_MCAUSE || csr == CSR_MTVAL || csr == CSR_MIP || csr == CSR_MIE || csr == CSR_SATP
        || csr == CSR_SSTATUS || csr == CSR_STVEC || csr == CSR_SEPC || csr == CSR_SCAUSE || csr
        == CSR_STVAL || csr == CSR_SSCRATCH || csr == CSR_SIE || csr == CSR_SIP || csr
        == CSR_FFLAGS || csr == CSR_FRM || csr == CSR_FCSR || csr
        == CSR_TIME || csr == CSR_CYCLE || is_pmpcfg(csr) || is_pmpaddr(csr)
}

/// The trap for an access to `csr` that is not allowed.
pub open spec fn spec_illegal_csr(csr: u16) -> Trap {
    Trap::IllegalInstruction(csr as u32)
}

/// The trap for an access to `csr` that is not allowed.
#[verifier::when_used_as_spec(spec_illegal_csr)]
pub fn illegal_csr(csr: u16) -> (t: Trap)
    ensures
        t == spec_illegal_csr(csr),
{
    Trap::IllegalInstruction(csr as u32)
}

/// The position of `csr` in a register bank that starts at `base`.
fn index_from(csr: u16, base: u16) -> (i: usize)
    requires
        base <= csr,
    ensures
        i == csr - base,
{
    (csr - base) as usize
}

/// The control and status registers of the hart.
pub struct Csr {
    pub mhartid: u64,
    pub mstatus: u64,
    pub misa: u64,
    pub medeleg: u64,
    pub mideleg: u64,
    pub mie: u64,
    pub mtvec: u64,
    pub mscratch: u64,
    pub mepc: u64,
    pub mcause: u64,
    pub mtval: u64,
    pub mip: u64,
    pub satp: u64,
    pub sepc: u64,
    pub scause: u64,
    pub stval: u64,
    pub sscratch: u64,
    pub stvec: u64,
    pub pmpcfg: [u64; 16],
    pub pmpaddr: [u64; 64],
    pub fflags: u64,
    pub frm: u64,
    pub fcsr: u64,
    pub time: u64,
    pub cycle: u64,
    pub extra: HashMap<u16, u64>,
}

impl Csr {
    /// The registers of a hart at reset: hart id 0, `misa` as `MISA`,
    /// everything else 0, and the general table (which holds `stimecmp`
    /// among others) empty.
    pub open spec fn is_reset(&self) -> bool {
        &&& self.mhartid == 0
        &&& self.mstatus == 0 && self.medeleg == 0 && self.mideleg == 0 && self.mie == 0 && self.mtvec == 0
        &&& self.mscratch == 0 && self.mepc == 0 && self.mcause == 0 && self.mtval == 0 && self.mip == 0
        &&& self.satp == 0 && self.sepc == 0 && self.scause == 0 && self.stval == 0 && self.sscratch == 0
        &&& self.stvec == 0 && self.fflags == 0 && self.frm == 0 && self.fcsr == 0 && self.time == 0 && self.cycle == 0
        &&& self.misa == MISA
        &&& self.pmpcfg@ == Seq::new(16, |i: int| 0u64)
        &&& self.pmpaddr@ == Seq::new(64, |i: int| 0u64)
        &&& self.extra_view() == Map::<u16, u64>::empty()
    }

    /// The hart id (always 0).
    pub open spec fn hart_id(&self) -> u64 {
        self.mhartid
    }

    /// The registers without a field of their own.
    pub closed spec fn extra_view(&self) -> Map<u16, u64> {
        self.extra@
    }

    /// The value a read of `csr` gives.
    pub open spec fn spec_value(&self, csr: u16) -> u64 {
        if csr == CSR_MHARTID { self.hart_id() }
        else if csr == CSR_MSTATUS { self.mstatus }
        else if csr == CSR_MISA { self.misa }
        else if csr == CSR_MEDELEG { self.medeleg }
        else if csr == CSR_MIDELEG { self.mideleg }
        else if csr == CSR_MTVEC { self.mtvec }
        else if csr == CSR_MSCRATCH { self.mscratch }
        else if csr == CSR_MEPC { self.mepc }
        else if csr == CSR_MCAUSE { self.mcause }
        else if csr == CSR_MTVAL { self.mtval }
        else if csr == CSR_MIP { self.mip }
        else if csr == CSR_MIE { self.mie }
        else if csr == CSR_SATP { self.satp }
        else if csr == CSR_SSTATUS { self.mstatus & SSTATUS_MASK }
        else if csr == CSR_STVEC { self.stvec }
        else if csr == CSR_SEPC { self.sepc }
        else if csr == CSR_SCAUSE { self.scause }
        else if csr == CSR_STVAL { self.stval }
        else if csr == CSR_SSCRATCH { self.sscratch }
        else if csr == CSR_SIE { self.mie & SIE_MASK }
        else if csr == CSR_SIP { self.mip & SIP_MASK }
        else if csr == CSR_FFLAGS { self.fflags }
        else if csr == CSR_FRM { self.frm }
        else if csr == CSR_FCSR { self.fcsr }
        else if csr == CSR_TIME { self.time }
        else if csr == CSR_CYCLE { self.cycle }
        else if is_pmpcfg(csr) { self.pmpcfg@[csr - 0x3A0] }
        else if is_pmpaddr(csr) { self.pmpaddr@[csr - 0x3B0] }
        else if self.extra_view().contains_key(csr) { self.extra_view()[csr] }
        else { 0 }
    }

    /// How a successful write of `value` to `csr` turns `old` into `new`.
    pub open spec fn spec_written(old: &Csr, new: &Csr, csr: u16, value: u64) -> bool {
        &&& new.hart_id() == old.hart_id()
        &&& new.mstatus == if csr == CSR_MSTATUS { value } else if csr == CSR_SSTATUS {
            (old.mstatus & !SSTATUS_MASK) | (value & SSTATUS_MASK)
        } else { old.mstatus }
        &&& new.misa == if csr == CSR_MISA { value } else { old.misa }
        &&& new.medeleg == if csr == CSR_MEDELEG { value } else { old.medeleg }
        &&& new.mideleg == if csr == CSR_MIDELEG { value } else { old.mideleg }
        &&& new.mtvec == if csr == CSR_MTVEC { value } else { old.mtvec }
        &&& new.mscratch == if csr == CSR_MSCRATCH { value } else { old.mscratch }
        &&& new.mepc == if csr == CSR_MEPC { value } else { old.mepc }
        &&& new.mcause == if csr == CSR_MCAUSE { value } else { old.mcause }
        &&& new.mtval == if csr == CSR_MTVAL { value } else { old.mtval }
        &&& new.mip == if csr == CSR_MIP { value } else if csr == CSR_SIP {
            (old.mip & !SIP_MASK) | (value & SIP_MASK)
        } else { old.mip }
        &&& new.mie == if csr == CSR_MIE { value } else if csr == CSR_SIE {
            (old.mie & !SIE_MASK) | (value & SIE_MASK)
        } else { old.mie }
        &&& new.satp == if csr == CSR_SATP { value } else { old.satp }
        &&& new.stvec == if csr == CSR_STVEC { value } else { old.stvec }
        &&& new.sepc == if csr == CSR_SEPC { value } else { old.sepc }
        &&& new.scause == if csr == CSR_SCAUSE { value } else { old.scause }
        &&& new.stval == if csr == CSR_STVAL { value } else { old.stval }
        &&& new.sscratch == if csr == CSR_SSCRATCH { value } else { old.sscratch }
        &&& new.fflags == if csr == CSR_FFLAGS { value & 0x1f } else if csr == CSR_FCSR {
            (value & 0xff) & 0x1f
        } else { old.fflags }
        &&& new.frm == if csr == CSR_FRM { value & 0x7 } else if csr == CSR_FCSR {
            ((value & 0xff) >> 5) & 0x7
        } else { old.frm }
        &&& new.fcsr == if csr == CSR_FFLAGS { (old.frm << 5) | (value & 0x1f) } else if csr
            == CSR_FRM { ((value & 0x7) << 5) | old.fflags } else if csr == CSR_FCSR {
            value & 0xff
        } else { old.fcsr }
        &&& new.time == old.time
        &&& new.cycle == old.cycle
        &&& new.pmpcfg@ == if is_pmpcfg(csr) { old.pmpcfg@.update(csr - 0x3A0, value) } else {
            old.pmpcfg@
        }
        &&& new.pmpaddr@ == if is_pmpaddr(csr) { old.pmpaddr@.update(csr - 0x3B0, value) } else {
            old.pmpaddr@
        }
        &&& new.extra_view() == if is_named(csr) && csr != CSR_TIME && csr != CSR_CYCLE { old.extra_view() } else {
            old.extra_view().insert(csr, value)
        }
    }

    /// The registers after reset: everything zero but `misa`, and no timer
    /// compare pending.
    pub fn new() -> (c: Csr)
        ensures
            c.hart_id() == 0,
            c.is_reset(),
    {
        let c = Csr {
            mhartid: 0,
            mstatus: 0,
            misa: MISA,
            medeleg: 0,
            mideleg: 0,
            mie: 0,
            mtvec: 0,
            mscratch: 0,
            mepc: 0,
            mcause: 0,
            mtval: 0,
            mip: 0,
            satp: 0,
            sepc: 0,
            scause: 0,
            stval: 0,
            sscratch: 0,
            stvec: 0,
            pmpcfg: [0u64; 16],
            pmpaddr: [0u64; 64],
            fflags: 0,
            frm: 0,
            fcsr: 0,
            time: 0,
            cycle: 0,
            extra: HashMap::new(),
        };
        assert(c.pmpcfg@ =~= Seq::new(16, |i: int| 0u64));
        assert(c.pmpaddr@ =~= Seq::new(64, |i: int| 0u64));
        c
    }

    /// Reads a CSR; registers without a field of their own read as the
    /// last value written, or 0.
    pub fn read(&self, csr: u16) -> (r: Result<u64, Trap>)
        ensures
            r == Ok::<u64, Trap>(self.spec_value(csr)),
    {
        if csr == CSR_MHARTID { Ok(self.mhartid) }
        else if csr == CSR_MSTATUS { Ok(self.mstatus) }
        else if csr == CSR_MISA { Ok(self.misa) }
        else if csr == CSR_MEDELEG { Ok(self.medeleg) }
        else if csr == CSR_MIDELEG { Ok(self.mideleg) }
        else if csr == CSR_MTVEC { Ok(self.mtvec) }
        else if csr == CSR_MSCRATCH { Ok(self.mscratch) }
        else if csr == CSR_MEPC { Ok(self.mepc) }
        else if csr == CSR_MCAUSE { Ok(self.mcause) }
        else if csr == CSR_MTVAL { Ok(self.mtval) }
        else if csr == CSR_MIP { Ok(self.mip) }
        else if csr == CSR_MIE { Ok(self.mie) }
        else if csr == CSR_SATP { Ok(self.satp) }
        else if csr == CSR_SSTATUS { Ok(self.mstatus & SSTATUS_MASK) }
        else if csr == CSR_STVEC { Ok(self.stvec) }
        else if csr == CSR_SEPC { Ok(self.sepc) }
        else if csr == CSR_SCAUSE { Ok(self.scause) }
        else if csr == CSR_STVAL { Ok(self.stval) }
        else if csr == CSR_SSCRATCH { Ok(self.sscratch) }
        else if csr == CSR_SIE { Ok(self.mie & SIE_MASK) }
        else if csr == CSR_SIP { Ok(self.mip & SIP_MASK) }
        else if csr == CSR_FFLAGS { Ok(self.fflags) }
        else if csr == CSR_FRM { Ok(self.frm) }
        else if csr == CSR_FCSR { Ok(self.fcsr) }
        else if csr == CSR_TIME { Ok(self.time) }
        else if csr == CSR_CYCLE { Ok(self.cycle) }
        else if 0x3A0 <= csr && csr <= 0x3AF { Ok(self.pmpcfg[index_from(csr, 0x3A0)]) }
        else if 0x3B0 <= csr && csr <= 0x3EF { Ok(self.pmpaddr[index_from(csr, 0x3B0)]) }
        else {
            match self.extra.get(&csr) {
                Some(v) => Ok(*v),
                None => Ok(0),
            }
        }
    }

    /// Writes a CSR. The read-only information registers refuse the write
    /// with an illegal-instruction trap carrying the CSR number; a CSR
    /// without a field of its own, and `time` and `cycle`, are stored in
    /// the general table.
    pub fn write(&mut self, csr: u16, value: u64) -> (r: Result<(), Trap>)
        ensures
            r is Err <==> is_read_only(csr),
            r is Err ==> r == Err::<(), Trap>(spec_illegal_csr(csr)) && *final(self)
                == *old(self),
            r is Ok ==> Csr::spec_written(old(self), final(self), csr, value),
    {
        if csr == CSR_MVENDORID || csr == CSR_MARCHID || csr == CSR_MIMPID {
            return Err(illegal_csr(csr));
        }
        if csr == CSR_MHARTID { return Err(illegal_csr(csr)); }
        else if csr == CSR_MSTATUS { self.mstatus = value; }
        else if csr == CSR_MISA { self.misa = value; }
        else if csr == CSR_MEDELEG { self.medeleg = value; }
        else if csr == CSR_MIDELEG { self.mideleg = value; }
        else if csr == CSR_MTVEC { self.mtvec = value; }
        else if csr == CSR_MSCRATCH { self.mscratch = value; }
        else if csr == CSR_MEPC { self.mepc = value; }
        else if csr == CSR_MCAUSE { self.mcause = value; }
        else if csr == CSR_MTVAL { self.mtval = value; }
        else if csr == CSR_MIP { self.mip = value; }
        else if csr == CSR_MIE { self.mie = value; }
        else if csr == CSR_SATP { self.satp = value; }
        else if csr == CSR_SSTATUS {
            self.mstatus = (self.mstatus & !SSTATUS_MASK) | (value & SSTATUS_MASK);
        }
        else if csr == CSR_STVEC { self.stvec = value; }
        else if csr == CSR_SEPC { self.sepc = value; }
        else if csr == CSR_SCAUSE { self.scause = value; }
        else if csr == CSR_STVAL { self.stval = value; }
        else if csr == CSR_SSCRATCH { self.sscratch = value; }
        else if csr == CSR_SIE { self.mie = (self.mie & !SIE_MASK) | (value & SIE_MASK); }
        else if csr == CSR_SIP { self.mip = (self.mip & !SIP_MASK) | (value & SIP_MASK); }
        else if csr == CSR_FFLAGS {
            self.fflags = value & 0x1f;
            self.fcsr = (self.frm << 5) | self.fflags;
        }
        else if csr == CSR_FRM {
            self.frm = value & 0x7;
            self.fcsr = (self.frm << 5) | self.fflags;
        }
        else if csr == CSR_FCSR {
            self.fcsr = value & 0xff;
            self.fflags = self.fcsr & 0x1f;
            self.frm = (self.fcsr >> 5) & 0x7;
        }
        else if 0x3A0 <= csr && csr <= 0x3AF { self.pmpcfg[index_from(csr, 0x3A0)] = value; }
        else if 0x3B0 <= csr && csr <= 0x3EF { self.pmpaddr[index_from(csr, 0x3B0)] = value; }
        else { self.extra.insert(csr, value); }
        Ok(())
    }

    /// The supervisor timer compare value: CSR `stimecmp`, which the
    /// general table holds (0 until written).
    pub fn stimecmp(&self) -> (v: u64)
        ensures
            v == self.spec_value(CSR_STIMECMP),
    {
        match self.extra.get(&CSR_STIMECMP) {
            Some(v) => *v,
            None => 0,
        }
    }

    /// mstatus.SUM (bit 18): supervisor may access user pages.
    pub fn sum(&self) -> (b: bool)
        ensures
            b == ((self.mstatus >> 18) & 1 != 0),
    {
        ((self.mstatus >> 18) & 1) != 0
    }

    /// mstatus.MXR (bit 19): executable pages are readable.
    pub fn mxr(&self) -> (b: bool)
        ensures
            b == ((self.mstatus >> 19) & 1 != 0),
    {
        ((self.mstatus >> 19) & 1) != 0
    }

    /// mstatus.MPRV (bit 17): loads and stores use the MPP privilege.
    pub fn mprv(&self) -> (b: bool)
        ensures
            b == ((self.mstatus >> 17) & 1 != 0),
    {
        ((self.mstatus >> 17) & 1) != 0
    }

    /// Whether mstatus.MPP (bits 12..11) holds a privilege level (its value
    /// 2 is reserved).
    pub open spec fn mpp_valid(&self) -> bool {
        (self.mstatus >> 11) & 0b11 != 2
    }

    /// The privilege mode held in mstatus.MPP.
    pub open spec fn spec_mpp(&self) -> PrivilegeMode {
        let f = (self.mstatus >> 11) & 0b11;
        if f == 0 {
            PrivilegeMode::User
        } else if f == 1 {
            PrivilegeMode::Supervisor
        } else {
            PrivilegeMode::Machine
        }
    }

    /// The privilege mode held in mstatus.MPP.
    pub fn mpp(&self) -> (m: PrivilegeMode)
        requires
            self.mpp_valid(),
        ensures
            m == self.spec_mpp(),
    {
        let f = (self.mstatus >> 11) & 0b11;
        if f == 0 {
            PrivilegeMode::User
        } else if f == 1 {
            PrivilegeMode::Supervisor
        } else {
            PrivilegeMode::Machine
        }
    }

    /// Whether exception `cause` is delegated to S-mode (bit `cause` of
    /// medeleg).
    pub fn is_exception_delegated(&self, cause: u64) -> (b: bool)
        requires
            cause < 64,
        ensures
            b == ((self.medeleg >> cause) & 1 != 0),
    {
        ((self.medeleg >> cause) & 1) != 0
    }

    /// Whether interrupt `cause` is delegated to S-mode (bit `cause` of
    /// mideleg).
    pub fn is_interrupt_delegated(&self, cause: u64) -> (b: bool)
        requires
            cause < 64,
        ensures
            b == ((self.mideleg >> cause) & 1 != 0),
    {
        ((self.mideleg >> cause) & 1) != 0
    }
}

impl Default for Csr {
    fn default() -> (c: Csr)
        ensures
            c.misa == MISA && c.mstatus == 0,
    {
        Csr::new()
    }
}

/// The floating-point CSRs agree: fcsr is frm above fflags.
pub open spec fn fp_csrs_consistent(c: &Csr) -> bool {
    &&& c.fflags < 32
    &&& c.frm < 8
    &&& c.fcsr == (c.frm << 5) | c.fflags
}

/// Every successful CSR write keeps fflags, frm and fcsr in agreement.
pub proof fn law_fp_csrs_stay_consistent(old: Csr, new: Csr, csr: u16, value: u64)
    requires
        fp_csrs_consistent(&old),
        Csr::spec_written(&old, &new, csr, value),
    ensures
        fp_csrs_consistent(&new),
{
    let f = old.fflags;
    let m = old.frm;
    assert(f < 32 && m < 8 ==> {
        &&& value & 0x1f < 32
        &&& value & 0x7 < 8
        &&& ((value & 0xff) & 0x1f) < 32
        &&& (((value & 0xff) >> 5) & 0x7) < 8
        &&& value & 0xff == ((((value & 0xff) >> 5) & 0x7) << 5) | ((value & 0xff) & 0x1f)
    }) by (bit_vector);
}

/// Writing sstatus changes only the mstatus bits that sstatus shows, and
/// reading sstatus back gives the written value restricted to those bits.
pub proof fn law_sstatus_view(old: Csr, new: Csr, value: u64)
    requires
        Csr::spec_written(&old, &new, CSR_SSTATUS, value),
    ensures
        new.mstatus & !SSTATUS_MASK == old.mstatus & !SSTATUS_MASK,
        new.spec_value(CSR_SSTATUS) == value & SSTATUS_MASK,
{
    let o = old.mstatus;
    assert(((o & !0x8000_0003_000D_E162u64) | (value & 0x8000_0003_000D_E162u64)) & !0x8000_0003_000D_E162u64
        == o & !0x8000_0003_000D_E162u64) by (bit_vector);
    assert(((o & !0x8000_0003_000D_E162u64) | (value & 0x8000_0003_000D_E162u64)) & 0x8000_0003_000D_E162u64
        == value & 0x8000_0003_000D_E162u64) by (bit_vector);
}

} // verus!
