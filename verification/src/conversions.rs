//! Conversions between the wire messages and the library's machine types.
//!
//! Reading from the wire fills in what the message leaves out: an absent
//! register is 0, an absent hash is all zeros, a hash of the wrong length is
//! all zeros, and an unknown access or bracket type is the first one.

use crate::machine::{
    Access, AccessLog, AccessLogType, AccessType, BracketNote, BracketType, ClintConfig, ConcurrencyConfig,
    HtifConfig, MachineConfig, MachineRuntimeConfig, MemoryRangeConfig, MerkleTreeProof, ProcessorConfig,
    RamConfig, RollupConfig, RomConfig, SemanticVersion, TlbConfig, UarchConfig,
};
use crate::wire;
use vstd::prelude::*;

verus! {

/// The value of an optional register: 0 when absent.
pub open spec fn csr_value(field: Option<u64>) -> u64 {
    match field {
        Some(x) => x,
        None => 0,
    }
}

/// The value of an optional register: 0 when absent.
pub fn convert_csr_field(field: Option<u64>) -> (res: u64)
    ensures
        res == csr_value(field),
{
    match field {
        Some(x) => x,
        None => 0,
    }
}

/// The 32 registers read from 31 optional wire registers: the wire's first
/// register lands at index 0, and the last index is 0.
pub open spec fn registers_from_wire(regs: Seq<Option<u64>>) -> Seq<u64> {
    Seq::new(32, |i: int| if i < 31 { csr_value(regs[i]) } else { 0 })
}

/// The 31 optional wire registers written from the first 31 of 32 registers.
pub open spec fn registers_to_wire(regs: Seq<u64>) -> Seq<Option<u64>> {
    Seq::new(31, |i: int| Some(regs[i]))
}

fn registers_from(regs: &[Option<u64>; 31]) -> (res: [u64; 32])
    ensures
        res@ == registers_from_wire(regs@),
{
    let mut res = [0u64; 32];
    let mut i: usize = 0;
    while i < 31
        invariant
            i <= 31,
            res@.len() == 32,
            forall|k: int| 0 <= k < i ==> res@[k] == csr_value(regs@[k]),
            forall|k: int| i <= k < 32 ==> res@[k] == 0,
        decreases 31 - i,
    {
        res[i] = convert_csr_field(regs[i]);
        i = i + 1;
    }
    assert(res@ =~= registers_from_wire(regs@));
    res
}

fn registers_to(regs: &[u64; 32]) -> (res: [Option<u64>; 31])
    ensures
        res@ == registers_to_wire(regs@),
{
    let mut res: [Option<u64>; 31] = [None; 31];
    let mut i: usize = 0;
    while i < 31
        invariant
            i <= 31,
            res@.len() == 31,
            forall|k: int| 0 <= k < i ==> res@[k] == Some(regs@[k]),
        decreases 31 - i,
    {
        res[i] = Some(regs[i]);
        i = i + 1;
    }
    assert(res@ =~= registers_to_wire(regs@));
    res
}

/// The 32 floating-point registers read from 32 optional wire registers.
pub open spec fn fp_registers_from_wire(regs: Seq<Option<u64>>) -> Seq<u64> {
    Seq::new(32, |i: int| csr_value(regs[i]))
}

/// The 32 optional wire registers written from 32 floating-point registers.
pub open spec fn fp_registers_to_wire(regs: Seq<u64>) -> Seq<Option<u64>> {
    Seq::new(32, |i: int| Some(regs[i]))
}

fn fp_registers_from(regs: &[Option<u64>; 32]) -> (res: [u64; 32])
    ensures
        res@ == fp_registers_from_wire(regs@),
{
    let mut res = [0u64; 32];
    let mut i: usize = 0;
    while i < 32
        invariant
            i <= 32,
            res@.len() == 32,
            forall|k: int| 0 <= k < i ==> res@[k] == csr_value(regs@[k]),
        decreases 32 - i,
    {
        res[i] = convert_csr_field(regs[i]);
        i = i + 1;
    }
    assert(res@ =~= fp_registers_from_wire(regs@));
    res
}

fn fp_registers_to(regs: &[u64; 32]) -> (res: [Option<u64>; 32])
    ensures
        res@ == fp_registers_to_wire(regs@),
{
    let mut res: [Option<u64>; 32] = [None; 32];
    let mut i: usize = 0;
    while i < 32
        invariant
            i <= 32,
            res@.len() == 32,
            forall|k: int| 0 <= k < i ==> res@[k] == Some(regs@[k]),
        decreases 32 - i,
    {
        res[i] = Some(regs[i]);
        i = i + 1;
    }
    assert(res@ =~= fp_registers_to_wire(regs@));
    res
}

/// The general-purpose registers of a wire processor configuration.
pub fn convert_x_csr_field(config: &wire::ProcessorConfig) -> (res: [u64; 32])
    ensures
        res@ == registers_from_wire(config.x@),
{
    registers_from(&config.x)
}

/// The floating-point registers of a wire processor configuration.
pub fn convert_f_csr_field(config: &wire::ProcessorConfig) -> (res: [u64; 32])
    ensures
        res@ == fp_registers_from_wire(config.f@),
{
    fp_registers_from(&config.f)
}

/// Reading back what was written keeps the first 31 registers; the last is 0.
pub proof fn lemma_registers_round_trip(regs: Seq<u64>)
    requires
        regs.len() == 32,
    ensures
        forall|i: int| 0 <= i < 31 ==> registers_from_wire(registers_to_wire(regs))[i] == regs[i],
        registers_from_wire(registers_to_wire(regs))[31] == 0,
{
}

/// Reading back what was written keeps all 32 floating-point registers.
pub proof fn lemma_fp_registers_round_trip(regs: Seq<u64>)
    requires
        regs.len() == 32,
    ensures
        fp_registers_from_wire(fp_registers_to_wire(regs)) == regs,
{
    assert(fp_registers_from_wire(fp_registers_to_wire(regs)) =~= regs);
}

/// A processor configuration read from the wire.
pub open spec fn processor_from(p: ProcessorConfig, w: wire::ProcessorConfig) -> bool {
    &&& p.x@ == registers_from_wire(w.x@)
    &&& p.f@ == fp_registers_from_wire(w.f@)
    &&& p.pc == csr_value(w.pc)
    &&& p.mvendorid == csr_value(w.mvendorid)
    &&& p.marchid == csr_value(w.marchid)
    &&& p.mimpid == csr_value(w.mimpid)
    &&& p.mcycle == csr_value(w.mcycle)
    &&& p.icycleinstret == csr_value(w.icycleinstret)
    &&& p.mstatus == csr_value(w.mstatus)
    &&& p.mtvec == csr_value(w.mtvec)
    &&& p.mscratch == csr_value(w.mscratch)
    &&& p.mepc == csr_value(w.mepc)
    &&& p.mcause == csr_value(w.mcause)
    &&& p.mtval == csr_value(w.mtval)
    &&& p.misa == csr_value(w.misa)
    &&& p.mie == csr_value(w.mie)
    &&& p.mip == csr_value(w.mip)
    &&& p.medeleg == csr_value(w.medeleg)
    &&& p.mideleg == csr_value(w.mideleg)
    &&& p.mcounteren == csr_value(w.mcounteren)
    &&& p.stvec == csr_value(w.stvec)
    &&& p.sscratch == csr_value(w.sscratch)
    &&& p.sepc == csr_value(w.sepc)
    &&& p.scause == csr_value(w.scause)
    &&& p.stval == csr_value(w.stval)
    &&& p.satp == csr_value(w.satp)
    &&& p.scounteren == csr_value(w.scounteren)
    &&& p.ilrsc == csr_value(w.ilrsc)
    &&& p.iflags == csr_value(w.iflags)
    &&& p.senvcfg == csr_value(w.senvcfg)
    &&& p.menvcfg == csr_value(w.menvcfg)
    &&& p.fcsr == csr_value(w.fcsr)
}

/// A processor configuration written to the wire.
pub open spec fn processor_to(p: ProcessorConfig, w: wire::ProcessorConfig) -> bool {
    &&& w.x@ == registers_to_wire(p.x@)
    &&& w.f@ == fp_registers_to_wire(p.f@)
    &&& w.pc == Some(p.pc)
    &&& w.mvendorid == Some(p.mvendorid)
    &&& w.marchid == Some(p.marchid)
    &&& w.mimpid == Some(p.mimpid)
    &&& w.mcycle == Some(p.mcycle)
    &&& w.icycleinstret == Some(p.icycleinstret)
    &&& w.mstatus == Some(p.mstatus)
    &&& w.mtvec == Some(p.mtvec)
    &&& w.mscratch == Some(p.mscratch)
    &&& w.mepc == Some(p.mepc)
    &&& w.mcause == Some(p.mcause)
    &&& w.mtval == Some(p.mtval)
    &&& w.misa == Some(p.misa)
    &&& w.mie == Some(p.mie)
    &&& w.mip == Some(p.mip)
    &&& w.medeleg == Some(p.medeleg)
    &&& w.mideleg == Some(p.mideleg)
    &&& w.mcounteren == Some(p.mcounteren)
    &&& w.stvec == Some(p.stvec)
    &&& w.sscratch == Some(p.sscratch)
    &&& w.sepc == Some(p.sepc)
    &&& w.scause == Some(p.scause)
    &&& w.stval == Some(p.stval)
    &&& w.satp == Some(p.satp)
    &&& w.scounteren == Some(p.scounteren)
    &&& w.ilrsc == Some(p.ilrsc)
    &&& w.iflags == Some(p.iflags)
    &&& w.senvcfg == Some(p.senvcfg)
    &&& w.menvcfg == Some(p.menvcfg)
    &&& w.fcsr == Some(p.fcsr)
}

impl ProcessorConfig {
    /// The processor configuration of a wire message.
    pub fn from_wire(config: &wire::ProcessorConfig) -> (res: Self)
        ensures
            processor_from(res, *config),
    {
        ProcessorConfig {
            x: convert_x_csr_field(config),
            f: convert_f_csr_field(config),
            pc: convert_csr_field(config.pc),
            mvendorid: convert_csr_field(config.mvendorid),
            marchid: convert_csr_field(config.marchid),
            mimpid: convert_csr_field(config.mimpid),
            mcycle: convert_csr_field(config.mcycle),
            icycleinstret: convert_csr_field(config.icycleinstret),
            mstatus: convert_csr_field(config.mstatus),
            mtvec: convert_csr_field(config.mtvec),
            mscratch: convert_csr_field(config.mscratch),
            mepc: convert_csr_field(config.mepc),
            mcause: convert_csr_field(config.mcause),
            mtval: convert_csr_field(config.mtval),
            misa: convert_csr_field(config.misa),
            mie: convert_csr_field(config.mie),
            mip: convert_csr_field(config.mip),
            medeleg: convert_csr_field(config.medeleg),
            mideleg: convert_csr_field(config.mideleg),
            mcounteren: convert_csr_field(config.mcounteren),
            stvec: convert_csr_field(config.stvec),
            sscratch: convert_csr_field(config.sscratch),
            sepc: convert_csr_field(config.sepc),
            scause: convert_csr_field(config.scause),
            stval: convert_csr_field(config.stval),
            satp: convert_csr_field(config.satp),
            scounteren: convert_csr_field(config.scounteren),
            ilrsc: convert_csr_field(config.ilrsc),
            iflags: convert_csr_field(config.iflags),
            senvcfg: convert_csr_field(config.senvcfg),
            menvcfg: convert_csr_field(config.menvcfg),
            fcsr: convert_csr_field(config.fcsr),
        }
    }

    /// The wire message of the processor configuration.
    pub fn to_wire(&self) -> (res: wire::ProcessorConfig)
        ensures
            processor_to(*self, res),
    {
        wire::ProcessorConfig {
            x: registers_to(&self.x),
            f: fp_registers_to(&self.f),
            pc: Some(self.pc),
            mvendorid: Some(self.mvendorid),
            marchid: Some(self.marchid),
            mimpid: Some(self.mimpid),
            mcycle: Some(self.mcycle),
            icycleinstret: Some(self.icycleinstret),
            mstatus: Some(self.mstatus),
            mtvec: Some(self.mtvec),
            mscratch: Some(self.mscratch),
            mepc: Some(self.mepc),
            mcause: Some(self.mcause),
            mtval: Some(self.mtval),
            misa: Some(self.misa),
            mie: Some(self.mie),
            mip: Some(self.mip),
            medeleg: Some(self.medeleg),
            mideleg: Some(self.mideleg),
            mcounteren: Some(self.mcounteren),
            stvec: Some(self.stvec),
            sscratch: Some(self.sscratch),
            sepc: Some(self.sepc),
            scause: Some(self.scause),
            stval: Some(self.stval),
            satp: Some(self.satp),
            scounteren: Some(self.scounteren),
            ilrsc: Some(self.ilrsc),
            iflags: Some(self.iflags),
            senvcfg: Some(self.senvcfg),
            menvcfg: Some(self.menvcfg),
            fcsr: Some(self.fcsr),
        }
    }
}

/// Writing a processor configuration and reading it back keeps every register
/// but the last general-purpose one, which is 0: all 32 floating-point
/// registers survive.
pub proof fn lemma_processor_round_trip(p: ProcessorConfig, w: wire::ProcessorConfig, q: ProcessorConfig)
    requires
        processor_to(p, w),
        processor_from(q, w),
    ensures
        forall|i: int| 0 <= i < 31 ==> q.x@[i] == p.x@[i],
        q.x@[31] == 0,
        q.f@ == p.f@,
        q.pc == p.pc,
        q.mvendorid == p.mvendorid,
        q.marchid == p.marchid,
        q.mimpid == p.mimpid,
        q.mcycle == p.mcycle,
        q.icycleinstret == p.icycleinstret,
        q.mstatus == p.mstatus,
        q.mtvec == p.mtvec,
        q.mscratch == p.mscratch,
        q.mepc == p.mepc,
        q.mcause == p.mcause,
        q.mtval == p.mtval,
        q.misa == p.misa,
        q.mie == p.mie,
        q.mip == p.mip,
        q.medeleg == p.medeleg,
        q.mideleg == p.mideleg,
        q.mcounteren == p.mcounteren,
        q.stvec == p.stvec,
        q.sscratch == p.sscratch,
        q.sepc == p.sepc,
        q.scause == p.scause,
        q.stval == p.stval,
        q.satp == p.satp,
        q.scounteren == p.scounteren,
        q.ilrsc == p.ilrsc,
        q.iflags == p.iflags,
        q.senvcfg == p.senvcfg,
        q.menvcfg == p.menvcfg,
        q.fcsr == p.fcsr,
{
    lemma_registers_round_trip(p.x@);
    lemma_fp_registers_round_trip(p.f@);
}

/// The bytes of a hash read from the wire: the wire's bytes when there are 32,
/// all zeros otherwise.
pub open spec fn hash_bytes_from_wire(data: Seq<u8>) -> Seq<u8> {
    if data.len() == 32 {
        data
    } else {
        Seq::new(32, |i: int| 0u8)
    }
}

/// A hash read from the wire.
pub open spec fn hash_from(h: crate::machine::Hash, w: wire::Hash) -> bool {
    h.0@ == hash_bytes_from_wire(w.data@)
}

/// A hash read from an optional wire hash: all zeros when absent.
pub open spec fn opt_hash_from(h: crate::machine::Hash, w: Option<wire::Hash>) -> bool {
    match w {
        Some(x) => hash_from(h, x),
        None => h.0@ == Seq::new(32, |i: int| 0u8),
    }
}

/// A hash written to the wire.
pub open spec fn hash_to(h: crate::machine::Hash, w: wire::Hash) -> bool {
    w.data@ == h.0@
}

impl crate::machine::Hash {
    /// The hash of a wire message: its bytes when there are 32, all zeros
    /// otherwise.
    pub fn from_wire(hash: &wire::Hash) -> (res: Self)
        ensures
            hash_from(res, *hash),
    {
        if hash.data.len() == 32 {
            let mut bytes = [0u8; 32];
            let mut i: usize = 0;
            while i < 32
                invariant
                    i <= 32,
                    hash.data@.len() == 32,
                    bytes@.len() == 32,
                    forall|k: int| 0 <= k < i ==> bytes@[k] == hash.data@[k],
                decreases 32 - i,
            {
                bytes[i] = hash.data[i];
                i = i + 1;
            }
            assert(bytes@ =~= hash.data@);
            crate::machine::Hash(bytes)
        } else {
            crate::machine::Hash::zero()
        }
    }

    /// The hash of an optional wire message: all zeros when absent.
    pub fn from_optional_wire(hash: &Option<wire::Hash>) -> (res: Self)
        ensures
            opt_hash_from(res, *hash),
    {
        match hash {
            Some(h) => crate::machine::Hash::from_wire(h),
            None => crate::machine::Hash::zero(),
        }
    }

    /// The wire message of the hash.
    pub fn to_wire(&self) -> (res: wire::Hash)
        ensures
            hash_to(*self, res),
    {
        let mut data: Vec<u8> = Vec::new();
        let mut i: usize = 0;
        while i < 32
            invariant
                i <= 32,
                self.0@.len() == 32,
                data@ == self.0@.subrange(0, i as int),
            decreases 32 - i,
        {
            data.push(self.0[i]);
            i = i + 1;
            assert(data@ =~= self.0@.subrange(0, i as int));
        }
        assert(data@ =~= self.0@);
        wire::Hash { data }
    }
}

/// Writing a hash and reading it back gives the same bytes.
pub proof fn lemma_hash_round_trip(h: crate::machine::Hash, w: wire::Hash, back: crate::machine::Hash)
    requires
        hash_to(h, w),
        hash_from(back, w),
    ensures
        back.0@ == h.0@,
{
}

fn hashes_from_wire(hashes: &Vec<wire::Hash>) -> (res: Vec<crate::machine::Hash>)
    ensures
        res@.len() == hashes@.len(),
        forall|i: int| 0 <= i < res@.len() ==> hash_from(#[trigger] res@[i], hashes@[i]),
{
    let mut res: Vec<crate::machine::Hash> = Vec::new();
    let mut i: usize = 0;
    while i < hashes.len()
        invariant
            i <= hashes@.len(),
            res@.len() == i,
            forall|k: int| 0 <= k < i ==> hash_from(#[trigger] res@[k], hashes@[k]),
        decreases hashes.len() - i,
    {
        res.push(crate::machine::Hash::from_wire(&hashes[i]));
        i = i + 1;
    }
    res
}

fn hashes_to_wire(hashes: &Vec<crate::machine::Hash>) -> (res: Vec<wire::Hash>)
    ensures
        res@.len() == hashes@.len(),
        forall|i: int| 0 <= i < res@.len() ==> hash_to(hashes@[i], #[trigger] res@[i]),
{
    let mut res: Vec<wire::Hash> = Vec::new();
    let mut i: usize = 0;
    while i < hashes.len()
        invariant
            i <= hashes@.len(),
            res@.len() == i,
            forall|k: int| 0 <= k < i ==> hash_to(hashes@[k], #[trigger] res@[k]),
        decreases hashes.len() - i,
    {
        res.push(hashes[i].to_wire());
        i = i + 1;
    }
    res
}

fn size_from_wire(x: u64) -> (res: usize)
    ensures
        res == x as usize,
{
    x as usize
}

fn size_to_wire(x: usize) -> (res: u64)
    ensures
        res == x as u64,
{
    x as u64
}

fn access_size_from_wire(x: u64) -> (res: i32)
    ensures
        res == x as i32,
{
    x as i32
}

fn access_size_to_wire(x: i32) -> (res: u64)
    ensures
        res == x as u64,
{
    x as u64
}

/// A Merkle tree proof read from the wire.
pub open spec fn proof_from(p: MerkleTreeProof, w: wire::MerkleTreeProof) -> bool {
    &&& p.target_address == w.target_address
    &&& p.log2_target_size == w.log2_target_size as usize
    &&& p.log2_root_size == w.log2_root_size as usize
    &&& opt_hash_from(p.target_hash, w.target_hash)
    &&& opt_hash_from(p.root_hash, w.root_hash)
    &&& p.sibling_hashes@.len() == w.sibling_hashes@.len()
    &&& forall|i: int| 0 <= i < p.sibling_hashes@.len() ==> hash_from(#[trigger] p.sibling_hashes@[i], w.sibling_hashes@[i])
}

/// A Merkle tree proof written to the wire.
pub open spec fn proof_to(p: MerkleTreeProof, w: wire::MerkleTreeProof) -> bool {
    &&& w.target_address == p.target_address
    &&& w.log2_target_size == p.log2_target_size as u64
    &&& w.log2_root_size == p.log2_root_size as u64
    &&& w.target_hash matches Some(t) && hash_to(p.target_hash, t)
    &&& w.root_hash matches Some(r) && hash_to(p.root_hash, r)
    &&& w.sibling_hashes@.len() == p.sibling_hashes@.len()
    &&& forall|i: int| 0 <= i < w.sibling_hashes@.len() ==> hash_to(p.sibling_hashes@[i], #[trigger] w.sibling_hashes@[i])
}

/// The Merkle tree proof that stands for an absent one.
pub open spec fn empty_proof(p: MerkleTreeProof) -> bool {
    &&& p.target_address == 0
    &&& p.log2_target_size == 0
    &&& p.log2_root_size == 0
    &&& p.target_hash.0@ == Seq::new(32, |i: int| 0u8)
    &&& p.root_hash.0@ == Seq::new(32, |i: int| 0u8)
    &&& p.sibling_hashes@.len() == 0
}

/// A Merkle tree proof read from an optional wire proof: the empty proof when
/// absent.
pub open spec fn opt_proof_from(p: MerkleTreeProof, w: Option<wire::MerkleTreeProof>) -> bool {
    match w {
        Some(x) => proof_from(p, x),
        None => empty_proof(p),
    }
}

impl MerkleTreeProof {
    /// The proof that stands for an absent one: all zeros, with no sibling.
    pub fn empty() -> (res: Self)
        ensures
            empty_proof(res),
    {
        MerkleTreeProof {
            target_address: 0,
            log2_target_size: 0,
            target_hash: crate::machine::Hash::zero(),
            log2_root_size: 0,
            root_hash: crate::machine::Hash::zero(),
            sibling_hashes: Vec::new(),
        }
    }

    /// The proof of a wire message.
    pub fn from_wire(tree_proof: &wire::MerkleTreeProof) -> (res: Self)
        ensures
            proof_from(res, *tree_proof),
    {
        MerkleTreeProof {
            target_address: tree_proof.target_address,
            log2_target_size: size_from_wire(tree_proof.log2_target_size),
            log2_root_size: size_from_wire(tree_proof.log2_root_size),
            target_hash: crate::machine::Hash::from_optional_wire(&tree_proof.target_hash),
            root_hash: crate::machine::Hash::from_optional_wire(&tree_proof.root_hash),
            sibling_hashes: hashes_from_wire(&tree_proof.sibling_hashes),
        }
    }

    /// The proof of an optional wire message: the empty proof when absent.
    pub fn from_optional_wire(tree_proof: &Option<wire::MerkleTreeProof>) -> (res: Self)
        ensures
            opt_proof_from(res, *tree_proof),
    {
        match tree_proof {
            Some(p) => MerkleTreeProof::from_wire(p),
            None => MerkleTreeProof::empty(),
        }
    }

    /// The wire message of the proof.
    pub fn to_wire(&self) -> (res: wire::MerkleTreeProof)
        ensures
            proof_to(*self, res),
    {
        wire::MerkleTreeProof {
            target_address: self.target_address,
            log2_target_size: size_to_wire(self.log2_target_size),
            log2_root_size: size_to_wire(self.log2_root_size),
            target_hash: Some(self.target_hash.to_wire()),
            root_hash: Some(self.root_hash.to_wire()),
            sibling_hashes: hashes_to_wire(&self.sibling_hashes),
        }
    }
}

/// Writing a proof and reading it back gives the same proof.
pub proof fn lemma_proof_round_trip(p: MerkleTreeProof, w: wire::MerkleTreeProof, back: MerkleTreeProof)
    requires
        proof_to(p, w),
        proof_from(back, w),
    ensures
        back.target_address == p.target_address,
        back.log2_target_size == p.log2_target_size,
        back.log2_root_size == p.log2_root_size,
        back.target_hash.0@ == p.target_hash.0@,
        back.root_hash.0@ == p.root_hash.0@,
        back.sibling_hashes@.len() == p.sibling_hashes@.len(),
        forall|i: int| 0 <= i < back.sibling_hashes@.len() ==> #[trigger] back.sibling_hashes@[i].0@ == p.sibling_hashes@[i].0@,
{
    assert forall|i: int| 0 <= i < back.sibling_hashes@.len() implies #[trigger] back.sibling_hashes@[i].0@
        == p.sibling_hashes@[i].0@ by {
        assert(hash_to(p.sibling_hashes@[i], w.sibling_hashes@[i]));
        assert(hash_from(back.sibling_hashes@[i], w.sibling_hashes@[i]));
    }
}

/// The access type of a wire code: 1 is a write, anything else a read.
pub open spec fn access_type_from_code(code: i32) -> AccessType {
    if code == 1 {
        AccessType::Write
    } else {
        AccessType::Read
    }
}

/// The wire code of an access type: 0 for a read, 1 for a write.
pub open spec fn access_type_code(t: AccessType) -> i32 {
    match t {
        AccessType::Read => 0,
        AccessType::Write => 1,
    }
}

impl AccessType {
    /// The access type of a wire code: 1 is a write, anything else a read.
    pub fn from_wire(code: i32) -> (res: Self)
        ensures
            res == access_type_from_code(code),
    {
        if code == 1 {
            AccessType::Write
        } else {
            AccessType::Read
        }
    }

    /// The wire code of the access type.
    pub fn to_wire(&self) -> (res: i32)
        ensures
            res == access_type_code(*self),
    {
        match self {
            AccessType::Read => 0,
            AccessType::Write => 1,
        }
    }
}

/// The bracket type of a wire code: 1 is an end, anything else a begin.
pub open spec fn bracket_type_from_code(code: i32) -> BracketType {
    if code == 1 {
        BracketType::End
    } else {
        BracketType::Begin
    }
}

/// The wire code of a bracket type: 0 for a begin, 1 for an end.
pub open spec fn bracket_type_code(t: BracketType) -> i32 {
    match t {
        BracketType::Begin => 0,
        BracketType::End => 1,
    }
}

impl BracketType {
    /// The bracket type of a wire code: 1 is an end, anything else a begin.
    pub fn from_wire(code: i32) -> (res: Self)
        ensures
            res == bracket_type_from_code(code),
    {
        if code == 1 {
            BracketType::End
        } else {
            BracketType::Begin
        }
    }

    /// The wire code of the bracket type.
    pub fn to_wire(&self) -> (res: i32)
        ensures
            res == bracket_type_code(*self),
    {
        match self {
            BracketType::Begin => 0,
            BracketType::End => 1,
        }
    }
}

/// Writing an access or bracket type and reading it back gives the same type.
pub proof fn lemma_type_codes_round_trip(a: AccessType, b: BracketType)
    ensures
        access_type_from_code(access_type_code(a)) == a,
        bracket_type_from_code(bracket_type_code(b)) == b,
{
}

fn copy_bytes(v: &Vec<u8>) -> (res: Vec<u8>)
    ensures
        res@ == v@,
{
    let mut res: Vec<u8> = Vec::new();
    let mut i: usize = 0;
    while i < v.len()
        invariant
            i <= v@.len(),
            res@ == v@.subrange(0, i as int),
        decreases v.len() - i,
    {
        res.push(v[i]);
        i = i + 1;
        assert(res@ =~= v@.subrange(0, i as int));
    }
    assert(v@.subrange(0, v@.len() as int) =~= v@);
    res
}

fn copy_texts(v: &Vec<String>) -> (res: Vec<String>)
    ensures
        res@.len() == v@.len(),
        forall|i: int| 0 <= i < res@.len() ==> #[trigger] res@[i]@ == v@[i]@,
{
    let mut res: Vec<String> = Vec::new();
    let mut i: usize = 0;
    while i < v.len()
        invariant
            i <= v@.len(),
            res@.len() == i,
            forall|k: int| 0 <= k < i ==> #[trigger] res@[k]@ == v@[k]@,
        decreases v.len() - i,
    {
        res.push(v[i].clone());
        i = i + 1;
    }
    res
}

/// An access read from the wire.
pub open spec fn access_from(a: Access, w: wire::Access) -> bool {
    &&& a.access_type == access_type_from_code(w.access_type)
    &&& a.address == w.address
    &&& a.log2_size == w.log2_size as i32
    &&& a.read_data@ == w.read@
    &&& a.written_data@ == w.written@
    &&& opt_proof_from(a.proof, w.proof)
}

/// An access written to the wire.
pub open spec fn access_to(a: Access, w: wire::Access) -> bool {
    &&& w.access_type == access_type_code(a.access_type)
    &&& w.address == a.address
    &&& w.log2_size == a.log2_size as u64
    &&& w.read@ == a.read_data@
    &&& w.written@ == a.written_data@
    &&& w.proof matches Some(p) && proof_to(a.proof, p)
}

impl Access {
    /// The access of a wire message.
    pub fn from_wire(access: &wire::Access) -> (res: Self)
        ensures
            access_from(res, *access),
    {
        Access {
            access_type: AccessType::from_wire(access.access_type),
            read_data: copy_bytes(&access.read),
            written_data: copy_bytes(&access.written),
            proof: MerkleTreeProof::from_optional_wire(&access.proof),
            address: access.address,
            log2_size: access_size_from_wire(access.log2_size),
        }
    }

    /// The wire message of the access.
    pub fn to_wire(&self) -> (res: wire::Access)
        ensures
            access_to(*self, res),
    {
        wire::Access {
            access_type: self.access_type.to_wire(),
            address: self.address,
            log2_size: access_size_to_wire(self.log2_size),
            read: copy_bytes(&self.read_data),
            written: copy_bytes(&self.written_data),
            proof: Some(self.proof.to_wire()),
        }
    }
}

/// A bracket note read from the wire.
pub open spec fn bracket_from(b: BracketNote, w: wire::BracketNote) -> bool {
    &&& b.bracket_type == bracket_type_from_code(w.bracket_type)
    &&& b.location == w.location
    &&& b.text@ == w.text@
}

/// A bracket note written to the wire.
pub open spec fn bracket_to(b: BracketNote, w: wire::BracketNote) -> bool {
    &&& w.bracket_type == bracket_type_code(b.bracket_type)
    &&& w.location == b.location
    &&& w.text@ == b.text@
}

impl BracketNote {
    /// The bracket note of a wire message.
    pub fn from_wire(note: &wire::BracketNote) -> (res: Self)
        ensures
            bracket_from(res, *note),
    {
        BracketNote {
            bracket_type: BracketType::from_wire(note.bracket_type),
            location: note.location,
            text: note.text.clone(),
        }
    }

    /// The wire message of the bracket note.
    pub fn to_wire(&self) -> (res: wire::BracketNote)
        ensures
            bracket_to(*self, res),
    {
        wire::BracketNote {
            bracket_type: self.bracket_type.to_wire(),
            location: self.location,
            text: self.text.clone(),
        }
    }
}

impl AccessLogType {
    /// The access log type of a wire message.
    pub fn from_wire(log_type: &wire::AccessLogType) -> (res: Self)
        ensures
            res.proofs == log_type.proofs,
            res.annotations == log_type.annotations,
    {
        AccessLogType { proofs: log_type.proofs, annotations: log_type.annotations }
    }

    /// The wire message of the access log type.
    pub fn to_wire(&self) -> (res: wire::AccessLogType)
        ensures
            res.proofs == self.proofs,
            res.annotations == self.annotations,
    {
        wire::AccessLogType { proofs: self.proofs, annotations: self.annotations }
    }
}

/// An access log read from the wire; an absent log type has neither proofs
/// nor annotations.
pub open spec fn log_from(l: AccessLog, w: wire::AccessLog) -> bool {
    &&& match w.log_type {
        Some(t) => l.log_type.proofs == t.proofs && l.log_type.annotations == t.annotations,
        None => !l.log_type.proofs && !l.log_type.annotations,
    }
    &&& l.accesses@.len() == w.accesses@.len()
    &&& forall|i: int| 0 <= i < l.accesses@.len() ==> access_from(#[trigger] l.accesses@[i], w.accesses@[i])
    &&& l.brackets@.len() == w.brackets@.len()
    &&& forall|i: int| 0 <= i < l.brackets@.len() ==> bracket_from(#[trigger] l.brackets@[i], w.brackets@[i])
    &&& l.notes@.len() == w.notes@.len()
    &&& forall|i: int| 0 <= i < l.notes@.len() ==> #[trigger] l.notes@[i]@ == w.notes@[i]@
}

/// An access log written to the wire.
pub open spec fn log_to(l: AccessLog, w: wire::AccessLog) -> bool {
    &&& w.log_type matches Some(t) && t.proofs == l.log_type.proofs && t.annotations == l.log_type.annotations
    &&& w.accesses@.len() == l.accesses@.len()
    &&& forall|i: int| 0 <= i < w.accesses@.len() ==> access_to(l.accesses@[i], #[trigger] w.accesses@[i])
    &&& w.brackets@.len() == l.brackets@.len()
    &&& forall|i: int| 0 <= i < w.brackets@.len() ==> bracket_to(l.brackets@[i], #[trigger] w.brackets@[i])
    &&& w.notes@.len() == l.notes@.len()
    &&& forall|i: int| 0 <= i < w.notes@.len() ==> #[trigger] w.notes@[i]@ == l.notes@[i]@
}

impl AccessLog {
    /// The access log of a wire message.
    pub fn from_wire(log: &wire::AccessLog) -> (res: Self)
        ensures
            log_from(res, *log),
    {
        let log_type = match &log.log_type {
            Some(t) => AccessLogType::from_wire(t),
            None => AccessLogType { proofs: false, annotations: false },
        };
        let mut accesses: Vec<Access> = Vec::new();
        let mut i: usize = 0;
        while i < log.accesses.len()
            invariant
                i <= log.accesses@.len(),
                accesses@.len() == i,
                forall|k: int| 0 <= k < i ==> access_from(#[trigger] accesses@[k], log.accesses@[k]),
            decreases log.accesses.len() - i,
        {
            accesses.push(Access::from_wire(&log.accesses[i]));
            i = i + 1;
        }
        let mut brackets: Vec<BracketNote> = Vec::new();
        let mut j: usize = 0;
        while j < log.brackets.len()
            invariant
                j <= log.brackets@.len(),
                brackets@.len() == j,
                forall|k: int| 0 <= k < j ==> bracket_from(#[trigger] brackets@[k], log.brackets@[k]),
            decreases log.brackets.len() - j,
        {
            brackets.push(BracketNote::from_wire(&log.brackets[j]));
            j = j + 1;
        }
        AccessLog { log_type, accesses, brackets, notes: copy_texts(&log.notes) }
    }

    /// The wire message of the access log.
    pub fn to_wire(&self) -> (res: wire::AccessLog)
        ensures
            log_to(*self, res),
    {
        let mut accesses: Vec<wire::Access> = Vec::new();
        let mut i: usize = 0;
        while i < self.accesses.len()
            invariant
                i <= self.accesses@.len(),
                accesses@.len() == i,
                forall|k: int| 0 <= k < i ==> access_to(self.accesses@[k], #[trigger] accesses@[k]),
            decreases self.accesses.len() - i,
        {
            accesses.push(self.accesses[i].to_wire());
            i = i + 1;
        }
        let mut brackets: Vec<wire::BracketNote> = Vec::new();
        let mut j: usize = 0;
        while j < self.brackets.len()
            invariant
                j <= self.brackets@.len(),
                brackets@.len() == j,
                forall|k: int| 0 <= k < j ==> bracket_to(self.brackets@[k], #[trigger] brackets@[k]),
            decreases self.brackets.len() - j,
        {
            brackets.push(self.brackets[j].to_wire());
            j = j + 1;
        }
        wire::AccessLog { log_type: Some(self.log_type.to_wire()), accesses, brackets, notes: copy_texts(&self.notes) }
    }
}


impl RamConfig {
    /// The RAM configuration of a wire message.
    pub fn from_wire(config: &wire::RamConfig) -> (res: Self)
        ensures
            res.length == config.length,
            res.image_filename@ == config.image_filename@,
    {
        RamConfig { length: config.length, image_filename: config.image_filename.clone() }
    }

    /// The wire message of the RAM configuration.
    pub fn to_wire(&self) -> (res: wire::RamConfig)
        ensures
            res.length == self.length,
            res.image_filename@ == self.image_filename@,
    {
        wire::RamConfig { length: self.length, image_filename: self.image_filename.clone() }
    }
}

impl RomConfig {
    /// The ROM configuration of a wire message.
    pub fn from_wire(config: &wire::RomConfig) -> (res: Self)
        ensures
            res.bootargs@ == config.bootargs@,
            res.image_filename@ == config.image_filename@,
    {
        RomConfig { bootargs: config.bootargs.clone(), image_filename: config.image_filename.clone() }
    }

    /// The wire message of the ROM configuration.
    pub fn to_wire(&self) -> (res: wire::RomConfig)
        ensures
            res.bootargs@ == self.bootargs@,
            res.image_filename@ == self.image_filename@,
    {
        wire::RomConfig { bootargs: self.bootargs.clone(), image_filename: self.image_filename.clone() }
    }
}

impl TlbConfig {
    /// The TLB configuration of a wire message.
    pub fn from_wire(config: &wire::TlbConfig) -> (res: Self)
        ensures
            res.image_filename@ == config.image_filename@,
    {
        TlbConfig { image_filename: config.image_filename.clone() }
    }

    /// The wire message of the TLB configuration.
    pub fn to_wire(&self) -> (res: wire::TlbConfig)
        ensures
            res.image_filename@ == self.image_filename@,
    {
        wire::TlbConfig { image_filename: self.image_filename.clone() }
    }
}

/// A memory range configuration and its wire message hold the same values.
pub open spec fn range_matches(m: MemoryRangeConfig, w: wire::MemoryRangeConfig) -> bool {
    &&& m.start == w.start
    &&& m.length == w.length
    &&& m.shared == w.shared
    &&& m.image_filename@ == w.image_filename@
}

/// An optional memory range configuration and its optional wire message hold
/// the same values.
pub open spec fn opt_range_matches(m: Option<MemoryRangeConfig>, w: Option<wire::MemoryRangeConfig>) -> bool {
    match (m, w) {
        (Some(a), Some(b)) => range_matches(a, b),
        (None, None) => true,
        _ => false,
    }
}

impl MemoryRangeConfig {
    /// The memory range configuration of a wire message.
    pub fn from_wire(config: &wire::MemoryRangeConfig) -> (res: Self)
        ensures
            range_matches(res, *config),
    {
        MemoryRangeConfig {
            start: config.start,
            length: config.length,
            shared: config.shared,
            image_filename: config.image_filename.clone(),
        }
    }

    /// The wire message of the memory range configuration.
    pub fn to_wire(&self) -> (res: wire::MemoryRangeConfig)
        ensures
            range_matches(*self, res),
    {
        wire::MemoryRangeConfig {
            start: self.start,
            length: self.length,
            shared: self.shared,
            image_filename: self.image_filename.clone(),
        }
    }
}

fn opt_range_from_wire(config: &Option<wire::MemoryRangeConfig>) -> (res: Option<MemoryRangeConfig>)
    ensures
        opt_range_matches(res, *config),
{
    match config {
        Some(c) => Some(MemoryRangeConfig::from_wire(c)),
        None => None,
    }
}

fn opt_range_to_wire(config: &Option<MemoryRangeConfig>) -> (res: Option<wire::MemoryRangeConfig>)
    ensures
        opt_range_matches(*config, res),
{
    match config {
        Some(c) => Some(c.to_wire()),
        None => None,
    }
}

/// A rollup configuration and its wire message hold the same ranges.
pub open spec fn rollup_matches(r: RollupConfig, w: wire::RollupConfig) -> bool {
    &&& opt_range_matches(r.rx_buffer, w.rx_buffer)
    &&& opt_range_matches(r.tx_buffer, w.tx_buffer)
    &&& opt_range_matches(r.input_metadata, w.input_metadata)
    &&& opt_range_matches(r.voucher_hashes, w.voucher_hashes)
    &&& opt_range_matches(r.notice_hashes, w.notice_hashes)
}

impl RollupConfig {
    /// The rollup configuration of a wire message.
    pub fn from_wire(config: &wire::RollupConfig) -> (res: Self)
        ensures
            rollup_matches(res, *config),
    {
        RollupConfig {
            input_metadata: opt_range_from_wire(&config.input_metadata),
            notice_hashes: opt_range_from_wire(&config.notice_hashes),
            rx_buffer: opt_range_from_wire(&config.rx_buffer),
            voucher_hashes: opt_range_from_wire(&config.voucher_hashes),
            tx_buffer: opt_range_from_wire(&config.tx_buffer),
        }
    }

    /// The wire message of the rollup configuration.
    pub fn to_wire(&self) -> (res: wire::RollupConfig)
        ensures
            rollup_matches(*self, res),
    {
        wire::RollupConfig {
            input_metadata: opt_range_to_wire(&self.input_metadata),
            tx_buffer: opt_range_to_wire(&self.tx_buffer),
            voucher_hashes: opt_range_to_wire(&self.voucher_hashes),
            rx_buffer: opt_range_to_wire(&self.rx_buffer),
            notice_hashes: opt_range_to_wire(&self.notice_hashes),
        }
    }
}

/// Memory range configurations and their wire messages, one for one.
pub open spec fn ranges_match(m: Seq<MemoryRangeConfig>, w: Seq<wire::MemoryRangeConfig>) -> bool {
    &&& m.len() == w.len()
    &&& forall|i: int| 0 <= i < m.len() ==> range_matches(#[trigger] m[i], w[i])
}

fn ranges_from_wire(configs: &Vec<wire::MemoryRangeConfig>) -> (res: Vec<MemoryRangeConfig>)
    ensures
        ranges_match(res@, configs@),
{
    let mut res: Vec<MemoryRangeConfig> = Vec::new();
    let mut i: usize = 0;
    while i < configs.len()
        invariant
            i <= configs@.len(),
            res@.len() == i,
            forall|k: int| 0 <= k < i ==> range_matches(#[trigger] res@[k], configs@[k]),
        decreases configs.len() - i,
    {
        res.push(MemoryRangeConfig::from_wire(&configs[i]));
        i = i + 1;
    }
    res
}

fn ranges_to_wire(configs: &Vec<MemoryRangeConfig>) -> (res: Vec<wire::MemoryRangeConfig>)
    ensures
        ranges_match(configs@, res@),
{
    let mut res: Vec<wire::MemoryRangeConfig> = Vec::new();
    let mut i: usize = 0;
    while i < configs.len()
        invariant
            i <= configs@.len(),
            res@.len() == i,
            forall|k: int| 0 <= k < i ==> range_matches(configs@[k], #[trigger] res@[k]),
        decreases configs.len() - i,
    {
        res.push(configs[i].to_wire());
        i = i + 1;
    }
    res
}

/// A processor configuration read from an optional wire message: the fresh
/// processor configuration when absent.
pub open spec fn opt_processor_from(p: ProcessorConfig, w: Option<wire::ProcessorConfig>) -> bool {
    match w {
        Some(x) => processor_from(p, x),
        None => p.mvendorid == crate::machine::MVENDORID_DEFAULT && p.marchid == crate::machine::MARCHID_DEFAULT
            && p.mimpid == crate::machine::MIMPID_DEFAULT && p.is_zero_except_ids(),
    }
}

/// A machine configuration read from the wire: every absent part is the
/// part's fresh configuration.
pub open spec fn machine_config_from(m: MachineConfig, w: wire::MachineConfig) -> bool {
    &&& opt_processor_from(m.processor, w.processor)
    &&& match w.ram {
        Some(r) => m.ram.length == r.length && m.ram.image_filename@ == r.image_filename@,
        None => m.ram.length == 0 && m.ram.image_filename@ == Seq::<char>::empty(),
    }
    &&& match w.rom {
        Some(r) => m.rom.bootargs@ == r.bootargs@ && m.rom.image_filename@ == r.image_filename@,
        None => m.rom.bootargs@ == Seq::<char>::empty() && m.rom.image_filename@ == Seq::<char>::empty(),
    }
    &&& match w.tlb {
        Some(t) => m.tlb.image_filename@ == t.image_filename@,
        None => m.tlb.image_filename@ == Seq::<char>::empty(),
    }
    &&& match w.uarch {
        Some(u) => m.uarch == u,
        None => m.uarch.processor is None && m.uarch.ram is None,
    }
    &&& ranges_match(m.flash_drives@, w.flash_drive@)
    &&& match w.clint {
        Some(c) => m.clint == c,
        None => m.clint.mtimecmp == 0,
    }
    &&& match w.htif {
        Some(h) => m.htif == h,
        None => !m.htif.console_getchar && !m.htif.yield_manual && !m.htif.yield_automatic && m.htif.fromhost == 0
            && m.htif.tohost == 0,
    }
    &&& match w.rollup {
        Some(r) => rollup_matches(m.rollup, r),
        None => m.rollup.rx_buffer is None && m.rollup.tx_buffer is None && m.rollup.input_metadata is None
            && m.rollup.voucher_hashes is None && m.rollup.notice_hashes is None,
    }
}

/// A machine configuration written to the wire: every part is present.
pub open spec fn machine_config_to(m: MachineConfig, w: wire::MachineConfig) -> bool {
    &&& w.processor matches Some(p) && processor_to(m.processor, p)
    &&& w.ram matches Some(r) && r.length == m.ram.length && r.image_filename@ == m.ram.image_filename@
    &&& w.rom matches Some(r) && r.bootargs@ == m.rom.bootargs@ && r.image_filename@ == m.rom.image_filename@
    &&& w.tlb matches Some(t) && t.image_filename@ == m.tlb.image_filename@
    &&& w.uarch == Some(m.uarch)
    &&& ranges_match(m.flash_drives@, w.flash_drive@)
    &&& w.clint == Some(m.clint)
    &&& w.htif == Some(m.htif)
    &&& w.rollup matches Some(r) && rollup_matches(m.rollup, r)
}

fn copy_uarch(u: &UarchConfig) -> (res: UarchConfig)
    ensures
        res == *u,
{
    UarchConfig {
        processor: u.processor,
        ram: match &u.ram {
            Some(r) => Some(crate::machine::UarchRamConfig { length: r.length, image_filename: r.image_filename.clone() }),
            None => None,
        },
    }
}

impl MachineConfig {
    /// The machine configuration of a wire message.
    pub fn from_wire(config: &wire::MachineConfig) -> (res: Self)
        ensures
            machine_config_from(res, *config),
    {
        MachineConfig {
            processor: match &config.processor {
                Some(p) => ProcessorConfig::from_wire(p),
                None => ProcessorConfig::new(),
            },
            ram: match &config.ram {
                Some(r) => RamConfig::from_wire(r),
                None => RamConfig::new(),
            },
            rom: match &config.rom {
                Some(r) => RomConfig::from_wire(r),
                None => RomConfig::new(),
            },
            tlb: match &config.tlb {
                Some(t) => TlbConfig::from_wire(t),
                None => TlbConfig::new(),
            },
            uarch: match &config.uarch {
                Some(u) => copy_uarch(u),
                None => UarchConfig::new(),
            },
            flash_drives: ranges_from_wire(&config.flash_drive),
            clint: match &config.clint {
                Some(c) => *c,
                None => ClintConfig { mtimecmp: 0 },
            },
            htif: match &config.htif {
                Some(h) => *h,
                None => HtifConfig {
                    console_getchar: false,
                    yield_manual: false,
                    yield_automatic: false,
                    fromhost: 0,
                    tohost: 0,
                },
            },
            rollup: match &config.rollup {
                Some(r) => RollupConfig::from_wire(r),
                None => RollupConfig::new(),
            },
        }
    }

    /// The wire message of the machine configuration.
    pub fn to_wire(&self) -> (res: wire::MachineConfig)
        ensures
            machine_config_to(*self, res),
    {
        wire::MachineConfig {
            processor: Some(self.processor.to_wire()),
            ram: Some(self.ram.to_wire()),
            rom: Some(self.rom.to_wire()),
            tlb: Some(self.tlb.to_wire()),
            uarch: Some(copy_uarch(&self.uarch)),
            flash_drive: ranges_to_wire(&self.flash_drives),
            clint: Some(self.clint),
            htif: Some(self.htif),
            rollup: Some(self.rollup.to_wire()),
        }
    }
}

impl ConcurrencyConfig {
    /// The concurrency configuration of a wire message.
    pub fn from_wire(config: &wire::ConcurrencyConfig) -> (res: Self)
        ensures
            res.update_merkle_tree == config.update_merkle_tree,
    {
        ConcurrencyConfig { update_merkle_tree: config.update_merkle_tree }
    }
}

impl MachineRuntimeConfig {
    /// The runtime configuration of a wire message: an absent concurrency
    /// configuration updates the Merkle tree with 0 threads.
    pub fn from_wire(config: &wire::MachineRuntimeConfig) -> (res: Self)
        ensures
            res.concurrency.update_merkle_tree == match config.concurrency {
                Some(c) => c.update_merkle_tree,
                None => 0,
            },
    {
        MachineRuntimeConfig {
            concurrency: match &config.concurrency {
                Some(c) => ConcurrencyConfig::from_wire(c),
                None => ConcurrencyConfig { update_merkle_tree: 0 },
            },
        }
    }

    /// The wire message of the runtime configuration.
    pub fn to_wire(&self) -> (res: wire::MachineRuntimeConfig)
        ensures
            res.concurrency == Some(wire::ConcurrencyConfig { update_merkle_tree: self.concurrency.update_merkle_tree }),
    {
        wire::MachineRuntimeConfig {
            concurrency: Some(wire::ConcurrencyConfig { update_merkle_tree: self.concurrency.update_merkle_tree }),
        }
    }

    /// The runtime configuration used when a request gives none.
    pub fn default_config() -> (res: Self)
        ensures
            res.concurrency.update_merkle_tree == 0,
    {
        MachineRuntimeConfig { concurrency: ConcurrencyConfig { update_merkle_tree: 0 } }
    }
}

impl SemanticVersion {
    /// The server version of a wire message.
    pub fn from_wire(version: &wire::SemanticVersion) -> (res: Self)
        ensures
            res.major == version.major,
            res.minor == version.minor,
            res.patch == version.patch,
            res.pre_release@ == version.pre_release@,
            res.build@ == version.build@,
    {
        SemanticVersion {
            major: version.major,
            minor: version.minor,
            patch: version.patch,
            pre_release: version.pre_release.clone(),
            build: version.build.clone(),
        }
    }

    /// Whether two versions are the same version: all their parts agree.
    pub fn same_as(&self, other: &SemanticVersion) -> (res: bool)
        ensures
            res == (self.major == other.major && self.minor == other.minor && self.patch == other.patch
                && self.pre_release@ == other.pre_release@ && self.build@ == other.build@),
    {
        self.major == other.major && self.minor == other.minor && self.patch == other.patch
            && self.pre_release == other.pre_release && self.build == other.build
    }
}

} // verus!
