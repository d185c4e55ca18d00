//! The machine configuration and proof types that sessions hold and hand out.

use vstd::prelude::*;

verus! {

/// Vendor id that a fresh processor configuration carries.
pub const MVENDORID_DEFAULT: u64 = 0x6361727465736920;
/// Architecture id that a fresh processor configuration carries.
pub const MARCHID_DEFAULT: u64 = 0x7;
/// Implementation id that a fresh processor configuration carries.
pub const MIMPID_DEFAULT: u64 = 0x1;

/// Server version.
#[derive(Debug, Clone)]
pub struct SemanticVersion {
    pub major: u32,
    pub minor: u32,
    pub patch: u32,
    pub pre_release: String,
    pub build: String,
}

/// Cartesi machine processor state configuration.
#[derive(Debug, Copy, Clone)]
pub struct ProcessorConfig {
    /// Values of the general-purpose registers.
    pub x: [u64; 32],
    /// Values of the floating-point registers.
    pub f: [u64; 32],
    pub pc: u64,
    pub mvendorid: u64,
    pub marchid: u64,
    pub mimpid: u64,
    pub mcycle: u64,
    pub icycleinstret: u64,
    pub mstatus: u64,
    pub mtvec: u64,
    pub mscratch: u64,
    pub mepc: u64,
    pub mcause: u64,
    pub mtval: u64,
    pub misa: u64,
    pub mie: u64,
    pub mip: u64,
    pub medeleg: u64,
    pub mideleg: u64,
    pub mcounteren: u64,
    pub stvec: u64,
    pub sscratch: u64,
    pub sepc: u64,
    pub scause: u64,
    pub stval: u64,
    pub satp: u64,
    pub scounteren: u64,
    pub ilrsc: u64,
    pub iflags: u64,
    pub senvcfg: u64,
    pub menvcfg: u64,
    pub fcsr: u64,
}

impl ProcessorConfig {
    /// A processor configuration with the machine's identification registers set
    /// and every other register zero.
    pub fn new() -> (res: Self)
        ensures
            res.mvendorid == MVENDORID_DEFAULT,
            res.marchid == MARCHID_DEFAULT,
            res.mimpid == MIMPID_DEFAULT,
            res.is_zero_except_ids(),
    {
        ProcessorConfig {
            x: [0u64; 32],
            f: [0u64; 32],
            pc: 0,
            mvendorid: MVENDORID_DEFAULT,
            marchid: MARCHID_DEFAULT,
            mimpid: MIMPID_DEFAULT,
            mcycle: 0,
            icycleinstret: 0,
            mstatus: 0,
            mtvec: 0,
            mscratch: 0,
            mepc: 0,
            mcause: 0,
            mtval: 0,
            misa: 0,
            mie: 0,
            mip: 0,
            medeleg: 0,
            mideleg: 0,
            mcounteren: 0,
            stvec: 0,
            sscratch: 0,
            sepc: 0,
            scause: 0,
            stval: 0,
            satp: 0,
            scounteren: 0,
            ilrsc: 0,
            iflags: 0,
            senvcfg: 0,
            menvcfg: 0,
            fcsr: 0,
        }
    }

    /// Every register is zero, but for the identification registers.
    pub open spec fn is_zero_except_ids(self) -> bool {
        &&& forall|i: int| 0 <= i < 32 ==> self.x@[i] == 0 && self.f@[i] == 0
        &&& self.pc == 0
        &&& self.mcycle == 0
        &&& self.icycleinstret == 0
        &&& self.mstatus == 0
        &&& self.mtvec == 0
        &&& self.mscratch == 0
        &&& self.mepc == 0
        &&& self.mcause == 0
        &&& self.mtval == 0
        &&& self.misa == 0
        &&& self.mie == 0
        &&& self.mip == 0
        &&& self.medeleg == 0
        &&& self.mideleg == 0
        &&& self.mcounteren == 0
        &&& self.stvec == 0
        &&& self.sscratch == 0
        &&& self.sepc == 0
        &&& self.scause == 0
        &&& self.stval == 0
        &&& self.satp == 0
        &&& self.scounteren == 0
        &&& self.ilrsc == 0
        &&& self.iflags == 0
        &&& self.senvcfg == 0
        &&& self.menvcfg == 0
        &&& self.fcsr == 0
    }
}

/// Cartesi machine RAM state configuration.
#[derive(Debug, Clone)]
pub struct RamConfig {
    pub length: u64,
    pub image_filename: String,
}

impl RamConfig {
    /// An empty RAM configuration.
    pub fn new() -> (res: Self)
        ensures
            res.length == 0,
            res.image_filename@ == Seq::<char>::empty(),
    {
        RamConfig { length: 0, image_filename: String::new() }
    }
}

/// Cartesi machine TLB configuration.
#[derive(Debug, Clone)]
pub struct TlbConfig {
    pub image_filename: String,
}

impl TlbConfig {
    /// An empty TLB configuration.
    pub fn new() -> (res: Self)
        ensures
            res.image_filename@ == Seq::<char>::empty(),
    {
        TlbConfig { image_filename: String::new() }
    }
}

/// Processor of the micro-architecture.
#[derive(Debug, Clone, Copy)]
pub struct UarchProcessorConfig {
    /// Registers x1 to x31.
    pub x: [Option<u64>; 31],
    pub pc: Option<u64>,
    pub cycle: Option<u64>,
}

/// RAM of the micro-architecture.
#[derive(Debug, Clone)]
pub struct UarchRamConfig {
    pub length: u64,
    pub image_filename: String,
}

/// Cartesi machine micro-architecture configuration.
#[derive(Debug, Clone)]
pub struct UarchConfig {
    pub processor: Option<UarchProcessorConfig>,
    pub ram: Option<UarchRamConfig>,
}

impl UarchConfig {
    /// A micro-architecture configuration with nothing set.
    pub fn new() -> (res: Self)
        ensures
            res.processor is None,
            res.ram is None,
    {
        UarchConfig { processor: None, ram: None }
    }
}

/// Cartesi machine ROM state configuration.
#[derive(Debug, Clone)]
pub struct RomConfig {
    pub bootargs: String,
    pub image_filename: String,
}

impl RomConfig {
    /// An empty ROM configuration.
    pub fn new() -> (res: Self)
        ensures
            res.bootargs@ == Seq::<char>::empty(),
            res.image_filename@ == Seq::<char>::empty(),
    {
        RomConfig { bootargs: String::new(), image_filename: String::new() }
    }
}

/// Cartesi machine memory range state configuration.
#[derive(Debug, Clone)]
pub struct MemoryRangeConfig {
    pub start: u64,
    pub length: u64,
    /// Whether changes to the range reach its image file.
    pub shared: bool,
    pub image_filename: String,
}

impl MemoryRangeConfig {
    /// An empty memory range configuration.
    pub fn new() -> (res: Self)
        ensures
            res.start == 0,
            res.length == 0,
            !res.shared,
            res.image_filename@ == Seq::<char>::empty(),
    {
        MemoryRangeConfig { start: 0, length: 0, shared: false, image_filename: String::new() }
    }
}

/// Cartesi machine rollup configuration.
#[derive(Debug, Clone)]
pub struct RollupConfig {
    pub rx_buffer: Option<MemoryRangeConfig>,
    pub tx_buffer: Option<MemoryRangeConfig>,
    pub input_metadata: Option<MemoryRangeConfig>,
    pub voucher_hashes: Option<MemoryRangeConfig>,
    pub notice_hashes: Option<MemoryRangeConfig>,
}

impl RollupConfig {
    /// A rollup configuration with no range set.
    pub fn new() -> (res: Self)
        ensures
            res.rx_buffer is None,
            res.tx_buffer is None,
            res.input_metadata is None,
            res.voucher_hashes is None,
            res.notice_hashes is None,
    {
        RollupConfig {
            rx_buffer: None,
            tx_buffer: None,
            input_metadata: None,
            voucher_hashes: None,
            notice_hashes: None,
        }
    }
}

/// Core-local interruptor configuration.
#[derive(Debug, Clone, Copy)]
pub struct ClintConfig {
    pub mtimecmp: u64,
}

/// Host-target interface configuration.
#[derive(Debug, Clone, Copy)]
pub struct HtifConfig {
    pub console_getchar: bool,
    pub yield_manual: bool,
    pub yield_automatic: bool,
    pub fromhost: u64,
    pub tohost: u64,
}

/// Machine state configuration.
#[derive(Debug, Clone)]
pub struct MachineConfig {
    pub processor: ProcessorConfig,
    pub ram: RamConfig,
    pub rom: RomConfig,
    pub flash_drives: Vec<MemoryRangeConfig>,
    pub clint: ClintConfig,
    pub htif: HtifConfig,
    pub rollup: RollupConfig,
    pub tlb: TlbConfig,
    pub uarch: UarchConfig,
}

/// Concurrency runtime configuration.
#[derive(Debug, Clone, Copy)]
pub struct ConcurrencyConfig {
    pub update_merkle_tree: u64,
}

/// Machine runtime configuration.
#[derive(Debug, Clone, Copy)]
pub struct MachineRuntimeConfig {
    pub concurrency: ConcurrencyConfig,
}

/// Hash data of 32 bytes.
#[derive(Debug, Clone, Copy)]
pub struct Hash(pub [u8; 32]);

impl Hash {
    /// The hash of 32 zero bytes.
    pub fn zero() -> (res: Self)
        ensures
            res.0@ == Seq::new(32, |i: int| 0u8),
    {
        let res = Hash([0u8; 32]);
        assert(res.0@ =~= Seq::new(32, |i: int| 0u8));
        res
    }

    /// Whether two hashes hold the same bytes.
    pub fn same_as(&self, other: &Hash) -> (res: bool)
        ensures
            res == (self.0@ == other.0@),
    {
        let mut i: usize = 0;
        while i < 32
            invariant
                i <= 32,
                forall|k: int| 0 <= k < i ==> self.0@[k] == other.0@[k],
            decreases 32 - i,
        {
            if self.0[i] != other.0[i] {
                return false;
            }
            i = i + 1;
        }
        assert(self.0@ =~= other.0@);
        true
    }
}

/// Merkle tree proof: the node spanning `log2_target_size` at a given address
/// in the tree has a certain hash.
#[derive(Debug, Clone)]
pub struct MerkleTreeProof {
    pub target_address: u64,
    pub log2_target_size: usize,
    pub target_hash: Hash,
    pub log2_root_size: usize,
    pub root_hash: Hash,
    pub sibling_hashes: Vec<Hash>,
}

/// Type of state access.
#[derive(Debug, Clone, Copy, PartialEq, Eq, Structural)]
pub enum AccessType {
    Read,
    Write,
}

/// Access log type.
#[derive(Debug, Clone, Copy)]
pub struct AccessLogType {
    pub proofs: bool,
    pub annotations: bool,
}

/// Records an access to the machine state.
#[derive(Debug, Clone)]
pub struct Access {
    pub access_type: AccessType,
    pub address: u64,
    pub log2_size: i32,
    /// Data before the access.
    pub read_data: Vec<u8>,
    /// Data after the access, when writing.
    pub written_data: Vec<u8>,
    /// Proof of the data before the access.
    pub proof: MerkleTreeProof,
}

/// Bracket type.
#[derive(Debug, Clone, Copy, PartialEq, Eq, Structural)]
pub enum BracketType {
    Begin,
    End,
}

/// Bracket note.
#[derive(Debug, Clone)]
pub struct BracketNote {
    pub bracket_type: BracketType,
    /// Where it points to in the log.
    pub location: u64,
    pub text: String,
}

/// Access log.
#[derive(Debug, Clone)]
pub struct AccessLog {
    pub accesses: Vec<Access>,
    pub brackets: Vec<BracketNote>,
    pub notes: Vec<String>,
    pub log_type: AccessLogType,
}

/// Summary of a run of the machine, as the machine server reports it.
#[derive(Debug, Clone, Copy, PartialEq, Eq, Structural)]
pub struct RunSummary {
    pub mcycle: u64,
    pub tohost: u64,
    pub iflags_h: bool,
    pub iflags_y: bool,
}

/// Why a run of the micro-architecture stopped.
#[derive(Debug, Clone, Copy, PartialEq, Eq, Structural)]
pub enum UarchBreakReason {
    /// The micro-architecture reached the requested cycle.
    ReachedTargetCycle,
    /// The micro-architecture halted.
    Halted,
}

/// Result of a run of the micro-architecture.
#[derive(Debug, Clone, Copy, PartialEq, Eq, Structural)]
pub struct UarchRunResult {
    pub reason: UarchBreakReason,
    /// The micro-architecture cycle reached.
    pub cycle: u64,
}

} // verus!
