//! The messages that the machine server and the manager's clients exchange,
//! as plain values: every field the protocol leaves optional is an `Option`.

use crate::machine::{ClintConfig, HtifConfig, UarchConfig};
use vstd::prelude::*;

verus! {

/// Hash as sent on the wire: bytes of any length.
#[derive(Debug, Clone)]
pub struct Hash {
    pub data: Vec<u8>,
}

/// Merkle tree proof as sent on the wire.
#[derive(Debug, Clone)]
pub struct MerkleTreeProof {
    pub target_address: u64,
    pub log2_target_size: u64,
    pub target_hash: Option<Hash>,
    pub log2_root_size: u64,
    pub root_hash: Option<Hash>,
    pub sibling_hashes: Vec<Hash>,
}

/// State access as sent on the wire; the access type is a number (0 read, 1 write).
#[derive(Debug, Clone)]
pub struct Access {
    pub access_type: i32,
    pub address: u64,
    pub log2_size: u64,
    pub read: Vec<u8>,
    pub written: Vec<u8>,
    pub proof: Option<MerkleTreeProof>,
}

/// Bracket note as sent on the wire; the bracket type is a number (0 begin, 1 end).
#[derive(Debug, Clone)]
pub struct BracketNote {
    pub bracket_type: i32,
    pub location: u64,
    pub text: String,
}

/// Access log type as sent on the wire.
#[derive(Debug, Clone, Copy)]
pub struct AccessLogType {
    pub proofs: bool,
    pub annotations: bool,
}

/// Access log as sent on the wire.
#[derive(Debug, Clone)]
pub struct AccessLog {
    pub log_type: Option<AccessLogType>,
    pub accesses: Vec<Access>,
    pub brackets: Vec<BracketNote>,
    pub notes: Vec<String>,
}

/// Processor configuration as sent on the wire: every register is optional.
#[derive(Debug, Clone, Copy)]
pub struct ProcessorConfig {
    /// Registers x1 to x31.
    pub x: [Option<u64>; 31],
    /// Registers f0 to f31.
    pub f: [Option<u64>; 32],
    pub pc: Option<u64>,
    pub mvendorid: Option<u64>,
    pub marchid: Option<u64>,
    pub mimpid: Option<u64>,
    pub mcycle: Option<u64>,
    pub icycleinstret: Option<u64>,
    pub mstatus: Option<u64>,
    pub mtvec: Option<u64>,
    pub mscratch: Option<u64>,
    pub mepc: Option<u64>,
    pub mcause: Option<u64>,
    pub mtval: Option<u64>,
    pub misa: Option<u64>,
    pub mie: Option<u64>,
    pub mip: Option<u64>,
    pub medeleg: Option<u64>,
    pub mideleg: Option<u64>,
    pub mcounteren: Option<u64>,
    pub stvec: Option<u64>,
    pub sscratch: Option<u64>,
    pub sepc: Option<u64>,
    pub scause: Option<u64>,
    pub stval: Option<u64>,
    pub satp: Option<u64>,
    pub scounteren: Option<u64>,
    pub ilrsc: Option<u64>,
    pub iflags: Option<u64>,
    pub senvcfg: Option<u64>,
    pub menvcfg: Option<u64>,
    pub fcsr: Option<u64>,
}

/// RAM configuration as sent on the wire.
#[derive(Debug, Clone)]
pub struct RamConfig {
    pub length: u64,
    pub image_filename: String,
}

/// ROM configuration as sent on the wire.
#[derive(Debug, Clone)]
pub struct RomConfig {
    pub bootargs: String,
    pub image_filename: String,
}

/// TLB configuration as sent on the wire.
#[derive(Debug, Clone)]
pub struct TlbConfig {
    pub image_filename: String,
}

/// Memory range configuration as sent on the wire.
#[derive(Debug, Clone)]
pub struct MemoryRangeConfig {
    pub start: u64,
    pub length: u64,
    pub shared: bool,
    pub image_filename: String,
}

/// Rollup configuration as sent on the wire.
#[derive(Debug, Clone)]
pub struct RollupConfig {
    pub rx_buffer: Option<MemoryRangeConfig>,
    pub tx_buffer: Option<MemoryRangeConfig>,
    pub input_metadata: Option<MemoryRangeConfig>,
    pub voucher_hashes: Option<MemoryRangeConfig>,
    pub notice_hashes: Option<MemoryRangeConfig>,
}

/// Machine configuration as sent on the wire: every part is optional.
#[derive(Debug, Clone)]
pub struct MachineConfig {
    pub processor: Option<ProcessorConfig>,
    pub ram: Option<RamConfig>,
    pub rom: Option<RomConfig>,
    pub flash_drive: Vec<MemoryRangeConfig>,
    pub clint: Option<ClintConfig>,
    pub htif: Option<HtifConfig>,
    pub rollup: Option<RollupConfig>,
    pub tlb: Option<TlbConfig>,
    pub uarch: Option<UarchConfig>,
}

/// Concurrency configuration as sent on the wire.
#[derive(Debug, Clone, Copy)]
pub struct ConcurrencyConfig {
    pub update_merkle_tree: u64,
}

/// Machine runtime configuration as sent on the wire.
#[derive(Debug, Clone, Copy)]
pub struct MachineRuntimeConfig {
    pub concurrency: Option<ConcurrencyConfig>,
}

/// Server version as sent on the wire.
#[derive(Debug, Clone)]
pub struct SemanticVersion {
    pub major: u32,
    pub minor: u32,
    pub patch: u32,
    pub pre_release: String,
    pub build: String,
}

/// Where the machine of a new session comes from, as sent on the wire.
#[derive(Debug, Clone)]
pub enum MachineOneof {
    /// A machine built from this configuration.
    Config(MachineConfig),
    /// A machine loaded from this directory.
    Directory(String),
}

/// Machine request as sent on the wire.
#[derive(Debug, Clone)]
pub struct MachineRequest {
    pub runtime: Option<MachineRuntimeConfig>,
    pub machine_oneof: Option<MachineOneof>,
}

/// New session request as sent on the wire.
#[derive(Debug, Clone)]
pub struct NewSessionRequest {
    pub session_id: String,
    pub machine: Option<MachineRequest>,
    pub force: bool,
}

} // verus!
