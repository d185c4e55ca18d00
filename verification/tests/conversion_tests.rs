use machine_manager_server::conversions::{convert_csr_field, convert_f_csr_field, convert_x_csr_field};
use machine_manager_server::machine::{
    AccessType, BracketType, MachineRuntimeConfig, MerkleTreeProof, ProcessorConfig, MARCHID_DEFAULT,
    MIMPID_DEFAULT, MVENDORID_DEFAULT,
};
use machine_manager_server::wire;

fn empty_wire_processor() -> wire::ProcessorConfig {
    wire::ProcessorConfig {
        x: [None; 31],
        f: [None; 32],
        pc: None,
        mvendorid: None,
        marchid: None,
        mimpid: None,
        mcycle: None,
        icycleinstret: None,
        mstatus: None,
        mtvec: None,
        mscratch: None,
        mepc: None,
        mcause: None,
        mtval: None,
        misa: None,
        mie: None,
        mip: None,
        medeleg: None,
        mideleg: None,
        mcounteren: None,
        stvec: None,
        sscratch: None,
        sepc: None,
        scause: None,
        stval: None,
        satp: None,
        scounteren: None,
        ilrsc: None,
        iflags: None,
        senvcfg: None,
        menvcfg: None,
        fcsr: None,
    }
}

fn empty_wire_machine() -> wire::MachineConfig {
    wire::MachineConfig {
        processor: None,
        ram: None,
        rom: None,
        flash_drive: vec![],
        clint: None,
        htif: None,
        rollup: None,
        tlb: None,
        uarch: None,
    }
}

#[test]
fn absent_register_reads_as_zero() {
    assert_eq!(convert_csr_field(None), 0);
    assert_eq!(convert_csr_field(Some(42)), 42);
    assert_eq!(convert_csr_field(Some(u64::MAX)), u64::MAX);
}

#[test]
fn wire_registers_shift_into_place() {
    let mut w = empty_wire_processor();
    for i in 0..31 {
        w.x[i] = Some(100 + i as u64);
    }
    w.f[0] = Some(7);
    w.f[30] = Some(9);
    w.f[31] = Some(11);
    let x = convert_x_csr_field(&w);
    assert_eq!(x[0], 100);
    assert_eq!(x[30], 130);
    assert_eq!(x[31], 0);
    let f = convert_f_csr_field(&w);
    assert_eq!(f[0], 7);
    assert_eq!(f[1], 0);
    assert_eq!(f[30], 9);
    assert_eq!(f[31], 11);
}

#[test]
fn processor_config_round_trip() {
    let mut w = empty_wire_processor();
    w.x[4] = Some(5);
    w.pc = Some(0x1000);
    w.mvendorid = Some(3);
    w.fcsr = Some(11);
    w.f[31] = Some(0x7ff8);
    let p = ProcessorConfig::from_wire(&w);
    assert_eq!(p.f[31], 0x7ff8);
    assert_eq!(p.x[4], 5);
    assert_eq!(p.pc, 0x1000);
    assert_eq!(p.mvendorid, 3);
    assert_eq!(p.marchid, 0);
    assert_eq!(p.fcsr, 11);
    let back = ProcessorConfig::from_wire(&p.to_wire());
    assert_eq!(back.x, p.x);
    assert_eq!(back.f, p.f);
    assert_eq!(back.pc, p.pc);
    assert_eq!(back.mvendorid, p.mvendorid);
    assert_eq!(back.fcsr, p.fcsr);
    assert_eq!(p.to_wire().x[4], Some(5));
    assert_eq!(p.to_wire().f[31], Some(0x7ff8));
    assert_eq!(back.f[31], 0x7ff8);
}

#[test]
fn fresh_processor_has_the_default_ids() {
    let p = ProcessorConfig::new();
    assert_eq!(p.mvendorid, MVENDORID_DEFAULT);
    assert_eq!(p.marchid, MARCHID_DEFAULT);
    assert_eq!(p.mimpid, MIMPID_DEFAULT);
    assert_eq!(p.pc, 0);
    assert_eq!(p.x, [0u64; 32]);
}

#[test]
fn wire_hash_of_wrong_length_is_zero() {
    let good = wire::Hash { data: (0u8..32).collect() };
    let h = machine_manager_server::machine::Hash::from_wire(&good);
    assert_eq!(h.0[31], 31);
    assert_eq!(h.to_wire().data, good.data);
    let short = wire::Hash { data: vec![1, 2, 3] };
    assert_eq!(machine_manager_server::machine::Hash::from_wire(&short).0, [0u8; 32]);
    assert_eq!(machine_manager_server::machine::Hash::from_optional_wire(&None).0, [0u8; 32]);
    assert!(machine_manager_server::machine::Hash::zero().same_as(&machine_manager_server::machine::Hash([0u8; 32])));
    assert!(!h.same_as(&machine_manager_server::machine::Hash::zero()));
}

#[test]
fn proof_round_trip_and_absent_proof() {
    let w = wire::MerkleTreeProof {
        target_address: 0x2000,
        log2_target_size: 3,
        target_hash: Some(wire::Hash { data: vec![5; 32] }),
        log2_root_size: 64,
        root_hash: None,
        sibling_hashes: vec![wire::Hash { data: vec![1; 32] }, wire::Hash { data: vec![2; 4] }],
    };
    let p = MerkleTreeProof::from_wire(&w);
    assert_eq!(p.target_address, 0x2000);
    assert_eq!(p.log2_target_size, 3);
    assert_eq!(p.log2_root_size, 64);
    assert_eq!(p.target_hash.0, [5u8; 32]);
    assert_eq!(p.root_hash.0, [0u8; 32]);
    assert_eq!(p.sibling_hashes.len(), 2);
    assert_eq!(p.sibling_hashes[0].0, [1u8; 32]);
    assert_eq!(p.sibling_hashes[1].0, [0u8; 32]);
    let back = MerkleTreeProof::from_wire(&p.to_wire());
    assert_eq!(back.target_hash.0, p.target_hash.0);
    assert_eq!(back.sibling_hashes.len(), 2);
    let none = MerkleTreeProof::from_optional_wire(&None);
    assert_eq!(none.target_address, 0);
    assert!(none.sibling_hashes.is_empty());
}

#[test]
fn type_codes() {
    assert_eq!(AccessType::from_wire(0), AccessType::Read);
    assert_eq!(AccessType::from_wire(1), AccessType::Write);
    assert_eq!(AccessType::from_wire(7), AccessType::Read);
    assert_eq!(AccessType::Write.to_wire(), 1);
    assert_eq!(BracketType::from_wire(1), BracketType::End);
    assert_eq!(BracketType::from_wire(-1), BracketType::Begin);
    assert_eq!(BracketType::End.to_wire(), 1);
    assert_eq!(BracketType::Begin.to_wire(), 0);
}

#[test]
fn empty_machine_config_takes_defaults() {
    let c = machine_manager_server::machine::MachineConfig::from_wire(&empty_wire_machine());
    assert_eq!(c.processor.mvendorid, MVENDORID_DEFAULT);
    assert_eq!(c.ram.length, 0);
    assert!(c.flash_drives.is_empty());
    assert!(c.rollup.rx_buffer.is_none());
    let w = c.to_wire();
    assert!(w.processor.is_some());
    assert_eq!(w.ram.unwrap().length, 0);
}

#[test]
fn runtime_config_defaults_to_zero_threads() {
    let absent = wire::MachineRuntimeConfig { concurrency: None };
    assert_eq!(MachineRuntimeConfig::from_wire(&absent).concurrency.update_merkle_tree, 0);
    let given = wire::MachineRuntimeConfig { concurrency: Some(wire::ConcurrencyConfig { update_merkle_tree: 4 }) };
    let r = MachineRuntimeConfig::from_wire(&given);
    assert_eq!(r.concurrency.update_merkle_tree, 4);
    assert_eq!(r.to_wire().concurrency.unwrap().update_merkle_tree, 4);
    assert_eq!(MachineRuntimeConfig::default_config().concurrency.update_merkle_tree, 0);
}

#[test]
fn versions_compare_by_all_parts() {
    let w = wire::SemanticVersion { major: 0, minor: 15, patch: 2, pre_release: "rc1".to_string(), build: "b".to_string() };
    let v = machine_manager_server::machine::SemanticVersion::from_wire(&w);
    assert_eq!((v.major, v.minor, v.patch), (0, 15, 2));
    assert_eq!(v.pre_release, "rc1");
    assert!(v.same_as(&v.clone()));
    let mut other = v.clone();
    other.build = "c".to_string();
    assert!(!v.same_as(&other));
    let mut newer = v.clone();
    newer.patch = 3;
    assert!(!v.same_as(&newer));
}
