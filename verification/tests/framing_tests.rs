use machine_manager_server::framing::{
    access_from_json, access_type_from_json_text, access_type_json_name, bracket_note_from_json,
    bracket_type_from_json_text, bracket_type_json_name, frame_field, proof_from_json, unframe_field, JsonAccess,
    JsonMerkleTreeProof,
};
use machine_manager_server::machine::{AccessType, BracketType};

#[test]
fn padded_encoding_gets_a_line_feed() {
    assert_eq!(frame_field(b"hello"), "aGVsbG8=\n");
    assert_eq!(frame_field(b"ab"), "YWI=\n");
}

#[test]
fn unpadded_encoding_stays_as_it_is() {
    assert_eq!(frame_field(b"abc"), "YWJj");
    assert_eq!(frame_field(b""), "");
}

#[test]
fn framed_field_reads_back() {
    for data in [&b"hello"[..], &b"abc"[..], &b""[..], &[0u8, 255, 17, 3][..]] {
        let text = frame_field(data);
        assert_eq!(unframe_field(&text), Some(data.to_vec()));
    }
    assert_eq!(unframe_field("aGVsbG8="), Some(b"hello".to_vec()));
}

#[test]
fn invalid_field_text_is_refused() {
    assert_eq!(unframe_field("!!!!"), None);
    assert_eq!(unframe_field("a"), None);
}

#[test]
fn json_type_names() {
    assert_eq!(access_type_from_json_text("\"write\""), AccessType::Write);
    assert_eq!(access_type_from_json_text("\"read\""), AccessType::Read);
    assert_eq!(access_type_from_json_text("write"), AccessType::Read);
    assert_eq!(bracket_type_from_json_text("end"), BracketType::End);
    assert_eq!(bracket_type_from_json_text("\"end\""), BracketType::Begin);
    assert_eq!(bracket_type_from_json_text("begin"), BracketType::Begin);
    assert_eq!(access_type_json_name(AccessType::Write), "write");
    assert_eq!(access_type_json_name(AccessType::Read), "read");
    assert_eq!(bracket_type_json_name(BracketType::Begin), "begin");
    assert_eq!(bracket_type_json_name(BracketType::End), "end");
}

#[test]
fn json_access_is_decoded() {
    let a = JsonAccess {
        type_text: "\"write\"".to_string(),
        address: 0x100,
        log2_size: 3,
        read: frame_field(b"hello"),
        written: Some(frame_field(&[1, 2, 3, 4])),
        proof: Some(JsonMerkleTreeProof {
            target_address: 0x100,
            log2_target_size: 3,
            target_hash: "dGFyZ2V0".to_string(),
            log2_root_size: 64,
            root_hash: "cm9vdA==\n".to_string(),
            sibling_hashes: vec!["YQ==\n".to_string(), "Yg==\n".to_string()],
        }),
    };
    let d = access_from_json(&a).unwrap();
    assert_eq!(d.access_type, AccessType::Write);
    assert_eq!((d.address, d.log2_size), (0x100, 3));
    assert_eq!(d.read_data, b"hello".to_vec());
    assert_eq!(d.written_data, vec![1, 2, 3, 4]);
    assert_eq!((d.proof.target_address, d.proof.log2_target_size, d.proof.log2_root_size), (0x100, 3, 64));
    assert_eq!(d.proof.target_hash, "dGFyZ2V0");
    assert_eq!(d.proof.root_hash, "cm9vdA==\n");
    assert_eq!(d.proof.sibling_hashes, vec!["YQ==\n".to_string(), "Yg==\n".to_string()]);
    let no_written = JsonAccess { written: None, proof: None, type_text: "\"read\"".to_string(), ..a.clone() };
    let d = access_from_json(&no_written).unwrap();
    assert_eq!(d.access_type, AccessType::Read);
    assert!(d.written_data.is_empty());
    assert_eq!((d.proof.target_address, d.proof.log2_root_size), (0, 0));
    assert!(d.proof.target_hash.is_empty() && d.proof.sibling_hashes.is_empty());
    assert!(proof_from_json(&None).root_hash.is_empty());
    let bad = JsonAccess { read: "!!!!".to_string(), ..a };
    assert!(access_from_json(&bad).is_none());
}

#[test]
fn json_bracket_note() {
    let n = bracket_note_from_json("end", 7, "step");
    assert_eq!(n.bracket_type, BracketType::End);
    assert_eq!(n.location, 7);
    assert_eq!(n.text, "step");
    assert_eq!(bracket_note_from_json("begin", 0, "").bracket_type, BracketType::Begin);
}

#[test]
fn every_field_reads_back_as_its_bytes() {
    let mut data: Vec<u8> = Vec::new();
    for n in 0..64u32 {
        let text = frame_field(&data);
        assert!(!text.trim_end_matches('\n').contains('\n'));
        assert_eq!(unframe_field(&text), Some(data.clone()));
        data.push((n * 37 % 256) as u8);
    }
    assert_eq!(frame_field(&[251, 255]), "+/8=\n");
    assert_eq!(frame_field(&[0, 255, 17, 3]), "AP8RAw==\n");
}
