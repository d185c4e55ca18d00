//! The text form of byte fields in the JSON-RPC protocol of the machine server:
//! Base64, with a line feed after an encoding that ends in padding.

use crate::machine::{AccessType, BracketNote, BracketType};
use vstd::prelude::*;

verus! {

/// The character of a 6-bit value in the standard Base64 alphabet:
/// `A`-`Z`, `a`-`z`, `0`-`9`, `+` and `/`.
pub open spec fn base64_char(v: int) -> char {
    if v < 26 {
        (65 + v) as char
    } else if v < 52 {
        (97 + (v - 26)) as char
    } else if v < 62 {
        (48 + (v - 52)) as char
    } else if v == 62 {
        '+'
    } else {
        '/'
    }
}

/// The standard Base64 encoding (with padding) of `data`: every group of
/// three bytes gives four characters of six bits each, the most significant
/// bits first, and a last group of one or two bytes is filled with zero bits
/// and padded with `=` to four characters.
pub open spec fn base64_encoding(data: Seq<u8>) -> Seq<char>
    decreases data.len(),
{
    if data.len() == 0 {
        Seq::empty()
    } else if data.len() == 1 {
        seq![base64_char((data[0] as int) / 4), base64_char(((data[0] as int) % 4) * 16), '=', '=']
    } else if data.len() == 2 {
        seq![
            base64_char((data[0] as int) / 4),
            base64_char(((data[0] as int) % 4) * 16 + (data[1] as int) / 16),
            base64_char(((data[1] as int) % 16) * 4),
            '=',
        ]
    } else {
        seq![
            base64_char((data[0] as int) / 4),
            base64_char(((data[0] as int) % 4) * 16 + (data[1] as int) / 16),
            base64_char(((data[1] as int) % 16) * 4 + (data[2] as int) / 64),
            base64_char((data[2] as int) % 64),
        ] + base64_encoding(data.subrange(3, data.len() as int))
    }
}

proof fn lemma_char_not_line_feed(v: int)
    requires
        0 <= v < 64,
    ensures
        base64_char(v) != '\n',
{
    if v < 26 {
        assert(((65 + v) as char) as int == 65 + v);
    } else if v < 52 {
        assert(((97 + (v - 26)) as char) as int == 97 + (v - 26));
    } else if v < 62 {
        assert(((48 + (v - 52)) as char) as int == 48 + (v - 52));
    }
}

/// No character of a Base64 encoding is a line feed.
pub proof fn lemma_encoding_has_no_line_feed(data: Seq<u8>)
    ensures
        forall|i: int| 0 <= i < base64_encoding(data).len() ==> base64_encoding(data)[i] != '\n',
    decreases data.len(),
{
    let e = base64_encoding(data);
    if data.len() > 0 {
        let b0 = data[0] as int;
        lemma_char_not_line_feed(b0 / 4);
        lemma_char_not_line_feed((b0 % 4) * 16);
        if data.len() >= 2 {
            let b1 = data[1] as int;
            lemma_char_not_line_feed((b0 % 4) * 16 + b1 / 16);
            lemma_char_not_line_feed((b1 % 16) * 4);
            if data.len() >= 3 {
                let b2 = data[2] as int;
                let rest = data.subrange(3, data.len() as int);
                lemma_char_not_line_feed((b1 % 16) * 4 + b2 / 64);
                lemma_char_not_line_feed(b2 % 64);
                lemma_encoding_has_no_line_feed(rest);
                assert forall|i: int| 0 <= i < e.len() implies e[i] != '\n' by {
                    if i >= 4 {
                        assert(e[i] == base64_encoding(rest)[i - 4]);
                    }
                }
            }
        }
    }
}

/// The bytes that the standard Base64 text `text` decodes to, or `None` when
/// it is not valid standard Base64.
pub uninterp spec fn base64_decoding(text: Seq<char>) -> Option<Seq<u8>>;

/// Whether `text` is the standard Base64 encoding of some bytes.
pub open spec fn is_base64_encoding(text: Seq<char>) -> bool {
    exists|d: Seq<u8>| #[trigger] base64_encoding(d) == text
}

/// `base64::encode` (standard alphabet, with padding), which is
/// `base64::encode_config(data, base64::STANDARD)`.
///
/// Claimed: the result is the standard Base64 encoding of the bytes, as
/// `base64_encoding` writes it out. The length bound keeps `encoded_size` from
/// overflowing, on which the function panics.
#[verifier::external_body]
fn base64_encode(data: &[u8]) -> (res: String)
    requires
        data@.len() <= usize::MAX / 2,
    ensures
        res@ == base64_encoding(data@),
{
    base64::encode(data)
}

/// `base64::decode` (standard alphabet, with padding), which is
/// `base64::decode_config(text, base64::STANDARD)`.
///
/// Claimed: the bytes decoded, or `None` for a `DecodeError`, are a function of
/// the text alone, and the standard encoding of any bytes decodes to those
/// bytes. Not claimed: which other texts are valid, and what they decode to.
/// The length bound keeps the byte length estimates `len + 3` and the chunk
/// count `len + 7` from overflowing, on which the function panics (a
/// character takes at most four bytes).
#[verifier::external_body]
fn base64_decode(text: &str) -> (res: Option<Vec<u8>>)
    requires
        text@.len() <= (usize::MAX - 7) / 4,
    ensures
        match res {
            Some(v) => base64_decoding(text@) == Some(v@),
            None => base64_decoding(text@) is None,
        },
        res is Some || !is_base64_encoding(text@),
        res matches Some(v) ==> forall|d: Seq<u8>| #[trigger] base64_encoding(d) == text@ ==> v@ == d,
{
    match base64::decode(text) {
        Ok(v) => Some(v),
        Err(_) => None,
    }
}

/// The text form of an encoding: a line feed follows one that ends in `=`.
pub open spec fn framed(text: Seq<char>) -> Seq<char> {
    if text.len() > 0 && text.last() == '=' {
        text.push('\n')
    } else {
        text
    }
}

/// The encoding of a text form: a trailing line feed is dropped.
pub open spec fn unframed(text: Seq<char>) -> Seq<char> {
    if text.len() > 0 && text.last() == '\n' {
        text.drop_last()
    } else {
        text
    }
}

/// Dropping the line feed of a framed text gives the text back, for any text
/// that does not itself end in a line feed (as no Base64 encoding does).
pub proof fn lemma_frame_round_trip(text: Seq<char>)
    requires
        !(text.len() > 0 && text.last() == '\n'),
    ensures
        unframed(framed(text)) == text,
{
    if text.len() > 0 && text.last() == '=' {
        assert(framed(text).drop_last() =~= text);
    }
}

fn ends_with_char(text: &str, c: char) -> (res: bool)
    ensures
        res == (text@.len() > 0 && text@.last() == c),
{
    let n = text.unicode_len();
    if n == 0 {
        false
    } else {
        text.get_char(n - 1) == c
    }
}

/// The text form of a byte field: its Base64 encoding, followed by a line feed
/// when the encoding ends in padding.
pub fn frame_field(data: &[u8]) -> (res: String)
    requires
        data@.len() <= usize::MAX / 2,
    ensures
        res@ == framed(base64_encoding(data@)),
{
    let mut text = base64_encode(data);
    if ends_with_char(text.as_str(), '=') {
        proof {
            reveal_strlit("\n");
        }
        text.append("\n");
        assert(text@ =~= framed(base64_encoding(data@)));
    }
    text
}

/// The bytes of a byte field's text form: a trailing line feed is dropped and
/// the rest decoded; `None` when it is not valid Base64. The text form of any
/// bytes reads back as those bytes.
pub fn unframe_field(text: &str) -> (res: Option<Vec<u8>>)
    requires
        text@.len() <= (usize::MAX - 7) / 4,
    ensures
        match res {
            Some(v) => base64_decoding(unframed(text@)) == Some(v@),
            None => base64_decoding(unframed(text@)) is None,
        },
        forall|d: Seq<u8>| #[trigger] framed(base64_encoding(d)) == text@ ==> (res matches Some(v) && v@ == d),
{
    let res = if ends_with_char(text, '\n') {
        let n = text.unicode_len();
        let stripped = text.substring_char(0, n - 1);
        assert(stripped@ =~= unframed(text@));
        base64_decode(stripped)
    } else {
        base64_decode(text)
    };
    proof {
        assert forall|d: Seq<u8>| #[trigger] framed(base64_encoding(d)) == text@ implies (res matches Some(v) && v@
            == d) by {
            lemma_field_round_trip(d);
            assert(is_base64_encoding(unframed(text@)));
        }
    }
    res
}

/// Dropping the line feed of the text form of any bytes gives their Base64
/// encoding back, which decodes to the bytes.
pub proof fn lemma_field_round_trip(data: Seq<u8>)
    ensures
        unframed(framed(base64_encoding(data))) == base64_encoding(data),
{
    lemma_encoding_has_no_line_feed(data);
    let e = base64_encoding(data);
    if e.len() > 0 {
        assert(e.last() != '\n');
    }
    lemma_frame_round_trip(e);
}

/// The access type that a JSON access type value stands for, from the value's
/// JSON text: `"write"` (with its quotes) is a write, anything else a read.
pub fn access_type_from_json_text(text: &str) -> (res: AccessType)
    ensures
        res == (if text@ == "\"write\""@ { AccessType::Write } else { AccessType::Read }),
{
    if String::from_str(text) == String::from_str("\"write\"") {
        AccessType::Write
    } else {
        AccessType::Read
    }
}

/// The bracket type that a JSON bracket type value stands for, from the
/// value's JSON text: `end` is an end, anything else a begin. The text is
/// compared bare, without JSON quotes, so a type text that carries its quotes,
/// as the JSON text of the string `end` does, reads as a begin.
pub fn bracket_type_from_json_text(text: &str) -> (res: BracketType)
    ensures
        res == (if text@ == "end"@ { BracketType::End } else { BracketType::Begin }),
{
    if String::from_str(text) == String::from_str("end") {
        BracketType::End
    } else {
        BracketType::Begin
    }
}

/// The JSON name of an access type.
pub fn access_type_json_name(t: AccessType) -> (res: &'static str)
    ensures
        t == AccessType::Read ==> res@ == "read"@,
        t == AccessType::Write ==> res@ == "write"@,
{
    match t {
        AccessType::Read => "read",
        AccessType::Write => "write",
    }
}

/// The JSON name of a bracket type.
pub fn bracket_type_json_name(t: BracketType) -> (res: &'static str)
    ensures
        t == BracketType::Begin ==> res@ == "begin"@,
        t == BracketType::End ==> res@ == "end"@,
{
    match t {
        BracketType::Begin => "begin",
        BracketType::End => "end",
    }
}

/// The type that a JSON access type text stands for.
pub open spec fn json_access_type(text: Seq<char>) -> AccessType {
    if text == "\"write\""@ {
        AccessType::Write
    } else {
        AccessType::Read
    }
}

/// A Merkle tree proof as the JSON-RPC protocol sends it, its hashes in text
/// form.
#[derive(Debug, Clone)]
pub struct JsonMerkleTreeProof {
    pub target_address: u64,
    pub log2_target_size: u64,
    pub target_hash: String,
    pub log2_root_size: u64,
    pub root_hash: String,
    pub sibling_hashes: Vec<String>,
}

/// A Merkle tree proof of a JSON access, its hashes kept in text form.
#[derive(Debug, Clone)]
pub struct TextProof {
    pub target_address: u64,
    pub log2_target_size: usize,
    pub target_hash: String,
    pub log2_root_size: usize,
    pub root_hash: String,
    pub sibling_hashes: Vec<String>,
}

/// Whether `t` is the proof that a JSON access with proof `p` carries: the
/// proof's parts, with its sizes as `usize`; all zeros and empty texts when
/// the access has no proof.
pub open spec fn text_proof_from(t: TextProof, p: Option<JsonMerkleTreeProof>) -> bool {
    match p {
        Some(p) => {
            &&& t.target_address == p.target_address
            &&& t.log2_target_size == #[verifier::truncate] (p.log2_target_size as usize)
            &&& t.target_hash@ == p.target_hash@
            &&& t.log2_root_size == #[verifier::truncate] (p.log2_root_size as usize)
            &&& t.root_hash@ == p.root_hash@
            &&& t.sibling_hashes@.len() == p.sibling_hashes@.len()
            &&& forall|i: int| 0 <= i < t.sibling_hashes@.len() ==> #[trigger] t.sibling_hashes@[i]@
                == p.sibling_hashes@[i]@
        },
        None => {
            &&& t.target_address == 0
            &&& t.log2_target_size == 0
            &&& t.target_hash@.len() == 0
            &&& t.log2_root_size == 0
            &&& t.root_hash@.len() == 0
            &&& t.sibling_hashes@.len() == 0
        },
    }
}

/// The proof that a JSON access with proof `p` carries.
pub fn proof_from_json(p: &Option<JsonMerkleTreeProof>) -> (res: TextProof)
    ensures
        text_proof_from(res, *p),
{
    match p {
        Some(p) => {
            let mut siblings: Vec<String> = Vec::new();
            let mut i: usize = 0;
            while i < p.sibling_hashes.len()
                invariant
                    i <= p.sibling_hashes@.len(),
                    siblings@.len() == i,
                    forall|k: int| 0 <= k < i ==> #[trigger] siblings@[k]@ == p.sibling_hashes@[k]@,
                decreases p.sibling_hashes.len() - i,
            {
                siblings.push(String::from_str(p.sibling_hashes[i].as_str()));
                i = i + 1;
            }
            TextProof {
                target_address: p.target_address,
                log2_target_size: #[verifier::truncate] (p.log2_target_size as usize),
                target_hash: String::from_str(p.target_hash.as_str()),
                log2_root_size: #[verifier::truncate] (p.log2_root_size as usize),
                root_hash: String::from_str(p.root_hash.as_str()),
                sibling_hashes: siblings,
            }
        },
        None => TextProof {
            target_address: 0,
            log2_target_size: 0,
            target_hash: String::new(),
            log2_root_size: 0,
            root_hash: String::new(),
            sibling_hashes: Vec::new(),
        },
    }
}

/// A state access as the JSON-RPC protocol sends it: its type as JSON text,
/// and its data in text form (the written data may be absent).
#[derive(Debug, Clone)]
pub struct JsonAccess {
    pub type_text: String,
    pub address: u64,
    pub log2_size: u64,
    pub read: String,
    pub written: Option<String>,
    pub proof: Option<JsonMerkleTreeProof>,
}

/// The parts of a state access that a JSON access gives, its data decoded.
#[derive(Debug, Clone)]
pub struct AccessData {
    pub access_type: AccessType,
    pub address: u64,
    pub log2_size: i32,
    pub read_data: Vec<u8>,
    pub written_data: Vec<u8>,
    pub proof: TextProof,
}

/// The text form of the written data of a JSON access: empty when absent.
pub open spec fn written_text(a: JsonAccess) -> Seq<char> {
    match a.written {
        Some(w) => w@,
        None => Seq::empty(),
    }
}

/// The state access that a JSON access stands for: the type from its JSON
/// text, the log2 size as a 32-bit integer, the read and written data decoded
/// from their text forms, and its proof; `None` when either text is not valid
/// Base64.
pub fn access_from_json(a: &JsonAccess) -> (res: Option<AccessData>)
    requires
        a.read@.len() <= (usize::MAX - 7) / 4,
        written_text(*a).len() <= (usize::MAX - 7) / 4,
    ensures
        match (base64_decoding(unframed(a.read@)), base64_decoding(unframed(written_text(*a)))) {
            (Some(read), Some(written)) => res matches Some(d) && d.access_type == json_access_type(a.type_text@)
                && d.address == a.address && d.log2_size == #[verifier::truncate] (a.log2_size as i32) && d.read_data@ == read
                && d.written_data@ == written && text_proof_from(d.proof, a.proof),
            _ => res is None,
        },
{
    let read = unframe_field(a.read.as_str());
    let written = match &a.written {
        Some(w) => unframe_field(w.as_str()),
        None => {
            proof {
                reveal_strlit("");
                assert(""@ =~= written_text(*a));
            }
            unframe_field("")
        },
    };
    match (read, written) {
        (Some(read_data), Some(written_data)) => Some(
            AccessData {
                access_type: access_type_from_json_text(a.type_text.as_str()),
                address: a.address,
                log2_size: #[verifier::truncate] (a.log2_size as i32),
                read_data,
                written_data,
                proof: proof_from_json(&a.proof),
            },
        ),
        _ => None,
    }
}

/// The bracket note that a JSON bracket note stands for, with its type from
/// the type's JSON text.
pub fn bracket_note_from_json(type_text: &str, location: u64, text: &str) -> (res: BracketNote)
    ensures
        res.bracket_type == (if type_text@ == "end"@ { BracketType::End } else { BracketType::Begin }),
        res.location == location,
        res.text@ == text@,
{
    BracketNote { bracket_type: bracket_type_from_json_text(type_text), location, text: String::from_str(text) }
}

} // verus!
