use anchor_lang::solana_program::pubkey::Pubkey;
use depress::{check_id, id, ProgramId, ID_BYTES};
use std::str::FromStr;

const ID_TEXT: &str = "65eB9Pni2mbcafm3juEZgoN3P52CNwbnSKFChBy14K7D";

#[test]
fn id_has_the_declared_bytes() {
    assert_eq!(id().bytes, ID_BYTES);
    assert_eq!(ID_BYTES.len(), 32);
    assert_eq!(ID_BYTES[0], 75);
    assert_eq!(ID_BYTES[31], 232);
}

#[test]
fn id_bytes_are_those_of_the_declared_address() {
    let key = Pubkey::from_str(ID_TEXT).unwrap();
    assert_eq!(key.to_bytes(), ID_BYTES);
    assert_eq!(Pubkey::new_from_array(ID_BYTES).to_string(), ID_TEXT);
}

#[test]
fn id_reads_as_the_declared_address() {
    assert_eq!(id().to_text(), ID_TEXT);
}

#[test]
fn zero_identifier_reads_as_thirty_two_ones() {
    let zero = ProgramId { bytes: [0u8; 32] };
    assert_eq!(zero.to_text(), "11111111111111111111111111111111");
}

#[test]
fn text_is_what_the_key_formats_to() {
    let mut bytes = [0u8; 32];
    for (i, b) in bytes.iter_mut().enumerate() {
        *b = (i * 7 + 3) as u8;
    }
    let key = Pubkey::new_from_array(bytes);
    let text = ProgramId { bytes }.to_text();
    assert_eq!(text, format!("{:?}", key));
    assert_eq!(text, key.to_string());
    assert_eq!(Pubkey::from_str(&text).unwrap().to_bytes(), bytes);
}

#[test]
fn check_id_accepts_the_program_itself() {
    assert!(check_id(&id()));
    assert!(check_id(&ProgramId { bytes: ID_BYTES }));
}

#[test]
fn check_id_rejects_any_other_identifier() {
    assert!(!check_id(&ProgramId { bytes: [0u8; 32] }));
    assert!(!check_id(&ProgramId { bytes: [255u8; 32] }));
    for at in 0..32 {
        let mut bytes = ID_BYTES;
        bytes[at] ^= 1;
        assert!(!check_id(&ProgramId { bytes }), "byte {}", at);
    }
}

#[test]
fn identifiers_copy() {
    let a = id();
    let b = a;
    assert_eq!(a.bytes, b.bytes);
    assert_eq!(a.clone().bytes, ID_BYTES);
}
