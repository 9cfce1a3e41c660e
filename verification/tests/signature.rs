use ed25519_dalek::{Signer, SigningKey};
use token_ledger::authorization::authorize;
use token_ledger::signature::{encode_message, seal, MESSAGE_LEN, SIGNATURE_LEN, TAG_LEN};
use token_ledger::{check_sig, AuthorizationRequest, SignatureMessage, ValidationError};

fn holder(seed: u8) -> SigningKey {
    SigningKey::from_bytes(&[seed; 32])
}

fn credential_of(seed: u8) -> Vec<u8> {
    holder(seed).verifying_key().to_bytes().to_vec()
}

fn message(idx: usize, txid: u8) -> SignatureMessage {
    SignatureMessage { prev_out_idx: idx, prev_out_tx_id: [txid; 32] }
}

fn tag(seed: u8, message: &SignatureMessage) -> Vec<u8> {
    holder(seed).sign(&encode_message(message)).to_bytes().to_vec()
}

fn signature_by(seed: u8, message: &SignatureMessage) -> Vec<u8> {
    seal(&tag(seed, message), message)
}

#[test]
fn lengths_of_the_scheme() {
    assert_eq!(TAG_LEN, 64);
    assert_eq!(MESSAGE_LEN, 40);
    assert_eq!(SIGNATURE_LEN, 104);
}

#[test]
fn encode_message_writes_position_then_transaction() {
    let mut expected = vec![1u8, 0, 0, 0, 0, 0, 0, 0];
    expected.extend_from_slice(&[5u8; 32]);
    assert_eq!(encode_message(&message(1, 5)), expected);
}

#[test]
fn encode_message_writes_the_position_least_significant_byte_first() {
    let bytes = encode_message(&message(0x0102, 9));
    assert_eq!(bytes.len(), 40);
    assert_eq!(&bytes[..8], &[2u8, 1, 0, 0, 0, 0, 0, 0]);
    assert_eq!(&bytes[8..], &[9u8; 32]);
    assert_eq!(&encode_message(&message(0, 0))[..], &[0u8; 40]);
}

#[test]
fn encoded_messages_differ_with_position_or_transaction() {
    assert_ne!(encode_message(&message(0, 5)), encode_message(&message(1, 5)));
    assert_ne!(encode_message(&message(0, 5)), encode_message(&message(0, 6)));
    assert_ne!(encode_message(&message(256, 5)), encode_message(&message(1, 5)));
}

#[test]
fn seal_appends_the_message_to_the_tag() {
    let m = message(3, 7);
    let sealed = seal(&vec![0xabu8; 64], &m);
    assert_eq!(sealed.len(), 104);
    assert_eq!(&sealed[..64], &[0xabu8; 64]);
    assert_eq!(&sealed[64..], &encode_message(&m)[..]);
    assert_eq!(seal(&Vec::new(), &m), encode_message(&m));
}

#[test]
fn check_sig_accepts_the_holders_signature() {
    let m = message(1, 5);
    assert!(check_sig(&credential_of(1), &m, &signature_by(1, &m)));
    let other = message(0, 200);
    assert!(check_sig(&credential_of(77), &other, &signature_by(77, &other)));
}

#[test]
fn check_sig_gives_equal_answers_to_equal_arguments() {
    let m = message(1, 5);
    let signature = signature_by(1, &m);
    assert!(check_sig(&credential_of(1), &m, &signature));
    assert!(check_sig(&credential_of(1), &m, &signature));
    assert!(!check_sig(&credential_of(2), &m, &signature));
    assert!(!check_sig(&credential_of(2), &m, &signature));
}

#[test]
fn check_sig_refuses_a_signature_made_under_another_credential() {
    let m = message(1, 5);
    assert!(!check_sig(&credential_of(2), &m, &signature_by(1, &m)));
    assert!(!check_sig(&credential_of(1), &m, &signature_by(2, &m)));
}

#[test]
fn check_sig_refuses_a_signature_made_for_another_position() {
    let made_for = message(0, 5);
    let signature = signature_by(1, &made_for);
    assert!(check_sig(&credential_of(1), &made_for, &signature));
    assert!(!check_sig(&credential_of(1), &message(1, 5), &signature));
}

#[test]
fn check_sig_refuses_a_signature_made_for_another_transaction() {
    let made_for = message(0, 5);
    let signature = signature_by(1, &made_for);
    assert!(!check_sig(&credential_of(1), &message(0, 6), &signature));
}

#[test]
fn check_sig_refuses_a_tag_sealed_with_another_message() {
    let signed = message(0, 5);
    let claimed = message(1, 5);
    let forged = seal(&tag(1, &signed), &claimed);
    assert!(!check_sig(&credential_of(1), &signed, &forged));
    assert!(!check_sig(&credential_of(1), &claimed, &forged));
}

#[test]
fn check_sig_refuses_an_altered_signature() {
    let m = message(1, 5);
    let good = signature_by(1, &m);
    for position in [0usize, 31, 32, 63, 64, 71, 72, 103] {
        let mut altered = good.clone();
        altered[position] ^= 1;
        assert!(!check_sig(&credential_of(1), &m, &altered));
    }
}

#[test]
fn check_sig_refuses_signatures_of_another_length() {
    let m = message(1, 5);
    let good = signature_by(1, &m);
    assert!(!check_sig(&credential_of(1), &m, &Vec::new()));
    assert!(!check_sig(&credential_of(1), &m, &vec![0u8; 64]));
    assert!(!check_sig(&credential_of(1), &m, &tag(1, &m)));
    assert!(!check_sig(&credential_of(1), &m, &good[..103].to_vec()));
    let mut longer = good.clone();
    longer.push(0);
    assert!(!check_sig(&credential_of(1), &m, &longer));
    assert!(!check_sig(&credential_of(1), &m, &vec![0u8; 104]));
}

#[test]
fn check_sig_refuses_a_credential_that_is_no_key() {
    let m = message(1, 5);
    let signature = signature_by(1, &m);
    assert!(!check_sig(&Vec::new(), &m, &signature));
    assert!(!check_sig(&credential_of(1)[..31].to_vec(), &m, &signature));
    let mut longer = credential_of(1);
    longer.push(0);
    assert!(!check_sig(&longer, &m, &signature));
}

#[test]
fn authorize_with_the_scheme_follows_the_signature() {
    let credential = credential_of(9);
    let m = message(2, 8);
    let request = AuthorizationRequest { credential: &credential, message: m };
    assert_eq!(authorize(&request, &signature_by(9, &m), check_sig), Ok(()));
    assert_eq!(
        authorize(&request, &signature_by(9, &message(2, 7)), check_sig),
        Err(ValidationError::AuthorizationFailed)
    );
}
