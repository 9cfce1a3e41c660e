use token_ledger::authorization::{
    authorize, binding_message, conclude, locate_current, resolve_credential,
};
use token_ledger::{
    AuthorizationRequest, PayloadState, PrevOut, SignatureMessage, TokenOutput, ValidationError,
};

fn prev(idx: usize, txid: Option<[u8; 32]>, outs: Vec<(u8, u64)>) -> PrevOut {
    PrevOut {
        idx,
        txid,
        script_pub_key: vec![0xaa, 0xbb],
        state: PayloadState {
            outs: outs
                .into_iter()
                .map(|(key, amount)| TokenOutput { script_pub_key: vec![key; 32], amount })
                .collect(),
        },
    }
}

#[test]
fn locate_current_returns_the_input_at_the_index() {
    let a = prev(0, None, vec![(1, 10)]);
    let b = prev(0, Some([9; 32]), vec![(2, 20)]);
    let active = vec![&a, &b];
    assert_eq!(locate_current(&active, 0), Ok(&a));
    assert_eq!(locate_current(&active, 1), Ok(&b));
}

#[test]
fn locate_current_rejects_the_count_and_beyond() {
    let a = prev(0, None, vec![(1, 10)]);
    let b = prev(0, None, vec![(2, 20)]);
    let active = vec![&a, &b];
    assert_eq!(locate_current(&active, 2), Err(ValidationError::IndexOutOfRange));
    assert_eq!(locate_current(&active, usize::MAX), Err(ValidationError::IndexOutOfRange));
    assert_eq!(locate_current(&Vec::new(), 0), Err(ValidationError::IndexOutOfRange));
}

#[test]
fn resolve_credential_returns_the_script_of_the_spent_output() {
    let a = prev(1, None, vec![(3, 50), (4, 100)]);
    assert_eq!(resolve_credential(&a), Ok(&vec![4u8; 32]));
    let b = prev(0, None, vec![(3, 50), (4, 100)]);
    assert_eq!(resolve_credential(&b), Ok(&vec![3u8; 32]));
}

#[test]
fn resolve_credential_rejects_a_dangling_reference() {
    let a = prev(5, None, vec![(3, 50), (4, 100)]);
    assert_eq!(resolve_credential(&a), Err(ValidationError::DanglingReference));
    let b = prev(2, None, vec![(3, 50), (4, 100)]);
    assert_eq!(resolve_credential(&b), Err(ValidationError::DanglingReference));
}

#[test]
fn binding_message_names_position_and_transaction() {
    let a = prev(1, Some([5; 32]), vec![(3, 50), (4, 100)]);
    assert_eq!(
        binding_message(&a),
        Ok(SignatureMessage { prev_out_idx: 1, prev_out_tx_id: [5; 32] })
    );
}

#[test]
fn binding_message_needs_a_transaction_identifier() {
    let a = prev(1, None, vec![(3, 50), (4, 100)]);
    assert_eq!(binding_message(&a), Err(ValidationError::MissingTxId));
}

#[test]
fn binding_messages_differ_with_position_or_transaction() {
    let a = binding_message(&prev(0, Some([5; 32]), vec![(3, 50), (3, 50)])).unwrap();
    let b = binding_message(&prev(1, Some([5; 32]), vec![(3, 50), (3, 50)])).unwrap();
    let c = binding_message(&prev(0, Some([6; 32]), vec![(3, 50), (3, 50)])).unwrap();
    assert_ne!(a, b);
    assert_ne!(a, c);
    assert_ne!(b, c);
}

#[test]
fn conclude_maps_the_verdict() {
    assert_eq!(conclude(true), Ok(()));
    assert_eq!(conclude(false), Err(ValidationError::AuthorizationFailed));
}

#[test]
fn authorize_follows_the_verifier() {
    let credential = vec![7u8; 32];
    let request = AuthorizationRequest {
        credential: &credential,
        message: SignatureMessage { prev_out_idx: 2, prev_out_tx_id: [8; 32] },
    };
    let signature = vec![1u8, 2, 3];
    assert_eq!(
        authorize(&request, &signature, |_: &Vec<u8>, _: &SignatureMessage, _: &Vec<u8>| true),
        Ok(())
    );
    assert_eq!(
        authorize(&request, &signature, |_: &Vec<u8>, _: &SignatureMessage, _: &Vec<u8>| false),
        Err(ValidationError::AuthorizationFailed)
    );
}

#[test]
fn authorize_hands_the_verifier_credential_message_and_signature() {
    let credential = vec![7u8; 32];
    let request = AuthorizationRequest {
        credential: &credential,
        message: SignatureMessage { prev_out_idx: 2, prev_out_tx_id: [8; 32] },
    };
    let signature = vec![1u8, 2, 3];
    let exact = |c: &Vec<u8>, m: &SignatureMessage, s: &Vec<u8>| {
        *c == vec![7u8; 32]
            && *m == SignatureMessage { prev_out_idx: 2, prev_out_tx_id: [8; 32] }
            && *s == vec![1u8, 2, 3]
    };
    assert_eq!(authorize(&request, &signature, exact), Ok(()));
    assert_eq!(
        authorize(&request, &vec![1u8, 2, 4], exact),
        Err(ValidationError::AuthorizationFailed)
    );
}
