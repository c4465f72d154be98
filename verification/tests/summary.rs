use manta_signer::summary::{
    GeneratePrivateTransferBatchParams, GenerateReclaimBatchParams, PrivateTransferParams,
    ReclaimParams, TransactionKind, TransactionSummary,
};

fn batch(asset_id: u64, address: &[u8], values: &[u128]) -> Option<GeneratePrivateTransferBatchParams> {
    let list = values
        .iter()
        .map(|value| PrivateTransferParams { non_change_output_value: *value })
        .collect();
    GeneratePrivateTransferBatchParams::new(asset_id, address.to_vec(), list)
}

#[test]
fn transfer_shows_base58_recipient() {
    let address = [0x04, 0x30, 0x5e, 0x2b, 0x24, 0x73, 0xf0, 0x58];
    let summary = TransactionSummary::from(&batch(1, &address, &[42]).unwrap());
    assert_eq!(
        summary,
        TransactionSummary {
            kind: TransactionKind::PrivateTransfer { recipient: "he11owor1d".to_string() },
            amount: "42".to_string(),
            currency_symbol: Some("DOT"),
        }
    );
}

#[test]
fn leading_zero_bytes_of_an_address_are_shown() {
    let summary = TransactionSummary::from(&batch(2, &[0, 0, 1], &[5]).unwrap());
    assert_eq!(
        summary.kind,
        TransactionKind::PrivateTransfer { recipient: "112".to_string() }
    );
}

#[test]
fn empty_address_has_empty_text() {
    let summary = TransactionSummary::from(&batch(2, &[], &[5]).unwrap());
    assert_eq!(summary.kind, TransactionKind::PrivateTransfer { recipient: String::new() });
}

#[test]
fn transfer_shows_the_last_amount() {
    let summary = TransactionSummary::from(&batch(2, &[1], &[1, 2, 1_000]).unwrap());
    assert_eq!(summary.amount, "1000");
    assert_eq!(summary.currency_symbol, Some("KSM"));
}

#[test]
fn recipients_in_base58() {
    let recipient = |address: &[u8]| {
        match TransactionSummary::from(&batch(1, address, &[1]).unwrap()).kind {
            TransactionKind::PrivateTransfer { recipient } => recipient,
            TransactionKind::Reclaim => panic!("expected a transfer"),
        }
    };
    assert_eq!(recipient(&[0x61]), "2g");
    assert_eq!(recipient(&[0x62, 0x62, 0x62]), "a3gV");
    assert_eq!(recipient(&[0x51, 0x6b, 0x6f, 0xcd, 0x0f]), "ABnLTmg");
    assert_eq!(recipient(&[0x10, 0xc8, 0x51, 0x1e]), "Rt5zm");
    assert_eq!(recipient(&[0; 10]), "1111111111");
    assert_eq!(recipient(&[0, 0x61]), "12g");
}

#[test]
fn empty_batches_are_not_built() {
    assert!(batch(1, &[1, 2, 3], &[]).is_none());
}

#[test]
fn reclaim_shows_amount_and_symbol() {
    let params = GenerateReclaimBatchParams {
        reclaim_params: ReclaimParams { asset_id: 2, reclaim_value: 120_000 },
    };
    assert_eq!(
        TransactionSummary::from(&params),
        TransactionSummary {
            kind: TransactionKind::Reclaim,
            amount: "120000".to_string(),
            currency_symbol: Some("KSM"),
        }
    );
}

#[test]
fn reclaim_of_unknown_asset_has_no_symbol() {
    let params = GenerateReclaimBatchParams {
        reclaim_params: ReclaimParams { asset_id: 77, reclaim_value: 0 },
    };
    let summary = TransactionSummary::from(&params);
    assert_eq!(summary.amount, "0");
    assert_eq!(summary.currency_symbol, None);
}

#[test]
fn different_transfers_have_different_summaries() {
    let base = TransactionSummary::from(&batch(1, &[1, 2], &[10]).unwrap());
    assert_ne!(base, TransactionSummary::from(&batch(1, &[1, 2], &[100]).unwrap()));
    assert_ne!(base, TransactionSummary::from(&batch(2, &[1, 2], &[10]).unwrap()));
    assert_ne!(base, TransactionSummary::from(&batch(1, &[1, 3], &[10]).unwrap()));
    assert_eq!(base, TransactionSummary::from(&batch(1, &[1, 2], &[3, 10]).unwrap()));
}

#[test]
fn different_reclaims_have_different_summaries() {
    let reclaim = |asset_id: u64, reclaim_value: u128| {
        TransactionSummary::from(&GenerateReclaimBatchParams {
            reclaim_params: ReclaimParams { asset_id, reclaim_value },
        })
    };
    assert_ne!(reclaim(1, 10), reclaim(1, 11));
    assert_ne!(reclaim(1, 10), reclaim(2, 10));
    assert_eq!(reclaim(8, 10), reclaim(9, 10));
}
