//! What the user is shown before a transaction is signed.

use crate::asset::{
    currency_symbol, get_currency_symbol_by_asset_id, law_symbol_identifies_asset, optional_text,
    AssetBalance, AssetId,
};
use crate::base58::{base58_encode, base58_text, law_base58_text_is_injective};
use crate::decimal::{
    amount_text, decimal_text, law_decimal_text_is_injective, law_decimal_text_reads_back,
    lemma_reading_digits,
};
use vstd::prelude::*;
use vstd::std_specs::convert::FromSpecImpl;

verus! {

/// One private transfer of a batch
pub struct PrivateTransferParams {
    /// Value of the output that goes to the receiver
    pub non_change_output_value: AssetBalance,
}

/// A batch of private transfers that carries one amount to one receiver. It is never empty: its
/// last transfer is the one that pays the receiver.
pub struct GeneratePrivateTransferBatchParams {
    /// Asset Identifier
    asset_id: AssetId,
    /// Receiving address, as the ledger encodes it
    receiving_address: Vec<u8>,
    /// The transfers of the batch
    private_transfer_params_list: Vec<PrivateTransferParams>,
}

/// What a batch of private transfers holds.
pub struct PrivateTransferBatch {
    pub asset_id: AssetId,
    pub receiving_address: Seq<u8>,
    pub private_transfer_params_list: Seq<PrivateTransferParams>,
}

impl View for GeneratePrivateTransferBatchParams {
    type V = PrivateTransferBatch;

    closed spec fn view(&self) -> PrivateTransferBatch {
        PrivateTransferBatch {
            asset_id: self.asset_id,
            receiving_address: self.receiving_address@,
            private_transfer_params_list: self.private_transfer_params_list@,
        }
    }
}

impl GeneratePrivateTransferBatchParams {
    #[verifier::type_invariant]
    spec fn is_non_empty(self) -> bool {
        self.private_transfer_params_list@.len() > 0
    }

    /// Builds a new [`GeneratePrivateTransferBatchParams`], unless the batch is empty.
    pub fn new(
        asset_id: AssetId,
        receiving_address: Vec<u8>,
        private_transfer_params_list: Vec<PrivateTransferParams>,
    ) -> (params: Option<Self>)
        ensures
            params is Some <==> private_transfer_params_list@.len() > 0,
            params matches Some(p) ==> p@ == (PrivateTransferBatch {
                asset_id,
                receiving_address: receiving_address@,
                private_transfer_params_list: private_transfer_params_list@,
            }),
    {
        if private_transfer_params_list.len() == 0 {
            None
        } else {
            Some(Self { asset_id, receiving_address, private_transfer_params_list })
        }
    }
}

/// One reclaim
pub struct ReclaimParams {
    /// Asset Identifier
    pub asset_id: AssetId,
    /// Value that is reclaimed
    pub reclaim_value: AssetBalance,
}

/// A batch of private transfers that ends in a reclaim
pub struct GenerateReclaimBatchParams {
    /// The reclaim
    pub reclaim_params: ReclaimParams,
}

/// Transaction Kind
#[derive(Clone, Debug, Eq, Hash, PartialEq)]
pub enum TransactionKind {
    /// Private Transfer
    PrivateTransfer {
        /// Recipient Address
        recipient: String,
    },
    /// Reclaim
    Reclaim,
}

/// What a [`TransactionKind`] says.
pub enum TransactionKindView {
    PrivateTransfer { recipient: Seq<char> },
    Reclaim,
}

impl View for TransactionKind {
    type V = TransactionKindView;

    open spec fn view(&self) -> TransactionKindView {
        match self {
            TransactionKind::PrivateTransfer { recipient } => TransactionKindView::PrivateTransfer {
                recipient: recipient@,
            },
            TransactionKind::Reclaim => TransactionKindView::Reclaim,
        }
    }
}

/// Transaction Summary
#[derive(Clone, Debug, Eq, Hash, PartialEq)]
pub struct TransactionSummary {
    /// Transaction Kind
    pub kind: TransactionKind,
    /// Transaction Amount
    pub amount: String,
    /// Currency Symbol
    pub currency_symbol: Option<&'static str>,
}

/// What a [`TransactionSummary`] says.
pub struct TransactionSummaryView {
    pub kind: TransactionKindView,
    pub amount: Seq<char>,
    pub currency_symbol: Option<Seq<char>>,
}

impl View for TransactionSummary {
    type V = TransactionSummaryView;

    open spec fn view(&self) -> TransactionSummaryView {
        TransactionSummaryView {
            kind: self.kind@,
            amount: self.amount@,
            currency_symbol: optional_text(self.currency_symbol),
        }
    }
}

/// The summary of a batch of private transfers: the recipient is the receiving address, the amount
/// that of the last transfer.
pub open spec fn transfer_summary(batch: PrivateTransferBatch) -> TransactionSummaryView {
    TransactionSummaryView {
        kind: TransactionKindView::PrivateTransfer {
            recipient: base58_text(batch.receiving_address),
        },
        amount: decimal_text(
            batch.private_transfer_params_list.last().non_change_output_value as nat,
        ),
        currency_symbol: currency_symbol(batch.asset_id),
    }
}

/// The summary of a reclaim.
pub open spec fn reclaim_summary(params: GenerateReclaimBatchParams) -> TransactionSummaryView {
    TransactionSummaryView {
        kind: TransactionKindView::Reclaim,
        amount: decimal_text(params.reclaim_params.reclaim_value as nat),
        currency_symbol: currency_symbol(params.reclaim_params.asset_id),
    }
}

impl From<&GeneratePrivateTransferBatchParams> for TransactionSummary {
    fn from(params: &GeneratePrivateTransferBatchParams) -> (summary: Self)
        ensures
            summary@ == transfer_summary(params@),
    {
        proof {
            use_type_invariant(params);
        }
        let last: usize = params.private_transfer_params_list.len() - 1;
        Self {
            kind: TransactionKind::PrivateTransfer {
                recipient: base58_encode(&params.receiving_address),
            },
            amount: amount_text(params.private_transfer_params_list[last].non_change_output_value),
            currency_symbol: get_currency_symbol_by_asset_id(params.asset_id),
        }
    }
}

// A `String` is known by its characters alone, so what a summary says is stated on `from` itself.
impl FromSpecImpl<&GeneratePrivateTransferBatchParams> for TransactionSummary {
    open spec fn obeys_from_spec() -> bool {
        false
    }

    open spec fn from_spec(params: &GeneratePrivateTransferBatchParams) -> Self {
        arbitrary()
    }
}

impl From<&GenerateReclaimBatchParams> for TransactionSummary {
    fn from(params: &GenerateReclaimBatchParams) -> (summary: Self)
        ensures
            summary@ == reclaim_summary(*params),
    {
        Self {
            kind: TransactionKind::Reclaim,
            amount: amount_text(params.reclaim_params.reclaim_value),
            currency_symbol: get_currency_symbol_by_asset_id(params.reclaim_params.asset_id),
        }
    }
}

impl FromSpecImpl<&GenerateReclaimBatchParams> for TransactionSummary {
    open spec fn obeys_from_spec() -> bool {
        false
    }

    open spec fn from_spec(params: &GenerateReclaimBatchParams) -> Self {
        arbitrary()
    }
}

/// Two transfers whose summaries agree carry the same amount to the same address, in the same
/// asset wherever a currency symbol is shown.
pub proof fn law_transfer_summary_identifies(a: PrivateTransferBatch, b: PrivateTransferBatch)
    requires
        transfer_summary(a) == transfer_summary(b),
    ensures
        a.receiving_address == b.receiving_address,
        a.private_transfer_params_list.last().non_change_output_value
            == b.private_transfer_params_list.last().non_change_output_value,
        currency_symbol(a.asset_id) is Some ==> a.asset_id == b.asset_id,
{
    assert(transfer_summary(a).kind->recipient == transfer_summary(b).kind->recipient);
    law_base58_text_is_injective(a.receiving_address, b.receiving_address);
    law_decimal_text_is_injective(
        a.private_transfer_params_list.last().non_change_output_value as nat,
        b.private_transfer_params_list.last().non_change_output_value as nat,
    );
    if currency_symbol(a.asset_id) is Some {
        law_symbol_identifies_asset(a.asset_id, b.asset_id);
    }
}

/// Two reclaims whose summaries agree reclaim the same amount, in the same asset wherever a
/// currency symbol is shown.
pub proof fn law_reclaim_summary_identifies(
    a: GenerateReclaimBatchParams,
    b: GenerateReclaimBatchParams,
)
    requires
        reclaim_summary(a) == reclaim_summary(b),
    ensures
        a.reclaim_params.reclaim_value == b.reclaim_params.reclaim_value,
        currency_symbol(a.reclaim_params.asset_id) is Some ==> a.reclaim_params.asset_id
            == b.reclaim_params.asset_id,
{
    law_decimal_text_is_injective(
        a.reclaim_params.reclaim_value as nat,
        b.reclaim_params.reclaim_value as nat,
    );
    if currency_symbol(a.reclaim_params.asset_id) is Some {
        law_symbol_identifies_asset(a.reclaim_params.asset_id, b.reclaim_params.asset_id);
    }
}

/// What a summary of `amount` in the asset `asset_id` shows of the two.
pub(crate) proof fn lemma_summary_shows_amount(
    summary: TransactionSummary,
    amount: AssetBalance,
    asset_id: AssetId,
)
    requires
        summary@.amount == decimal_text(amount as nat),
        summary@.currency_symbol == currency_symbol(asset_id),
    ensures
        summary.amount@.len() >= 1,
        forall|i: int|
            0 <= i < summary.amount@.len() ==> '0' <= #[trigger] summary.amount@[i] <= '9',
        summary.amount@[0] == '0' ==> summary.amount@.len() == 1,
        summary.amount@.fold_left(0int, |n: int, c: char| n * 10 + (c as int - '0' as int))
            == amount,
        asset_id == 1 <==> (summary.currency_symbol matches Some(s) && s@ == seq!['D', 'O', 'T']),
        asset_id == 2 <==> (summary.currency_symbol matches Some(s) && s@ == seq!['K', 'S', 'M']),
        summary.currency_symbol is None <==> asset_id != 1 && asset_id != 2,
{
    reveal_strlit("DOT");
    reveal_strlit("KSM");
    assert("DOT"@ =~= seq!['D', 'O', 'T']);
    assert("KSM"@ =~= seq!['K', 'S', 'M']);
    assert("DOT"@[0] != "KSM"@[0]);
    law_decimal_text_reads_back(amount as nat);
    lemma_reading_digits(summary.amount@, |n: int, c: char| n * 10 + (c as int - '0' as int));
}

/// The summary of a batch is that of a private transfer to the batch's address, whatever the
/// address, the amount and the asset. Its amount consists of digits without leading zeros and reads
/// as the value of the batch's last transfer. Its symbol is DOT for asset 1, KSM for asset 2, and
/// missing for any other.
pub proof fn law_transfer_summary_shows_batch(
    asset_id: AssetId,
    receiving_address: Vec<u8>,
    transfers: Vec<PrivateTransferParams>,
    params: GeneratePrivateTransferBatchParams,
    summary: TransactionSummary,
)
    requires
        call_ensures(
            GeneratePrivateTransferBatchParams::new,
            (asset_id, receiving_address, transfers),
            Some(params),
        ),
        call_ensures(
            <TransactionSummary as From<&GeneratePrivateTransferBatchParams>>::from,
            (&params,),
            summary,
        ),
    ensures
        transfers@.len() > 0,
        summary.kind matches TransactionKind::PrivateTransfer { recipient } && recipient@
            == base58_text(receiving_address@),
        summary.amount@.len() >= 1,
        forall|i: int|
            0 <= i < summary.amount@.len() ==> '0' <= #[trigger] summary.amount@[i] <= '9',
        summary.amount@[0] == '0' ==> summary.amount@.len() == 1,
        summary.amount@.fold_left(0int, |n: int, c: char| n * 10 + (c as int - '0' as int))
            == transfers@[transfers@.len() - 1].non_change_output_value,
        asset_id == 1 <==> (summary.currency_symbol matches Some(s) && s@ == seq!['D', 'O', 'T']),
        asset_id == 2 <==> (summary.currency_symbol matches Some(s) && s@ == seq!['K', 'S', 'M']),
        summary.currency_symbol is None <==> asset_id != 1 && asset_id != 2,
{
    lemma_summary_shows_amount(
        summary,
        transfers@[transfers@.len() - 1].non_change_output_value,
        asset_id,
    );
}

/// The summary of a reclaim is that of a reclaim, whatever the amount and the asset. Its amount
/// consists of digits without leading zeros and reads as the value that is reclaimed. Its symbol is
/// DOT for asset 1, KSM for asset 2, and missing for any other.
pub proof fn law_reclaim_summary_shows_reclaim(
    params: &GenerateReclaimBatchParams,
    summary: TransactionSummary,
)
    requires
        call_ensures(
            <TransactionSummary as From<&GenerateReclaimBatchParams>>::from,
            (params,),
            summary,
        ),
    ensures
        summary.kind is Reclaim,
        summary.amount@.len() >= 1,
        forall|i: int|
            0 <= i < summary.amount@.len() ==> '0' <= #[trigger] summary.amount@[i] <= '9',
        summary.amount@[0] == '0' ==> summary.amount@.len() == 1,
        summary.amount@.fold_left(0int, |n: int, c: char| n * 10 + (c as int - '0' as int))
            == params.reclaim_params.reclaim_value,
        params.reclaim_params.asset_id == 1 <==> (summary.currency_symbol matches Some(s) && s@
            == seq!['D', 'O', 'T']),
        params.reclaim_params.asset_id == 2 <==> (summary.currency_symbol matches Some(s) && s@
            == seq!['K', 'S', 'M']),
        summary.currency_symbol is None <==> params.reclaim_params.asset_id != 1
            && params.reclaim_params.asset_id != 2,
{
    lemma_summary_shows_amount(
        summary,
        params.reclaim_params.reclaim_value,
        params.reclaim_params.asset_id,
    );
}

/// No transfer has the summary of a reclaim.
pub proof fn law_transfer_summary_is_no_reclaim_summary(
    batch: &GeneratePrivateTransferBatchParams,
    transfer: TransactionSummary,
    params: &GenerateReclaimBatchParams,
    reclaim: TransactionSummary,
)
    requires
        call_ensures(
            <TransactionSummary as From<&GeneratePrivateTransferBatchParams>>::from,
            (batch,),
            transfer,
        ),
        call_ensures(
            <TransactionSummary as From<&GenerateReclaimBatchParams>>::from,
            (params,),
            reclaim,
        ),
    ensures
        transfer.kind is PrivateTransfer,
        reclaim.kind is Reclaim,
        transfer@ != reclaim@,
        transfer_summary(batch@) != reclaim_summary(*params),
{
    assert(transfer@.kind is PrivateTransfer);
    assert(reclaim@.kind is Reclaim);
}

} // verus!
