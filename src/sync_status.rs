use vstd::prelude::*;

use crate::utility::{append_decimal, decimal};

verus! {

/// Where a node is in synchronising with the network, with the figures
/// that its status line shows.
#[derive(Debug, Clone)]
pub enum SyncStatus {
    /// Not yet known whether a sync is needed.
    Initial,
    /// In sync; not syncing.
    NoSync,
    /// Too few peers to do anything yet.
    AwaitingPeers(bool),
    /// Downloading block headers.
    HeaderSync { sync_head_height: u64, highest_height: u64 },
    /// Rebuilding the transaction state from peers, piece by piece.
    TxHashsetPibd { completed_leaves: u64, leaves_required: u64 },
    /// Downloading the transaction state in one archive. `rate` is the
    /// transfer rate in kB/s, already written out; `waited_secs` how long
    /// the node has waited for a peer to start sending.
    TxHashsetDownload { total_size: u64, downloaded_size: u64, rate: String, waited_secs: i64 },
    /// Setting up before validation.
    TxHashsetSetup {
        headers: Option<u64>,
        headers_total: Option<u64>,
        kernel_pos: Option<u64>,
        kernel_pos_total: Option<u64>,
    },
    /// Validating range proofs.
    TxHashsetRangeProofsValidation { rproofs: u64, rproofs_total: u64 },
    /// Validating kernels.
    TxHashsetKernelsValidation { kernels: u64, kernels_total: u64 },
    /// Finalizing the new state.
    TxHashsetSave,
    /// State sync finalized.
    TxHashsetDone,
    /// Downloading blocks.
    BodySync { current_height: u64, highest_height: u64 },
    /// Shutting down.
    Shutdown,
}

/// `part` as a whole percentage of `whole`, rounded down; 0 when `whole` is 0.
pub open spec fn percent(part: u64, whole: u64) -> nat {
    if whole == 0 {
        0
    } else {
        (part as int * 100 / whole as int) as nat
    }
}

/// Decimal digits of an integer, with a minus sign when negative.
pub open spec fn signed_decimal(i: int) -> Seq<char> {
    if i < 0 {
        seq!['-'] + decimal((-i) as nat)
    } else {
        decimal(i as nat)
    }
}

pub open spec fn percent_text(part: u64, whole: u64) -> Seq<char> {
    decimal(percent(part, whole)) + "%"@
}

/// The status line shown for a sync status.
pub open spec fn sync_text(s: SyncStatus) -> Seq<char> {
    match s {
        SyncStatus::Initial => "Initializing"@,
        SyncStatus::NoSync => "Running"@,
        SyncStatus::AwaitingPeers(_) => "Waiting for peers"@,
        SyncStatus::HeaderSync { sync_head_height, highest_height } =>
            "Sync step 1/7: Downloading headers: "@ + percent_text(
            sync_head_height,
            highest_height,
        ),
        SyncStatus::TxHashsetPibd { completed_leaves, leaves_required } =>
            "Sync step 2/7: Downloading Tx state (PIBD) - "@ + decimal(completed_leaves as nat)
            + " / "@ + decimal(leaves_required as nat) + " entries - "@ + percent_text(
            completed_leaves,
            leaves_required,
        ),
        SyncStatus::TxHashsetDownload { total_size, downloaded_size, rate, waited_secs } => {
            if total_size > 0 {
                "Sync step 2/7: Downloading "@ + decimal((total_size / 1_000_000) as nat)
                    + "(MB) chain state for state sync: "@ + percent_text(
                    downloaded_size,
                    total_size,
                ) + " at "@ + rate@ + "(kB/s)"@
            } else {
                "Sync step 2/7: Downloading chain state for state sync. Waiting remote peer to start: "@
                    + signed_decimal(waited_secs as int) + "s"@
            }
        },
        SyncStatus::TxHashsetSetup { headers, headers_total, kernel_pos, kernel_pos_total } => {
            if headers is Some && headers_total is Some {
                "Sync step 3/7: Preparing for validation (kernel history) - "@ + decimal(
                    headers->Some_0 as nat,
                ) + "/"@ + decimal(headers_total->Some_0 as nat) + " - "@ + percent_text(
                    headers->Some_0,
                    headers_total->Some_0,
                )
            } else if kernel_pos is Some && kernel_pos_total is Some {
                "Sync step 3/7: Preparing for validation (kernel position) - "@ + decimal(
                    kernel_pos->Some_0 as nat,
                ) + "/"@ + decimal(kernel_pos_total->Some_0 as nat) + " - "@ + percent_text(
                    kernel_pos->Some_0,
                    kernel_pos_total->Some_0,
                )
            } else {
                "Sync step 3/7: Preparing chain state for validation"@
            }
        },
        SyncStatus::TxHashsetRangeProofsValidation { rproofs, rproofs_total } =>
            "Sync step 4/7: Validating chain state - range proofs: "@ + percent_text(
            rproofs,
            rproofs_total,
        ),
        SyncStatus::TxHashsetKernelsValidation { kernels, kernels_total } =>
            "Sync step 5/7: Validating chain state - kernels: "@ + percent_text(
            kernels,
            kernels_total,
        ),
        SyncStatus::TxHashsetSave => "Sync step 6/7: Finalizing chain state for state sync"@,
        SyncStatus::TxHashsetDone => "Sync step 6/7: Finalized chain state for state sync"@,
        SyncStatus::BodySync { current_height, highest_height } =>
            "Sync step 7/7: Downloading blocks: "@ + percent_text(current_height, highest_height),
        SyncStatus::Shutdown => "Shutting down, closing connections"@,
    }
}

fn append_signed_decimal(out: &mut String, i: i64)
    ensures
        final(out)@ == old(out)@ + signed_decimal(i as int),
{
    if i < 0 {
        out.append("-");
        proof {
            reveal_strlit("-");
        }
        let ghost mid = out@;
        let m: u128 = (0 - (i as i128)) as u128;
        append_decimal(out, m);
        assert(out@ =~= mid + decimal((-i) as nat));
    } else {
        append_decimal(out, i as u128);
    }
}

fn percent_of(part: u64, whole: u64) -> (r: u128)
    ensures
        r as nat == percent(part, whole),
{
    if whole == 0 {
        0
    } else {
        (part as u128 * 100) / (whole as u128)
    }
}

fn append_percent(out: &mut String, part: u64, whole: u64)
    ensures
        final(out)@ == old(out)@ + percent_text(part, whole),
{
    append_decimal(out, percent_of(part, whole));
    out.append("%");
}

/// The status line for a sync status: the sync step, what it does, and its
/// progress in whole percent (0 while the total is unknown or 0).
pub fn format_sync_status(sync_status: &SyncStatus) -> (r: String)
    ensures
        r@ == sync_text(*sync_status),
{
    let mut out = String::new();
    match sync_status {
        SyncStatus::Initial => out.append("Initializing"),
        SyncStatus::NoSync => out.append("Running"),
        SyncStatus::AwaitingPeers(_) => out.append("Waiting for peers"),
        SyncStatus::HeaderSync { sync_head_height, highest_height } => {
            out.append("Sync step 1/7: Downloading headers: ");
            append_percent(&mut out, *sync_head_height, *highest_height);
        },
        SyncStatus::TxHashsetPibd { completed_leaves, leaves_required } => {
            out.append("Sync step 2/7: Downloading Tx state (PIBD) - ");
            append_decimal(&mut out, *completed_leaves as u128);
            out.append(" / ");
            append_decimal(&mut out, *leaves_required as u128);
            out.append(" entries - ");
            append_percent(&mut out, *completed_leaves, *leaves_required);
        },
        SyncStatus::TxHashsetDownload { total_size, downloaded_size, rate, waited_secs } => {
            if *total_size > 0 {
                out.append("Sync step 2/7: Downloading ");
                append_decimal(&mut out, (*total_size / 1_000_000) as u128);
                out.append("(MB) chain state for state sync: ");
                append_percent(&mut out, *downloaded_size, *total_size);
                out.append(" at ");
                out.append(rate.as_str());
                out.append("(kB/s)");
            } else {
                out.append(
                    "Sync step 2/7: Downloading chain state for state sync. Waiting remote peer to start: ",
                );
                append_signed_decimal(&mut out, *waited_secs);
                out.append("s");
            }
        },
        SyncStatus::TxHashsetSetup { headers, headers_total, kernel_pos, kernel_pos_total } => {
            match (headers, headers_total, kernel_pos, kernel_pos_total) {
                (Some(h), Some(ht), _, _) => {
                    out.append("Sync step 3/7: Preparing for validation (kernel history) - ");
                    append_decimal(&mut out, *h as u128);
                    out.append("/");
                    append_decimal(&mut out, *ht as u128);
                    out.append(" - ");
                    append_percent(&mut out, *h, *ht);
                },
                (_, _, Some(k), Some(kt)) => {
                    out.append("Sync step 3/7: Preparing for validation (kernel position) - ");
                    append_decimal(&mut out, *k as u128);
                    out.append("/");
                    append_decimal(&mut out, *kt as u128);
                    out.append(" - ");
                    append_percent(&mut out, *k, *kt);
                },
                _ => out.append("Sync step 3/7: Preparing chain state for validation"),
            }
        },
        SyncStatus::TxHashsetRangeProofsValidation { rproofs, rproofs_total } => {
            out.append("Sync step 4/7: Validating chain state - range proofs: ");
            append_percent(&mut out, *rproofs, *rproofs_total);
        },
        SyncStatus::TxHashsetKernelsValidation { kernels, kernels_total } => {
            out.append("Sync step 5/7: Validating chain state - kernels: ");
            append_percent(&mut out, *kernels, *kernels_total);
        },
        SyncStatus::TxHashsetSave => out.append("Sync step 6/7: Finalizing chain state for state sync"),
        SyncStatus::TxHashsetDone => out.append("Sync step 6/7: Finalized chain state for state sync"),
        SyncStatus::BodySync { current_height, highest_height } => {
            out.append("Sync step 7/7: Downloading blocks: ");
            append_percent(&mut out, *current_height, *highest_height);
        },
        SyncStatus::Shutdown => out.append("Shutting down, closing connections"),
    }
    assert(out@ =~= sync_text(*sync_status));
    out
}

} // verus!
