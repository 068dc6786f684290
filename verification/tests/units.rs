use burnchain_sync::burnchain::{resolve_pipeline_results, PipelineStageResults};
use burnchain_sync::epochs::{EpochList, StacksEpoch, StacksEpochId, STACKS_EPOCH_MAX};
use burnchain_sync::errors::{choose_pipeline_error, error_rank_exec, BurnchainError};
use burnchain_sync::sync_range::compute_sync_range;
use burnchain_sync::test_doubles::StubBlock;
use burnchain_sync::types::BurnchainHeaderHash;

#[test]
fn error_ranks_follow_precedence() {
    assert_eq!(error_rank_exec(BurnchainError::DownloadError), 0);
    assert_eq!(error_rank_exec(BurnchainError::ParseError), 1);
    assert_eq!(error_rank_exec(BurnchainError::ThreadChannelError), 2);
    assert_eq!(error_rank_exec(BurnchainError::DBError), 3);
    assert_eq!(error_rank_exec(BurnchainError::CoordinatorClosed), 4);
}

#[test]
fn precedence_picks_best_ranked_error() {
    let d = BurnchainError::DownloadError;
    let p = BurnchainError::ParseError;
    let t = BurnchainError::ThreadChannelError;
    let b = BurnchainError::DBError;
    assert_eq!(choose_pipeline_error(Some(d), None, None), Some(d));
    assert_eq!(choose_pipeline_error(None, Some(p), None), Some(p));
    assert_eq!(choose_pipeline_error(None, None, Some(b)), Some(b));
    assert_eq!(choose_pipeline_error(Some(d), Some(p), None), Some(d));
    assert_eq!(choose_pipeline_error(Some(d), None, Some(b)), Some(d));
    assert_eq!(choose_pipeline_error(None, Some(p), Some(b)), Some(p));
    assert_eq!(choose_pipeline_error(Some(d), Some(p), Some(b)), Some(d));
    assert_eq!(choose_pipeline_error(None, None, None), None);
    // the thread-channel catch-all outranks commit-side failures
    assert_eq!(choose_pipeline_error(None, Some(t), Some(b)), Some(t));
    // a stage reporting a better-ranked kind wins regardless of its slot
    assert_eq!(choose_pipeline_error(Some(p), Some(d), None), Some(d));
}

fn tip(height: u64) -> burnchain_sync::types::BurnchainBlockHeader {
    StubBlock::new(height, BurnchainHeaderHash::from_test_data(height)).to_header()
}

#[test]
fn resolve_returns_committed_tip() {
    let results = PipelineStageResults {
        download: Ok(()),
        parse: Ok(()),
        commit: Ok(Some(tip(7))),
    };
    let r = resolve_pipeline_results(results, tip(3));
    assert_eq!(r.unwrap().block_height, 7);
}

#[test]
fn resolve_falls_back_to_previous_tip() {
    let results = PipelineStageResults {
        download: Ok(()),
        parse: Ok(()),
        commit: Ok(None),
    };
    let r = resolve_pipeline_results(results, tip(3));
    assert_eq!(r.unwrap().block_height, 3);
}

#[test]
fn resolve_surfaces_chosen_error() {
    let results = PipelineStageResults {
        download: Err(BurnchainError::DownloadError),
        parse: Err(BurnchainError::ThreadChannelError),
        commit: Ok(Some(tip(1))),
    };
    let r = resolve_pipeline_results(results, tip(0));
    assert!(matches!(r, Err(BurnchainError::DownloadError)));
}

#[test]
fn sync_range_full_window() {
    let r = compute_sync_range(0, 0, 2, Some(2), None);
    assert_eq!(r.start, 0);
    assert_eq!(r.end_plus_one, 3);
    assert!(!r.is_empty());
}

#[test]
fn sync_range_empty_when_target_reached() {
    let r = compute_sync_range(3, 0, 2, Some(2), None);
    assert_eq!(r.start, 3);
    assert_eq!(r.end_plus_one, 3);
    assert!(r.is_empty());
}

#[test]
fn sync_range_bounded_by_max_blocks() {
    let r = compute_sync_range(5, 0, 100, Some(50), Some(2));
    assert_eq!(r.start, 5);
    assert_eq!(r.end_plus_one, 7);
}

#[test]
fn sync_range_bounded_by_synced_height() {
    let r = compute_sync_range(5, 0, 8, Some(50), None);
    assert_eq!(r.start, 5);
    assert_eq!(r.end_plus_one, 9);
}

#[test]
fn sync_range_starts_at_first_block() {
    let r = compute_sync_range(0, 10, 20, None, None);
    assert_eq!(r.start, 10);
    assert_eq!(r.end_plus_one, 21);
}

#[test]
fn sync_range_caps_greatest_height() {
    // the greatest representable height never enters a range
    let r = compute_sync_range(u64::MAX - 1, 0, u64::MAX, None, None);
    assert_eq!(r.start, u64::MAX - 1);
    assert_eq!(r.end_plus_one, u64::MAX);
}

#[test]
fn epoch_lookup_picks_covering_epoch() {
    let epochs = EpochList::new(vec![
        StacksEpoch {
            epoch_id: StacksEpochId::Epoch10,
            start_height: 0,
            end_height: 100,
        },
        StacksEpoch {
            epoch_id: StacksEpochId::Epoch20,
            start_height: 100,
            end_height: STACKS_EPOCH_MAX,
        },
    ]);
    assert_eq!(epochs.epoch_id_at(0), Some(StacksEpochId::Epoch10));
    assert_eq!(epochs.epoch_id_at(99), Some(StacksEpochId::Epoch10));
    assert_eq!(epochs.epoch_id_at(100), Some(StacksEpochId::Epoch20));
    assert_eq!(epochs.epoch_id_at(STACKS_EPOCH_MAX - 1), Some(StacksEpochId::Epoch20));
    assert_eq!(epochs.epoch_id_at(STACKS_EPOCH_MAX), None);
}

#[test]
fn epoch_lookup_outside_table() {
    let epochs = EpochList::new(vec![StacksEpoch {
        epoch_id: StacksEpochId::Epoch20,
        start_height: 10,
        end_height: 20,
    }]);
    assert_eq!(epochs.epoch_id_at(9), None);
    assert_eq!(epochs.epoch_id_at(20), None);
}

#[test]
fn test_hash_encodes_value() {
    let h = BurnchainHeaderHash::from_test_data(0x0102030405060708);
    assert_eq!(h.0[23], 0);
    assert_eq!(h.0[24], 1);
    assert_eq!(h.0[31], 8);
    let z = BurnchainHeaderHash::zero();
    assert_eq!(z.0, [0u8; 32]);
}

#[test]
fn stub_block_headers() {
    let b = StubBlock::new(5, BurnchainHeaderHash::from_test_data(5));
    let header = b.to_header();
    assert_eq!(header.block_height, 5);
    assert_eq!(header.block_hash.0, BurnchainHeaderHash::from_test_data(5).0);
    assert_eq!(header.num_txs, 0);
    let ipc = b.to_ipc_header();
    assert_eq!(ipc.height, 5);
    assert_eq!(ipc.hash, header.block_hash.0);
}
