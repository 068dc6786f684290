use burnchain_sync::burnchain::Burnchain;
use burnchain_sync::errors::BurnchainError;
use burnchain_sync::test_doubles::{
    CountingCoordinator, FixedKeepRunning, MockBurnchainIndexer, StubBlock,
};
use burnchain_sync::types::{BurnchainHeaderHash, HeaderIPC};

// Helper for testing thread error scenarios
struct TestErrorConfig {
    download_error: bool,
    parse_error: bool,
    db_error: bool,
}

/// An indexer over three canned blocks at heights 0, 1 and 2, reporting a
/// remote chain height of 100, with no failures injected.
fn three_block_indexer() -> MockBurnchainIndexer {
    let blocks = vec![
        StubBlock::new(0, BurnchainHeaderHash::zero()),
        StubBlock::new(1, BurnchainHeaderHash::from_test_data(1)),
        StubBlock::new(2, BurnchainHeaderHash::from_test_data(2)),
    ];
    let mut headers: Vec<HeaderIPC> = Vec::new();
    for b in &blocks {
        headers.push(b.to_ipc_header());
    }
    let mut indexer = MockBurnchainIndexer::new(0, BurnchainHeaderHash::zero(), headers);
    indexer.remote_height = 100;
    indexer
}

#[test]
fn test_sync_with_indexer_happy_path() {
    // Arrange
    let first_block_hash = BurnchainHeaderHash::zero();
    let first_block_height = 0;
    let burnchain = Burnchain::default_unittest(first_block_height, &first_block_hash);
    let mut indexer = three_block_indexer();
    let mut channels = CountingCoordinator::new();
    let should_keep_running = FixedKeepRunning { value: true };

    // Act
    let result = burnchain.sync_with_indexer(
        &mut indexer,
        &mut channels,
        Some(2), // Target height
        None,    // Max blocks
        Some(&should_keep_running),
    );

    // Assert
    assert!(
        result.is_ok(),
        "Expected successful sync but got error: {:?}",
        result.err()
    );

    if let Ok(header) = result {
        assert_eq!(
            header.block_height, 2,
            "Expected header height to be 2, got {}",
            header.block_height
        );
    }
}

#[test]
fn test_sync_with_indexer_download_failure() {
    // Arrange
    let first_block_hash = BurnchainHeaderHash::zero();
    let first_block_height = 0;
    let burnchain = Burnchain::default_unittest(first_block_height, &first_block_hash);
    let mut indexer = three_block_indexer();
    // every download attempt fails at once, starting with the first block
    indexer.fail_download_at_height = Some(0);
    let mut channels = CountingCoordinator::new();
    let should_keep_running = FixedKeepRunning { value: true };

    // Act
    let result = burnchain.sync_with_indexer(
        &mut indexer,
        &mut channels,
        Some(2), // Target height
        None,    // Max blocks
        Some(&should_keep_running),
    );

    // Assert
    assert!(result.is_err(), "Expected sync to fail but it succeeded");

    if let Err(e) = result {
        assert!(
            matches!(e, BurnchainError::DownloadError),
            "Expected DownloadError, got {:?}",
            e
        );
    }
}

// Test the error precedence with multiple stage failures
#[test]
fn test_sync_with_indexer_error_precedence() {
    // Setup test cases with different error combinations
    let test_cases = [
        // Only download fails - should report download error
        TestErrorConfig {
            download_error: true,
            parse_error: false,
            db_error: false,
        },
        // Only parse fails - should report parse error
        TestErrorConfig {
            download_error: false,
            parse_error: true,
            db_error: false,
        },
        // Only DB fails - should report DB error
        TestErrorConfig {
            download_error: false,
            parse_error: false,
            db_error: true,
        },
        // Both download and parse fail - should report download error first
        TestErrorConfig {
            download_error: true,
            parse_error: true,
            db_error: false,
        },
        // All threads fail - should report download error first
        TestErrorConfig {
            download_error: true,
            parse_error: true,
            db_error: true,
        },
    ];

    for test_config in test_cases {
        run_error_precedence_test(test_config);
    }
}

fn run_error_precedence_test(test_config: TestErrorConfig) {
    // Prepare burnchain instance
    let first_block_hash = BurnchainHeaderHash::zero();
    let first_block_height = 0;
    let burnchain = Burnchain::default_unittest(first_block_height, &first_block_hash);

    let mut indexer = three_block_indexer();
    if test_config.download_error {
        indexer.fail_download_at_height = Some(0);
    }
    if test_config.parse_error {
        indexer.fail_parse_at_height = Some(0);
    }
    // The db flag mirrors the commit stage's own result; committing the
    // canned blocks succeeds, so a db-only configuration syncs cleanly.

    let mut channels = CountingCoordinator::new();
    let should_keep_running = FixedKeepRunning { value: true };

    // Act
    let result = burnchain.sync_with_indexer(
        &mut indexer,
        &mut channels,
        Some(2), // Target height
        None,    // Max blocks
        Some(&should_keep_running),
    );

    // Assert
    if test_config.db_error && !test_config.download_error && !test_config.parse_error {
        assert!(result.is_ok(), "Expected sync to succeed but it failed");
    } else {
        assert!(result.is_err(), "Expected sync to fail but it succeeded");

        if let Err(e) = result {
            match e {
                BurnchainError::DownloadError => assert!(test_config.download_error),
                BurnchainError::ParseError => assert!(test_config.parse_error),
                BurnchainError::ThreadChannelError => {
                    // ThreadChannelError can occur in any threading scenario
                    assert!(
                        test_config.db_error
                            || test_config.download_error
                            || test_config.parse_error
                    );
                }
                _ => panic!("Unexpected error: {:?}", e),
            }
        }
    }
}

#[test]
fn test_sync_commit_order() {
    // Three headers, no failures, target 2: exactly three commits, one per
    // height, in ascending order, and one coordinator signal per commit.
    let burnchain = Burnchain::default_unittest(0, &BurnchainHeaderHash::zero());
    let mut indexer = three_block_indexer();
    let mut channels = CountingCoordinator::new();
    let flag = FixedKeepRunning { value: true };

    let result =
        burnchain.sync_with_indexer(&mut indexer, &mut channels, Some(2), None, Some(&flag));

    assert!(result.is_ok());
    assert_eq!(result.unwrap().block_height, 2);
    assert_eq!(indexer.processed_heights(), vec![0, 1, 2]);
    assert_eq!(channels.count, 3);
}

#[test]
fn test_sync_empty_range_idempotent() {
    // A second round with the same target the first one reached commits
    // nothing, signals nothing, and returns the unchanged tip.
    let burnchain = Burnchain::default_unittest(0, &BurnchainHeaderHash::zero());
    let mut indexer = three_block_indexer();
    let mut channels = CountingCoordinator::new();
    let flag = FixedKeepRunning { value: true };

    let first = burnchain.sync_with_indexer(&mut indexer, &mut channels, Some(2), None, Some(&flag));
    assert_eq!(first.unwrap().block_height, 2);
    assert_eq!(channels.count, 3);

    let second =
        burnchain.sync_with_indexer(&mut indexer, &mut channels, Some(2), None, Some(&flag));
    assert!(second.is_ok());
    assert_eq!(second.unwrap().block_height, 2);
    assert_eq!(indexer.processed_heights(), vec![0, 1, 2]);
    assert_eq!(channels.count, 3);
}

#[test]
fn test_download_failure_boundary() {
    // A download failure at height 2 leaves exactly heights 0 and 1
    // committed, and the round reports the download error.
    let burnchain = Burnchain::default_unittest(0, &BurnchainHeaderHash::zero());
    let mut indexer = three_block_indexer();
    indexer.fail_download_at_height = Some(2);
    let mut channels = CountingCoordinator::new();
    let flag = FixedKeepRunning { value: true };

    let result =
        burnchain.sync_with_indexer(&mut indexer, &mut channels, Some(2), None, Some(&flag));

    assert!(matches!(result, Err(BurnchainError::DownloadError)));
    assert_eq!(indexer.processed_heights(), vec![0, 1]);
    assert_eq!(channels.count, 2);
}

#[test]
fn test_parse_failure_keeps_prefix() {
    let burnchain = Burnchain::default_unittest(0, &BurnchainHeaderHash::zero());
    let mut indexer = three_block_indexer();
    indexer.fail_parse_at_height = Some(1);
    let mut channels = CountingCoordinator::new();
    let flag = FixedKeepRunning { value: true };

    let result =
        burnchain.sync_with_indexer(&mut indexer, &mut channels, Some(2), None, Some(&flag));

    assert!(matches!(result, Err(BurnchainError::ParseError)));
    assert_eq!(indexer.processed_heights(), vec![0]);
}

#[test]
fn test_db_failure_keeps_prefix() {
    let burnchain = Burnchain::default_unittest(0, &BurnchainHeaderHash::zero());
    let mut indexer = three_block_indexer();
    indexer.fail_process_at_height = Some(1);
    let mut channels = CountingCoordinator::new();
    let flag = FixedKeepRunning { value: true };

    let result =
        burnchain.sync_with_indexer(&mut indexer, &mut channels, Some(2), None, Some(&flag));

    assert!(matches!(result, Err(BurnchainError::DBError)));
    assert_eq!(indexer.processed_heights(), vec![0]);
    assert_eq!(channels.count, 1);
}

#[test]
fn test_sync_headers_failure() {
    let burnchain = Burnchain::default_unittest(0, &BurnchainHeaderHash::zero());
    let mut indexer = three_block_indexer();
    indexer.fail_sync_headers = true;
    let mut channels = CountingCoordinator::new();
    let flag = FixedKeepRunning { value: true };

    let result =
        burnchain.sync_with_indexer(&mut indexer, &mut channels, Some(2), None, Some(&flag));

    assert!(matches!(result, Err(BurnchainError::DownloadError)));
    assert_eq!(indexer.processed_heights(), Vec::<u64>::new());
}

#[test]
fn test_cancellation_stops_cleanly() {
    // A lowered flag stops the round before any block, with no error: the
    // tip is the chain's first block, since nothing was ever committed.
    let burnchain = Burnchain::default_unittest(0, &BurnchainHeaderHash::zero());
    let mut indexer = three_block_indexer();
    let mut channels = CountingCoordinator::new();
    let flag = FixedKeepRunning { value: false };

    let result =
        burnchain.sync_with_indexer(&mut indexer, &mut channels, Some(2), None, Some(&flag));

    assert!(result.is_ok());
    assert_eq!(result.unwrap().block_height, 0);
    assert_eq!(indexer.processed_heights(), Vec::<u64>::new());
    assert_eq!(channels.count, 0);
}

#[test]
fn test_coordinator_closed_ends_round() {
    // The first committed block finds the coordinator gone: the round
    // ends with CoordinatorClosed, the commit itself is retained.
    let burnchain = Burnchain::default_unittest(0, &BurnchainHeaderHash::zero());
    let mut indexer = three_block_indexer();
    let mut channels = CountingCoordinator::new_closed();
    let flag = FixedKeepRunning { value: true };

    let result =
        burnchain.sync_with_indexer(&mut indexer, &mut channels, Some(2), None, Some(&flag));

    assert!(matches!(result, Err(BurnchainError::CoordinatorClosed)));
    assert_eq!(indexer.processed_heights(), vec![0]);
    assert_eq!(channels.count, 0);
}

#[test]
fn test_max_blocks_bounds_round() {
    let burnchain = Burnchain::default_unittest(0, &BurnchainHeaderHash::zero());
    let mut indexer = three_block_indexer();
    let mut channels = CountingCoordinator::new();
    let flag = FixedKeepRunning { value: true };

    let result =
        burnchain.sync_with_indexer(&mut indexer, &mut channels, Some(2), Some(2), Some(&flag));

    assert!(result.is_ok());
    assert_eq!(result.unwrap().block_height, 1);
    assert_eq!(indexer.processed_heights(), vec![0, 1]);
}

#[test]
fn test_no_target_syncs_to_headers() {
    // With no target the round goes as far as the synced headers reach.
    let burnchain = Burnchain::default_unittest(0, &BurnchainHeaderHash::zero());
    let mut indexer = three_block_indexer();
    let mut channels = CountingCoordinator::new();
    let flag = FixedKeepRunning { value: true };

    let result =
        burnchain.sync_with_indexer(&mut indexer, &mut channels, None, None, Some(&flag));

    assert!(result.is_ok());
    assert_eq!(result.unwrap().block_height, 2);
    assert_eq!(indexer.processed_heights(), vec![0, 1, 2]);
}

#[test]
fn test_empty_header_store_commits_nothing() {
    // No raw headers at all: the round launches over nothing, commits
    // nothing, and returns the chain's first block as the tip.
    let burnchain = Burnchain::default_unittest(0, &BurnchainHeaderHash::zero());
    let mut indexer =
        MockBurnchainIndexer::new(0, BurnchainHeaderHash::zero(), Vec::new());
    let mut channels = CountingCoordinator::new();
    let flag = FixedKeepRunning { value: true };

    let result =
        burnchain.sync_with_indexer(&mut indexer, &mut channels, Some(2), None, Some(&flag));

    assert!(result.is_ok());
    assert_eq!(result.unwrap().block_height, 0);
    assert_eq!(indexer.processed_heights(), Vec::<u64>::new());
    assert_eq!(channels.count, 0);
}

#[test]
fn test_target_beyond_headers_stops_at_synced() {
    // A target above what the headers reach: the round ends at the
    // highest synced header.
    let burnchain = Burnchain::default_unittest(0, &BurnchainHeaderHash::zero());
    let mut indexer = three_block_indexer();
    let mut channels = CountingCoordinator::new();
    let flag = FixedKeepRunning { value: true };

    let result =
        burnchain.sync_with_indexer(&mut indexer, &mut channels, Some(10), None, Some(&flag));

    assert!(result.is_ok());
    assert_eq!(result.unwrap().block_height, 2);
    assert_eq!(indexer.processed_heights(), vec![0, 1, 2]);
}

#[test]
fn test_reorg_invalidates_and_reprocesses() {
    // A reorganization whose common ancestor is height 0 invalidates the
    // committed blocks above it; the next round re-commits heights 1 and 2.
    let burnchain = Burnchain::default_unittest(0, &BurnchainHeaderHash::zero());
    let mut indexer = three_block_indexer();
    let mut channels = CountingCoordinator::new();
    let flag = FixedKeepRunning { value: true };

    let first = burnchain.sync_with_indexer(&mut indexer, &mut channels, Some(2), None, Some(&flag));
    assert_eq!(first.unwrap().block_height, 2);

    indexer.reorg_ancestor = Some(0);
    let second =
        burnchain.sync_with_indexer(&mut indexer, &mut channels, Some(2), None, Some(&flag));
    assert!(second.is_ok());
    assert_eq!(second.unwrap().block_height, 2);
    assert_eq!(indexer.processed_heights(), vec![0, 1, 2, 1, 2]);
    assert_eq!(channels.count, 5);
}
