use podcore::mediators::cleaner::{
    beyond_cap, clean_rows, delete_podcast_feed_content_batch, CleanAction, Cleaner, ContentRow,
    RunResult, DELETE_LIMIT, PODCAST_FEED_CONTENT_LIMIT,
};

fn rows_for(podcast_id: i64, n: i64, first_id: i64) -> Vec<ContentRow> {
    (0..n)
        .map(|i| ContentRow { id: first_id + i, podcast_id, retrieved_at: 1000 + i })
        .collect()
}

#[test]
fn test_clean_podcast_feed_content() {
    let num_contents = 25;
    // + 1 for the one inserted with the original podcast
    let rows = rows_for(1, num_contents + 1, 1);
    assert_eq!(num_contents + 1, rows.len() as i64);

    let (left, num_cleaned) = clean_rows(rows, PODCAST_FEED_CONTENT_LIMIT, DELETE_LIMIT);

    // Expect to have cleaned all except the limit number of rows
    let expected_num_cleaned = num_contents + 1 - PODCAST_FEED_CONTENT_LIMIT as i64;
    assert_eq!(expected_num_cleaned, num_cleaned as i64);

    // Expect to have exactly the limit left
    assert_eq!(PODCAST_FEED_CONTENT_LIMIT, left.len());
}

#[test]
fn test_clean_whatever_the_batch_size() {
    for limit in [1usize, 2, 5, 15, 16, 17, 1000] {
        let (left, num_cleaned) = clean_rows(rows_for(1, 26, 1), 10, limit);
        assert_eq!(16, num_cleaned, "batch size {}", limit);
        assert_eq!(10, left.len(), "batch size {}", limit);
        // The ten most recent are kept, in their old order.
        assert_eq!(
            (17..=26).collect::<Vec<i64>>(),
            left.iter().map(|r| r.id).collect::<Vec<_>>()
        );
    }
}

#[test]
fn test_clean_batch_of_nothing() {
    let (left, num_cleaned) = clean_rows(rows_for(1, 26, 1), 10, 0);
    assert_eq!(0, num_cleaned);
    assert_eq!(26, left.len());
}

#[test]
fn test_clean_per_podcast() {
    let mut rows = rows_for(1, 12, 1);
    rows.extend(rows_for(2, 3, 100));
    rows.extend(rows_for(3, 11, 200));
    let (left, num_cleaned) = clean_rows(rows, 10, 1000);
    assert_eq!(3, num_cleaned);
    assert_eq!(10, left.iter().filter(|r| r.podcast_id == 1).count());
    assert_eq!(3, left.iter().filter(|r| r.podcast_id == 2).count());
    assert_eq!(10, left.iter().filter(|r| r.podcast_id == 3).count());
    assert!(left.iter().all(|r| r.id != 1 && r.id != 2 && r.id != 200));
}

#[test]
fn test_delete_batch() {
    let rows = rows_for(1, 5, 1);
    let (left, deleted) = delete_podcast_feed_content_batch(&rows, 2, 2);
    assert_eq!(2, deleted);
    // Rows 1, 2 and 3 are beyond the cap; the first two go.
    assert_eq!(vec![3, 4, 5], left.iter().map(|r| r.id).collect::<Vec<_>>());
    assert!(beyond_cap(&rows, rows[2], 2));
    assert!(!beyond_cap(&rows, rows[3], 2));
    // Equal times: the greater identifier counts as more recent.
    let tied = vec![
        ContentRow { id: 1, podcast_id: 1, retrieved_at: 5 },
        ContentRow { id: 2, podcast_id: 1, retrieved_at: 5 },
    ];
    assert!(beyond_cap(&tied, tied[0], 1));
    assert!(!beyond_cap(&tied, tied[1], 1));
}

#[test]
fn test_cleaner_control() {
    let mut cleaner = Cleaner::new();
    let batch = CleanAction::DeleteBatch { keep: 10, limit: 1000 };
    assert_eq!(batch, cleaner.run());
    assert_eq!(batch, cleaner.clean_podcast_feed_content(1000));
    assert_eq!(batch, cleaner.clean_podcast_feed_content(16));
    assert_eq!(
        CleanAction::Finish(RunResult {
            num_cleaned: 1016,
            num_podcast_feed_content_cleaned: 1016
        }),
        cleaner.clean_podcast_feed_content(0)
    );

    let mut full = Cleaner { num_cleaned: u64::MAX - 1 };
    assert_eq!(batch, full.clean_podcast_feed_content(5));
    assert_eq!(u64::MAX, full.num_cleaned);
}
