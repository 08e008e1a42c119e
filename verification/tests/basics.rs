use trawler_mysql::clock::Timestamp;
use trawler_mysql::ids::distinct_ids;
use trawler_mysql::model::SETTLED_HOTNESS_BITS;
use trawler_mysql::reply::{column_of, row_fits, rows_fit, Cell, Reply};
use trawler_mysql::request::{ShortId, Vote};
use trawler_mysql::score::{Double, INITIAL_CONFIDENCE_BITS, INITIAL_HOTNESS_BITS};
use trawler_mysql::sql::SUBMITTED_HOTNESS;
use trawler_mysql::statement::{Column, Holds, Shape};

#[test]
fn distinct_keeps_first_occurrences_in_order() {
    assert_eq!(distinct_ids(&vec![5, 6, 5, 7, 6, 5]), vec![5, 6, 7]);
    assert_eq!(distinct_ids(&vec![]), Vec::<u32>::new());
    assert_eq!(distinct_ids(&vec![9, 9, 9]), vec![9]);
    assert_eq!(distinct_ids(&vec![3, 2, 1]), vec![3, 2, 1]);
}

#[test]
fn score_constants_are_the_documented_numbers() {
    assert_eq!(f64::from_bits(INITIAL_HOTNESS_BITS), -19216.2884921);
    assert_eq!(f64::from_bits(INITIAL_CONFIDENCE_BITS), 0.1828847834138887);
    assert_eq!(f64::from_bits(SETTLED_HOTNESS_BITS), -19216.5479744);
    assert_eq!(format!("{}", f64::from_bits(SETTLED_HOTNESS_BITS)), SUBMITTED_HOTNESS);
}

#[test]
fn short_id_gives_its_six_bytes() {
    assert_eq!(ShortId { bytes: *b"abc123" }.to_vec(), b"abc123".to_vec());
}

#[test]
fn vote_direction() {
    assert!(Vote::Up.is_up());
    assert!(!Vote::Down.is_up());
}

#[test]
fn epoch_is_the_first_moment_of_year_one_thousand() {
    assert_eq!(
        Timestamp::epoch(),
        Timestamp { year: 1000, month: 1, day: 1, hour: 0, minute: 0, second: 0, nanosecond: 0 }
    );
}

#[test]
fn columns_have_schema_names_and_kinds() {
    assert_eq!(Column::Id.name(), "id");
    assert_eq!(Column::UserId.name(), "user_id");
    assert_eq!(Column::StoryId.name(), "story_id");
    assert_eq!(Column::TagId.name(), "tag_id");
    assert_eq!(Column::ThreadId.name(), "thread_id");
    assert_eq!(Column::Upvotes.name(), "upvotes");
    assert_eq!(Column::Downvotes.name(), "downvotes");
    assert_eq!(Column::Hotness.name(), "hotness");
    assert_eq!(Column::Id.holds(), Holds::Number);
    assert_eq!(Column::ThreadId.holds(), Holds::MaybeNumber);
    assert_eq!(Column::Hotness.holds(), Holds::Score);
}

#[test]
fn shapes_list_their_columns_in_order() {
    assert_eq!(Shape::Presence.columns(), vec![]);
    assert_eq!(Shape::Id.columns(), vec![Column::Id]);
    assert_eq!(Shape::TagId.columns(), vec![Column::TagId]);
    assert_eq!(Shape::AuthorAndId.columns(), vec![Column::UserId, Column::Id]);
    assert_eq!(Shape::CommentKeys.columns(), vec![Column::Id, Column::UserId, Column::StoryId]);
    assert_eq!(Shape::Story.columns(), vec![Column::UserId, Column::Id, Column::Hotness]);
    assert_eq!(
        Shape::CommentTally.columns(),
        vec![Column::UserId, Column::Id, Column::StoryId, Column::Upvotes, Column::Downvotes]
    );
    assert_eq!(Shape::StoryScore.columns(), vec![Column::UserId, Column::Hotness]);
    assert_eq!(Shape::Thread.columns(), vec![Column::Id, Column::ThreadId]);
}

#[test]
fn rows_fit_a_shape_cell_by_cell() {
    let score = Cell::Score(Double { bits: 1 });
    assert!(row_fits(Shape::Story, &vec![Cell::Number(1), Cell::Number(2), score]));
    assert!(!row_fits(Shape::Story, &vec![Cell::Number(1), Cell::Number(2), Cell::Number(3)]));
    assert!(!row_fits(Shape::Story, &vec![Cell::Number(1), Cell::Number(2)]));
    assert!(row_fits(Shape::Thread, &vec![Cell::Number(1), Cell::Null]));
    assert!(row_fits(Shape::Thread, &vec![Cell::Number(1), Cell::Number(2)]));
    assert!(!row_fits(Shape::Thread, &vec![Cell::Null, Cell::Number(2)]));
    assert!(row_fits(Shape::Presence, &vec![]));
    assert!(!row_fits(Shape::Presence, &vec![Cell::Null]));
    let good = vec![vec![Cell::Number(1), Cell::Number(2)], vec![Cell::Number(3), Cell::Number(4)]];
    assert!(rows_fit(Shape::AuthorAndId, &good));
    assert_eq!(column_of(&good, 0, Shape::AuthorAndId), vec![1, 3]);
    assert_eq!(column_of(&good, 1, Shape::AuthorAndId), vec![2, 4]);
    let bad = vec![vec![Cell::Number(1), Cell::Number(2)], vec![Cell::Number(3)]];
    assert!(!rows_fit(Shape::AuthorAndId, &bad));
    assert!(rows_fit(Shape::AuthorAndId, &vec![]));
}

#[test]
fn replies_are_taken_apart_only_as_what_they_are() {
    assert_eq!(Reply::Count(3).into_count(), Some(3));
    assert_eq!(Reply::Done.into_count(), None);
    assert_eq!(Reply::InsertId(Some(4)).into_insert_id(), Ok(Some(4)));
    assert_eq!(Reply::InsertId(None).into_insert_id(), Ok(None));
    assert_eq!(Reply::Count(4).into_insert_id(), Err(()));
    assert!(Reply::Done.is_done());
    assert!(!Reply::Count(0).is_done());
    assert_eq!(Reply::First(None).into_first(Shape::Id), Ok(None));
    assert_eq!(
        Reply::First(Some(vec![Cell::Number(1)])).into_first(Shape::Id),
        Ok(Some(vec![Cell::Number(1)]))
    );
    assert_eq!(Reply::First(Some(vec![Cell::Null])).into_first(Shape::Id), Err(()));
    assert_eq!(Reply::All(vec![]).into_first(Shape::Id), Err(()));
    assert_eq!(Reply::All(vec![vec![Cell::Number(1)]]).into_rows(Shape::Id), Ok(vec![vec![Cell::Number(1)]]));
    assert_eq!(Reply::First(None).into_rows(Shape::Id), Err(()));
}
