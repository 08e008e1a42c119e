use trawler_mysql::clock::Timestamp;
use trawler_mysql::query::{Counter, Key, Kind, Parent, Query, Sep, Target};
use trawler_mysql::request::{ShortId, Vote};
use trawler_mysql::score::{Double, INITIAL_CONFIDENCE_BITS, INITIAL_HOTNESS_BITS};
use trawler_mysql::statement::{Fetch, Figure, Shape, Statement, Value};

fn at() -> Timestamp {
    Timestamp { year: 2018, month: 3, day: 21, hour: 13, minute: 5, second: 59, nanosecond: 123456789 }
}

fn code(bytes: &[u8; 6]) -> ShortId {
    ShortId { bytes: *bytes }
}

fn check(
    query: Query,
    head: &str,
    figure: Option<Figure>,
    tail: &str,
    params: Vec<Value>,
    prepared: bool,
    fetch: Fetch,
) {
    let expected = Statement {
        head: String::from(head),
        figure,
        tail: String::from(tail),
        params,
        prepared,
        fetch,
    };
    assert_eq!(query.render(), expected);
}

#[test]
fn session_lookup_is_keyed_by_the_token() {
    check(
        Query::worded(Kind::SessionByToken, String::from("token7")),
        "SELECT users.* FROM users WHERE users.session_token = ? ORDER BY users.id ASC LIMIT 1",
        None,
        "",
        vec![Value::Text(String::from("token7"))],
        true,
        Fetch::Nothing,
    );
}

#[test]
fn profile_is_found_by_user_name() {
    check(
        Query::plain(Kind::UserByName { suffix: 42 }),
        "SELECT  `users`.* FROM `users` WHERE `users`.`username` = ? ORDER BY `users`.`id` ASC LIMIT 1",
        None,
        "",
        vec![Value::Text(String::from("user42"))],
        true,
        Fetch::First(Shape::Id),
    );
}

#[test]
fn favourite_tag_is_keyed_by_the_user() {
    check(
        Query::plain(Kind::FavouriteTag { user: 9 }),
        "SELECT  `tags`.* FROM `tags` INNER JOIN `taggings` ON `taggings`.`tag_id` = `tags`.`id` INNER JOIN `stories` ON `stories`.`id` = `taggings`.`story_id` WHERE `tags`.`inactive` = 0 AND `stories`.`user_id` = ? GROUP BY `tags`.`id` ORDER BY COUNT(*) desc LIMIT 1",
        None,
        "",
        vec![Value::Int(9)],
        true,
        Fetch::Nothing,
    );
}

#[test]
fn counter_of_submitted_stories_names_the_user() {
    check(
        Query::plain(Kind::Counter { user: 9, which: Counter::StoriesSubmitted }),
        "SELECT  `keystores`.* FROM `keystores` WHERE `keystores`.`key` = 'user:9:stories_submitted' ORDER BY `keystores`.`key` ASC LIMIT 1",
        None,
        "",
        vec![],
        false,
        Fetch::Nothing,
    );
}

#[test]
fn counter_of_posted_comments_names_the_user() {
    check(
        Query::plain(Kind::Counter { user: 1050, which: Counter::CommentsPosted }),
        "SELECT  `keystores`.* FROM `keystores` WHERE `keystores`.`key` = 'user:1050:comments_posted' ORDER BY `keystores`.`key` ASC LIMIT 1",
        None,
        "",
        vec![],
        false,
        Fetch::Nothing,
    );
}

#[test]
fn hat_check_is_keyed_by_the_user() {
    check(
        Query::plain(Kind::HatCheck { user: 9 }),
        "SELECT  1 AS one FROM `hats` WHERE `hats`.`user_id` = ? LIMIT 1",
        None,
        "",
        vec![Value::Int(9)],
        true,
        Fetch::Nothing,
    );
}

#[test]
fn tag_filters_name_the_user() {
    check(
        Query::plain(Kind::TagFilters { user: 3 }),
        "SELECT `tag_filters`.* FROM `tag_filters` WHERE `tag_filters`.`user_id` = 3",
        None,
        "",
        vec![],
        false,
        Fetch::All(Shape::TagId),
    );
}

#[test]
fn front_page_for_nobody_has_no_exclusions() {
    check(
        Query::plain(Kind::Frontpage { viewer: None }),
        "SELECT  `stories`.* FROM `stories` WHERE `stories`.`merged_story_id` IS NULL AND `stories`.`is_expired` = 0 AND ((CAST(upvotes AS signed) - CAST(downvotes AS signed)) >= 0) ORDER BY hotness LIMIT 26 OFFSET 0",
        None,
        "",
        vec![],
        false,
        Fetch::All(Shape::AuthorAndId),
    );
}

#[test]
fn front_page_for_a_viewer_leaves_out_hidden_stories() {
    check(
        Query::plain(Kind::Frontpage { viewer: Some(3) }),
        "SELECT  `stories`.* FROM `stories` WHERE `stories`.`merged_story_id` IS NULL AND `stories`.`is_expired` = 0 AND ((CAST(upvotes AS signed) - CAST(downvotes AS signed))>= 0) AND (`stories`.`id` NOT IN (SELECT `hidden_stories`.`story_id` FROM `hidden_stories` WHERE `hidden_stories`.`user_id` = 3))  ORDER BY hotness LIMIT 26 OFFSET 0",
        None,
        "",
        vec![],
        false,
        Fetch::All(Shape::AuthorAndId),
    );
}

#[test]
fn front_page_for_a_viewer_leaves_out_filtered_tags() {
    check(
        Query::over(Kind::Frontpage { viewer: Some(3) }, vec![5, 8]),
        "SELECT  `stories`.* FROM `stories` WHERE `stories`.`merged_story_id` IS NULL AND `stories`.`is_expired` = 0 AND ((CAST(upvotes AS signed) - CAST(downvotes AS signed))>= 0) AND (`stories`.`id` NOT IN (SELECT `hidden_stories`.`story_id` FROM `hidden_stories` WHERE `hidden_stories`.`user_id` = 3))  AND (`stories`.`id` NOT IN (SELECT `taggings`.`story_id` FROM `taggings` WHERE `taggings`.`tag_id` IN (5,8) ))  ORDER BY hotness LIMIT 26 OFFSET 0",
        None,
        "",
        vec![],
        false,
        Fetch::All(Shape::AuthorAndId),
    );
}

#[test]
fn recent_for_nobody_has_no_exclusions() {
    check(
        Query::plain(Kind::Recent { viewer: None }),
        "SELECT `stories`.`id`, `stories`.`upvotes`, `stories`.`downvotes`, `stories`.`user_id` FROM `stories` WHERE `stories`.`merged_story_id` IS NULL AND `stories`.`is_expired` = 0 AND CAST(upvotes AS signed) - CAST(downvotes AS signed) <= 5 ORDER BY stories.id DESC LIMIT 25",
        None,
        "",
        vec![],
        false,
        Fetch::All(Shape::Id),
    );
}

#[test]
fn recent_for_a_viewer_leaves_out_hidden_stories() {
    check(
        Query::plain(Kind::Recent { viewer: Some(3) }),
        "SELECT `stories`.`id`, `stories`.`upvotes`, `stories`.`downvotes`, `stories`.`user_id` FROM `stories` WHERE `stories`.`merged_story_id` IS NULL AND `stories`.`is_expired` = 0 AND CAST(upvotes AS signed) - CAST(downvotes AS signed) <= 5 AND (`stories`.`id` NOT IN (SELECT `hidden_stories`.`story_id` FROM `hidden_stories` WHERE `hidden_stories`.`user_id` = 3))  ORDER BY stories.id DESC LIMIT 25",
        None,
        "",
        vec![],
        false,
        Fetch::All(Shape::Id),
    );
}

#[test]
fn recent_for_a_viewer_leaves_out_filtered_tags() {
    check(
        Query::over(Kind::Recent { viewer: Some(3) }, vec![5, 8, 13]),
        "SELECT `stories`.`id`, `stories`.`upvotes`, `stories`.`downvotes`, `stories`.`user_id` FROM `stories` WHERE `stories`.`merged_story_id` IS NULL AND `stories`.`is_expired` = 0 AND CAST(upvotes AS signed) - CAST(downvotes AS signed) <= 5 AND (`stories`.`id` NOT IN (SELECT `hidden_stories`.`story_id` FROM `hidden_stories` WHERE `hidden_stories`.`user_id` = 3))  AND (`stories`.`id` NOT IN (SELECT `taggings`.`story_id` FROM `taggings` WHERE `taggings`.`tag_id` IN (5,8,13) ))  ORDER BY stories.id DESC LIMIT 25",
        None,
        "",
        vec![],
        false,
        Fetch::All(Shape::Id),
    );
}

#[test]
fn stories_are_loaded_by_id_list() {
    check(
        Query::over(Kind::StoriesIn, vec![1, 2]),
        "SELECT  `stories`.* FROM `stories` WHERE `stories`.`id` IN (1,2)",
        None,
        "",
        vec![],
        false,
        Fetch::All(Shape::AuthorAndId),
    );
}

#[test]
fn users_are_loaded_by_tight_id_list() {
    check(
        Query::over(Kind::UsersIn { sep: Sep::Tight }, vec![4, 5, 6]),
        "SELECT `users`.* FROM `users` WHERE `users`.`id` IN (4,5,6)",
        None,
        "",
        vec![],
        false,
        Fetch::Nothing,
    );
}

#[test]
fn users_are_loaded_by_spaced_id_list() {
    check(
        Query::over(Kind::UsersIn { sep: Sep::Spaced }, vec![4, 5, 6]),
        "SELECT `users`.* FROM `users` WHERE `users`.`id` IN (4, 5, 6)",
        None,
        "",
        vec![],
        false,
        Fetch::Nothing,
    );
}

#[test]
fn authors_are_loaded_by_id_list() {
    check(
        Query::over(Kind::AuthorsIn, vec![4, 5]),
        "SELECT  `users`.* FROM `users` WHERE `users`.`id` IN (4,5)",
        None,
        "",
        vec![],
        false,
        Fetch::Nothing,
    );
}

#[test]
fn an_empty_id_list_is_written_as_it_is() {
    check(
        Query::over(Kind::AuthorsIn, vec![]),
        "SELECT  `users`.* FROM `users` WHERE `users`.`id` IN ()",
        None,
        "",
        vec![],
        false,
        Fetch::Nothing,
    );
}

#[test]
fn suggested_titles_are_loaded_by_story_list() {
    check(
        Query::over(Kind::SuggestedTitlesIn, vec![1, 2]),
        "SELECT `suggested_titles`.* FROM `suggested_titles` WHERE `suggested_titles`.`story_id` IN (1,2)",
        None,
        "",
        vec![],
        false,
        Fetch::Nothing,
    );
}

#[test]
fn suggested_taggings_are_loaded_by_story_list() {
    check(
        Query::over(Kind::SuggestedTaggingsIn, vec![1, 2]),
        "SELECT `suggested_taggings`.* FROM `suggested_taggings` WHERE `suggested_taggings`.`story_id` IN (1,2)",
        None,
        "",
        vec![],
        false,
        Fetch::Nothing,
    );
}

#[test]
fn taggings_are_loaded_by_story_list() {
    check(
        Query::over(Kind::TaggingsIn, vec![1, 2]),
        "SELECT `taggings`.* FROM `taggings` WHERE `taggings`.`story_id` IN (1,2)",
        None,
        "",
        vec![],
        false,
        Fetch::All(Shape::TagId),
    );
}

#[test]
fn tags_are_loaded_by_tight_id_list() {
    check(
        Query::over(Kind::TagsIn { sep: Sep::Tight }, vec![7, 8]),
        "SELECT `tags`.* FROM `tags` WHERE `tags`.`id` IN (7,8)",
        None,
        "",
        vec![],
        false,
        Fetch::Nothing,
    );
}

#[test]
fn tags_are_loaded_by_spaced_id_list() {
    check(
        Query::over(Kind::TagsIn { sep: Sep::Spaced }, vec![7, 8]),
        "SELECT `tags`.* FROM `tags` WHERE `tags`.`id` IN (7, 8)",
        None,
        "",
        vec![],
        false,
        Fetch::Nothing,
    );
}

#[test]
fn votes_on_listed_stories_name_the_viewer() {
    check(
        Query::over(Kind::VotesOnStories { user: 3 }, vec![1, 2]),
        "SELECT `votes`.* FROM `votes` WHERE `votes`.`user_id` = 3 AND `votes`.`story_id` IN (1,2) AND `votes`.`comment_id` IS NULL",
        None,
        "",
        vec![],
        false,
        Fetch::Nothing,
    );
}

#[test]
fn hidden_among_listed_stories_names_the_viewer() {
    check(
        Query::over(Kind::HiddenAmong { user: 3 }, vec![1, 2]),
        "SELECT `hidden_stories`.* FROM `hidden_stories` WHERE `hidden_stories`.`user_id` = 3 AND `hidden_stories`.`story_id` IN (1,2)",
        None,
        "",
        vec![],
        false,
        Fetch::Nothing,
    );
}

#[test]
fn saved_among_listed_stories_names_the_viewer() {
    check(
        Query::over(Kind::SavedAmong { user: 3 }, vec![1, 2]),
        "SELECT `saved_stories`.* FROM `saved_stories` WHERE `saved_stories`.`user_id` = 3 AND `saved_stories`.`story_id` IN (1,2)",
        None,
        "",
        vec![],
        false,
        Fetch::Nothing,
    );
}

#[test]
fn latest_comments_for_nobody_have_no_exclusions() {
    check(
        Query::plain(Kind::LatestComments { viewer: None }),
        "SELECT  `comments`.* FROM `comments` WHERE `comments`.`is_deleted` = 0 AND `comments`.`is_moderated` = 0  ORDER BY id DESC LIMIT 20 OFFSET 0",
        None,
        "",
        vec![],
        false,
        Fetch::All(Shape::CommentKeys),
    );
}

#[test]
fn latest_comments_for_a_viewer_leave_out_hidden_stories() {
    check(
        Query::plain(Kind::LatestComments { viewer: Some(3) }),
        "SELECT  `comments`.* FROM `comments` WHERE `comments`.`is_deleted` = 0 AND `comments`.`is_moderated` = 0  AND (NOT EXISTS (SELECT 1 FROM hidden_stories WHERE user_id = 3 AND hidden_stories.story_id = comments.story_id))  ORDER BY id DESC LIMIT 20 OFFSET 0",
        None,
        "",
        vec![],
        false,
        Fetch::All(Shape::CommentKeys),
    );
}

#[test]
fn votes_on_listed_comments_name_the_viewer() {
    check(
        Query::over(Kind::VotesOnComments { user: 3 }, vec![10, 11]),
        "SELECT `votes`.* FROM `votes` WHERE `votes`.`user_id` = 3 AND `votes`.`comment_id` IN (10,11)",
        None,
        "",
        vec![],
        false,
        Fetch::Nothing,
    );
}

#[test]
fn login_checks_the_user_name() {
    check(
        Query::plain(Kind::UserExists { user: 8 }),
        "SELECT  1 as one FROM `users` WHERE `users`.`username` = ? ORDER BY `users`.`id` ASC LIMIT 1",
        None,
        "",
        vec![Value::Text(String::from("user8"))],
        true,
        Fetch::First(Shape::Presence),
    );
}

#[test]
fn new_user_gets_derived_name_address_and_tokens() {
    check(
        Query::plain(Kind::InsertUser { user: 8, at: at() }),
        "INSERT INTO `users` (`username`, `email`, `password_digest`, `created_at`, `session_token`, `rss_token`, `mailing_list_token`) VALUES (?, ?, ?, ?, ?, ?, ?)",
        None,
        "",
        vec![Value::Text(String::from("user8")), Value::Text(String::from("user8@example.com")), Value::Text(String::from("$2a$10$Tq3wrGeC0xtgzuxqOlc3v.07VTUvxvwI70kuoVihoO2cE5qj7ooka")), Value::Date(at()), Value::Text(String::from("token8")), Value::Text(String::from("rsstoken8")), Value::Text(String::from("mtok8"))],
        true,
        Fetch::Nothing,
    );
}

#[test]
fn story_is_found_by_short_id() {
    check(
        Query::plain(Kind::StoryByShortId { id: code(b"abc123") }),
        "SELECT `stories`.* FROM `stories` WHERE `stories`.`short_id` = ? ORDER BY `stories`.`id` ASC LIMIT 1",
        None,
        "",
        vec![Value::Bytes(b"abc123".to_vec())],
        true,
        Fetch::First(Shape::Story),
    );
}

#[test]
fn user_is_loaded_by_id() {
    check(
        Query::plain(Kind::UserById { user: 8 }),
        "SELECT `users`.* FROM `users` WHERE `users`.`id` = ? LIMIT 1",
        None,
        "",
        vec![Value::Int(8)],
        true,
        Fetch::Nothing,
    );
}

#[test]
fn ribbon_is_looked_up_by_user_and_story() {
    check(
        Query::plain(Kind::Ribbon { user: 8, story: 21 }),
        "SELECT  `read_ribbons`.* FROM `read_ribbons` WHERE `read_ribbons`.`user_id` = 8 AND `read_ribbons`.`story_id` = 21 ORDER BY `read_ribbons`.`id` ASC LIMIT 1",
        None,
        "",
        vec![],
        false,
        Fetch::First(Shape::Id),
    );
}

#[test]
fn new_ribbon_is_stamped_twice() {
    check(
        Query::plain(Kind::InsertRibbon { user: 8, story: 21, at: at() }),
        "INSERT INTO `read_ribbons` (`created_at`, `updated_at`, `user_id`, `story_id`) VALUES (?, ?, ?, ?)",
        None,
        "",
        vec![Value::Date(at()), Value::Date(at()), Value::Int(8), Value::Int(21)],
        true,
        Fetch::Nothing,
    );
}

#[test]
fn seen_ribbon_is_stamped_by_id() {
    check(
        Query::plain(Kind::TouchRibbon { ribbon: 77, at: at() }),
        "UPDATE `read_ribbons` SET `read_ribbons`.`updated_at` = ? WHERE `read_ribbons`.`id` = ?",
        None,
        "",
        vec![Value::Date(at()), Value::Int(77)],
        true,
        Fetch::Nothing,
    );
}

#[test]
fn merged_stories_are_keyed_by_the_story() {
    check(
        Query::plain(Kind::MergedInto { story: 21 }),
        "SELECT `stories`.`id` FROM `stories` WHERE `stories`.`merged_story_id` = ?",
        None,
        "",
        vec![Value::Int(21)],
        true,
        Fetch::Nothing,
    );
}

#[test]
fn comments_of_a_story_come_in_display_order() {
    check(
        Query::plain(Kind::CommentsOf { story: 21 }),
        "SELECT `comments`.* FROM `comments` WHERE `comments`.`story_id` = ? ORDER BY (CAST(upvotes AS signed) - CAST(downvotes AS signed)) < 0 ASC, confidence DESC",
        None,
        "",
        vec![Value::Int(21)],
        true,
        Fetch::All(Shape::AuthorAndId),
    );
}

#[test]
fn votes_for_comments_are_loaded_by_spaced_id_list() {
    check(
        Query::over(Kind::VotesForComments, vec![10, 11]),
        "SELECT `votes`.* FROM `votes` WHERE `votes`.`comment_id` IN (10, 11)",
        None,
        "",
        vec![],
        false,
        Fetch::Nothing,
    );
}

#[test]
fn vote_on_story_names_viewer_and_story() {
    check(
        Query::plain(Kind::VoteOnStory { user: 8, story: 21 }),
        "SELECT `votes`.* FROM `votes` WHERE `votes`.`user_id` = 8 AND `votes`.`story_id` = 21 AND `votes`.`comment_id` IS NULL ORDER BY `votes`.`id` ASC LIMIT 1",
        None,
        "",
        vec![],
        false,
        Fetch::Nothing,
    );
}

#[test]
fn hidden_story_names_viewer_and_story() {
    check(
        Query::plain(Kind::HiddenStory { user: 8, story: 21 }),
        "SELECT `hidden_stories`.* FROM `hidden_stories` WHERE `hidden_stories`.`user_id` = 8 AND `hidden_stories`.`story_id` = 21 ORDER BY `hidden_stories`.`id` ASC LIMIT 1",
        None,
        "",
        vec![],
        false,
        Fetch::Nothing,
    );
}

#[test]
fn saved_story_names_viewer_and_story() {
    check(
        Query::plain(Kind::SavedStory { user: 8, story: 21 }),
        "SELECT `saved_stories`.* FROM `saved_stories` WHERE `saved_stories`.`user_id` = 8 AND `saved_stories`.`story_id` = 21 ORDER BY `saved_stories`.`id` ASC LIMIT 1",
        None,
        "",
        vec![],
        false,
        Fetch::Nothing,
    );
}

#[test]
fn taggings_of_a_story_are_keyed_by_the_story() {
    check(
        Query::plain(Kind::TaggingsOf { story: 21 }),
        "SELECT `taggings`.* FROM `taggings` WHERE `taggings`.`story_id` = ?",
        None,
        "",
        vec![Value::Int(21)],
        true,
        Fetch::All(Shape::TagId),
    );
}

#[test]
fn earlier_story_vote_is_looked_up() {
    check(
        Query::plain(Kind::VoteCheck { user: 8, story: Key::Read(21), comment: None }),
        "SELECT  `votes`.* FROM `votes` WHERE `votes`.`user_id` = ? AND `votes`.`story_id` = ? AND `votes`.`comment_id` IS NULL ORDER BY `votes`.`id` ASC LIMIT 1",
        None,
        "",
        vec![Value::Int(8), Value::Int(21)],
        true,
        Fetch::Nothing,
    );
}

#[test]
fn earlier_vote_on_a_fresh_story_is_looked_up_unsigned() {
    check(
        Query::plain(Kind::VoteCheck { user: 8, story: Key::Fresh(21), comment: None }),
        "SELECT  `votes`.* FROM `votes` WHERE `votes`.`user_id` = ? AND `votes`.`story_id` = ? AND `votes`.`comment_id` IS NULL ORDER BY `votes`.`id` ASC LIMIT 1",
        None,
        "",
        vec![Value::Int(8), Value::UInt(21)],
        true,
        Fetch::Nothing,
    );
}

#[test]
fn earlier_comment_vote_is_looked_up() {
    check(
        Query::plain(Kind::VoteCheck { user: 8, story: Key::Read(21), comment: Some(Key::Read(10)) }),
        "SELECT  `votes`.* FROM `votes` WHERE `votes`.`user_id` = ? AND `votes`.`story_id` = ? AND `votes`.`comment_id` = ? ORDER BY `votes`.`id` ASC LIMIT 1",
        None,
        "",
        vec![Value::Int(8), Value::Int(21), Value::Int(10)],
        true,
        Fetch::Nothing,
    );
}

#[test]
fn earlier_vote_on_a_fresh_comment_is_looked_up_unsigned() {
    check(
        Query::plain(Kind::VoteCheck { user: 8, story: Key::Read(21), comment: Some(Key::Fresh(10)) }),
        "SELECT  `votes`.* FROM `votes` WHERE `votes`.`user_id` = ? AND `votes`.`story_id` = ? AND `votes`.`comment_id` = ? ORDER BY `votes`.`id` ASC LIMIT 1",
        None,
        "",
        vec![Value::Int(8), Value::Int(21), Value::UInt(10)],
        true,
        Fetch::Nothing,
    );
}

#[test]
fn story_upvote_is_stored_as_one() {
    check(
        Query::plain(Kind::InsertVote { user: 8, story: 21, comment: None, vote: Vote::Up }),
        "INSERT INTO `votes` (`user_id`, `story_id`, `vote`) VALUES (?, ?, ?)",
        None,
        "",
        vec![Value::Int(8), Value::Int(21), Value::Int(1)],
        true,
        Fetch::Nothing,
    );
}

#[test]
fn story_downvote_is_stored_as_zero() {
    check(
        Query::plain(Kind::InsertVote { user: 8, story: 21, comment: None, vote: Vote::Down }),
        "INSERT INTO `votes` (`user_id`, `story_id`, `vote`) VALUES (?, ?, ?)",
        None,
        "",
        vec![Value::Int(8), Value::Int(21), Value::Int(0)],
        true,
        Fetch::Nothing,
    );
}

#[test]
fn comment_upvote_is_stored_as_one() {
    check(
        Query::plain(Kind::InsertVote { user: 8, story: 21, comment: Some(10), vote: Vote::Up }),
        "INSERT INTO `votes` (`user_id`, `story_id`, `comment_id`, `vote`) VALUES (?, ?, ?, ?)",
        None,
        "",
        vec![Value::Int(8), Value::Int(21), Value::Int(10), Value::Int(1)],
        true,
        Fetch::Nothing,
    );
}

#[test]
fn comment_downvote_is_stored_as_zero() {
    check(
        Query::plain(Kind::InsertVote { user: 8, story: 21, comment: Some(10), vote: Vote::Down }),
        "INSERT INTO `votes` (`user_id`, `story_id`, `comment_id`, `vote`) VALUES (?, ?, ?, ?)",
        None,
        "",
        vec![Value::Int(8), Value::Int(21), Value::Int(10), Value::Int(0)],
        true,
        Fetch::Nothing,
    );
}

#[test]
fn story_upvote_adds_one_to_karma() {
    check(
        Query::plain(Kind::Karma { author: 5, vote: Vote::Up, target: Target::Story }),
        "UPDATE `users` SET `karma` = `karma` + 1 WHERE `users`.`id` = ?",
        None,
        "",
        vec![Value::Int(5)],
        true,
        Fetch::Nothing,
    );
}

#[test]
fn story_downvote_takes_one_from_karma() {
    check(
        Query::plain(Kind::Karma { author: 5, vote: Vote::Down, target: Target::Story }),
        "UPDATE `users` SET `karma` = `karma` - 1 WHERE `users`.`id` = ?",
        None,
        "",
        vec![Value::Int(5)],
        true,
        Fetch::Nothing,
    );
}

#[test]
fn comment_upvote_adds_one_to_karma() {
    check(
        Query::plain(Kind::Karma { author: 5, vote: Vote::Up, target: Target::Comment }),
        "UPDATE `users` SET `karma` = `karma` + 1 WHERE `id` = ?",
        None,
        "",
        vec![Value::Int(5)],
        true,
        Fetch::Nothing,
    );
}

#[test]
fn comment_downvote_takes_one_from_karma() {
    check(
        Query::plain(Kind::Karma { author: 5, vote: Vote::Down, target: Target::Comment }),
        "UPDATE `users` SET `karma` = `karma` - 1 WHERE `id` = ?",
        None,
        "",
        vec![Value::Int(5)],
        true,
        Fetch::Nothing,
    );
}

#[test]
fn tags_of_a_story_are_keyed_by_the_story() {
    check(
        Query::plain(Kind::TagsOf { story: 21 }),
        "SELECT `tags`.* FROM `tags` INNER JOIN `taggings` ON `tags`.`id` = `taggings`.`tag_id` WHERE `taggings`.`story_id` = ?",
        None,
        "",
        vec![Value::Int(21)],
        true,
        Fetch::Nothing,
    );
}

#[test]
fn comment_votes_leave_out_the_author() {
    check(
        Query::plain(Kind::CommentVotesOf { story: 21, except: 5 }),
        "SELECT `comments`.`upvotes`, `comments`.`downvotes` FROM `comments` WHERE `comments`.`story_id` = ? AND user_id <> ?",
        None,
        "",
        vec![Value::Int(21), Value::Int(5)],
        true,
        Fetch::Nothing,
    );
}

#[test]
fn story_tally_after_an_upvote() {
    check(
        Query::scored(Kind::TallyStory { story: 21, vote: Vote::Up }, Double { bits: 77 }),
        "UPDATE stories SET upvotes = COALESCE(upvotes, 0) + 1, downvotes = COALESCE(downvotes, 0) + 0, hotness = '",
        Some(Figure::Moved { base: Double { bits: 77 }, by: 1 }),
        "' WHERE id = ?",
        vec![Value::Int(21)],
        true,
        Fetch::Nothing,
    );
}

#[test]
fn story_tally_after_a_downvote() {
    check(
        Query::scored(Kind::TallyStory { story: 21, vote: Vote::Down }, Double { bits: 77 }),
        "UPDATE stories SET upvotes = COALESCE(upvotes, 0) + 0, downvotes = COALESCE(downvotes, 0) + 1, hotness = '",
        Some(Figure::Moved { base: Double { bits: 77 }, by: -1 }),
        "' WHERE id = ?",
        vec![Value::Int(21)],
        true,
        Fetch::Nothing,
    );
}

#[test]
fn comment_is_found_by_short_id() {
    check(
        Query::plain(Kind::CommentByShortId { id: code(b"cmt001") }),
        "SELECT `comments`.* FROM `comments` WHERE `comments`.`short_id` = ? ORDER BY `comments`.`id` ASC LIMIT 1",
        None,
        "",
        vec![Value::Bytes(b"cmt001".to_vec())],
        true,
        Fetch::First(Shape::CommentTally),
    );
}

#[test]
fn comment_tally_after_an_upvote() {
    check(
        Query::plain(Kind::TallyComment { comment: 10, vote: Vote::Up, upvotes: 3, downvotes: 1 }),
        "UPDATE `comments` SET `upvotes` = `upvotes` + 1, `downvotes` = `downvotes` + 0, `confidence` = ",
        Some(Figure::Share { upvotes: 4, downvotes: 1 }),
        "\n                                             WHERE `id` = ?",
        vec![Value::Int(10)],
        true,
        Fetch::Nothing,
    );
}

#[test]
fn comment_tally_after_a_downvote() {
    check(
        Query::plain(Kind::TallyComment { comment: 10, vote: Vote::Down, upvotes: 3, downvotes: 1 }),
        "UPDATE `comments` SET `upvotes` = `upvotes` + 0, `downvotes` = `downvotes` + 1, `confidence` = ",
        Some(Figure::Share { upvotes: 3, downvotes: 2 }),
        "\n                                             WHERE `id` = ?",
        vec![Value::Int(10)],
        true,
        Fetch::Nothing,
    );
}

#[test]
fn story_is_found_by_id() {
    check(
        Query::plain(Kind::StoryById { story: 21 }),
        "SELECT `stories`.* FROM `stories` WHERE `stories`.`id` = ? ORDER BY `stories`.`id` ASC LIMIT 1",
        None,
        "",
        vec![Value::Int(21)],
        true,
        Fetch::First(Shape::StoryScore),
    );
}

#[test]
fn seed_tag_is_the_active_test_tag() {
    check(
        Query::plain(Kind::SeedTag),
        "SELECT  `tags`.* FROM `tags` WHERE `tags`.`inactive` = 0 AND `tags`.`tag` IN ('test') ORDER BY `tags`.`id` ASC LIMIT 1",
        None,
        "",
        vec![],
        false,
        Fetch::First(Shape::Id),
    );
}

#[test]
fn story_short_id_is_checked() {
    check(
        Query::plain(Kind::StoryShortIdTaken { id: code(b"abc123") }),
        "SELECT  1 AS one FROM `stories` WHERE `stories`.`short_id` = ? LIMIT 1",
        None,
        "",
        vec![Value::Bytes(b"abc123".to_vec())],
        true,
        Fetch::Nothing,
    );
}

#[test]
fn new_story_gets_title_one_upvote_and_initial_hotness() {
    check(
        Query::worded(Kind::InsertStory { user: 8, id: code(b"abc123"), at: at() }, String::from("T")),
        "INSERT INTO `stories` (`created_at`, `user_id`, `title`, `description`, `short_id`, `upvotes`, `hotness`, `markeddown_description`) VALUES (?, ?, ?, ?, ?, ?, ?, ?)",
        None,
        "",
        vec![Value::Date(at()), Value::Int(8), Value::Text(String::from("T")), Value::Text(String::from("to infinity")), Value::Bytes(b"abc123".to_vec()), Value::Int(1), Value::Float(Double { bits: INITIAL_HOTNESS_BITS }), Value::Text(String::from("<p>to infinity</p>\n"))],
        true,
        Fetch::InsertId,
    );
}

#[test]
fn tagging_joins_fresh_story_and_tag() {
    check(
        Query::plain(Kind::InsertTagging { story: 4294967296, tag: 2 }),
        "INSERT INTO `taggings` (`story_id`, `tag_id`) VALUES (?, ?)",
        None,
        "",
        vec![Value::UInt(4294967296), Value::Int(2)],
        true,
        Fetch::Nothing,
    );
}

#[test]
fn counter_of_submitted_stories_is_bumped() {
    check(
        Query::plain(Kind::BumpCounter { user: 8, which: Counter::StoriesSubmitted }),
        "INSERT INTO keystores (`key`, `value`) VALUES ('user:8:stories_submitted', 1) ON DUPLICATE KEY UPDATE `value` = `value` + 1",
        None,
        "",
        vec![],
        false,
        Fetch::Nothing,
    );
}

#[test]
fn counter_of_posted_comments_is_bumped() {
    check(
        Query::plain(Kind::BumpCounter { user: 8, which: Counter::CommentsPosted }),
        "INSERT INTO keystores (`key`, `value`) VALUES ('user:8:comments_posted', 1) ON DUPLICATE KEY UPDATE `value` = `value` + 1",
        None,
        "",
        vec![],
        false,
        Fetch::Nothing,
    );
}

#[test]
fn own_vote_on_a_fresh_story() {
    check(
        Query::plain(Kind::InsertOwnVote { user: 8, story: Key::Fresh(21), comment: None }),
        "INSERT INTO `votes` (`user_id`, `story_id`, `vote`) VALUES (?, ?, 1)",
        None,
        "",
        vec![Value::Int(8), Value::UInt(21)],
        true,
        Fetch::Nothing,
    );
}

#[test]
fn own_vote_on_a_fresh_comment() {
    check(
        Query::plain(Kind::InsertOwnVote { user: 8, story: Key::Read(21), comment: Some(Key::Fresh(10)) }),
        "INSERT INTO `votes` (`user_id`, `story_id`, `comment_id`, `vote`) VALUES (?, ?, ?, 1)",
        None,
        "",
        vec![Value::Int(8), Value::Int(21), Value::UInt(10)],
        true,
        Fetch::Nothing,
    );
}

#[test]
fn comment_votes_of_a_fresh_story_leave_out_the_submitter() {
    check(
        Query::plain(Kind::CommentVotesOfOthers { story: 21, user: 8 }),
        "SELECT `comments`.`upvotes`, `comments`.`downvotes` FROM `comments` WHERE `comments`.`story_id` = ? AND (user_id <> ?)",
        None,
        "",
        vec![Value::UInt(21), Value::Int(8)],
        true,
        Fetch::Nothing,
    );
}

#[test]
fn fresh_story_settles_at_a_fixed_hotness() {
    check(
        Query::plain(Kind::SettleHotness { story: 21 }),
        "UPDATE `stories` SET `hotness` = -19216.5479744\n                                             WHERE `stories`.`id` = ?",
        None,
        "",
        vec![Value::UInt(21)],
        true,
        Fetch::Nothing,
    );
}

#[test]
fn parent_is_looked_up_within_the_story() {
    check(
        Query::plain(Kind::ParentComment { story: 21, id: code(b"cmt001") }),
        "SELECT  `comments`.* FROM `comments` WHERE `comments`.`story_id` = ? AND `comments`.`short_id` = ? ORDER BY `comments`.`id` ASC LIMIT 1",
        None,
        "",
        vec![Value::Int(21), Value::Bytes(b"cmt001".to_vec())],
        true,
        Fetch::First(Shape::Thread),
    );
}

#[test]
fn comment_short_id_is_checked() {
    check(
        Query::plain(Kind::CommentShortIdTaken { id: code(b"cmt002") }),
        "SELECT  1 AS one FROM `comments` WHERE `comments`.`short_id` = ? LIMIT 1",
        None,
        "",
        vec![Value::Bytes(b"cmt002".to_vec())],
        true,
        Fetch::Nothing,
    );
}

#[test]
fn new_top_level_comment_has_nine_values() {
    check(
        Query::plain(Kind::InsertComment { user: 8, story: 21, id: code(b"cmt002"), parent: None, at: at() }),
        "INSERT INTO `comments` (`created_at`, `updated_at`, `short_id`, `story_id`, `user_id`, `comment`, `upvotes`, `confidence`, `markeddown_comment`) VALUES (?, ?, ?, ?, ?, ?, ?, ?, ?)",
        None,
        "",
        vec![Value::Date(at()), Value::Date(at()), Value::Bytes(b"cmt002".to_vec()), Value::Int(21), Value::Int(8), Value::Text(String::from("moar benchmarking")), Value::Int(1), Value::Float(Double { bits: INITIAL_CONFIDENCE_BITS }), Value::Text(String::from("<p>moar benchmarking</p>\n"))],
        true,
        Fetch::InsertId,
    );
}

#[test]
fn new_reply_carries_parent_and_thread() {
    check(
        Query::plain(Kind::InsertComment { user: 8, story: 21, id: code(b"cmt002"), parent: Some(Parent { id: 10, thread: Some(6) }), at: at() }),
        "INSERT INTO `comments` (`created_at`, `updated_at`, `short_id`, `story_id`, `user_id`, `parent_comment_id`, `thread_id`, `comment`, `upvotes`, `confidence`, `markeddown_comment`) VALUES (?, ?, ?, ?, ?, ?, ?, ?, ?, ?, ?)",
        None,
        "",
        vec![Value::Date(at()), Value::Date(at()), Value::Bytes(b"cmt002".to_vec()), Value::Int(21), Value::Int(8), Value::Int(10), Value::Int(6), Value::Text(String::from("moar benchmarking")), Value::Int(1), Value::Float(Double { bits: INITIAL_CONFIDENCE_BITS }), Value::Text(String::from("<p>moar benchmarking</p>\n"))],
        true,
        Fetch::InsertId,
    );
}

#[test]
fn new_reply_to_a_threadless_parent_has_a_null_thread() {
    check(
        Query::plain(Kind::InsertComment { user: 8, story: 21, id: code(b"cmt002"), parent: Some(Parent { id: 10, thread: None }), at: at() }),
        "INSERT INTO `comments` (`created_at`, `updated_at`, `short_id`, `story_id`, `user_id`, `parent_comment_id`, `thread_id`, `comment`, `upvotes`, `confidence`, `markeddown_comment`) VALUES (?, ?, ?, ?, ?, ?, ?, ?, ?, ?, ?)",
        None,
        "",
        vec![Value::Date(at()), Value::Date(at()), Value::Bytes(b"cmt002".to_vec()), Value::Int(21), Value::Int(8), Value::Int(10), Value::Null, Value::Text(String::from("moar benchmarking")), Value::Int(1), Value::Float(Double { bits: INITIAL_CONFIDENCE_BITS }), Value::Text(String::from("<p>moar benchmarking</p>\n"))],
        true,
        Fetch::InsertId,
    );
}

#[test]
fn comments_are_counted_by_story() {
    check(
        Query::plain(Kind::CountComments { story: 21 }),
        "SELECT `comments`.* FROM `comments` WHERE `comments`.`story_id` = ? ORDER BY (upvotes - downvotes) < 0 ASC, confidence DESC",
        None,
        "",
        vec![Value::Int(21)],
        true,
        Fetch::Count,
    );
}

#[test]
fn comment_count_is_written_into_the_text() {
    check(
        Query::plain(Kind::SetCommentCount { story: 21, count: 12 }),
        "UPDATE `stories` SET `comments_count` = 12\n                                             WHERE `stories`.`id` = ?",
        None,
        "",
        vec![Value::Int(21)],
        true,
        Fetch::Nothing,
    );
}

#[test]
fn hotness_is_rewritten_as_read() {
    check(
        Query::scored(Kind::RewriteHotness { story: 21 }, Double { bits: 77 }),
        "UPDATE `stories` SET `hotness` = ",
        Some(Figure::Moved { base: Double { bits: 77 }, by: 0 }),
        "\n                                             WHERE `stories`.`id` = ?",
        vec![Value::Int(21)],
        true,
        Fetch::Nothing,
    );
}

#[test]
fn unread_replies_name_the_user() {
    check(
        Query::plain(Kind::UnreadReplies { user: 8 }),
        "SELECT COUNT(*) FROM `replying_comments` WHERE `replying_comments`.`user_id` = 8 AND `replying_comments`.`is_unread` = 1",
        None,
        "",
        vec![],
        false,
        Fetch::Nothing,
    );
}

#[test]
fn unread_messages_name_the_user() {
    check(
        Query::plain(Kind::UnreadMessages { user: 8 }),
        "SELECT `keystores`.* FROM `keystores` WHERE `keystores`.`key` = 'user:8:unread_messages' ORDER BY `keystores`.`key` ASC LIMIT 1",
        None,
        "",
        vec![],
        false,
        Fetch::Nothing,
    );
}

#[test]
fn first_vote_on_a_comment_gives_a_whole_share() {
    let first = Query::plain(Kind::TallyComment {
        comment: 10,
        vote: Vote::Down,
        upvotes: 0,
        downvotes: 0,
    });
    assert_eq!(first.render().figure, Some(Figure::Share { upvotes: 0, downvotes: 1 }));
    let full = Query::plain(Kind::TallyComment {
        comment: 10,
        vote: Vote::Up,
        upvotes: 4294967295,
        downvotes: 4294967295,
    });
    assert_eq!(
        full.render().figure,
        Some(Figure::Share { upvotes: 4294967296, downvotes: 4294967295 })
    );
}
