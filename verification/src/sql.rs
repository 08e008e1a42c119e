//! The text of every statement the library can issue, in the pieces between
//! which numbers and id lists are written.

use vstd::prelude::*;

verus! {

/// The user row that a session token belongs to.
pub const SESSION_BY_TOKEN: &'static str = "SELECT users.* FROM users WHERE users.session_token = ? ORDER BY users.id ASC LIMIT 1";

/// The user row of a user name.
pub const USER_BY_NAME: &'static str = "SELECT  `users`.* FROM `users` WHERE `users`.`username` = ? ORDER BY `users`.`id` ASC LIMIT 1";

/// The active tag that occurs most often on a user's stories.
pub const FAVOURITE_TAG: &'static str = "SELECT  `tags`.* FROM `tags` INNER JOIN `taggings` ON `taggings`.`tag_id` = `tags`.`id` INNER JOIN `stories` ON `stories`.`id` = `taggings`.`story_id` WHERE `tags`.`inactive` = 0 AND `stories`.`user_id` = ? GROUP BY `tags`.`id` ORDER BY COUNT(*) desc LIMIT 1";

/// One of a user's keystore counters.
pub const COUNTER_A: &'static str = "SELECT  `keystores`.* FROM `keystores` WHERE `keystores`.`key` = 'user:";

pub const COUNTER_B: &'static str = "' ORDER BY `keystores`.`key` ASC LIMIT 1";

/// Whether a user owns a hat.
pub const HAT_CHECK: &'static str = "SELECT  1 AS one FROM `hats` WHERE `hats`.`user_id` = ? LIMIT 1";

/// The tags a user has filtered out.
pub const TAG_FILTERS: &'static str = "SELECT `tag_filters`.* FROM `tag_filters` WHERE `tag_filters`.`user_id` = ";

/// The front page as a signed-in user sees it.
pub const FRONTPAGE_FOR_A: &'static str = "SELECT  `stories`.* FROM `stories` WHERE `stories`.`merged_story_id` IS NULL AND `stories`.`is_expired` = 0 AND ((CAST(upvotes AS signed) - CAST(downvotes AS signed))>= 0) AND (`stories`.`id` NOT IN (SELECT `hidden_stories`.`story_id` FROM `hidden_stories` WHERE `hidden_stories`.`user_id` = ";

pub const FRONTPAGE_FOR_B: &'static str = ")) ";

pub const FRONTPAGE_FOR_C: &'static str = " ORDER BY hotness LIMIT 26 OFFSET 0";

/// The clause that leaves out stories carrying filtered tags.
pub const WITHOUT_TAGS_A: &'static str = " AND (`stories`.`id` NOT IN (SELECT `taggings`.`story_id` FROM `taggings` WHERE `taggings`.`tag_id` IN (";

pub const WITHOUT_TAGS_B: &'static str = ") )) ";

/// The front page as an anonymous visitor sees it.
pub const FRONTPAGE: &'static str = "SELECT  `stories`.* FROM `stories` WHERE `stories`.`merged_story_id` IS NULL AND `stories`.`is_expired` = 0 AND ((CAST(upvotes AS signed) - CAST(downvotes AS signed)) >= 0) ORDER BY hotness LIMIT 26 OFFSET 0";

/// The user rows of a list of ids.
pub const USERS_IN_A: &'static str = "SELECT `users`.* FROM `users` WHERE `users`.`id` IN (";

pub const USERS_IN_B: &'static str = ")";

/// Title suggestions for a list of stories.
pub const SUGGESTED_TITLES_IN_A: &'static str = "SELECT `suggested_titles`.* FROM `suggested_titles` WHERE `suggested_titles`.`story_id` IN (";

pub const SUGGESTED_TITLES_IN_B: &'static str = ")";

/// Tag suggestions for a list of stories.
pub const SUGGESTED_TAGGINGS_IN_A: &'static str = "SELECT `suggested_taggings`.* FROM `suggested_taggings` WHERE `suggested_taggings`.`story_id` IN (";

pub const SUGGESTED_TAGGINGS_IN_B: &'static str = ")";

/// The taggings of a list of stories.
pub const TAGGINGS_IN_A: &'static str = "SELECT `taggings`.* FROM `taggings` WHERE `taggings`.`story_id` IN (";

pub const TAGGINGS_IN_B: &'static str = ")";

/// The tag rows of a list of ids.
pub const TAGS_IN_A: &'static str = "SELECT `tags`.* FROM `tags` WHERE `tags`.`id` IN (";

pub const TAGS_IN_B: &'static str = ")";

/// A user's votes on a list of stories.
pub const VOTES_ON_STORIES_A: &'static str = "SELECT `votes`.* FROM `votes` WHERE `votes`.`user_id` = ";

pub const VOTES_ON_STORIES_B: &'static str = " AND `votes`.`story_id` IN (";

pub const VOTES_ON_STORIES_C: &'static str = ") AND `votes`.`comment_id` IS NULL";

/// Which of a list of stories a user has hidden.
pub const HIDDEN_AMONG_A: &'static str = "SELECT `hidden_stories`.* FROM `hidden_stories` WHERE `hidden_stories`.`user_id` = ";

pub const HIDDEN_AMONG_B: &'static str = " AND `hidden_stories`.`story_id` IN (";

pub const HIDDEN_AMONG_C: &'static str = ")";

/// Which of a list of stories a user has saved.
pub const SAVED_AMONG_A: &'static str = "SELECT `saved_stories`.* FROM `saved_stories` WHERE `saved_stories`.`user_id` = ";

pub const SAVED_AMONG_B: &'static str = " AND `saved_stories`.`story_id` IN (";

pub const SAVED_AMONG_C: &'static str = ")";

/// The newest comments that are neither deleted nor moderated.
pub const LATEST_COMMENTS_A: &'static str = "SELECT  `comments`.* FROM `comments` WHERE `comments`.`is_deleted` = 0 AND `comments`.`is_moderated` = 0 ";

pub const LATEST_COMMENTS_B: &'static str = " ORDER BY id DESC LIMIT 20 OFFSET 0";

/// The clause that leaves out comments on stories the user has hidden.
pub const NOT_HIDDEN_A: &'static str = " AND (NOT EXISTS (SELECT 1 FROM hidden_stories WHERE user_id = ";

pub const NOT_HIDDEN_B: &'static str = " AND hidden_stories.story_id = comments.story_id)) ";

/// The story rows of a list of ids.
pub const STORIES_IN_A: &'static str = "SELECT  `stories`.* FROM `stories` WHERE `stories`.`id` IN (";

pub const STORIES_IN_B: &'static str = ")";

/// A user's votes on a list of comments.
pub const VOTES_ON_COMMENTS_A: &'static str = "SELECT `votes`.* FROM `votes` WHERE `votes`.`user_id` = ";

pub const VOTES_ON_COMMENTS_B: &'static str = " AND `votes`.`comment_id` IN (";

pub const VOTES_ON_COMMENTS_C: &'static str = ")";

/// The user rows of the authors of a list of stories.
pub const AUTHORS_IN_A: &'static str = "SELECT  `users`.* FROM `users` WHERE `users`.`id` IN (";

pub const AUTHORS_IN_B: &'static str = ")";

/// The newest stories whose score has not run away.
pub const RECENT: &'static str = "SELECT `stories`.`id`, `stories`.`upvotes`, `stories`.`downvotes`, `stories`.`user_id` FROM `stories` WHERE `stories`.`merged_story_id` IS NULL AND `stories`.`is_expired` = 0 AND CAST(upvotes AS signed) - CAST(downvotes AS signed) <= 5";

/// Order and page size of the recent listing.
pub const RECENT_ORDER: &'static str = "ORDER BY stories.id DESC LIMIT 25";

/// The clause that leaves out stories the user has hidden from the recent listing.
pub const RECENT_FOR_A: &'static str = " AND (`stories`.`id` NOT IN (SELECT `hidden_stories`.`story_id` FROM `hidden_stories` WHERE `hidden_stories`.`user_id` = ";

pub const RECENT_FOR_B: &'static str = ")) ";

/// Whether a user name is taken.
pub const USER_EXISTS: &'static str = "SELECT  1 as one FROM `users` WHERE `users`.`username` = ? ORDER BY `users`.`id` ASC LIMIT 1";

/// A new user row.
pub const INSERT_USER: &'static str = "INSERT INTO `users` (`username`, `email`, `password_digest`, `created_at`, `session_token`, `rss_token`, `mailing_list_token`) VALUES (?, ?, ?, ?, ?, ?, ?)";

/// The password digest every new user gets.
pub const PASSWORD_DIGEST: &'static str = "$2a$10$Tq3wrGeC0xtgzuxqOlc3v.07VTUvxvwI70kuoVihoO2cE5qj7ooka";

/// The story row of a short id.
pub const STORY_BY_SHORT_ID: &'static str = "SELECT `stories`.* FROM `stories` WHERE `stories`.`short_id` = ? ORDER BY `stories`.`id` ASC LIMIT 1";

/// The user row of an id.
pub const USER_BY_ID: &'static str = "SELECT `users`.* FROM `users` WHERE `users`.`id` = ? LIMIT 1";

/// A user's read ribbon on a story.
pub const RIBBON_A: &'static str = "SELECT  `read_ribbons`.* FROM `read_ribbons` WHERE `read_ribbons`.`user_id` = ";

pub const RIBBON_B: &'static str = " AND `read_ribbons`.`story_id` = ";

pub const RIBBON_C: &'static str = " ORDER BY `read_ribbons`.`id` ASC LIMIT 1";

/// A new read ribbon.
pub const INSERT_RIBBON: &'static str = "INSERT INTO `read_ribbons` (`created_at`, `updated_at`, `user_id`, `story_id`) VALUES (?, ?, ?, ?)";

/// A read ribbon seen again.
pub const TOUCH_RIBBON: &'static str = "UPDATE `read_ribbons` SET `read_ribbons`.`updated_at` = ? WHERE `read_ribbons`.`id` = ?";

/// The stories merged into a story.
pub const MERGED_INTO: &'static str = "SELECT `stories`.`id` FROM `stories` WHERE `stories`.`merged_story_id` = ?";

/// The comments of a story, in display order.
pub const COMMENTS_OF: &'static str = "SELECT `comments`.* FROM `comments` WHERE `comments`.`story_id` = ? ORDER BY (CAST(upvotes AS signed) - CAST(downvotes AS signed)) < 0 ASC, confidence DESC";

/// All votes on a list of comments.
pub const VOTES_FOR_COMMENTS_A: &'static str = "SELECT `votes`.* FROM `votes` WHERE `votes`.`comment_id` IN (";

pub const VOTES_FOR_COMMENTS_B: &'static str = ")";

/// A user's vote on one story.
pub const VOTE_ON_STORY_A: &'static str = "SELECT `votes`.* FROM `votes` WHERE `votes`.`user_id` = ";

pub const VOTE_ON_STORY_B: &'static str = " AND `votes`.`story_id` = ";

pub const VOTE_ON_STORY_C: &'static str = " AND `votes`.`comment_id` IS NULL ORDER BY `votes`.`id` ASC LIMIT 1";

/// Whether a user has hidden one story.
pub const HIDDEN_STORY_A: &'static str = "SELECT `hidden_stories`.* FROM `hidden_stories` WHERE `hidden_stories`.`user_id` = ";

pub const HIDDEN_STORY_B: &'static str = " AND `hidden_stories`.`story_id` = ";

pub const HIDDEN_STORY_C: &'static str = " ORDER BY `hidden_stories`.`id` ASC LIMIT 1";

/// Whether a user has saved one story.
pub const SAVED_STORY_A: &'static str = "SELECT `saved_stories`.* FROM `saved_stories` WHERE `saved_stories`.`user_id` = ";

pub const SAVED_STORY_B: &'static str = " AND `saved_stories`.`story_id` = ";

pub const SAVED_STORY_C: &'static str = " ORDER BY `saved_stories`.`id` ASC LIMIT 1";

/// The taggings of one story.
pub const TAGGINGS_OF: &'static str = "SELECT `taggings`.* FROM `taggings` WHERE `taggings`.`story_id` = ?";

/// A user's earlier vote on a story.
pub const STORY_VOTE_CHECK: &'static str = "SELECT  `votes`.* FROM `votes` WHERE `votes`.`user_id` = ? AND `votes`.`story_id` = ? AND `votes`.`comment_id` IS NULL ORDER BY `votes`.`id` ASC LIMIT 1";

/// A vote on a story.
pub const INSERT_STORY_VOTE: &'static str = "INSERT INTO `votes` (`user_id`, `story_id`, `vote`) VALUES (?, ?, ?)";

/// The karma of a story's author, moved by a vote.
pub const STORY_KARMA_A: &'static str = "UPDATE `users` SET `karma` = `karma` ";

pub const STORY_KARMA_B: &'static str = " WHERE `users`.`id` = ?";

/// The tags of one story.
pub const TAGS_OF: &'static str = "SELECT `tags`.* FROM `tags` INNER JOIN `taggings` ON `tags`.`id` = `taggings`.`tag_id` WHERE `taggings`.`story_id` = ?";

/// The vote counts of a story's comments by others than its author.
pub const COMMENT_VOTES_OF: &'static str = "SELECT `comments`.`upvotes`, `comments`.`downvotes` FROM `comments` WHERE `comments`.`story_id` = ? AND user_id <> ?";

/// A story's vote counts and hotness after a vote.
pub const TALLY_STORY_A: &'static str = "UPDATE stories SET upvotes = COALESCE(upvotes, 0) ";

pub const TALLY_STORY_B: &'static str = ", downvotes = COALESCE(downvotes, 0) ";

pub const TALLY_STORY_C: &'static str = ", hotness = '";

pub const TALLY_STORY_D: &'static str = "' WHERE id = ?";

/// The comment row of a short id.
pub const COMMENT_BY_SHORT_ID: &'static str = "SELECT `comments`.* FROM `comments` WHERE `comments`.`short_id` = ? ORDER BY `comments`.`id` ASC LIMIT 1";

/// A user's earlier vote on a comment.
pub const COMMENT_VOTE_CHECK: &'static str = "SELECT  `votes`.* FROM `votes` WHERE `votes`.`user_id` = ? AND `votes`.`story_id` = ? AND `votes`.`comment_id` = ? ORDER BY `votes`.`id` ASC LIMIT 1";

/// A vote on a comment.
pub const INSERT_COMMENT_VOTE: &'static str = "INSERT INTO `votes` (`user_id`, `story_id`, `comment_id`, `vote`) VALUES (?, ?, ?, ?)";

/// The karma of a comment's author, moved by a vote.
pub const COMMENT_KARMA_A: &'static str = "UPDATE `users` SET `karma` = `karma` ";

pub const COMMENT_KARMA_B: &'static str = " WHERE `id` = ?";

/// A comment's vote counts and confidence after a vote.
pub const TALLY_COMMENT_A: &'static str = "UPDATE `comments` SET `upvotes` = `upvotes` ";

pub const TALLY_COMMENT_B: &'static str = ", `downvotes` = `downvotes` ";

pub const TALLY_COMMENT_C: &'static str = ", `confidence` = ";

pub const TALLY_COMMENT_D: &'static str = "\n                                             WHERE `id` = ?";

/// The story row of an id.
pub const STORY_BY_ID: &'static str = "SELECT `stories`.* FROM `stories` WHERE `stories`.`id` = ? ORDER BY `stories`.`id` ASC LIMIT 1";

/// The tag every submitted story carries, if it is active.
pub const SEED_TAG: &'static str = "SELECT  `tags`.* FROM `tags` WHERE `tags`.`inactive` = 0 AND `tags`.`tag` IN ('test') ORDER BY `tags`.`id` ASC LIMIT 1";

/// Whether a story short id is in use.
pub const STORY_SHORT_ID_TAKEN: &'static str = "SELECT  1 AS one FROM `stories` WHERE `stories`.`short_id` = ? LIMIT 1";

/// A new story row.
pub const INSERT_STORY: &'static str = "INSERT INTO `stories` (`created_at`, `user_id`, `title`, `description`, `short_id`, `upvotes`, `hotness`, `markeddown_description`) VALUES (?, ?, ?, ?, ?, ?, ?, ?)";

/// The description every submitted story gets.
pub const STORY_DESCRIPTION: &'static str = "to infinity";

/// That description, rendered.
pub const STORY_DESCRIPTION_HTML: &'static str = "<p>to infinity</p>\n";

/// A tag on a story.
pub const INSERT_TAGGING: &'static str = "INSERT INTO `taggings` (`story_id`, `tag_id`) VALUES (?, ?)";

/// One more on one of a user's keystore counters.
pub const BUMP_COUNTER_A: &'static str = "INSERT INTO keystores (`key`, `value`) VALUES ('user:";

pub const BUMP_COUNTER_B: &'static str = "', 1) ON DUPLICATE KEY UPDATE `value` = `value` + 1";

/// The submitter's own upvote on a new story.
pub const INSERT_OWN_STORY_VOTE: &'static str = "INSERT INTO `votes` (`user_id`, `story_id`, `vote`) VALUES (?, ?, 1)";

/// The vote counts of a new story's comments by others than the submitter.
pub const COMMENT_VOTES_OF_OTHERS: &'static str = "SELECT `comments`.`upvotes`, `comments`.`downvotes` FROM `comments` WHERE `comments`.`story_id` = ? AND (user_id <> ?)";

/// A story's hotness, written afresh.
pub const SET_HOTNESS_A: &'static str = "UPDATE `stories` SET `hotness` = ";

pub const SET_HOTNESS_B: &'static str = "\n                                             WHERE `stories`.`id` = ?";

/// The comment of a short id within one story.
pub const PARENT_COMMENT: &'static str = "SELECT  `comments`.* FROM `comments` WHERE `comments`.`story_id` = ? AND `comments`.`short_id` = ? ORDER BY `comments`.`id` ASC LIMIT 1";

/// Whether a comment short id is in use.
pub const COMMENT_SHORT_ID_TAKEN: &'static str = "SELECT  1 AS one FROM `comments` WHERE `comments`.`short_id` = ? LIMIT 1";

/// A new comment row under a parent comment.
pub const INSERT_REPLY: &'static str = "INSERT INTO `comments` (`created_at`, `updated_at`, `short_id`, `story_id`, `user_id`, `parent_comment_id`, `thread_id`, `comment`, `upvotes`, `confidence`, `markeddown_comment`) VALUES (?, ?, ?, ?, ?, ?, ?, ?, ?, ?, ?)";

/// The text every posted comment gets.
pub const COMMENT_BODY: &'static str = "moar benchmarking";

/// That text, rendered.
pub const COMMENT_BODY_HTML: &'static str = "<p>moar benchmarking</p>\n";

/// A new top-level comment row.
pub const INSERT_COMMENT: &'static str = "INSERT INTO `comments` (`created_at`, `updated_at`, `short_id`, `story_id`, `user_id`, `comment`, `upvotes`, `confidence`, `markeddown_comment`) VALUES (?, ?, ?, ?, ?, ?, ?, ?, ?)";

/// The author's own upvote on a new comment.
pub const INSERT_OWN_COMMENT_VOTE: &'static str = "INSERT INTO `votes` (`user_id`, `story_id`, `comment_id`, `vote`) VALUES (?, ?, ?, 1)";

/// The comments of a story, to be counted.
pub const COUNT_COMMENTS: &'static str = "SELECT `comments`.* FROM `comments` WHERE `comments`.`story_id` = ? ORDER BY (upvotes - downvotes) < 0 ASC, confidence DESC";

/// A story's comment count.
pub const SET_COMMENT_COUNT_A: &'static str = "UPDATE `stories` SET `comments_count` = ";

pub const SET_COMMENT_COUNT_B: &'static str = "\n                                             WHERE `stories`.`id` = ?";

/// How many unread replies a user has.
pub const UNREAD_REPLIES_A: &'static str = "SELECT COUNT(*) FROM `replying_comments` WHERE `replying_comments`.`user_id` = ";

pub const UNREAD_REPLIES_B: &'static str = " AND `replying_comments`.`is_unread` = 1";

/// A user's unread-message counter.
pub const UNREAD_MESSAGES_A: &'static str = "SELECT `keystores`.* FROM `keystores` WHERE `keystores`.`key` = 'user:";

pub const UNREAD_MESSAGES_B: &'static str = ":unread_messages' ORDER BY `keystores`.`key` ASC LIMIT 1";

/// Key suffix of the counter of stories a user has submitted.
pub const STORIES_SUBMITTED: &'static str = ":stories_submitted";

/// Key suffix of the counter of comments a user has posted.
pub const COMMENTS_POSTED: &'static str = ":comments_posted";

/// What comes before the number in a user name.
pub const USER_NAME: &'static str = "user";

/// What comes after the user name in a user's e-mail address.
pub const EMAIL_DOMAIN: &'static str = "@example.com";

/// What comes before the number in a user's session token.
pub const SESSION_TOKEN: &'static str = "token";

/// What comes before the number in a user's feed token.
pub const RSS_TOKEN: &'static str = "rsstoken";

/// What comes before the number in a user's mailing-list token.
pub const MAILING_LIST_TOKEN: &'static str = "mtok";

/// A counter that goes up by one.
pub const PLUS_ONE: &'static str = "+ 1";

/// A counter that stays.
pub const PLUS_ZERO: &'static str = "+ 0";

/// A counter that goes down by one.
pub const MINUS_ONE: &'static str = "- 1";

/// The hotness a story is given once its rows are in place.
pub const SUBMITTED_HOTNESS: &'static str = "-19216.5479744";

/// Separator of an id list.
pub const COMMA: &'static str = ",";

/// Separator of an id list, with a space.
pub const COMMA_SPACE: &'static str = ", ";

pub const SPACE: &'static str = " ";

} // verus!
