//! From a [`Query`] to the text and parameters that the store receives.

use crate::clock::Timestamp;
use crate::query::{Counter, Key, Kind, Parent, Query, QueryView, Sep, Target};
use crate::request::{ShortId, Vote};
use crate::score::{Double, INITIAL_CONFIDENCE_BITS, INITIAL_HOTNESS_BITS, Level};
use crate::statement::{
    Fetch, Figure, FigureView, Shape, Statement, StatementView, Value, ValueView, push_value,
    values,
};
use crate::text::{decimal, joined, owned, push_decimal, push_joined};
use crate::sql;
use vstd::prelude::*;

verus! {

/// The separator as text.
pub open spec fn sep_text(sep: Sep) -> Seq<char> {
    match sep {
        Sep::Tight => sql::COMMA@,
        Sep::Spaced => sql::COMMA_SPACE@,
    }
}

/// The key suffix of a counter.
pub open spec fn counter_name(which: Counter) -> Seq<char> {
    match which {
        Counter::StoriesSubmitted => sql::STORIES_SUBMITTED@,
        Counter::CommentsPosted => sql::COMMENTS_POSTED@,
    }
}

/// `prefix` followed by the decimal numeral of `n`.
pub open spec fn numbered(prefix: Seq<char>, n: u32) -> Seq<char> {
    prefix + decimal(n as nat)
}

/// The clause that leaves out the stories tagged with any of `tags`; nothing
/// where there are no tags.
pub open spec fn without_tags(tags: Seq<u32>) -> Seq<char> {
    if tags.len() == 0 {
        Seq::empty()
    } else {
        sql::WITHOUT_TAGS_A@ + joined(tags, sql::COMMA@) + sql::WITHOUT_TAGS_B@
    }
}

/// The clause that leaves out comments on stories that `viewer` has hidden;
/// nothing for an anonymous visitor.
pub open spec fn not_hidden(viewer: Option<u32>) -> Seq<char> {
    match viewer {
        None => Seq::empty(),
        Some(user) => sql::NOT_HIDDEN_A@ + decimal(user as nat) + sql::NOT_HIDDEN_B@,
    }
}

/// How a vote moves the upvote counter.
pub open spec fn up_step(vote: Vote) -> Seq<char> {
    match vote {
        Vote::Up => sql::PLUS_ONE@,
        Vote::Down => sql::PLUS_ZERO@,
    }
}

/// How a vote moves the downvote counter.
pub open spec fn down_step(vote: Vote) -> Seq<char> {
    match vote {
        Vote::Up => sql::PLUS_ZERO@,
        Vote::Down => sql::PLUS_ONE@,
    }
}

/// How a vote moves the author's karma.
pub open spec fn karma_step(vote: Vote) -> Seq<char> {
    match vote {
        Vote::Up => sql::PLUS_ONE@,
        Vote::Down => sql::MINUS_ONE@,
    }
}

/// A vote count once `more` votes are counted in.
pub open spec fn counted(count: u32, more: int) -> u64 {
    (count + more) as u64
}

/// The value stored for a vote: one for up, zero for down.
pub open spec fn vote_value(vote: Vote) -> ValueView {
    match vote {
        Vote::Up => ValueView::Int(1),
        Vote::Down => ValueView::Int(0),
    }
}

/// A row id as a parameter: signed where it was read from a row, unsigned where
/// the store gave it out.
pub open spec fn key_value(key: Key) -> ValueView {
    match key {
        Key::Read(id) => ValueView::Int(id as i64),
        Key::Fresh(id) => ValueView::UInt(id),
    }
}

/// An optional number as a parameter.
pub open spec fn maybe_value(n: Option<u32>) -> ValueView {
    match n {
        Some(n) => ValueView::Int(n as i64),
        None => ValueView::Null,
    }
}

/// A number as a parameter.
pub open spec fn number(n: u32) -> ValueView {
    ValueView::Int(n as i64)
}

/// Text `a`, the list, text `b`.
pub open spec fn around_list(a: Seq<char>, ids: Seq<u32>, sep: Seq<char>, b: Seq<char>) -> Seq<char> {
    a + joined(ids, sep) + b
}

/// Text `a`, the user, text `b`, the list, text `c`.
pub open spec fn around_user_and_list(
    a: Seq<char>,
    user: u32,
    b: Seq<char>,
    ids: Seq<u32>,
    c: Seq<char>,
) -> Seq<char> {
    a + decimal(user as nat) + b + joined(ids, sql::COMMA@) + c
}

/// Text `a`, the first number, text `b`, the second number, text `c`.
pub open spec fn around_pair(a: Seq<char>, x: u32, b: Seq<char>, y: u32, c: Seq<char>) -> Seq<char> {
    a + decimal(x as nat) + b + decimal(y as nat) + c
}

/// The parameters of the row of a new user.
pub open spec fn new_user_values(user: u32, at: Timestamp) -> Seq<ValueView> {
    seq![
        ValueView::Text(numbered(sql::USER_NAME@, user)),
        ValueView::Text(numbered(sql::USER_NAME@, user) + sql::EMAIL_DOMAIN@),
        ValueView::Text(sql::PASSWORD_DIGEST@),
        ValueView::Date(at),
        ValueView::Text(numbered(sql::SESSION_TOKEN@, user)),
        ValueView::Text(numbered(sql::RSS_TOKEN@, user)),
        ValueView::Text(numbered(sql::MAILING_LIST_TOKEN@, user)),
    ]
}

/// The parameters of the row of a new story.
pub open spec fn new_story_values(
    user: u32,
    title: Seq<char>,
    id: ShortId,
    at: Timestamp,
) -> Seq<ValueView> {
    seq![
        ValueView::Date(at),
        number(user),
        ValueView::Text(title),
        ValueView::Text(sql::STORY_DESCRIPTION@),
        ValueView::Bytes(id@),
        ValueView::Int(1),
        ValueView::Float(Double { bits: INITIAL_HOTNESS_BITS }),
        ValueView::Text(sql::STORY_DESCRIPTION_HTML@),
    ]
}

/// The parameters of the row of a new comment.
pub open spec fn new_comment_values(
    user: u32,
    story: u32,
    id: ShortId,
    parent: Option<Parent>,
    at: Timestamp,
) -> Seq<ValueView> {
    match parent {
        Some(p) => seq![
            ValueView::Date(at),
            ValueView::Date(at),
            ValueView::Bytes(id@),
            number(story),
            number(user),
            number(p.id),
            maybe_value(p.thread),
            ValueView::Text(sql::COMMENT_BODY@),
            ValueView::Int(1),
            ValueView::Float(Double { bits: INITIAL_CONFIDENCE_BITS }),
            ValueView::Text(sql::COMMENT_BODY_HTML@),
        ],
        None => seq![
            ValueView::Date(at),
            ValueView::Date(at),
            ValueView::Bytes(id@),
            number(story),
            number(user),
            ValueView::Text(sql::COMMENT_BODY@),
            ValueView::Int(1),
            ValueView::Float(Double { bits: INITIAL_CONFIDENCE_BITS }),
            ValueView::Text(sql::COMMENT_BODY_HTML@),
        ],
    }
}

/// The statement that the store receives for `q`.
pub open spec fn rendered(q: QueryView) -> StatementView {
    match q.kind {
        Kind::SessionByToken => StatementView::bound(
            sql::SESSION_BY_TOKEN@,
            seq![ValueView::Text(q.word)],
            Fetch::Nothing,
        ),
        Kind::UserByName { suffix } => StatementView::bound(
            sql::USER_BY_NAME@,
            seq![ValueView::Text(numbered(sql::USER_NAME@, suffix))],
            Fetch::First(Shape::Id),
        ),
        Kind::FavouriteTag { user } => StatementView::bound(
            sql::FAVOURITE_TAG@,
            seq![number(user)],
            Fetch::Nothing,
        ),
        Kind::Counter { user, which } => StatementView::inline(
            sql::COUNTER_A@ + decimal(user as nat) + counter_name(which) + sql::COUNTER_B@,
            Fetch::Nothing,
        ),
        Kind::HatCheck { user } => StatementView::bound(sql::HAT_CHECK@, seq![number(user)], Fetch::Nothing),
        Kind::TagFilters { user } => StatementView::inline(
            sql::TAG_FILTERS@ + decimal(user as nat),
            Fetch::All(Shape::TagId),
        ),
        Kind::Frontpage { viewer } => match viewer {
            None => StatementView::inline(sql::FRONTPAGE@, Fetch::All(Shape::AuthorAndId)),
            Some(user) => StatementView::inline(
                sql::FRONTPAGE_FOR_A@ + decimal(user as nat) + sql::FRONTPAGE_FOR_B@ + without_tags(
                    q.ids,
                ) + sql::FRONTPAGE_FOR_C@,
                Fetch::All(Shape::AuthorAndId),
            ),
        },
        Kind::Recent { viewer } => match viewer {
            None => StatementView::inline(
                sql::RECENT@ + sql::SPACE@ + sql::RECENT_ORDER@,
                Fetch::All(Shape::Id),
            ),
            Some(user) => StatementView::inline(
                sql::RECENT@ + sql::RECENT_FOR_A@ + decimal(user as nat) + sql::RECENT_FOR_B@
                    + without_tags(q.ids) + sql::SPACE@ + sql::RECENT_ORDER@,
                Fetch::All(Shape::Id),
            ),
        },
        Kind::StoriesIn => StatementView::inline(
            around_list(sql::STORIES_IN_A@, q.ids, sql::COMMA@, sql::STORIES_IN_B@),
            Fetch::All(Shape::AuthorAndId),
        ),
        Kind::UsersIn { sep } => StatementView::inline(
            around_list(sql::USERS_IN_A@, q.ids, sep_text(sep), sql::USERS_IN_B@),
            Fetch::Nothing,
        ),
        Kind::AuthorsIn => StatementView::inline(
            around_list(sql::AUTHORS_IN_A@, q.ids, sql::COMMA@, sql::AUTHORS_IN_B@),
            Fetch::Nothing,
        ),
        Kind::SuggestedTitlesIn => StatementView::inline(
            around_list(sql::SUGGESTED_TITLES_IN_A@, q.ids, sql::COMMA@, sql::SUGGESTED_TITLES_IN_B@),
            Fetch::Nothing,
        ),
        Kind::SuggestedTaggingsIn => StatementView::inline(
            around_list(
                sql::SUGGESTED_TAGGINGS_IN_A@,
                q.ids,
                sql::COMMA@,
                sql::SUGGESTED_TAGGINGS_IN_B@,
            ),
            Fetch::Nothing,
        ),
        Kind::TaggingsIn => StatementView::inline(
            around_list(sql::TAGGINGS_IN_A@, q.ids, sql::COMMA@, sql::TAGGINGS_IN_B@),
            Fetch::All(Shape::TagId),
        ),
        Kind::TagsIn { sep } => StatementView::inline(
            around_list(sql::TAGS_IN_A@, q.ids, sep_text(sep), sql::TAGS_IN_B@),
            Fetch::Nothing,
        ),
        Kind::VotesOnStories { user } => StatementView::inline(
            around_user_and_list(
                sql::VOTES_ON_STORIES_A@,
                user,
                sql::VOTES_ON_STORIES_B@,
                q.ids,
                sql::VOTES_ON_STORIES_C@,
            ),
            Fetch::Nothing,
        ),
        Kind::HiddenAmong { user } => StatementView::inline(
            around_user_and_list(
                sql::HIDDEN_AMONG_A@,
                user,
                sql::HIDDEN_AMONG_B@,
                q.ids,
                sql::HIDDEN_AMONG_C@,
            ),
            Fetch::Nothing,
        ),
        Kind::SavedAmong { user } => StatementView::inline(
            around_user_and_list(
                sql::SAVED_AMONG_A@,
                user,
                sql::SAVED_AMONG_B@,
                q.ids,
                sql::SAVED_AMONG_C@,
            ),
            Fetch::Nothing,
        ),
        Kind::LatestComments { viewer } => StatementView::inline(
            sql::LATEST_COMMENTS_A@ + not_hidden(viewer) + sql::LATEST_COMMENTS_B@,
            Fetch::All(Shape::CommentKeys),
        ),
        Kind::VotesOnComments { user } => StatementView::inline(
            around_user_and_list(
                sql::VOTES_ON_COMMENTS_A@,
                user,
                sql::VOTES_ON_COMMENTS_B@,
                q.ids,
                sql::VOTES_ON_COMMENTS_C@,
            ),
            Fetch::Nothing,
        ),
        Kind::UserExists { user } => StatementView::bound(
            sql::USER_EXISTS@,
            seq![ValueView::Text(numbered(sql::USER_NAME@, user))],
            Fetch::First(Shape::Presence),
        ),
        Kind::InsertUser { user, at } => StatementView::bound(
            sql::INSERT_USER@,
            new_user_values(user, at),
            Fetch::Nothing,
        ),
        Kind::StoryByShortId { id } => StatementView::bound(
            sql::STORY_BY_SHORT_ID@,
            seq![ValueView::Bytes(id@)],
            Fetch::First(Shape::Story),
        ),
        Kind::UserById { user } => StatementView::bound(sql::USER_BY_ID@, seq![number(user)], Fetch::Nothing),
        Kind::Ribbon { user, story } => StatementView::inline(
            around_pair(sql::RIBBON_A@, user, sql::RIBBON_B@, story, sql::RIBBON_C@),
            Fetch::First(Shape::Id),
        ),
        Kind::InsertRibbon { user, story, at } => StatementView::bound(
            sql::INSERT_RIBBON@,
            seq![ValueView::Date(at), ValueView::Date(at), number(user), number(story)],
            Fetch::Nothing,
        ),
        Kind::TouchRibbon { ribbon, at } => StatementView::bound(
            sql::TOUCH_RIBBON@,
            seq![ValueView::Date(at), number(ribbon)],
            Fetch::Nothing,
        ),
        Kind::MergedInto { story } => StatementView::bound(
            sql::MERGED_INTO@,
            seq![number(story)],
            Fetch::Nothing,
        ),
        Kind::CommentsOf { story } => StatementView::bound(
            sql::COMMENTS_OF@,
            seq![number(story)],
            Fetch::All(Shape::AuthorAndId),
        ),
        Kind::VotesForComments => StatementView::inline(
            around_list(
                sql::VOTES_FOR_COMMENTS_A@,
                q.ids,
                sql::COMMA_SPACE@,
                sql::VOTES_FOR_COMMENTS_B@,
            ),
            Fetch::Nothing,
        ),
        Kind::VoteOnStory { user, story } => StatementView::inline(
            around_pair(
                sql::VOTE_ON_STORY_A@,
                user,
                sql::VOTE_ON_STORY_B@,
                story,
                sql::VOTE_ON_STORY_C@,
            ),
            Fetch::Nothing,
        ),
        Kind::HiddenStory { user, story } => StatementView::inline(
            around_pair(
                sql::HIDDEN_STORY_A@,
                user,
                sql::HIDDEN_STORY_B@,
                story,
                sql::HIDDEN_STORY_C@,
            ),
            Fetch::Nothing,
        ),
        Kind::SavedStory { user, story } => StatementView::inline(
            around_pair(sql::SAVED_STORY_A@, user, sql::SAVED_STORY_B@, story, sql::SAVED_STORY_C@),
            Fetch::Nothing,
        ),
        Kind::TaggingsOf { story } => StatementView::bound(
            sql::TAGGINGS_OF@,
            seq![number(story)],
            Fetch::All(Shape::TagId),
        ),
        Kind::VoteCheck { user, story, comment } => match comment {
            None => StatementView::bound(
                sql::STORY_VOTE_CHECK@,
                seq![number(user), key_value(story)],
                Fetch::Nothing,
            ),
            Some(c) => StatementView::bound(
                sql::COMMENT_VOTE_CHECK@,
                seq![number(user), key_value(story), key_value(c)],
                Fetch::Nothing,
            ),
        },
        Kind::InsertVote { user, story, comment, vote } => match comment {
            None => StatementView::bound(
                sql::INSERT_STORY_VOTE@,
                seq![number(user), number(story), vote_value(vote)],
                Fetch::Nothing,
            ),
            Some(c) => StatementView::bound(
                sql::INSERT_COMMENT_VOTE@,
                seq![number(user), number(story), number(c), vote_value(vote)],
                Fetch::Nothing,
            ),
        },
        Kind::Karma { author, vote, target } => match target {
            Target::Story => StatementView::bound(
                sql::STORY_KARMA_A@ + karma_step(vote) + sql::STORY_KARMA_B@,
                seq![number(author)],
                Fetch::Nothing,
            ),
            Target::Comment => StatementView::bound(
                sql::COMMENT_KARMA_A@ + karma_step(vote) + sql::COMMENT_KARMA_B@,
                seq![number(author)],
                Fetch::Nothing,
            ),
        },
        Kind::TagsOf { story } => StatementView::bound(sql::TAGS_OF@, seq![number(story)], Fetch::Nothing),
        Kind::CommentVotesOf { story, except } => StatementView::bound(
            sql::COMMENT_VOTES_OF@,
            seq![number(story), number(except)],
            Fetch::Nothing,
        ),
        Kind::TallyStory { story, vote } => StatementView::spliced(
            sql::TALLY_STORY_A@ + up_step(vote) + sql::TALLY_STORY_B@ + down_step(vote)
                + sql::TALLY_STORY_C@,
            FigureView::Score(base_of(q.score).moved(vote.worth())),
            sql::TALLY_STORY_D@,
            seq![number(story)],
        ),
        Kind::CommentByShortId { id } => StatementView::bound(
            sql::COMMENT_BY_SHORT_ID@,
            seq![ValueView::Bytes(id@)],
            Fetch::First(Shape::CommentTally),
        ),
        Kind::TallyComment { comment, vote, upvotes, downvotes } => StatementView::spliced(
            sql::TALLY_COMMENT_A@ + up_step(vote) + sql::TALLY_COMMENT_B@ + down_step(vote)
                + sql::TALLY_COMMENT_C@,
            FigureView::Share {
                upvotes: counted(upvotes, vote.ups()),
                downvotes: counted(downvotes, vote.downs()),
            },
            sql::TALLY_COMMENT_D@,
            seq![number(comment)],
        ),
        Kind::StoryById { story } => StatementView::bound(
            sql::STORY_BY_ID@,
            seq![number(story)],
            Fetch::First(Shape::StoryScore),
        ),
        Kind::SeedTag => StatementView::inline(sql::SEED_TAG@, Fetch::First(Shape::Id)),
        Kind::StoryShortIdTaken { id } => StatementView::bound(
            sql::STORY_SHORT_ID_TAKEN@,
            seq![ValueView::Bytes(id@)],
            Fetch::Nothing,
        ),
        Kind::InsertStory { user, id, at } => StatementView::bound(
            sql::INSERT_STORY@,
            new_story_values(user, q.word, id, at),
            Fetch::InsertId,
        ),
        Kind::InsertTagging { story, tag } => StatementView::bound(
            sql::INSERT_TAGGING@,
            seq![ValueView::UInt(story), number(tag)],
            Fetch::Nothing,
        ),
        Kind::BumpCounter { user, which } => StatementView::inline(
            sql::BUMP_COUNTER_A@ + decimal(user as nat) + counter_name(which) + sql::BUMP_COUNTER_B@,
            Fetch::Nothing,
        ),
        Kind::InsertOwnVote { user, story, comment } => match comment {
            None => StatementView::bound(
                sql::INSERT_OWN_STORY_VOTE@,
                seq![number(user), key_value(story)],
                Fetch::Nothing,
            ),
            Some(c) => StatementView::bound(
                sql::INSERT_OWN_COMMENT_VOTE@,
                seq![number(user), key_value(story), key_value(c)],
                Fetch::Nothing,
            ),
        },
        Kind::CommentVotesOfOthers { story, user } => StatementView::bound(
            sql::COMMENT_VOTES_OF_OTHERS@,
            seq![ValueView::UInt(story), number(user)],
            Fetch::Nothing,
        ),
        Kind::SettleHotness { story } => StatementView::bound(
            sql::SET_HOTNESS_A@ + sql::SUBMITTED_HOTNESS@ + sql::SET_HOTNESS_B@,
            seq![ValueView::UInt(story)],
            Fetch::Nothing,
        ),
        Kind::ParentComment { story, id } => StatementView::bound(
            sql::PARENT_COMMENT@,
            seq![number(story), ValueView::Bytes(id@)],
            Fetch::First(Shape::Thread),
        ),
        Kind::CommentShortIdTaken { id } => StatementView::bound(
            sql::COMMENT_SHORT_ID_TAKEN@,
            seq![ValueView::Bytes(id@)],
            Fetch::Nothing,
        ),
        Kind::InsertComment { user, story, id, parent, at } => StatementView::bound(
            if parent is Some {
                sql::INSERT_REPLY@
            } else {
                sql::INSERT_COMMENT@
            },
            new_comment_values(user, story, id, parent, at),
            Fetch::InsertId,
        ),
        Kind::CountComments { story } => StatementView::bound(
            sql::COUNT_COMMENTS@,
            seq![number(story)],
            Fetch::Count,
        ),
        Kind::SetCommentCount { story, count } => StatementView::bound(
            sql::SET_COMMENT_COUNT_A@ + decimal(count as nat) + sql::SET_COMMENT_COUNT_B@,
            seq![number(story)],
            Fetch::Nothing,
        ),
        Kind::RewriteHotness { story } => StatementView::spliced(
            sql::SET_HOTNESS_A@,
            FigureView::Score(base_of(q.score)),
            sql::SET_HOTNESS_B@,
            seq![number(story)],
        ),
        Kind::UnreadReplies { user } => StatementView::inline(
            sql::UNREAD_REPLIES_A@ + decimal(user as nat) + sql::UNREAD_REPLIES_B@,
            Fetch::Nothing,
        ),
        Kind::UnreadMessages { user } => StatementView::inline(
            sql::UNREAD_MESSAGES_A@ + decimal(user as nat) + sql::UNREAD_MESSAGES_B@,
            Fetch::Nothing,
        ),
    }
}

/// The score a statement writes from; a reading of zero where the statement was
/// given none.
pub open spec fn base_of(score: Option<Level>) -> Level {
    match score {
        Some(level) => level,
        None => Level { origin: Double { bits: 0 }, net: 0 },
    }
}

fn sep_str(sep: Sep) -> (s: &'static str)
    ensures
        s@ == sep_text(sep),
{
    match sep {
        Sep::Tight => sql::COMMA,
        Sep::Spaced => sql::COMMA_SPACE,
    }
}

fn counter_str(which: Counter) -> (s: &'static str)
    ensures
        s@ == counter_name(which),
{
    match which {
        Counter::StoriesSubmitted => sql::STORIES_SUBMITTED,
        Counter::CommentsPosted => sql::COMMENTS_POSTED,
    }
}

fn up_str(vote: Vote) -> (s: &'static str)
    ensures
        s@ == up_step(vote),
{
    match vote {
        Vote::Up => sql::PLUS_ONE,
        Vote::Down => sql::PLUS_ZERO,
    }
}

fn down_str(vote: Vote) -> (s: &'static str)
    ensures
        s@ == down_step(vote),
{
    match vote {
        Vote::Up => sql::PLUS_ZERO,
        Vote::Down => sql::PLUS_ONE,
    }
}

fn karma_str(vote: Vote) -> (s: &'static str)
    ensures
        s@ == karma_step(vote),
{
    match vote {
        Vote::Up => sql::PLUS_ONE,
        Vote::Down => sql::MINUS_ONE,
    }
}

fn worth_of(vote: Vote) -> (by: i8)
    ensures
        by == vote.worth(),
{
    match vote {
        Vote::Up => 1,
        Vote::Down => -1,
    }
}

fn ups_after(upvotes: u32, vote: Vote) -> (n: u64)
    ensures
        n == counted(upvotes, vote.ups()),
{
    match vote {
        Vote::Up => upvotes as u64 + 1,
        Vote::Down => upvotes as u64,
    }
}

fn downs_after(downvotes: u32, vote: Vote) -> (n: u64)
    ensures
        n == counted(downvotes, vote.downs()),
{
    match vote {
        Vote::Up => downvotes as u64,
        Vote::Down => downvotes as u64 + 1,
    }
}

fn vote_param(vote: Vote) -> (v: Value)
    ensures
        v@ == vote_value(vote),
{
    match vote {
        Vote::Up => Value::Int(1),
        Vote::Down => Value::Int(0),
    }
}

fn key_param(key: Key) -> (v: Value)
    ensures
        v@ == key_value(key),
{
    match key {
        Key::Read(id) => Value::Int(id as i64),
        Key::Fresh(id) => Value::UInt(id),
    }
}

fn maybe_param(n: Option<u32>) -> (v: Value)
    ensures
        v@ == maybe_value(n),
{
    match n {
        Some(n) => Value::Int(n as i64),
        None => Value::Null,
    }
}

fn num(n: u32) -> (v: Value)
    ensures
        v@ == number(n),
{
    Value::Int(n as i64)
}

fn code(id: &ShortId) -> (v: Value)
    ensures
        v@ == ValueView::Bytes(id@),
{
    Value::Bytes(id.to_vec())
}

fn words(text: &str) -> (v: Value)
    ensures
        v@ == ValueView::Text(text@),
{
    Value::Text(owned(text))
}

fn numbered_text(prefix: &str, n: u32) -> (s: String)
    ensures
        s@ == numbered(prefix@, n),
{
    let mut s = owned(prefix);
    push_decimal(&mut s, n as u64);
    s
}

fn push_without_tags(out: &mut String, tags: &Vec<u32>)
    ensures
        final(out)@ == old(out)@ + without_tags(tags@),
{
    if tags.len() > 0 {
        let mut clause = owned(sql::WITHOUT_TAGS_A);
        push_joined(&mut clause, tags, sql::COMMA);
        clause.append(sql::WITHOUT_TAGS_B);
        out.append(clause.as_str());
    } else {
        assert(out@ =~= old(out)@ + without_tags(tags@));
    }
}

fn push_not_hidden(out: &mut String, viewer: Option<u32>)
    ensures
        final(out)@ == old(out)@ + not_hidden(viewer),
{
    match viewer {
        None => {
            assert(out@ =~= old(out)@ + not_hidden(viewer));
        },
        Some(user) => {
            let mut clause = owned(sql::NOT_HIDDEN_A);
            push_decimal(&mut clause, user as u64);
            clause.append(sql::NOT_HIDDEN_B);
            out.append(clause.as_str());
        },
    }
}

fn text_around_list(a: &str, ids: &Vec<u32>, sep: &str, b: &str) -> (s: String)
    ensures
        s@ == around_list(a@, ids@, sep@, b@),
{
    let mut s = owned(a);
    push_joined(&mut s, ids, sep);
    s.append(b);
    s
}

fn text_around_user_and_list(a: &str, user: u32, b: &str, ids: &Vec<u32>, c: &str) -> (s: String)
    ensures
        s@ == around_user_and_list(a@, user, b@, ids@, c@),
{
    let mut s = owned(a);
    push_decimal(&mut s, user as u64);
    s.append(b);
    push_joined(&mut s, ids, sql::COMMA);
    s.append(c);
    s
}

fn text_around_pair(a: &str, x: u32, b: &str, y: u32, c: &str) -> (s: String)
    ensures
        s@ == around_pair(a@, x, b@, y, c@),
{
    let mut s = owned(a);
    push_decimal(&mut s, x as u64);
    s.append(b);
    push_decimal(&mut s, y as u64);
    s.append(c);
    s
}

fn text_around_number(a: &str, n: u64, b: &str) -> (s: String)
    ensures
        s@ == a@ + decimal(n as nat) + b@,
{
    let mut s = owned(a);
    push_decimal(&mut s, n);
    s.append(b);
    s
}

fn text_of_tally(a: &str, b: &str, c: &str, vote: Vote) -> (s: String)
    ensures
        s@ == a@ + up_step(vote) + b@ + down_step(vote) + c@,
{
    let mut s = owned(a);
    s.append(up_str(vote));
    s.append(b);
    s.append(down_str(vote));
    s.append(c);
    s
}

fn text_of_counter(a: &str, user: u32, which: Counter, b: &str) -> (s: String)
    ensures
        s@ == a@ + decimal(user as nat) + counter_name(which) + b@,
{
    let mut s = owned(a);
    push_decimal(&mut s, user as u64);
    s.append(counter_str(which));
    s.append(b);
    s
}

fn no_params() -> (v: Vec<Value>)
    ensures
        values(v@) == Seq::<ValueView>::empty(),
{
    let v: Vec<Value> = Vec::new();
    assert(values(v@) =~= Seq::<ValueView>::empty());
    v
}

fn one(a: Value) -> (v: Vec<Value>)
    ensures
        values(v@) == seq![a@],
{
    let mut v = no_params();
    push_value(&mut v, a);
    v
}

fn two(a: Value, b: Value) -> (v: Vec<Value>)
    ensures
        values(v@) == seq![a@, b@],
{
    let mut v = one(a);
    push_value(&mut v, b);
    v
}

fn three(a: Value, b: Value, c: Value) -> (v: Vec<Value>)
    ensures
        values(v@) == seq![a@, b@, c@],
{
    let mut v = two(a, b);
    push_value(&mut v, c);
    v
}

fn four(a: Value, b: Value, c: Value, d: Value) -> (v: Vec<Value>)
    ensures
        values(v@) == seq![a@, b@, c@, d@],
{
    let mut v = three(a, b, c);
    push_value(&mut v, d);
    v
}

fn user_params(user: u32, at: Timestamp) -> (v: Vec<Value>)
    ensures
        values(v@) == new_user_values(user, at),
{
    let mut email = numbered_text(sql::USER_NAME, user);
    email.append(sql::EMAIL_DOMAIN);
    let mut v = four(
        Value::Text(numbered_text(sql::USER_NAME, user)),
        Value::Text(email),
        words(sql::PASSWORD_DIGEST),
        Value::Date(at),
    );
    push_value(&mut v, Value::Text(numbered_text(sql::SESSION_TOKEN, user)));
    push_value(&mut v, Value::Text(numbered_text(sql::RSS_TOKEN, user)));
    push_value(&mut v, Value::Text(numbered_text(sql::MAILING_LIST_TOKEN, user)));
    v
}

fn story_params(user: u32, title: &String, id: &ShortId, at: Timestamp) -> (v: Vec<Value>)
    ensures
        values(v@) == new_story_values(user, title@, *id, at),
{
    let mut v = four(
        Value::Date(at),
        num(user),
        Value::Text(title.clone()),
        words(sql::STORY_DESCRIPTION),
    );
    push_value(&mut v, code(id));
    push_value(&mut v, Value::Int(1));
    push_value(&mut v, Value::Float(Double { bits: INITIAL_HOTNESS_BITS }));
    push_value(&mut v, words(sql::STORY_DESCRIPTION_HTML));
    v
}

fn comment_params(user: u32, story: u32, id: &ShortId, parent: Option<Parent>, at: Timestamp) -> (v:
    Vec<Value>)
    ensures
        values(v@) == new_comment_values(user, story, *id, parent, at),
{
    let mut v = four(Value::Date(at), Value::Date(at), code(id), num(story));
    push_value(&mut v, num(user));
    match parent {
        Some(p) => {
            push_value(&mut v, num(p.id));
            push_value(&mut v, maybe_param(p.thread));
        },
        None => {},
    }
    push_value(&mut v, words(sql::COMMENT_BODY));
    push_value(&mut v, Value::Int(1));
    push_value(&mut v, Value::Float(Double { bits: INITIAL_CONFIDENCE_BITS }));
    push_value(&mut v, words(sql::COMMENT_BODY_HTML));
    v
}

impl Query {
    /// The score that the statement writes from.
    fn base(&self) -> (d: Double)
        ensures
            d@ == base_of(self@.score),
    {
        match self.score {
            Some(d) => d,
            None => Double { bits: 0 },
        }
    }

    /// Writes out a statement of the session lookup, a profile page or the closing counters.
    fn render_profile(&self) -> (s: Statement)
        requires
            matches!(
                self.kind,
                Kind::SessionByToken
                | Kind::UserByName { .. }
                | Kind::FavouriteTag { .. }
                | Kind::Counter { .. }
                | Kind::HatCheck { .. }
                | Kind::UserExists { .. }
                | Kind::InsertUser { .. }
                | Kind::UnreadReplies { .. }
                | Kind::UnreadMessages { .. }
            ),
        ensures
            s@ == rendered(self@),
    {
        match self.kind {
            Kind::SessionByToken => Statement::bound(
                owned(sql::SESSION_BY_TOKEN),
                one(Value::Text(self.word.clone())),
                Fetch::Nothing,
            ),
            Kind::UserByName { suffix } => Statement::bound(
                owned(sql::USER_BY_NAME),
                one(Value::Text(numbered_text(sql::USER_NAME, suffix))),
                Fetch::First(Shape::Id),
            ),
            Kind::FavouriteTag { user } => Statement::bound(
                owned(sql::FAVOURITE_TAG),
                one(num(user)),
                Fetch::Nothing,
            ),
            Kind::Counter { user, which } => Statement::inline(
                text_of_counter(sql::COUNTER_A, user, which, sql::COUNTER_B),
                Fetch::Nothing,
            ),
            Kind::HatCheck { user } => Statement::bound(
                owned(sql::HAT_CHECK),
                one(num(user)),
                Fetch::Nothing,
            ),
            Kind::UserExists { user } => Statement::bound(
                owned(sql::USER_EXISTS),
                one(Value::Text(numbered_text(sql::USER_NAME, user))),
                Fetch::First(Shape::Presence),
            ),
            Kind::InsertUser { user, at } => Statement::bound(
                owned(sql::INSERT_USER),
                user_params(user, at),
                Fetch::Nothing,
            ),
            Kind::UnreadReplies { user } => Statement::inline(
                text_around_number(sql::UNREAD_REPLIES_A, user as u64, sql::UNREAD_REPLIES_B),
                Fetch::Nothing,
            ),
            Kind::UnreadMessages { user } => Statement::inline(
                text_around_number(sql::UNREAD_MESSAGES_A, user as u64, sql::UNREAD_MESSAGES_B),
                Fetch::Nothing,
            ),
            _ => vstd::pervasive::unreached(),
        }
    }

    /// Writes out a statement of the front page or the recent listing.
    fn render_listing(&self) -> (s: Statement)
        requires
            matches!(
                self.kind,
                Kind::TagFilters { .. }
                | Kind::Frontpage { .. }
                | Kind::Recent { .. }
                | Kind::StoriesIn
                | Kind::UsersIn { .. }
                | Kind::AuthorsIn
                | Kind::SuggestedTitlesIn
                | Kind::SuggestedTaggingsIn
                | Kind::TaggingsIn
                | Kind::TagsIn { .. }
            ),
        ensures
            s@ == rendered(self@),
    {
        match self.kind {
            Kind::TagFilters { user } => {
                let mut text = owned(sql::TAG_FILTERS);
                push_decimal(&mut text, user as u64);
                Statement::inline(text, Fetch::All(Shape::TagId))
            },
            Kind::Frontpage { viewer } => match viewer {
                None => Statement::inline(owned(sql::FRONTPAGE), Fetch::All(Shape::AuthorAndId)),
                Some(user) => {
                    let mut text = owned(sql::FRONTPAGE_FOR_A);
                    push_decimal(&mut text, user as u64);
                    text.append(sql::FRONTPAGE_FOR_B);
                    push_without_tags(&mut text, &self.ids);
                    text.append(sql::FRONTPAGE_FOR_C);
                    Statement::inline(text, Fetch::All(Shape::AuthorAndId))
                },
            },
            Kind::Recent { viewer } => {
                let mut text = owned(sql::RECENT);
                match viewer {
                    None => {},
                    Some(user) => {
                        text.append(sql::RECENT_FOR_A);
                        push_decimal(&mut text, user as u64);
                        text.append(sql::RECENT_FOR_B);
                        push_without_tags(&mut text, &self.ids);
                    },
                }
                text.append(sql::SPACE);
                text.append(sql::RECENT_ORDER);
                Statement::inline(text, Fetch::All(Shape::Id))
            },
            Kind::StoriesIn => Statement::inline(
                text_around_list(sql::STORIES_IN_A, &self.ids, sql::COMMA, sql::STORIES_IN_B),
                Fetch::All(Shape::AuthorAndId),
            ),
            Kind::UsersIn { sep } => Statement::inline(
                text_around_list(sql::USERS_IN_A, &self.ids, sep_str(sep), sql::USERS_IN_B),
                Fetch::Nothing,
            ),
            Kind::AuthorsIn => Statement::inline(
                text_around_list(sql::AUTHORS_IN_A, &self.ids, sql::COMMA, sql::AUTHORS_IN_B),
                Fetch::Nothing,
            ),
            Kind::SuggestedTitlesIn => Statement::inline(
                text_around_list(
                    sql::SUGGESTED_TITLES_IN_A,
                    &self.ids,
                    sql::COMMA,
                    sql::SUGGESTED_TITLES_IN_B,
                ),
                Fetch::Nothing,
            ),
            Kind::SuggestedTaggingsIn => Statement::inline(
                text_around_list(
                    sql::SUGGESTED_TAGGINGS_IN_A,
                    &self.ids,
                    sql::COMMA,
                    sql::SUGGESTED_TAGGINGS_IN_B,
                ),
                Fetch::Nothing,
            ),
            Kind::TaggingsIn => Statement::inline(
                text_around_list(sql::TAGGINGS_IN_A, &self.ids, sql::COMMA, sql::TAGGINGS_IN_B),
                Fetch::All(Shape::TagId),
            ),
            Kind::TagsIn { sep } => Statement::inline(
                text_around_list(sql::TAGS_IN_A, &self.ids, sep_str(sep), sql::TAGS_IN_B),
                Fetch::Nothing,
            ),
            _ => vstd::pervasive::unreached(),
        }
    }

    /// Writes out a statement that loads what a viewer has marked, or the latest comments.
    fn render_marks(&self) -> (s: Statement)
        requires
            matches!(
                self.kind,
                Kind::VotesOnStories { .. }
                | Kind::HiddenAmong { .. }
                | Kind::SavedAmong { .. }
                | Kind::LatestComments { .. }
                | Kind::VotesOnComments { .. }
                | Kind::VotesForComments
                | Kind::VoteOnStory { .. }
                | Kind::HiddenStory { .. }
                | Kind::SavedStory { .. }
            ),
        ensures
            s@ == rendered(self@),
    {
        match self.kind {
            Kind::VotesOnStories { user } => Statement::inline(
                text_around_user_and_list(
                    sql::VOTES_ON_STORIES_A,
                    user,
                    sql::VOTES_ON_STORIES_B,
                    &self.ids,
                    sql::VOTES_ON_STORIES_C,
                ),
                Fetch::Nothing,
            ),
            Kind::HiddenAmong { user } => Statement::inline(
                text_around_user_and_list(
                    sql::HIDDEN_AMONG_A,
                    user,
                    sql::HIDDEN_AMONG_B,
                    &self.ids,
                    sql::HIDDEN_AMONG_C,
                ),
                Fetch::Nothing,
            ),
            Kind::SavedAmong { user } => Statement::inline(
                text_around_user_and_list(
                    sql::SAVED_AMONG_A,
                    user,
                    sql::SAVED_AMONG_B,
                    &self.ids,
                    sql::SAVED_AMONG_C,
                ),
                Fetch::Nothing,
            ),
            Kind::LatestComments { viewer } => {
                let mut text = owned(sql::LATEST_COMMENTS_A);
                push_not_hidden(&mut text, viewer);
                text.append(sql::LATEST_COMMENTS_B);
                Statement::inline(text, Fetch::All(Shape::CommentKeys))
            },
            Kind::VotesOnComments { user } => Statement::inline(
                text_around_user_and_list(
                    sql::VOTES_ON_COMMENTS_A,
                    user,
                    sql::VOTES_ON_COMMENTS_B,
                    &self.ids,
                    sql::VOTES_ON_COMMENTS_C,
                ),
                Fetch::Nothing,
            ),
            Kind::VotesForComments => Statement::inline(
                text_around_list(
                    sql::VOTES_FOR_COMMENTS_A,
                    &self.ids,
                    sql::COMMA_SPACE,
                    sql::VOTES_FOR_COMMENTS_B,
                ),
                Fetch::Nothing,
            ),
            Kind::VoteOnStory { user, story } => Statement::inline(
                text_around_pair(
                    sql::VOTE_ON_STORY_A,
                    user,
                    sql::VOTE_ON_STORY_B,
                    story,
                    sql::VOTE_ON_STORY_C,
                ),
                Fetch::Nothing,
            ),
            Kind::HiddenStory { user, story } => Statement::inline(
                text_around_pair(
                    sql::HIDDEN_STORY_A,
                    user,
                    sql::HIDDEN_STORY_B,
                    story,
                    sql::HIDDEN_STORY_C,
                ),
                Fetch::Nothing,
            ),
            Kind::SavedStory { user, story } => Statement::inline(
                text_around_pair(
                    sql::SAVED_STORY_A,
                    user,
                    sql::SAVED_STORY_B,
                    story,
                    sql::SAVED_STORY_C,
                ),
                Fetch::Nothing,
            ),
            _ => vstd::pervasive::unreached(),
        }
    }

    /// Writes out a statement of a story page.
    fn render_story(&self) -> (s: Statement)
        requires
            matches!(
                self.kind,
                Kind::StoryByShortId { .. }
                | Kind::UserById { .. }
                | Kind::Ribbon { .. }
                | Kind::InsertRibbon { .. }
                | Kind::TouchRibbon { .. }
                | Kind::MergedInto { .. }
                | Kind::CommentsOf { .. }
                | Kind::TaggingsOf { .. }
                | Kind::TagsOf { .. }
                | Kind::CommentVotesOf { .. }
            ),
        ensures
            s@ == rendered(self@),
    {
        match self.kind {
            Kind::StoryByShortId { id } => Statement::bound(
                owned(sql::STORY_BY_SHORT_ID),
                one(code(&id)),
                Fetch::First(Shape::Story),
            ),
            Kind::UserById { user } => Statement::bound(
                owned(sql::USER_BY_ID),
                one(num(user)),
                Fetch::Nothing,
            ),
            Kind::Ribbon { user, story } => Statement::inline(
                text_around_pair(sql::RIBBON_A, user, sql::RIBBON_B, story, sql::RIBBON_C),
                Fetch::First(Shape::Id),
            ),
            Kind::InsertRibbon { user, story, at } => Statement::bound(
                owned(sql::INSERT_RIBBON),
                four(Value::Date(at), Value::Date(at), num(user), num(story)),
                Fetch::Nothing,
            ),
            Kind::TouchRibbon { ribbon, at } => Statement::bound(
                owned(sql::TOUCH_RIBBON),
                two(Value::Date(at), num(ribbon)),
                Fetch::Nothing,
            ),
            Kind::MergedInto { story } => Statement::bound(
                owned(sql::MERGED_INTO),
                one(num(story)),
                Fetch::Nothing,
            ),
            Kind::CommentsOf { story } => Statement::bound(
                owned(sql::COMMENTS_OF),
                one(num(story)),
                Fetch::All(Shape::AuthorAndId),
            ),
            Kind::TaggingsOf { story } => Statement::bound(
                owned(sql::TAGGINGS_OF),
                one(num(story)),
                Fetch::All(Shape::TagId),
            ),
            Kind::TagsOf { story } => Statement::bound(
                owned(sql::TAGS_OF),
                one(num(story)),
                Fetch::Nothing,
            ),
            Kind::CommentVotesOf { story, except } => Statement::bound(
                owned(sql::COMMENT_VOTES_OF),
                two(num(story), num(except)),
                Fetch::Nothing,
            ),
            _ => vstd::pervasive::unreached(),
        }
    }

    /// Writes out a statement of a vote.
    fn render_vote(&self) -> (s: Statement)
        requires
            matches!(
                self.kind,
                Kind::VoteCheck { .. }
                | Kind::InsertVote { .. }
                | Kind::Karma { .. }
                | Kind::TallyStory { .. }
                | Kind::CommentByShortId { .. }
                | Kind::TallyComment { .. }
                | Kind::StoryById { .. }
            ),
        ensures
            s@ == rendered(self@),
    {
        match self.kind {
            Kind::VoteCheck { user, story, comment } => match comment {
                None => Statement::bound(
                    owned(sql::STORY_VOTE_CHECK),
                    two(num(user), key_param(story)),
                    Fetch::Nothing,
                ),
                Some(c) => Statement::bound(
                    owned(sql::COMMENT_VOTE_CHECK),
                    three(num(user), key_param(story), key_param(c)),
                    Fetch::Nothing,
                ),
            },
            Kind::InsertVote { user, story, comment, vote } => match comment {
                None => Statement::bound(
                    owned(sql::INSERT_STORY_VOTE),
                    three(num(user), num(story), vote_param(vote)),
                    Fetch::Nothing,
                ),
                Some(c) => Statement::bound(
                    owned(sql::INSERT_COMMENT_VOTE),
                    four(num(user), num(story), num(c), vote_param(vote)),
                    Fetch::Nothing,
                ),
            },
            Kind::Karma { author, vote, target } => {
                let text = match target {
                    Target::Story => {
                        let mut text = owned(sql::STORY_KARMA_A);
                        text.append(karma_str(vote));
                        text.append(sql::STORY_KARMA_B);
                        text
                    },
                    Target::Comment => {
                        let mut text = owned(sql::COMMENT_KARMA_A);
                        text.append(karma_str(vote));
                        text.append(sql::COMMENT_KARMA_B);
                        text
                    },
                };
                Statement::bound(text, one(num(author)), Fetch::Nothing)
            },
            Kind::TallyStory { story, vote } => Statement::spliced(
                text_of_tally(sql::TALLY_STORY_A, sql::TALLY_STORY_B, sql::TALLY_STORY_C, vote),
                Figure::Moved { base: self.base(), by: worth_of(vote) },
                owned(sql::TALLY_STORY_D),
                one(num(story)),
            ),
            Kind::CommentByShortId { id } => Statement::bound(
                owned(sql::COMMENT_BY_SHORT_ID),
                one(code(&id)),
                Fetch::First(Shape::CommentTally),
            ),
            Kind::TallyComment { comment, vote, upvotes, downvotes } => Statement::spliced(
                text_of_tally(sql::TALLY_COMMENT_A, sql::TALLY_COMMENT_B, sql::TALLY_COMMENT_C, vote),
                Figure::Share {
                    upvotes: ups_after(upvotes, vote),
                    downvotes: downs_after(downvotes, vote),
                },
                owned(sql::TALLY_COMMENT_D),
                one(num(comment)),
            ),
            Kind::StoryById { story } => Statement::bound(
                owned(sql::STORY_BY_ID),
                one(num(story)),
                Fetch::First(Shape::StoryScore),
            ),
            _ => vstd::pervasive::unreached(),
        }
    }

    /// Writes out a statement of a submission.
    fn render_submission(&self) -> (s: Statement)
        requires
            matches!(
                self.kind,
                Kind::SeedTag
                | Kind::StoryShortIdTaken { .. }
                | Kind::InsertStory { .. }
                | Kind::InsertTagging { .. }
                | Kind::BumpCounter { .. }
                | Kind::InsertOwnVote { .. }
                | Kind::CommentVotesOfOthers { .. }
                | Kind::SettleHotness { .. }
            ),
        ensures
            s@ == rendered(self@),
    {
        match self.kind {
            Kind::SeedTag => Statement::inline(owned(sql::SEED_TAG), Fetch::First(Shape::Id)),
            Kind::StoryShortIdTaken { id } => Statement::bound(
                owned(sql::STORY_SHORT_ID_TAKEN),
                one(code(&id)),
                Fetch::Nothing,
            ),
            Kind::InsertStory { user, id, at } => Statement::bound(
                owned(sql::INSERT_STORY),
                story_params(user, &self.word, &id, at),
                Fetch::InsertId,
            ),
            Kind::InsertTagging { story, tag } => Statement::bound(
                owned(sql::INSERT_TAGGING),
                two(Value::UInt(story), num(tag)),
                Fetch::Nothing,
            ),
            Kind::BumpCounter { user, which } => Statement::inline(
                text_of_counter(sql::BUMP_COUNTER_A, user, which, sql::BUMP_COUNTER_B),
                Fetch::Nothing,
            ),
            Kind::InsertOwnVote { user, story, comment } => match comment {
                None => Statement::bound(
                    owned(sql::INSERT_OWN_STORY_VOTE),
                    two(num(user), key_param(story)),
                    Fetch::Nothing,
                ),
                Some(c) => Statement::bound(
                    owned(sql::INSERT_OWN_COMMENT_VOTE),
                    three(num(user), key_param(story), key_param(c)),
                    Fetch::Nothing,
                ),
            },
            Kind::CommentVotesOfOthers { story, user } => Statement::bound(
                owned(sql::COMMENT_VOTES_OF_OTHERS),
                two(Value::UInt(story), num(user)),
                Fetch::Nothing,
            ),
            Kind::SettleHotness { story } => {
                let mut text = owned(sql::SET_HOTNESS_A);
                text.append(sql::SUBMITTED_HOTNESS);
                text.append(sql::SET_HOTNESS_B);
                Statement::bound(text, one(Value::UInt(story)), Fetch::Nothing)
            },
            _ => vstd::pervasive::unreached(),
        }
    }

    /// Writes out a statement of a posted comment.
    fn render_comment(&self) -> (s: Statement)
        requires
            matches!(
                self.kind,
                Kind::ParentComment { .. }
                | Kind::CommentShortIdTaken { .. }
                | Kind::InsertComment { .. }
                | Kind::CountComments { .. }
                | Kind::SetCommentCount { .. }
                | Kind::RewriteHotness { .. }
            ),
        ensures
            s@ == rendered(self@),
    {
        match self.kind {
            Kind::ParentComment { story, id } => Statement::bound(
                owned(sql::PARENT_COMMENT),
                two(num(story), code(&id)),
                Fetch::First(Shape::Thread),
            ),
            Kind::CommentShortIdTaken { id } => Statement::bound(
                owned(sql::COMMENT_SHORT_ID_TAKEN),
                one(code(&id)),
                Fetch::Nothing,
            ),
            Kind::InsertComment { user, story, id, parent, at } => {
                let text = if parent.is_some() {
                    owned(sql::INSERT_REPLY)
                } else {
                    owned(sql::INSERT_COMMENT)
                };
                Statement::bound(text, comment_params(user, story, &id, parent, at), Fetch::InsertId)
            },
            Kind::CountComments { story } => Statement::bound(
                owned(sql::COUNT_COMMENTS),
                one(num(story)),
                Fetch::Count,
            ),
            Kind::SetCommentCount { story, count } => Statement::bound(
                text_around_number(sql::SET_COMMENT_COUNT_A, count, sql::SET_COMMENT_COUNT_B),
                one(num(story)),
                Fetch::Nothing,
            ),
            Kind::RewriteHotness { story } => Statement::spliced(
                owned(sql::SET_HOTNESS_A),
                Figure::Moved { base: self.base(), by: 0 },
                owned(sql::SET_HOTNESS_B),
                one(num(story)),
            ),
            _ => vstd::pervasive::unreached(),
        }
    }

    /// Writes the statement out: its text, its parameters, how it is sent and
    /// what is read from its result.
    pub fn render(&self) -> (s: Statement)
        ensures
            s@ == rendered(self@),
    {
        match self.kind {
            Kind::SessionByToken
            | Kind::UserByName { .. }
            | Kind::FavouriteTag { .. }
            | Kind::Counter { .. }
            | Kind::HatCheck { .. }
            | Kind::UserExists { .. }
            | Kind::InsertUser { .. }
            | Kind::UnreadReplies { .. }
            | Kind::UnreadMessages { .. } => self.render_profile(),
            Kind::TagFilters { .. }
            | Kind::Frontpage { .. }
            | Kind::Recent { .. }
            | Kind::StoriesIn
            | Kind::UsersIn { .. }
            | Kind::AuthorsIn
            | Kind::SuggestedTitlesIn
            | Kind::SuggestedTaggingsIn
            | Kind::TaggingsIn
            | Kind::TagsIn { .. } => self.render_listing(),
            Kind::VotesOnStories { .. }
            | Kind::HiddenAmong { .. }
            | Kind::SavedAmong { .. }
            | Kind::LatestComments { .. }
            | Kind::VotesOnComments { .. }
            | Kind::VotesForComments
            | Kind::VoteOnStory { .. }
            | Kind::HiddenStory { .. }
            | Kind::SavedStory { .. } => self.render_marks(),
            Kind::StoryByShortId { .. }
            | Kind::UserById { .. }
            | Kind::Ribbon { .. }
            | Kind::InsertRibbon { .. }
            | Kind::TouchRibbon { .. }
            | Kind::MergedInto { .. }
            | Kind::CommentsOf { .. }
            | Kind::TaggingsOf { .. }
            | Kind::TagsOf { .. }
            | Kind::CommentVotesOf { .. } => self.render_story(),
            Kind::VoteCheck { .. }
            | Kind::InsertVote { .. }
            | Kind::Karma { .. }
            | Kind::TallyStory { .. }
            | Kind::CommentByShortId { .. }
            | Kind::TallyComment { .. }
            | Kind::StoryById { .. } => self.render_vote(),
            Kind::SeedTag
            | Kind::StoryShortIdTaken { .. }
            | Kind::InsertStory { .. }
            | Kind::InsertTagging { .. }
            | Kind::BumpCounter { .. }
            | Kind::InsertOwnVote { .. }
            | Kind::CommentVotesOfOthers { .. }
            | Kind::SettleHotness { .. } => self.render_submission(),
            Kind::ParentComment { .. }
            | Kind::CommentShortIdTaken { .. }
            | Kind::InsertComment { .. }
            | Kind::CountComments { .. }
            | Kind::SetCommentCount { .. }
            | Kind::RewriteHotness { .. } => self.render_comment(),
        }
    }
}

/// What is read from the result of a statement of `kind`.
pub open spec fn read_from(kind: Kind) -> Fetch {
    match kind {
        Kind::UserByName { .. } => Fetch::First(Shape::Id),
        Kind::TagFilters { .. } => Fetch::All(Shape::TagId),
        Kind::Frontpage { .. } => Fetch::All(Shape::AuthorAndId),
        Kind::Recent { .. } => Fetch::All(Shape::Id),
        Kind::StoriesIn => Fetch::All(Shape::AuthorAndId),
        Kind::TaggingsIn => Fetch::All(Shape::TagId),
        Kind::LatestComments { .. } => Fetch::All(Shape::CommentKeys),
        Kind::UserExists { .. } => Fetch::First(Shape::Presence),
        Kind::StoryByShortId { .. } => Fetch::First(Shape::Story),
        Kind::Ribbon { .. } => Fetch::First(Shape::Id),
        Kind::CommentsOf { .. } => Fetch::All(Shape::AuthorAndId),
        Kind::TaggingsOf { .. } => Fetch::All(Shape::TagId),
        Kind::CommentByShortId { .. } => Fetch::First(Shape::CommentTally),
        Kind::StoryById { .. } => Fetch::First(Shape::StoryScore),
        Kind::SeedTag => Fetch::First(Shape::Id),
        Kind::InsertStory { .. } => Fetch::InsertId,
        Kind::ParentComment { .. } => Fetch::First(Shape::Thread),
        Kind::InsertComment { .. } => Fetch::InsertId,
        Kind::CountComments { .. } => Fetch::Count,
        _ => Fetch::Nothing,
    }
}

/// A statement is read as its kind says, whatever it is keyed by.
pub proof fn lemma_read_as_its_kind_says(q: QueryView)
    ensures
        rendered(q).fetch == read_from(q.kind),
{
}

} // verus!
