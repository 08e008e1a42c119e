//! The statements the library can ask for, by what they mean.
//!
//! A [`Query`] says which statement is meant and carries its arguments; its text
//! and parameters are written out by `Query::render`.

use crate::clock::Timestamp;
use crate::request::{ShortId, Vote};
use crate::score::{Double, Level};
use vstd::prelude::*;

verus! {

/// How the ids of a list are separated in statement text.
#[derive(Clone, Copy, Debug, PartialEq, Eq)]
pub enum Sep {
    /// A comma.
    Tight,
    /// A comma and a space.
    Spaced,
}

/// One of the per-user counters in the keystore.
#[derive(Clone, Copy, Debug, PartialEq, Eq)]
pub enum Counter {
    StoriesSubmitted,
    CommentsPosted,
}

/// What a vote is cast on.
#[derive(Clone, Copy, Debug, PartialEq, Eq)]
pub enum Target {
    Story,
    Comment,
}

/// The id of a row: read from a reply, or given out by the store for a row that
/// the running task has just inserted.
#[derive(Clone, Copy, Debug, PartialEq, Eq)]
pub enum Key {
    Read(u32),
    Fresh(u64),
}

impl Key {
    /// The id as a number.
    pub open spec fn number(self) -> nat {
        match self {
            Key::Read(id) => id as nat,
            Key::Fresh(id) => id as nat,
        }
    }
}

/// The comment that a new comment answers.
#[derive(Clone, Copy, Debug, PartialEq, Eq)]
pub struct Parent {
    pub id: u32,
    pub thread: Option<u32>,
}

/// Which statement, with those of its arguments that are plain numbers, codes
/// and clock readings. The list of ids, the one piece of free text and the score
/// that some statements take are held beside it in the [`Query`].
#[allow(inconsistent_fields)]
#[derive(Clone, Copy, Debug, PartialEq, Eq)]
pub enum Kind {
    /// The user row that the session token in `word` belongs to.
    SessionByToken,
    /// The user row of the user named by `suffix`.
    UserByName { suffix: u32 },
    /// The active tag that occurs most often on the stories of `user`.
    FavouriteTag { user: u32 },
    /// The value of one of a user's counters.
    Counter { user: u32, which: Counter },
    /// Whether `user` owns a hat.
    HatCheck { user: u32 },
    /// The tags that `user` has filtered out.
    TagFilters { user: u32 },
    /// The front page. For a viewer, without the stories they have hidden and
    /// without those tagged with any of `ids`.
    Frontpage { viewer: Option<u32> },
    /// The ids of the newest stories, with the same exclusions as the front page.
    Recent { viewer: Option<u32> },
    /// The story rows with an id in `ids`.
    StoriesIn,
    /// The user rows with an id in `ids`.
    UsersIn { sep: Sep },
    /// The user rows of the story authors in `ids`.
    AuthorsIn,
    /// Title suggestions for the stories in `ids`.
    SuggestedTitlesIn,
    /// Tag suggestions for the stories in `ids`.
    SuggestedTaggingsIn,
    /// The taggings of the stories in `ids`.
    TaggingsIn,
    /// The tag rows with an id in `ids`.
    TagsIn { sep: Sep },
    /// The votes of `user` on the stories in `ids`.
    VotesOnStories { user: u32 },
    /// Which of the stories in `ids` the user has hidden.
    HiddenAmong { user: u32 },
    /// Which of the stories in `ids` the user has saved.
    SavedAmong { user: u32 },
    /// The twenty newest comments. For a viewer, without those on stories they
    /// have hidden.
    LatestComments { viewer: Option<u32> },
    /// The votes of `user` on the comments in `ids`.
    VotesOnComments { user: u32 },
    /// Whether the user name of `user` is taken.
    UserExists { user: u32 },
    /// A new row for `user`, with name, address and tokens derived from the number.
    InsertUser { user: u32, at: Timestamp },
    /// The story row with this short id.
    StoryByShortId { id: ShortId },
    /// The user row with this id.
    UserById { user: u32 },
    /// The read ribbon of `user` on `story`.
    Ribbon { user: u32, story: u32 },
    /// A first read ribbon of `user` on `story`.
    InsertRibbon { user: u32, story: u32, at: Timestamp },
    /// The ribbon with this id, seen again.
    TouchRibbon { ribbon: u32, at: Timestamp },
    /// The stories merged into `story`.
    MergedInto { story: u32 },
    /// The comments of `story`: those with a negative score last, the more
    /// confident first.
    CommentsOf { story: u32 },
    /// All votes on the comments in `ids`.
    VotesForComments,
    /// The vote of `user` on `story`.
    VoteOnStory { user: u32, story: u32 },
    /// Whether `user` has hidden `story`.
    HiddenStory { user: u32, story: u32 },
    /// Whether `user` has saved `story`.
    SavedStory { user: u32, story: u32 },
    /// The taggings of `story`.
    TaggingsOf { story: u32 },
    /// An earlier vote of `user` on `story`, or on `comment` where one is given.
    VoteCheck { user: u32, story: Key, comment: Option<Key> },
    /// A vote of `user` on `story`, or on `comment` where one is given.
    InsertVote { user: u32, story: u32, comment: Option<u32>, vote: Vote },
    /// The karma of `author`, one up or one down.
    Karma { author: u32, vote: Vote, target: Target },
    /// The tags of `story`.
    TagsOf { story: u32 },
    /// The vote counts of the comments of `story` that `except` did not write.
    CommentVotesOf { story: u32, except: u32 },
    /// The vote counts of `story` after `vote`, and its hotness: the score held
    /// beside this kind, moved by what the vote is worth.
    TallyStory { story: u32, vote: Vote },
    /// The comment row with this short id.
    CommentByShortId { id: ShortId },
    /// The vote counts of `comment` after `vote`, and its confidence: the share
    /// of upvotes among all its votes once `vote` is counted in with the
    /// `upvotes` and `downvotes` that were read.
    TallyComment { comment: u32, vote: Vote, upvotes: u32, downvotes: u32 },
    /// The story row with this id.
    StoryById { story: u32 },
    /// The tag that every submitted story carries, if it is active.
    SeedTag,
    /// Whether a story has this short id.
    StoryShortIdTaken { id: ShortId },
    /// A new story by `user`, titled `word`, with one upvote.
    InsertStory { user: u32, id: ShortId, at: Timestamp },
    /// `tag` on `story`.
    InsertTagging { story: u64, tag: u32 },
    /// One more on one of a user's counters, which starts at one.
    BumpCounter { user: u32, which: Counter },
    /// The upvote of `user` on their own new story, or on their own new comment.
    InsertOwnVote { user: u32, story: Key, comment: Option<Key> },
    /// The vote counts of the comments of the new `story` that `user` did not write.
    CommentVotesOfOthers { story: u64, user: u32 },
    /// The hotness of the new `story`, set to the value every story starts from.
    SettleHotness { story: u64 },
    /// The comment of `story` with this short id.
    ParentComment { story: u32, id: ShortId },
    /// Whether a comment has this short id.
    CommentShortIdTaken { id: ShortId },
    /// A new comment by `user` on `story`, with one upvote, under `parent`
    /// where one is given.
    InsertComment { user: u32, story: u32, id: ShortId, parent: Option<Parent>, at: Timestamp },
    /// The comments of `story`, to be counted.
    CountComments { story: u32 },
    /// The comment count of `story`.
    SetCommentCount { story: u32, count: u64 },
    /// The hotness of `story`, written again as the score held beside this kind.
    RewriteHotness { story: u32 },
    /// How many unread replies `user` has.
    UnreadReplies { user: u32 },
    /// The unread-message counter of `user`.
    UnreadMessages { user: u32 },
}

/// A statement to issue.
#[derive(Clone, Debug, PartialEq, Eq)]
pub struct Query {
    pub kind: Kind,
    /// The ids of the list that the statement is keyed by; empty where it has none.
    pub ids: Vec<u32>,
    /// The session token or the title; empty where the statement takes neither.
    pub word: String,
    /// The score that the statement writes from; `None` where it writes none.
    pub score: Option<Double>,
}

/// A statement in contracts.
pub struct QueryView {
    pub kind: Kind,
    pub ids: Seq<u32>,
    pub word: Seq<char>,
    pub score: Option<Level>,
}

/// A score, where there is one, in contracts.
pub open spec fn level_of(score: Option<Double>) -> Option<Level> {
    match score {
        Some(d) => Some(d@),
        None => None,
    }
}

impl View for Query {
    type V = QueryView;

    open spec fn view(&self) -> QueryView {
        QueryView { kind: self.kind, ids: self.ids@, word: self.word@, score: level_of(self.score) }
    }
}

impl QueryView {
    /// The statement of `kind` that takes no list, text or score.
    pub open spec fn plain(kind: Kind) -> QueryView {
        QueryView { kind, ids: Seq::empty(), word: Seq::empty(), score: None }
    }

    /// The statement of `kind` over the list `ids`.
    pub open spec fn over(kind: Kind, ids: Seq<u32>) -> QueryView {
        QueryView { kind, ids, word: Seq::empty(), score: None }
    }

    /// The statement of `kind` with the text `word`.
    pub open spec fn worded(kind: Kind, word: Seq<char>) -> QueryView {
        QueryView { kind, ids: Seq::empty(), word, score: None }
    }

    /// The statement of `kind` that writes from `score`.
    pub open spec fn scored(kind: Kind, score: Level) -> QueryView {
        QueryView { kind, ids: Seq::empty(), word: Seq::empty(), score: Some(score) }
    }
}

impl Query {
    /// The statement of `kind` that takes no list, text or score.
    pub fn plain(kind: Kind) -> (q: Query)
        ensures
            q@ == QueryView::plain(kind),
    {
        Query { kind, ids: Vec::new(), word: String::new(), score: None }
    }

    /// The statement of `kind` over the list `ids`.
    pub fn over(kind: Kind, ids: Vec<u32>) -> (q: Query)
        ensures
            q@ == QueryView::over(kind, ids@),
    {
        Query { kind, ids, word: String::new(), score: None }
    }

    /// The statement of `kind` with the text `word`.
    pub fn worded(kind: Kind, word: String) -> (q: Query)
        ensures
            q@ == QueryView::worded(kind, word@),
    {
        Query { kind, ids: Vec::new(), word, score: None }
    }

    /// The statement of `kind` that writes from `score`.
    pub fn scored(kind: Kind, score: Double) -> (q: Query)
        ensures
            q@ == QueryView::scored(kind, score@),
    {
        Query { kind, ids: Vec::new(), word: String::new(), score: Some(score) }
    }
}

} // verus!
