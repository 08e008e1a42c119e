//! A task from its first turn to its last.
//!
//! `Task::start` takes the request and hands out the first script;
//! `Task::advance` takes the reply to the last statement of a script and hands
//! out the next one. Every script is to be carried out on the one connection
//! that the caller holds for the task. A task that fails hands out nothing
//! more: an open transaction is then left uncommitted.

use crate::clock::{Timestamp, local_now};
use crate::closing::{Sessions, open_script, opening, session_token};
use crate::comment::{
    after_comment_begun, after_comment_counted, after_comment_inserted, after_comment_parent,
    after_comment_story, begin_comment,
};
use crate::listing::{
    after_comment_stories, after_filters, after_latest_comments, after_listing, after_recent_ids,
    after_taggings, begin_comments, begin_frontpage, begin_recent,
};
use crate::profile::{after_login_check, after_profile, begin_login, begin_logout, begin_profile};
use crate::reply::{Reply, ReplyView};
use crate::request::{Request, RequestView};
use crate::story::{
    after_ribbon, after_story_comments, after_story_page, after_story_taggings, begin_story,
};
use crate::submit::{after_seed_tag, after_story_inserted, after_submit_begun, begin_submit};
use crate::task::{Action, Failure, Stage, Task, TaskView, Turn, prefixed, taken};
use crate::vote::{
    after_vote_comment, after_vote_comment_story, after_vote_story, begin_comment_vote,
    begin_story_vote,
};
use vstd::prelude::*;

verus! {

/// The first turn of `request`, without the opening.
pub open spec fn begun(acting_as: Option<u32>, request: RequestView) -> Turn {
    match request {
        RequestView::User(suffix) => begin_profile(acting_as, suffix),
        RequestView::Frontpage => begin_frontpage(acting_as),
        RequestView::Comments => begin_comments(acting_as),
        RequestView::Recent => begin_recent(acting_as),
        RequestView::Login => begin_login(acting_as),
        RequestView::Logout => begin_logout(acting_as),
        RequestView::Story(id) => begin_story(acting_as, id),
        RequestView::StoryVote(id, vote) => begin_story_vote(acting_as, id, vote),
        RequestView::CommentVote(id, vote) => begin_comment_vote(acting_as, id, vote),
        RequestView::Submit { id, title } => begin_submit(acting_as, id, title),
        RequestView::Comment { id, story, parent } => begin_comment(acting_as, id, story, parent),
    }
}

/// The first turn of `request` for `acting_as`: the session lookup, where the
/// user is known to be signed in, then what the request begins with.
pub open spec fn started(
    sessions: Map<u32, Seq<char>>,
    acting_as: Option<u32>,
    request: RequestView,
) -> Turn {
    prefixed(opening(session_token(sessions, acting_as)), begun(acting_as, request))
}

/// The turn that `task` takes on `reply`, with `now` on the clock.
pub open spec fn advanced(task: TaskView, reply: ReplyView, now: Timestamp) -> Turn {
    let who = task.acting_as;
    match task.stage {
        Stage::Profile => after_profile(who, reply),
        Stage::Filters { page } => after_filters(who, page, reply),
        Stage::RecentIds => after_recent_ids(who, reply),
        Stage::Listing { page } => after_listing(who, page, reply),
        Stage::Taggings { page } => after_taggings(who, page, task.ids, reply),
        Stage::LatestComments => after_latest_comments(who, reply),
        Stage::CommentStories => after_comment_stories(who, task.ids, reply),
        Stage::LoginCheck { user } => after_login_check(who, user, reply, now),
        Stage::StoryPage => after_story_page(who, reply),
        Stage::Ribbon { user, story } => after_ribbon(who, user, story, reply, now),
        Stage::StoryComments { story } => after_story_comments(who, story, reply),
        Stage::StoryTaggings => after_story_taggings(who, reply),
        Stage::VoteStory { user, vote } => after_vote_story(who, user, vote, reply),
        Stage::VoteComment { user, vote } => after_vote_comment(who, user, vote, reply),
        Stage::VoteCommentStory { story, vote } => after_vote_comment_story(
            who,
            story,
            vote,
            reply,
        ),
        Stage::SeedTag { user, id } => after_seed_tag(who, user, id, task.word, reply),
        Stage::SubmitBegun { user, id, tag } => after_submit_begun(
            who,
            user,
            id,
            tag,
            task.word,
            reply,
            now,
        ),
        Stage::StoryInserted { user, tag } => after_story_inserted(who, user, tag, reply),
        Stage::CommentStory { user, id, parent } => after_comment_story(
            who,
            user,
            id,
            parent,
            reply,
        ),
        Stage::CommentParent { user, id, story, author, wanted } => after_comment_parent(
            who,
            user,
            id,
            story,
            author,
            wanted,
            task.score,
            reply,
        ),
        Stage::CommentBegun { user, id, story, author, parent } => after_comment_begun(
            who,
            user,
            id,
            story,
            author,
            parent,
            task.score,
            reply,
            now,
        ),
        Stage::CommentInserted { user, story, author } => after_comment_inserted(
            who,
            user,
            story,
            author,
            task.score,
            reply,
        ),
        Stage::CommentCounted { user, story, author } => after_comment_counted(
            who,
            user,
            story,
            author,
            task.score,
            reply,
        ),
        Stage::Done => Turn::failed(who, Failure::Finished),
    }
}

impl Stage {
    /// Whether the turn taken at this stage stamps a row with the time.
    pub open spec fn spec_reads_clock(self) -> bool {
        self is LoginCheck || self is Ribbon || self is SubmitBegun || self is CommentBegun
    }

    /// Whether the turn taken at this stage stamps a row with the time.
    #[verifier::when_used_as_spec(spec_reads_clock)]
    pub fn reads_clock(self) -> (reads: bool)
        ensures
            reads == self.spec_reads_clock(),
    {
        match self {
            Stage::LoginCheck { .. } => true,
            Stage::Ribbon { .. } => true,
            Stage::SubmitBegun { .. } => true,
            Stage::CommentBegun { .. } => true,
            _ => false,
        }
    }
}

/// Only the turns that stamp a row depend on the clock.
pub proof fn lemma_clock_matters_only_where_read(
    task: TaskView,
    reply: ReplyView,
    now: Timestamp,
    later: Timestamp,
)
    requires
        !task.stage.reads_clock(),
    ensures
        advanced(task, reply, now) == advanced(task, reply, later),
{
}

impl Task {
    /// Begins `request` for `acting_as` and hands out the first script.
    ///
    /// A request that acts for a user and is given none fails at once with
    /// [`Failure::NoActingUser`]: these are logging in, voting, submitting and
    /// commenting.
    pub fn start(sessions: &Sessions, acting_as: Option<u32>, request: Request) -> (r: (
        Task,
        Result<Vec<Action>, Failure>,
    ))
        ensures
            taken(r.0@, r.1) == started(sessions@, acting_as, request@),
    {
        let opening = open_script(sessions, acting_as);
        match request {
            Request::User(suffix) => Task::begin_profile(acting_as, suffix, opening),
            Request::Frontpage => Task::begin_frontpage(acting_as, opening),
            Request::Comments => Task::begin_comments(acting_as, opening),
            Request::Recent => Task::begin_recent(acting_as, opening),
            Request::Login => Task::begin_login(acting_as, opening),
            Request::Logout => Task::begin_logout(acting_as, opening),
            Request::Story(id) => Task::begin_story(acting_as, id, opening),
            Request::StoryVote(id, vote) => Task::begin_story_vote(acting_as, id, vote, opening),
            Request::CommentVote(id, vote) => Task::begin_comment_vote(
                acting_as,
                id,
                vote,
                opening,
            ),
            Request::Submit { id, title } => Task::begin_submit(acting_as, id, title, opening),
            Request::Comment { id, story, parent } => Task::begin_comment(
                acting_as,
                id,
                story,
                parent,
                opening,
            ),
        }
    }

    /// Takes the reply to the last statement of the script handed out before,
    /// with `now` on the clock, and hands out the next script.
    ///
    /// The task fails with [`Failure::UnexpectedReply`] where the reply is not
    /// one to that statement, with [`Failure::MissingRow`] where a row that the
    /// request cannot do without was not found, with [`Failure::NoInsertId`]
    /// where the store gave no id to an inserted row, and with
    /// [`Failure::Finished`] where the task had ended before.
    pub fn advance_at(&mut self, reply: Reply, now: Timestamp) -> (r: Result<Vec<Action>, Failure>)
        ensures
            taken(final(self)@, r) == advanced(old(self)@, reply@, now),
    {
        match self.stage {
            Stage::Profile => self.after_profile(reply),
            Stage::Filters { page } => self.after_filters(page, reply),
            Stage::RecentIds => self.after_recent_ids(reply),
            Stage::Listing { page } => self.after_listing(page, reply),
            Stage::Taggings { page } => self.after_taggings(page, reply),
            Stage::LatestComments => self.after_latest_comments(reply),
            Stage::CommentStories => self.after_comment_stories(reply),
            Stage::LoginCheck { user } => self.after_login_check(user, reply, now),
            Stage::StoryPage => self.after_story_page(reply),
            Stage::Ribbon { user, story } => self.after_ribbon(user, story, reply, now),
            Stage::StoryComments { story } => self.after_story_comments(story, reply),
            Stage::StoryTaggings => self.after_story_taggings(reply),
            Stage::VoteStory { user, vote } => self.after_vote_story(user, vote, reply),
            Stage::VoteComment { user, vote } => self.after_vote_comment(user, vote, reply),
            Stage::VoteCommentStory { story, vote } => self.after_vote_comment_story(
                story,
                vote,
                reply,
            ),
            Stage::SeedTag { user, id } => self.after_seed_tag(user, id, reply),
            Stage::SubmitBegun { user, id, tag } => self.after_submit_begun(
                user,
                id,
                tag,
                reply,
                now,
            ),
            Stage::StoryInserted { user, tag } => self.after_story_inserted(user, tag, reply),
            Stage::CommentStory { user, id, parent } => self.after_comment_story(
                user,
                id,
                parent,
                reply,
            ),
            Stage::CommentParent { user, id, story, author, wanted } => self.after_comment_parent(
                user,
                id,
                story,
                author,
                wanted,
                reply,
            ),
            Stage::CommentBegun { user, id, story, author, parent } => self.after_comment_begun(
                user,
                id,
                story,
                author,
                parent,
                reply,
                now,
            ),
            Stage::CommentInserted { user, story, author } => self.after_comment_inserted(
                user,
                story,
                author,
                reply,
            ),
            Stage::CommentCounted { user, story, author } => self.after_comment_counted(
                user,
                story,
                author,
                reply,
            ),
            Stage::Done => self.fail(Failure::Finished),
        }
    }

    /// Takes the reply to the last statement of the script handed out before
    /// and hands out the next script. Where the turn stamps a row, the time is
    /// read from the machine's clock; whatever it shows, the turn is the one
    /// that `advance_at` takes at that time.
    pub fn advance(&mut self, reply: Reply) -> (r: Result<Vec<Action>, Failure>)
        ensures
            exists|now: Timestamp|
                now.in_calendar() && taken(final(self)@, r) == #[trigger] advanced(
                    old(self)@,
                    reply@,
                    now,
                ),
    {
        let now = if self.stage.reads_clock() {
            local_now()
        } else {
            Timestamp::epoch()
        };
        let ghost before = self@;
        let ghost said = reply@;
        let r = self.advance_at(reply, now);
        assert(now.in_calendar() && taken(self@, r) == advanced(before, said, now));
        r
    }
}

} // verus!
