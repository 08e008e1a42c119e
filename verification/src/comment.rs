//! Posting a comment.
//!
//! The story, the parent comment where one is named, and the short id are
//! looked at first. The comment row, the author's own upvote, the story's
//! comment count and hotness, and the author's counter are written inside one
//! transaction.

use crate::clock::Timestamp;
use crate::closing::{closing, push_closing};
use crate::query::{Counter, Key, Kind, Parent};
use crate::render::base_of;
use crate::reply::{
    CellView, Reply, ReplyView, answers, count_in, first_in, insert_id_in, maybe_number_at,
    maybe_number_in, number_at, number_in, score_at, score_in,
};
use crate::request::ShortId;
use crate::score::{Double, Level};
use crate::statement::{Fetch, Shape};
use crate::task::{
    Action, ActionView, Failure, Notice, Stage, Task, TaskView, Turn, actions, no_actions, prefixed,
    push_action, push_plain, push_scored, run, run_scored, taken,
};
use vstd::prelude::*;

verus! {

/// The first turn of a comment: the story row, by short id. A comment needs a
/// user.
pub open spec fn begin_comment(
    acting_as: Option<u32>,
    id: ShortId,
    story: ShortId,
    parent: Option<ShortId>,
) -> Turn {
    match acting_as {
        None => Turn::failed(acting_as, Failure::NoActingUser),
        Some(user) => Turn::to(
            acting_as,
            Stage::CommentStory { user, id, parent },
            seq![run(Kind::StoryByShortId { id: story })],
        ),
    }
}

/// What is looked at last before the transaction, and its opening.
pub open spec fn ready_script(id: ShortId) -> Seq<ActionView> {
    seq![run(Kind::CommentShortIdTaken { id }), ActionView::Begin]
}

/// The turn after the story row came back: the story's author, then the
/// parent where one is named, else the way into the transaction. The task
/// holds the story's hotness from here on. Without the row the task fails.
pub open spec fn after_comment_story(
    acting_as: Option<u32>,
    user: u32,
    id: ShortId,
    parent: Option<ShortId>,
    reply: ReplyView,
) -> Turn {
    if !answers(Fetch::First(Shape::Story), reply) {
        Turn::failed(acting_as, Failure::UnexpectedReply)
    } else {
        match first_in(reply) {
            None => Turn::failed(acting_as, Failure::MissingRow),
            Some(row) => {
                let author = number_in(row[0]);
                let story = number_in(row[1]);
                let hotness = Some(score_in(row[2]));
                match parent {
                    Some(wanted) => Turn::on(
                        TaskView::at(
                            acting_as,
                            Stage::CommentParent { user, id, story, author, wanted },
                        ).holding_score(hotness),
                        seq![
                            run(Kind::UserById { user: author }),
                            run(Kind::ParentComment { story, id: wanted }),
                        ],
                    ),
                    None => Turn::on(
                        TaskView::at(
                            acting_as,
                            Stage::CommentBegun { user, id, story, author, parent: None },
                        ).holding_score(hotness),
                        seq![run(Kind::UserById { user: author })] + ready_script(id),
                    ),
                }
            },
        }
    }
}

/// The parent that a row of the comments table stands for.
pub open spec fn parent_in(found: Option<Seq<CellView>>) -> Option<Parent> {
    match found {
        Some(row) => Some(Parent { id: number_in(row[0]), thread: maybe_number_in(row[1]) }),
        None => None,
    }
}

/// What there is to log about the parent that was looked for.
pub open spec fn parent_notice(found: Option<Seq<CellView>>, wanted: ShortId, story: u32) -> Option<
    Notice,
> {
    match found {
        Some(_) => None,
        None => Some(Notice::ParentNotFound { parent: wanted, story }),
    }
}

/// The turn after the parent came back: the way into the transaction. A
/// parent that is not among the story's comments is noted, and the comment
/// goes on without one.
pub open spec fn after_comment_parent(
    acting_as: Option<u32>,
    user: u32,
    id: ShortId,
    story: u32,
    author: u32,
    wanted: ShortId,
    hotness: Option<Level>,
    reply: ReplyView,
) -> Turn {
    if !answers(Fetch::First(Shape::Thread), reply) {
        Turn::failed(acting_as, Failure::UnexpectedReply)
    } else {
        let found = first_in(reply);
        Turn::on(
            TaskView::at(
                acting_as,
                Stage::CommentBegun { user, id, story, author, parent: parent_in(found) },
            ).holding_score(hotness).noting(parent_notice(found, wanted, story)),
            ready_script(id),
        )
    }
}

/// The turn after the transaction was opened: the comment row is inserted,
/// with `now` as the time of creation and of the last change.
pub open spec fn after_comment_begun(
    acting_as: Option<u32>,
    user: u32,
    id: ShortId,
    story: u32,
    author: u32,
    parent: Option<Parent>,
    hotness: Option<Level>,
    reply: ReplyView,
    now: Timestamp,
) -> Turn {
    if !answers(Fetch::Nothing, reply) {
        Turn::failed(acting_as, Failure::UnexpectedReply)
    } else {
        Turn::on(
            TaskView::at(acting_as, Stage::CommentInserted { user, story, author }).holding_score(
                hotness,
            ),
            seq![run(Kind::InsertComment { user, story, id, parent, at: now })],
        )
    }
}

/// What follows the comment row inside the transaction, up to the count of
/// the story's comments.
pub open spec fn own_vote_script(user: u32, story: u32, comment: u64) -> Seq<ActionView> {
    seq![
        run(
            Kind::VoteCheck { user, story: Key::Read(story), comment: Some(Key::Fresh(comment)) },
        ),
        run(
            Kind::InsertOwnVote {
                user,
                story: Key::Read(story),
                comment: Some(Key::Fresh(comment)),
            },
        ),
        run(Kind::MergedInto { story }),
        run(Kind::CountComments { story }),
    ]
}

/// The turn after the id of the new comment came back. Without an id the
/// task fails, and the transaction stays open.
pub open spec fn after_comment_inserted(
    acting_as: Option<u32>,
    user: u32,
    story: u32,
    author: u32,
    hotness: Option<Level>,
    reply: ReplyView,
) -> Turn {
    if !answers(Fetch::InsertId, reply) {
        Turn::failed(acting_as, Failure::UnexpectedReply)
    } else {
        match insert_id_in(reply) {
            None => Turn::failed(acting_as, Failure::NoInsertId),
            Some(comment) => Turn::on(
                TaskView::at(
                    acting_as,
                    Stage::CommentCounted { user, story, author },
                ).holding_score(hotness),
                own_vote_script(user, story, comment),
            ),
        }
    }
}

/// How the transaction of a comment ends: the story's comment count is set to
/// `count`, its hotness written again as it was read, and the author's
/// counter moved.
pub open spec fn count_script(
    user: u32,
    story: u32,
    author: u32,
    count: u64,
    hotness: Level,
) -> Seq<ActionView> {
    seq![
        run(Kind::SetCommentCount { story, count }),
        run(Kind::TagsOf { story }),
        run(Kind::CommentVotesOf { story, except: author }),
        run(Kind::MergedInto { story }),
        run_scored(Kind::RewriteHotness { story }, hotness),
        run(Kind::BumpCounter { user, which: Counter::CommentsPosted }),
        run(Kind::Counter { user, which: Counter::CommentsPosted }),
        ActionView::Commit,
    ]
}

/// The last turn of a comment, after the number of the story's comments came
/// back.
pub open spec fn after_comment_counted(
    acting_as: Option<u32>,
    user: u32,
    story: u32,
    author: u32,
    hotness: Option<Level>,
    reply: ReplyView,
) -> Turn {
    if !answers(Fetch::Count, reply) {
        Turn::failed(acting_as, Failure::UnexpectedReply)
    } else {
        Turn::last(
            acting_as,
            count_script(user, story, author, count_in(reply), base_of(hotness)) + closing(
                acting_as,
            ),
        )
    }
}

fn push_ready(script: &mut Vec<Action>, id: ShortId)
    ensures
        actions(final(script)@) == actions(old(script)@) + ready_script(id),
{
    push_plain(script, Kind::CommentShortIdTaken { id });
    push_action(script, Action::Begin);
    assert(actions(script@) =~= actions(old(script)@) + ready_script(id));
}

impl Task {
    /// Starts a comment; `opening` holds the opening.
    pub(crate) fn begin_comment(
        acting_as: Option<u32>,
        id: ShortId,
        story: ShortId,
        parent: Option<ShortId>,
        opening: Vec<Action>,
    ) -> (r: (Task, Result<Vec<Action>, Failure>))
        ensures
            taken(r.0@, r.1) == prefixed(
                actions(opening@),
                begin_comment(acting_as, id, story, parent),
            ),
    {
        match acting_as {
            None => Task::refused(acting_as, Failure::NoActingUser),
            Some(user) => {
                let mut script = opening;
                let ghost head = actions(script@);
                push_plain(&mut script, Kind::StoryByShortId { id: story });
                assert(actions(script@) =~= head + seq![run(Kind::StoryByShortId { id: story })]);
                (Task::at(acting_as, Stage::CommentStory { user, id, parent }), Ok(script))
            },
        }
    }

    /// Takes the row of the story to comment on.
    pub(crate) fn after_comment_story(
        &mut self,
        user: u32,
        id: ShortId,
        parent: Option<ShortId>,
        reply: Reply,
    ) -> (r: Result<Vec<Action>, Failure>)
        ensures
            taken(final(self)@, r) == after_comment_story(
                old(self)@.acting_as,
                user,
                id,
                parent,
                reply@,
            ),
    {
        match reply.into_first(Shape::Story) {
            Err(_) => self.fail(Failure::UnexpectedReply),
            Ok(None) => self.fail(Failure::MissingRow),
            Ok(Some(row)) => {
                let author = number_at(&row, 0);
                let story = number_at(&row, 1);
                let hotness = score_at(&row, 2);
                let mut script = no_actions();
                push_plain(&mut script, Kind::UserById { user: author });
                match parent {
                    Some(wanted) => {
                        push_plain(&mut script, Kind::ParentComment { story, id: wanted });
                        assert(actions(script@) =~= seq![
                            run(Kind::UserById { user: author }),
                            run(Kind::ParentComment { story, id: wanted }),
                        ]);
                        self.move_to(Stage::CommentParent { user, id, story, author, wanted });
                    },
                    None => {
                        assert(actions(script@) =~= seq![run(Kind::UserById { user: author })]);
                        push_ready(&mut script, id);
                        self.move_to(Stage::CommentBegun { user, id, story, author, parent: None });
                    },
                }
                self.score = Some(hotness);
                Ok(script)
            },
        }
    }

    /// Takes the row of the comment to answer.
    pub(crate) fn after_comment_parent(
        &mut self,
        user: u32,
        id: ShortId,
        story: u32,
        author: u32,
        wanted: ShortId,
        reply: Reply,
    ) -> (r: Result<Vec<Action>, Failure>)
        ensures
            taken(final(self)@, r) == after_comment_parent(
                old(self)@.acting_as,
                user,
                id,
                story,
                author,
                wanted,
                old(self)@.score,
                reply@,
            ),
    {
        match reply.into_first(Shape::Thread) {
            Err(_) => self.fail(Failure::UnexpectedReply),
            Ok(found) => {
                let (parent, notice) = match found {
                    Some(row) => (
                        Some(Parent { id: number_at(&row, 0), thread: maybe_number_at(&row, 1) }),
                        None,
                    ),
                    None => (None, Some(Notice::ParentNotFound { parent: wanted, story })),
                };
                let mut script = no_actions();
                push_ready(&mut script, id);
                assert(actions(script@) =~= ready_script(id));
                let hotness = self.score;
                self.move_to(Stage::CommentBegun { user, id, story, author, parent });
                self.score = hotness;
                self.notice = notice;
                Ok(script)
            },
        }
    }

    /// Takes the opening of the transaction of a comment.
    pub(crate) fn after_comment_begun(
        &mut self,
        user: u32,
        id: ShortId,
        story: u32,
        author: u32,
        parent: Option<Parent>,
        reply: Reply,
        now: Timestamp,
    ) -> (r: Result<Vec<Action>, Failure>)
        ensures
            taken(final(self)@, r) == after_comment_begun(
                old(self)@.acting_as,
                user,
                id,
                story,
                author,
                parent,
                old(self)@.score,
                reply@,
                now,
            ),
    {
        if !reply.is_done() {
            return self.fail(Failure::UnexpectedReply);
        }
        let mut script = no_actions();
        push_plain(&mut script, Kind::InsertComment { user, story, id, parent, at: now });
        assert(actions(script@) =~= seq![
            run(Kind::InsertComment { user, story, id, parent, at: now }),
        ]);
        let hotness = self.score;
        self.move_to(Stage::CommentInserted { user, story, author });
        self.score = hotness;
        Ok(script)
    }

    /// Takes the id of the new comment.
    pub(crate) fn after_comment_inserted(
        &mut self,
        user: u32,
        story: u32,
        author: u32,
        reply: Reply,
    ) -> (r: Result<Vec<Action>, Failure>)
        ensures
            taken(final(self)@, r) == after_comment_inserted(
                old(self)@.acting_as,
                user,
                story,
                author,
                old(self)@.score,
                reply@,
            ),
    {
        match reply.into_insert_id() {
            Err(_) => self.fail(Failure::UnexpectedReply),
            Ok(None) => self.fail(Failure::NoInsertId),
            Ok(Some(comment)) => {
                let mut script = no_actions();
                push_plain(
                    &mut script,
                    Kind::VoteCheck {
                        user,
                        story: Key::Read(story),
                        comment: Some(Key::Fresh(comment)),
                    },
                );
                push_plain(
                    &mut script,
                    Kind::InsertOwnVote {
                        user,
                        story: Key::Read(story),
                        comment: Some(Key::Fresh(comment)),
                    },
                );
                push_plain(&mut script, Kind::MergedInto { story });
                push_plain(&mut script, Kind::CountComments { story });
                assert(actions(script@) =~= own_vote_script(user, story, comment));
                let hotness = self.score;
                self.move_to(Stage::CommentCounted { user, story, author });
                self.score = hotness;
                Ok(script)
            },
        }
    }

    /// Takes the number of comments that the story now has.
    pub(crate) fn after_comment_counted(
        &mut self,
        user: u32,
        story: u32,
        author: u32,
        reply: Reply,
    ) -> (r: Result<Vec<Action>, Failure>)
        ensures
            taken(final(self)@, r) == after_comment_counted(
                old(self)@.acting_as,
                user,
                story,
                author,
                old(self)@.score,
                reply@,
            ),
    {
        let acting_as = self.acting_as;
        match reply.into_count() {
            None => self.fail(Failure::UnexpectedReply),
            Some(count) => {
                let hotness = match self.score {
                    Some(d) => d,
                    None => Double { bits: 0 },
                };
                let mut script = no_actions();
                push_plain(&mut script, Kind::SetCommentCount { story, count });
                push_plain(&mut script, Kind::TagsOf { story });
                push_plain(&mut script, Kind::CommentVotesOf { story, except: author });
                push_plain(&mut script, Kind::MergedInto { story });
                push_scored(&mut script, Kind::RewriteHotness { story }, hotness);
                push_plain(&mut script, Kind::BumpCounter { user, which: Counter::CommentsPosted });
                push_plain(&mut script, Kind::Counter { user, which: Counter::CommentsPosted });
                push_action(&mut script, Action::Commit);
                assert(actions(script@) =~= count_script(user, story, author, count, hotness@));
                push_closing(&mut script, acting_as);
                self.move_to(Stage::Done);
                Ok(script)
            },
        }
    }
}

} // verus!
