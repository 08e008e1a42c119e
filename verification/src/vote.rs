//! Votes on stories and on comments.
//!
//! The target row is read first. Everything that a vote changes is changed
//! inside one transaction: the vote row, the author's karma, the vote counts
//! and the score of the target, and, for a comment, those of its story too.
//! A task that fails in between hands out no `Commit`.

use crate::closing::{closing, push_closing};
use crate::query::{Key, Kind, Target};
use crate::reply::{Reply, ReplyView, answers, first_in, number_at, number_in, score_at, score_in};
use crate::request::{ShortId, Vote};
use crate::score::Level;
use crate::statement::{Fetch, Shape};
use crate::task::{
    Action, ActionView, Failure, Stage, Task, Turn, actions, no_actions, prefixed, push_action,
    push_plain, push_scored, run, run_scored, taken,
};
use vstd::prelude::*;

verus! {

/// The first turn of a vote on a story: the story row, by short id. A vote
/// needs a user.
pub open spec fn begin_story_vote(acting_as: Option<u32>, id: ShortId, vote: Vote) -> Turn {
    match acting_as {
        None => Turn::failed(acting_as, Failure::NoActingUser),
        Some(user) => Turn::to(
            acting_as,
            Stage::VoteStory { user, vote },
            seq![run(Kind::StoryByShortId { id })],
        ),
    }
}

/// What a vote of `user` does to the story of `author`, read with `hotness`.
pub open spec fn story_vote_script(
    user: u32,
    author: u32,
    story: u32,
    hotness: Level,
    vote: Vote,
) -> Seq<ActionView> {
    seq![
        run(Kind::VoteCheck { user, story: Key::Read(story), comment: None }),
        ActionView::Begin,
        run(Kind::InsertVote { user, story, comment: None, vote }),
        run(Kind::Karma { author, vote, target: Target::Story }),
        run(Kind::TagsOf { story }),
        run(Kind::CommentVotesOf { story, except: author }),
        run(Kind::MergedInto { story }),
        run_scored(Kind::TallyStory { story, vote }, hotness),
        ActionView::Commit,
    ]
}

/// The last turn of a vote on a story, after its row came back. Without the
/// row the task fails.
pub open spec fn after_vote_story(
    acting_as: Option<u32>,
    user: u32,
    vote: Vote,
    reply: ReplyView,
) -> Turn {
    if !answers(Fetch::First(Shape::Story), reply) {
        Turn::failed(acting_as, Failure::UnexpectedReply)
    } else {
        match first_in(reply) {
            None => Turn::failed(acting_as, Failure::MissingRow),
            Some(row) => Turn::last(
                acting_as,
                story_vote_script(
                    user,
                    number_in(row[0]),
                    number_in(row[1]),
                    score_in(row[2]),
                    vote,
                ) + closing(acting_as),
            ),
        }
    }
}

/// The first turn of a vote on a comment: the comment row, by short id.
pub open spec fn begin_comment_vote(acting_as: Option<u32>, id: ShortId, vote: Vote) -> Turn {
    match acting_as {
        None => Turn::failed(acting_as, Failure::NoActingUser),
        Some(user) => Turn::to(
            acting_as,
            Stage::VoteComment { user, vote },
            seq![run(Kind::CommentByShortId { id })],
        ),
    }
}

/// What a vote of `user` does to the comment of `author`, read with these
/// vote counts; the row of the comment's story is read last.
pub open spec fn comment_vote_script(
    user: u32,
    author: u32,
    comment: u32,
    story: u32,
    upvotes: u32,
    downvotes: u32,
    vote: Vote,
) -> Seq<ActionView> {
    seq![
        run(Kind::VoteCheck { user, story: Key::Read(story), comment: Some(Key::Read(comment)) }),
        ActionView::Begin,
        run(Kind::InsertVote { user, story, comment: Some(comment), vote }),
        run(Kind::Karma { author, vote, target: Target::Comment }),
        run(Kind::TallyComment { comment, vote, upvotes, downvotes }),
        run(Kind::StoryById { story }),
    ]
}

/// The turn after the row of the comment to vote on came back. Without the
/// row the task fails.
pub open spec fn after_vote_comment(
    acting_as: Option<u32>,
    user: u32,
    vote: Vote,
    reply: ReplyView,
) -> Turn {
    if !answers(Fetch::First(Shape::CommentTally), reply) {
        Turn::failed(acting_as, Failure::UnexpectedReply)
    } else {
        match first_in(reply) {
            None => Turn::failed(acting_as, Failure::MissingRow),
            Some(row) => Turn::to(
                acting_as,
                Stage::VoteCommentStory { story: number_in(row[2]), vote },
                comment_vote_script(
                    user,
                    number_in(row[0]),
                    number_in(row[1]),
                    number_in(row[2]),
                    number_in(row[3]),
                    number_in(row[4]),
                    vote,
                ),
            ),
        }
    }
}

/// What a vote on a comment does to the comment's story, written by
/// `story_author` and read with `hotness`.
pub open spec fn story_of_comment_script(
    story: u32,
    story_author: u32,
    hotness: Level,
    vote: Vote,
) -> Seq<ActionView> {
    seq![
        run(Kind::TagsOf { story }),
        run(Kind::CommentVotesOf { story, except: story_author }),
        run(Kind::MergedInto { story }),
        run_scored(Kind::TallyStory { story, vote }, hotness),
        ActionView::Commit,
    ]
}

/// The last turn of a vote on a comment, after the row of its story came
/// back. Without the row the task fails, and the transaction stays open.
pub open spec fn after_vote_comment_story(
    acting_as: Option<u32>,
    story: u32,
    vote: Vote,
    reply: ReplyView,
) -> Turn {
    if !answers(Fetch::First(Shape::StoryScore), reply) {
        Turn::failed(acting_as, Failure::UnexpectedReply)
    } else {
        match first_in(reply) {
            None => Turn::failed(acting_as, Failure::MissingRow),
            Some(row) => Turn::last(
                acting_as,
                story_of_comment_script(story, number_in(row[0]), score_in(row[1]), vote)
                    + closing(acting_as),
            ),
        }
    }
}

impl Task {
    /// Starts a vote on a story; `opening` holds the opening.
    pub(crate) fn begin_story_vote(
        acting_as: Option<u32>,
        id: ShortId,
        vote: Vote,
        opening: Vec<Action>,
    ) -> (r: (Task, Result<Vec<Action>, Failure>))
        ensures
            taken(r.0@, r.1) == prefixed(actions(opening@), begin_story_vote(acting_as, id, vote)),
    {
        match acting_as {
            None => Task::refused(acting_as, Failure::NoActingUser),
            Some(user) => {
                let mut script = opening;
                let ghost head = actions(script@);
                push_plain(&mut script, Kind::StoryByShortId { id });
                assert(actions(script@) =~= head + seq![run(Kind::StoryByShortId { id })]);
                (Task::at(acting_as, Stage::VoteStory { user, vote }), Ok(script))
            },
        }
    }

    /// Takes the row of the story to vote on.
    pub(crate) fn after_vote_story(&mut self, user: u32, vote: Vote, reply: Reply) -> (r: Result<
        Vec<Action>,
        Failure,
    >)
        ensures
            taken(final(self)@, r) == after_vote_story(old(self)@.acting_as, user, vote, reply@),
    {
        let acting_as = self.acting_as;
        match reply.into_first(Shape::Story) {
            Err(_) => self.fail(Failure::UnexpectedReply),
            Ok(None) => self.fail(Failure::MissingRow),
            Ok(Some(row)) => {
                let author = number_at(&row, 0);
                let story = number_at(&row, 1);
                let hotness = score_at(&row, 2);
                let mut script = no_actions();
                push_plain(
                    &mut script,
                    Kind::VoteCheck { user, story: Key::Read(story), comment: None },
                );
                push_action(&mut script, Action::Begin);
                push_plain(&mut script, Kind::InsertVote { user, story, comment: None, vote });
                push_plain(&mut script, Kind::Karma { author, vote, target: Target::Story });
                push_plain(&mut script, Kind::TagsOf { story });
                push_plain(&mut script, Kind::CommentVotesOf { story, except: author });
                push_plain(&mut script, Kind::MergedInto { story });
                push_scored(&mut script, Kind::TallyStory { story, vote }, hotness);
                push_action(&mut script, Action::Commit);
                assert(actions(script@) =~= story_vote_script(user, author, story, hotness@, vote));
                push_closing(&mut script, acting_as);
                self.move_to(Stage::Done);
                Ok(script)
            },
        }
    }

    /// Starts a vote on a comment; `opening` holds the opening.
    pub(crate) fn begin_comment_vote(
        acting_as: Option<u32>,
        id: ShortId,
        vote: Vote,
        opening: Vec<Action>,
    ) -> (r: (Task, Result<Vec<Action>, Failure>))
        ensures
            taken(r.0@, r.1) == prefixed(
                actions(opening@),
                begin_comment_vote(acting_as, id, vote),
            ),
    {
        match acting_as {
            None => Task::refused(acting_as, Failure::NoActingUser),
            Some(user) => {
                let mut script = opening;
                let ghost head = actions(script@);
                push_plain(&mut script, Kind::CommentByShortId { id });
                assert(actions(script@) =~= head + seq![run(Kind::CommentByShortId { id })]);
                (Task::at(acting_as, Stage::VoteComment { user, vote }), Ok(script))
            },
        }
    }

    /// Takes the row of the comment to vote on.
    pub(crate) fn after_vote_comment(&mut self, user: u32, vote: Vote, reply: Reply) -> (r: Result<
        Vec<Action>,
        Failure,
    >)
        ensures
            taken(final(self)@, r) == after_vote_comment(old(self)@.acting_as, user, vote, reply@),
    {
        match reply.into_first(Shape::CommentTally) {
            Err(_) => self.fail(Failure::UnexpectedReply),
            Ok(None) => self.fail(Failure::MissingRow),
            Ok(Some(row)) => {
                let author = number_at(&row, 0);
                let comment = number_at(&row, 1);
                let story = number_at(&row, 2);
                let upvotes = number_at(&row, 3);
                let downvotes = number_at(&row, 4);
                let mut script = no_actions();
                push_plain(
                    &mut script,
                    Kind::VoteCheck {
                        user,
                        story: Key::Read(story),
                        comment: Some(Key::Read(comment)),
                    },
                );
                push_action(&mut script, Action::Begin);
                push_plain(
                    &mut script,
                    Kind::InsertVote { user, story, comment: Some(comment), vote },
                );
                push_plain(&mut script, Kind::Karma { author, vote, target: Target::Comment });
                push_plain(&mut script, Kind::TallyComment { comment, vote, upvotes, downvotes });
                push_plain(&mut script, Kind::StoryById { story });
                assert(actions(script@) =~= comment_vote_script(
                    user,
                    author,
                    comment,
                    story,
                    upvotes,
                    downvotes,
                    vote,
                ));
                self.move_to(Stage::VoteCommentStory { story, vote });
                Ok(script)
            },
        }
    }

    /// Takes the row of the story of the comment voted on.
    pub(crate) fn after_vote_comment_story(&mut self, story: u32, vote: Vote, reply: Reply) -> (r:
        Result<Vec<Action>, Failure>)
        ensures
            taken(final(self)@, r) == after_vote_comment_story(
                old(self)@.acting_as,
                story,
                vote,
                reply@,
            ),
    {
        let acting_as = self.acting_as;
        match reply.into_first(Shape::StoryScore) {
            Err(_) => self.fail(Failure::UnexpectedReply),
            Ok(None) => self.fail(Failure::MissingRow),
            Ok(Some(row)) => {
                let story_author = number_at(&row, 0);
                let hotness = score_at(&row, 1);
                let mut script = no_actions();
                push_plain(&mut script, Kind::TagsOf { story });
                push_plain(&mut script, Kind::CommentVotesOf { story, except: story_author });
                push_plain(&mut script, Kind::MergedInto { story });
                push_scored(&mut script, Kind::TallyStory { story, vote }, hotness);
                push_action(&mut script, Action::Commit);
                assert(actions(script@) =~= story_of_comment_script(
                    story,
                    story_author,
                    hotness@,
                    vote,
                ));
                push_closing(&mut script, acting_as);
                self.move_to(Stage::Done);
                Ok(script)
            },
        }
    }
}

} // verus!
