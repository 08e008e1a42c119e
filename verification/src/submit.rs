//! Submitting a story.
//!
//! The seed tag and the short id are looked at first. The story row, its tag,
//! the submitter's counter and the submitter's own upvote are written inside
//! one transaction.

use crate::clock::Timestamp;
use crate::closing::{closing, push_closing};
use crate::query::{Counter, Key, Kind};
use crate::reply::{Reply, ReplyView, answers, first_in, insert_id_in, number_at, number_in};
use crate::request::ShortId;
use crate::statement::{Fetch, Shape};
use crate::task::{
    Action, ActionView, Failure, Stage, Task, TaskView, Turn, actions, no_actions, prefixed,
    push_action, push_plain, push_worded, run, run_worded, taken,
};
use vstd::prelude::*;

verus! {

/// The first turn of a submission: is the seed tag active? A submission needs
/// a user. The task holds the title.
pub open spec fn begin_submit(acting_as: Option<u32>, id: ShortId, title: Seq<char>) -> Turn {
    match acting_as {
        None => Turn::failed(acting_as, Failure::NoActingUser),
        Some(user) => Turn::on(
            TaskView::at(acting_as, Stage::SeedTag { user, id }).holding_word(title),
            seq![run(Kind::SeedTag)],
        ),
    }
}

/// The turn after the seed tag came back: the short id is looked up, and the
/// transaction opened. Without the tag the task fails.
pub open spec fn after_seed_tag(
    acting_as: Option<u32>,
    user: u32,
    id: ShortId,
    title: Seq<char>,
    reply: ReplyView,
) -> Turn {
    if !answers(Fetch::First(Shape::Id), reply) {
        Turn::failed(acting_as, Failure::UnexpectedReply)
    } else {
        match first_in(reply) {
            None => Turn::failed(acting_as, Failure::MissingRow),
            Some(row) => Turn::on(
                TaskView::at(
                    acting_as,
                    Stage::SubmitBegun { user, id, tag: number_in(row[0]) },
                ).holding_word(title),
                seq![run(Kind::StoryShortIdTaken { id }), ActionView::Begin],
            ),
        }
    }
}

/// The turn after the transaction was opened: the story row is inserted, with
/// `now` as the time of creation.
pub open spec fn after_submit_begun(
    acting_as: Option<u32>,
    user: u32,
    id: ShortId,
    tag: u32,
    title: Seq<char>,
    reply: ReplyView,
    now: Timestamp,
) -> Turn {
    if !answers(Fetch::Nothing, reply) {
        Turn::failed(acting_as, Failure::UnexpectedReply)
    } else {
        Turn::to(
            acting_as,
            Stage::StoryInserted { user, tag },
            seq![run_worded(Kind::InsertStory { user, id, at: now }, title)],
        )
    }
}

/// What follows the story row inside the transaction.
pub open spec fn submission_script(user: u32, story: u64, tag: u32) -> Seq<ActionView> {
    seq![
        run(Kind::InsertTagging { story, tag }),
        run(Kind::BumpCounter { user, which: Counter::StoriesSubmitted }),
        run(Kind::Counter { user, which: Counter::StoriesSubmitted }),
        run(Kind::VoteCheck { user, story: Key::Fresh(story), comment: None }),
        run(Kind::InsertOwnVote { user, story: Key::Fresh(story), comment: None }),
        run(Kind::CommentVotesOfOthers { story, user }),
        run(Kind::SettleHotness { story }),
        ActionView::Commit,
    ]
}

/// The last turn of a submission, after the id of the new story came back.
/// Without an id the task fails, and the transaction stays open.
pub open spec fn after_story_inserted(
    acting_as: Option<u32>,
    user: u32,
    tag: u32,
    reply: ReplyView,
) -> Turn {
    if !answers(Fetch::InsertId, reply) {
        Turn::failed(acting_as, Failure::UnexpectedReply)
    } else {
        match insert_id_in(reply) {
            None => Turn::failed(acting_as, Failure::NoInsertId),
            Some(story) => Turn::last(
                acting_as,
                submission_script(user, story, tag) + closing(acting_as),
            ),
        }
    }
}

impl Task {
    /// Starts a submission; `opening` holds the opening.
    pub(crate) fn begin_submit(
        acting_as: Option<u32>,
        id: ShortId,
        title: String,
        opening: Vec<Action>,
    ) -> (r: (Task, Result<Vec<Action>, Failure>))
        ensures
            taken(r.0@, r.1) == prefixed(actions(opening@), begin_submit(acting_as, id, title@)),
    {
        match acting_as {
            None => Task::refused(acting_as, Failure::NoActingUser),
            Some(user) => {
                let mut script = opening;
                let ghost head = actions(script@);
                push_plain(&mut script, Kind::SeedTag);
                assert(actions(script@) =~= head + seq![run(Kind::SeedTag)]);
                let mut task = Task::at(acting_as, Stage::SeedTag { user, id });
                task.word = title;
                (task, Ok(script))
            },
        }
    }

    /// Takes the seed tag.
    pub(crate) fn after_seed_tag(&mut self, user: u32, id: ShortId, reply: Reply) -> (r: Result<
        Vec<Action>,
        Failure,
    >)
        ensures
            taken(final(self)@, r) == after_seed_tag(
                old(self)@.acting_as,
                user,
                id,
                old(self)@.word,
                reply@,
            ),
    {
        match reply.into_first(Shape::Id) {
            Err(_) => self.fail(Failure::UnexpectedReply),
            Ok(None) => self.fail(Failure::MissingRow),
            Ok(Some(row)) => {
                let tag = number_at(&row, 0);
                let mut script = no_actions();
                push_plain(&mut script, Kind::StoryShortIdTaken { id });
                push_action(&mut script, Action::Begin);
                assert(actions(script@) =~= seq![
                    run(Kind::StoryShortIdTaken { id }),
                    ActionView::Begin,
                ]);
                let title = self.word.clone();
                self.move_to(Stage::SubmitBegun { user, id, tag });
                self.word = title;
                Ok(script)
            },
        }
    }

    /// Takes the opening of the transaction of a submission.
    pub(crate) fn after_submit_begun(
        &mut self,
        user: u32,
        id: ShortId,
        tag: u32,
        reply: Reply,
        now: Timestamp,
    ) -> (r: Result<Vec<Action>, Failure>)
        ensures
            taken(final(self)@, r) == after_submit_begun(
                old(self)@.acting_as,
                user,
                id,
                tag,
                old(self)@.word,
                reply@,
                now,
            ),
    {
        if !reply.is_done() {
            return self.fail(Failure::UnexpectedReply);
        }
        let mut script = no_actions();
        push_worded(&mut script, Kind::InsertStory { user, id, at: now }, &self.word);
        assert(actions(script@) =~= seq![
            run_worded(Kind::InsertStory { user, id, at: now }, self.word@),
        ]);
        self.move_to(Stage::StoryInserted { user, tag });
        Ok(script)
    }

    /// Takes the id of the new story.
    pub(crate) fn after_story_inserted(&mut self, user: u32, tag: u32, reply: Reply) -> (r: Result<
        Vec<Action>,
        Failure,
    >)
        ensures
            taken(final(self)@, r) == after_story_inserted(old(self)@.acting_as, user, tag, reply@),
    {
        let acting_as = self.acting_as;
        match reply.into_insert_id() {
            Err(_) => self.fail(Failure::UnexpectedReply),
            Ok(None) => self.fail(Failure::NoInsertId),
            Ok(Some(story)) => {
                let mut script = no_actions();
                push_plain(&mut script, Kind::InsertTagging { story, tag });
                push_plain(&mut script, Kind::BumpCounter { user, which: Counter::StoriesSubmitted });
                push_plain(&mut script, Kind::Counter { user, which: Counter::StoriesSubmitted });
                push_plain(
                    &mut script,
                    Kind::VoteCheck { user, story: Key::Fresh(story), comment: None },
                );
                push_plain(
                    &mut script,
                    Kind::InsertOwnVote { user, story: Key::Fresh(story), comment: None },
                );
                push_plain(&mut script, Kind::CommentVotesOfOthers { story, user });
                push_plain(&mut script, Kind::SettleHotness { story });
                push_action(&mut script, Action::Commit);
                assert(actions(script@) =~= submission_script(user, story, tag));
                push_closing(&mut script, acting_as);
                self.move_to(Stage::Done);
                Ok(script)
            },
        }
    }
}

} // verus!
