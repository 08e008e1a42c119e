//! The page of one story.

use crate::clock::Timestamp;
use crate::closing::{closing, push_closing};
use crate::ids::{distinct, distinct_ids};
use crate::query::{Kind, Sep};
use crate::reply::{
    CellView, Reply, ReplyView, answers, column, column_of, first_in, number_at, number_in, rows_in,
};
use crate::request::ShortId;
use crate::statement::{Fetch, Shape};
use crate::task::{
    Action, ActionView, Failure, Stage, Task, Turn, actions, no_actions, prefixed, push_over,
    push_plain, run, run_over, taken,
};
use vstd::prelude::*;

verus! {

/// The first turn of a story page: the story row, by short id.
pub open spec fn begin_story(viewer: Option<u32>, id: ShortId) -> Turn {
    Turn::to(viewer, Stage::StoryPage, seq![run(Kind::StoryByShortId { id })])
}

/// What leads from the story row to its comments.
pub open spec fn comments_script(story: u32) -> Seq<ActionView> {
    seq![run(Kind::MergedInto { story }), run(Kind::CommentsOf { story })]
}

/// The turn after the story row came back: its author, and for a viewer their
/// read ribbon on the story; for an anonymous visitor the comments at once.
/// Without the row the task fails.
pub open spec fn after_story_page(viewer: Option<u32>, reply: ReplyView) -> Turn {
    if !answers(Fetch::First(Shape::Story), reply) {
        Turn::failed(viewer, Failure::UnexpectedReply)
    } else {
        match first_in(reply) {
            None => Turn::failed(viewer, Failure::MissingRow),
            Some(row) => {
                let author = number_in(row[0]);
                let story = number_in(row[1]);
                match viewer {
                    Some(user) => Turn::to(
                        viewer,
                        Stage::Ribbon { user, story },
                        seq![run(Kind::UserById { user: author }), run(Kind::Ribbon { user, story })],
                    ),
                    None => Turn::to(
                        viewer,
                        Stage::StoryComments { story },
                        seq![run(Kind::UserById { user: author })] + comments_script(story),
                    ),
                }
            },
        }
    }
}

/// How the viewer's reading of the story is recorded at `now`: a ribbon that
/// is there is seen again, one that is not is begun.
pub open spec fn ribbon_mark(
    user: u32,
    story: u32,
    found: Option<Seq<CellView>>,
    now: Timestamp,
) -> ActionView {
    match found {
        None => run(Kind::InsertRibbon { user, story, at: now }),
        Some(row) => run(Kind::TouchRibbon { ribbon: number_in(row[0]), at: now }),
    }
}

/// The turn after the viewer's read ribbon came back: the ribbon is written,
/// then the comments are loaded.
pub open spec fn after_ribbon(
    viewer: Option<u32>,
    user: u32,
    story: u32,
    reply: ReplyView,
    now: Timestamp,
) -> Turn {
    if !answers(Fetch::First(Shape::Id), reply) {
        Turn::failed(viewer, Failure::UnexpectedReply)
    } else {
        Turn::to(
            viewer,
            Stage::StoryComments { story },
            seq![ribbon_mark(user, story, first_in(reply), now)] + comments_script(story),
        )
    }
}

/// What a viewer has marked on the story; nothing for an anonymous visitor.
pub open spec fn story_marks_script(viewer: Option<u32>, story: u32) -> Seq<ActionView> {
    match viewer {
        Some(user) => seq![
            run(Kind::VoteOnStory { user, story }),
            run(Kind::HiddenStory { user, story }),
            run(Kind::SavedStory { user, story }),
        ],
        None => seq![],
    }
}

/// The turn after the comments of the story came back: their distinct authors,
/// the votes on the distinct comments, for a viewer their marks on the story,
/// and the story's taggings.
pub open spec fn after_story_comments(viewer: Option<u32>, story: u32, reply: ReplyView) -> Turn {
    if !answers(Fetch::All(Shape::AuthorAndId), reply) {
        Turn::failed(viewer, Failure::UnexpectedReply)
    } else {
        let users = distinct(column(rows_in(reply), 0));
        let comments = distinct(column(rows_in(reply), 1));
        Turn::to(
            viewer,
            Stage::StoryTaggings,
            seq![
                run_over(Kind::UsersIn { sep: Sep::Spaced }, users),
                run_over(Kind::VotesForComments, comments),
            ] + story_marks_script(viewer, story) + seq![run(Kind::TaggingsOf { story })],
        )
    }
}

/// The last turn of a story page, after its taggings came back: the distinct tags.
pub open spec fn after_story_taggings(viewer: Option<u32>, reply: ReplyView) -> Turn {
    if !answers(Fetch::All(Shape::TagId), reply) {
        Turn::failed(viewer, Failure::UnexpectedReply)
    } else {
        let tags = distinct(column(rows_in(reply), 0));
        Turn::last(
            viewer,
            seq![run_over(Kind::TagsIn { sep: Sep::Spaced }, tags)] + closing(viewer),
        )
    }
}

fn push_comments(script: &mut Vec<Action>, story: u32)
    ensures
        actions(final(script)@) == actions(old(script)@) + comments_script(story),
{
    push_plain(script, Kind::MergedInto { story });
    push_plain(script, Kind::CommentsOf { story });
    assert(actions(script@) =~= actions(old(script)@) + comments_script(story));
}

fn push_story_marks(script: &mut Vec<Action>, viewer: Option<u32>, story: u32)
    ensures
        actions(final(script)@) == actions(old(script)@) + story_marks_script(viewer, story),
{
    match viewer {
        Some(user) => {
            push_plain(script, Kind::VoteOnStory { user, story });
            push_plain(script, Kind::HiddenStory { user, story });
            push_plain(script, Kind::SavedStory { user, story });
        },
        None => {},
    }
    assert(actions(script@) =~= actions(old(script)@) + story_marks_script(viewer, story));
}

impl Task {
    /// Starts a story page; `opening` holds the opening.
    pub(crate) fn begin_story(viewer: Option<u32>, id: ShortId, opening: Vec<Action>) -> (r: (
        Task,
        Result<Vec<Action>, Failure>,
    ))
        ensures
            taken(r.0@, r.1) == prefixed(actions(opening@), begin_story(viewer, id)),
    {
        let mut script = opening;
        let ghost head = actions(script@);
        push_plain(&mut script, Kind::StoryByShortId { id });
        assert(actions(script@) =~= head + seq![run(Kind::StoryByShortId { id })]);
        (Task::at(viewer, Stage::StoryPage), Ok(script))
    }

    /// Takes the row of the story to show.
    pub(crate) fn after_story_page(&mut self, reply: Reply) -> (r: Result<Vec<Action>, Failure>)
        ensures
            taken(final(self)@, r) == after_story_page(old(self)@.acting_as, reply@),
    {
        let viewer = self.acting_as;
        match reply.into_first(Shape::Story) {
            Err(_) => self.fail(Failure::UnexpectedReply),
            Ok(None) => self.fail(Failure::MissingRow),
            Ok(Some(row)) => {
                let author = number_at(&row, 0);
                let story = number_at(&row, 1);
                let mut script = no_actions();
                push_plain(&mut script, Kind::UserById { user: author });
                match viewer {
                    Some(user) => {
                        push_plain(&mut script, Kind::Ribbon { user, story });
                        assert(actions(script@) =~= seq![
                            run(Kind::UserById { user: author }),
                            run(Kind::Ribbon { user, story }),
                        ]);
                        self.move_to(Stage::Ribbon { user, story });
                    },
                    None => {
                        assert(actions(script@) =~= seq![run(Kind::UserById { user: author })]);
                        push_comments(&mut script, story);
                        self.move_to(Stage::StoryComments { story });
                    },
                }
                Ok(script)
            },
        }
    }

    /// Takes the viewer's read ribbon.
    pub(crate) fn after_ribbon(&mut self, user: u32, story: u32, reply: Reply, now: Timestamp) -> (r:
        Result<Vec<Action>, Failure>)
        ensures
            taken(final(self)@, r) == after_ribbon(old(self)@.acting_as, user, story, reply@, now),
    {
        match reply.into_first(Shape::Id) {
            Err(_) => self.fail(Failure::UnexpectedReply),
            Ok(found) => {
                let mut script = no_actions();
                match found {
                    None => {
                        push_plain(&mut script, Kind::InsertRibbon { user, story, at: now });
                    },
                    Some(row) => {
                        let ribbon = number_at(&row, 0);
                        push_plain(&mut script, Kind::TouchRibbon { ribbon, at: now });
                    },
                }
                assert(actions(script@) =~= seq![
                    ribbon_mark(user, story, first_in(reply@), now),
                ]);
                push_comments(&mut script, story);
                self.move_to(Stage::StoryComments { story });
                Ok(script)
            },
        }
    }

    /// Takes the comments of the story.
    pub(crate) fn after_story_comments(&mut self, story: u32, reply: Reply) -> (r: Result<
        Vec<Action>,
        Failure,
    >)
        ensures
            taken(final(self)@, r) == after_story_comments(old(self)@.acting_as, story, reply@),
    {
        let viewer = self.acting_as;
        match reply.into_rows(Shape::AuthorAndId) {
            Err(_) => self.fail(Failure::UnexpectedReply),
            Ok(rows) => {
                let users = distinct_ids(&column_of(&rows, 0, Shape::AuthorAndId));
                let comments = distinct_ids(&column_of(&rows, 1, Shape::AuthorAndId));
                let mut script = no_actions();
                push_over(&mut script, Kind::UsersIn { sep: Sep::Spaced }, &users);
                push_over(&mut script, Kind::VotesForComments, &comments);
                assert(actions(script@) =~= seq![
                    run_over(Kind::UsersIn { sep: Sep::Spaced }, users@),
                    run_over(Kind::VotesForComments, comments@),
                ]);
                push_story_marks(&mut script, viewer, story);
                let ghost before = actions(script@);
                push_plain(&mut script, Kind::TaggingsOf { story });
                assert(actions(script@) =~= before + seq![run(Kind::TaggingsOf { story })]);
                self.move_to(Stage::StoryTaggings);
                Ok(script)
            },
        }
    }

    /// Takes the taggings of the story.
    pub(crate) fn after_story_taggings(&mut self, reply: Reply) -> (r: Result<Vec<Action>, Failure>)
        ensures
            taken(final(self)@, r) == after_story_taggings(old(self)@.acting_as, reply@),
    {
        let viewer = self.acting_as;
        match reply.into_rows(Shape::TagId) {
            Err(_) => self.fail(Failure::UnexpectedReply),
            Ok(rows) => {
                let tags = distinct_ids(&column_of(&rows, 0, Shape::TagId));
                let mut script = no_actions();
                push_over(&mut script, Kind::TagsIn { sep: Sep::Spaced }, &tags);
                assert(actions(script@) =~= seq![
                    run_over(Kind::TagsIn { sep: Sep::Spaced }, tags@),
                ]);
                push_closing(&mut script, viewer);
                self.move_to(Stage::Done);
                Ok(script)
            },
        }
    }
}

} // verus!
