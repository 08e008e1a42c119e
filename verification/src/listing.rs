//! The two story listings, the front page and the recent stories, and the list
//! of the latest comments.

use crate::closing::{closing, push_closing};
use crate::ids::{distinct, distinct_ids};
use crate::query::{Kind, Sep};
use crate::reply::{Reply, ReplyView, answers, column, column_of, rows_in};
use crate::statement::{Fetch, Shape};
use crate::task::{
    Action, ActionView, Failure, Page, Stage, Task, TaskView, Turn, actions, no_actions, prefixed,
    push_over, push_plain, run, run_over, taken,
};
use vstd::prelude::*;

verus! {

/// How the ids of the tags of a listing are separated.
pub open spec fn tags_sep(page: Page) -> Sep {
    match page {
        Page::Front => Sep::Tight,
        Page::Recent => Sep::Spaced,
    }
}

/// The first turn of the front page: for a viewer their filtered tags, for an
/// anonymous visitor the stories at once.
pub open spec fn begin_frontpage(viewer: Option<u32>) -> Turn {
    match viewer {
        None => Turn::to(
            viewer,
            Stage::Listing { page: Page::Front },
            seq![run(Kind::Frontpage { viewer: None })],
        ),
        Some(user) => Turn::to(
            viewer,
            Stage::Filters { page: Page::Front },
            seq![run(Kind::TagFilters { user })],
        ),
    }
}

/// The first turn of the recent stories: as for the front page.
pub open spec fn begin_recent(viewer: Option<u32>) -> Turn {
    match viewer {
        None => Turn::to(viewer, Stage::RecentIds, seq![run(Kind::Recent { viewer: None })]),
        Some(user) => Turn::to(
            viewer,
            Stage::Filters { page: Page::Recent },
            seq![run(Kind::TagFilters { user })],
        ),
    }
}

/// The turn after the viewer's filtered tags came back: the stories, without
/// those that carry one of the tags, as the store listed them.
pub open spec fn after_filters(viewer: Option<u32>, page: Page, reply: ReplyView) -> Turn {
    if !answers(Fetch::All(Shape::TagId), reply) {
        Turn::failed(viewer, Failure::UnexpectedReply)
    } else {
        let tags = column(rows_in(reply), 0);
        match page {
            Page::Front => Turn::to(
                viewer,
                Stage::Listing { page },
                seq![run_over(Kind::Frontpage { viewer }, tags)],
            ),
            Page::Recent => Turn::to(
                viewer,
                Stage::RecentIds,
                seq![run_over(Kind::Recent { viewer }, tags)],
            ),
        }
    }
}

/// The turn after the ids of the recent stories came back: their rows.
pub open spec fn after_recent_ids(viewer: Option<u32>, reply: ReplyView) -> Turn {
    if !answers(Fetch::All(Shape::Id), reply) {
        Turn::failed(viewer, Failure::UnexpectedReply)
    } else {
        Turn::to(
            viewer,
            Stage::Listing { page: Page::Recent },
            seq![run_over(Kind::StoriesIn, column(rows_in(reply), 0))],
        )
    }
}

/// What is loaded for the listed stories and their authors.
pub open spec fn listing_script(users: Seq<u32>, stories: Seq<u32>) -> Seq<ActionView> {
    seq![
        run_over(Kind::UsersIn { sep: Sep::Tight }, users),
        run_over(Kind::SuggestedTitlesIn, stories),
        run_over(Kind::SuggestedTaggingsIn, stories),
        run_over(Kind::TaggingsIn, stories),
    ]
}

/// The turn after the stories of a listing came back: their distinct authors,
/// and what hangs on the distinct stories. The task holds the stories.
pub open spec fn after_listing(viewer: Option<u32>, page: Page, reply: ReplyView) -> Turn {
    if !answers(Fetch::All(Shape::AuthorAndId), reply) {
        Turn::failed(viewer, Failure::UnexpectedReply)
    } else {
        let users = distinct(column(rows_in(reply), 0));
        let stories = distinct(column(rows_in(reply), 1));
        Turn::on(
            TaskView::at(viewer, Stage::Taggings { page }).holding_ids(stories),
            listing_script(users, stories),
        )
    }
}

/// What a viewer has marked among the listed stories; nothing for an
/// anonymous visitor.
pub open spec fn marks_script(viewer: Option<u32>, stories: Seq<u32>) -> Seq<ActionView> {
    match viewer {
        Some(user) => seq![
            run_over(Kind::VotesOnStories { user }, stories),
            run_over(Kind::HiddenAmong { user }, stories),
            run_over(Kind::SavedAmong { user }, stories),
        ],
        None => seq![],
    }
}

/// The last turn of a listing, after the taggings came back: the distinct
/// tags, and for a viewer their marks on the stories that the task holds.
pub open spec fn after_taggings(
    viewer: Option<u32>,
    page: Page,
    stories: Seq<u32>,
    reply: ReplyView,
) -> Turn {
    if !answers(Fetch::All(Shape::TagId), reply) {
        Turn::failed(viewer, Failure::UnexpectedReply)
    } else {
        let tags = distinct(column(rows_in(reply), 0));
        Turn::last(
            viewer,
            seq![run_over(Kind::TagsIn { sep: tags_sep(page) }, tags)] + marks_script(
                viewer,
                stories,
            ) + closing(viewer),
        )
    }
}

/// The first turn of the latest comments.
pub open spec fn begin_comments(viewer: Option<u32>) -> Turn {
    Turn::to(viewer, Stage::LatestComments, seq![run(Kind::LatestComments { viewer })])
}

/// The turn after the latest comments came back: their distinct authors and
/// stories. The task holds the comments, in the order of the listing.
pub open spec fn after_latest_comments(viewer: Option<u32>, reply: ReplyView) -> Turn {
    if !answers(Fetch::All(Shape::CommentKeys), reply) {
        Turn::failed(viewer, Failure::UnexpectedReply)
    } else {
        let comments = column(rows_in(reply), 0);
        let users = distinct(column(rows_in(reply), 1));
        let stories = distinct(column(rows_in(reply), 2));
        Turn::on(
            TaskView::at(viewer, Stage::CommentStories).holding_ids(comments),
            seq![
                run_over(Kind::UsersIn { sep: Sep::Tight }, users),
                run_over(Kind::StoriesIn, stories),
            ],
        )
    }
}

/// The votes of a viewer on the listed comments; nothing for an anonymous
/// visitor.
pub open spec fn comment_marks_script(viewer: Option<u32>, comments: Seq<u32>) -> Seq<ActionView> {
    match viewer {
        Some(user) => seq![run_over(Kind::VotesOnComments { user }, comments)],
        None => seq![],
    }
}

/// The last turn of the latest comments, after their stories came back: for a
/// viewer their votes on the comments that the task holds, then the distinct
/// authors of the stories.
pub open spec fn after_comment_stories(
    viewer: Option<u32>,
    comments: Seq<u32>,
    reply: ReplyView,
) -> Turn {
    if !answers(Fetch::All(Shape::AuthorAndId), reply) {
        Turn::failed(viewer, Failure::UnexpectedReply)
    } else {
        let authors = distinct(column(rows_in(reply), 0));
        Turn::last(
            viewer,
            comment_marks_script(viewer, comments) + seq![run_over(Kind::AuthorsIn, authors)]
                + closing(viewer),
        )
    }
}

fn sep_of(page: Page) -> (sep: Sep)
    ensures
        sep == tags_sep(page),
{
    match page {
        Page::Front => Sep::Tight,
        Page::Recent => Sep::Spaced,
    }
}

fn push_marks(script: &mut Vec<Action>, viewer: Option<u32>, stories: &Vec<u32>)
    ensures
        actions(final(script)@) == actions(old(script)@) + marks_script(viewer, stories@),
{
    match viewer {
        Some(user) => {
            push_over(script, Kind::VotesOnStories { user }, stories);
            push_over(script, Kind::HiddenAmong { user }, stories);
            push_over(script, Kind::SavedAmong { user }, stories);
        },
        None => {},
    }
    assert(actions(script@) =~= actions(old(script)@) + marks_script(viewer, stories@));
}

impl Task {
    /// Starts the front page; `opening` holds the opening.
    pub(crate) fn begin_frontpage(viewer: Option<u32>, opening: Vec<Action>) -> (r: (
        Task,
        Result<Vec<Action>, Failure>,
    ))
        ensures
            taken(r.0@, r.1) == prefixed(actions(opening@), begin_frontpage(viewer)),
    {
        let mut script = opening;
        let ghost head = actions(script@);
        match viewer {
            None => {
                push_plain(&mut script, Kind::Frontpage { viewer: None });
                assert(actions(script@) =~= head + seq![run(Kind::Frontpage { viewer: None })]);
                (Task::at(viewer, Stage::Listing { page: Page::Front }), Ok(script))
            },
            Some(user) => {
                push_plain(&mut script, Kind::TagFilters { user });
                assert(actions(script@) =~= head + seq![run(Kind::TagFilters { user })]);
                (Task::at(viewer, Stage::Filters { page: Page::Front }), Ok(script))
            },
        }
    }

    /// Starts the recent stories; `opening` holds the opening.
    pub(crate) fn begin_recent(viewer: Option<u32>, opening: Vec<Action>) -> (r: (
        Task,
        Result<Vec<Action>, Failure>,
    ))
        ensures
            taken(r.0@, r.1) == prefixed(actions(opening@), begin_recent(viewer)),
    {
        let mut script = opening;
        let ghost head = actions(script@);
        match viewer {
            None => {
                push_plain(&mut script, Kind::Recent { viewer: None });
                assert(actions(script@) =~= head + seq![run(Kind::Recent { viewer: None })]);
                (Task::at(viewer, Stage::RecentIds), Ok(script))
            },
            Some(user) => {
                push_plain(&mut script, Kind::TagFilters { user });
                assert(actions(script@) =~= head + seq![run(Kind::TagFilters { user })]);
                (Task::at(viewer, Stage::Filters { page: Page::Recent }), Ok(script))
            },
        }
    }

    /// Takes the viewer's filtered tags.
    pub(crate) fn after_filters(&mut self, page: Page, reply: Reply) -> (r: Result<Vec<Action>, Failure>)
        ensures
            taken(final(self)@, r) == after_filters(old(self)@.acting_as, page, reply@),
    {
        let viewer = self.acting_as;
        match reply.into_rows(Shape::TagId) {
            Err(_) => self.fail(Failure::UnexpectedReply),
            Ok(rows) => {
                let tags = column_of(&rows, 0, Shape::TagId);
                let mut script = no_actions();
                match page {
                    Page::Front => {
                        push_over(&mut script, Kind::Frontpage { viewer }, &tags);
                        assert(actions(script@) =~= seq![
                            run_over(Kind::Frontpage { viewer }, tags@),
                        ]);
                        self.move_to(Stage::Listing { page });
                    },
                    Page::Recent => {
                        push_over(&mut script, Kind::Recent { viewer }, &tags);
                        assert(actions(script@) =~= seq![run_over(Kind::Recent { viewer }, tags@)]);
                        self.move_to(Stage::RecentIds);
                    },
                }
                Ok(script)
            },
        }
    }

    /// Takes the ids of the recent stories.
    pub(crate) fn after_recent_ids(&mut self, reply: Reply) -> (r: Result<Vec<Action>, Failure>)
        ensures
            taken(final(self)@, r) == after_recent_ids(old(self)@.acting_as, reply@),
    {
        match reply.into_rows(Shape::Id) {
            Err(_) => self.fail(Failure::UnexpectedReply),
            Ok(rows) => {
                let stories = column_of(&rows, 0, Shape::Id);
                let mut script = no_actions();
                push_over(&mut script, Kind::StoriesIn, &stories);
                assert(actions(script@) =~= seq![run_over(Kind::StoriesIn, stories@)]);
                self.move_to(Stage::Listing { page: Page::Recent });
                Ok(script)
            },
        }
    }

    /// Takes the stories of a listing.
    pub(crate) fn after_listing(&mut self, page: Page, reply: Reply) -> (r: Result<Vec<Action>, Failure>)
        ensures
            taken(final(self)@, r) == after_listing(old(self)@.acting_as, page, reply@),
    {
        match reply.into_rows(Shape::AuthorAndId) {
            Err(_) => self.fail(Failure::UnexpectedReply),
            Ok(rows) => {
                let users = distinct_ids(&column_of(&rows, 0, Shape::AuthorAndId));
                let stories = distinct_ids(&column_of(&rows, 1, Shape::AuthorAndId));
                let mut script = no_actions();
                push_over(&mut script, Kind::UsersIn { sep: Sep::Tight }, &users);
                push_over(&mut script, Kind::SuggestedTitlesIn, &stories);
                push_over(&mut script, Kind::SuggestedTaggingsIn, &stories);
                push_over(&mut script, Kind::TaggingsIn, &stories);
                assert(actions(script@) =~= listing_script(users@, stories@));
                self.move_to(Stage::Taggings { page });
                self.ids = stories;
                Ok(script)
            },
        }
    }

    /// Takes the taggings of the listed stories.
    pub(crate) fn after_taggings(&mut self, page: Page, reply: Reply) -> (r: Result<Vec<Action>, Failure>)
        ensures
            taken(final(self)@, r) == after_taggings(
                old(self)@.acting_as,
                page,
                old(self)@.ids,
                reply@,
            ),
    {
        let viewer = self.acting_as;
        match reply.into_rows(Shape::TagId) {
            Err(_) => self.fail(Failure::UnexpectedReply),
            Ok(rows) => {
                let tags = distinct_ids(&column_of(&rows, 0, Shape::TagId));
                let mut script = no_actions();
                push_over(&mut script, Kind::TagsIn { sep: sep_of(page) }, &tags);
                assert(actions(script@) =~= seq![
                    run_over(Kind::TagsIn { sep: tags_sep(page) }, tags@),
                ]);
                push_marks(&mut script, viewer, &self.ids);
                push_closing(&mut script, viewer);
                self.move_to(Stage::Done);
                Ok(script)
            },
        }
    }

    /// Starts the latest comments; `opening` holds the opening.
    pub(crate) fn begin_comments(viewer: Option<u32>, opening: Vec<Action>) -> (r: (
        Task,
        Result<Vec<Action>, Failure>,
    ))
        ensures
            taken(r.0@, r.1) == prefixed(actions(opening@), begin_comments(viewer)),
    {
        let mut script = opening;
        let ghost head = actions(script@);
        push_plain(&mut script, Kind::LatestComments { viewer });
        assert(actions(script@) =~= head + seq![run(Kind::LatestComments { viewer })]);
        (Task::at(viewer, Stage::LatestComments), Ok(script))
    }

    /// Takes the latest comments.
    pub(crate) fn after_latest_comments(&mut self, reply: Reply) -> (r: Result<Vec<Action>, Failure>)
        ensures
            taken(final(self)@, r) == after_latest_comments(old(self)@.acting_as, reply@),
    {
        match reply.into_rows(Shape::CommentKeys) {
            Err(_) => self.fail(Failure::UnexpectedReply),
            Ok(rows) => {
                let comments = column_of(&rows, 0, Shape::CommentKeys);
                let users = distinct_ids(&column_of(&rows, 1, Shape::CommentKeys));
                let stories = distinct_ids(&column_of(&rows, 2, Shape::CommentKeys));
                let mut script = no_actions();
                push_over(&mut script, Kind::UsersIn { sep: Sep::Tight }, &users);
                push_over(&mut script, Kind::StoriesIn, &stories);
                assert(actions(script@) =~= seq![
                    run_over(Kind::UsersIn { sep: Sep::Tight }, users@),
                    run_over(Kind::StoriesIn, stories@),
                ]);
                self.move_to(Stage::CommentStories);
                self.ids = comments;
                Ok(script)
            },
        }
    }

    /// Takes the stories of the latest comments.
    pub(crate) fn after_comment_stories(&mut self, reply: Reply) -> (r: Result<Vec<Action>, Failure>)
        ensures
            taken(final(self)@, r) == after_comment_stories(
                old(self)@.acting_as,
                old(self)@.ids,
                reply@,
            ),
    {
        let viewer = self.acting_as;
        match reply.into_rows(Shape::AuthorAndId) {
            Err(_) => self.fail(Failure::UnexpectedReply),
            Ok(rows) => {
                let authors = distinct_ids(&column_of(&rows, 0, Shape::AuthorAndId));
                let mut script = no_actions();
                match viewer {
                    Some(user) => {
                        push_over(&mut script, Kind::VotesOnComments { user }, &self.ids);
                    },
                    None => {},
                }
                assert(actions(script@) =~= comment_marks_script(viewer, self.ids@));
                push_over(&mut script, Kind::AuthorsIn, &authors);
                assert(actions(script@) =~= comment_marks_script(viewer, self.ids@) + seq![
                    run_over(Kind::AuthorsIn, authors@),
                ]);
                push_closing(&mut script, viewer);
                self.move_to(Stage::Done);
                Ok(script)
            },
        }
    }
}

} // verus!
