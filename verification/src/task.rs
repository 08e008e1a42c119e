//! One request on its way through the store: where it stands, what it holds,
//! and the scripts it hands out.
//!
//! A task moves in turns. Each turn hands the caller a script: actions to carry
//! out in order on one connection. The results of all but the last are dropped;
//! what the last one brought back is the reply that starts the next turn. When
//! the task stands at [`Stage::Done`], the script just handed out is its last.

use crate::query::{Kind, Parent, Query, QueryView, level_of};
use crate::request::{ShortId, Vote};
use crate::score::{Double, Level};
use crate::statement::{Fetch, Shape};
use vstd::prelude::*;

verus! {

/// One step of a script.
#[derive(Clone, Debug, PartialEq, Eq)]
pub enum Action {
    /// Run the statement.
    Run(Query),
    /// Open a transaction on the connection.
    Begin,
    /// Commit the open transaction.
    Commit,
}

/// A step of a script in contracts.
pub enum ActionView {
    Run(QueryView),
    Begin,
    Commit,
}

impl View for Action {
    type V = ActionView;

    open spec fn view(&self) -> ActionView {
        match *self {
            Action::Run(q) => ActionView::Run(q@),
            Action::Begin => ActionView::Begin,
            Action::Commit => ActionView::Commit,
        }
    }
}

/// A script in contracts.
pub open spec fn actions(script: Seq<Action>) -> Seq<ActionView> {
    script.map_values(|a: Action| a@)
}

/// Appends one action to a script.
pub fn push_action(script: &mut Vec<Action>, action: Action)
    ensures
        actions(final(script)@) == actions(old(script)@).push(action@),
{
    script.push(action);
    assert(actions(script@) =~= actions(old(script)@).push(action@));
}

/// Appends a statement of `kind` that takes no list, text or score.
pub fn push_plain(script: &mut Vec<Action>, kind: Kind)
    ensures
        actions(final(script)@) == actions(old(script)@).push(run(kind)),
{
    push_action(script, Action::Run(Query::plain(kind)));
}

/// Appends a statement of `kind` over a copy of the list `ids`.
pub fn push_over(script: &mut Vec<Action>, kind: Kind, ids: &Vec<u32>)
    ensures
        actions(final(script)@) == actions(old(script)@).push(run_over(kind, ids@)),
{
    push_action(script, Action::Run(Query::over(kind, ids.clone())));
}

/// Appends a statement of `kind` with a copy of the text `word`.
pub fn push_worded(script: &mut Vec<Action>, kind: Kind, word: &String)
    ensures
        actions(final(script)@) == actions(old(script)@).push(run_worded(kind, word@)),
{
    push_action(script, Action::Run(Query::worded(kind, word.clone())));
}

/// Appends a statement of `kind` that writes from `score`.
pub fn push_scored(script: &mut Vec<Action>, kind: Kind, score: Double)
    ensures
        actions(final(script)@) == actions(old(script)@).push(run_scored(kind, score@)),
{
    push_action(script, Action::Run(Query::scored(kind, score)));
}

/// A script with nothing in it.
pub fn no_actions() -> (script: Vec<Action>)
    ensures
        actions(script@) == Seq::<ActionView>::empty(),
{
    let script: Vec<Action> = Vec::new();
    assert(actions(script@) =~= Seq::<ActionView>::empty());
    script
}

/// Running the statement of `kind` that takes no list, text or score.
pub open spec fn run(kind: Kind) -> ActionView {
    ActionView::Run(QueryView::plain(kind))
}

/// Running the statement of `kind` over the list `ids`.
pub open spec fn run_over(kind: Kind, ids: Seq<u32>) -> ActionView {
    ActionView::Run(QueryView::over(kind, ids))
}

/// Running the statement of `kind` with the text `word`.
pub open spec fn run_worded(kind: Kind, word: Seq<char>) -> ActionView {
    ActionView::Run(QueryView::worded(kind, word))
}

/// Running the statement of `kind` that writes from `score`.
pub open spec fn run_scored(kind: Kind, score: Level) -> ActionView {
    ActionView::Run(QueryView::scored(kind, score))
}

/// Why a task ended without completing.
#[derive(Clone, Copy, Debug, PartialEq, Eq)]
pub enum Failure {
    /// The request acts for a user, and none was given.
    NoActingUser,
    /// A row that the request cannot do without was not found.
    MissingRow,
    /// The store gave no id to a row that the task inserted.
    NoInsertId,
    /// The reply is not an answer to the statement that was asked last.
    UnexpectedReply,
    /// The task had already ended.
    Finished,
}

/// One of the two story listings.
#[derive(Clone, Copy, Debug, PartialEq, Eq)]
pub enum Page {
    Front,
    Recent,
}

/// Something worth a line in the caller's log.
#[derive(Clone, Copy, Debug, PartialEq, Eq)]
pub enum Notice {
    /// The comment that a new comment was to answer is not among the comments
    /// of the story; the new comment is posted without a parent.
    ParentNotFound { parent: ShortId, story: u32 },
}

/// Where a task stands: which reply it waits for, with the numbers and codes
/// that it carries over from earlier replies.
#[allow(inconsistent_fields)]
#[derive(Clone, Copy, Debug, PartialEq, Eq)]
pub enum Stage {
    /// The user row of a profile page.
    Profile,
    /// The viewer's filtered tags.
    Filters { page: Page },
    /// The ids of the recent stories.
    RecentIds,
    /// The stories of a listing.
    Listing { page: Page },
    /// The taggings of the listed stories, whose ids the task holds.
    Taggings { page: Page },
    /// The latest comments.
    LatestComments,
    /// The stories of the latest comments, whose ids the task holds.
    CommentStories,
    /// Whether the user who logs in exists.
    LoginCheck { user: u32 },
    /// The row of the story to show.
    StoryPage,
    /// The viewer's read ribbon on the story.
    Ribbon { user: u32, story: u32 },
    /// The comments of the story.
    StoryComments { story: u32 },
    /// The taggings of the story.
    StoryTaggings,
    /// The row of the story to vote on.
    VoteStory { user: u32, vote: Vote },
    /// The row of the comment to vote on.
    VoteComment { user: u32, vote: Vote },
    /// The row of the story of the comment voted on.
    VoteCommentStory { story: u32, vote: Vote },
    /// The tag that the submitted story, whose title the task holds, will carry.
    SeedTag { user: u32, id: ShortId },
    /// The transaction of a submission.
    SubmitBegun { user: u32, id: ShortId, tag: u32 },
    /// The id of the new story.
    StoryInserted { user: u32, tag: u32 },
    /// The row of the story to comment on.
    CommentStory { user: u32, id: ShortId, parent: Option<ShortId> },
    /// The row of the comment to answer. The task holds the story's hotness
    /// from here on.
    CommentParent { user: u32, id: ShortId, story: u32, author: u32, wanted: ShortId },
    /// The transaction of a comment.
    CommentBegun { user: u32, id: ShortId, story: u32, author: u32, parent: Option<Parent> },
    /// The id of the new comment.
    CommentInserted { user: u32, story: u32, author: u32 },
    /// The number of comments that the story now has.
    CommentCounted { user: u32, story: u32, author: u32 },
    /// Nothing: the task has ended.
    Done,
}

impl Stage {
    /// What the caller reads from the result of the last statement of the
    /// script that led here.
    pub open spec fn awaits(self) -> Fetch {
        match self {
            Stage::Profile => Fetch::First(Shape::Id),
            Stage::Filters { .. } => Fetch::All(Shape::TagId),
            Stage::RecentIds => Fetch::All(Shape::Id),
            Stage::Listing { .. } => Fetch::All(Shape::AuthorAndId),
            Stage::Taggings { .. } => Fetch::All(Shape::TagId),
            Stage::LatestComments => Fetch::All(Shape::CommentKeys),
            Stage::CommentStories => Fetch::All(Shape::AuthorAndId),
            Stage::LoginCheck { .. } => Fetch::First(Shape::Presence),
            Stage::StoryPage => Fetch::First(Shape::Story),
            Stage::Ribbon { .. } => Fetch::First(Shape::Id),
            Stage::StoryComments { .. } => Fetch::All(Shape::AuthorAndId),
            Stage::StoryTaggings => Fetch::All(Shape::TagId),
            Stage::VoteStory { .. } => Fetch::First(Shape::Story),
            Stage::VoteComment { .. } => Fetch::First(Shape::CommentTally),
            Stage::VoteCommentStory { .. } => Fetch::First(Shape::StoryScore),
            Stage::SeedTag { .. } => Fetch::First(Shape::Id),
            Stage::SubmitBegun { .. } => Fetch::Nothing,
            Stage::StoryInserted { .. } => Fetch::InsertId,
            Stage::CommentStory { .. } => Fetch::First(Shape::Story),
            Stage::CommentParent { .. } => Fetch::First(Shape::Thread),
            Stage::CommentBegun { .. } => Fetch::Nothing,
            Stage::CommentInserted { .. } => Fetch::InsertId,
            Stage::CommentCounted { .. } => Fetch::Count,
            Stage::Done => Fetch::Nothing,
        }
    }
}

/// A request in progress.
#[derive(Clone, Debug, PartialEq, Eq)]
pub struct Task {
    /// The user that the request acts for.
    pub acting_as: Option<u32>,
    pub stage: Stage,
    /// The ids that a later script is keyed by.
    pub ids: Vec<u32>,
    /// The title of the story being submitted.
    pub word: String,
    /// The hotness of the story being commented on.
    pub score: Option<Double>,
    /// What the last turn found worth logging.
    pub notice: Option<Notice>,
}

/// A request in progress, in contracts.
pub struct TaskView {
    pub acting_as: Option<u32>,
    pub stage: Stage,
    pub ids: Seq<u32>,
    pub word: Seq<char>,
    pub score: Option<Level>,
    pub notice: Option<Notice>,
}

impl View for Task {
    type V = TaskView;

    open spec fn view(&self) -> TaskView {
        TaskView {
            acting_as: self.acting_as,
            stage: self.stage,
            ids: self.ids@,
            word: self.word@,
            score: level_of(self.score),
            notice: self.notice,
        }
    }
}

impl TaskView {
    /// A task at `stage` that holds nothing.
    pub open spec fn at(acting_as: Option<u32>, stage: Stage) -> TaskView {
        TaskView {
            acting_as,
            stage,
            ids: Seq::empty(),
            word: Seq::empty(),
            score: None,
            notice: None,
        }
    }

    /// The same task, holding the list `ids`.
    pub open spec fn holding_ids(self, ids: Seq<u32>) -> TaskView {
        TaskView { ids, ..self }
    }

    /// The same task, holding the text `word`.
    pub open spec fn holding_word(self, word: Seq<char>) -> TaskView {
        TaskView { word, ..self }
    }

    /// The same task, holding `score`.
    pub open spec fn holding_score(self, score: Option<Level>) -> TaskView {
        TaskView { score, ..self }
    }

    /// The same task, with something for the log.
    pub open spec fn noting(self, notice: Option<Notice>) -> TaskView {
        TaskView { notice, ..self }
    }

    /// A task that has ended.
    pub open spec fn ended(acting_as: Option<u32>) -> TaskView {
        TaskView::at(acting_as, Stage::Done)
    }
}

/// One turn of a task: where it stands afterwards, and the script to carry out
/// or the reason why it ended.
pub struct Turn {
    pub task: TaskView,
    pub script: Result<Seq<ActionView>, Failure>,
}

impl Turn {
    /// The task moves to `stage`, holding nothing, and hands out `script`.
    pub open spec fn to(acting_as: Option<u32>, stage: Stage, script: Seq<ActionView>) -> Turn {
        Turn { task: TaskView::at(acting_as, stage), script: Ok(script) }
    }

    /// The task moves on as `task` and hands out `script`.
    pub open spec fn on(task: TaskView, script: Seq<ActionView>) -> Turn {
        Turn { task, script: Ok(script) }
    }

    /// The task hands out its last script.
    pub open spec fn last(acting_as: Option<u32>, script: Seq<ActionView>) -> Turn {
        Turn { task: TaskView::ended(acting_as), script: Ok(script) }
    }

    /// The task ends without completing.
    pub open spec fn failed(acting_as: Option<u32>, failure: Failure) -> Turn {
        Turn { task: TaskView::ended(acting_as), script: Err(failure) }
    }
}

/// What a turn handed out, in contracts.
pub open spec fn handed(script: Result<Vec<Action>, Failure>) -> Result<Seq<ActionView>, Failure> {
    match script {
        Ok(s) => Ok(actions(s@)),
        Err(f) => Err(f),
    }
}

/// A turn as the caller sees it: the task afterwards, and what it handed out.
pub open spec fn taken(task: TaskView, script: Result<Vec<Action>, Failure>) -> Turn {
    Turn { task, script: handed(script) }
}

/// The turn `turn`, with `head` in front of its script.
pub open spec fn prefixed(head: Seq<ActionView>, turn: Turn) -> Turn {
    Turn {
        task: turn.task,
        script: match turn.script {
            Ok(s) => Ok(head + s),
            Err(f) => Err(f),
        },
    }
}

impl Task {
    /// A task at `stage` that holds nothing.
    pub fn at(acting_as: Option<u32>, stage: Stage) -> (task: Task)
        ensures
            task@ == TaskView::at(acting_as, stage),
    {
        Task { acting_as, stage, ids: Vec::new(), word: String::new(), score: None, notice: None }
    }

    /// Whether the task has ended: the script handed out last, if any, is its
    /// final one.
    pub fn finished(&self) -> (done: bool)
        ensures
            done == (self@.stage == Stage::Done),
    {
        match self.stage {
            Stage::Done => true,
            _ => false,
        }
    }

    /// Moves to `stage`, holding nothing.
    pub fn move_to(&mut self, stage: Stage)
        ensures
            final(self)@ == TaskView::at(old(self)@.acting_as, stage),
    {
        self.stage = stage;
        self.ids = Vec::new();
        self.word = String::new();
        self.score = None;
        self.notice = None;
    }

    /// Ends the task without completing it.
    pub fn fail(&mut self, failure: Failure) -> (r: Result<Vec<Action>, Failure>)
        ensures
            taken(final(self)@, r) == Turn::failed(old(self)@.acting_as, failure),
    {
        self.move_to(Stage::Done);
        Err(failure)
    }

    /// A task that ended before it began.
    pub fn refused(acting_as: Option<u32>, failure: Failure) -> (r: (Task, Result<Vec<Action>, Failure>))
        ensures
            taken(r.0@, r.1) == Turn::failed(acting_as, failure),
    {
        (Task::at(acting_as, Stage::Done), Err(failure))
    }
}

} // verus!
