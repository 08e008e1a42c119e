//! A store to reason with: the tables that the requests read and write, and
//! what each statement of the library means on them.
//!
//! Nothing here runs. The model says, in the plainest terms available, what a
//! store does with a statement when no other connection interferes; the laws
//! of the library are stated and proved against it. It keeps what the laws
//! speak of and passes over the rest: rows are listed in the order in which
//! they were inserted, a listing is cut to its page size from the front, and a
//! score is kept as the reading it was written from and the whole votes it was
//! moved by.

use crate::clock::Timestamp;
use crate::drive::{advanced, started};
use crate::query::{Counter, Kind, Parent, QueryView};
use crate::render::{base_of, counted};
use crate::reply::{CellView, ReplyView};
use crate::request::{RequestView, ShortId, Vote};
use crate::score::{Double, INITIAL_HOTNESS_BITS, Level};
use crate::task::{ActionView, Failure, Page, Stage, TaskView};
use vstd::prelude::*;

verus! {

/// Bit pattern of -19216.5479744, the hotness that a submitted story settles at.
pub const SETTLED_HOTNESS_BITS: u64 = 0xC0D2_C423_1203_37C3;

/// A row of `users`.
pub struct Member {
    pub id: u32,
    /// The number in the user's name.
    pub number: u32,
    pub karma: int,
}

/// A row of `stories`.
pub struct Story {
    pub id: u32,
    pub code: ShortId,
    pub author: u32,
    pub title: Seq<char>,
    pub upvotes: int,
    pub downvotes: int,
    pub hotness: Level,
    pub comments_count: int,
}

/// A row of `comments`.
pub struct Comment {
    pub id: u32,
    pub code: ShortId,
    pub story: u32,
    pub author: u32,
    pub parent: Option<Parent>,
    pub upvotes: int,
    pub downvotes: int,
    /// The upvotes and the votes in all that the confidence was last worked
    /// out from; `None` while it is the one that a comment is posted with.
    pub share: Option<(u64, u64)>,
}

/// A row of `votes`.
pub struct Ballot {
    pub user: u32,
    pub story: u32,
    pub comment: Option<u32>,
    pub up: bool,
}

/// A row of `read_ribbons`.
pub struct Ribbon {
    pub id: u32,
    pub user: u32,
    pub story: u32,
    pub created_at: Timestamp,
    pub updated_at: Timestamp,
}

/// A row of `taggings`.
pub struct Tagging {
    pub story: u32,
    pub tag: u32,
}

/// The tables.
pub struct Tables {
    pub members: Seq<Member>,
    pub stories: Seq<Story>,
    pub comments: Seq<Comment>,
    pub ballots: Seq<Ballot>,
    pub ribbons: Seq<Ribbon>,
    pub taggings: Seq<Tagging>,
    /// The keystore counters that are there, by user and counter.
    pub counters: Map<(u32, Counter), int>,
    /// Who has hidden which story.
    pub hidden: Set<(u32, u32)>,
    /// The tags that each user has filtered out.
    pub filters: Map<u32, Seq<u32>>,
    /// The id of the seed tag, while it is active.
    pub seed_tag: Option<u32>,
    /// The id that the next inserted row gets.
    pub next_id: nat,
}

/// The first row that is wanted, in row order.
pub open spec fn first_where<T>(rows: Seq<T>, wanted: spec_fn(T) -> bool) -> Option<T>
    decreases rows.len(),
{
    if rows.len() == 0 {
        None
    } else {
        match first_where(rows.drop_last(), wanted) {
            Some(row) => Some(row),
            None => if wanted(rows.last()) {
                Some(rows.last())
            } else {
                None
            },
        }
    }
}

/// Every row, with those that are meant changed.
pub open spec fn changed<T>(rows: Seq<T>, meant: spec_fn(T) -> bool, change: spec_fn(T) -> T) -> Seq<T> {
    rows.map_values(
        |row: T|
            if meant(row) {
                change(row)
            } else {
                row
            },
    )
}

/// The first `n` rows, or all where there are fewer.
pub open spec fn page<T>(rows: Seq<T>, n: int) -> Seq<T> {
    if rows.len() <= n {
        rows
    } else {
        rows.take(n)
    }
}

/// The front-page stories in row order: no more downvotes than upvotes; for a
/// viewer, not hidden by them and without any of the tags they filter.
pub open spec fn on_front(t: Tables, viewer: Option<u32>, tags: Seq<u32>) -> spec_fn(Story) -> bool {
    |s: Story| s.upvotes - s.downvotes >= 0 && shown_to(t, viewer, tags, s.id)
}

/// The recent stories: at most five more upvotes than downvotes, with the
/// same exclusions.
pub open spec fn on_recent(t: Tables, viewer: Option<u32>, tags: Seq<u32>) -> spec_fn(
    Story,
) -> bool {
    |s: Story| s.upvotes - s.downvotes <= 5 && shown_to(t, viewer, tags, s.id)
}

/// Whether a listing shows `story` to `viewer`, who filters `tags`.
pub open spec fn shown_to(t: Tables, viewer: Option<u32>, tags: Seq<u32>, story: u32) -> bool {
    match viewer {
        None => true,
        Some(user) => !t.hidden.contains((user, story)) && forall|i: int|
            0 <= i < t.taggings.len() && (#[trigger] t.taggings[i]).story == story
                ==> !tags.contains(t.taggings[i].tag),
    }
}

/// The oldest member whose name carries `number`.
pub open spec fn member_named(members: Seq<Member>, number: u32) -> Option<Member> {
    first_where(members, |m: Member| m.number == number)
}

/// The oldest member with this id.
pub open spec fn member_numbered(members: Seq<Member>, id: u32) -> Option<Member> {
    first_where(members, |m: Member| m.id == id)
}

/// The oldest story with this short id.
pub open spec fn story_coded(stories: Seq<Story>, code: ShortId) -> Option<Story> {
    first_where(stories, |s: Story| s.code == code)
}

/// The oldest story with this id.
pub open spec fn story_numbered(stories: Seq<Story>, id: u32) -> Option<Story> {
    first_where(stories, |s: Story| s.id == id)
}

/// The oldest comment with this short id.
pub open spec fn comment_coded(comments: Seq<Comment>, code: ShortId) -> Option<Comment> {
    first_where(comments, |c: Comment| c.code == code)
}

/// The oldest comment of `story` with this short id.
pub open spec fn comment_coded_in(comments: Seq<Comment>, story: u32, code: ShortId) -> Option<
    Comment,
> {
    first_where(comments, |c: Comment| c.story == story && c.code == code)
}

/// The comments of `story`, in row order.
pub open spec fn comments_in(comments: Seq<Comment>, story: u32) -> Seq<Comment> {
    comments.filter(|c: Comment| c.story == story)
}

/// The taggings of `story`, in row order.
pub open spec fn taggings_in(taggings: Seq<Tagging>, story: u32) -> Seq<Tagging> {
    taggings.filter(|g: Tagging| g.story == story)
}

/// The ribbons of `user` on `story`, in row order.
pub open spec fn ribbons_of(ribbons: Seq<Ribbon>, user: u32, story: u32) -> Seq<Ribbon> {
    ribbons.filter(|r: Ribbon| r.user == user && r.story == story)
}

/// The oldest ribbon of `user` on `story`.
pub open spec fn ribbon_of(ribbons: Seq<Ribbon>, user: u32, story: u32) -> Option<Ribbon> {
    first_where(ribbons, |r: Ribbon| r.user == user && r.story == story)
}

/// The members, with the karma of those with the id `author` moved by `by`.
pub open spec fn with_karma(members: Seq<Member>, author: u32, by: int) -> Seq<Member> {
    changed(
        members,
        |m: Member| m.id == author,
        |m: Member| Member { karma: m.karma + by, ..m },
    )
}

/// The stories, with those with the id `story` tallied after `vote`.
pub open spec fn with_tally(stories: Seq<Story>, story: u32, vote: Vote, base: Level) -> Seq<Story> {
    changed(stories, |s: Story| s.id == story, |s: Story| tallied(s, vote, base))
}

/// The stories, with the hotness of those with the id `story` set.
pub open spec fn with_hotness(stories: Seq<Story>, story: u32, hotness: Level) -> Seq<Story> {
    changed(stories, |s: Story| s.id == story, |s: Story| Story { hotness, ..s })
}

/// The stories, with the comment count of those with the id `story` set.
pub open spec fn with_count(stories: Seq<Story>, story: u32, count: int) -> Seq<Story> {
    changed(stories, |s: Story| s.id == story, |s: Story| Story { comments_count: count, ..s })
}

/// The comments, with the vote counts of those with the id `comment` moved
/// by `vote`, and their confidence worked out from `vote` and the counts that
/// the voter's task had read.
pub open spec fn with_comment_tally(
    comments: Seq<Comment>,
    comment: u32,
    vote: Vote,
    upvotes: u32,
    downvotes: u32,
) -> Seq<Comment> {
    changed(
        comments,
        |c: Comment| c.id == comment,
        |c: Comment|
            Comment {
                upvotes: c.upvotes + vote.ups(),
                downvotes: c.downvotes + vote.downs(),
                share: Some(
                    (
                        counted(upvotes, vote.ups()),
                        (counted(upvotes, vote.ups()) + counted(downvotes, vote.downs())) as u64,
                    ),
                ),
                ..c
            },
    )
}

/// The ribbons, with those with the id `ribbon` seen again at `at`.
pub open spec fn touched(ribbons: Seq<Ribbon>, ribbon: u32, at: Timestamp) -> Seq<Ribbon> {
    changed(ribbons, |r: Ribbon| r.id == ribbon, |r: Ribbon| Ribbon { updated_at: at, ..r })
}

/// The hotness that a submitted story settles at.
pub open spec fn settled_hotness() -> Level {
    Level { origin: Double { bits: SETTLED_HOTNESS_BITS }, net: 0 }
}

/// The row that a reply reports for a comment to vote on.
pub open spec fn comment_cells(c: Comment) -> Seq<CellView> {
    seq![
        cell(c.author),
        cell(c.id),
        cell(c.story),
        cell(c.upvotes as u32),
        cell(c.downvotes as u32),
    ]
}

/// The thread of a comment.
pub open spec fn thread_of(c: Comment) -> Option<u32> {
    match c.parent {
        Some(p) => p.thread,
        None => None,
    }
}

/// A number as a cell.
pub open spec fn cell(n: u32) -> CellView {
    CellView::Number(n)
}

/// An optional number as a cell.
pub open spec fn maybe_cell(n: Option<u32>) -> CellView {
    match n {
        Some(n) => CellView::Number(n),
        None => CellView::Null,
    }
}

/// The row that a reply reports for a story.
pub open spec fn story_cells(s: Story) -> Seq<CellView> {
    seq![cell(s.author), cell(s.id), CellView::Score(s.hotness)]
}

/// The row that a reply reports for the first of these rows, read by `cells`.
pub open spec fn first_reply<T>(found: Option<T>, cells: spec_fn(T) -> Seq<CellView>) -> ReplyView {
    match found {
        Some(row) => ReplyView::First(Some(cells(row))),
        None => ReplyView::First(None),
    }
}

/// What the store reports back for `q`, read as `q` asks.
pub open spec fn answer(t: Tables, q: QueryView) -> ReplyView {
    match q.kind {
        Kind::UserByName { suffix } => first_reply(
            member_named(t.members, suffix),
            |m: Member| seq![cell(m.id)],
        ),
        Kind::UserExists { user } => first_reply(
            member_named(t.members, user),
            |m: Member| Seq::<CellView>::empty(),
        ),
        Kind::TagFilters { user } => ReplyView::All(
            if t.filters.contains_key(user) {
                t.filters[user].map_values(|tag: u32| seq![cell(tag)])
            } else {
                Seq::empty()
            },
        ),
        Kind::Frontpage { viewer } => ReplyView::All(
            page(t.stories.filter(on_front(t, viewer, q.ids)), 26).map_values(
                |s: Story| seq![cell(s.author), cell(s.id)],
            ),
        ),
        Kind::Recent { viewer } => ReplyView::All(
            page(t.stories.filter(on_recent(t, viewer, q.ids)), 25).map_values(
                |s: Story| seq![cell(s.id)],
            ),
        ),
        Kind::StoriesIn => ReplyView::All(
            t.stories.filter(|s: Story| q.ids.contains(s.id)).map_values(
                |s: Story| seq![cell(s.author), cell(s.id)],
            ),
        ),
        Kind::TaggingsIn => ReplyView::All(
            t.taggings.filter(|g: Tagging| q.ids.contains(g.story)).map_values(
                |g: Tagging| seq![cell(g.tag)],
            ),
        ),
        Kind::LatestComments { viewer } => ReplyView::All(
            page(
                t.comments.filter(
                    |c: Comment|
                        match viewer {
                            Some(user) => !t.hidden.contains((user, c.story)),
                            None => true,
                        },
                ),
                20,
            ).map_values(|c: Comment| seq![cell(c.id), cell(c.author), cell(c.story)]),
        ),
        Kind::StoryByShortId { id } => first_reply(
            story_coded(t.stories, id),
            |s: Story| story_cells(s),
        ),
        Kind::Ribbon { user, story } => first_reply(
            ribbon_of(t.ribbons, user, story),
            |r: Ribbon| seq![cell(r.id)],
        ),
        Kind::CommentsOf { story } => ReplyView::All(
            comments_in(t.comments, story).map_values(
                |c: Comment| seq![cell(c.author), cell(c.id)],
            ),
        ),
        Kind::TaggingsOf { story } => ReplyView::All(
            taggings_in(t.taggings, story).map_values(
                |g: Tagging| seq![cell(g.tag)],
            ),
        ),
        Kind::CommentByShortId { id } => first_reply(
            comment_coded(t.comments, id),
            |c: Comment| comment_cells(c),
        ),
        Kind::StoryById { story } => first_reply(
            story_numbered(t.stories, story),
            |s: Story| seq![cell(s.author), CellView::Score(s.hotness)],
        ),
        Kind::SeedTag => ReplyView::First(
            match t.seed_tag {
                Some(tag) => Some(seq![cell(tag)]),
                None => None,
            },
        ),
        Kind::ParentComment { story, id } => first_reply(
            comment_coded_in(t.comments, story, id),
            |c: Comment| seq![cell(c.id), maybe_cell(thread_of(c))],
        ),
        Kind::InsertStory { .. } => ReplyView::InsertId(Some(t.next_id as u64)),
        Kind::InsertComment { .. } => ReplyView::InsertId(Some(t.next_id as u64)),
        Kind::CountComments { story } => ReplyView::Count(
            comments_in(t.comments, story).len() as u64,
        ),
        _ => ReplyView::Done,
    }
}

/// A story after `vote`, with its hotness written from `base`.
pub open spec fn tallied(s: Story, vote: Vote, base: Level) -> Story {
    Story {
        upvotes: s.upvotes + vote.ups(),
        downvotes: s.downvotes + vote.downs(),
        hotness: base.moved(vote.worth()),
        ..s
    }
}

/// The row of a story as it is submitted.
pub open spec fn submitted(id: u32, code: ShortId, author: u32, title: Seq<char>) -> Story {
    Story {
        id,
        code,
        author,
        title,
        upvotes: 1,
        downvotes: 0,
        hotness: Level { origin: Double { bits: INITIAL_HOTNESS_BITS }, net: 0 },
        comments_count: 0,
    }
}

/// The row of a comment as it is posted.
pub open spec fn posted(id: u32, code: ShortId, story: u32, author: u32, parent: Option<Parent>) -> Comment {
    Comment { id, code, story, author, parent, upvotes: 1, downvotes: 0, share: None }
}

/// A counter after one more: one where it was not there.
pub open spec fn bumped(counters: Map<(u32, Counter), int>, key: (u32, Counter)) -> Map<
    (u32, Counter),
    int,
> {
    if counters.contains_key(key) {
        counters.insert(key, counters[key] + 1)
    } else {
        counters.insert(key, 1)
    }
}

/// The tables after the store has run `q`.
pub open spec fn apply(t: Tables, q: QueryView) -> Tables {
    match q.kind {
        Kind::InsertUser { user, at } => Tables {
            members: t.members.push(Member { id: t.next_id as u32, number: user, karma: 0 }),
            next_id: t.next_id + 1,
            ..t
        },
        Kind::InsertRibbon { user, story, at } => Tables {
            ribbons: t.ribbons.push(
                Ribbon { id: t.next_id as u32, user, story, created_at: at, updated_at: at },
            ),
            next_id: t.next_id + 1,
            ..t
        },
        Kind::TouchRibbon { ribbon, at } => Tables {
            ribbons: touched(t.ribbons, ribbon, at),
            ..t
        },
        Kind::InsertVote { user, story, comment, vote } => Tables {
            ballots: t.ballots.push(Ballot { user, story, comment, up: vote == Vote::Up }),
            next_id: t.next_id + 1,
            ..t
        },
        Kind::InsertOwnVote { user, story, comment } => Tables {
            ballots: t.ballots.push(
                Ballot {
                    user,
                    story: story.number() as u32,
                    comment: match comment {
                        Some(c) => Some(c.number() as u32),
                        None => None,
                    },
                    up: true,
                },
            ),
            next_id: t.next_id + 1,
            ..t
        },
        Kind::Karma { author, vote, target } => Tables {
            members: with_karma(t.members, author, vote.worth()),
            ..t
        },
        Kind::TallyStory { story, vote } => Tables {
            stories: with_tally(t.stories, story, vote, base_of(q.score)),
            ..t
        },
        Kind::TallyComment { comment, vote, upvotes, downvotes } => Tables {
            comments: with_comment_tally(t.comments, comment, vote, upvotes, downvotes),
            ..t
        },
        Kind::InsertStory { user, id, at } => Tables {
            stories: t.stories.push(submitted(t.next_id as u32, id, user, q.word)),
            next_id: t.next_id + 1,
            ..t
        },
        Kind::InsertTagging { story, tag } => Tables {
            taggings: t.taggings.push(Tagging { story: story as u32, tag }),
            next_id: t.next_id + 1,
            ..t
        },
        Kind::BumpCounter { user, which } => Tables {
            counters: bumped(t.counters, (user, which)),
            ..t
        },
        Kind::SettleHotness { story } => Tables {
            stories: with_hotness(t.stories, story as u32, settled_hotness()),
            ..t
        },
        Kind::InsertComment { user, story, id, parent, at } => Tables {
            comments: t.comments.push(posted(t.next_id as u32, id, story, user, parent)),
            next_id: t.next_id + 1,
            ..t
        },
        Kind::SetCommentCount { story, count } => Tables {
            stories: with_count(t.stories, story, count as int),
            ..t
        },
        Kind::RewriteHotness { story } => Tables {
            stories: with_hotness(t.stories, story, base_of(q.score)),
            ..t
        },
        _ => t,
    }
}

/// The store as one connection sees it: the tables, and the tables as they
/// were when the open transaction began.
pub struct Store {
    pub tables: Tables,
    pub saved: Option<Tables>,
}

impl Store {
    /// The store with these tables and no transaction open.
    pub open spec fn settled(tables: Tables) -> Store {
        Store { tables, saved: None }
    }

    /// The store after `action`.
    pub open spec fn after(self, action: ActionView) -> Store {
        match action {
            ActionView::Run(q) => Store { tables: apply(self.tables, q), saved: self.saved },
            ActionView::Begin => Store { tables: self.tables, saved: Some(self.tables) },
            ActionView::Commit => Store { tables: self.tables, saved: None },
        }
    }

    /// What the store reports back for `action`.
    pub open spec fn reply_to(self, action: ActionView) -> ReplyView {
        match action {
            ActionView::Run(q) => answer(self.tables, q),
            _ => ReplyView::Done,
        }
    }

    /// The store after the first `n` actions of `script`.
    pub open spec fn carried(self, script: Seq<ActionView>, n: nat) -> Store
        decreases n,
    {
        if n == 0 {
            self
        } else {
            self.carried(script, (n - 1) as nat).after(script[n - 1])
        }
    }

    /// The store after all of `script`.
    pub open spec fn through(self, script: Seq<ActionView>) -> Store {
        self.carried(script, script.len())
    }

    /// The reply to the last action of `script`; `Done` where it is empty.
    pub open spec fn last_reply(self, script: Seq<ActionView>) -> ReplyView {
        if script.len() == 0 {
            ReplyView::Done
        } else {
            self.carried(script, (script.len() - 1) as nat).reply_to(script.last())
        }
    }

    /// The store after the connection is given up: what an open transaction
    /// wrote is gone.
    pub open spec fn abandoned(self) -> Store {
        match self.saved {
            Some(tables) => Store { tables, saved: None },
            None => self,
        }
    }
}

impl Stage {
    /// How many replies a task at this stage takes at most before it ends.
    pub open spec fn turns_left(self) -> nat {
        match self {
            Stage::Done => 0,
            Stage::Profile => 1,
            Stage::Filters { page } => match page {
                Page::Front => 3,
                Page::Recent => 4,
            },
            Stage::RecentIds => 3,
            Stage::Listing { .. } => 2,
            Stage::Taggings { .. } => 1,
            Stage::LatestComments => 2,
            Stage::CommentStories => 1,
            Stage::LoginCheck { .. } => 1,
            Stage::StoryPage => 4,
            Stage::Ribbon { .. } => 3,
            Stage::StoryComments { .. } => 2,
            Stage::StoryTaggings => 1,
            Stage::VoteStory { .. } => 1,
            Stage::VoteComment { .. } => 2,
            Stage::VoteCommentStory { .. } => 1,
            Stage::SeedTag { .. } => 3,
            Stage::SubmitBegun { .. } => 2,
            Stage::StoryInserted { .. } => 1,
            Stage::CommentStory { .. } => 5,
            Stage::CommentParent { .. } => 4,
            Stage::CommentBegun { .. } => 3,
            Stage::CommentInserted { .. } => 2,
            Stage::CommentCounted { .. } => 1,
        }
    }
}

/// Every turn brings a task nearer to its end, and a turn that fails ends it.
#[verifier::rlimit(50)]
pub proof fn lemma_turns_run_out(task: TaskView, reply: ReplyView, now: Timestamp)
    requires
        task.stage != Stage::Done,
    ensures
        advanced(task, reply, now).task.stage.turns_left() < task.stage.turns_left(),
        advanced(task, reply, now).script is Err ==> advanced(task, reply, now).task.stage
            == Stage::Done,
{
}

/// How a request ended, and the store it left.
pub struct Outcome {
    pub store: Store,
    pub failure: Option<Failure>,
}

/// A task served to its end on the store, with `now` on the clock throughout:
/// `script` is carried out, the reply to its last statement starts the next
/// turn, and so on until the task has ended. A task that fails gives up its
/// connection.
pub open spec fn performed(store: Store, task: TaskView, script: Seq<ActionView>, now: Timestamp) -> Outcome
    decreases task.stage.turns_left(),
{
    let after = store.through(script);
    if task.stage == Stage::Done {
        Outcome { store: after, failure: None }
    } else {
        let turn = advanced(task, store.last_reply(script), now);
        proof {
            lemma_turns_run_out(task, store.last_reply(script), now);
        }
        match turn.script {
            Err(failure) => Outcome { store: after.abandoned(), failure: Some(failure) },
            Ok(next) => performed(after, turn.task, next, now),
        }
    }
}

/// A request served on the store from its first turn to its last.
pub open spec fn served(
    store: Store,
    sessions: Map<u32, Seq<char>>,
    acting_as: Option<u32>,
    request: RequestView,
    now: Timestamp,
) -> Outcome {
    let turn = started(sessions, acting_as, request);
    match turn.script {
        Err(failure) => Outcome { store, failure: Some(failure) },
        Ok(script) => performed(store, turn.task, script, now),
    }
}

} // verus!
