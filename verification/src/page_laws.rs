//! What holds of the pages: they read, and only a story page seen by a user
//! leaves a trace.

use crate::clock::Timestamp;
use crate::closing::{closing, opening, session_token};
use crate::drive::{advanced, begun, started};
use crate::ids::lemma_distinct;
use crate::listing::{comment_marks_script, marks_script};
use crate::model::{
    Comment, Outcome, Ribbon, Store, Story, Tables, Tagging, answer, cell, changed, comments_in,
    first_where, lemma_turns_run_out, on_front, page, performed, ribbon_of, ribbons_of, served,
    shown_to, story_cells, story_coded, taggings_in, touched,
};
use crate::query::{Kind, QueryView};
use crate::store_lemmas::{lemma_first_turn, lemma_two_actions};
use crate::reply::{ReplyView, answers, column, first_in, fits, rows_in};
use crate::request::{RequestView, ShortId};
use crate::statement::{Fetch, Shape};
use crate::story::{comments_script, ribbon_mark, story_marks_script};
use crate::task::{ActionView, Page, Stage, TaskView, Turn, run};
use vstd::prelude::*;

verus! {

/// The statement writes to the store.
pub open spec fn writes(kind: Kind) -> bool {
    ||| kind is InsertUser
    ||| kind is InsertRibbon
    ||| kind is TouchRibbon
    ||| kind is InsertVote
    ||| kind is InsertOwnVote
    ||| kind is Karma
    ||| kind is TallyStory
    ||| kind is TallyComment
    ||| kind is InsertStory
    ||| kind is InsertTagging
    ||| kind is BumpCounter
    ||| kind is SettleHotness
    ||| kind is InsertComment
    ||| kind is SetCommentCount
    ||| kind is RewriteHotness
}

/// The action is a statement that only reads.
pub open spec fn reads_only(action: ActionView) -> bool {
    action matches ActionView::Run(q) && !writes(q.kind)
}

/// A script of statements that only read leaves the store as it is.
pub proof fn lemma_reading_script(store: Store, script: Seq<ActionView>, n: nat)
    requires
        n <= script.len(),
        forall|i: int| 0 <= i < script.len() ==> reads_only(#[trigger] script[i]),
    ensures
        store.carried(script, n) == store,
    decreases n,
{
    if n > 0 {
        lemma_reading_script(store, script, (n - 1) as nat);
        assert(reads_only(script[n - 1]));
    }
}

/// The task is reading a page: from here on, nothing is written.
pub open spec fn browsing(task: TaskView) -> bool {
    let stage = task.stage;
    ||| stage is StoryPage && task.acting_as is None
    ||| stage is Profile
    ||| stage is Filters
    ||| stage is RecentIds
    ||| stage is Listing
    ||| stage is Taggings
    ||| stage is LatestComments
    ||| stage is CommentStories
    ||| stage is StoryComments
    ||| stage is StoryTaggings
    ||| stage is Done
}

/// A task that is reading a page goes on reading it.
#[verifier::rlimit(50)]
pub proof fn lemma_browsing_turn(task: TaskView, reply: ReplyView, now: Timestamp)
    requires
        browsing(task),
    ensures
        browsing(advanced(task, reply, now).task),
        advanced(task, reply, now).script matches Ok(script) ==> forall|i: int|
            0 <= i < script.len() ==> reads_only(#[trigger] script[i]),
{
}

/// Once a task is reading a page, the store stays as the script in hand
/// leaves it.
#[verifier::rlimit(50)]
pub proof fn lemma_browsing_performed(
    store: Store,
    task: TaskView,
    script: Seq<ActionView>,
    now: Timestamp,
)
    requires
        browsing(task),
        store.through(script).saved is None,
    ensures
        performed(store, task, script, now).store == store.through(script),
    decreases task.stage.turns_left(),
{
    if task.stage != Stage::Done {
        let reply = store.last_reply(script);
        lemma_browsing_turn(task, reply, now);
        lemma_turns_run_out(task, reply, now);
        let turn = advanced(task, reply, now);
        match turn.script {
            Err(_) => {},
            Ok(next) => {
                let after = store.through(script);
                lemma_reading_script(after, next, next.len());
                lemma_browsing_performed(after, turn.task, next, now);
            },
        }
    }
}

/// The request is for a page that is read: a profile, one of the listings,
/// the latest comments, a logout, or a story page for an anonymous visitor.
pub open spec fn is_page(acting_as: Option<u32>, request: RequestView) -> bool {
    ||| request is User
    ||| request is Frontpage
    ||| request is Recent
    ||| request is Comments
    ||| request is Logout
    ||| (request is Story && acting_as is None)
}

/// A page begins by reading.
#[verifier::rlimit(50)]
pub proof fn lemma_page_started(
    sessions: Map<u32, Seq<char>>,
    acting_as: Option<u32>,
    request: RequestView,
)
    requires
        is_page(acting_as, request),
    ensures
        browsing(started(sessions, acting_as, request).task),
        started(sessions, acting_as, request).script matches Ok(script) ==> forall|i: int|
            0 <= i < script.len() ==> reads_only(#[trigger] script[i]),
{
    let head = opening(session_token(sessions, acting_as));
    let turn = begun(acting_as, request);
    assert(forall|i: int| 0 <= i < head.len() ==> reads_only(#[trigger] head[i]));
    assert(turn.script is Ok && browsing(turn.task)) by {
        match request {
            RequestView::User(_) => {},
            RequestView::Frontpage => {},
            RequestView::Recent => {},
            RequestView::Comments => {},
            RequestView::Logout => {},
            RequestView::Story(_) => {},
            _ => {},
        }
    }
    match turn.script {
        Err(_) => {},
        Ok(rest) => {
            assert(forall|i: int| 0 <= i < rest.len() ==> reads_only(#[trigger] rest[i]));
            assert forall|i: int| 0 <= i < (head + rest).len() implies reads_only(
                #[trigger] (head + rest)[i],
            ) by {
                if i < head.len() {
                    assert((head + rest)[i] == head[i]);
                } else {
                    assert((head + rest)[i] == rest[i - head.len()]);
                }
            }
        },
    }
}

/// Pages read: a profile, the front page, the recent stories, the latest
/// comments, a logout, and a story page seen by an anonymous visitor leave
/// the store exactly as it was, whether they complete or fail.
pub proof fn law_pages_change_nothing(
    store: Store,
    sessions: Map<u32, Seq<char>>,
    acting_as: Option<u32>,
    request: RequestView,
    now: Timestamp,
)
    requires
        store.saved is None,
        is_page(acting_as, request),
    ensures
        served(store, sessions, acting_as, request, now).store == store,
{
    let turn = started(sessions, acting_as, request);
    lemma_page_started(sessions, acting_as, request);
    match turn.script {
        Err(_) => {},
        Ok(script) => {
            lemma_reading_script(store, script, script.len());
            lemma_browsing_performed(store, turn.task, script, now);
        },
    }
}

/// The tables after `user` has seen the story `s` at `now`: a ribbon that is
/// there is seen again, one that is not is begun.
pub open spec fn after_view(t: Tables, user: u32, s: Story, now: Timestamp) -> Tables {
    match ribbon_of(t.ribbons, user, s.id) {
        None => Tables {
            ribbons: t.ribbons.push(
                Ribbon { id: t.next_id as u32, user, story: s.id, created_at: now, updated_at: now },
            ),
            next_id: t.next_id + 1,
            ..t
        },
        Some(r) => Tables { ribbons: touched(t.ribbons, r.id, now), ..t },
    }
}

/// A story page seen by a user: the user's ribbon on the story is written,
/// and nothing else is.
#[verifier::rlimit(50)]
pub proof fn lemma_story_viewed(
    store: Store,
    sessions: Map<u32, Seq<char>>,
    user: u32,
    id: ShortId,
    now: Timestamp,
)
    requires
        store.saved is None,
        story_coded(store.tables.stories, id) is Some,
    ensures
        served(store, sessions, Some(user), RequestView::Story(id), now) == (Outcome {
            store: Store::settled(
                after_view(store.tables, user, story_coded(store.tables.stories, id)->Some_0, now),
            ),
            failure: None,
        }),
{
    let t = store.tables;
    let s = story_coded(t.stories, id)->Some_0;
    let acting_as = Some(user);
    let token = session_token(sessions, acting_as);
    let ask = run(Kind::StoryByShortId { id });
    let task = TaskView::at(acting_as, Stage::StoryPage);
    assert(started(sessions, acting_as, RequestView::Story(id)) == Turn::on(
        task,
        opening(token) + seq![ask],
    ));
    lemma_first_turn(store, token, task, ask, now);
    assert(store.reply_to(ask) == ReplyView::First(Some(story_cells(s))));
    assert(fits(Shape::Story, story_cells(s)));
    let author = run(Kind::UserById { user: s.author });
    let look = run(Kind::Ribbon { user, story: s.id });
    let task1 = TaskView::at(acting_as, Stage::Ribbon { user, story: s.id });
    assert(advanced(task, store.reply_to(ask), now) == Turn::on(task1, seq![author, look]));
    lemma_two_actions(store, author, look);
    let reply1 = store.last_reply(seq![author, look]);
    let found = ribbon_of(t.ribbons, user, s.id);
    match found {
        Some(r) => {
            assert(reply1 == ReplyView::First(Some(seq![cell(r.id)])));
            assert(fits(Shape::Id, seq![cell(r.id)]));
        },
        None => {
            assert(reply1 == ReplyView::First(None));
        },
    }
    let mark = ribbon_mark(user, s.id, first_in(reply1), now);
    let next = seq![mark] + comments_script(s.id);
    let task2 = TaskView::at(acting_as, Stage::StoryComments { story: s.id });
    assert(advanced(task1, reply1, now) == Turn::on(task2, next));
    assert(store.through(next) == Store::settled(after_view(t, user, s, now))) by {
        reveal_with_fuel(Store::carried, 4);
    }
    lemma_browsing_performed(store, task2, next, now);
    assert(next.last() == run(Kind::CommentsOf { story: s.id }));
    lemma_story_page_goes_through(store, acting_as, s.id, next, now);
}

/// From the comments on, a story page goes through: its last two turns take
/// what the store reports and end the task without failing.
#[verifier::rlimit(50)]
pub proof fn lemma_story_page_goes_through(
    store: Store,
    acting_as: Option<u32>,
    story: u32,
    script: Seq<ActionView>,
    now: Timestamp,
)
    requires
        script.len() > 0,
        script.last() == run(Kind::CommentsOf { story }),
    ensures
        performed(
            store,
            TaskView::at(acting_as, Stage::StoryComments { story }),
            script,
            now,
        ).failure is None,
{
    let task = TaskView::at(acting_as, Stage::StoryComments { story });
    let before = store.carried(script, (script.len() - 1) as nat).tables;
    let found = comments_in(before.comments, story);
    let rows = found.map_values(|c: Comment| seq![cell(c.author), cell(c.id)]);
    let reply = store.last_reply(script);
    assert(reply == ReplyView::All(rows));
    assert forall|i: int| 0 <= i < rows.len() implies fits(
        Shape::AuthorAndId,
        #[trigger] rows[i],
    ) by {
        assert(rows[i] == seq![cell(found[i].author), cell(found[i].id)]);
    }
    let turn = advanced(task, reply, now);
    assert(turn.task == TaskView::at(acting_as, Stage::StoryTaggings));
    let next = turn.script->Ok_0;
    assert(next.last() == run(Kind::TaggingsOf { story }));
    lemma_browsing_turn(task, reply, now);
    let after = store.through(script);
    lemma_reading_script(after, next, (next.len() - 1) as nat);
    lemma_story_taggings_go_through(after, acting_as, story, next, now);
}

/// The last turn of a story page takes what the store reports and ends the
/// task without failing.
#[verifier::rlimit(50)]
proof fn lemma_story_taggings_go_through(
    store: Store,
    acting_as: Option<u32>,
    story: u32,
    script: Seq<ActionView>,
    now: Timestamp,
)
    requires
        script.len() > 0,
        script.last() == run(Kind::TaggingsOf { story }),
    ensures
        performed(store, TaskView::at(acting_as, Stage::StoryTaggings), script, now).failure
            is None,
{
    let task = TaskView::at(acting_as, Stage::StoryTaggings);
    let before = store.carried(script, (script.len() - 1) as nat).tables;
    let found = taggings_in(before.taggings, story);
    let rows = found.map_values(|g: Tagging| seq![cell(g.tag)]);
    let reply = store.last_reply(script);
    assert(reply == ReplyView::All(rows));
    assert forall|i: int| 0 <= i < rows.len() implies fits(Shape::TagId, #[trigger] rows[i]) by {
        assert(rows[i] == seq![cell(found[i].tag)]);
    }
    let turn = advanced(task, reply, now);
    assert(turn.task.stage == Stage::Done);
    assert(turn.script is Ok);
    assert(performed(store.through(script), turn.task, turn.script->Ok_0, now).failure is None);
}

/// The rows that are kept after one more was added.
pub proof fn lemma_kept_after_push<T>(rows: Seq<T>, row: T, kept: spec_fn(T) -> bool)
    ensures
        rows.push(row).filter(kept) == if kept(row) {
            rows.filter(kept).push(row)
        } else {
            rows.filter(kept)
        },
{
    reveal(Seq::filter);
    assert(rows.push(row).drop_last() =~= rows);
}

/// The rows that are kept after some were changed: where the change leaves
/// what they are kept for untouched, the same rows, changed.
pub proof fn lemma_kept_after_change<T>(
    rows: Seq<T>,
    meant: spec_fn(T) -> bool,
    change: spec_fn(T) -> T,
    kept: spec_fn(T) -> bool,
)
    requires
        forall|row: T| kept(#[trigger] change(row)) == kept(row),
    ensures
        changed(rows, meant, change).filter(kept) == changed(rows.filter(kept), meant, change),
    decreases rows.len(),
{
    reveal(Seq::filter);
    if rows.len() > 0 {
        lemma_kept_after_change(rows.drop_last(), meant, change, kept);
        assert(changed(rows, meant, change).drop_last() =~= changed(
            rows.drop_last(),
            meant,
            change,
        ));
        assert(changed(rows, meant, change).filter(kept) =~= changed(
            rows.filter(kept),
            meant,
            change,
        ));
    } else {
        assert(changed(rows, meant, change).filter(kept) =~= changed(
            rows.filter(kept),
            meant,
            change,
        ));
    }
}

/// The row that is found is the first of those that are kept for the same.
pub proof fn lemma_found_is_first_kept<T>(rows: Seq<T>, wanted: spec_fn(T) -> bool)
    ensures
        first_where(rows, wanted) == if rows.filter(wanted).len() > 0 {
            Some(rows.filter(wanted)[0])
        } else {
            None
        },
    decreases rows.len(),
{
    reveal(Seq::filter);
    if rows.len() > 0 {
        lemma_found_is_first_kept(rows.drop_last(), wanted);
    }
}

/// Seeing a story keeps the ribbon single: where a user has at most one
/// ribbon on the story, they have exactly one afterwards, last updated at the
/// time of the view and created when it first was.
pub proof fn lemma_view_keeps_one_ribbon(t: Tables, user: u32, s: Story, now: Timestamp)
    requires
        ribbons_of(t.ribbons, user, s.id).len() <= 1,
    ensures
        ({
            let before = ribbons_of(t.ribbons, user, s.id);
            let after = ribbons_of(after_view(t, user, s, now).ribbons, user, s.id);
            &&& after.len() == 1
            &&& after[0].updated_at == now
            &&& after[0].created_at == if before.len() == 1 {
                before[0].created_at
            } else {
                now
            }
        }),
{
    let mine = |r: Ribbon| r.user == user && r.story == s.id;
    lemma_found_is_first_kept(t.ribbons, mine);
    match ribbon_of(t.ribbons, user, s.id) {
        None => {
            lemma_kept_after_push(
                t.ribbons,
                Ribbon { id: t.next_id as u32, user, story: s.id, created_at: now, updated_at: now },
                mine,
            );
        },
        Some(r) => {
            lemma_kept_after_change(
                t.ribbons,
                |x: Ribbon| x.id == r.id,
                |x: Ribbon| Ribbon { updated_at: now, ..x },
                mine,
            );
        },
    }
}

/// The read ribbon is single: when a user sees the same story twice, and had
/// at most one ribbon on it before, they have exactly one ribbon on it after
/// each of the two views. It carries the time of the view as the time of its
/// last update, so that the time of the second view replaces that of the
/// first, and it keeps the time at which it was created.
pub proof fn law_seeing_a_story_twice_leaves_one_ribbon(
    store: Store,
    sessions: Map<u32, Seq<char>>,
    user: u32,
    id: ShortId,
    first: Timestamp,
    second: Timestamp,
)
    requires
        store.saved is None,
        story_coded(store.tables.stories, id) is Some,
        ribbons_of(
            store.tables.ribbons,
            user,
            story_coded(store.tables.stories, id)->Some_0.id,
        ).len() <= 1,
    ensures
        ({
            let story = story_coded(store.tables.stories, id)->Some_0.id;
            let once = served(store, sessions, Some(user), RequestView::Story(id), first).store;
            let twice = served(once, sessions, Some(user), RequestView::Story(id), second).store;
            let one = ribbons_of(once.tables.ribbons, user, story);
            let two = ribbons_of(twice.tables.ribbons, user, story);
            &&& one.len() == 1
            &&& one[0].updated_at == first
            &&& two.len() == 1
            &&& two[0].updated_at == second
            &&& two[0].created_at == one[0].created_at
        }),
{
    let s = story_coded(store.tables.stories, id)->Some_0;
    lemma_story_viewed(store, sessions, user, id, first);
    lemma_view_keeps_one_ribbon(store.tables, user, s, first);
    let once = served(store, sessions, Some(user), RequestView::Story(id), first).store;
    assert(once.tables.stories == store.tables.stories);
    lemma_story_viewed(once, sessions, user, id, second);
    lemma_view_keeps_one_ribbon(once.tables, user, s, second);
}

/// The statement loads what a viewer has marked: their votes, what they have
/// hidden, what they have saved.
pub open spec fn loads_marks(action: ActionView) -> bool {
    action matches ActionView::Run(q) && {
        ||| q.kind is VotesOnStories
        ||| q.kind is HiddenAmong
        ||| q.kind is SavedAmong
        ||| q.kind is VotesOnComments
        ||| q.kind is VoteOnStory
        ||| q.kind is HiddenStory
        ||| q.kind is SavedStory
    }
}

/// Nothing is personal for an anonymous visitor: the first script of a
/// request made for no user loads no marks.
#[verifier::rlimit(50)]
pub proof fn law_anonymous_requests_begin_without_marks(
    sessions: Map<u32, Seq<char>>,
    request: RequestView,
)
    ensures
        started(sessions, None, request).task.acting_as is None,
        started(sessions, None, request).script matches Ok(script) ==> forall|i: int|
            0 <= i < script.len() ==> !loads_marks(#[trigger] script[i]),
{
}

/// Nothing is personal for an anonymous visitor: whatever comes back, no
/// later script of a task that acts for no user loads marks, and the task
/// goes on acting for no user.
#[verifier::rlimit(50)]
pub proof fn law_anonymous_tasks_load_no_marks(task: TaskView, reply: ReplyView, now: Timestamp)
    requires
        task.acting_as is None,
    ensures
        advanced(task, reply, now).task.acting_as is None,
        advanced(task, reply, now).script matches Ok(script) ==> forall|i: int|
            0 <= i < script.len() ==> !loads_marks(#[trigger] script[i]),
{
    assert(marks_script(None, task.ids) =~= Seq::<ActionView>::empty());
    assert(comment_marks_script(None, task.ids) =~= Seq::<ActionView>::empty());
    assert(closing(None) =~= Seq::<ActionView>::empty());
    match task.stage {
        Stage::StoryComments { story } => {
            assert(story_marks_script(None, story) =~= Seq::<ActionView>::empty());
        },
        Stage::Taggings { .. } => {},
        Stage::CommentStories => {},
        Stage::Listing { .. } => {},
        Stage::CommentCounted { .. } => {},
        Stage::StoryInserted { .. } => {},
        Stage::VoteStory { .. } => {},
        Stage::VoteComment { .. } => {},
        Stage::VoteCommentStory { .. } => {},
        _ => {},
    }
}

/// The front page leaves out what the viewer has hidden: the listing that
/// the store returns for a viewer holds no story that they have hidden, and
/// neither do the stories that the task then holds for the rest of the page.
#[verifier::rlimit(50)]
pub proof fn law_front_page_leaves_out_hidden_stories(
    t: Tables,
    user: u32,
    tags: Seq<u32>,
    now: Timestamp,
)
    ensures
        ({
            let reply = answer(t, QueryView::over(Kind::Frontpage { viewer: Some(user) }, tags));
            let listed = column(rows_in(reply), 1);
            let turn = advanced(
                TaskView::at(Some(user), Stage::Listing { page: Page::Front }),
                reply,
                now,
            );
            &&& forall|i: int| 0 <= i < listed.len() ==> !t.hidden.contains((user, #[trigger] listed[i]))
            &&& turn.script is Ok
            &&& forall|i: int|
                0 <= i < turn.task.ids.len() ==> !t.hidden.contains(
                    (user, #[trigger] turn.task.ids[i]),
                )
        }),
{
    let viewer = Some(user);
    let reply = answer(t, QueryView::over(Kind::Frontpage { viewer }, tags));
    let kept = t.stories.filter(on_front(t, viewer, tags));
    let shown = page(kept, 26);
    let rows = rows_in(reply);
    let listed = column(rows, 1);
    assert forall|i: int| 0 <= i < shown.len() implies shown_to(
        t,
        viewer,
        tags,
        (#[trigger] shown[i]).id,
    ) by {
        assert(shown[i] == kept[i]);
        t.stories.lemma_filter_pred(on_front(t, viewer, tags), i);
    }
    assert forall|i: int| 0 <= i < listed.len() implies !t.hidden.contains(
        (user, #[trigger] listed[i]),
    ) by {
        assert(rows[i] == seq![cell(shown[i].author), cell(shown[i].id)]);
        assert(listed[i] == shown[i].id);
    }
    assert forall|i: int| 0 <= i < rows.len() implies fits(
        Shape::AuthorAndId,
        #[trigger] rows[i],
    ) by {
        assert(rows[i] == seq![cell(shown[i].author), cell(shown[i].id)]);
    }
    let turn = advanced(
        TaskView::at(viewer, Stage::Listing { page: Page::Front }),
        reply,
        now,
    );
    lemma_distinct(listed);
    assert forall|i: int| 0 <= i < turn.task.ids.len() implies !t.hidden.contains(
        (user, #[trigger] turn.task.ids[i]),
    ) by {
        let id = turn.task.ids[i];
        assert(turn.task.ids.contains(id));
        assert(listed.contains(id));
    }
}

/// A story page shows a viewer their own marks: whatever comments the story
/// has, the page of a viewer loads their vote on the story, whether they
/// have hidden it, and whether they have saved it.
#[verifier::rlimit(50)]
pub proof fn law_story_page_loads_the_viewers_marks(
    user: u32,
    story: u32,
    reply: ReplyView,
    now: Timestamp,
)
    requires
        answers(Fetch::All(Shape::AuthorAndId), reply),
    ensures
        ({
            let turn = advanced(
                TaskView::at(Some(user), Stage::StoryComments { story }),
                reply,
                now,
            );
            &&& turn.script is Ok
            &&& turn.script->Ok_0.contains(run(Kind::VoteOnStory { user, story }))
            &&& turn.script->Ok_0.contains(run(Kind::HiddenStory { user, story }))
            &&& turn.script->Ok_0.contains(run(Kind::SavedStory { user, story }))
        }),
{
    let turn = advanced(TaskView::at(Some(user), Stage::StoryComments { story }), reply, now);
    let script = turn.script->Ok_0;
    assert(script[2] == run(Kind::VoteOnStory { user, story }));
    assert(script[3] == run(Kind::HiddenStory { user, story }));
    assert(script[4] == run(Kind::SavedStory { user, story }));
}

} // verus!
