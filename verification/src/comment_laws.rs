//! What holds of posted comments.

use crate::clock::Timestamp;
use crate::closing::{closing, opening, session_token};
use crate::comment::{
    after_comment_story, count_script, own_vote_script, parent_in, parent_notice, ready_script,
};
use crate::drive::{advanced, started};
use crate::model::{
    Ballot, Comment, Outcome, Store, Story, Tables, bumped, cell, comment_coded_in, comments_in,
    maybe_cell, performed, posted, served, story_cells, story_coded, thread_of, with_count,
    with_hotness,
};
use crate::query::{Counter, Kind, Parent};
use crate::store_lemmas::{
    lemma_before_closing, lemma_carried_in_parts, lemma_first_turn, lemma_found_after_change,
    lemma_one_action, lemma_two_actions,
};
use crate::reply::{ReplyView, first_in, fits};
use crate::request::{RequestView, ShortId};
use crate::score::Level;
use crate::statement::Shape;
use crate::task::{ActionView, Notice, Stage, TaskView, Turn, run};
use vstd::prelude::*;

verus! {

/// The comment that a post of `user` on the story `s` inserts.
pub open spec fn new_comment(t: Tables, user: u32, id: ShortId, s: Story, parent: Option<Parent>) -> Comment {
    posted(t.next_id as u32, id, s.id, user, parent)
}

/// The tables after `user` has posted a comment on the story `s`.
pub open spec fn after_comment(t: Tables, user: u32, id: ShortId, s: Story, parent: Option<Parent>) -> Tables {
    let comments = t.comments.push(new_comment(t, user, id, s, parent));
    Tables {
        comments,
        ballots: t.ballots.push(
            Ballot { user, story: s.id, comment: Some(t.next_id as u32), up: true },
        ),
        stories: with_hotness(
            with_count(t.stories, s.id, comments_in(comments, s.id).len() as int),
            s.id,
            s.hotness,
        ),
        counters: bumped(t.counters, (user, Counter::CommentsPosted)),
        next_id: t.next_id + 2,
        ..t
    }
}

/// The tables once the comment row is in, inside the transaction.
pub open spec fn amid_comment(t: Tables, user: u32, id: ShortId, s: Story, parent: Option<Parent>) -> Tables {
    Tables {
        comments: t.comments.push(new_comment(t, user, id, s, parent)),
        next_id: t.next_id + 1,
        ..t
    }
}

/// What the statements after the comment row do to the store, up to the
/// count, and what the count is.
#[verifier::rlimit(50)]
pub proof fn lemma_own_vote_script(store: Store, user: u32, story: u32, comment: u64)
    ensures
        ({
            let t = store.tables;
            let after = Tables {
                ballots: t.ballots.push(
                    Ballot { user, story, comment: Some(comment as nat as u32), up: true },
                ),
                next_id: t.next_id + 1,
                ..t
            };
            &&& store.through(own_vote_script(user, story, comment)) == Store {
                tables: after,
                saved: store.saved,
            }
            &&& store.last_reply(own_vote_script(user, story, comment)) == ReplyView::Count(
                comments_in(t.comments, story).len() as u64,
            )
        }),
{
    reveal_with_fuel(Store::carried, 5);
}

/// What the statements after the count do to the store, taken together.
#[verifier::rlimit(50)]
pub proof fn lemma_count_script(
    store: Store,
    user: u32,
    story: u32,
    author: u32,
    count: u64,
    hotness: Level,
)
    ensures
        store.through(count_script(user, story, author, count, hotness)) == Store::settled(
            Tables {
                stories: with_hotness(
                    with_count(store.tables.stories, story, count as int),
                    story,
                    hotness,
                ),
                counters: bumped(store.tables.counters, (user, Counter::CommentsPosted)),
                ..store.tables
            },
        ),
{
    reveal_with_fuel(Store::carried, 9);
}

/// A comment from the opening of its transaction on: the row is inserted
/// with the author's own upvote, the story's comment count is set to the
/// number of its comments, its hotness is written again as it was read, and
/// the author's counter moves.
#[verifier::rlimit(50)]
pub proof fn lemma_comment_written(
    store: Store,
    script: Seq<ActionView>,
    user: u32,
    id: ShortId,
    s: Story,
    parent: Option<Parent>,
    notice: Option<Notice>,
    now: Timestamp,
)
    requires
        store.through(script) == (Store { tables: store.tables, saved: Some(store.tables) }),
        store.last_reply(script) == ReplyView::Done,
        store.tables.next_id + 1 <= u32::MAX,
        store.tables.comments.len() < u32::MAX,
    ensures
        performed(
            store,
            TaskView::at(
                Some(user),
                Stage::CommentBegun { user, id, story: s.id, author: s.author, parent },
            ).holding_score(Some(s.hotness)).noting(notice),
            script,
            now,
        ) == (Outcome {
            store: Store::settled(after_comment(store.tables, user, id, s, parent)),
            failure: None,
        }),
{
    let t = store.tables;
    let acting_as = Some(user);
    let task = TaskView::at(
        acting_as,
        Stage::CommentBegun { user, id, story: s.id, author: s.author, parent },
    ).holding_score(Some(s.hotness)).noting(notice);
    let held = Store { tables: t, saved: Some(t) };
    // The row.
    let insert = run(Kind::InsertComment { user, story: s.id, id, parent, at: now });
    let task3 = TaskView::at(
        acting_as,
        Stage::CommentInserted { user, story: s.id, author: s.author },
    ).holding_score(Some(s.hotness));
    assert(advanced(task, ReplyView::Done, now) == Turn::on(task3, seq![insert]));
    lemma_one_action(held, insert);
    let mid = amid_comment(t, user, id, s, parent);
    let held3 = Store { tables: mid, saved: Some(t) };
    assert(held.through(seq![insert]) == held3);
    let fresh = t.next_id as u64;
    assert(held.last_reply(seq![insert]) == ReplyView::InsertId(Some(fresh)));
    // The author's own vote, and the count.
    let task4 = TaskView::at(
        acting_as,
        Stage::CommentCounted { user, story: s.id, author: s.author },
    ).holding_score(Some(s.hotness));
    let fourth = own_vote_script(user, s.id, fresh);
    assert(advanced(task3, ReplyView::InsertId(Some(fresh)), now) == Turn::on(task4, fourth));
    lemma_own_vote_script(held3, user, s.id, fresh);
    let voted = Tables {
        ballots: mid.ballots.push(
            Ballot { user, story: s.id, comment: Some(t.next_id as u32), up: true },
        ),
        next_id: mid.next_id + 1,
        ..mid
    };
    let held4 = Store { tables: voted, saved: Some(t) };
    assert(fresh as nat as u32 == t.next_id as u32);
    assert(held3.through(fourth) == held4);
    let n = comments_in(mid.comments, s.id).len();
    mid.comments.lemma_filter_len(|c: Comment| c.story == s.id);
    let count = n as u64;
    assert(count as int == n);
    // The close of the transaction.
    let fifth = count_script(user, s.id, s.author, count, s.hotness);
    assert(advanced(task4, ReplyView::Count(count), now) == Turn::last(
        acting_as,
        fifth + closing(acting_as),
    ));
    lemma_before_closing(held4, fifth, acting_as);
    lemma_count_script(held4, user, s.id, s.author, count, s.hotness);
    assert(held4.through(fifth).tables =~= after_comment(t, user, id, s, parent));
    assert(performed(held4, TaskView::ended(acting_as), fifth + closing(acting_as), now) == (Outcome {
        store: held4.through(fifth + closing(acting_as)),
        failure: None,
    }));
    assert(performed(held3, task4, fourth, now) == performed(
        held4,
        TaskView::ended(acting_as),
        fifth + closing(acting_as),
        now,
    ));
    assert(performed(held, task3, seq![insert], now) == performed(held3, task4, fourth, now));
}

/// The parent that a new comment on the story `s` gets: the oldest comment of
/// the story with the short id that was named, if there is one.
pub open spec fn resolved_parent(t: Tables, s: Story, named: Option<ShortId>) -> Option<Parent> {
    match named {
        None => None,
        Some(wanted) => match comment_coded_in(t.comments, s.id, wanted) {
            Some(c) => Some(Parent { id: c.id, thread: thread_of(c) }),
            None => None,
        },
    }
}

/// How a comment on a story that is there goes on once the story row has
/// come back.
#[verifier::rlimit(50)]
pub proof fn lemma_comment_started(
    store: Store,
    sessions: Map<u32, Seq<char>>,
    user: u32,
    id: ShortId,
    story: ShortId,
    parent: Option<ShortId>,
    now: Timestamp,
)
    requires
        story_coded(store.tables.stories, story) is Some,
    ensures
        ({
            let s = story_coded(store.tables.stories, story)->Some_0;
            let turn = after_comment_story(
                Some(user),
                user,
                id,
                parent,
                ReplyView::First(Some(story_cells(s))),
            );
            &&& turn.script is Ok
            &&& served(
                store,
                sessions,
                Some(user),
                RequestView::Comment { id, story, parent },
                now,
            ) == performed(store, turn.task, turn.script->Ok_0, now)
        }),
{
    let s = story_coded(store.tables.stories, story)->Some_0;
    let acting_as = Some(user);
    let token = session_token(sessions, acting_as);
    let ask = run(Kind::StoryByShortId { id: story });
    let task = TaskView::at(acting_as, Stage::CommentStory { user, id, parent });
    assert(started(sessions, acting_as, RequestView::Comment { id, story, parent }) == Turn::on(
        task,
        opening(token) + seq![ask],
    ));
    lemma_first_turn(store, token, task, ask, now);
    assert(store.reply_to(ask) == ReplyView::First(Some(story_cells(s))));
    assert(fits(Shape::Story, story_cells(s)));
}

/// A comment that names no parent, from the story row on.
#[verifier::rlimit(50)]
pub proof fn lemma_comment_without_parent(
    store: Store,
    user: u32,
    id: ShortId,
    s: Story,
    now: Timestamp,
)
    requires
        store.tables.next_id + 1 <= u32::MAX,
        store.tables.comments.len() < u32::MAX,
    ensures
        performed(
            store,
            TaskView::at(
                Some(user),
                Stage::CommentBegun { user, id, story: s.id, author: s.author, parent: None },
            ).holding_score(Some(s.hotness)),
            seq![run(Kind::UserById { user: s.author })] + ready_script(id),
            now,
        ) == (Outcome {
            store: Store::settled(after_comment(store.tables, user, id, s, None)),
            failure: None,
        }),
{
    let author = run(Kind::UserById { user: s.author });
    let task = TaskView::at(
        Some(user),
        Stage::CommentBegun { user, id, story: s.id, author: s.author, parent: None },
    ).holding_score(Some(s.hotness));
    assert(task == task.noting(None));
    lemma_one_action(store, author);
    lemma_ready(store, seq![author]);
    lemma_comment_written(store, seq![author] + ready_script(id), user, id, s, None, None, now);
}

/// A comment that names a parent, from the story row on: the parent is
/// looked up among the comments of the story.
#[verifier::rlimit(50)]
pub proof fn lemma_comment_with_parent(
    store: Store,
    user: u32,
    id: ShortId,
    s: Story,
    wanted: ShortId,
    now: Timestamp,
)
    requires
        store.tables.next_id + 1 <= u32::MAX,
        store.tables.comments.len() < u32::MAX,
    ensures
        performed(
            store,
            TaskView::at(
                Some(user),
                Stage::CommentParent { user, id, story: s.id, author: s.author, wanted },
            ).holding_score(Some(s.hotness)),
            seq![
                run(Kind::UserById { user: s.author }),
                run(Kind::ParentComment { story: s.id, id: wanted }),
            ],
            now,
        ) == (Outcome {
            store: Store::settled(
                after_comment(
                    store.tables,
                    user,
                    id,
                    s,
                    resolved_parent(store.tables, s, Some(wanted)),
                ),
            ),
            failure: None,
        }),
{
    let t = store.tables;
    let acting_as = Some(user);
    let author = run(Kind::UserById { user: s.author });
    let look = run(Kind::ParentComment { story: s.id, id: wanted });
    let next = seq![author, look];
    let task1 = TaskView::at(
        acting_as,
        Stage::CommentParent { user, id, story: s.id, author: s.author, wanted },
    ).holding_score(Some(s.hotness));
    lemma_two_actions(store, author, look);
    let found = comment_coded_in(t.comments, s.id, wanted);
    let reply1 = store.last_reply(next);
    let resolved = resolved_parent(t, s, Some(wanted));
    let notice = parent_notice(first_in(reply1), wanted, s.id);
    match found {
        Some(c) => {
            let row = seq![cell(c.id), maybe_cell(thread_of(c))];
            assert(reply1 == ReplyView::First(Some(row)));
            assert(fits(Shape::Thread, row));
            assert(parent_in(first_in(reply1)) == resolved);
        },
        None => {
            assert(reply1 == ReplyView::First(None));
        },
    }
    let task2 = TaskView::at(
        acting_as,
        Stage::CommentBegun { user, id, story: s.id, author: s.author, parent: resolved },
    ).holding_score(Some(s.hotness)).noting(notice);
    assert(advanced(task1, reply1, now) == Turn::on(task2, ready_script(id)));
    lemma_ready(store, Seq::empty());
    assert(Seq::<ActionView>::empty() + ready_script(id) =~= ready_script(id));
    lemma_comment_written(store, ready_script(id), user, id, s, resolved, notice, now);
}

/// A comment on a story that is there, whatever parent is named: the comment
/// is inserted under the parent if the story has it and without one if not,
/// and the story's comment count becomes the number of its comments.
pub proof fn lemma_comment_served(
    store: Store,
    sessions: Map<u32, Seq<char>>,
    user: u32,
    id: ShortId,
    story: ShortId,
    parent: Option<ShortId>,
    now: Timestamp,
)
    requires
        story_coded(store.tables.stories, story) is Some,
        store.tables.next_id + 1 <= u32::MAX,
        store.tables.comments.len() < u32::MAX,
    ensures
        ({
            let s = story_coded(store.tables.stories, story)->Some_0;
            served(
                store,
                sessions,
                Some(user),
                RequestView::Comment { id, story, parent },
                now,
            ) == (Outcome {
                store: Store::settled(
                    after_comment(
                        store.tables,
                        user,
                        id,
                        s,
                        resolved_parent(store.tables, s, parent),
                    ),
                ),
                failure: None,
            })
        }),
{
    let s = story_coded(store.tables.stories, story)->Some_0;
    lemma_comment_started(store, sessions, user, id, story, parent, now);
    assert(fits(Shape::Story, story_cells(s)));
    match parent {
        None => {
            lemma_comment_without_parent(store, user, id, s, now);
        },
        Some(wanted) => {
            lemma_comment_with_parent(store, user, id, s, wanted, now);
        },
    }
}

/// What leads into the transaction of a comment reads, and then opens it.
proof fn lemma_ready(store: Store, before: Seq<ActionView>)
    requires
        store.through(before) == store,
    ensures
        forall|id: ShortId|
            store.through(before + #[trigger] ready_script(id)) == (Store {
                tables: store.tables,
                saved: Some(store.tables),
            }) && store.last_reply(before + ready_script(id)) == ReplyView::Done,
{
    assert forall|id: ShortId|
        store.through(before + #[trigger] ready_script(id)) == (Store {
            tables: store.tables,
            saved: Some(store.tables),
        }) && store.last_reply(before + ready_script(id)) == ReplyView::Done by {
        let ready = ready_script(id);
        lemma_carried_in_parts(store, before, ready, 2);
        lemma_carried_in_parts(store, before, ready, 1);
        reveal_with_fuel(Store::carried, 3);
        assert((before + ready).last() == ready[1]);
    }
}

/// One more row that is kept makes the kept rows one more.
pub proof fn lemma_comments_in_after_push(comments: Seq<Comment>, c: Comment, story: u32)
    ensures
        comments_in(comments.push(c), story).len() == comments_in(comments, story).len() + if c.story
            == story {
            1int
        } else {
            0int
        },
{
    reveal(Seq::filter);
    assert(comments.push(c).drop_last() =~= comments);
}

/// The store after each of `posts`, an author, a short id and, where the
/// comment answers one, the short id of a parent, was served in turn as a
/// comment on the story with the short id `story`.
pub open spec fn after_posts(
    store: Store,
    sessions: Map<u32, Seq<char>>,
    posts: Seq<(u32, ShortId, Option<ShortId>)>,
    story: ShortId,
    now: Timestamp,
) -> Store
    decreases posts.len(),
{
    if posts.len() == 0 {
        store
    } else {
        served(
            after_posts(store, sessions, posts.drop_last(), story, now),
            sessions,
            Some(posts.last().0),
            RequestView::Comment { id: posts.last().1, story, parent: posts.last().2 },
            now,
        ).store
    }
}

/// The comment count is the number of comments: after any comments on one
/// story, served one after another, at whatever depth each of them is
/// posted, the story has as many more comments as were posted, and its
/// comment count says how many it has. A count that was wrong before is
/// right after the first of them.
#[verifier::rlimit(50)]
pub proof fn law_comment_count_is_the_number_of_comments(
    store: Store,
    sessions: Map<u32, Seq<char>>,
    posts: Seq<(u32, ShortId, Option<ShortId>)>,
    story: ShortId,
    now: Timestamp,
)
    requires
        story_coded(store.tables.stories, story) is Some,
        store.tables.next_id + 2 * posts.len() <= u32::MAX,
        store.tables.comments.len() + posts.len() <= u32::MAX,
    ensures
        ({
            let before = story_coded(store.tables.stories, story)->Some_0;
            let had = comments_in(store.tables.comments, before.id).len();
            let after = after_posts(store, sessions, posts, story, now).tables;
            &&& comments_in(after.comments, before.id).len() == had + posts.len()
            &&& posts.len() > 0 ==> story_coded(after.stories, story) == Some(
                Story { comments_count: (had + posts.len()) as int, ..before },
            )
            &&& posts.len() == 0 ==> story_coded(after.stories, story) == Some(before)
            &&& after.next_id == store.tables.next_id + 2 * posts.len()
            &&& after.comments.len() == store.tables.comments.len() + posts.len()
        }),
    decreases posts.len(),
{
    if posts.len() > 0 {
        let earlier = posts.drop_last();
        let (user, id, parent) = posts.last();
        law_comment_count_is_the_number_of_comments(store, sessions, earlier, story, now);
        let mid = after_posts(store, sessions, earlier, story, now);
        let t = mid.tables;
        let s = story_coded(t.stories, story)->Some_0;
        lemma_comment_served(mid, sessions, user, id, story, parent, now);
        let resolved = resolved_parent(t, s, parent);
        let c = new_comment(t, user, id, s, resolved);
        lemma_comments_in_after_push(t.comments, c, s.id);
        let n = comments_in(t.comments.push(c), s.id).len() as int;
        let counted = with_count(t.stories, s.id, n);
        lemma_found_after_change(
            t.stories,
            |r: Story| r.id == s.id,
            |r: Story| Story { comments_count: n, ..r },
            |r: Story| r.code == story,
        );
        lemma_found_after_change(
            counted,
            |r: Story| r.id == s.id,
            |r: Story| Story { hotness: s.hotness, ..r },
            |r: Story| r.code == story,
        );
    }
}

} // verus!
