//! What holds of submitted stories.

use crate::clock::Timestamp;
use crate::closing::{closing, opening, session_token};
use crate::drive::{advanced, started};
use crate::model::{
    Ballot, Outcome, Store, Story, Tables, Tagging, bumped, cell, performed, served,
    settled_hotness, story_coded, submitted, with_hotness,
};
use crate::query::{Counter, Kind};
use crate::store_lemmas::{
    lemma_before_closing, lemma_first_turn, lemma_found_after_change, lemma_found_after_push,
    lemma_one_action, lemma_two_actions,
};
use crate::reply::{ReplyView, fits};
use crate::request::{RequestView, ShortId};
use crate::statement::Shape;
use crate::submit::submission_script;
use crate::task::{ActionView, Stage, TaskView, Turn, run, run_worded};
use vstd::prelude::*;

verus! {

/// The tables after `user` has submitted a story titled `title` while the
/// seed tag is `tag`.
pub open spec fn after_submit(t: Tables, user: u32, id: ShortId, title: Seq<char>, tag: u32) -> Tables {
    let story = t.next_id as u32;
    Tables {
        stories: with_hotness(
            t.stories.push(submitted(story, id, user, title)),
            story,
            settled_hotness(),
        ),
        taggings: t.taggings.push(Tagging { story, tag }),
        counters: bumped(t.counters, (user, Counter::StoriesSubmitted)),
        ballots: t.ballots.push(Ballot { user, story, comment: None, up: true }),
        next_id: t.next_id + 3,
        ..t
    }
}

/// What the statements after the story row do to the store, taken together.
#[verifier::rlimit(50)]
pub proof fn lemma_submission_script(store: Store, user: u32, story: u64, tag: u32)
    ensures
        ({
            let t = store.tables;
            store.through(submission_script(user, story, tag)) == Store::settled(
                Tables {
                    stories: with_hotness(t.stories, story as u32, settled_hotness()),
                    taggings: t.taggings.push(Tagging { story: story as u32, tag }),
                    counters: bumped(t.counters, (user, Counter::StoriesSubmitted)),
                    ballots: t.ballots.push(
                        Ballot { user, story: story as nat as u32, comment: None, up: true },
                    ),
                    next_id: t.next_id + 2,
                    ..t
                },
            )
        }),
{
    reveal_with_fuel(Store::carried, 9);
}

/// A submission from the opening of its transaction on.
#[verifier::rlimit(50)]
pub proof fn lemma_submit_written(
    store: Store,
    user: u32,
    id: ShortId,
    title: Seq<char>,
    tag: u32,
    now: Timestamp,
)
    requires
        store.tables.next_id + 1 <= u32::MAX,
    ensures
        performed(
            store,
            TaskView::at(Some(user), Stage::SubmitBegun { user, id, tag }).holding_word(title),
            seq![run(Kind::StoryShortIdTaken { id }), ActionView::Begin],
            now,
        ) == (Outcome {
            store: Store::settled(after_submit(store.tables, user, id, title, tag)),
            failure: None,
        }),
{
    let t = store.tables;
    let acting_as = Some(user);
    let task = TaskView::at(acting_as, Stage::SubmitBegun { user, id, tag }).holding_word(title);
    let check = run(Kind::StoryShortIdTaken { id });
    lemma_two_actions(store, check, ActionView::Begin);
    let held = Store { tables: t, saved: Some(t) };
    let insert = run_worded(Kind::InsertStory { user, id, at: now }, title);
    let task2 = TaskView::at(acting_as, Stage::StoryInserted { user, tag });
    assert(advanced(task, ReplyView::Done, now) == Turn::on(task2, seq![insert]));
    lemma_one_action(held, insert);
    let fresh = t.next_id as u64;
    let mid = Tables {
        stories: t.stories.push(submitted(t.next_id as u32, id, user, title)),
        next_id: t.next_id + 1,
        ..t
    };
    let held2 = Store { tables: mid, saved: Some(t) };
    assert(held.through(seq![insert]) == held2);
    assert(held.last_reply(seq![insert]) == ReplyView::InsertId(Some(fresh)));
    let rest = submission_script(user, fresh, tag);
    assert(advanced(task2, ReplyView::InsertId(Some(fresh)), now) == Turn::last(
        acting_as,
        rest + closing(acting_as),
    ));
    lemma_before_closing(held2, rest, acting_as);
    lemma_submission_script(held2, user, fresh, tag);
    assert(fresh as u32 == t.next_id as u32);
    assert(fresh as nat as u32 == t.next_id as u32);
    assert(held2.through(rest).tables =~= after_submit(t, user, id, title, tag));
    assert(performed(held2, TaskView::ended(acting_as), rest + closing(acting_as), now) == (Outcome {
        store: held2.through(rest + closing(acting_as)),
        failure: None,
    }));
    assert(performed(held, task2, seq![insert], now) == performed(
        held2,
        TaskView::ended(acting_as),
        rest + closing(acting_as),
        now,
    ));
}

/// A submission while the seed tag is active: the story is inserted with its
/// tag, the submitter's counter moves, the submitter's own upvote is
/// recorded, the story settles at its hotness, and nothing else changes.
#[verifier::rlimit(50)]
pub proof fn lemma_submit_served(
    store: Store,
    sessions: Map<u32, Seq<char>>,
    user: u32,
    id: ShortId,
    title: Seq<char>,
    now: Timestamp,
)
    requires
        store.tables.seed_tag is Some,
        store.tables.next_id + 1 <= u32::MAX,
    ensures
        served(store, sessions, Some(user), RequestView::Submit { id, title }, now) == (Outcome {
            store: Store::settled(
                after_submit(store.tables, user, id, title, store.tables.seed_tag->Some_0),
            ),
            failure: None,
        }),
{
    let tag = store.tables.seed_tag->Some_0;
    let acting_as = Some(user);
    let token = session_token(sessions, acting_as);
    let ask = run(Kind::SeedTag);
    let task = TaskView::at(acting_as, Stage::SeedTag { user, id }).holding_word(title);
    assert(started(sessions, acting_as, RequestView::Submit { id, title }) == Turn::on(
        task,
        opening(token) + seq![ask],
    ));
    lemma_first_turn(store, token, task, ask, now);
    assert(store.reply_to(ask) == ReplyView::First(Some(seq![cell(tag)])));
    assert(fits(Shape::Id, seq![cell(tag)]));
    lemma_submit_written(store, user, id, title, tag, now);
}

/// A submitted story is found again: after a submission under a short id that
/// no story had, the story found under that short id has the title it was
/// submitted with, the submitter as its author, and one upvote, which is the
/// submitter's own, recorded last of all votes.
pub proof fn law_a_submitted_story_is_found_as_submitted(
    store: Store,
    sessions: Map<u32, Seq<char>>,
    user: u32,
    id: ShortId,
    title: Seq<char>,
    now: Timestamp,
)
    requires
        store.tables.seed_tag is Some,
        store.tables.next_id + 1 <= u32::MAX,
        story_coded(store.tables.stories, id) is None,
    ensures
        ({
            let outcome = served(
                store,
                sessions,
                Some(user),
                RequestView::Submit { id, title },
                now,
            );
            let found = story_coded(outcome.store.tables.stories, id);
            &&& outcome.failure is None
            &&& found is Some
            &&& found->Some_0.title == title
            &&& found->Some_0.author == user
            &&& found->Some_0.upvotes == 1
            &&& found->Some_0.downvotes == 0
            &&& outcome.store.tables.ballots.last() == (Ballot {
                user,
                story: found->Some_0.id,
                comment: None,
                up: true,
            })
        }),
{
    let t = store.tables;
    let story = t.next_id as u32;
    let row = submitted(story, id, user, title);
    lemma_submit_served(store, sessions, user, id, title, now);
    lemma_found_after_push(t.stories, row, |s: Story| s.code == id);
    lemma_found_after_change(
        t.stories.push(row),
        |s: Story| s.id == story,
        |s: Story| Story { hotness: settled_hotness(), ..s },
        |s: Story| s.code == id,
    );
}

} // verus!
