//! What holds of votes: what one vote does to the store, and what many add
//! up to.

use crate::clock::Timestamp;
use crate::closing::{closing, opening, session_token};
use crate::drive::{advanced, started};
use crate::model::{
    Ballot, Comment, Member, Outcome, Store, Story, Tables, answer, cell, comment_cells,
    comment_coded, member_numbered, performed, served, story_cells, story_coded, story_numbered,
    tallied, with_comment_tally, with_karma, with_tally,
};
use crate::query::{Kind, QueryView};
use crate::store_lemmas::{lemma_before_closing, lemma_first_turn, lemma_found, lemma_found_after_change};
use crate::render::counted;
use crate::reply::{CellView, ReplyView, fits};
use crate::request::{RequestView, ShortId, Vote};
use crate::score::Level;
use crate::statement::Shape;
use crate::task::{Failure, Stage, TaskView, Turn, run};
use crate::vote::{comment_vote_script, story_of_comment_script, story_vote_script};
use vstd::prelude::*;

verus! {

/// The tables after a vote of `user` on the story `s`.
pub open spec fn after_story_vote(t: Tables, user: u32, s: Story, vote: Vote) -> Tables {
    Tables {
        ballots: t.ballots.push(Ballot { user, story: s.id, comment: None, up: vote == Vote::Up }),
        members: with_karma(t.members, s.author, vote.worth()),
        stories: with_tally(t.stories, s.id, vote, s.hotness),
        next_id: t.next_id + 1,
        ..t
    }
}

/// What the statements of a vote on a story do to the store, taken together.
#[verifier::rlimit(50)]
pub proof fn lemma_story_vote_script(store: Store, user: u32, s: Story, vote: Vote)
    ensures
        store.through(story_vote_script(user, s.author, s.id, s.hotness, vote)) == Store::settled(
            after_story_vote(store.tables, user, s, vote),
        ),
{
    reveal_with_fuel(Store::carried, 10);
}

/// A vote on a story that is there: the vote is recorded, the karma of the
/// story's author moves by what the vote is worth, the story's counts and
/// hotness move with it, and nothing else changes.
#[verifier::rlimit(50)]
pub proof fn lemma_story_vote_served(
    store: Store,
    sessions: Map<u32, Seq<char>>,
    user: u32,
    id: ShortId,
    vote: Vote,
    now: Timestamp,
)
    requires
        story_coded(store.tables.stories, id) is Some,
    ensures
        served(store, sessions, Some(user), RequestView::StoryVote(id, vote), now) == (Outcome {
            store: Store::settled(
                after_story_vote(
                    store.tables,
                    user,
                    story_coded(store.tables.stories, id)->Some_0,
                    vote,
                ),
            ),
            failure: None,
        }),
{
    let s = story_coded(store.tables.stories, id)->Some_0;
    let acting_as = Some(user);
    let token = session_token(sessions, acting_as);
    let ask = run(Kind::StoryByShortId { id });
    let task = TaskView::at(acting_as, Stage::VoteStory { user, vote });
    assert(started(sessions, acting_as, RequestView::StoryVote(id, vote)) == Turn::on(
        task,
        opening(token) + seq![ask],
    ));
    lemma_first_turn(store, token, task, ask, now);
    let reply = store.reply_to(ask);
    assert(reply == ReplyView::First(Some(story_cells(s))));
    assert(fits(Shape::Story, story_cells(s)));
    let votes = story_vote_script(user, s.author, s.id, s.hotness, vote);
    assert(advanced(task, reply, now) == Turn::last(acting_as, votes + closing(acting_as)));
    lemma_before_closing(store, votes, acting_as);
    lemma_story_vote_script(store, user, s, vote);
    assert(performed(store, TaskView::ended(acting_as), votes + closing(acting_as), now) == (Outcome {
        store: store.through(votes + closing(acting_as)),
        failure: None,
    }));
}

/// The karma of the user with the id `user`; zero for a user who is not there.
pub open spec fn karma_of(members: Seq<Member>, user: u32) -> int {
    match member_numbered(members, user) {
        Some(m) => m.karma,
        None => 0,
    }
}

/// Moving the karma of one user moves that user's karma, and no other.
pub proof fn lemma_karma_moved(members: Seq<Member>, author: u32, by: int, user: u32)
    ensures
        karma_of(with_karma(members, author, by), user) == karma_of(members, user) + if user
            == author && member_numbered(members, user) is Some {
            by
        } else {
            0
        },
{
    let meant = |m: Member| m.id == author;
    let change = |m: Member| Member { karma: m.karma + by, ..m };
    let wanted = |m: Member| m.id == user;
    lemma_found_after_change(members, meant, change, wanted);
    lemma_found(members, wanted);
}

/// Karma moves with votes on stories: an upvote on a story adds exactly one
/// to the karma of its author, a downvote takes exactly one away, and the
/// karma of every other user stays as it is.
pub proof fn law_story_vote_moves_the_authors_karma_by_one(
    store: Store,
    sessions: Map<u32, Seq<char>>,
    voter: u32,
    id: ShortId,
    vote: Vote,
    now: Timestamp,
    user: u32,
)
    requires
        story_coded(store.tables.stories, id) is Some,
    ensures
        ({
            let story = story_coded(store.tables.stories, id)->Some_0;
            let outcome = served(store, sessions, Some(voter), RequestView::StoryVote(id, vote), now);
            let before = karma_of(store.tables.members, user);
            let after = karma_of(outcome.store.tables.members, user);
            &&& outcome.failure is None
            &&& user == story.author && member_numbered(store.tables.members, user) is Some
                ==> after == before + vote.worth()
            &&& user != story.author ==> after == before
        }),
{
    let story = story_coded(store.tables.stories, id)->Some_0;
    lemma_story_vote_served(store, sessions, voter, id, vote, now);
    lemma_karma_moved(store.tables.members, story.author, vote.worth(), user);
}

/// The tables after a vote of `user` on the comment `c` of the story `s`.
pub open spec fn after_comment_vote(t: Tables, user: u32, c: Comment, s: Story, vote: Vote) -> Tables {
    Tables {
        ballots: t.ballots.push(
            Ballot { user, story: c.story, comment: Some(c.id), up: vote == Vote::Up },
        ),
        members: with_karma(t.members, c.author, vote.worth()),
        comments: with_comment_tally(
            t.comments,
            c.id,
            vote,
            c.upvotes as u32,
            c.downvotes as u32,
        ),
        stories: with_tally(t.stories, c.story, vote, s.hotness),
        next_id: t.next_id + 1,
        ..t
    }
}

/// The tables in the middle of a vote on the comment `c`: the comment's side
/// is written, its story's side is not yet.
pub open spec fn amid_comment_vote(t: Tables, user: u32, c: Comment, vote: Vote) -> Tables {
    Tables {
        ballots: t.ballots.push(
            Ballot { user, story: c.story, comment: Some(c.id), up: vote == Vote::Up },
        ),
        members: with_karma(t.members, c.author, vote.worth()),
        comments: with_comment_tally(
            t.comments,
            c.id,
            vote,
            c.upvotes as u32,
            c.downvotes as u32,
        ),
        next_id: t.next_id + 1,
        ..t
    }
}

/// What the first statements of a vote on a comment do to the store, taken
/// together, and what comes back from the last of them.
#[verifier::rlimit(50)]
pub proof fn lemma_comment_vote_script(store: Store, user: u32, c: Comment, vote: Vote)
    ensures
        ({
            let script = comment_vote_script(
                user,
                c.author,
                c.id,
                c.story,
                c.upvotes as u32,
                c.downvotes as u32,
                vote,
            );
            &&& store.through(script) == Store {
                tables: amid_comment_vote(store.tables, user, c, vote),
                saved: Some(store.tables),
            }
            &&& store.last_reply(script) == answer(
                amid_comment_vote(store.tables, user, c, vote),
                QueryView::plain(Kind::StoryById { story: c.story }),
            )
        }),
{
    reveal_with_fuel(Store::carried, 7);
}

/// What the last statements of a vote on a comment do to the store, taken
/// together.
#[verifier::rlimit(50)]
pub proof fn lemma_story_of_comment_script(
    store: Store,
    story: u32,
    author: u32,
    hotness: Level,
    vote: Vote,
)
    ensures
        store.through(story_of_comment_script(story, author, hotness, vote)) == Store::settled(
            Tables {
                stories: with_tally(store.tables.stories, story, vote, hotness),
                ..store.tables
            },
        ),
{
    reveal_with_fuel(Store::carried, 6);
}

/// How a vote on a comment that is there goes on once the comment's side is
/// written.
#[verifier::rlimit(50)]
pub proof fn lemma_comment_vote_begun(
    store: Store,
    sessions: Map<u32, Seq<char>>,
    user: u32,
    id: ShortId,
    vote: Vote,
    now: Timestamp,
)
    requires
        comment_coded(store.tables.comments, id) is Some,
    ensures
        ({
            let c = comment_coded(store.tables.comments, id)->Some_0;
            served(store, sessions, Some(user), RequestView::CommentVote(id, vote), now)
                == performed(
                store,
                TaskView::at(Some(user), Stage::VoteCommentStory { story: c.story, vote }),
                comment_vote_script(
                    user,
                    c.author,
                    c.id,
                    c.story,
                    c.upvotes as u32,
                    c.downvotes as u32,
                    vote,
                ),
                now,
            )
        }),
{
    let c = comment_coded(store.tables.comments, id)->Some_0;
    let acting_as = Some(user);
    let token = session_token(sessions, acting_as);
    let ask = run(Kind::CommentByShortId { id });
    let task = TaskView::at(acting_as, Stage::VoteComment { user, vote });
    assert(started(sessions, acting_as, RequestView::CommentVote(id, vote)) == Turn::on(
        task,
        opening(token) + seq![ask],
    ));
    lemma_first_turn(store, token, task, ask, now);
    let reply = store.reply_to(ask);
    assert(reply == ReplyView::First(Some(comment_cells(c))));
    assert(fits(Shape::CommentTally, comment_cells(c)));
}

/// The turn that a vote on a comment takes when the row of its story has come
/// back.
#[verifier::rlimit(50)]
pub proof fn lemma_comment_vote_last_turn(
    user: u32,
    story: u32,
    vote: Vote,
    s: Story,
    now: Timestamp,
)
    ensures
        advanced(
            TaskView::at(Some(user), Stage::VoteCommentStory { story, vote }),
            ReplyView::First(Some(seq![cell(s.author), CellView::Score(s.hotness)])),
            now,
        ) == Turn::last(
            Some(user),
            story_of_comment_script(story, s.author, s.hotness, vote) + closing(Some(user)),
        ),
{
    let row = seq![cell(s.author), CellView::Score(s.hotness)];
    assert(fits(Shape::StoryScore, row));
}

/// A vote on a comment from the comment's side on, where its story is there.
#[verifier::rlimit(50)]
pub proof fn lemma_comment_vote_ended(
    store: Store,
    user: u32,
    c: Comment,
    s: Story,
    vote: Vote,
    now: Timestamp,
)
    requires
        story_numbered(store.tables.stories, c.story) == Some(s),
    ensures
        performed(
            store,
            TaskView::at(Some(user), Stage::VoteCommentStory { story: c.story, vote }),
            comment_vote_script(
                user,
                c.author,
                c.id,
                c.story,
                c.upvotes as u32,
                c.downvotes as u32,
                vote,
            ),
            now,
        ) == (Outcome {
            store: Store::settled(after_comment_vote(store.tables, user, c, s, vote)),
            failure: None,
        }),
{
    let t = store.tables;
    let acting_as = Some(user);
    lemma_comment_vote_script(store, user, c, vote);
    lemma_comment_vote_last_turn(user, c.story, vote, s, now);
    let held = Store { tables: amid_comment_vote(t, user, c, vote), saved: Some(t) };
    let third = story_of_comment_script(c.story, s.author, s.hotness, vote);
    lemma_before_closing(held, third, acting_as);
    lemma_story_of_comment_script(held, c.story, s.author, s.hotness, vote);
    assert(performed(held, TaskView::ended(acting_as), third + closing(acting_as), now) == (Outcome {
        store: held.through(third + closing(acting_as)),
        failure: None,
    }));
}

/// A vote on a comment that is there, on a story that is there: the vote is
/// recorded, the karma of the comment's author moves by what the vote is
/// worth, the counts of the comment and the counts and hotness of its story
/// move with it, and nothing else changes.
pub proof fn lemma_comment_vote_served(
    store: Store,
    sessions: Map<u32, Seq<char>>,
    user: u32,
    id: ShortId,
    vote: Vote,
    now: Timestamp,
)
    requires
        comment_coded(store.tables.comments, id) is Some,
        story_numbered(
            store.tables.stories,
            comment_coded(store.tables.comments, id)->Some_0.story,
        ) is Some,
    ensures
        served(store, sessions, Some(user), RequestView::CommentVote(id, vote), now) == (Outcome {
            store: Store::settled(
                after_comment_vote(
                    store.tables,
                    user,
                    comment_coded(store.tables.comments, id)->Some_0,
                    story_numbered(
                        store.tables.stories,
                        comment_coded(store.tables.comments, id)->Some_0.story,
                    )->Some_0,
                    vote,
                ),
            ),
            failure: None,
        }),
{
    let c = comment_coded(store.tables.comments, id)->Some_0;
    let s = story_numbered(store.tables.stories, c.story)->Some_0;
    lemma_comment_vote_begun(store, sessions, user, id, vote, now);
    lemma_comment_vote_ended(store, user, c, s, vote, now);
}

/// A vote on a comment whose story is not there is not recorded at all: the
/// task fails inside its transaction, and what the transaction wrote is gone
/// with it.
#[verifier::rlimit(50)]
pub proof fn law_comment_vote_is_all_or_nothing(
    store: Store,
    sessions: Map<u32, Seq<char>>,
    user: u32,
    id: ShortId,
    vote: Vote,
    now: Timestamp,
)
    requires
        comment_coded(store.tables.comments, id) is Some,
        story_numbered(
            store.tables.stories,
            comment_coded(store.tables.comments, id)->Some_0.story,
        ) is None,
    ensures
        served(store, sessions, Some(user), RequestView::CommentVote(id, vote), now) == (Outcome {
            store: Store::settled(store.tables),
            failure: Some(Failure::MissingRow),
        }),
{
    let t = store.tables;
    let c = comment_coded(t.comments, id)->Some_0;
    let acting_as = Some(user);
    lemma_comment_vote_begun(store, sessions, user, id, vote, now);
    lemma_comment_vote_script(store, user, c, vote);
    let second = comment_vote_script(
        user,
        c.author,
        c.id,
        c.story,
        c.upvotes as u32,
        c.downvotes as u32,
        vote,
    );
    let task = TaskView::at(acting_as, Stage::VoteCommentStory { story: c.story, vote });
    let reply = store.last_reply(second);
    assert(reply == ReplyView::First(None));
    assert(advanced(task, reply, now) == Turn::failed(acting_as, Failure::MissingRow));
}

/// Karma moves with votes on comments as it does with votes on stories: by
/// exactly one, for the comment's author, and for no other user.
pub proof fn law_comment_vote_moves_the_authors_karma_by_one(
    store: Store,
    sessions: Map<u32, Seq<char>>,
    voter: u32,
    id: ShortId,
    vote: Vote,
    now: Timestamp,
    user: u32,
)
    requires
        comment_coded(store.tables.comments, id) is Some,
        story_numbered(
            store.tables.stories,
            comment_coded(store.tables.comments, id)->Some_0.story,
        ) is Some,
    ensures
        ({
            let comment = comment_coded(store.tables.comments, id)->Some_0;
            let outcome = served(
                store,
                sessions,
                Some(voter),
                RequestView::CommentVote(id, vote),
                now,
            );
            let before = karma_of(store.tables.members, user);
            let after = karma_of(outcome.store.tables.members, user);
            &&& outcome.failure is None
            &&& user == comment.author && member_numbered(store.tables.members, user) is Some
                ==> after == before + vote.worth()
            &&& user != comment.author ==> after == before
        }),
{
    let comment = comment_coded(store.tables.comments, id)->Some_0;
    lemma_comment_vote_served(store, sessions, voter, id, vote, now);
    lemma_karma_moved(store.tables.members, comment.author, vote.worth(), user);
}

/// How many of the votes are upvotes.
pub open spec fn ups_among(votes: Seq<(u32, Vote)>) -> int
    decreases votes.len(),
{
    if votes.len() == 0 {
        0
    } else {
        ups_among(votes.drop_last()) + votes.last().1.ups()
    }
}

/// How many of the votes are downvotes.
pub open spec fn downs_among(votes: Seq<(u32, Vote)>) -> int
    decreases votes.len(),
{
    if votes.len() == 0 {
        0
    } else {
        downs_among(votes.drop_last()) + votes.last().1.downs()
    }
}

/// The store after each of `votes`, a voter and a direction, was served in
/// turn as a vote on the story with the short id `id`.
pub open spec fn after_story_votes(
    store: Store,
    sessions: Map<u32, Seq<char>>,
    votes: Seq<(u32, Vote)>,
    id: ShortId,
    now: Timestamp,
) -> Store
    decreases votes.len(),
{
    if votes.len() == 0 {
        store
    } else {
        served(
            after_story_votes(store, sessions, votes.drop_last(), id, now),
            sessions,
            Some(votes.last().0),
            RequestView::StoryVote(id, votes.last().1),
            now,
        ).store
    }
}

/// Votes add up: after any votes on one story, served one after another, the
/// story has as many more upvotes as there were upvotes, as many more
/// downvotes as there were downvotes, and its hotness has moved by the
/// difference of the two. Whether the voters differ does not matter.
#[verifier::rlimit(50)]
pub proof fn law_story_votes_add_up(
    store: Store,
    sessions: Map<u32, Seq<char>>,
    votes: Seq<(u32, Vote)>,
    id: ShortId,
    now: Timestamp,
)
    requires
        story_coded(store.tables.stories, id) is Some,
    ensures
        ({
            let before = story_coded(store.tables.stories, id)->Some_0;
            let after = story_coded(
                after_story_votes(store, sessions, votes, id, now).tables.stories,
                id,
            );
            &&& ups_among(votes) + downs_among(votes) == votes.len()
            &&& after == Some(
                Story {
                    upvotes: before.upvotes + ups_among(votes),
                    downvotes: before.downvotes + downs_among(votes),
                    hotness: before.hotness.moved(ups_among(votes) - downs_among(votes)),
                    ..before
                },
            )
        }),
    decreases votes.len(),
{
    if votes.len() > 0 {
        let earlier = votes.drop_last();
        let (user, vote) = votes.last();
        law_story_votes_add_up(store, sessions, earlier, id, now);
        let mid = after_story_votes(store, sessions, earlier, id, now);
        let s = story_coded(mid.tables.stories, id)->Some_0;
        lemma_story_vote_served(mid, sessions, user, id, vote, now);
        lemma_found_after_change(
            mid.tables.stories,
            |r: Story| r.id == s.id,
            |r: Story| tallied(r, vote, s.hotness),
            |r: Story| r.code == id,
        );
        lemma_found(mid.tables.stories, |r: Story| r.code == id);
    }
}

/// Confidence follows the votes: after a vote on a comment whose counts the
/// store can hold, the comment's confidence is worked out from exactly the
/// upvotes and the votes that the comment then has.
#[verifier::rlimit(50)]
pub proof fn law_confidence_is_the_share_of_upvotes(
    store: Store,
    sessions: Map<u32, Seq<char>>,
    voter: u32,
    id: ShortId,
    vote: Vote,
    now: Timestamp,
)
    requires
        comment_coded(store.tables.comments, id) is Some,
        story_numbered(
            store.tables.stories,
            comment_coded(store.tables.comments, id)->Some_0.story,
        ) is Some,
        0 <= comment_coded(store.tables.comments, id)->Some_0.upvotes <= u32::MAX,
        0 <= comment_coded(store.tables.comments, id)->Some_0.downvotes <= u32::MAX,
    ensures
        ({
            let before = comment_coded(store.tables.comments, id)->Some_0;
            let outcome = served(
                store,
                sessions,
                Some(voter),
                RequestView::CommentVote(id, vote),
                now,
            );
            let after = comment_coded(outcome.store.tables.comments, id);
            &&& after is Some
            &&& after->Some_0.upvotes == before.upvotes + vote.ups()
            &&& after->Some_0.downvotes == before.downvotes + vote.downs()
            &&& after->Some_0.share == Some(
                (
                    after->Some_0.upvotes as u64,
                    (after->Some_0.upvotes + after->Some_0.downvotes) as u64,
                ),
            )
        }),
{
    let c = comment_coded(store.tables.comments, id)->Some_0;
    lemma_comment_vote_served(store, sessions, voter, id, vote, now);
    lemma_found_after_change(
        store.tables.comments,
        |r: Comment| r.id == c.id,
        |r: Comment|
            Comment {
                upvotes: r.upvotes + vote.ups(),
                downvotes: r.downvotes + vote.downs(),
                share: Some(
                    (
                        counted(c.upvotes as u32, vote.ups()),
                        (counted(c.upvotes as u32, vote.ups()) + counted(
                            c.downvotes as u32,
                            vote.downs(),
                        )) as u64,
                    ),
                ),
                ..r
            },
        |r: Comment| r.code == id,
    );
    lemma_found(store.tables.comments, |r: Comment| r.code == id);
}

} // verus!
