//! What holds of requests that fail.

use crate::clock::Timestamp;
use crate::closing::{closing, opening, session_token};
use crate::comment_laws::lemma_comment_served;
use crate::drive::{advanced, started};
use crate::model::{
    Member, Outcome, Store, Tables, comment_coded, member_named, performed, served, story_coded,
    story_numbered,
};
use crate::page_laws::{is_page, law_pages_change_nothing, lemma_story_viewed};
use crate::query::Kind;
use crate::reply::{CellView, ReplyView, fits};
use crate::request::{RequestView, ShortId, Vote};
use crate::statement::Shape;
use crate::store_lemmas::{
    lemma_before_closing, lemma_first_turn, lemma_one_action, lemma_opening_and_closing_only_read,
};
use crate::submit_laws::lemma_submit_served;
use crate::task::{Failure, Stage, TaskView, Turn, run};
use crate::vote_laws::{
    law_comment_vote_is_all_or_nothing, lemma_comment_vote_served, lemma_story_vote_served,
};
use vstd::prelude::*;

verus! {

/// The short id of the story that the request begins with: the story to show,
/// to vote on or to comment on.
pub open spec fn story_asked_for(request: RequestView) -> Option<ShortId> {
    match request {
        RequestView::Story(id) => Some(id),
        RequestView::StoryVote(id, _) => Some(id),
        RequestView::Comment { story, .. } => Some(story),
        _ => None,
    }
}

/// The task of a request that begins with a story, as it waits for the row.
pub open spec fn waiting_for_story(user: u32, request: RequestView) -> TaskView {
    match request {
        RequestView::StoryVote(_, vote) => TaskView::at(
            Some(user),
            Stage::VoteStory { user, vote },
        ),
        RequestView::Comment { id, parent, .. } => TaskView::at(
            Some(user),
            Stage::CommentStory { user, id, parent },
        ),
        _ => TaskView::at(Some(user), Stage::StoryPage),
    }
}

/// A request for a story that is not there fails and changes nothing: a
/// story page, a vote on a story and a comment on a story end with a missing
/// row, and leave the store as it was.
#[verifier::rlimit(50)]
pub proof fn law_a_missing_story_fails_the_request(
    store: Store,
    sessions: Map<u32, Seq<char>>,
    user: u32,
    request: RequestView,
    now: Timestamp,
)
    requires
        store.saved is None,
        story_asked_for(request) is Some,
        story_coded(store.tables.stories, story_asked_for(request)->Some_0) is None,
    ensures
        served(store, sessions, Some(user), request, now) == (Outcome {
            store,
            failure: Some(Failure::MissingRow),
        }),
{
    let id = story_asked_for(request)->Some_0;
    let token = session_token(sessions, Some(user));
    let ask = run(Kind::StoryByShortId { id });
    let task = waiting_for_story(user, request);
    assert(started(sessions, Some(user), request) == Turn::on(task, opening(token) + seq![ask]));
    lemma_first_turn(store, token, task, ask, now);
    assert(store.reply_to(ask) == ReplyView::First(None));
}

/// A vote on a comment that is not there fails and changes nothing.
#[verifier::rlimit(50)]
pub proof fn law_a_missing_comment_fails_the_vote(
    store: Store,
    sessions: Map<u32, Seq<char>>,
    user: u32,
    id: ShortId,
    vote: Vote,
    now: Timestamp,
)
    requires
        store.saved is None,
        comment_coded(store.tables.comments, id) is None,
    ensures
        served(store, sessions, Some(user), RequestView::CommentVote(id, vote), now) == (Outcome {
            store,
            failure: Some(Failure::MissingRow),
        }),
{
    let token = session_token(sessions, Some(user));
    let ask = run(Kind::CommentByShortId { id });
    let task = TaskView::at(Some(user), Stage::VoteComment { user, vote });
    assert(started(sessions, Some(user), RequestView::CommentVote(id, vote)) == Turn::on(
        task,
        opening(token) + seq![ask],
    ));
    lemma_first_turn(store, token, task, ask, now);
    assert(store.reply_to(ask) == ReplyView::First(None));
}

/// A submission while the seed tag is not active fails and changes nothing.
#[verifier::rlimit(50)]
pub proof fn law_a_missing_seed_tag_fails_the_submission(
    store: Store,
    sessions: Map<u32, Seq<char>>,
    user: u32,
    id: ShortId,
    title: Seq<char>,
    now: Timestamp,
)
    requires
        store.saved is None,
        store.tables.seed_tag is None,
    ensures
        served(store, sessions, Some(user), RequestView::Submit { id, title }, now) == (Outcome {
            store,
            failure: Some(Failure::MissingRow),
        }),
{
    let token = session_token(sessions, Some(user));
    let ask = run(Kind::SeedTag);
    let task = TaskView::at(Some(user), Stage::SeedTag { user, id }).holding_word(title);
    assert(started(sessions, Some(user), RequestView::Submit { id, title }) == Turn::on(
        task,
        opening(token) + seq![ask],
    ));
    lemma_first_turn(store, token, task, ask, now);
    assert(store.reply_to(ask) == ReplyView::First(None));
}

/// A request that acts for a user and is given none fails at once and
/// changes nothing.
pub proof fn law_no_user_fails_the_request(
    store: Store,
    sessions: Map<u32, Seq<char>>,
    request: RequestView,
    now: Timestamp,
)
    requires
        request is Login || request is StoryVote || request is CommentVote || request is Submit
            || request is Comment,
    ensures
        served(store, sessions, None, request, now) == (Outcome {
            store,
            failure: Some(Failure::NoActingUser),
        }),
{
}

/// The tables after `user` has logged in: a user who was not there is.
pub open spec fn after_login(t: Tables, user: u32) -> Tables {
    match member_named(t.members, user) {
        Some(_) => t,
        None => Tables {
            members: t.members.push(Member { id: t.next_id as u32, number: user, karma: 0 }),
            next_id: t.next_id + 1,
            ..t
        },
    }
}

/// A login goes through: a user who is not there yet is inserted, one who is
/// there is not, and nothing else changes.
#[verifier::rlimit(50)]
pub proof fn lemma_login_served(
    store: Store,
    sessions: Map<u32, Seq<char>>,
    user: u32,
    now: Timestamp,
)
    requires
        store.saved is None,
    ensures
        served(store, sessions, Some(user), RequestView::Login, now) == (Outcome {
            store: Store::settled(after_login(store.tables, user)),
            failure: None,
        }),
{
    let acting_as = Some(user);
    let token = session_token(sessions, acting_as);
    let ask = run(Kind::UserExists { user });
    let task = TaskView::at(acting_as, Stage::LoginCheck { user });
    assert(started(sessions, acting_as, RequestView::Login) == Turn::on(
        task,
        opening(token) + seq![ask],
    ));
    lemma_first_turn(store, token, task, ask, now);
    let reply = store.reply_to(ask);
    match member_named(store.tables.members, user) {
        Some(_) => {
            assert(reply == ReplyView::First(Some(Seq::<CellView>::empty())));
            assert(fits(Shape::Presence, Seq::<CellView>::empty()));
            assert(advanced(task, reply, now) == Turn::last(acting_as, closing(acting_as)));
            lemma_opening_and_closing_only_read(store, None, acting_as);
        },
        None => {
            assert(reply == ReplyView::First(None));
            let insert = run(Kind::InsertUser { user, at: now });
            assert(advanced(task, reply, now) == Turn::last(
                acting_as,
                seq![insert] + closing(acting_as),
            ));
            lemma_before_closing(store, seq![insert], acting_as);
            lemma_one_action(store, insert);
        },
    }
    let last = advanced(task, reply, now).script->Ok_0;
    assert(performed(store, TaskView::ended(acting_as), last, now) == (Outcome {
        store: store.through(last),
        failure: None,
    }));
}

/// A request that fails leaves no trace: whatever is asked of a store that
/// has room for two more rows, by whomever, if the request fails, the store
/// is afterwards exactly as it was before.
pub proof fn law_a_failed_request_leaves_no_trace(
    store: Store,
    sessions: Map<u32, Seq<char>>,
    acting_as: Option<u32>,
    request: RequestView,
    now: Timestamp,
)
    requires
        store.saved is None,
        store.tables.next_id + 1 <= u32::MAX,
        store.tables.comments.len() < u32::MAX,
    ensures
        served(store, sessions, acting_as, request, now).failure is Some ==> served(
            store,
            sessions,
            acting_as,
            request,
            now,
        ).store == store,
{
    let t = store.tables;
    if is_page(acting_as, request) {
        law_pages_change_nothing(store, sessions, acting_as, request, now);
    } else {
        match acting_as {
            None => {
                law_no_user_fails_the_request(store, sessions, request, now);
            },
            Some(user) => {
                match request {
                    RequestView::Login => {
                        lemma_login_served(store, sessions, user, now);
                    },
                    RequestView::Story(id) => {
                        if story_coded(t.stories, id) is Some {
                            lemma_story_viewed(store, sessions, user, id, now);
                        } else {
                            law_a_missing_story_fails_the_request(
                                store,
                                sessions,
                                user,
                                request,
                                now,
                            );
                        }
                    },
                    RequestView::StoryVote(id, vote) => {
                        if story_coded(t.stories, id) is Some {
                            lemma_story_vote_served(store, sessions, user, id, vote, now);
                        } else {
                            law_a_missing_story_fails_the_request(
                                store,
                                sessions,
                                user,
                                request,
                                now,
                            );
                        }
                    },
                    RequestView::CommentVote(id, vote) => {
                        match comment_coded(t.comments, id) {
                            None => {
                                law_a_missing_comment_fails_the_vote(
                                    store,
                                    sessions,
                                    user,
                                    id,
                                    vote,
                                    now,
                                );
                            },
                            Some(c) => {
                                if story_numbered(t.stories, c.story) is Some {
                                    lemma_comment_vote_served(store, sessions, user, id, vote, now);
                                } else {
                                    law_comment_vote_is_all_or_nothing(
                                        store,
                                        sessions,
                                        user,
                                        id,
                                        vote,
                                        now,
                                    );
                                }
                            },
                        }
                    },
                    RequestView::Submit { id, title } => {
                        if t.seed_tag is Some {
                            lemma_submit_served(store, sessions, user, id, title, now);
                        } else {
                            law_a_missing_seed_tag_fails_the_submission(
                                store,
                                sessions,
                                user,
                                id,
                                title,
                                now,
                            );
                        }
                    },
                    RequestView::Comment { id, story, parent } => {
                        if story_coded(t.stories, story) is Some {
                            lemma_comment_served(store, sessions, user, id, story, parent, now);
                        } else {
                            law_a_missing_story_fails_the_request(
                                store,
                                sessions,
                                user,
                                request,
                                now,
                            );
                        }
                    },
                    _ => {},
                }
            },
        }
    }
}

} // verus!
