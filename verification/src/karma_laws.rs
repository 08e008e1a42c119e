//! Karma moves with votes, and with nothing else.

use crate::clock::Timestamp;
use crate::drive::{advanced, started};
use crate::model::{Member, Store, Tables, lemma_turns_run_out, performed, served};
use crate::query::Kind;
use crate::store_lemmas::lemma_found_after_push;
use crate::reply::ReplyView;
use crate::request::RequestView;
use crate::task::{ActionView, Stage, TaskView};
use crate::vote_laws::karma_of;
use vstd::prelude::*;

verus! {

/// The action leaves every karma as it is.
pub open spec fn keeps_karma(action: ActionView) -> bool {
    !(action matches ActionView::Run(q) && q.kind is Karma)
}

/// The stage is none of a vote.
pub open spec fn calm(stage: Stage) -> bool {
    !(stage is VoteStory || stage is VoteComment || stage is VoteCommentStory)
}

/// The karma of `user` is in the store, and in what an open transaction would
/// fall back to, what it is in `base`.
pub open spec fn steady(store: Store, base: Tables, user: u32) -> bool {
    &&& karma_of(store.tables.members, user) == karma_of(base.members, user)
    &&& store.saved matches Some(t) ==> karma_of(t.members, user) == karma_of(base.members, user)
}

#[verifier::rlimit(50)]
proof fn lemma_steady_step(store: Store, base: Tables, user: u32, action: ActionView)
    requires
        steady(store, base, user),
        keeps_karma(action),
    ensures
        steady(store.after(action), base, user),
{
    let t = store.tables;
    lemma_found_after_push(
        t.members,
        Member { id: t.next_id as u32, number: 0, karma: 0 },
        |m: Member| m.id == user,
    );
    match action {
        ActionView::Run(q) => {
            match q.kind {
                Kind::InsertUser { user: number, at } => {
                    lemma_found_after_push(
                        t.members,
                        Member { id: t.next_id as u32, number, karma: 0 },
                        |m: Member| m.id == user,
                    );
                },
                _ => {},
            }
        },
        _ => {},
    }
}

proof fn lemma_steady_script(store: Store, base: Tables, user: u32, script: Seq<ActionView>, n: nat)
    requires
        steady(store, base, user),
        n <= script.len(),
        forall|i: int| 0 <= i < script.len() ==> keeps_karma(#[trigger] script[i]),
    ensures
        steady(store.carried(script, n), base, user),
    decreases n,
{
    if n > 0 {
        lemma_steady_script(store, base, user, script, (n - 1) as nat);
        lemma_steady_step(store.carried(script, (n - 1) as nat), base, user, script[n - 1]);
    }
}

/// A task that is not at a vote hands out nothing that moves karma, and does
/// not come to a vote.
#[verifier::rlimit(50)]
pub proof fn lemma_calm_turn(task: TaskView, reply: ReplyView, now: Timestamp)
    requires
        calm(task.stage),
    ensures
        calm(advanced(task, reply, now).task.stage),
        advanced(task, reply, now).script matches Ok(script) ==> forall|i: int|
            0 <= i < script.len() ==> keeps_karma(#[trigger] script[i]),
{
}

#[verifier::rlimit(50)]
proof fn lemma_steady_performed(
    store: Store,
    base: Tables,
    user: u32,
    task: TaskView,
    script: Seq<ActionView>,
    now: Timestamp,
)
    requires
        steady(store, base, user),
        calm(task.stage),
        forall|i: int| 0 <= i < script.len() ==> keeps_karma(#[trigger] script[i]),
    ensures
        steady(performed(store, task, script, now).store, base, user),
    decreases task.stage.turns_left(),
{
    lemma_steady_script(store, base, user, script, script.len());
    if task.stage != Stage::Done {
        let reply = store.last_reply(script);
        lemma_calm_turn(task, reply, now);
        lemma_turns_run_out(task, reply, now);
        let turn = advanced(task, reply, now);
        match turn.script {
            Err(_) => {},
            Ok(next) => {
                lemma_steady_performed(store.through(script), base, user, turn.task, next, now);
            },
        }
    }
}

/// Karma moves with votes only: whatever else is served, a profile, a
/// listing, a story page, a login or logout, a submission or a comment, and
/// whether it completes or fails, every user's karma is afterwards what it
/// was before.
#[verifier::rlimit(50)]
pub proof fn law_only_votes_move_karma(
    store: Store,
    sessions: Map<u32, Seq<char>>,
    acting_as: Option<u32>,
    request: RequestView,
    now: Timestamp,
    user: u32,
)
    requires
        store.saved is None,
        !(request is StoryVote),
        !(request is CommentVote),
    ensures
        karma_of(served(store, sessions, acting_as, request, now).store.tables.members, user)
            == karma_of(store.tables.members, user),
{
    let turn = started(sessions, acting_as, request);
    match turn.script {
        Err(_) => {},
        Ok(script) => {
            assert(calm(turn.task.stage));
            assert forall|i: int| 0 <= i < script.len() implies keeps_karma(
                #[trigger] script[i],
            ) by {}
            lemma_steady_performed(store, store.tables, user, turn.task, script, now);
        },
    }
}

} // verus!
