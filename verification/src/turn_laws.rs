//! What holds of every turn, whatever the store does.

use crate::clock::Timestamp;
use crate::closing::{closing, opening, session_token};
use crate::comment::{count_script, own_vote_script, ready_script};
use crate::drive::{advanced, begun, started};
use crate::query::Kind;
use crate::render::{base_of, lemma_read_as_its_kind_says, read_from, rendered};
use crate::reply::{ReplyView, answers, count_in, first_in, insert_id_in, number_in, score_in};
use crate::request::{RequestView, ShortId, Vote};
use crate::score::Level;
use crate::statement::Fetch;
use crate::submit::submission_script;
use crate::task::{ActionView, Failure, Stage, TaskView, run};
use crate::vote::{comment_vote_script, story_of_comment_script, story_vote_script};
use vstd::prelude::*;

verus! {

/// What the caller reads from the result of an action.
pub open spec fn asked(action: ActionView) -> Fetch {
    match action {
        ActionView::Run(q) => read_from(q.kind),
        _ => Fetch::Nothing,
    }
}

/// What is read from the result of an action is what its statement, written
/// out, says is to be read.
pub proof fn lemma_asked_is_rendered(action: ActionView)
    ensures
        action matches ActionView::Run(q) ==> asked(action) == rendered(q).fetch,
{
    match action {
        ActionView::Run(q) => {
            lemma_read_as_its_kind_says(q);
        },
        _ => {},
    }
}

/// The script leads to the stage: it ends on an action whose result is read
/// as the stage awaits it. A task that has ended awaits nothing.
pub open spec fn leads_to(script: Seq<ActionView>, stage: Stage) -> bool {
    stage != Stage::Done ==> script.len() > 0 && asked(script.last()) == stage.awaits()
}

/// Every first script asks for what the task then waits for.
#[verifier::rlimit(50)]
pub proof fn law_first_scripts_ask_what_is_awaited(
    sessions: Map<u32, Seq<char>>,
    acting_as: Option<u32>,
    request: RequestView,
)
    ensures
        started(sessions, acting_as, request).script matches Ok(script) ==> leads_to(
            script,
            started(sessions, acting_as, request).task.stage,
        ),
{
    let head = opening(session_token(sessions, acting_as));
    let turn = begun(acting_as, request);
    match turn.script {
        Err(_) => {},
        Ok(rest) => {
            assert(leads_to(rest, turn.task.stage));
            if rest.len() > 0 {
                assert((head + rest).last() == rest.last());
            }
        },
    }
}

/// Every later script asks for what the task then waits for: a caller that
/// reads each result as its statement says never meets
/// `Failure::UnexpectedReply`.
#[verifier::rlimit(50)]
pub proof fn law_scripts_ask_what_is_awaited(task: TaskView, reply: ReplyView, now: Timestamp)
    ensures
        advanced(task, reply, now).script matches Ok(script) ==> leads_to(
            script,
            advanced(task, reply, now).task.stage,
        ),
{
}

/// A reply is unexpected exactly where it does not answer what the stage
/// awaits: a task that has not ended fails with `Failure::UnexpectedReply` on
/// a reply that is none to the statement it asked last, and on no other.
#[verifier::rlimit(50)]
pub proof fn law_unexpected_is_what_is_not_awaited(task: TaskView, reply: ReplyView, now: Timestamp)
    requires
        task.stage != Stage::Done,
    ensures
        advanced(task, reply, now).script == Err::<Seq<ActionView>, Failure>(
            Failure::UnexpectedReply,
        ) <==> !answers(task.stage.awaits(), reply),
{
}

/// Whether a transaction is open after the first `n` actions of `script`,
/// given whether one was open before them; `None` where a transaction is
/// opened inside another, or committed while none is open.
pub open spec fn open_after(script: Seq<ActionView>, n: nat, open: bool) -> Option<bool>
    decreases n,
{
    if n == 0 {
        Some(open)
    } else {
        match open_after(script, (n - 1) as nat, open) {
            None => None,
            Some(was) => match script[n - 1] {
                ActionView::Begin => if was {
                    None
                } else {
                    Some(true)
                },
                ActionView::Commit => if was {
                    Some(false)
                } else {
                    None
                },
                ActionView::Run(_) => Some(was),
            },
        }
    }
}

impl Stage {
    /// Whether the task has a transaction open while it waits at this stage.
    pub open spec fn in_transaction(self) -> bool {
        ||| self is VoteCommentStory
        ||| self is SubmitBegun
        ||| self is StoryInserted
        ||| self is CommentBegun
        ||| self is CommentInserted
        ||| self is CommentCounted
    }
}

/// Scripts without `Begin` and `Commit` leave a transaction as it is.
pub proof fn lemma_statements_keep_the_transaction(script: Seq<ActionView>, n: nat, open: bool)
    requires
        n <= script.len(),
        forall|i: int| 0 <= i < script.len() ==> (#[trigger] script[i]) is Run,
    ensures
        open_after(script, n, open) == Some(open),
    decreases n,
{
    if n > 0 {
        lemma_statements_keep_the_transaction(script, (n - 1) as nat, open);
        assert(script[n - 1] is Run);
    }
}

/// What two scripts do to a transaction, one after the other.
pub proof fn lemma_open_after_in_parts(
    first: Seq<ActionView>,
    then: Seq<ActionView>,
    k: nat,
    open: bool,
)
    requires
        k <= then.len(),
    ensures
        open_after(first + then, first.len() + k, open) == match open_after(
            first,
            first.len(),
            open,
        ) {
            Some(mid) => open_after(then, k, mid),
            None => None,
        },
    decreases k,
{
    if k == 0 {
        lemma_open_after_prefix(first, first + then, first.len(), open);
    } else {
        lemma_open_after_in_parts(first, then, (k - 1) as nat, open);
        assert((first + then)[first.len() + k - 1] == then[k - 1]);
    }
}

proof fn lemma_open_after_prefix(a: Seq<ActionView>, b: Seq<ActionView>, n: nat, open: bool)
    requires
        n <= a.len(),
        n <= b.len(),
        forall|i: int| 0 <= i < n ==> a[i] == b[i],
    ensures
        open_after(a, n, open) == open_after(b, n, open),
    decreases n,
{
    if n > 0 {
        lemma_open_after_prefix(a, b, (n - 1) as nat, open);
    }
}

/// The close of a request leaves a transaction as it is.
proof fn lemma_closing_keeps_the_transaction(
    script: Seq<ActionView>,
    acting_as: Option<u32>,
    open: bool,
)
    ensures
        open_after(script + closing(acting_as), (script + closing(acting_as)).len(), open)
            == open_after(script, script.len(), open),
{
    let close = closing(acting_as);
    lemma_open_after_in_parts(script, close, close.len(), open);
    match open_after(script, script.len(), open) {
        Some(mid) => {
            lemma_statements_keep_the_transaction(close, close.len(), mid);
        },
        None => {},
    }
}

/// Transactions are never nested and never left open: a request begins with
/// none open, every script opens and commits in turn, a task waits inside a
/// transaction at exactly the stages that say so, and a task that has ended
/// without failing has committed.
#[verifier::rlimit(50)]
pub proof fn law_first_scripts_open_no_transaction(
    sessions: Map<u32, Seq<char>>,
    acting_as: Option<u32>,
    request: RequestView,
)
    ensures
        !Stage::Done.in_transaction(),
        started(sessions, acting_as, request).script matches Ok(script) ==> open_after(
            script,
            script.len(),
            false,
        ) == Some(false) && !started(sessions, acting_as, request).task.stage.in_transaction(),
{
    let turn = started(sessions, acting_as, request);
    match turn.script {
        Err(_) => {},
        Ok(script) => {
            assert forall|i: int| 0 <= i < script.len() implies (#[trigger] script[i]) is Run by {}
            lemma_statements_keep_the_transaction(script, script.len(), false);
        },
    }
}

#[verifier::rlimit(50)]
proof fn lemma_vote_scripts(
    user: u32,
    author: u32,
    comment: u32,
    story: u32,
    upvotes: u32,
    downvotes: u32,
    hotness: Level,
    vote: Vote,
)
    ensures
        open_after(story_vote_script(user, author, story, hotness, vote), 9, false) == Some(false),
        open_after(
            comment_vote_script(user, author, comment, story, upvotes, downvotes, vote),
            6,
            false,
        ) == Some(true),
        open_after(story_of_comment_script(story, author, hotness, vote), 5, true) == Some(false),
{
    reveal_with_fuel(open_after, 10);
}

proof fn lemma_ready_script(id: ShortId)
    ensures
        open_after(ready_script(id), 2, false) == Some(true),
{
    reveal_with_fuel(open_after, 3);
}

#[verifier::rlimit(50)]
proof fn lemma_write_scripts(
    user: u32,
    author: u32,
    story: u32,
    fresh: u64,
    tag: u32,
    count: u64,
    hotness: Level,
)
    ensures
        open_after(submission_script(user, fresh, tag), 8, true) == Some(false),
        open_after(own_vote_script(user, story, fresh), 4, true) == Some(true),
        open_after(count_script(user, story, author, count, hotness), 8, true) == Some(false),
{
    reveal_with_fuel(open_after, 9);
}

#[verifier::rlimit(50)]
proof fn lemma_vote_turns(task: TaskView, reply: ReplyView, now: Timestamp)
    requires
        task.stage is VoteStory || task.stage is VoteComment || task.stage is VoteCommentStory,
    ensures
        advanced(task, reply, now).script matches Ok(script) ==> open_after(
            script,
            script.len(),
            task.stage.in_transaction(),
        ) == Some(advanced(task, reply, now).task.stage.in_transaction()),
{
    let who = task.acting_as;
    let open = task.stage.in_transaction();
    if advanced(task, reply, now).script is Ok {
        let row = first_in(reply)->Some_0;
        match task.stage {
            Stage::VoteStory { user, vote } => {
                let author = number_in(row[0]);
                let story = number_in(row[1]);
                let votes = story_vote_script(user, author, story, score_in(row[2]), vote);
                lemma_closing_keeps_the_transaction(votes, who, open);
                lemma_vote_scripts(user, author, 0, story, 0, 0, score_in(row[2]), vote);
            },
            Stage::VoteComment { user, vote } => {
                lemma_vote_scripts(
                    user,
                    number_in(row[0]),
                    number_in(row[1]),
                    number_in(row[2]),
                    number_in(row[3]),
                    number_in(row[4]),
                    score_in(row[0]),
                    vote,
                );
            },
            Stage::VoteCommentStory { story, vote } => {
                let author = number_in(row[0]);
                let rest = story_of_comment_script(story, author, score_in(row[1]), vote);
                lemma_closing_keeps_the_transaction(rest, who, open);
                lemma_vote_scripts(0, author, 0, story, 0, 0, score_in(row[1]), vote);
            },
            _ => {},
        }
    }
}

#[verifier::rlimit(50)]
proof fn lemma_submit_turns(task: TaskView, reply: ReplyView, now: Timestamp)
    requires
        task.stage is SeedTag || task.stage is SubmitBegun || task.stage is StoryInserted,
    ensures
        advanced(task, reply, now).script matches Ok(script) ==> open_after(
            script,
            script.len(),
            task.stage.in_transaction(),
        ) == Some(advanced(task, reply, now).task.stage.in_transaction()),
{
    let who = task.acting_as;
    let open = task.stage.in_transaction();
    if advanced(task, reply, now).script is Ok {
        match task.stage {
            Stage::SeedTag { .. } => {
                reveal_with_fuel(open_after, 3);
            },
            Stage::SubmitBegun { .. } => {
                reveal_with_fuel(open_after, 2);
            },
            Stage::StoryInserted { user, tag } => {
                let fresh = insert_id_in(reply)->Some_0;
                let rest = submission_script(user, fresh, tag);
                lemma_closing_keeps_the_transaction(rest, who, open);
                lemma_write_scripts(
                    user,
                    0,
                    0,
                    fresh,
                    tag,
                    0,
                    base_of(None),
                );
            },
            _ => {},
        }
    }
}

#[verifier::rlimit(50)]
proof fn lemma_comment_turns(task: TaskView, reply: ReplyView, now: Timestamp)
    requires
        task.stage is CommentStory || task.stage is CommentParent || task.stage is CommentBegun
            || task.stage is CommentInserted || task.stage is CommentCounted,
    ensures
        advanced(task, reply, now).script matches Ok(script) ==> open_after(
            script,
            script.len(),
            task.stage.in_transaction(),
        ) == Some(advanced(task, reply, now).task.stage.in_transaction()),
{
    let who = task.acting_as;
    let open = task.stage.in_transaction();
    if advanced(task, reply, now).script is Ok {
        match task.stage {
            Stage::CommentStory { user, id, parent } => {
                let row = first_in(reply)->Some_0;
                let author = seq![run(Kind::UserById { user: number_in(row[0]) })];
                lemma_ready_script(id);
                match parent {
                    None => {
                        lemma_open_after_in_parts(author, ready_script(id), 2, false);
                        reveal_with_fuel(open_after, 2);
                    },
                    Some(_) => {
                        reveal_with_fuel(open_after, 3);
                    },
                }
            },
            Stage::CommentParent { id, .. } => {
                lemma_ready_script(id);
            },
            Stage::CommentBegun { .. } => {
                reveal_with_fuel(open_after, 2);
            },
            Stage::CommentInserted { user, story, author } => {
                let fresh = insert_id_in(reply)->Some_0;
                lemma_write_scripts(
                    user,
                    author,
                    story,
                    fresh,
                    0,
                    0,
                    base_of(None),
                );
            },
            Stage::CommentCounted { user, story, author } => {
                let count = count_in(reply);
                let rest = count_script(user, story, author, count, base_of(task.score));
                lemma_closing_keeps_the_transaction(rest, who, open);
                lemma_write_scripts(
                    user,
                    author,
                    story,
                    0,
                    0,
                    count,
                    base_of(task.score),
                );
            },
            _ => {},
        }
    }
}

#[verifier::rlimit(50)]
proof fn lemma_other_turns(task: TaskView, reply: ReplyView, now: Timestamp)
    requires
        !task.stage.in_transaction(),
        !(task.stage is VoteStory || task.stage is VoteComment || task.stage is SeedTag
            || task.stage is CommentStory || task.stage is CommentParent),
    ensures
        advanced(task, reply, now).script matches Ok(script) ==> open_after(
            script,
            script.len(),
            false,
        ) == Some(false) && !advanced(task, reply, now).task.stage.in_transaction(),
{
    match advanced(task, reply, now).script {
        Err(_) => {},
        Ok(script) => {
            assert forall|i: int| 0 <= i < script.len() implies (#[trigger] script[i]) is Run by {}
            lemma_statements_keep_the_transaction(script, script.len(), false);
        },
    }
}

/// Transactions are never nested and never left open: whatever comes back, the
/// script of a turn takes the task from a stage inside or outside a
/// transaction to the next, opening only where none is open and committing
/// only where one is.
pub proof fn law_scripts_open_and_commit_in_turn(task: TaskView, reply: ReplyView, now: Timestamp)
    ensures
        advanced(task, reply, now).script matches Ok(script) ==> open_after(
            script,
            script.len(),
            task.stage.in_transaction(),
        ) == Some(advanced(task, reply, now).task.stage.in_transaction()),
{
    match task.stage {
        Stage::VoteStory { .. } | Stage::VoteComment { .. } | Stage::VoteCommentStory { .. } => {
            lemma_vote_turns(task, reply, now);
        },
        Stage::SeedTag { .. } | Stage::SubmitBegun { .. } | Stage::StoryInserted { .. } => {
            lemma_submit_turns(task, reply, now);
        },
        Stage::CommentStory { .. }
        | Stage::CommentParent { .. }
        | Stage::CommentBegun { .. }
        | Stage::CommentInserted { .. }
        | Stage::CommentCounted { .. } => {
            lemma_comment_turns(task, reply, now);
        },
        _ => {
            lemma_other_turns(task, reply, now);
        },
    }
}

} // verus!
