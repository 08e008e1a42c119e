//! The profile page of a user, and logging in and out.

use crate::clock::Timestamp;
use crate::closing::{closing, push_closing};
use crate::query::{Counter, Kind};
use crate::reply::{Reply, ReplyView, answers, first_in, number_at, number_in};
use crate::statement::{Fetch, Shape};
use crate::task::{
    Action, ActionView, Failure, Stage, Task, Turn, actions, no_actions, prefixed, push_plain, run,
    taken,
};
use vstd::prelude::*;

verus! {

/// What a profile page loads once the user's id is known.
pub open spec fn profile_script(user: u32) -> Seq<ActionView> {
    seq![
        run(Kind::FavouriteTag { user }),
        run(Kind::Counter { user, which: Counter::StoriesSubmitted }),
        run(Kind::Counter { user, which: Counter::CommentsPosted }),
        run(Kind::HatCheck { user }),
    ]
}

/// The first turn of a profile page: the user row, by name.
pub open spec fn begin_profile(viewer: Option<u32>, suffix: u32) -> Turn {
    Turn::to(viewer, Stage::Profile, seq![run(Kind::UserByName { suffix })])
}

/// The turn after the user row of a profile page came back. Without the row
/// the task fails.
pub open spec fn after_profile(viewer: Option<u32>, reply: ReplyView) -> Turn {
    if !answers(Fetch::First(Shape::Id), reply) {
        Turn::failed(viewer, Failure::UnexpectedReply)
    } else {
        match first_in(reply) {
            None => Turn::failed(viewer, Failure::MissingRow),
            Some(row) => Turn::last(viewer, profile_script(number_in(row[0])) + closing(viewer)),
        }
    }
}

/// The first turn of a login: is the user name taken?
pub open spec fn begin_login(acting_as: Option<u32>) -> Turn {
    match acting_as {
        None => Turn::failed(acting_as, Failure::NoActingUser),
        Some(user) => Turn::to(
            acting_as,
            Stage::LoginCheck { user },
            seq![run(Kind::UserExists { user })],
        ),
    }
}

/// The turn after the check of a login came back: a user who is not there yet
/// is inserted, with `now` as the time of creation.
pub open spec fn after_login_check(
    acting_as: Option<u32>,
    user: u32,
    reply: ReplyView,
    now: Timestamp,
) -> Turn {
    if !answers(Fetch::First(Shape::Presence), reply) {
        Turn::failed(acting_as, Failure::UnexpectedReply)
    } else {
        match first_in(reply) {
            None => Turn::last(
                acting_as,
                seq![run(Kind::InsertUser { user, at: now })] + closing(acting_as),
            ),
            Some(_) => Turn::last(acting_as, closing(acting_as)),
        }
    }
}

/// The only turn of a logout: nothing but the close.
pub open spec fn begin_logout(acting_as: Option<u32>) -> Turn {
    Turn::last(acting_as, closing(acting_as))
}

impl Task {
    /// Starts a profile page; `script` holds the opening.
    pub(crate) fn begin_profile(acting_as: Option<u32>, suffix: u32, opening: Vec<Action>) -> (r: (
        Task,
        Result<Vec<Action>, Failure>,
    ))
        ensures
            taken(r.0@, r.1) == prefixed(actions(opening@), begin_profile(acting_as, suffix)),
    {
        let mut script = opening;
        let ghost head = actions(script@);
        push_plain(&mut script, Kind::UserByName { suffix });
        assert(actions(script@) =~= head + seq![run(Kind::UserByName { suffix })]);
        (Task::at(acting_as, Stage::Profile), Ok(script))
    }

    /// Takes the user row of a profile page.
    pub(crate) fn after_profile(&mut self, reply: Reply) -> (r: Result<Vec<Action>, Failure>)
        ensures
            taken(final(self)@, r) == after_profile(old(self)@.acting_as, reply@),
    {
        let viewer = self.acting_as;
        match reply.into_first(Shape::Id) {
            Err(_) => self.fail(Failure::UnexpectedReply),
            Ok(None) => self.fail(Failure::MissingRow),
            Ok(Some(row)) => {
                let user = number_at(&row, 0);
                let mut script = no_actions();
                push_plain(&mut script, Kind::FavouriteTag { user });
                push_plain(&mut script, Kind::Counter { user, which: Counter::StoriesSubmitted });
                push_plain(&mut script, Kind::Counter { user, which: Counter::CommentsPosted });
                push_plain(&mut script, Kind::HatCheck { user });
                assert(actions(script@) =~= profile_script(user));
                push_closing(&mut script, viewer);
                self.move_to(Stage::Done);
                Ok(script)
            },
        }
    }

    /// Starts a login; `script` holds the opening.
    pub(crate) fn begin_login(acting_as: Option<u32>, opening: Vec<Action>) -> (r: (
        Task,
        Result<Vec<Action>, Failure>,
    ))
        ensures
            taken(r.0@, r.1) == prefixed(actions(opening@), begin_login(acting_as)),
    {
        match acting_as {
            None => Task::refused(acting_as, Failure::NoActingUser),
            Some(user) => {
                let mut script = opening;
                let ghost head = actions(script@);
                push_plain(&mut script, Kind::UserExists { user });
                assert(actions(script@) =~= head + seq![run(Kind::UserExists { user })]);
                (Task::at(acting_as, Stage::LoginCheck { user }), Ok(script))
            },
        }
    }

    /// Takes the answer to whether the user who logs in exists.
    pub(crate) fn after_login_check(&mut self, user: u32, reply: Reply, now: Timestamp) -> (r: Result<
        Vec<Action>,
        Failure,
    >)
        ensures
            taken(final(self)@, r) == after_login_check(old(self)@.acting_as, user, reply@, now),
    {
        let acting_as = self.acting_as;
        match reply.into_first(Shape::Presence) {
            Err(_) => self.fail(Failure::UnexpectedReply),
            Ok(found) => {
                let mut script = no_actions();
                if found.is_none() {
                    push_plain(&mut script, Kind::InsertUser { user, at: now });
                    assert(actions(script@) =~= seq![run(Kind::InsertUser { user, at: now })]);
                } else {
                    assert(actions(script@) + closing(acting_as) =~= closing(acting_as));
                }
                push_closing(&mut script, acting_as);
                self.move_to(Stage::Done);
                Ok(script)
            },
        }
    }

    /// Starts a logout; `script` holds the opening.
    pub(crate) fn begin_logout(acting_as: Option<u32>, opening: Vec<Action>) -> (r: (
        Task,
        Result<Vec<Action>, Failure>,
    ))
        ensures
            taken(r.0@, r.1) == prefixed(actions(opening@), begin_logout(acting_as)),
    {
        let mut script = opening;
        push_closing(&mut script, acting_as);
        (Task::at(acting_as, Stage::Done), Ok(script))
    }
}

} // verus!
