//! What every request begins and ends with: the session lookup before the
//! first statement, the unread counters after the last.

use crate::query::{Kind, Query};
use crate::task::{Action, ActionView, actions, push_action, push_plain, run, run_worded};
use std::collections::HashMap;
use vstd::prelude::*;

verus! {

broadcast use vstd::std_specs::hash::group_hash_axioms;

/// The session tokens of the users that are known to be signed in, by user.
pub struct Sessions {
    pub tokens: HashMap<u32, String>,
}

impl View for Sessions {
    type V = Map<u32, Seq<char>>;

    open spec fn view(&self) -> Map<u32, Seq<char>> {
        Map::new(|user: u32| self.tokens@.contains_key(user), |user: u32| self.tokens@[user]@)
    }
}

impl Sessions {
    /// No user is known to be signed in.
    pub fn new() -> (sessions: Sessions)
        ensures
            sessions@ == Map::<u32, Seq<char>>::empty(),
    {
        let sessions = Sessions { tokens: HashMap::new() };
        assert(sessions@ =~= Map::<u32, Seq<char>>::empty());
        sessions
    }

    /// Records that `user` is signed in with `token`.
    pub fn remember(&mut self, user: u32, token: String)
        ensures
            final(self)@ == old(self)@.insert(user, token@),
    {
        self.tokens.insert(user, token);
        assert(self@ =~= old(self)@.insert(user, token@));
    }

    /// The token that `user` is signed in with, if the user is known.
    pub fn token_of(&self, user: u32) -> (token: Option<String>)
        ensures
            token matches Some(t) ==> self@.contains_key(user) && t@ == self@[user],
            token is None ==> !self@.contains_key(user),
    {
        match self.tokens.get(&user) {
            Some(t) => Some(t.clone()),
            None => None,
        }
    }
}

/// The token that the session of `acting_as` is looked up by: that of a user
/// who is known to be signed in.
pub open spec fn session_token(sessions: Map<u32, Seq<char>>, acting_as: Option<u32>) -> Option<
    Seq<char>,
> {
    match acting_as {
        Some(user) => if sessions.contains_key(user) {
            Some(sessions[user])
        } else {
            None
        },
        None => None,
    }
}

/// The opening of every request: the session lookup, where there is a token.
pub open spec fn opening(token: Option<Seq<char>>) -> Seq<ActionView> {
    match token {
        Some(t) => seq![run_worded(Kind::SessionByToken, t)],
        None => seq![],
    }
}

/// The close of every request: for a user, their unread replies and messages.
pub open spec fn closing(acting_as: Option<u32>) -> Seq<ActionView> {
    match acting_as {
        Some(user) => seq![run(Kind::UnreadReplies { user }), run(Kind::UnreadMessages { user })],
        None => seq![],
    }
}

/// A script that holds the opening for the session of `acting_as`.
pub fn open_script(sessions: &Sessions, acting_as: Option<u32>) -> (script: Vec<Action>)
    ensures
        actions(script@) == opening(session_token(sessions@, acting_as)),
{
    let mut script: Vec<Action> = crate::task::no_actions();
    match acting_as {
        Some(user) => {
            match sessions.token_of(user) {
                Some(token) => {
                    push_action(
                        &mut script,
                        Action::Run(Query::worded(Kind::SessionByToken, token)),
                    );
                },
                None => {},
            }
        },
        None => {},
    }
    assert(actions(script@) =~= opening(session_token(sessions@, acting_as)));
    script
}

/// Appends the close to a script.
pub fn push_closing(script: &mut Vec<Action>, acting_as: Option<u32>)
    ensures
        actions(final(script)@) == actions(old(script)@) + closing(acting_as),
{
    match acting_as {
        Some(user) => {
            push_plain(script, Kind::UnreadReplies { user });
            push_plain(script, Kind::UnreadMessages { user });
        },
        None => {},
    }
    assert(actions(script@) =~= actions(old(script)@) + closing(acting_as));
}

} // verus!
