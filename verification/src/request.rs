//! What a caller can ask for.

use vstd::prelude::*;

verus! {

/// Direction of a vote.
#[derive(Clone, Copy, Debug, PartialEq, Eq)]
pub enum Vote {
    Up,
    Down,
}

impl Vote {
    /// What the vote is worth to the author's karma and to a hotness: one up or one down.
    pub open spec fn worth(self) -> int {
        match self {
            Vote::Up => 1,
            Vote::Down => -1,
        }
    }

    /// How many upvotes the vote adds to a tally.
    pub open spec fn ups(self) -> int {
        match self {
            Vote::Up => 1,
            Vote::Down => 0,
        }
    }

    /// How many downvotes the vote adds to a tally.
    pub open spec fn downs(self) -> int {
        match self {
            Vote::Up => 0,
            Vote::Down => 1,
        }
    }

    pub fn is_up(self) -> (up: bool)
        ensures
            up == (self == Vote::Up),
    {
        match self {
            Vote::Up => true,
            Vote::Down => false,
        }
    }
}

/// The six-byte public code of a story or a comment.
#[derive(Clone, Copy, Debug, PartialEq, Eq)]
pub struct ShortId {
    pub bytes: [u8; 6],
}

impl View for ShortId {
    type V = Seq<u8>;

    open spec fn view(&self) -> Seq<u8> {
        self.bytes@
    }
}

impl ShortId {
    /// The six bytes, in order.
    pub fn to_vec(&self) -> (v: Vec<u8>)
        ensures
            v@ == self@,
    {
        let mut v: Vec<u8> = Vec::new();
        let mut i: usize = 0;
        while i < 6
            invariant
                i <= 6,
                v@ == self.bytes@.subrange(0, i as int),
            decreases 6 - i,
        {
            v.push(self.bytes[i]);
            i += 1;
            assert(v@ =~= self.bytes@.subrange(0, i as int));
        }
        assert(v@ =~= self.bytes@);
        v
    }
}

/// One page view or action of the site.
#[derive(Clone, Debug, PartialEq, Eq)]
pub enum Request {
    /// The profile of the user whose name ends in this number.
    User(u32),
    Frontpage,
    Comments,
    Recent,
    Login,
    Logout,
    Story(ShortId),
    StoryVote(ShortId, Vote),
    CommentVote(ShortId, Vote),
    Submit { id: ShortId, title: String },
    Comment { id: ShortId, story: ShortId, parent: Option<ShortId> },
}

/// A request in contracts.
pub enum RequestView {
    User(u32),
    Frontpage,
    Comments,
    Recent,
    Login,
    Logout,
    Story(ShortId),
    StoryVote(ShortId, Vote),
    CommentVote(ShortId, Vote),
    Submit { id: ShortId, title: Seq<char> },
    Comment { id: ShortId, story: ShortId, parent: Option<ShortId> },
}

impl View for Request {
    type V = RequestView;

    open spec fn view(&self) -> RequestView {
        match *self {
            Request::User(u) => RequestView::User(u),
            Request::Frontpage => RequestView::Frontpage,
            Request::Comments => RequestView::Comments,
            Request::Recent => RequestView::Recent,
            Request::Login => RequestView::Login,
            Request::Logout => RequestView::Logout,
            Request::Story(id) => RequestView::Story(id),
            Request::StoryVote(id, v) => RequestView::StoryVote(id, v),
            Request::CommentVote(id, v) => RequestView::CommentVote(id, v),
            Request::Submit { id, title } => RequestView::Submit { id, title: title@ },
            Request::Comment { id, story, parent } => RequestView::Comment { id, story, parent },
        }
    }
}

} // verus!
