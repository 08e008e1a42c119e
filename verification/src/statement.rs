//! Statements as the connection takes them: text, parameters, and what to read
//! from the result.

use crate::clock::Timestamp;
use crate::score::{Double, Level};
use vstd::prelude::*;

verus! {

/// A positional parameter.
#[derive(Clone, Debug, PartialEq, Eq)]
pub enum Value {
    Int(i64),
    UInt(u64),
    Text(String),
    Bytes(Vec<u8>),
    Null,
    Date(Timestamp),
    Float(Double),
}

/// A positional parameter in contracts.
pub enum ValueView {
    Int(i64),
    UInt(u64),
    Text(Seq<char>),
    Bytes(Seq<u8>),
    Null,
    Date(Timestamp),
    Float(Double),
}

impl View for Value {
    type V = ValueView;

    open spec fn view(&self) -> ValueView {
        match *self {
            Value::Int(n) => ValueView::Int(n),
            Value::UInt(n) => ValueView::UInt(n),
            Value::Text(s) => ValueView::Text(s@),
            Value::Bytes(b) => ValueView::Bytes(b@),
            Value::Null => ValueView::Null,
            Value::Date(t) => ValueView::Date(t),
            Value::Float(d) => ValueView::Float(d),
        }
    }
}

/// The parameters of a statement in contracts.
pub open spec fn values(params: Seq<Value>) -> Seq<ValueView> {
    params.map_values(|v: Value| v@)
}

/// Appends one parameter.
pub fn push_value(params: &mut Vec<Value>, value: Value)
    ensures
        values(final(params)@) == values(old(params)@).push(value@),
{
    params.push(value);
    assert(values(params@) =~= values(old(params)@).push(value@));
}

/// A number that the caller writes into the statement text between `head` and
/// `tail`, in the shortest decimal form that reads back as the same binary64.
#[derive(Clone, Copy, Debug, PartialEq, Eq)]
pub enum Figure {
    /// `base` plus `by`.
    Moved { base: Double, by: i8 },
    /// `upvotes` divided by the sum of `upvotes` and `downvotes`.
    Share { upvotes: u64, downvotes: u64 },
}

/// A number to write into the text, in contracts.
pub enum FigureView {
    Score(Level),
    Share { upvotes: u64, downvotes: u64 },
}

impl View for Figure {
    type V = FigureView;

    open spec fn view(&self) -> FigureView {
        match *self {
            Figure::Moved { base, by } => FigureView::Score(base@.moved(by as int)),
            Figure::Share { upvotes, downvotes } => FigureView::Share { upvotes, downvotes },
        }
    }
}

/// A number to write into the text, where there is one, in contracts.
pub open spec fn figure_of(figure: Option<Figure>) -> Option<FigureView> {
    match figure {
        Some(r) => Some(r@),
        None => None,
    }
}

/// What a column holds.
#[derive(Clone, Copy, Debug, PartialEq, Eq)]
pub enum Holds {
    /// An unsigned 32-bit number.
    Number,
    /// Such a number, or nothing.
    MaybeNumber,
    /// A score.
    Score,
}

/// A column that the library reads.
#[derive(Clone, Copy, Debug, PartialEq, Eq)]
pub enum Column {
    Id,
    UserId,
    StoryId,
    TagId,
    ThreadId,
    Upvotes,
    Downvotes,
    Hotness,
}

impl Column {
    pub open spec fn spec_holds(self) -> Holds {
        match self {
            Column::ThreadId => Holds::MaybeNumber,
            Column::Hotness => Holds::Score,
            _ => Holds::Number,
        }
    }

    /// What the column holds.
    #[verifier::when_used_as_spec(spec_holds)]
    pub fn holds(self) -> (h: Holds)
        ensures
            h == self.spec_holds(),
    {
        match self {
            Column::ThreadId => Holds::MaybeNumber,
            Column::Hotness => Holds::Score,
            _ => Holds::Number,
        }
    }

    /// The column's name in the schema.
    pub fn name(self) -> (s: &'static str)
        ensures
            s@ == self.spec_name(),
    {
        match self {
            Column::Id => "id",
            Column::UserId => "user_id",
            Column::StoryId => "story_id",
            Column::TagId => "tag_id",
            Column::ThreadId => "thread_id",
            Column::Upvotes => "upvotes",
            Column::Downvotes => "downvotes",
            Column::Hotness => "hotness",
        }
    }

    pub open spec fn spec_name(self) -> Seq<char> {
        match self {
            Column::Id => "id"@,
            Column::UserId => "user_id"@,
            Column::StoryId => "story_id"@,
            Column::TagId => "tag_id"@,
            Column::ThreadId => "thread_id"@,
            Column::Upvotes => "upvotes"@,
            Column::Downvotes => "downvotes"@,
            Column::Hotness => "hotness"@,
        }
    }
}

/// The columns that the library reads from each row of a result, in the order
/// in which the reply lists them.
#[derive(Clone, Copy, Debug, PartialEq, Eq)]
pub enum Shape {
    /// None: only whether there is a row.
    Presence,
    /// `id`.
    Id,
    /// `tag_id`.
    TagId,
    /// `user_id`, `id`.
    AuthorAndId,
    /// `id`, `user_id`, `story_id`.
    CommentKeys,
    /// `user_id`, `id`, `hotness`.
    Story,
    /// `user_id`, `id`, `story_id`, `upvotes`, `downvotes`.
    CommentTally,
    /// `user_id`, `hotness`.
    StoryScore,
    /// `id`, `thread_id`.
    Thread,
}

impl Shape {
    pub open spec fn spec_columns(self) -> Seq<Column> {
        match self {
            Shape::Presence => seq![],
            Shape::Id => seq![Column::Id],
            Shape::TagId => seq![Column::TagId],
            Shape::AuthorAndId => seq![Column::UserId, Column::Id],
            Shape::CommentKeys => seq![Column::Id, Column::UserId, Column::StoryId],
            Shape::Story => seq![Column::UserId, Column::Id, Column::Hotness],
            Shape::CommentTally => seq![
                Column::UserId,
                Column::Id,
                Column::StoryId,
                Column::Upvotes,
                Column::Downvotes,
            ],
            Shape::StoryScore => seq![Column::UserId, Column::Hotness],
            Shape::Thread => seq![Column::Id, Column::ThreadId],
        }
    }

    /// The columns to read, in order.
    pub fn columns(self) -> (cols: Vec<Column>)
        ensures
            cols@ == self.spec_columns(),
    {
        let mut cols: Vec<Column> = Vec::new();
        match self {
            Shape::Presence => {},
            Shape::Id => {
                cols.push(Column::Id);
            },
            Shape::TagId => {
                cols.push(Column::TagId);
            },
            Shape::AuthorAndId => {
                cols.push(Column::UserId);
                cols.push(Column::Id);
            },
            Shape::CommentKeys => {
                cols.push(Column::Id);
                cols.push(Column::UserId);
                cols.push(Column::StoryId);
            },
            Shape::Story => {
                cols.push(Column::UserId);
                cols.push(Column::Id);
                cols.push(Column::Hotness);
            },
            Shape::CommentTally => {
                cols.push(Column::UserId);
                cols.push(Column::Id);
                cols.push(Column::StoryId);
                cols.push(Column::Upvotes);
                cols.push(Column::Downvotes);
            },
            Shape::StoryScore => {
                cols.push(Column::UserId);
                cols.push(Column::Hotness);
            },
            Shape::Thread => {
                cols.push(Column::Id);
                cols.push(Column::ThreadId);
            },
        }
        assert(cols@ =~= self.spec_columns());
        cols
    }
}

/// What the caller reads from the result of a statement and reports back.
#[derive(Clone, Copy, Debug, PartialEq, Eq)]
pub enum Fetch {
    /// Nothing: the result is dropped.
    Nothing,
    /// The columns of the first row, if there is a row; the rest is dropped.
    First(Shape),
    /// The columns of every row, in result order.
    All(Shape),
    /// The number of rows.
    Count,
    /// The id that the store gave to the inserted row.
    InsertId,
}

/// A statement, ready for the connection.
#[derive(Clone, Debug, PartialEq, Eq)]
pub struct Statement {
    /// The text, up to the number written into it if there is one.
    pub head: String,
    /// The number to write after `head`.
    pub figure: Option<Figure>,
    /// The text after the number; empty where there is none.
    pub tail: String,
    /// The values of the `?` in the text, in order.
    pub params: Vec<Value>,
    /// Whether the statement is prepared and executed with `params`, or sent as text.
    pub prepared: bool,
    pub fetch: Fetch,
}

/// A statement in contracts.
pub struct StatementView {
    pub head: Seq<char>,
    pub figure: Option<FigureView>,
    pub tail: Seq<char>,
    pub params: Seq<ValueView>,
    pub prepared: bool,
    pub fetch: Fetch,
}

impl View for Statement {
    type V = StatementView;

    open spec fn view(&self) -> StatementView {
        StatementView {
            head: self.head@,
            figure: figure_of(self.figure),
            tail: self.tail@,
            params: values(self.params@),
            prepared: self.prepared,
            fetch: self.fetch,
        }
    }
}

impl StatementView {
    /// A statement sent as text.
    pub open spec fn inline(text: Seq<char>, fetch: Fetch) -> StatementView {
        StatementView {
            head: text,
            figure: None,
            tail: Seq::empty(),
            params: Seq::empty(),
            prepared: false,
            fetch,
        }
    }

    /// A prepared statement.
    pub open spec fn bound(text: Seq<char>, params: Seq<ValueView>, fetch: Fetch) -> StatementView {
        StatementView { head: text, figure: None, tail: Seq::empty(), params, prepared: true, fetch }
    }

    /// A prepared statement that drops its result and has a number written into
    /// its text.
    pub open spec fn spliced(
        head: Seq<char>,
        figure: FigureView,
        tail: Seq<char>,
        params: Seq<ValueView>,
    ) -> StatementView {
        StatementView { head, figure: Some(figure), tail, params, prepared: true, fetch: Fetch::Nothing }
    }
}

impl Statement {
    /// A statement sent as text.
    pub fn inline(text: String, fetch: Fetch) -> (s: Statement)
        ensures
            s@ == StatementView::inline(text@, fetch),
    {
        let s = Statement {
            head: text,
            figure: None,
            tail: String::new(),
            params: Vec::new(),
            prepared: false,
            fetch,
        };
        assert(values(s.params@) =~= Seq::empty());
        s
    }

    /// A prepared statement.
    pub fn bound(text: String, params: Vec<Value>, fetch: Fetch) -> (s: Statement)
        ensures
            s@ == StatementView::bound(text@, values(params@), fetch),
    {
        Statement { head: text, figure: None, tail: String::new(), params, prepared: true, fetch }
    }

    /// A prepared statement that drops its result and has a number written into
    /// its text.
    pub fn spliced(head: String, figure: Figure, tail: String, params: Vec<Value>) -> (s: Statement)
        ensures
            s@ == StatementView::spliced(head@, figure@, tail@, values(params@)),
    {
        Statement { head, figure: Some(figure), tail, params, prepared: true, fetch: Fetch::Nothing }
    }
}

} // verus!
