use trawler_mysql::clock::Timestamp;
use trawler_mysql::closing::Sessions;
use trawler_mysql::query::{Counter, Key, Kind, Parent, Query, Target};
use trawler_mysql::reply::{Cell, Reply};
use trawler_mysql::request::{Request, ShortId, Vote};
use trawler_mysql::score::Double;
use trawler_mysql::task::{Action, Failure, Notice, Stage, Task};

fn run(kind: Kind) -> Action {
    Action::Run(Query::plain(kind))
}

fn scored(kind: Kind, bits: u64) -> Action {
    Action::Run(Query::scored(kind, Double { bits }))
}

fn row(numbers: &[u32]) -> Vec<Cell> {
    numbers.iter().map(|n| Cell::Number(*n)).collect()
}

fn story_row(author: u32, id: u32, hotness: u64) -> Reply {
    Reply::First(Some(vec![
        Cell::Number(author),
        Cell::Number(id),
        Cell::Score(Double { bits: hotness }),
    ]))
}

fn closing(user: u32) -> Vec<Action> {
    vec![run(Kind::UnreadReplies { user }), run(Kind::UnreadMessages { user })]
}

fn start(acting_as: Option<u32>, request: Request) -> (Task, Vec<Action>) {
    let (task, script) = Task::start(&Sessions::new(), acting_as, request);
    (task, script.unwrap())
}

fn code(bytes: &[u8; 6]) -> ShortId {
    ShortId { bytes: *bytes }
}

fn noon() -> Timestamp {
    Timestamp { year: 2018, month: 3, day: 21, hour: 12, minute: 0, second: 0, nanosecond: 0 }
}

fn with(mut script: Vec<Action>, mut rest: Vec<Action>) -> Vec<Action> {
    script.append(&mut rest);
    script
}

#[test]
fn login_of_a_new_user_inserts_them() {
    let (mut task, script) = start(Some(8), Request::Login);
    assert_eq!(script, vec![run(Kind::UserExists { user: 8 })]);
    let script = task.advance_at(Reply::First(None), noon()).unwrap();
    assert_eq!(script, with(vec![run(Kind::InsertUser { user: 8, at: noon() })], closing(8)));
    assert!(task.finished());
}

#[test]
fn login_of_a_known_user_inserts_nothing() {
    let (mut task, _) = start(Some(8), Request::Login);
    let script = task.advance_at(Reply::First(Some(vec![])), noon()).unwrap();
    assert_eq!(script, closing(8));
    assert!(task.finished());
}

#[test]
fn logout_only_closes() {
    let (task, script) = start(Some(8), Request::Logout);
    assert_eq!(script, closing(8));
    assert!(task.finished());
    let (task, script) = start(None, Request::Logout);
    assert_eq!(script, vec![]);
    assert!(task.finished());
}

#[test]
fn story_upvote_runs_in_one_transaction() {
    let (mut task, script) = start(Some(8), Request::StoryVote(code(b"abc123"), Vote::Up));
    assert_eq!(script, vec![run(Kind::StoryByShortId { id: code(b"abc123") })]);
    assert_eq!(task.stage, Stage::VoteStory { user: 8, vote: Vote::Up });
    let script = task.advance(story_row(5, 100, 0xC0D2C41276A791AA)).unwrap();
    assert_eq!(
        script,
        with(
            vec![
                run(Kind::VoteCheck { user: 8, story: Key::Read(100), comment: None }),
                Action::Begin,
                run(Kind::InsertVote { user: 8, story: 100, comment: None, vote: Vote::Up }),
                run(Kind::Karma { author: 5, vote: Vote::Up, target: Target::Story }),
                run(Kind::TagsOf { story: 100 }),
                run(Kind::CommentVotesOf { story: 100, except: 5 }),
                run(Kind::MergedInto { story: 100 }),
                scored(Kind::TallyStory { story: 100, vote: Vote::Up }, 0xC0D2C41276A791AA),
                Action::Commit,
            ],
            closing(8)
        )
    );
    assert!(task.finished());
}

#[test]
fn story_downvote_moves_karma_and_tally_down() {
    let (mut task, _) = start(Some(8), Request::StoryVote(code(b"abc123"), Vote::Down));
    let script = task.advance(story_row(5, 100, 7)).unwrap();
    assert_eq!(
        script[2],
        run(Kind::InsertVote { user: 8, story: 100, comment: None, vote: Vote::Down })
    );
    assert_eq!(script[3], run(Kind::Karma { author: 5, vote: Vote::Down, target: Target::Story }));
    assert_eq!(script[7], scored(Kind::TallyStory { story: 100, vote: Vote::Down }, 7));
}

#[test]
fn comment_vote_tallies_the_comment_then_its_story() {
    let (mut task, script) = start(Some(8), Request::CommentVote(code(b"cmt001"), Vote::Up));
    assert_eq!(script, vec![run(Kind::CommentByShortId { id: code(b"cmt001") })]);
    let script = task.advance(Reply::First(Some(row(&[6, 31, 100, 4, 1])))).unwrap();
    assert_eq!(
        script,
        vec![
            run(Kind::VoteCheck { user: 8, story: Key::Read(100), comment: Some(Key::Read(31)) }),
            Action::Begin,
            run(Kind::InsertVote { user: 8, story: 100, comment: Some(31), vote: Vote::Up }),
            run(Kind::Karma { author: 6, vote: Vote::Up, target: Target::Comment }),
            run(Kind::TallyComment { comment: 31, vote: Vote::Up, upvotes: 4, downvotes: 1 }),
            run(Kind::StoryById { story: 100 }),
        ]
    );
    assert_eq!(task.stage, Stage::VoteCommentStory { story: 100, vote: Vote::Up });
    let reply = Reply::First(Some(vec![Cell::Number(5), Cell::Score(Double { bits: 99 })]));
    let script = task.advance(reply).unwrap();
    assert_eq!(
        script,
        with(
            vec![
                run(Kind::TagsOf { story: 100 }),
                run(Kind::CommentVotesOf { story: 100, except: 5 }),
                run(Kind::MergedInto { story: 100 }),
                scored(Kind::TallyStory { story: 100, vote: Vote::Up }, 99),
                Action::Commit,
            ],
            closing(8)
        )
    );
    assert!(task.finished());
}

#[test]
fn comment_vote_without_its_story_hands_out_no_commit() {
    let (mut task, _) = start(Some(8), Request::CommentVote(code(b"cmt001"), Vote::Down));
    let script = task.advance(Reply::First(Some(row(&[6, 31, 100, 4, 1])))).unwrap();
    assert!(script.contains(&Action::Begin));
    assert!(!script.contains(&Action::Commit));
    assert_eq!(task.advance(Reply::First(None)), Err(Failure::MissingRow));
    assert!(task.finished());
}

#[test]
fn submission_inserts_story_tagging_counter_and_own_vote() {
    let request = Request::Submit { id: code(b"abc123"), title: String::from("T") };
    let (mut task, script) = start(Some(8), request);
    assert_eq!(script, vec![run(Kind::SeedTag)]);
    assert_eq!(task.word, "T");
    let script = task.advance(Reply::First(Some(row(&[2])))).unwrap();
    assert_eq!(script, vec![run(Kind::StoryShortIdTaken { id: code(b"abc123") }), Action::Begin]);
    let script = task.advance_at(Reply::Done, noon()).unwrap();
    assert_eq!(
        script,
        vec![Action::Run(Query::worded(
            Kind::InsertStory { user: 8, id: code(b"abc123"), at: noon() },
            String::from("T")
        ))]
    );
    let script = task.advance(Reply::InsertId(Some(100))).unwrap();
    assert_eq!(
        script,
        with(
            vec![
                run(Kind::InsertTagging { story: 100, tag: 2 }),
                run(Kind::BumpCounter { user: 8, which: Counter::StoriesSubmitted }),
                run(Kind::Counter { user: 8, which: Counter::StoriesSubmitted }),
                run(Kind::VoteCheck { user: 8, story: Key::Fresh(100), comment: None }),
                run(Kind::InsertOwnVote { user: 8, story: Key::Fresh(100), comment: None }),
                run(Kind::CommentVotesOfOthers { story: 100, user: 8 }),
                run(Kind::SettleHotness { story: 100 }),
                Action::Commit,
            ],
            closing(8)
        )
    );
    assert!(task.finished());
}

#[test]
fn submission_without_the_seed_tag_fails() {
    let request = Request::Submit { id: code(b"abc123"), title: String::from("T") };
    let (mut task, _) = start(Some(8), request);
    assert_eq!(task.advance(Reply::First(None)), Err(Failure::MissingRow));
}

#[test]
fn submission_without_an_insert_id_fails() {
    let request = Request::Submit { id: code(b"abc123"), title: String::from("T") };
    let (mut task, _) = start(Some(8), request);
    task.advance(Reply::First(Some(row(&[2])))).unwrap();
    task.advance(Reply::Done).unwrap();
    assert_eq!(task.advance(Reply::InsertId(None)), Err(Failure::NoInsertId));
}

#[test]
fn top_level_comment_goes_straight_into_its_transaction() {
    let request = Request::Comment { id: code(b"cmt002"), story: code(b"abc123"), parent: None };
    let (mut task, script) = start(Some(8), request);
    assert_eq!(script, vec![run(Kind::StoryByShortId { id: code(b"abc123") })]);
    let script = task.advance(story_row(5, 100, 77)).unwrap();
    assert_eq!(
        script,
        vec![
            run(Kind::UserById { user: 5 }),
            run(Kind::CommentShortIdTaken { id: code(b"cmt002") }),
            Action::Begin,
        ]
    );
    assert_eq!(task.score, Some(Double { bits: 77 }));
    let script = task.advance_at(Reply::Done, noon()).unwrap();
    assert_eq!(
        script,
        vec![run(Kind::InsertComment {
            user: 8,
            story: 100,
            id: code(b"cmt002"),
            parent: None,
            at: noon()
        })]
    );
    let script = task.advance(Reply::InsertId(Some(31))).unwrap();
    assert_eq!(
        script,
        vec![
            run(Kind::VoteCheck { user: 8, story: Key::Read(100), comment: Some(Key::Fresh(31)) }),
            run(Kind::InsertOwnVote {
                user: 8,
                story: Key::Read(100),
                comment: Some(Key::Fresh(31))
            }),
            run(Kind::MergedInto { story: 100 }),
            run(Kind::CountComments { story: 100 }),
        ]
    );
    let script = task.advance(Reply::Count(12)).unwrap();
    assert_eq!(
        script,
        with(
            vec![
                run(Kind::SetCommentCount { story: 100, count: 12 }),
                run(Kind::TagsOf { story: 100 }),
                run(Kind::CommentVotesOf { story: 100, except: 5 }),
                run(Kind::MergedInto { story: 100 }),
                scored(Kind::RewriteHotness { story: 100 }, 77),
                run(Kind::BumpCounter { user: 8, which: Counter::CommentsPosted }),
                run(Kind::Counter { user: 8, which: Counter::CommentsPosted }),
                Action::Commit,
            ],
            closing(8)
        )
    );
    assert!(task.finished());
}

#[test]
fn reply_takes_id_and_thread_of_its_parent() {
    let request = Request::Comment {
        id: code(b"cmt002"),
        story: code(b"abc123"),
        parent: Some(code(b"cmt001")),
    };
    let (mut task, _) = start(Some(8), request);
    let script = task.advance(story_row(5, 100, 77)).unwrap();
    assert_eq!(
        script,
        vec![
            run(Kind::UserById { user: 5 }),
            run(Kind::ParentComment { story: 100, id: code(b"cmt001") }),
        ]
    );
    let script = task.advance(Reply::First(Some(vec![Cell::Number(30), Cell::Number(6)]))).unwrap();
    assert_eq!(script, vec![run(Kind::CommentShortIdTaken { id: code(b"cmt002") }), Action::Begin]);
    assert_eq!(task.notice, None);
    let script = task.advance_at(Reply::Done, noon()).unwrap();
    assert_eq!(
        script,
        vec![run(Kind::InsertComment {
            user: 8,
            story: 100,
            id: code(b"cmt002"),
            parent: Some(Parent { id: 30, thread: Some(6) }),
            at: noon()
        })]
    );
}

#[test]
fn reply_to_a_parent_without_thread_has_none() {
    let request = Request::Comment {
        id: code(b"cmt002"),
        story: code(b"abc123"),
        parent: Some(code(b"cmt001")),
    };
    let (mut task, _) = start(Some(8), request);
    task.advance(story_row(5, 100, 77)).unwrap();
    task.advance(Reply::First(Some(vec![Cell::Number(30), Cell::Null]))).unwrap();
    let script = task.advance_at(Reply::Done, noon()).unwrap();
    assert_eq!(
        script,
        vec![run(Kind::InsertComment {
            user: 8,
            story: 100,
            id: code(b"cmt002"),
            parent: Some(Parent { id: 30, thread: None }),
            at: noon()
        })]
    );
}

#[test]
fn reply_to_a_missing_parent_is_noted_and_posted_without_one() {
    let request = Request::Comment {
        id: code(b"cmt002"),
        story: code(b"abc123"),
        parent: Some(code(b"nosuch")),
    };
    let (mut task, _) = start(Some(8), request);
    task.advance(story_row(5, 100, 77)).unwrap();
    let script = task.advance(Reply::First(None)).unwrap();
    assert_eq!(script, vec![run(Kind::CommentShortIdTaken { id: code(b"cmt002") }), Action::Begin]);
    assert_eq!(task.notice, Some(Notice::ParentNotFound { parent: code(b"nosuch"), story: 100 }));
    let script = task.advance_at(Reply::Done, noon()).unwrap();
    assert_eq!(
        script,
        vec![run(Kind::InsertComment {
            user: 8,
            story: 100,
            id: code(b"cmt002"),
            parent: None,
            at: noon()
        })]
    );
    assert_eq!(task.notice, None);
    assert_eq!(task.score, Some(Double { bits: 77 }));
}

#[test]
fn requests_that_act_for_a_user_fail_without_one() {
    let requests = vec![
        Request::Login,
        Request::StoryVote(code(b"abc123"), Vote::Up),
        Request::CommentVote(code(b"cmt001"), Vote::Down),
        Request::Submit { id: code(b"abc123"), title: String::from("T") },
        Request::Comment { id: code(b"cmt002"), story: code(b"abc123"), parent: None },
    ];
    for request in requests {
        let (task, script) = Task::start(&Sessions::new(), None, request);
        assert_eq!(script, Err(Failure::NoActingUser));
        assert!(task.finished());
    }
}

#[test]
fn a_reply_of_the_wrong_kind_fails_the_task() {
    let (mut task, _) = start(Some(8), Request::StoryVote(code(b"abc123"), Vote::Up));
    assert_eq!(task.advance(Reply::Done), Err(Failure::UnexpectedReply));
    assert!(task.finished());
    let (mut task, _) = start(None, Request::Frontpage);
    assert_eq!(task.advance(Reply::All(vec![row(&[5])])), Err(Failure::UnexpectedReply));
    let (mut task, _) = start(None, Request::User(1));
    assert_eq!(
        task.advance(Reply::First(Some(vec![Cell::Null]))),
        Err(Failure::UnexpectedReply)
    );
    let (mut task, _) = start(Some(8), Request::StoryVote(code(b"abc123"), Vote::Up));
    assert_eq!(
        task.advance(Reply::First(Some(row(&[5, 100, 7])))),
        Err(Failure::UnexpectedReply)
    );
}

#[test]
fn a_task_that_has_ended_takes_no_more_replies() {
    let (mut task, _) = start(None, Request::Logout);
    assert_eq!(task.advance(Reply::Done), Err(Failure::Finished));
    let (mut task, _) = start(None, Request::User(1));
    task.advance(Reply::First(Some(row(&[17])))).unwrap();
    assert_eq!(task.advance(Reply::Done), Err(Failure::Finished));
}

#[test]
fn rows_are_stamped_with_a_reading_of_the_clock() {
    let (mut task, _) = start(Some(8), Request::Login);
    let script = task.advance(Reply::First(None)).unwrap();
    match &script[0] {
        Action::Run(query) => match query.kind {
            Kind::InsertUser { user, at } => {
                assert_eq!(user, 8);
                assert!(at.year >= 2024);
                assert!((1..=12).contains(&at.month));
                assert!((1..=31).contains(&at.day));
                assert!(at.hour <= 23 && at.minute <= 59 && at.second <= 59);
                assert!(at.nanosecond <= 1_999_999_999);
            }
            other => panic!("{:?}", other),
        },
        other => panic!("{:?}", other),
    }
}
