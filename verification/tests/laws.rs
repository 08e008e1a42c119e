use trawler_mysql::clock::Timestamp;
use trawler_mysql::closing::Sessions;
use trawler_mysql::query::{Key, Kind, Query};
use trawler_mysql::reply::{Cell, Reply};
use trawler_mysql::request::{Request, ShortId, Vote};
use trawler_mysql::score::{Double, INITIAL_HOTNESS_BITS};
use trawler_mysql::statement::{Fetch, Figure};
use trawler_mysql::task::{Action, Failure, Task};

// A store small enough to read at a glance: it answers and carries out the
// statements by what they mean, so that whole requests can be served on it.

#[derive(Clone, Debug, PartialEq)]
struct Story {
    id: u32,
    code: ShortId,
    author: u32,
    title: String,
    upvotes: i64,
    downvotes: i64,
    hotness: f64,
    comments_count: i64,
}

#[derive(Clone, Debug, PartialEq)]
struct Comment {
    id: u32,
    code: ShortId,
    story: u32,
    author: u32,
    parent: Option<u32>,
    thread: Option<u32>,
    upvotes: i64,
    downvotes: i64,
    confidence: f64,
}

#[derive(Clone, Debug, PartialEq)]
struct Ribbon {
    id: u32,
    user: u32,
    story: u32,
    created_at: Timestamp,
    updated_at: Timestamp,
}

#[derive(Clone, Debug, PartialEq, Default)]
struct Tables {
    karma: Vec<(u32, i64)>,
    stories: Vec<Story>,
    comments: Vec<Comment>,
    votes: Vec<(u32, u64, Option<u64>, bool)>,
    ribbons: Vec<Ribbon>,
    taggings: Vec<(u32, u32)>,
    seed_tag: Option<u32>,
    next_id: u32,
}

#[derive(Default)]
struct Store {
    tables: Tables,
    saved: Option<Tables>,
    asked: Vec<Query>,
}

fn number(key: Key) -> u64 {
    match key {
        Key::Read(id) => u64::from(id),
        Key::Fresh(id) => id,
    }
}

fn figure(query: &Query) -> f64 {
    match query.render().figure.unwrap() {
        Figure::Moved { base, by } => f64::from_bits(base.bits) + f64::from(by),
        Figure::Share { upvotes, downvotes } => upvotes as f64 / (upvotes as f64 + downvotes as f64),
    }
}

impl Store {
    fn fresh(&mut self) -> u32 {
        let id = self.tables.next_id;
        self.tables.next_id += 1;
        id
    }

    fn run(&mut self, query: &Query) -> Reply {
        self.asked.push(query.clone());
        match query.kind {
            Kind::StoryByShortId { id } => {
                Reply::First(self.tables.stories.iter().find(|s| s.code == id).map(|s| {
                    vec![
                        Cell::Number(s.author),
                        Cell::Number(s.id),
                        Cell::Score(Double { bits: s.hotness.to_bits() }),
                    ]
                }))
            }
            Kind::StoryById { story } => {
                Reply::First(self.tables.stories.iter().find(|s| s.id == story).map(|s| {
                    vec![Cell::Number(s.author), Cell::Score(Double { bits: s.hotness.to_bits() })]
                }))
            }
            Kind::CommentByShortId { id } => {
                Reply::First(self.tables.comments.iter().find(|c| c.code == id).map(|c| {
                    vec![
                        Cell::Number(c.author),
                        Cell::Number(c.id),
                        Cell::Number(c.story),
                        Cell::Number(c.upvotes as u32),
                        Cell::Number(c.downvotes as u32),
                    ]
                }))
            }
            Kind::ParentComment { story, id } => Reply::First(
                self.tables.comments.iter().find(|c| c.story == story && c.code == id).map(|c| {
                    vec![Cell::Number(c.id), c.thread.map_or(Cell::Null, Cell::Number)]
                }),
            ),
            Kind::CommentsOf { story } => Reply::All(
                self.tables
                    .comments
                    .iter()
                    .filter(|c| c.story == story)
                    .map(|c| vec![Cell::Number(c.author), Cell::Number(c.id)])
                    .collect(),
            ),
            Kind::TaggingsOf { story } => Reply::All(
                self.tables
                    .taggings
                    .iter()
                    .filter(|t| t.0 == story)
                    .map(|t| vec![Cell::Number(t.1)])
                    .collect(),
            ),
            Kind::CountComments { story } => {
                Reply::Count(self.tables.comments.iter().filter(|c| c.story == story).count() as u64)
            }
            Kind::Ribbon { user, story } => Reply::First(
                self.tables
                    .ribbons
                    .iter()
                    .find(|r| r.user == user && r.story == story)
                    .map(|r| vec![Cell::Number(r.id)]),
            ),
            Kind::SeedTag => Reply::First(self.tables.seed_tag.map(|tag| vec![Cell::Number(tag)])),
            Kind::UserExists { user } => Reply::First(
                self.tables.karma.iter().find(|m| m.0 == user).map(|_| Vec::new()),
            ),
            Kind::InsertUser { user, .. } => {
                self.fresh();
                self.tables.karma.push((user, 0));
                Reply::Done
            }
            Kind::InsertRibbon { user, story, at } => {
                let id = self.fresh();
                self.tables.ribbons.push(Ribbon { id, user, story, created_at: at, updated_at: at });
                Reply::Done
            }
            Kind::TouchRibbon { ribbon, at } => {
                for r in self.tables.ribbons.iter_mut().filter(|r| r.id == ribbon) {
                    r.updated_at = at;
                }
                Reply::Done
            }
            Kind::InsertVote { user, story, comment, vote } => {
                self.fresh();
                self.tables.votes.push((user, u64::from(story), comment.map(u64::from), vote.is_up()));
                Reply::Done
            }
            Kind::InsertOwnVote { user, story, comment } => {
                self.fresh();
                self.tables.votes.push((user, number(story), comment.map(number), true));
                Reply::Done
            }
            Kind::Karma { author, vote, .. } => {
                for m in self.tables.karma.iter_mut().filter(|m| m.0 == author) {
                    m.1 += if vote.is_up() { 1 } else { -1 };
                }
                Reply::Done
            }
            Kind::TallyStory { story, vote } => {
                let hotness = figure(query);
                for s in self.tables.stories.iter_mut().filter(|s| s.id == story) {
                    if vote.is_up() {
                        s.upvotes += 1;
                    } else {
                        s.downvotes += 1;
                    }
                    s.hotness = hotness;
                }
                Reply::Done
            }
            Kind::TallyComment { comment, vote, .. } => {
                let confidence = figure(query);
                for c in self.tables.comments.iter_mut().filter(|c| c.id == comment) {
                    if vote.is_up() {
                        c.upvotes += 1;
                    } else {
                        c.downvotes += 1;
                    }
                    c.confidence = confidence;
                }
                Reply::Done
            }
            Kind::InsertStory { user, id, .. } => {
                let story = self.fresh();
                self.tables.stories.push(Story {
                    id: story,
                    code: id,
                    author: user,
                    title: query.word.clone(),
                    upvotes: 1,
                    downvotes: 0,
                    hotness: f64::from_bits(INITIAL_HOTNESS_BITS),
                    comments_count: 0,
                });
                Reply::InsertId(Some(u64::from(story)))
            }
            Kind::InsertTagging { story, tag } => {
                self.fresh();
                self.tables.taggings.push((story as u32, tag));
                Reply::Done
            }
            Kind::SettleHotness { story } => {
                let text = query.render().head;
                let from = text.find("= ").unwrap() + 2;
                let to = text.find('\n').unwrap();
                let hotness: f64 = text[from..to].parse().unwrap();
                for s in self.tables.stories.iter_mut().filter(|s| u64::from(s.id) == story) {
                    s.hotness = hotness;
                }
                Reply::Done
            }
            Kind::InsertComment { user, story, id, parent, .. } => {
                let comment = self.fresh();
                self.tables.comments.push(Comment {
                    id: comment,
                    code: id,
                    story,
                    author: user,
                    parent: parent.map(|p| p.id),
                    thread: parent.and_then(|p| p.thread),
                    upvotes: 1,
                    downvotes: 0,
                    confidence: 0.1828847834138887,
                });
                Reply::InsertId(Some(u64::from(comment)))
            }
            Kind::SetCommentCount { story, count } => {
                for s in self.tables.stories.iter_mut().filter(|s| s.id == story) {
                    s.comments_count = count as i64;
                }
                Reply::Done
            }
            Kind::RewriteHotness { story } => {
                let hotness = figure(query);
                for s in self.tables.stories.iter_mut().filter(|s| s.id == story) {
                    s.hotness = hotness;
                }
                Reply::Done
            }
            _ => match query.render().fetch {
                Fetch::Nothing => Reply::Done,
                Fetch::First(_) => Reply::First(None),
                Fetch::All(_) => Reply::All(Vec::new()),
                Fetch::Count => Reply::Count(0),
                Fetch::InsertId => Reply::InsertId(None),
            },
        }
    }

    fn act(&mut self, action: &Action) -> Reply {
        match action {
            Action::Run(query) => self.run(query),
            Action::Begin => {
                assert!(self.saved.is_none());
                self.saved = Some(self.tables.clone());
                Reply::Done
            }
            Action::Commit => {
                assert!(self.saved.is_some());
                self.saved = None;
                Reply::Done
            }
        }
    }

    fn serve(
        &mut self,
        acting_as: Option<u32>,
        request: Request,
        now: Timestamp,
    ) -> Result<(), Failure> {
        let (mut task, script) = Task::start(&Sessions::new(), acting_as, request);
        let mut script = script?;
        loop {
            let mut last = Reply::Done;
            for action in &script {
                last = self.act(action);
            }
            if task.finished() {
                assert!(self.saved.is_none());
                return Ok(());
            }
            match task.advance_at(last, now) {
                Ok(next) => script = next,
                Err(failure) => {
                    if let Some(tables) = self.saved.take() {
                        self.tables = tables;
                    }
                    return Err(failure);
                }
            }
        }
    }

    fn story(&self, code: &[u8; 6]) -> &Story {
        self.tables.stories.iter().find(|s| &s.code.bytes == code).unwrap()
    }

    fn karma(&self, user: u32) -> i64 {
        self.tables.karma.iter().find(|m| m.0 == user).unwrap().1
    }
}

fn code(bytes: &[u8; 6]) -> ShortId {
    ShortId { bytes: *bytes }
}

fn at(second: u32) -> Timestamp {
    Timestamp { year: 2018, month: 3, day: 21, hour: 12, minute: 0, second, nanosecond: 0 }
}

/// A store with users one to nine and one story, "story1", submitted by user one.
fn store() -> Store {
    let mut store = Store::default();
    store.tables.next_id = 100;
    store.tables.seed_tag = Some(2);
    store.tables.karma = (1..10).map(|user| (user, 0)).collect();
    let submit = Request::Submit { id: code(b"story1"), title: String::from("First") };
    store.serve(Some(1), submit, at(0)).unwrap();
    store.asked.clear();
    store
}

#[test]
fn seeing_a_story_twice_leaves_one_ribbon_with_the_later_time() {
    let mut store = store();
    let story = store.story(b"story1").id;
    store.serve(Some(4), Request::Story(code(b"story1")), at(10)).unwrap();
    let mine: Vec<Ribbon> =
        store.tables.ribbons.iter().filter(|r| r.user == 4 && r.story == story).cloned().collect();
    assert_eq!(mine.len(), 1);
    assert_eq!((mine[0].created_at, mine[0].updated_at), (at(10), at(10)));
    store.serve(Some(4), Request::Story(code(b"story1")), at(20)).unwrap();
    store.serve(Some(5), Request::Story(code(b"story1")), at(30)).unwrap();
    let mine: Vec<Ribbon> =
        store.tables.ribbons.iter().filter(|r| r.user == 4 && r.story == story).cloned().collect();
    assert_eq!(mine.len(), 1);
    assert_eq!((mine[0].created_at, mine[0].updated_at), (at(10), at(20)));
    assert_eq!(store.tables.ribbons.len(), 2);
}

#[test]
fn votes_on_a_story_add_up() {
    let mut store = store();
    let before = store.story(b"story1").clone();
    for (user, vote) in
        [(2, Vote::Up), (3, Vote::Down), (4, Vote::Up), (5, Vote::Up), (6, Vote::Down)]
    {
        store.serve(Some(user), Request::StoryVote(code(b"story1"), vote), at(1)).unwrap();
    }
    let after = store.story(b"story1");
    assert_eq!(after.upvotes, before.upvotes + 3);
    assert_eq!(after.downvotes, before.downvotes + 2);
    assert_eq!(after.hotness, before.hotness + 3.0 - 2.0);
    assert_eq!(after.hotness, -19215.5479744);
    assert_eq!(store.tables.votes.len(), 1 + 5);
}

#[test]
fn a_vote_moves_only_the_authors_karma_and_by_one() {
    let mut store = store();
    store.serve(Some(2), Request::StoryVote(code(b"story1"), Vote::Up), at(1)).unwrap();
    assert_eq!(store.karma(1), 1);
    store.serve(Some(3), Request::StoryVote(code(b"story1"), Vote::Down), at(1)).unwrap();
    store.serve(Some(4), Request::StoryVote(code(b"story1"), Vote::Down), at(1)).unwrap();
    assert_eq!(store.karma(1), -1);
    let comment = Request::Comment { id: code(b"cmt001"), story: code(b"story1"), parent: None };
    store.serve(Some(5), comment, at(2)).unwrap();
    store.serve(Some(6), Request::CommentVote(code(b"cmt001"), Vote::Up), at(3)).unwrap();
    assert_eq!(store.karma(5), 1);
    store.serve(Some(7), Request::CommentVote(code(b"cmt001"), Vote::Down), at(3)).unwrap();
    assert_eq!(store.karma(5), 0);
    assert_eq!(store.karma(1), -1);
    for user in [2, 3, 4, 6, 7, 8, 9] {
        assert_eq!(store.karma(user), 0);
    }
}

#[test]
fn nothing_but_a_vote_moves_karma() {
    let mut store = store();
    store.serve(Some(2), Request::StoryVote(code(b"story1"), Vote::Up), at(1)).unwrap();
    let before = store.tables.karma.clone();
    let requests = vec![
        Request::Frontpage,
        Request::Recent,
        Request::Comments,
        Request::Logout,
        Request::Story(code(b"story1")),
        Request::Submit { id: code(b"story2"), title: String::from("Second") },
        Request::Comment { id: code(b"cmt001"), story: code(b"story1"), parent: None },
        Request::Login,
    ];
    for request in requests {
        store.serve(Some(3), request, at(5)).unwrap();
        assert_eq!(store.tables.karma, before);
    }
    assert_eq!(store.serve(Some(3), Request::User(3), at(5)), Err(Failure::MissingRow));
    assert_eq!(store.tables.karma, before);
    store.serve(Some(77), Request::Login, at(6)).unwrap();
    assert_eq!(store.tables.karma[..before.len()].to_vec(), before);
    assert_eq!(store.tables.karma.last(), Some(&(77, 0)));
}

#[test]
fn comment_count_is_the_number_of_comments_at_any_depth() {
    let mut store = store();
    assert_eq!(store.story(b"story1").comments_count, 0);
    let posts: [(&[u8; 6], Option<&[u8; 6]>); 4] = [
        (b"cmt001", None),
        (b"cmt002", Some(b"cmt001")),
        (b"cmt003", Some(b"cmt002")),
        (b"cmt004", Some(b"nosuch")),
    ];
    for (k, (id, parent)) in posts.iter().enumerate() {
        let request =
            Request::Comment { id: code(id), story: code(b"story1"), parent: parent.map(code) };
        store.serve(Some(3), request, at(7)).unwrap();
        assert_eq!(store.story(b"story1").comments_count, k as i64 + 1);
    }
    assert_eq!(store.tables.comments.len(), 4);
    assert_eq!(store.tables.comments[1].parent, Some(store.tables.comments[0].id));
    assert_eq!(store.tables.comments[2].parent, Some(store.tables.comments[1].id));
    assert_eq!(store.tables.comments[3].parent, None);
    assert_eq!(store.story(b"story1").hotness, -19216.5479744);
}

#[test]
fn a_submitted_story_comes_back_as_submitted() {
    let mut store = store();
    let submit = Request::Submit { id: code(b"abc123"), title: String::from("T") };
    store.serve(Some(7), submit, at(1)).unwrap();
    let story = store.story(b"abc123").clone();
    assert_eq!(story.title, "T");
    assert_eq!(story.author, 7);
    assert_eq!(story.upvotes, 1);
    assert_eq!(story.downvotes, 0);
    assert_eq!(story.hotness, -19216.5479744);
    assert!(store.tables.votes.contains(&(7, u64::from(story.id), None, true)));
    assert!(store.tables.taggings.contains(&(story.id, 2)));
    store.asked.clear();
    store.serve(Some(7), Request::Story(code(b"abc123")), at(2)).unwrap();
    let asked: Vec<Kind> = store.asked.iter().map(|q| q.kind).collect();
    assert_eq!(asked[0], Kind::StoryByShortId { id: code(b"abc123") });
    assert_eq!(asked[1], Kind::UserById { user: 7 });
    assert!(asked.contains(&Kind::VoteOnStory { user: 7, story: story.id }));
    let own = Query::plain(Kind::VoteOnStory { user: 7, story: story.id }).render();
    assert_eq!(
        own.head,
        format!(
            "SELECT `votes`.* FROM `votes` WHERE `votes`.`user_id` = 7 AND \
             `votes`.`story_id` = {} AND `votes`.`comment_id` IS NULL \
             ORDER BY `votes`.`id` ASC LIMIT 1",
            story.id
        )
    );
}

fn loads_marks(kind: Kind) -> bool {
    matches!(
        kind,
        Kind::VotesOnStories { .. }
            | Kind::HiddenAmong { .. }
            | Kind::SavedAmong { .. }
            | Kind::VotesOnComments { .. }
            | Kind::VoteOnStory { .. }
            | Kind::HiddenStory { .. }
            | Kind::SavedStory { .. }
    )
}

#[test]
fn anonymous_pages_load_no_marks_and_a_viewers_front_page_excludes_what_they_hid() {
    let mut store = store();
    let pages = vec![
        Request::Frontpage,
        Request::Recent,
        Request::Comments,
        Request::Story(code(b"story1")),
    ];
    for page in pages.clone() {
        store.serve(None, page, at(1)).unwrap();
    }
    assert!(!store.asked.is_empty());
    assert!(store.asked.iter().all(|q| !loads_marks(q.kind)));
    store.asked.clear();
    for page in pages {
        store.serve(Some(3), page, at(1)).unwrap();
    }
    assert!(store.asked.iter().any(|q| loads_marks(q.kind)));
    let listing = store.asked.iter().find(|q| q.kind == Kind::Frontpage { viewer: Some(3) });
    let text = listing.unwrap().render().head;
    assert!(text.contains(
        "AND (`stories`.`id` NOT IN (SELECT `hidden_stories`.`story_id` FROM `hidden_stories` \
         WHERE `hidden_stories`.`user_id` = 3))"
    ));
}

#[test]
fn pages_leave_the_store_as_it_is() {
    let mut store = store();
    let before = store.tables.clone();
    for acting_as in [None, Some(3)] {
        for page in [Request::Frontpage, Request::Recent, Request::Comments, Request::Logout] {
            store.serve(acting_as, page, at(1)).unwrap();
        }
    }
    store.serve(None, Request::Story(code(b"story1")), at(1)).unwrap();
    assert_eq!(store.tables, before);
}

#[test]
fn a_comment_vote_without_its_story_leaves_no_trace() {
    let mut store = store();
    let comment = Request::Comment { id: code(b"cmt001"), story: code(b"story1"), parent: None };
    store.serve(Some(5), comment, at(2)).unwrap();
    store.tables.stories.clear();
    let before = store.tables.clone();
    let vote = Request::CommentVote(code(b"cmt001"), Vote::Up);
    assert_eq!(store.serve(Some(6), vote, at(3)), Err(Failure::MissingRow));
    assert_eq!(store.tables, before);
}

#[test]
fn confidence_is_the_share_of_upvotes_after_the_vote() {
    let mut store = store();
    let comment = Request::Comment { id: code(b"cmt001"), story: code(b"story1"), parent: None };
    store.serve(Some(5), comment, at(2)).unwrap();
    store.serve(Some(6), Request::CommentVote(code(b"cmt001"), Vote::Down), at(3)).unwrap();
    assert_eq!(store.tables.comments[0].confidence, 0.5);
    store.serve(Some(7), Request::CommentVote(code(b"cmt001"), Vote::Up), at(3)).unwrap();
    store.serve(Some(8), Request::CommentVote(code(b"cmt001"), Vote::Up), at(3)).unwrap();
    assert_eq!(store.tables.comments[0].confidence, 0.75);
    assert_eq!((store.tables.comments[0].upvotes, store.tables.comments[0].downvotes), (3, 1));
}

#[test]
fn every_request_ends_outside_a_transaction_and_in_few_turns() {
    let mut store = store();
    let requests = vec![
        Request::Submit { id: code(b"story2"), title: String::from("Second") },
        Request::Comment { id: code(b"cmt001"), story: code(b"story1"), parent: None },
        Request::Comment {
            id: code(b"cmt002"),
            story: code(b"story1"),
            parent: Some(code(b"cmt001")),
        },
        Request::StoryVote(code(b"story1"), Vote::Up),
        Request::CommentVote(code(b"cmt001"), Vote::Up),
        Request::Story(code(b"story1")),
        Request::Login,
    ];
    for request in requests {
        let (mut task, script) = Task::start(&Sessions::new(), Some(3), request);
        let mut script = script.unwrap();
        let mut turns = 0;
        loop {
            let mut last = Reply::Done;
            for action in &script {
                last = store.act(action);
            }
            if task.finished() {
                break;
            }
            script = task.advance_at(last, at(9)).unwrap();
            turns += 1;
        }
        assert!(turns <= 5);
        assert!(store.saved.is_none());
    }
}

#[test]
fn failed_requests_leave_no_trace() {
    let mut store = store();
    store.tables.seed_tag = None;
    let before = store.tables.clone();
    let failing = vec![
        (Some(3), Request::Story(code(b"nosuch")), Failure::MissingRow),
        (Some(3), Request::StoryVote(code(b"nosuch"), Vote::Up), Failure::MissingRow),
        (Some(3), Request::CommentVote(code(b"nosuch"), Vote::Down), Failure::MissingRow),
        (
            Some(3),
            Request::Comment { id: code(b"cmt009"), story: code(b"nosuch"), parent: None },
            Failure::MissingRow,
        ),
        (
            Some(3),
            Request::Submit { id: code(b"story9"), title: String::from("Ninth") },
            Failure::MissingRow,
        ),
        (None, Request::Login, Failure::NoActingUser),
        (None, Request::StoryVote(code(b"story1"), Vote::Up), Failure::NoActingUser),
        (None, Request::User(5), Failure::MissingRow),
    ];
    for (acting_as, request, failure) in failing {
        assert_eq!(store.serve(acting_as, request, at(4)), Err(failure));
        assert_eq!(store.tables, before);
    }
}
