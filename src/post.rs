//! Blog posts: the record, its sparse patch, identifier allocation with
//! collision retry, and page windows over creation order.
use vstd::prelude::*;

use crate::config::{opt_view, pick};
use crate::error::AccessError;
use crate::nano_id::{all_id_symbols, nanoid};

verus! {

/// Number of symbols in a post identifier.
pub const POST_ID_LEN: usize = 6;

/// Allocation attempts made before giving up on finding a free identifier.
pub const MAX_CREATE_ATTEMPTS: u32 = 20;

/// Store reply of the create transaction when the record was inserted.
pub const REPLY_CREATED: u64 = 1;

/// Store reply of the create transaction when the identifier was taken.
pub const REPLY_TAKEN: u64 = 0;

/// Page query, oldest first.
pub const PAGE_QUERY_ASC: &'static str = "SELECT * FROM post ORDER BY created_time ASC LIMIT $limit START $start;";

/// Page query, newest first.
pub const PAGE_QUERY_DESC: &'static str = "SELECT * FROM post ORDER BY created_time DESC LIMIT $limit START $start;";

/// The create transaction. With `$id` free it inserts the post, stamped with
/// the store's clock, and returns `1`; with `$id` taken it writes nothing and
/// returns `0`. Both happen inside one transaction, so no two creators can
/// claim one identifier.
pub const CREATE_POST_TX: &'static str = "BEGIN TRANSACTION;
IF record::exists(type::thing(\"post\", $id)) {
    RETURN 0;
} ELSE {
    CREATE type::thing(\"post\", $id) SET created_time = time::now(), title = $title, content = $content, draft = $draft, pinned = $pinned;
    RETURN 1;
};
COMMIT TRANSACTION;";

/// A point in time as the store keeps it: seconds since the Unix epoch and
/// the nanoseconds within that second.
#[derive(Clone, Copy, Debug, PartialEq, Eq, Structural)]
pub struct Timestamp {
    pub secs: i64,
    pub nanos: u32,
}

impl Timestamp {
    /// Well-formed: the sub-second part is below one second.
    pub open spec fn wf(self) -> bool {
        self.nanos < 1_000_000_000
    }

    /// Nanoseconds since the epoch.
    pub open spec fn total_nanos(self) -> int {
        self.secs * 1_000_000_000 + self.nanos
    }

    /// Whether `self` comes strictly before `other`.
    pub fn before(&self, other: &Timestamp) -> (r: bool)
        requires
            self.wf(),
            other.wf(),
        ensures
            r == (self.total_nanos() < other.total_nanos()),
    {
        self.secs < other.secs || (self.secs == other.secs && self.nanos < other.nanos)
    }
}

/// A post as stored. `id` never changes after creation and `created_time`
/// is assigned by the store.
pub struct PostRecord {
    pub title: String,
    pub content: String,
    pub created_time: Timestamp,
    pub id: String,
    pub draft: bool,
    pub pinned: bool,
}

/// Mathematical value of a `PostRecord`.
pub struct PostView {
    pub title: Seq<char>,
    pub content: Seq<char>,
    pub created_time: Timestamp,
    pub id: Seq<char>,
    pub draft: bool,
    pub pinned: bool,
}

impl View for PostRecord {
    type V = PostView;

    open spec fn view(&self) -> PostView {
        PostView {
            title: self.title@,
            content: self.content@,
            created_time: self.created_time,
            id: self.id@,
            draft: self.draft,
            pinned: self.pinned,
        }
    }
}

/// A sparse update of a `PostRecord`: each field is either set or absent.
pub struct PostRecordOption {
    pub title: Option<String>,
    pub content: Option<String>,
    pub created_time: Option<Timestamp>,
    pub id: Option<String>,
    pub draft: Option<bool>,
    pub pinned: Option<bool>,
}

/// Mathematical value of a `PostRecordOption`.
pub struct PostPatchView {
    pub title: Option<Seq<char>>,
    pub content: Option<Seq<char>>,
    pub created_time: Option<Timestamp>,
    pub id: Option<Seq<char>>,
    pub draft: Option<bool>,
    pub pinned: Option<bool>,
}

impl View for PostRecordOption {
    type V = PostPatchView;

    open spec fn view(&self) -> PostPatchView {
        PostPatchView {
            title: opt_view(self.title),
            content: opt_view(self.content),
            created_time: self.created_time,
            id: opt_view(self.id),
            draft: self.draft,
            pinned: self.pinned,
        }
    }
}

/// The stored post after the store merges `p` into `r`.
pub open spec fn merge_post(r: PostView, p: PostPatchView) -> PostView {
    PostView {
        title: pick(p.title, r.title),
        content: pick(p.content, r.content),
        created_time: pick(p.created_time, r.created_time),
        id: pick(p.id, r.id),
        draft: pick(p.draft, r.draft),
        pinned: pick(p.pinned, r.pinned),
    }
}

impl PostRecordOption {
    /// A patch that sets nothing.
    pub fn empty() -> (p: PostRecordOption)
        ensures
            p@ == (PostPatchView {
                title: None,
                content: None,
                created_time: None,
                id: None,
                draft: None,
                pinned: None,
            }),
    {
        PostRecordOption {
            title: None,
            content: None,
            created_time: None,
            id: None,
            draft: None,
            pinned: None,
        }
    }

    /// The patch as it is sent to the store: the identifier is dropped, so an
    /// update can never change a post's identity.
    pub fn without_id(self) -> (p: PostRecordOption)
        ensures
            p@ == (PostPatchView { id: None, ..self@ }),
    {
        PostRecordOption { id: None, ..self }
    }
}

/// Whether some stored post carries identifier `id`.
pub open spec fn has_id(posts: Seq<PostView>, id: Seq<char>) -> bool {
    exists|i: int| 0 <= i < posts.len() && (#[trigger] posts[i]).id == id
}

/// No two stored posts share an identifier.
pub open spec fn ids_unique(posts: Seq<PostView>) -> bool {
    forall|i: int, j: int|
        0 <= i < posts.len() && 0 <= j < posts.len() && i != j ==> (#[trigger] posts[i]).id
            != (#[trigger] posts[j]).id
}

/// The post stored under `id`, if any.
pub open spec fn find_post(posts: Seq<PostView>, id: Seq<char>) -> Option<PostView> {
    if has_id(posts, id) {
        Some(posts[choose|i: int| 0 <= i < posts.len() && (#[trigger] posts[i]).id == id])
    } else {
        None
    }
}

/// The create transaction run atomically by the store, on the posts in
/// insertion order: where `id` is free the post is appended with that
/// identifier and the store's current time, and the reply is
/// `REPLY_CREATED`; where it is taken nothing is written and the reply is
/// `REPLY_TAKEN`.
pub open spec fn create_tx(posts: Seq<PostView>, id: Seq<char>, fields: PostView, now: Timestamp) -> (
    Seq<PostView>,
    u64,
) {
    if has_id(posts, id) {
        (posts, REPLY_TAKEN)
    } else {
        (posts.push(PostView { id, created_time: now, ..fields }), REPLY_CREATED)
    }
}

/// One create transaction: candidate identifier, submitted fields and the
/// store's clock reading.
pub struct CreateAttempt {
    pub id: Seq<char>,
    pub fields: PostView,
    pub now: Timestamp,
}

/// The posts after running `attempts` one after another, as the store
/// serialises concurrent transactions.
pub open spec fn run_creates(posts: Seq<PostView>, attempts: Seq<CreateAttempt>) -> Seq<PostView>
    decreases attempts.len(),
{
    if attempts.len() == 0 {
        posts
    } else {
        let a = attempts.last();
        create_tx(run_creates(posts, attempts.drop_last()), a.id, a.fields, a.now).0
    }
}

/// How many of `attempts` the store answered with `REPLY_CREATED`.
pub open spec fn count_created(posts: Seq<PostView>, attempts: Seq<CreateAttempt>) -> nat
    decreases attempts.len(),
{
    if attempts.len() == 0 {
        0
    } else {
        let a = attempts.last();
        let before = run_creates(posts, attempts.drop_last());
        count_created(posts, attempts.drop_last()) + if create_tx(before, a.id, a.fields, a.now).1
            == REPLY_CREATED {
            1nat
        } else {
            0nat
        }
    }
}

/// A create transaction keeps identifiers unique. It replies `REPLY_CREATED`
/// exactly when `id` is free, and then adds exactly one post, under `id`;
/// otherwise it changes nothing.
pub proof fn lemma_create_tx(posts: Seq<PostView>, id: Seq<char>, fields: PostView, now: Timestamp)
    requires
        ids_unique(posts),
    ensures
        ids_unique(create_tx(posts, id, fields, now).0),
        create_tx(posts, id, fields, now).1 == REPLY_CREATED <==> !has_id(posts, id),
        create_tx(posts, id, fields, now).1 == REPLY_CREATED ==> !has_id(posts, id) && create_tx(
            posts,
            id,
            fields,
            now,
        ).0.len() == posts.len() + 1 && create_tx(posts, id, fields, now).0.last().id == id,
        create_tx(posts, id, fields, now).1 != REPLY_CREATED ==> create_tx(posts, id, fields, now).0
            == posts,
{
    if !has_id(posts, id) {
        let next = create_tx(posts, id, fields, now).0;
        assert forall|i: int, j: int|
            0 <= i < next.len() && 0 <= j < next.len() && i != j implies (#[trigger] next[i]).id
            != (#[trigger] next[j]).id by {
            if i == posts.len() {
                assert(posts[j].id == next[j].id);
            } else if j == posts.len() {
                assert(posts[i].id == next[i].id);
            }
        }
    }
}

/// Any interleaving of create transactions, however many creators run at
/// once, leaves no two posts sharing an identifier, and each transaction that
/// reported success added exactly one post.
pub proof fn lemma_concurrent_creates(posts: Seq<PostView>, attempts: Seq<CreateAttempt>)
    requires
        ids_unique(posts),
    ensures
        ids_unique(run_creates(posts, attempts)),
        run_creates(posts, attempts).len() == posts.len() + count_created(posts, attempts),
    decreases attempts.len(),
{
    if attempts.len() > 0 {
        let a = attempts.last();
        lemma_concurrent_creates(posts, attempts.drop_last());
        lemma_create_tx(run_creates(posts, attempts.drop_last()), a.id, a.fields, a.now);
    }
}

/// The posts after the store deletes the one under `id`.
pub open spec fn delete_tx(posts: Seq<PostView>, id: Seq<char>) -> Seq<PostView> {
    posts.filter(|p: PostView| p.id != id)
}

/// The update transaction: where a post is stored under `id` it is replaced by
/// the merge of the patch, with the identifier stripped, and returned; where
/// none is, nothing is written and `None` comes back.
pub open spec fn update_tx(posts: Seq<PostView>, id: Seq<char>, patch: PostPatchView) -> (
    Seq<PostView>,
    Option<PostView>,
) {
    if has_id(posts, id) {
        let i = choose|i: int| 0 <= i < posts.len() && (#[trigger] posts[i]).id == id;
        let updated = merge_post(posts[i], PostPatchView { id: None, ..patch });
        (posts.update(i, updated), Some(updated))
    } else {
        (posts, None)
    }
}

/// A deleted post reads back as absent.
pub proof fn lemma_delete_then_read(posts: Seq<PostView>, id: Seq<char>)
    ensures
        find_post(delete_tx(posts, id), id) is None,
{
    let pred = |p: PostView| p.id != id;
    let rest = posts.filter(pred);
    broadcast use vstd::seq_lib::group_filter_ensures;

    assert(!has_id(rest, id)) by {
        if has_id(rest, id) {
            let i = choose|i: int| 0 <= i < rest.len() && (#[trigger] rest[i]).id == id;
            assert(pred(rest[i]));
        }
    }
}

/// Updating a post that does not exist reports it absent and leaves every
/// stored post as it was.
pub proof fn lemma_update_missing(posts: Seq<PostView>, id: Seq<char>, patch: PostPatchView)
    requires
        find_post(posts, id) is None,
    ensures
        update_tx(posts, id, patch) == (posts, None::<PostView>),
{
}

/// An update never changes the identifier of the post it applies to, and
/// leaves every field the patch does not set as it was.
pub proof fn lemma_update_keeps_unset(posts: Seq<PostView>, id: Seq<char>, patch: PostPatchView)
    requires
        has_id(posts, id),
    ensures
        update_tx(posts, id, patch).1 matches Some(u) && u.id == id && (patch.title is None
            ==> u.title == find_post(posts, id)->Some_0.title) && (patch.content is None
            ==> u.content == find_post(posts, id)->Some_0.content) && (patch.created_time is None
            ==> u.created_time == find_post(posts, id)->Some_0.created_time) && (patch.draft is None
            ==> u.draft == find_post(posts, id)->Some_0.draft) && (patch.pinned is None
            ==> u.pinned == find_post(posts, id)->Some_0.pinned),
{
}

/// The result of an update, given the record the store returned.
pub fn update_result(returned: Option<PostRecord>) -> (r: Result<(), AccessError>)
    ensures
        returned is None <==> r == Err::<(), AccessError>(AccessError::NotFound),
        returned is Some <==> r is Ok,
{
    match returned {
        Some(_) => Ok(()),
        None => Err(AccessError::NotFound),
    }
}

/// The posts in creation order, oldest first where `ascending`, newest first
/// otherwise. `posts` is in insertion order, which the store's clock makes
/// creation order.
pub open spec fn by_creation(posts: Seq<PostView>, ascending: bool) -> Seq<PostView> {
    if ascending {
        posts
    } else {
        posts.reverse()
    }
}

/// The smaller of two integers.
pub open spec fn min_int(a: int, b: int) -> int {
    if a <= b {
        a
    } else {
        b
    }
}

/// The slice of page `page` (numbered from zero) of `page_size` posts.
pub struct PageWindow {
    /// Number of posts skipped.
    pub start: usize,
    /// Largest number of posts returned.
    pub limit: usize,
}

/// The rows of `s` that a query with `start` and `limit` returns.
pub open spec fn page_of<A>(s: Seq<A>, start: int, limit: int) -> Seq<A> {
    s.subrange(min_int(start, s.len() as int), min_int(start + limit, s.len() as int))
}

impl PageWindow {
    /// The window of page `page` of `page_size` posts: it skips
    /// `page * page_size` posts. `None` where that count does not fit in a
    /// `usize`.
    pub fn new(page: usize, page_size: usize) -> (r: Option<PageWindow>)
        ensures
            r is Some <==> page * page_size <= usize::MAX,
            r matches Some(w) ==> w.start == page * page_size && w.limit == page_size,
    {
        match page.checked_mul(page_size) {
            Some(start) => Some(PageWindow { start, limit: page_size }),
            None => None,
        }
    }

    /// The positions `from..to` of the rows returned out of `total` ordered rows.
    pub fn rows(&self, total: usize) -> (r: (usize, usize))
        ensures
            r.0 == min_int(self.start as int, total as int),
            r.1 == min_int(self.start + self.limit, total as int),
    {
        let from = if self.start <= total {
            self.start
        } else {
            total
        };
        let to = if self.limit <= total - from {
            from + self.limit
        } else {
            total
        };
        (from, to)
    }
}

/// Text of the page query, ordered oldest first where `ascending`. The store
/// binds `$limit` and `$start` from a `PageWindow`.
pub fn page_query(ascending: bool) -> (r: &'static str)
    ensures
        r@ == (if ascending {
            PAGE_QUERY_ASC@
        } else {
            PAGE_QUERY_DESC@
        }),
{
    if ascending {
        PAGE_QUERY_ASC
    } else {
        PAGE_QUERY_DESC
    }
}

/// Whether the create transaction's reply says the post was inserted.
pub fn is_created(reply: Option<u64>) -> (r: bool)
    ensures
        r == (reply == Some(REPLY_CREATED)),
{
    match reply {
        Some(v) => v == REPLY_CREATED,
        None => false,
    }
}

/// Progress of allocating an identifier for a new post: one candidate per
/// attempt, at most `MAX_CREATE_ATTEMPTS` attempts.
pub struct IdAllocation {
    pub attempts: u32,
}

impl IdAllocation {
    /// An allocation that has made no attempt yet.
    pub fn new() -> (r: IdAllocation)
        ensures
            r.attempts == 0,
    {
        IdAllocation { attempts: 0 }
    }

    /// Takes a freshly drawn candidate, or gives up where the attempts are
    /// spent or no candidate could be drawn.
    pub fn accept_candidate(&mut self, drawn: Option<String>) -> (r: Result<String, AccessError>)
        ensures
            old(self).attempts >= MAX_CREATE_ATTEMPTS ==> r == Err::<String, AccessError>(
                AccessError::Exhausted,
            ) && final(self).attempts == old(self).attempts,
            old(self).attempts < MAX_CREATE_ATTEMPTS ==> final(self).attempts == old(self).attempts
                + 1,
            old(self).attempts < MAX_CREATE_ATTEMPTS && drawn is None ==> r == Err::<
                String,
                AccessError,
            >(AccessError::Exhausted),
            old(self).attempts < MAX_CREATE_ATTEMPTS && drawn is Some ==> r == Ok::<
                String,
                AccessError,
            >(drawn->Some_0),
    {
        if self.attempts >= MAX_CREATE_ATTEMPTS {
            return Err(AccessError::Exhausted);
        }
        self.attempts = self.attempts + 1;
        match drawn {
            Some(id) => Ok(id),
            None => Err(AccessError::Exhausted),
        }
    }

    /// The next candidate identifier to try, or `Exhausted` once
    /// `MAX_CREATE_ATTEMPTS` candidates have been handed out.
    pub fn next_candidate(&mut self) -> (r: Result<String, AccessError>)
        ensures
            old(self).attempts >= MAX_CREATE_ATTEMPTS ==> r == Err::<String, AccessError>(
                AccessError::Exhausted,
            ) && final(self).attempts == old(self).attempts,
            old(self).attempts < MAX_CREATE_ATTEMPTS ==> final(self).attempts == old(self).attempts
                + 1,
            r matches Ok(id) ==> id@.len() == POST_ID_LEN && all_id_symbols(id@),
            r matches Err(e) ==> e == AccessError::Exhausted,
    {
        if self.attempts >= MAX_CREATE_ATTEMPTS {
            return Err(AccessError::Exhausted);
        }
        let drawn = nanoid(POST_ID_LEN);
        self.accept_candidate(drawn)
    }

    /// The outcome of trying `candidate`: the allocated identifier where the
    /// store inserted the post, `None` where the identifier was taken and a
    /// new candidate is needed.
    pub fn on_reply(&self, candidate: String, reply: Option<u64>) -> (r: Option<String>)
        ensures
            reply == Some(REPLY_CREATED) ==> r == Some(candidate),
            reply != Some(REPLY_CREATED) ==> r is None,
    {
        if is_created(reply) {
            Some(candidate)
        } else {
            None
        }
    }
}

} // verus!
