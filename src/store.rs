//! The transaction store: an append-mostly log of purchase records with
//! lookup, status updates and backward pagination per player.
use vstd::prelude::*;
use crate::errors::AppError;
use crate::ids::Uid;
use crate::status::TransactionStatus;
use crate::transaction::{NewTransaction, Transaction, total_fits};

verus! {

/// Smallest and largest page size.
pub const MIN_PAGE: i32 = 1;

pub const MAX_PAGE: i32 = 1000;

/// Relies on `chrono::Utc::now`: the current time in microseconds since the
/// Unix epoch. Nothing is promised of its value.
#[verifier::external_body]
fn now_micros() -> (r: i64) {
    chrono::Utc::now().timestamp_micros()
}

/// Identifiers are unique, every record keeps its invariants, and records
/// stand in order of creation time.
pub open spec fn records_wf(recs: Seq<Transaction>) -> bool {
    &&& forall|i: int, j: int|
        0 <= i < recs.len() && 0 <= j < recs.len() && i != j ==> #[trigger] recs[i].transaction_id
            != #[trigger] recs[j].transaction_id
    &&& forall|i: int| 0 <= i < recs.len() ==> #[trigger] recs[i].wf()
    &&& forall|i: int, j: int|
        #![trigger recs[i], recs[j]]
        0 <= i < j < recs.len() ==> recs[i].created_at <= recs[j].created_at
}

pub open spec fn holds_id(recs: Seq<Transaction>, id: Uid) -> bool {
    exists|k: int| 0 <= k < recs.len() && #[trigger] recs[k].transaction_id == id
}

/// Where the record with this identifier stands, or -1.
pub open spec fn position_of(recs: Seq<Transaction>, id: Uid) -> int {
    if holds_id(recs, id) {
        choose|k: int| 0 <= k < recs.len() && #[trigger] recs[k].transaction_id == id
    } else {
        -1
    }
}

pub open spec fn lookup(recs: Seq<Transaction>, id: Uid) -> Option<Transaction> {
    if holds_id(recs, id) {
        Some(recs[position_of(recs, id)])
    } else {
        None
    }
}

/// The record that `create` stores for `n` at time `at`.
pub open spec fn stored(n: NewTransaction, at: i64) -> Transaction {
    Transaction {
        transaction_id: n.transaction_id,
        player_id: n.player_id,
        item_id: n.item_id,
        item_name: n.item_name,
        price_cents: n.price_cents,
        currency: n.currency,
        quantity: n.quantity,
        status: TransactionStatus::Pending,
        metadata: n.metadata,
        processor_id: None,
        created_at: at,
        updated_at: at,
    }
}

/// `rec` with a new status, processor reference and update time.
pub open spec fn restamped(
    rec: Transaction,
    status: TransactionStatus,
    processor_id: Option<String>,
    at: i64,
) -> Transaction {
    Transaction { status, processor_id, updated_at: at, ..rec }
}

pub open spec fn clamp_page(limit: int) -> int {
    if limit < MIN_PAGE {
        MIN_PAGE as int
    } else if limit > MAX_PAGE {
        MAX_PAGE as int
    } else {
        limit
    }
}

/// Records below this position are older than the cursor. An unknown
/// cursor has nothing older than it.
pub open spec fn cursor_bound(recs: Seq<Transaction>, cursor: Option<Uid>) -> int {
    match cursor {
        None => recs.len() as int,
        Some(c) => if holds_id(recs, c) {
            position_of(recs, c)
        } else {
            0
        },
    }
}

/// Positions in `[lo, hi)` of the player's records, newest first.
pub open spec fn player_positions(recs: Seq<Transaction>, player: Uid, lo: int, hi: int) -> Seq<
    int,
>
    decreases hi - lo,
{
    if hi <= lo {
        Seq::empty()
    } else {
        let rest = player_positions(recs, player, lo, hi - 1);
        if recs[hi - 1].player_id == player {
            seq![hi - 1] + rest
        } else {
            rest
        }
    }
}

/// Positions of one page: the newest `limit` of the player's records that
/// are older than the cursor.
pub open spec fn page_positions(
    recs: Seq<Transaction>,
    player: Uid,
    limit: int,
    cursor: Option<Uid>,
) -> Seq<int> {
    let all = player_positions(recs, player, 0, cursor_bound(recs, cursor));
    if all.len() <= limit {
        all
    } else {
        all.subrange(0, limit)
    }
}

pub open spec fn page_of(
    recs: Seq<Transaction>,
    player: Uid,
    limit: int,
    cursor: Option<Uid>,
) -> Seq<Transaction> {
    page_positions(recs, player, limit, cursor).map_values(|k: int| recs[k])
}

proof fn lemma_position_of(recs: Seq<Transaction>, k: int)
    requires
        records_wf(recs),
        0 <= k < recs.len(),
    ensures
        holds_id(recs, recs[k].transaction_id),
        position_of(recs, recs[k].transaction_id) == k,
{
    assert(recs[k].transaction_id == recs[k].transaction_id);
    let p = position_of(recs, recs[k].transaction_id);
    assert(recs[p].transaction_id == recs[k].transaction_id);
}

proof fn lemma_positions_shape(recs: Seq<Transaction>, player: Uid, lo: int, hi: int)
    requires
        0 <= lo,
        hi <= recs.len(),
    ensures
        forall|j: int|
            0 <= j < player_positions(recs, player, lo, hi).len() ==> {
                let p = #[trigger] player_positions(recs, player, lo, hi)[j];
                lo <= p < hi && recs[p].player_id == player
            },
        forall|a: int, b: int|
            0 <= a < b < player_positions(recs, player, lo, hi).len() ==> #[trigger] player_positions(
                recs,
                player,
                lo,
                hi,
            )[a] > #[trigger] player_positions(recs, player, lo, hi)[b],
    decreases hi - lo,
{
    if hi > lo {
        lemma_positions_shape(recs, player, lo, hi - 1);
    }
}

proof fn lemma_positions_split(recs: Seq<Transaction>, player: Uid, lo: int, mid: int, hi: int)
    requires
        lo <= mid <= hi,
    ensures
        player_positions(recs, player, lo, hi) == player_positions(recs, player, mid, hi)
            + player_positions(recs, player, lo, mid),
    decreases hi - mid,
{
    if hi > mid {
        lemma_positions_split(recs, player, lo, mid, hi - 1);
        let rest_all = player_positions(recs, player, lo, hi - 1);
        let rest_top = player_positions(recs, player, mid, hi - 1);
        let bottom = player_positions(recs, player, lo, mid);
        if recs[hi - 1].player_id == player {
            assert(seq![hi - 1] + rest_all =~= (seq![hi - 1] + rest_top) + bottom);
        }
    } else {
        assert(player_positions(recs, player, lo, hi) =~= Seq::<int>::empty() + player_positions(
            recs,
            player,
            lo,
            mid,
        ));
    }
}

/// Reading a record right after it was created gives back what was written:
/// the purchaser's fields unchanged, pending, without a processor reference,
/// created and updated at the same moment.
pub proof fn lemma_create_then_get(recs: Seq<Transaction>, n: NewTransaction, at: i64)
    requires
        !holds_id(recs, n.transaction_id),
    ensures
        lookup(recs.push(stored(n, at)), n.transaction_id) == Some(stored(n, at)),
        stored(n, at).carries(n),
        stored(n, at).status is Pending,
        stored(n, at).processor_id is None,
        stored(n, at).created_at == stored(n, at).updated_at,
{
    let after = recs.push(stored(n, at));
    let last = recs.len() as int;
    assert(after[last].transaction_id == n.transaction_id);
    let k = position_of(after, n.transaction_id);
    if k != last {
        assert(recs[k].transaction_id == n.transaction_id);
    }
}

/// Walking a player's history page by page, with the last record of each
/// page as the next cursor, never meets a record twice and ends: every record
/// of a page lies below the cursor's bound and at or above the next cursor's
/// bound, the bound drops with every non-empty page, and at bound zero the
/// page is empty.
pub proof fn lemma_pages_move_back(
    recs: Seq<Transaction>,
    player: Uid,
    limit: int,
    cursor: Option<Uid>,
)
    requires
        records_wf(recs),
        1 <= limit,
    ensures
        ({
            let page = page_of(recs, player, limit, cursor);
            let next = Some(page.last().transaction_id);
            page.len() > 0 ==> {
                &&& cursor_bound(recs, next) < cursor_bound(recs, cursor)
                &&& forall|j: int|
                    0 <= j < page.len() ==> cursor_bound(recs, next) <= position_of(
                        recs,
                        #[trigger] page[j].transaction_id,
                    ) < cursor_bound(recs, cursor)
                &&& forall|j: int|
                    0 <= j < page_of(recs, player, limit, next).len() ==> position_of(
                        recs,
                        #[trigger] page_of(recs, player, limit, next)[j].transaction_id,
                    ) < cursor_bound(recs, next)
            }
        }),
        cursor_bound(recs, cursor) <= 0 ==> page_of(recs, player, limit, cursor).len() == 0,
{
    let hi = cursor_bound(recs, cursor);
    assert(0 <= hi <= recs.len()) by {
        if let Some(c) = cursor {
            if holds_id(recs, c) {
                let p = position_of(recs, c);
                assert(0 <= p < recs.len() && recs[p].transaction_id == c);
            }
        }
    }
    let all = player_positions(recs, player, 0, hi);
    lemma_positions_shape(recs, player, 0, hi);
    let pos = page_positions(recs, player, limit, cursor);
    let page = page_of(recs, player, limit, cursor);
    assert(forall|j: int| 0 <= j < pos.len() ==> #[trigger] pos[j] == all[j]);
    if page.len() > 0 {
        let lastp = pos[pos.len() - 1];
        lemma_position_of(recs, lastp);
        let next = Some(page.last().transaction_id);
        assert(page.last() == recs[lastp]);
        assert(cursor_bound(recs, next) == lastp);
        assert forall|j: int| 0 <= j < page.len() implies cursor_bound(recs, next) <= position_of(
            recs,
            #[trigger] page[j].transaction_id,
        ) < cursor_bound(recs, cursor) by {
            lemma_position_of(recs, pos[j]);
            assert(page[j] == recs[pos[j]]);
            if j < pos.len() - 1 {
                assert(all[j] > all[pos.len() - 1]);
            }
        }
        let npos = page_positions(recs, player, limit, next);
        let nall = player_positions(recs, player, 0, lastp);
        lemma_positions_shape(recs, player, 0, lastp);
        assert(forall|j: int| 0 <= j < npos.len() ==> #[trigger] npos[j] == nall[j]);
        assert forall|j: int| 0 <= j < page_of(recs, player, limit, next).len() implies position_of(
            recs,
            #[trigger] page_of(recs, player, limit, next)[j].transaction_id,
        ) < cursor_bound(recs, next) by {
            lemma_position_of(recs, npos[j]);
            assert(page_of(recs, player, limit, next)[j] == recs[npos[j]]);
        }
    }
    if hi <= 0 {
        assert(all.len() == 0);
    }
}

pub struct TransactionStore {
    records: Vec<Transaction>,
}

impl View for TransactionStore {
    type V = Seq<Transaction>;

    closed spec fn view(&self) -> Seq<Transaction> {
        self.records@
    }
}

/// A page size in `[1, 1000]`, whatever the caller asked for.
pub fn clamp_limit(limit: i32) -> (r: i32)
    ensures
        r == clamp_page(limit as int),
        MIN_PAGE <= r <= MAX_PAGE,
{
    if limit < MIN_PAGE {
        MIN_PAGE
    } else if limit > MAX_PAGE {
        MAX_PAGE
    } else {
        limit
    }
}

impl TransactionStore {
    pub open spec fn wf(&self) -> bool {
        records_wf(self@)
    }

    pub fn new() -> (r: TransactionStore)
        ensures
            r.wf(),
            r@.len() == 0,
    {
        TransactionStore { records: Vec::new() }
    }

    pub fn len(&self) -> (r: usize)
        ensures
            r == self@.len(),
    {
        self.records.len()
    }

    fn find(&self, id: Uid) -> (r: Option<usize>)
        requires
            self.wf(),
        ensures
            r matches Some(k) ==> holds_id(self@, id) && k == position_of(self@, id),
            r is None ==> !holds_id(self@, id),
    {
        let mut i: usize = 0;
        while i < self.records.len()
            invariant
                records_wf(self.records@),
                0 <= i <= self.records@.len(),
                forall|k: int| 0 <= k < i ==> #[trigger] self.records@[k].transaction_id != id,
            decreases self.records@.len() - i,
        {
            if self.records[i].transaction_id == id {
                proof {
                    lemma_position_of(self.records@, i as int);
                }
                return Some(i);
            }
            i += 1;
        }
        None
    }

    /// Looks a record up; absence is an ordinary answer.
    pub fn get(&self, id: Uid) -> (r: Option<Transaction>)
        requires
            self.wf(),
        ensures
            r == lookup(self@, id),
    {
        match self.find(id) {
            Some(k) => Some(self.records[k].clone()),
            None => None,
        }
    }

    /// Stores a new pending record stamped with the current time, or with the
    /// newest record's creation time if the clock reads earlier. A duplicate
    /// identifier is a conflict and an overflowing total a validation error;
    /// neither changes the store.
    pub fn create(&mut self, n: NewTransaction) -> (r: Result<Transaction, AppError>)
        requires
            old(self).wf(),
        ensures
            final(self).wf(),
            holds_id(old(self)@, n.transaction_id) ==> (r matches Err(AppError::Conflict(_))
                && final(self)@ == old(self)@),
            !holds_id(old(self)@, n.transaction_id) && !total_fits(n.price_cents, n.quantity) ==> (
            r matches Err(AppError::Validation(_)) && final(self)@ == old(self)@),
            !holds_id(old(self)@, n.transaction_id) && total_fits(n.price_cents, n.quantity) ==> (
            r matches Ok(t) && t == stored(n, t.created_at) && final(self)@ == old(self)@.push(t)
                && (old(self)@.len() > 0 ==> t.created_at >= old(self)@.last().created_at)),
    {
        if self.find(n.transaction_id).is_some() {
            return Err(AppError::Conflict(String::from_str("Duplicate transaction identifier")));
        }
        if n.price_cents.checked_mul(n.quantity as i64).is_none() {
            return Err(AppError::Validation(String::from_str("Total price overflows")));
        }
        let clock = now_micros();
        let len = self.records.len();
        let now = if len > 0 && self.records[len - 1].created_at > clock {
            self.records[len - 1].created_at
        } else {
            clock
        };
        let t = Transaction {
            transaction_id: n.transaction_id,
            player_id: n.player_id,
            item_id: n.item_id,
            item_name: n.item_name,
            price_cents: n.price_cents,
            currency: n.currency,
            quantity: n.quantity,
            status: TransactionStatus::Pending,
            metadata: n.metadata,
            processor_id: None,
            created_at: now,
            updated_at: now,
        };
        let copy = t.clone();
        self.records.push(t);
        proof {
            let recs = self.records@;
            assert forall|i: int, j: int|
                0 <= i < recs.len() && 0 <= j < recs.len() && i != j implies #[trigger] recs[i].transaction_id
                != #[trigger] recs[j].transaction_id by {
                if i == recs.len() - 1 {
                    assert(old(self)@[j].transaction_id == recs[j].transaction_id);
                } else if j == recs.len() - 1 {
                    assert(old(self)@[i].transaction_id == recs[i].transaction_id);
                }
            }
            assert forall|i: int| 0 <= i < recs.len() implies #[trigger] recs[i].wf() by {
                if i < recs.len() - 1 {
                    assert(recs[i] == old(self)@[i]);
                }
            }
            assert forall|i: int, j: int|
                #![trigger recs[i], recs[j]]
                0 <= i < j < recs.len() implies recs[i].created_at <= recs[j].created_at by {
                assert(recs[i] == old(self)@[i]);
                if j < recs.len() - 1 {
                    assert(recs[j] == old(self)@[j]);
                } else if i < len - 1 {
                    assert(old(self)@[i].created_at <= old(self)@[len - 1].created_at);
                }
            }
        }
        Ok(copy)
    }

    /// Sets status and processor reference in place and refreshes the update
    /// time, which never moves backwards. An unknown identifier is reported
    /// as not found.
    pub fn update_status(
        &mut self,
        id: Uid,
        status: TransactionStatus,
        processor_id: Option<String>,
    ) -> (r: Result<Transaction, AppError>)
        requires
            old(self).wf(),
        ensures
            final(self).wf(),
            !holds_id(old(self)@, id) ==> (r matches Err(AppError::NotFound(_)) && final(self)@
                == old(self)@),
            holds_id(old(self)@, id) ==> (r matches Ok(t) && {
                let k = position_of(old(self)@, id);
                &&& t == restamped(old(self)@[k], status, processor_id, t.updated_at)
                &&& t.updated_at >= old(self)@[k].updated_at
                &&& final(self)@ == old(self)@.update(k, t)
            }),
    {
        let k = match self.find(id) {
            Some(k) => k,
            None => {
                return Err(AppError::NotFound(String::from_str("Transaction not found")));
            },
        };
        let now = now_micros();
        let prev = self.records[k].clone();
        let at = if now > prev.updated_at {
            now
        } else {
            prev.updated_at
        };
        let t = Transaction { status, processor_id, updated_at: at, ..prev };
        let copy = t.clone();
        self.records.set(k, t);
        proof {
            let recs = self.records@;
            assert forall|i: int, j: int|
                0 <= i < recs.len() && 0 <= j < recs.len() && i != j implies #[trigger] recs[i].transaction_id
                != #[trigger] recs[j].transaction_id by {
                assert(recs[i].transaction_id == old(self)@[i].transaction_id);
                assert(recs[j].transaction_id == old(self)@[j].transaction_id);
            }
            assert forall|i: int| 0 <= i < recs.len() implies #[trigger] recs[i].wf() by {
                if i != k {
                    assert(recs[i] == old(self)@[i]);
                } else {
                    assert(old(self)@[i].wf());
                }
            }
            assert forall|i: int, j: int|
                #![trigger recs[i], recs[j]]
                0 <= i < j < recs.len() implies recs[i].created_at <= recs[j].created_at by {
                assert(recs[i].created_at == old(self)@[i].created_at);
                assert(recs[j].created_at == old(self)@[j].created_at);
                assert(old(self)@[i].created_at <= old(self)@[j].created_at);
            }
        }
        Ok(copy)
    }

    /// One page of a player's history, newest first: at most
    /// `clamp_limit(limit)` records, all older than `cursor` when one is given.
    pub fn list_for_player(&self, player: Uid, limit: i32, cursor: Option<Uid>) -> (r: Vec<
        Transaction,
    >)
        requires
            self.wf(),
        ensures
            r@ == page_of(self@, player, clamp_page(limit as int), cursor),
            forall|a: int, b: int|
                #![trigger r@[a], r@[b]]
                0 <= a < b < r@.len() ==> r@[a].created_at >= r@[b].created_at,
    {
        let lim = clamp_limit(limit) as usize;
        let bound: usize = match cursor {
            None => self.records.len(),
            Some(c) => match self.find(c) {
                Some(k) => k,
                None => 0,
            },
        };
        let ghost recs = self@;
        let ghost hi = bound as int;
        assert(hi == cursor_bound(recs, cursor));
        let mut out: Vec<Transaction> = Vec::new();
        let mut i: usize = bound;
        while i > 0 && out.len() < lim
            invariant
                recs == self.records@,
                hi == bound,
                bound <= recs.len(),
                0 <= i <= bound,
                out@.len() <= lim,
                out@.len() == player_positions(recs, player, i as int, hi).len(),
                forall|j: int|
                    0 <= j < out@.len() ==> #[trigger] out@[j] == recs[player_positions(
                        recs,
                        player,
                        i as int,
                        hi,
                    )[j]],
            decreases i,
        {
            i -= 1;
            proof {
                lemma_positions_split(recs, player, i as int, i + 1, hi);
                assert(player_positions(recs, player, i as int, i + 1) == (if recs[i as int].player_id
                    == player {
                    seq![i as int] + player_positions(recs, player, i as int, i as int)
                } else {
                    player_positions(recs, player, i as int, i as int)
                }));
            }
            if self.records[i].player_id == player {
                let rec = self.records[i].clone();
                out.push(rec);
            }
        }
        proof {
            let all = player_positions(recs, player, 0, hi);
            let top = player_positions(recs, player, i as int, hi);
            lemma_positions_split(recs, player, 0, i as int, hi);
            let want = page_positions(recs, player, clamp_page(limit as int), cursor);
            if i == 0 {
                assert(all == top);
            } else {
                assert(out@.len() == lim);
                assert(all.subrange(0, lim as int) =~= top);
            }
            assert(want == top);
            assert(out@ =~= page_of(recs, player, clamp_page(limit as int), cursor));
            lemma_positions_shape(recs, player, i as int, hi);
            assert forall|a: int, b: int|
                #![trigger out@[a], out@[b]]
                0 <= a < b < out@.len() implies out@[a].created_at >= out@[b].created_at by {
                assert(top[a] > top[b]);
                assert(recs[top[b]].created_at <= recs[top[a]].created_at);
            }
        }
        out
    }
}

} // verus!
