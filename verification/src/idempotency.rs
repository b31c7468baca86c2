//! The idempotent-request cache: a keyed table that remembers the exact HTTP
//! response once produced for a given (owner, idempotency key) pair. A record
//! is written at most once and never overwritten; a duplicate write is
//! reported as a benign constraint rejection so the loser can re-read the
//! winner's value.

use vstd::prelude::*;
use vstd::string::StrSliceExecFns;
use crate::response::{copy_response, HttpResponseParts, ResponseView};

verus! {

/// A client-supplied opaque token naming one logical request attempt.
/// Malformed tokens (empty, or longer than the bound) are rejected before any
/// lookup.
#[derive(Debug)]
pub struct IdempotencyKey {
    key: String,
}

/// A well-formed idempotency key: non-empty and within the length bound.
pub open spec fn valid_idempotency_key(s: Seq<char>) -> bool {
    1 <= s.len() <= 50
}

impl View for IdempotencyKey {
    type V = Seq<char>;

    closed spec fn view(&self) -> Seq<char> {
        self.key@
    }
}

/// Why a token was rejected as an idempotency key.
#[derive(Debug, PartialEq, Eq, Structural)]
pub enum KeyError {
    Empty,
    TooLong,
}

impl IdempotencyKey {
    /// Accepts a token exactly when it is well formed, and keeps it verbatim.
    pub fn parse(s: String) -> (r: Result<IdempotencyKey, KeyError>)
        ensures
            r is Ok <==> valid_idempotency_key(s@),
            r matches Ok(k) ==> k@ == s@,
            r is Err ==> (if s@.len() == 0 {
                r == Err::<IdempotencyKey, KeyError>(KeyError::Empty)
            } else {
                r == Err::<IdempotencyKey, KeyError>(KeyError::TooLong)
            }),
    {
        let n = s.as_str().unicode_len();
        if n == 0 {
            return Err(KeyError::Empty);
        }
        if n > 50 {
            return Err(KeyError::TooLong);
        }
        Ok(IdempotencyKey { key: s })
    }

    /// The token's text.
    pub fn as_str(&self) -> (r: &str)
        ensures
            r@ == self@,
    {
        self.key.as_str()
    }

    /// An owned copy of the token's text.
    pub fn key_string(&self) -> (r: String)
        ensures
            r@ == self@,
    {
        self.key.clone()
    }
}

/// One row of the idempotency table.
pub struct IdempotencyRow {
    pub user_id: u128,
    pub idempotency_key: String,
    pub response: HttpResponseParts,
}

/// The key a row is filed under.
pub open spec fn row_key(row: IdempotencyRow) -> (u128, Seq<char>) {
    (row.user_id, row.idempotency_key@)
}

/// The table a row sequence denotes: each key bound to its cached response.
pub open spec fn table_view(rows: Seq<IdempotencyRow>) -> Map<
    (u128, Seq<char>),
    ResponseView,
>
    decreases rows.len(),
{
    if rows.len() == 0 {
        Map::empty()
    } else {
        table_view(rows.drop_last()).insert(row_key(rows.last()), rows.last().response@)
    }
}

/// A write succeeds exactly when no record exists under the key yet.
pub open spec fn save_succeeds(
    table: Map<(u128, Seq<char>), ResponseView>,
    key: (u128, Seq<char>),
) -> bool {
    !table.dom().contains(key)
}

/// The table after a successful write.
pub open spec fn saved_table(
    table: Map<(u128, Seq<char>), ResponseView>,
    key: (u128, Seq<char>),
    response: ResponseView,
) -> Map<(u128, Seq<char>), ResponseView> {
    table.insert(key, response)
}

/// What a lookup returns on a table.
pub open spec fn lookup_result(
    table: Map<(u128, Seq<char>), ResponseView>,
    key: (u128, Seq<char>),
) -> Option<ResponseView> {
    if table.dom().contains(key) {
        Some(table[key])
    } else {
        None
    }
}

/// The durable idempotency store, keyed by (owner identity, idempotency key).
/// At most one record exists per key, and a record, once written, is never
/// changed or removed by this subsystem.
pub struct IdempotencyStore {
    rows: Vec<IdempotencyRow>,
}

impl View for IdempotencyStore {
    type V = Map<(u128, Seq<char>), ResponseView>;

    closed spec fn view(&self) -> Map<(u128, Seq<char>), ResponseView> {
        table_view(self.rows@)
    }
}

/// A key occurs in a row sequence.
pub open spec fn rows_contain_key(rows: Seq<IdempotencyRow>, key: (u128, Seq<char>)) -> bool {
    exists|i: int| 0 <= i < rows.len() && row_key(#[trigger] rows[i]) == key
}

/// The table's domain is exactly the keys of the rows.
proof fn lemma_table_view_contains(rows: Seq<IdempotencyRow>, key: (u128, Seq<char>))
    ensures
        table_view(rows).dom().contains(key) <==> rows_contain_key(rows, key),
    decreases rows.len(),
{
    if rows.len() > 0 {
        lemma_table_view_contains(rows.drop_last(), key);
        if rows_contain_key(rows.drop_last(), key) {
            let i = choose|i: int|
                0 <= i < rows.drop_last().len() && row_key(#[trigger] rows.drop_last()[i]) == key;
            assert(row_key(rows[i]) == key);
        }
        if row_key(rows.last()) == key {
            assert(row_key(rows[rows.len() - 1]) == key);
        }
        if rows_contain_key(rows, key) && row_key(rows.last()) != key {
            let i = choose|i: int| 0 <= i < rows.len() && row_key(#[trigger] rows[i]) == key;
            assert(row_key(rows.drop_last()[i]) == key);
        }
    }
}

/// No two rows share a key.
pub open spec fn rows_distinct(rows: Seq<IdempotencyRow>) -> bool {
    forall|i: int, j: int|
        0 <= i < j < rows.len() ==> row_key(#[trigger] rows[i]) != row_key(#[trigger] rows[j])
}

/// With distinct keys, the table binds each row's key to that row's response.
proof fn lemma_table_view_get(rows: Seq<IdempotencyRow>, i: int)
    requires
        rows_distinct(rows),
        0 <= i < rows.len(),
    ensures
        table_view(rows).dom().contains(row_key(rows[i])),
        table_view(rows)[row_key(rows[i])] == rows[i].response@,
    decreases rows.len(),
{
    if i == rows.len() - 1 {
        assert(rows.last() == rows[i]);
    } else {
        assert(rows_distinct(rows.drop_last())) by {
            assert(forall|a: int, b: int|
                0 <= a < b < rows.drop_last().len() ==> row_key(#[trigger] rows.drop_last()[a])
                    != row_key(#[trigger] rows.drop_last()[b])) by {
                assert(forall|a: int|
                    0 <= a < rows.drop_last().len() ==> #[trigger] rows.drop_last()[a] == rows[a]);
            }
        }
        lemma_table_view_get(rows.drop_last(), i);
        assert(rows.drop_last()[i] == rows[i]);
        assert(row_key(rows.last()) != row_key(rows[i]));
    }
}

impl IdempotencyStore {
    /// Internal invariant: at most one record per (owner, key).
    pub closed spec fn wf(&self) -> bool {
        rows_distinct(self.rows@)
    }

    /// An empty store.
    pub fn new() -> (r: IdempotencyStore)
        ensures
            r.wf(),
            r@ == Map::<(u128, Seq<char>), ResponseView>::empty(),
    {
        IdempotencyStore { rows: Vec::new() }
    }

    /// How many records the store holds.
    pub fn len(&self) -> (n: usize)
        requires
            self.wf(),
        ensures
            n == self@.dom().len(),
    {
        proof {
            lemma_table_len(self.rows@);
        }
        self.rows.len()
    }

    /// Pure read: the response cached under (owner, key), if any; the store
    /// is never mutated, and the returned response is byte-identical to the
    /// one saved.
    pub fn get_saved_response(&self, user_id: u128, idempotency_key: &IdempotencyKey) -> (r:
        Option<HttpResponseParts>)
        requires
            self.wf(),
        ensures
            r is None <==> lookup_result(self@, (user_id, idempotency_key@)) is None,
            r matches Some(response) ==> lookup_result(self@, (user_id, idempotency_key@))
                == Some(response@),
    {
        let ghost key = (user_id, idempotency_key@);
        let mut i: usize = 0;
        while i < self.rows.len()
            invariant
                self.wf(),
                key == (user_id, idempotency_key@),
                i <= self.rows@.len(),
                forall|j: int| 0 <= j < i ==> row_key(#[trigger] self.rows@[j]) != key,
            decreases self.rows@.len() - i,
        {
            if self.rows[i].user_id == user_id && self.rows[i].idempotency_key.eq(
                &idempotency_key.key,
            ) {
                proof {
                    assert(row_key(self.rows@[i as int]) == key);
                    lemma_table_view_get(self.rows@, i as int);
                }
                return Some(copy_response(&self.rows[i].response));
            }
            i = i + 1;
        }
        proof {
            lemma_table_view_contains(self.rows@, key);
        }
        None
    }

    /// Persists a fully materialized response under (owner, key) and returns
    /// an equivalent response for immediate use. If a record already exists
    /// under the key — someone else already cached it — the write is refused,
    /// the store is unchanged, and the caller should re-read via
    /// `get_saved_response` instead of treating the race as an error.
    pub fn save_response(
        &mut self,
        user_id: u128,
        idempotency_key: &IdempotencyKey,
        http_response: HttpResponseParts,
    ) -> (r: Result<HttpResponseParts, PersistenceError>)
        requires
            old(self).wf(),
        ensures
            final(self).wf(),
            r is Ok <==> save_succeeds(old(self)@, (user_id, idempotency_key@)),
            r matches Ok(returned) ==> final(self)@ == saved_table(
                old(self)@,
                (user_id, idempotency_key@),
                http_response@,
            ) && returned@ == http_response@,
            r is Err ==> final(self)@ == old(self)@ && r == Err::<
                HttpResponseParts,
                PersistenceError,
            >(PersistenceError::DuplicateKey),
    {
        let ghost key = (user_id, idempotency_key@);
        let mut i: usize = 0;
        while i < self.rows.len()
            invariant
                self.wf(),
                key == (user_id, idempotency_key@),
                i <= self.rows@.len(),
                forall|j: int| 0 <= j < i ==> row_key(#[trigger] self.rows@[j]) != key,
            decreases self.rows@.len() - i,
        {
            if self.rows[i].user_id == user_id && self.rows[i].idempotency_key.eq(
                &idempotency_key.key,
            ) {
                proof {
                    assert(row_key(self.rows@[i as int]) =~= key);
                    lemma_table_view_contains(self.rows@, key);
                }
                return Err(PersistenceError::DuplicateKey);
            }
            i = i + 1;
        }
        proof {
            lemma_table_view_contains(self.rows@, key);
        }
        let returned = copy_response(&http_response);
        let row = IdempotencyRow {
            user_id,
            idempotency_key: idempotency_key.key_string(),
            response: http_response,
        };
        proof {
            assert(row_key(row) == key);
        }
        self.rows.push(row);
        proof {
            assert(self.rows@.drop_last() =~= old(self).rows@);
            assert(self.rows@.last() == row);
        }
        Ok(returned)
    }
}

/// Why a write to the idempotency table failed.
#[derive(Debug, PartialEq, Eq, Structural)]
pub enum PersistenceError {
    /// A record already exists under this (owner, key): another writer won
    /// the race. Not a user-visible error — re-read to obtain the winner's
    /// value.
    DuplicateKey,
}

/// With distinct keys, the table holds exactly one binding per row.
proof fn lemma_table_len(rows: Seq<IdempotencyRow>)
    requires
        rows_distinct(rows),
    ensures
        table_view(rows).dom().finite(),
        table_view(rows).dom().len() == rows.len(),
    decreases rows.len(),
{
    if rows.len() > 0 {
        assert(rows_distinct(rows.drop_last())) by {
            assert(forall|a: int|
                0 <= a < rows.drop_last().len() ==> #[trigger] rows.drop_last()[a] == rows[a]);
        }
        lemma_table_len(rows.drop_last());
        lemma_table_view_contains(rows.drop_last(), row_key(rows.last()));
        assert(!rows_contain_key(rows.drop_last(), row_key(rows.last()))) by {
            if rows_contain_key(rows.drop_last(), row_key(rows.last())) {
                let i = choose|i: int|
                    0 <= i < rows.drop_last().len() && row_key(
                        #[trigger] rows.drop_last()[i],
                    ) == row_key(rows.last());
                assert(row_key(rows[i]) == row_key(rows[rows.len() - 1]));
            }
        }
    }
}

/// Law — idempotent replay: once a save for (owner, key) has succeeded, a
/// lookup under the same key returns exactly the saved response: status,
/// header order and values, and body.
pub proof fn lemma_idempotent_replay(
    table: Map<(u128, Seq<char>), ResponseView>,
    key: (u128, Seq<char>),
    response: ResponseView,
)
    requires
        save_succeeds(table, key),
    ensures
        lookup_result(saved_table(table, key, response), key) == Some(response),
{
}

/// Law — at most one write per key: after a first save for (owner, key)
/// succeeds, a second save for the same key is refused whatever response it
/// carries, the table is unchanged by the refusal, and a re-read returns the
/// first writer's response.
pub proof fn lemma_second_writer_rejected(
    table: Map<(u128, Seq<char>), ResponseView>,
    key: (u128, Seq<char>),
    first: ResponseView,
    second: ResponseView,
)
    requires
        save_succeeds(table, key),
    ensures
        !save_succeeds(saved_table(table, key, first), key),
        lookup_result(saved_table(table, key, first), key) == Some(first),
{
}

} // verus!
