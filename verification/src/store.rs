use vstd::prelude::*;

verus! {

/// One durable price record: the pair's symbols, the rendered decimal price,
/// and the block timestamp in seconds since the epoch. At most one record may
/// exist per (base_token, quote_token, block_timestamp) key.
#[derive(Clone, Debug)]
pub struct PricePoint {
    pub base_token: String,
    pub quote_token: String,
    pub price: String,
    pub block_timestamp: i64,
}

/// The mathematical shadow of a `PricePoint`: its strings as character
/// sequences and its timestamp as an integer.
pub ghost struct PricePointView {
    pub base_token: Seq<char>,
    pub quote_token: Seq<char>,
    pub price: Seq<char>,
    pub block_timestamp: int,
}

impl View for PricePoint {
    type V = PricePointView;

    open spec fn view(&self) -> PricePointView {
        PricePointView {
            base_token: self.base_token@,
            quote_token: self.quote_token@,
            price: self.price@,
            block_timestamp: self.block_timestamp as int,
        }
    }
}

/// Two records collide exactly when they carry the same pair symbols and the
/// same block timestamp; the price itself is not part of the key.
pub open spec fn same_key(a: PricePointView, b: PricePointView) -> bool {
    a.base_token == b.base_token && a.quote_token == b.quote_token && a.block_timestamp
        == b.block_timestamp
}

/// Some stored record collides with `v`.
pub open spec fn has_key(rows: Seq<PricePointView>, v: PricePointView) -> bool {
    exists|i: int| 0 <= i < rows.len() && same_key(rows[i], v)
}

/// No two stored records collide: the store's invariant.
pub open spec fn unique_keys(rows: Seq<PricePointView>) -> bool {
    forall|i: int, j: int| 0 <= i < j < rows.len() ==> !same_key(rows[i], rows[j])
}

/// The idempotent insert: a record whose key is already present leaves the
/// store unchanged; any other record is appended.
pub open spec fn spec_insert(rows: Seq<PricePointView>, v: PricePointView) -> Seq<PricePointView> {
    if has_key(rows, v) {
        rows
    } else {
        rows.push(v)
    }
}

/// The persistence sink's model: the rows of the durable table, in insertion
/// order, with the uniqueness of keys as its invariant. The real database
/// enforces the same contract through a uniqueness constraint and an
/// insert-or-ignore write; this model is what that write is held to.
pub struct PriceStore {
    pub rows: Vec<PricePoint>,
}

impl View for PriceStore {
    type V = Seq<PricePointView>;

    open spec fn view(&self) -> Seq<PricePointView> {
        self.rows@.map(|i: int, p: PricePoint| p@)
    }
}

impl PriceStore {
    /// The store's invariant: all keys distinct.
    pub open spec fn wf(&self) -> bool {
        unique_keys(self@)
    }

    /// An empty store.
    pub fn new() -> (s: PriceStore)
        ensures
            s@ == Seq::<PricePointView>::empty(),
            s.wf(),
    {
        let s = PriceStore { rows: Vec::new() };
        proof {
            assert(s@ =~= Seq::<PricePointView>::empty());
        }
        s
    }

    /// How many records the store holds.
    pub fn len(&self) -> (n: usize)
        ensures
            n == self@.len(),
    {
        self.rows.len()
    }

    /// A copy of the record at one position.
    pub fn get(&self, i: usize) -> (p: PricePoint)
        requires
            i < self@.len(),
        ensures
            p@ == self@[i as int],
    {
        let row = &self.rows[i];
        PricePoint {
            base_token: row.base_token.clone(),
            quote_token: row.quote_token.clone(),
            price: row.price.clone(),
            block_timestamp: row.block_timestamp,
        }
    }

    /// Whether a record with `p`'s key is already stored.
    pub fn contains_key(&self, p: &PricePoint) -> (r: bool)
        ensures
            r == has_key(self@, p@),
    {
        let n = self.rows.len();
        for i in 0..n
            invariant
                n == self.rows@.len(),
            forall|j: int| 0 <= j < i ==> !same_key(self@[j], p@),
        {
            let row = &self.rows[i];
            if row.base_token == p.base_token && row.quote_token == p.quote_token
                && row.block_timestamp == p.block_timestamp {
                assert(same_key(self@[i as int], p@));
                return true;
            }
        }
        false
    }

    /// The idempotent insert. Returns whether a new row was actually stored;
    /// a colliding insert is a no-op, not an error.
    pub fn insert(&mut self, p: PricePoint) -> (inserted: bool)
        requires
            old(self).wf(),
        ensures
            final(self)@ == spec_insert(old(self)@, p@),
            final(self).wf(),
            inserted == !has_key(old(self)@, p@),
            has_key(final(self)@, p@),
    {
        if self.contains_key(&p) {
            proof {
                assert(self@ =~= spec_insert(self@, p@));
            }
            false
        } else {
            let ghost old_rows = self@;
            self.rows.push(p);
            proof {
                assert(self@ =~= old_rows.push(p@));
                let n = old_rows.len() as int;
                assert(same_key(self@[n], p@));
                assert forall|i: int, j: int| 0 <= i < j < self@.len() implies !same_key(
                    self@[i],
                    self@[j],
                ) by {
                    if j < n {
                        assert(!same_key(old_rows[i], old_rows[j]));
                    } else {
                        assert(!has_key(old_rows, p@));
                        assert(!same_key(old_rows[i], p@));
                    }
                }
            }
            true
        }
    }
}

/// Law: the idempotent insert is idempotent. Writing the same record twice
/// leaves exactly the store that one write leaves, and the second write is
/// the no-op case, never a failure.
pub proof fn lemma_insert_idempotent(rows: Seq<PricePointView>, v: PricePointView)
    ensures
        spec_insert(spec_insert(rows, v), v) == spec_insert(rows, v),
{
    if !has_key(rows, v) {
        let rows1 = rows.push(v);
        assert(same_key(rows1[rows.len() as int], v));
        assert(has_key(rows1, v));
    }
}

/// Law: after an insert into a well-formed store, a record with the inserted
/// key is present exactly once: it is present, and no two stored records
/// share a key.
pub proof fn lemma_insert_exactly_once(rows: Seq<PricePointView>, v: PricePointView)
    requires
        unique_keys(rows),
    ensures
        has_key(spec_insert(rows, v), v),
        unique_keys(spec_insert(rows, v)),
{
    let rows1 = spec_insert(rows, v);
    if !has_key(rows, v) {
        assert(same_key(rows1[rows.len() as int], v));
        assert forall|i: int, j: int| 0 <= i < j < rows1.len() implies !same_key(
            rows1[i],
            rows1[j],
        ) by {
            if j < rows.len() {
                assert(!same_key(rows[i], rows[j]));
            } else {
                assert(!same_key(rows[i], v));
            }
        }
    }
}

} // verus!
