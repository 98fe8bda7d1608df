//! The durable record of issued access codes, modelled as the sequence of
//! its rows.
//!
//! Rows are only ever appended or marked expired, never deleted: expired
//! rows form an audit trail. The invariant the rest of the crate cares
//! about — at most one row active at any instant — is stated here and
//! maintained by the service layer above.

use vstd::prelude::*;
use crate::text::str_eq;

verus! {

/// One stored access code: its synthetic key, the code text, and the two
/// instants (seconds since the epoch) of its creation and — once rotated
/// out — its expiry.
#[derive(Debug)]
pub struct ZohoCode {
    pub id: u64,
    pub code: String,
    pub created_at: u64,
    pub expired_at: Option<u64>,
}

pub ghost struct ZohoCodeView {
    pub id: int,
    pub code: Seq<char>,
    pub created_at: int,
    pub expired_at: Option<int>,
}

impl View for ZohoCode {
    type V = ZohoCodeView;

    open spec fn view(&self) -> ZohoCodeView {
        ZohoCodeView {
            id: self.id as int,
            code: self.code@,
            created_at: self.created_at as int,
            expired_at: match self.expired_at {
                Some(e) => Some(e as int),
                None => None,
            },
        }
    }
}

/// A row is active while it has no expiry instant.
pub open spec fn row_active(r: ZohoCodeView) -> bool {
    r.expired_at is None
}

/// Some row of the store is active.
pub open spec fn has_active(rows: Seq<ZohoCodeView>) -> bool {
    exists|i: int| 0 <= i < rows.len() && row_active(#[trigger] rows[i])
}

/// No two distinct rows are active: the store invariant of the access-code
/// table.
pub open spec fn at_most_one_active(rows: Seq<ZohoCodeView>) -> bool {
    forall|i: int, j: int|
        0 <= i < rows.len() && 0 <= j < rows.len() && row_active(#[trigger] rows[i]) && row_active(
            #[trigger] rows[j],
        ) ==> i == j
}

/// Exactly one row is active.
pub open spec fn exactly_one_active(rows: Seq<ZohoCodeView>) -> bool {
    has_active(rows) && at_most_one_active(rows)
}

/// The given code text stands in some active row.
pub open spec fn code_active(rows: Seq<ZohoCodeView>, code: Seq<char>) -> bool {
    exists|i: int|
        0 <= i < rows.len() && row_active(#[trigger] rows[i]) && rows[i].code == code
}

/// The number of active rows.
pub open spec fn active_count(rows: Seq<ZohoCodeView>) -> nat
    decreases rows.len(),
{
    if rows.len() == 0 {
        0
    } else {
        active_count(rows.drop_last()) + if row_active(rows.last()) {
            1nat
        } else {
            0nat
        }
    }
}

/// The row a fresh insertion at position `id - 1` appends.
pub open spec fn spec_new_row(id: int, code: Seq<char>, now: int) -> ZohoCodeView {
    ZohoCodeView { id, code, created_at: now, expired_at: None }
}

/// Every active row marked expired at `now`; inactive rows untouched.
pub open spec fn expire_rows(rows: Seq<ZohoCodeView>, now: int) -> Seq<ZohoCodeView> {
    rows.map_values(
        |r: ZohoCodeView|
            if row_active(r) {
                ZohoCodeView { expired_at: Some(now), ..r }
            } else {
                r
            },
    )
}

impl ZohoCode {
    pub open spec fn spec_is_active(&self) -> bool {
        row_active(self@)
    }

    /// Whether this row is the active one: no expiry instant set.
    pub fn is_active(&self) -> (r: bool)
        ensures
            r == self.spec_is_active(),
    {
        self.expired_at.is_none()
    }

    /// Clamp an instant difference into the signed machine word.
    pub open spec fn clamp_i64(x: int) -> int {
        if x > i64::MAX {
            i64::MAX as int
        } else if x < i64::MIN {
            i64::MIN as int
        } else {
            x
        }
    }

    /// Signed seconds from `now` until this row's expiry instant, clamped
    /// into `i64`; nothing for a still-active row.
    pub fn time_until_expiration(&self, now: u64) -> (r: Option<i64>)
        ensures
            match self@.expired_at {
                Some(e) => r matches Some(d) && d == Self::clamp_i64(e - now),
                None => r is None,
            },
    {
        match self.expired_at {
            Some(e) => {
                if e >= now {
                    let d = e - now;
                    if d > i64::MAX as u64 {
                        Some(i64::MAX)
                    } else {
                        Some(d as i64)
                    }
                } else {
                    let d = now - e;
                    if d > i64::MAX as u64 {
                        Some(i64::MIN)
                    } else {
                        Some(-(d as i64))
                    }
                }
            },
            None => None,
        }
    }

    /// A field-for-field copy of this row.
    fn duplicate(&self) -> (r: ZohoCode)
        ensures
            r@ == self@,
    {
        ZohoCode {
            id: self.id,
            code: self.code.clone(),
            created_at: self.created_at,
            expired_at: self.expired_at,
        }
    }
}

/// In-memory model of the access-code table: create, query and expire; no
/// row is ever removed.
pub struct ZohoCodeRepository {
    rows: Vec<ZohoCode>,
}

impl View for ZohoCodeRepository {
    type V = Seq<ZohoCodeView>;

    closed spec fn view(&self) -> Seq<ZohoCodeView> {
        self.rows@.map_values(|r: ZohoCode| r@)
    }
}

impl ZohoCodeRepository {
    /// Row keys follow insertion order, as an auto-increment column would.
    pub open spec fn wf(&self) -> bool {
        forall|i: int| 0 <= i < self@.len() ==> (#[trigger] self@[i]).id == i + 1
    }

    /// An empty store.
    pub fn new() -> (s: Self)
        ensures
            s@ == Seq::<ZohoCodeView>::empty(),
            s.wf(),
    {
        ZohoCodeRepository { rows: Vec::new() }
    }

    /// How many rows the store holds, active or not.
    pub fn len(&self) -> (n: usize)
        ensures
            n == self@.len(),
    {
        self.rows.len()
    }

    /// One row of the audit trail, by position.
    pub fn row_at(&self, i: usize) -> (r: &ZohoCode)
        requires
            i < self@.len(),
        ensures
            r@ == self@[i as int],
    {
        &self.rows[i]
    }

    /// Append a fresh active row carrying `code`, created at `now`, and
    /// return a copy of it.
    pub fn create_zoho_code(&mut self, code: &str, now: u64) -> (r: ZohoCode)
        requires
            old(self).wf(),
            old(self)@.len() + 1 <= u64::MAX,
        ensures
            final(self)@ == old(self)@.push(
                spec_new_row(old(self)@.len() as int + 1, code@, now as int),
            ),
            r@ == spec_new_row(old(self)@.len() as int + 1, code@, now as int),
            final(self).wf(),
    {
        let id = self.rows.len() as u64 + 1;
        let row = ZohoCode {
            id,
            code: String::from_str(code),
            created_at: now,
            expired_at: None,
        };
        let copy = row.duplicate();
        self.rows.push(row);
        proof {
            assert(final(self)@ =~= old(self)@.push(
                spec_new_row(old(self)@.len() as int + 1, code@, now as int),
            ));
        }
        copy
    }

    /// The active row, when there is one. Under the store invariant it is
    /// unique, so the scan may stop at the first hit.
    pub fn get_active_code(&self) -> (r: Option<ZohoCode>)
        requires
            at_most_one_active(self@),
        ensures
            match r {
                Some(c) => exists|i: int|
                    0 <= i < self@.len() && #[trigger] self@[i] == c@ && row_active(c@),
                None => !has_active(self@),
            },
            r is Some <==> has_active(self@),
    {
        let n = self.rows.len();
        let mut i: usize = 0;
        while i < n
            invariant
                n == self@.len(),
                0 <= i <= n,
                at_most_one_active(self@),
                forall|j: int| 0 <= j < i ==> !row_active(#[trigger] self@[j]),
            decreases n - i,
        {
            proof {
                assert(self@[i as int] == self.rows@[i as int]@);
            }
            if self.rows[i].is_active() {
                let found = self.rows[i].duplicate();
                proof {
                    assert(row_active(self@[i as int]));
                }
                return Some(found);
            }
            i = i + 1;
        }
        None
    }

    /// Mark every active row expired at `now`; say how many there were.
    pub fn expire_all_active_codes(&mut self, now: u64) -> (n: usize)
        ensures
            final(self)@ == expire_rows(old(self)@, now as int),
            n == active_count(old(self)@),
            old(self).wf() ==> final(self).wf(),
            !has_active(final(self)@),
    {
        let len = self.rows.len();
        let mut out: Vec<ZohoCode> = Vec::new();
        let mut n: usize = 0;
        let mut i: usize = 0;
        while i < len
            invariant
                len == self@.len(),
                0 <= i <= len,
                out@.len() == i,
                n <= i,
                n == active_count(self@.take(i as int)),
                forall|j: int|
                    0 <= j < i ==> #[trigger] out@[j]@ == (if row_active(self@[j]) {
                        ZohoCodeView { expired_at: Some(now as int), ..self@[j] }
                    } else {
                        self@[j]
                    }),
            decreases len - i,
        {
            let row = &self.rows[i];
            proof {
                assert(self@.take(i + 1).drop_last() =~= self@.take(i as int));
                assert(self@.take(i + 1).last() == self@[i as int]);
            }
            if row.is_active() {
                out.push(
                    ZohoCode {
                        id: row.id,
                        code: row.code.clone(),
                        created_at: row.created_at,
                        expired_at: Some(now),
                    },
                );
                n = n + 1;
            } else {
                out.push(row.duplicate());
            }
            i = i + 1;
        }
        proof {
            assert(self@.take(len as int) =~= self@);
        }
        self.rows = out;
        proof {
            assert(final(self)@ =~= expire_rows(old(self)@, now as int));
            assert forall|k: int| 0 <= k < final(self)@.len() implies !row_active(
                #[trigger] final(self)@[k],
            ) by {
                assert(final(self)@[k] == expire_rows(old(self)@, now as int)[k]);
            }
        }
        n
    }

    /// Whether `code` stands in some active row.
    pub fn is_code_active(&self, code: &str) -> (r: bool)
        ensures
            r == code_active(self@, code@),
    {
        let n = self.rows.len();
        let mut i: usize = 0;
        while i < n
            invariant
                n == self@.len(),
                0 <= i <= n,
                forall|j: int|
                    0 <= j < i ==> !(row_active(#[trigger] self@[j]) && self@[j].code == code@),
            decreases n - i,
        {
            proof {
                assert(self@[i as int] == self.rows@[i as int]@);
            }
            let row = &self.rows[i];
            if row.expired_at.is_none() && str_eq(row.code.as_str(), code) {
                proof {
                    assert(row_active(self@[i as int]) && self@[i as int].code == code@);
                }
                return true;
            }
            i = i + 1;
        }
        false
    }
}

} // verus!
