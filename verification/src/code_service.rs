//! Service layer over the access-code store: validate a submitted code,
//! read the active one, and rotate — expire-then-insert, as one step — when
//! the external source of truth moved on.

use vstd::prelude::*;
use crate::code_store::{
    at_most_one_active, code_active, exactly_one_active, expire_rows, has_active, row_active,
    spec_new_row, ZohoCode, ZohoCodeRepository, ZohoCodeView,
};
use crate::text::str_eq;

verus! {

/// The store after a rotation: every active row expired at `now`, then one
/// fresh active row with the new code appended. Expire-before-insert, never
/// the other way round, so no instant sees two active rows.
pub open spec fn spec_rotate(rows: Seq<ZohoCodeView>, code: Seq<char>, now: int) -> Seq<
    ZohoCodeView,
> {
    expire_rows(rows, now).push(spec_new_row(rows.len() as int + 1, code, now))
}

/// The store after a bootstrap against external code `code`: untouched when
/// that code is already the active one, rotated to it otherwise.
pub open spec fn spec_initialize(rows: Seq<ZohoCodeView>, code: Seq<char>, now: int) -> Seq<
    ZohoCodeView,
> {
    if code_active(rows, code) {
        rows
    } else {
        spec_rotate(rows, code, now)
    }
}

/// After expiring, no row of the store is active.
pub proof fn lemma_expire_rows_inactive(rows: Seq<ZohoCodeView>, now: int)
    ensures
        expire_rows(rows, now).len() == rows.len(),
        forall|k: int|
            0 <= k < rows.len() ==> !row_active(#[trigger] expire_rows(rows, now)[k]),
        !has_active(expire_rows(rows, now)),
{
    assert forall|k: int| 0 <= k < rows.len() implies !row_active(
        #[trigger] expire_rows(rows, now)[k],
    ) by {
        assert(expire_rows(rows, now)[k] == if row_active(rows[k]) {
            ZohoCodeView { expired_at: Some(now), ..rows[k] }
        } else {
            rows[k]
        });
    }
}

/// A rotation leaves exactly one active row, and the one active code is the
/// new one: every other code reads as inactive afterwards.
pub proof fn lemma_rotate_active(rows: Seq<ZohoCodeView>, code: Seq<char>, now: int)
    ensures
        spec_rotate(rows, code, now).len() == rows.len() + 1,
        exactly_one_active(spec_rotate(rows, code, now)),
        forall|c: Seq<char>| #[trigger] code_active(spec_rotate(rows, code, now), c) <==> c == code,
{
    let rotated = spec_rotate(rows, code, now);
    lemma_expire_rows_inactive(rows, now);
    let last = rows.len() as int;
    assert(rotated[last] == spec_new_row(rows.len() as int + 1, code, now));
    assert(row_active(rotated[last]));
    assert forall|k: int| 0 <= k < last implies !row_active(#[trigger] rotated[k]) by {
        assert(rotated[k] == expire_rows(rows, now)[k]);
    }
    assert forall|c: Seq<char>| #[trigger] code_active(rotated, c) implies c == code by {
        let i = choose|i: int|
            0 <= i < rotated.len() && row_active(#[trigger] rotated[i]) && rotated[i].code == c;
        assert(i == last);
    }
}

/// Bootstrap idempotence: a second bootstrap against the same external code
/// leaves the store exactly as the first one did, and — when the store held
/// at most one active row to begin with — that state has exactly one active
/// row.
pub proof fn lemma_bootstrap_idempotent(
    rows: Seq<ZohoCodeView>,
    code: Seq<char>,
    now1: int,
    now2: int,
)
    ensures
        spec_initialize(spec_initialize(rows, code, now1), code, now2) == spec_initialize(
            rows,
            code,
            now1,
        ),
        at_most_one_active(rows) ==> exactly_one_active(spec_initialize(rows, code, now1)),
        code_active(spec_initialize(rows, code, now1), code),
{
    if code_active(rows, code) {
        let i = choose|i: int|
            0 <= i < rows.len() && row_active(#[trigger] rows[i]) && rows[i].code == code;
        assert(has_active(rows));
    } else {
        lemma_rotate_active(rows, code, now1);
    }
}

/// The access-code service: a thin, fully specified layer over the store.
pub struct ZohoCodeService {
    repository: ZohoCodeRepository,
}

impl View for ZohoCodeService {
    type V = Seq<ZohoCodeView>;

    closed spec fn view(&self) -> Seq<ZohoCodeView> {
        self.repository@
    }
}

impl ZohoCodeService {
    pub closed spec fn repo_wf(&self) -> bool {
        self.repository.wf()
    }

    /// The service invariant: row keys follow insertion order, and at most
    /// one row is active at any instant.
    pub open spec fn inv(&self) -> bool {
        self.repo_wf() && at_most_one_active(self@)
    }

    pub fn new(repository: ZohoCodeRepository) -> (s: Self)
        requires
            repository.wf(),
            at_most_one_active(repository@),
        ensures
            s@ == repository@,
            s.inv(),
    {
        ZohoCodeService { repository }
    }

    /// Whether a submitted login code is the currently active one.
    pub fn validate_code(&self, code: &str) -> (r: bool)
        ensures
            r == code_active(self@, code@),
    {
        self.repository.is_code_active(code)
    }

    /// A copy of the active row, when there is one.
    pub fn get_current_active_code(&self) -> (r: Option<ZohoCode>)
        requires
            self.inv(),
        ensures
            match r {
                Some(c) => exists|i: int|
                    0 <= i < self@.len() && #[trigger] self@[i] == c@ && row_active(c@),
                None => !has_active(self@),
            },
            r is Some <==> has_active(self@),
    {
        self.repository.get_active_code()
    }

    /// Rotate the store to a new code: expire whatever was active, then
    /// insert the new code as the single active row.
    pub fn update_code(&mut self, new_code: &str, now: u64) -> (r: ZohoCode)
        requires
            old(self).inv(),
            old(self)@.len() + 1 <= u64::MAX,
        ensures
            final(self)@ == spec_rotate(old(self)@, new_code@, now as int),
            r@ == spec_new_row(old(self)@.len() as int + 1, new_code@, now as int),
            final(self).inv(),
            exactly_one_active(final(self)@),
            forall|c: Seq<char>| #[trigger] code_active(final(self)@, c) <==> c == new_code@,
    {
        let _expired = self.repository.expire_all_active_codes(now);
        let row = self.repository.create_zoho_code(new_code, now);
        proof {
            lemma_rotate_active(old(self)@, new_code@, now as int);
        }
        row
    }

    /// Whether the store disagrees with the externally fetched code: true
    /// exactly when that code is not the active one — in particular when no
    /// row is active at all.
    pub fn needs_update(&self, current_zoho_code: &str) -> (r: bool)
        requires
            self.inv(),
        ensures
            r == !code_active(self@, current_zoho_code@),
    {
        match self.repository.get_active_code() {
            Some(db_code) => {
                let same = str_eq(db_code.code.as_str(), current_zoho_code);
                proof {
                    let j = choose|j: int|
                        0 <= j < self@.len() && #[trigger] self@[j] == db_code@ && row_active(
                            db_code@,
                        );
                    if code_active(self@, current_zoho_code@) {
                        let i = choose|i: int|
                            0 <= i < self@.len() && row_active(#[trigger] self@[i])
                                && self@[i].code == current_zoho_code@;
                        assert(i == j);
                    }
                    if same {
                        assert(code_active(self@, current_zoho_code@));
                    }
                }
                !same
            },
            None => {
                proof {
                    if code_active(self@, current_zoho_code@) {
                        let i = choose|i: int|
                            0 <= i < self@.len() && row_active(#[trigger] self@[i])
                                && self@[i].code == current_zoho_code@;
                        assert(has_active(self@));
                    }
                }
                true
            },
        }
    }

    /// Bootstrap step: keep the store as it is when the fetched code is
    /// already the active one, rotate to it otherwise. Running this twice
    /// with the same code changes nothing the second time.
    pub fn initialize_code(&mut self, code: &str, now: u64) -> (r: ZohoCode)
        requires
            old(self).inv(),
            old(self)@.len() + 1 <= u64::MAX,
        ensures
            final(self)@ == spec_initialize(old(self)@, code@, now as int),
            final(self).inv(),
            exactly_one_active(final(self)@),
            code_active(final(self)@, code@),
            row_active(r@) && r@.code == code@,
            exists|i: int| 0 <= i < final(self)@.len() && #[trigger] final(self)@[i] == r@,
    {
        let existing = self.repository.get_active_code();
        match existing {
            Some(existing_row) => {
                if str_eq(existing_row.code.as_str(), code) {
                    proof {
                        let j = choose|j: int|
                            0 <= j < self@.len() && #[trigger] self@[j] == existing_row@
                                && row_active(existing_row@);
                        assert(code_active(self@, code@));
                        assert(has_active(self@));
                    }
                    existing_row
                } else {
                    proof {
                        let j = choose|j: int|
                            0 <= j < self@.len() && #[trigger] self@[j] == existing_row@
                                && row_active(existing_row@);
                        if code_active(self@, code@) {
                            let i = choose|i: int|
                                0 <= i < self@.len() && row_active(#[trigger] self@[i])
                                    && self@[i].code == code@;
                            assert(i == j);
                        }
                    }
                    let row = self.update_code(code, now);
                    proof {
                        assert(final(self)@[old(self)@.len() as int] == row@);
                    }
                    row
                }
            },
            None => {
                proof {
                    if code_active(self@, code@) {
                        let i = choose|i: int|
                            0 <= i < self@.len() && row_active(#[trigger] self@[i])
                                && self@[i].code == code@;
                        assert(has_active(self@));
                    }
                }
                let row = self.update_code(code, now);
                proof {
                    assert(final(self)@[old(self)@.len() as int] == row@);
                }
                row
            },
        }
    }

    /// How many rows the store holds, active or not.
    pub fn history_len(&self) -> (n: usize)
        ensures
            n == self@.len(),
    {
        self.repository.len()
    }

    /// One row of the audit trail, by position.
    pub fn history_row(&self, i: usize) -> (r: &ZohoCode)
        requires
            i < self@.len(),
        ensures
            r@ == self@[i as int],
    {
        self.repository.row_at(i)
    }
}

/// A point-in-time summary of the store, for reporting.
#[derive(Debug)]
pub struct ZohoCodeStats {
    pub has_active_code: bool,
    pub active_code: Option<String>,
    pub total_codes_in_history: usize,
}

} // verus!
