//! The reconciliation steps of the credential-sync scheduler.
//!
//! Fetching the external code is network work and stays with the caller;
//! each step here takes the fetch outcome as a value and applies the
//! bootstrap or poll rule to the store. A failed fetch never touches the
//! store: a poll cycle logs and retries, only the one-time bootstrap
//! surfaces the failure to whoever depends on a current code.

use vstd::prelude::*;
use crate::code_service::{spec_initialize, spec_rotate, ZohoCodeService};
use crate::code_store::{code_active, exactly_one_active, ZohoCodeView};
use crate::errors::ApiError;

verus! {

/// Owns the access-code service and drives it from fetch outcomes; the
/// request path reads the same store through [`Self::code_service`].
pub struct ZohoCodeSyncService {
    zoho_code_service: ZohoCodeService,
}

impl View for ZohoCodeSyncService {
    type V = Seq<ZohoCodeView>;

    closed spec fn view(&self) -> Seq<ZohoCodeView> {
        self.zoho_code_service@
    }
}

impl ZohoCodeSyncService {
    pub closed spec fn service(&self) -> ZohoCodeService {
        self.zoho_code_service
    }

    pub open spec fn inv(&self) -> bool {
        self.service().inv()
    }

    pub fn new(zoho_code_service: ZohoCodeService) -> (s: Self)
        ensures
            s@ == zoho_code_service@,
            s.service() == zoho_code_service,
    {
        ZohoCodeSyncService { zoho_code_service }
    }

    /// The underlying service, for the login path that reads the same rows.
    pub fn code_service(&self) -> (s: &ZohoCodeService)
        ensures
            *s == self.service(),
            s@ == self@,
    {
        &self.zoho_code_service
    }

    /// One poll cycle, given the outcome of the external fetch. A failed
    /// fetch (`None`) leaves the store untouched and reports the fault; a
    /// fetched code rotates the store exactly when it differs from the
    /// active one.
    pub fn sync_zoho_code(&mut self, fetched: Option<&str>, now: u64) -> (r: Result<(), ApiError>)
        requires
            old(self).inv(),
            old(self)@.len() + 1 <= u64::MAX,
        ensures
            final(self).inv(),
            fetched is None ==> final(self)@ == old(self)@ && (r matches Err(e) && e
                is InternalError),
            fetched matches Some(code) ==> r is Ok && final(self)@ == spec_initialize(
                old(self)@,
                code@,
                now as int,
            ) && code_active(final(self)@, code@) && exactly_one_active(final(self)@),
    {
        match fetched {
            None => Err(
                ApiError::InternalError(String::from_str("Failed to fetch current Zoho code")),
            ),
            Some(code) => {
                if self.zoho_code_service.needs_update(code) {
                    let _row = self.zoho_code_service.update_code(code, now);
                } else {
                    proof {
                        let i = choose|i: int|
                            0 <= i < self@.len() && crate::code_store::row_active(
                                #[trigger] self@[i],
                            ) && self@[i].code == code@;
                        assert(crate::code_store::has_active(self@));
                    }
                }
                Ok(())
            },
        }
    }

    /// The bootstrap step, given the outcome of the external fetch. A
    /// failed fetch is fatal for the bootstrap — the store stays untouched
    /// and the caller must not proceed as if initialized — though nothing
    /// here ends the process. A fetched code initializes the store
    /// idempotently: a second run with the same code changes nothing.
    pub fn initialize_with_zoho(&mut self, fetched: Option<&str>, now: u64) -> (r: Result<
        (),
        ApiError,
    >)
        requires
            old(self).inv(),
            old(self)@.len() + 1 <= u64::MAX,
        ensures
            final(self).inv(),
            fetched is None ==> final(self)@ == old(self)@ && (r matches Err(e) && e
                is InternalError),
            fetched matches Some(code) ==> r is Ok && final(self)@ == spec_initialize(
                old(self)@,
                code@,
                now as int,
            ) && code_active(final(self)@, code@) && exactly_one_active(final(self)@),
    {
        match fetched {
            None => Err(
                ApiError::InternalError(
                    String::from_str("Failed to initialize Zoho code service"),
                ),
            ),
            Some(code) => {
                let _row = self.zoho_code_service.initialize_code(code, now);
                Ok(())
            },
        }
    }
}

} // verus!
