use vstd::prelude::*;

use crate::address::IpAddress;
use crate::reconcile::{
    ReconciliationOutcome, UpsertRequest, decide, decide_spec, is_upsert_for,
    local_check_matches, upsert_request,
};
use crate::scanner::{MAX_SCAN_PAGES, PageCursor, RecordSetPage, ScanStep, page_step, scan_page};

verus! {

/// What the caller performs next for one record.
#[derive(Clone, Debug)]
pub enum ReconcileAction {
    /// Resolve this name with the system resolver and report the addresses
    /// (or the failure) to `on_local_lookup`.
    LookupLocally(String),
    /// List the zone's record sets, from the start or from the cursor, and
    /// report the page to `on_page`.
    FetchPage(Option<PageCursor>),
    /// Send this change; the record then stands reconciled with this outcome.
    Upsert(UpsertRequest, ReconciliationOutcome),
    /// Nothing is to be written.
    Done(ReconciliationOutcome),
}

/// Abstract state of a reconciliation in progress.
pub struct ReconciliationView {
    pub zone_id: Seq<char>,
    pub name: Seq<char>,
    pub address: IpAddress,
    pub force_update: bool,
    pub pages_read: nat,
}

/// Reconciliation of one record with a resolved address: the decisions of
/// a single run, from the optional local pre-check through the paged scan
/// to the upsert, with the network work left to the caller.
pub struct Reconciliation {
    zone_id: String,
    name: String,
    address: IpAddress,
    force_update: bool,
    pages_read: usize,
}

impl View for Reconciliation {
    type V = ReconciliationView;

    closed spec fn view(&self) -> ReconciliationView {
        ReconciliationView {
            zone_id: self.zone_id@,
            name: self.name@,
            address: self.address,
            force_update: self.force_update,
            pages_read: self.pages_read as nat,
        }
    }
}

/// `action` writes the record as the upsert for `v` would, under `outcome`.
pub open spec fn is_upsert_action(
    action: ReconcileAction,
    v: ReconciliationView,
    outcome: ReconciliationOutcome,
) -> bool {
    action matches ReconcileAction::Upsert(req, o) && o == outcome && is_upsert_for(
        req,
        v.zone_id,
        v.name,
        v.address,
    )
}

/// The action that follows a scan concluded with `outcome`: a write exactly
/// when the record is not up to date.
pub open spec fn conclude(v: ReconciliationView, outcome: ReconciliationOutcome, action: ReconcileAction) -> bool {
    if outcome is UpToDate {
        action == ReconcileAction::Done(outcome)
    } else {
        is_upsert_action(action, v, outcome)
    }
}

impl Reconciliation {
    pub closed spec fn wf(&self) -> bool {
        self.pages_read < MAX_SCAN_PAGES
    }

    /// Starts reconciling record `name` of zone `zone_id` with `address`.
    pub fn new(zone_id: String, name: String, address: IpAddress, force_update: bool) -> (r: Self)
        ensures
            r.wf(),
            r@ == (ReconciliationView {
                zone_id: zone_id@,
                name: name@,
                address,
                force_update,
                pages_read: 0,
            }),
    {
        Reconciliation { zone_id, name, address, force_update, pages_read: 0 }
    }

    /// The first action: a forced update is written at once; otherwise the
    /// name is first resolved locally.
    pub fn begin(&self) -> (action: ReconcileAction)
        ensures
            self@.force_update ==> is_upsert_action(
                action,
                self@,
                ReconciliationOutcome::NeedsUpsert,
            ),
            !self@.force_update ==> (action matches ReconcileAction::LookupLocally(n) && n@
                == self@.name),
    {
        if self.force_update {
            ReconcileAction::Upsert(
                upsert_request(&self.zone_id, &self.name, self.address),
                ReconciliationOutcome::NeedsUpsert,
            )
        } else {
            ReconcileAction::LookupLocally(self.name.clone())
        }
    }

    /// After the local resolution: when it already yields the address the
    /// record is left alone; when it does not, or failed (`None`), the
    /// hosting API is asked, from the first page.
    pub fn on_local_lookup(&self, resolved: &Option<Vec<IpAddress>>) -> (action: ReconcileAction)
        ensures
            (*resolved matches Some(v) && v@.contains(self@.address)) ==> action
                == ReconcileAction::Done(ReconciliationOutcome::UpToDate),
            !(*resolved matches Some(v) && v@.contains(self@.address)) ==> action
                == ReconcileAction::FetchPage(None),
    {
        if local_check_matches(resolved, self.address) {
            ReconcileAction::Done(ReconciliationOutcome::UpToDate)
        } else {
            ReconcileAction::FetchPage(None)
        }
    }

    /// After a listing page: the scan either asks for the next page, with
    /// the cursor the page gave, or concludes, and the decision follows.
    pub fn on_page(&mut self, page: RecordSetPage) -> (action: ReconcileAction)
        requires
            old(self).wf(),
        ensures
            final(self).wf(),
            match page_step(page, old(self)@.name, old(self)@.address, old(self)@.pages_read as int) {
                ScanStep::FetchNext(c) => {
                    &&& action == ReconcileAction::FetchPage(Some(c))
                    &&& final(self)@ == (ReconciliationView {
                        pages_read: old(self)@.pages_read + 1,
                        ..old(self)@
                    })
                },
                ScanStep::Concluded(r) => {
                    &&& conclude(old(self)@, decide_spec(false, r), action)
                    &&& final(self)@ == old(self)@
                },
            },
    {
        match scan_page(&self.name, self.address, page, self.pages_read) {
            ScanStep::FetchNext(c) => {
                self.pages_read = self.pages_read + 1;
                ReconcileAction::FetchPage(Some(c))
            },
            ScanStep::Concluded(r) => {
                let outcome = decide(false, &r);
                if outcome.needs_write() {
                    ReconcileAction::Upsert(upsert_request(&self.zone_id, &self.name, self.address), outcome)
                } else {
                    ReconcileAction::Done(outcome)
                }
            },
        }
    }
}

} // verus!
