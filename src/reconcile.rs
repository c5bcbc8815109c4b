use vstd::prelude::*;

use crate::address::{IpAddress, record_type_for, record_type_of};
use crate::scanner::{RecordSetPage, ScanResult, ScanStep, is_target, match_from, page_step};

verus! {

/// Time to live, in seconds, of the record sets this library writes.
pub const UPSERT_TTL: u64 = 120;

/// How the hosted record stands against the current address.
#[derive(Clone, Copy, Debug, PartialEq, Eq, Structural)]
pub enum ReconciliationOutcome {
    /// The record holds the address: nothing is written.
    UpToDate,
    /// The record exists without the address, or an update is forced.
    NeedsUpsert,
    /// No record set of that name and type exists.
    AbsentNeedsCreate,
}

impl ReconciliationOutcome {
    /// A change is sent exactly when the record is not up to date.
    pub fn needs_write(&self) -> (r: bool)
        ensures
            r == !(*self is UpToDate),
    {
        match self {
            ReconciliationOutcome::UpToDate => false,
            _ => true,
        }
    }
}

/// The decision for a scan result under the force-update policy.
pub open spec fn decide_spec(force_update: bool, scan: ScanResult) -> ReconciliationOutcome {
    if force_update {
        ReconciliationOutcome::NeedsUpsert
    } else if !scan.present {
        ReconciliationOutcome::AbsentNeedsCreate
    } else if scan.up_to_date {
        ReconciliationOutcome::UpToDate
    } else {
        ReconciliationOutcome::NeedsUpsert
    }
}

/// Decides from the hosting-side scan whether the record must be written.
/// A forced update is always written.
pub fn decide(force_update: bool, scan: &ScanResult) -> (r: ReconciliationOutcome)
    ensures
        r == decide_spec(force_update, *scan),
        force_update ==> r == ReconciliationOutcome::NeedsUpsert,
{
    if force_update {
        ReconciliationOutcome::NeedsUpsert
    } else if !scan.present {
        ReconciliationOutcome::AbsentNeedsCreate
    } else if scan.up_to_date {
        ReconciliationOutcome::UpToDate
    } else {
        ReconciliationOutcome::NeedsUpsert
    }
}

/// Whether a local resolution of the record's name already yields
/// `candidate`. `resolved` is `None` when the resolution failed, which is
/// inconclusive and never counts as a match.
pub fn local_check_matches(resolved: &Option<Vec<IpAddress>>, candidate: IpAddress) -> (r: bool)
    ensures
        r == (*resolved matches Some(v) && v@.contains(candidate)),
{
    match resolved {
        None => false,
        Some(v) => holds_address(v, candidate),
    }
}

fn holds_address(v: &Vec<IpAddress>, candidate: IpAddress) -> (r: bool)
    ensures
        r == v@.contains(candidate),
{
    let mut i: usize = 0;
    while i < v.len()
        invariant
            0 <= i <= v.len(),
            forall|j: int| 0 <= j < i ==> v@[j] != candidate,
        decreases v.len() - i,
    {
        if v[i] == candidate {
            assert(v@[i as int] == candidate);
            return true;
        }
        i += 1;
    }
    false
}

/// A create-or-replace change of one record set holding one address.
#[derive(Clone, Debug)]
pub struct UpsertRequest {
    pub zone_id: String,
    pub name: String,
    pub record_type: String,
    pub address: IpAddress,
    pub ttl: u64,
}

/// `req` is the upsert of record `name` in zone `zone_id` to `address`.
pub open spec fn is_upsert_for(
    req: UpsertRequest,
    zone_id: Seq<char>,
    name: Seq<char>,
    address: IpAddress,
) -> bool {
    &&& req.zone_id@ == zone_id
    &&& req.name@ == name
    &&& req.record_type@ == record_type_of(address)
    &&& req.address == address
    &&& req.ttl == UPSERT_TTL
}

/// Builds the change that sets record `name` of zone `zone_id` to hold
/// `address` alone, with the record type of its family.
pub fn upsert_request(zone_id: &String, name: &String, address: IpAddress) -> (r: UpsertRequest)
    ensures
        is_upsert_for(r, zone_id@, name@, address),
{
    UpsertRequest {
        zone_id: zone_id.clone(),
        name: name.clone(),
        record_type: record_type_for(&address),
        address,
        ttl: UPSERT_TTL,
    }
}

/// Record sets of one hosted zone, keyed by (name, type), each with its
/// values and time to live.
pub type ZoneRecords = Map<(Seq<char>, Seq<char>), (Seq<IpAddress>, u64)>;

/// The zone's records once the hosting API has applied `req`: the record
/// set of that name and type is created or replaced.
pub open spec fn apply_upsert(zone: ZoneRecords, req: UpsertRequest) -> ZoneRecords {
    zone.insert((req.name@, req.record_type@), (seq![req.address], req.ttl))
}

/// Applying the upsert built from the same inputs twice leaves the zone as
/// applying it once does, with one record set of that name and type holding
/// the address alone.
pub proof fn lemma_upsert_idempotent(
    zone: ZoneRecords,
    first: UpsertRequest,
    second: UpsertRequest,
    zone_id: Seq<char>,
    name: Seq<char>,
    address: IpAddress,
)
    requires
        is_upsert_for(first, zone_id, name, address),
        is_upsert_for(second, zone_id, name, address),
    ensures
        apply_upsert(apply_upsert(zone, first), second) == apply_upsert(zone, first),
        apply_upsert(zone, first)[(name, record_type_of(address))] == (seq![address], UPSERT_TTL),
{
    assert(apply_upsert(apply_upsert(zone, first), second) =~= apply_upsert(zone, first));
}

/// A page whose first record set of the wanted name and type holds the
/// candidate address decides `UpToDate`; one whose values lack it decides
/// `NeedsUpsert`.
pub proof fn lemma_decide_on_found_record(
    page: RecordSetPage,
    name: Seq<char>,
    a: IpAddress,
    k: int,
    index: int,
)
    requires
        0 <= k < page.entries.len(),
        is_target(page.entries[k], name, a),
        forall|j: int| 0 <= j < k ==> !is_target(#[trigger] page.entries[j], name, a),
    ensures
        page_step(page, name, a, index) matches ScanStep::Concluded(r) && decide_spec(false, r) == (
        if page.entries[k].values@.contains(Some(a)) {
            ReconciliationOutcome::UpToDate
        } else {
            ReconciliationOutcome::NeedsUpsert
        }),
{
    crate::scanner::lemma_match_at(page.entries@, name, a, k, 0);
}

} // verus!
