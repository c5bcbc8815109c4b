use vstd::prelude::*;

use crate::address::{IpAddress, record_type_for, record_type_of};

verus! {

/// The most listing pages one scan reads. A listing that still claims more
/// pages after that many is treated as not holding the record, which makes
/// the caller write it rather than loop for ever.
pub const MAX_SCAN_PAGES: usize = 1000;

/// One resource record set as the hosting API lists it.
#[derive(Clone, Debug)]
pub struct RecordSetEntry {
    pub name: String,
    pub record_type: String,
    /// The record's values, each as the address it parses as (`None` when
    /// the value is not an IP address).
    pub values: Vec<Option<IpAddress>>,
}

/// Where the next listing request starts, forwarded verbatim from the
/// previous response.
#[derive(Clone, Debug)]
pub struct PageCursor {
    pub record_identifier: Option<String>,
    pub record_name: Option<String>,
    pub record_type: Option<String>,
}

/// One page of a zone's record-set listing.
#[derive(Clone, Debug)]
pub struct RecordSetPage {
    pub entries: Vec<RecordSetEntry>,
    pub is_truncated: bool,
    pub next: PageCursor,
}

/// Whether the record set exists with the address's record type, and
/// whether one of its values is the address.
#[derive(Clone, Copy, Debug, PartialEq, Eq, Structural)]
pub struct ScanResult {
    pub present: bool,
    pub up_to_date: bool,
}

/// What the scan wants after reading a page.
#[derive(Clone, Debug)]
pub enum ScanStep {
    /// The scan is over.
    Concluded(ScanResult),
    /// Request the next page, starting at this cursor.
    FetchNext(PageCursor),
}

/// `e` is the record set named `name` of the type that holds `a`.
pub open spec fn is_target(e: RecordSetEntry, name: Seq<char>, a: IpAddress) -> bool {
    e.name@ == name && e.record_type@ == record_type_of(a)
}

/// The verdict of the first target entry at or after index `i`, if any.
pub open spec fn match_from(
    entries: Seq<RecordSetEntry>,
    name: Seq<char>,
    a: IpAddress,
    i: int,
) -> Option<ScanResult>
    decreases entries.len() - i,
{
    if i < 0 || i >= entries.len() {
        None
    } else if is_target(entries[i], name, a) {
        Some(ScanResult { present: true, up_to_date: entries[i].values@.contains(Some(a)) })
    } else {
        match_from(entries, name, a, i + 1)
    }
}

/// The scan's step on `page`, the `index`-th page read (from 0).
pub open spec fn page_step(page: RecordSetPage, name: Seq<char>, a: IpAddress, index: int) -> ScanStep {
    match match_from(page.entries@, name, a, 0) {
        Some(r) => ScanStep::Concluded(r),
        None => if page.is_truncated && index + 1 < MAX_SCAN_PAGES {
            ScanStep::FetchNext(page.next)
        } else {
            ScanStep::Concluded(ScanResult { present: false, up_to_date: false })
        },
    }
}

/// The outcome of a scan over a listing whose pages are `pages`, from page
/// `i` on, with the number of pages read in all.
pub open spec fn scan_from(pages: Seq<RecordSetPage>, name: Seq<char>, a: IpAddress, i: int) -> (
    ScanResult,
    int,
)
    decreases pages.len() - i,
{
    if i < 0 || i >= pages.len() {
        (ScanResult { present: false, up_to_date: false }, i)
    } else {
        match page_step(pages[i], name, a, i) {
            ScanStep::Concluded(r) => (r, i + 1),
            ScanStep::FetchNext(_) => scan_from(pages, name, a, i + 1),
        }
    }
}

/// Reads one listing page while looking for the record set `name` of the
/// type that holds `address`. The first entry with that name and type ends
/// the scan; the record is up to date when one of its values is `address`.
/// Otherwise the scan goes on to the next page when the listing is
/// truncated, and concludes that the record is absent when it is not.
/// `index` counts the pages read before this one.
pub fn scan_page(name: &String, address: IpAddress, page: RecordSetPage, index: usize) -> (step: ScanStep)
    ensures
        step == page_step(page, name@, address, index as int),
{
    let wanted = record_type_for(&address);
    let mut i: usize = 0;
    while i < page.entries.len()
        invariant
            0 <= i <= page.entries.len(),
            wanted@ == record_type_of(address),
            match_from(page.entries@, name@, address, 0) == match_from(
                page.entries@,
                name@,
                address,
                i as int,
            ),
        decreases page.entries.len() - i,
    {
        let entry = &page.entries[i];
        if entry.name == *name && entry.record_type == wanted {
            let found = contains_address(&entry.values, address);
            return ScanStep::Concluded(ScanResult { present: true, up_to_date: found });
        }
        i += 1;
    }
    if page.is_truncated && index < MAX_SCAN_PAGES - 1 {
        ScanStep::FetchNext(page.next)
    } else {
        ScanStep::Concluded(ScanResult { present: false, up_to_date: false })
    }
}

/// Whether one of `values` is `address`.
fn contains_address(values: &Vec<Option<IpAddress>>, address: IpAddress) -> (r: bool)
    ensures
        r == values@.contains(Some(address)),
{
    let mut i: usize = 0;
    while i < values.len()
        invariant
            0 <= i <= values.len(),
            forall|j: int| 0 <= j < i ==> values@[j] != Some(address),
        decreases values.len() - i,
    {
        match values[i] {
            Some(v) => {
                if v == address {
                    assert(values@[i as int] == Some(address));
                    return true;
                }
            },
            None => {},
        }
        i += 1;
    }
    false
}

/// A listing in two pages whose first page lacks the record and claims
/// more, and whose second holds it with the address as a value: the scan
/// finds it up to date and reads exactly two pages, never a third.
pub proof fn lemma_match_on_second_page(
    pages: Seq<RecordSetPage>,
    name: Seq<char>,
    a: IpAddress,
    k: int,
)
    requires
        pages.len() >= 2,
        match_from(pages[0].entries@, name, a, 0) is None,
        pages[0].is_truncated,
        0 <= k < pages[1].entries.len(),
        is_target(pages[1].entries[k], name, a),
        pages[1].entries[k].values@.contains(Some(a)),
        forall|j: int| 0 <= j < k ==> !is_target(#[trigger] pages[1].entries[j], name, a),
    ensures
        scan_from(pages, name, a, 0) == (ScanResult { present: true, up_to_date: true }, 2int),
{
    lemma_match_at(pages[1].entries@, name, a, k, 0);
    assert(scan_from(pages, name, a, 1) == (ScanResult { present: true, up_to_date: true }, 2int));
}

/// The first target entry of a page, at index `k`, gives the verdict.
pub proof fn lemma_match_at(entries: Seq<RecordSetEntry>, name: Seq<char>, a: IpAddress, k: int, i: int)
    requires
        0 <= i <= k < entries.len(),
        is_target(entries[k], name, a),
        forall|j: int| 0 <= j < k ==> !is_target(#[trigger] entries[j], name, a),
    ensures
        match_from(entries, name, a, i) == Some(
            ScanResult { present: true, up_to_date: entries[k].values@.contains(Some(a)) },
        ),
    decreases k - i,
{
    if i < k {
        lemma_match_at(entries, name, a, k, i + 1);
    }
}

} // verus!
