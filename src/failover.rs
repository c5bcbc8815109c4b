use vstd::prelude::*;
use vstd::string::StringExecFns;

use crate::address::IpAddress;
use crate::provider::{
    MyIpProvider, alternatives, find_provider_with_alternatives, is_provider_v6, provider_is_v6,
};
verus! {

use crate::provider::lemma_alternatives_same_family;

/// An address together with the provider that actually produced it.
#[derive(Clone, Copy, Debug, PartialEq, Eq, Structural)]
pub struct ResolvedAddress {
    pub address: IpAddress,
    pub provider: MyIpProvider,
}

/// Every candidate provider failed; `attempted` lists them in the order
/// they were tried.
#[derive(Clone, Debug)]
pub struct IpAddressResolutionError {
    pub attempted: Vec<MyIpProvider>,
}

/// What the resolver wants next.
#[derive(Clone, Debug)]
pub enum FailoverStep {
    /// Look the address up with this provider and report the outcome.
    Try(MyIpProvider),
    /// Resolution succeeded.
    Resolved(ResolvedAddress),
    /// Resolution failed: no candidate is left.
    Exhausted(IpAddressResolutionError),
}

/// Where resolution stands after a sequence of lookup outcomes.
pub enum Progress {
    Next(MyIpProvider),
    Found(IpAddress, MyIpProvider),
    Failed,
}

/// A lookup outcome counts for provider `p` when it produced an address of
/// `p`'s family; a transport error or an unparsable answer is `None`.
pub open spec fn accepts(p: MyIpProvider, outcome: Option<IpAddress>) -> bool {
    outcome matches Some(a) && (a is V6) == provider_is_v6(p)
}

/// Candidates from index `i` on, against the outcomes reported so far.
pub open spec fn progress_from(
    cands: Seq<MyIpProvider>,
    outcomes: Seq<Option<IpAddress>>,
    i: int,
) -> Progress
    decreases cands.len() - i,
{
    if i < 0 || i >= cands.len() {
        Progress::Failed
    } else if i >= outcomes.len() {
        Progress::Next(cands[i])
    } else if accepts(cands[i], outcomes[i]) {
        Progress::Found(outcomes[i]->0, cands[i])
    } else {
        progress_from(cands, outcomes, i + 1)
    }
}

/// Where resolution over `cands` stands once the `k`-th candidate's lookup
/// gave `outcomes[k]`: candidates are tried in order and the first accepted
/// outcome wins.
pub open spec fn progress(cands: Seq<MyIpProvider>, outcomes: Seq<Option<IpAddress>>) -> Progress {
    progress_from(cands, outcomes, 0)
}

/// Resolution of a request for provider `p`.
pub open spec fn resolve_spec(p: MyIpProvider, outcomes: Seq<Option<IpAddress>>) -> Progress {
    progress(alternatives(p), outcomes)
}

/// `step` reports `status`; an exhaustion carries the whole candidate list.
pub open spec fn reports(step: FailoverStep, status: Progress, cands: Seq<MyIpProvider>) -> bool {
    match status {
        Progress::Next(p) => step == FailoverStep::Try(p),
        Progress::Found(a, p) => step == FailoverStep::Resolved(
            ResolvedAddress { address: a, provider: p },
        ),
        Progress::Failed => step matches FailoverStep::Exhausted(e) && e.attempted@ == cands,
    }
}

/// Abstract state of a resolution in progress.
pub struct ResolutionView {
    pub candidates: Seq<MyIpProvider>,
    pub outcomes: Seq<Option<IpAddress>>,
}

/// Resolution of one request: candidates are tried one at a time, each
/// exactly once, until one yields an address of the expected family.
pub struct Resolution {
    candidates: Vec<MyIpProvider>,
    tried: usize,
    outcomes: Ghost<Seq<Option<IpAddress>>>,
}

impl View for Resolution {
    type V = ResolutionView;

    closed spec fn view(&self) -> ResolutionView {
        ResolutionView { candidates: self.candidates@, outcomes: self.outcomes@ }
    }
}

impl Resolution {
    /// Still waiting for the outcome of the candidate after those reported.
    pub closed spec fn wf(&self) -> bool {
        &&& self.tried == self.outcomes@.len()
        &&& self.tried < self.candidates@.len()
        &&& progress(self.candidates@, self.outcomes@) == Progress::Next(
            self.candidates@[self.tried as int],
        )
    }

    /// Starts resolving a request for `provider`.
    pub fn start(provider: MyIpProvider) -> (r: Resolution)
        ensures
            r.wf(),
            r@.candidates == alternatives(provider),
            r@.outcomes == Seq::<Option<IpAddress>>::empty(),
    {
        let candidates = find_provider_with_alternatives(&provider);
        proof {
            lemma_alternatives_same_family(provider);
        }
        Resolution { candidates, tried: 0, outcomes: Ghost(Seq::empty()) }
    }

    /// The provider whose lookup is awaited.
    pub fn candidate(&self) -> (r: MyIpProvider)
        requires
            self.wf(),
        ensures
            progress(self@.candidates, self@.outcomes) == Progress::Next(r),
    {
        self.candidates[self.tried]
    }

    /// Reports the outcome of the awaited lookup and says what comes next.
    pub fn record(&mut self, outcome: Option<IpAddress>) -> (step: FailoverStep)
        requires
            old(self).wf(),
        ensures
            final(self)@.candidates == old(self)@.candidates,
            final(self)@.outcomes == old(self)@.outcomes.push(outcome),
            reports(step, progress(final(self)@.candidates, final(self)@.outcomes), final(self)@.candidates),
            step is Try ==> final(self).wf(),
    {
        let ghost cands = self.candidates@;
        let ghost prev = self.outcomes@;
        let tried = self.tried;
        let n = self.candidates.len();
        assert(tried < n);
        let p = self.candidates[tried];
        let ghost outs = prev.push(outcome);
        self.outcomes = Ghost(outs);
        proof {
            lemma_progress_extend(cands, prev, outcome, 0);
        }
        let accepted = match outcome {
            Some(a) => a.is_v6() == is_provider_v6(&p),
            None => false,
        };
        if accepted {
            let a = outcome.unwrap();
            FailoverStep::Resolved(ResolvedAddress { address: a, provider: p })
        } else {
            self.tried = tried + 1;
            if self.tried < self.candidates.len() {
                FailoverStep::Try(self.candidates[self.tried])
            } else {
                FailoverStep::Exhausted(IpAddressResolutionError { attempted: self.candidates.clone() })
            }
        }
    }
}

/// With the candidates before `prev.len()` all refused, one more outcome
/// decides the candidate at `prev.len()` alone.
proof fn lemma_progress_extend(
    cands: Seq<MyIpProvider>,
    prev: Seq<Option<IpAddress>>,
    outcome: Option<IpAddress>,
    i: int,
)
    requires
        0 <= i <= prev.len() < cands.len(),
        progress_from(cands, prev, i) == Progress::Next(cands[prev.len() as int]),
    ensures
        progress_from(cands, prev.push(outcome), i) == (if accepts(
            cands[prev.len() as int],
            outcome,
        ) {
            Progress::Found(outcome->0, cands[prev.len() as int])
        } else {
            progress_from(cands, prev.push(outcome), prev.len() + 1int)
        }),
    decreases prev.len() - i,
{
    if i < prev.len() {
        lemma_progress_extend(cands, prev, outcome, i + 1);
    }
}

/// When the requested provider's lookup fails and the next same-family
/// alternative answers, resolution succeeds and reports that alternative,
/// which differs from the provider requested.
pub proof fn lemma_failover_to_alternative(p: MyIpProvider, outcomes: Seq<Option<IpAddress>>)
    requires
        alternatives(p).len() >= 2,
        outcomes.len() >= 2,
        !accepts(p, outcomes[0]),
        accepts(alternatives(p)[1], outcomes[1]),
    ensures
        resolve_spec(p, outcomes) == Progress::Found(outcomes[1]->0, alternatives(p)[1]),
        alternatives(p)[1] != p,
{
    lemma_alternatives_same_family(p);
    let cands = alternatives(p);
    assert(progress_from(cands, outcomes, 1) == Progress::Found(outcomes[1]->0, cands[1]));
}

/// When every candidate's lookup fails, resolution fails, and the step that
/// reports it lists every candidate in the order tried.
pub proof fn lemma_exhaustion_lists_all(
    p: MyIpProvider,
    outcomes: Seq<Option<IpAddress>>,
    step: FailoverStep,
)
    requires
        outcomes.len() == alternatives(p).len(),
        forall|i: int| 0 <= i < outcomes.len() ==> !accepts(alternatives(p)[i], #[trigger] outcomes[i]),
        reports(step, resolve_spec(p, outcomes), alternatives(p)),
    ensures
        resolve_spec(p, outcomes) == Progress::Failed,
        step matches FailoverStep::Exhausted(e) && e.attempted@ == alternatives(p),
{
    lemma_all_refused(alternatives(p), outcomes, 0);
}

proof fn lemma_all_refused(cands: Seq<MyIpProvider>, outcomes: Seq<Option<IpAddress>>, i: int)
    requires
        0 <= i,
        outcomes.len() == cands.len(),
        forall|j: int| i <= j < outcomes.len() ==> !accepts(cands[j], #[trigger] outcomes[j]),
    ensures
        progress_from(cands, outcomes, i) == Progress::Failed,
    decreases cands.len() - i,
{
    if i < cands.len() {
        lemma_all_refused(cands, outcomes, i + 1);
    }
}

impl IpAddressResolutionError {
    /// Human-readable description, naming the providers tried in order.
    pub fn message(&self) -> (r: String)
        ensures
            r@ == "Error on IP Address resolution: providers tried: "@ + joined_names(
                self.attempted@,
            ),
    {
        let mut s = String::from_str("Error on IP Address resolution: providers tried: ");
        let ghost head = s@;
        let mut i: usize = 0;
        while i < self.attempted.len()
            invariant
                0 <= i <= self.attempted.len(),
                s@ == head + joined_names(self.attempted@.take(i as int)),
            decreases self.attempted.len() - i,
        {
            assert(self.attempted@.take(i + 1).drop_last() =~= self.attempted@.take(i as int));
            if i > 0 {
                s.append(", ");
            }
            s.append(variant_name(self.attempted[i]));
            i += 1;
        }
        assert(self.attempted@.take(self.attempted.len() as int) =~= self.attempted@);
        s
    }
}

/// The identifier of a provider's variant.
pub open spec fn variant_name_spec(p: MyIpProvider) -> Seq<char> {
    match p {
        MyIpProvider::Ipify => "Ipify"@,
        MyIpProvider::IpifyV6 => "IpifyV6"@,
        MyIpProvider::Httpbin => "Httpbin"@,
        MyIpProvider::IdentMe => "IdentMe"@,
        MyIpProvider::IdentMeV6 => "IdentMeV6"@,
    }
}

/// The variant names of `ps`, separated by `", "`.
pub open spec fn joined_names(ps: Seq<MyIpProvider>) -> Seq<char>
    decreases ps.len(),
{
    if ps.len() == 0 {
        seq![]
    } else if ps.len() == 1 {
        variant_name_spec(ps[0])
    } else {
        joined_names(ps.drop_last()) + ", "@ + variant_name_spec(ps.last())
    }
}

/// The identifier of a provider's variant.
pub fn variant_name(p: MyIpProvider) -> (r: &'static str)
    ensures
        r@ == variant_name_spec(p),
{
    match p {
        MyIpProvider::Ipify => "Ipify",
        MyIpProvider::IpifyV6 => "IpifyV6",
        MyIpProvider::Httpbin => "Httpbin",
        MyIpProvider::IdentMe => "IdentMe",
        MyIpProvider::IdentMeV6 => "IdentMeV6",
    }
}

} // verus!
