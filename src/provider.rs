use vstd::prelude::*;

verus! {

/// A public-IP lookup service, one variant per address family it answers for.
#[derive(Clone, Copy, Debug, PartialEq, Eq, Structural)]
pub enum MyIpProvider {
    Ipify,
    IpifyV6,
    Httpbin,
    IdentMe,
    IdentMeV6,
}

/// How a provider's HTTP response carries the address.
#[derive(Clone, Copy, Debug)]
pub enum LookupFormat {
    /// The body is the address itself.
    PlainText,
    /// The body is a JSON object; the address is the string under this key.
    JsonField(&'static str),
}

/// Descriptor of one registered provider.
#[derive(Clone, Copy, Debug)]
pub struct ProviderInfo {
    pub provider: MyIpProvider,
    pub name: &'static str,
    pub is_v6: bool,
    pub url: &'static str,
    pub format: LookupFormat,
}

/// The registry, in its fixed order.
pub open spec fn registry() -> Seq<MyIpProvider> {
    seq![
        MyIpProvider::Ipify,
        MyIpProvider::IpifyV6,
        MyIpProvider::Httpbin,
        MyIpProvider::IdentMe,
        MyIpProvider::IdentMeV6,
    ]
}

/// The address family a provider answers for.
pub open spec fn provider_is_v6(p: MyIpProvider) -> bool {
    p is IpifyV6 || p is IdentMeV6
}

/// The short service name that configuration uses for a provider.
pub open spec fn provider_name(p: MyIpProvider) -> Seq<char> {
    match p {
        MyIpProvider::Ipify | MyIpProvider::IpifyV6 => "ipify"@,
        MyIpProvider::Httpbin => "httpbin"@,
        MyIpProvider::IdentMe | MyIpProvider::IdentMeV6 => "identme"@,
    }
}

/// The endpoint a provider is asked at.
pub open spec fn provider_url(p: MyIpProvider) -> Seq<char> {
    match p {
        MyIpProvider::Ipify => "https://api.ipify.org?format=json"@,
        MyIpProvider::IpifyV6 => "https://api6.ipify.org?format=json"@,
        MyIpProvider::Httpbin => "https://httpbin.org/ip"@,
        MyIpProvider::IdentMe => "https://v4.ident.me/"@,
        MyIpProvider::IdentMeV6 => "https://v6.ident.me/"@,
    }
}

/// The JSON key under which a provider's answer holds the address, or
/// `None` when the answer is the bare address.
pub open spec fn provider_json_field(p: MyIpProvider) -> Option<Seq<char>> {
    match p {
        MyIpProvider::Ipify | MyIpProvider::IpifyV6 => Some("ip"@),
        MyIpProvider::Httpbin => Some("origin"@),
        MyIpProvider::IdentMe | MyIpProvider::IdentMeV6 => None,
    }
}

/// `f` is the format whose JSON key, if any, is `field`.
pub open spec fn format_is(f: LookupFormat, field: Option<Seq<char>>) -> bool {
    match f {
        LookupFormat::PlainText => field is None,
        LookupFormat::JsonField(k) => field == Some(k@),
    }
}

/// The members of `s`, in order, that share `p`'s family and are not `p`.
pub open spec fn same_family_others(p: MyIpProvider, s: Seq<MyIpProvider>) -> Seq<MyIpProvider>
    decreases s.len(),
{
    if s.len() == 0 {
        seq![]
    } else {
        let rest = same_family_others(p, s.drop_last());
        let q = s.last();
        if provider_is_v6(q) == provider_is_v6(p) && q != p {
            rest.push(q)
        } else {
            rest
        }
    }
}

/// The providers to try for a request of `p`: `p` first, then every other
/// registered provider of the same family, in registry order.
pub open spec fn alternatives(p: MyIpProvider) -> Seq<MyIpProvider> {
    seq![p] + same_family_others(p, registry())
}

/// The registered providers, in registry order.
pub fn registry_order() -> (r: Vec<MyIpProvider>)
    ensures
        r@ == registry(),
{
    let mut r: Vec<MyIpProvider> = Vec::new();
    r.push(MyIpProvider::Ipify);
    r.push(MyIpProvider::IpifyV6);
    r.push(MyIpProvider::Httpbin);
    r.push(MyIpProvider::IdentMe);
    r.push(MyIpProvider::IdentMeV6);
    assert(r@ =~= registry());
    r
}

/// The descriptor of a provider: its family, its endpoint and how the
/// endpoint's answer carries the address.
pub fn describe(p: MyIpProvider) -> (r: ProviderInfo)
    ensures
        r.provider == p,
        r.is_v6 == provider_is_v6(p),
        r.name@ == provider_name(p),
        r.url@ == provider_url(p),
        format_is(r.format, provider_json_field(p)),
{
    match p {
        MyIpProvider::Ipify => ProviderInfo {
            provider: p,
            name: "ipify",
            is_v6: false,
            url: "https://api.ipify.org?format=json",
            format: LookupFormat::JsonField("ip"),
        },
        MyIpProvider::IpifyV6 => ProviderInfo {
            provider: p,
            name: "ipify",
            is_v6: true,
            url: "https://api6.ipify.org?format=json",
            format: LookupFormat::JsonField("ip"),
        },
        MyIpProvider::Httpbin => ProviderInfo {
            provider: p,
            name: "httpbin",
            is_v6: false,
            url: "https://httpbin.org/ip",
            format: LookupFormat::JsonField("origin"),
        },
        MyIpProvider::IdentMe => ProviderInfo {
            provider: p,
            name: "identme",
            is_v6: false,
            url: "https://v4.ident.me/",
            format: LookupFormat::PlainText,
        },
        MyIpProvider::IdentMeV6 => ProviderInfo {
            provider: p,
            name: "identme",
            is_v6: true,
            url: "https://v6.ident.me/",
            format: LookupFormat::PlainText,
        },
    }
}

/// Returns true if the provider answers with IPv6 addresses.
pub fn is_provider_v6(provider: &MyIpProvider) -> (r: bool)
    ensures
        r == provider_is_v6(*provider),
{
    describe(*provider).is_v6
}

/// The providers to try for a request of `provider`: the provider itself,
/// followed by the registered alternatives of its family.
pub fn find_provider_with_alternatives(provider: &MyIpProvider) -> (r: Vec<MyIpProvider>)
    ensures
        r@ == alternatives(*provider),
{
    let p = *provider;
    let is_v6 = is_provider_v6(provider);
    let reg = registry_order();
    let mut providers: Vec<MyIpProvider> = Vec::new();
    providers.push(p);
    let mut i: usize = 0;
    while i < reg.len()
        invariant
            reg@ == registry(),
            0 <= i <= reg.len(),
            is_v6 == provider_is_v6(p),
            providers@ == seq![p] + same_family_others(p, reg@.take(i as int)),
        decreases reg.len() - i,
    {
        let c = reg[i];
        let ghost before = providers@;
        assert(reg@.take(i + 1).drop_last() =~= reg@.take(i as int));
        if is_provider_v6(&c) == is_v6 && c != p {
            providers.push(c);
            assert(providers@ =~= seq![p] + same_family_others(p, reg@.take(i + 1)));
        }
        i += 1;
    }
    assert(reg@.take(reg.len() as int) =~= reg@);
    providers
}

/// The first of `alternatives(p)` is `p`; the others share `p`'s family and
/// differ from `p`.
pub proof fn lemma_alternatives_same_family(p: MyIpProvider)
    ensures
        alternatives(p).len() >= 1,
        alternatives(p)[0] == p,
        forall|i: int|
            0 <= i < alternatives(p).len() ==> provider_is_v6(#[trigger] alternatives(p)[i])
                == provider_is_v6(p),
        forall|i: int| 1 <= i < alternatives(p).len() ==> #[trigger] alternatives(p)[i] != p,
{
    lemma_others_same_family(p, registry());
    let a = alternatives(p);
    let o = same_family_others(p, registry());
    assert forall|i: int| 1 <= i < a.len() implies a[i] == o[i - 1] by {}
}

proof fn lemma_others_same_family(p: MyIpProvider, s: Seq<MyIpProvider>)
    ensures
        forall|i: int|
            0 <= i < same_family_others(p, s).len() ==> {
                &&& provider_is_v6(#[trigger] same_family_others(p, s)[i]) == provider_is_v6(p)
                &&& same_family_others(p, s)[i] != p
            },
    decreases s.len(),
{
    if s.len() > 0 {
        lemma_others_same_family(p, s.drop_last());
    }
}

} // verus!
