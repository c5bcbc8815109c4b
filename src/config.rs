use vstd::prelude::*;
use vstd::string::StringExecFns;

use crate::provider::{MyIpProvider, describe, provider_name, registry, registry_order};

verus! {

/// Access key pair for the DNS-hosting API.
#[derive(Clone, Debug)]
pub struct AppAwsCredentials {
    pub access_key: String,
    pub secret_access_key: String,
}

/// What one run is configured to do.
#[derive(Clone, Debug)]
pub struct AppConfig {
    pub zone_id: String,
    pub record_set: String,
    pub record_set_v6: Option<String>,
    pub update_ipv4: bool,
    pub update_ipv6: bool,
    pub check_before_updating: Option<bool>,
    pub provider_v4: Option<String>,
    pub aws_access_key: Option<String>,
    pub aws_secret_access_key: Option<String>,
}

/// The IPv4 provider a configured name selects; an unknown name, or none,
/// selects ipify.
pub open spec fn v4_provider_named(name: Option<Seq<char>>) -> MyIpProvider {
    match name {
        Some(n) => if n == provider_name(MyIpProvider::Httpbin) {
            MyIpProvider::Httpbin
        } else if n == provider_name(MyIpProvider::IdentMe) {
            MyIpProvider::IdentMe
        } else {
            MyIpProvider::Ipify
        },
        None => MyIpProvider::Ipify,
    }
}

/// The IPv6 provider paired with an IPv4 one: ident.me's for ident.me,
/// ipify's otherwise.
pub open spec fn v6_partner(v4: MyIpProvider) -> MyIpProvider {
    if v4 == MyIpProvider::IdentMe {
        MyIpProvider::IdentMeV6
    } else {
        MyIpProvider::IpifyV6
    }
}

/// The IPv6 provider paired with `provider_v4`.
pub fn v6_provider_for(provider_v4: MyIpProvider) -> (r: MyIpProvider)
    ensures
        r == v6_partner(provider_v4),
{
    if provider_v4 == MyIpProvider::IdentMe {
        MyIpProvider::IdentMeV6
    } else {
        MyIpProvider::IpifyV6
    }
}

impl AppConfig {
    /// The preferred IPv4 provider.
    pub fn get_provider(&self) -> (r: MyIpProvider)
        ensures
            r == v4_provider_named(
                match self.provider_v4 {
                    Some(n) => Some(n@),
                    None => None,
                },
            ),
    {
        match &self.provider_v4 {
            None => MyIpProvider::Ipify,
            Some(n) => {
                let reg = registry_order();
                let mut i: usize = 0;
                while i < reg.len()
                    invariant
                        reg@ == registry(),
                        self.provider_v4 == Some(*n),
                        0 <= i <= reg.len(),
                        forall|j: int|
                            0 <= j < i && !(reg@[j] is IpifyV6 || reg@[j] is IdentMeV6)
                                ==> provider_name(#[trigger] reg@[j]) != n@,
                    decreases reg.len() - i,
                {
                    let info = describe(reg[i]);
                    let info_name = String::from_str(info.name);
                    if !info.is_v6 && info_name == *n {
                        proof {
                            if reg@[i as int] is Ipify {
                                reveal_strlit("ipify");
                                reveal_strlit("httpbin");
                                reveal_strlit("identme");
                                assert(n@ == "ipify"@);
                                assert(n@[0] != "httpbin"@[0]);
                                assert(n@[1] != "identme"@[1]);
                            } else if reg@[i as int] is IdentMe {
                                assert(!(reg@[2] is IpifyV6 || reg@[2] is IdentMeV6));
                                assert(provider_name(reg@[2]) != n@);
                            }
                        }
                        return reg[i];
                    }
                    i += 1;
                }
                assert(!(reg@[2] is IpifyV6 || reg@[2] is IdentMeV6));
                assert(!(reg@[3] is IpifyV6 || reg@[3] is IdentMeV6));
                assert(provider_name(reg@[2]) != n@);
                assert(provider_name(reg@[3]) != n@);
                MyIpProvider::Ipify
            },
        }
    }

    /// Whether updates are written without checking the record first.
    pub fn force_update(&self) -> (r: bool)
        ensures
            r == (self.check_before_updating == Some(false)),
    {
        match self.check_before_updating {
            Some(check) => !check,
            None => false,
        }
    }

    /// The record set that holds the IPv6 address: its own when configured,
    /// the IPv4 one otherwise.
    pub fn v6_record_set(&self) -> (r: &String)
        ensures
            *r == match self.record_set_v6 {
                Some(s) => s,
                None => self.record_set,
            },
    {
        match &self.record_set_v6 {
            Some(s) => s,
            None => &self.record_set,
        }
    }
}

/// Credentials for the run: those read from the credentials file when there
/// are any, else the configured key pair when both halves are set, else
/// none (the ambient credentials are then used).
pub fn choose_credentials(from_file: Option<AppAwsCredentials>, config: &AppConfig) -> (r: Option<
    AppAwsCredentials,
>)
    ensures
        from_file is Some ==> r == from_file,
        from_file is None ==> match (config.aws_access_key, config.aws_secret_access_key) {
            (Some(k), Some(s)) => r matches Some(c) && c.access_key@ == k@
                && c.secret_access_key@ == s@,
            _ => r is None,
        },
{
    match from_file {
        Some(c) => Some(c),
        None => match (&config.aws_access_key, &config.aws_secret_access_key) {
            (Some(k), Some(s)) => Some(
                AppAwsCredentials { access_key: k.clone(), secret_access_key: s.clone() },
            ),
            _ => None,
        },
    }
}

/// The lowercase form of a string, as Unicode defines it.
pub uninterp spec fn lower_of(s: Seq<char>) -> Seq<char>;

/// Relies on str::to_lowercase: the result depends on the characters alone.
#[verifier::external_body]
fn lowercase(s: &str) -> (r: String)
    ensures
        r@ == lower_of(s@),
{
    s.to_lowercase()
}

/// The zone picked from a numbered list of `count` zones, where the user
/// typed `choice` (numbered from 1); `None` when out of range.
pub fn hosted_zone_choice(choice: i32, count: usize) -> (r: Option<usize>)
    ensures
        1 <= choice <= count ==> r == Some((choice - 1) as usize),
        !(1 <= choice <= count) ==> r is None,
{
    if choice > 0 && (choice as u64) <= (count as u64) {
        Some((choice - 1) as usize)
    } else {
        None
    }
}

/// The full name of a record set: the prefix in lowercase, a dot, then the
/// zone's name.
pub fn record_set_name(prefix: &String, zone_name: &String) -> (r: String)
    ensures
        r@ == lower_of(prefix@) + "."@ + zone_name@,
{
    let mut r = lowercase(prefix.as_str());
    r.append(".");
    r.append(zone_name.as_str());
    r
}

/// Client of the DNS-hosting API, holding the credentials it signs with.
pub struct Route53Client {
    credentials: Option<AppAwsCredentials>,
}

impl Route53Client {
    /// The credentials this client was made with.
    pub closed spec fn credentials_spec(&self) -> Option<AppAwsCredentials> {
        self.credentials
    }

    pub fn new(credentials: Option<AppAwsCredentials>) -> (r: Self)
        ensures
            r.credentials_spec() == credentials,
    {
        Route53Client { credentials }
    }

    /// The credentials this client signs with; `None` for the ambient ones.
    pub fn credentials(&self) -> (r: &Option<AppAwsCredentials>)
        ensures
            *r == self.credentials_spec(),
    {
        &self.credentials
    }
}

} // verus!
