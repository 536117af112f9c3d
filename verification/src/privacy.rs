//! The privacy guard: every outbound request must pass its URL gate. In
//! local-only mode (the default) everything is refused; otherwise a URL
//! is allowed exactly when its host equals an allowlisted domain or is a
//! subdomain of one.

use vstd::prelude::*;

use crate::errors::DomainError;
use crate::text::str_eq;

verus! {

use vstd::string::StrSliceExecFns;
use vstd::string::StringExecFns;

/// What `url::Url::parse` followed by `host_str` yields for a URL text:
/// `None` when the text does not parse, `Some(None)` when it parses but
/// carries no host, and `Some(Some(host))` otherwise.
pub uninterp spec fn url_host_of(url: Seq<char>) -> Option<Option<Seq<char>>>;

/// Relies on `url::Url::parse` and `url::Url::host_str`: which host (if
/// any) a URL text carries is a function of the text alone.
#[verifier::external_body]
fn parse_url_host(url: &str) -> (r: Option<Option<String>>)
    ensures
        r is Some <==> url_host_of(url@) is Some,
        r matches Some(None) ==> url_host_of(url@) == Some(None::<Seq<char>>),
        r matches Some(Some(h)) ==> url_host_of(url@) == Some(Some(h@)),
{
    match url::Url::parse(url) {
        Ok(u) => Some(u.host_str().map(|h| h.to_string())),
        Err(_) => None,
    }
}

/// Whether a domain admits a host: the host is the domain itself, or a
/// subdomain of it (it ends with a dot followed by the domain).
pub open spec fn spec_host_matches(host: Seq<char>, domain: Seq<char>) -> bool {
    ||| host == domain
    ||| (host.len() > domain.len() && host[host.len() - domain.len() - 1] == '.'
        && host.subrange(host.len() - domain.len(), host.len() as int) == domain)
}

/// Whether some domain of an allowlist admits the host.
pub open spec fn spec_host_allowed(host: Seq<char>, domains: Seq<Seq<char>>) -> bool {
    exists|j: int| 0 <= j < domains.len() && spec_host_matches(host, domains[j])
}

/// Decide whether a domain admits a host.
pub fn host_matches(host: &str, domain: &str) -> (r: bool)
    ensures
        r == spec_host_matches(host@, domain@),
{
    if str_eq(host, domain) {
        return true;
    }
    let hl = host.unicode_len();
    let dl = domain.unicode_len();
    if hl <= dl {
        return false;
    }
    if host.get_char(hl - dl - 1) != '.' {
        return false;
    }
    let mut i: usize = 0;
    while i < dl
        invariant
            i <= dl,
            hl == host@.len(),
            dl == domain@.len(),
            hl > dl,
            forall|k: int| 0 <= k < i ==> host@[hl - dl + k] == domain@[k],
        decreases dl - i,
    {
        if host.get_char(hl - dl + i) != domain.get_char(i) {
            proof {
                let tail = host@.subrange(hl - dl, hl as int);
                assert(tail[i as int] != domain@[i as int]);
            }
            return false;
        }
        i = i + 1;
    }
    proof {
        assert(host@.subrange(hl - dl, hl as int) =~= domain@);
    }
    true
}

/// The privacy guard's policy state: whether local-only mode is on, and
/// which domains outbound requests may address when it is off.
pub struct PrivacyGuard {
    local_only: bool,
    allowed_domains: Vec<String>,
}

impl PrivacyGuard {
    /// Whether local-only mode is on.
    pub closed spec fn spec_local_only(&self) -> bool {
        self.local_only
    }

    /// The allowlisted domains.
    pub closed spec fn spec_domains(&self) -> Seq<Seq<char>> {
        Seq::new(self.allowed_domains@.len(), |j: int| self.allowed_domains@[j]@)
    }

    /// A guard with the given policy.
    pub fn new(local_only: bool, allowed_domains: Vec<String>) -> (r: PrivacyGuard)
        ensures
            r.spec_local_only() == local_only,
            r.spec_domains() == Seq::new(allowed_domains@.len(), |j: int| allowed_domains@[j]@),
    {
        PrivacyGuard { local_only, allowed_domains }
    }

    /// Switch local-only mode; future requests see the new policy.
    pub fn set_local_only(&mut self, local_only: bool)
        ensures
            final(self).spec_local_only() == local_only,
            final(self).spec_domains() == old(self).spec_domains(),
    {
        self.local_only = local_only;
    }

    /// Replace the allowlist; future requests see the new policy.
    pub fn set_allowed_domains(&mut self, domains: Vec<String>)
        ensures
            final(self).spec_local_only() == old(self).spec_local_only(),
            final(self).spec_domains() == Seq::new(domains@.len(), |j: int| domains@[j]@),
    {
        self.allowed_domains = domains;
    }

    /// Whether outbound requests are currently blocked wholesale.
    pub fn is_network_blocked(&self) -> (r: bool)
        ensures
            r == self.spec_local_only(),
    {
        self.local_only
    }

    /// The current allowlist.
    pub fn allowed_domains(&self) -> (r: Vec<String>)
        ensures
            Seq::new(r@.len(), |j: int| r@[j]@) == self.spec_domains(),
    {
        let mut out: Vec<String> = Vec::new();
        let mut i: usize = 0;
        while i < self.allowed_domains.len()
            invariant
                i <= self.allowed_domains@.len(),
                out@.len() == i,
                forall|j: int| 0 <= j < i ==> out@[j]@ == #[trigger] self.allowed_domains@[j]@,
            decreases self.allowed_domains@.len() - i,
        {
            out.push(self.allowed_domains[i].clone());
            i = i + 1;
        }
        proof {
            assert(Seq::new(out@.len(), |j: int| out@[j]@) =~= self.spec_domains());
        }
        out
    }

    /// The URL gate. In local-only mode every URL is refused with
    /// `NetworkBlocked`. Otherwise the URL must parse and carry a host
    /// (else `HttpRequest`), and the host must be admitted by some
    /// allowlisted domain (else `NetworkBlocked`).
    pub fn is_url_allowed(&self, url: &str) -> (r: Result<(), DomainError>)
        ensures
            self.spec_local_only() ==> (r matches Err(DomainError::NetworkBlocked { .. })),
            !self.spec_local_only() ==> match url_host_of(url@) {
                None => r matches Err(DomainError::HttpRequest(..)),
                Some(None) => r matches Err(DomainError::HttpRequest(..)),
                Some(Some(host)) => {
                    &&& (r is Ok <==> spec_host_allowed(host, self.spec_domains()))
                    &&& r is Err ==> (r matches Err(DomainError::NetworkBlocked { .. }))
                },
            },
    {
        if self.local_only {
            return Err(
                DomainError::NetworkBlocked {
                    reason: String::from_str(
                        "local-only mode is enabled; all network requests are blocked",
                    ),
                },
            );
        }
        let parsed = parse_url_host(url);
        let host = match parsed {
            None => {
                return Err(DomainError::HttpRequest(String::from_str("invalid URL")));
            },
            Some(None) => {
                return Err(DomainError::HttpRequest(String::from_str("invalid URL: no host")));
            },
            Some(Some(host)) => host,
        };
        let mut j: usize = 0;
        let mut allowed = false;
        while j < self.allowed_domains.len()
            invariant
                j <= self.allowed_domains@.len(),
                allowed <==> exists|k: int|
                    0 <= k < j && spec_host_matches(host@, self.spec_domains()[k]),
            decreases self.allowed_domains@.len() - j,
        {
            proof {
                assert(self.spec_domains()[j as int] == self.allowed_domains@[j as int]@);
            }
            if host_matches(host.as_str(), self.allowed_domains[j].as_str()) {
                allowed = true;
            }
            j = j + 1;
        }
        if allowed {
            Ok(())
        } else {
            let mut reason = String::from_str("domain '");
            reason.append(host.as_str());
            reason.append("' is not in the allowed list");
            Err(DomainError::NetworkBlocked { reason })
        }
    }
}

/// In local-only mode every URL is refused. With it off, a URL is
/// accepted exactly when some allowlisted domain admits its host: the
/// host equals the domain or is a subdomain of it.
pub proof fn lemma_gate_policy(host: Seq<char>, domains: Seq<Seq<char>>, j: int)
    requires
        0 <= j < domains.len(),
        host == domains[j] || (host.len() > domains[j].len() && host[host.len() - domains[j].len()
            - 1] == '.' && host.subrange(host.len() - domains[j].len(), host.len() as int)
            == domains[j]),
    ensures
        spec_host_allowed(host, domains),
{
}

} // verus!
