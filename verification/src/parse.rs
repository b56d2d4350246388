//! Reading an address string: a Unix socket path (`/path` or `unix:path`) or
//! a TCP address (`host:port`), decided together with what the host name
//! resolved to.

use vstd::prelude::*;
use vstd::string::StringSliceAdditionalSpecFns;
use crate::dual::{
    AddrError, Platform, BindTargetView, DualAddr, DualAddrView, SockAddr, UdsAddr, addr_result_view,
    bind_target_spec, lemma_tcp_binds_itself, lemma_uds_binds_its_path, pathname_error,
};

verus! {

/// The bytes of `"unix:"`.
pub open spec fn unix_scheme() -> Seq<u8> {
    seq![0x75u8, 0x6eu8, 0x69u8, 0x78u8, 0x3au8]
}

/// The bytes of `"/"`.
pub open spec fn root_slash() -> Seq<u8> {
    seq![0x2fu8]
}

/// Whether `s` starts with `prefix`.
pub open spec fn starts_with(s: Seq<u8>, prefix: Seq<u8>) -> bool {
    prefix.len() <= s.len() && s.take(prefix.len() as int) == prefix
}

/// Whether an address reads as a Unix socket path: it starts with `/` or
/// with `unix:`.
pub open spec fn is_unix_like(s: Seq<u8>) -> bool {
    starts_with(s, root_slash()) || starts_with(s, unix_scheme())
}

/// `s` with every leading `unix:` removed, one after the other.
pub open spec fn trim_unix_schemes(s: Seq<u8>) -> Seq<u8>
    decreases s.len(),
{
    if starts_with(s, unix_scheme()) {
        trim_unix_schemes(s.skip(5))
    } else {
        s
    }
}

/// The address an address string names, given what the platform offers for
/// Unix sockets and what the whole string resolved to as a TCP address
/// (`None` where it did not resolve).
///
/// A string that resolves is a TCP address, its first resolved address,
/// unless it reads as a Unix socket path on a platform with Unix sockets and
/// did not resolve.
pub open spec fn parse_spec(s: Seq<u8>, platform: Platform, resolved: Option<Seq<SockAddr>>) -> Result<DualAddrView, AddrError> {
    let has_uds = platform.has_uds;
    let unix_like = is_unix_like(s);
    let tcp_like = resolved is Some;
    if unix_like && has_uds && !tcp_like {
        let path = trim_unix_schemes(s);
        match pathname_error(path, platform.sun_path_len) {
            Some(e) => Err(e),
            None => Ok(DualAddrView::Uds(path)),
        }
    } else if tcp_like {
        let addrs = resolved->0;
        if addrs.len() > 0 {
            Ok(DualAddrView::Tcp(addrs[0]))
        } else {
            Err(AddrError::NoTcpAddress)
        }
    } else if unix_like && !has_uds {
        Err(AddrError::UdsUnsupported)
    } else {
        Err(AddrError::InvalidFormat)
    }
}

/// The sequence a resolution result holds, if any.
pub open spec fn resolved_view(resolved: Option<Vec<SockAddr>>) -> Option<Seq<SockAddr>> {
    match resolved {
        Some(v) => Some(v@),
        None => None,
    }
}

/// Whether `unix:` stands in `b` at `start`.
fn scheme_at(b: &[u8], start: usize) -> (r: bool)
    requires
        start <= b@.len(),
    ensures
        r == starts_with(b@.skip(start as int), unix_scheme()),
{
    let n = b.len();
    if n - start < 5 {
        return false;
    }
    let r = b[start] == 0x75 && b[start + 1] == 0x6e && b[start + 2] == 0x69 && b[start + 3] == 0x78
        && b[start + 4] == 0x3a;
    let ghost t = b@.skip(start as int).take(5);
    if r {
        assert(t =~= unix_scheme());
    } else {
        assert(t != unix_scheme()) by {
            if t == unix_scheme() {
                assert(t[0] == unix_scheme()[0]);
                assert(t[1] == unix_scheme()[1]);
                assert(t[2] == unix_scheme()[2]);
                assert(t[3] == unix_scheme()[3]);
                assert(t[4] == unix_scheme()[4]);
            }
        }
    }
    r
}

/// Whether an address reads as a Unix socket path.
pub fn unix_like(b: &[u8]) -> (r: bool)
    ensures
        r == is_unix_like(b@),
{
    let slash = b.len() >= 1 && b[0] == 0x2f;
    proof {
        if slash {
            assert(b@.take(1) =~= root_slash());
        } else if b@.len() >= 1 {
            assert(b@.take(1)[0] == b@[0]);
        }
        assert(b@.skip(0) =~= b@);
    }
    slash || scheme_at(b, 0)
}

/// The bytes of `b` with every leading `unix:` removed.
pub fn trim_unix_scheme(b: &[u8]) -> (r: Vec<u8>)
    ensures
        r@ == trim_unix_schemes(b@),
{
    let n = b.len();
    let mut i: usize = 0;
    assert(b@.skip(0) =~= b@);
    while scheme_at(b, i)
        invariant
            n == b@.len(),
            i <= n,
            trim_unix_schemes(b@) == trim_unix_schemes(b@.skip(i as int)),
        decreases n - i,
    {
        assert(b@.skip(i as int).skip(5) =~= b@.skip(i + 5));
        i = i + 5;
    }
    let mut out: Vec<u8> = Vec::with_capacity(n - i);
    let mut j: usize = i;
    while j < n
        invariant
            n == b@.len(),
            i <= j <= n,
            out@ == b@.subrange(i as int, j as int),
        decreases n - j,
    {
        out.push(b[j]);
        assert(b@.subrange(i as int, j + 1) =~= b@.subrange(i as int, j as int).push(b@[j as int]));
        j = j + 1;
    }
    assert(out@ =~= b@.skip(i as int));
    out
}

impl DualAddr {
    /// Reads an address string, given what the platform offers for Unix
    /// sockets and what the whole string resolved to as a TCP address (`None`
    /// where resolution failed).
    pub fn from_str(s: &str, platform: Platform, resolved: Option<Vec<SockAddr>>) -> (r: Result<DualAddr, AddrError>)
        ensures
            addr_result_view(r) == parse_spec(s.spec_bytes(), platform, resolved_view(resolved)),
    {
        let b = s.as_bytes();
        let unix = unix_like(b);
        if unix && platform.has_uds && resolved.is_none() {
            let path = trim_unix_scheme(b);
            match UdsAddr::from_pathname(path.as_slice(), platform.sun_path_len) {
                Ok(a) => Ok(DualAddr::Uds(a)),
                Err(e) => Err(e),
            }
        } else {
            match resolved {
                Some(addrs) => {
                    if addrs.len() > 0 {
                        Ok(DualAddr::Tcp(addrs[0]))
                    } else {
                        Err(AddrError::NoTcpAddress)
                    }
                },
                None => {
                    if unix && !platform.has_uds {
                        Err(AddrError::UdsUnsupported)
                    } else {
                        Err(AddrError::InvalidFormat)
                    }
                },
            }
        }
    }
}

/// Removing leading `unix:` schemes leaves a suffix of the address that does
/// not itself start with `unix:`.
pub proof fn lemma_trim_leaves_suffix(s: Seq<u8>)
    ensures
        trim_unix_schemes(s).len() <= s.len(),
        s.skip(s.len() - trim_unix_schemes(s).len()) == trim_unix_schemes(s),
        !starts_with(trim_unix_schemes(s), unix_scheme()),
    decreases s.len(),
{
    if starts_with(s, unix_scheme()) {
        lemma_trim_leaves_suffix(s.skip(5));
        let t = trim_unix_schemes(s.skip(5));
        assert(s.skip(5).skip(s.skip(5).len() - t.len()) =~= s.skip(s.len() - t.len()));
    } else {
        assert(s.skip(0) =~= s);
    }
}

/// An address that resolves to at least one TCP address names the first of
/// them, whatever it looks like and whatever the platform.
pub proof fn lemma_resolved_address_wins(s: Seq<u8>, platform: Platform, addrs: Seq<SockAddr>)
    requires
        addrs.len() > 0,
    ensures
        parse_spec(s, platform, Some(addrs)) == Ok::<DualAddrView, AddrError>(DualAddrView::Tcp(addrs[0])),
{
}

/// On a platform without Unix sockets, no address string names one.
pub proof fn lemma_no_uds_without_platform_support(s: Seq<u8>, platform: Platform, resolved: Option<Seq<SockAddr>>)
    requires
        !platform.has_uds,
    ensures
        !(parse_spec(s, platform, resolved) matches Ok(DualAddrView::Uds(_))),
{
}

/// An absolute path that does not resolve as a TCP address names the Unix
/// socket at that very path, where the path is a valid socket path.
pub proof fn lemma_absolute_path_names_itself(p: Seq<u8>, platform: Platform)
    requires
        platform.has_uds,
        starts_with(p, root_slash()),
        pathname_error(p, platform.sun_path_len) is None,
    ensures
        parse_spec(p, platform, None) == Ok::<DualAddrView, AddrError>(DualAddrView::Uds(p)),
{
    lemma_slash_is_not_scheme(p);
}

/// `unix:/path` and `/path` name the same address when neither resolves as a
/// TCP address.
pub proof fn lemma_unix_scheme_is_transparent(p: Seq<u8>, platform: Platform)
    requires
        starts_with(p, root_slash()),
    ensures
        parse_spec(unix_scheme() + p, platform, None) == parse_spec(p, platform, None),
{
    let s = unix_scheme() + p;
    assert(s.take(5) =~= unix_scheme());
    assert(s.skip(5) =~= p);
    lemma_slash_is_not_scheme(p);
    assert(trim_unix_schemes(s) == trim_unix_schemes(p));
}

proof fn lemma_slash_is_not_scheme(p: Seq<u8>)
    requires
        starts_with(p, root_slash()),
    ensures
        !starts_with(p, unix_scheme()),
        trim_unix_schemes(p) == p,
{
    assert(p.take(1)[0] == p[0]);
    if starts_with(p, unix_scheme()) {
        assert(p.take(5)[0] == p[0]);
    }
}


/// `/path` and `unix:/path`, where neither resolves as a TCP address and the
/// path is a valid socket path, both bind the Unix socket at `/path`.
pub proof fn lemma_path_address_binds_its_path(p: Seq<u8>, platform: Platform)
    requires
        platform.has_uds,
        starts_with(p, root_slash()),
        pathname_error(p, platform.sun_path_len) is None,
    ensures
        parse_spec(p, platform, None) == Ok::<DualAddrView, AddrError>(DualAddrView::Uds(p)),
        parse_spec(unix_scheme() + p, platform, None) == Ok::<DualAddrView, AddrError>(DualAddrView::Uds(p)),
        bind_target_spec(DualAddrView::Uds(p)) == Ok::<BindTargetView, AddrError>(BindTargetView::Uds(p)),
{
    lemma_absolute_path_names_itself(p, platform);
    lemma_unix_scheme_is_transparent(p, platform);
    lemma_uds_binds_its_path(p, platform.sun_path_len);
}

/// An address that resolves binds its first resolved TCP address.
pub proof fn lemma_resolved_address_binds_first(s: Seq<u8>, platform: Platform, addrs: Seq<SockAddr>)
    requires
        addrs.len() > 0,
    ensures
        parse_spec(s, platform, Some(addrs)) matches Ok(a) && bind_target_spec(a) == Ok::<BindTargetView, AddrError>(
            BindTargetView::Tcp(addrs[0]),
        ),
{
    lemma_resolved_address_wins(s, platform, addrs);
    lemma_tcp_binds_itself(addrs[0]);
}

} // verus!
