//! What the address operations are for, stated over bytes, lengths and
//! sequences alone: reading an address string, checking a socket path,
//! choosing the socket to bind, converting and combining results.

use vstd::prelude::*;
use vstd::std_specs::convert::FromSpec;
use crate::dual::{
    AddrError, BindTarget, BindTargetView, DualAddr, DualAddrView, ErrorKind, Platform, SockAddr, UdsAddr,
    addr_result_view, bind_target_spec, pathname_error, pathname_spec, socket_file_spec,
};
use crate::multi::{all_ok, is_first_error, ok_values};
use crate::parse::{is_unix_like, parse_spec, resolved_view, trim_unix_schemes};

verus! {

/// Whether `s` starts with the bytes of `unix:`.
pub open spec fn has_unix_scheme(s: Seq<u8>) -> bool {
    s.len() >= 5 && s[0] == 0x75u8 && s[1] == 0x6eu8 && s[2] == 0x69u8 && s[3] == 0x78u8 && s[4] == 0x3au8
}

/// Whether `s` starts with the byte `/`.
pub open spec fn has_root_slash(s: Seq<u8>) -> bool {
    s.len() >= 1 && s[0] == 0x2fu8
}

/// A socket path is refused for a zero byte, and only for one, before its
/// length; a path without zero bytes is refused exactly when it does not fit
/// in `sun_path`.
pub proof fn law_pathname_checks(p: Seq<u8>, n: usize)
    ensures
        pathname_error(p, n) is None <==> (forall|i: int| 0 <= i < p.len() ==> p[i] != 0u8) && p.len() < n,
        pathname_error(p, n) == Some(AddrError::PathContainsNul) <==> exists|i: int| 0 <= i < p.len() && p[i] == 0u8,
        pathname_error(p, n) == Some(AddrError::PathTooLong) <==> (forall|i: int| 0 <= i < p.len() ==> p[i] != 0u8)
            && p.len() >= n,
        pathname_error(p, n) is None || pathname_error(p, n) == Some(AddrError::PathContainsNul)
            || pathname_error(p, n) == Some(AddrError::PathTooLong),
{
    if exists|i: int| 0 <= i < p.len() && p[i] == 0u8 {
        let i = choose|i: int| 0 <= i < p.len() && p[i] == 0u8;
        assert(p.contains(0u8));
    } else {
        assert(!p.contains(0u8));
    }
}

/// An address reads as a Unix socket path exactly when it starts with `/` or
/// with `unix:`.
pub proof fn law_unix_like(s: Seq<u8>)
    ensures
        is_unix_like(s) <==> has_root_slash(s) || has_unix_scheme(s),
{
    if s.len() >= 1 {
        assert(s.take(1)[0] == s[0]);
        if s[0] == 0x2fu8 {
            assert(s.take(1) =~= seq![0x2fu8]);
        }
    }
    if s.len() >= 5 {
        let t = s.take(5);
        assert(t[0] == s[0] && t[1] == s[1] && t[2] == s[2] && t[3] == s[3] && t[4] == s[4]);
        if has_unix_scheme(s) {
            assert(t =~= seq![0x75u8, 0x6eu8, 0x69u8, 0x78u8, 0x3au8]);
        }
    }
}

/// Removing leading `unix:` schemes removes one scheme at a time, and stops
/// at the first byte sequence that does not start with one.
pub proof fn law_trim_schemes(p: Seq<u8>)
    ensures
        trim_unix_schemes(seq![0x75u8, 0x6eu8, 0x69u8, 0x78u8, 0x3au8] + p) == trim_unix_schemes(p),
        !has_unix_scheme(p) ==> trim_unix_schemes(p) == p,
{
    let s = seq![0x75u8, 0x6eu8, 0x69u8, 0x78u8, 0x3au8] + p;
    assert(s.take(5) =~= seq![0x75u8, 0x6eu8, 0x69u8, 0x78u8, 0x3au8]);
    assert(s.skip(5) =~= p);
    law_unix_like(p);
    if !has_unix_scheme(p) && p.len() >= 5 {
        let t = p.take(5);
        if t == seq![0x75u8, 0x6eu8, 0x69u8, 0x78u8, 0x3au8] {
            assert(t[0] == p[0] && t[1] == p[1] && t[2] == p[2] && t[3] == p[3] && t[4] == p[4]);
        }
    }
}

/// A string that resolved to addresses is the first of them, on every
/// platform and whatever the string looks like; one that resolved to none is
/// refused.
pub proof fn law_parse_resolved(s: Seq<u8>, platform: Platform, addrs: Seq<SockAddr>)
    ensures
        addrs.len() > 0 ==> parse_spec(s, platform, Some(addrs)) == Ok::<DualAddrView, AddrError>(DualAddrView::Tcp(addrs[0])),
        addrs.len() == 0 ==> parse_spec(s, platform, Some(addrs)) == Err::<DualAddrView, AddrError>(AddrError::NoTcpAddress),
{
}

/// A string that did not resolve and starts neither with `/` nor with
/// `unix:` is refused as an invalid format; one that does start so is refused
/// as unsupported where the platform has no Unix sockets.
pub proof fn law_parse_unresolved_refusals(s: Seq<u8>, platform: Platform)
    ensures
        !has_root_slash(s) && !has_unix_scheme(s) ==> parse_spec(s, platform, None) == Err::<DualAddrView, AddrError>(
            AddrError::InvalidFormat,
        ),
        (has_root_slash(s) || has_unix_scheme(s)) && !platform.has_uds ==> parse_spec(s, platform, None)
            == Err::<DualAddrView, AddrError>(AddrError::UdsUnsupported),
{
    law_unix_like(s);
}

/// Only a string that starts with `/` or `unix:`, on a platform with Unix
/// sockets, names a Unix socket.
pub proof fn law_parse_uds_needs_path_syntax(s: Seq<u8>, platform: Platform, resolved: Option<Seq<SockAddr>>)
    ensures
        parse_spec(s, platform, resolved) matches Ok(DualAddrView::Uds(_)) ==> (has_root_slash(s) || has_unix_scheme(s))
            && platform.has_uds && resolved is None,
{
    law_unix_like(s);
}

/// An unresolved string starting with `/` names the Unix socket at that very
/// string, refused only where the string is no valid socket path.
pub proof fn law_parse_absolute_path(p: Seq<u8>, platform: Platform)
    requires
        has_root_slash(p),
        platform.has_uds,
    ensures
        (forall|i: int| 0 <= i < p.len() ==> p[i] != 0u8) && p.len() < platform.sun_path_len ==> parse_spec(p, platform, None)
            == Ok::<DualAddrView, AddrError>(DualAddrView::Uds(p)),
        (exists|i: int| 0 <= i < p.len() && p[i] == 0u8) ==> parse_spec(p, platform, None) == Err::<DualAddrView, AddrError>(
            AddrError::PathContainsNul,
        ),
        (forall|i: int| 0 <= i < p.len() ==> p[i] != 0u8) && p.len() >= platform.sun_path_len ==> parse_spec(p, platform, None)
            == Err::<DualAddrView, AddrError>(AddrError::PathTooLong),
{
    law_unix_like(p);
    assert(!has_unix_scheme(p));
    law_trim_schemes(p);
    law_pathname_checks(p, platform.sun_path_len);
}

/// `unix:` followed by a path that does not itself start with `unix:` names
/// the Unix socket at that path exactly as written, relative or absolute,
/// refused only where it is no valid socket path; a further `unix:` is
/// removed in turn.
pub proof fn law_parse_unix_scheme(p: Seq<u8>, platform: Platform)
    requires
        platform.has_uds,
    ensures
        !has_unix_scheme(p) && (forall|i: int| 0 <= i < p.len() ==> p[i] != 0u8) && p.len() < platform.sun_path_len
            ==> parse_spec(seq![0x75u8, 0x6eu8, 0x69u8, 0x78u8, 0x3au8] + p, platform, None)
            == Ok::<DualAddrView, AddrError>(DualAddrView::Uds(p)),
        !has_unix_scheme(p) && (exists|i: int| 0 <= i < p.len() && p[i] == 0u8) ==> parse_spec(
            seq![0x75u8, 0x6eu8, 0x69u8, 0x78u8, 0x3au8] + p,
            platform,
            None,
        ) == Err::<DualAddrView, AddrError>(AddrError::PathContainsNul),
        !has_unix_scheme(p) && (forall|i: int| 0 <= i < p.len() ==> p[i] != 0u8) && p.len() >= platform.sun_path_len
            ==> parse_spec(seq![0x75u8, 0x6eu8, 0x69u8, 0x78u8, 0x3au8] + p, platform, None)
            == Err::<DualAddrView, AddrError>(AddrError::PathTooLong),
        has_unix_scheme(p) ==> parse_spec(seq![0x75u8, 0x6eu8, 0x69u8, 0x78u8, 0x3au8] + p, platform, None) == parse_spec(
            p,
            platform,
            None,
        ),
{
    let s = seq![0x75u8, 0x6eu8, 0x69u8, 0x78u8, 0x3au8] + p;
    assert(s[0] == 0x75u8 && s[1] == 0x6eu8 && s[2] == 0x69u8 && s[3] == 0x78u8 && s[4] == 0x3au8);
    law_unix_like(s);
    law_unix_like(p);
    law_trim_schemes(p);
    law_pathname_checks(p, platform.sun_path_len);
}

/// A TCP address is bound as it is; a Unix socket at its path; a Unix socket
/// without a path cannot be bound.
pub proof fn law_bind_target(a: SockAddr, p: Seq<u8>)
    ensures
        bind_target_spec(DualAddrView::Tcp(a)) == Ok::<BindTargetView, AddrError>(BindTargetView::Tcp(a)),
        p.len() > 0 ==> bind_target_spec(DualAddrView::Uds(p)) == Ok::<BindTargetView, AddrError>(BindTargetView::Uds(p)),
        p.len() == 0 ==> bind_target_spec(DualAddrView::Uds(p)) == Err::<BindTargetView, AddrError>(AddrError::NoPathname),
{
}

/// A Unix socket reports its path back exactly when the path is not empty;
/// the socket file of an address is that path, and a TCP address has none.
pub proof fn law_pathname_and_socket_file(a: SockAddr, p: Seq<u8>)
    ensures
        p.len() > 0 ==> pathname_spec(p) == Some(p),
        p.len() == 0 ==> pathname_spec(p) is None,
        p.len() > 0 ==> socket_file_spec(DualAddrView::Uds(p)) == Some(p),
        p.len() == 0 ==> socket_file_spec(DualAddrView::Uds(p)) is None,
        socket_file_spec(DualAddrView::Tcp(a)) is None,
{
}

/// Converting a socket address into a dual address keeps it unchanged, IPv4
/// or IPv6.
pub proof fn law_from_keeps_the_address(a: SockAddr, u: UdsAddr)
    ensures
        <DualAddr as FromSpec<SockAddr>>::from_spec(a) == DualAddr::Tcp(a),
        <DualAddr as FromSpec<SockAddr>>::from_spec(a)@ == DualAddrView::Tcp(a),
        <DualAddr as FromSpec<UdsAddr>>::from_spec(u)@ == DualAddrView::Uds(u@),
{
}

/// The value of an address or of a socket to bind is its kind with its
/// content: the TCP address itself, or the path of the Unix socket; a
/// conversion result keeps its error.
pub proof fn law_views(a: SockAddr, u: UdsAddr, e: AddrError, v: Vec<SockAddr>, path: Vec<u8>)
    ensures
        BindTarget::Tcp(a)@ == BindTargetView::Tcp(a),
        BindTarget::Uds(path)@ == BindTargetView::Uds(path@),
        DualAddr::Tcp(a)@ == DualAddrView::Tcp(a),
        DualAddr::Uds(u)@ == DualAddrView::Uds(u@),
        addr_result_view(Ok::<DualAddr, AddrError>(DualAddr::Tcp(a))) == Ok::<DualAddrView, AddrError>(DualAddrView::Tcp(a)),
        addr_result_view(Err::<DualAddr, AddrError>(e)) == Err::<DualAddrView, AddrError>(e),
        resolved_view(Some(v)) == Some(v@),
        resolved_view(None) is None,
{
}

/// Only the lack of Unix sockets is reported as an error of another kind;
/// every other refusal is one of invalid input.
pub proof fn law_error_kinds(e: AddrError)
    ensures
        e.kind_spec() == ErrorKind::Other <==> e == AddrError::UdsUnsupported,
        e.kind_spec() == ErrorKind::InvalidInput <==> e != AddrError::UdsUnsupported,
{
}

/// The port of an address is the one it was made with.
pub proof fn law_port(ip4: u32, ip6: u128, port: u16, flowinfo: u32, scope_id: u32)
    ensures
        (SockAddr::V4 { ip: ip4, port }).port_spec() == port,
        (SockAddr::V6 { ip: ip6, port, flowinfo, scope_id }).port_spec() == port,
{
}

/// Combining results: all succeeded exactly when none failed; the values are
/// those of the results, one each and in order; the error reported is that of
/// the first failure, and it is the only error that can be reported.
pub proof fn law_combining<T, E>(s: Seq<Result<T, E>>, e1: E, e2: E)
    ensures
        all_ok(s) <==> !(exists|i: int| 0 <= i < s.len() && s[i] is Err),
        ok_values(s).len() == s.len(),
        forall|i: int| 0 <= i < s.len() && s[i] is Ok ==> s[i] == Ok::<T, E>(#[trigger] ok_values(s)[i]),
        is_first_error(s, e1) ==> exists|i: int|
            0 <= i < s.len() && s[i] == Err::<T, E>(e1) && (forall|j: int| 0 <= j < i ==> s[j] is Ok),
        is_first_error(s, e1) && is_first_error(s, e2) ==> e1 == e2,
        (exists|i: int| 0 <= i < s.len() && s[i] is Err) ==> exists|e: E| is_first_error(s, e),
{
    if is_first_error(s, e1) && is_first_error(s, e2) {
        let i = choose|i: int|
            0 <= i < s.len() && #[trigger] s[i] == Err::<T, E>(e1) && forall|j: int| 0 <= j < i ==> #[trigger] s[j] is Ok;
        let k = choose|k: int|
            0 <= k < s.len() && #[trigger] s[k] == Err::<T, E>(e2) && forall|j: int| 0 <= j < k ==> #[trigger] s[j] is Ok;
        if i < k {
            assert(s[i] is Ok);
        } else if k < i {
            assert(s[k] is Ok);
        }
    }
    if exists|i: int| 0 <= i < s.len() && s[i] is Err {
        lemma_first_error_exists(s);
    }
    assert forall|i: int| 0 <= i < s.len() && s[i] is Ok implies s[i] == Ok::<T, E>(#[trigger] ok_values(s)[i]) by {
    }
}

proof fn lemma_first_error_exists<T, E>(s: Seq<Result<T, E>>)
    requires
        exists|i: int| 0 <= i < s.len() && s[i] is Err,
    ensures
        exists|e: E| is_first_error(s, e),
    decreases s.len(),
{
    if s[0] is Err {
        let e = s[0]->Err_0;
        assert(s[0] == Err::<T, E>(e));
        assert(is_first_error(s, e));
    } else {
        let i = choose|i: int| 0 <= i < s.len() && s[i] is Err;
        let t = s.drop_first();
        assert(t[i - 1] == s[i]);
        lemma_first_error_exists(t);
        let e = choose|e: E| is_first_error(t, e);
        let k = choose|k: int|
            0 <= k < t.len() && #[trigger] t[k] == Err::<T, E>(e) && forall|j: int| 0 <= j < k ==> #[trigger] t[j] is Ok;
        assert(s[k + 1] == t[k]);
        assert forall|j: int| 0 <= j < k + 1 implies #[trigger] s[j] is Ok by {
            if j > 0 {
                assert(s[j] == t[j - 1]);
            }
        }
        assert(is_first_error(s, e));
    }
}

} // verus!
