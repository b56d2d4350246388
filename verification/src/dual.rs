//! The address model shared by every listener: TCP socket addresses, Unix
//! domain socket addresses, the address of either kind, and the socket that a
//! listener binds for an address.

use vstd::prelude::*;

verus! {

/// What the platform offers for Unix sockets: whether it has them at all,
/// and the size of `sun_path` in its socket addresses (a path must be
/// strictly shorter than this).
#[derive(Clone, Copy, Debug, PartialEq, Eq, Structural)]
pub struct Platform {
    pub has_uds: bool,
    pub sun_path_len: usize,
}

/// Why an address was refused.
#[derive(Clone, Copy, Debug, PartialEq, Eq, Structural)]
pub enum AddrError {
    /// A Unix socket path holds a zero byte.
    PathContainsNul,
    /// A Unix socket path is not shorter than the platform's `sun_path`.
    PathTooLong,
    /// The host name resolved, but to no address at all.
    NoTcpAddress,
    /// The address names a Unix socket on a platform without them.
    UdsUnsupported,
    /// The address is neither a TCP address nor a Unix socket path.
    InvalidFormat,
    /// A Unix socket address without a path cannot be bound.
    NoPathname,
}

/// The kind of I/O error under which an `AddrError` is reported.
#[derive(Clone, Copy, Debug, PartialEq, Eq, Structural)]
pub enum ErrorKind {
    InvalidInput,
    Other,
}

impl AddrError {
    pub open spec fn kind_spec(self) -> ErrorKind {
        match self {
            AddrError::UdsUnsupported => ErrorKind::Other,
            _ => ErrorKind::InvalidInput,
        }
    }

    /// The kind of I/O error that reports this refusal.
    pub fn kind(&self) -> (r: ErrorKind)
        ensures
            r == self.kind_spec(),
    {
        match self {
            AddrError::UdsUnsupported => ErrorKind::Other,
            _ => ErrorKind::InvalidInput,
        }
    }

    /// The message that reports this refusal.
    pub fn message(&self) -> (r: &'static str)
        ensures
            *self == AddrError::PathContainsNul ==> r@ == "paths must not contain interior null bytes"@,
            *self == AddrError::PathTooLong ==> r@ == "path must be shorter than SUN_LEN"@,
            *self == AddrError::NoTcpAddress ==> r@ == "Invalid TCP address"@,
            *self == AddrError::UdsUnsupported ==> r@ == "Unix domain sockets are not supported on this platform"@,
            *self == AddrError::InvalidFormat ==> r@ == "Invalid address format"@,
            *self == AddrError::NoPathname ==> r@ == "UDS address does not have a valid pathname"@,
    {
        match self {
            AddrError::PathContainsNul => "paths must not contain interior null bytes",
            AddrError::PathTooLong => "path must be shorter than SUN_LEN",
            AddrError::NoTcpAddress => "Invalid TCP address",
            AddrError::UdsUnsupported => "Unix domain sockets are not supported on this platform",
            AddrError::InvalidFormat => "Invalid address format",
            AddrError::NoPathname => "UDS address does not have a valid pathname",
        }
    }
}

/// A TCP socket address, IPv4 or IPv6, with the address held as its
/// big-endian integer value.
#[derive(Clone, Copy, Debug, PartialEq, Eq, Structural)]
#[allow(inconsistent_fields)]
pub enum SockAddr {
    /// An IPv4 address and port.
    V4 { ip: u32, port: u16 },
    /// An IPv6 address and port, with the flow label and scope of the socket.
    V6 { ip: u128, port: u16, flowinfo: u32, scope_id: u32 },
}

impl SockAddr {
    pub open spec fn port_spec(self) -> u16 {
        match self {
            SockAddr::V4 { port, .. } => port,
            SockAddr::V6 { port, .. } => port,
        }
    }

    /// The port of the address.
    pub fn port(&self) -> (r: u16)
        ensures
            r == self.port_spec(),
    {
        match self {
            SockAddr::V4 { port, .. } => *port,
            SockAddr::V6 { port, .. } => *port,
        }
    }
}

/// What a Unix socket path is refused for, if anything: a zero byte comes
/// first, then the length against the size of `sun_path`.
pub open spec fn pathname_error(path: Seq<u8>, sun_path_len: usize) -> Option<AddrError> {
    if path.contains(0u8) {
        Some(AddrError::PathContainsNul)
    } else if path.len() >= sun_path_len {
        Some(AddrError::PathTooLong)
    } else {
        None
    }
}

/// The path of a Unix socket address with path bytes `path`: none for an
/// unnamed socket, whose path is empty.
pub open spec fn pathname_spec(path: Seq<u8>) -> Option<Seq<u8>> {
    if path.len() > 0 {
        Some(path)
    } else {
        None
    }
}

/// The address of a Unix domain socket: the bytes of its path, empty for an
/// unnamed socket.
#[derive(Debug)]
pub struct UdsAddr {
    path: Vec<u8>,
}

impl View for UdsAddr {
    type V = Seq<u8>;

    closed spec fn view(&self) -> Seq<u8> {
        self.path@
    }
}

impl UdsAddr {
    /// The address of the socket at `path`, refused where the path holds a
    /// zero byte or is too long for a socket address whose `sun_path` holds
    /// `sun_path_len` bytes.
    pub fn from_pathname(path: &[u8], sun_path_len: usize) -> (r: Result<UdsAddr, AddrError>)
        ensures
            match pathname_error(path@, sun_path_len) {
                Some(e) => r == Err::<UdsAddr, AddrError>(e),
                None => r matches Ok(a) && a@ == path@,
            },
    {
        let n = path.len();
        let mut copy: Vec<u8> = Vec::with_capacity(n);
        let mut i: usize = 0;
        while i < n
            invariant
                n == path@.len(),
                i <= n,
                copy@ == path@.take(i as int),
                !copy@.contains(0u8),
            decreases n - i,
        {
            if path[i] == 0 {
                assert(path@[i as int] == 0u8);
                return Err(AddrError::PathContainsNul);
            }
            copy.push(path[i]);
            assert(path@.take(i + 1) =~= path@.take(i as int).push(path@[i as int]));
            i = i + 1;
        }
        assert(path@.take(n as int) =~= path@);
        if n >= sun_path_len {
            return Err(AddrError::PathTooLong);
        }
        Ok(UdsAddr { path: copy })
    }

    /// The path of the socket, or `None` for an unnamed socket.
    pub fn as_pathname(&self) -> (r: Option<&[u8]>)
        ensures
            match r {
                Some(p) => pathname_spec(self@) == Some(p@),
                None => pathname_spec(self@) is None,
            },
    {
        if self.path.len() == 0 {
            None
        } else {
            Some(self.path.as_slice())
        }
    }
}

impl Clone for UdsAddr {
    fn clone(&self) -> (r: Self)
        ensures
            r@ == self@,
    {
        let path = self.path.clone();
        assert(path@ =~= self.path@);
        UdsAddr { path }
    }
}

/// An address that is either a TCP socket address or a Unix socket address.
#[derive(Debug)]
pub enum DualAddr {
    /// A TCP socket address.
    Tcp(SockAddr),
    /// A Unix domain socket address.
    Uds(UdsAddr),
}

/// The mathematical value of a `DualAddr`.
pub enum DualAddrView {
    Tcp(SockAddr),
    Uds(Seq<u8>),
}

impl View for DualAddr {
    type V = DualAddrView;

    open spec fn view(&self) -> DualAddrView {
        match self {
            DualAddr::Tcp(a) => DualAddrView::Tcp(*a),
            DualAddr::Uds(a) => DualAddrView::Uds(a@),
        }
    }
}

/// The value of a conversion result, its address taken by its view.
pub open spec fn addr_result_view(r: Result<DualAddr, AddrError>) -> Result<DualAddrView, AddrError> {
    match r {
        Ok(a) => Ok(a@),
        Err(e) => Err(e),
    }
}

impl Clone for DualAddr {
    fn clone(&self) -> (r: Self)
        ensures
            r@ == self@,
    {
        match self {
            DualAddr::Tcp(a) => DualAddr::Tcp(*a),
            DualAddr::Uds(a) => DualAddr::Uds(a.clone()),
        }
    }
}

impl From<SockAddr> for DualAddr {
    fn from(addr: SockAddr) -> (r: Self)
        ensures
            r == DualAddr::Tcp(addr),
    {
        DualAddr::Tcp(addr)
    }
}

impl vstd::std_specs::convert::FromSpecImpl<SockAddr> for DualAddr {
    open spec fn obeys_from_spec() -> bool {
        true
    }

    open spec fn from_spec(v: SockAddr) -> DualAddr {
        DualAddr::Tcp(v)
    }
}

impl From<UdsAddr> for DualAddr {
    fn from(addr: UdsAddr) -> (r: Self)
        ensures
            r@ == DualAddrView::Uds(addr@),
    {
        DualAddr::Uds(addr)
    }
}

impl vstd::std_specs::convert::FromSpecImpl<UdsAddr> for DualAddr {
    open spec fn obeys_from_spec() -> bool {
        true
    }

    open spec fn from_spec(v: UdsAddr) -> DualAddr {
        DualAddr::Uds(v)
    }
}

/// Conversion of a value into the address that a listener binds.
pub trait ToDualAddr {
    /// The address this value names.
    fn to_dual_addr(&self) -> Result<DualAddr, AddrError>;
}

impl ToDualAddr for SockAddr {
    fn to_dual_addr(&self) -> (r: Result<DualAddr, AddrError>)
        ensures
            addr_result_view(r) == Ok::<DualAddrView, AddrError>(DualAddrView::Tcp(*self)),
    {
        Ok(DualAddr::Tcp(*self))
    }
}

impl ToDualAddr for UdsAddr {
    fn to_dual_addr(&self) -> (r: Result<DualAddr, AddrError>)
        ensures
            addr_result_view(r) == Ok::<DualAddrView, AddrError>(DualAddrView::Uds(self@)),
    {
        Ok(DualAddr::Uds(self.clone()))
    }
}

impl ToDualAddr for DualAddr {
    fn to_dual_addr(&self) -> (r: Result<DualAddr, AddrError>)
        ensures
            addr_result_view(r) == Ok::<DualAddrView, AddrError>(self@),
    {
        Ok(self.clone())
    }
}

/// The socket a listener binds: a TCP address, or the path of a Unix socket.
#[derive(Debug)]
pub enum BindTarget {
    Tcp(SockAddr),
    Uds(Vec<u8>),
}

/// The mathematical value of a `BindTarget`.
pub enum BindTargetView {
    Tcp(SockAddr),
    Uds(Seq<u8>),
}

impl View for BindTarget {
    type V = BindTargetView;

    open spec fn view(&self) -> BindTargetView {
        match self {
            BindTarget::Tcp(a) => BindTargetView::Tcp(*a),
            BindTarget::Uds(p) => BindTargetView::Uds(p@),
        }
    }
}

/// The socket that a listener binds for an address: a TCP address as it is,
/// a Unix socket at its path; an unnamed Unix socket cannot be bound.
pub open spec fn bind_target_spec(addr: DualAddrView) -> Result<BindTargetView, AddrError> {
    match addr {
        DualAddrView::Tcp(a) => Ok(BindTargetView::Tcp(a)),
        DualAddrView::Uds(p) => match pathname_spec(p) {
            Some(path) => Ok(BindTargetView::Uds(path)),
            None => Err(AddrError::NoPathname),
        },
    }
}

impl DualAddr {
    /// The socket that a listener binds for this address.
    pub fn bind_target(&self) -> (r: Result<BindTarget, AddrError>)
        ensures
            match r {
                Ok(t) => bind_target_spec(self@) == Ok::<BindTargetView, AddrError>(t@),
                Err(e) => bind_target_spec(self@) == Err::<BindTargetView, AddrError>(e),
            },
    {
        match self {
            DualAddr::Tcp(a) => Ok(BindTarget::Tcp(*a)),
            DualAddr::Uds(a) => match a.as_pathname() {
                Some(p) => {
                    let mut path: Vec<u8> = Vec::new();
                    let n = p.len();
                    let mut i: usize = 0;
                    while i < n
                        invariant
                            n == p@.len(),
                            i <= n,
                            path@ == p@.take(i as int),
                        decreases n - i,
                    {
                        path.push(p[i]);
                        assert(p@.take(i + 1) =~= p@.take(i as int).push(p@[i as int]));
                        i = i + 1;
                    }
                    assert(p@.take(n as int) =~= p@);
                    Ok(BindTarget::Uds(path))
                },
                None => Err(AddrError::NoPathname),
            },
        }
    }

    /// The socket file that belongs to this address and is removed when the
    /// address is let go: the path of a named Unix socket, none otherwise.
    pub fn socket_file(&self) -> (r: Option<&[u8]>)
        ensures
            match r {
                Some(q) => socket_file_spec(self@) == Some(q@),
                None => socket_file_spec(self@) is None,
            },
    {
        match self {
            DualAddr::Tcp(_) => None,
            DualAddr::Uds(a) => a.as_pathname(),
        }
    }
}

/// The socket file that belongs to an address: the path of a named Unix
/// socket, none for a TCP address or an unnamed socket.
pub open spec fn socket_file_spec(addr: DualAddrView) -> Option<Seq<u8>> {
    match addr {
        DualAddrView::Tcp(_) => None,
        DualAddrView::Uds(p) => pathname_spec(p),
    }
}

/// A valid, non-empty path given to a Unix socket address is the path that
/// address reports back.
pub proof fn lemma_pathname_round_trip(path: Seq<u8>, sun_path_len: usize)
    requires
        pathname_error(path, sun_path_len) is None,
        path.len() > 0,
    ensures
        pathname_spec(path) == Some(path),
        socket_file_spec(DualAddrView::Uds(path)) == Some(path),
{
}

/// A Unix socket made from a valid, non-empty path is bound at that path,
/// and its socket file is that path.
pub proof fn lemma_uds_binds_its_path(path: Seq<u8>, sun_path_len: usize)
    requires
        pathname_error(path, sun_path_len) is None,
        path.len() > 0,
    ensures
        bind_target_spec(DualAddrView::Uds(path)) == Ok::<BindTargetView, AddrError>(BindTargetView::Uds(path)),
{
}

/// A TCP address is bound as it is.
pub proof fn lemma_tcp_binds_itself(addr: SockAddr)
    ensures
        bind_target_spec(DualAddrView::Tcp(addr)) == Ok::<BindTargetView, AddrError>(BindTargetView::Tcp(addr)),
{
}

} // verus!
