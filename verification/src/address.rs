use vstd::prelude::*;
use vstd::seq_lib::*;
use vstd::string::StrSliceExecFns;
use vstd::string::StringExecFns;

use crate::error::Error;

verus! {

/// A parsed endpoint address: the transport-specific connect specification
/// that a textual address resolves to.
///
/// A unix-domain address is either a pathname socket (bound at a filesystem
/// path) or an abstract socket (bound to a name in the kernel namespace,
/// discriminated on the wire by a trailing NUL byte, see
/// [`abstract_socket_name`]).  A virtualized socket is addressed by a context
/// identifier and a port.
#[derive(Debug, PartialEq, Eq)]
pub enum EndpointAddress {
    PathnameUnix { path: String },
    AbstractUnix { path: String },
    Vsock { cid: u32, port: u32 },
}

/// The mathematical model of an [`EndpointAddress`].
pub enum AddressView {
    PathnameUnix { path: Seq<char> },
    AbstractUnix { path: Seq<char> },
    Vsock { cid: u32, port: u32 },
}

impl View for EndpointAddress {
    type V = AddressView;

    open spec fn view(&self) -> AddressView {
        match self {
            EndpointAddress::PathnameUnix { path } => AddressView::PathnameUnix { path: path@ },
            EndpointAddress::AbstractUnix { path } => AddressView::AbstractUnix { path: path@ },
            EndpointAddress::Vsock { cid, port } => AddressView::Vsock {
                cid: *cid,
                port: *port,
            },
        }
    }
}

pub open spec fn is_digit(c: char) -> bool {
    '0' <= c <= '9'
}

pub open spec fn digit_val(c: char) -> int {
    c as int - '0' as int
}

pub open spec fn all_digits(s: Seq<char>) -> bool {
    forall|i: int| 0 <= i < s.len() ==> is_digit(#[trigger] s[i])
}

/// The value of a digit string read in base ten.
pub open spec fn digits_val(s: Seq<char>) -> int
    decreases s.len(),
{
    if s.len() == 0 {
        0
    } else {
        digits_val(s.drop_last()) * 10 + digit_val(s.last())
    }
}

/// An optional single leading `+` sign, as the standard unsigned decimal
/// grammar admits, removed.
pub open spec fn strip_plus(s: Seq<char>) -> Seq<char> {
    if s.len() > 0 && s[0] == '+' {
        s.subrange(1, s.len() as int)
    } else {
        s
    }
}

/// Whether `s` is a decimal numeral (with an optional leading `+`) whose
/// value fits in a `u32`.
pub open spec fn is_u32_text(s: Seq<char>) -> bool {
    let d = strip_plus(s);
    d.len() > 0 && all_digits(d) && digits_val(d) <= u32::MAX
}

/// The value of such a numeral.
pub open spec fn u32_text_val(s: Seq<char>) -> int {
    digits_val(strip_plus(s))
}

proof fn lemma_digits_val_nonneg(s: Seq<char>)
    requires
        all_digits(s),
    ensures
        digits_val(s) >= 0,
    decreases s.len(),
{
    if s.len() > 0 {
        assert(all_digits(s.drop_last())) by {
            assert(forall|i: int|
                0 <= i < s.len() - 1 ==> #[trigger] s.drop_last()[i] == s[i]);
        }
        lemma_digits_val_nonneg(s.drop_last());
    }
}

/// Appending further digits can only grow the value of a numeral.
proof fn lemma_digits_val_prefix_le(s: Seq<char>, k: int)
    requires
        all_digits(s),
        0 <= k <= s.len(),
    ensures
        digits_val(s.subrange(0, k)) <= digits_val(s),
    decreases s.len() - k,
{
    if k == s.len() {
        assert(s.subrange(0, k) =~= s);
    } else {
        let t = s.drop_last();
        assert(all_digits(t)) by {
            assert(forall|i: int| 0 <= i < t.len() ==> #[trigger] t[i] == s[i]);
        }
        lemma_digits_val_prefix_le(t, k);
        assert(t.subrange(0, k) =~= s.subrange(0, k));
        lemma_digits_val_nonneg(t);
    }
}

/// Parses a decimal numeral exactly as the standard `u32` conversion does:
/// an optional leading `+`, then one or more digits, rejecting any other
/// character and any value above `u32::MAX`.
pub fn parse_u32(s: &str) -> (r: Option<u32>)
    ensures
        match r {
            Some(v) => is_u32_text(s@) && v as int == u32_text_val(s@),
            None => !is_u32_text(s@),
        },
{
    let n: usize = s.unicode_len();
    let start: usize = if n > 0 && s.get_char(0) == '+' {
        1
    } else {
        0
    };
    proof {
        assert(strip_plus(s@) =~= s@.subrange(start as int, n as int));
    }
    if start >= n {
        return None;
    }
    let ghost d: Seq<char> = s@.subrange(start as int, n as int);
    let mut acc: u64 = 0;
    let mut i: usize = start;
    while i < n
        invariant
            start <= i <= n,
            n == s@.len(),
            d == s@.subrange(start as int, n as int),
            d == strip_plus(s@),
            d.len() == n - start,
            all_digits(s@.subrange(start as int, i as int)),
            acc as int == digits_val(s@.subrange(start as int, i as int)),
            acc <= u32::MAX,
        decreases n - i,
    {
        let ghost p: Seq<char> = s@.subrange(start as int, i as int);
        let c = s.get_char(i);
        if c < '0' || c > '9' {
            proof {
                assert(d[i - start] == c);
                assert(!all_digits(d));
            }
            return None;
        }
        let dv: u32 = c as u32 - 48;
        let next: u64 = acc * 10 + dv as u64;
        let ghost q: Seq<char> = s@.subrange(start as int, i + 1 as int);
        proof {
            assert(q.drop_last() =~= p);
            assert(q.last() == c);
            assert(digits_val(q) == acc as int * 10 + digit_val(c));
            assert(dv as int == digit_val(c));
        }
        if next > 0xffff_ffff {
            proof {
                assert(digits_val(q) > u32::MAX);
                if all_digits(d) {
                    assert(q =~= d.subrange(0, i + 1 - start as int));
                    lemma_digits_val_prefix_le(d, i + 1 - start as int);
                }
            }
            return None;
        }
        acc = next;
        i = i + 1;
        proof {
            assert(all_digits(q)) by {
                assert(forall|j: int| 0 <= j < q.len() - 1 ==> #[trigger] q[j] == p[j]);
            }
        }
    }
    proof {
        assert(s@.subrange(start as int, i as int) =~= d);
    }
    Some(acc as u32)
}

/// The two fields of a virtualized-socket body `<cid>:<port>`: defined only
/// when the body holds exactly one colon and both sides are `u32` numerals;
/// any other field count or parse failure yields nothing.
pub open spec fn parse_vsock_body(s: Seq<char>) -> Option<(u32, u32)> {
    match s.index_of_first(':') {
        Some(i) => {
            let left = s.subrange(0, i);
            let right = s.subrange(i + 1, s.len() as int);
            if !right.contains(':') && is_u32_text(left) && is_u32_text(right) {
                Some((u32_text_val(left) as u32, u32_text_val(right) as u32))
            } else {
                None
            }
        },
        None => None,
    }
}

/// A path joined under the filesystem root: the tail itself when it is
/// already absolute, otherwise the root separator followed by the tail.
pub open spec fn root_join(s: Seq<char>) -> Seq<char> {
    if s.len() > 0 && s[0] == '/' {
        s
    } else {
        seq!['/'] + s
    }
}

/// What a textual address resolves to, or nothing when it is rejected.
///
/// The three forms are recognized by prefix, in a fixed priority order: the
/// virtualized-socket scheme, the two explicit unix schemes (both pathname
/// sockets, their tail joined under the root), and by default the whole
/// string as the tail of an abstract-namespace path, also joined under the
/// root.  Only a malformed virtualized-socket body is rejected.
pub open spec fn resolve_spec(s: Seq<char>) -> Option<AddressView> {
    if "ttrpc+vsock://"@.is_prefix_of(s) {
        match parse_vsock_body(s.subrange("ttrpc+vsock://"@.len() as int, s.len() as int)) {
            Some(cp) => Some(AddressView::Vsock { cid: cp.0, port: cp.1 }),
            None => None,
        }
    } else if "ttrpc+unix://"@.is_prefix_of(s) {
        Some(
            AddressView::PathnameUnix {
                path: root_join(s.subrange("ttrpc+unix://"@.len() as int, s.len() as int)),
            },
        )
    } else if "unix://"@.is_prefix_of(s) {
        Some(
            AddressView::PathnameUnix {
                path: root_join(s.subrange("unix://"@.len() as int, s.len() as int)),
            },
        )
    } else {
        Some(AddressView::AbstractUnix { path: root_join(s) })
    }
}

/// Which addresses resolve at all: every address outside the
/// virtualized-socket scheme resolves (to a pathname or an abstract unix
/// specification), and one under that scheme resolves exactly when its body
/// is a well-formed `<cid>:<port>` pair — a malformed body is rejected
/// outright, before any socket could be created.
pub proof fn lemma_resolve_accepts_grammar(s: Seq<char>)
    ensures
        !"ttrpc+vsock://"@.is_prefix_of(s) ==> resolve_spec(s) is Some,
        "ttrpc+vsock://"@.is_prefix_of(s) ==> (resolve_spec(s) is Some <==> parse_vsock_body(
            s.subrange("ttrpc+vsock://"@.len() as int, s.len() as int),
        ) is Some),
{
}

fn str_starts_with(s: &str, prefix: &str) -> (b: bool)
    ensures
        b == prefix@.is_prefix_of(s@),
{
    let n: usize = prefix.unicode_len();
    if n > s.unicode_len() {
        return false;
    }
    let mut j: usize = 0;
    while j < n
        invariant
            j <= n,
            n == prefix@.len(),
            n <= s@.len(),
            forall|k: int| 0 <= k < j ==> s@[k] == prefix@[k],
        decreases n - j,
    {
        if s.get_char(j) != prefix.get_char(j) {
            proof {
                if prefix@.is_prefix_of(s@) {
                    assert(prefix@[j as int] == s@.subrange(0, n as int)[j as int]);
                }
            }
            return false;
        }
        j = j + 1;
    }
    proof {
        assert(prefix@ =~= s@.subrange(0, n as int));
    }
    true
}

fn rooted_path(tail: &str) -> (p: String)
    ensures
        p@ == root_join(tail@),
{
    if tail.unicode_len() > 0 && tail.get_char(0) == '/' {
        tail.to_owned()
    } else {
        let mut p = String::from_str("/");
        proof {
            reveal_strlit("/");
            assert("/"@ =~= seq!['/']);
        }
        p.append(tail);
        p
    }
}

fn vsock_invalid_error(address: &str) -> (e: Error)
    ensures
        e is Other,
{
    let mut m = String::from_str("vsock address ");
    m.append(address);
    m.append(" is invalid");
    Error::Other(m)
}

fn parse_field_error(what: &str, text: &str) -> (e: Error)
    ensures
        e is Other,
{
    let mut m = String::from_str("failed to parse ");
    m.append(what);
    m.append(": ");
    m.append(text);
    Error::Other(m)
}

/// Turns a textual endpoint address into its connect specification.
///
/// Exactly the addresses that [`resolve_spec`] rejects are answered with an
/// error, and every accepted address yields the specification that
/// [`resolve_spec`] gives it; a virtualized-socket decode failure is a hard
/// error, never a default.
pub fn resolve(addr: &str) -> (r: Result<EndpointAddress, Error>)
    ensures
        match r {
            Ok(a) => resolve_spec(addr@) == Some(a@),
            Err(e) => resolve_spec(addr@) is None && e is Other,
        },
{
    proof {
        reveal_strlit("ttrpc+vsock://");
        reveal_strlit("ttrpc+unix://");
        reveal_strlit("unix://");
    }
    if str_starts_with(addr, "ttrpc+vsock://") {
        let body = addr.substring_char(14, addr.unicode_len());
        proof {
            assert(body@ == addr@.subrange("ttrpc+vsock://"@.len() as int, addr@.len() as int));
        }
        let m: usize = body.unicode_len();
        let mut i: usize = 0;
        while i < m && body.get_char(i) != ':'
            invariant
                i <= m,
                m == body@.len(),
                forall|k: int| 0 <= k < i ==> body@[k] != ':',
            decreases m - i,
        {
            i = i + 1;
        }
        if i == m {
            proof {
                assert(!body@.contains(':'));
                body@.index_of_first_ensures(':');
            }
            return Err(vsock_invalid_error(body));
        }
        proof {
            body@.index_of_first_ensures(':');
            assert(body@.contains(':'));
            let idx = body@.index_of_first(':').unwrap();
            assert(body@[idx] == ':');
            assert(idx == i);
        }
        let mut k: usize = i + 1;
        while k < m && body.get_char(k) != ':'
            invariant
                i < k <= m,
                m == body@.len(),
                forall|j: int| i < j < k ==> body@[j] != ':',
            decreases m - k,
        {
            k = k + 1;
        }
        let ghost right_view: Seq<char> = body@.subrange(i + 1, m as int);
        if k < m {
            proof {
                assert(right_view[k - i - 1] == ':');
                assert(right_view.contains(':'));
            }
            return Err(vsock_invalid_error(body));
        }
        proof {
            assert(forall|j: int| 0 <= j < right_view.len() ==> #[trigger] right_view[j] != ':');
            assert(!right_view.contains(':'));
        }
        let left = body.substring_char(0, i);
        let right = body.substring_char(i + 1, m);
        match parse_u32(left) {
            None => Err(parse_field_error("cid", left)),
            Some(cid) => match parse_u32(right) {
                None => Err(parse_field_error("port", right)),
                Some(port) => Ok(EndpointAddress::Vsock { cid, port }),
            },
        }
    } else if str_starts_with(addr, "ttrpc+unix://") {
        let tail = addr.substring_char(13, addr.unicode_len());
        Ok(EndpointAddress::PathnameUnix { path: rooted_path(tail) })
    } else if str_starts_with(addr, "unix://") {
        let tail = addr.substring_char(7, addr.unicode_len());
        Ok(EndpointAddress::PathnameUnix { path: rooted_path(tail) })
    } else {
        Ok(EndpointAddress::AbstractUnix { path: rooted_path(addr) })
    }
}

/// The wire name of an abstract unix socket: the resolved path with a single
/// trailing NUL appended.  The NUL suffix is the socket-addressing
/// discriminator between abstract and pathname unix sockets and is preserved
/// byte for byte when the name is bound.
pub fn abstract_socket_name(path: &str) -> (name: String)
    ensures
        name@ == path@ + seq!['\u{0}'],
{
    let mut name = path.to_owned();
    name.append("\u{0}");
    proof {
        reveal_strlit("\u{0}");
        assert("\u{0}"@ =~= seq!['\u{0}']);
    }
    name
}

} // verus!
