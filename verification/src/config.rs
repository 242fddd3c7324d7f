//! Node configuration and the peer registry: the node's own endpoint, the
//! configured sibling addresses, parsing of `host:port` text, and the
//! self-exclusion filter applied to the peer list at startup.

use vstd::prelude::*;
use vstd::string::StrSliceExecFns;
use vstd::string::StringExecFns;

verus! {

/// A sibling node's endpoint as configured: a textual host (an IP address
/// or a name such as `localhost`) and a port.  Resolving names to
/// addresses is the embedding program's business.
pub struct PeerAddress {
    pub host: String,
    pub port: u16,
}

impl PeerAddress {
    /// An explicit copy equal to this address.
    pub fn duplicate(&self) -> (r: PeerAddress)
        ensures
            r == *self,
    {
        PeerAddress { host: self.host.clone(), port: self.port }
    }
}

/// Process-lifetime configuration: where to listen, the display name sent
/// in the greeting, and the configured sibling addresses.
pub struct Config {
    pub listen_ip: String,
    pub listen_port: u16,
    pub student_name: String,
    pub nodes_addrs: Vec<PeerAddress>,
}

/// Whether a configured address denotes this node itself: same port, and
/// the host written as the literal bind address, the loopback address, or
/// `localhost`.
pub open spec fn is_self_address(a: PeerAddress, listen_ip: Seq<char>, listen_port: u16) -> bool {
    a.port == listen_port && (a.host@ == listen_ip || a.host@ == "127.0.0.1"@ || a.host@
        == "localhost"@)
}

/// The configured address list with every form of the node's own address
/// removed, order kept.
pub open spec fn retain_peers(
    s: Seq<PeerAddress>,
    listen_ip: Seq<char>,
    listen_port: u16,
) -> Seq<PeerAddress>
    decreases s.len(),
{
    if s.len() == 0 {
        s
    } else {
        let rest = retain_peers(s.drop_last(), listen_ip, listen_port);
        if is_self_address(s.last(), listen_ip, listen_port) {
            rest
        } else {
            rest.push(s.last())
        }
    }
}

/// Whether a request source IP matches some entry of the peer registry.
pub open spec fn is_known_peer(peers: Seq<PeerAddress>, ip: Seq<char>) -> bool {
    exists|i: int| 0 <= i < peers.len() && peers[i].host@ == ip
}

fn matches_self(a: &PeerAddress, listen_ip: &String, listen_port: u16) -> (r: bool)
    ensures
        r == is_self_address(*a, listen_ip@, listen_port),
{
    a.port == listen_port && (a.host == *listen_ip || a.host == String::from_str("127.0.0.1")
        || a.host == String::from_str("localhost"))
}

/// Drop every form of the node's own address from a configured list.
pub fn filter_self_addresses(
    addrs: &Vec<PeerAddress>,
    listen_ip: &String,
    listen_port: u16,
) -> (r: Vec<PeerAddress>)
    ensures
        r@ == retain_peers(addrs@, listen_ip@, listen_port),
{
    let mut out: Vec<PeerAddress> = Vec::new();
    let mut i: usize = 0;
    while i < addrs.len()
        invariant
            i <= addrs@.len(),
            out@ == retain_peers(addrs@.take(i as int), listen_ip@, listen_port),
        decreases addrs@.len() - i,
    {
        let a = &addrs[i];
        if !matches_self(a, listen_ip, listen_port) {
            out.push(a.duplicate());
        }
        proof {
            let t = addrs@.take(i as int + 1);
            assert(t.drop_last() =~= addrs@.take(i as int));
            assert(t.last() == addrs@[i as int]);
        }
        i += 1;
    }
    proof {
        assert(addrs@.take(addrs@.len() as int) =~= addrs@);
    }
    out
}

/// Whether a character is a decimal digit.
pub open spec fn is_digit(c: char) -> bool {
    48 <= c as u32 && c as u32 <= 57
}

/// The value of one decimal digit.
pub open spec fn digit_val(c: char) -> int {
    c as u32 - 48
}

/// Whether every character of a text is a decimal digit.
pub open spec fn all_digits(s: Seq<char>) -> bool {
    forall|i: int| 0 <= i < s.len() ==> is_digit(s[i])
}

/// The number a text of decimal digits denotes.
pub open spec fn digits_val(s: Seq<char>) -> int
    decreases s.len(),
{
    if s.len() == 0 {
        0
    } else {
        digits_val(s.drop_last()) * 10 + digit_val(s.last())
    }
}

/// The index of the last colon of a text, or `-1` if there is none.
pub open spec fn last_colon(s: Seq<char>) -> int
    decreases s.len(),
{
    if s.len() == 0 {
        -1
    } else if s.last() == ':' {
        s.len() - 1
    } else {
        last_colon(s.drop_last())
    }
}

/// Whether a text is a well-formed `host:port` endpoint: a nonempty host,
/// then the last colon, then a nonempty run of digits denoting a number
/// that fits a port.
pub open spec fn valid_peer_text(s: Seq<char>) -> bool {
    let c = last_colon(s);
    &&& c >= 1
    &&& c + 1 < s.len()
    &&& all_digits(s.subrange(c + 1, s.len() as int))
    &&& digits_val(s.subrange(c + 1, s.len() as int)) <= 65535
}

/// Parse one configured `host:port` entry.  The host is everything before
/// the last colon; the port is the digits after it.
pub fn parse_addr(s: &str) -> (r: Option<PeerAddress>)
    ensures
        match r {
            Some(a) => {
                &&& valid_peer_text(s@)
                &&& a.host@ == s@.subrange(0, last_colon(s@))
                &&& a.port == digits_val(s@.subrange(last_colon(s@) + 1, s@.len() as int))
            },
            None => !valid_peer_text(s@),
        },
{
    let n = s.unicode_len();
    let mut colon: Option<usize> = None;
    let mut i: usize = 0;
    while i < n
        invariant
            i <= n,
            n == s@.len(),
            match colon {
                Some(c) => c < i && last_colon(s@.take(i as int)) == c,
                None => last_colon(s@.take(i as int)) == -1,
            },
        decreases n - i,
    {
        let ch = s.get_char(i);
        if ch == ':' {
            colon = Some(i);
        }
        proof {
            let t = s@.take(i as int + 1);
            assert(t.drop_last() =~= s@.take(i as int));
            assert(t.last() == s@[i as int]);
        }
        i += 1;
    }
    proof {
        assert(s@.take(n as int) =~= s@);
    }
    let c = match colon {
        Some(c) => c,
        None => {
            return None;
        },
    };
    if c == 0 || c + 1 >= n {
        return None;
    }
    let mut k: usize = c + 1;
    let mut acc: u32 = 0;
    let mut too_big: bool = false;
    while k < n
        invariant
            c + 1 <= k <= n,
            n == s@.len(),
            1 <= c,
            c + 1 < n,
            last_colon(s@) == c,
            acc <= 65535,
            all_digits(s@.subrange(c as int + 1, k as int)),
            !too_big ==> acc == digits_val(s@.subrange(c as int + 1, k as int)),
            too_big ==> digits_val(s@.subrange(c as int + 1, k as int)) > 65535,
        decreases n - k,
    {
        let ch = s.get_char(k);
        let cv = ch as u32;
        if cv < 48 || cv > 57 {
            proof {
                assert(!is_digit(s@[k as int]));
                assert(!valid_peer_text(s@)) by {
                    if valid_peer_text(s@) {
                        assert(is_digit(s@.subrange(c as int + 1, s@.len() as int)[k - c - 1]));
                    }
                }
            }
            return None;
        }
        let d: u32 = cv - 48;
        proof {
            let t = s@.subrange(c as int + 1, k as int + 1);
            assert(t.drop_last() =~= s@.subrange(c as int + 1, k as int));
            assert(t.last() == s@[k as int]);
        }
        if too_big {
        } else {
            let next: u32 = acc * 10 + d;
            if next > 65535 {
                too_big = true;
            } else {
                acc = next;
            }
        }
        k += 1;
    }
    if too_big {
        return None;
    }
    let host = String::from_str(s.substring_char(0, c));
    proof {
        assert(s@.subrange(c as int + 1, k as int) =~= s@.subrange(
            last_colon(s@) + 1,
            s@.len() as int,
        ));
    }
    Some(PeerAddress { host, port: acc as u16 })
}

} // verus!
