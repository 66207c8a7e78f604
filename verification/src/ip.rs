//! Selection of a container's address from its interface list: the
//! first interface that is not the loopback alias and carries an inet
//! address contributes that address, stripped of its prefix-length
//! suffix.

use vstd::prelude::*;
use crate::container::NetIfModel;
use crate::container::NetworkInterface;

verus! {

/// Index of the first '/' in `s`, or `s.len()` if there is none.
pub open spec fn slash_pos(s: Seq<char>) -> int
    decreases s.len(),
{
    if s.len() == 0 {
        0
    } else if s[0] == '/' {
        0
    } else {
        1 + slash_pos(s.drop_first())
    }
}

/// The address part of a CIDR-style string: everything before the
/// first '/', or the whole string if there is no '/'.
pub open spec fn strip_cidr(s: Seq<char>) -> Seq<char> {
    s.subrange(0, slash_pos(s))
}

proof fn lemma_slash_pos_at(s: Seq<char>, i: int)
    requires
        0 <= i <= s.len(),
        forall|q: int| 0 <= q < i ==> s[q] != '/',
        i == s.len() || s[i] == '/',
    ensures
        slash_pos(s) == i,
    decreases i,
{
    if i > 0 {
        lemma_slash_pos_at(s.drop_first(), i - 1);
    }
}

fn find_slash(s: &str) -> (p: usize)
    ensures
        p as int == slash_pos(s@),
        p <= s@.len(),
{
    let n = s.unicode_len();
    let mut i: usize = 0;
    while i < n && s.get_char(i) != '/'
        invariant
            i <= n,
            n == s@.len(),
            forall|q: int| 0 <= q < i ==> s@[q] != '/',
        decreases n - i,
    {
        i += 1;
    }
    proof {
        lemma_slash_pos_at(s@, i as int);
    }
    i
}

/// Strips the prefix-length suffix from a CIDR-style address string.
pub fn strip_ip_suffix(s: &str) -> (r: String)
    ensures
        r@ == strip_cidr(s@),
{
    let p = find_slash(s);
    let prefix = s.substring_char(0, p);
    String::from_str(prefix)
}

/// Whether an interface can contribute an address: it is not the
/// loopback alias and it carries an inet string.
pub open spec fn usable(i: NetIfModel) -> bool {
    i.name != "lo"@ && i.inet is Some
}

/// The address the enrichment scan yields: walking the interface list
/// in response order, the stripped inet of the first usable interface,
/// or nothing if no interface is usable.
pub open spec fn first_ip(s: Seq<NetIfModel>) -> Option<Seq<char>>
    decreases s.len(),
{
    if s.len() == 0 {
        None
    } else if s[0].name != "lo"@ {
        match s[0].inet {
            Some(ip) => Some(strip_cidr(ip)),
            None => first_ip(s.drop_first()),
        }
    } else {
        first_ip(s.drop_first())
    }
}

/// The models of a sequence of interface records.
pub open spec fn net_models(s: Seq<NetworkInterface>) -> Seq<NetIfModel> {
    s.map_values(|i: NetworkInterface| i@)
}

/// Scans an interface list and returns the address of the first usable
/// interface, stripped of its prefix length, if any.
pub fn pick_ip(ifaces: &Vec<NetworkInterface>) -> (r: Option<String>)
    ensures
        r.deep_view() == first_ip(net_models(ifaces@)),
{
    let ghost full: Seq<NetIfModel> = net_models(ifaces@);
    let n = ifaces.len();
    let mut k: usize = 0;
    proof {
        assert(full.skip(0) =~= full);
    }
    while k < n
        invariant
            k <= n,
            n == ifaces@.len(),
            full == net_models(ifaces@),
            first_ip(full) == first_ip(full.skip(k as int)),
        decreases n - k,
    {
        let iface = &ifaces[k];
        proof {
            assert(full.skip(k as int)[0] == ifaces@[k as int]@);
        }
        let lo = String::from_str("lo");
        if !(iface.name == lo) {
            match &iface.inet {
                Some(inet) => {
                    let ip = strip_ip_suffix(inet.as_str());
                    return Some(ip);
                },
                None => {},
            }
        }
        proof {
            assert(full.skip(k as int).drop_first() =~= full.skip(k as int + 1));
        }
        k += 1;
    }
    proof {
        assert(full.skip(n as int) =~= Seq::<NetIfModel>::empty());
    }
    None
}

} // verus!
