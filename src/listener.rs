//! The choices the discovery listener makes from the command line.

use vstd::prelude::*;
use crate::text::text_eq;
use crate::device::address_text;

verus! {

/// Which radios discovery uses.
#[derive(Clone, Copy, PartialEq, Eq, Structural, Debug)]
pub enum Transport {
    Auto,
    Le,
    BrEdr,
}

/// Some argument equals `a`.
pub open spec fn has_arg(args: Seq<String>, a: Seq<char>) -> bool {
    exists|i: int| 0 <= i < args.len() && (#[trigger] args[i])@ == a
}

/// Whether some argument equals `a`.
pub fn any_arg(args: &Vec<String>, a: &str) -> (r: bool)
    ensures
        r == has_arg(args@, a@),
{
    let mut i: usize = 0;
    while i < args.len()
        invariant
            i <= args@.len(),
            forall|k: int| 0 <= k < i ==> (#[trigger] args@[k])@ != a@,
        decreases args@.len() - i,
    {
        if text_eq(args[i].as_str(), a) {
            return true;
        }
        i = i + 1;
    }
    false
}

/// `--le` restricts discovery to Low Energy, otherwise `--bredr` to classic
/// BR/EDR; with neither, the adapter chooses.
pub fn transport_for(args: &Vec<String>) -> (r: Transport)
    ensures
        r == (if has_arg(args@, "--le"@) {
            Transport::Le
        } else if has_arg(args@, "--bredr"@) {
            Transport::BrEdr
        } else {
            Transport::Auto
        }),
{
    if any_arg(args, "--le") {
        Transport::Le
    } else if any_arg(args, "--bredr") {
        Transport::BrEdr
    } else {
        Transport::Auto
    }
}

fn same_address(a: &[u8; 6], b: &[u8; 6]) -> (r: bool)
    ensures
        r == (a@ == b@),
{
    let mut i: usize = 0;
    while i < 6
        invariant
            i <= 6,
            a@.len() == 6,
            b@.len() == 6,
            forall|k: int| 0 <= k < i ==> a@[k] == b@[k],
        decreases 6 - i,
    {
        if a[i] != b[i] {
            return false;
        }
        i = i + 1;
    }
    assert(a@ =~= b@);
    true
}

fn filter_admits(filter: &Vec<[u8; 6]>, addr: &[u8; 6]) -> (r: bool)
    ensures
        r == (filter@.len() == 0 || exists|i: int|
            0 <= i < filter@.len() && (#[trigger] filter@[i])@ == addr@),
{
    if filter.len() == 0 {
        return true;
    }
    let mut i: usize = 0;
    while i < filter.len()
        invariant
            i <= filter@.len(),
            forall|k: int| 0 <= k < i ==> (#[trigger] filter@[k])@ != addr@,
        decreases filter@.len() - i,
    {
        if same_address(&filter[i], addr) {
            return true;
        }
        i = i + 1;
    }
    false
}

/// What bluer's `Address::from_str` makes of a text: six bytes, or nothing
/// when the text is no address.
pub uninterp spec fn address_of(s: Seq<char>) -> Option<[u8; 6]>;

/// Relies on `bluer::Address::from_str`, which reads six colon-separated
/// fields, each with `u8::from_str_radix(_, 16)`; so six two-digit lowercase
/// hexadecimal bytes joined by colons read as those bytes.
#[verifier::external_body]
fn parse_address(s: &str) -> (r: Option<[u8; 6]>)
    ensures
        r == address_of(s@),
        forall|b: [u8; 6]| #[trigger] address_text(b@) == s@ ==> r == Some(b),
{
    s.parse::<bluer::Address>().ok().map(|a| a.0)
}

/// The addresses among the arguments, in order.
pub open spec fn arg_addresses(args: Seq<String>) -> Seq<[u8; 6]>
    decreases args.len(),
{
    if args.len() == 0 {
        Seq::empty()
    } else {
        let rest = arg_addresses(args.drop_last());
        match address_of(args.last()@) {
            Some(a) => rest.push(a),
            None => rest,
        }
    }
}

/// What discovery is told by the command line.
pub struct ListenerOptions {
    pub transport: Transport,
    /// Only devices with one of these addresses are reported; none means all.
    pub filter: Vec<[u8; 6]>,
}

impl ListenerOptions {
    /// Reads the transport flags and every argument that is an address; an
    /// address written as `format_address` writes it always counts.
    pub fn from_args(args: &Vec<String>) -> (r: Self)
        ensures
            r.transport == (if has_arg(args@, "--le"@) {
                Transport::Le
            } else if has_arg(args@, "--bredr"@) {
                Transport::BrEdr
            } else {
                Transport::Auto
            }),
            r.filter@ == arg_addresses(args@),
            forall|i: int, b: [u8; 6]|
                #![trigger args@[i], address_text(b@)] 0 <= i < args@.len() && args@[i]@ == address_text(b@) ==> r.filter@.contains(
                    b,
                ),
    {
        let mut filter: Vec<[u8; 6]> = Vec::new();
        let mut i: usize = 0;
        while i < args.len()
            invariant
                i <= args@.len(),
                filter@ == arg_addresses(args@.take(i as int)),
                forall|k: int, b: [u8; 6]|
                    #![trigger args@[k], address_text(b@)] 0 <= k < i && args@[k]@ == address_text(b@) ==> filter@.contains(b),
            decreases args@.len() - i,
        {
            proof {
                let t = args@.take(i as int + 1);
                assert(t.drop_last() =~= args@.take(i as int));
                if i == 0 {
                    assert(args@.take(0) =~= Seq::<String>::empty());
                }
            }
            let ghost before = filter@;
            if let Some(a) = parse_address(args[i].as_str()) {
                filter.push(a);
                proof {
                    assert forall|x: [u8; 6]| before.contains(x) implies filter@.contains(x) by {
                        let k = choose|k: int| 0 <= k < before.len() && before[k] == x;
                        assert(filter@[k] == x);
                    }
                    assert(filter@[filter@.len() - 1] == a);
                }
            }
            i = i + 1;
        }
        assert(args@.take(args@.len() as int) =~= args@);
        ListenerOptions { transport: transport_for(args), filter }
    }

    /// A newly found device is reported when no addresses were given, or
    /// when its address is one of them.
    pub fn admits(&self, addr: &[u8; 6]) -> (r: bool)
        ensures
            r == (self.filter@.len() == 0 || exists|i: int|
                0 <= i < self.filter@.len() && (#[trigger] self.filter@[i])@ == addr@),
    {
        filter_admits(&self.filter, addr)
    }
}

} // verus!
