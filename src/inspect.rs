//! The text shown while inspecting one device.

use vstd::prelude::*;
use crate::device::{BTDevice, hex_digit};
use crate::text::{push_char, joined};

verus! {

/// The decimal digit for a value below 10.
pub open spec fn digit_char(n: nat) -> char {
    (n + 48) as char
}

/// The decimal digits of a natural number, without leading zeros.
pub open spec fn digits(n: nat) -> Seq<char>
    decreases n,
{
    if n < 10 {
        seq![digit_char(n)]
    } else {
        digits(n / 10).push(digit_char(n % 10))
    }
}

/// An integer in decimal, with a minus sign when negative.
pub open spec fn decimal(n: int) -> Seq<char> {
    if n < 0 {
        seq!['-'] + digits((-n) as nat)
    } else {
        digits(n as nat)
    }
}

/// `true` or `false`.
pub open spec fn bool_text(b: bool) -> Seq<char> {
    if b {
        "true"@
    } else {
        "false"@
    }
}

/// The texts joined with `sep` between neighbours.
pub open spec fn join(texts: Seq<Seq<char>>, sep: Seq<char>) -> Seq<char>
    decreases texts.len(),
{
    if texts.len() == 0 {
        Seq::empty()
    } else if texts.len() == 1 {
        texts[0]
    } else {
        join(texts.drop_last(), sep) + sep + texts.last()
    }
}

fn push_digits(s: &mut String, n: u64)
    ensures
        final(s)@ == old(s)@ + digits(n as nat),
    decreases n,
{
    if n >= 10 {
        push_digits(s, n / 10);
    }
    let d = (n % 10) as u8;
    push_char(s, (d + 48) as char);
    assert(final(s)@ =~= old(s)@ + digits(n as nat));
}

/// An integer written in decimal.
pub fn decimal_text(n: i64) -> (r: String)
    ensures
        r@ == decimal(n as int),
{
    let mut s = String::new();
    if n < 0 {
        push_char(&mut s, '-');
        let m: u64 = (0i128 - (n as i128)) as u64;
        push_digits(&mut s, m);
    } else {
        push_digits(&mut s, n as u64);
    }
    assert(s@ =~= decimal(n as int));
    s
}

fn bool_string(b: bool) -> (r: String)
    ensures
        r@ == bool_text(b),
{
    if b {
        String::from_str("true")
    } else {
        String::from_str("false")
    }
}

/// What the Bluetooth stack reports of a device when it is inspected; service
/// UUIDs come as their 128-bit values.
pub struct InspectDetails {
    pub address_type: Option<String>,
    pub name: Option<String>,
    pub class: Option<u32>,
    pub uuids: Vec<u128>,
    pub rssi: Option<i16>,
    pub tx_power: Option<i16>,
}

/// Where `u` goes when it is inserted into `s`: right after the last value
/// that is not above it.
pub open spec fn uuid_slot(s: Seq<u128>, u: u128) -> int
    decreases s.len(),
{
    if s.len() == 0 {
        0
    } else if s.last() > u {
        uuid_slot(s.drop_last(), u)
    } else {
        s.len() as int
    }
}

/// The values in ascending order.
pub open spec fn sort_uuids(s: Seq<u128>) -> Seq<u128>
    decreases s.len(),
{
    if s.len() == 0 {
        s
    } else {
        let r = sort_uuids(s.drop_last());
        r.insert(uuid_slot(r, s.last()), s.last())
    }
}

proof fn lemma_uuid_slot(s: Seq<u128>, u: u128)
    ensures
        0 <= uuid_slot(s, u) <= s.len(),
        forall|i: int| uuid_slot(s, u) <= i < s.len() ==> #[trigger] s[i] > u,
        uuid_slot(s, u) > 0 ==> s[uuid_slot(s, u) - 1] <= u,
    decreases s.len(),
{
    if s.len() > 0 && s.last() > u {
        lemma_uuid_slot(s.drop_last(), u);
        assert forall|i: int| uuid_slot(s, u) <= i < s.len() implies #[trigger] s[i] > u by {
            if i < s.len() - 1 {
                assert(s[i] == s.drop_last()[i]);
            }
        }
    }
}

/// Each value is at most every value that follows it.
pub open spec fn sorted_asc(s: Seq<u128>) -> bool {
    forall|i: int, j: int| 0 <= i < j < s.len() ==> #[trigger] s[i] <= #[trigger] s[j]
}

/// Sorting the UUIDs yields an ascending order that holds the same values.
pub proof fn lemma_sort_uuids(s: Seq<u128>)
    ensures
        sorted_asc(sort_uuids(s)),
        sort_uuids(s).to_multiset() == s.to_multiset(),
        sort_uuids(s).len() == s.len(),
    decreases s.len(),
{
    if s.len() > 0 {
        let r = sort_uuids(s.drop_last());
        let u = s.last();
        lemma_sort_uuids(s.drop_last());
        lemma_uuid_slot(r, u);
        let p = uuid_slot(r, u);
        let t = r.insert(p, u);
        assert forall|i: int, j: int| 0 <= i < j < t.len() implies #[trigger] t[i] <= #[trigger] t[j] by {
            if i < p && j == p {
                assert(r[i] <= r[p - 1]);
            } else if i < p && j > p {
                assert(r[i] <= r[j - 1]);
            }
        }
        vstd::seq_lib::to_multiset_insert(r, p, u);
        s.drop_last().to_multiset_ensures();
        assert(s.drop_last().push(u) =~= s);
    }
}

fn find_uuid_slot(s: &Vec<u128>, u: u128) -> (p: usize)
    ensures
        p as int == uuid_slot(s@, u),
{
    let mut i: usize = s.len();
    assert(s@.take(i as int) =~= s@);
    while i > 0 && s[i - 1] > u
        invariant
            i <= s@.len(),
            uuid_slot(s@, u) == uuid_slot(s@.take(i as int), u),
        decreases i,
    {
        proof {
            let t = s@.take(i as int);
            assert(t.drop_last() =~= s@.take(i as int - 1));
        }
        i = i - 1;
    }
    proof {
        if i > 0 {
            let t = s@.take(i as int);
            assert(t.last() == s@[i as int - 1]);
        } else {
            assert(s@.take(0) =~= Seq::<u128>::empty());
        }
    }
    i
}

/// Sorts the UUIDs in ascending order of value.
pub fn sorted_uuids(uuids: &Vec<u128>) -> (r: Vec<u128>)
    ensures
        r@ == sort_uuids(uuids@),
        sorted_asc(r@),
        r@.to_multiset() == uuids@.to_multiset(),
{
    let mut r: Vec<u128> = Vec::new();
    let mut i: usize = 0;
    while i < uuids.len()
        invariant
            i <= uuids@.len(),
            r@ == sort_uuids(uuids@.take(i as int)),
        decreases uuids@.len() - i,
    {
        let u = uuids[i];
        let p = find_uuid_slot(&r, u);
        proof {
            let t = uuids@.take(i as int + 1);
            assert(t.drop_last() =~= uuids@.take(i as int));
            assert(t.last() == u);
            if i == 0 {
                assert(uuids@.take(0) =~= Seq::<u128>::empty());
            }
            lemma_uuid_slot(r@, u);
        }
        r.insert(p, u);
        i = i + 1;
    }
    assert(uuids@.take(uuids@.len() as int) =~= uuids@);
    proof {
        lemma_sort_uuids(uuids@);
    }
    r
}

/// The texts of the UUIDs, in order.
pub open spec fn uuid_texts(s: Seq<u128>) -> Seq<Seq<char>> {
    s.map_values(|u: u128| uuid_text_of(u))
}

fn join_uuids(s: &Vec<u128>) -> (r: String)
    ensures
        r@ == join(uuid_texts(s@), ", "@),
{
    let mut r = String::new();
    let mut i: usize = 0;
    while i < s.len()
        invariant
            i <= s@.len(),
            r@ == join(uuid_texts(s@.take(i as int)), ", "@),
        decreases s@.len() - i,
    {
        proof {
            let t = uuid_texts(s@.take(i as int + 1));
            assert(t.drop_last() =~= uuid_texts(s@.take(i as int)));
            assert(t.last() == uuid_text_of(s@[i as int]));
            if i == 0 {
                assert(t =~= seq![uuid_text_of(s@[0])]);
            }
        }
        if i > 0 {
            r.append(", ");
        }
        let text = uuid_text(s[i]);
        r.append(text.as_str());
        i = i + 1;
    }
    assert(s@.take(s@.len() as int) =~= s@);
    r
}

/// The hexadecimal digit of `u` at position `i`, counting from the most
/// significant of its 32 digits.
pub open spec fn uuid_nibble(u: u128, i: int) -> char {
    hex_digit(((u >> ((124 - 4 * i) as u128)) & 15u128) as u8)
}

/// A UUID in its hyphenated form: 32 lowercase hexadecimal digits, most
/// significant first, in groups of 8, 4, 4, 4 and 12 joined by hyphens.
pub open spec fn uuid_text_of(u: u128) -> Seq<char> {
    let h = Seq::new(32, |i: int| uuid_nibble(u, i));
    h.subrange(0, 8) + seq!['-'] + h.subrange(8, 12) + seq!['-'] + h.subrange(12, 16) + seq!['-']
        + h.subrange(16, 20) + seq!['-'] + h.subrange(20, 32)
}

/// Relies on the `Display` of `bluer::Uuid` (the `uuid` crate's type): the
/// hyphenated lowercase form.
#[verifier::external_body]
fn uuid_text(u: u128) -> (r: String)
    ensures
        r@ == uuid_text_of(u),
{
    bluer::Uuid::from_u128(u).to_string()
}

/// The inspect lines for a device: address type, name, class, service UUIDs
/// in ascending order, paired, connected, signal strength and transmit power.
/// A missing address type or name reads `???`; a missing number reads 0.
pub fn format_inspect_text(device: &BTDevice, details: InspectDetails) -> (r: Vec<String>)
    ensures
        r@.len() == 8,
        r@[0]@ == "Address type: "@ + (match details.address_type {
            Some(t) => t@,
            None => "???"@,
        }),
        r@[1]@ == "Name: "@ + (match details.name {
            Some(t) => t@,
            None => "???"@,
        }),
        r@[2]@ == "Class: "@ + decimal(
            match details.class {
                Some(c) => c as int,
                None => 0,
            },
        ),
        r@[3]@ == "UUIDS: "@ + join(uuid_texts(sort_uuids(details.uuids@)), ", "@),
        r@[4]@ == "Paired: "@ + bool_text(device.paired),
        r@[5]@ == "Connected: "@ + bool_text(device.connected),
        r@[6]@ == "RSSI: "@ + decimal(
            match details.rssi {
                Some(v) => v as int,
                None => 0,
            },
        ),
        r@[7]@ == "TX Power: "@ + decimal(
            match details.tx_power {
                Some(v) => v as int,
                None => 0,
            },
        ),
{
    let mut lines: Vec<String> = Vec::new();
    let address_type = match details.address_type {
        Some(t) => t,
        None => String::from_str("???"),
    };
    lines.push(joined("Address type: ", address_type.as_str()));
    let name = match details.name {
        Some(t) => t,
        None => String::from_str("???"),
    };
    lines.push(joined("Name: ", name.as_str()));
    let class: i64 = match details.class {
        Some(c) => c as i64,
        None => 0,
    };
    lines.push(joined("Class: ", decimal_text(class).as_str()));
    let uuids = sorted_uuids(&details.uuids);
    lines.push(joined("UUIDS: ", join_uuids(&uuids).as_str()));
    lines.push(joined("Paired: ", bool_string(device.paired).as_str()));
    lines.push(joined("Connected: ", bool_string(device.connected).as_str()));
    let rssi: i64 = match details.rssi {
        Some(v) => v as i64,
        None => 0,
    };
    lines.push(joined("RSSI: ", decimal_text(rssi).as_str()));
    let tx: i64 = match details.tx_power {
        Some(v) => v as i64,
        None => 0,
    };
    lines.push(joined("TX Power: ", decimal_text(tx).as_str()));
    lines
}

} // verus!
