//! A Bluetooth device as the manager sees it, and the ordered device list.

use vstd::prelude::*;
use crate::text::{push_char, text_eq};

verus! {

/// One remote device, with the properties the manager shows and acts on.
pub struct BTDevice {
    pub name: String,
    pub icon_name: String,
    pub paired: bool,
    pub connected: bool,
    pub address: String,
    pub battery: Option<u8>,
    pub rssi: Option<i16>,
}

impl Clone for BTDevice {
    fn clone(&self) -> (r: Self)
        ensures
            r == *self,
    {
        BTDevice {
            name: self.name.clone(),
            icon_name: self.icon_name.clone(),
            paired: self.paired,
            connected: self.connected,
            address: self.address.clone(),
            battery: self.battery,
            rssi: self.rssi,
        }
    }
}

/// Two records are of the same device when their addresses agree.
impl PartialEq for BTDevice {
    fn eq(&self, other: &Self) -> (r: bool) {
        text_eq(self.address.as_str(), other.address.as_str())
    }
}

impl vstd::std_specs::cmp::PartialEqSpecImpl for BTDevice {
    open spec fn obeys_eq_spec() -> bool {
        true
    }

    open spec fn eq_spec(&self, other: &BTDevice) -> bool {
        self.address@ == other.address@
    }
}

/// The lowercase hexadecimal digit for a value below 16.
pub open spec fn hex_digit(n: u8) -> char
    recommends
        n < 16,
{
    if n < 10 {
        (n + 48) as char
    } else {
        (n + 87) as char
    }
}

/// Two lowercase hexadecimal digits for one byte.
pub open spec fn byte_text(b: u8) -> Seq<char> {
    seq![hex_digit(b / 16), hex_digit(b % 16)]
}

/// The bytes of an address written as hexadecimal pairs separated by colons.
pub open spec fn address_text(a: Seq<u8>) -> Seq<char>
    decreases a.len(),
{
    if a.len() == 0 {
        Seq::empty()
    } else if a.len() == 1 {
        byte_text(a[0])
    } else {
        address_text(a.drop_last()) + seq![':'] + byte_text(a.last())
    }
}

fn hex_char(n: u8) -> (c: char)
    requires
        n < 16,
    ensures
        c == hex_digit(n),
{
    if n < 10 {
        (n + 48) as char
    } else {
        (n + 87) as char
    }
}

/// Writes an address as `xx:xx:xx:xx:xx:xx`, two lowercase digits a byte.
pub fn format_address(bytes: [u8; 6]) -> (r: String)
    ensures
        r@ == address_text(bytes@),
{
    let mut s = String::new();
    let mut i: usize = 0;
    while i < 6
        invariant
            i <= 6,
            bytes@.len() == 6,
            s@ == address_text(bytes@.take(i as int)),
        decreases 6 - i,
    {
        let b = bytes[i];
        if i > 0 {
            push_char(&mut s, ':');
        }
        push_char(&mut s, hex_char(b / 16));
        push_char(&mut s, hex_char(b % 16));
        proof {
            let t = bytes@.take(i as int + 1);
            assert(t.drop_last() =~= bytes@.take(i as int));
            assert(t.last() == b);
            if i == 0 {
                assert(bytes@.take(0) =~= Seq::<u8>::empty());
            }
        }
        i = i + 1;
        assert(s@ =~= address_text(bytes@.take(i as int)));
    }
    assert(bytes@.take(6) =~= bytes@);
    s
}

/// The weight of a device's state in the ordering: connected counts 2000,
/// paired counts 1000.
pub open spec fn rank(d: BTDevice) -> int {
    (if d.connected { 2000int } else { 0int }) + (if d.paired { 1000int } else { 0int })
}

/// Lexicographic order on character sequences, by code point; a proper
/// prefix comes first. This is the order of `str`.
pub open spec fn text_lt(a: Seq<char>, b: Seq<char>) -> bool
    decreases a.len(),
{
    if a.len() == 0 {
        b.len() > 0
    } else if b.len() == 0 {
        false
    } else if (a[0] as u32) != (b[0] as u32) {
        (a[0] as u32) < (b[0] as u32)
    } else {
        text_lt(a.drop_first(), b.drop_first())
    }
}

/// `a` sorts below `b` by the pair (rank, name).
pub open spec fn key_lt(a: BTDevice, b: BTDevice) -> bool {
    rank(a) < rank(b) || (rank(a) == rank(b) && text_lt(a.name@, b.name@))
}

/// Where `d` goes when it is inserted into `s`: right after the last element
/// that does not sort below it.
pub open spec fn slot(s: Seq<BTDevice>, d: BTDevice) -> int
    decreases s.len(),
{
    if s.len() == 0 {
        0
    } else if key_lt(s.last(), d) {
        slot(s.drop_last(), d)
    } else {
        s.len() as int
    }
}

/// The devices in descending order of (rank, name); devices with equal keys
/// keep their relative order.
pub open spec fn sort_desc(s: Seq<BTDevice>) -> Seq<BTDevice>
    decreases s.len(),
{
    if s.len() == 0 {
        s
    } else {
        let r = sort_desc(s.drop_last());
        r.insert(slot(r, s.last()), s.last())
    }
}

fn name_lt(a: &str, b: &str) -> (r: bool)
    ensures
        r == text_lt(a@, b@),
{
    let n = a.unicode_len();
    let m = b.unicode_len();
    let mut i: usize = 0;
    assert(a@.skip(0) =~= a@);
    assert(b@.skip(0) =~= b@);
    while i < n && i < m
        invariant
            n == a@.len(),
            m == b@.len(),
            i <= n,
            i <= m,
            text_lt(a@, b@) == text_lt(a@.skip(i as int), b@.skip(i as int)),
        decreases n - i,
    {
        let x = a.get_char(i);
        let y = b.get_char(i);
        proof {
            let sa = a@.skip(i as int);
            let sb = b@.skip(i as int);
            assert(sa[0] == x);
            assert(sb[0] == y);
            assert(sa.drop_first() =~= a@.skip(i as int + 1));
            assert(sb.drop_first() =~= b@.skip(i as int + 1));
        }
        if (x as u32) != (y as u32) {
            return (x as u32) < (y as u32);
        }
        i = i + 1;
    }
    proof {
        assert(a@.skip(i as int).len() == n - i);
        assert(b@.skip(i as int).len() == m - i);
    }
    i < m
}

/// Whether `a` sorts below `b`.
pub fn sorts_below(a: &BTDevice, b: &BTDevice) -> (r: bool)
    ensures
        r == key_lt(*a, *b),
{
    let ra: u32 = (if a.connected { 2000u32 } else { 0u32 }) + (if a.paired { 1000u32 } else { 0u32 });
    let rb: u32 = (if b.connected { 2000u32 } else { 0u32 }) + (if b.paired { 1000u32 } else { 0u32 });
    ra < rb || (ra == rb && name_lt(a.name.as_str(), b.name.as_str()))
}

fn find_slot(s: &Vec<BTDevice>, d: &BTDevice) -> (p: usize)
    ensures
        p as int == slot(s@, *d),
{
    let mut i: usize = s.len();
    assert(s@.take(i as int) =~= s@);
    while i > 0 && sorts_below(&s[i - 1], d)
        invariant
            i <= s@.len(),
            slot(s@, *d) == slot(s@.take(i as int), *d),
        decreases i,
    {
        proof {
            let t = s@.take(i as int);
            assert(t.drop_last() =~= s@.take(i as int - 1));
        }
        i = i - 1;
    }
    proof {
        if i > 0 {
            let t = s@.take(i as int);
            assert(t.last() == s@[i as int - 1]);
        } else {
            assert(s@.take(0) =~= Seq::<BTDevice>::empty());
        }
    }
    i
}

/// Sorts the devices in descending order of (rank, name), keeping the
/// relative order of devices with equal keys.
pub fn sort_devices(devices: &Vec<BTDevice>) -> (r: Vec<BTDevice>)
    ensures
        r@ == sort_desc(devices@),
        sorted_desc(r@),
        r@.to_multiset() == devices@.to_multiset(),
{
    let mut r: Vec<BTDevice> = Vec::new();
    let mut i: usize = 0;
    while i < devices.len()
        invariant
            i <= devices@.len(),
            r@ == sort_desc(devices@.take(i as int)),
        decreases devices@.len() - i,
    {
        let d = devices[i].clone();
        let p = find_slot(&r, &d);
        proof {
            let t = devices@.take(i as int + 1);
            assert(t.drop_last() =~= devices@.take(i as int));
            assert(t.last() == d);
            if i == 0 {
                assert(devices@.take(0) =~= Seq::<BTDevice>::empty());
            }
            lemma_slot(r@, d);
        }
        r.insert(p, d);
        i = i + 1;
    }
    assert(devices@.take(devices@.len() as int) =~= devices@);
    proof {
        lemma_sort_desc(devices@);
    }
    r
}

/// The name a device shows when it reports none.
pub open spec fn unnamed() -> Seq<char> {
    "???"@
}

impl BTDevice {
    /// A device from the properties read from the Bluetooth stack. A missing
    /// name reads `???`, a missing icon name is empty, and the address is
    /// written as `xx:xx:xx:xx:xx:xx`.
    pub fn new(
        name: Option<String>,
        icon_name: Option<String>,
        address: [u8; 6],
        paired: bool,
        connected: bool,
        battery: Option<u8>,
        rssi: Option<i16>,
    ) -> (r: Self)
        ensures
            r.name@ == (match name {
                Some(n) => n@,
                None => unnamed(),
            }),
            r.icon_name@ == (match icon_name {
                Some(n) => n@,
                None => Seq::<char>::empty(),
            }),
            r.address@ == address_text(address@),
            r.paired == paired,
            r.connected == connected,
            r.battery == battery,
            r.rssi == rssi,
    {
        let name = match name {
            Some(n) => n,
            None => String::from_str("???"),
        };
        let icon_name = match icon_name {
            Some(n) => n,
            None => String::new(),
        };
        BTDevice {
            name,
            icon_name,
            paired,
            connected,
            address: format_address(address),
            battery,
            rssi,
        }
    }

    /// Whether the device reported a name.
    pub fn is_named(&self) -> (r: bool)
        ensures
            r == (self.name@ != unnamed()),
    {
        !text_eq(self.name.as_str(), "???")
    }
}

/// The UUID of the battery service, as the manager looks for it: the bare
/// 16-bit value 0x180F as a 128-bit UUID, not expanded with the Bluetooth
/// base UUID.
pub const BATTERY_SERVICE_UUID: u128 = 0x180F;

/// The UUID of the battery level characteristic, as the manager looks for it.
pub const BATTERY_LEVEL_UUID: u128 = 0x2A19;

/// Whether a service is the battery service, whose characteristics are
/// worth listing.
pub fn is_battery_service(service: u128) -> (r: bool)
    ensures
        r == (service == BATTERY_SERVICE_UUID),
{
    service == BATTERY_SERVICE_UUID
}

/// Whether a characteristic of a service holds the battery level.
pub fn reads_battery(service: u128, characteristic: u128) -> (r: bool)
    ensures
        r == (service == BATTERY_SERVICE_UUID && characteristic == BATTERY_LEVEL_UUID),
{
    is_battery_service(service) && characteristic == BATTERY_LEVEL_UUID
}

/// The battery level found in a characteristic's value: its first byte, when
/// the characteristic is the battery level of the battery service. An empty
/// value holds no first byte and gives no level.
pub fn battery_level(service: u128, characteristic: u128, value: &Vec<u8>) -> (r: Option<u8>)
    ensures
        r == (if service == BATTERY_SERVICE_UUID && characteristic == BATTERY_LEVEL_UUID
            && value@.len() > 0 {
            Some(value@[0])
        } else {
            None::<u8>
        }),
{
    if reads_battery(service, characteristic) && value.len() > 0 {
        Some(value[0])
    } else {
        None
    }
}

/// Whether some device of `s` has the address `a`.
pub open spec fn has_address(s: Seq<BTDevice>, a: Seq<char>) -> bool {
    exists|i: int| 0 <= i < s.len() && (#[trigger] s[i]).address@ == a
}

/// The devices of `s` whose address is not `a`, in order.
pub open spec fn without_address(s: Seq<BTDevice>, a: Seq<char>) -> Seq<BTDevice> {
    s.filter(|x: BTDevice| x.address@ != a)
}

/// `s` with every device whose address is that of `d` replaced by `d`.
pub open spec fn replace_address(s: Seq<BTDevice>, d: BTDevice) -> Seq<BTDevice> {
    s.map_values(|x: BTDevice| if x.address@ == d.address@ { d } else { x })
}

/// No two devices of `s` share an address.
pub open spec fn addresses_unique(s: Seq<BTDevice>) -> bool {
    forall|i: int, j: int|
        0 <= i < s.len() && 0 <= j < s.len() && i != j ==> (#[trigger] s[i]).address@
            != (#[trigger] s[j]).address@
}

/// Whether some device of the list has the address `a`.
pub fn contains_address(devices: &Vec<BTDevice>, a: &str) -> (r: bool)
    ensures
        r == has_address(devices@, a@),
{
    let mut i: usize = 0;
    while i < devices.len()
        invariant
            i <= devices@.len(),
            forall|k: int| 0 <= k < i ==> (#[trigger] devices@[k]).address@ != a@,
        decreases devices@.len() - i,
    {
        if text_eq(devices[i].address.as_str(), a) {
            return true;
        }
        i = i + 1;
    }
    false
}

/// The devices whose address is not `a`, in order.
pub fn remove_address(devices: &Vec<BTDevice>, a: &str) -> (r: Vec<BTDevice>)
    ensures
        r@ == without_address(devices@, a@),
{
    let mut r: Vec<BTDevice> = Vec::new();
    let mut i: usize = 0;
    while i < devices.len()
        invariant
            i <= devices@.len(),
            r@ == without_address(devices@.take(i as int), a@),
        decreases devices@.len() - i,
    {
        proof {
            reveal(Seq::filter);
            let t = devices@.take(i as int + 1);
            assert(t.drop_last() =~= devices@.take(i as int));
            if i == 0 {
                assert(devices@.take(0) =~= Seq::<BTDevice>::empty());
            }
        }
        if !text_eq(devices[i].address.as_str(), a) {
            r.push(devices[i].clone());
        }
        i = i + 1;
    }
    assert(devices@.take(devices@.len() as int) =~= devices@);
    r
}

/// The list with every device whose address is that of `d` replaced by `d`.
pub fn replace_device(devices: &Vec<BTDevice>, d: &BTDevice) -> (r: Vec<BTDevice>)
    ensures
        r@ == replace_address(devices@, *d),
{
    let mut r: Vec<BTDevice> = Vec::new();
    let mut i: usize = 0;
    while i < devices.len()
        invariant
            i <= devices@.len(),
            r@ == replace_address(devices@.take(i as int), *d),
        decreases devices@.len() - i,
    {
        if text_eq(devices[i].address.as_str(), d.address.as_str()) {
            r.push(d.clone());
        } else {
            r.push(devices[i].clone());
        }
        i = i + 1;
        assert(r@ =~= replace_address(devices@.take(i as int), *d));
    }
    assert(devices@.take(devices@.len() as int) =~= devices@);
    r
}

/// No device of `s` sorts below a device that follows it.
pub open spec fn sorted_desc(s: Seq<BTDevice>) -> bool {
    forall|i: int, j: int| 0 <= i < j < s.len() ==> !key_lt(#[trigger] s[i], #[trigger] s[j])
}

proof fn lemma_text_lt_asym(a: Seq<char>, b: Seq<char>)
    ensures
        text_lt(a, b) ==> !text_lt(b, a),
    decreases a.len(),
{
    if a.len() > 0 && b.len() > 0 && (a[0] as u32) == (b[0] as u32) {
        lemma_text_lt_asym(a.drop_first(), b.drop_first());
    }
}

proof fn lemma_text_lt_split(a: Seq<char>, b: Seq<char>, c: Seq<char>)
    ensures
        text_lt(a, c) ==> text_lt(a, b) || text_lt(b, c),
    decreases a.len(),
{
    if a.len() > 0 && b.len() > 0 && c.len() > 0 && (a[0] as u32) == (b[0] as u32) && (b[0] as u32)
        == (c[0] as u32) {
        lemma_text_lt_split(a.drop_first(), b.drop_first(), c.drop_first());
    }
}

proof fn lemma_key_lt_asym(a: BTDevice, b: BTDevice)
    ensures
        key_lt(a, b) ==> !key_lt(b, a),
{
    lemma_text_lt_asym(a.name@, b.name@);
}

proof fn lemma_key_lt_split(a: BTDevice, b: BTDevice, c: BTDevice)
    ensures
        key_lt(a, c) ==> key_lt(a, b) || key_lt(b, c),
{
    lemma_text_lt_split(a.name@, b.name@, c.name@);
}

proof fn lemma_slot(s: Seq<BTDevice>, d: BTDevice)
    ensures
        0 <= slot(s, d) <= s.len(),
        forall|i: int| slot(s, d) <= i < s.len() ==> key_lt(#[trigger] s[i], d),
        slot(s, d) > 0 ==> !key_lt(s[slot(s, d) - 1], d),
    decreases s.len(),
{
    if s.len() > 0 && key_lt(s.last(), d) {
        lemma_slot(s.drop_last(), d);
        assert forall|i: int| slot(s, d) <= i < s.len() implies key_lt(#[trigger] s[i], d) by {
            if i < s.len() - 1 {
                assert(s[i] == s.drop_last()[i]);
            }
        }
    }
}

proof fn lemma_insert_sorted(r: Seq<BTDevice>, d: BTDevice)
    requires
        sorted_desc(r),
    ensures
        sorted_desc(r.insert(slot(r, d), d)),
{
    lemma_slot(r, d);
    let p = slot(r, d);
    let t = r.insert(p, d);
    assert forall|i: int, j: int| 0 <= i < j < t.len() implies !key_lt(#[trigger] t[i], #[trigger] t[j]) by {
        if i < p && j == p {
            if i < p - 1 {
                lemma_key_lt_split(r[i], r[p - 1], d);
            }
        } else if i == p {
            lemma_key_lt_asym(r[j - 1], d);
        } else if i < p && j > p {
            assert(!key_lt(r[i], r[j - 1]));
        }
    }
}

/// Sorting yields a descending order that holds the same devices.
pub proof fn lemma_sort_desc(s: Seq<BTDevice>)
    ensures
        sorted_desc(sort_desc(s)),
        sort_desc(s).to_multiset() == s.to_multiset(),
        sort_desc(s).len() == s.len(),
    decreases s.len(),
{
    if s.len() > 0 {
        let r = sort_desc(s.drop_last());
        lemma_sort_desc(s.drop_last());
        lemma_insert_sorted(r, s.last());
        lemma_slot(r, s.last());
        vstd::seq_lib::to_multiset_insert(r, slot(r, s.last()), s.last());
        s.drop_last().to_multiset_ensures();
        assert(s.drop_last().push(s.last()) =~= s);
    }
}

/// Sorting keeps the addresses distinct when they were.
pub proof fn lemma_sort_desc_unique(s: Seq<BTDevice>)
    requires
        addresses_unique(s),
    ensures
        addresses_unique(sort_desc(s)),
{
    let r = sort_desc(s);
    lemma_sort_desc(s);
    r.to_multiset_ensures();
    s.to_multiset_ensures();
    assert forall|i: int, j: int|
        0 <= i < r.len() && 0 <= j < r.len() && i != j implies (#[trigger] r[i]).address@
        != (#[trigger] r[j]).address@ by {
        if r[i].address@ == r[j].address@ {
            assert(r.contains(r[i]));
            assert(r.contains(r[j]));
            assert(r.to_multiset().count(r[i]) > 0);
            assert(r.to_multiset().count(r[j]) > 0);
            assert(s.to_multiset().count(r[i]) > 0);
            assert(s.to_multiset().count(r[j]) > 0);
            assert(s.contains(r[i]));
            assert(s.contains(r[j]));
            let a = choose|k: int| 0 <= k < s.len() && s[k] == r[i];
            let b = choose|k: int| 0 <= k < s.len() && s[k] == r[j];
            assert(a == b);
            assert(r[i] == r[j]);
            lemma_two_copies(r, i, j);
            assert(s.to_multiset().count(r[i]) >= 2);
            lemma_one_copy(s, a);
        }
    }
}

proof fn lemma_two_copies(r: Seq<BTDevice>, i: int, j: int)
    requires
        0 <= i < r.len(),
        0 <= j < r.len(),
        i != j,
        r[i] == r[j],
    ensures
        r.to_multiset().count(r[i]) >= 2,
{
    let k = if i < j { i } else { j };
    let m = if i < j { j } else { i };
    let q = r.remove(m);
    assert(q.insert(m, r[m]) =~= r);
    vstd::seq_lib::to_multiset_insert(q, m, r[m]);
    q.to_multiset_ensures();
    assert(q[k] == r[k]);
    assert(q.contains(r[i]));
    vstd::multiset::lemma_insert_increases_count_by_1(q.to_multiset(), r[m]);
}

proof fn lemma_one_copy(s: Seq<BTDevice>, a: int)
    requires
        addresses_unique(s),
        0 <= a < s.len(),
    ensures
        s.to_multiset().count(s[a]) == 1,
{
    let q = s.remove(a);
    assert(q.insert(a, s[a]) =~= s);
    vstd::seq_lib::to_multiset_insert(q, a, s[a]);
    q.to_multiset_ensures();
    assert(!q.contains(s[a])) by {
        if q.contains(s[a]) {
            let k = choose|k: int| 0 <= k < q.len() && q[k] == s[a];
            if k < a {
                assert(s[k] == q[k]);
            } else {
                assert(s[k + 1] == q[k]);
            }
        }
    }
    vstd::multiset::lemma_insert_increases_count_by_1(q.to_multiset(), s[a]);
}

/// Taking out the devices with one address keeps the others distinct.
pub proof fn lemma_without_address_unique(s: Seq<BTDevice>, a: Seq<char>)
    requires
        addresses_unique(s),
    ensures
        addresses_unique(without_address(s, a)),
        forall|x: BTDevice| #[trigger] without_address(s, a).contains(x) ==> s.contains(x),
    decreases s.len(),
{
    reveal(Seq::filter);
    if s.len() > 0 {
        let t = s.drop_last();
        assert(addresses_unique(t)) by {
            assert forall|i: int, j: int|
                0 <= i < t.len() && 0 <= j < t.len() && i != j implies (#[trigger] t[i]).address@
                != (#[trigger] t[j]).address@ by {
                assert(t[i] == s[i] && t[j] == s[j]);
            }
        }
        lemma_without_address_unique(t, a);
        let f = without_address(t, a);
        if s.last().address@ != a {
            assert(without_address(s, a) == f.push(s.last()));
            assert forall|k: int| 0 <= k < f.len() implies (#[trigger] f[k]).address@ != s.last().address@ by {
                assert(f.contains(f[k]));
                let m = choose|m: int| 0 <= m < t.len() && t[m] == f[k];
                assert(s[m] == t[m]);
            }
            let g = f.push(s.last());
            assert forall|x: BTDevice| #[trigger] g.contains(x) implies s.contains(x) by {
                let k = choose|k: int| 0 <= k < g.len() && g[k] == x;
                if k < f.len() {
                    assert(f.contains(f[k]));
                    let m = choose|m: int| 0 <= m < t.len() && t[m] == f[k];
                    assert(s[m] == t[m]);
                } else {
                    assert(s[s.len() - 1] == x);
                }
            }
        } else {
            assert(without_address(s, a) == f);
            assert forall|x: BTDevice| #[trigger] f.contains(x) implies s.contains(x) by {
                let m = choose|m: int| 0 <= m < t.len() && t[m] == x;
                assert(s[m] == t[m]);
            }
        }
    }
}

/// Taking out the devices with one address keeps the rest in order.
pub proof fn lemma_without_address_sorted(s: Seq<BTDevice>, a: Seq<char>)
    requires
        sorted_desc(s),
    ensures
        sorted_desc(without_address(s, a)),
    decreases s.len(),
{
    reveal(Seq::filter);
    if s.len() > 0 {
        let t = s.drop_last();
        assert(sorted_desc(t)) by {
            assert forall|i: int, j: int| 0 <= i < j < t.len() implies !key_lt(#[trigger] t[i], #[trigger] t[j]) by {
                assert(t[i] == s[i] && t[j] == s[j]);
            }
        }
        lemma_without_address_sorted(t, a);
        lemma_filter_within(t, a);
        let f = without_address(t, a);
        if s.last().address@ != a {
            let g = f.push(s.last());
            assert(without_address(s, a) == g);
            assert forall|i: int, j: int| 0 <= i < j < g.len() implies !key_lt(#[trigger] g[i], #[trigger] g[j]) by {
                if j == g.len() - 1 {
                    assert(f.contains(f[i]));
                    let m = choose|m: int| 0 <= m < t.len() && t[m] == f[i];
                    assert(s[m] == t[m]);
                    assert(!key_lt(s[m], s[s.len() - 1]));
                } else {
                    assert(g[i] == f[i] && g[j] == f[j]);
                }
            }
        }
    }
}

proof fn lemma_filter_within(s: Seq<BTDevice>, a: Seq<char>)
    ensures
        forall|x: BTDevice| #[trigger] without_address(s, a).contains(x) ==> s.contains(x),
    decreases s.len(),
{
    reveal(Seq::filter);
    if s.len() > 0 {
        let t = s.drop_last();
        lemma_filter_within(t, a);
        let f = without_address(t, a);
        assert forall|x: BTDevice| #[trigger] without_address(s, a).contains(x) implies s.contains(x) by {
            let g = without_address(s, a);
            let k = choose|k: int| 0 <= k < g.len() && g[k] == x;
            if k < f.len() {
                assert(f[k] == x);
                assert(f.contains(x));
                let m = choose|m: int| 0 <= m < t.len() && t[m] == x;
                assert(s[m] == t[m]);
            } else {
                assert(s[s.len() - 1] == x);
            }
        }
    }
}

/// `s` with `d` appended, unless a device of `s` already has its address.
pub open spec fn add_new(s: Seq<BTDevice>, d: BTDevice) -> Seq<BTDevice> {
    if has_address(s, d.address@) {
        s
    } else {
        s.push(d)
    }
}

/// Adding a device under a new address only keeps the addresses distinct.
pub proof fn lemma_add_new_unique(s: Seq<BTDevice>, d: BTDevice)
    requires
        addresses_unique(s),
    ensures
        addresses_unique(add_new(s, d)),
{
    let t = add_new(s, d);
    if !has_address(s, d.address@) {
        assert forall|i: int, j: int|
            0 <= i < t.len() && 0 <= j < t.len() && i != j implies (#[trigger] t[i]).address@
            != (#[trigger] t[j]).address@ by {
            if i < s.len() && j < s.len() {
                assert(t[i] == s[i] && t[j] == s[j]);
            } else if i < s.len() {
                assert(t[i] == s[i]);
            } else {
                assert(t[j] == s[j]);
            }
        }
    }
}

/// Replacing a device by address keeps the addresses distinct.
pub proof fn lemma_replace_address_unique(s: Seq<BTDevice>, d: BTDevice)
    requires
        addresses_unique(s),
    ensures
        addresses_unique(replace_address(s, d)),
{
    let t = replace_address(s, d);
    lemma_replace_address_keeps_addresses(s, d);
    assert forall|i: int, j: int|
        0 <= i < t.len() && 0 <= j < t.len() && i != j implies (#[trigger] t[i]).address@
        != (#[trigger] t[j]).address@ by {
        assert(t[i].address@ == s[i].address@);
        assert(t[j].address@ == s[j].address@);
    }
}

/// Replacing a device by address keeps every address where it stands.
pub proof fn lemma_replace_address_keeps_addresses(s: Seq<BTDevice>, d: BTDevice)
    ensures
        replace_address(s, d).len() == s.len(),
        forall|i: int| 0 <= i < s.len() ==> (#[trigger] replace_address(s, d)[i]).address@ == s[i].address@,
{
}

} // verus!
