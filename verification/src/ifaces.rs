//! Network interface records: their state, hardware address, MTU and
//! traffic counters as the kernel exposes them, merged with the modem's own
//! bearer statistics, and the order they are listed in.

use crate::net::{address_views, IpAddress, IpAddressModel};
use crate::text::{
    chars_eq_str, chars_of, dec, lemma_decimal_reads_back, lemma_text_lt_asymmetric, lemma_text_lt_transitive, parse_uint,
    parse_unsigned, slice_chars, starts_with_str, string_from_chars, text_less, text_lt, trim,
    trim_chars,
};
use vstd::prelude::*;

verus! {

broadcast use vstd::seq_lib::group_to_multiset_ensures;

/// What `str::to_lowercase` gives for a text. Its result is named; only
/// its effect on ASCII text is described (`ascii_lowercase`).
pub uninterp spec fn lowercased(text: Seq<char>) -> Seq<char>;

/// Whether every character of a text is ASCII.
pub open spec fn is_ascii_text(text: Seq<char>) -> bool {
    forall|i: int| 0 <= i < text.len() ==> (#[trigger] text[i] as u32) < 0x80
}

/// An ASCII character in lower case: `A`-`Z` become `a`-`z`, every other
/// character stays.
pub open spec fn ascii_lower_char(c: char) -> char {
    if 0x41 <= (c as u32) <= 0x5a {
        ((c as u32) + 0x20) as char
    } else {
        c
    }
}

/// A text with `A`-`Z` mapped to `a`-`z` and every other character kept.
pub open spec fn ascii_lowercase(text: Seq<char>) -> Seq<char> {
    text.map_values(|c: char| ascii_lower_char(c))
}

/// `str::to_lowercase`: the text with every character mapped to its
/// Unicode lower case. Of an all-ASCII text the contract states the result
/// (letters `A`-`Z` become `a`-`z`, every other character stays, as std
/// documents for ASCII); of other text it only names the result.
#[verifier::external_body]
fn to_lowercase(text: &str) -> (res: String)
    ensures
        res@ == lowercased(text@),
        is_ascii_text(text@) ==> res@ == ascii_lowercase(text@),
{
    text.to_lowercase()
}

/// Traffic counters that the modem keeps for its data bearer.
#[derive(Debug, Clone, Copy)]
pub struct BearerStats {
    pub rx_bytes: u64,
    pub tx_bytes: u64,
    pub rx_packets: u64,
    pub tx_packets: u64,
}

/// The operational state of an interface: its `operstate` file trimmed and
/// in lower case, or `unknown` where it could not be read.
pub open spec fn status_of(operstate: Option<Seq<char>>) -> Seq<char> {
    match operstate {
        Some(s) => lowercased(trim(s)),
        None => lowercased("unknown"@),
    }
}

/// An interface whose state file is missing is taken to be `unknown`; a
/// state read in ASCII is taken in ASCII lower case.
pub fn interface_status(operstate: Option<&str>) -> (res: String)
    ensures
        res@ == status_of(
            match operstate {
                Some(s) => Some(s@),
                None => None,
            },
        ),
        operstate is None ==> res@ == "unknown"@,
        match operstate {
            Some(s) => is_ascii_text(trim(s@)) ==> res@ == ascii_lowercase(trim(s@)),
            None => true,
        },
{
    match operstate {
        Some(s) => {
            let v = chars_of(s);
            let t = trim_chars(&v);
            let ts = string_from_chars(&t);
            to_lowercase(ts.as_str())
        },
        None => {
            proof {
                reveal_strlit("unknown");
                assert(is_ascii_text("unknown"@));
                assert(ascii_lowercase("unknown"@) =~= "unknown"@);
            }
            to_lowercase("unknown")
        },
    }
}

/// The address tools may be run for an interface that is not down.
pub fn may_use_address_tools(status: &str) -> (res: bool)
    ensures
        res == (status@ != "down"@),
{
    let v = chars_of(status);
    !chars_eq_str(&v, "down")
}

/// The text of an interface file, where it could be read.
pub open spec fn file_view(f: Option<String>) -> Option<Seq<char>> {
    match f {
        Some(s) => Some(s@),
        None => None,
    }
}

/// A file holding one decimal number: its value, or zero where it is
/// missing or not a number no larger than `max`.
pub open spec fn number_in(f: Option<Seq<char>>, max: nat) -> nat {
    match f {
        Some(s) => match parse_unsigned(trim(s), 10, max) {
            Some(v) => v,
            None => 0,
        },
        None => 0,
    }
}

/// The interface flags: hexadecimal after `0x`, decimal otherwise; zero
/// where missing or unreadable.
pub open spec fn flags_in(f: Option<Seq<char>>) -> u32 {
    match f {
        Some(s) => {
            let t = trim(s);
            let v = if t.len() >= 2 && t.take(2) == "0x"@ {
                parse_unsigned(t.skip(2), 16, u32::MAX as nat)
            } else {
                parse_unsigned(t, 10, u32::MAX as nat)
            };
            match v {
                Some(n) => n as u32,
                None => 0u32,
            }
        },
        None => 0u32,
    }
}

/// A hardware address: the trimmed text, unless empty or all zeros.
pub open spec fn mac_in(f: Option<Seq<char>>) -> Option<Seq<char>> {
    match f {
        Some(s) => {
            let t = trim(s);
            if t.len() > 0 && t != "00:00:00:00:00:00"@ {
                Some(t)
            } else {
                None
            }
        },
        None => None,
    }
}

/// An interface whose state is `unknown` counts as up when its `IFF_UP`
/// flag is set and it has carrier or an address.
pub open spec fn settled_status(
    status: Seq<char>,
    flags: Option<Seq<char>>,
    carrier: Option<Seq<char>>,
    has_addresses: bool,
) -> Seq<char> {
    let carrier_text = match carrier {
        Some(c) => trim(c),
        None => Seq::empty(),
    };
    if status == "unknown"@ && flags_in(flags) & 1u32 != 0 && (carrier_text == "1"@
        || has_addresses) {
        "up"@
    } else {
        status
    }
}

/// The larger of a kernel counter and the bearer's, where there is one.
pub open spec fn merged(kernel: u64, bearer: Option<u64>) -> u64 {
    match bearer {
        Some(b) => if b > kernel {
            b
        } else {
            kernel
        },
        None => kernel,
    }
}

/// The files of `/sys/class/net/<name>` that describe an interface, each
/// as read, or `None` where it could not be.
#[derive(Debug)]
pub struct InterfaceFiles {
    pub address: Option<String>,
    pub mtu: Option<String>,
    pub rx_bytes: Option<String>,
    pub tx_bytes: Option<String>,
    pub rx_packets: Option<String>,
    pub tx_packets: Option<String>,
    pub rx_errors: Option<String>,
    pub tx_errors: Option<String>,
    pub flags: Option<String>,
    pub carrier: Option<String>,
}

/// One network interface.
#[derive(Debug)]
pub struct NetworkInterfaceInfo {
    pub name: String,
    pub status: String,
    pub mac_address: Option<String>,
    pub mtu: u32,
    pub ip_addresses: Vec<IpAddress>,
    pub rx_bytes: u64,
    pub tx_bytes: u64,
    pub rx_packets: u64,
    pub tx_packets: u64,
    pub rx_errors: u64,
    pub tx_errors: u64,
}

/// What an interface record holds.
pub struct InterfaceModel {
    pub name: Seq<char>,
    pub status: Seq<char>,
    pub mac_address: Option<Seq<char>>,
    pub mtu: u32,
    pub ip_addresses: Seq<IpAddressModel>,
    pub rx_bytes: u64,
    pub tx_bytes: u64,
    pub rx_packets: u64,
    pub tx_packets: u64,
    pub rx_errors: u64,
    pub tx_errors: u64,
}

impl View for NetworkInterfaceInfo {
    type V = InterfaceModel;

    open spec fn view(&self) -> InterfaceModel {
        InterfaceModel {
            name: self.name@,
            status: self.status@,
            mac_address: file_view(self.mac_address),
            mtu: self.mtu,
            ip_addresses: address_views(self.ip_addresses@),
            rx_bytes: self.rx_bytes,
            tx_bytes: self.tx_bytes,
            rx_packets: self.rx_packets,
            tx_packets: self.tx_packets,
            rx_errors: self.rx_errors,
            tx_errors: self.tx_errors,
        }
    }
}

/// The record of an interface from its name, its state, its files, the
/// bearer's counters where the modem serves it, and its addresses.
pub open spec fn interface_model(
    name: Seq<char>,
    status: Seq<char>,
    files: InterfaceFiles,
    bearer: Option<BearerStats>,
    addresses: Seq<IpAddressModel>,
) -> InterfaceModel {
    let b = bearer;
    InterfaceModel {
        name,
        status: settled_status(
            status,
            file_view(files.flags),
            file_view(files.carrier),
            addresses.len() > 0,
        ),
        mac_address: mac_in(file_view(files.address)),
        mtu: number_in(file_view(files.mtu), u32::MAX as nat) as u32,
        ip_addresses: addresses,
        rx_bytes: merged(
            number_in(file_view(files.rx_bytes), u64::MAX as nat) as u64,
            match b {
                Some(s) => Some(s.rx_bytes),
                None => None,
            },
        ),
        tx_bytes: merged(
            number_in(file_view(files.tx_bytes), u64::MAX as nat) as u64,
            match b {
                Some(s) => Some(s.tx_bytes),
                None => None,
            },
        ),
        rx_packets: merged(
            number_in(file_view(files.rx_packets), u64::MAX as nat) as u64,
            match b {
                Some(s) => Some(s.rx_packets),
                None => None,
            },
        ),
        tx_packets: merged(
            number_in(file_view(files.tx_packets), u64::MAX as nat) as u64,
            match b {
                Some(s) => Some(s.tx_packets),
                None => None,
            },
        ),
        rx_errors: number_in(file_view(files.rx_errors), u64::MAX as nat) as u64,
        tx_errors: number_in(file_view(files.tx_errors), u64::MAX as nat) as u64,
    }
}

fn number_from(f: &Option<String>, max: u64) -> (res: u64)
    ensures
        res == number_in(file_view(*f), max as nat),
{
    match f {
        Some(s) => {
            let v = chars_of(s.as_str());
            let t = trim_chars(&v);
            match parse_uint(&t, 10, max) {
                Some(n) => n,
                None => 0,
            }
        },
        None => 0,
    }
}

fn flags_from(f: &Option<String>) -> (res: u32)
    ensures
        res == flags_in(file_view(*f)),
{
    proof {
        reveal_strlit("0x");
    }
    match f {
        Some(s) => {
            let v = chars_of(s.as_str());
            let t = trim_chars(&v);
            let parsed = if starts_with_str(&t, "0x") {
                let rest = slice_chars(&t, 2, t.len());
                assert(rest@ == t@.skip(2));
                parse_uint(&rest, 16, 0xffff_ffff)
            } else {
                parse_uint(&t, 10, 0xffff_ffff)
            };
            match parsed {
                Some(n) => n as u32,
                None => 0,
            }
        },
        None => 0,
    }
}

fn mac_from(f: &Option<String>) -> (res: Option<String>)
    ensures
        file_view(res) == mac_in(file_view(*f)),
{
    match f {
        Some(s) => {
            let v = chars_of(s.as_str());
            let t = trim_chars(&v);
            if t.len() > 0 && !chars_eq_str(&t, "00:00:00:00:00:00") {
                Some(string_from_chars(&t))
            } else {
                None
            }
        },
        None => None,
    }
}

/// A kernel traffic counter, raised to the bearer's where the modem
/// counted more.
pub fn merge_counter(kernel: u64, bearer: Option<u64>) -> (res: u64)
    ensures
        res == merged(kernel, bearer),
{
    match bearer {
        Some(b) => if b > kernel {
            b
        } else {
            kernel
        },
        None => kernel,
    }
}

/// Builds an interface's record.
pub fn interface_info(
    name: String,
    status: String,
    files: &InterfaceFiles,
    bearer: Option<BearerStats>,
    ip_addresses: Vec<IpAddress>,
) -> (res: NetworkInterfaceInfo)
    ensures
        res@ == interface_model(name@, status@, *files, bearer, address_views(ip_addresses@)),
{
    proof {
        reveal_strlit("1");
    }
    let carrier_is_one = match &files.carrier {
        Some(c) => {
            let v = chars_of(c.as_str());
            let t = trim_chars(&v);
            chars_eq_str(&t, "1")
        },
        None => {
            assert("1"@.len() == 1);
            false
        },
    };
    let st = chars_of(status.as_str());
    assert(address_views(ip_addresses@).len() == ip_addresses@.len());

    let settled = if chars_eq_str(&st, "unknown") && flags_from(&files.flags) & 1u32 != 0 && (
    carrier_is_one || ip_addresses.len() > 0) {
        "up".to_string()
    } else {
        status
    };
    let rx_bytes = merge_counter(
        number_from(&files.rx_bytes, u64::MAX),
        match bearer {
            Some(s) => Some(s.rx_bytes),
            None => None,
        },
    );
    let tx_bytes = merge_counter(
        number_from(&files.tx_bytes, u64::MAX),
        match bearer {
            Some(s) => Some(s.tx_bytes),
            None => None,
        },
    );
    let rx_packets = merge_counter(
        number_from(&files.rx_packets, u64::MAX),
        match bearer {
            Some(s) => Some(s.rx_packets),
            None => None,
        },
    );
    let tx_packets = merge_counter(
        number_from(&files.tx_packets, u64::MAX),
        match bearer {
            Some(s) => Some(s.tx_packets),
            None => None,
        },
    );
    let mtu = number_from(&files.mtu, 0xffff_ffff) as u32;
    NetworkInterfaceInfo {
        name,
        status: settled,
        mac_address: mac_from(&files.address),
        mtu,
        ip_addresses,
        rx_bytes,
        tx_bytes,
        rx_packets,
        tx_packets,
        rx_errors: number_from(&files.rx_errors, u64::MAX),
        tx_errors: number_from(&files.tx_errors, u64::MAX),
    }
}

/// Whether `a` is listed before `b`: by name.
pub open spec fn interface_before(a: NetworkInterfaceInfo, b: NetworkInterfaceInfo) -> bool {
    text_lt(a.name@, b.name@)
}

pub open spec fn interfaces_sorted(s: Seq<NetworkInterfaceInfo>) -> bool {
    forall|i: int, j: int|
        0 <= i < j < s.len() ==> !interface_before(#[trigger] s[j], #[trigger] s[i])
}

/// Orders interfaces by name.
pub fn sort_interfaces(interfaces: Vec<NetworkInterfaceInfo>) -> (res: Vec<NetworkInterfaceInfo>)
    ensures
        res@.to_multiset() == interfaces@.to_multiset(),
        interfaces_sorted(res@),
{
    let mut rest = interfaces;
    let mut out: Vec<NetworkInterfaceInfo> = Vec::new();
    while rest.len() > 0
        invariant
            out@.to_multiset().add(rest@.to_multiset()) == interfaces@.to_multiset(),
            interfaces_sorted(out@),
        decreases rest.len(),
    {
        let ghost before_rest = rest@;
        let x = rest.pop().unwrap();
        assert(before_rest == rest@.push(x));
        let xn = chars_of(x.name.as_str());
        let mut p: usize = 0;
        while p < out.len() && !text_less(&xn, &chars_of(out[p].name.as_str()))
            invariant
                p <= out.len(),
                xn@ == x.name@,
                forall|k: int| 0 <= k < p ==> !interface_before(x, out@[k]),
            decreases out.len() - p,
        {
            p = p + 1;
        }
        let ghost old_out = out@;
        out.insert(p, x);
        proof {
            assert(out@ == old_out.insert(p as int, x));
            assert forall|i: int, j: int| 0 <= i < j < out@.len() implies !interface_before(
                #[trigger] out@[j],
                #[trigger] out@[i],
            ) by {
                if j < p {
                    assert(out@[i] == old_out[i] && out@[j] == old_out[j]);
                } else if j == p {
                    assert(out@[j] == x && out@[i] == old_out[i]);
                } else if i < p {
                    assert(out@[i] == old_out[i] && out@[j] == old_out[j - 1]);
                } else if i == p {
                    assert(out@[i] == x && out@[j] == old_out[j - 1]);
                    assert(interface_before(x, old_out[p as int]));
                    if interface_before(old_out[j - 1], x) {
                        if j - 1 == p {
                            lemma_text_lt_asymmetric(x.name@, old_out[p as int].name@);
                        } else {
                            lemma_text_lt_transitive(
                                old_out[j - 1].name@,
                                x.name@,
                                old_out[p as int].name@,
                            );
                            assert(!interface_before(old_out[j - 1], old_out[p as int]));
                        }
                    }
                } else {
                    assert(out@[i] == old_out[i - 1] && out@[j] == old_out[j - 1]);
                }
            }
        }
    }
    out
}

/// An interface is listed as active when it is not the loopback and its
/// state, trimmed, is `up` or `unknown`; one whose state could not be read
/// is not.
pub open spec fn active(name: Seq<char>, operstate: Option<Seq<char>>) -> bool {
    name != "lo"@ && match operstate {
        Some(s) => trim(s) == "up"@ || trim(s) == "unknown"@,
        None => false,
    }
}

pub fn is_active_interface(name: &str, operstate: Option<&str>) -> (res: bool)
    ensures
        res == active(
            name@,
            match operstate {
                Some(s) => Some(s@),
                None => None,
            },
        ),
        name@ == "lo"@ ==> !res,
        operstate is None ==> !res,
        operstate matches Some(s) && name@ != "lo"@ && (trim(s@) == "up"@ || trim(s@)
            == "unknown"@) ==> res,
        operstate matches Some(s) && trim(s@) != "up"@ && trim(s@) != "unknown"@ ==> !res,
{
    let n = chars_of(name);
    if chars_eq_str(&n, "lo") {
        return false;
    }
    match operstate {
        Some(s) => {
            let v = chars_of(s);
            let t = trim_chars(&v);
            chars_eq_str(&t, "up") || chars_eq_str(&t, "unknown")
        },
        None => false,
    }
}

/// Only an interface in the `unknown` state is ever reported differently
/// from its state, and then only as `up`.
pub proof fn lemma_only_unknown_becomes_up(
    status: Seq<char>,
    flags: Option<Seq<char>>,
    carrier: Option<Seq<char>>,
    has_addresses: bool,
)
    ensures
        settled_status(status, flags, carrier, has_addresses) == status || (status == "unknown"@
            && settled_status(status, flags, carrier, has_addresses) == "up"@),
{
}

/// A counter file whose trimmed text is the decimal form of any `u64`
/// reads as that number: counters are 64-bit, so none that has passed
/// 4 GiB is lost.
pub proof fn lemma_counter_file_reads_u64(s: Seq<char>, n: u64)
    requires
        trim(s) == dec(n as nat),
    ensures
        number_in(Some(s), u64::MAX as nat) == n,
{
    lemma_decimal_reads_back(n as nat, u64::MAX as nat);
}

/// With no bearer to merge, each byte, packet and error counter of an
/// interface is the number its file holds, for every `u64`; the MTU is the
/// number its file holds, for every `u32`.
pub proof fn lemma_counters_are_64_bit(
    name: Seq<char>,
    status: Seq<char>,
    files: InterfaceFiles,
    addresses: Seq<IpAddressModel>,
    n: u64,
)
    ensures
        ({
            let m = interface_model(name, status, files, None, addresses);
            &&& (file_view(files.rx_bytes) matches Some(t) && trim(t) == dec(n as nat) ==> m.rx_bytes == n)
            &&& (file_view(files.tx_bytes) matches Some(t) && trim(t) == dec(n as nat) ==> m.tx_bytes == n)
            &&& (file_view(files.rx_packets) matches Some(t) && trim(t) == dec(n as nat) ==> m.rx_packets == n)
            &&& (file_view(files.tx_packets) matches Some(t) && trim(t) == dec(n as nat) ==> m.tx_packets == n)
            &&& (file_view(files.rx_errors) matches Some(t) && trim(t) == dec(n as nat) ==> m.rx_errors == n)
            &&& (file_view(files.tx_errors) matches Some(t) && trim(t) == dec(n as nat) ==> m.tx_errors == n)
            &&& (file_view(files.mtu) matches Some(t) && trim(t) == dec(n as nat) && n <= u32::MAX ==> m.mtu == n)
        }),
{
    lemma_decimal_reads_back(n as nat, u64::MAX as nat);
}

/// A merged counter is the larger of the kernel's and the bearer's, and
/// the kernel's alone where there is no bearer.
pub proof fn lemma_merged_is_larger(kernel: u64, bearer: Option<u64>)
    ensures
        merged(kernel, bearer) >= kernel,
        bearer matches Some(b) ==> merged(kernel, bearer) >= b && (merged(kernel, bearer) == kernel
            || merged(kernel, bearer) == b),
        bearer is None ==> merged(kernel, bearer) == kernel,
{
}

/// An interface in the `unknown` state whose `IFF_UP` flag is set is
/// reported up once it has carrier or an address; one with the flag clear
/// keeps its state.
pub proof fn lemma_unknown_settles_up(
    flags: Option<Seq<char>>,
    carrier: Option<Seq<char>>,
    has_addresses: bool,
)
    ensures
        flags_in(flags) & 1u32 != 0 && ((carrier matches Some(c) && trim(c) == "1"@)
            || has_addresses) ==> settled_status("unknown"@, flags, carrier, has_addresses)
            == "up"@,
        flags_in(flags) & 1u32 == 0 ==> settled_status("unknown"@, flags, carrier, has_addresses)
            == "unknown"@,
{
}

} // verus!
