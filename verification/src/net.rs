//! Network interface addresses: their scope, the address lines printed by
//! `ip` and `ifconfig`, and the choice among the ways of reading them.

use crate::text::{
    chars_eq_str, chars_of, find_word, join, join_chars, lines, parse_uint, parse_unsigned,
    replace_all, replace_chars, split_lines, split_once, split_once_char, split_words,
    string_from_chars, trim, trim_chars, views, word_position, words, dec,
    lemma_dec_digits, lemma_decimal_reads_back,
};
use vstd::prelude::*;

verus! {

/// An IP address: four octets or eight 16-bit segments.
#[derive(Debug, Clone, Copy)]
pub enum IpValue {
    V4([u8; 4]),
    V6([u16; 8]),
}

/// Loopback (127/8), private (10/8, 172.16/12, 192.168/16), link-local
/// (169.254/16) or public.
pub open spec fn ipv4_scope(o: [u8; 4]) -> Seq<char> {
    if o[0] == 127 {
        "loopback"@
    } else if o[0] == 10 || (o[0] == 172 && 16 <= o[1] <= 31) || (o[0] == 192 && o[1] == 168) {
        "private"@
    } else if o[0] == 169 && o[1] == 254 {
        "link-local"@
    } else {
        "public"@
    }
}

/// Loopback (::1), link-local (fe80::/10, then the rest of fe00::/8),
/// private (the unique local fc00::/7) or public.
pub open spec fn ipv6_scope(s: [u16; 8]) -> Seq<char> {
    if s[0] == 0 && s[1] == 0 && s[2] == 0 && s[3] == 0 && s[4] == 0 && s[5] == 0 && s[6] == 0
        && s[7] == 1 {
        "loopback"@
    } else if s[0] & 0xffc0 == 0xfe80 {
        "link-local"@
    } else if s[0] & 0xfe00 == 0xfc00 {
        "private"@
    } else if s[0] & 0xff00 == 0xfe00 {
        "link-local"@
    } else {
        "public"@
    }
}

pub open spec fn ip_scope(ip: IpValue) -> Seq<char> {
    match ip {
        IpValue::V4(o) => ipv4_scope(o),
        IpValue::V6(s) => ipv6_scope(s),
    }
}

/// Names the range an address lies in.
pub fn get_ip_scope(ip: &IpValue) -> (res: String)
    ensures
        res@ == ip_scope(*ip),
        ip matches IpValue::V4(o) && o[0] == 127 ==> res@ == "loopback"@,
        ip matches IpValue::V4(o) && (o[0] == 10 || (o[0] == 172 && 16 <= o[1] <= 31) || (o[0]
            == 192 && o[1] == 168)) ==> res@ == "private"@,
        ip matches IpValue::V4(o) && o[0] == 169 && o[1] == 254 ==> res@ == "link-local"@,
{
    proof {
        lemma_ipv4_scopes();
    }
    match ip {
        IpValue::V4(o) => {
            if o[0] == 127 {
                "loopback".to_string()
            } else if o[0] == 10 || (o[0] == 172 && 16 <= o[1] && o[1] <= 31) || (o[0] == 192
                && o[1] == 168) {
                "private".to_string()
            } else if o[0] == 169 && o[1] == 254 {
                "link-local".to_string()
            } else {
                "public".to_string()
            }
        },
        IpValue::V6(s) => {
            if s[0] == 0 && s[1] == 0 && s[2] == 0 && s[3] == 0 && s[4] == 0 && s[5] == 0 && s[6]
                == 0 && s[7] == 1 {
                "loopback".to_string()
            } else if s[0] & 0xffc0 == 0xfe80 {
                "link-local".to_string()
            } else if s[0] & 0xfe00 == 0xfc00 {
                "private".to_string()
            } else if s[0] & 0xff00 == 0xfe00 {
                "link-local".to_string()
            } else {
                "public".to_string()
            }
        },
    }
}

/// Every address of 127.0.0.0/8 is loopback; every address of 10.0.0.0/8,
/// 172.16.0.0/12 (first octet 172, second 16 through 31) and
/// 192.168.0.0/16 is private; every address of 169.254.0.0/16 is
/// link-local; an address in none of these ranges is public.
pub proof fn lemma_ipv4_scopes()
    ensures
        forall|o: [u8; 4]| o[0] == 127 ==> #[trigger] ipv4_scope(o) == "loopback"@,
        forall|o: [u8; 4]|
            o[0] == 10 || (o[0] == 172 && 16 <= o[1] <= 31) || (o[0] == 192 && o[1] == 168)
                ==> #[trigger] ipv4_scope(o) == "private"@,
        forall|o: [u8; 4]| o[0] == 169 && o[1] == 254 ==> #[trigger] ipv4_scope(o) == "link-local"@,
        forall|o: [u8; 4]|
            !(o[0] == 127 || o[0] == 10 || (o[0] == 172 && 16 <= o[1] <= 31) || (o[0] == 192
                && o[1] == 168) || (o[0] == 169 && o[1] == 254)) ==> #[trigger] ipv4_scope(o)
                == "public"@,
{
}

/// `::1` is loopback; every address of fe80::/10 is link-local; every
/// address of the unique local range fc00::/7 is private.
pub proof fn lemma_ipv6_scopes()
    ensures
        forall|s: [u16; 8]|
            s[0] == 0 && s[1] == 0 && s[2] == 0 && s[3] == 0 && s[4] == 0 && s[5] == 0 && s[6] == 0
                && s[7] == 1 ==> #[trigger] ipv6_scope(s) == "loopback"@,
        forall|s: [u16; 8]| s[0] & 0xffc0 == 0xfe80 ==> #[trigger] ipv6_scope(s) == "link-local"@,
        forall|s: [u16; 8]| s[0] & 0xfe00 == 0xfc00 ==> #[trigger] ipv6_scope(s) == "private"@,
{
    assert forall|s: [u16; 8]| s[0] & 0xffc0 == 0xfe80 implies #[trigger] ipv6_scope(s)
        == "link-local"@ by {
        let a = s[0];
        assert(a & 0xffc0 == 0xfe80 ==> a != 0) by (bit_vector);
    }
    assert forall|s: [u16; 8]| s[0] & 0xfe00 == 0xfc00 implies #[trigger] ipv6_scope(s)
        == "private"@ by {
        let a = s[0];
        assert(a & 0xfe00 == 0xfc00 ==> a != 0 && a & 0xffc0 != 0xfe80) by (bit_vector);
    }
}

/// The number of bits set in a byte.
pub open spec fn ones(b: nat) -> nat
    decreases b,
{
    if b == 0 {
        0
    } else {
        b % 2 + ones(b / 2)
    }
}

proof fn lemma_ones_bound(b: nat, k: nat)
    requires
        b < pow2(k),
    ensures
        ones(b) <= k,
    decreases k,
{
    if k > 0 && b > 0 {
        assert(b / 2 < pow2((k - 1) as nat)) by {
            assert(pow2(k) == 2 * pow2((k - 1) as nat));
        }
        lemma_ones_bound(b / 2, (k - 1) as nat);
    } else if b > 0 {
        assert(pow2(0) == 1);
    }
}

pub open spec fn pow2(k: nat) -> nat
    decreases k,
{
    if k == 0 {
        1
    } else {
        2 * pow2((k - 1) as nat)
    }
}

fn count_ones(b: u8) -> (res: u8)
    ensures
        res == ones(b as nat),
        res <= 8,
{
    let mut n: u8 = b;
    let mut c: u8 = 0;
    proof {
        reveal_with_fuel(pow2, 9);
        assert(pow2(8) == 256);
        lemma_ones_bound(b as nat, 8);
    }
    while n > 0
        invariant
            c + ones(n as nat) == ones(b as nat),
            ones(b as nat) <= 8,
        decreases n,
    {
        c = c + n % 2;
        n = n / 2;
    }
    c
}

/// The sum of the bits set in a sequence of bytes.
pub open spec fn ones_in(bytes: Seq<u8>) -> nat
    decreases bytes.len(),
{
    if bytes.len() == 0 {
        0
    } else {
        ones_in(bytes.drop_last()) + ones(bytes.last() as nat)
    }
}

/// The prefix length of a netmask: the number of bits set in it.
pub fn mask_prefix_len(bytes: &[u8]) -> (res: u8)
    requires
        bytes@.len() <= 16,
    ensures
        res == ones_in(bytes@),
        res <= 8 * bytes@.len(),
{
    let mut total: u8 = 0;
    let mut i: usize = 0;
    while i < bytes.len()
        invariant
            i <= bytes@.len() <= 16,
            total == ones_in(bytes@.take(i as int)),
            total <= 8 * i,
        decreases bytes@.len() - i,
    {
        assert(bytes@.take(i + 1).drop_last() == bytes@.take(i as int));
        let c = count_ones(bytes[i]);
        total = total + c;
        i = i + 1;
    }
    assert(bytes@.take(i as int) == bytes@);
    total
}

/// An address with a `/prefix` suffix split in two, where the prefix
/// reads as a `u8`.
pub open spec fn address_with_prefix(s: Seq<char>) -> Option<(Seq<char>, u8)> {
    match split_once(s, '/') {
        Some((a, p)) => match parse_unsigned(p, 10, 255) {
            Some(n) => Some((a, n as u8)),
            None => None,
        },
        None => None,
    }
}

pub fn parse_address_with_prefix(addr_with_prefix: &Vec<char>) -> (res: Option<(Vec<char>, u8)>)
    ensures
        match (res, address_with_prefix(addr_with_prefix@)) {
            (Some((a, n)), Some((b, m))) => a@ == b && n == m,
            (None, None) => true,
            _ => false,
        },
{
    match split_once_char(addr_with_prefix, '/') {
        Some((addr, prefix)) => match parse_uint(&prefix, 10, 255) {
            Some(n) => Some((addr, n as u8)),
            None => None,
        },
        None => None,
    }
}

/// One address of a network interface.
#[derive(Debug)]
pub struct IpAddress {
    pub address: String,
    pub prefix_len: u8,
    /// `ipv4` or `ipv6`.
    pub ip_type: String,
    /// `loopback`, `private`, `link-local` or `public`.
    pub scope: String,
}

/// What an address entry holds.
pub struct IpAddressModel {
    pub address: Seq<char>,
    pub prefix_len: u8,
    pub ip_type: Seq<char>,
    pub scope: Seq<char>,
}

impl View for IpAddress {
    type V = IpAddressModel;

    open spec fn view(&self) -> IpAddressModel {
        IpAddressModel {
            address: self.address@,
            prefix_len: self.prefix_len,
            ip_type: self.ip_type@,
            scope: self.scope@,
        }
    }
}

impl Clone for IpAddress {
    fn clone(&self) -> (res: Self)
        ensures
            res@ == self@,
    {
        IpAddress {
            address: self.address.clone(),
            prefix_len: self.prefix_len,
            ip_type: self.ip_type.clone(),
            scope: self.scope.clone(),
        }
    }
}

pub open spec fn address_views(v: Seq<IpAddress>) -> Seq<IpAddressModel> {
    v.map_values(|a: IpAddress| a@)
}

pub open spec fn ip_type_name(ipv6: bool) -> Seq<char> {
    if ipv6 {
        "ipv6"@
    } else {
        "ipv4"@
    }
}

/// The entry for an address of a known kind and prefix length.
pub open spec fn address_entry(address: Seq<char>, prefix_len: u8, ipv6: bool, ip: IpValue) -> IpAddressModel {
    IpAddressModel { address, prefix_len, ip_type: ip_type_name(ipv6), scope: ip_scope(ip) }
}

/// Builds the entry for an address whose text, prefix length and kind are
/// known.
pub fn make_ip_address(address: String, prefix_len: u8, ipv6: bool, ip: &IpValue) -> (res: IpAddress)
    ensures
        res@ == address_entry(address@, prefix_len, ipv6, *ip),
{
    IpAddress {
        address,
        prefix_len,
        ip_type: if ipv6 {
            "ipv6".to_string()
        } else {
            "ipv4".to_string()
        },
        scope: get_ip_scope(ip),
    }
}

/// Where the prefix length of an address line comes from.
#[derive(Debug)]
pub enum PrefixSource {
    /// Given as a number.
    Length(u8),
    /// Given as a dotted netmask, still to be read.
    Netmask(String),
}

/// What a prefix source holds.
pub enum PrefixModel {
    Length(u8),
    Netmask(Seq<char>),
}

/// An address as a line of tool output states it, before its text is read
/// as an IP address.
#[derive(Debug)]
pub struct AddressCandidate {
    pub address: String,
    pub prefix: PrefixSource,
    pub ipv6: bool,
}

/// What an address candidate holds.
pub struct CandidateModel {
    pub address: Seq<char>,
    pub prefix: PrefixModel,
    pub ipv6: bool,
}

impl View for AddressCandidate {
    type V = CandidateModel;

    open spec fn view(&self) -> CandidateModel {
        CandidateModel {
            address: self.address@,
            prefix: match self.prefix {
                PrefixSource::Length(n) => PrefixModel::Length(n),
                PrefixSource::Netmask(m) => PrefixModel::Netmask(m@),
            },
            ipv6: self.ipv6,
        }
    }
}

pub open spec fn candidate_views(v: Seq<AddressCandidate>) -> Seq<CandidateModel> {
    v.map_values(|c: AddressCandidate| c@)
}

pub open spec fn is_family(w: Seq<char>) -> bool {
    w == "inet"@ || w == "inet6"@
}

/// The position of the first `inet` or `inet6` word.
pub open spec fn family_position(ws: Seq<Seq<char>>) -> Option<int>
    decreases ws.len(),
{
    if ws.len() == 0 {
        None
    } else if is_family(ws[0]) {
        Some(0)
    } else {
        match family_position(ws.drop_first()) {
            Some(k) => Some(k + 1),
            None => None,
        }
    }
}

/// The address of a line of `ip -o addr show`: the word after the first
/// `inet` or `inet6`, split at its `/prefix`.
pub open spec fn ip_line_candidate(line: Seq<char>) -> Option<CandidateModel> {
    let ws = words(line);
    match family_position(ws) {
        Some(k) => if k + 1 < ws.len() {
            match address_with_prefix(ws[k + 1]) {
                Some((a, n)) => Some(
                    CandidateModel { address: a, prefix: PrefixModel::Length(n), ipv6: ws[k] != "inet"@ },
                ),
                None => None,
            }
        } else {
            None
        },
        None => None,
    }
}

pub open spec fn ip_candidates_of(ls: Seq<Seq<char>>) -> Seq<CandidateModel>
    decreases ls.len(),
{
    if ls.len() == 0 {
        Seq::empty()
    } else {
        let rest = ip_candidates_of(ls.drop_last());
        match ip_line_candidate(ls.last()) {
            Some(c) => rest.push(c),
            None => rest,
        }
    }
}

/// The addresses that the output of `ip -o addr show` lists, one per line
/// that has one.
pub open spec fn ip_candidates(output: Seq<char>) -> Seq<CandidateModel> {
    ip_candidates_of(lines(output))
}

fn find_family(ws: &Vec<Vec<char>>) -> (res: Option<usize>)
    ensures
        match (res, family_position(views(ws@))) {
            (Some(k), Some(j)) => k == j && k < ws.len(),
            (None, None) => true,
            _ => false,
        },
{
    let mut i: usize = 0;
    assert(views(ws@).skip(0) =~= views(ws@));
    while i < ws.len()
        invariant
            i <= ws.len(),
            family_position(views(ws@)) == match family_position(views(ws@).skip(i as int)) {
                Some(k) => Some(k + i),
                None => None,
            },
        decreases ws.len() - i,
    {
        let ghost rest = views(ws@).skip(i as int);
        assert(rest[0] == ws@[i as int]@);
        assert(rest.drop_first() =~= views(ws@).skip(i + 1));
        if chars_eq_str(&ws[i], "inet") || chars_eq_str(&ws[i], "inet6") {
            return Some(i);
        }
        i = i + 1;
    }
    None
}

fn ip_line(line: &Vec<char>) -> (res: Option<AddressCandidate>)
    ensures
        match (res, ip_line_candidate(line@)) {
            (Some(c), Some(m)) => c@ == m,
            (None, None) => true,
            _ => false,
        },
{
    let ws = split_words(line);
    match find_family(&ws) {
        Some(k) => {
            if k + 1 < ws.len() {
                match parse_address_with_prefix(&ws[k + 1]) {
                    Some((a, n)) => {
                        let ipv6 = !chars_eq_str(&ws[k], "inet");
                        Some(
                            AddressCandidate {
                                address: string_from_chars(&a),
                                prefix: PrefixSource::Length(n),
                                ipv6,
                            },
                        )
                    },
                    None => None,
                }
            } else {
                None
            }
        },
        None => None,
    }
}

/// Reads the addresses listed in the output of `ip -o addr show`.
pub fn ip_addr_candidates(output: &str) -> (res: Vec<AddressCandidate>)
    ensures
        candidate_views(res@) == ip_candidates(output@),
{
    let text = chars_of(output);
    let ls = split_lines(&text);
    let mut out: Vec<AddressCandidate> = Vec::new();
    let mut i: usize = 0;
    while i < ls.len()
        invariant
            i <= ls.len(),
            views(ls@) == lines(output@),
            candidate_views(out@) == ip_candidates_of(views(ls@).take(i as int)),
        decreases ls.len() - i,
    {
        assert(views(ls@).take(i + 1).drop_last() == views(ls@).take(i as int));
        assert(views(ls@).take(i + 1).last() == ls@[i as int]@);
        match ip_line(&ls[i]) {
            Some(c) => {
                let ghost before = candidate_views(out@);
                let ghost m = c@;
                out.push(c);
                assert(candidate_views(out@) =~= before.push(m));
            },
            None => {},
        }
        i = i + 1;
    }
    assert(views(ls@).take(ls.len() as int) == views(ls@));
    out
}

/// An `ifconfig` line with its older spellings `addr:` and `Mask:` made
/// into separate words.
pub open spec fn normalized(line: Seq<char>) -> Seq<char> {
    replace_all(
        replace_all(replace_all(line, "addr:"@, "addr "@), "Mask:"@, "netmask "@),
        "prefixlen "@,
        "prefixlen "@,
    )
}

/// The address word of an `inet` or `inet6` line: the one after `addr`
/// where the second word is `addr`, else the second word.
pub open spec fn line_address(ws: Seq<Seq<char>>) -> Option<Seq<char>> {
    if ws.len() > 1 && ws[1] == "addr"@ {
        if ws.len() > 2 {
            Some(ws[2])
        } else {
            None
        }
    } else if ws.len() > 1 {
        Some(ws[1])
    } else {
        None
    }
}

/// The word after the first occurrence of `key`.
pub open spec fn value_after(ws: Seq<Seq<char>>, key: Seq<char>) -> Option<Seq<char>> {
    match word_position(ws, key) {
        Some(k) => if k + 1 < ws.len() {
            Some(ws[k + 1])
        } else {
            None
        },
        None => None,
    }
}

pub open spec fn ifconfig_v4(ws: Seq<Seq<char>>) -> Option<CandidateModel> {
    match line_address(ws) {
        Some(a) => Some(
            CandidateModel {
                address: a,
                prefix: match value_after(ws, "netmask"@) {
                    Some(m) => PrefixModel::Netmask(m),
                    None => PrefixModel::Length(0),
                },
                ipv6: false,
            },
        ),
        None => None,
    }
}

pub open spec fn ifconfig_v6(ws: Seq<Seq<char>>) -> Option<CandidateModel> {
    match line_address(ws) {
        Some(a) => {
            let (addr, n) = match address_with_prefix(a) {
                Some(p) => p,
                None => (
                    a,
                    match value_after(ws, "prefixlen"@) {
                        Some(p) => match parse_unsigned(p, 10, 255) {
                            Some(v) => v as u8,
                            None => 0u8,
                        },
                        None => 0u8,
                    },
                ),
            };
            Some(CandidateModel { address: addr, prefix: PrefixModel::Length(n), ipv6: true })
        },
        None => None,
    }
}

/// The address an `ifconfig` line states, where it is an `inet` or
/// `inet6` line with an address.
pub open spec fn ifconfig_line_candidate(line: Seq<char>) -> Option<CandidateModel> {
    let ws = words(normalized(line));
    if ws.len() > 0 && ws[0] == "inet"@ {
        ifconfig_v4(ws)
    } else if ws.len() > 0 && ws[0] == "inet6"@ {
        ifconfig_v6(ws)
    } else {
        None
    }
}

pub open spec fn ifconfig_candidates_of(ls: Seq<Seq<char>>) -> Seq<CandidateModel>
    decreases ls.len(),
{
    if ls.len() == 0 {
        Seq::empty()
    } else {
        let rest = ifconfig_candidates_of(ls.drop_last());
        match ifconfig_line_candidate(ls.last()) {
            Some(c) => rest.push(c),
            None => rest,
        }
    }
}

/// The addresses that the output of `ifconfig` lists.
pub open spec fn ifconfig_candidates(output: Seq<char>) -> Seq<CandidateModel> {
    ifconfig_candidates_of(lines(output))
}

fn address_word(ws: &Vec<Vec<char>>) -> (res: Option<Vec<char>>)
    ensures
        match (res, line_address(views(ws@))) {
            (Some(a), Some(b)) => a@ == b,
            (None, None) => true,
            _ => false,
        },
{
    if ws.len() > 1 && chars_eq_str(&ws[1], "addr") {
        if ws.len() > 2 {
            Some(ws[2].clone())
        } else {
            None
        }
    } else if ws.len() > 1 {
        Some(ws[1].clone())
    } else {
        None
    }
}

fn word_after(ws: &Vec<Vec<char>>, key: &str) -> (res: Option<Vec<char>>)
    ensures
        match (res, value_after(views(ws@), key@)) {
            (Some(a), Some(b)) => a@ == b,
            (None, None) => true,
            _ => false,
        },
{
    match find_word(ws, key) {
        Some(k) => if k + 1 < ws.len() {
            Some(ws[k + 1].clone())
        } else {
            None
        },
        None => None,
    }
}

fn ifconfig_line(line: &Vec<char>) -> (res: Option<AddressCandidate>)
    ensures
        match (res, ifconfig_line_candidate(line@)) {
            (Some(c), Some(m)) => c@ == m,
            (None, None) => true,
            _ => false,
        },
{
    proof {
        reveal_strlit("addr:");
        reveal_strlit("Mask:");
        reveal_strlit("prefixlen ");
    }
    let n1 = replace_chars(line, "addr:", "addr ");
    let n2 = replace_chars(&n1, "Mask:", "netmask ");
    let n3 = replace_chars(&n2, "prefixlen ", "prefixlen ");
    let ws = split_words(&n3);
    if ws.len() > 0 && chars_eq_str(&ws[0], "inet") {
        match address_word(&ws) {
            Some(a) => {
                let prefix = match word_after(&ws, "netmask") {
                    Some(m) => PrefixSource::Netmask(string_from_chars(&m)),
                    None => PrefixSource::Length(0),
                };
                Some(AddressCandidate { address: string_from_chars(&a), prefix, ipv6: false })
            },
            None => None,
        }
    } else if ws.len() > 0 && chars_eq_str(&ws[0], "inet6") {
        match address_word(&ws) {
            Some(a) => {
                let (addr, n) = match parse_address_with_prefix(&a) {
                    Some(p) => p,
                    None => {
                        let n: u8 = match word_after(&ws, "prefixlen") {
                            Some(p) => match parse_uint(&p, 10, 255) {
                                Some(v) => v as u8,
                                None => 0,
                            },
                            None => 0,
                        };
                        (a, n)
                    },
                };
                Some(
                    AddressCandidate {
                        address: string_from_chars(&addr),
                        prefix: PrefixSource::Length(n),
                        ipv6: true,
                    },
                )
            },
            None => None,
        }
    } else {
        None
    }
}

/// Reads the addresses listed in the output of `ifconfig`.
pub fn ifconfig_candidates_from(output: &str) -> (res: Vec<AddressCandidate>)
    ensures
        candidate_views(res@) == ifconfig_candidates(output@),
{
    let text = chars_of(output);
    let ls = split_lines(&text);
    let mut out: Vec<AddressCandidate> = Vec::new();
    let mut i: usize = 0;
    while i < ls.len()
        invariant
            i <= ls.len(),
            views(ls@) == lines(output@),
            candidate_views(out@) == ifconfig_candidates_of(views(ls@).take(i as int)),
        decreases ls.len() - i,
    {
        assert(views(ls@).take(i + 1).drop_last() == views(ls@).take(i as int));
        assert(views(ls@).take(i + 1).last() == ls@[i as int]@);
        match ifconfig_line(&ls[i]) {
            Some(c) => {
                let ghost before = candidate_views(out@);
                let ghost m = c@;
                out.push(c);
                assert(candidate_views(out@) =~= before.push(m));
            },
            None => {},
        }
        i = i + 1;
    }
    assert(views(ls@).take(ls.len() as int) == views(ls@));
    out
}

/// The entries for the candidates whose address text was read as an IP
/// address (`ips[i]`), a netmask's prefix length taken from its octets
/// (`masks[i]`) where it was read, else zero.
pub open spec fn entries_of(
    cands: Seq<CandidateModel>,
    ips: Seq<Option<IpValue>>,
    masks: Seq<Option<[u8; 4]>>,
) -> Seq<IpAddressModel>
    decreases cands.len(),
{
    if cands.len() == 0 {
        Seq::empty()
    } else {
        let k = cands.len() - 1;
        let rest = entries_of(cands.drop_last(), ips.take(k), masks.take(k));
        let c = cands[k];
        match ips[k] {
            Some(ip) => {
                let n: u8 = match c.prefix {
                    PrefixModel::Length(n) => n,
                    PrefixModel::Netmask(_) => match masks[k] {
                        Some(o) => ones_in(o@) as u8,
                        None => 0u8,
                    },
                };
                rest.push(address_entry(c.address, n, c.ipv6, ip))
            },
            None => rest,
        }
    }
}

/// The address entries of some candidates, given what their address texts
/// and netmasks read as.
pub fn address_entries(
    cands: &Vec<AddressCandidate>,
    ips: &Vec<Option<IpValue>>,
    masks: &Vec<Option<[u8; 4]>>,
) -> (res: Vec<IpAddress>)
    requires
        ips.len() == cands.len(),
        masks.len() == cands.len(),
    ensures
        address_views(res@) == entries_of(candidate_views(cands@), ips@, masks@),
{
    let mut out: Vec<IpAddress> = Vec::new();
    let mut i: usize = 0;
    let ghost all = candidate_views(cands@);
    while i < cands.len()
        invariant
            i <= cands.len(),
            ips.len() == cands.len(),
            masks.len() == cands.len(),
            all == candidate_views(cands@),
            address_views(out@) == entries_of(
                all.take(i as int),
                ips@.take(i as int),
                masks@.take(i as int),
            ),
        decreases cands.len() - i,
    {
        assert(all.take(i + 1).drop_last() == all.take(i as int));
        assert(ips@.take(i + 1).take(i as int) == ips@.take(i as int));
        assert(masks@.take(i + 1).take(i as int) == masks@.take(i as int));
        assert(all.take(i + 1)[i as int] == cands@[i as int]@);
        assert(ips@.take(i + 1)[i as int] == ips@[i as int]);
        assert(masks@.take(i + 1)[i as int] == masks@[i as int]);
        let c = &cands[i];
        match ips[i] {
            Some(ip) => {
                let n: u8 = match &c.prefix {
                    PrefixSource::Length(n) => *n,
                    PrefixSource::Netmask(_) => match masks[i] {
                        Some(o) => mask_prefix_len(&o),
                        None => 0,
                    },
                };
                let e = make_ip_address(c.address.clone(), n, c.ipv6, &ip);
                let ghost before = address_views(out@);
                let ghost em = e@;
                out.push(e);
                assert(address_views(out@) =~= before.push(em));
            },
            None => {},
        }
        i = i + 1;
    }
    assert(all.take(i as int) == all);
    assert(ips@.take(i as int) == ips@);
    assert(masks@.take(i as int) == masks@);
    out
}

/// Where reading an interface's addresses stands after one of its ways
/// was tried.
#[derive(Debug)]
pub enum AddressLookup {
    /// The addresses, or why none could be read.
    Found(Result<Vec<IpAddress>, String>),
    /// Try the next way; the errors met so far.
    TryNext(Vec<String>),
}

/// After the addresses were read from the system's interface list: they
/// stand where there are some or where the command tools may not be used;
/// otherwise the `ip` tool is tried next.
pub fn after_interface_list(
    listed: Result<Vec<IpAddress>, String>,
    allow_command_fallback: bool,
) -> (res: AddressLookup)
    ensures
        match listed {
            Ok(a) => if a.len() > 0 || !allow_command_fallback {
                res == AddressLookup::Found(Ok(a))
            } else {
                res matches AddressLookup::TryNext(es) && es@.len() == 0
            },
            Err(e) => res matches AddressLookup::TryNext(es) && es@ == seq![e],
        },
{
    match listed {
        Ok(addresses) => {
            if addresses.len() > 0 || !allow_command_fallback {
                AddressLookup::Found(Ok(addresses))
            } else {
                AddressLookup::TryNext(Vec::new())
            }
        },
        Err(err) => {
            let mut errors = Vec::new();
            errors.push(err);
            AddressLookup::TryNext(errors)
        },
    }
}

/// After the `ip` tool was tried: its addresses stand where there are
/// some; otherwise `ifconfig` is tried next.
pub fn after_ip_tool(errors: Vec<String>, found: Result<Vec<IpAddress>, String>) -> (res:
    AddressLookup)
    ensures
        match found {
            Ok(a) => if a.len() > 0 {
                res == AddressLookup::Found(Ok(a))
            } else {
                res == AddressLookup::TryNext(errors)
            },
            Err(e) => res matches AddressLookup::TryNext(es) && es@ == errors@.push(e),
        },
{
    match found {
        Ok(addresses) => {
            if addresses.len() > 0 {
                AddressLookup::Found(Ok(addresses))
            } else {
                AddressLookup::TryNext(errors)
            }
        },
        Err(err) => {
            let mut errors = errors;
            errors.push(err);
            AddressLookup::TryNext(errors)
        },
    }
}

pub open spec fn string_views(v: Seq<String>) -> Seq<Seq<char>> {
    v.map_values(|s: String| s@)
}

/// After `ifconfig` was tried, the last way: its addresses, or every error
/// met, joined by `; `.
pub fn after_ifconfig_tool(errors: Vec<String>, found: Result<Vec<IpAddress>, String>) -> (res:
    Result<Vec<IpAddress>, String>)
    ensures
        match found {
            Ok(a) => res == Ok::<Vec<IpAddress>, String>(a),
            Err(e) => res matches Err(msg) && msg@ == join(
                string_views(errors@.push(e)),
                "; "@,
            ),
        },
{
    match found {
        Ok(addresses) => Ok(addresses),
        Err(err) => {
            let mut errors = errors;
            errors.push(err);
            let mut parts: Vec<Vec<char>> = Vec::new();
            let mut i: usize = 0;
            while i < errors.len()
                invariant
                    i <= errors.len(),
                    views(parts@) == string_views(errors@).take(i as int),
                decreases errors.len() - i,
            {
                let ghost before = views(parts@);
                parts.push(chars_of(errors[i].as_str()));
                assert(views(parts@) =~= before.push(errors@[i as int]@));
                assert(string_views(errors@).take(i + 1) =~= string_views(errors@).take(
                    i as int,
                ).push(errors@[i as int]@));
                i = i + 1;
            }
            assert(string_views(errors@).take(errors.len() as int) =~= string_views(errors@));
            let sep = chars_of("; ");
            let joined = join_chars(&parts, &sep);
            Err(string_from_chars(&joined))
        },
    }
}

/// The places the `ip` tool is looked for, in order.
pub const IP_TOOL_PATHS: [&'static str; 3] = ["ip", "/sbin/ip", "/usr/sbin/ip"];

/// The places the `ifconfig` tool is looked for, in order.
pub const IFCONFIG_TOOL_PATHS: [&'static str; 3] = ["ifconfig", "/sbin/ifconfig", "/usr/sbin/ifconfig"];

pub const IP_TOOL_MISSING: &'static str = "ip command not found or failed";

pub const IFCONFIG_TOOL_MISSING: &'static str = "ifconfig command not found or failed";

/// What to make of one run of an address tool.
#[derive(Debug)]
pub enum ToolRun {
    /// It succeeded: read its output.
    UseOutput,
    /// It failed and said why.
    Failed(String),
    /// It failed silently or could not be started: try the next place.
    TryNext,
}

/// Judges one run of a tool: `ran` holds whether it succeeded and what it
/// wrote to its error stream, `None` where it could not be started.
pub fn judge_tool_run(command: &str, ran: Option<(bool, &str)>) -> (res: ToolRun)
    ensures
        match ran {
            None => res is TryNext,
            Some((true, _)) => res is UseOutput,
            Some((false, stderr)) => if trim(stderr@).len() == 0 {
                res is TryNext
            } else {
                res matches ToolRun::Failed(msg) && msg@ == command@ + " failed: "@ + trim(
                    stderr@,
                )
            },
        },
{
    match ran {
        None => ToolRun::TryNext,
        Some((success, stderr)) => {
            if success {
                ToolRun::UseOutput
            } else {
                let raw = chars_of(stderr);
                let t = trim_chars(&raw);
                if t.len() == 0 {
                    ToolRun::TryNext
                } else {
                    let mut msg = chars_of(command);
                    crate::text::push_str(&mut msg, " failed: ");
                    crate::text::push_chars(&mut msg, &t);
                    ToolRun::Failed(string_from_chars(&msg))
                }
            }
        },
    }
}

/// An address without `/` followed by `/` and a prefix length printed in
/// decimal reads back as that address and that length.
pub proof fn lemma_prefix_round_trip(a: Seq<char>, p: u8)
    requires
        forall|i: int| 0 <= i < a.len() ==> a[i] != '/',
    ensures
        address_with_prefix(a + seq!['/'] + dec(p as nat)) == Some((a, p)),
{
    let d = dec(p as nat);
    let s = a + seq!['/'] + d;
    lemma_dec_digits(p as nat);
    lemma_decimal_reads_back(p as nat, 255);
    let k = a.len() as int;
    assert(s[k] == '/');
    assert(forall|j: int| 0 <= j < k ==> s[j] == a[j]);
    let kk = choose|k: int| 0 <= k < s.len() && s[k] == '/' && forall|j: int| 0 <= j < k ==> s[j] != '/';
    assert(kk == k) by {
        if kk < k {
            assert(s[kk] == a[kk]);
        } else if kk > k {
        }
    }
    assert(s.take(k) =~= a);
    assert(s.skip(k + 1) =~= d);
}

/// The octets of a contiguous netmask count their leading bits: 0, 128,
/// 192, 224, 240, 248, 252, 254 and 255 give 0 to 8.
pub proof fn lemma_mask_octets()
    ensures
        ones(0) == 0,
        ones(128) == 1,
        ones(192) == 2,
        ones(224) == 3,
        ones(240) == 4,
        ones(248) == 5,
        ones(252) == 6,
        ones(254) == 7,
        ones(255) == 8,
{
    reveal_with_fuel(ones, 9);
}

/// The bits set in octets joined end to end are those of each part added.
pub proof fn lemma_ones_in_concat(a: Seq<u8>, b: Seq<u8>)
    ensures
        ones_in(a + b) == ones_in(a) + ones_in(b),
    decreases b.len(),
{
    if b.len() > 0 {
        lemma_ones_in_concat(a, b.drop_last());
        assert((a + b).drop_last() =~= a + b.drop_last());
        assert((a + b).last() == b.last());
    } else {
        assert(a + b =~= a);
    }
}

/// A mask of `k` octets of 255 followed by `j` octets of 0 (such as
/// 255.255.255.0) has a prefix length of `8 * k`.
pub proof fn lemma_whole_octet_mask(k: nat, j: nat)
    ensures
        ones_in(Seq::new(k, |_i: int| 255u8) + Seq::new(j, |_i: int| 0u8)) == 8 * k,
    decreases k + j,
{
    lemma_mask_octets();
    let full = Seq::new(k, |_i: int| 255u8);
    let zero = Seq::new(j, |_i: int| 0u8);
    lemma_ones_in_concat(full, zero);
    if j > 0 {
        lemma_whole_octet_mask(k, (j - 1) as nat);
        lemma_ones_in_concat(full, Seq::new((j - 1) as nat, |_i: int| 0u8));
        assert(zero.drop_last() =~= Seq::new((j - 1) as nat, |_i: int| 0u8));
    } else if k > 0 {
        lemma_whole_octet_mask((k - 1) as nat, 0);
        lemma_ones_in_concat(Seq::new((k - 1) as nat, |_i: int| 255u8), Seq::new(0, |_i: int| 0u8));
        assert(full.drop_last() =~= Seq::new((k - 1) as nat, |_i: int| 255u8));
        assert(Seq::new((k - 1) as nat, |_i: int| 255u8) + Seq::new(0, |_i: int| 0u8)
            =~= Seq::new((k - 1) as nat, |_i: int| 255u8));
    } else {
        assert(zero.len() == 0);
    }
}

proof fn lemma_family_position(ws: Seq<Seq<char>>, k: int)
    requires
        0 <= k < ws.len(),
        is_family(ws[k]),
        forall|j: int| 0 <= j < k ==> !is_family(#[trigger] ws[j]),
    ensures
        family_position(ws) == Some(k),
    decreases k,
{
    if k > 0 {
        let rest = ws.drop_first();
        assert forall|j: int| 0 <= j < k - 1 implies !is_family(#[trigger] rest[j]) by {
            assert(rest[j] == ws[j + 1]);
        }
        lemma_family_position(rest, k - 1);
    }
}

/// A line of `ip -o addr show` whose first `inet` or `inet6` word is
/// followed by an address and its prefix length (`a/p`) yields that
/// address with that length, IPv6 exactly where the word is `inet6`.
pub proof fn lemma_ip_line_reads_address(line: Seq<char>, k: int, a: Seq<char>, p: u8)
    requires
        0 <= k,
        k + 1 < words(line).len(),
        is_family(words(line)[k]),
        forall|j: int| 0 <= j < k ==> !is_family(#[trigger] words(line)[j]),
        words(line)[k + 1] == a + seq!['/'] + dec(p as nat),
        forall|i: int| 0 <= i < a.len() ==> a[i] != '/',
    ensures
        ip_line_candidate(line) == Some(
            CandidateModel {
                address: a,
                prefix: PrefixModel::Length(p),
                ipv6: words(line)[k] == "inet6"@,
            },
        ),
{
    lemma_family_position(words(line), k);
    lemma_prefix_round_trip(a, p);
    reveal_strlit("inet");
    reveal_strlit("inet6");
    assert("inet"@.len() == 4);
    assert("inet6"@.len() == 5);
}

/// How an `ifconfig` line reads, once `addr:` and `Mask:` are split off:
/// an `inet` line gives an IPv4 address (the word after `addr` where the
/// second word is `addr`, else the second word) with the netmask word after
/// `netmask` where there is one; an `inet6` line whose address carries
/// `/p` gives that IPv6 address with prefix length `p`; any other line
/// gives nothing.
proof fn lemma_word_found(ws: Seq<Seq<char>>, w: Seq<char>)
    ensures
        word_position(ws, w) matches Some(k) ==> 0 <= k < ws.len() && ws[k] == w,
    decreases ws.len(),
{
    if ws.len() > 0 && ws[0] != w {
        lemma_word_found(ws.drop_first(), w);
    }
}

pub proof fn lemma_ifconfig_line_reads(line: Seq<char>, a: Seq<char>, p: u8)
    ensures
        words(normalized(line)).len() > 1 && words(normalized(line))[0] == "inet"@ && words(
            normalized(line),
        )[1] != "addr"@ ==> ifconfig_line_candidate(line) is Some && ifconfig_line_candidate(
            line,
        )->0.address == words(normalized(line))[1] && !ifconfig_line_candidate(line)->0.ipv6,
        words(normalized(line)).len() > 2 && words(normalized(line))[0] == "inet"@ && words(
            normalized(line),
        )[1] == "addr"@ ==> ifconfig_line_candidate(line) is Some && ifconfig_line_candidate(
            line,
        )->0.address == words(normalized(line))[2] && !ifconfig_line_candidate(line)->0.ipv6,
        words(normalized(line)).len() > 1 && words(normalized(line))[0] == "inet"@ && value_after(
            words(normalized(line)),
            "netmask"@,
        ) is Some ==> ifconfig_line_candidate(line) is Some && ifconfig_line_candidate(line)->0.prefix
            == PrefixModel::Netmask(value_after(words(normalized(line)), "netmask"@)->0),
        words(normalized(line)).len() > 1 && words(normalized(line))[0] == "inet6"@ && words(
            normalized(line),
        )[1] == a + seq!['/'] + dec(p as nat) && (forall|i: int|
            0 <= i < a.len() ==> a[i] != '/') ==> ifconfig_line_candidate(line) == Some(
            CandidateModel { address: a, prefix: PrefixModel::Length(p), ipv6: true },
        ),
        words(normalized(line)).len() == 0 || (words(normalized(line))[0] != "inet"@ && words(
            normalized(line),
        )[0] != "inet6"@) ==> ifconfig_line_candidate(line) is None,
{
    reveal_strlit("inet");
    reveal_strlit("inet6");
    reveal_strlit("addr");
    reveal_strlit("netmask");
    assert("netmask"@.len() == 7);
    lemma_word_found(words(normalized(line)), "netmask"@);
    assert("inet"@.len() == 4);
    assert("inet6"@.len() == 5);
    assert("addr"@.len() == 4);
    let ws = words(normalized(line));
    if ws.len() > 1 && ws[0] == "inet6"@ && ws[1] == a + seq!['/'] + dec(p as nat) && (forall|
        i: int,
    | 0 <= i < a.len() ==> a[i] != '/') {
        lemma_prefix_round_trip(a, p);
        lemma_dec_digits(p as nat);
        let w = a + seq!['/'] + dec(p as nat);
        assert(w[a.len() as int] == '/');
        assert(w != "addr"@) by {
            if w == "addr"@ {
                assert(w.len() == 4);
                assert(w[a.len() as int] != '/');
            }
        }
    }
}

} // verus!
