//! The IPAM free-address query: document parsing and the client's narrowing.
//!
//! The external IP-address-management system answers a free-address query
//! with an XML document: an optional prolog, then a root element wrapping
//! zero or more address records, each carrying an IP address, the containing
//! subnet's address, the mask length, a subnet-and-mask display string and a
//! subnet display name, in that order. This module parses that document
//! shape. A malformed document — bad framing, a missing field, an address
//! octet out of range — is a parse failure, distinguishable from a
//! well-formed document with zero records, which is an empty, non-error
//! result. The HTTPS GET that fetches the document is made by the
//! surrounding program, which must enforce HTTPS-only transport and the
//! fixed user-agent; the transport outcome is handed in as a plain value.

use crate::num::spec_dec;
use crate::num::u32_to_string;
use vstd::prelude::*;

verus! {

/// An IPv4 address as four plain octets.
#[derive(PartialEq, Eq, Structural, Clone, Copy, Debug)]
pub struct Ip4 {
    pub a: u8,
    pub b: u8,
    pub c: u8,
    pub d: u8,
}

/// One address record from a free-address query. Produced transiently per
/// query, never cached. The display fields are kept by the parser and
/// discarded at the client boundary, by design.
pub struct FreeAddressRecord {
    pub ip: Ip4,
    pub subnet: Ip4,
    pub mask: u8,
    pub subnet_and_mask: String,
    pub subnet_name: String,
}

/// The mathematical content of one address record.
pub ghost struct FreeAddressRecordV {
    pub ip: Ip4,
    pub subnet: Ip4,
    pub mask: u8,
    pub subnet_and_mask: Seq<char>,
    pub subnet_name: Seq<char>,
}

impl View for FreeAddressRecord {
    type V = FreeAddressRecordV;

    open spec fn view(&self) -> FreeAddressRecordV {
        FreeAddressRecordV {
            ip: self.ip,
            subnet: self.subnet,
            mask: self.mask,
            subnet_and_mask: self.subnet_and_mask@,
            subnet_name: self.subnet_name@,
        }
    }
}

/// Why a query failed: a malformed response document, or a transport-level
/// failure carrying its description. Both are distinguishable from a
/// well-formed empty result.
#[derive(Debug)]
pub enum IpamError {
    ParseFailed,
    TransportFailed(String),
}

pub open spec fn is_ws_char(c: char) -> bool {
    c == ' ' || c == '\t' || c == '\r' || c == '\n'
}

/// The first position at or after `i` holding a non-whitespace character,
/// or the end of the document.
pub open spec fn spec_skip_ws(s: Seq<char>, i: int) -> int
    decreases s.len() - i,
    when 0 <= i <= s.len()
{
    if i < s.len() && is_ws_char(s[i]) {
        spec_skip_ws(s, i + 1)
    } else {
        i
    }
}

/// The first position at or after `i` holding `stop`, or the end of the
/// document.
pub open spec fn spec_scan(s: Seq<char>, i: int, stop: char) -> int
    decreases s.len() - i,
    when 0 <= i <= s.len()
{
    if i < s.len() && s[i] != stop {
        spec_scan(s, i + 1, stop)
    } else {
        i
    }
}

/// The position just after `tag`, when the document carries `tag` at `i`.
pub open spec fn spec_expect(s: Seq<char>, i: int, tag: Seq<char>) -> Option<int> {
    if 0 <= i && i + tag.len() <= s.len() && s.subrange(i, i + tag.len()) == tag {
        Some(i + tag.len())
    } else {
        None
    }
}

pub open spec fn spec_digit(c: char) -> bool {
    '0' <= c <= '9'
}

pub open spec fn spec_digit_val(c: char) -> int {
    c as int - 48
}

/// A decimal number of one to three digits, greedy, with a value below 256.
pub open spec fn spec_parse_u8(s: Seq<char>, i: int) -> Option<(u8, int)> {
    if !(0 <= i < s.len() && spec_digit(s[i])) {
        None
    } else {
        let v1 = spec_digit_val(s[i]);
        if i + 1 < s.len() && spec_digit(s[i + 1]) {
            let v2 = v1 * 10 + spec_digit_val(s[i + 1]);
            if i + 2 < s.len() && spec_digit(s[i + 2]) {
                let v3 = v2 * 10 + spec_digit_val(s[i + 2]);
                if v3 <= 255 {
                    Some((v3 as u8, i + 3))
                } else {
                    None
                }
            } else {
                Some((v2 as u8, i + 2))
            }
        } else {
            Some((v1 as u8, i + 1))
        }
    }
}

/// A dotted-quad IPv4 address.
pub open spec fn spec_parse_ip4(s: Seq<char>, i: int) -> Option<(Ip4, int)> {
    match spec_parse_u8(s, i) {
        None => None,
        Some((a, j1)) => match spec_expect(s, j1, "."@) {
            None => None,
            Some(j2) => match spec_parse_u8(s, j2) {
                None => None,
                Some((b, j3)) => match spec_expect(s, j3, "."@) {
                    None => None,
                    Some(j4) => match spec_parse_u8(s, j4) {
                        None => None,
                        Some((c, j5)) => match spec_expect(s, j5, "."@) {
                            None => None,
                            Some(j6) => match spec_parse_u8(s, j6) {
                                None => None,
                                Some((d, j7)) => Some((Ip4 { a, b, c, d }, j7)),
                            },
                        },
                    },
                },
            },
        },
    }
}

/// An element whose text is a dotted-quad address.
pub open spec fn spec_parse_ip_element(s: Seq<char>, i: int, open: Seq<char>, close: Seq<char>) -> Option<
    (Ip4, int),
> {
    match spec_expect(s, i, open) {
        None => None,
        Some(j) => match spec_parse_ip4(s, j) {
            None => None,
            Some((ip, k)) => match spec_expect(s, k, close) {
                None => None,
                Some(m) => Some((ip, m)),
            },
        },
    }
}

/// An element whose text is a decimal mask length.
pub open spec fn spec_parse_mask_element(s: Seq<char>, i: int) -> Option<(u8, int)> {
    match spec_expect(s, i, "<ipMask>"@) {
        None => None,
        Some(j) => match spec_parse_u8(s, j) {
            None => None,
            Some((m, k)) => match spec_expect(s, k, "</ipMask>"@) {
                None => None,
                Some(e) => Some((m, e)),
            },
        },
    }
}

/// An element whose text is free: everything up to the next `<`.
pub open spec fn spec_parse_text_element(
    s: Seq<char>,
    i: int,
    open: Seq<char>,
    close: Seq<char>,
) -> Option<(Seq<char>, int)> {
    match spec_expect(s, i, open) {
        None => None,
        Some(j) => {
            let k = spec_scan(s, j, '<');
            match spec_expect(s, k, close) {
                None => None,
                Some(m) => Some((s.subrange(j, k), m)),
            }
        },
    }
}

/// One address record: its five fields in document order, each optionally
/// surrounded by whitespace.
pub open spec fn spec_parse_record(s: Seq<char>, i: int) -> Option<(FreeAddressRecordV, int)> {
    match spec_expect(s, i, "<freeIp>"@) {
        None => None,
        Some(j0) => {
            let j1 = spec_skip_ws(s, j0);
            match spec_parse_ip_element(s, j1, "<ip>"@, "</ip>"@) {
                None => None,
                Some((ip, j2)) => {
                    let j3 = spec_skip_ws(s, j2);
                    match spec_parse_ip_element(s, j3, "<ipSubnet>"@, "</ipSubnet>"@) {
                        None => None,
                        Some((subnet, j4)) => {
                            let j5 = spec_skip_ws(s, j4);
                            match spec_parse_mask_element(s, j5) {
                                None => None,
                                Some((mask, j6)) => {
                                    let j7 = spec_skip_ws(s, j6);
                                    match spec_parse_text_element(
                                        s,
                                        j7,
                                        "<subnetAndMask>"@,
                                        "</subnetAndMask>"@,
                                    ) {
                                        None => None,
                                        Some((sam, j8)) => {
                                            let j9 = spec_skip_ws(s, j8);
                                            match spec_parse_text_element(
                                                s,
                                                j9,
                                                "<subnetName>"@,
                                                "</subnetName>"@,
                                            ) {
                                                None => None,
                                                Some((name, j10)) => {
                                                    let j11 = spec_skip_ws(s, j10);
                                                    match spec_expect(s, j11, "</freeIp>"@) {
                                                        None => None,
                                                        Some(j12) => Some(
                                                            (
                                                                FreeAddressRecordV {
                                                                    ip,
                                                                    subnet,
                                                                    mask,
                                                                    subnet_and_mask: sam,
                                                                    subnet_name: name,
                                                                },
                                                                j12,
                                                            ),
                                                        ),
                                                    }
                                                },
                                            }
                                        },
                                    }
                                },
                            }
                        },
                    }
                },
            }
        },
    }
}

pub proof fn lemma_skip_ws_bounds(s: Seq<char>, i: int)
    requires
        0 <= i <= s.len(),
    ensures
        i <= spec_skip_ws(s, i) <= s.len(),
    decreases s.len() - i,
{
    if i < s.len() && is_ws_char(s[i]) {
        lemma_skip_ws_bounds(s, i + 1);
    }
}

proof fn lemma_scan_bounds(s: Seq<char>, i: int, stop: char)
    requires
        0 <= i <= s.len(),
    ensures
        i <= spec_scan(s, i, stop) <= s.len(),
    decreases s.len() - i,
{
    if i < s.len() && s[i] != stop {
        lemma_scan_bounds(s, i + 1, stop);
    }
}

proof fn lemma_parse_u8_bounds(s: Seq<char>, i: int)
    requires
        spec_parse_u8(s, i) is Some,
    ensures
        0 <= i < spec_parse_u8(s, i)->Some_0.1 <= s.len(),
{
}

proof fn lemma_parse_ip4_bounds(s: Seq<char>, i: int)
    requires
        spec_parse_ip4(s, i) is Some,
    ensures
        0 <= i < spec_parse_ip4(s, i)->Some_0.1 <= s.len(),
{
    let j1 = spec_parse_u8(s, i)->Some_0.1;
    lemma_parse_u8_bounds(s, i);
    let j2 = spec_expect(s, j1, "."@)->Some_0;
    lemma_parse_u8_bounds(s, j2);
    let j3 = spec_parse_u8(s, j2)->Some_0.1;
    let j4 = spec_expect(s, j3, "."@)->Some_0;
    lemma_parse_u8_bounds(s, j4);
    let j5 = spec_parse_u8(s, j4)->Some_0.1;
    let j6 = spec_expect(s, j5, "."@)->Some_0;
    lemma_parse_u8_bounds(s, j6);
}

proof fn lemma_ip_element_bounds(s: Seq<char>, i: int, open: Seq<char>, close: Seq<char>)
    requires
        spec_parse_ip_element(s, i, open, close) is Some,
    ensures
        0 <= i < spec_parse_ip_element(s, i, open, close)->Some_0.1 <= s.len(),
{
    let j = spec_expect(s, i, open)->Some_0;
    lemma_parse_ip4_bounds(s, j);
}

proof fn lemma_mask_element_bounds(s: Seq<char>, i: int)
    requires
        spec_parse_mask_element(s, i) is Some,
    ensures
        0 <= i < spec_parse_mask_element(s, i)->Some_0.1 <= s.len(),
{
    let j = spec_expect(s, i, "<ipMask>"@)->Some_0;
    lemma_parse_u8_bounds(s, j);
}

proof fn lemma_text_element_bounds(s: Seq<char>, i: int, open: Seq<char>, close: Seq<char>)
    requires
        spec_parse_text_element(s, i, open, close) is Some,
    ensures
        0 <= i <= spec_parse_text_element(s, i, open, close)->Some_0.1 <= s.len(),
{
    let j = spec_expect(s, i, open)->Some_0;
    lemma_scan_bounds(s, j, '<');
}

/// A parsed record occupies at least one position and stays inside the
/// document.
pub proof fn lemma_record_advances(s: Seq<char>, i: int)
    requires
        0 <= i,
        spec_parse_record(s, i) is Some,
    ensures
        i < spec_parse_record(s, i)->Some_0.1 <= s.len(),
{
    let j0 = spec_expect(s, i, "<freeIp>"@)->Some_0;
    lemma_skip_ws_bounds(s, j0);
    let j1 = spec_skip_ws(s, j0);
    lemma_ip_element_bounds(s, j1, "<ip>"@, "</ip>"@);
    let j2 = spec_parse_ip_element(s, j1, "<ip>"@, "</ip>"@)->Some_0.1;
    lemma_skip_ws_bounds(s, j2);
    let j3 = spec_skip_ws(s, j2);
    lemma_ip_element_bounds(s, j3, "<ipSubnet>"@, "</ipSubnet>"@);
    let j4 = spec_parse_ip_element(s, j3, "<ipSubnet>"@, "</ipSubnet>"@)->Some_0.1;
    lemma_skip_ws_bounds(s, j4);
    let j5 = spec_skip_ws(s, j4);
    lemma_mask_element_bounds(s, j5);
    let j6 = spec_parse_mask_element(s, j5)->Some_0.1;
    lemma_skip_ws_bounds(s, j6);
    let j7 = spec_skip_ws(s, j6);
    lemma_text_element_bounds(s, j7, "<subnetAndMask>"@, "</subnetAndMask>"@);
    let j8 = spec_parse_text_element(s, j7, "<subnetAndMask>"@, "</subnetAndMask>"@)->Some_0.1;
    lemma_skip_ws_bounds(s, j8);
    let j9 = spec_skip_ws(s, j8);
    lemma_text_element_bounds(s, j9, "<subnetName>"@, "</subnetName>"@);
    let j10 = spec_parse_text_element(s, j9, "<subnetName>"@, "</subnetName>"@)->Some_0.1;
    lemma_skip_ws_bounds(s, j10);
}

/// The record list and the closing root tag: zero or more records, each
/// followed by optional whitespace, ended by `</freeIps>`.
pub open spec fn spec_parse_records(s: Seq<char>, i: int) -> Option<
    (Seq<FreeAddressRecordV>, int),
>
    decreases s.len() - i,
    when 0 <= i <= s.len()
{
    match spec_expect(s, i, "</freeIps>"@) {
        Some(j) => Some((Seq::empty(), j)),
        None => match spec_parse_record(s, i) {
            None => None,
            Some((r, j)) => {
                proof {
                    lemma_record_advances(s, i);
                    lemma_skip_ws_bounds(s, j);
                }
                let k = spec_skip_ws(s, j);
                match spec_parse_records(s, k) {
                    None => None,
                    Some((rest, e)) => Some((seq![r] + rest, e)),
                }
            },
        },
    }
}

/// The position after the optional XML prolog: leading whitespace, then —
/// when the document opens with `<?` — everything through the first `>`,
/// then whitespace again. `None` when a prolog opens and never closes.
pub open spec fn spec_after_prolog(s: Seq<char>) -> Option<int> {
    let i0 = spec_skip_ws(s, 0);
    match spec_expect(s, i0, "<?"@) {
        None => Some(i0),
        Some(j) => {
            let k = spec_scan(s, j, '>');
            if k < s.len() {
                Some(spec_skip_ws(s, k + 1))
            } else {
                None
            }
        },
    }
}

/// The whole document: optional prolog, the root element — self-closing, or
/// open tag, records, close tag — and nothing but whitespace after it.
pub open spec fn spec_parse_free_ips(s: Seq<char>) -> Option<Seq<FreeAddressRecordV>> {
    match spec_after_prolog(s) {
        None => None,
        Some(i) => match spec_expect(s, i, "<freeIps"@) {
            None => None,
            Some(j) => match spec_expect(s, j, "/>"@) {
                Some(k) => if spec_skip_ws(s, k) == s.len() {
                    Some(Seq::empty())
                } else {
                    None
                },
                None => match spec_expect(s, j, ">"@) {
                    None => None,
                    Some(k) => {
                        let m = spec_skip_ws(s, k);
                        match spec_parse_records(s, m) {
                            None => None,
                            Some((v, e)) => if spec_skip_ws(s, e) == s.len() {
                                Some(v)
                            } else {
                                None
                            },
                        }
                    },
                },
            },
        },
    }
}

/// The mathematical contents of a parsed record list.
pub open spec fn views_of(v: Seq<FreeAddressRecord>) -> Seq<FreeAddressRecordV> {
    v.map_values(|r: FreeAddressRecord| r@)
}

/// The narrowing at the client boundary: each record reduced to its bare
/// address, in document order.
pub open spec fn ips_of(v: Seq<FreeAddressRecordV>) -> Seq<Ip4> {
    v.map_values(|r: FreeAddressRecordV| r.ip)
}

proof fn lemma_views_of_empty()
    ensures
        views_of(Seq::empty()) == Seq::<FreeAddressRecordV>::empty(),
{
    assert(views_of(Seq::empty()) =~= Seq::<FreeAddressRecordV>::empty());
}

proof fn lemma_views_of_push(v: Seq<FreeAddressRecord>, r: FreeAddressRecord)
    ensures
        views_of(v.push(r)) == views_of(v) + seq![r@],
{
    assert(views_of(v.push(r)) =~= views_of(v) + seq![r@]);
}

fn skip_ws(s: &str, i: usize) -> (r: usize)
    requires
        i <= s@.len(),
    ensures
        r as int == spec_skip_ws(s@, i as int),
        i <= r <= s@.len(),
{
    let n = s.unicode_len();
    let mut j = i;
    loop
        invariant
            i <= j <= n,
            n == s@.len(),
            spec_skip_ws(s@, i as int) == spec_skip_ws(s@, j as int),
        decreases n - j,
    {
        if j >= n {
            return j;
        }
        let c = s.get_char(j);
        if !(c == ' ' || c == '\t' || c == '\r' || c == '\n') {
            return j;
        }
        j += 1;
    }
}

fn scan(s: &str, i: usize, stop: char) -> (r: usize)
    requires
        i <= s@.len(),
    ensures
        r as int == spec_scan(s@, i as int, stop),
        i <= r <= s@.len(),
{
    let n = s.unicode_len();
    let mut j = i;
    loop
        invariant
            i <= j <= n,
            n == s@.len(),
            spec_scan(s@, i as int, stop) == spec_scan(s@, j as int, stop),
        decreases n - j,
    {
        if j >= n {
            return j;
        }
        if s.get_char(j) == stop {
            return j;
        }
        j += 1;
    }
}

fn expect_tag(s: &str, i: usize, tag: &str) -> (r: Option<usize>)
    requires
        i <= s@.len(),
    ensures
        r is Some <==> spec_expect(s@, i as int, tag@) is Some,
        r matches Some(j) ==> spec_expect(s@, i as int, tag@) == Some(j as int) && i <= j
            <= s@.len(),
{
    let n = s.unicode_len();
    let t = tag.unicode_len();
    if n - i < t {
        return None;
    }
    let mut k: usize = 0;
    while k < t
        invariant
            k <= t,
            i + t <= n,
            n == s@.len(),
            t == tag@.len(),
            forall|m: int| 0 <= m < k ==> s@[i + m] == tag@[m],
        decreases t - k,
    {
        if s.get_char(i + k) != tag.get_char(k) {
            proof {
                assert(spec_expect(s@, i as int, tag@) is None) by {
                    if s@.subrange(i as int, i as int + tag@.len() as int) == tag@ {
                        assert(s@.subrange(i as int, i as int + tag@.len() as int)[k as int]
                            == tag@[k as int]);
                    }
                }
            }
            return None;
        }
        k += 1;
    }
    proof {
        assert(s@.subrange(i as int, i as int + tag@.len() as int) =~= tag@);
    }
    Some(i + t)
}

fn digit_val(c: char) -> (r: Option<u8>)
    ensures
        r is Some <==> spec_digit(c),
        r matches Some(v) ==> v as int == spec_digit_val(c) && v < 10,
{
    if '0' <= c && c <= '9' {
        Some(c as u8 - 48)
    } else {
        None
    }
}

fn parse_u8(s: &str, i: usize) -> (r: Option<(u8, usize)>)
    requires
        i <= s@.len(),
    ensures
        r is Some <==> spec_parse_u8(s@, i as int) is Some,
        r matches Some((v, j)) ==> spec_parse_u8(s@, i as int) == Some((v, j as int)) && i < j
            <= s@.len(),
{
    let n = s.unicode_len();
    if i >= n {
        return None;
    }
    let d0 = match digit_val(s.get_char(i)) {
        Some(d) => d,
        None => return None,
    };
    if i + 1 < n {
        if let Some(d1) = digit_val(s.get_char(i + 1)) {
            let v2: u16 = d0 as u16 * 10 + d1 as u16;
            if i + 2 < n {
                if let Some(d2) = digit_val(s.get_char(i + 2)) {
                    let v3: u16 = v2 * 10 + d2 as u16;
                    if v3 <= 255 {
                        return Some((v3 as u8, i + 3));
                    } else {
                        return None;
                    }
                }
            }
            return Some((v2 as u8, i + 2));
        }
    }
    Some((d0, i + 1))
}

fn parse_ip4(s: &str, i: usize) -> (r: Option<(Ip4, usize)>)
    requires
        i <= s@.len(),
    ensures
        r is Some <==> spec_parse_ip4(s@, i as int) is Some,
        r matches Some((ip, j)) ==> spec_parse_ip4(s@, i as int) == Some((ip, j as int)) && i < j
            <= s@.len(),
{
    let (a, j1) = match parse_u8(s, i) {
        Some(x) => x,
        None => return None,
    };
    let j2 = match expect_tag(s, j1, ".") {
        Some(x) => x,
        None => return None,
    };
    let (b, j3) = match parse_u8(s, j2) {
        Some(x) => x,
        None => return None,
    };
    let j4 = match expect_tag(s, j3, ".") {
        Some(x) => x,
        None => return None,
    };
    let (c, j5) = match parse_u8(s, j4) {
        Some(x) => x,
        None => return None,
    };
    let j6 = match expect_tag(s, j5, ".") {
        Some(x) => x,
        None => return None,
    };
    let (d, j7) = match parse_u8(s, j6) {
        Some(x) => x,
        None => return None,
    };
    Some((Ip4 { a, b, c, d }, j7))
}

fn parse_ip_element(s: &str, i: usize, open: &str, close: &str) -> (r: Option<(Ip4, usize)>)
    requires
        i <= s@.len(),
    ensures
        r is Some <==> spec_parse_ip_element(s@, i as int, open@, close@) is Some,
        r matches Some((ip, j)) ==> spec_parse_ip_element(s@, i as int, open@, close@) == Some(
            (ip, j as int),
        ) && i < j <= s@.len(),
{
    let j = match expect_tag(s, i, open) {
        Some(x) => x,
        None => return None,
    };
    let (ip, k) = match parse_ip4(s, j) {
        Some(x) => x,
        None => return None,
    };
    let m = match expect_tag(s, k, close) {
        Some(x) => x,
        None => return None,
    };
    Some((ip, m))
}

fn parse_mask_element(s: &str, i: usize) -> (r: Option<(u8, usize)>)
    requires
        i <= s@.len(),
    ensures
        r is Some <==> spec_parse_mask_element(s@, i as int) is Some,
        r matches Some((m, j)) ==> spec_parse_mask_element(s@, i as int) == Some((m, j as int))
            && i < j <= s@.len(),
{
    let j = match expect_tag(s, i, "<ipMask>") {
        Some(x) => x,
        None => return None,
    };
    let (m, k) = match parse_u8(s, j) {
        Some(x) => x,
        None => return None,
    };
    let e = match expect_tag(s, k, "</ipMask>") {
        Some(x) => x,
        None => return None,
    };
    Some((m, e))
}

fn parse_text_element(s: &str, i: usize, open: &str, close: &str) -> (r: Option<(String, usize)>)
    requires
        i <= s@.len(),
    ensures
        r is Some <==> spec_parse_text_element(s@, i as int, open@, close@) is Some,
        r matches Some((txt, j)) ==> spec_parse_text_element(s@, i as int, open@, close@) == Some(
            (txt@, j as int),
        ) && i <= j <= s@.len(),
{
    let j = match expect_tag(s, i, open) {
        Some(x) => x,
        None => return None,
    };
    let k = scan(s, j, '<');
    let m = match expect_tag(s, k, close) {
        Some(x) => x,
        None => return None,
    };
    let txt = s.substring_char(j, k).to_owned();
    Some((txt, m))
}

fn parse_record(s: &str, i: usize) -> (r: Option<(FreeAddressRecord, usize)>)
    requires
        i <= s@.len(),
    ensures
        r is Some <==> spec_parse_record(s@, i as int) is Some,
        r matches Some((rec, j)) ==> spec_parse_record(s@, i as int) == Some((rec@, j as int))
            && i < j <= s@.len(),
{
    let j0 = match expect_tag(s, i, "<freeIp>") {
        Some(x) => x,
        None => return None,
    };
    let j1 = skip_ws(s, j0);
    let (ip, j2) = match parse_ip_element(s, j1, "<ip>", "</ip>") {
        Some(x) => x,
        None => return None,
    };
    let j3 = skip_ws(s, j2);
    let (subnet, j4) = match parse_ip_element(s, j3, "<ipSubnet>", "</ipSubnet>") {
        Some(x) => x,
        None => return None,
    };
    let j5 = skip_ws(s, j4);
    let (mask, j6) = match parse_mask_element(s, j5) {
        Some(x) => x,
        None => return None,
    };
    let j7 = skip_ws(s, j6);
    let (subnet_and_mask, j8) = match parse_text_element(
        s,
        j7,
        "<subnetAndMask>",
        "</subnetAndMask>",
    ) {
        Some(x) => x,
        None => return None,
    };
    let j9 = skip_ws(s, j8);
    let (subnet_name, j10) = match parse_text_element(s, j9, "<subnetName>", "</subnetName>") {
        Some(x) => x,
        None => return None,
    };
    let j11 = skip_ws(s, j10);
    let j12 = match expect_tag(s, j11, "</freeIp>") {
        Some(x) => x,
        None => return None,
    };
    Some((FreeAddressRecord { ip, subnet, mask, subnet_and_mask, subnet_name }, j12))
}

fn parse_records(s: &str, i: usize) -> (r: Option<(Vec<FreeAddressRecord>, usize)>)
    requires
        i <= s@.len(),
    ensures
        r is Some <==> spec_parse_records(s@, i as int) is Some,
        r matches Some((v, j)) ==> spec_parse_records(s@, i as int) == Some(
            (views_of(v@), j as int),
        ) && j <= s@.len(),
{
    let mut out: Vec<FreeAddressRecord> = Vec::new();
    let mut pos = i;
    proof {
        lemma_views_of_empty();
    }
    loop
        invariant
            i <= s@.len(),
            pos <= s@.len(),
            (spec_parse_records(s@, i as int) is Some <==> spec_parse_records(s@, pos as int)
                is Some),
            spec_parse_records(s@, pos as int) matches Some(p) ==> spec_parse_records(
                s@,
                i as int,
            ) == Some(((views_of(out@) + p.0), p.1)),
        decreases s@.len() - pos,
    {
        if let Some(j) = expect_tag(s, pos, "</freeIps>") {
            proof {
                assert(spec_parse_records(s@, pos as int) == Some(
                    (Seq::<FreeAddressRecordV>::empty(), j as int),
                ));
                assert(views_of(out@) + Seq::<FreeAddressRecordV>::empty() =~= views_of(out@));
            }
            return Some((out, j));
        }
        let (rec, j) = match parse_record(s, pos) {
            Some(x) => x,
            None => return None,
        };
        let ghost old_out = out@;
        out.push(rec);
        let newpos = skip_ws(s, j);
        proof {
            lemma_views_of_push(old_out, rec);
            let rest = spec_parse_records(s@, newpos as int);
            if rest is Some {
                let p = rest->Some_0;
                assert(spec_parse_records(s@, pos as int) == Some((seq![rec@] + p.0, p.1)));
                assert(views_of(old_out) + (seq![rec@] + p.0) =~= (views_of(old_out) + seq![rec@])
                    + p.0);
            }
        }
        pos = newpos;
    }
}

fn after_prolog(s: &str) -> (r: Option<usize>)
    ensures
        r is Some <==> spec_after_prolog(s@) is Some,
        r matches Some(i) ==> spec_after_prolog(s@) == Some(i as int) && i <= s@.len(),
{
    let n = s.unicode_len();
    let i0 = skip_ws(s, 0);
    match expect_tag(s, i0, "<?") {
        None => Some(i0),
        Some(j) => {
            let k = scan(s, j, '>');
            if k < n {
                Some(skip_ws(s, k + 1))
            } else {
                None
            }
        },
    }
}

/// Parses one free-address response document. Returns the parsed records —
/// possibly none — exactly when the document is well-formed, and a parse
/// failure, never a silently empty list, otherwise.
pub fn parse_free_ips(s: &str) -> (r: Result<Vec<FreeAddressRecord>, IpamError>)
    ensures
        r is Ok <==> spec_parse_free_ips(s@) is Some,
        r matches Ok(v) ==> views_of(v@) == spec_parse_free_ips(s@)->Some_0,
        r is Err ==> r->Err_0 is ParseFailed,
{
    let i = match after_prolog(s) {
        Some(x) => x,
        None => return Err(IpamError::ParseFailed),
    };
    let j = match expect_tag(s, i, "<freeIps") {
        Some(x) => x,
        None => return Err(IpamError::ParseFailed),
    };
    if let Some(k) = expect_tag(s, j, "/>") {
        let e = skip_ws(s, k);
        if e == s.unicode_len() {
            let v: Vec<FreeAddressRecord> = Vec::new();
            proof {
                lemma_views_of_empty();
            }
            return Ok(v);
        } else {
            return Err(IpamError::ParseFailed);
        }
    }
    let k = match expect_tag(s, j, ">") {
        Some(x) => x,
        None => return Err(IpamError::ParseFailed),
    };
    let m = skip_ws(s, k);
    let (v, e) = match parse_records(s, m) {
        Some(x) => x,
        None => return Err(IpamError::ParseFailed),
    };
    let f = skip_ws(s, e);
    if f == s.unicode_len() {
        Ok(v)
    } else {
        Err(IpamError::ParseFailed)
    }
}

/// The free-address query, from the transport outcome of the HTTPS GET to
/// the client's outward value: the bare addresses in document order. A
/// transport failure and a malformed document stay distinguishable from a
/// well-formed empty listing.
pub fn free_ipv4(body: Result<String, String>) -> (r: Result<Vec<Ip4>, IpamError>)
    ensures
        body matches Ok(doc) ==> {
            &&& (r is Ok <==> spec_parse_free_ips(doc@) is Some)
            &&& (r matches Ok(ips) ==> ips@ == ips_of(spec_parse_free_ips(doc@)->Some_0))
            &&& (r is Err ==> r->Err_0 is ParseFailed)
        },
        body matches Err(e) ==> r matches Err(IpamError::TransportFailed(m)) && m@ == e@,
{
    let doc = match body {
        Ok(d) => d,
        Err(e) => return Err(IpamError::TransportFailed(e)),
    };
    let records = match parse_free_ips(doc.as_str()) {
        Ok(v) => v,
        Err(e) => return Err(e),
    };
    let mut ips: Vec<Ip4> = Vec::new();
    let mut k: usize = 0;
    while k < records.len()
        invariant
            k <= records@.len(),
            ips@.len() == k as int,
            forall|m: int| 0 <= m < k ==> ips@[m] == records@[m]@.ip,
        decreases records@.len() - k,
    {
        ips.push(records[k].ip);
        k += 1;
    }
    proof {
        assert(ips@ =~= ips_of(views_of(records@)));
    }
    Ok(ips)
}

/// The textual dotted-quad form of an address, for display.
pub open spec fn spec_ip4_string(ip: Ip4) -> Seq<char> {
    spec_dec(ip.a as nat) + "."@ + spec_dec(ip.b as nat) + "."@ + spec_dec(ip.c as nat) + "."@
        + spec_dec(ip.d as nat)
}

pub fn ip4_to_string(ip: &Ip4) -> (r: String)
    ensures
        r@ == spec_ip4_string(*ip),
{
    let mut t = u32_to_string(ip.a as u32);
    t.append(".");
    let b = u32_to_string(ip.b as u32);
    t.append(b.as_str());
    t.append(".");
    let c = u32_to_string(ip.c as u32);
    t.append(c.as_str());
    t.append(".");
    let d = u32_to_string(ip.d as u32);
    t.append(d.as_str());
    proof {
        assert(t@ =~= spec_ip4_string(*ip));
    }
    t
}

/// The query URL for the free-address listing of one subnet.
pub fn ipam_url(subnet: &str) -> (r: String)
    ensures
        r@ == "https://www.netcenter.ethz.ch/netcenter/rest/nameToIP/freeIps/v4/"@ + subnet@,
{
    let mut u = String::new();
    u.append("https://www.netcenter.ethz.ch/netcenter/rest/nameToIP/freeIps/v4/");
    u.append(subnet);
    proof {
        assert(u@ =~= "https://www.netcenter.ethz.ch/netcenter/rest/nameToIP/freeIps/v4/"@
            + subnet@);
    }
    u
}

/// The fixed, human-attributable user-agent the query must identify itself
/// with.
pub fn user_agent() -> (r: &'static str)
    ensures
        r@ == "SOSETH netcenter automation (vsos-support@sos.ethz.ch)"@,
{
    "SOSETH netcenter automation (vsos-support@sos.ethz.ch)"
}

} // verus!
