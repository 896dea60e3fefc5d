//! The recorder's flow filter: which ports and addresses to record, how the
//! command line lists them, and how the filter is handed to the kernel probes.
use vstd::prelude::*;
use crate::text::{chars_of, digit_char, split, spec_decimal_nat, spec_split, spec_trim, string_from_chars, trim};

verus! {

/// No filtering: every flow is recorded.
pub const FILTER_MODE_NONE: u32 = 0;
/// Only the single port in `single_port` is recorded.
pub const FILTER_MODE_SINGLE_PORT: u32 = 1;
/// The port and address lists are loaded into kernel maps and consulted.
pub const FILTER_MODE_MAPS: u32 = 2;

/// Rule bit: `any_ports` is in use.
pub const FILTER_ANY_PORT: u32 = 0x01;
/// Rule bit: `src_ports` is in use.
pub const FILTER_SRC_PORT: u32 = 0x02;
/// Rule bit: `dst_ports` is in use.
pub const FILTER_DST_PORT: u32 = 0x04;
/// Rule bit: `any_ips` is in use.
pub const FILTER_ANY_IP: u32 = 0x08;
/// Rule bit: `src_ips` is in use.
pub const FILTER_SRC_IP: u32 = 0x10;
/// Rule bit: `dst_ips` is in use.
pub const FILTER_DST_IP: u32 = 0x20;

/// What to record: a single port, or lists of ports and addresses that match
/// either endpoint, the source, or the destination.
#[derive(Clone, Debug)]
pub struct FilterConfig {
    pub single_port: u16,
    pub any_ports: Vec<u16>,
    pub src_ports: Vec<u16>,
    pub dst_ports: Vec<u16>,
    pub any_ips: Vec<[u8; 16]>,
    pub src_ips: Vec<[u8; 16]>,
    pub dst_ips: Vec<[u8; 16]>,
}

/// The rule bits of a filter: one bit per non-empty list.
pub open spec fn spec_rule_flags(f: FilterConfig) -> u32 {
    (if f.any_ports@.len() > 0 {
        FILTER_ANY_PORT
    } else {
        0u32
    }) | (if f.src_ports@.len() > 0 {
        FILTER_SRC_PORT
    } else {
        0u32
    }) | (if f.dst_ports@.len() > 0 {
        FILTER_DST_PORT
    } else {
        0u32
    }) | (if f.any_ips@.len() > 0 {
        FILTER_ANY_IP
    } else {
        0u32
    }) | (if f.src_ips@.len() > 0 {
        FILTER_SRC_IP
    } else {
        0u32
    }) | (if f.dst_ips@.len() > 0 {
        FILTER_DST_IP
    } else {
        0u32
    })
}

/// Whether any of the lists is in use.
pub open spec fn spec_uses_lists(f: FilterConfig) -> bool {
    f.any_ports@.len() > 0 || f.src_ports@.len() > 0 || f.dst_ports@.len() > 0 || f.any_ips@.len()
        > 0 || f.src_ips@.len() > 0 || f.dst_ips@.len() > 0
}

/// The filter mode: lists win over the single port, which wins over nothing.
pub open spec fn spec_filter_mode(f: FilterConfig) -> u32 {
    if spec_uses_lists(f) {
        FILTER_MODE_MAPS
    } else if f.single_port != 0 {
        FILTER_MODE_SINGLE_PORT
    } else {
        FILTER_MODE_NONE
    }
}

proof fn lemma_flags_zero(a: bool, b: bool, c: bool, d: bool, e: bool, g: bool)
    ensures
        ((if a {
            0x01u32
        } else {
            0u32
        }) | (if b {
            0x02u32
        } else {
            0u32
        }) | (if c {
            0x04u32
        } else {
            0u32
        }) | (if d {
            0x08u32
        } else {
            0u32
        }) | (if e {
            0x10u32
        } else {
            0u32
        }) | (if g {
            0x20u32
        } else {
            0u32
        })) == 0 <==> !(a || b || c || d || e || g),
{
    let x1: u32 = if a { 0x01 } else { 0 };
    let x2: u32 = if b { 0x02 } else { 0 };
    let x3: u32 = if c { 0x04 } else { 0 };
    let x4: u32 = if d { 0x08 } else { 0 };
    let x5: u32 = if e { 0x10 } else { 0 };
    let x6: u32 = if g { 0x20 } else { 0 };
    assert((x1 == 0x01u32 || x1 == 0u32) && (x2 == 0x02u32 || x2 == 0u32) && (x3 == 0x04u32 || x3
        == 0u32) && (x4 == 0x08u32 || x4 == 0u32) && (x5 == 0x10u32 || x5 == 0u32) && (x6
        == 0x20u32 || x6 == 0u32) ==> ((x1 | x2 | x3 | x4 | x5 | x6) == 0u32 <==> (x1 == 0u32
        && x2 == 0u32 && x3 == 0u32 && x4 == 0u32 && x5 == 0u32 && x6 == 0u32))) by (bit_vector);
}

impl FilterConfig {
    /// An empty filter: records everything.
    pub fn new() -> (r: FilterConfig)
        ensures
            r.single_port == 0,
            !spec_uses_lists(r),
    {
        FilterConfig {
            single_port: 0,
            any_ports: Vec::new(),
            src_ports: Vec::new(),
            dst_ports: Vec::new(),
            any_ips: Vec::new(),
            src_ips: Vec::new(),
            dst_ips: Vec::new(),
        }
    }

    /// The rule bits telling the kernel probes which lists to consult.
    pub fn rule_flags(&self) -> (r: u32)
        ensures
            r == spec_rule_flags(*self),
            r == 0 <==> !spec_uses_lists(*self),
    {
        let x1: u32 = if self.any_ports.len() > 0 {
            FILTER_ANY_PORT
        } else {
            0
        };
        let x2: u32 = if self.src_ports.len() > 0 {
            FILTER_SRC_PORT
        } else {
            0
        };
        let x3: u32 = if self.dst_ports.len() > 0 {
            FILTER_DST_PORT
        } else {
            0
        };
        let x4: u32 = if self.any_ips.len() > 0 {
            FILTER_ANY_IP
        } else {
            0
        };
        let x5: u32 = if self.src_ips.len() > 0 {
            FILTER_SRC_IP
        } else {
            0
        };
        let x6: u32 = if self.dst_ips.len() > 0 {
            FILTER_DST_IP
        } else {
            0
        };
        let flags = x1 | x2 | x3 | x4 | x5 | x6;
        proof {
            lemma_flags_zero(
                self.any_ports@.len() > 0,
                self.src_ports@.len() > 0,
                self.dst_ports@.len() > 0,
                self.any_ips@.len() > 0,
                self.src_ips@.len() > 0,
                self.dst_ips@.len() > 0,
            );
        }
        flags
    }

    /// The filter mode handed to the kernel probes.
    pub fn mode(&self) -> (r: u32)
        ensures
            r == spec_filter_mode(*self),
    {
        if self.rule_flags() != 0 {
            FILTER_MODE_MAPS
        } else if self.single_port != 0 {
            FILTER_MODE_SINGLE_PORT
        } else {
            FILTER_MODE_NONE
        }
    }
}

/// An IP address as recorded in a flow filter.
#[derive(Clone, Copy, Debug)]
pub enum IpAddress {
    V4([u8; 4]),
    V6([u8; 16]),
}

/// The 16-byte filter key of an address: an IPv4 address fills the first four
/// bytes and leaves the rest zero; an IPv6 address fills all sixteen.
pub open spec fn spec_filter_addr(ip: IpAddress) -> Seq<u8> {
    match ip {
        IpAddress::V4(o) => o@ + Seq::new(12, |i: int| 0u8),
        IpAddress::V6(o) => o@,
    }
}

/// The filter key the kernel maps are keyed by.
pub fn ip_to_filter_addr(ip: IpAddress) -> (r: [u8; 16])
    ensures
        r@ == spec_filter_addr(ip),
{
    match ip {
        IpAddress::V4(o) => {
            let r: [u8; 16] = [o[0], o[1], o[2], o[3], 0, 0, 0, 0, 0, 0, 0, 0, 0, 0, 0, 0];
            assert(r@ =~= o@ + Seq::new(12, |i: int| 0u8));
            r
        },
        IpAddress::V6(o) => o,
    }
}

// ---------------------------------------------------------------------------
// Comma-separated command-line lists.

/// The fields of a comma-separated list, untrimmed; a list that is empty or
/// only whitespace has no fields.
pub open spec fn spec_csv_fields(arg: Seq<char>) -> Seq<Seq<char>> {
    if spec_trim(arg).len() == 0 {
        Seq::empty()
    } else {
        spec_split(arg, ',')
    }
}

/// Splits a comma-separated command-line list into its (untrimmed) fields.
pub fn csv_fields(arg: &str) -> (r: Vec<Vec<char>>)
    ensures
        r@.len() == spec_csv_fields(arg@).len(),
        forall|k: int| 0 <= k < r@.len() ==> #[trigger] r@[k]@ == spec_csv_fields(arg@)[k],
{
    let cs = chars_of(arg);
    let t = trim(cs.as_slice());
    if t.len() == 0 {
        return Vec::new();
    }
    split(cs.as_slice(), ',')
}

/// Why a decimal number does not parse (the kinds `u16::from_str` reports).
#[derive(Clone, Copy, Debug, PartialEq, Eq, Structural)]
pub enum NumberError {
    Empty,
    InvalidDigit,
    PosOverflow,
}

/// The text `ParseIntError` displays for each kind.
pub open spec fn spec_number_error_text(e: NumberError) -> Seq<char> {
    match e {
        NumberError::Empty => "cannot parse integer from empty string"@,
        NumberError::InvalidDigit => "invalid digit found in string"@,
        NumberError::PosOverflow => "number too large to fit in target type"@,
    }
}

/// Value of an ASCII decimal digit, if the character is one.
pub open spec fn digit_value(c: char) -> Option<int> {
    let x = c as u32;
    if 48 <= x <= 57 {
        Some(x - 48)
    } else {
        None
    }
}

/// Reading the digits `d[0..n]` left to right: the value so far, or the first
/// failure (a non-digit, or a value beyond `u16::MAX`).
pub open spec fn digits_scan(d: Seq<char>, n: int) -> Result<int, NumberError>
    decreases n,
{
    if n <= 0 {
        Ok(0)
    } else {
        match digits_scan(d, n - 1) {
            Err(e) => Err(e),
            Ok(v) => match digit_value(d[n - 1]) {
                None => Err(NumberError::InvalidDigit),
                Some(x) => if v * 10 + x > u16::MAX {
                    Err(NumberError::PosOverflow)
                } else {
                    Ok(v * 10 + x)
                },
            },
        }
    }
}

/// `u16::from_str`: an optional leading '+', then one or more ASCII digits,
/// read left to right, failing at the first non-digit or overflow.
pub open spec fn spec_parse_u16(s: Seq<char>) -> Result<u16, NumberError> {
    if s.len() == 0 {
        Err(NumberError::Empty)
    } else if (s[0] == '+' || s[0] == '-') && s.len() == 1 {
        Err(NumberError::InvalidDigit)
    } else {
        let d = if s[0] == '+' {
            s.subrange(1, s.len() as int)
        } else {
            s
        };
        match digits_scan(d, d.len() as int) {
            Ok(v) => Ok(v as u16),
            Err(e) => Err(e),
        }
    }
}

proof fn lemma_digits_scan_range(d: Seq<char>, n: int)
    ensures
        digits_scan(d, n) matches Ok(v) ==> 0 <= v <= u16::MAX,
    decreases n,
{
    if n > 0 {
        lemma_digits_scan_range(d, n - 1);
    }
}

/// Parses a port number as `u16::from_str` does.
pub fn parse_u16(s: &[char]) -> (r: Result<u16, NumberError>)
    ensures
        r == spec_parse_u16(s@),
{
    if s.len() == 0 {
        return Err(NumberError::Empty);
    }
    if (s[0] == '+' || s[0] == '-') && s.len() == 1 {
        return Err(NumberError::InvalidDigit);
    }
    let start: usize = if s[0] == '+' {
        1
    } else {
        0
    };
    let ghost d = if s@[0] == '+' {
        s@.subrange(1, s@.len() as int)
    } else {
        s@
    };
    let mut v: u32 = 0;
    let mut i: usize = start;
    while i < s.len()
        invariant
            s@.len() > 0,
            !((s@[0] == '+' || s@[0] == '-') && s@.len() == 1),
            start == (if s@[0] == '+' {
                1usize
            } else {
                0usize
            }),
            d == (if s@[0] == '+' {
                s@.subrange(1, s@.len() as int)
            } else {
                s@
            }),
            start <= i <= s@.len(),
            d == s@.subrange(start as int, s@.len() as int),
            digits_scan(d, i - start) == Ok::<int, NumberError>(v as int),
            v <= u16::MAX,
        decreases s@.len() - i,
    {
        assert(d[i - start] == s@[i as int]);
        let x = s[i] as u32;
        if x < 48 || x > 57 {
            proof {
                assert(d.len() == s@.len() - start);
                assert(digit_value(d[i - start]) is None);
                assert(digits_scan(d, i - start + 1) == Err::<int, NumberError>(NumberError::InvalidDigit));
                lemma_scan_stays_err(d, i - start + 1, d.len() as int);
            }
            return Err(NumberError::InvalidDigit);
        }
        let nv = v * 10 + (x - 48);
        if nv > 65535 {
            proof {
                assert(d.len() == s@.len() - start);
                assert(digit_value(d[i - start]) == Some(x - 48));
                assert(digits_scan(d, i - start + 1) == Err::<int, NumberError>(NumberError::PosOverflow));
                lemma_scan_stays_err(d, i - start + 1, d.len() as int);
            }
            return Err(NumberError::PosOverflow);
        }
        v = nv;
        i = i + 1;
    }
    proof {
        assert(s@.len() - start == d.len());
    }
    Ok(v as u16)
}

proof fn lemma_scan_stays_err(d: Seq<char>, k: int, n: int)
    requires
        0 <= k <= n,
        digits_scan(d, k) is Err,
    ensures
        digits_scan(d, n) == digits_scan(d, k),
    decreases n - k,
{
    if n > k {
        lemma_scan_stays_err(d, k, n - 1);
    }
}

/// The message reported for a field of a command-line list that does not parse.
pub open spec fn spec_invalid_field_message(name: Seq<char>, field: Seq<char>, e: NumberError) -> Seq<char> {
    "Invalid "@ + name + " '"@ + field + "': "@ + spec_number_error_text(e)
}

impl NumberError {
    pub fn text(&self) -> (r: &'static str)
        ensures
            r@ == spec_number_error_text(*self),
    {
        match self {
            NumberError::Empty => "cannot parse integer from empty string",
            NumberError::InvalidDigit => "invalid digit found in string",
            NumberError::PosOverflow => "number too large to fit in target type",
        }
    }
}

/// Outcome of parsing the first `n` fields of a port list: the ports so far, or
/// the first field that failed with its error.
pub open spec fn port_list_scan(fields: Seq<Seq<char>>, n: int) -> Result<Seq<u16>, (Seq<char>, NumberError)>
    decreases n,
{
    if n <= 0 {
        Ok(Seq::empty())
    } else {
        match port_list_scan(fields, n - 1) {
            Err(e) => Err(e),
            Ok(ps) => match spec_parse_u16(spec_trim(fields[n - 1])) {
                Ok(p) => Ok(ps.push(p)),
                Err(e) => Err((fields[n - 1], e)),
            },
        }
    }
}

proof fn lemma_port_scan_stays_err(fields: Seq<Seq<char>>, k: int, n: int)
    requires
        0 <= k <= n,
        port_list_scan(fields, k) is Err,
    ensures
        port_list_scan(fields, n) == port_list_scan(fields, k),
    decreases n - k,
{
    if n > k {
        lemma_port_scan_stays_err(fields, k, n - 1);
    }
}

/// Parses a comma-separated list of ports from the command line. Each field is
/// trimmed and parsed; the first field that fails is reported with the list's
/// `name`, the field as written, and the parse error.
pub fn parse_csv(arg: &str, name: &str) -> (r: Result<Vec<u16>, String>)
    ensures
        match (r, port_list_scan(spec_csv_fields(arg@), spec_csv_fields(arg@).len() as int)) {
            (Ok(v), Ok(ps)) => v@ == ps,
            (Err(m), Err((field, e))) => m@ == spec_invalid_field_message(name@, field, e),
            _ => false,
        },
{
    let fields = csv_fields(arg);
    let ghost fs = spec_csv_fields(arg@);
    let mut out: Vec<u16> = Vec::new();
    let mut i: usize = 0;
    while i < fields.len()
        invariant
            fs == spec_csv_fields(arg@),
            fields@.len() == fs.len(),
            forall|k: int| 0 <= k < fields@.len() ==> #[trigger] fields@[k]@ == fs[k],
            i <= fields@.len(),
            port_list_scan(fs, i as int) == Ok::<Seq<u16>, (Seq<char>, NumberError)>(out@),
        decreases fields@.len() - i,
    {
        let t = trim(fields[i].as_slice());
        assert(fields@[i as int]@ == fs[i as int]);
        match parse_u16(t.as_slice()) {
            Ok(p) => {
                out.push(p);
            },
            Err(e) => {
                proof {
                    assert(port_list_scan(fs, i + 1) == Err::<Seq<u16>, (Seq<char>, NumberError)>((fs[i as int], e)));
                    lemma_port_scan_stays_err(fs, i + 1, fs.len() as int);
                }
                let mut m = String::from_str("Invalid ");
                m.append(name);
                m.append(" '");
                let field = string_from_chars(fields[i].as_slice());
                m.append(field.as_str());
                m.append("': ");
                m.append(e.text());
                return Err(m);
            },
        }
        i = i + 1;
    }
    Ok(out)
}

impl Default for FilterConfig {
    fn default() -> (r: FilterConfig)
        ensures
            r.single_port == 0,
            !spec_uses_lists(r),
    {
        FilterConfig::new()
    }
}

proof fn lemma_digits_scan_push(d: Seq<char>, c: char, k: int)
    requires
        0 <= k <= d.len(),
    ensures
        digits_scan(d.push(c), k) == digits_scan(d, k),
    decreases k,
{
    if k > 0 {
        lemma_digits_scan_push(d, c, k - 1);
        assert(d.push(c)[k - 1] == d[k - 1]);
    }
}

proof fn lemma_digit_char_value(x: int)
    requires
        0 <= x < 10,
    ensures
        digit_value(digit_char(x)) == Some(x),
{
    assert(((48 + x) as char) as u32 == 48 + x);
}

proof fn lemma_decimal_scan(n: nat)
    requires
        n <= u16::MAX,
    ensures
        spec_decimal_nat(n).len() >= 1,
        digit_value(spec_decimal_nat(n)[0]) is Some,
        digits_scan(spec_decimal_nat(n), spec_decimal_nat(n).len() as int) == Ok::<int, NumberError>(
            n as int,
        ),
    decreases n,
{
    if n < 10 {
        lemma_digit_char_value(n as int);
        assert(digits_scan(spec_decimal_nat(n), 0) == Ok::<int, NumberError>(0));
    } else {
        let p = spec_decimal_nat(n / 10);
        let c = digit_char((n % 10) as int);
        lemma_decimal_scan(n / 10);
        lemma_digits_scan_push(p, c, p.len() as int);
        lemma_digit_char_value((n % 10) as int);
        assert(spec_decimal_nat(n) == p.push(c));
        assert(p.push(c)[p.len() as int] == c);
        assert(p.push(c)[0] == p[0]);
        assert((n / 10) * 10 + n % 10 == n);
    }
}

/// A port written in decimal reads back as the same port: `parse_u16` undoes
/// the decimal text of every `u16`.
pub proof fn law_port_text_roundtrip(port: u16)
    ensures
        spec_parse_u16(spec_decimal_nat(port as nat)) == Ok::<u16, NumberError>(port),
{
    let d = spec_decimal_nat(port as nat);
    lemma_decimal_scan(port as nat);
    assert(d[0] != '+' && d[0] != '-');
}

proof fn lemma_rule_bits(x1: u32, x2: u32, x3: u32, x4: u32, x5: u32, x6: u32)
    requires
        x1 == 0x01u32 || x1 == 0u32,
        x2 == 0x02u32 || x2 == 0u32,
        x3 == 0x04u32 || x3 == 0u32,
        x4 == 0x08u32 || x4 == 0u32,
        x5 == 0x10u32 || x5 == 0u32,
        x6 == 0x20u32 || x6 == 0u32,
    ensures
        ((x1 | x2 | x3 | x4 | x5 | x6) & 0x01u32 != 0) == (x1 != 0),
        ((x1 | x2 | x3 | x4 | x5 | x6) & 0x02u32 != 0) == (x2 != 0),
        ((x1 | x2 | x3 | x4 | x5 | x6) & 0x04u32 != 0) == (x3 != 0),
        ((x1 | x2 | x3 | x4 | x5 | x6) & 0x08u32 != 0) == (x4 != 0),
        ((x1 | x2 | x3 | x4 | x5 | x6) & 0x10u32 != 0) == (x5 != 0),
        ((x1 | x2 | x3 | x4 | x5 | x6) & 0x20u32 != 0) == (x6 != 0),
{
    assert(((x1 == 0x01u32 || x1 == 0u32) && (x2 == 0x02u32 || x2 == 0u32) && (x3 == 0x04u32 || x3
        == 0u32) && (x4 == 0x08u32 || x4 == 0u32) && (x5 == 0x10u32 || x5 == 0u32) && (x6
        == 0x20u32 || x6 == 0u32)) ==> (((x1 | x2 | x3 | x4 | x5 | x6) & 0x01u32 != 0) == (x1 != 0)
        && ((x1 | x2 | x3 | x4 | x5 | x6) & 0x02u32 != 0) == (x2 != 0) && ((x1 | x2 | x3 | x4 | x5
        | x6) & 0x04u32 != 0) == (x3 != 0) && ((x1 | x2 | x3 | x4 | x5 | x6) & 0x08u32 != 0) == (x4
        != 0) && ((x1 | x2 | x3 | x4 | x5 | x6) & 0x10u32 != 0) == (x5 != 0) && ((x1 | x2 | x3 | x4
        | x5 | x6) & 0x20u32 != 0) == (x6 != 0))) by (bit_vector);
}

/// Each rule bit handed to the kernel probes is set exactly when its own list
/// is in use: any-port, source-port, destination-port, any-address,
/// source-address and destination-address lists each have their own bit.
pub proof fn law_rule_bit_per_list(f: FilterConfig)
    ensures
        (spec_rule_flags(f) & FILTER_ANY_PORT != 0) <==> f.any_ports@.len() > 0,
        (spec_rule_flags(f) & FILTER_SRC_PORT != 0) <==> f.src_ports@.len() > 0,
        (spec_rule_flags(f) & FILTER_DST_PORT != 0) <==> f.dst_ports@.len() > 0,
        (spec_rule_flags(f) & FILTER_ANY_IP != 0) <==> f.any_ips@.len() > 0,
        (spec_rule_flags(f) & FILTER_SRC_IP != 0) <==> f.src_ips@.len() > 0,
        (spec_rule_flags(f) & FILTER_DST_IP != 0) <==> f.dst_ips@.len() > 0,
        FILTER_ANY_PORT == 0x01 && FILTER_SRC_PORT == 0x02 && FILTER_DST_PORT == 0x04
            && FILTER_ANY_IP == 0x08 && FILTER_SRC_IP == 0x10 && FILTER_DST_IP == 0x20,
{
    let x1: u32 = if f.any_ports@.len() > 0 { 0x01 } else { 0 };
    let x2: u32 = if f.src_ports@.len() > 0 { 0x02 } else { 0 };
    let x3: u32 = if f.dst_ports@.len() > 0 { 0x04 } else { 0 };
    let x4: u32 = if f.any_ips@.len() > 0 { 0x08 } else { 0 };
    let x5: u32 = if f.src_ips@.len() > 0 { 0x10 } else { 0 };
    let x6: u32 = if f.dst_ips@.len() > 0 { 0x20 } else { 0 };
    lemma_rule_bits(x1, x2, x3, x4, x5, x6);
    assert(spec_rule_flags(f) == (x1 | x2 | x3 | x4 | x5 | x6));
}

/// The filter mode: lists (any of them) win over the single port, which wins
/// over recording everything.
pub proof fn law_filter_mode(f: FilterConfig)
    ensures
        spec_uses_lists(f) ==> spec_filter_mode(f) == FILTER_MODE_MAPS,
        !spec_uses_lists(f) && f.single_port != 0 ==> spec_filter_mode(f) == FILTER_MODE_SINGLE_PORT,
        !spec_uses_lists(f) && f.single_port == 0 ==> spec_filter_mode(f) == FILTER_MODE_NONE,
        FILTER_MODE_NONE != FILTER_MODE_SINGLE_PORT && FILTER_MODE_SINGLE_PORT != FILTER_MODE_MAPS
            && FILTER_MODE_NONE != FILTER_MODE_MAPS,
{
}

} // verus!
