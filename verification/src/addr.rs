//! PCI bus/device/function addresses: parsing the textual
//! `[domain:]bus:device.function` form and printing the canonical
//! `dddd:bb:dd.f` form.

use vstd::prelude::*;
use crate::digits::{
    all_hex, hex_digit_char, hex_digit_val, hex_digit_value, hex_seq_val, is_hex_digit_char,
    lemma_hex_digit_char_val, lemma_hex_seq_val_bound, lemma_hex_seq_val_pair,
    lemma_hex_seq_val_quad, lemma_hex_seq_val_singleton, pow16,
};
use crate::split::{lemma_split_chars_concat, lemma_split_chars_no_sep, split_chars, split_on_char};

verus! {

/// Reasons a textual address is rejected.
#[derive(Debug, Clone, Copy, PartialEq, Eq, Structural)]
pub enum PciAddressError {
    /// Wrong separators or wrong number of tokens.
    BadFormat,
    /// A token that is empty, too wide, or not hexadecimal.
    BadHex,
    /// Device above 31 or function above 7.
    OutOfRange,
}

#[derive(Debug, Clone, Copy, PartialEq, Eq, Structural)]
pub struct PciAddress {
    pub domain: u16,
    pub bus: u8,
    pub device: u8,
    pub function: u8,
}

impl PciAddress {
    /// The range invariant every address carries.
    pub open spec fn wf(self) -> bool {
        self.device <= 31 && self.function <= 7
    }

    /// A hexadecimal token of a width between one character and `max`.
    pub open spec fn hex_token_ok(t: Seq<char>, max: int) -> bool {
        1 <= t.len() <= max && all_hex(t)
    }

    /// What parsing does with the tokens once they are isolated; a missing
    /// domain token reads as zero.
    pub open spec fn spec_parse_tokens(
        dom: Option<Seq<char>>,
        bus: Seq<char>,
        dev: Seq<char>,
        fun: Seq<char>,
    ) -> Result<PciAddress, PciAddressError> {
        let dom_ok = match dom {
            Some(t) => Self::hex_token_ok(t, 4),
            None => true,
        };
        let dom_val = match dom {
            Some(t) => hex_seq_val(t),
            None => 0,
        };
        if !(dom_ok && Self::hex_token_ok(bus, 2) && Self::hex_token_ok(dev, 2)
            && Self::hex_token_ok(fun, 2)) {
            Err(PciAddressError::BadHex)
        } else if hex_seq_val(dev) > 31 || hex_seq_val(fun) > 7 {
            Err(PciAddressError::OutOfRange)
        } else {
            Ok(
                PciAddress {
                    domain: dom_val as u16,
                    bus: hex_seq_val(bus) as u8,
                    device: hex_seq_val(dev) as u8,
                    function: hex_seq_val(fun) as u8,
                },
            )
        }
    }

    /// The accepted grammar: `bus:device.function`, optionally preceded by
    /// `domain:`, every token hexadecimal.
    pub open spec fn spec_parse(s: Seq<char>) -> Result<PciAddress, PciAddressError> {
        let parts = split_chars(s, ':');
        if parts.len() != 2 && parts.len() != 3 {
            Err(PciAddressError::BadFormat)
        } else {
            let dom = if parts.len() == 3 { Some(parts[0]) } else { None };
            let bus = if parts.len() == 3 { parts[1] } else { parts[0] };
            let df = if parts.len() == 3 { parts[2] } else { parts[1] };
            let dparts = split_chars(df, '.');
            if dparts.len() != 2 {
                Err(PciAddressError::BadFormat)
            } else {
                Self::spec_parse_tokens(dom, bus, dparts[0], dparts[1])
            }
        }
    }

    /// Four lowercase hexadecimal digits, most significant first.
    pub open spec fn hex4(v: u16) -> Seq<char> {
        seq![
            hex_digit_char(v as int / 4096 % 16),
            hex_digit_char(v as int / 256 % 16),
            hex_digit_char(v as int / 16 % 16),
            hex_digit_char(v as int % 16),
        ]
    }

    /// Two lowercase hexadecimal digits, most significant first.
    pub open spec fn hex2(v: u8) -> Seq<char> {
        seq![hex_digit_char(v as int / 16 % 16), hex_digit_char(v as int % 16)]
    }

    /// The canonical printed form `dddd:bb:dd.f`.
    pub open spec fn canonical(self) -> Seq<char> {
        Self::hex4(self.domain) + seq![':'] + Self::hex2(self.bus) + seq![':'] + Self::hex2(
            self.device,
        ) + seq!['.'] + seq![hex_digit_char(self.function as int)]
    }

    /// Parse a `[domain:]bus:device.function` string, all tokens hexadecimal.
    pub fn new(bdf: &str) -> (r: Result<Self, PciAddressError>)
        ensures
            r == Self::spec_parse(bdf@),
            r matches Ok(a) ==> a.wf(),
    {
        let parts = split_on_char(bdf, ':');
        proof {
            assert(forall|i: int| 0 <= i < parts@.len() ==> parts.deep_view()[i] == #[trigger]
                parts@[i]@);
        }
        let with_domain: bool = if parts.len() == 3 {
            true
        } else if parts.len() == 2 {
            false
        } else {
            return Err(PciAddressError::BadFormat);
        };
        let bus_text: &String = if with_domain { &parts[1] } else { &parts[0] };
        let df_text: &String = if with_domain { &parts[2] } else { &parts[1] };
        let dparts = split_on_char(df_text.as_str(), '.');
        proof {
            assert(forall|i: int| 0 <= i < dparts@.len() ==> dparts.deep_view()[i] == #[trigger]
                dparts@[i]@);
        }
        if dparts.len() != 2 {
            return Err(PciAddressError::BadFormat);
        }
        let domain: u16 = if with_domain {
            match parse_hex_u16(parts[0].as_str(), 4) {
                Some(v) => v,
                None => {
                    return Err(PciAddressError::BadHex);
                },
            }
        } else {
            0
        };
        let bus: u16 = match parse_hex_u16(bus_text.as_str(), 2) {
            Some(v) => v,
            None => {
                return Err(PciAddressError::BadHex);
            },
        };
        let device: u16 = match parse_hex_u16(dparts[0].as_str(), 2) {
            Some(v) => v,
            None => {
                return Err(PciAddressError::BadHex);
            },
        };
        let function: u16 = match parse_hex_u16(dparts[1].as_str(), 2) {
            Some(v) => v,
            None => {
                return Err(PciAddressError::BadHex);
            },
        };
        if device > 31 || function > 7 {
            return Err(PciAddressError::OutOfRange);
        }
        proof {
            lemma_hex_seq_val_bound(bus_text@);
            assert(pow16(0) == 1);
            assert(pow16(1) == 16);
            assert(pow16(2) == 256);
        }
        Ok(
            PciAddress {
                domain,
                bus: bus as u8,
                device: device as u8,
                function: function as u8,
            },
        )
    }

    /// Print the canonical `dddd:bb:dd.f` form, lowercase and zero padded.
    pub fn to_text(&self) -> (r: String)
        requires
            self.wf(),
        ensures
            r@ == self.canonical(),
    {
        let mut out = String::new();
        out.append(hex_char_text((self.domain / 4096 % 16) as u8));
        out.append(hex_char_text((self.domain / 256 % 16) as u8));
        out.append(hex_char_text((self.domain / 16 % 16) as u8));
        out.append(hex_char_text((self.domain % 16) as u8));
        out.append(sep_colon());
        out.append(hex_char_text(self.bus / 16 % 16));
        out.append(hex_char_text(self.bus % 16));
        out.append(sep_colon());
        out.append(hex_char_text(self.device / 16 % 16));
        out.append(hex_char_text(self.device % 16));
        out.append(sep_dot());
        out.append(hex_char_text(self.function % 16));
        proof {
            assert(self.function % 16 == self.function as int);
            assert(out@ =~= self.canonical());
        }
        out
    }
}

/// The one-character text of a hexadecimal digit, lowercase.
pub fn hex_char_text(v: u8) -> (r: &'static str)
    requires
        v < 16,
    ensures
        r@ =~= seq![hex_digit_char(v as int)],
{
    proof {
        reveal_strlit("0");
        reveal_strlit("1");
        reveal_strlit("2");
        reveal_strlit("3");
        reveal_strlit("4");
        reveal_strlit("5");
        reveal_strlit("6");
        reveal_strlit("7");
        reveal_strlit("8");
        reveal_strlit("9");
        reveal_strlit("a");
        reveal_strlit("b");
        reveal_strlit("c");
        reveal_strlit("d");
        reveal_strlit("e");
        reveal_strlit("f");
    }
    match v {
        0 => "0", 1 => "1", 2 => "2", 3 => "3", 4 => "4", 5 => "5", 6 => "6", 7 => "7",
        8 => "8", 9 => "9", 10 => "a", 11 => "b", 12 => "c", 13 => "d", 14 => "e", _ => "f",
    }
}

fn sep_colon() -> (r: &'static str)
    ensures
        r@ =~= seq![':'],
{
    proof {
        reveal_strlit(":");
    }
    ":"
}

fn sep_dot() -> (r: &'static str)
    ensures
        r@ =~= seq!['.'],
{
    proof {
        reveal_strlit(".");
    }
    "."
}

/// Parse a whole token of one to `max_len` hexadecimal characters.
pub fn parse_hex_u16(t: &str, max_len: usize) -> (r: Option<u16>)
    requires
        1 <= max_len <= 4,
    ensures
        match r {
            Some(v) => PciAddress::hex_token_ok(t@, max_len as int) && v as int == hex_seq_val(t@),
            None => !PciAddress::hex_token_ok(t@, max_len as int),
        },
{
    let n = t.unicode_len();
    if n < 1 || n > max_len {
        return None;
    }
    let mut v: u16 = 0;
    let mut i: usize = 0;
    while i < n
        invariant
            0 <= i <= n,
            n == t@.len(),
            1 <= n <= 4,
            all_hex(t@.take(i as int)),
            v as int == hex_seq_val(t@.take(i as int)),
        decreases n - i,
    {
        let c = t.get_char(i);
        let d = match hex_digit_value(c) {
            Some(d) => d,
            None => {
                assert(!is_hex_digit_char(t@[i as int]));
                return None;
            },
        };
        proof {
            lemma_hex_seq_val_bound(t@.take(i as int));
            assert(pow16(0) == 1);
            assert(pow16(1) == 16);
            assert(pow16(2) == 256);
            assert(pow16(3) == 4096);
            assert(t@.take(i + 1).drop_last() =~= t@.take(i as int));
            assert(t@.take(i + 1).last() == t@[i as int]);
            assert(all_hex(t@.take(i + 1)));
        }
        v = v * 16 + d as u16;
        i = i + 1;
    }
    proof {
        assert(t@.take(n as int) =~= t@);
    }
    Some(v)
}

/// Parsing the canonical text of a well-formed address gives that address
/// back: the textual form round-trips.
pub proof fn lemma_parse_canonical(a: PciAddress)
    requires
        a.wf(),
    ensures
        PciAddress::spec_parse(a.canonical()) == Ok::<PciAddress, PciAddressError>(a),
{
    let dom = PciAddress::hex4(a.domain);
    let bus = PciAddress::hex2(a.bus);
    let dev = PciAddress::hex2(a.device);
    let fun = seq![hex_digit_char(a.function as int)];
    let df = dev + seq!['.'] + fun;
    lemma_hex_digit_char_val(a.domain as int / 4096 % 16);
    lemma_hex_digit_char_val(a.domain as int / 256 % 16);
    lemma_hex_digit_char_val(a.domain as int / 16 % 16);
    lemma_hex_digit_char_val(a.domain as int % 16);
    lemma_hex_digit_char_val(a.bus as int / 16 % 16);
    lemma_hex_digit_char_val(a.bus as int % 16);
    lemma_hex_digit_char_val(a.device as int / 16 % 16);
    lemma_hex_digit_char_val(a.device as int % 16);
    lemma_hex_digit_char_val(a.function as int);
    lemma_hex_seq_val_singleton(hex_digit_char(a.function as int));
    assert(a.canonical() =~= dom + seq![':'] + (bus + seq![':'] + df));
    lemma_split_chars_concat(bus, df, ':');
    lemma_split_chars_concat(dom, bus + seq![':'] + df, ':');
    let parts = split_chars(a.canonical(), ':');
    assert(parts =~~= seq![dom] + (seq![bus] + split_chars(df, ':')));
    lemma_split_chars_no_sep(df, ':');
    assert(parts =~~= seq![dom, bus, df]);
    lemma_split_chars_concat(dev, fun, '.');
    lemma_split_chars_no_sep(fun, '.');
    let dparts = split_chars(df, '.');
    assert(dparts =~~= seq![dev, fun]);
    lemma_hex4_val(a.domain);
    lemma_hex2_val(a.bus);
    lemma_hex2_val(a.device);
    assert(hex_seq_val(fun) == a.function);
    assert(PciAddress::hex_token_ok(dom, 4));
    assert(PciAddress::hex_token_ok(bus, 2));
    assert(PciAddress::hex_token_ok(dev, 2));
    assert(PciAddress::hex_token_ok(fun, 2));
    assert(PciAddress::spec_parse_tokens(Some(dom), bus, dev, fun) == Ok::<
        PciAddress,
        PciAddressError,
    >(a));
}

proof fn lemma_hex4_val(v: u16)
    ensures
        hex_seq_val(PciAddress::hex4(v)) == v,
{
    lemma_hex_digit_char_val(v as int / 4096 % 16);
    lemma_hex_digit_char_val(v as int / 256 % 16);
    lemma_hex_digit_char_val(v as int / 16 % 16);
    lemma_hex_digit_char_val(v as int % 16);
    lemma_hex_seq_val_quad(
        hex_digit_char(v as int / 4096 % 16),
        hex_digit_char(v as int / 256 % 16),
        hex_digit_char(v as int / 16 % 16),
        hex_digit_char(v as int % 16),
    );
    assert((((v / 4096 % 16) * 16 + v / 256 % 16) * 16 + v / 16 % 16) * 16 + v % 16 == v)
        by (bit_vector);
}

proof fn lemma_hex2_val(v: u8)
    ensures
        hex_seq_val(PciAddress::hex2(v)) == v,
{
    lemma_hex_digit_char_val(v as int / 16 % 16);
    lemma_hex_digit_char_val(v as int % 16);
    lemma_hex_seq_val_pair(hex_digit_char(v as int / 16 % 16), hex_digit_char(v as int % 16));
    assert((v / 16 % 16) * 16 + v % 16 == v) by (bit_vector);
}

} // verus!
