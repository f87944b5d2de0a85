//! The `pci.ids` text database: the vendor/device/subsystem and
//! class/subclass/programming-interface trees, and a strict line-oriented
//! parser for them.
//!
//! Grammar, one record per line, nesting given by leading tabs:
//! vendors are `xxxx  name` with devices (`\t` + `xxxx  name`) and
//! subsystems (`\t\t` + `xxxx xxxx  name`) below; classes are `C xx  name`
//! with subclasses (`\t` + `xx  name`) and programming interfaces (`\t\t` +
//! `xx  name`) below.  Hexadecimal tokens have an exact width.  Blank lines
//! and `#` comments are skipped between records.

use vstd::prelude::*;
use crate::digits::{hex_digit_val, hex_digit_value, is_hex_digit_char};

verus! {

/// Failure kinds of the database parser.
#[derive(Debug, Clone, Copy, PartialEq, Eq, Structural)]
pub enum IdsParseError {
    /// A hexadecimal token with the wrong number of digits.
    HexWidth,
    /// Input that is not UTF-8 (raised by the caller that reads the file).
    Encoding,
    /// A line that matches no rule, or unparsed residue.
    Unexpected,
}

// ---- characters ----------------------------------------------------------

pub open spec fn is_line_end_char(c: char) -> bool {
    c == '\n' || c == '\r'
}

pub open spec fn is_space_char(c: char) -> bool {
    c == ' ' || c == '\t'
}

// ---- lines ----------------------------------------------------------------

/// Index of the first line-end character, or -1.
pub open spec fn first_line_end(s: Seq<char>) -> int
    decreases s.len(),
{
    if s.len() == 0 {
        -1
    } else if is_line_end_char(s[0]) {
        0
    } else {
        let r = first_line_end(s.skip(1));
        if r < 0 {
            -1
        } else {
            r + 1
        }
    }
}

pub proof fn lemma_first_line_end(s: Seq<char>)
    ensures
        -1 <= first_line_end(s) < s.len(),
        first_line_end(s) >= 0 ==> is_line_end_char(s[first_line_end(s)]),
        forall|k: int| 0 <= k < s.len() && is_line_end_char(#[trigger] s[k]) ==> first_line_end(s)
            >= 0 && first_line_end(s) <= k,
    decreases s.len(),
{
    if s.len() > 0 && !is_line_end_char(s[0]) {
        lemma_first_line_end(s.skip(1));
        assert(forall|k: int| 0 <= k < s.skip(1).len() ==> s.skip(1)[k] == s[k + 1]);
        assert forall|k: int|
            0 <= k < s.len() && is_line_end_char(#[trigger] s[k]) implies first_line_end(s) >= 0
            && first_line_end(s) <= k by {
            assert(k >= 1);
            assert(is_line_end_char(s.skip(1)[k - 1]));
        }
    }
}

/// Splitting off one line: the text up to the line end, and the rest after
/// the terminator.  A `\r` not followed by `\n` matches no rule.
pub open spec fn spec_line_split(s: Seq<char>) -> Option<(Seq<char>, Seq<char>)> {
    let f = first_line_end(s);
    if f < 0 {
        Some((Seq::<char>::empty(), s))
    } else if s[f] == '\n' {
        Some((s.skip(f + 1), s.take(f)))
    } else if f + 1 < s.len() && s[f + 1] == '\n' {
        Some((s.skip(f + 2), s.take(f)))
    } else {
        None
    }
}

pub proof fn lemma_line_split_len(s: Seq<char>)
    ensures
        spec_line_split(s) matches Some(r) ==> r.0.len() <= s.len(),
{
    lemma_first_line_end(s);
}

/// `take_rest_of_line`: everything up to the next line ending, consuming
/// the ending itself.
pub fn take_rest_of_line(input: &str) -> (r: Result<(&str, &str), IdsParseError>)
    ensures
        match r {
            Ok((rest, line)) => spec_line_split(input@) == Some((rest@, line@)),
            Err(e) => spec_line_split(input@) is None && e == IdsParseError::Unexpected,
        },
{
    let n = input.unicode_len();
    let mut i: usize = 0;
    proof {
        lemma_first_line_end(input@);
    }
    while i < n && input.get_char(i) != '\n' && input.get_char(i) != '\r'
        invariant
            0 <= i <= n,
            n == input@.len(),
            forall|k: int| 0 <= k < i ==> !is_line_end_char(#[trigger] input@[k]),
            -1 <= first_line_end(input@) < input@.len(),
            first_line_end(input@) >= 0 ==> is_line_end_char(input@[first_line_end(input@)]),
            forall|k: int|
                0 <= k < input@.len() && is_line_end_char(#[trigger] input@[k]) ==> first_line_end(
                    input@,
                ) >= 0 && first_line_end(input@) <= k,
        decreases n - i,
    {
        i = i + 1;
    }
    if i == n {
        assert(first_line_end(input@) == -1);
        let line = input.substring_char(0, n);
        let rest = input.substring_char(n, n);
        proof {
            assert(rest@ =~= Seq::<char>::empty());
            assert(line@ =~= input@);
        }
        return Ok((rest, line));
    }
    assert(is_line_end_char(input@[i as int]));
    assert(first_line_end(input@) == i);
    let c = input.get_char(i);
    let line = input.substring_char(0, i);
    proof {
        assert(line@ =~= input@.take(i as int));
    }
    if c == '\n' {
        let rest = input.substring_char(i + 1, n);
        proof {
            assert(rest@ =~= input@.skip(i + 1));
        }
        Ok((rest, line))
    } else if i + 1 < n && input.get_char(i + 1) == '\n' {
        let rest = input.substring_char(i + 2, n);
        proof {
            assert(rest@ =~= input@.skip(i + 2));
        }
        Ok((rest, line))
    } else {
        Err(IdsParseError::Unexpected)
    }
}

// ---- comments and blank lines ---------------------------------------------

/// Skip comment lines and line endings before a record.
pub open spec fn spec_scrub(s: Seq<char>) -> Seq<char>
    decreases s.len(),
{
    if s.len() == 0 {
        s
    } else if s[0] == '#' {
        match spec_line_split(s.skip(1)) {
            Some(r) => if r.0.len() < s.len() {
                spec_scrub(r.0)
            } else {
                r.0
            },
            None => s,
        }
    } else if s[0] == '\n' {
        spec_scrub(s.skip(1))
    } else if s[0] == '\r' && s.len() >= 2 && s[1] == '\n' {
        spec_scrub(s.skip(2))
    } else {
        s
    }
}

pub proof fn lemma_scrub_len(s: Seq<char>)
    ensures
        spec_scrub(s).len() <= s.len(),
    decreases s.len(),
{
    if s.len() > 0 {
        if s[0] == '#' {
            lemma_line_split_len(s.skip(1));
            if let Some(r) = spec_line_split(s.skip(1)) {
                if r.0.len() < s.len() {
                    lemma_scrub_len(r.0);
                }
            }
        } else if s[0] == '\n' {
            lemma_scrub_len(s.skip(1));
        } else if s[0] == '\r' && s.len() >= 2 && s[1] == '\n' {
            lemma_scrub_len(s.skip(2));
        }
    }
}

/// Skip comments and blank lines, as every record parser does first.
pub fn scrub_input(input: &str) -> (r: &str)
    ensures
        r@ == spec_scrub(input@),
    decreases input@.len(),
{
    let n = input.unicode_len();
    if n == 0 {
        return input;
    }
    let c0 = input.get_char(0);
    if c0 == '#' {
        let tail = input.substring_char(1, n);
        proof {
            assert(tail@ =~= input@.skip(1));
        }
        match take_rest_of_line(tail) {
            Ok((rest, _line)) => {
                proof {
                    lemma_line_split_len(tail@);
                }
                scrub_input(rest)
            },
            Err(_) => input,
        }
    } else if c0 == '\n' {
        let tail = input.substring_char(1, n);
        proof {
            assert(tail@ =~= input@.skip(1));
        }
        scrub_input(tail)
    } else if c0 == '\r' && n >= 2 && input.get_char(1) == '\n' {
        let tail = input.substring_char(2, n);
        proof {
            assert(tail@ =~= input@.skip(2));
        }
        scrub_input(tail)
    } else {
        input
    }
}

// ---- spaces ----------------------------------------------------------------

/// Length of the run of spaces and tabs at the front.
pub open spec fn space_run_len(s: Seq<char>) -> int
    decreases s.len(),
{
    if s.len() > 0 && is_space_char(s[0]) {
        1 + space_run_len(s.skip(1))
    } else {
        0
    }
}

pub proof fn lemma_space_run_len(s: Seq<char>)
    ensures
        0 <= space_run_len(s) <= s.len(),
    decreases s.len(),
{
    if s.len() > 0 && is_space_char(s[0]) {
        lemma_space_run_len(s.skip(1));
    }
}

/// One or more spaces or tabs, consumed greedily.
pub open spec fn spec_space1(s: Seq<char>) -> Option<Seq<char>> {
    if s.len() > 0 && is_space_char(s[0]) {
        Some(s.skip(space_run_len(s)))
    } else {
        None
    }
}

/// Consume one or more spaces or tabs.
pub fn take_space1(input: &str) -> (r: Result<&str, IdsParseError>)
    ensures
        match r {
            Ok(rest) => spec_space1(input@) == Some(rest@),
            Err(e) => spec_space1(input@) is None && e == IdsParseError::Unexpected,
        },
{
    let n = input.unicode_len();
    if n == 0 {
        return Err(IdsParseError::Unexpected);
    }
    let c0 = input.get_char(0);
    if !(c0 == ' ' || c0 == '\t') {
        return Err(IdsParseError::Unexpected);
    }
    let mut i: usize = 1;
    proof {
        lemma_space_run_len(input@);
    }
    while i < n && (input.get_char(i) == ' ' || input.get_char(i) == '\t')
        invariant
            1 <= i <= n,
            n == input@.len(),
            forall|k: int| 0 <= k < i ==> is_space_char(#[trigger] input@[k]),
            0 <= space_run_len(input@) <= n,
        decreases n - i,
    {
        i = i + 1;
    }
    proof {
        lemma_space_run_prefix(input@, i as int);
    }
    let rest = input.substring_char(i, n);
    proof {
        assert(rest@ =~= input@.skip(i as int));
    }
    Ok(rest)
}

/// If the first `i` characters are spaces and the `i`-th is not (or the
/// sequence ends there), the space run is exactly `i`.
proof fn lemma_space_run_prefix(s: Seq<char>, i: int)
    requires
        0 <= i <= s.len(),
        forall|k: int| 0 <= k < i ==> is_space_char(#[trigger] s[k]),
        i < s.len() ==> !is_space_char(s[i]),
    ensures
        space_run_len(s) == i,
    decreases i,
{
    if i == 0 {
        if s.len() > 0 {
            assert(!is_space_char(s[0]));
        }
    } else {
        assert(is_space_char(s[0]));
        assert(forall|k: int| 0 <= k < i - 1 ==> s.skip(1)[k] == s[k + 1]);
        assert(i - 1 < s.skip(1).len() ==> s.skip(1)[i - 1] == s[i]);
        lemma_space_run_prefix(s.skip(1), i - 1);
    }
}

// ---- hexadecimal tokens -----------------------------------------------------

/// An exact-width two-digit hexadecimal token: a third digit is a width
/// error.
pub open spec fn spec_hex_u8(s: Seq<char>) -> Option<(Seq<char>, u8)> {
    if s.len() >= 2 && is_hex_digit_char(s[0]) && is_hex_digit_char(s[1]) && !(s.len() >= 3
        && is_hex_digit_char(s[2])) {
        Some((s.skip(2), (hex_digit_val(s[0]) * 16 + hex_digit_val(s[1])) as u8))
    } else {
        None
    }
}

/// An exact-width four-digit hexadecimal token: a fifth digit is a width
/// error.
pub open spec fn spec_hex_u16(s: Seq<char>) -> Option<(Seq<char>, u16)> {
    if s.len() >= 4 && is_hex_digit_char(s[0]) && is_hex_digit_char(s[1]) && is_hex_digit_char(
        s[2],
    ) && is_hex_digit_char(s[3]) && !(s.len() >= 5 && is_hex_digit_char(s[4])) {
        Some(
            (
                s.skip(4),
                (((hex_digit_val(s[0]) * 16 + hex_digit_val(s[1])) * 16 + hex_digit_val(s[2]))
                    * 16 + hex_digit_val(s[3])) as u16,
            ),
        )
    } else {
        None
    }
}

/// Read an exactly-two-digit hexadecimal token.
pub fn take_u8_from_hex(input: &str) -> (r: Result<(&str, u8), IdsParseError>)
    ensures
        match r {
            Ok((rest, v)) => spec_hex_u8(input@) == Some((rest@, v)),
            Err(e) => spec_hex_u8(input@) is None && e == IdsParseError::HexWidth,
        },
{
    let n = input.unicode_len();
    if n < 2 {
        return Err(IdsParseError::HexWidth);
    }
    let d0 = match hex_digit_value(input.get_char(0)) {
        Some(d) => d,
        None => {
            return Err(IdsParseError::HexWidth);
        },
    };
    let d1 = match hex_digit_value(input.get_char(1)) {
        Some(d) => d,
        None => {
            return Err(IdsParseError::HexWidth);
        },
    };
    if n >= 3 && hex_digit_value(input.get_char(2)).is_some() {
        return Err(IdsParseError::HexWidth);
    }
    let rest = input.substring_char(2, n);
    proof {
        assert(rest@ =~= input@.skip(2));
    }
    Ok((rest, d0 * 16 + d1))
}

/// Read an exactly-four-digit hexadecimal token.
pub fn take_u16_from_hex(input: &str) -> (r: Result<(&str, u16), IdsParseError>)
    ensures
        match r {
            Ok((rest, v)) => spec_hex_u16(input@) == Some((rest@, v)),
            Err(e) => spec_hex_u16(input@) is None && e == IdsParseError::HexWidth,
        },
{
    let n = input.unicode_len();
    if n < 4 {
        return Err(IdsParseError::HexWidth);
    }
    let d0 = match hex_digit_value(input.get_char(0)) {
        Some(d) => d,
        None => {
            return Err(IdsParseError::HexWidth);
        },
    };
    let d1 = match hex_digit_value(input.get_char(1)) {
        Some(d) => d,
        None => {
            return Err(IdsParseError::HexWidth);
        },
    };
    let d2 = match hex_digit_value(input.get_char(2)) {
        Some(d) => d,
        None => {
            return Err(IdsParseError::HexWidth);
        },
    };
    let d3 = match hex_digit_value(input.get_char(3)) {
        Some(d) => d,
        None => {
            return Err(IdsParseError::HexWidth);
        },
    };
    if n >= 5 && hex_digit_value(input.get_char(4)).is_some() {
        return Err(IdsParseError::HexWidth);
    }
    let rest = input.substring_char(4, n);
    proof {
        assert(rest@ =~= input@.skip(4));
    }
    Ok((rest, ((d0 as u16 * 16 + d1 as u16) * 16 + d2 as u16) * 16 + d3 as u16))
}


// ---- the tree --------------------------------------------------------------

#[derive(Debug, Clone, PartialEq, Eq)]
pub struct ProgIf {
    pub id: u8,
    pub name: String,
}

pub struct ProgIfView {
    pub id: u8,
    pub name: Seq<char>,
}

impl View for ProgIf {
    type V = ProgIfView;

    open spec fn view(&self) -> ProgIfView {
        ProgIfView { id: self.id, name: self.name@ }
    }
}

impl DeepView for ProgIf {
    type V = ProgIfView;

    open spec fn deep_view(&self) -> ProgIfView {
        self.view()
    }
}

#[derive(Debug, Clone, PartialEq, Eq)]
pub struct SubClass {
    pub id: u8,
    pub name: String,
    pub prog_ifs: Vec<ProgIf>,
}

pub struct SubClassView {
    pub id: u8,
    pub name: Seq<char>,
    pub prog_ifs: Seq<ProgIfView>,
}

impl View for SubClass {
    type V = SubClassView;

    open spec fn view(&self) -> SubClassView {
        SubClassView { id: self.id, name: self.name@, prog_ifs: self.prog_ifs.deep_view() }
    }
}

impl DeepView for SubClass {
    type V = SubClassView;

    open spec fn deep_view(&self) -> SubClassView {
        self.view()
    }
}

#[derive(Debug, Clone, PartialEq, Eq)]
pub struct Class {
    pub id: u8,
    pub name: String,
    pub subclasses: Vec<SubClass>,
}

pub struct ClassView {
    pub id: u8,
    pub name: Seq<char>,
    pub subclasses: Seq<SubClassView>,
}

impl View for Class {
    type V = ClassView;

    open spec fn view(&self) -> ClassView {
        ClassView { id: self.id, name: self.name@, subclasses: self.subclasses.deep_view() }
    }
}

impl DeepView for Class {
    type V = ClassView;

    open spec fn deep_view(&self) -> ClassView {
        self.view()
    }
}

#[derive(Debug, Clone, PartialEq, Eq)]
pub struct Subsystem {
    pub subvendor_id: u16,
    pub subdevice_id: u16,
    pub name: String,
}

pub struct SubsystemView {
    pub subvendor_id: u16,
    pub subdevice_id: u16,
    pub name: Seq<char>,
}

impl View for Subsystem {
    type V = SubsystemView;

    open spec fn view(&self) -> SubsystemView {
        SubsystemView {
            subvendor_id: self.subvendor_id,
            subdevice_id: self.subdevice_id,
            name: self.name@,
        }
    }
}

impl DeepView for Subsystem {
    type V = SubsystemView;

    open spec fn deep_view(&self) -> SubsystemView {
        self.view()
    }
}

#[derive(Debug, Clone, PartialEq, Eq)]
pub struct Device {
    pub id: u16,
    pub name: String,
    pub subsystems: Vec<Subsystem>,
}

pub struct DeviceView {
    pub id: u16,
    pub name: Seq<char>,
    pub subsystems: Seq<SubsystemView>,
}

impl View for Device {
    type V = DeviceView;

    open spec fn view(&self) -> DeviceView {
        DeviceView { id: self.id, name: self.name@, subsystems: self.subsystems.deep_view() }
    }
}

impl DeepView for Device {
    type V = DeviceView;

    open spec fn deep_view(&self) -> DeviceView {
        self.view()
    }
}

#[derive(Debug, Clone, PartialEq, Eq)]
pub struct Vendor {
    pub id: u16,
    pub name: String,
    pub devices: Vec<Device>,
}

pub struct VendorView {
    pub id: u16,
    pub name: Seq<char>,
    pub devices: Seq<DeviceView>,
}

impl View for Vendor {
    type V = VendorView;

    open spec fn view(&self) -> VendorView {
        VendorView { id: self.id, name: self.name@, devices: self.devices.deep_view() }
    }
}

impl DeepView for Vendor {
    type V = VendorView;

    open spec fn deep_view(&self) -> VendorView {
        self.view()
    }
}

#[derive(Debug, Clone, PartialEq, Eq)]
pub struct PciIds {
    pub classes: Vec<Class>,
    pub vendors: Vec<Vendor>,
}

pub struct PciIdsView {
    pub classes: Seq<ClassView>,
    pub vendors: Seq<VendorView>,
}

impl View for PciIds {
    type V = PciIdsView;

    open spec fn view(&self) -> PciIdsView {
        PciIdsView { classes: self.classes.deep_view(), vendors: self.vendors.deep_view() }
    }
}

// ---- the records ------------------------------------------------------------

/// A programming-interface line: two tabs, a two-digit id, spaces, a name.
pub open spec fn spec_parse_prog_if(s: Seq<char>) -> Option<(Seq<char>, ProgIfView)> {
    let s1 = spec_scrub(s);
    if s1.len() >= 2 && s1[0] == '\t' && s1[1] == '\t' {
        match spec_hex_u8(s1.skip(2)) {
            Some((s2, id)) => match spec_space1(s2) {
                Some(s3) => match spec_line_split(s3) {
                    Some(r) => Some((r.0, ProgIfView { id, name: r.1 })),
                    None => None,
                },
                None => None,
            },
            None => None,
        }
    } else {
        None
    }
}

pub proof fn lemma_parse_prog_if_len(s: Seq<char>)
    ensures
        spec_parse_prog_if(s) matches Some(r) ==> r.0.len() < s.len(),
{
    lemma_scrub_len(s);
    let s1 = spec_scrub(s);
    if s1.len() >= 2 && s1[0] == '\t' && s1[1] == '\t' {
        if let Some((s2, _id)) = spec_hex_u8(s1.skip(2)) {
            if let Some(s3) = spec_space1(s2) {
                lemma_space_run_len(s2);
                lemma_line_split_len(s3);
            }
        }
    }
}

/// The lines of programming interfaces under one subclass, in file order.
pub open spec fn spec_parse_prog_ifs(s: Seq<char>) -> (Seq<char>, Seq<ProgIfView>)
    decreases s.len(),
{
    match spec_parse_prog_if(s) {
        Some(r) => if r.0.len() < s.len() {
            let rec = spec_parse_prog_ifs(r.0);
            (rec.0, seq![r.1] + rec.1)
        } else {
            (r.0, seq![r.1])
        },
        None => (s, Seq::<ProgIfView>::empty()),
    }
}

pub proof fn lemma_parse_prog_ifs_len(s: Seq<char>)
    ensures
        spec_parse_prog_ifs(s).0.len() <= s.len(),
    decreases s.len(),
{
    lemma_parse_prog_if_len(s);
    if let Some(r) = spec_parse_prog_if(s) {
        if r.0.len() < s.len() {
            lemma_parse_prog_ifs_len(r.0);
        }
    }
}

impl ProgIf {
    /// Parse one programming-interface record.
    pub fn parse(input: &str) -> (r: Result<(&str, ProgIf), IdsParseError>)
        ensures
            match r {
                Ok((rest, p)) => spec_parse_prog_if(input@) == Some((rest@, p@)),
                Err(e) => spec_parse_prog_if(input@) is None && (e == IdsParseError::HexWidth || e
                    == IdsParseError::Unexpected),
            },
    {
        let s1 = scrub_input(input);
        let n1 = s1.unicode_len();
        if !(n1 >= 2 && s1.get_char(0) == '\t' && s1.get_char(1) == '\t') {
            return Err(IdsParseError::Unexpected);
        }
        let s1b = s1.substring_char(2, n1);
        proof {
            assert(s1b@ =~= s1@.skip(2));
        }
        let (s2, id) = match take_u8_from_hex(s1b) {
            Ok(x) => x,
            Err(e) => {
                return Err(e);
            },
        };
        let s3 = match take_space1(s2) {
            Ok(x) => x,
            Err(e) => {
                return Err(e);
            },
        };
        let (rest, name) = match take_rest_of_line(s3) {
            Ok(x) => x,
            Err(e) => {
                return Err(e);
            },
        };
        Ok((rest, ProgIf { id, name: name.to_owned() }))
    }
}

fn parse_prog_ifs(input: &str) -> (r: (&str, Vec<ProgIf>))
    ensures
        r.0@ == spec_parse_prog_ifs(input@).0,
        r.1.deep_view() == spec_parse_prog_ifs(input@).1,
    decreases input@.len(),
{
    match ProgIf::parse(input) {
        Ok((rest, p)) => {
            proof {
                lemma_parse_prog_if_len(input@);
            }
            let (r2, mut ps) = parse_prog_ifs(rest);
            let ghost old_dv = ps.deep_view();
            ps.insert(0, p);
            proof {
                assert(ps.deep_view() =~= seq![p@] + old_dv);
            }
            (r2, ps)
        },
        Err(_) => (input, Vec::new()),
    }
}

/// A subclass line: one tab, a two-digit id, spaces, a name, then its
/// programming interfaces.
pub open spec fn spec_parse_sub_class(s: Seq<char>) -> Option<(Seq<char>, SubClassView)> {
    let s1 = spec_scrub(s);
    if s1.len() >= 1 && s1[0] == '\t' {
        match spec_hex_u8(s1.skip(1)) {
            Some((s2, id)) => match spec_space1(s2) {
                Some(s3) => match spec_line_split(s3) {
                    Some(r) => {
                        let rec = spec_parse_prog_ifs(r.0);
                        Some((rec.0, SubClassView { id, name: r.1, prog_ifs: rec.1 }))
                    },
                    None => None,
                },
                None => None,
            },
            None => None,
        }
    } else {
        None
    }
}

pub proof fn lemma_parse_sub_class_len(s: Seq<char>)
    ensures
        spec_parse_sub_class(s) matches Some(r) ==> r.0.len() < s.len(),
{
    lemma_scrub_len(s);
    let s1 = spec_scrub(s);
    if s1.len() >= 1 && s1[0] == '\t' {
        if let Some((s2, _id)) = spec_hex_u8(s1.skip(1)) {
            if let Some(s3) = spec_space1(s2) {
                lemma_space_run_len(s2);
                lemma_line_split_len(s3);
                if let Some(r) = spec_line_split(s3) {
                    lemma_parse_prog_ifs_len(r.0);
                }
            }
        }
    }
}

/// The subclass lines under one class, in file order.
pub open spec fn spec_parse_sub_classes(s: Seq<char>) -> (Seq<char>, Seq<SubClassView>)
    decreases s.len(),
{
    match spec_parse_sub_class(s) {
        Some(r) => if r.0.len() < s.len() {
            let rec = spec_parse_sub_classes(r.0);
            (rec.0, seq![r.1] + rec.1)
        } else {
            (r.0, seq![r.1])
        },
        None => (s, Seq::<SubClassView>::empty()),
    }
}

pub proof fn lemma_parse_sub_classes_len(s: Seq<char>)
    ensures
        spec_parse_sub_classes(s).0.len() <= s.len(),
    decreases s.len(),
{
    lemma_parse_sub_class_len(s);
    if let Some(r) = spec_parse_sub_class(s) {
        if r.0.len() < s.len() {
            lemma_parse_sub_classes_len(r.0);
        }
    }
}

impl SubClass {
    /// Parse one subclass record and everything nested under it.
    pub fn parse(input: &str) -> (r: Result<(&str, SubClass), IdsParseError>)
        ensures
            match r {
                Ok((rest, p)) => spec_parse_sub_class(input@) == Some((rest@, p@)),
                Err(e) => spec_parse_sub_class(input@) is None && (e == IdsParseError::HexWidth || e
                    == IdsParseError::Unexpected),
            },
    {
        let s1 = scrub_input(input);
        let n1 = s1.unicode_len();
        if !(n1 >= 1 && s1.get_char(0) == '\t') {
            return Err(IdsParseError::Unexpected);
        }
        let s1b = s1.substring_char(1, n1);
        proof {
            assert(s1b@ =~= s1@.skip(1));
        }
        let (s2, id) = match take_u8_from_hex(s1b) {
            Ok(x) => x,
            Err(e) => {
                return Err(e);
            },
        };
        let s3 = match take_space1(s2) {
            Ok(x) => x,
            Err(e) => {
                return Err(e);
            },
        };
        let (after_line, name) = match take_rest_of_line(s3) {
            Ok(x) => x,
            Err(e) => {
                return Err(e);
            },
        };
        let (rest, prog_ifs) = parse_prog_ifs(after_line);
        Ok((rest, SubClass { id, name: name.to_owned(), prog_ifs }))
    }
}

fn parse_sub_classes(input: &str) -> (r: (&str, Vec<SubClass>))
    ensures
        r.0@ == spec_parse_sub_classes(input@).0,
        r.1.deep_view() == spec_parse_sub_classes(input@).1,
    decreases input@.len(),
{
    match SubClass::parse(input) {
        Ok((rest, p)) => {
            proof {
                lemma_parse_sub_class_len(input@);
            }
            let (r2, mut ps) = parse_sub_classes(rest);
            let ghost old_dv = ps.deep_view();
            ps.insert(0, p);
            proof {
                assert(ps.deep_view() =~= seq![p@] + old_dv);
            }
            (r2, ps)
        },
        Err(_) => (input, Vec::new()),
    }
}

/// A class line: `C`, spaces, a two-digit id, spaces, a name, then its
/// subclasses.
pub open spec fn spec_parse_class(s: Seq<char>) -> Option<(Seq<char>, ClassView)> {
    let s1 = spec_scrub(s);
    if s1.len() >= 1 && s1[0] == 'C' {
        match spec_space1(s1.skip(1)) {
            Some(s2) => match spec_hex_u8(s2) {
                Some((s3, id)) => match spec_space1(s3) {
                    Some(s4) => match spec_line_split(s4) {
                        Some(r) => {
                            let rec = spec_parse_sub_classes(r.0);
                            Some((rec.0, ClassView { id, name: r.1, subclasses: rec.1 }))
                        },
                        None => None,
                    },
                    None => None,
                },
                None => None,
            },
            None => None,
        }
    } else {
        None
    }
}

pub proof fn lemma_parse_class_len(s: Seq<char>)
    ensures
        spec_parse_class(s) matches Some(r) ==> r.0.len() < s.len(),
{
    lemma_scrub_len(s);
    let s1 = spec_scrub(s);
    if s1.len() >= 1 && s1[0] == 'C' {
        if let Some(s2) = spec_space1(s1.skip(1)) {
            lemma_space_run_len(s1.skip(1));
            if let Some((s3, _id)) = spec_hex_u8(s2) {
                if let Some(s4) = spec_space1(s3) {
                    lemma_space_run_len(s3);
                    lemma_line_split_len(s4);
                    if let Some(r) = spec_line_split(s4) {
                        lemma_parse_sub_classes_len(r.0);
                    }
                }
            }
        }
    }
}

/// The class records of the file, in file order.
pub open spec fn spec_parse_classes(s: Seq<char>) -> (Seq<char>, Seq<ClassView>)
    decreases s.len(),
{
    match spec_parse_class(s) {
        Some(r) => if r.0.len() < s.len() {
            let rec = spec_parse_classes(r.0);
            (rec.0, seq![r.1] + rec.1)
        } else {
            (r.0, seq![r.1])
        },
        None => (s, Seq::<ClassView>::empty()),
    }
}

impl Class {
    /// Parse one class record and everything nested under it.
    pub fn parse(input: &str) -> (r: Result<(&str, Class), IdsParseError>)
        ensures
            match r {
                Ok((rest, p)) => spec_parse_class(input@) == Some((rest@, p@)),
                Err(e) => spec_parse_class(input@) is None && (e == IdsParseError::HexWidth || e
                    == IdsParseError::Unexpected),
            },
    {
        let s1 = scrub_input(input);
        let n1 = s1.unicode_len();
        if !(n1 >= 1 && s1.get_char(0) == 'C') {
            return Err(IdsParseError::Unexpected);
        }
        let s1b = s1.substring_char(1, n1);
        proof {
            assert(s1b@ =~= s1@.skip(1));
        }
        let s2 = match take_space1(s1b) {
            Ok(x) => x,
            Err(e) => {
                return Err(e);
            },
        };
        let (s3, id) = match take_u8_from_hex(s2) {
            Ok(x) => x,
            Err(e) => {
                return Err(e);
            },
        };
        let s4 = match take_space1(s3) {
            Ok(x) => x,
            Err(e) => {
                return Err(e);
            },
        };
        let (after_line, name) = match take_rest_of_line(s4) {
            Ok(x) => x,
            Err(e) => {
                return Err(e);
            },
        };
        let (rest, subclasses) = parse_sub_classes(after_line);
        Ok((rest, Class { id, name: name.to_owned(), subclasses }))
    }
}

/// A subsystem line: two tabs, two four-digit ids, spaces, a name.
pub open spec fn spec_parse_subsystem(s: Seq<char>) -> Option<(Seq<char>, SubsystemView)> {
    let s1 = spec_scrub(s);
    if s1.len() >= 2 && s1[0] == '\t' && s1[1] == '\t' {
        match spec_hex_u16(s1.skip(2)) {
            Some((s2, subvendor_id)) => match spec_space1(s2) {
                Some(s3) => match spec_hex_u16(s3) {
                    Some((s4, subdevice_id)) => match spec_space1(s4) {
                        Some(s5) => match spec_line_split(s5) {
                            Some(r) => Some(
                                (r.0, SubsystemView { subvendor_id, subdevice_id, name: r.1 }),
                            ),
                            None => None,
                        },
                        None => None,
                    },
                    None => None,
                },
                None => None,
            },
            None => None,
        }
    } else {
        None
    }
}

pub proof fn lemma_parse_subsystem_len(s: Seq<char>)
    ensures
        spec_parse_subsystem(s) matches Some(r) ==> r.0.len() < s.len(),
{
    lemma_scrub_len(s);
    let s1 = spec_scrub(s);
    if s1.len() >= 2 && s1[0] == '\t' && s1[1] == '\t' {
        if let Some((s2, _a)) = spec_hex_u16(s1.skip(2)) {
            if let Some(s3) = spec_space1(s2) {
                lemma_space_run_len(s2);
                if let Some((s4, _b)) = spec_hex_u16(s3) {
                    if let Some(s5) = spec_space1(s4) {
                        lemma_space_run_len(s4);
                        lemma_line_split_len(s5);
                    }
                }
            }
        }
    }
}

/// The subsystem lines under one device, in file order.
pub open spec fn spec_parse_subsystems(s: Seq<char>) -> (Seq<char>, Seq<SubsystemView>)
    decreases s.len(),
{
    match spec_parse_subsystem(s) {
        Some(r) => if r.0.len() < s.len() {
            let rec = spec_parse_subsystems(r.0);
            (rec.0, seq![r.1] + rec.1)
        } else {
            (r.0, seq![r.1])
        },
        None => (s, Seq::<SubsystemView>::empty()),
    }
}

pub proof fn lemma_parse_subsystems_len(s: Seq<char>)
    ensures
        spec_parse_subsystems(s).0.len() <= s.len(),
    decreases s.len(),
{
    lemma_parse_subsystem_len(s);
    if let Some(r) = spec_parse_subsystem(s) {
        if r.0.len() < s.len() {
            lemma_parse_subsystems_len(r.0);
        }
    }
}

impl Subsystem {
    /// Parse one subsystem record.
    pub fn parse(input: &str) -> (r: Result<(&str, Subsystem), IdsParseError>)
        ensures
            match r {
                Ok((rest, p)) => spec_parse_subsystem(input@) == Some((rest@, p@)),
                Err(e) => spec_parse_subsystem(input@) is None && (e == IdsParseError::HexWidth || e
                    == IdsParseError::Unexpected),
            },
    {
        let s1 = scrub_input(input);
        let n1 = s1.unicode_len();
        if !(n1 >= 2 && s1.get_char(0) == '\t' && s1.get_char(1) == '\t') {
            return Err(IdsParseError::Unexpected);
        }
        let s1b = s1.substring_char(2, n1);
        proof {
            assert(s1b@ =~= s1@.skip(2));
        }
        let (s2, subvendor_id) = match take_u16_from_hex(s1b) {
            Ok(x) => x,
            Err(e) => {
                return Err(e);
            },
        };
        let s3 = match take_space1(s2) {
            Ok(x) => x,
            Err(e) => {
                return Err(e);
            },
        };
        let (s4, subdevice_id) = match take_u16_from_hex(s3) {
            Ok(x) => x,
            Err(e) => {
                return Err(e);
            },
        };
        let s5 = match take_space1(s4) {
            Ok(x) => x,
            Err(e) => {
                return Err(e);
            },
        };
        let (rest, name) = match take_rest_of_line(s5) {
            Ok(x) => x,
            Err(e) => {
                return Err(e);
            },
        };
        Ok((rest, Subsystem { subvendor_id, subdevice_id, name: name.to_owned() }))
    }
}

fn parse_subsystems(input: &str) -> (r: (&str, Vec<Subsystem>))
    ensures
        r.0@ == spec_parse_subsystems(input@).0,
        r.1.deep_view() == spec_parse_subsystems(input@).1,
    decreases input@.len(),
{
    match Subsystem::parse(input) {
        Ok((rest, p)) => {
            proof {
                lemma_parse_subsystem_len(input@);
            }
            let (r2, mut ps) = parse_subsystems(rest);
            let ghost old_dv = ps.deep_view();
            ps.insert(0, p);
            proof {
                assert(ps.deep_view() =~= seq![p@] + old_dv);
            }
            (r2, ps)
        },
        Err(_) => (input, Vec::new()),
    }
}

/// A device line: one tab, a four-digit id, spaces, a name, then its
/// subsystems.
pub open spec fn spec_parse_device(s: Seq<char>) -> Option<(Seq<char>, DeviceView)> {
    let s1 = spec_scrub(s);
    if s1.len() >= 1 && s1[0] == '\t' {
        match spec_hex_u16(s1.skip(1)) {
            Some((s2, id)) => match spec_space1(s2) {
                Some(s3) => match spec_line_split(s3) {
                    Some(r) => {
                        let rec = spec_parse_subsystems(r.0);
                        Some((rec.0, DeviceView { id, name: r.1, subsystems: rec.1 }))
                    },
                    None => None,
                },
                None => None,
            },
            None => None,
        }
    } else {
        None
    }
}

pub proof fn lemma_parse_device_len(s: Seq<char>)
    ensures
        spec_parse_device(s) matches Some(r) ==> r.0.len() < s.len(),
{
    lemma_scrub_len(s);
    let s1 = spec_scrub(s);
    if s1.len() >= 1 && s1[0] == '\t' {
        if let Some((s2, _id)) = spec_hex_u16(s1.skip(1)) {
            if let Some(s3) = spec_space1(s2) {
                lemma_space_run_len(s2);
                lemma_line_split_len(s3);
                if let Some(r) = spec_line_split(s3) {
                    lemma_parse_subsystems_len(r.0);
                }
            }
        }
    }
}

/// The device lines under one vendor, in file order.
pub open spec fn spec_parse_devices(s: Seq<char>) -> (Seq<char>, Seq<DeviceView>)
    decreases s.len(),
{
    match spec_parse_device(s) {
        Some(r) => if r.0.len() < s.len() {
            let rec = spec_parse_devices(r.0);
            (rec.0, seq![r.1] + rec.1)
        } else {
            (r.0, seq![r.1])
        },
        None => (s, Seq::<DeviceView>::empty()),
    }
}

pub proof fn lemma_parse_devices_len(s: Seq<char>)
    ensures
        spec_parse_devices(s).0.len() <= s.len(),
    decreases s.len(),
{
    lemma_parse_device_len(s);
    if let Some(r) = spec_parse_device(s) {
        if r.0.len() < s.len() {
            lemma_parse_devices_len(r.0);
        }
    }
}

impl Device {
    /// Parse one device record and everything nested under it.
    pub fn parse(input: &str) -> (r: Result<(&str, Device), IdsParseError>)
        ensures
            match r {
                Ok((rest, p)) => spec_parse_device(input@) == Some((rest@, p@)),
                Err(e) => spec_parse_device(input@) is None && (e == IdsParseError::HexWidth || e
                    == IdsParseError::Unexpected),
            },
    {
        let s1 = scrub_input(input);
        let n1 = s1.unicode_len();
        if !(n1 >= 1 && s1.get_char(0) == '\t') {
            return Err(IdsParseError::Unexpected);
        }
        let s1b = s1.substring_char(1, n1);
        proof {
            assert(s1b@ =~= s1@.skip(1));
        }
        let (s2, id) = match take_u16_from_hex(s1b) {
            Ok(x) => x,
            Err(e) => {
                return Err(e);
            },
        };
        let s3 = match take_space1(s2) {
            Ok(x) => x,
            Err(e) => {
                return Err(e);
            },
        };
        let (after_line, name) = match take_rest_of_line(s3) {
            Ok(x) => x,
            Err(e) => {
                return Err(e);
            },
        };
        let (rest, subsystems) = parse_subsystems(after_line);
        Ok((rest, Device { id, name: name.to_owned(), subsystems }))
    }
}

fn parse_devices(input: &str) -> (r: (&str, Vec<Device>))
    ensures
        r.0@ == spec_parse_devices(input@).0,
        r.1.deep_view() == spec_parse_devices(input@).1,
    decreases input@.len(),
{
    match Device::parse(input) {
        Ok((rest, p)) => {
            proof {
                lemma_parse_device_len(input@);
            }
            let (r2, mut ps) = parse_devices(rest);
            let ghost old_dv = ps.deep_view();
            ps.insert(0, p);
            proof {
                assert(ps.deep_view() =~= seq![p@] + old_dv);
            }
            (r2, ps)
        },
        Err(_) => (input, Vec::new()),
    }
}

/// A vendor line: a four-digit id at the left margin, spaces, a name, then
/// its devices.
pub open spec fn spec_parse_vendor(s: Seq<char>) -> Option<(Seq<char>, VendorView)> {
    let s1 = spec_scrub(s);
    match spec_hex_u16(s1) {
        Some((s2, id)) => match spec_space1(s2) {
            Some(s3) => match spec_line_split(s3) {
                Some(r) => {
                    let rec = spec_parse_devices(r.0);
                    Some((rec.0, VendorView { id, name: r.1, devices: rec.1 }))
                },
                None => None,
            },
            None => None,
        },
        None => None,
    }
}

pub proof fn lemma_parse_vendor_len(s: Seq<char>)
    ensures
        spec_parse_vendor(s) matches Some(r) ==> r.0.len() < s.len(),
{
    lemma_scrub_len(s);
    let s1 = spec_scrub(s);
    if let Some((s2, _id)) = spec_hex_u16(s1) {
        if let Some(s3) = spec_space1(s2) {
            lemma_space_run_len(s2);
            lemma_line_split_len(s3);
            if let Some(r) = spec_line_split(s3) {
                lemma_parse_devices_len(r.0);
            }
        }
    }
}

/// The vendor records of the file, in file order.
pub open spec fn spec_parse_vendors(s: Seq<char>) -> (Seq<char>, Seq<VendorView>)
    decreases s.len(),
{
    match spec_parse_vendor(s) {
        Some(r) => if r.0.len() < s.len() {
            let rec = spec_parse_vendors(r.0);
            (rec.0, seq![r.1] + rec.1)
        } else {
            (r.0, seq![r.1])
        },
        None => (s, Seq::<VendorView>::empty()),
    }
}

impl Vendor {
    /// Parse one vendor record and everything nested under it.
    pub fn parse(input: &str) -> (r: Result<(&str, Vendor), IdsParseError>)
        ensures
            match r {
                Ok((rest, p)) => spec_parse_vendor(input@) == Some((rest@, p@)),
                Err(e) => spec_parse_vendor(input@) is None && (e == IdsParseError::HexWidth || e
                    == IdsParseError::Unexpected),
            },
    {
        let s1 = scrub_input(input);
        let (s2, id) = match take_u16_from_hex(s1) {
            Ok(x) => x,
            Err(e) => {
                return Err(e);
            },
        };
        let s3 = match take_space1(s2) {
            Ok(x) => x,
            Err(e) => {
                return Err(e);
            },
        };
        let (after_line, name) = match take_rest_of_line(s3) {
            Ok(x) => x,
            Err(e) => {
                return Err(e);
            },
        };
        let (rest, devices) = parse_devices(after_line);
        Ok((rest, Vendor { id, name: name.to_owned(), devices }))
    }
}

fn parse_vendors(input: &str) -> (r: (&str, Vec<Vendor>))
    ensures
        r.0@ == spec_parse_vendors(input@).0,
        r.1.deep_view() == spec_parse_vendors(input@).1,
    decreases input@.len(),
{
    match Vendor::parse(input) {
        Ok((rest, p)) => {
            proof {
                lemma_parse_vendor_len(input@);
            }
            let (r2, mut ps) = parse_vendors(rest);
            let ghost old_dv = ps.deep_view();
            ps.insert(0, p);
            proof {
                assert(ps.deep_view() =~= seq![p@] + old_dv);
            }
            (r2, ps)
        },
        Err(_) => (input, Vec::new()),
    }
}

/// The whole file: the vendor records, then the class records, and nothing
/// after them.
pub open spec fn spec_parse_pci_ids(s: Seq<char>) -> (Seq<char>, PciIdsView) {
    let vendors = spec_parse_vendors(s);
    let classes = spec_parse_classes(vendors.0);
    (classes.0, PciIdsView { classes: classes.1, vendors: vendors.1 })
}

impl PciIds {
    /// Parse a complete `pci.ids` file.  The whole input must be consumed:
    /// any residue after the vendor and class lists is an error.
    pub fn parse(input: &str) -> (r: Result<PciIds, IdsParseError>)
        ensures
            match r {
                Ok(ids) => spec_parse_pci_ids(input@).0.len() == 0 && ids@ == spec_parse_pci_ids(
                    input@,
                ).1,
                Err(e) => spec_parse_pci_ids(input@).0.len() != 0 && e
                    == IdsParseError::Unexpected,
            },
    {
        let (r1, vendors) = parse_vendors(input);
        let (r2, classes) = parse_classes(r1);
        if r2.unicode_len() == 0 {
            proof {
                assert(r2@ =~= spec_parse_pci_ids(input@).0);
            }
            Ok(PciIds { classes, vendors })
        } else {
            Err(IdsParseError::Unexpected)
        }
    }
}

fn parse_classes(input: &str) -> (r: (&str, Vec<Class>))
    ensures
        r.0@ == spec_parse_classes(input@).0,
        r.1.deep_view() == spec_parse_classes(input@).1,
    decreases input@.len(),
{
    match Class::parse(input) {
        Ok((rest, p)) => {
            proof {
                lemma_parse_class_len(input@);
            }
            let (r2, mut ps) = parse_classes(rest);
            let ghost old_dv = ps.deep_view();
            ps.insert(0, p);
            proof {
                assert(ps.deep_view() =~= seq![p@] + old_dv);
            }
            (r2, ps)
        },
        Err(_) => (input, Vec::new()),
    }
}


} // verus!
