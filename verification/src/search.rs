//! A unified search over the parsed `pci.ids` tree: a query string becomes
//! a set of terms, and every class, subclass, programming interface,
//! vendor, device and subsystem whose name or identifiers satisfy the
//! terms is reported, in tree order.

use vstd::prelude::*;
use crate::digits::{
    dec_seq_val, dec_token_digits, hex_seq_val, hex_token_digits, is_dec_token,
    is_hex_radix_token, parse_dec_u32, parse_hex_radix_u16,
};
use crate::ids::{
    Class, ClassView, Device, DeviceView, PciIds, ProgIf, ProgIfView, SubClass, SubClassView,
    Subsystem, SubsystemView, Vendor, VendorView,
};

verus! {

/// The Unicode lowercase mapping of a text, as `str::to_lowercase` yields
/// it.
pub uninterp spec fn lower_of(s: Seq<char>) -> Seq<char>;

/// Relies on `str::to_lowercase`: the Unicode lowercase mapping of the
/// text, a function of the characters alone.
#[verifier::external_body]
fn lowercase(s: &str) -> (r: String)
    ensures
        r@ == lower_of(s@),
{
    s.to_lowercase()
}

/// The Unicode white-space property of a character, as
/// `char::is_whitespace` reports it.
pub uninterp spec fn unicode_whitespace(c: char) -> bool;

/// Relies on `char::is_whitespace`: the Unicode white-space property, a
/// function of the character alone.
#[verifier::external_body]
fn is_whitespace_char(c: char) -> (r: bool)
    ensures
        r == unicode_whitespace(c),
{
    c.is_whitespace()
}

// ---- queries ----------------------------------------------------------------

/// One atomic filter of a query.
#[derive(Debug, Clone, PartialEq, Eq)]
pub enum QueryTerm {
    /// Case-insensitive substring match against any name.
    Name(String),
    /// Exact match against any 8-bit id (class, subclass, prog-if).
    Id8(u8),
    /// Exact match against any 16-bit id (vendor, device, subvendor,
    /// subdevice).
    Id16(u16),
    /// Match a subsystem pair, written `vendor:device` in hex.
    Subsystem { vendor: u16, device: u16 },
}

pub enum QueryTermView {
    Name(Seq<char>),
    Id8(u8),
    Id16(u16),
    Subsystem { vendor: u16, device: u16 },
}

impl View for QueryTerm {
    type V = QueryTermView;

    open spec fn view(&self) -> QueryTermView {
        match self {
            QueryTerm::Name(s) => QueryTermView::Name(s@),
            QueryTerm::Id8(x) => QueryTermView::Id8(*x),
            QueryTerm::Id16(x) => QueryTermView::Id16(*x),
            QueryTerm::Subsystem { vendor, device } => QueryTermView::Subsystem {
                vendor: *vendor,
                device: *device,
            },
        }
    }
}

impl DeepView for QueryTerm {
    type V = QueryTermView;

    open spec fn deep_view(&self) -> QueryTermView {
        self.view()
    }
}

/// How terms combine: all must match, or any may match.
#[derive(Debug, Clone, Copy, PartialEq, Eq, Structural)]
pub enum MatchMode {
    All,
    Any,
}

/// A full search request.
#[derive(Debug, Clone, PartialEq, Eq)]
pub struct SearchQuery {
    pub terms: Vec<QueryTerm>,
    pub mode: MatchMode,
}

// ---- the token grammar ------------------------------------------------------

/// Length of the run of white space at the front.
pub open spec fn ws_run_len(s: Seq<char>) -> int
    decreases s.len(),
{
    if s.len() > 0 && unicode_whitespace(s[0]) {
        1 + ws_run_len(s.skip(1))
    } else {
        0
    }
}

/// Length of the run of non-white-space at the front.
pub open spec fn word_run_len(s: Seq<char>) -> int
    decreases s.len(),
{
    if s.len() > 0 && !unicode_whitespace(s[0]) {
        1 + word_run_len(s.skip(1))
    } else {
        0
    }
}

pub proof fn lemma_ws_run_len(s: Seq<char>)
    ensures
        0 <= ws_run_len(s) <= s.len(),
    decreases s.len(),
{
    if s.len() > 0 && unicode_whitespace(s[0]) {
        lemma_ws_run_len(s.skip(1));
    }
}

pub proof fn lemma_word_run_len(s: Seq<char>)
    ensures
        0 <= word_run_len(s) <= s.len(),
    decreases s.len(),
{
    if s.len() > 0 && !unicode_whitespace(s[0]) {
        lemma_word_run_len(s.skip(1));
    }
}

/// The white-space separated tokens of a query, in order, with no empty
/// tokens.
pub open spec fn spec_split_whitespace(s: Seq<char>) -> Seq<Seq<char>>
    decreases s.len(),
{
    let w = ws_run_len(s);
    if 0 <= w <= s.len() {
        let s1 = s.skip(w);
        if s1.len() == 0 {
            Seq::<Seq<char>>::empty()
        } else {
            let t = word_run_len(s1);
            if 1 <= t <= s1.len() && s1.skip(t).len() < s.len() {
                seq![s1.take(t)] + spec_split_whitespace(s1.skip(t))
            } else {
                seq![s1.take(t)]
            }
        }
    } else {
        Seq::<Seq<char>>::empty()
    }
}

/// Split a query string on white space.
fn split_whitespace_owned(s: &str) -> (r: Vec<String>)
    ensures
        r.deep_view() == spec_split_whitespace(s@),
    decreases s@.len(),
{
    let n = s.unicode_len();
    proof {
        lemma_ws_run_len(s@);
    }
    let mut i: usize = 0;
    while i < n && is_whitespace_char(s.get_char(i))
        invariant
            0 <= i <= n,
            n == s@.len(),
            forall|k: int| 0 <= k < i ==> unicode_whitespace(#[trigger] s@[k]),
        decreases n - i,
    {
        i = i + 1;
    }
    proof {
        lemma_ws_run_prefix(s@, i as int);
    }
    if i == n {
        proof {
            assert(s@.skip(i as int).len() == 0);
        }
        return Vec::new();
    }
    let word_start = i;
    let ghost s1 = s@.skip(word_start as int);
    let mut j: usize = i;
    while j < n && !is_whitespace_char(s.get_char(j))
        invariant
            word_start <= j <= n,
            n == s@.len(),
            forall|k: int| word_start <= k < j ==> !unicode_whitespace(#[trigger] s@[k]),
        decreases n - j,
    {
        j = j + 1;
    }
    proof {
        assert(forall|k: int| 0 <= k < s1.len() ==> s1[k] == s@[word_start + k]);
        lemma_word_run_prefix(s1, j - word_start);
        lemma_word_run_len(s1);
    }
    let token = s.substring_char(word_start, j).to_owned();
    proof {
        assert(token@ =~= s1.take(j - word_start));
    }
    let rest = s.substring_char(j, n);
    proof {
        assert(rest@ =~= s1.skip(j - word_start));
        assert(rest@ =~= s@.skip(j as int));
    }
    let mut tokens = split_whitespace_owned(rest);
    let ghost rest_dv = tokens.deep_view();
    tokens.insert(0, token);
    proof {
        assert(tokens.deep_view() =~= seq![token@] + rest_dv);
        if !(s1.skip(word_run_len(s1)).len() < s@.len()) {
            assert(word_run_len(s1) >= 1);
            assert(false);
        }
    }
    tokens
}

proof fn lemma_ws_run_prefix(s: Seq<char>, i: int)
    requires
        0 <= i <= s.len(),
        forall|k: int| 0 <= k < i ==> unicode_whitespace(#[trigger] s[k]),
        i < s.len() ==> !unicode_whitespace(s[i]),
    ensures
        ws_run_len(s) == i,
    decreases i,
{
    if i == 0 {
        if s.len() > 0 {
            assert(!unicode_whitespace(s[0]));
        }
    } else {
        assert(unicode_whitespace(s[0]));
        assert(forall|k: int| 0 <= k < i - 1 ==> s.skip(1)[k] == s[k + 1]);
        assert(i - 1 < s.skip(1).len() ==> s.skip(1)[i - 1] == s[i]);
        lemma_ws_run_prefix(s.skip(1), i - 1);
    }
}

proof fn lemma_word_run_prefix(s: Seq<char>, i: int)
    requires
        0 <= i <= s.len(),
        forall|k: int| 0 <= k < i ==> !unicode_whitespace(#[trigger] s[k]),
        i < s.len() ==> unicode_whitespace(s[i]),
    ensures
        word_run_len(s) == i,
    decreases i,
{
    if i == 0 {
        if s.len() > 0 {
            assert(unicode_whitespace(s[0]));
        }
    } else {
        assert(!unicode_whitespace(s[0]));
        assert(forall|k: int| 0 <= k < i - 1 ==> s.skip(1)[k] == s[k + 1]);
        assert(i - 1 < s.skip(1).len() ==> s.skip(1)[i - 1] == s[i]);
        lemma_word_run_prefix(s.skip(1), i - 1);
    }
}

// ---- token classification ---------------------------------------------------

/// Index of the first `:`, or -1.
pub open spec fn first_colon(s: Seq<char>) -> int
    decreases s.len(),
{
    if s.len() == 0 {
        -1
    } else if s[0] == ':' {
        0
    } else {
        let r = first_colon(s.skip(1));
        if r < 0 {
            -1
        } else {
            r + 1
        }
    }
}

pub proof fn lemma_first_colon(s: Seq<char>)
    ensures
        -1 <= first_colon(s) < s.len(),
        first_colon(s) >= 0 ==> s[first_colon(s)] == ':',
        forall|k: int| 0 <= k < s.len() && #[trigger] s[k] == ':' ==> first_colon(s) >= 0
            && first_colon(s) <= k,
    decreases s.len(),
{
    if s.len() > 0 && s[0] != ':' {
        lemma_first_colon(s.skip(1));
        assert(forall|k: int| 0 <= k < s.skip(1).len() ==> s.skip(1)[k] == s[k + 1]);
        assert forall|k: int|
            0 <= k < s.len() && #[trigger] s[k] == ':' implies first_colon(s) >= 0 && first_colon(
            s,
        ) <= k by {
            assert(k >= 1);
            assert(s.skip(1)[k - 1] == ':');
        }
    }
}

/// The text of a token with every leading `0x` stripped, as
/// `trim_start_matches("0x")` leaves it.
pub open spec fn spec_trim_0x(s: Seq<char>) -> Seq<char>
    decreases s.len(),
{
    if s.len() >= 2 && s[0] == '0' && s[1] == 'x' {
        spec_trim_0x(s.skip(2))
    } else {
        s
    }
}

fn trim_0x(s: &str) -> (r: &str)
    ensures
        r@ == spec_trim_0x(s@),
    decreases s@.len(),
{
    let n = s.unicode_len();
    if n >= 2 && s.get_char(0) == '0' && s.get_char(1) == 'x' {
        let tail = s.substring_char(2, n);
        proof {
            assert(tail@ =~= s@.skip(2));
        }
        trim_0x(tail)
    } else {
        s
    }
}

/// A hexadecimal `from_str_radix` value that fits 16 bits.
pub open spec fn spec_hex16_value(s: Seq<char>) -> Option<u16> {
    if is_hex_radix_token(s) && hex_seq_val(hex_token_digits(s)) <= u16::MAX {
        Some(hex_seq_val(hex_token_digits(s)) as u16)
    } else {
        None
    }
}

/// A decimal `str::parse` value that fits the given bound.
pub open spec fn spec_dec_value(s: Seq<char>, bound: int) -> Option<int> {
    if is_dec_token(s) && dec_seq_val(dec_token_digits(s)) <= bound {
        Some(dec_seq_val(dec_token_digits(s)))
    } else {
        None
    }
}

/// How one token reads as a term: a hex-colon pair is a subsystem filter;
/// a small decimal number an 8-bit id; a decimal or `0x` hexadecimal
/// number a 16-bit id; anything else a name substring.
pub open spec fn spec_classify(t: Seq<char>) -> QueryTermView {
    let c = first_colon(t);
    let pair = if c >= 0 {
        let a = spec_hex16_value(spec_trim_0x(t.take(c)));
        let b = spec_hex16_value(spec_trim_0x(t.skip(c + 1)));
        if a is Some && b is Some {
            Some((a.unwrap(), b.unwrap()))
        } else {
            None
        }
    } else {
        None
    };
    if pair is Some {
        QueryTermView::Subsystem { vendor: pair.unwrap().0, device: pair.unwrap().1 }
    } else if spec_dec_value(t, 255) is Some {
        QueryTermView::Id8(spec_dec_value(t, 255).unwrap() as u8)
    } else if spec_dec_value(t, 65535) is Some {
        QueryTermView::Id16(spec_dec_value(t, 65535).unwrap() as u16)
    } else if spec_hex16_value(spec_trim_0x(t)) is Some {
        QueryTermView::Id16(spec_hex16_value(spec_trim_0x(t)).unwrap())
    } else {
        QueryTermView::Name(t)
    }
}

/// Read one token as a term.
fn classify_token(token: &str) -> (r: QueryTerm)
    ensures
        r@ == spec_classify(token@),
{
    let n = token.unicode_len();
    proof {
        lemma_first_colon(token@);
    }
    let mut i: usize = 0;
    while i < n && token.get_char(i) != ':'
        invariant
            0 <= i <= n,
            n == token@.len(),
            forall|k: int| 0 <= k < i ==> #[trigger] token@[k] != ':',
        decreases n - i,
    {
        i = i + 1;
    }
    if i < n {
        assert(token@[i as int] == ':');
        assert(first_colon(token@) == i);
        let a_text = token.substring_char(0, i);
        let b_text = token.substring_char(i + 1, n);
        proof {
            assert(a_text@ =~= token@.take(i as int));
            assert(b_text@ =~= token@.skip(i + 1));
        }
        let a = parse_hex_radix_u16(trim_0x(a_text));
        let b = parse_hex_radix_u16(trim_0x(b_text));
        if let (Some(vendor), Some(device)) = (a, b) {
            return QueryTerm::Subsystem { vendor, device };
        }
    } else {
        assert(first_colon(token@) == -1) by {
            if first_colon(token@) >= 0 {
                assert(token@[first_colon(token@)] == ':');
            }
        }
    }
    match parse_dec_u32(token) {
        Some(v) if v <= 255 => {
            return QueryTerm::Id8(v as u8);
        },
        Some(v) if v <= 65535 => {
            return QueryTerm::Id16(v as u16);
        },
        _ => {},
    }
    if let Some(v) = parse_hex_radix_u16(trim_0x(token)) {
        return QueryTerm::Id16(v);
    }
    QueryTerm::Name(token.to_owned())
}

impl SearchQuery {
    /// What parsing a query yields: each white-space token classified, and
    /// conjunctive matching.
    pub open spec fn spec_parse(s: Seq<char>) -> (Seq<QueryTermView>, MatchMode) {
        let tokens = spec_split_whitespace(s);
        (Seq::new(tokens.len(), |i: int| spec_classify(tokens[i])), MatchMode::All)
    }

    /// Build a query from a string: split on white space, read each token,
    /// and require every term to match.
    pub fn parse(s: &str) -> (r: SearchQuery)
        ensures
            r.terms.deep_view() == Self::spec_parse(s@).0,
            r.mode == Self::spec_parse(s@).1,
    {
        let tokens = split_whitespace_owned(s);
        let mut terms: Vec<QueryTerm> = Vec::new();
        let n = tokens.len();
        for i in 0..n
            invariant
                n == tokens@.len(),
                tokens.deep_view() == spec_split_whitespace(s@),
                terms@.len() == i,
                forall|k: int| 0 <= k < i ==> terms.deep_view()[k] == spec_classify(
                    #[trigger] tokens.deep_view()[k],
                ),
        {
            let t = classify_token(tokens[i].as_str());
            let ghost prev = terms.deep_view();
            terms.push(t);
            proof {
                assert(terms.deep_view() =~= prev.push(t@));
            }
        }
        proof {
            assert(terms.deep_view() =~= Self::spec_parse(s@).0);
        }
        SearchQuery { terms, mode: MatchMode::All }
    }
}

// ---- matching ---------------------------------------------------------------

/// Case-insensitive substring containment at the sequence level.
pub open spec fn contains_seq(hay: Seq<char>, needle: Seq<char>) -> bool {
    exists|k: int|
        0 <= k && k + needle.len() <= hay.len() && #[trigger] hay.subrange(k, k + needle.len())
            == needle
}

/// Substring test on the character level.
fn contains_sub(hay: &str, needle: &str) -> (r: bool)
    ensures
        r == contains_seq(hay@, needle@),
{
    let hn = hay.unicode_len();
    let nn = needle.unicode_len();
    if nn > hn {
        return false;
    }
    let mut k: usize = 0;
    while k <= hn - nn
        invariant
            0 <= k <= hn - nn + 1,
            nn <= hn,
            hn == hay@.len(),
            nn == needle@.len(),
            forall|k2: int|
                0 <= k2 < k ==> #[trigger] hay@.subrange(k2, k2 + needle@.len()) != needle@,
        decreases hn + 1 - nn - k,
    {
        let mut j: usize = 0;
        while j < nn && hay.get_char(k + j) == needle.get_char(j)
            invariant
                0 <= j <= nn,
                0 <= k <= hn - nn,
                hn == hay@.len(),
                nn == needle@.len(),
                forall|j2: int| 0 <= j2 < j ==> hay@[k + j2] == #[trigger] needle@[j2],
            decreases nn - j,
        {
            j = j + 1;
        }
        if j == nn {
            proof {
                assert(hay@.subrange(k as int, k + needle@.len()) =~= needle@);
            }
            return true;
        }
        k = k + 1;
    }
    proof {
        assert forall|k2: int|
            0 <= k2 && k2 + needle@.len() <= hay@.len() implies #[trigger] hay@.subrange(
            k2,
            k2 + needle@.len(),
        ) != needle@ by {
            assert(k2 < k);
        }
    }
    false
}

/// Whether one term holds of an entity with the given name and id lists.
pub open spec fn term_matches(
    t: QueryTermView,
    name: Seq<char>,
    ids8: Seq<u8>,
    ids16: Seq<u16>,
) -> bool {
    match t {
        QueryTermView::Name(sub) => contains_seq(lower_of(name), lower_of(sub)),
        QueryTermView::Id8(x) => ids8.contains(x),
        QueryTermView::Id16(x) => ids16.contains(x),
        QueryTermView::Subsystem { .. } => false,
    }
}

/// Whether an entity passes the whole query: every term in `All` mode, any
/// term in `Any` mode.
pub open spec fn entity_selected(
    mode: MatchMode,
    terms: Seq<QueryTermView>,
    name: Seq<char>,
    ids8: Seq<u8>,
    ids16: Seq<u16>,
) -> bool {
    match mode {
        MatchMode::All => forall|i: int|
            0 <= i < terms.len() ==> term_matches(#[trigger] terms[i], name, ids8, ids16),
        MatchMode::Any => exists|i: int|
            0 <= i < terms.len() && term_matches(#[trigger] terms[i], name, ids8, ids16),
    }
}

/// Whether one term holds of a subsystem, which also answers to its id
/// pair.
pub open spec fn subsystem_term_matches(t: QueryTermView, s: SubsystemView) -> bool {
    match t {
        QueryTermView::Name(sub) => contains_seq(lower_of(s.name), lower_of(sub)),
        QueryTermView::Id8(_) => false,
        QueryTermView::Id16(x) => x == s.subvendor_id || x == s.subdevice_id,
        QueryTermView::Subsystem { vendor, device } => vendor == s.subvendor_id && device
            == s.subdevice_id,
    }
}

pub open spec fn subsystem_selected(
    mode: MatchMode,
    terms: Seq<QueryTermView>,
    s: SubsystemView,
) -> bool {
    match mode {
        MatchMode::All => forall|i: int|
            0 <= i < terms.len() ==> subsystem_term_matches(#[trigger] terms[i], s),
        MatchMode::Any => exists|i: int|
            0 <= i < terms.len() && subsystem_term_matches(#[trigger] terms[i], s),
    }
}

fn contains_u8(v: &Vec<u8>, x: u8) -> (r: bool)
    ensures
        r == v@.contains(x),
{
    let mut i: usize = 0;
    while i < v.len()
        invariant
            0 <= i <= v@.len(),
            forall|k: int| 0 <= k < i ==> v@[k] != x,
        decreases v@.len() - i,
    {
        if v[i] == x {
            return true;
        }
        i = i + 1;
    }
    false
}

fn contains_u16(v: &Vec<u16>, x: u16) -> (r: bool)
    ensures
        r == v@.contains(x),
{
    let mut i: usize = 0;
    while i < v.len()
        invariant
            0 <= i <= v@.len(),
            forall|k: int| 0 <= k < i ==> v@[k] != x,
        decreases v@.len() - i,
    {
        if v[i] == x {
            return true;
        }
        i = i + 1;
    }
    false
}

/// Test one entity's name and id lists against the whole query.
fn matches_entity(q: &SearchQuery, name: &String, ids8: &Vec<u8>, ids16: &Vec<u16>) -> (r: bool)
    ensures
        r == entity_selected(q.mode, q.terms.deep_view(), name@, ids8@, ids16@),
{
    let n = q.terms.len();
    let mut i: usize = 0;
    while i < n
        invariant
            0 <= i <= n,
            n == q.terms@.len(),
            matches!(q.mode, MatchMode::All) ==> forall|k: int|
                0 <= k < i ==> term_matches(
                    #[trigger] q.terms.deep_view()[k],
                    name@,
                    ids8@,
                    ids16@,
                ),
            matches!(q.mode, MatchMode::Any) ==> forall|k: int|
                0 <= k < i ==> !term_matches(
                    #[trigger] q.terms.deep_view()[k],
                    name@,
                    ids8@,
                    ids16@,
                ),
        decreases n - i,
    {
        let hit = match &q.terms[i] {
            QueryTerm::Name(sub) => {
                let lname = lowercase(name.as_str());
                let lsub = lowercase(sub.as_str());
                contains_sub(lname.as_str(), lsub.as_str())
            },
            QueryTerm::Id8(x) => contains_u8(ids8, *x),
            QueryTerm::Id16(x) => contains_u16(ids16, *x),
            QueryTerm::Subsystem { .. } => false,
        };
        assert(hit == term_matches(q.terms.deep_view()[i as int], name@, ids8@, ids16@));
        match q.mode {
            MatchMode::All => {
                if !hit {
                    return false;
                }
            },
            MatchMode::Any => {
                if hit {
                    return true;
                }
            },
        }
        i = i + 1;
    }
    match q.mode {
        MatchMode::All => true,
        MatchMode::Any => false,
    }
}

/// Test one subsystem against the whole query.
fn matches_subsystem(q: &SearchQuery, s: &Subsystem) -> (r: bool)
    ensures
        r == subsystem_selected(q.mode, q.terms.deep_view(), s@),
{
    let n = q.terms.len();
    let mut i: usize = 0;
    while i < n
        invariant
            0 <= i <= n,
            n == q.terms@.len(),
            matches!(q.mode, MatchMode::All) ==> forall|k: int|
                0 <= k < i ==> subsystem_term_matches(#[trigger] q.terms.deep_view()[k], s@),
            matches!(q.mode, MatchMode::Any) ==> forall|k: int|
                0 <= k < i ==> !subsystem_term_matches(#[trigger] q.terms.deep_view()[k], s@),
        decreases n - i,
    {
        let hit = match &q.terms[i] {
            QueryTerm::Name(sub) => {
                let lname = lowercase(s.name.as_str());
                let lsub = lowercase(sub.as_str());
                contains_sub(lname.as_str(), lsub.as_str())
            },
            QueryTerm::Id8(_) => false,
            QueryTerm::Id16(x) => *x == s.subvendor_id || *x == s.subdevice_id,
            QueryTerm::Subsystem { vendor, device } => *vendor == s.subvendor_id && *device
                == s.subdevice_id,
        };
        assert(hit == subsystem_term_matches(q.terms.deep_view()[i as int], s@));
        match q.mode {
            MatchMode::All => {
                if !hit {
                    return false;
                }
            },
            MatchMode::Any => {
                if hit {
                    return true;
                }
            },
        }
        i = i + 1;
    }
    match q.mode {
        MatchMode::All => true,
        MatchMode::Any => false,
    }
}

// ---- results ----------------------------------------------------------------

/// One search result, borrowed from the tree.
#[derive(Debug)]
pub enum PciEntity<'a> {
    Class(&'a Class),
    SubClass(&'a SubClass),
    ProgIf(&'a ProgIf),
    Vendor(&'a Vendor),
    Device(&'a Device),
    Subsystem(&'a Subsystem),
}

pub enum PciEntityView {
    Class(ClassView),
    SubClass(SubClassView),
    ProgIf(ProgIfView),
    Vendor(VendorView),
    Device(DeviceView),
    Subsystem(SubsystemView),
}

impl<'a> View for PciEntity<'a> {
    type V = PciEntityView;

    open spec fn view(&self) -> PciEntityView {
        match self {
            PciEntity::Class(c) => PciEntityView::Class(c@),
            PciEntity::SubClass(c) => PciEntityView::SubClass(c@),
            PciEntity::ProgIf(c) => PciEntityView::ProgIf(c@),
            PciEntity::Vendor(c) => PciEntityView::Vendor(c@),
            PciEntity::Device(c) => PciEntityView::Device(c@),
            PciEntity::Subsystem(c) => PciEntityView::Subsystem(c@),
        }
    }
}

impl<'a> DeepView for PciEntity<'a> {
    type V = PciEntityView;

    open spec fn deep_view(&self) -> PciEntityView {
        self.view()
    }
}

// ---- what the search reports, in tree order --------------------------------

pub open spec fn prog_if_results(
    mode: MatchMode,
    terms: Seq<QueryTermView>,
    p: ProgIfView,
) -> Seq<PciEntityView> {
    if entity_selected(mode, terms, p.name, seq![p.id], Seq::<u16>::empty()) {
        seq![PciEntityView::ProgIf(p)]
    } else {
        Seq::<PciEntityView>::empty()
    }
}

pub open spec fn prog_if_list_results(
    mode: MatchMode,
    terms: Seq<QueryTermView>,
    ps: Seq<ProgIfView>,
) -> Seq<PciEntityView>
    decreases ps.len(),
{
    if ps.len() == 0 {
        Seq::<PciEntityView>::empty()
    } else {
        prog_if_results(mode, terms, ps[0]) + prog_if_list_results(mode, terms, ps.skip(1))
    }
}

pub open spec fn sub_class_results(
    mode: MatchMode,
    terms: Seq<QueryTermView>,
    sc: SubClassView,
) -> Seq<PciEntityView> {
    (if entity_selected(mode, terms, sc.name, seq![sc.id], Seq::<u16>::empty()) {
        seq![PciEntityView::SubClass(sc)]
    } else {
        Seq::<PciEntityView>::empty()
    }) + prog_if_list_results(mode, terms, sc.prog_ifs)
}

pub open spec fn sub_class_list_results(
    mode: MatchMode,
    terms: Seq<QueryTermView>,
    scs: Seq<SubClassView>,
) -> Seq<PciEntityView>
    decreases scs.len(),
{
    if scs.len() == 0 {
        Seq::<PciEntityView>::empty()
    } else {
        sub_class_results(mode, terms, scs[0]) + sub_class_list_results(mode, terms, scs.skip(1))
    }
}

pub open spec fn class_results(
    mode: MatchMode,
    terms: Seq<QueryTermView>,
    c: ClassView,
) -> Seq<PciEntityView> {
    (if entity_selected(mode, terms, c.name, seq![c.id], Seq::<u16>::empty()) {
        seq![PciEntityView::Class(c)]
    } else {
        Seq::<PciEntityView>::empty()
    }) + sub_class_list_results(mode, terms, c.subclasses)
}

pub open spec fn class_list_results(
    mode: MatchMode,
    terms: Seq<QueryTermView>,
    cs: Seq<ClassView>,
) -> Seq<PciEntityView>
    decreases cs.len(),
{
    if cs.len() == 0 {
        Seq::<PciEntityView>::empty()
    } else {
        class_results(mode, terms, cs[0]) + class_list_results(mode, terms, cs.skip(1))
    }
}

pub open spec fn subsystem_results(
    mode: MatchMode,
    terms: Seq<QueryTermView>,
    s: SubsystemView,
) -> Seq<PciEntityView> {
    if subsystem_selected(mode, terms, s) {
        seq![PciEntityView::Subsystem(s)]
    } else {
        Seq::<PciEntityView>::empty()
    }
}

pub open spec fn subsystem_list_results(
    mode: MatchMode,
    terms: Seq<QueryTermView>,
    ss: Seq<SubsystemView>,
) -> Seq<PciEntityView>
    decreases ss.len(),
{
    if ss.len() == 0 {
        Seq::<PciEntityView>::empty()
    } else {
        subsystem_results(mode, terms, ss[0]) + subsystem_list_results(mode, terms, ss.skip(1))
    }
}

pub open spec fn device_results(
    mode: MatchMode,
    terms: Seq<QueryTermView>,
    d: DeviceView,
) -> Seq<PciEntityView> {
    (if entity_selected(mode, terms, d.name, Seq::<u8>::empty(), seq![d.id]) {
        seq![PciEntityView::Device(d)]
    } else {
        Seq::<PciEntityView>::empty()
    }) + subsystem_list_results(mode, terms, d.subsystems)
}

pub open spec fn device_list_results(
    mode: MatchMode,
    terms: Seq<QueryTermView>,
    ds: Seq<DeviceView>,
) -> Seq<PciEntityView>
    decreases ds.len(),
{
    if ds.len() == 0 {
        Seq::<PciEntityView>::empty()
    } else {
        device_results(mode, terms, ds[0]) + device_list_results(mode, terms, ds.skip(1))
    }
}

pub open spec fn vendor_results(
    mode: MatchMode,
    terms: Seq<QueryTermView>,
    v: VendorView,
) -> Seq<PciEntityView> {
    (if entity_selected(mode, terms, v.name, Seq::<u8>::empty(), seq![v.id]) {
        seq![PciEntityView::Vendor(v)]
    } else {
        Seq::<PciEntityView>::empty()
    }) + device_list_results(mode, terms, v.devices)
}

pub open spec fn vendor_list_results(
    mode: MatchMode,
    terms: Seq<QueryTermView>,
    vs: Seq<VendorView>,
) -> Seq<PciEntityView>
    decreases vs.len(),
{
    if vs.len() == 0 {
        Seq::<PciEntityView>::empty()
    } else {
        vendor_results(mode, terms, vs[0]) + vendor_list_results(mode, terms, vs.skip(1))
    }
}

/// Everything the search reports: the class tree walked first, then the
/// vendor tree, each in file order.
pub open spec fn search_results(
    mode: MatchMode,
    terms: Seq<QueryTermView>,
    classes: Seq<ClassView>,
    vendors: Seq<VendorView>,
) -> Seq<PciEntityView> {
    class_list_results(mode, terms, classes) + vendor_list_results(mode, terms, vendors)
}

proof fn lemma_prog_if_list_snoc(mode: MatchMode, terms: Seq<QueryTermView>, ps: Seq<ProgIfView>, i: int)
    requires
        0 <= i < ps.len(),
    ensures
        prog_if_list_results(mode, terms, ps.take(i + 1)) =~= prog_if_list_results(
            mode,
            terms,
            ps.take(i),
        ) + prog_if_results(mode, terms, ps[i]),
    decreases i,
{
    if i == 0 {
        assert(ps.take(1)[0] == ps[0]);
        assert(ps.take(1).skip(1) =~= Seq::<ProgIfView>::empty());
        assert(ps.take(0) =~= Seq::<ProgIfView>::empty());
    } else {
        assert(ps.take(i + 1)[0] == ps[0]);
        assert(ps.take(i)[0] == ps[0]);
        assert(ps.take(i + 1).skip(1) =~= ps.skip(1).take(i));
        assert(ps.take(i).skip(1) =~= ps.skip(1).take(i - 1));
        assert(ps.skip(1)[i - 1] == ps[i]);
        lemma_prog_if_list_snoc(mode, terms, ps.skip(1), i - 1);
    }
}

proof fn lemma_sub_class_list_snoc(mode: MatchMode, terms: Seq<QueryTermView>, ss: Seq<SubClassView>, i: int)
    requires
        0 <= i < ss.len(),
    ensures
        sub_class_list_results(mode, terms, ss.take(i + 1)) =~= sub_class_list_results(
            mode,
            terms,
            ss.take(i),
        ) + sub_class_results(mode, terms, ss[i]),
    decreases i,
{
    if i == 0 {
        assert(ss.take(1)[0] == ss[0]);
        assert(ss.take(1).skip(1) =~= Seq::<SubClassView>::empty());
        assert(ss.take(0) =~= Seq::<SubClassView>::empty());
    } else {
        assert(ss.take(i + 1)[0] == ss[0]);
        assert(ss.take(i)[0] == ss[0]);
        assert(ss.take(i + 1).skip(1) =~= ss.skip(1).take(i));
        assert(ss.take(i).skip(1) =~= ss.skip(1).take(i - 1));
        assert(ss.skip(1)[i - 1] == ss[i]);
        lemma_sub_class_list_snoc(mode, terms, ss.skip(1), i - 1);
    }
}

proof fn lemma_class_list_snoc(mode: MatchMode, terms: Seq<QueryTermView>, cs: Seq<ClassView>, i: int)
    requires
        0 <= i < cs.len(),
    ensures
        class_list_results(mode, terms, cs.take(i + 1)) =~= class_list_results(
            mode,
            terms,
            cs.take(i),
        ) + class_results(mode, terms, cs[i]),
    decreases i,
{
    if i == 0 {
        assert(cs.take(1)[0] == cs[0]);
        assert(cs.take(1).skip(1) =~= Seq::<ClassView>::empty());
        assert(cs.take(0) =~= Seq::<ClassView>::empty());
    } else {
        assert(cs.take(i + 1)[0] == cs[0]);
        assert(cs.take(i)[0] == cs[0]);
        assert(cs.take(i + 1).skip(1) =~= cs.skip(1).take(i));
        assert(cs.take(i).skip(1) =~= cs.skip(1).take(i - 1));
        assert(cs.skip(1)[i - 1] == cs[i]);
        lemma_class_list_snoc(mode, terms, cs.skip(1), i - 1);
    }
}

proof fn lemma_subsystem_list_snoc(mode: MatchMode, terms: Seq<QueryTermView>, ss: Seq<SubsystemView>, i: int)
    requires
        0 <= i < ss.len(),
    ensures
        subsystem_list_results(mode, terms, ss.take(i + 1)) =~= subsystem_list_results(
            mode,
            terms,
            ss.take(i),
        ) + subsystem_results(mode, terms, ss[i]),
    decreases i,
{
    if i == 0 {
        assert(ss.take(1)[0] == ss[0]);
        assert(ss.take(1).skip(1) =~= Seq::<SubsystemView>::empty());
        assert(ss.take(0) =~= Seq::<SubsystemView>::empty());
    } else {
        assert(ss.take(i + 1)[0] == ss[0]);
        assert(ss.take(i)[0] == ss[0]);
        assert(ss.take(i + 1).skip(1) =~= ss.skip(1).take(i));
        assert(ss.take(i).skip(1) =~= ss.skip(1).take(i - 1));
        assert(ss.skip(1)[i - 1] == ss[i]);
        lemma_subsystem_list_snoc(mode, terms, ss.skip(1), i - 1);
    }
}

proof fn lemma_device_list_snoc(mode: MatchMode, terms: Seq<QueryTermView>, ds: Seq<DeviceView>, i: int)
    requires
        0 <= i < ds.len(),
    ensures
        device_list_results(mode, terms, ds.take(i + 1)) =~= device_list_results(
            mode,
            terms,
            ds.take(i),
        ) + device_results(mode, terms, ds[i]),
    decreases i,
{
    if i == 0 {
        assert(ds.take(1)[0] == ds[0]);
        assert(ds.take(1).skip(1) =~= Seq::<DeviceView>::empty());
        assert(ds.take(0) =~= Seq::<DeviceView>::empty());
    } else {
        assert(ds.take(i + 1)[0] == ds[0]);
        assert(ds.take(i)[0] == ds[0]);
        assert(ds.take(i + 1).skip(1) =~= ds.skip(1).take(i));
        assert(ds.take(i).skip(1) =~= ds.skip(1).take(i - 1));
        assert(ds.skip(1)[i - 1] == ds[i]);
        lemma_device_list_snoc(mode, terms, ds.skip(1), i - 1);
    }
}

proof fn lemma_vendor_list_snoc(mode: MatchMode, terms: Seq<QueryTermView>, vs: Seq<VendorView>, i: int)
    requires
        0 <= i < vs.len(),
    ensures
        vendor_list_results(mode, terms, vs.take(i + 1)) =~= vendor_list_results(
            mode,
            terms,
            vs.take(i),
        ) + vendor_results(mode, terms, vs[i]),
    decreases i,
{
    if i == 0 {
        assert(vs.take(1)[0] == vs[0]);
        assert(vs.take(1).skip(1) =~= Seq::<VendorView>::empty());
        assert(vs.take(0) =~= Seq::<VendorView>::empty());
    } else {
        assert(vs.take(i + 1)[0] == vs[0]);
        assert(vs.take(i)[0] == vs[0]);
        assert(vs.take(i + 1).skip(1) =~= vs.skip(1).take(i));
        assert(vs.take(i).skip(1) =~= vs.skip(1).take(i - 1));
        assert(vs.skip(1)[i - 1] == vs[i]);
        lemma_vendor_list_snoc(mode, terms, vs.skip(1), i - 1);
    }
}

impl PciIds {
    /// Search the whole tree with a query string: every entity that
    /// passes the parsed query is reported, classes before vendors, each
    /// tree walked depth first in file order.
    pub fn search<'a>(&'a self, s: &str) -> (found: Vec<PciEntity<'a>>)
        ensures
            ({
                let q = SearchQuery::spec_parse(s@);
                found.deep_view() == search_results(q.1, q.0, self@.classes, self@.vendors)
            }),
    {
        let q = SearchQuery::parse(s);
        let ghost terms = q.terms.deep_view();
        let ghost mode = q.mode;
        let mut found: Vec<PciEntity<'a>> = Vec::new();

        let ghost classes_v = self.classes.deep_view();
        let nc = self.classes.len();
        let mut ci: usize = 0;
        while ci < nc
            invariant
                0 <= ci <= nc,
                nc == self.classes@.len(),
                classes_v == self.classes.deep_view(),
                terms == q.terms.deep_view(),
                mode == q.mode,
                found.deep_view() =~= class_list_results(mode, terms, classes_v.take(ci as int)),
            decreases nc - ci,
        {
            let c: &Class = &self.classes[ci];
            let ghost found_before_class = found.deep_view();
            let ids8 = vec![c.id];
            let ids16: Vec<u16> = Vec::new();
            if matches_entity(&q, &c.name, &ids8, &ids16) {
                let ghost prev = found.deep_view();
                found.push(PciEntity::Class(c));
                proof {
                    assert(found.deep_view() =~= prev.push(PciEntityView::Class(c@)));
                }
            }
            proof {
                assert(ids8@ =~= seq![c.id]);
                assert(found.deep_view() =~= found_before_class + (if entity_selected(
                    mode,
                    terms,
                    c@.name,
                    seq![c.id],
                    Seq::<u16>::empty(),
                ) {
                    seq![PciEntityView::Class(c@)]
                } else {
                    Seq::<PciEntityView>::empty()
                }));
            }
            let ghost found_before_subs = found.deep_view();
            let ns = c.subclasses.len();
            let mut si: usize = 0;
            while si < ns
                invariant
                    0 <= si <= ns,
                    ns == c.subclasses@.len(),
                    terms == q.terms.deep_view(),
                    mode == q.mode,
                    found.deep_view() =~= found_before_subs + sub_class_list_results(
                        mode,
                        terms,
                        c.subclasses.deep_view().take(si as int),
                    ),
                decreases ns - si,
            {
                let sc: &SubClass = &c.subclasses[si];
                let ghost found_before_sc = found.deep_view();
                let ids8s = vec![sc.id];
                let ids16s: Vec<u16> = Vec::new();
                if matches_entity(&q, &sc.name, &ids8s, &ids16s) {
                    let ghost prev = found.deep_view();
                    found.push(PciEntity::SubClass(sc));
                    proof {
                        assert(found.deep_view() =~= prev.push(PciEntityView::SubClass(sc@)));
                    }
                }
                proof {
                    assert(ids8s@ =~= seq![sc.id]);
                    assert(found.deep_view() =~= found_before_sc + (if entity_selected(
                        mode,
                        terms,
                        sc@.name,
                        seq![sc.id],
                        Seq::<u16>::empty(),
                    ) {
                        seq![PciEntityView::SubClass(sc@)]
                    } else {
                        Seq::<PciEntityView>::empty()
                    }));
                }
                let ghost found_before_pis = found.deep_view();
                let np = sc.prog_ifs.len();
                let mut pi: usize = 0;
                while pi < np
                    invariant
                        0 <= pi <= np,
                        np == sc.prog_ifs@.len(),
                        terms == q.terms.deep_view(),
                        mode == q.mode,
                        found.deep_view() =~= found_before_pis + prog_if_list_results(
                            mode,
                            terms,
                            sc.prog_ifs.deep_view().take(pi as int),
                        ),
                    decreases np - pi,
                {
                    let p: &ProgIf = &sc.prog_ifs[pi];
                    let ids8p = vec![p.id];
                    let ids16p: Vec<u16> = Vec::new();
                    let ghost found_before_p = found.deep_view();
                    if matches_entity(&q, &p.name, &ids8p, &ids16p) {
                        let ghost prev = found.deep_view();
                        found.push(PciEntity::ProgIf(p));
                        proof {
                            assert(found.deep_view() =~= prev.push(PciEntityView::ProgIf(p@)));
                        }
                    }
                    proof {
                        assert(ids8p@ =~= seq![p.id]);
                        assert(found.deep_view() =~= found_before_p + prog_if_results(
                            mode,
                            terms,
                            p@,
                        ));
                        lemma_prog_if_list_snoc(mode, terms, sc.prog_ifs.deep_view(), pi as int);
                    }
                    pi = pi + 1;
                }
                proof {
                    assert(sc.prog_ifs.deep_view().take(np as int) =~= sc.prog_ifs.deep_view());
                    assert(found.deep_view() =~= found_before_sc + sub_class_results(
                        mode,
                        terms,
                        sc@,
                    ));
                    lemma_sub_class_list_snoc(mode, terms, c.subclasses.deep_view(), si as int);
                }
                si = si + 1;
            }
            proof {
                assert(c.subclasses.deep_view().take(ns as int) =~= c.subclasses.deep_view());
                assert(found.deep_view() =~= found_before_class + class_results(mode, terms, c@));
                assert(classes_v[ci as int] == c@);
                lemma_class_list_snoc(mode, terms, classes_v, ci as int);
            }
            ci = ci + 1;
        }
        proof {
            assert(classes_v.take(nc as int) =~= classes_v);
        }

        let ghost vendors_v = self.vendors.deep_view();
        let nv = self.vendors.len();
        let ghost found_after_classes = found.deep_view();
        let mut vi: usize = 0;
        while vi < nv
            invariant
                0 <= vi <= nv,
                nv == self.vendors@.len(),
                vendors_v == self.vendors.deep_view(),
                terms == q.terms.deep_view(),
                mode == q.mode,
                found.deep_view() =~= found_after_classes + vendor_list_results(
                    mode,
                    terms,
                    vendors_v.take(vi as int),
                ),
            decreases nv - vi,
        {
            let v: &Vendor = &self.vendors[vi];
            let ghost found_before_vendor = found.deep_view();
            let ids8v: Vec<u8> = Vec::new();
            let ids16v = vec![v.id];
            if matches_entity(&q, &v.name, &ids8v, &ids16v) {
                let ghost prev = found.deep_view();
                found.push(PciEntity::Vendor(v));
                proof {
                    assert(found.deep_view() =~= prev.push(PciEntityView::Vendor(v@)));
                }
            }
            proof {
                assert(ids16v@ =~= seq![v.id]);
                assert(found.deep_view() =~= found_before_vendor + (if entity_selected(
                    mode,
                    terms,
                    v@.name,
                    Seq::<u8>::empty(),
                    seq![v.id],
                ) {
                    seq![PciEntityView::Vendor(v@)]
                } else {
                    Seq::<PciEntityView>::empty()
                }));
            }
            let ghost found_before_devs = found.deep_view();
            let nd = v.devices.len();
            let mut di: usize = 0;
            while di < nd
                invariant
                    0 <= di <= nd,
                    nd == v.devices@.len(),
                    terms == q.terms.deep_view(),
                    mode == q.mode,
                    found.deep_view() =~= found_before_devs + device_list_results(
                        mode,
                        terms,
                        v.devices.deep_view().take(di as int),
                    ),
                decreases nd - di,
            {
                let d: &Device = &v.devices[di];
                let ghost found_before_dev = found.deep_view();
                let ids8d: Vec<u8> = Vec::new();
                let ids16d = vec![d.id];
                if matches_entity(&q, &d.name, &ids8d, &ids16d) {
                    let ghost prev = found.deep_view();
                    found.push(PciEntity::Device(d));
                    proof {
                        assert(found.deep_view() =~= prev.push(PciEntityView::Device(d@)));
                    }
                }
                proof {
                    assert(ids16d@ =~= seq![d.id]);
                    assert(found.deep_view() =~= found_before_dev + (if entity_selected(
                        mode,
                        terms,
                        d@.name,
                        Seq::<u8>::empty(),
                        seq![d.id],
                    ) {
                        seq![PciEntityView::Device(d@)]
                    } else {
                        Seq::<PciEntityView>::empty()
                    }));
                }
                let ghost found_before_sss = found.deep_view();
                let nss = d.subsystems.len();
                let mut ssi: usize = 0;
                while ssi < nss
                    invariant
                        0 <= ssi <= nss,
                        nss == d.subsystems@.len(),
                        terms == q.terms.deep_view(),
                        mode == q.mode,
                        found.deep_view() =~= found_before_sss + subsystem_list_results(
                            mode,
                            terms,
                            d.subsystems.deep_view().take(ssi as int),
                        ),
                    decreases nss - ssi,
                {
                    let sub: &Subsystem = &d.subsystems[ssi];
                    let ghost found_before_ss = found.deep_view();
                    if matches_subsystem(&q, sub) {
                        let ghost prev = found.deep_view();
                        found.push(PciEntity::Subsystem(sub));
                        proof {
                            assert(found.deep_view() =~= prev.push(
                                PciEntityView::Subsystem(sub@),
                            ));
                        }
                    }
                    proof {
                        assert(found.deep_view() =~= found_before_ss + subsystem_results(
                            mode,
                            terms,
                            sub@,
                        ));
                        lemma_subsystem_list_snoc(
                            mode,
                            terms,
                            d.subsystems.deep_view(),
                            ssi as int,
                        );
                    }
                    ssi = ssi + 1;
                }
                proof {
                    assert(d.subsystems.deep_view().take(nss as int) =~= d.subsystems.deep_view());
                    assert(found.deep_view() =~= found_before_dev + device_results(
                        mode,
                        terms,
                        d@,
                    ));
                    lemma_device_list_snoc(mode, terms, v.devices.deep_view(), di as int);
                }
                di = di + 1;
            }
            proof {
                assert(v.devices.deep_view().take(nd as int) =~= v.devices.deep_view());
                assert(found.deep_view() =~= found_before_vendor + vendor_results(
                    mode,
                    terms,
                    v@,
                ));
                assert(vendors_v[vi as int] == v@);
                lemma_vendor_list_snoc(mode, terms, vendors_v, vi as int);
            }
            vi = vi + 1;
        }
        proof {
            assert(vendors_v.take(nv as int) =~= vendors_v);
            assert(found.deep_view() =~= search_results(mode, terms, self@.classes, self@.vendors));
        }
        found
    }
}

} // verus!
