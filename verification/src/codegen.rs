//! Emitting the typed class tree as source text from a parsed `pci.ids`
//! database: one enumeration per programming-interface list and per
//! subclass list, a top-level class enumeration, and decode functions
//! wired to the numeric discriminants.

use vstd::prelude::*;
use crate::digits::hex_digit_char_upper;
use crate::ids::{Class, ClassView, PciIds, ProgIfView, SubClass, SubClassView};

verus! {

/// The Unicode alphanumeric property of a character, as
/// `char::is_alphanumeric` reports it.
pub uninterp spec fn alnum_char(c: char) -> bool;

/// Relies on `char::is_alphanumeric`: the Unicode alphanumeric property, a
/// function of the character alone.
#[verifier::external_body]
fn is_alnum_char(c: char) -> (r: bool)
    ensures
        r == alnum_char(c),
{
    c.is_alphanumeric()
}

/// The Unicode numeric property of a character, as `char::is_numeric`
/// reports it.
pub uninterp spec fn numeric_char(c: char) -> bool;

/// Relies on `char::is_numeric`: the Unicode numeric property, a function
/// of the character alone.
#[verifier::external_body]
fn is_numeric_char(c: char) -> (r: bool)
    ensures
        r == numeric_char(c),
{
    c.is_numeric()
}

/// The Unicode uppercase mapping of a character, as `char::to_uppercase`
/// yields it.
pub uninterp spec fn upper_of(c: char) -> Seq<char>;

/// Relies on `char::to_uppercase`: the Unicode uppercase mapping of the
/// character, a function of the character alone, one or more characters
/// long.
#[verifier::external_body]
fn char_upper(c: char) -> (r: String)
    ensures
        r@ == upper_of(c),
        r@.len() >= 1,
{
    c.to_uppercase().collect()
}

// ---- identifier sanitization ------------------------------------------------

/// Length of the run of alphanumeric characters at the front.
pub open spec fn alnum_run_len(s: Seq<char>) -> int
    decreases s.len(),
{
    if s.len() > 0 && alnum_char(s[0]) {
        1 + alnum_run_len(s.skip(1))
    } else {
        0
    }
}

proof fn lemma_alnum_run_prefix(s: Seq<char>, i: int)
    requires
        0 <= i <= s.len(),
        forall|k: int| 0 <= k < i ==> alnum_char(#[trigger] s[k]),
        i < s.len() ==> !alnum_char(s[i]),
    ensures
        alnum_run_len(s) == i,
    decreases i,
{
    if i == 0 {
        if s.len() > 0 {
            assert(!alnum_char(s[0]));
        }
    } else {
        assert(alnum_char(s[0]));
        assert(forall|k: int| 0 <= k < i - 1 ==> s.skip(1)[k] == s[k + 1]);
        assert(i - 1 < s.skip(1).len() ==> s.skip(1)[i - 1] == s[i]);
        lemma_alnum_run_prefix(s.skip(1), i - 1);
    }
}

/// A name turned into a camel-case identifier: split on every
/// non-alphanumeric character, drop empty fragments, uppercase each
/// fragment's first character, concatenate.
pub open spec fn sanitize_spec(s: Seq<char>) -> Seq<char>
    decreases s.len(),
{
    if s.len() == 0 {
        Seq::<char>::empty()
    } else if !alnum_char(s[0]) {
        sanitize_spec(s.skip(1))
    } else {
        let t = alnum_run_len(s);
        if 1 <= t <= s.len() {
            upper_of(s[0]) + s.subrange(1, t) + sanitize_spec(s.skip(t))
        } else {
            Seq::<char>::empty()
        }
    }
}

/// Turn a human name into a camel-case identifier fragment.
pub fn sanitize(input: &str) -> (r: String)
    ensures
        r@ == sanitize_spec(input@),
    decreases input@.len(),
{
    let n = input.unicode_len();
    if n == 0 {
        return String::new();
    }
    let c0 = input.get_char(0);
    if !is_alnum_char(c0) {
        let tail = input.substring_char(1, n);
        proof {
            assert(tail@ =~= input@.skip(1));
        }
        return sanitize(tail);
    }
    let mut j: usize = 1;
    while j < n && is_alnum_char(input.get_char(j))
        invariant
            1 <= j <= n,
            n == input@.len(),
            forall|k: int| 0 <= k < j ==> alnum_char(#[trigger] input@[k]),
        decreases n - j,
    {
        j = j + 1;
    }
    proof {
        lemma_alnum_run_prefix(input@, j as int);
    }
    let mut out = char_upper(c0);
    let body = input.substring_char(1, j);
    proof {
        assert(body@ =~= input@.subrange(1, j as int));
    }
    out.append(body);
    let tail = input.substring_char(j, n);
    proof {
        assert(tail@ =~= input@.skip(j as int));
    }
    let rest = sanitize(tail);
    out.append(rest.as_str());
    out
}

/// The identifier of one variant: the sanitized name, with an underscore
/// prepended when it would begin with a numeric character.
pub open spec fn variant_ident(name: Seq<char>) -> Seq<char> {
    let v = sanitize_spec(name);
    if v.len() > 0 && numeric_char(v[0]) {
        "_"@ + v
    } else {
        v
    }
}

fn variant_ident_text(name: &str) -> (r: String)
    ensures
        r@ == variant_ident(name@),
{
    let v = sanitize(name);
    let n = v.unicode_len();
    if n > 0 && is_numeric_char(v.get_char(0)) {
        let mut out = String::from_str("_");
        out.append(v.as_str());
        out
    } else {
        v
    }
}

/// The literal `0xNN`, uppercase hexadecimal.
pub open spec fn hex_lit(id: u8) -> Seq<char> {
    "0x"@ + seq![hex_digit_char_upper(id as int / 16), hex_digit_char_upper(id as int % 16)]
}

fn hex_lit_text(id: u8) -> (r: String)
    ensures
        r@ == hex_lit(id),
{
    let mut out = String::from_str("0x");
    out.append(upper_hex_char_text(id / 16));
    out.append(upper_hex_char_text(id % 16));
    proof {
        assert(out@ =~= hex_lit(id));
    }
    out
}

/// The one-character text of a hexadecimal digit, uppercase.
fn upper_hex_char_text(v: u8) -> (r: &'static str)
    requires
        v < 16,
    ensures
        r@ =~= seq![hex_digit_char_upper(v as int)],
{
    proof {
        reveal_strlit("0");
        reveal_strlit("1");
        reveal_strlit("2");
        reveal_strlit("3");
        reveal_strlit("4");
        reveal_strlit("5");
        reveal_strlit("6");
        reveal_strlit("7");
        reveal_strlit("8");
        reveal_strlit("9");
        reveal_strlit("A");
        reveal_strlit("B");
        reveal_strlit("C");
        reveal_strlit("D");
        reveal_strlit("E");
        reveal_strlit("F");
    }
    match v {
        0 => "0", 1 => "1", 2 => "2", 3 => "3", 4 => "4", 5 => "5", 6 => "6", 7 => "7",
        8 => "8", 9 => "9", 10 => "A", 11 => "B", 12 => "C", 13 => "D", 14 => "E", _ => "F",
    }
}

// ---- programming-interface enumerations -------------------------------------

/// The name of a programming-interface enumeration.
pub open spec fn progif_enum_name(class_name: Seq<char>, sc_name: Seq<char>) -> Seq<char> {
    sanitize_spec(class_name) + sanitize_spec(sc_name) + "ProgIf"@
}

pub open spec fn progif_variant_decl(p: ProgIfView) -> Seq<char> {
    "    "@ + variant_ident(p.name) + ",\n"@
}

pub open spec fn progif_variant_decls(ps: Seq<ProgIfView>) -> Seq<char>
    decreases ps.len(),
{
    if ps.len() == 0 {
        Seq::<char>::empty()
    } else {
        progif_variant_decls(ps.drop_last()) + progif_variant_decl(ps.last())
    }
}

pub open spec fn progif_variant_arm(p: ProgIfView) -> Seq<char> {
    "            "@ + hex_lit(p.id) + " => Some(Self::"@ + variant_ident(p.name) + "),\n"@
}

pub open spec fn progif_variant_arms(ps: Seq<ProgIfView>) -> Seq<char>
    decreases ps.len(),
{
    if ps.len() == 0 {
        Seq::<char>::empty()
    } else {
        progif_variant_arms(ps.drop_last()) + progif_variant_arm(ps.last())
    }
}

/// The source text of one programming-interface enumeration and its
/// decode function.
pub open spec fn spec_gen_progif_enum(c: ClassView, sc: SubClassView) -> Seq<char> {
    "pub enum "@ + progif_enum_name(c.name, sc.name) + " {\n"@ + progif_variant_decls(sc.prog_ifs)
        + "}\n\nimpl "@ + progif_enum_name(c.name, sc.name)
        + " {\n    pub fn decode(prog_if: u8) -> Option<Self> {\n        match prog_if {\n"@
        + progif_variant_arms(sc.prog_ifs)
        + "            _ => None,\n        }\n    }\n}\n\n"@
}

/// Emit one programming-interface enumeration.
pub fn gen_progif_enum(class: &Class, sc: &SubClass) -> (r: String)
    ensures
        r@ == spec_gen_progif_enum(class@, sc@),
{
    let name_c = sanitize(class.name.as_str());
    let name_s = sanitize(sc.name.as_str());
    let mut name = String::new();
    name.append(name_c.as_str());
    name.append(name_s.as_str());
    name.append("ProgIf");

    let mut out = String::from_str("pub enum ");
    out.append(name.as_str());
    out.append(" {\n");
    let np = sc.prog_ifs.len();
    let ghost ps = sc.prog_ifs.deep_view();
    let mut i: usize = 0;
    while i < np
        invariant
            0 <= i <= np,
            np == sc.prog_ifs@.len(),
            ps == sc.prog_ifs.deep_view(),
            out@ == "pub enum "@ + progif_enum_name(class@.name, sc@.name) + " {\n"@
                + progif_variant_decls(ps.take(i as int)),
        decreases np - i,
    {
        let p = &sc.prog_ifs[i];
        out.append("    ");
        let ident = variant_ident_text(p.name.as_str());
        out.append(ident.as_str());
        out.append(",\n");
        proof {
            assert(ps.take(i + 1).drop_last() =~= ps.take(i as int));
            assert(ps.take(i + 1).last() == ps[i as int]);
        }
        i = i + 1;
    }
    proof {
        assert(ps.take(np as int) =~= ps);
    }
    out.append("}\n\nimpl ");
    out.append(name.as_str());
    out.append(" {\n    pub fn decode(prog_if: u8) -> Option<Self> {\n        match prog_if {\n");
    let ghost arms_prefix = out@;
    let mut j: usize = 0;
    while j < np
        invariant
            0 <= j <= np,
            np == sc.prog_ifs@.len(),
            ps == sc.prog_ifs.deep_view(),
            out@ == arms_prefix + progif_variant_arms(ps.take(j as int)),
        decreases np - j,
    {
        let p = &sc.prog_ifs[j];
        out.append("            ");
        let lit = hex_lit_text(p.id);
        out.append(lit.as_str());
        out.append(" => Some(Self::");
        let ident = variant_ident_text(p.name.as_str());
        out.append(ident.as_str());
        out.append("),\n");
        proof {
            assert(ps.take(j + 1).drop_last() =~= ps.take(j as int));
            assert(ps.take(j + 1).last() == ps[j as int]);
        }
        j = j + 1;
    }
    proof {
        assert(ps.take(np as int) =~= ps);
    }
    out.append("            _ => None,\n        }\n    }\n}\n\n");
    out
}

// ---- subclass enumerations --------------------------------------------------

/// Whether any subclass of the class distinguishes programming interfaces.
pub open spec fn class_has_progif(c: ClassView) -> bool {
    exists|i: int| 0 <= i < c.subclasses.len() && #[trigger] c.subclasses[i].prog_ifs.len() > 0
}

/// The name of a subclass enumeration.
pub open spec fn subtype_enum_name(class_name: Seq<char>) -> Seq<char> {
    sanitize_spec(class_name) + "Subtype"@
}

pub open spec fn subclass_variant_decl(class_name: Seq<char>, sc: SubClassView) -> Seq<char> {
    if sc.prog_ifs.len() == 0 {
        "    "@ + variant_ident(sc.name) + ",\n"@
    } else {
        "    "@ + variant_ident(sc.name) + "("@ + progif_enum_name(class_name, sc.name) + "),\n"@
    }
}

pub open spec fn subclass_variant_decls(class_name: Seq<char>, scs: Seq<SubClassView>) -> Seq<char>
    decreases scs.len(),
{
    if scs.len() == 0 {
        Seq::<char>::empty()
    } else {
        subclass_variant_decls(class_name, scs.drop_last()) + subclass_variant_decl(
            class_name,
            scs.last(),
        )
    }
}

pub open spec fn subclass_variant_arm(class_name: Seq<char>, sc: SubClassView) -> Seq<char> {
    if sc.prog_ifs.len() == 0 {
        "            "@ + hex_lit(sc.id) + " => Some(Self::"@ + variant_ident(sc.name) + "),\n"@
    } else {
        "            "@ + hex_lit(sc.id) + " => match "@ + progif_enum_name(class_name, sc.name)
            + "::decode(prog_if) {\n                Some(p) => Some(Self::"@ + variant_ident(
            sc.name,
        ) + "(p)),\n                None => None,\n            },\n"@
    }
}

pub open spec fn subclass_variant_arms(class_name: Seq<char>, scs: Seq<SubClassView>) -> Seq<char>
    decreases scs.len(),
{
    if scs.len() == 0 {
        Seq::<char>::empty()
    } else {
        subclass_variant_arms(class_name, scs.drop_last()) + subclass_variant_arm(
            class_name,
            scs.last(),
        )
    }
}

/// The decode parameter list of a subclass enumeration: the programming
/// interface is threaded through only where some subclass needs it.
pub open spec fn subtype_decode_params(c: ClassView) -> Seq<char> {
    if class_has_progif(c) {
        "subclass: u8, prog_if: u8"@
    } else {
        "subclass: u8"@
    }
}

/// The source text of one subclass enumeration and its decode function.
pub open spec fn spec_gen_subclass_enum(c: ClassView) -> Seq<char> {
    if c.subclasses.len() == 0 {
        Seq::<char>::empty()
    } else {
        "pub enum "@ + subtype_enum_name(c.name) + " {\n"@ + subclass_variant_decls(
            c.name,
            c.subclasses,
        ) + "}\n\nimpl "@ + subtype_enum_name(c.name) + " {\n    pub fn decode("@
            + subtype_decode_params(c)
            + ") -> Option<Self> {\n        match subclass {\n"@ + subclass_variant_arms(
            c.name,
            c.subclasses,
        ) + "            _ => None,\n        }\n    }\n}\n\n"@
    }
}

/// Emit one subclass enumeration; a class without subclasses emits
/// nothing.
#[verifier::rlimit(100)]
#[verifier::spinoff_prover]
pub fn gen_subclass_enum(class: &Class) -> (r: String)
    ensures
        r@ == spec_gen_subclass_enum(class@),
{
    let ns = class.subclasses.len();
    if ns == 0 {
        return String::new();
    }
    let ghost scs = class.subclasses.deep_view();
    let has_progif = class_any_progif(class);
    let name_c = sanitize(class.name.as_str());
    let mut name = String::new();
    name.append(name_c.as_str());
    name.append("Subtype");

    let mut out = String::from_str("pub enum ");
    out.append(name.as_str());
    out.append(" {\n");
    let mut i: usize = 0;
    while i < ns
        invariant
            0 <= i <= ns,
            ns == class.subclasses@.len(),
            scs == class.subclasses.deep_view(),
            out@ == "pub enum "@ + subtype_enum_name(class@.name) + " {\n"@
                + subclass_variant_decls(class@.name, scs.take(i as int)),
        decreases ns - i,
    {
        let sc = &class.subclasses[i];
        out.append("    ");
        let ident = variant_ident_text(sc.name.as_str());
        out.append(ident.as_str());
        if sc.prog_ifs.len() > 0 {
            out.append("(");
            let pname_c = sanitize(class.name.as_str());
            let pname_s = sanitize(sc.name.as_str());
            out.append(pname_c.as_str());
            out.append(pname_s.as_str());
            out.append("ProgIf");
            out.append("),\n");
        } else {
            out.append(",\n");
        }
        proof {
            assert(scs.take(i + 1).drop_last() =~= scs.take(i as int));
            assert(scs.take(i + 1).last() == scs[i as int]);
        }
        i = i + 1;
    }
    proof {
        assert(scs.take(ns as int) =~= scs);
    }
    out.append("}\n\nimpl ");
    out.append(name.as_str());
    out.append(" {\n    pub fn decode(");
    if has_progif {
        out.append("subclass: u8, prog_if: u8");
    } else {
        out.append("subclass: u8");
    }
    out.append(") -> Option<Self> {\n        match subclass {\n");
    let ghost arms_prefix = out@;
    let mut j: usize = 0;
    while j < ns
        invariant
            0 <= j <= ns,
            ns == class.subclasses@.len(),
            scs == class.subclasses.deep_view(),
            out@ == arms_prefix + subclass_variant_arms(class@.name, scs.take(j as int)),
        decreases ns - j,
    {
        let sc = &class.subclasses[j];
        out.append("            ");
        let lit = hex_lit_text(sc.id);
        out.append(lit.as_str());
        if sc.prog_ifs.len() == 0 {
            out.append(" => Some(Self::");
            let ident = variant_ident_text(sc.name.as_str());
            out.append(ident.as_str());
            out.append("),\n");
        } else {
            out.append(" => match ");
            let pname_c = sanitize(class.name.as_str());
            let pname_s = sanitize(sc.name.as_str());
            out.append(pname_c.as_str());
            out.append(pname_s.as_str());
            out.append("ProgIf");
            out.append("::decode(prog_if) {\n                Some(p) => Some(Self::");
            let ident = variant_ident_text(sc.name.as_str());
            out.append(ident.as_str());
            out.append("(p)),\n                None => None,\n            },\n");
        }
        proof {
            assert(scs.take(j + 1).drop_last() =~= scs.take(j as int));
            assert(scs.take(j + 1).last() == scs[j as int]);
        }
        j = j + 1;
    }
    proof {
        assert(scs.take(ns as int) =~= scs);
    }
    out.append("            _ => None,\n        }\n    }\n}\n\n");
    out
}

/// Whether any subclass of the class lists programming interfaces.
fn class_any_progif(class: &Class) -> (r: bool)
    ensures
        r == class_has_progif(class@),
{
    let ns = class.subclasses.len();
    let mut i: usize = 0;
    while i < ns
        invariant
            0 <= i <= ns,
            ns == class.subclasses@.len(),
            forall|k: int| 0 <= k < i ==> #[trigger] class@.subclasses[k].prog_ifs.len() == 0,
        decreases ns - i,
    {
        if class.subclasses[i].prog_ifs.len() > 0 {
            assert(class@.subclasses[i as int].prog_ifs.len() > 0);
            return true;
        }
        assert(class@.subclasses[i as int].prog_ifs.len() == 0);
        i = i + 1;
    }
    false
}

// ---- the class enumeration --------------------------------------------------

pub open spec fn class_variant_decl(c: ClassView) -> Seq<char> {
    if c.subclasses.len() == 0 {
        "    "@ + variant_ident(c.name) + ",\n"@
    } else {
        "    "@ + variant_ident(c.name) + "("@ + subtype_enum_name(c.name) + "),\n"@
    }
}

pub open spec fn class_variant_decls(cs: Seq<ClassView>) -> Seq<char>
    decreases cs.len(),
{
    if cs.len() == 0 {
        Seq::<char>::empty()
    } else {
        class_variant_decls(cs.drop_last()) + class_variant_decl(cs.last())
    }
}

pub open spec fn class_variant_arm(c: ClassView) -> Seq<char> {
    if c.subclasses.len() == 0 {
        "            "@ + hex_lit(c.id) + " => Some(Self::"@ + variant_ident(c.name) + "),\n"@
    } else {
        "            "@ + hex_lit(c.id) + " => match "@ + subtype_enum_name(c.name)
            + "::decode("@ + (if class_has_progif(c) {
            "subclass, prog_if"@
        } else {
            "subclass"@
        }) + ") {\n                Some(s) => Some(Self::"@ + variant_ident(c.name)
            + "(s)),\n                None => None,\n            },\n"@
    }
}

pub open spec fn class_variant_arms(cs: Seq<ClassView>) -> Seq<char>
    decreases cs.len(),
{
    if cs.len() == 0 {
        Seq::<char>::empty()
    } else {
        class_variant_arms(cs.drop_last()) + class_variant_arm(cs.last())
    }
}

/// The source text of the top-level class enumeration, its decode
/// function, and its default.
pub open spec fn spec_gen_class_enum(cs: Seq<ClassView>) -> Seq<char> {
    "pub enum PciDeviceClass {\n"@ + class_variant_decls(cs)
        + "}\n\nimpl PciDeviceClass {\n    pub fn decode(class_code: u8, subclass: u8, prog_if: u8) -> Option<Self> {\n        match class_code {\n"@
        + class_variant_arms(cs)
        + "            _ => Some(Self::UnassignedClass),\n        }\n    }\n}\n\nimpl Default for PciDeviceClass {\n    fn default() -> Self {\n        PciDeviceClass::UnassignedClass\n    }\n}\n\n"@
}

/// Emit the top-level class enumeration.
#[verifier::rlimit(100)]
#[verifier::spinoff_prover]
pub fn gen_class_enum(ids: &PciIds) -> (r: String)
    ensures
        r@ == spec_gen_class_enum(ids@.classes),
{
    let ghost cs = ids.classes.deep_view();
    let nc = ids.classes.len();
    let mut out = String::from_str("pub enum PciDeviceClass {\n");
    let mut i: usize = 0;
    while i < nc
        invariant
            0 <= i <= nc,
            nc == ids.classes@.len(),
            cs == ids.classes.deep_view(),
            out@ == "pub enum PciDeviceClass {\n"@ + class_variant_decls(cs.take(i as int)),
        decreases nc - i,
    {
        let c = &ids.classes[i];
        out.append("    ");
        let ident = variant_ident_text(c.name.as_str());
        out.append(ident.as_str());
        if c.subclasses.len() > 0 {
            out.append("(");
            let sname = sanitize(c.name.as_str());
            out.append(sname.as_str());
            out.append("Subtype");
            out.append("),\n");
        } else {
            out.append(",\n");
        }
        proof {
            assert(cs.take(i + 1).drop_last() =~= cs.take(i as int));
            assert(cs.take(i + 1).last() == cs[i as int]);
        }
        i = i + 1;
    }
    proof {
        assert(cs.take(nc as int) =~= cs);
    }
    out.append(
        "}\n\nimpl PciDeviceClass {\n    pub fn decode(class_code: u8, subclass: u8, prog_if: u8) -> Option<Self> {\n        match class_code {\n",
    );
    let ghost arms_prefix = out@;
    let mut j: usize = 0;
    while j < nc
        invariant
            0 <= j <= nc,
            nc == ids.classes@.len(),
            cs == ids.classes.deep_view(),
            out@ == arms_prefix + class_variant_arms(cs.take(j as int)),
        decreases nc - j,
    {
        let c = &ids.classes[j];
        out.append("            ");
        let lit = hex_lit_text(c.id);
        out.append(lit.as_str());
        if c.subclasses.len() == 0 {
            out.append(" => Some(Self::");
            let ident = variant_ident_text(c.name.as_str());
            out.append(ident.as_str());
            out.append("),\n");
        } else {
            out.append(" => match ");
            let sname = sanitize(c.name.as_str());
            out.append(sname.as_str());
            out.append("Subtype");
            out.append("::decode(");
            if class_any_progif(c) {
                out.append("subclass, prog_if");
            } else {
                out.append("subclass");
            }
            out.append(") {\n                Some(s) => Some(Self::");
            let ident = variant_ident_text(c.name.as_str());
            out.append(ident.as_str());
            out.append("(s)),\n                None => None,\n            },\n");
        }
        proof {
            assert(cs.take(j + 1).drop_last() =~= cs.take(j as int));
            assert(cs.take(j + 1).last() == cs[j as int]);
        }
        j = j + 1;
    }
    proof {
        assert(cs.take(nc as int) =~= cs);
    }
    out.append(
        "            _ => Some(Self::UnassignedClass),\n        }\n    }\n}\n\nimpl Default for PciDeviceClass {\n    fn default() -> Self {\n        PciDeviceClass::UnassignedClass\n    }\n}\n\n",
    );
    out
}

// ---- the whole artifact -----------------------------------------------------

pub open spec fn progif_enums_of_class(c: ClassView) -> Seq<char>
    decreases c.subclasses.len(),
{
    spec_progif_enums_list(c, c.subclasses)
}

pub open spec fn spec_progif_enums_list(c: ClassView, scs: Seq<SubClassView>) -> Seq<char>
    decreases scs.len(),
{
    if scs.len() == 0 {
        Seq::<char>::empty()
    } else {
        spec_progif_enums_list(c, scs.drop_last()) + (if scs.last().prog_ifs.len() > 0 {
            spec_gen_progif_enum(c, scs.last())
        } else {
            Seq::<char>::empty()
        })
    }
}

pub open spec fn spec_all_progif_enums(cs: Seq<ClassView>) -> Seq<char>
    decreases cs.len(),
{
    if cs.len() == 0 {
        Seq::<char>::empty()
    } else {
        spec_all_progif_enums(cs.drop_last()) + progif_enums_of_class(cs.last())
    }
}

pub open spec fn spec_all_subclass_enums(cs: Seq<ClassView>) -> Seq<char>
    decreases cs.len(),
{
    if cs.len() == 0 {
        Seq::<char>::empty()
    } else {
        spec_all_subclass_enums(cs.drop_last()) + spec_gen_subclass_enum(cs.last())
    }
}

/// The full generated artifact: every programming-interface enumeration,
/// then every subclass enumeration, then the class enumeration.
pub open spec fn spec_generate_tokens(cs: Seq<ClassView>) -> Seq<char> {
    spec_all_progif_enums(cs) + spec_all_subclass_enums(cs) + spec_gen_class_enum(cs)
}

/// Emit the whole class-tree source artifact from a parsed database.
pub fn generate_tokens(ids: &PciIds) -> (r: String)
    ensures
        r@ == spec_generate_tokens(ids@.classes),
{
    let ghost cs = ids.classes.deep_view();
    let nc = ids.classes.len();
    let mut out = String::new();
    proof {
        assert(out@ =~= spec_all_progif_enums(cs.take(0)));
    }
    let mut i: usize = 0;
    while i < nc
        invariant
            0 <= i <= nc,
            nc == ids.classes@.len(),
            cs == ids.classes.deep_view(),
            out@ == spec_all_progif_enums(cs.take(i as int)),
        decreases nc - i,
    {
        let c = &ids.classes[i];
        let ghost class_prefix = out@;
        let ghost scs = c.subclasses.deep_view();
        let ns = c.subclasses.len();
        let mut j: usize = 0;
        while j < ns
            invariant
                0 <= j <= ns,
                ns == c.subclasses@.len(),
                scs == c.subclasses.deep_view(),
                out@ == class_prefix + spec_progif_enums_list(c@, scs.take(j as int)),
            decreases ns - j,
        {
            let sc = &c.subclasses[j];
            if sc.prog_ifs.len() > 0 {
                let text = gen_progif_enum(c, sc);
                out.append(text.as_str());
            }
            proof {
                assert(scs.take(j + 1).drop_last() =~= scs.take(j as int));
                assert(scs.take(j + 1).last() == scs[j as int]);
            }
            j = j + 1;
        }
        proof {
            assert(scs.take(ns as int) =~= scs);
            assert(cs.take(i + 1).drop_last() =~= cs.take(i as int));
            assert(cs.take(i + 1).last() == cs[i as int]);
        }
        i = i + 1;
    }
    proof {
        assert(cs.take(nc as int) =~= cs);
    }
    let ghost subs_prefix = out@;
    let mut k: usize = 0;
    while k < nc
        invariant
            0 <= k <= nc,
            nc == ids.classes@.len(),
            cs == ids.classes.deep_view(),
            out@ == subs_prefix + spec_all_subclass_enums(cs.take(k as int)),
        decreases nc - k,
    {
        let c = &ids.classes[k];
        let text = gen_subclass_enum(c);
        out.append(text.as_str());
        proof {
            assert(cs.take(k + 1).drop_last() =~= cs.take(k as int));
            assert(cs.take(k + 1).last() == cs[k as int]);
        }
        k = k + 1;
    }
    proof {
        assert(cs.take(nc as int) =~= cs);
    }
    let text = gen_class_enum(ids);
    out.append(text.as_str());
    out
}


// ---- identifier collision detection -----------------------------------------

/// The names of the programming-interface enumerations one class emits,
/// in order.
pub open spec fn spec_progif_names_of_class(c: ClassView, scs: Seq<SubClassView>) -> Seq<Seq<char>>
    decreases scs.len(),
{
    if scs.len() == 0 {
        Seq::<Seq<char>>::empty()
    } else {
        spec_progif_names_of_class(c, scs.drop_last()) + (if scs.last().prog_ifs.len() > 0 {
            seq![progif_enum_name(c.name, scs.last().name)]
        } else {
            Seq::<Seq<char>>::empty()
        })
    }
}

/// The names of every programming-interface enumeration of the artifact,
/// in emission order.
pub open spec fn spec_progif_names(cs: Seq<ClassView>) -> Seq<Seq<char>>
    decreases cs.len(),
{
    if cs.len() == 0 {
        Seq::<Seq<char>>::empty()
    } else {
        spec_progif_names(cs.drop_last()) + spec_progif_names_of_class(
            cs.last(),
            cs.last().subclasses,
        )
    }
}

/// No two of the names are equal.
pub open spec fn distinct_names(ns: Seq<Seq<char>>) -> bool {
    forall|i: int, j: int| 0 <= i < j < ns.len() ==> ns[i] != ns[j]
}

/// Collect the name of every programming-interface enumeration the
/// artifact would emit.
pub fn progif_enum_names(ids: &PciIds) -> (r: Vec<String>)
    ensures
        r.deep_view() == spec_progif_names(ids@.classes),
{
    let ghost cs = ids.classes.deep_view();
    let nc = ids.classes.len();
    let mut names: Vec<String> = Vec::new();
    let mut i: usize = 0;
    while i < nc
        invariant
            0 <= i <= nc,
            nc == ids.classes@.len(),
            cs == ids.classes.deep_view(),
            names.deep_view() =~= spec_progif_names(cs.take(i as int)),
        decreases nc - i,
    {
        let c = &ids.classes[i];
        let ghost scs = c.subclasses.deep_view();
        let ghost class_prefix = names.deep_view();
        let ns = c.subclasses.len();
        let mut j: usize = 0;
        while j < ns
            invariant
                0 <= j <= ns,
                ns == c.subclasses@.len(),
                scs == c.subclasses.deep_view(),
                names.deep_view() =~= class_prefix + spec_progif_names_of_class(
                    c@,
                    scs.take(j as int),
                ),
            decreases ns - j,
        {
            let sc = &c.subclasses[j];
            if sc.prog_ifs.len() > 0 {
                let name_c = sanitize(c.name.as_str());
                let name_s = sanitize(sc.name.as_str());
                let mut name = String::new();
                name.append(name_c.as_str());
                name.append(name_s.as_str());
                name.append("ProgIf");
                let ghost prev = names.deep_view();
                names.push(name);
                proof {
                    assert(names.deep_view() =~= prev.push(
                        progif_enum_name(c@.name, scs[j as int].name),
                    ));
                }
            }
            proof {
                assert(scs.take(j + 1).drop_last() =~= scs.take(j as int));
                assert(scs.take(j + 1).last() == scs[j as int]);
            }
            j = j + 1;
        }
        proof {
            assert(scs.take(ns as int) =~= scs);
            assert(cs.take(i + 1).drop_last() =~= cs.take(i as int));
            assert(cs.take(i + 1).last() == cs[i as int]);
        }
        i = i + 1;
    }
    proof {
        assert(cs.take(nc as int) =~= cs);
    }
    names
}

/// Whether the identifier scheme collides on this database: sanitization
/// can map two different class and subclass name pairs to one enumeration
/// name, and such a database cannot be emitted as compilable source.
pub fn has_progif_name_collision(ids: &PciIds) -> (r: bool)
    ensures
        r == !distinct_names(spec_progif_names(ids@.classes)),
{
    let names = progif_enum_names(ids);
    let n = names.len();
    let mut i: usize = 0;
    while i < n
        invariant
            0 <= i <= n,
            n == names@.len(),
            names.deep_view() == spec_progif_names(ids@.classes),
            forall|a: int, b: int|
                0 <= a < b < names.deep_view().len() && a < i ==> names.deep_view()[a]
                    != names.deep_view()[b],
        decreases n - i,
    {
        let mut j: usize = i + 1;
        while j < n
            invariant
                0 <= i < j <= n,
                n == names@.len(),
                names.deep_view() == spec_progif_names(ids@.classes),
                forall|b: int|
                    i < b < j ==> names.deep_view()[i as int] != names.deep_view()[b],
            decreases n - j,
        {
            if names[i].eq(&names[j]) {
                assert(names.deep_view()[i as int] == names.deep_view()[j as int]);
                return true;
            }
            assert(names.deep_view()[i as int] != names.deep_view()[j as int]);
            j = j + 1;
        }
        i = i + 1;
    }
    false
}


} // verus!
