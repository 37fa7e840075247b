//! Turns the glyph registry into source text: an enumeration with one variant
//! per glyph, sorted by identifier, and two accessors from a variant to its
//! code points.
use vstd::prelude::*;
use codegen::{Enum, Function, Impl, Scope};
use crate::emit::{
    enum_derive, enum_doc, enum_head, enum_push_variant, enum_variants, enum_vis,
    function_arg_ref_self, function_doc, function_head, function_line, function_parts,
    function_ret, function_vis, impl_functions, impl_push_fn, impl_target, new_enum, new_function,
    new_impl, new_scope, new_variant, scope_enums, scope_impls, scope_import, scope_push_enum,
    scope_push_impl, scope_imports, scope_source, scope_text, variant_annotation, variant_parts, EnumHead,
    FunctionHead, FunctionView, VariantParts,
};
use crate::glyph_data::strictly_ascending;
use crate::naming::{variant_name, variant_name_of};
use crate::registry::{char_debug, Codepoint, Glyph};
use crate::text::{
    chars_of, lemma_lex_total, lemma_map_keeps_multiset, lemma_sorted_same_elements,
    lemma_strictly_keyed_same_elements, lex_lt, lex_sorted, push_char,
};

verus! {

/// A registry entry with the identifier of its enumeration variant.
#[derive(Debug)]
pub struct GlyphVariant {
    /// The variant identifier, such as `Flag8thDown`.
    pub identifier: String,
    /// The registry name, such as `flag8thDown`.
    pub name: String,
    /// The registry entry.
    pub glyph: Glyph,
}

/// `s` with a backslash before every square bracket, so that documentation
/// does not read the brackets as links.
pub open spec fn escape_brackets(s: Seq<char>) -> Seq<char>
    decreases s.len(),
{
    if s.len() == 0 {
        Seq::empty()
    } else {
        let c = s.last();
        escape_brackets(s.drop_last()) + if c == '[' || c == ']' {
            seq!['\\', c]
        } else {
            seq![c]
        }
    }
}

/// The documentation line of a variant.
pub open spec fn doc_line(description: Seq<char>) -> Seq<char> {
    "/// "@ + escape_brackets(description)
}

/// The attribute that ties a variant to its registry name.
pub open spec fn rename_line(name: Seq<char>) -> Seq<char> {
    "#["@ + "serde(rename = \""@ + name + "\")]"@
}

/// The match arm of the primary code-point accessor for one variant.
pub open spec fn codepoint_arm(identifier: Seq<char>, cp: Codepoint) -> Seq<char> {
    "Self::"@ + identifier + " => "@ + char_debug(cp.0) + ","@
}

/// The match arm of the alternate code-point accessor for one variant.
pub open spec fn alternate_codepoint_arm(identifier: Seq<char>, cp: Option<Codepoint>) -> Seq<
    char,
> {
    match cp {
        Some(cp) => "Self::"@ + identifier + " => Some("@ + char_debug(cp.0) + "),"@,
        None => "Self::"@ + identifier + " => None,"@,
    }
}

/// The documentation of the generated enumeration.
pub const GLYPH_ENUM_DOC: &'static str = "SMuFL glyphs.

`Glyph` is generated from [glyphnames.json](https://github.com/w3c/smufl/blob/gh-pages/metadata/glyphnames.json). See the [SMuFL documentation](https://w3c.github.io/smufl/latest/specification/glyphnames.html).";

/// The head of the generated enumeration: `pub enum Glyph`, documented, with
/// the derives that make it a copyable, hashable key that serde can read.
pub open spec fn glyph_enum_head() -> EnumHead {
    (
        "Glyph"@,
        Some("pub"@),
        Some(GLYPH_ENUM_DOC@),
        seq![
            "Clone"@,
            "Copy"@,
            "Debug"@,
            "Deserialize"@,
            "Eq"@,
            "Hash"@,
            "PartialEq"@,
        ],
    )
}

/// The head of an accessor: `pub fn ...(&self) -> ret`, documented.
pub open spec fn accessor_head(ret: Seq<char>, doc: Seq<char>) -> FunctionHead {
    (Some("pub"@), Some("&self"@), Some(ret), Some(doc))
}

/// What the enumeration holds for one entry: its identifier, documented by
/// the description and tied to the registry name.
pub open spec fn variant_spec(g: GlyphVariant) -> VariantParts {
    (g.identifier@, seq![doc_line(g.glyph.description@), rename_line(g.name@)])
}

/// The body of an accessor: a match with the given arms.
pub open spec fn match_body(arms: Seq<Seq<char>>) -> Seq<Seq<char>> {
    seq!["match self {"@] + arms + seq!["}"@]
}

/// The primary code-point accessor for the entries `gs`:
/// `pub fn codepoint(&self) -> char`, one match arm per entry, in order.
pub open spec fn codepoint_fn_spec(gs: Seq<GlyphVariant>) -> FunctionView {
    (
        (
            "codepoint"@,
            match_body(
                gs.map_values(|g: GlyphVariant| codepoint_arm(g.identifier@, g.glyph.codepoint)),
            ),
        ),
        accessor_head("char"@, "SMuFL code point"@),
    )
}

/// The alternate code-point accessor for the entries `gs`:
/// `pub fn alternate_codepoint(&self) -> Option<char>`, one match arm per
/// entry, in order.
pub open spec fn alternate_codepoint_fn_spec(gs: Seq<GlyphVariant>) -> FunctionView {
    (
        (
            "alternate_codepoint"@,
            match_body(
                gs.map_values(
                    |g: GlyphVariant|
                        alternate_codepoint_arm(g.identifier@, g.glyph.alternate_codepoint),
                ),
            ),
        ),
        accessor_head("Option<char>"@, "Unicode Musical Symbols range code point"@),
    )
}

/// The registry name and entry that a variant stands for.
pub open spec fn source_of(g: GlyphVariant) -> (Seq<char>, Glyph) {
    (g.name@, g.glyph)
}

/// A registry name with its entry.
pub open spec fn registry_item(p: (String, Glyph)) -> (Seq<char>, Glyph) {
    (p.0@, p.1)
}

/// `vs` are the variants for the registry entries `glyphs`: one per entry,
/// each named by `variant_name`, in ascending order of identifier.
pub open spec fn sorted_variants_of(vs: Seq<GlyphVariant>, glyphs: Seq<(String, Glyph)>) -> bool {
    &&& vs.map_values(|g: GlyphVariant| source_of(g)).to_multiset() == glyphs.map_values(
        |p: (String, Glyph)| registry_item(p),
    ).to_multiset()
    &&& forall|i: int|
        0 <= i < vs.len() ==> (#[trigger] vs[i]).identifier@ == variant_name_of(vs[i].name@)
    &&& forall|i: int, j: int|
        0 <= i < j < vs.len() ==> !lex_lt(#[trigger] vs[j].identifier@, #[trigger] vs[i].identifier@)
}

/// The identifiers of `vs`, in order.
pub open spec fn identifiers(vs: Seq<GlyphVariant>) -> Seq<Seq<char>> {
    vs.map_values(|g: GlyphVariant| g.identifier@)
}

/// No two entries of the registry `glyphs` get the same identifier.
pub open spec fn distinct_identifiers(glyphs: Seq<(String, Glyph)>) -> bool {
    forall|i: int, j: int|
        0 <= i < j < glyphs.len() ==> variant_name_of((#[trigger] glyphs[i]).0@) != variant_name_of(
            (#[trigger] glyphs[j]).0@,
        )
}

/// Where no two registry entries get the same identifier, the sorted
/// variants are in strictly ascending order, so each identifier names one
/// variant.
pub proof fn lemma_sorted_variants_strict(vs: Seq<GlyphVariant>, glyphs: Seq<(String, Glyph)>)
    requires
        sorted_variants_of(vs, glyphs),
        distinct_identifiers(glyphs),
    ensures
        strictly_ascending(identifiers(vs)),
{
    broadcast use vstd::seq_lib::group_to_multiset_ensures;

    let src = |g: GlyphVariant| source_of(g);
    let item = |p: (String, Glyph)| registry_item(p);
    let name_id = |p: (Seq<char>, Glyph)| variant_name_of(p.0);
    lemma_map_keeps_multiset(vs.map_values(src), glyphs.map_values(item), name_id);
    let ids_v = identifiers(vs);
    let ids_g = glyphs.map_values(item).map_values(name_id);
    assert(ids_v =~= vs.map_values(src).map_values(name_id));
    assert(ids_g.no_duplicates()) by {
        assert forall|i: int, j: int| 0 <= i < ids_g.len() && 0 <= j < ids_g.len() && i != j
            implies ids_g[i] != ids_g[j] by {
            if i < j {
                assert(variant_name_of(glyphs[i].0@) != variant_name_of(glyphs[j].0@));
            } else {
                assert(variant_name_of(glyphs[j].0@) != variant_name_of(glyphs[i].0@));
            }
        }
    }
    ids_g.lemma_multiset_has_no_duplicates();
    ids_v.lemma_multiset_has_no_duplicates_conv();
    assert forall|i: int, j: int| 0 <= i < j < ids_v.len() implies lex_lt(
        #[trigger] ids_v[i],
        #[trigger] ids_v[j],
    ) by {
        assert(!lex_lt(vs[j].identifier@, vs[i].identifier@));
        lemma_lex_total(ids_v[i], ids_v[j]);
    }
}

/// The order in which the registry's entries come does not matter: inputs
/// that hold the same entries give the same sequence of identifiers.
pub proof fn lemma_variants_independent_of_order(
    v1: Seq<GlyphVariant>,
    g1: Seq<(String, Glyph)>,
    v2: Seq<GlyphVariant>,
    g2: Seq<(String, Glyph)>,
)
    requires
        sorted_variants_of(v1, g1),
        sorted_variants_of(v2, g2),
        g1.map_values(|p: (String, Glyph)| registry_item(p)).to_multiset() == g2.map_values(
            |p: (String, Glyph)| registry_item(p),
        ).to_multiset(),
    ensures
        identifiers(v1) == identifiers(v2),
{
    let src = |g: GlyphVariant| source_of(g);
    let name_id = |p: (Seq<char>, Glyph)| variant_name_of(p.0);
    lemma_map_keeps_multiset(v1.map_values(src), v2.map_values(src), name_id);
    assert(identifiers(v1) =~= v1.map_values(src).map_values(name_id));
    assert(identifiers(v2) =~= v2.map_values(src).map_values(name_id));
    assert(lex_sorted(identifiers(v1))) by {
        assert forall|i: int, j: int| 0 <= i < j < identifiers(v1).len() implies !lex_lt(
            #[trigger] identifiers(v1)[j],
            #[trigger] identifiers(v1)[i],
        ) by {
            assert(!lex_lt(v1[j].identifier@, v1[i].identifier@));
        }
    }
    assert(lex_sorted(identifiers(v2))) by {
        assert forall|i: int, j: int| 0 <= i < j < identifiers(v2).len() implies !lex_lt(
            #[trigger] identifiers(v2)[j],
            #[trigger] identifiers(v2)[i],
        ) by {
            assert(!lex_lt(v2[j].identifier@, v2[i].identifier@));
        }
    }
    lemma_sorted_same_elements(identifiers(v1), identifiers(v2));
}

/// A variant keyed by its identifier.
pub open spec fn keyed_variant(g: GlyphVariant) -> (Seq<char>, (Seq<char>, Glyph)) {
    (g.identifier@, source_of(g))
}

/// Where no two entries get the same identifier, the order in which the
/// registry's entries come does not matter at all: inputs that hold the same
/// entries give the same variants, so a scope holds the enumeration and
/// accessors of the one exactly when it holds those of the other.
pub proof fn lemma_scope_independent_of_order(
    v1: Seq<GlyphVariant>,
    g1: Seq<(String, Glyph)>,
    v2: Seq<GlyphVariant>,
    g2: Seq<(String, Glyph)>,
)
    requires
        sorted_variants_of(v1, g1),
        sorted_variants_of(v2, g2),
        distinct_identifiers(g1),
        distinct_identifiers(g2),
        g1.map_values(|p: (String, Glyph)| registry_item(p)).to_multiset() == g2.map_values(
            |p: (String, Glyph)| registry_item(p),
        ).to_multiset(),
    ensures
        v1.map_values(|g: GlyphVariant| keyed_variant(g)) == v2.map_values(
            |g: GlyphVariant| keyed_variant(g),
        ),
        forall|s: Scope| glyph_scope_holds(s, v1) == glyph_scope_holds(s, v2),
{
    let src = |g: GlyphVariant| source_of(g);
    let key = |p: (Seq<char>, Glyph)| (variant_name_of(p.0), p);
    let k1 = v1.map_values(|g: GlyphVariant| keyed_variant(g));
    let k2 = v2.map_values(|g: GlyphVariant| keyed_variant(g));
    lemma_map_keeps_multiset(v1.map_values(src), v2.map_values(src), key);
    assert(k1 =~= v1.map_values(src).map_values(key));
    assert(k2 =~= v2.map_values(src).map_values(key));
    lemma_sorted_variants_strict(v1, g1);
    lemma_sorted_variants_strict(v2, g2);
    assert forall|i: int, j: int| 0 <= i < j < k1.len() implies lex_lt(
        #[trigger] k1[i].0,
        #[trigger] k1[j].0,
    ) by {
        assert(lex_lt(identifiers(v1)[i], identifiers(v1)[j]));
    }
    assert forall|i: int, j: int| 0 <= i < j < k2.len() implies lex_lt(
        #[trigger] k2[i].0,
        #[trigger] k2[j].0,
    ) by {
        assert(lex_lt(identifiers(v2)[i], identifiers(v2)[j]));
    }
    lemma_strictly_keyed_same_elements(k1, k2);
    assert(v1.len() == k1.len() && k1.len() == k2.len() && k2.len() == v2.len());
    assert forall|i: int| 0 <= i < v1.len() implies #[trigger] keyed_variant(v1[i])
        == keyed_variant(v2[i]) by {
        assert(k1[i] == k2[i]);
    }
    assert forall|i: int| 0 <= i < v1.len() implies #[trigger] variant_spec(v1[i])
        == variant_spec(v2[i]) by {
        assert(keyed_variant(v1[i]) == keyed_variant(v2[i]));
    }
    assert forall|i: int| 0 <= i < v1.len() implies #[trigger] codepoint_arm(
        v1[i].identifier@,
        v1[i].glyph.codepoint,
    ) == codepoint_arm(v2[i].identifier@, v2[i].glyph.codepoint) by {
        assert(keyed_variant(v1[i]) == keyed_variant(v2[i]));
    }
    assert forall|i: int| 0 <= i < v1.len() implies #[trigger] alternate_codepoint_arm(
        v1[i].identifier@,
        v1[i].glyph.alternate_codepoint,
    ) == alternate_codepoint_arm(v2[i].identifier@, v2[i].glyph.alternate_codepoint) by {
        assert(keyed_variant(v1[i]) == keyed_variant(v2[i]));
    }
    assert(v1.map_values(|g: GlyphVariant| variant_spec(g)) =~= v2.map_values(
        |g: GlyphVariant| variant_spec(g),
    ));
    assert(v1.map_values(|g: GlyphVariant| codepoint_arm(g.identifier@, g.glyph.codepoint))
        =~= v2.map_values(|g: GlyphVariant| codepoint_arm(g.identifier@, g.glyph.codepoint)));
    assert(v1.map_values(
        |g: GlyphVariant| alternate_codepoint_arm(g.identifier@, g.glyph.alternate_codepoint),
    ) =~= v2.map_values(
        |g: GlyphVariant| alternate_codepoint_arm(g.identifier@, g.glyph.alternate_codepoint),
    ));
}

/// Relies on `slice::sort_by_key` with `String`'s order, which is
/// lexicographic in code points: the same entries, in ascending order of
/// identifier.
#[verifier::external_body]
fn sort_by_identifier(v: &mut Vec<GlyphVariant>)
    ensures
        final(v)@.to_multiset() == old(v)@.to_multiset(),
        forall|i: int, j: int|
            0 <= i < j < final(v)@.len() ==> !lex_lt(
                #[trigger] final(v)@[j].identifier@,
                #[trigger] final(v)@[i].identifier@,
            ),
{
    v.sort_by_key(|g| g.identifier.clone());
}

/// The variants for the registry entries `glyphs`, one per entry, sorted by
/// identifier.
pub fn glyph_variants(glyphs: Vec<(String, Glyph)>) -> (r: Vec<GlyphVariant>)
    ensures
        sorted_variants_of(r@, glyphs@),
        distinct_identifiers(glyphs@) ==> strictly_ascending(identifiers(r@)),
{
    broadcast use vstd::seq_lib::group_to_multiset_ensures;

    let ghost all = glyphs@;
    let mut rest = glyphs;
    let mut out: Vec<GlyphVariant> = Vec::new();
    let ghost k: int = 0;
    while rest.len() > 0
        invariant
            0 <= k <= all.len(),
            rest@ == all.subrange(k, all.len() as int),
            out@.len() == k,
            forall|i: int| 0 <= i < k ==> source_of(#[trigger] out@[i]) == registry_item(all[i]),
            forall|i: int|
                0 <= i < k ==> (#[trigger] out@[i]).identifier@ == variant_name_of(
                    out@[i].name@,
                ),
        decreases rest@.len(),
    {
        let (name, glyph) = rest.remove(0);
        let identifier = variant_name(name.as_str());
        out.push(GlyphVariant { identifier, name, glyph });
        proof {
            k = k + 1;
        }
    }
    let ghost unsorted = out@;
    assert(unsorted.map_values(|g: GlyphVariant| source_of(g)) =~= all.map_values(
        |p: (String, Glyph)| registry_item(p),
    ));
    sort_by_identifier(&mut out);
    proof {
        lemma_map_keeps_multiset(out@, unsorted, |g: GlyphVariant| source_of(g));
        assert forall|i: int| 0 <= i < out@.len() implies (#[trigger] out@[i]).identifier@
            == variant_name_of(out@[i].name@) by {
            assert(out@.to_multiset().count(out@[i]) > 0);
            assert(unsorted.contains(out@[i]));
        }
        if distinct_identifiers(all) {
            lemma_sorted_variants_strict(out@, all);
        }
    }
    out
}

/// `"\\"` and the bracket `c`, or `c` alone.
fn push_escaped(out: &mut String, c: char)
    ensures
        final(out)@ == old(out)@ + if c == '[' || c == ']' {
            seq!['\\', c]
        } else {
            seq![c]
        },
{
    if c == '[' || c == ']' {
        push_char(out, '\\');
    }
    push_char(out, c);
}

/// The documentation line for a variant with this description, with square
/// brackets escaped.
pub fn doc_annotation(description: &str) -> (r: String)
    ensures
        r@ == doc_line(description@),
{
    let chars = chars_of(description);
    let mut r = String::from_str("/// ");
    let mut i: usize = 0;
    while i < chars.len()
        invariant
            chars@ == description@,
            i <= chars@.len(),
            r@ == "/// "@ + escape_brackets(chars@.subrange(0, i as int)),
        decreases chars@.len() - i,
    {
        push_escaped(&mut r, chars[i]);
        proof {
            assert(chars@.subrange(0, i + 1).drop_last() =~= chars@.subrange(0, i as int));
        }
        i = i + 1;
    }
    assert(chars@.subrange(0, chars@.len() as int) =~= chars@);
    r
}

/// The attribute tying a variant to the registry name `name`.
pub fn rename_annotation(name: &str) -> (r: String)
    ensures
        r@ == rename_line(name@),
{
    let mut r = String::from_str("#[");
    r.append("serde(rename = \"");
    r.append(name);
    r.append("\")]");
    r
}

/// The primary accessor's match arm for one variant.
pub fn codepoint_arm_line(identifier: &str, cp: Codepoint) -> (r: String)
    ensures
        r@ == codepoint_arm(identifier@, cp),
{
    let mut r = String::from_str("Self::");
    r.append(identifier);
    r.append(" => ");
    let literal = cp.literal();
    r.append(literal.as_str());
    r.append(",");
    r
}

/// The alternate accessor's match arm for one variant.
pub fn alternate_codepoint_arm_line(identifier: &str, cp: Option<Codepoint>) -> (r: String)
    ensures
        r@ == alternate_codepoint_arm(identifier@, cp),
{
    let mut r = String::from_str("Self::");
    r.append(identifier);
    match cp {
        Some(cp) => {
            r.append(" => Some(");
            let literal = cp.literal();
            r.append(literal.as_str());
            r.append("),");
        },
        None => {
            r.append(" => None,");
        },
    }
    r
}

/// Adds the glyph enumeration to `scope`: one variant per entry, in order,
/// each documented with its description and tied to its registry name.
pub fn add_glyph_enum(glyphs: &Vec<GlyphVariant>, scope: &mut Scope)
    ensures
        scope_enums(*final(scope)) == scope_enums(*old(scope)).push(
            (glyph_enum_head(), glyphs@.map_values(|g: GlyphVariant| variant_spec(g))),
        ),
        scope_impls(*final(scope)) == scope_impls(*old(scope)),
        scope_imports(*final(scope)) == scope_imports(*old(scope)),
{
    let mut glyph_enum: Enum = new_enum("Glyph");
    enum_vis(&mut glyph_enum, "pub");
    enum_doc(&mut glyph_enum, GLYPH_ENUM_DOC);
    enum_derive(&mut glyph_enum, "Clone");
    enum_derive(&mut glyph_enum, "Copy");
    enum_derive(&mut glyph_enum, "Debug");
    enum_derive(&mut glyph_enum, "Deserialize");
    enum_derive(&mut glyph_enum, "Eq");
    enum_derive(&mut glyph_enum, "Hash");
    enum_derive(&mut glyph_enum, "PartialEq");
    assert(enum_head(glyph_enum) =~= glyph_enum_head());
    let mut i: usize = 0;
    while i < glyphs.len()
        invariant
            i <= glyphs@.len(),
            enum_head(glyph_enum) == glyph_enum_head(),
            enum_variants(glyph_enum) == glyphs@.subrange(0, i as int).map_values(
                |g: GlyphVariant| variant_spec(g),
            ),
        decreases glyphs@.len() - i,
    {
        let g = &glyphs[i];
        let mut variant = new_variant(g.identifier.as_str());
        variant_annotation(&mut variant, doc_annotation(g.glyph.description.as_str()));
        variant_annotation(&mut variant, rename_annotation(g.name.as_str()));
        assert(variant_parts(variant) == variant_spec(glyphs@[i as int]));
        enum_push_variant(&mut glyph_enum, variant);
        i = i + 1;
        assert(glyphs@.subrange(0, i as int).map_values(|g: GlyphVariant| variant_spec(g))
            =~= glyphs@.subrange(0, i - 1).map_values(|g: GlyphVariant| variant_spec(g)).push(
            variant_spec(glyphs@[i - 1]),
        ));
    }
    assert(glyphs@.subrange(0, glyphs@.len() as int) =~= glyphs@);
    scope_push_enum(scope, glyph_enum);
}

/// Adds the primary code-point accessor to `glyph_impl`: a match from every
/// variant to its code point.
pub fn add_codepoint_fn(glyphs: &Vec<GlyphVariant>, glyph_impl: &mut Impl)
    ensures
        impl_functions(*final(glyph_impl)) == impl_functions(*old(glyph_impl)).push(
            codepoint_fn_spec(glyphs@),
        ),
        impl_target(*final(glyph_impl)) == impl_target(*old(glyph_impl)),
{
    let mut f: Function = new_function("codepoint");
    function_vis(&mut f, "pub");
    function_arg_ref_self(&mut f);
    function_ret(&mut f, "char");
    function_doc(&mut f, "SMuFL code point");
    function_line(&mut f, "match self {");
    let ghost arm = |g: GlyphVariant| codepoint_arm(g.identifier@, g.glyph.codepoint);
    let mut i: usize = 0;
    while i < glyphs.len()
        invariant
            i <= glyphs@.len(),
            arm == (|g: GlyphVariant| codepoint_arm(g.identifier@, g.glyph.codepoint)),
            function_head(f) == accessor_head("char"@, "SMuFL code point"@),
            function_parts(f) == ("codepoint"@, seq!["match self {"@] + glyphs@.subrange(
                0,
                i as int,
            ).map_values(arm)),
        decreases glyphs@.len() - i,
    {
        let g = &glyphs[i];
        let line = codepoint_arm_line(g.identifier.as_str(), g.glyph.codepoint);
        function_line(&mut f, line.as_str());
        i = i + 1;
        assert(glyphs@.subrange(0, i as int).map_values(arm) =~= glyphs@.subrange(
            0,
            i - 1,
        ).map_values(arm).push(arm(glyphs@[i - 1])));
    }
    function_line(&mut f, "}");
    assert(glyphs@.subrange(0, glyphs@.len() as int) =~= glyphs@);
    assert(function_parts(f).1 =~= match_body(glyphs@.map_values(arm)));
    impl_push_fn(glyph_impl, f);
}

/// Adds the alternate code-point accessor to `glyph_impl`: a match from every
/// variant to its code point in the Unicode Musical Symbols range, if any.
pub fn add_alternate_codepoint_fn(glyphs: &Vec<GlyphVariant>, glyph_impl: &mut Impl)
    ensures
        impl_functions(*final(glyph_impl)) == impl_functions(*old(glyph_impl)).push(
            alternate_codepoint_fn_spec(glyphs@),
        ),
        impl_target(*final(glyph_impl)) == impl_target(*old(glyph_impl)),
{
    let mut f: Function = new_function("alternate_codepoint");
    function_vis(&mut f, "pub");
    function_arg_ref_self(&mut f);
    function_ret(&mut f, "Option<char>");
    function_doc(&mut f, "Unicode Musical Symbols range code point");
    function_line(&mut f, "match self {");
    let ghost arm = |g: GlyphVariant|
        alternate_codepoint_arm(g.identifier@, g.glyph.alternate_codepoint);
    let mut i: usize = 0;
    while i < glyphs.len()
        invariant
            i <= glyphs@.len(),
            arm == (|g: GlyphVariant|
                alternate_codepoint_arm(g.identifier@, g.glyph.alternate_codepoint)),
            function_head(f) == accessor_head(
                "Option<char>"@,
                "Unicode Musical Symbols range code point"@,
            ),
            function_parts(f) == ("alternate_codepoint"@, seq!["match self {"@]
                + glyphs@.subrange(0, i as int).map_values(arm)),
        decreases glyphs@.len() - i,
    {
        let g = &glyphs[i];
        let line = alternate_codepoint_arm_line(g.identifier.as_str(), g.glyph.alternate_codepoint);
        function_line(&mut f, line.as_str());
        i = i + 1;
        assert(glyphs@.subrange(0, i as int).map_values(arm) =~= glyphs@.subrange(
            0,
            i - 1,
        ).map_values(arm).push(arm(glyphs@[i - 1])));
    }
    function_line(&mut f, "}");
    assert(glyphs@.subrange(0, glyphs@.len() as int) =~= glyphs@);
    assert(function_parts(f).1 =~= match_body(glyphs@.map_values(arm)));
    impl_push_fn(glyph_impl, f);
}

/// Adds the impl block of the enumeration to `scope`, holding the primary
/// and the alternate code-point accessors.
pub fn add_glyph_impl(glyphs: &Vec<GlyphVariant>, scope: &mut Scope)
    ensures
        scope_impls(*final(scope)) == scope_impls(*old(scope)).push(
            ("Glyph"@, seq![codepoint_fn_spec(glyphs@), alternate_codepoint_fn_spec(glyphs@)]),
        ),
        scope_enums(*final(scope)) == scope_enums(*old(scope)),
        scope_imports(*final(scope)) == scope_imports(*old(scope)),
{
    let mut glyph_impl = new_impl("Glyph");
    add_codepoint_fn(glyphs, &mut glyph_impl);
    add_alternate_codepoint_fn(glyphs, &mut glyph_impl);
    assert(impl_functions(glyph_impl) =~= seq![
        codepoint_fn_spec(glyphs@),
        alternate_codepoint_fn_spec(glyphs@),
    ]);
    scope_push_impl(scope, glyph_impl);
}

/// The scope `s` imports serde's `Deserialize` and holds exactly the
/// enumeration for the variants `vs` and one impl block for it with the two
/// accessors.
pub open spec fn glyph_scope_holds(s: Scope, vs: Seq<GlyphVariant>) -> bool {
    &&& scope_imports(s) == set![("serde"@, "Deserialize"@)]
    &&& scope_enums(s) == seq![(glyph_enum_head(), vs.map_values(|g: GlyphVariant| variant_spec(g)))]
    &&& scope_impls(s) == seq![
        ("Glyph"@, seq![codepoint_fn_spec(vs), alternate_codepoint_fn_spec(vs)]),
    ]
}

/// The scope that defines the enumeration for the sorted variants `glyphs`
/// and its accessors.
pub fn glyph_scope(glyphs: &Vec<GlyphVariant>) -> (r: Scope)
    ensures
        glyph_scope_holds(r, glyphs@),
{
    let mut scope = new_scope();
    proof {
        reveal_strlit("Deserialize");
    }
    scope_import(&mut scope, "serde", "Deserialize");
    assert(scope_imports(scope) =~= set![("serde"@, "Deserialize"@)]);
    add_glyph_enum(glyphs, &mut scope);
    add_glyph_impl(glyphs, &mut scope);
    assert(scope_enums(scope) =~= seq![
        (glyph_enum_head(), glyphs@.map_values(|g: GlyphVariant| variant_spec(g))),
    ]);
    assert(scope_impls(scope) =~= seq![
        ("Glyph"@, seq![codepoint_fn_spec(glyphs@), alternate_codepoint_fn_spec(glyphs@)]),
    ]);
    scope
}

/// The source text of the enumeration for the registry `glyphs`: the scope
/// that holds the enumeration of the sorted variants and its accessors, as
/// `codegen` formats it.
pub fn generate(glyphs: Vec<(String, Glyph)>) -> (r: String)
    ensures
        exists|vs: Seq<GlyphVariant>, s: Scope|
            {
                &&& sorted_variants_of(vs, glyphs@)
                &&& distinct_identifiers(glyphs@) ==> strictly_ascending(identifiers(vs))
                &&& glyph_scope_holds(s, vs)
                &&& r@ == scope_source(s)
            },
{
    let ghost input = glyphs@;
    let variants = glyph_variants(glyphs);
    let scope = glyph_scope(&variants);
    let r = scope_text(&scope);
    assert({
        &&& sorted_variants_of(variants@, input)
        &&& distinct_identifiers(input) ==> strictly_ascending(identifiers(variants@))
        &&& glyph_scope_holds(scope, variants@)
        &&& r@ == scope_source(scope)
    });
    r
}

} // verus!
