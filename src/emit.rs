//! The source-text builder of the `codegen` crate, seen through what each
//! piece holds: an enum its variants, a variant its name and annotations, a
//! function its name and body lines, an impl block its functions, and a scope
//! its enums and impl blocks.
use vstd::prelude::*;
use codegen::{Enum, Function, Impl, Scope, Variant};

verus! {

#[verifier::external_type_specification]
#[verifier::external_body]
pub struct ExScope(Scope);

#[verifier::external_type_specification]
#[verifier::external_body]
pub struct ExEnum(Enum);

#[verifier::external_type_specification]
#[verifier::external_body]
pub struct ExVariant(Variant);

#[verifier::external_type_specification]
#[verifier::external_body]
pub struct ExImpl(Impl);

#[verifier::external_type_specification]
#[verifier::external_body]
pub struct ExFunction(Function);

/// A variant's name and the annotation lines written above it, in order.
pub type VariantParts = (Seq<char>, Seq<Seq<char>>);

/// An enum's head: its name, visibility, documentation, and the traits it
/// derives, in order.
pub type EnumHead = (Seq<char>, Option<Seq<char>>, Option<Seq<char>>, Seq<Seq<char>>);

/// A function's name and the lines of its body, in order.
pub type FunctionParts = (Seq<char>, Seq<Seq<char>>);

/// A function's head: its visibility, its `self` argument, its return type,
/// and its documentation.
pub type FunctionHead = (Option<Seq<char>>, Option<Seq<char>>, Option<Seq<char>>, Option<Seq<char>>);

/// What a scope holds of one enum: its head and its variants.
pub type EnumView = (EnumHead, Seq<VariantParts>);

/// What an impl block holds of one function: its name and body, and its head.
pub type FunctionView = (FunctionParts, FunctionHead);

/// What a scope holds of one impl block: its target type and its functions.
pub type ImplView = (Seq<char>, Seq<FunctionView>);

/// A variant's name and annotation lines.
pub uninterp spec fn variant_parts(v: Variant) -> VariantParts;

/// The variants of an enum, in order, as `variant_parts` gives them.
pub uninterp spec fn enum_variants(e: Enum) -> Seq<VariantParts>;

/// The head of an enum.
pub uninterp spec fn enum_head(e: Enum) -> EnumHead;

/// A function's name and body lines.
pub uninterp spec fn function_parts(f: Function) -> FunctionParts;

/// The head of a function.
pub uninterp spec fn function_head(f: Function) -> FunctionHead;

/// The functions of an impl block, in order.
pub uninterp spec fn impl_functions(i: Impl) -> Seq<FunctionView>;

/// The target type of an impl block.
pub uninterp spec fn impl_target(i: Impl) -> Seq<char>;

/// The enums of a scope, in order.
pub uninterp spec fn scope_enums(s: Scope) -> Seq<EnumView>;

/// The impl blocks of a scope, in order.
pub uninterp spec fn scope_impls(s: Scope) -> Seq<ImplView>;

/// The `use` imports of a scope, as (path, type) pairs.
pub uninterp spec fn scope_imports(s: Scope) -> Set<(Seq<char>, Seq<char>)>;

/// The source text that `Scope::to_string` formats from a scope.
pub uninterp spec fn scope_source(s: Scope) -> Seq<char>;

/// Relies on `Scope::new`: a scope with no items.
#[verifier::external_body]
pub(crate) fn new_scope() -> (r: Scope)
    ensures
        scope_enums(r) == Seq::<EnumView>::empty(),
        scope_impls(r) == Seq::<ImplView>::empty(),
        scope_imports(r) == Set::<(Seq<char>, Seq<char>)>::empty(),
{
    Scope::new()
}

/// Relies on `Scope::import`: records a `use` of `ty` (a name without `::`)
/// from `path`, not an item.
#[verifier::external_body]
pub(crate) fn scope_import(s: &mut Scope, path: &str, ty: &str)
    requires
        !ty@.contains(':'),
    ensures
        scope_imports(*final(s)) == scope_imports(*old(s)).insert((path@, ty@)),
        scope_enums(*final(s)) == scope_enums(*old(s)),
        scope_impls(*final(s)) == scope_impls(*old(s)),
{
    s.import(path, ty);
}

/// Relies on `Scope::push_enum`: appends the enum to the scope's items.
#[verifier::external_body]
pub(crate) fn scope_push_enum(s: &mut Scope, e: Enum)
    ensures
        scope_enums(*final(s)) == scope_enums(*old(s)).push((enum_head(e), enum_variants(e))),
        scope_impls(*final(s)) == scope_impls(*old(s)),
        scope_imports(*final(s)) == scope_imports(*old(s)),
{
    s.push_enum(e);
}

/// Relies on `Scope::push_impl`: appends the impl block to the scope's items.
#[verifier::external_body]
pub(crate) fn scope_push_impl(s: &mut Scope, i: Impl)
    ensures
        scope_enums(*final(s)) == scope_enums(*old(s)),
        scope_impls(*final(s)) == scope_impls(*old(s)).push((impl_target(i), impl_functions(i))),
        scope_imports(*final(s)) == scope_imports(*old(s)),
{
    s.push_impl(i);
}

/// Relies on `Scope::to_string`: the formatted source text of the scope.
/// Formatting panics on a function of an impl block that has no body; one
/// with body lines has a body.
#[verifier::external_body]
pub(crate) fn scope_text(s: &Scope) -> (r: String)
    requires
        forall|i: int, j: int|
            0 <= i < scope_impls(*s).len() && 0 <= j < scope_impls(*s)[i].1.len() ==> (
            #[trigger] scope_impls(*s)[i].1[j]).0.1.len() > 0,
    ensures
        r@ == scope_source(*s),
{
    s.to_string()
}

/// Relies on `Enum::new`: an enum of that name with no visibility,
/// documentation, derives or variants.
#[verifier::external_body]
pub(crate) fn new_enum(name: &str) -> (r: Enum)
    ensures
        enum_head(r) == (name@, None::<Seq<char>>, None::<Seq<char>>, Seq::<Seq<char>>::empty()),
        enum_variants(r) == Seq::<VariantParts>::empty(),
{
    Enum::new(name)
}

/// Relies on `Enum::vis`: sets the visibility, leaving the rest.
#[verifier::external_body]
pub(crate) fn enum_vis(e: &mut Enum, vis: &str)
    ensures
        enum_head(*final(e)) == (enum_head(*old(e)).0, Some(vis@), enum_head(*old(e)).2, enum_head(
            *old(e),
        ).3),
        enum_variants(*final(e)) == enum_variants(*old(e)),
{
    e.vis(vis);
}

/// Relies on `Enum::doc`: sets the documentation, leaving the rest.
#[verifier::external_body]
pub(crate) fn enum_doc(e: &mut Enum, doc: &str)
    ensures
        enum_head(*final(e)) == (enum_head(*old(e)).0, enum_head(*old(e)).1, Some(doc@), enum_head(
            *old(e),
        ).3),
        enum_variants(*final(e)) == enum_variants(*old(e)),
{
    e.doc(doc);
}

/// Relies on `Enum::derive`: appends a derived trait, leaving the rest.
#[verifier::external_body]
pub(crate) fn enum_derive(e: &mut Enum, name: &str)
    ensures
        enum_head(*final(e)) == (enum_head(*old(e)).0, enum_head(*old(e)).1, enum_head(*old(e)).2,
        enum_head(*old(e)).3.push(name@)),
        enum_variants(*final(e)) == enum_variants(*old(e)),
{
    e.derive(name);
}

/// Relies on `Enum::push_variant`: appends the variant.
#[verifier::external_body]
pub(crate) fn enum_push_variant(e: &mut Enum, v: Variant)
    ensures
        enum_variants(*final(e)) == enum_variants(*old(e)).push(variant_parts(v)),
        enum_head(*final(e)) == enum_head(*old(e)),
{
    e.push_variant(v);
}

/// Relies on `Variant::new`: a variant of that name with no annotations.
#[verifier::external_body]
pub(crate) fn new_variant(name: &str) -> (r: Variant)
    ensures
        variant_parts(r) == (name@, Seq::<Seq<char>>::empty()),
{
    Variant::new(name)
}

/// Relies on `Variant::annotation`: appends an annotation line.
#[verifier::external_body]
pub(crate) fn variant_annotation(v: &mut Variant, line: String)
    ensures
        variant_parts(*final(v)) == (variant_parts(*old(v)).0, variant_parts(*old(v)).1.push(
            line@,
        )),
{
    v.annotation(line);
}

/// Relies on `Impl::new`: an impl block for the type of that name, with no
/// functions.
#[verifier::external_body]
pub(crate) fn new_impl(target: &str) -> (r: Impl)
    ensures
        impl_target(r) == target@,
        impl_functions(r) == Seq::<FunctionView>::empty(),
{
    Impl::new(target)
}

/// Relies on `Impl::push_fn`: appends the function.
#[verifier::external_body]
pub(crate) fn impl_push_fn(i: &mut Impl, f: Function)
    ensures
        impl_functions(*final(i)) == impl_functions(*old(i)).push(
            (function_parts(f), function_head(f)),
        ),
        impl_target(*final(i)) == impl_target(*old(i)),
{
    i.push_fn(f);
}

/// Relies on `Function::new`: a function of that name with an empty body,
/// no visibility, no `self` argument, no return type and no documentation.
#[verifier::external_body]
pub(crate) fn new_function(name: &str) -> (r: Function)
    ensures
        function_head(r) == (None::<Seq<char>>, None::<Seq<char>>, None::<Seq<char>>, None::<
            Seq<char>,
        >),
        function_parts(r) == (name@, Seq::<Seq<char>>::empty()),
{
    Function::new(name)
}

/// Relies on `Function::vis`: sets the visibility, leaving the rest.
#[verifier::external_body]
pub(crate) fn function_vis(f: &mut Function, vis: &str)
    ensures
        function_head(*final(f)) == (Some(vis@), function_head(*old(f)).1, function_head(
            *old(f),
        ).2, function_head(*old(f)).3),
        function_parts(*final(f)) == function_parts(*old(f)),
{
    f.vis(vis);
}

/// Relies on `Function::arg_ref_self`: makes the function take `&self`,
/// leaving the rest.
#[verifier::external_body]
pub(crate) fn function_arg_ref_self(f: &mut Function)
    ensures
        function_head(*final(f)) == (function_head(*old(f)).0, Some("&self"@), function_head(
            *old(f),
        ).2, function_head(*old(f)).3),
        function_parts(*final(f)) == function_parts(*old(f)),
{
    f.arg_ref_self();
}

/// Relies on `Function::ret`: sets the return type to the type of that
/// name, leaving the rest.
#[verifier::external_body]
pub(crate) fn function_ret(f: &mut Function, ty: &str)
    ensures
        function_head(*final(f)) == (function_head(*old(f)).0, function_head(*old(f)).1, Some(
            ty@,
        ), function_head(*old(f)).3),
        function_parts(*final(f)) == function_parts(*old(f)),
{
    f.ret(ty);
}

/// Relies on `Function::doc`: sets the documentation, leaving the rest.
#[verifier::external_body]
pub(crate) fn function_doc(f: &mut Function, doc: &str)
    ensures
        function_head(*final(f)) == (function_head(*old(f)).0, function_head(*old(f)).1,
        function_head(*old(f)).2, Some(doc@)),
        function_parts(*final(f)) == function_parts(*old(f)),
{
    f.doc(doc);
}

/// Relies on `Function::line`: appends a line to the body.
#[verifier::external_body]
pub(crate) fn function_line(f: &mut Function, line: &str)
    ensures
        function_parts(*final(f)) == (function_parts(*old(f)).0, function_parts(*old(f)).1.push(
            line@,
        )),
        function_head(*final(f)) == function_head(*old(f)),
{
    f.line(line);
}

} // verus!
