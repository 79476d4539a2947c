use vstd::prelude::*;
use crate::context::GenContext;
use crate::types::{
    class_of, class_of_resolved, classify, inner, is_primitive_kind, ns, resolved, string_name, FinchType,
    GenError, TypeClass,
};

verus! {

/// `nonstd::optional<h>`
pub open spec fn optional_of(h: Seq<char>) -> Seq<char> {
    "nonstd::optional<"@ + h + ">"@
}

/// The explicit instantiation of the optional wrapper over the ABI type `d`.
pub open spec fn option_decl(d: Seq<char>) -> Seq<char> {
    "template struct FinchOption<"@ + d + ">;"@
}

/// The explicit instantiation of the result wrapper over the ABI type `d`.
pub open spec fn result_decl(d: Seq<char>) -> Seq<char> {
    "template struct FinchResult<"@ + d + ">;"@
}

pub open spec fn option_type(n: Seq<char>, d: Seq<char>) -> Seq<char> {
    ns(n) + "FinchOption<"@ + d + ">"@
}

pub open spec fn result_type(n: Seq<char>, d: Seq<char>) -> Seq<char> {
    ns(n) + "FinchResult<"@ + d + ">"@
}

pub open spec fn string_new(n: Seq<char>) -> Seq<char> {
    ns(n) + "___finch_bindgen___"@ + n + "___builtin___FinchString___new"@
}

pub open spec fn string_drop(n: Seq<char>) -> Seq<char> {
    ns(n) + "___finch_bindgen___"@ + n + "___builtin___FinchString___drop"@
}

/// Copies a host string into a fresh ABI string record, which then owns the bytes.
pub open spec fn string_arg(n: Seq<char>, e: Seq<char>) -> Seq<char> {
    "[](std::string str) -> "@ + string_name(n) + " { return "@ + string_new(n)
        + "(reinterpret_cast<const uint8_t *>(str.data()), str.size()); }("@ + e + ")"@
}

/// Copies an ABI string record into a host string, then frees the record.
pub open spec fn string_ret(n: Seq<char>, e: Seq<char>) -> Seq<char> {
    "[]("@ + string_name(n) + " finch) -> std::string { std::string str(finch.ptr, finch.len); "@
        + string_drop(n) + "(finch); return str; }("@ + e + ")"@
}

/// Wraps a host optional into the ABI optional over `d`; `b` converts the held value.
pub open spec fn option_arg(n: Seq<char>, d: Seq<char>, h: Seq<char>, b: Seq<char>, e: Seq<char>) -> Seq<char> {
    "[]("@ + optional_of(h) + " opt) -> "@ + option_type(n, d) + " { "@ + option_type(n, d)
        + " finch; if (opt.has_value()) { finch.tag = "@ + option_type(n, d)
        + "::Tag::Some; finch.some = { "@ + b + " }; } else { finch.tag = "@ + option_type(n, d)
        + "::Tag::None; } return finch; }("@ + e + ")"@
}

/// Unwraps the ABI optional over `d` into a host optional; `b` converts the payload.
pub open spec fn option_ret(n: Seq<char>, d: Seq<char>, h: Seq<char>, b: Seq<char>, e: Seq<char>) -> Seq<char> {
    "[]("@ + option_type(n, d) + " finch) -> "@ + optional_of(h) + " { if (finch.tag == "@
        + option_type(n, d) + "::Tag::Some) { return "@ + optional_of(h) + "("@ + b
        + "); } else { return nonstd::nullopt; } }("@ + e + ")"@
}

/// Unwraps the ABI result over `d`: the payload on success; on failure the
/// message is copied, its record freed, and the error raised or the process ended.
pub open spec fn result_ret(n: Seq<char>, d: Seq<char>, h: Seq<char>, b: Seq<char>, e: Seq<char>) -> Seq<char> {
    "[]("@ + result_type(n, d) + " finch) -> "@ + h + " { if (finch.tag == "@ + result_type(n, d)
        + "::Tag::Ok) { return "@ + b
        + "; } else { std::string str(finch.err._0.ptr, finch.err._0.len); "@ + string_drop(n)
        + "(finch.err._0);\n#ifdef finch_bindgen_EXCEPTIONS\nthrow std::runtime_error(str);\n#else\nstd::cerr << \"fatal: Result returned Err(\\\"\" << str << \"\\\")\" << std::endl;\nabort();\n#endif\n} }("@
        + e + ")"@
}

/// The host type that callers see, or the display name of the first unknown type.
pub open spec fn host_type(n: Seq<char>, t: FinchType) -> Result<Seq<char>, Seq<char>>
    decreases t,
{
    match t.canonical_type {
        Some(c) => host_type(n, *c),
        None => match class_of(n, t) {
            TypeClass::Primitive => Ok(t.display_name@),
            TypeClass::OwnedString => Ok("std::string"@),
            TypeClass::Optional => match host_type(n, inner(t)) {
                Ok(h) => Ok(optional_of(h)),
                Err(m) => Err(m),
            },
            TypeClass::Fallible => host_type(n, inner(t)),
            TypeClass::Unknown => Err(t.display_name@),
        },
    }
}

/// Whether the host type of `t` holds an optional.
pub open spec fn uses_optional(n: Seq<char>, t: FinchType) -> bool
    decreases t,
{
    match t.canonical_type {
        Some(c) => uses_optional(n, *c),
        None => match class_of(n, t) {
            TypeClass::Optional => true,
            TypeClass::Fallible => uses_optional(n, inner(t)),
            _ => false,
        },
    }
}

/// The expression that turns the host value `e` of type `t` into its ABI form.
pub open spec fn arg_text(n: Seq<char>, t: FinchType, e: Seq<char>) -> Result<Seq<char>, Seq<char>>
    decreases t,
{
    match t.canonical_type {
        Some(c) => arg_text(n, *c, e),
        None => match class_of(n, t) {
            TypeClass::Primitive => Ok(e),
            TypeClass::OwnedString => Ok(string_arg(n, e)),
            TypeClass::Optional => match host_type(n, inner(t)) {
                Ok(h) => match arg_text(n, inner(t), "opt.value()"@) {
                    Ok(b) => Ok(option_arg(n, inner(t).display_name@, h, b, e)),
                    Err(m) => Err(m),
                },
                Err(m) => Err(m),
            },
            _ => Err(t.display_name@),
        },
    }
}

/// The instantiations that converting an argument of type `t` registers.
pub open spec fn arg_insts(n: Seq<char>, t: FinchType) -> Set<Seq<char>>
    decreases t,
{
    match t.canonical_type {
        Some(c) => arg_insts(n, *c),
        None => match class_of(n, t) {
            TypeClass::Optional => arg_insts(n, inner(t)).insert(option_decl(inner(t).display_name@)),
            _ => Set::empty(),
        },
    }
}

/// The expression that turns the ABI value `e` of type `t` into a host value.
pub open spec fn ret_text(n: Seq<char>, t: FinchType, e: Seq<char>) -> Result<Seq<char>, Seq<char>>
    decreases t,
{
    match t.canonical_type {
        Some(c) => ret_text(n, *c, e),
        None => match class_of(n, t) {
            TypeClass::Primitive => Ok(e),
            TypeClass::OwnedString => Ok(string_ret(n, e)),
            TypeClass::Optional => match host_type(n, inner(t)) {
                Ok(h) => match ret_text(n, inner(t), "finch.some._0"@) {
                    Ok(b) => Ok(option_ret(n, inner(t).display_name@, h, b, e)),
                    Err(m) => Err(m),
                },
                Err(m) => Err(m),
            },
            TypeClass::Fallible => match host_type(n, inner(t)) {
                Ok(h) => match ret_text(n, inner(t), "finch.ok._0"@) {
                    Ok(b) => Ok(result_ret(n, inner(t).display_name@, h, b, e)),
                    Err(m) => Err(m),
                },
                Err(m) => Err(m),
            },
            TypeClass::Unknown => Err(t.display_name@),
        },
    }
}

/// The instantiations that converting a return value of type `t` registers.
pub open spec fn ret_insts(n: Seq<char>, t: FinchType) -> Set<Seq<char>>
    decreases t,
{
    match t.canonical_type {
        Some(c) => ret_insts(n, *c),
        None => match class_of(n, t) {
            TypeClass::Optional => ret_insts(n, inner(t)).insert(option_decl(inner(t).display_name@)),
            TypeClass::Fallible => ret_insts(n, inner(t)).insert(result_decl(inner(t).display_name@)),
            _ => Set::empty(),
        },
    }
}

/// An exec result agrees with a spec result.
pub open spec fn agrees(r: Result<String, GenError>, s: Result<Seq<char>, Seq<char>>) -> bool {
    match r {
        Ok(v) => s == Ok::<Seq<char>, Seq<char>>(v@),
        Err(GenError::UnknownType(m)) => s == Err::<Seq<char>, Seq<char>>(m@),
    }
}

fn ns_text(n: &str) -> (r: String)
    ensures
        r@ == ns(n@),
{
    let mut r = String::from_str("finch::bindgen::");
    r.append(n);
    r.append("::");
    r
}

fn optional_of_text(h: &str) -> (r: String)
    ensures
        r@ == optional_of(h@),
{
    let mut r = String::from_str("nonstd::optional<");
    r.append(h);
    r.append(">");
    r
}

fn option_decl_text(d: &str) -> (r: String)
    ensures
        r@ == option_decl(d@),
{
    let mut r = String::from_str("template struct FinchOption<");
    r.append(d);
    r.append(">;");
    r
}

fn result_decl_text(d: &str) -> (r: String)
    ensures
        r@ == result_decl(d@),
{
    let mut r = String::from_str("template struct FinchResult<");
    r.append(d);
    r.append(">;");
    r
}

fn option_type_text(n: &str, d: &str) -> (r: String)
    ensures
        r@ == option_type(n@, d@),
{
    let mut r = ns_text(n);
    r.append("FinchOption<");
    r.append(d);
    r.append(">");
    r
}

fn result_type_text(n: &str, d: &str) -> (r: String)
    ensures
        r@ == result_type(n@, d@),
{
    let mut r = ns_text(n);
    r.append("FinchResult<");
    r.append(d);
    r.append(">");
    r
}

fn string_builtin_text(n: &str, op: &str) -> (r: String)
    ensures
        r@ == ns(n@) + "___finch_bindgen___"@ + n@ + "___builtin___FinchString___"@ + op@,
{
    let mut r = ns_text(n);
    r.append("___finch_bindgen___");
    r.append(n);
    r.append("___builtin___FinchString___");
    r.append(op);
    r
}

fn string_new_text(n: &str) -> (r: String)
    ensures
        r@ == string_new(n@),
{
    let r = string_builtin_text(n, "new");
    proof {
        reveal_strlit("new");
        reveal_strlit("___builtin___FinchString___");
        reveal_strlit("___builtin___FinchString___new");
        assert(r@ =~= string_new(n@));
    }
    r
}

fn string_drop_text(n: &str) -> (r: String)
    ensures
        r@ == string_drop(n@),
{
    let r = string_builtin_text(n, "drop");
    proof {
        reveal_strlit("drop");
        reveal_strlit("___builtin___FinchString___");
        reveal_strlit("___builtin___FinchString___drop");
        assert(r@ =~= string_drop(n@));
    }
    r
}

fn string_name_text(n: &str) -> (r: String)
    ensures
        r@ == string_name(n@),
{
    ns_text(n).concat("FinchString")
}

fn string_arg_text(n: &str, e: &str) -> (r: String)
    ensures
        r@ == string_arg(n@, e@),
{
    let mut r = String::from_str("[](std::string str) -> ");
    r.append(string_name_text(n).as_str());
    r.append(" { return ");
    r.append(string_new_text(n).as_str());
    r.append("(reinterpret_cast<const uint8_t *>(str.data()), str.size()); }(");
    r.append(e);
    r.append(")");
    r
}

fn string_ret_text(n: &str, e: &str) -> (r: String)
    ensures
        r@ == string_ret(n@, e@),
{
    let mut r = String::from_str("[](");
    r.append(string_name_text(n).as_str());
    r.append(" finch) -> std::string { std::string str(finch.ptr, finch.len); ");
    r.append(string_drop_text(n).as_str());
    r.append("(finch); return str; }(");
    r.append(e);
    r.append(")");
    r
}

fn option_arg_text(n: &str, d: &str, h: &str, b: &str, e: &str) -> (r: String)
    ensures
        r@ == option_arg(n@, d@, h@, b@, e@),
{
    let w = option_type_text(n, d);
    let mut r = String::from_str("[](");
    r.append(optional_of_text(h).as_str());
    r.append(" opt) -> ");
    r.append(w.as_str());
    r.append(" { ");
    r.append(w.as_str());
    r.append(" finch; if (opt.has_value()) { finch.tag = ");
    r.append(w.as_str());
    r.append("::Tag::Some; finch.some = { ");
    r.append(b);
    r.append(" }; } else { finch.tag = ");
    r.append(w.as_str());
    r.append("::Tag::None; } return finch; }(");
    r.append(e);
    r.append(")");
    r
}

fn option_ret_text(n: &str, d: &str, h: &str, b: &str, e: &str) -> (r: String)
    ensures
        r@ == option_ret(n@, d@, h@, b@, e@),
{
    let w = option_type_text(n, d);
    let o = optional_of_text(h);
    let mut r = String::from_str("[](");
    r.append(w.as_str());
    r.append(" finch) -> ");
    r.append(o.as_str());
    r.append(" { if (finch.tag == ");
    r.append(w.as_str());
    r.append("::Tag::Some) { return ");
    r.append(o.as_str());
    r.append("(");
    r.append(b);
    r.append("); } else { return nonstd::nullopt; } }(");
    r.append(e);
    r.append(")");
    r
}

fn result_ret_text(n: &str, d: &str, h: &str, b: &str, e: &str) -> (r: String)
    ensures
        r@ == result_ret(n@, d@, h@, b@, e@),
{
    let w = result_type_text(n, d);
    let mut r = String::from_str("[](");
    r.append(w.as_str());
    r.append(" finch) -> ");
    r.append(h);
    r.append(" { if (finch.tag == ");
    r.append(w.as_str());
    r.append("::Tag::Ok) { return ");
    r.append(b);
    r.append("; } else { std::string str(finch.err._0.ptr, finch.err._0.len); ");
    r.append(string_drop_text(n).as_str());
    r.append("(finch.err._0);\n#ifdef finch_bindgen_EXCEPTIONS\nthrow std::runtime_error(str);\n#else\nstd::cerr << \"fatal: Result returned Err(\\\"\" << str << \"\\\")\" << std::endl;\nabort();\n#endif\n} }(");
    r.append(e);
    r.append(")");
    r
}

/// The host type that callers see for `t`.
pub fn host_type_of(ctx: &mut GenContext, t: &FinchType) -> (r: Result<String, GenError>)
    requires
        old(ctx).wf(),
    ensures
        final(ctx).wf(),
        final(ctx).name() == old(ctx).name(),
        final(ctx).entries() == old(ctx).entries(),
        agrees(r, host_type(old(ctx).name(), *t)),
        r is Ok ==> final(ctx).optional_used() == (old(ctx).optional_used() || uses_optional(old(ctx).name(), *t)),
    decreases t,
{
    if let Some(c) = &t.canonical_type {
        return host_type_of(ctx, c);
    }
    let cls = class_of_resolved(ctx.crate_name(), t);
    match cls {
        TypeClass::Primitive => Ok(t.display_name.clone()),
        TypeClass::OwnedString => Ok(String::from_str("std::string")),
        TypeClass::Optional => {
            ctx.mark_optional();
            let i = t.template_argument_types[0].as_ref().unwrap();
            match host_type_of(ctx, i) {
                Ok(h) => Ok(optional_of_text(h.as_str())),
                Err(m) => Err(m),
            }
        },
        TypeClass::Fallible => {
            let i = t.template_argument_types[0].as_ref().unwrap();
            host_type_of(ctx, i)
        },
        TypeClass::Unknown => Err(GenError::UnknownType(t.display_name.clone())),
    }
}

/// The expression that turns the host value `e` of type `t` into its ABI form,
/// registering the instantiations it needs.
pub fn convert_arg(ctx: &mut GenContext, t: &FinchType, e: &str) -> (r: Result<String, GenError>)
    requires
        old(ctx).wf(),
    ensures
        final(ctx).wf(),
        final(ctx).name() == old(ctx).name(),
        agrees(r, arg_text(old(ctx).name(), *t, e@)),
        r is Ok ==> final(ctx).instantiations() == old(ctx).instantiations().union(arg_insts(old(ctx).name(), *t)),
        r is Ok ==> final(ctx).optional_used() == (old(ctx).optional_used() || uses_optional(old(ctx).name(), *t)),
    decreases t,
{
    if let Some(c) = &t.canonical_type {
        return convert_arg(ctx, c, e);
    }
    let n = String::from_str(ctx.crate_name());
    let cls = class_of_resolved(n.as_str(), t);
    match cls {
        TypeClass::Primitive => {
            proof {
                assert(ctx.instantiations().union(Set::empty()) =~= ctx.instantiations());
            }
            Ok(String::from_str(e))
        },
        TypeClass::OwnedString => {
            proof {
                assert(ctx.instantiations().union(Set::empty()) =~= ctx.instantiations());
            }
            Ok(string_arg_text(n.as_str(), e))
        },
        TypeClass::Optional => {
            let ghost c0 = *ctx;
            ctx.mark_optional();
            let i = t.template_argument_types[0].as_ref().unwrap();
            let h = match host_type_of(ctx, i) {
                Ok(h) => h,
                Err(m) => return Err(m),
            };
            let ghost c1 = *ctx;
            let b = match convert_arg(ctx, i, "opt.value()") {
                Ok(b) => b,
                Err(m) => return Err(m),
            };
            ctx.register(option_decl_text(i.display_name.as_str()));
            proof {
                assert(ctx.instantiations() =~= c0.instantiations().union(arg_insts(n@, *t)));
            }
            Ok(option_arg_text(n.as_str(), i.display_name.as_str(), h.as_str(), b.as_str(), e))
        },
        _ => Err(GenError::UnknownType(t.display_name.clone())),
    }
}

/// The expression that turns the ABI value `e` of type `t` into a host value,
/// freeing what the ABI owned, and registering the instantiations it needs.
pub fn convert_ret(ctx: &mut GenContext, t: &FinchType, e: &str) -> (r: Result<String, GenError>)
    requires
        old(ctx).wf(),
    ensures
        final(ctx).wf(),
        final(ctx).name() == old(ctx).name(),
        agrees(r, ret_text(old(ctx).name(), *t, e@)),
        r is Ok ==> final(ctx).instantiations() == old(ctx).instantiations().union(ret_insts(old(ctx).name(), *t)),
        r is Ok ==> final(ctx).optional_used() == (old(ctx).optional_used() || uses_optional(old(ctx).name(), *t)),
    decreases t,
{
    if let Some(c) = &t.canonical_type {
        return convert_ret(ctx, c, e);
    }
    let n = String::from_str(ctx.crate_name());
    let cls = class_of_resolved(n.as_str(), t);
    match cls {
        TypeClass::Primitive => {
            proof {
                assert(ctx.instantiations().union(Set::empty()) =~= ctx.instantiations());
            }
            Ok(String::from_str(e))
        },
        TypeClass::OwnedString => {
            proof {
                assert(ctx.instantiations().union(Set::empty()) =~= ctx.instantiations());
            }
            Ok(string_ret_text(n.as_str(), e))
        },
        TypeClass::Optional => {
            let ghost c0 = *ctx;
            ctx.mark_optional();
            let i = t.template_argument_types[0].as_ref().unwrap();
            let h = match host_type_of(ctx, i) {
                Ok(h) => h,
                Err(m) => return Err(m),
            };
            let b = match convert_ret(ctx, i, "finch.some._0") {
                Ok(b) => b,
                Err(m) => return Err(m),
            };
            ctx.register(option_decl_text(i.display_name.as_str()));
            proof {
                assert(ctx.instantiations() =~= c0.instantiations().union(ret_insts(n@, *t)));
            }
            Ok(option_ret_text(n.as_str(), i.display_name.as_str(), h.as_str(), b.as_str(), e))
        },
        TypeClass::Fallible => {
            let ghost c0 = *ctx;
            let i = t.template_argument_types[0].as_ref().unwrap();
            let h = match host_type_of(ctx, i) {
                Ok(h) => h,
                Err(m) => return Err(m),
            };
            let b = match convert_ret(ctx, i, "finch.ok._0") {
                Ok(b) => b,
                Err(m) => return Err(m),
            };
            ctx.register(result_decl_text(i.display_name.as_str()));
            proof {
                assert(ctx.instantiations() =~= c0.instantiations().union(ret_insts(n@, *t)));
            }
            Ok(result_ret_text(n.as_str(), i.display_name.as_str(), h.as_str(), b.as_str(), e))
        },
        TypeClass::Unknown => Err(GenError::UnknownType(t.display_name.clone())),
    }
}

/// A primitive type crosses the ABI unchanged: its host type is its own name,
/// both conversions hand the expression back as it is, and nothing is registered.
pub proof fn lemma_primitive_identity(n: Seq<char>, t: FinchType, e: Seq<char>)
    requires
        is_primitive_kind(resolved(t).kind),
    ensures
        host_type(n, t) == Ok::<Seq<char>, Seq<char>>(resolved(t).display_name@),
        arg_text(n, t, e) == Ok::<Seq<char>, Seq<char>>(e),
        ret_text(n, t, e) == Ok::<Seq<char>, Seq<char>>(e),
        arg_insts(n, t) == Set::<Seq<char>>::empty(),
        ret_insts(n, t) == Set::<Seq<char>>::empty(),
        !uses_optional(n, t),
    decreases t,
{
    if let Some(c) = t.canonical_type {
        lemma_primitive_identity(n, *c, e);
    }
}

/// An alias behaves exactly as the type it stands for, and as the type at the
/// end of its alias chain, in classification and in every marshalling operation.
pub proof fn lemma_alias_transparent(n: Seq<char>, t: FinchType, e: Seq<char>)
    requires
        t.canonical_type is Some,
    ensures
        ({
            let c = *(t.canonical_type->Some_0);
            &&& classify(n, t) == classify(n, c)
            &&& host_type(n, t) == host_type(n, c)
            &&& arg_text(n, t, e) == arg_text(n, c, e)
            &&& ret_text(n, t, e) == ret_text(n, c, e)
            &&& arg_insts(n, t) == arg_insts(n, c)
            &&& ret_insts(n, t) == ret_insts(n, c)
            &&& uses_optional(n, t) == uses_optional(n, c)
        }),
        host_type(n, t) == host_type(n, resolved(t)),
        arg_text(n, t, e) == arg_text(n, resolved(t), e),
        ret_text(n, t, e) == ret_text(n, resolved(t), e),
{
    lemma_resolved_same(n, t, e);
}

proof fn lemma_resolved_same(n: Seq<char>, t: FinchType, e: Seq<char>)
    ensures
        host_type(n, t) == host_type(n, resolved(t)),
        arg_text(n, t, e) == arg_text(n, resolved(t), e),
        ret_text(n, t, e) == ret_text(n, resolved(t), e),
        resolved(t).canonical_type is None,
    decreases t,
{
    if let Some(c) = t.canonical_type {
        lemma_resolved_same(n, *c, e);
    }
}

/// A host string sent to the ABI and taken straight back: the record built
/// from the host bytes is copied into a fresh host string, and the record is
/// then freed, so nothing owned by the ABI is left.
pub proof fn lemma_string_round_trip(n: Seq<char>, t: FinchType, e: Seq<char>)
    requires
        classify(n, t) is OwnedString,
    ensures
        arg_text(n, t, e) == Ok::<Seq<char>, Seq<char>>(string_arg(n, e)),
        ret_text(n, t, string_arg(n, e)) == Ok::<Seq<char>, Seq<char>>(string_ret(n, string_arg(n, e))),
        exists|pre: Seq<char>, post: Seq<char>|
            string_ret(n, string_arg(n, e)) == pre + string_drop(n) + "(finch); return str; }("@ + string_arg(n, e)
                + post,
        arg_insts(n, t) == Set::<Seq<char>>::empty(),
        ret_insts(n, t) == Set::<Seq<char>>::empty(),
    decreases t,
{
    if let Some(c) = t.canonical_type {
        lemma_string_round_trip(n, *c, e);
    } else {
        let pre = "[]("@ + string_name(n) + " finch) -> std::string { std::string str(finch.ptr, finch.len); "@;
        assert(string_ret(n, string_arg(n, e)) =~= pre + string_drop(n) + "(finch); return str; }("@
            + string_arg(n, e) + ")"@);
    }
}

/// Marshalling an optional or result type registers its declaration, and
/// marshalling the same type again, either way round, registers nothing new:
/// each wrapper instantiation is declared once however often it is used.
pub proof fn lemma_wrapper_registered_once(n: Seq<char>, t: FinchType, s: Set<Seq<char>>)
    ensures
        classify(n, t) is Optional ==> arg_insts(n, t).contains(option_decl(inner(resolved(t)).display_name@)),
        classify(n, t) is Optional ==> ret_insts(n, t).contains(option_decl(inner(resolved(t)).display_name@)),
        classify(n, t) is Fallible ==> ret_insts(n, t).contains(result_decl(inner(resolved(t)).display_name@)),
        arg_insts(n, t).subset_of(ret_insts(n, t)),
        s.union(arg_insts(n, t)).union(arg_insts(n, t)) == s.union(arg_insts(n, t)),
        s.union(ret_insts(n, t)).union(ret_insts(n, t)) == s.union(ret_insts(n, t)),
        s.union(ret_insts(n, t)).union(arg_insts(n, t)) == s.union(ret_insts(n, t)),
    decreases t,
{
    if let Some(c) = t.canonical_type {
        lemma_wrapper_registered_once(n, *c, s);
    } else if class_of(n, t) is Optional || class_of(n, t) is Fallible {
        lemma_wrapper_registered_once(n, inner(t), s);
    }
    assert(s.union(arg_insts(n, t)).union(arg_insts(n, t)) =~= s.union(arg_insts(n, t)));
    assert(s.union(ret_insts(n, t)).union(ret_insts(n, t)) =~= s.union(ret_insts(n, t)));
    assert(s.union(ret_insts(n, t)).union(arg_insts(n, t)) =~= s.union(ret_insts(n, t)));
}

} // verus!
