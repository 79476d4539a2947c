use vstd::prelude::*;
use crate::context::GenContext;
use crate::marshal::{
    agrees, arg_insts, arg_text, convert_arg, convert_ret, host_type, host_type_of,
    lemma_primitive_identity, ret_insts, ret_text, uses_optional,
};
use crate::types::{resolved, FinchType, GenError, TypeKind};

verus! {

/// `T1 a, T2 b, ...` for the first `k` arguments.
pub open spec fn params_text(n: Seq<char>, names: Seq<String>, types: Seq<FinchType>, k: nat) -> Result<
    Seq<char>,
    Seq<char>,
>
    decreases k,
{
    if k == 0 {
        Ok(Seq::empty())
    } else {
        match params_text(n, names, types, (k - 1) as nat) {
            Ok(p) => match host_type(n, types[k - 1]) {
                Ok(h) => Ok(
                    if k == 1 {
                        h + " "@ + names[k - 1]@
                    } else {
                        p + ", "@ + h + " "@ + names[k - 1]@
                    },
                ),
                Err(m) => Err(m),
            },
            Err(m) => Err(m),
        }
    }
}

/// The first `k` arguments converted to their ABI form, separated by commas.
pub open spec fn args_text(n: Seq<char>, names: Seq<String>, types: Seq<FinchType>, k: nat) -> Result<
    Seq<char>,
    Seq<char>,
>
    decreases k,
{
    if k == 0 {
        Ok(Seq::empty())
    } else {
        match args_text(n, names, types, (k - 1) as nat) {
            Ok(p) => match arg_text(n, types[k - 1], names[k - 1]@) {
                Ok(a) => Ok(
                    if k == 1 {
                        a
                    } else {
                        p + ", "@ + a
                    },
                ),
                Err(m) => Err(m),
            },
            Err(m) => Err(m),
        }
    }
}

/// Whether any of the first `k` types holds an optional.
pub open spec fn list_uses_optional(n: Seq<char>, types: Seq<FinchType>, k: nat) -> bool
    decreases k,
{
    k > 0 && (list_uses_optional(n, types, (k - 1) as nat) || uses_optional(n, types[k - 1]))
}

/// The instantiations registered by converting the first `k` arguments.
pub open spec fn list_arg_insts(n: Seq<char>, types: Seq<FinchType>, k: nat) -> Set<Seq<char>>
    decreases k,
{
    if k == 0 {
        Set::empty()
    } else {
        list_arg_insts(n, types, (k - 1) as nat).union(arg_insts(n, types[k - 1]))
    }
}

proof fn lemma_params_err(n: Seq<char>, names: Seq<String>, types: Seq<FinchType>, k: nat, j: nat)
    requires
        k <= j,
        params_text(n, names, types, k) is Err,
    ensures
        params_text(n, names, types, j) == params_text(n, names, types, k),
    decreases j,
{
    if k < j {
        lemma_params_err(n, names, types, k, (j - 1) as nat);
    }
}

proof fn lemma_args_err(n: Seq<char>, names: Seq<String>, types: Seq<FinchType>, k: nat, j: nat)
    requires
        k <= j,
        args_text(n, names, types, k) is Err,
    ensures
        args_text(n, names, types, j) == args_text(n, names, types, k),
    decreases j,
{
    if k < j {
        lemma_args_err(n, names, types, k, (j - 1) as nat);
    }
}

/// The parameter list of a declaration.
pub fn params_of(ctx: &mut GenContext, names: &Vec<String>, types: &Vec<FinchType>) -> (r: Result<
    String,
    GenError,
>)
    requires
        old(ctx).wf(),
        names@.len() == types@.len(),
    ensures
        final(ctx).wf(),
        final(ctx).name() == old(ctx).name(),
        final(ctx).entries() == old(ctx).entries(),
        agrees(r, params_text(old(ctx).name(), names@, types@, names@.len())),
        r is Ok ==> final(ctx).optional_used() == (old(ctx).optional_used() || list_uses_optional(
            old(ctx).name(),
            types@,
            types@.len(),
        )),
{
    let ghost n = ctx.name();
    let ghost f0 = ctx.optional_used();
    let ghost e0 = ctx.entries();
    let mut s = String::new();
    let mut i: usize = 0;
    while i < names.len()
        invariant
            names@.len() == types@.len(),
            i <= names@.len(),
            ctx.wf(),
            ctx.name() == n,
            ctx.entries() == e0,
            n == old(ctx).name(),
            e0 == old(ctx).entries(),
            f0 == old(ctx).optional_used(),
            params_text(n, names@, types@, i as nat) == Ok::<Seq<char>, Seq<char>>(s@),
            ctx.optional_used() == (f0 || list_uses_optional(n, types@, i as nat)),
        decreases names@.len() - i,
    {
        let h = match host_type_of(ctx, &types[i]) {
            Ok(h) => h,
            Err(m) => {
                proof {
                    lemma_params_err(n, names@, types@, (i + 1) as nat, names@.len());
                }
                return Err(m);
            },
        };
        if i > 0 {
            s.append(", ");
        }
        s.append(h.as_str());
        s.append(" ");
        s.append(names[i].as_str());
        i += 1;
    }
    Ok(s)
}

/// The arguments of a call, each converted to its ABI form.
pub fn call_args_of(ctx: &mut GenContext, names: &Vec<String>, types: &Vec<FinchType>) -> (r: Result<
    String,
    GenError,
>)
    requires
        old(ctx).wf(),
        names@.len() == types@.len(),
    ensures
        final(ctx).wf(),
        final(ctx).name() == old(ctx).name(),
        agrees(r, args_text(old(ctx).name(), names@, types@, names@.len())),
        r is Ok ==> final(ctx).instantiations() == old(ctx).instantiations().union(
            list_arg_insts(old(ctx).name(), types@, types@.len()),
        ),
        r is Ok ==> final(ctx).optional_used() == (old(ctx).optional_used() || list_uses_optional(
            old(ctx).name(),
            types@,
            types@.len(),
        )),
{
    let ghost n = ctx.name();
    let ghost f0 = ctx.optional_used();
    let ghost s0 = ctx.instantiations();
    let mut s = String::new();
    let mut i: usize = 0;
    proof {
        assert(s0.union(Set::empty()) =~= s0);
    }
    while i < names.len()
        invariant
            names@.len() == types@.len(),
            i <= names@.len(),
            ctx.wf(),
            ctx.name() == n,
            ctx.instantiations() == s0.union(list_arg_insts(n, types@, i as nat)),
            n == old(ctx).name(),
            s0 == old(ctx).instantiations(),
            f0 == old(ctx).optional_used(),
            args_text(n, names@, types@, i as nat) == Ok::<Seq<char>, Seq<char>>(s@),
            ctx.optional_used() == (f0 || list_uses_optional(n, types@, i as nat)),
        decreases names@.len() - i,
    {
        let a = match convert_arg(ctx, &types[i], names[i].as_str()) {
            Ok(a) => a,
            Err(m) => {
                proof {
                    lemma_args_err(n, names@, types@, (i + 1) as nat, names@.len());
                }
                return Err(m);
            },
        };
        proof {
            assert(ctx.instantiations() =~= s0.union(list_arg_insts(n, types@, (i + 1) as nat)));
        }
        if i > 0 {
            s.append(", ");
        }
        s.append(a.as_str());
        i += 1;
    }
    Ok(s)
}

/// A member of a class, rendered as a declaration and as a definition.
pub trait ToCpp: Sized {
    /// The member is well formed (as many argument names as types).
    spec fn wf(&self) -> bool;

    /// The declaration, for the crate namespace `n`.
    spec fn header_spec(&self, n: Seq<char>) -> Result<Seq<char>, Seq<char>>;

    /// Whether the declaration holds an optional.
    spec fn header_uses_optional(&self, n: Seq<char>) -> bool;

    /// The definition, for the crate namespace `n`.
    spec fn impl_spec(&self, n: Seq<char>) -> Result<Seq<char>, Seq<char>>;

    /// The instantiations that the definition needs.
    spec fn impl_insts(&self, n: Seq<char>) -> Set<Seq<char>>;

    /// Whether the definition holds an optional.
    spec fn impl_uses_optional(&self, n: Seq<char>) -> bool;

    fn to_header(&self, ctx: &mut GenContext) -> (r: Result<String, GenError>)
        requires
            self.wf(),
            old(ctx).wf(),
        ensures
            final(ctx).wf(),
            final(ctx).name() == old(ctx).name(),
            final(ctx).entries() == old(ctx).entries(),
            agrees(r, self.header_spec(old(ctx).name())),
            r is Ok ==> final(ctx).optional_used() == (old(ctx).optional_used()
                || self.header_uses_optional(old(ctx).name())),
    ;

    fn to_impl(&self, ctx: &mut GenContext) -> (r: Result<String, GenError>)
        requires
            self.wf(),
            old(ctx).wf(),
        ensures
            final(ctx).wf(),
            final(ctx).name() == old(ctx).name(),
            agrees(r, self.impl_spec(old(ctx).name())),
            r is Ok ==> final(ctx).instantiations() == old(ctx).instantiations().union(
                self.impl_insts(old(ctx).name()),
            ),
            r is Ok ==> final(ctx).optional_used() == (old(ctx).optional_used()
                || self.impl_uses_optional(old(ctx).name())),
    ;
}

/// A leading comment line, if there is a comment.
pub open spec fn comment_spec(c: Option<String>) -> Seq<char> {
    match c {
        Some(s) => s@ + "\n"@,
        None => Seq::empty(),
    }
}

pub(crate) fn comment_text(c: &Option<String>) -> (r: String)
    ensures
        r@ == comment_spec(*c),
{
    match c {
        Some(s) => s.clone().concat("\n"),
        None => String::new(),
    }
}

/// The check that opens every member that uses the handle: in every build, a
/// null handle (given up or destroyed) prints the reason and ends the process
/// before any ABI call.
pub open spec fn guard() -> Seq<char> {
    "  if (this->self == nullptr) {\n    std::cerr << \"The internal pointer on this object is no longer valid. Either the destructor or a method that consumes the internal pointer has been called.\" << std::endl;\n    abort();\n  }\n"@
}

fn guard_text() -> (r: String)
    ensures
        r@ == guard(),
{
    String::from_str(
        "  if (this->self == nullptr) {\n    std::cerr << \"The internal pointer on this object is no longer valid. Either the destructor or a method that consumes the internal pointer has been called.\" << std::endl;\n    abort();\n  }\n",
    )
}

/// A constructor.
#[derive(Debug)]
pub struct FinchNew {
    pub class_name: String,
    pub fn_name: String,
    pub arg_names: Vec<String>,
    pub arg_types: Vec<FinchType>,
    pub comments: Option<String>,
}

/// A destructor.
#[derive(Debug)]
pub struct FinchDrop {
    pub class_name: String,
    pub fn_name: String,
}

impl ToCpp for FinchNew {
    open spec fn wf(&self) -> bool {
        self.arg_names@.len() == self.arg_types@.len()
    }

    open spec fn header_spec(&self, n: Seq<char>) -> Result<Seq<char>, Seq<char>> {
        match params_text(n, self.arg_names@, self.arg_types@, self.arg_names@.len()) {
            Ok(p) => Ok(comment_spec(self.comments) + self.class_name@ + "("@ + p + ");\n"@),
            Err(m) => Err(m),
        }
    }

    open spec fn header_uses_optional(&self, n: Seq<char>) -> bool {
        list_uses_optional(n, self.arg_types@, self.arg_types@.len())
    }

    open spec fn impl_spec(&self, n: Seq<char>) -> Result<Seq<char>, Seq<char>> {
        match params_text(n, self.arg_names@, self.arg_types@, self.arg_names@.len()) {
            Ok(p) => match args_text(n, self.arg_names@, self.arg_types@, self.arg_names@.len()) {
                Ok(a) => Ok(
                    self.class_name@ + "::"@ + self.class_name@ + "("@ + p + ") {\n  this->self = "@
                        + self.fn_name@ + "("@ + a + ");\n}\n"@,
                ),
                Err(m) => Err(m),
            },
            Err(m) => Err(m),
        }
    }

    open spec fn impl_insts(&self, n: Seq<char>) -> Set<Seq<char>> {
        list_arg_insts(n, self.arg_types@, self.arg_types@.len())
    }

    open spec fn impl_uses_optional(&self, n: Seq<char>) -> bool {
        list_uses_optional(n, self.arg_types@, self.arg_types@.len())
    }

    fn to_header(&self, ctx: &mut GenContext) -> (r: Result<String, GenError>) {
        let p = match params_of(ctx, &self.arg_names, &self.arg_types) {
            Ok(p) => p,
            Err(m) => return Err(m),
        };
        let mut r = comment_text(&self.comments);
        r.append(self.class_name.as_str());
        r.append("(");
        r.append(p.as_str());
        r.append(");\n");
        Ok(r)
    }

    fn to_impl(&self, ctx: &mut GenContext) -> (r: Result<String, GenError>) {
        let p = match params_of(ctx, &self.arg_names, &self.arg_types) {
            Ok(p) => p,
            Err(m) => return Err(m),
        };
        let a = match call_args_of(ctx, &self.arg_names, &self.arg_types) {
            Ok(a) => a,
            Err(m) => return Err(m),
        };
        let mut r = self.class_name.clone();
        r.append("::");
        r.append(self.class_name.as_str());
        r.append("(");
        r.append(p.as_str());
        r.append(") {\n  this->self = ");
        r.append(self.fn_name.as_str());
        r.append("(");
        r.append(a.as_str());
        r.append(");\n}\n");
        Ok(r)
    }
}

impl ToCpp for FinchDrop {
    open spec fn wf(&self) -> bool {
        true
    }

    open spec fn header_spec(&self, n: Seq<char>) -> Result<Seq<char>, Seq<char>> {
        Ok("~"@ + self.class_name@ + "();\n"@)
    }

    open spec fn header_uses_optional(&self, n: Seq<char>) -> bool {
        false
    }

    /// Destroys the handle only while the object still holds it.
    open spec fn impl_spec(&self, n: Seq<char>) -> Result<Seq<char>, Seq<char>> {
        Ok(
            self.class_name@ + "::~"@ + self.class_name@ + "() {\n  if (this->self) {\n    "@
                + self.fn_name@ + "(this->self);\n  }\n}\n"@,
        )
    }

    open spec fn impl_insts(&self, n: Seq<char>) -> Set<Seq<char>> {
        Set::empty()
    }

    open spec fn impl_uses_optional(&self, n: Seq<char>) -> bool {
        false
    }

    fn to_header(&self, ctx: &mut GenContext) -> (r: Result<String, GenError>) {
        let mut r = String::from_str("~");
        r.append(self.class_name.as_str());
        r.append("();\n");
        Ok(r)
    }

    fn to_impl(&self, ctx: &mut GenContext) -> (r: Result<String, GenError>) {
        let mut r = self.class_name.clone();
        r.append("::~");
        r.append(self.class_name.as_str());
        r.append("() {\n  if (this->self) {\n    ");
        r.append(self.fn_name.as_str());
        r.append("(this->self);\n  }\n}\n");
        proof {
            assert(ctx.instantiations().union(Set::empty()) =~= ctx.instantiations());
        }
        Ok(r)
    }
}

/// An instance method; `consume` means the call takes the handle over.
#[derive(Debug)]
pub struct FinchMethod {
    pub class_name: String,
    pub method_name: String,
    pub fn_name: String,
    pub arg_names: Vec<String>,
    pub arg_types: Vec<FinchType>,
    pub ret_type: FinchType,
    pub consume: bool,
    pub comments: Option<String>,
}

/// `f(this->self, a1, a2, ...)`
pub open spec fn handle_call(f: Seq<char>, a: Seq<char>, k: nat) -> Seq<char> {
    f + "(this->self"@ + (if k == 0 {
        Seq::empty()
    } else {
        ", "@ + a
    }) + ")"@
}

fn handle_call_text(f: &str, a: &str, k: usize) -> (r: String)
    ensures
        r@ == handle_call(f@, a@, k as nat),
{
    let mut r = String::from_str(f);
    r.append("(this->self");
    if k != 0 {
        r.append(", ");
        r.append(a);
    } else {
        proof {
            assert(r@ + Seq::<char>::empty() =~= r@);
        }
    }
    proof {
        let tail: Seq<char> = if k == 0 { Seq::empty() } else { ", "@ + a@ };
        assert(r@ =~= f@ + "(this->self"@ + tail);
    }
    r.append(")");
    r
}

/// What a method does after its guard: a consuming method gives the handle
/// up once the call has returned; any other method returns the converted result.
pub open spec fn method_body(m: FinchMethod, n: Seq<char>, call: Seq<char>) -> Result<Seq<char>, Seq<char>> {
    if m.consume && resolved(m.ret_type).kind is Void {
        Ok("  "@ + call + ";\n  this->self = nullptr;\n}\n"@)
    } else if m.consume {
        match ret_text(n, m.ret_type, "value"@) {
            Ok(b) => Ok("  auto value = "@ + call + ";\n  this->self = nullptr;\n  return "@ + b + ";\n}\n"@),
            Err(e) => Err(e),
        }
    } else {
        match ret_text(n, m.ret_type, call) {
            Ok(b) => Ok("  return "@ + b + ";\n}\n"@),
            Err(e) => Err(e),
        }
    }
}

impl ToCpp for FinchMethod {
    open spec fn wf(&self) -> bool {
        self.arg_names@.len() == self.arg_types@.len()
    }

    open spec fn header_spec(&self, n: Seq<char>) -> Result<Seq<char>, Seq<char>> {
        match host_type(n, self.ret_type) {
            Ok(t) => match params_text(n, self.arg_names@, self.arg_types@, self.arg_names@.len()) {
                Ok(p) => Ok(comment_spec(self.comments) + t + " "@ + self.method_name@ + "("@ + p + ");\n"@),
                Err(m) => Err(m),
            },
            Err(m) => Err(m),
        }
    }

    open spec fn header_uses_optional(&self, n: Seq<char>) -> bool {
        uses_optional(n, self.ret_type) || list_uses_optional(n, self.arg_types@, self.arg_types@.len())
    }

    open spec fn impl_spec(&self, n: Seq<char>) -> Result<Seq<char>, Seq<char>> {
        match host_type(n, self.ret_type) {
            Ok(t) => match params_text(n, self.arg_names@, self.arg_types@, self.arg_names@.len()) {
                Ok(p) => match args_text(n, self.arg_names@, self.arg_types@, self.arg_names@.len()) {
                    Ok(a) => match method_body(*self, n, handle_call(self.fn_name@, a, self.arg_names@.len())) {
                        Ok(b) => Ok(
                            t + " "@ + self.class_name@ + "::"@ + self.method_name@ + "("@ + p + ") {\n"@
                                + guard() + b,
                        ),
                        Err(m) => Err(m),
                    },
                    Err(m) => Err(m),
                },
                Err(m) => Err(m),
            },
            Err(m) => Err(m),
        }
    }

    open spec fn impl_insts(&self, n: Seq<char>) -> Set<Seq<char>> {
        list_arg_insts(n, self.arg_types@, self.arg_types@.len()).union(ret_insts(n, self.ret_type))
    }

    open spec fn impl_uses_optional(&self, n: Seq<char>) -> bool {
        uses_optional(n, self.ret_type) || list_uses_optional(n, self.arg_types@, self.arg_types@.len())
    }

    fn to_header(&self, ctx: &mut GenContext) -> (r: Result<String, GenError>) {
        let t = match host_type_of(ctx, &self.ret_type) {
            Ok(t) => t,
            Err(m) => return Err(m),
        };
        let p = match params_of(ctx, &self.arg_names, &self.arg_types) {
            Ok(p) => p,
            Err(m) => return Err(m),
        };
        let mut r = comment_text(&self.comments);
        r.append(t.as_str());
        r.append(" ");
        r.append(self.method_name.as_str());
        r.append("(");
        r.append(p.as_str());
        r.append(");\n");
        Ok(r)
    }

    fn to_impl(&self, ctx: &mut GenContext) -> (r: Result<String, GenError>) {
        let ghost c0 = *ctx;
        let ghost n = ctx.name();
        let t = match host_type_of(ctx, &self.ret_type) {
            Ok(t) => t,
            Err(m) => return Err(m),
        };
        let p = match params_of(ctx, &self.arg_names, &self.arg_types) {
            Ok(p) => p,
            Err(m) => return Err(m),
        };
        let a = match call_args_of(ctx, &self.arg_names, &self.arg_types) {
            Ok(a) => a,
            Err(m) => return Err(m),
        };
        let call = handle_call_text(self.fn_name.as_str(), a.as_str(), self.arg_names.len());
        let ghost c1 = *ctx;
        let mut r = t;
        r.append(" ");
        r.append(self.class_name.as_str());
        r.append("::");
        r.append(self.method_name.as_str());
        r.append("(");
        r.append(p.as_str());
        r.append(") {\n");
        r.append(guard_text().as_str());
        let body;
        if self.consume && self.ret_type.resolve().kind == TypeKind::Void {
            let mut b = String::from_str("  ");
            b.append(call.as_str());
            b.append(";\n  this->self = nullptr;\n}\n");
            body = b;
            proof {
                lemma_primitive_identity(n, self.ret_type, Seq::empty());
                assert(ctx.instantiations() =~= c0.instantiations().union(self.impl_insts(n)));
            }
        } else if self.consume {
            let v = match convert_ret(ctx, &self.ret_type, "value") {
                Ok(v) => v,
                Err(m) => return Err(m),
            };
            let mut b = String::from_str("  auto value = ");
            b.append(call.as_str());
            b.append(";\n  this->self = nullptr;\n  return ");
            b.append(v.as_str());
            b.append(";\n}\n");
            body = b;
            proof {
                assert(ctx.instantiations() =~= c0.instantiations().union(self.impl_insts(n)));
            }
        } else {
            let v = match convert_ret(ctx, &self.ret_type, call.as_str()) {
                Ok(v) => v,
                Err(m) => return Err(m),
            };
            let mut b = String::from_str("  return ");
            b.append(v.as_str());
            b.append(";\n}\n");
            body = b;
            proof {
                assert(ctx.instantiations() =~= c0.instantiations().union(self.impl_insts(n)));
            }
        }
        r.append(body.as_str());
        Ok(r)
    }
}

/// A static method: no handle, no guard.
#[derive(Debug)]
pub struct FinchStatic {
    pub class_name: String,
    pub method_name: String,
    pub fn_name: String,
    pub arg_names: Vec<String>,
    pub arg_types: Vec<FinchType>,
    pub ret_type: FinchType,
    pub comments: Option<String>,
}

/// A field reader.
#[derive(Debug)]
pub struct FinchGetter {
    pub class_name: String,
    pub field_name: String,
    pub fn_name: String,
    pub type_: FinchType,
    pub comments: Option<String>,
}

/// A field writer.
#[derive(Debug)]
pub struct FinchSetter {
    pub class_name: String,
    pub field_name: String,
    pub fn_name: String,
    pub type_: FinchType,
    pub comments: Option<String>,
}

impl ToCpp for FinchStatic {
    open spec fn wf(&self) -> bool {
        self.arg_names@.len() == self.arg_types@.len()
    }

    open spec fn header_spec(&self, n: Seq<char>) -> Result<Seq<char>, Seq<char>> {
        match host_type(n, self.ret_type) {
            Ok(t) => match params_text(n, self.arg_names@, self.arg_types@, self.arg_names@.len()) {
                Ok(p) => Ok(
                    comment_spec(self.comments) + "static "@ + t + " "@ + self.method_name@ + "("@ + p
                        + ");\n"@,
                ),
                Err(m) => Err(m),
            },
            Err(m) => Err(m),
        }
    }

    open spec fn header_uses_optional(&self, n: Seq<char>) -> bool {
        uses_optional(n, self.ret_type) || list_uses_optional(n, self.arg_types@, self.arg_types@.len())
    }

    open spec fn impl_spec(&self, n: Seq<char>) -> Result<Seq<char>, Seq<char>> {
        match host_type(n, self.ret_type) {
            Ok(t) => match params_text(n, self.arg_names@, self.arg_types@, self.arg_names@.len()) {
                Ok(p) => match args_text(n, self.arg_names@, self.arg_types@, self.arg_names@.len()) {
                    Ok(a) => match ret_text(n, self.ret_type, self.fn_name@ + "("@ + a + ")"@) {
                        Ok(b) => Ok(
                            t + " "@ + self.class_name@ + "::"@ + self.method_name@ + "("@ + p
                                + ") {\n  return "@ + b + ";\n}\n"@,
                        ),
                        Err(m) => Err(m),
                    },
                    Err(m) => Err(m),
                },
                Err(m) => Err(m),
            },
            Err(m) => Err(m),
        }
    }

    open spec fn impl_insts(&self, n: Seq<char>) -> Set<Seq<char>> {
        list_arg_insts(n, self.arg_types@, self.arg_types@.len()).union(ret_insts(n, self.ret_type))
    }

    open spec fn impl_uses_optional(&self, n: Seq<char>) -> bool {
        uses_optional(n, self.ret_type) || list_uses_optional(n, self.arg_types@, self.arg_types@.len())
    }

    fn to_header(&self, ctx: &mut GenContext) -> (r: Result<String, GenError>) {
        let t = match host_type_of(ctx, &self.ret_type) {
            Ok(t) => t,
            Err(m) => return Err(m),
        };
        let p = match params_of(ctx, &self.arg_names, &self.arg_types) {
            Ok(p) => p,
            Err(m) => return Err(m),
        };
        let mut r = comment_text(&self.comments);
        r.append("static ");
        r.append(t.as_str());
        r.append(" ");
        r.append(self.method_name.as_str());
        r.append("(");
        r.append(p.as_str());
        r.append(");\n");
        Ok(r)
    }

    fn to_impl(&self, ctx: &mut GenContext) -> (r: Result<String, GenError>) {
        let ghost c0 = *ctx;
        let ghost n = ctx.name();
        let t = match host_type_of(ctx, &self.ret_type) {
            Ok(t) => t,
            Err(m) => return Err(m),
        };
        let p = match params_of(ctx, &self.arg_names, &self.arg_types) {
            Ok(p) => p,
            Err(m) => return Err(m),
        };
        let a = match call_args_of(ctx, &self.arg_names, &self.arg_types) {
            Ok(a) => a,
            Err(m) => return Err(m),
        };
        let mut call = self.fn_name.clone();
        call.append("(");
        call.append(a.as_str());
        call.append(")");
        let b = match convert_ret(ctx, &self.ret_type, call.as_str()) {
            Ok(b) => b,
            Err(m) => return Err(m),
        };
        proof {
            assert(ctx.instantiations() =~= c0.instantiations().union(self.impl_insts(n)));
        }
        let mut r = t;
        r.append(" ");
        r.append(self.class_name.as_str());
        r.append("::");
        r.append(self.method_name.as_str());
        r.append("(");
        r.append(p.as_str());
        r.append(") {\n  return ");
        r.append(b.as_str());
        r.append(";\n}\n");
        Ok(r)
    }
}

impl ToCpp for FinchGetter {
    open spec fn wf(&self) -> bool {
        true
    }

    open spec fn header_spec(&self, n: Seq<char>) -> Result<Seq<char>, Seq<char>> {
        match host_type(n, self.type_) {
            Ok(t) => Ok(comment_spec(self.comments) + t + " get_"@ + self.field_name@ + "();\n"@),
            Err(m) => Err(m),
        }
    }

    open spec fn header_uses_optional(&self, n: Seq<char>) -> bool {
        uses_optional(n, self.type_)
    }

    open spec fn impl_spec(&self, n: Seq<char>) -> Result<Seq<char>, Seq<char>> {
        match host_type(n, self.type_) {
            Ok(t) => match ret_text(n, self.type_, self.fn_name@ + "(this->self)"@) {
                Ok(b) => Ok(
                    t + " "@ + self.class_name@ + "::get_"@ + self.field_name@ + "() {\n"@ + guard()
                        + "  return "@ + b + ";\n}\n"@,
                ),
                Err(m) => Err(m),
            },
            Err(m) => Err(m),
        }
    }

    open spec fn impl_insts(&self, n: Seq<char>) -> Set<Seq<char>> {
        ret_insts(n, self.type_)
    }

    open spec fn impl_uses_optional(&self, n: Seq<char>) -> bool {
        uses_optional(n, self.type_)
    }

    fn to_header(&self, ctx: &mut GenContext) -> (r: Result<String, GenError>) {
        let t = match host_type_of(ctx, &self.type_) {
            Ok(t) => t,
            Err(m) => return Err(m),
        };
        let mut r = comment_text(&self.comments);
        r.append(t.as_str());
        r.append(" get_");
        r.append(self.field_name.as_str());
        r.append("();\n");
        Ok(r)
    }

    fn to_impl(&self, ctx: &mut GenContext) -> (r: Result<String, GenError>) {
        let t = match host_type_of(ctx, &self.type_) {
            Ok(t) => t,
            Err(m) => return Err(m),
        };
        let mut call = self.fn_name.clone();
        call.append("(this->self)");
        let b = match convert_ret(ctx, &self.type_, call.as_str()) {
            Ok(b) => b,
            Err(m) => return Err(m),
        };
        let mut r = t;
        r.append(" ");
        r.append(self.class_name.as_str());
        r.append("::get_");
        r.append(self.field_name.as_str());
        r.append("() {\n");
        r.append(guard_text().as_str());
        r.append("  return ");
        r.append(b.as_str());
        r.append(";\n}\n");
        Ok(r)
    }
}

impl ToCpp for FinchSetter {
    open spec fn wf(&self) -> bool {
        true
    }

    open spec fn header_spec(&self, n: Seq<char>) -> Result<Seq<char>, Seq<char>> {
        match host_type(n, self.type_) {
            Ok(t) => Ok(comment_spec(self.comments) + "void set_"@ + self.field_name@ + "("@ + t + " value);\n"@),
            Err(m) => Err(m),
        }
    }

    open spec fn header_uses_optional(&self, n: Seq<char>) -> bool {
        uses_optional(n, self.type_)
    }

    open spec fn impl_spec(&self, n: Seq<char>) -> Result<Seq<char>, Seq<char>> {
        match host_type(n, self.type_) {
            Ok(t) => match arg_text(n, self.type_, "value"@) {
                Ok(a) => Ok(
                    "void "@ + self.class_name@ + "::set_"@ + self.field_name@ + "("@ + t + " value) {\n"@
                        + guard() + "  return "@ + self.fn_name@ + "(this->self, "@ + a + ");\n}\n"@,
                ),
                Err(m) => Err(m),
            },
            Err(m) => Err(m),
        }
    }

    open spec fn impl_insts(&self, n: Seq<char>) -> Set<Seq<char>> {
        arg_insts(n, self.type_)
    }

    open spec fn impl_uses_optional(&self, n: Seq<char>) -> bool {
        uses_optional(n, self.type_)
    }

    fn to_header(&self, ctx: &mut GenContext) -> (r: Result<String, GenError>) {
        let t = match host_type_of(ctx, &self.type_) {
            Ok(t) => t,
            Err(m) => return Err(m),
        };
        let mut r = comment_text(&self.comments);
        r.append("void set_");
        r.append(self.field_name.as_str());
        r.append("(");
        r.append(t.as_str());
        r.append(" value);\n");
        Ok(r)
    }

    fn to_impl(&self, ctx: &mut GenContext) -> (r: Result<String, GenError>) {
        let t = match host_type_of(ctx, &self.type_) {
            Ok(t) => t,
            Err(m) => return Err(m),
        };
        let a = match convert_arg(ctx, &self.type_, "value") {
            Ok(a) => a,
            Err(m) => return Err(m),
        };
        let mut r = String::from_str("void ");
        r.append(self.class_name.as_str());
        r.append("::set_");
        r.append(self.field_name.as_str());
        r.append("(");
        r.append(t.as_str());
        r.append(" value) {\n");
        r.append(guard_text().as_str());
        r.append("  return ");
        r.append(self.fn_name.as_str());
        r.append("(this->self, ");
        r.append(a.as_str());
        r.append(");\n}\n");
        Ok(r)
    }
}

/// A consuming method checks the handle before its ABI call and clears the
/// handle right after it: a second call on the same object stops at the check
/// and never reaches the ABI.
pub proof fn lemma_consume_clears_handle(m: FinchMethod, n: Seq<char>)
    requires
        m.wf(),
        m.consume,
        m.impl_spec(n) is Ok,
    ensures
        exists|sig: Seq<char>, lead: Seq<char>, rest: Seq<char>|
            m.impl_spec(n)->Ok_0 == sig + guard() + lead + handle_call(
                m.fn_name@,
                args_text(n, m.arg_names@, m.arg_types@, m.arg_names@.len())->Ok_0,
                m.arg_names@.len(),
            ) + ";\n  this->self = nullptr;\n"@ + rest,
{
    let t = host_type(n, m.ret_type)->Ok_0;
    let p = params_text(n, m.arg_names@, m.arg_types@, m.arg_names@.len())->Ok_0;
    let a = args_text(n, m.arg_names@, m.arg_types@, m.arg_names@.len())->Ok_0;
    let call = handle_call(m.fn_name@, a, m.arg_names@.len());
    let sig = t + " "@ + m.class_name@ + "::"@ + m.method_name@ + "("@ + p + ") {\n"@;
    if resolved(m.ret_type).kind is Void {
        let rest: Seq<char> = "}\n"@;
        assert(";\n  this->self = nullptr;\n}\n"@ =~= ";\n  this->self = nullptr;\n"@ + rest) by {
            reveal_strlit(";\n  this->self = nullptr;\n}\n");
            reveal_strlit(";\n  this->self = nullptr;\n");
            reveal_strlit("}\n");
        }
        assert(m.impl_spec(n)->Ok_0 =~= sig + guard() + "  "@ + call + ";\n  this->self = nullptr;\n"@ + rest);
    } else {
        let b = ret_text(n, m.ret_type, "value"@)->Ok_0;
        let rest: Seq<char> = "  return "@ + b + ";\n}\n"@;
        assert(";\n  this->self = nullptr;\n  return "@ =~= ";\n  this->self = nullptr;\n"@ + "  return "@) by {
            reveal_strlit(";\n  this->self = nullptr;\n  return ");
            reveal_strlit(";\n  this->self = nullptr;\n");
            reveal_strlit("  return ");
        }
        assert(m.impl_spec(n)->Ok_0 =~= sig + guard() + "  auto value = "@ + call
            + ";\n  this->self = nullptr;\n"@ + rest);
    }
}

/// A destructor calls the ABI only while the object still holds its handle:
/// after a consuming method it does nothing.
pub proof fn lemma_drop_only_with_handle(d: FinchDrop, n: Seq<char>)
    ensures
        d.impl_spec(n) == Ok::<Seq<char>, Seq<char>>(
            d.class_name@ + "::~"@ + d.class_name@ + "() {\n  if (this->self) {\n    "@ + d.fn_name@
                + "(this->self);\n  }\n}\n"@,
        ),
{
}

} // verus!
