use vstd::prelude::*;
use crate::context::GenContext;
use crate::marshal::agrees;
use crate::members::{
    comment_spec, comment_text, FinchDrop, FinchGetter, FinchMethod, FinchNew, FinchSetter, FinchStatic, ToCpp,
};
use crate::types::GenError;

verus! {

/// Concatenation of two pieces, or the first error.
pub open spec fn join(a: Result<Seq<char>, Seq<char>>, b: Result<Seq<char>, Seq<char>>) -> Result<
    Seq<char>,
    Seq<char>,
> {
    match a {
        Ok(x) => match b {
            Ok(y) => Ok(x + y),
            Err(m) => Err(m),
        },
        Err(m) => Err(m),
    }
}

/// Every member of the sequence is well formed.
pub open spec fn all_wf<M: ToCpp>(v: Seq<M>) -> bool {
    forall|i: int| 0 <= i < v.len() ==> #[trigger] v[i].wf()
}

/// The declarations of the first `k` members, one after another.
pub open spec fn headers_text<M: ToCpp>(n: Seq<char>, v: Seq<M>, k: nat) -> Result<Seq<char>, Seq<char>>
    decreases k,
{
    if k == 0 {
        Ok(Seq::empty())
    } else {
        join(headers_text(n, v, (k - 1) as nat), v[k - 1].header_spec(n))
    }
}

pub open spec fn headers_use_optional<M: ToCpp>(n: Seq<char>, v: Seq<M>, k: nat) -> bool
    decreases k,
{
    k > 0 && (headers_use_optional(n, v, (k - 1) as nat) || v[k - 1].header_uses_optional(n))
}

/// The definitions of the first `k` members, one after another.
pub open spec fn impls_text<M: ToCpp>(n: Seq<char>, v: Seq<M>, k: nat) -> Result<Seq<char>, Seq<char>>
    decreases k,
{
    if k == 0 {
        Ok(Seq::empty())
    } else {
        join(impls_text(n, v, (k - 1) as nat), v[k - 1].impl_spec(n))
    }
}

pub open spec fn impls_insts<M: ToCpp>(n: Seq<char>, v: Seq<M>, k: nat) -> Set<Seq<char>>
    decreases k,
{
    if k == 0 {
        Set::empty()
    } else {
        impls_insts(n, v, (k - 1) as nat).union(v[k - 1].impl_insts(n))
    }
}

pub open spec fn impls_use_optional<M: ToCpp>(n: Seq<char>, v: Seq<M>, k: nat) -> bool
    decreases k,
{
    k > 0 && (impls_use_optional(n, v, (k - 1) as nat) || v[k - 1].impl_uses_optional(n))
}

proof fn lemma_headers_err<M: ToCpp>(n: Seq<char>, v: Seq<M>, k: nat, j: nat)
    requires
        k <= j,
        headers_text(n, v, k) is Err,
    ensures
        headers_text(n, v, j) == headers_text(n, v, k),
    decreases j,
{
    if k < j {
        lemma_headers_err(n, v, k, (j - 1) as nat);
    }
}

proof fn lemma_impls_err<M: ToCpp>(n: Seq<char>, v: Seq<M>, k: nat, j: nat)
    requires
        k <= j,
        impls_text(n, v, k) is Err,
    ensures
        impls_text(n, v, j) == impls_text(n, v, k),
    decreases j,
{
    if k < j {
        lemma_impls_err(n, v, k, (j - 1) as nat);
    }
}

/// The declarations of all members of `v`.
pub fn headers_of<M: ToCpp>(ctx: &mut GenContext, v: &Vec<M>) -> (r: Result<String, GenError>)
    requires
        old(ctx).wf(),
        all_wf(v@),
    ensures
        final(ctx).wf(),
        final(ctx).name() == old(ctx).name(),
        final(ctx).entries() == old(ctx).entries(),
        agrees(r, headers_text(old(ctx).name(), v@, v@.len())),
        r is Ok ==> final(ctx).optional_used() == (old(ctx).optional_used() || headers_use_optional(
            old(ctx).name(),
            v@,
            v@.len(),
        )),
{
    let ghost n = ctx.name();
    let mut s = String::new();
    let mut i: usize = 0;
    while i < v.len()
        invariant
            i <= v@.len(),
            all_wf(v@),
            ctx.wf(),
            ctx.name() == n,
            n == old(ctx).name(),
            ctx.entries() == old(ctx).entries(),
            headers_text(n, v@, i as nat) == Ok::<Seq<char>, Seq<char>>(s@),
            ctx.optional_used() == (old(ctx).optional_used() || headers_use_optional(n, v@, i as nat)),
        decreases v@.len() - i,
    {
        let h = match v[i].to_header(ctx) {
            Ok(h) => h,
            Err(m) => {
                proof {
                    lemma_headers_err(n, v@, (i + 1) as nat, v@.len());
                }
                return Err(m);
            },
        };
        s.append(h.as_str());
        i += 1;
    }
    Ok(s)
}

/// The definitions of all members of `v`.
pub fn impls_of<M: ToCpp>(ctx: &mut GenContext, v: &Vec<M>) -> (r: Result<String, GenError>)
    requires
        old(ctx).wf(),
        all_wf(v@),
    ensures
        final(ctx).wf(),
        final(ctx).name() == old(ctx).name(),
        agrees(r, impls_text(old(ctx).name(), v@, v@.len())),
        r is Ok ==> final(ctx).instantiations() == old(ctx).instantiations().union(
            impls_insts(old(ctx).name(), v@, v@.len()),
        ),
        r is Ok ==> final(ctx).optional_used() == (old(ctx).optional_used() || impls_use_optional(
            old(ctx).name(),
            v@,
            v@.len(),
        )),
{
    let ghost n = ctx.name();
    let mut s = String::new();
    let mut i: usize = 0;
    proof {
        assert(ctx.instantiations().union(Set::empty()) =~= ctx.instantiations());
    }
    while i < v.len()
        invariant
            i <= v@.len(),
            all_wf(v@),
            ctx.wf(),
            ctx.name() == n,
            n == old(ctx).name(),
            ctx.instantiations() == old(ctx).instantiations().union(impls_insts(n, v@, i as nat)),
            impls_text(n, v@, i as nat) == Ok::<Seq<char>, Seq<char>>(s@),
            ctx.optional_used() == (old(ctx).optional_used() || impls_use_optional(n, v@, i as nat)),
        decreases v@.len() - i,
    {
        let h = match v[i].to_impl(ctx) {
            Ok(h) => h,
            Err(m) => {
                proof {
                    lemma_impls_err(n, v@, (i + 1) as nat, v@.len());
                }
                return Err(m);
            },
        };
        proof {
            assert(ctx.instantiations() =~= old(ctx).instantiations().union(impls_insts(n, v@, (i + 1) as nat)));
        }
        s.append(h.as_str());
        i += 1;
    }
    Ok(s)
}

pub open spec fn opt_wf<M: ToCpp>(o: Option<M>) -> bool {
    match o {
        Some(m) => m.wf(),
        None => true,
    }
}

pub open spec fn opt_header<M: ToCpp>(n: Seq<char>, o: Option<M>) -> Result<Seq<char>, Seq<char>> {
    match o {
        Some(m) => m.header_spec(n),
        None => Ok(Seq::empty()),
    }
}

pub open spec fn opt_header_uses<M: ToCpp>(n: Seq<char>, o: Option<M>) -> bool {
    match o {
        Some(m) => m.header_uses_optional(n),
        None => false,
    }
}

pub open spec fn opt_impl<M: ToCpp>(n: Seq<char>, o: Option<M>) -> Result<Seq<char>, Seq<char>> {
    match o {
        Some(m) => m.impl_spec(n),
        None => Ok(Seq::empty()),
    }
}

pub open spec fn opt_impl_insts<M: ToCpp>(n: Seq<char>, o: Option<M>) -> Set<Seq<char>> {
    match o {
        Some(m) => m.impl_insts(n),
        None => Set::empty(),
    }
}

pub open spec fn opt_impl_uses<M: ToCpp>(n: Seq<char>, o: Option<M>) -> bool {
    match o {
        Some(m) => m.impl_uses_optional(n),
        None => false,
    }
}

fn opt_header_of<M: ToCpp>(ctx: &mut GenContext, o: &Option<M>) -> (r: Result<String, GenError>)
    requires
        old(ctx).wf(),
        opt_wf(*o),
    ensures
        final(ctx).wf(),
        final(ctx).name() == old(ctx).name(),
        final(ctx).entries() == old(ctx).entries(),
        agrees(r, opt_header(old(ctx).name(), *o)),
        r is Ok ==> final(ctx).optional_used() == (old(ctx).optional_used() || opt_header_uses(
            old(ctx).name(),
            *o,
        )),
{
    match o {
        Some(m) => m.to_header(ctx),
        None => Ok(String::new()),
    }
}

fn opt_impl_of<M: ToCpp>(ctx: &mut GenContext, o: &Option<M>) -> (r: Result<String, GenError>)
    requires
        old(ctx).wf(),
        opt_wf(*o),
    ensures
        final(ctx).wf(),
        final(ctx).name() == old(ctx).name(),
        agrees(r, opt_impl(old(ctx).name(), *o)),
        r is Ok ==> final(ctx).instantiations() == old(ctx).instantiations().union(
            opt_impl_insts(old(ctx).name(), *o),
        ),
        r is Ok ==> final(ctx).optional_used() == (old(ctx).optional_used() || opt_impl_uses(
            old(ctx).name(),
            *o,
        )),
{
    match o {
        Some(m) => m.to_impl(ctx),
        None => {
            proof {
                assert(ctx.instantiations().union(Set::empty()) =~= ctx.instantiations());
            }
            Ok(String::new())
        },
    }
}

/// A class: the wrapper around one ABI handle type.
#[derive(Debug)]
pub struct FinchClass {
    /// The name callers see.
    pub name: String,
    /// The opaque handle type on the ABI side.
    pub c_name: String,
    pub new: Option<FinchNew>,
    pub drop: Option<FinchDrop>,
    pub statics: Vec<FinchStatic>,
    pub methods: Vec<FinchMethod>,
    pub getters: Vec<FinchGetter>,
    pub setters: Vec<FinchSetter>,
    pub comments: Option<String>,
}

/// The private part of a class: no copy, no assignment, and the handle,
/// which starts out null.
pub open spec fn class_tail(name: Seq<char>, c_name: Seq<char>) -> Seq<char> {
    "\nprivate:\n  "@ + name + "(const "@ + name + "&) = delete;\n  "@ + name + " &operator=(const "@ + name
        + "&) = delete;\n  "@ + c_name + " *self = nullptr;\n};\n"@
}

fn class_tail_text(name: &str, c_name: &str) -> (r: String)
    ensures
        r@ == class_tail(name@, c_name@),
{
    let mut r = String::from_str("\nprivate:\n  ");
    r.append(name);
    r.append("(const ");
    r.append(name);
    r.append("&) = delete;\n  ");
    r.append(name);
    r.append(" &operator=(const ");
    r.append(name);
    r.append("&) = delete;\n  ");
    r.append(c_name);
    r.append(" *self = nullptr;\n};\n");
    r
}

/// The declarations of all members, in the order constructor, destructor,
/// statics, methods, getters, setters.
pub open spec fn members_header(n: Seq<char>, c: FinchClass) -> Result<Seq<char>, Seq<char>> {
    join(
        join(
            join(
                join(join(opt_header(n, c.new), opt_header(n, c.drop)), headers_text(n, c.statics@, c.statics@.len())),
                headers_text(n, c.methods@, c.methods@.len()),
            ),
            headers_text(n, c.getters@, c.getters@.len()),
        ),
        headers_text(n, c.setters@, c.setters@.len()),
    )
}

/// The definitions of all members, in the same order.
pub open spec fn members_impl(n: Seq<char>, c: FinchClass) -> Result<Seq<char>, Seq<char>> {
    join(
        join(
            join(
                join(join(opt_impl(n, c.new), opt_impl(n, c.drop)), impls_text(n, c.statics@, c.statics@.len())),
                impls_text(n, c.methods@, c.methods@.len()),
            ),
            impls_text(n, c.getters@, c.getters@.len()),
        ),
        impls_text(n, c.setters@, c.setters@.len()),
    )
}

impl ToCpp for FinchClass {
    open spec fn wf(&self) -> bool {
        &&& opt_wf(self.new)
        &&& opt_wf(self.drop)
        &&& all_wf(self.statics@)
        &&& all_wf(self.methods@)
        &&& all_wf(self.getters@)
        &&& all_wf(self.setters@)
    }

    open spec fn header_spec(&self, n: Seq<char>) -> Result<Seq<char>, Seq<char>> {
        match members_header(n, *self) {
            Ok(b) => Ok(
                comment_spec(self.comments) + "class "@ + self.name@ + " {\npublic:\n"@ + b + class_tail(
                    self.name@,
                    self.c_name@,
                ),
            ),
            Err(m) => Err(m),
        }
    }

    open spec fn header_uses_optional(&self, n: Seq<char>) -> bool {
        opt_header_uses(n, self.new) || opt_header_uses(n, self.drop) || headers_use_optional(
            n,
            self.statics@,
            self.statics@.len(),
        ) || headers_use_optional(n, self.methods@, self.methods@.len()) || headers_use_optional(
            n,
            self.getters@,
            self.getters@.len(),
        ) || headers_use_optional(n, self.setters@, self.setters@.len())
    }

    open spec fn impl_spec(&self, n: Seq<char>) -> Result<Seq<char>, Seq<char>> {
        members_impl(n, *self)
    }

    open spec fn impl_insts(&self, n: Seq<char>) -> Set<Seq<char>> {
        opt_impl_insts(n, self.new).union(opt_impl_insts(n, self.drop)).union(
            impls_insts(n, self.statics@, self.statics@.len()),
        ).union(impls_insts(n, self.methods@, self.methods@.len())).union(
            impls_insts(n, self.getters@, self.getters@.len()),
        ).union(impls_insts(n, self.setters@, self.setters@.len()))
    }

    open spec fn impl_uses_optional(&self, n: Seq<char>) -> bool {
        opt_impl_uses(n, self.new) || opt_impl_uses(n, self.drop) || impls_use_optional(
            n,
            self.statics@,
            self.statics@.len(),
        ) || impls_use_optional(n, self.methods@, self.methods@.len()) || impls_use_optional(
            n,
            self.getters@,
            self.getters@.len(),
        ) || impls_use_optional(n, self.setters@, self.setters@.len())
    }

    fn to_header(&self, ctx: &mut GenContext) -> (r: Result<String, GenError>) {
        let mut b = match opt_header_of(ctx, &self.new) {
            Ok(x) => x,
            Err(m) => return Err(m),
        };
        match opt_header_of(ctx, &self.drop) {
            Ok(x) => b.append(x.as_str()),
            Err(m) => return Err(m),
        }
        match headers_of(ctx, &self.statics) {
            Ok(x) => b.append(x.as_str()),
            Err(m) => return Err(m),
        }
        match headers_of(ctx, &self.methods) {
            Ok(x) => b.append(x.as_str()),
            Err(m) => return Err(m),
        }
        match headers_of(ctx, &self.getters) {
            Ok(x) => b.append(x.as_str()),
            Err(m) => return Err(m),
        }
        match headers_of(ctx, &self.setters) {
            Ok(x) => b.append(x.as_str()),
            Err(m) => return Err(m),
        }
        let mut r = comment_text(&self.comments);
        r.append("class ");
        r.append(self.name.as_str());
        r.append(" {\npublic:\n");
        r.append(b.as_str());
        r.append(class_tail_text(self.name.as_str(), self.c_name.as_str()).as_str());
        Ok(r)
    }

    fn to_impl(&self, ctx: &mut GenContext) -> (r: Result<String, GenError>) {
        let ghost c0 = *ctx;
        let ghost n = ctx.name();
        let mut b = match opt_impl_of(ctx, &self.new) {
            Ok(x) => x,
            Err(m) => return Err(m),
        };
        match opt_impl_of(ctx, &self.drop) {
            Ok(x) => b.append(x.as_str()),
            Err(m) => return Err(m),
        }
        match impls_of(ctx, &self.statics) {
            Ok(x) => b.append(x.as_str()),
            Err(m) => return Err(m),
        }
        match impls_of(ctx, &self.methods) {
            Ok(x) => b.append(x.as_str()),
            Err(m) => return Err(m),
        }
        match impls_of(ctx, &self.getters) {
            Ok(x) => b.append(x.as_str()),
            Err(m) => return Err(m),
        }
        match impls_of(ctx, &self.setters) {
            Ok(x) => b.append(x.as_str()),
            Err(m) => return Err(m),
        }
        proof {
            assert(ctx.instantiations() =~= c0.instantiations().union(self.impl_insts(n)));
        }
        Ok(b)
    }
}

impl FinchClass {
    /// Whether every member has as many argument names as argument types.
    pub fn well_formed(&self) -> (r: bool)
        ensures
            r == self.wf(),
    {
        let ok_new = match &self.new {
            Some(c) => c.arg_names.len() == c.arg_types.len(),
            None => true,
        };
        if !ok_new {
            return false;
        }
        let mut i: usize = 0;
        while i < self.statics.len()
            invariant
                i <= self.statics@.len(),
                forall|j: int| 0 <= j < i ==> #[trigger] self.statics@[j].wf(),
            decreases self.statics@.len() - i,
        {
            if self.statics[i].arg_names.len() != self.statics[i].arg_types.len() {
                proof {
                    assert(!self.statics@[i as int].wf());
                }
                return false;
            }
            i += 1;
        }
        let mut i: usize = 0;
        while i < self.methods.len()
            invariant
                i <= self.methods@.len(),
                all_wf(self.statics@),
                forall|j: int| 0 <= j < i ==> #[trigger] self.methods@[j].wf(),
            decreases self.methods@.len() - i,
        {
            if self.methods[i].arg_names.len() != self.methods[i].arg_types.len() {
                proof {
                    assert(!self.methods@[i as int].wf());
                }
                return false;
            }
            i += 1;
        }
        true
    }
}

} // verus!
