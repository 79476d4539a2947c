use vstd::prelude::*;

verus! {

/// State shared by every marshalling call of one generation run: the crate
/// namespace, whether the optional wrapper was used, and the registry of
/// generic instantiations that the ABI header must declare.
#[derive(Debug)]
pub struct GenContext {
    crate_name: String,
    use_optional: bool,
    templates: Vec<String>,
}

impl GenContext {
    /// The crate namespace.
    pub closed spec fn name(&self) -> Seq<char> {
        self.crate_name@
    }

    /// Whether an optional wrapper was met during the run.
    pub closed spec fn optional_used(&self) -> bool {
        self.use_optional
    }

    /// The registered declarations, in order of registration.
    pub closed spec fn entries(&self) -> Seq<Seq<char>> {
        self.templates@.map_values(|s: String| s@)
    }

    /// The registered declarations as a set.
    pub open spec fn instantiations(&self) -> Set<Seq<char>> {
        self.entries().to_set()
    }

    /// No declaration is registered twice.
    pub open spec fn wf(&self) -> bool {
        self.entries().no_duplicates()
    }

    /// A fresh context for the crate namespace `crate_name`.
    pub fn new(crate_name: String) -> (r: GenContext)
        ensures
            r.wf(),
            r.name() == crate_name@,
            !r.optional_used(),
            r.entries() == Seq::<Seq<char>>::empty(),
            r.instantiations() == Set::<Seq<char>>::empty(),
    {
        let r = GenContext { crate_name, use_optional: false, templates: Vec::new() };
        proof {
            assert(r.entries() =~= Seq::<Seq<char>>::empty());
            assert(r.instantiations() =~= Set::<Seq<char>>::empty());
        }
        r
    }

    pub fn crate_name(&self) -> (r: &str)
        ensures
            r@ == self.name(),
    {
        self.crate_name.as_str()
    }

    pub fn uses_optional(&self) -> (r: bool)
        ensures
            r == self.optional_used(),
    {
        self.use_optional
    }

    /// Records that an optional wrapper appears in the output.
    pub fn mark_optional(&mut self)
        ensures
            final(self).optional_used(),
            final(self).name() == old(self).name(),
            final(self).entries() == old(self).entries(),
    {
        self.use_optional = true;
    }

    /// Whether `decl` is registered.
    pub fn contains(&self, decl: &String) -> (r: bool)
        ensures
            r == self.instantiations().contains(decl@),
    {
        let mut i: usize = 0;
        while i < self.templates.len()
            invariant
                i <= self.templates@.len(),
                forall|j: int| 0 <= j < i ==> self.entries()[j] != decl@,
            decreases self.templates@.len() - i,
        {
            if self.templates[i] == *decl {
                proof {
                    assert(self.entries()[i as int] == decl@);
                }
                return true;
            }
            i += 1;
        }
        proof {
            if self.entries().to_set().contains(decl@) {
                let k = choose|k: int| 0 <= k < self.entries().len() && self.entries()[k] == decl@;
                assert(self.entries()[k] == decl@);
            }
        }
        false
    }

    /// Adds `decl` to the registry unless it is already there.
    pub fn register(&mut self, decl: String)
        requires
            old(self).wf(),
        ensures
            final(self).wf(),
            final(self).instantiations() == old(self).instantiations().insert(decl@),
            old(self).instantiations().contains(decl@) ==> final(self).entries() == old(self).entries(),
            !old(self).instantiations().contains(decl@) ==> final(self).entries() == old(self).entries().push(decl@),
            final(self).name() == old(self).name(),
            final(self).optional_used() == old(self).optional_used(),
    {
        if !self.contains(&decl) {
            let ghost e0 = self.entries();
            self.templates.push(decl);
            proof {
                assert(self.entries() =~= e0.push(decl@));
                assert(self.instantiations() =~= e0.to_set().insert(decl@)) by {
                    assert forall|x: Seq<char>| self.instantiations().contains(x) <==> e0.to_set().insert(decl@).contains(x) by {
                        if self.instantiations().contains(x) {
                            let k = choose|k: int| 0 <= k < self.entries().len() && self.entries()[k] == x;
                            if k < e0.len() {
                                assert(e0[k] == x);
                            }
                        }
                        if e0.to_set().contains(x) {
                            let k = choose|k: int| 0 <= k < e0.len() && e0[k] == x;
                            assert(self.entries()[k] == x);
                        }
                        if x == decl@ {
                            assert(self.entries()[e0.len() as int] == x);
                        }
                    }
                }
            }
        } else {
            proof {
                assert(self.instantiations() =~= self.instantiations().insert(decl@));
            }
        }
    }

    /// The registered declarations, each once.
    pub fn flush(&self) -> (r: Vec<String>)
        ensures
            r@.map_values(|s: String| s@) == self.entries(),
    {
        let mut r: Vec<String> = Vec::new();
        let mut i: usize = 0;
        while i < self.templates.len()
            invariant
                i <= self.templates@.len(),
                r@.map_values(|s: String| s@) =~= self.entries().subrange(0, i as int),
            decreases self.templates@.len() - i,
        {
            let ghost r0 = r@;
            let c = self.templates[i].clone();
            r.push(c);
            proof {
                assert(r@.map_values(|s: String| s@) =~= r0.map_values(|s: String| s@).push(c@));
                assert(self.entries().subrange(0, i + 1) =~= self.entries().subrange(0, i as int).push(c@));
            }
            i += 1;
        }
        proof {
            assert(self.entries().subrange(0, i as int) =~= self.entries());
        }
        r
    }
}

/// A registry keeps each instantiation once: registering one that is present
/// leaves the set as it was, and it stands at exactly one position.
pub proof fn lemma_registration_idempotent(c: GenContext, x: Seq<char>)
    requires
        c.wf(),
        c.instantiations().contains(x),
    ensures
        c.instantiations().insert(x) == c.instantiations(),
        exists|i: int|
            0 <= i < c.entries().len() && c.entries()[i] == x && (forall|j: int|
                0 <= j < c.entries().len() && c.entries()[j] == x ==> j == i),
{
    assert(c.instantiations().insert(x) =~= c.instantiations());
    let i = choose|i: int| 0 <= i < c.entries().len() && c.entries()[i] == x;
    assert(forall|j: int| 0 <= j < c.entries().len() && c.entries()[j] == x ==> j == i);
}

} // verus!
