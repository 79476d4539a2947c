use vstd::prelude::*;
use vstd::std_specs::iter::IteratorSpec;

verus! {

broadcast use vstd::string::axiom_spec_iter, vstd::string::next_postcondition;

/// The characters of `s`, in order.
pub fn chars_of(s: &str) -> (r: Vec<char>)
    ensures
        r@ == s@,
{
    let l = s.unicode_len();
    let mut it = s.chars();
    let mut r: Vec<char> = Vec::new();
    while r.len() < l
        invariant
            l == s@.len(),
            r@ + it.remaining() == s@,
            it.obeys_prophetic_iter_laws(),
        decreases l - r@.len(),
    {
        let ghost before = it.remaining();
        proof {
            assert((r@ + before).len() == r@.len() + before.len());
        }
        let c = it.next().unwrap();
        r.push(c);
        proof {
            assert(before =~= seq![c] + before.drop_first());
            assert(r@ + it.remaining() =~= s@);
        }
    }
    proof {
        assert((r@ + it.remaining()).len() == r@.len() + it.remaining().len());
        if r@.len() >= l {
            assert(it.remaining().len() == 0);
            assert(r@ + it.remaining() =~= r@);
        }
        assert(r@ =~= s@);
    }
    r
}

/// A package name made into an identifier: each `-` becomes `_`.
pub open spec fn ident_of(s: Seq<char>) -> Seq<char> {
    s.map_values(|c: char| if c == '-' { '_' } else { c })
}

/// The package name as the namespace of the output.
pub fn crate_ident(name: &str) -> (r: String)
    ensures
        r@ == ident_of(name@),
{
    let cs = chars_of(name);
    let mut r = String::new();
    let mut i: usize = 0;
    while i < cs.len()
        invariant
            cs@ == name@,
            i <= cs@.len(),
            r@ == ident_of(name@).subrange(0, i as int),
        decreases cs@.len() - i,
    {
        let ghost r0 = r@;
        if cs[i] == '-' {
            r.append("_");
            proof {
                reveal_strlit("_");
            }
        } else {
            r.append(name.substring_char(i, i + 1));
        }
        proof {
            assert(ident_of(name@).subrange(0, i + 1) =~= ident_of(name@).subrange(0, i as int).push(
                ident_of(name@)[i as int],
            ));
            assert(r@ =~= r0.push(ident_of(name@)[i as int]));
        }
        i += 1;
    }
    proof {
        assert(ident_of(name@).subrange(0, i as int) =~= ident_of(name@));
    }
    r
}

/// `m` stands in `h` at position `i`.
pub open spec fn occurs_at(h: Seq<char>, m: Seq<char>, i: int) -> bool {
    0 <= i && i + m.len() <= h.len() && h.subrange(i, i + m.len()) == m
}

/// The first position at or after `i` where `m` stands in `h`.
pub open spec fn find_from(h: Seq<char>, m: Seq<char>, i: int) -> Option<int>
    decreases h.len() + 1 - i,
{
    if i < 0 || i + m.len() > h.len() {
        None
    } else if occurs_at(h, m, i) {
        Some(i)
    } else {
        find_from(h, m, i + 1)
    }
}

fn occurs_at_exec(h: &Vec<char>, m: &Vec<char>, i: usize) -> (r: bool)
    requires
        i + m@.len() <= h@.len(),
    ensures
        r == occurs_at(h@, m@, i as int),
{
    let hl = h.len();
    let mut j: usize = 0;
    while j < m.len()
        invariant
            hl == h@.len(),
            i + m@.len() <= h@.len(),
            j <= m@.len(),
            forall|k: int| 0 <= k < j ==> h@[i + k] == m@[k],
        decreases m@.len() - j,
    {
        if h[i + j] != m[j] {
            proof {
                assert(h@.subrange(i as int, i + m@.len())[j as int] != m@[j as int]);
            }
            return false;
        }
        j += 1;
    }
    proof {
        assert(h@.subrange(i as int, i + m@.len()) =~= m@);
    }
    true
}

/// The first position where `m` stands in `h`.
pub fn find_marker(h: &Vec<char>, m: &Vec<char>) -> (r: Option<usize>)
    ensures
        match r {
            Some(i) => find_from(h@, m@, 0) == Some(i as int),
            None => find_from(h@, m@, 0) is None,
        },
{
    if m.len() > h.len() {
        return None;
    }
    let last = h.len() - m.len();
    let mut i: usize = 0;
    while i <= last
        invariant
            last == h@.len() - m@.len(),
            m@.len() <= h@.len(),
            find_from(h@, m@, 0) == find_from(h@, m@, i as int),
        decreases last + 1 - i,
    {
        if occurs_at_exec(h, m, i) {
            return Some(i);
        }
        if i == last {
            return None;
        }
        i += 1;
    }
    None
}

proof fn lemma_find_from_bounds(h: Seq<char>, m: Seq<char>, j: int)
    requires
        find_from(h, m, j) is Some,
    ensures
        j <= find_from(h, m, j)->Some_0,
        find_from(h, m, j)->Some_0 + m.len() <= h.len(),
    decreases h.len() + 1 - j,
{
    if !occurs_at(h, m, j) {
        lemma_find_from_bounds(h, m, j + 1);
    }
}

/// The registered declarations, one per line, then an empty line.
pub open spec fn decl_lines(s: Seq<Seq<char>>, k: nat) -> Seq<char>
    decreases k,
{
    if k == 0 {
        Seq::empty()
    } else {
        decl_lines(s, (k - 1) as nat) + s[k - 1] + "\n"@
    }
}

pub open spec fn decl_block(s: Seq<Seq<char>>) -> Seq<char> {
    decl_lines(s, s.len()) + "\n"@
}

/// `h` with `b` put right before the first `m`; `h` itself if `m` is absent.
pub open spec fn spliced(h: Seq<char>, m: Seq<char>, b: Seq<char>) -> Seq<char> {
    match find_from(h, m, 0) {
        Some(i) => h.subrange(0, i) + b + h.subrange(i, h.len() as int),
        None => h,
    }
}

pub open spec fn views(v: Seq<String>) -> Seq<Seq<char>> {
    v.map_values(|s: String| s@)
}

fn decl_block_text(decls: &Vec<String>) -> (r: String)
    ensures
        r@ == decl_block(views(decls@)),
{
    let mut r = String::new();
    let mut i: usize = 0;
    while i < decls.len()
        invariant
            i <= decls@.len(),
            r@ == decl_lines(views(decls@), i as nat),
        decreases decls@.len() - i,
    {
        r.append(decls[i].as_str());
        r.append("\n");
        i += 1;
    }
    r.append("\n");
    r
}

/// Puts the declarations `decls` into the ABI header `abi_header`, right
/// before the marker that opens its raw declarations.
pub fn splice_instantiations(abi_header: &str, marker: &str, decls: &Vec<String>) -> (r: String)
    ensures
        r@ == spliced(abi_header@, marker@, decl_block(views(decls@))),
{
    let h = chars_of(abi_header);
    let m = chars_of(marker);
    match find_marker(&h, &m) {
        Some(i) => {
            proof {
                lemma_find_from_bounds(h@, m@, 0);
            }
            let mut r = String::from_str(abi_header.substring_char(0, i));
            r.append(decl_block_text(decls).as_str());
            r.append(abi_header.substring_char(i, h.len()));
            r
        },
        None => String::from_str(abi_header),
    }
}

/// `namespace n {` ... `}`
pub open spec fn namespace_wrap(n: Seq<char>, body: Seq<char>) -> Seq<char> {
    "namespace "@ + n + " {\n"@ + body + "\n}\n"@
}

} // verus!
