//! Path text: home-directory expansion and component-wise prefix tests on `/`-separated
//! paths.

use vstd::prelude::*;

use crate::text::chars_of;

verus! {

/// Calls `shellexpand::tilde`. An input that does not start with `~`, or that starts with
/// `~` followed by something other than a separator, comes back unchanged; `~` alone or
/// `~/…` becomes the home directory followed by the rest, or stays unchanged when the home
/// directory is unknown. The home directory comes from the environment, so no clause names it.
#[verifier::external_body]
pub fn expand_path(input: &str) -> (r: String)
    ensures
        input@.len() == 0 || input@[0] != '~' ==> r@ == input@,
        input@.len() > 1 && input@[0] == '~' && input@[1] != '/' && input@[1] != '\\' ==> r@
            == input@,
        r@ == input@ || exists|home: Seq<char>| r@ == home + input@.drop_first(),
{
    shellexpand::tilde(input).into_owned()
}

/// Left-to-right split state: finished segments and the segment being read.
pub open spec fn spec_scan(s: Seq<char>) -> (Seq<Seq<char>>, Seq<char>)
    decreases s.len(),
{
    if s.len() == 0 {
        (Seq::empty(), Seq::empty())
    } else {
        let (segs, cur) = spec_scan(s.drop_last());
        if s.last() == '/' {
            (segs.push(cur), Seq::empty())
        } else {
            (segs, cur.push(s.last()))
        }
    }
}

/// The text between separators (empty pieces included).
pub open spec fn spec_split(s: Seq<char>) -> Seq<Seq<char>> {
    let (segs, cur) = spec_scan(s);
    segs.push(cur)
}

/// Whether a piece names a component: repeated separators and `.` are normalized away.
pub open spec fn spec_is_named(c: Seq<char>) -> bool {
    c.len() > 0 && c != "."@
}

/// The named pieces, in order.
pub open spec fn spec_named(segs: Seq<Seq<char>>) -> Seq<Seq<char>>
    decreases segs.len(),
{
    if segs.len() == 0 {
        Seq::empty()
    } else {
        let r = spec_named(segs.drop_last());
        if spec_is_named(segs.last()) {
            r.push(segs.last())
        } else {
            r
        }
    }
}

/// Components of a path: the root (written `/`) for an absolute path, a leading `.` of a
/// relative path, then the named pieces.
pub open spec fn spec_components(p: Seq<char>) -> Seq<Seq<char>> {
    let sp = spec_split(p);
    if p.len() > 0 && p[0] == '/' {
        seq!["/"@] + spec_named(sp.drop_first())
    } else if sp[0] == "."@ {
        seq!["."@] + spec_named(sp.drop_first())
    } else {
        spec_named(sp)
    }
}

/// `Path::starts_with`: the components of `base` begin the components of `path`.
pub open spec fn spec_path_starts_with(path: Seq<char>, base: Seq<char>) -> bool {
    let cp = spec_components(path);
    let cb = spec_components(base);
    cb.len() <= cp.len() && cp.subrange(0, cb.len() as int) == cb
}

pub open spec fn chars_views(v: Seq<Vec<char>>) -> Seq<Seq<char>> {
    v.map_values(|c: Vec<char>| c@)
}

proof fn lemma_split_len(s: Seq<char>)
    ensures
        spec_split(s).len() >= 1,
{
}

/// The pieces of `s` between `/` separators.
fn split_pieces(s: &Vec<char>) -> (r: Vec<Vec<char>>)
    ensures
        chars_views(r@) == spec_split(s@),
{
    let mut segs: Vec<Vec<char>> = Vec::new();
    let mut cur: Vec<char> = Vec::new();
    let mut i: usize = 0;
    while i < s.len()
        invariant
            i <= s@.len(),
            (chars_views(segs@), cur@) == spec_scan(s@.subrange(0, i as int)),
        decreases s.len() - i,
    {
        let c = s[i];
        assert(s@.subrange(0, i + 1).drop_last() =~= s@.subrange(0, i as int));
        if c == '/' {
            let done = cur;
            let ghost dv = done@;
            segs.push(done);
            cur = Vec::new();
            assert(chars_views(segs@) =~= spec_scan(s@.subrange(0, i as int)).0.push(dv));
            assert(cur@ =~= Seq::<char>::empty());
        } else {
            cur.push(c);
        }
        i = i + 1;
    }
    assert(s@.subrange(0, s@.len() as int) =~= s@);
    let ghost cv = cur@;
    segs.push(cur);
    assert(chars_views(segs@) =~= spec_scan(s@).0.push(cv));
    segs
}

fn is_dot(c: &Vec<char>) -> (r: bool)
    ensures
        r == (c@ == "."@),
{
    proof {
        reveal_strlit(".");
    }
    if c.len() == 1 && c[0] == '.' {
        assert(c@ =~= "."@);
        true
    } else {
        false
    }
}

/// `init` followed by the named pieces of `segs[from..]`.
fn named_from(segs: &Vec<Vec<char>>, from: usize, init: Vec<Vec<char>>) -> (r: Vec<Vec<char>>)
    requires
        from <= segs@.len(),
    ensures
        chars_views(r@) == chars_views(init@) + spec_named(
            chars_views(segs@).subrange(from as int, segs@.len() as int),
        ),
{
    let ghost all = chars_views(segs@);
    let ghost iv = chars_views(init@);
    let mut out = init;
    let mut i: usize = from;
    assert(spec_named(all.subrange(from as int, from as int)) =~= Seq::<Seq<char>>::empty());
    assert(chars_views(out@) =~= iv + Seq::<Seq<char>>::empty());
    while i < segs.len()
        invariant
            from <= i <= segs@.len(),
            all == chars_views(segs@),
            chars_views(out@) == iv + spec_named(all.subrange(from as int, i as int)),
        decreases segs.len() - i,
    {
        assert(all.subrange(from as int, i + 1).drop_last() =~= all.subrange(from as int, i as int));
        assert(all[i as int] == segs@[i as int]@);
        if segs[i].len() > 0 && !is_dot(&segs[i]) {
            let c = segs[i].clone();
            let ghost cv = c@;
            let ghost before = chars_views(out@);
            out.push(c);
            assert(chars_views(out@) =~= before.push(cv));
            assert(iv + spec_named(all.subrange(from as int, i as int)).push(cv) =~= (iv
                + spec_named(all.subrange(from as int, i as int))).push(cv));
        }
        i = i + 1;
    }
    out
}

fn root_piece() -> (r: Vec<char>)
    ensures
        r@ == "/"@,
{
    proof {
        reveal_strlit("/");
    }
    let mut r: Vec<char> = Vec::new();
    r.push('/');
    assert(r@ =~= "/"@);
    r
}

fn dot_piece() -> (r: Vec<char>)
    ensures
        r@ == "."@,
{
    proof {
        reveal_strlit(".");
    }
    let mut r: Vec<char> = Vec::new();
    r.push('.');
    assert(r@ =~= "."@);
    r
}

/// The components of a path, as `Path::components` lists them on Unix.
pub fn components(p: &str) -> (r: Vec<Vec<char>>)
    ensures
        chars_views(r@) == spec_components(p@),
{
    let s = chars_of(p);
    let segs = split_pieces(&s);
    proof {
        lemma_split_len(s@);
    }
    let ghost sp = chars_views(segs@);
    assert(sp[0] == segs@[0]@);
    if s.len() > 0 && s[0] == '/' {
        let mut init: Vec<Vec<char>> = Vec::new();
        init.push(root_piece());
        assert(chars_views(init@) =~= seq!["/"@]);
        assert(sp.subrange(1, sp.len() as int) =~= sp.drop_first());
        named_from(&segs, 1, init)
    } else if is_dot(&segs[0]) {
        let mut init: Vec<Vec<char>> = Vec::new();
        init.push(dot_piece());
        assert(chars_views(init@) =~= seq!["."@]);
        assert(sp.subrange(1, sp.len() as int) =~= sp.drop_first());
        named_from(&segs, 1, init)
    } else {
        let init: Vec<Vec<char>> = Vec::new();
        assert(sp.subrange(0, sp.len() as int) =~= sp);
        assert(chars_views(init@) =~= Seq::<Seq<char>>::empty());
        let r = named_from(&segs, 0, init);
        assert(chars_views(r@) =~= spec_named(sp));
        r
    }
}

/// `Path::starts_with` on `/`-separated paths: whole components are compared.
pub fn path_starts_with(path: &str, base: &str) -> (r: bool)
    ensures
        r == spec_path_starts_with(path@, base@),
{
    let cp = components(path);
    let cb = components(base);
    let ghost vp = chars_views(cp@);
    let ghost vb = chars_views(cb@);
    if cb.len() > cp.len() {
        return false;
    }
    let mut i: usize = 0;
    while i < cb.len()
        invariant
            i <= cb@.len() <= cp@.len(),
            vp == chars_views(cp@),
            vb == chars_views(cb@),
            vp == spec_components(path@),
            vb == spec_components(base@),
            vp.subrange(0, i as int) == vb.subrange(0, i as int),
        decreases cb.len() - i,
    {
        assert(vp[i as int] == cp@[i as int]@);
        assert(vb[i as int] == cb@[i as int]@);
        if !crate::text::chars_eq(&cp[i], &cb[i]) {
            assert(vp.subrange(0, vb.len() as int)[i as int] != vb[i as int]);
            assert(vp.subrange(0, vb.len() as int) != vb);
            return false;
        }
        assert(vp.subrange(0, i + 1) =~= vb.subrange(0, i + 1));
        i = i + 1;
    }
    assert(vb.subrange(0, vb.len() as int) =~= vb);
    true
}

/// Why a path cannot be joined under a trusted root, checked before touching the disk:
/// an absolute path, or one with a `..` component.
pub open spec fn spec_relative_problem(rel: Seq<char>) -> Option<Seq<char>> {
    if rel.len() > 0 && rel[0] == '/' {
        Some("path must be relative to the trusted root"@)
    } else if spec_components(rel).contains(".."@) {
        Some("path must not contain parent-dir (..) components"@)
    } else {
        None
    }
}

fn is_dot_dot(c: &Vec<char>) -> (r: bool)
    ensures
        r == (c@ == ".."@),
{
    proof {
        reveal_strlit("..");
    }
    if c.len() == 2 && c[0] == '.' && c[1] == '.' {
        assert(c@ =~= ".."@);
        true
    } else {
        false
    }
}

/// The reason `rel` may not be joined under a trusted root, if there is one.
pub fn relative_path_problem(rel: &str) -> (r: Option<&'static str>)
    ensures
        match r {
            Some(m) => spec_relative_problem(rel@) == Some(m@),
            None => spec_relative_problem(rel@) is None,
        },
{
    let v = chars_of(rel);
    if v.len() > 0 && v[0] == '/' {
        return Some("path must be relative to the trusted root");
    }
    assert(!(rel@.len() > 0 && rel@[0] == '/'));
    let cs = components(rel);
    let ghost cv = chars_views(cs@);
    let mut i: usize = 0;
    while i < cs.len()
        invariant
            i <= cs@.len(),
            cv == chars_views(cs@),
            cv == spec_components(rel@),
            !(rel@.len() > 0 && rel@[0] == '/'),
            forall|j: int| 0 <= j < i ==> cv[j] != ".."@,
        decreases cs.len() - i,
    {
        assert(cv[i as int] == cs@[i as int]@);
        if is_dot_dot(&cs[i]) {
            assert(cv.contains(".."@));
            return Some("path must not contain parent-dir (..) components");
        }
        i = i + 1;
    }
    None
}

} // verus!
