//! Unix paths as texts.
use crate::text;
use vstd::prelude::*;
use vstd::string::*;

verus! {

/// Whether a path starts at the root.
pub open spec fn is_rooted(p: Seq<char>) -> bool {
    p.len() > 0 && p[0] == '/'
}

/// `rel` taken from the directory `base`: a rooted `rel` stands alone, and a
/// separator is put between the two unless `base` is empty or ends in one.
pub open spec fn joined(base: Seq<char>, rel: Seq<char>) -> Seq<char> {
    if is_rooted(rel) || base.len() == 0 {
        rel
    } else if base.last() == '/' {
        base + rel
    } else {
        base.push('/') + rel
    }
}

/// `rel` taken from the directory `base`.
pub fn join(base: &str, rel: &str) -> (r: String)
    ensures
        r@ == joined(base@, rel@),
{
    let n: usize = base.unicode_len();
    if n == 0 || (rel.unicode_len() > 0 && rel.get_char(0) == '/') {
        return rel.to_owned();
    }
    let mut out = base.to_owned();
    if base.get_char(n - 1) != '/' {
        out.push('/');
    }
    out.push_str(rel);
    out
}

/// Whether the piece at position `i` of a path is one of its components: empty
/// pieces are not, nor is a `.` that is not the first piece.
pub open spec fn is_component(piece: Seq<char>, i: int) -> bool {
    piece.len() > 0 && (piece != "."@ || i == 0)
}

/// The named components among the first `n` pieces.
pub open spec fn named(pieces: Seq<Seq<char>>, n: int) -> Seq<Seq<char>>
    decreases n,
{
    if n <= 0 || n > pieces.len() {
        Seq::empty()
    } else {
        let init = named(pieces, n - 1);
        if is_component(pieces[n - 1], n - 1) {
            init.push(pieces[n - 1])
        } else {
            init
        }
    }
}

/// The components of a path: the root, where it has one, as `/`, then the names.
pub open spec fn components(p: Seq<char>) -> Seq<Seq<char>> {
    let names = named(text::pieces(p, '/'), text::pieces(p, '/').len() as int);
    if is_rooted(p) {
        seq!["/"@] + names
    } else {
        names
    }
}

/// The components of a path.
pub fn split(p: &str) -> (r: Vec<String>)
    ensures
        text::views(r@) == components(p@),
{
    broadcast use text::lemma_views_push;

    let parts = text::split(p, '/');
    let mut out: Vec<String> = Vec::new();
    let rooted = p.unicode_len() > 0 && p.get_char(0) == '/';
    if rooted {
        out.push("/".to_owned());
    }
    let ghost root = text::views(out@);
    let ghost all = text::pieces(p@, '/');
    let mut i: usize = 0;
    assert(text::views(out@) =~= root + named(all, 0));
    while i < parts.len()
        invariant
            i <= parts.len(),
            text::views(parts@) == all,
            text::views(out@) == root + named(all, i as int),
        decreases parts.len() - i,
    {
        let part = &parts[i];
        let ghost before = named(all, i as int);
        assert(text::views(parts@)[i as int] == part@);
        if !part.as_str().is_empty() && (i == 0 || !text::same(part, ".")) {
            assert(is_component(part@, i as int));
            let ghost prior = text::views(out@);
            out.push(part.clone());
            assert(text::views(out@) == prior.push(part@));
            assert(prior.push(part@) =~= root + before.push(part@));
        } else {
            assert(!is_component(part@, i as int));
        }
        i = i + 1;
        assert(named(all, i as int) == if is_component(part@, i - 1) {
            before.push(part@)
        } else {
            before
        });
    }
    proof {
        text::lemma_pieces_nonempty(p@, '/');
        if rooted {
            assert(root =~= seq!["/"@]);
        } else {
            assert(text::views(out@) =~= components(p@));
        }
    }
    out
}

proof fn lemma_named_agree(a: Seq<Seq<char>>, b: Seq<Seq<char>>, n: int)
    requires
        0 <= n <= a.len(),
        n <= b.len(),
        forall|k: int| 0 <= k < n ==> a[k] == b[k],
    ensures
        named(a, n) == named(b, n),
    decreases n,
{
    if n > 0 {
        lemma_named_agree(a, b, n - 1);
    }
}

/// Whether `front` is the text of a path up to the end of its first `m` components: the
/// shortest beginning of it that has just those.
pub open spec fn is_front(p: Seq<char>, m: int, front: Seq<char>) -> bool {
    &&& front.len() <= p.len()
    &&& front == p.take(front.len() as int)
    &&& components(front) == components(p).take(m)
    &&& forall|k: int|
        0 <= k < front.len() ==> components(#[trigger] p.take(k)) != components(p).take(m)
}

/// Some beginning of a path has just its first `m` components.
proof fn lemma_front_exists(p: Seq<char>, m: int) -> (k: int)
    requires
        0 <= m <= components(p).len(),
    ensures
        0 <= k <= p.len(),
        components(p.take(k)) == components(p).take(m),
    decreases p.len(),
{
    let all = components(p);
    if m == all.len() {
        assert(p.take(p.len() as int) =~= p);
        assert(all.take(m) =~= all);
        p.len() as int
    } else if p.len() == 0 {
        assert(text::pieces(p, '/') =~= seq![p]);
        assert(named(text::pieces(p, '/'), 1) == named(text::pieces(p, '/'), 0));
        0
    } else {
        let t = p.drop_last();
        let c = p.last();
        let before = text::pieces(t, '/');
        let now = text::pieces(p, '/');
        text::lemma_pieces_nonempty(t, '/');
        let i = before.len() - 1;
        let root = if is_rooted(p) {
            seq!["/"@]
        } else {
            Seq::empty()
        };
        if c == '/' {
            assert(now.len() == before.len() + 1);
            lemma_named_agree(now, before, before.len() as int);
            assert(named(now, now.len() as int) == named(before, before.len() as int));
            if t.len() == 0 {
                assert(before =~= seq![t]);
                assert(named(before, 1) == named(before, 0));
                assert(named(before, 1) =~= Seq::empty());
                assert(all =~= seq!["/"@]);
                assert(p.take(0) =~= t);
                assert(components(t) =~= Seq::empty());
                assert(all.take(0) =~= Seq::empty());
                return 0;
            }
            assert(is_rooted(t) == is_rooted(p));
            assert(components(t) == all);
        } else {
            assert(now.len() == before.len());
            lemma_named_agree(now, before, i);
            assert(is_rooted(t) == is_rooted(p)) by {
                if t.len() > 0 {
                    assert(t[0] == p[0]);
                }
            }
            let base = root + named(before, i);
            assert(all =~= if is_component(now[i], i) {
                base.push(now[i])
            } else {
                base
            });
            assert(components(t) =~= if is_component(before[i], i) {
                base.push(before[i])
            } else {
                base
            });
            assert(m <= base.len());
            assert(components(t).take(m) =~= base.take(m));
            assert(all.take(m) =~= base.take(m));
        }
        let k = lemma_front_exists(t, m);
        assert(t.take(k) =~= p.take(k));
        k
    }
}

fn same_names(a: &Vec<String>, b: &Vec<String>, m: usize) -> (r: bool)
    requires
        m <= b@.len(),
    ensures
        r == (text::views(a@) == text::views(b@).take(m as int)),
{
    let ghost x = text::views(a@);
    let ghost y = text::views(b@).take(m as int);
    if a.len() != m {
        assert(x.len() != y.len());
        return false;
    }
    let mut i: usize = 0;
    while i < m
        invariant
            i <= m == a@.len(),
            m <= b@.len(),
            x == text::views(a@),
            y == text::views(b@).take(m as int),
            forall|k: int| 0 <= k < i ==> x[k] == y[k],
        decreases m - i,
    {
        assert(x[i as int] == a@[i as int]@ && y[i as int] == b@[i as int]@);
        if !text::same(&a[i], &b[i]) {
            return false;
        }
        i = i + 1;
    }
    assert(x =~= y);
    true
}

/// The text of a path up to the end of its first `m` components.
pub fn front(p: &str, m: usize) -> (r: String)
    requires
        m <= components(p@).len(),
    ensures
        is_front(p@, m as int, r@),
{
    let all = split(p);
    let n: usize = p.unicode_len();
    let ghost known = lemma_front_exists(p@, m as int);
    assert(text::views(all@).len() == all@.len());
    let mut k: usize = 0;
    while k < n
        invariant
            k <= n == p@.len(),
            m <= all@.len(),
            text::views(all@) == components(p@),
            0 <= known <= n,
            components(p@.take(known)) == components(p@).take(m as int),
            forall|j: int|
                0 <= j < k ==> components(#[trigger] p@.take(j)) != components(p@).take(m as int),
        decreases n - k,
    {
        let head = text::take(p, k);
        if same_names(&split(head), &all, m) {
            return head.to_owned();
        }
        k = k + 1;
    }
    assert(known == n);
    assert(p@.take(n as int) =~= p@);
    p.to_owned()
}

/// The components with one more taken in: `..` takes back the last name, `.`
/// changes nothing, and anything else is added. Nothing goes above the root.
pub open spec fn step(out: Seq<Seq<char>>, name: Seq<char>) -> Seq<Seq<char>> {
    if name == ".."@ {
        if out.len() == 0 || out.last() == "/"@ {
            out
        } else {
            out.drop_last()
        }
    } else if name == "."@ {
        out
    } else {
        out.push(name)
    }
}

/// The first `n` components taken in one after the other.
pub open spec fn folded(comps: Seq<Seq<char>>, n: int) -> Seq<Seq<char>>
    decreases n,
{
    if n <= 0 || n > comps.len() {
        Seq::empty()
    } else {
        step(folded(comps, n - 1), comps[n - 1])
    }
}

/// The components of a path with `.` and `..` resolved, without a look at any
/// file.
pub open spec fn normalized(p: Seq<char>) -> Seq<Seq<char>> {
    folded(components(p), components(p).len() as int)
}

/// The components of a path with `.` and `..` resolved.
pub fn normalize_lexically(p: &str) -> (r: Vec<String>)
    ensures
        text::views(r@) == normalized(p@),
{
    broadcast use text::lemma_views_push;

    let comps = split(p);
    let mut out: Vec<String> = Vec::new();
    let mut i: usize = 0;
    assert(text::views(out@) =~= folded(components(p@), 0));
    while i < comps.len()
        invariant
            i <= comps.len(),
            text::views(comps@) == components(p@),
            text::views(out@) == folded(components(p@), i as int),
        decreases comps.len() - i,
    {
        let name = &comps[i];
        let ghost before = out@;
        assert(components(p@)[i as int] == name@);
        if text::same(name, "..") {
            let n: usize = out.len();
            if n > 0 && !text::same(&out[n - 1], "/") {
                out.pop();
                assert(text::views(out@) =~= text::views(before).drop_last());
            }
        } else if !text::same(name, ".") {
            out.push(name.clone());
        }
        i = i + 1;
    }
    out
}

/// Whether the components `root` lead to the components `of`.
pub open spec fn leads(root: Seq<Seq<char>>, of: Seq<Seq<char>>) -> bool {
    root.len() <= of.len() && of.take(root.len() as int) == root
}

/// Whether the components `root` lead to the components `of`.
pub fn starts_with(of: &Vec<String>, root: &Vec<String>) -> (r: bool)
    ensures
        r == leads(text::views(root@), text::views(of@)),
{
    if root.len() > of.len() {
        return false;
    }
    let mut i: usize = 0;
    while i < root.len()
        invariant
            i <= root.len() <= of.len(),
            forall|k: int| 0 <= k < i ==> root@[k]@ == of@[k]@,
        decreases root.len() - i,
    {
        if !text::same(&root[i], &of[i]) {
            assert(text::views(of@).take(root@.len() as int)[i as int] != text::views(root@)[i as int]);
            return false;
        }
        i = i + 1;
    }
    assert(text::views(of@).take(root@.len() as int) =~= text::views(root@)) by {
        assert forall|k: int| 0 <= k < root@.len() implies text::views(of@).take(
            root@.len() as int,
        )[k] == text::views(root@)[k] by {
            assert(root@[k]@ == of@[k]@);
        }
    }
    true
}

proof fn lemma_folded_clean(comps: Seq<Seq<char>>, n: int)
    requires
        0 <= n <= comps.len(),
    ensures
        forall|k: int|
            0 <= k < folded(comps, n).len() ==> #[trigger] folded(comps, n)[k] != ".."@ && folded(
                comps,
                n,
            )[k] != "."@,
    decreases n,
{
    if n > 0 {
        lemma_folded_clean(comps, n - 1);
        let before = folded(comps, n - 1);
        let now = folded(comps, n);
        assert forall|k: int| 0 <= k < now.len() implies #[trigger] now[k] != ".."@ && now[k] != "."@ by {
            if k < before.len() {
                assert(now[k] == before[k]);
            }
        }
    }
}

/// A normalised path goes neither up nor in place: none of its components is `..`
/// or `.`.
pub proof fn normalized_never_climbs(p: Seq<char>)
    ensures
        forall|k: int|
            0 <= k < normalized(p).len() ==> #[trigger] normalized(p)[k] != ".."@ && normalized(
                p,
            )[k] != "."@,
{
    lemma_folded_clean(components(p), components(p).len() as int);
}

/// Whether a text is a name that a directory can hold: not empty, without a separator, and
/// no step in place or up.
pub open spec fn is_plain_name(name: Seq<char>) -> bool {
    &&& name.len() > 0
    &&& forall|k: int| 0 <= k < name.len() ==> #[trigger] name[k] != '/'
    &&& name != "."@
    &&& name != ".."@
}

proof fn lemma_last_piece(p: Seq<char>, name: Seq<char>)
    requires
        forall|k: int| 0 <= k < name.len() ==> #[trigger] name[k] != '/',
    ensures
        text::pieces(p.push('/') + name, '/') == text::pieces(p, '/').push(name),
    decreases name.len(),
{
    let whole = p.push('/') + name;
    text::lemma_pieces_nonempty(p, '/');
    if name.len() == 0 {
        assert(whole =~= p.push('/'));
        assert(whole.drop_last() =~= p);
        assert(name =~= Seq::empty());
    } else {
        let t = name.drop_last();
        assert forall|k: int| 0 <= k < t.len() implies #[trigger] t[k] != '/' by {
            assert(t[k] == name[k]);
        }
        lemma_last_piece(p, t);
        assert(whole.drop_last() =~= p.push('/') + t);
        assert(whole.last() == name.last());
        assert(name[name.len() - 1] != '/');
        assert(t.push(name.last()) =~= name);
        assert(text::pieces(whole, '/') =~= text::pieces(p, '/').push(name));
    }
}

proof fn lemma_one_more(p: Seq<char>, name: Seq<char>)
    requires
        p.len() > 0,
        name.len() > 0,
        name != "."@,
        forall|k: int| 0 <= k < name.len() ==> #[trigger] name[k] != '/',
    ensures
        components(p.push('/') + name) == components(p).push(name),
{
    let whole = p.push('/') + name;
    lemma_last_piece(p, name);
    let before = text::pieces(p, '/');
    let now = text::pieces(whole, '/');
    let n = before.len() as int;
    lemma_named_agree(now, before, n);
    assert(now[n] == name);
    assert(named(now, n + 1) == named(before, n).push(name));
    assert(whole[0] == p[0]);
    assert(components(whole) =~= components(p).push(name));
}

proof fn lemma_folded_agree(a: Seq<Seq<char>>, b: Seq<Seq<char>>, n: int)
    requires
        0 <= n <= a.len(),
        n <= b.len(),
        forall|k: int| 0 <= k < n ==> a[k] == b[k],
    ensures
        folded(a, n) == folded(b, n),
    decreases n,
{
    if n > 0 {
        lemma_folded_agree(a, b, n - 1);
    }
}

/// A plain name below a path is one more component.
pub proof fn lemma_child(p: Seq<char>, name: Seq<char>)
    requires
        p.len() > 0,
        is_plain_name(name),
    ensures
        normalized(p.push('/') + name) == normalized(p).push(name),
{
    lemma_one_more(p, name);
    let a = components(p);
    let b = components(p.push('/') + name);
    lemma_folded_agree(b, a, a.len() as int);
    assert(b[a.len() as int] == name);
}

/// A step up takes the last component back, and nothing at the root.
pub proof fn lemma_climb(p: Seq<char>)
    requires
        p.len() > 0,
    ensures
        normalized(p.push('/') + ".."@) == if normalized(p).len() == 0 || normalized(p).last()
            == "/"@ {
            normalized(p)
        } else {
            normalized(p).drop_last()
        },
{
    reveal_strlit("..");
    reveal_strlit(".");
    assert(".."@.len() == 2 && "."@.len() == 1);
    lemma_one_more(p, ".."@);
    let a = components(p);
    let b = components(p.push('/') + ".."@);
    lemma_folded_agree(b, a, a.len() as int);
    assert(b[a.len() as int] == ".."@);
}

/// A path without steps in place or up is already resolved.
pub proof fn lemma_without_dots(p: Seq<char>)
    requires
        forall|i: int|
            0 <= i < components(p).len() ==> #[trigger] components(p)[i] != "."@ && components(
                p,
            )[i] != ".."@,
    ensures
        normalized(p) == components(p),
{
    lemma_all_kept(components(p), components(p).len() as int);
    assert(components(p).take(components(p).len() as int) =~= components(p));
}

proof fn lemma_all_kept(comps: Seq<Seq<char>>, n: int)
    requires
        0 <= n <= comps.len(),
        forall|i: int|
            0 <= i < comps.len() ==> #[trigger] comps[i] != "."@ && comps[i] != ".."@,
    ensures
        folded(comps, n) == comps.take(n),
    decreases n,
{
    if n > 0 {
        lemma_all_kept(comps, n - 1);
        assert(comps.take(n - 1).push(comps[n - 1]) =~= comps.take(n));
    } else {
        assert(comps.take(0) =~= Seq::empty());
    }
}

/// A plain name below a path adds itself to where the path leads, and a step up takes the
/// last component back, though never the root.
pub proof fn names_lead_down_and_dots_up(
    p: &str,
    down: &str,
    up: &str,
    name: Seq<char>,
    at: Vec<String>,
    below: Vec<String>,
    above: Vec<String>,
)
    requires
        p@.len() > 0,
        is_plain_name(name),
        down@ == p@.push('/') + name,
        up@ == p@.push('/') + ".."@,
        call_ensures(normalize_lexically, (p,), at),
        call_ensures(normalize_lexically, (down,), below),
        call_ensures(normalize_lexically, (up,), above),
    ensures
        text::views(below@) == text::views(at@).push(name),
        text::views(at@).len() > 0 && text::views(at@).last() != "/"@ ==> text::views(above@)
            == text::views(at@).drop_last(),
        text::views(at@).len() == 0 || text::views(at@).last() == "/"@ ==> text::views(above@)
            == text::views(at@),
{
    lemma_child(p@, name);
    lemma_climb(p@);
}

} // verus!
