use vstd::prelude::*;
use vstd::multiset::Multiset;
use crate::path::FsPath;
use crate::names::chars_of;

verus! {

/// One entry of a directory listing.
pub struct FileInfo {
    pub name: String,
    pub path: FsPath,
    pub size: u64,
    pub is_dir: bool,
}

/// Strict lexicographic order on names, character by character by code point.
pub open spec fn name_before(a: Seq<char>, b: Seq<char>) -> bool
    decreases a.len(),
{
    if a.len() == 0 {
        b.len() > 0
    } else if b.len() == 0 {
        false
    } else if a[0] != b[0] {
        (a[0] as int) < (b[0] as int)
    } else {
        name_before(a.drop_first(), b.drop_first())
    }
}

/// Whether `a` is listed strictly before `b`: directories come first, and
/// within each group names go in lexicographic order.
pub open spec fn listed_before(a: FileInfo, b: FileInfo) -> bool {
    (a.is_dir && !b.is_dir) || (a.is_dir == b.is_dir && name_before(a.name@, b.name@))
}

/// A listing in which no entry should have come before an earlier one.
pub open spec fn listing_ordered(s: Seq<FileInfo>) -> bool {
    forall|i: int, j: int| 0 <= i < j < s.len() ==> !#[trigger] listed_before(s[j], s[i])
}

proof fn lemma_name_before_asym(a: Seq<char>, b: Seq<char>)
    ensures
        !(name_before(a, b) && name_before(b, a)),
    decreases a.len(),
{
    if a.len() > 0 && b.len() > 0 && a[0] == b[0] {
        lemma_name_before_asym(a.drop_first(), b.drop_first());
    }
}

proof fn lemma_name_before_trans(a: Seq<char>, b: Seq<char>, c: Seq<char>)
    requires
        name_before(a, b),
        name_before(b, c),
    ensures
        name_before(a, c),
    decreases a.len(),
{
    if a.len() > 0 && a[0] == b[0] && b[0] == c[0] {
        lemma_name_before_trans(a.drop_first(), b.drop_first(), c.drop_first());
    }
}

proof fn lemma_listed_before_asym(a: FileInfo, b: FileInfo)
    ensures
        !(listed_before(a, b) && listed_before(b, a)),
{
    lemma_name_before_asym(a.name@, b.name@);
}

proof fn lemma_listed_before_trans(a: FileInfo, b: FileInfo, c: FileInfo)
    requires
        listed_before(a, b),
        listed_before(b, c),
    ensures
        listed_before(a, c),
{
    if a.is_dir == b.is_dir && b.is_dir == c.is_dir {
        lemma_name_before_trans(a.name@, b.name@, c.name@);
    }
}

proof fn lemma_name_before_total(a: Seq<char>, b: Seq<char>)
    requires
        a != b,
    ensures
        name_before(a, b) || name_before(b, a),
    decreases a.len(),
{
    if a.len() > 0 && b.len() > 0 && a[0] == b[0] {
        if a.drop_first() == b.drop_first() {
            assert(a =~= seq![a[0]] + a.drop_first());
            assert(b =~= seq![b[0]] + b.drop_first());
        }
        lemma_name_before_total(a.drop_first(), b.drop_first());
    } else if a.len() == 0 && b.len() == 0 {
        assert(a =~= b);
    }
}

/// An ordered listing of entries with distinct names is the only ordered
/// arrangement of those entries.
pub proof fn lemma_ordered_listing_unique(a: Seq<FileInfo>, b: Seq<FileInfo>)
    requires
        listing_ordered(a),
        listing_ordered(b),
        a.to_multiset() == b.to_multiset(),
        forall|i: int, j: int| 0 <= i < j < a.len() ==> a[i].name@ != a[j].name@,
    ensures
        a == b,
    decreases a.len(),
{
    a.to_multiset_ensures();
    b.to_multiset_ensures();
    if a.len() == 0 {
        assert(b.len() == 0);
        assert(a =~= b);
        return;
    }
    assert(b.len() > 0);
    assert(b[0] == b[0 as int] && b.contains(b[0]));
    assert(b.to_multiset().count(b[0]) > 0);
    assert(a.to_multiset().count(b[0]) > 0);
    assert(a.contains(b[0]));
    let i = choose|i: int| 0 <= i < a.len() && a[i] == b[0];
    assert(a.contains(a[0]));
    assert(a.to_multiset().count(a[0]) > 0);
    assert(b.to_multiset().count(a[0]) > 0);
    assert(b.contains(a[0]));
    let j = choose|j: int| 0 <= j < b.len() && b[j] == a[0];
    if a[0] != b[0] {
        assert(i != 0 && j != 0);
        assert(a[0].name@ != a[i].name@);
        lemma_name_before_total(a[0].name@, a[i].name@);
        assert(!listed_before(a[i], a[0]));
        assert(!listed_before(b[j], b[0]));
        assert(false);
    }
    let ta = a.drop_first();
    let tb = b.drop_first();
    assert(a.remove(0) =~= ta);
    assert(b.remove(0) =~= tb);
    assert(ta.to_multiset() == tb.to_multiset());
    assert forall|x: int, y: int| 0 <= x < y < ta.len() implies !#[trigger] listed_before(ta[y], ta[x]) by {
        assert(ta[y] == a[y + 1] && ta[x] == a[x + 1]);
    }
    assert forall|x: int, y: int| 0 <= x < y < tb.len() implies !#[trigger] listed_before(tb[y], tb[x]) by {
        assert(tb[y] == b[y + 1] && tb[x] == b[x + 1]);
    }
    assert forall|x: int, y: int| 0 <= x < y < ta.len() implies ta[x].name@ != ta[y].name@ by {
        assert(ta[y] == a[y + 1] && ta[x] == a[x + 1]);
    }
    lemma_ordered_listing_unique(ta, tb);
    assert(a.len() == b.len());
    assert forall|k: int| 0 <= k < a.len() implies a[k] == b[k] by {
        if k > 0 {
            assert(a[k] == ta[k - 1] && b[k] == tb[k - 1]);
        }
    }
    assert(a =~= b);
}

/// Whether name `a` comes strictly before name `b`.
pub fn chars_before(a: &Vec<char>, b: &Vec<char>) -> (r: bool)
    ensures
        r == name_before(a@, b@),
{
    let mut i: usize = 0;
    assert(a@.subrange(0, a@.len() as int) =~= a@);
    assert(b@.subrange(0, b@.len() as int) =~= b@);
    while i < a.len() && i < b.len()
        invariant
            i <= a@.len(),
            i <= b@.len(),
            a@.subrange(0, i as int) == b@.subrange(0, i as int),
            name_before(a@, b@) == name_before(
                a@.subrange(i as int, a@.len() as int),
                b@.subrange(i as int, b@.len() as int),
            ),
        decreases a@.len() - i,
    {
        let x = a[i];
        let y = b[i];
        let ghost sa = a@.subrange(i as int, a@.len() as int);
        let ghost sb = b@.subrange(i as int, b@.len() as int);
        if x != y {
            assert(sa[0] == x && sb[0] == y);
            return x < y;
        }
        proof {
            assert(sa.drop_first() =~= a@.subrange(i + 1, a@.len() as int));
            assert(sb.drop_first() =~= b@.subrange(i + 1, b@.len() as int));
            assert(a@.subrange(0, i + 1) =~= a@.subrange(0, i as int).push(x));
            assert(b@.subrange(0, i + 1) =~= b@.subrange(0, i as int).push(y));
        }
        i = i + 1;
    }
    i < b.len()
}

/// Whether `a` is listed strictly before `b`.
pub fn entry_before(a: &FileInfo, b: &FileInfo) -> (r: bool)
    ensures
        r == listed_before(*a, *b),
{
    if a.is_dir != b.is_dir {
        return a.is_dir;
    }
    let x = chars_of(a.name.as_str());
    let y = chars_of(b.name.as_str());
    chars_before(&x, &y)
}

proof fn lemma_insert_multiset(s: Seq<FileInfo>, j: int, e: FileInfo)
    requires
        0 <= j <= s.len(),
    ensures
        s.insert(j, e).to_multiset() == s.to_multiset().insert(e),
{
    let pre = s.subrange(0, j);
    let post = s.subrange(j, s.len() as int);
    assert(s =~= pre + post);
    assert(s.insert(j, e) =~= pre.push(e) + post);
    vstd::seq_lib::lemma_multiset_commutative(pre, post);
    vstd::seq_lib::lemma_multiset_commutative(pre.push(e), post);
    pre.to_multiset_ensures();
    assert(s.insert(j, e).to_multiset() =~= s.to_multiset().insert(e));
}

/// The entries in listing order: all directories, then all files, each group
/// by name. The result holds the same entries, as many times each.
pub fn sort_listing(entries: Vec<FileInfo>) -> (r: Vec<FileInfo>)
    ensures
        listing_ordered(r@),
        r@.to_multiset() == entries@.to_multiset(),
{
    let mut rest = entries;
    let mut out: Vec<FileInfo> = Vec::new();
    proof {
        out@.to_multiset_ensures();
        assert(out@ =~= Seq::<FileInfo>::empty());
    }
    while rest.len() > 0
        invariant
            listing_ordered(out@),
            out@.to_multiset().add(rest@.to_multiset()) == entries@.to_multiset(),
        decreases rest@.len(),
    {
        let ghost before_rest = rest@;
        let e = rest.pop().unwrap();
        proof {
            assert(before_rest =~= rest@.push(e));
            rest@.to_multiset_ensures();
        }
        let mut j: usize = 0;
        while j < out.len() && !entry_before(&e, &out[j])
            invariant
                j <= out@.len(),
                forall|k: int| 0 <= k < j ==> !#[trigger] listed_before(e, out@[k]),
            decreases out@.len() - j,
        {
            j = j + 1;
        }
        let ghost old_out = out@;
        out.insert(j, e);
        proof {
            lemma_insert_multiset(old_out, j as int, e);
            assert forall|a: int, b: int| 0 <= a < b < out@.len() implies !#[trigger] listed_before(
                out@[b],
                out@[a],
            ) by {
                if b < j {
                    assert(out@[a] == old_out[a] && out@[b] == old_out[b]);
                } else if a < j && b == j {
                    assert(out@[b] == e && out@[a] == old_out[a]);
                    lemma_listed_before_asym(e, old_out[a]);
                    if listed_before(e, old_out[a]) {
                    }
                } else if a < j {
                    assert(out@[a] == old_out[a] && out@[b] == old_out[b - 1]);
                } else if a == j {
                    assert(out@[a] == e && out@[b] == old_out[b - 1]);
                    assert(listed_before(e, old_out[j as int]));
                    if b - 1 > j {
                        assert(!listed_before(old_out[b - 1], old_out[j as int]));
                        if listed_before(old_out[b - 1], e) {
                            lemma_listed_before_trans(old_out[b - 1], e, old_out[j as int]);
                        }
                    } else {
                        lemma_listed_before_asym(e, old_out[j as int]);
                    }
                } else {
                    assert(out@[a] == old_out[a - 1] && out@[b] == old_out[b - 1]);
                }
            }
        }
    }
    proof {
        rest@.to_multiset_ensures();
        assert(rest@.to_multiset() =~= Multiset::empty());
        assert(out@.to_multiset().add(Multiset::empty()) =~= out@.to_multiset());
    }
    out
}

} // verus!
