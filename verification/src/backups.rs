//! Which files of the backup directory are backups, in which order, which one is the
//! latest and which ones a prune removes.
use vstd::prelude::*;
use vstd::multiset::Multiset;
use crate::profiles::views;

verus! {

/// The number of backups that a backup keeps.
pub const KEEP_BACKUPS: usize = 20;

/// Strict lexicographic order of character sequences (the order of `Path` for file
/// names in one directory: byte order of UTF-8, which is code point order).
pub open spec fn chars_lt(a: Seq<char>, b: Seq<char>) -> bool
    decreases a.len(),
{
    if a.len() == 0 {
        b.len() > 0
    } else if b.len() == 0 {
        false
    } else if a[0] == b[0] {
        chars_lt(a.drop_first(), b.drop_first())
    } else {
        (a[0] as int) < (b[0] as int)
    }
}

/// `s` is in ascending order.
pub open spec fn sorted(s: Seq<Seq<char>>) -> bool {
    forall|i: int, j: int| 0 <= i < j < s.len() ==> !chars_lt(s[j], s[i])
}

/// A file name whose extension is `toml`: a dot that is not the first character,
/// followed by `toml` at the end.
pub open spec fn has_toml_ext(name: Seq<char>) -> bool {
    name.len() >= 6 && name.subrange(name.len() - 5, name.len() as int) == ".toml"@
}

/// The names of `s` whose extension is `toml`, in order.
pub open spec fn toml_names(s: Seq<Seq<char>>) -> Seq<Seq<char>>
    decreases s.len(),
{
    if s.len() == 0 {
        s
    } else if has_toml_ext(s.last()) {
        toml_names(s.drop_last()).push(s.last())
    } else {
        toml_names(s.drop_last())
    }
}

pub proof fn lemma_chars_lt_irreflexive(a: Seq<char>)
    ensures
        !chars_lt(a, a),
    decreases a.len(),
{
    if a.len() > 0 {
        lemma_chars_lt_irreflexive(a.drop_first());
    }
}

pub proof fn lemma_chars_lt_total(a: Seq<char>, b: Seq<char>)
    ensures
        chars_lt(a, b) || a == b || chars_lt(b, a),
    decreases a.len(),
{
    if a.len() > 0 && b.len() > 0 && a[0] == b[0] {
        lemma_chars_lt_total(a.drop_first(), b.drop_first());
        if a.drop_first() == b.drop_first() {
            assert(a =~= seq![a[0]] + a.drop_first());
            assert(b =~= seq![b[0]] + b.drop_first());
        }
    } else if a.len() == 0 && b.len() == 0 {
        assert(a =~= b);
    } else if a.len() > 0 && b.len() > 0 {
        assert((a[0] as int) != (b[0] as int));
    }
}

pub proof fn lemma_chars_lt_transitive(a: Seq<char>, b: Seq<char>, c: Seq<char>)
    requires
        chars_lt(a, b),
        chars_lt(b, c),
    ensures
        chars_lt(a, c),
    decreases a.len(),
{
    if a.len() > 0 && b.len() > 0 && c.len() > 0 && a[0] == b[0] && b[0] == c[0] {
        lemma_chars_lt_transitive(a.drop_first(), b.drop_first(), c.drop_first());
    }
}

pub proof fn lemma_chars_lt_asymmetric(a: Seq<char>, b: Seq<char>)
    requires
        chars_lt(a, b),
    ensures
        !chars_lt(b, a),
{
    if chars_lt(b, a) {
        lemma_chars_lt_transitive(a, b, a);
        lemma_chars_lt_irreflexive(a);
    }
}

/// Whether `a` comes strictly before `b`.
pub fn str_lt(a: &str, b: &str) -> (r: bool)
    ensures
        r == chars_lt(a@, b@),
{
    let n = a.unicode_len();
    let m = b.unicode_len();
    let mut i: usize = 0;
    assert(a@.skip(0) =~= a@ && b@.skip(0) =~= b@);
    while i < n && i < m && a.get_char(i) == b.get_char(i)
        invariant
            n == a@.len(),
            m == b@.len(),
            i <= n,
            i <= m,
            chars_lt(a@, b@) == chars_lt(a@.skip(i as int), b@.skip(i as int)),
        decreases n - i,
    {
        proof {
            let sa = a@.skip(i as int);
            let sb = b@.skip(i as int);
            assert(sa.drop_first() =~= a@.skip(i + 1));
            assert(sb.drop_first() =~= b@.skip(i + 1));
        }
        i = i + 1;
    }
    if i == n {
        i < m
    } else if i == m {
        false
    } else {
        (a.get_char(i) as u32) < (b.get_char(i) as u32)
    }
}

/// Whether the name has the extension `toml`.
pub fn has_toml_extension(name: &str) -> (r: bool)
    ensures
        r == has_toml_ext(name@),
{
    let n = name.unicode_len();
    proof {
        reveal_strlit(".toml");
    }
    if n < 6 {
        return false;
    }
    let r = name.get_char(n - 5) == '.' && name.get_char(n - 4) == 't' && name.get_char(n - 3)
        == 'o' && name.get_char(n - 2) == 'm' && name.get_char(n - 1) == 'l';
    proof {
        let tail = name@.subrange(n - 5, n as int);
        if r {
            assert(tail =~= ".toml"@);
        } else {
            if tail == ".toml"@ {
                assert(tail[0] == name@[n - 5]);
                assert(tail[1] == name@[n - 4]);
                assert(tail[2] == name@[n - 3]);
                assert(tail[3] == name@[n - 2]);
                assert(tail[4] == name@[n - 1]);
            }
        }
    }
    r
}

proof fn lemma_insert_multiset(s: Seq<Seq<char>>, p: int, x: Seq<char>)
    requires
        0 <= p <= s.len(),
    ensures
        s.insert(p, x).to_multiset() == s.to_multiset().insert(x),
{
    broadcast use vstd::seq_lib::group_to_multiset_ensures;

    let t = s.insert(p, x);
    assert(t.remove(p) =~= s);
    assert(t.to_multiset().count(x) > 0) by {
        assert(t[p] == x);
        assert(t.contains(x));
    }
    assert(t.to_multiset() =~= t.to_multiset().remove(x).insert(x));
}

/// Inserts `x` into a sorted vector, after the elements that do not come after it.
fn insert_sorted(v: &mut Vec<String>, x: String)
    requires
        sorted(views(old(v)@)),
    ensures
        sorted(views(final(v)@)),
        views(final(v)@).to_multiset() == views(old(v)@).to_multiset().insert(x@),
        final(v)@.len() == old(v)@.len() + 1,
{
    let n = v.len();
    let mut p: usize = 0;
    while p < n && !str_lt(x.as_str(), v[p].as_str())
        invariant
            n == v@.len(),
            p <= n,
            forall|j: int| 0 <= j < p ==> !chars_lt(x@, #[trigger] v@[j]@),
        decreases n - p,
    {
        p = p + 1;
    }
    let ghost old_views = views(v@);
    let ghost xv = x@;
    v.insert(p, x);
    proof {
        assert(views(v@) =~= old_views.insert(p as int, xv));
        lemma_insert_multiset(old_views, p as int, xv);
        let s = views(v@);
        assert forall|i: int, j: int| 0 <= i < j < s.len() implies !chars_lt(s[j], s[i]) by {
            if i < p && j < p {
                assert(s[i] == old_views[i] && s[j] == old_views[j]);
            } else if i < p && j == p {
                assert(s[i] == old_views[i]);
                lemma_chars_lt_total(xv, old_views[i]);
                if chars_lt(xv, old_views[i]) {
                    assert(!chars_lt(xv, v@[i]@));
                    assert(false);
                }
                if xv == old_views[i] {
                    lemma_chars_lt_irreflexive(xv);
                }
                if chars_lt(old_views[i], xv) {
                    lemma_chars_lt_asymmetric(old_views[i], xv);
                }
            } else if i < p && j > p {
                assert(s[i] == old_views[i] && s[j] == old_views[j - 1]);
            } else if i == p {
                assert(s[j] == old_views[j - 1]);
                // x comes before old[p] <= old[j - 1]
                assert(chars_lt(xv, old_views[p as int]));
                if chars_lt(old_views[j - 1], xv) {
                    if j - 1 == p {
                        lemma_chars_lt_asymmetric(xv, old_views[p as int]);
                    } else {
                        assert(!chars_lt(old_views[j - 1], old_views[p as int]));
                        lemma_chars_lt_transitive(old_views[j - 1], xv, old_views[p as int]);
                    }
                }
            } else {
                assert(s[i] == old_views[i - 1] && s[j] == old_views[j - 1]);
            }
        }
    }
}

/// The backup file names among `names`, sorted.
pub fn select_backups(names: &Vec<String>) -> (r: Vec<String>)
    ensures
        sorted(views(r@)),
        views(r@).to_multiset() == toml_names(views(names@)).to_multiset(),
{
    let ghost nv = views(names@);
    let mut r: Vec<String> = Vec::new();
    let n = names.len();
    let mut i: usize = 0;
    assert(toml_names(nv.take(0)) =~= Seq::<Seq<char>>::empty());
    assert(views(r@).to_multiset() =~= toml_names(nv.take(0)).to_multiset()) by {
        broadcast use vstd::seq_lib::group_to_multiset_ensures;

        assert(views(r@) =~= toml_names(nv.take(0)));
    }
    while i < n
        invariant
            n == names@.len(),
            nv == views(names@),
            i <= n,
            sorted(views(r@)),
            views(r@).to_multiset() == toml_names(nv.take(i as int)).to_multiset(),
        decreases n - i,
    {
        proof {
            assert(nv.take(i + 1).drop_last() =~= nv.take(i as int));
            assert(nv.take(i + 1).last() == names@[i as int]@);
        }
        if has_toml_extension(names[i].as_str()) {
            let ghost before = toml_names(nv.take(i as int));
            insert_sorted(&mut r, names[i].clone());
            proof {
                broadcast use vstd::seq_lib::group_to_multiset_ensures;

                assert(toml_names(nv.take(i + 1)) == before.push(names@[i as int]@));
            }
        }
        i = i + 1;
    }
    assert(nv.take(n as int) =~= nv);
    r
}

/// The backups of a directory listing: `None` where the directory does not exist, the
/// listing's error where it could not be read, its backup file names in order otherwise.
pub fn list_backups(listing: Option<Result<Vec<String>, String>>) -> (r: Result<Vec<String>, String>)
    ensures
        match listing {
            None => r matches Ok(v) && v@.len() == 0,
            Some(Err(e)) => r matches Err(m) && m@ == "读取备份目录失败: "@ + e@,
            Some(Ok(names)) => r matches Ok(v) && sorted(views(v@)) && views(v@).to_multiset()
                == toml_names(views(names@)).to_multiset(),
        },
{
    match listing {
        None => Ok(Vec::new()),
        Some(Err(e)) => Err(crate::profiles::prefixed("读取备份目录失败: ", e.as_str())),
        Some(Ok(names)) => Ok(select_backups(&names)),
    }
}

/// The oldest backups, which a prune removes so that `keep` remain: all but the last
/// `keep` of the sorted list.
pub fn backups_to_prune(sorted_backups: &Vec<String>, keep: usize) -> (r: Vec<String>)
    ensures
        sorted_backups@.len() > keep ==> r@ == sorted_backups@.take(sorted_backups@.len() - keep),
        sorted_backups@.len() <= keep ==> r@.len() == 0,
{
    let n = sorted_backups.len();
    let mut r: Vec<String> = Vec::new();
    if n > keep {
        let m = n - keep;
        let mut i: usize = 0;
        while i < m
            invariant
                n == sorted_backups@.len(),
                m == n - keep,
                i <= m,
                r@ == sorted_backups@.take(i as int),
            decreases m - i,
        {
            r.push(sorted_backups[i].clone());
            proof {
                assert(r@ =~= sorted_backups@.take(i + 1));
            }
            i = i + 1;
        }
    }
    r
}

/// The latest backup of a listing: the last in order.
pub fn latest_backup(listing: Option<Result<Vec<String>, String>>) -> (r: Result<Option<String>, String>)
    ensures
        match listing {
            None => r == Ok::<Option<String>, String>(None),
            Some(Err(e)) => r matches Err(m) && m@ == "读取备份目录失败: "@ + e@,
            Some(Ok(names)) => r matches Ok(last) && (toml_names(views(names@)).len() == 0 <==> last
                is None) && (last matches Some(l) ==> toml_names(views(names@)).contains(l@)
                && forall|i: int| 0 <= i < toml_names(views(names@)).len() ==> !chars_lt(
                l@,
                #[trigger] toml_names(views(names@))[i],
            )),
        },
{
    let ghost lst = listing;
    let all = list_backups(listing)?;
    let n = all.len();
    if n == 0 {
        proof {
            broadcast use vstd::seq_lib::group_to_multiset_ensures;

            match lst {
                Some(Ok(names)) => {
                    assert(views(all@).len() == 0);
                    assert(views(all@).to_multiset().len() == 0);
                    assert(toml_names(views(names@)).to_multiset().len() == 0);
                },
                _ => {},
            }
        }
        return Ok(None);
    }
    let last = all[n - 1].clone();
    proof {
        broadcast use vstd::seq_lib::group_to_multiset_ensures;

        let v = views(all@);
        assert(v.contains(last@)) by {
            assert(v[n - 1] == last@);
        }
        match lst {
            Some(Ok(names)) => {
                let tn = toml_names(views(names@));
                assert(v.to_multiset().count(last@) > 0);
                assert(tn.to_multiset().count(last@) > 0);
                assert(tn.contains(last@));
                assert(tn.len() == tn.to_multiset().len());
                assert forall|i: int| 0 <= i < tn.len() implies !chars_lt(last@, #[trigger] tn[i]) by {
                    assert(tn.contains(tn[i]));
                    assert(v.to_multiset().count(tn[i]) > 0);
                    assert(v.contains(tn[i]));
                    let j = choose|j: int| 0 <= j < v.len() && v[j] == tn[i];
                    if j < n - 1 {
                        assert(!chars_lt(v[n - 1], v[j]));
                    } else {
                        lemma_chars_lt_irreflexive(last@);
                    }
                }
            },
            _ => {},
        }
    }
    Ok(Some(last))
}

} // verus!
