//! The preset catalogue: de-duplication and ordering.
//!
//! Directory scans (outside the library) can find the same preset name in
//! several places; the catalogue keeps the first of each name and orders
//! the rest case-insensitively by name, as the browsing surface lists
//! them.

use vstd::prelude::*;

use crate::presets::PresetInfo;
use crate::strutil::lower_code;
use crate::strutil::str_eq;

verus! {

/// The names folded to ASCII lower case, as the ordering compares them.
pub open spec fn lower_seq(s: Seq<char>) -> Seq<u32> {
    s.map_values(|c: char| lower_code(c))
}

/// Lexicographic order on code sequences; a prefix comes first.
pub open spec fn lex_leq(x: Seq<u32>, y: Seq<u32>) -> bool
    decreases x.len(),
{
    if x.len() == 0 {
        true
    } else if y.len() == 0 {
        false
    } else if x[0] < y[0] {
        true
    } else if x[0] > y[0] {
        false
    } else {
        lex_leq(x.skip(1), y.skip(1))
    }
}

/// Case-insensitive name order on presets.
pub open spec fn name_leq(a: PresetInfo, b: PresetInfo) -> bool {
    lex_leq(lower_seq(a.name@), lower_seq(b.name@))
}

/// The sequence is ordered by name.
pub open spec fn sorted_by_name(s: Seq<PresetInfo>) -> bool {
    forall|i: int, j: int| 0 <= i < j < s.len() ==> name_leq(#[trigger] s[i], #[trigger] s[j])
}

/// The order is total: one of the two directions always holds.
pub proof fn lemma_lex_total(x: Seq<u32>, y: Seq<u32>)
    ensures
        lex_leq(x, y) || lex_leq(y, x),
    decreases x.len(),
{
    if x.len() > 0 && y.len() > 0 && x[0] == y[0] {
        lemma_lex_total(x.skip(1), y.skip(1));
    }
}

/// The order is transitive.
pub proof fn lemma_lex_trans(x: Seq<u32>, y: Seq<u32>, z: Seq<u32>)
    requires
        lex_leq(x, y),
        lex_leq(y, z),
    ensures
        lex_leq(x, z),
    decreases x.len(),
{
    if x.len() > 0 && y.len() > 0 && z.len() > 0 && x[0] == y[0] && y[0] == z[0] {
        lemma_lex_trans(x.skip(1), y.skip(1), z.skip(1));
    }
}

/// Compare two presets by case-folded name.
pub fn preset_leq(a: &PresetInfo, b: &PresetInfo) -> (r: bool)
    ensures
        r == name_leq(*a, *b),
{
    let ghost la = lower_seq(a.name@);
    let ghost lb = lower_seq(b.name@);
    let alen = a.name.as_str().unicode_len();
    let blen = b.name.as_str().unicode_len();
    let mut i: usize = 0;
    proof {
        assert(la.skip(0) =~= la);
        assert(lb.skip(0) =~= lb);
    }
    while i < alen && i < blen
        invariant
            alen == a.name@.len(),
            blen == b.name@.len(),
            la == lower_seq(a.name@),
            lb == lower_seq(b.name@),
            i <= alen,
            i <= blen,
            lex_leq(la, lb) == lex_leq(la.skip(i as int), lb.skip(i as int)),
        decreases alen - i,
    {
        proof {
            assert(la.skip(i as int)[0] == la[i as int]);
            assert(lb.skip(i as int)[0] == lb[i as int]);
            assert(la.skip(i as int).skip(1) =~= la.skip(i as int + 1));
            assert(lb.skip(i as int).skip(1) =~= lb.skip(i as int + 1));
        }
        let ca = fold_char(a.name.as_str().get_char(i));
        let cb = fold_char(b.name.as_str().get_char(i));
        if ca < cb {
            return true;
        }
        if ca > cb {
            return false;
        }
        i = i + 1;
    }
    proof {
        if i >= alen {
            assert(la.skip(i as int).len() == 0);
        } else {
            assert(lb.skip(i as int).len() == 0);
            assert(la.skip(i as int).len() > 0);
        }
    }
    alen <= blen
}

/// ASCII-lower-case the code of one character.
fn fold_char(c: char) -> (r: u32)
    ensures
        r == lower_code(c),
{
    let code = c as u32;
    if 65 <= code && code <= 90 {
        code + 32
    } else {
        code
    }
}

/// Does the list already hold a preset of this name?
fn contains_name(v: &Vec<PresetInfo>, name: &str) -> (r: bool)
    ensures
        r == names_of(v@).contains(name@),
{
    let mut i: usize = 0;
    while i < v.len()
        invariant
            i <= v@.len(),
            forall|j: int| 0 <= j < i ==> (#[trigger] v@[j]).name@ != name@,
        decreases v@.len() - i,
    {
        if str_eq(v[i].name.as_str(), name) {
            assert(names_of(v@).contains(name@));
            return true;
        }
        i = i + 1;
    }
    proof {
        if names_of(v@).contains(name@) {
            let j = choose|j: int| 0 <= j < v@.len() && (#[trigger] v@[j]).name@ == name@;
        }
    }
    false
}

/// The set of names a list holds.
pub open spec fn names_of(s: Seq<PresetInfo>) -> Set<Seq<char>> {
    Set::new(|n: Seq<char>| exists|j: int| 0 <= j < s.len() && (#[trigger] s[j]).name@ == n)
}

/// The scan's finds with every later duplicate of a name dropped.
pub open spec fn spec_dedup(s: Seq<PresetInfo>, seen: Set<Seq<char>>) -> Seq<PresetInfo>
    decreases s.len(),
{
    if s.len() == 0 {
        Seq::<PresetInfo>::empty()
    } else if seen.contains(s[0].name@) {
        spec_dedup(s.skip(1), seen)
    } else {
        seq![s[0]] + spec_dedup(s.skip(1), seen.insert(s[0].name@))
    }
}

/// Keep the first find of every preset name, in scan order.
pub fn dedup_presets(found: Vec<PresetInfo>) -> (r: Vec<PresetInfo>)
    ensures
        r@ == spec_dedup(found@, Set::<Seq<char>>::empty()),
{
    let ghost fv = found@;
    let mut rest = found;
    let mut out: Vec<PresetInfo> = Vec::new();
    proof {
        assert(names_of(out@) =~= Set::<Seq<char>>::empty());
    }
    while rest.len() > 0
        invariant
            spec_dedup(fv, Set::<Seq<char>>::empty()) == out@ + spec_dedup(
                rest@,
                names_of(out@),
            ),
        decreases rest@.len(),
    {
        let ghost rv = rest@;
        let p = rest.remove(0);
        proof {
            assert(rv.remove(0) =~= rv.skip(1));
        }
        if !contains_name(&out, p.name.as_str()) {
            let ghost pre = out@;
            let ghost nm = p.name@;
            out.push(p);
            proof {
                assert(names_of(out@) =~= names_of(pre).insert(nm)) by {
                    assert forall|n: Seq<char>| names_of(out@).contains(n) implies names_of(
                        pre,
                    ).insert(nm).contains(n) by {
                        let j = choose|j: int|
                            0 <= j < out@.len() && (#[trigger] out@[j]).name@ == n;
                        if j < pre.len() {
                            assert(names_of(pre).contains(n));
                        }
                    }
                    assert forall|n: Seq<char>| names_of(pre).insert(nm).contains(
                        n,
                    ) implies names_of(out@).contains(n) by {
                        if names_of(pre).contains(n) {
                            let j = choose|j: int|
                                0 <= j < pre.len() && (#[trigger] pre[j]).name@ == n;
                            assert(out@[j].name@ == n);
                        } else {
                            assert(out@[pre.len() as int].name@ == n);
                        }
                    }
                }
                assert(spec_dedup(rv, names_of(pre)) =~= seq![rv[0]] + spec_dedup(
                    rest@,
                    names_of(out@),
                ));
                assert(out@ + spec_dedup(rest@, names_of(out@)) =~= pre + spec_dedup(
                    rv,
                    names_of(pre),
                ));
            }
        } else {
            proof {
                assert(spec_dedup(rv, names_of(out@)) == spec_dedup(
                    rest@,
                    names_of(out@),
                ));
            }
        }
    }
    proof {
        assert(out@ + Seq::<PresetInfo>::empty() =~= out@);
        assert(spec_dedup(rest@, names_of(out@)) == Seq::<PresetInfo>::empty());
    }
    out
}

/// Order the presets case-insensitively by name: the result is a
/// permutation of the input, sorted by `name_leq`.
pub fn sort_presets(found: Vec<PresetInfo>) -> (r: Vec<PresetInfo>)
    ensures
        r@.to_multiset() == found@.to_multiset(),
        sorted_by_name(r@),
{
    let ghost fv = found@;
    let mut rest = found;
    let mut out: Vec<PresetInfo> = Vec::new();
    proof {
        broadcast use vstd::seq_lib::group_to_multiset_ensures;
        broadcast use vstd::multiset::group_multiset_axioms;

        assert(out@.to_multiset().len() == 0);
        assert(fv.to_multiset() =~= out@.to_multiset().add(rest@.to_multiset()));
    }
    while rest.len() > 0
        invariant
            fv.to_multiset() == out@.to_multiset().add(rest@.to_multiset()),
            sorted_by_name(out@),
        decreases rest@.len(),
    {
        let ghost rv = rest@;
        let x = rest.remove(0);
        proof {
            broadcast use vstd::seq_lib::group_to_multiset_ensures;
            broadcast use vstd::multiset::group_multiset_axioms;

            assert(rv.remove(0).to_multiset() == rv.to_multiset().remove(rv[0]));
            assert(rv.contains(rv[0]));
            assert(rv.to_multiset().count(rv[0]) > 0);
        }
        let mut k: usize = 0;
        while k < out.len() && preset_leq(&out[k], &x)
            invariant
                k <= out@.len(),
                forall|j: int| 0 <= j < k ==> name_leq(#[trigger] out@[j], x),
            decreases out@.len() - k,
        {
            k = k + 1;
        }
        proof {
            if k < out@.len() {
                lemma_lex_total(lower_seq(out@[k as int].name@), lower_seq(x.name@));
            }
        }
        let ghost pre = out@;
        out.insert(k, x);
        proof {
            broadcast use vstd::seq_lib::group_to_multiset_ensures;
            broadcast use vstd::multiset::group_multiset_axioms;

            assert(out@.remove(k as int) =~= pre);
            assert(out@.remove(k as int).to_multiset() == out@.to_multiset().remove(
                out@[k as int],
            ));
            assert(out@[k as int] == x);
            assert(out@.contains(x));
            assert(out@.to_multiset().count(x) > 0);
            assert(out@.to_multiset() =~= pre.to_multiset().insert(x));
            assert(fv.to_multiset() =~= out@.to_multiset().add(rest@.to_multiset()));
            assert forall|i: int, j: int| 0 <= i < j < out@.len() implies name_leq(
                #[trigger] out@[i],
                #[trigger] out@[j],
            ) by {
                if j < k {
                    assert(out@[i] == pre[i] && out@[j] == pre[j]);
                } else if i > k {
                    assert(out@[i] == pre[i - 1] && out@[j] == pre[j - 1]);
                } else if i == k {
                    assert(out@[i] == x && out@[j] == pre[j - 1]);
                    assert(k < pre.len());
                    assert(name_leq(x, pre[k as int]));
                    if j - 1 > k {
                        assert(name_leq(pre[k as int], pre[j - 1]));
                        lemma_lex_trans(
                            lower_seq(x.name@),
                            lower_seq(pre[k as int].name@),
                            lower_seq(pre[j - 1].name@),
                        );
                    }
                } else if j == k {
                    assert(out@[i] == pre[i] && out@[j] == x);
                    assert(name_leq(pre[i], x));
                } else {
                    assert(i < k && j > k);
                    assert(out@[i] == pre[i] && out@[j] == pre[j - 1]);
                    if j - 1 == k {
                        assert(k < pre.len());
                        assert(name_leq(pre[i], pre[k as int])) by {
                            if i < k {
                                assert(name_leq(out@[i], x));
                            }
                        }
                        assert(out@[j] == pre[k as int]);
                        assert(name_leq(pre[i], pre[j - 1]));
                    } else {
                        assert(name_leq(pre[i], pre[j - 1]));
                    }
                }
            }
        }
    }
    proof {
        broadcast use vstd::seq_lib::group_to_multiset_ensures;
        broadcast use vstd::multiset::group_multiset_axioms;

        assert(rest@.to_multiset().len() == 0);
        assert(rest@.to_multiset() =~= vstd::multiset::Multiset::<PresetInfo>::empty());
        assert(fv.to_multiset() =~= out@.to_multiset());
    }
    out
}

} // verus!
