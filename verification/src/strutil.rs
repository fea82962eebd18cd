//! Verified helpers on strings and character sequences.
//!
//! The control surfaces hand selector words ("linear", "a", "none", …) to
//! the library as strings; these helpers give exact, specification-level
//! meaning to the comparisons the parsers make.

use vstd::prelude::*;

verus! {

/// Exact equality of two strings, by character.
pub fn str_eq(a: &str, b: &str) -> (r: bool)
    ensures
        r == (a@ == b@),
{
    let alen = a.unicode_len();
    let blen = b.unicode_len();
    if alen != blen {
        assert(a@ != b@) by {
            assert(a@.len() != b@.len());
        }
        return false;
    }
    let mut i: usize = 0;
    while i < alen
        invariant
            alen == a@.len(),
            alen == b@.len(),
            i <= alen,
            forall|j: int| 0 <= j < i ==> a@[j] == b@[j],
        decreases alen - i,
    {
        if a.get_char(i) != b.get_char(i) {
            return false;
        }
        i += 1;
    }
    proof {
        assert(a@ =~= b@);
    }
    true
}

/// ASCII whitespace, as the parsers here understand it.
pub open spec fn is_ws(c: char) -> bool {
    c == ' ' || c == '\t' || c == '\n' || c == '\r'
}

/// `s` without its leading whitespace.
pub open spec fn drop_ws_front(s: Seq<char>) -> Seq<char>
    decreases s.len(),
{
    if s.len() > 0 && is_ws(s[0]) {
        drop_ws_front(s.skip(1))
    } else {
        s
    }
}

/// `s` without its trailing whitespace.
pub open spec fn drop_ws_back(s: Seq<char>) -> Seq<char>
    decreases s.len(),
{
    if s.len() > 0 && is_ws(s.last()) {
        drop_ws_back(s.drop_last())
    } else {
        s
    }
}

/// `s` without leading and trailing whitespace.
pub open spec fn spec_trim_ws(s: Seq<char>) -> Seq<char> {
    drop_ws_back(drop_ws_front(s))
}

/// `s` without its leading double quotes.
pub open spec fn drop_quote_front(s: Seq<char>) -> Seq<char>
    decreases s.len(),
{
    if s.len() > 0 && s[0] == '"' {
        drop_quote_front(s.skip(1))
    } else {
        s
    }
}

/// `s` without its trailing double quotes.
pub open spec fn drop_quote_back(s: Seq<char>) -> Seq<char>
    decreases s.len(),
{
    if s.len() > 0 && s.last() == '"' {
        drop_quote_back(s.drop_last())
    } else {
        s
    }
}

/// `s` without leading and trailing double quotes.
pub open spec fn spec_trim_quotes(s: Seq<char>) -> Seq<char> {
    drop_quote_back(drop_quote_front(s))
}

/// Does `s` begin with `p`, character by character?
pub fn str_starts_with(s: &str, p: &str) -> (r: bool)
    ensures
        r == (s@.len() >= p@.len() && s@.subrange(0, p@.len() as int) == p@),
{
    let slen = s.unicode_len();
    let plen = p.unicode_len();
    if slen < plen {
        return false;
    }
    let mut i: usize = 0;
    while i < plen
        invariant
            slen == s@.len(),
            plen == p@.len(),
            plen <= slen,
            i <= plen,
            forall|j: int| 0 <= j < i ==> s@[j] == p@[j],
        decreases plen - i,
    {
        if s.get_char(i) != p.get_char(i) {
            assert(s@.subrange(0, p@.len() as int)[i as int] != p@[i as int]);
            return false;
        }
        i += 1;
    }
    proof {
        assert(s@.subrange(0, p@.len() as int) =~= p@);
    }
    true
}

/// The fields of `s` split on the separator `c`; an empty input is one
/// empty field, and a trailing separator yields a trailing empty field.
pub open spec fn split_on(s: Seq<char>, c: char) -> Seq<Seq<char>>
    decreases s.len(),
{
    if s.len() == 0 {
        seq![Seq::<char>::empty()]
    } else if s.last() == c {
        split_on(s.drop_last(), c).push(Seq::<char>::empty())
    } else {
        let sp = split_on(s.drop_last(), c);
        sp.update(sp.len() - 1, sp.last().push(s.last()))
    }
}

/// Split `s` into its fields on the separator `c`.
pub fn split_str(s: &str, c: char) -> (r: Vec<String>)
    ensures
        r.deep_view() == split_on(s@, c),
        r@.len() > 0,
{
    let len = s.unicode_len();
    let mut fields: Vec<String> = Vec::new();
    let mut field_start: usize = 0;
    let mut i: usize = 0;
    proof {
        assert(s@.take(0) =~= Seq::<char>::empty());
        assert(s@.take(0).skip(0) =~= Seq::<char>::empty());
        assert(split_on(s@.take(0), c) =~= fields.deep_view().push(
            s@.take(0).skip(0),
        ));
    }
    while i < len
        invariant
            len == s@.len(),
            field_start <= i <= len,
            split_on(s@.take(i as int), c) == fields.deep_view().push(
                s@.take(i as int).skip(field_start as int),
            ),
        decreases len - i,
    {
        proof {
            assert(s@.take(i as int + 1).drop_last() =~= s@.take(i as int));
            assert(s@.take(i as int + 1).last() == s@[i as int]);
        }
        let ghost pre_fields = fields.deep_view();
        let ghost cur = s@.take(i as int).skip(field_start as int);
        if s.get_char(i) == c {
            fields.push(String::from_str(s.substring_char(field_start, i)));
            proof {
                assert(s@.subrange(field_start as int, i as int) =~= cur);
                assert(fields.deep_view() =~= pre_fields.push(cur));
                assert(s@.take(i as int + 1).skip(i as int + 1) =~= Seq::<char>::empty());
                assert(split_on(s@.take(i as int + 1), c) =~= fields.deep_view().push(
                    s@.take(i as int + 1).skip(i as int + 1),
                ));
            }
            field_start = i + 1;
        } else {
            proof {
                let sp = split_on(s@.take(i as int), c);
                assert(split_on(s@.take(i as int + 1), c) =~= sp.update(
                    sp.len() - 1,
                    sp.last().push(s@[i as int]),
                ));
                assert(cur.push(s@[i as int]) =~= s@.take(i as int + 1).skip(field_start as int));
                assert(split_on(s@.take(i as int + 1), c) =~= fields.deep_view().push(
                    s@.take(i as int + 1).skip(field_start as int),
                ));
            }
        }
        i = i + 1;
    }
    fields.push(String::from_str(s.substring_char(field_start, len)));
    proof {
        assert(s@.take(len as int) =~= s@);
        assert(s@.subrange(field_start as int, len as int) =~= s@.take(len as int).skip(
            field_start as int,
        ));
        assert(fields.deep_view() =~= split_on(s@, c));
    }
    fields
}

/// The non-empty fields of `s` split on `c`: how a whitespace-separated
/// listing is tokenised.
pub fn nonempty_tokens(s: &str, c: char) -> (r: Vec<String>)
    ensures
        r.deep_view() == split_on(s@, c).filter(|t: Seq<char>| t.len() > 0),
{
    let fields = split_str(s, c);
    let ghost fv = fields.deep_view();
    let mut out: Vec<String> = Vec::new();
    let mut i: usize = 0;
    proof {
        assert(fv.take(0) =~= Seq::<Seq<char>>::empty());
        reveal_with_fuel(Seq::filter, 2);
        assert(out.deep_view() =~= fv.take(0).filter(|t: Seq<char>| t.len() > 0));
    }
    while i < fields.len()
        invariant
            fv == fields.deep_view(),
            fv.len() == fields@.len(),
            forall|k: int| 0 <= k < fields@.len() ==> fv[k] == fields@[k]@,
            i <= fields@.len(),
            out.deep_view() == fv.take(i as int).filter(|t: Seq<char>| t.len() > 0),
        decreases fields@.len() - i,
    {
        proof {
            assert(fv.take(i as int + 1).drop_last() =~= fv.take(i as int));
            assert(fv.take(i as int + 1).last() == fv[i as int]);
            reveal_with_fuel(Seq::filter, 2);
        }
        let ghost pre = out.deep_view();
        if fields[i].as_str().unicode_len() > 0 {
            let f = fields[i].clone();
            out.push(f);
            proof {
                assert(out.deep_view() =~= pre.push(fv[i as int]));
                assert(out.deep_view() =~= fv.take(i as int + 1).filter(
                    |t: Seq<char>| t.len() > 0,
                ));
            }
        } else {
            proof {
                assert(out.deep_view() =~= fv.take(i as int + 1).filter(
                    |t: Seq<char>| t.len() > 0,
                ));
            }
        }
        i = i + 1;
    }
    proof {
        assert(fv.take(fields@.len() as int) =~= fv);
    }
    out
}

/// Does `n` occur anywhere in `s`?
pub open spec fn has_substr(s: Seq<char>, n: Seq<char>) -> bool {
    exists|k: int|
        0 <= k && k + n.len() <= s.len() && #[trigger] s.subrange(k, k + n.len() as int) == n
}

/// Substring search.
pub fn contains_str(s: &str, n: &str) -> (r: bool)
    ensures
        r == has_substr(s@, n@),
{
    let slen = s.unicode_len();
    let nlen = n.unicode_len();
    if nlen > slen {
        return false;
    }
    let mut k: usize = 0;
    while k <= slen - nlen
        invariant
            slen == s@.len(),
            nlen == n@.len(),
            nlen <= slen,
            k <= slen - nlen + 1,
            forall|q: int| 0 <= q < k ==> #[trigger] s@.subrange(q, q + n@.len() as int) != n@,
        decreases slen + 1 - k,
    {
        let mut j: usize = 0;
        let mut matched = true;
        while j < nlen
            invariant
                slen == s@.len(),
                nlen == n@.len(),
                k + nlen <= slen,
                j <= nlen,
                matched || j == nlen,
                matched == (forall|q: int| 0 <= q < j ==> s@[k + q] == n@[q]),
            decreases nlen - j,
        {
            if s.get_char(k + j) != n.get_char(j) {
                matched = false;
                j = nlen;
            } else {
                proof {
                    assert(forall|q: int| 0 <= q < j ==> s@[k + q] == n@[q]);
                }
                j = j + 1;
            }
        }
        if matched {
            proof {
                assert(s@.subrange(k as int, k + n@.len() as int) =~= n@);
            }
            return true;
        }
        proof {
            if s@.subrange(k as int, k + n@.len() as int) == n@ {
                assert(forall|q: int|
                    0 <= q < n@.len() ==> s@.subrange(k as int, k + n@.len() as int)[q] == n@[q]);
                assert(forall|q: int| 0 <= q < n@.len() ==> s@[k + q] == n@[q]);
            }
        }
        k = k + 1;
    }
    proof {
        assert forall|q: int| 0 <= q && q + n@.len() <= s@.len() implies #[trigger] s@.subrange(
            q,
            q + n@.len() as int,
        ) != n@ by {
            assert(q < k);
        }
    }
    false
}

/// `s` with every occurrence of `pat` replaced by `rep`, leftmost first,
/// non-overlapping.
pub open spec fn spec_replace(s: Seq<char>, pat: Seq<char>, rep: Seq<char>) -> Seq<char>
    recommends
        pat.len() > 0,
    decreases s.len(),
{
    if s.len() == 0 {
        s
    } else if pat.len() > 0 && pat.len() <= s.len() && s.subrange(0, pat.len() as int) == pat {
        rep + spec_replace(s.skip(pat.len() as int), pat, rep)
    } else {
        seq![s[0]] + spec_replace(s.skip(1), pat, rep)
    }
}

/// Replace every occurrence of `pat` in `s` by `rep`.
pub fn replace_str(s: &str, pat: &str, rep: &str) -> (r: String)
    requires
        pat@.len() > 0,
    ensures
        r@ == spec_replace(s@, pat@, rep@),
{
    let len = s.unicode_len();
    let patlen = pat.unicode_len();
    let mut out = String::new();
    let mut i: usize = 0;
    proof {
        assert(s@.skip(0) =~= s@);
        assert(out@ + spec_replace(s@.skip(0), pat@, rep@) =~= spec_replace(s@, pat@, rep@));
    }
    while i < len
        invariant
            len == s@.len(),
            patlen == pat@.len(),
            patlen > 0,
            i <= len,
            spec_replace(s@, pat@, rep@) == out@ + spec_replace(s@.skip(i as int), pat@, rep@),
        decreases len - i,
    {
        let tail = s.substring_char(i, len);
        proof {
            assert(tail@ =~= s@.skip(i as int));
        }
        if str_starts_with(tail, pat) {
            out.append(rep);
            proof {
                assert(s@.skip(i as int).skip(patlen as int) =~= s@.skip(i as int + patlen));
            }
            i = i + patlen;
        } else {
            out.append(s.substring_char(i, i + 1));
            proof {
                assert(s@.subrange(i as int, i as int + 1) =~= seq![s@[i as int]]);
                assert(s@.skip(i as int)[0] == s@[i as int]);
                assert(s@.skip(i as int).skip(1) =~= s@.skip(i as int + 1));
                if patlen <= s@.skip(i as int).len() && s@.skip(i as int).subrange(
                    0,
                    patlen as int,
                ) == pat@ {
                    assert(false);
                }
            }
            i = i + 1;
        }
    }
    proof {
        assert(s@.skip(len as int) =~= Seq::<char>::empty());
        assert(out@ =~= spec_replace(s@, pat@, rep@));
    }
    out
}

/// The prefix before the first occurrence of `c`; all of `s` when `c`
/// does not occur.
pub open spec fn before_first(s: Seq<char>, c: char) -> Seq<char>
    decreases s.len(),
{
    if s.len() == 0 {
        s
    } else if s[0] == c {
        Seq::<char>::empty()
    } else {
        seq![s[0]] + before_first(s.skip(1), c)
    }
}

/// The suffix after the first occurrence of `c`; empty when `c` does not
/// occur.
pub open spec fn after_first(s: Seq<char>, c: char) -> Seq<char>
    decreases s.len(),
{
    if s.len() == 0 {
        Seq::<char>::empty()
    } else if s[0] == c {
        s.skip(1)
    } else {
        after_first(s.skip(1), c)
    }
}

/// With the first occurrence of `c` at `k`, the prefix and suffix around
/// it are the parts before and after `k`.
pub proof fn lemma_first_at(s: Seq<char>, c: char, k: int)
    requires
        0 <= k < s.len(),
        s[k] == c,
        forall|j: int| 0 <= j < k ==> s[j] != c,
    ensures
        before_first(s, c) == s.take(k),
        after_first(s, c) == s.skip(k + 1),
    decreases k,
{
    if k == 0 {
        assert(before_first(s, c) =~= s.take(0));
    } else {
        assert(forall|j: int| 0 <= j < k - 1 ==> s.skip(1)[j] != c);
        assert(s.skip(1)[k - 1] == c);
        lemma_first_at(s.skip(1), c, k - 1);
        assert(seq![s[0]] + s.skip(1).take(k - 1) =~= s.take(k));
        assert(s.skip(1).skip(k) =~= s.skip(k + 1));
    }
}

/// Without any occurrence of `c`, the prefix is all of `s`.
pub proof fn lemma_first_none(s: Seq<char>, c: char)
    requires
        forall|j: int| 0 <= j < s.len() ==> s[j] != c,
    ensures
        before_first(s, c) == s,
        after_first(s, c) == Seq::<char>::empty(),
    decreases s.len(),
{
    if s.len() > 0 {
        assert(forall|j: int| 0 <= j < s.skip(1).len() ==> s.skip(1)[j] != c);
        lemma_first_none(s.skip(1), c);
        assert(seq![s[0]] + s.skip(1) =~= s);
    }
}

/// Index of the first occurrence of `c`, tied to the `before_first` and
/// `after_first` decomposition.
pub fn find_first(s: &str, c: char) -> (r: Option<usize>)
    ensures
        (r matches Some(k) ==> k < s@.len() && s@[k as int] == c && before_first(s@, c)
            == s@.take(k as int) && after_first(s@, c) == s@.skip(k as int + 1)),
        r is None ==> before_first(s@, c) == s@ && after_first(s@, c) == Seq::<char>::empty() && (
        forall|j: int| 0 <= j < s@.len() ==> s@[j] != c),
{
    let len = s.unicode_len();
    let mut k: usize = 0;
    while k < len
        invariant
            len == s@.len(),
            k <= len,
            forall|j: int| 0 <= j < k ==> s@[j] != c,
        decreases len - k,
    {
        if s.get_char(k) == c {
            proof {
                lemma_first_at(s@, c, k as int);
            }
            return Some(k);
        }
        k = k + 1;
    }
    proof {
        lemma_first_none(s@, c);
    }
    None
}

/// `s` with leading and trailing whitespace removed.
pub fn trim_str(s: &str) -> (r: String)
    ensures
        r@ == spec_trim_ws(s@),
{
    let len = s.unicode_len();
    let mut lo: usize = 0;
    let mut hi: usize = len;
    proof {
        assert(s@ =~= s@.subrange(0, len as int));
    }
    while lo < hi && is_ws_char(s.get_char(lo))
        invariant
            len == s@.len(),
            lo <= hi <= len,
            drop_ws_front(s@) == drop_ws_front(s@.subrange(lo as int, hi as int)),
        decreases hi - lo,
    {
        proof {
            assert(s@.subrange(lo as int, hi as int).skip(1) =~= s@.subrange(
                lo as int + 1,
                hi as int,
            ));
        }
        lo = lo + 1;
    }
    let ghost mid = s@.subrange(lo as int, hi as int);
    proof {
        assert(drop_ws_front(s@) == mid);
    }
    while lo < hi && is_ws_char(s.get_char(hi - 1))
        invariant
            len == s@.len(),
            lo <= hi <= len,
            drop_ws_back(mid) == drop_ws_back(s@.subrange(lo as int, hi as int)),
        decreases hi - lo,
    {
        proof {
            assert(s@.subrange(lo as int, hi as int).drop_last() =~= s@.subrange(
                lo as int,
                hi as int - 1,
            ));
        }
        hi = hi - 1;
    }
    proof {
        assert(spec_trim_ws(s@) == s@.subrange(lo as int, hi as int));
        assert(s@.subrange(lo as int, hi as int) =~= s@.subrange(lo as int, hi as int));
    }
    String::from_str(s.substring_char(lo, hi))
}

/// Exec test for the whitespace set of these helpers.
pub fn is_ws_char(c: char) -> (r: bool)
    ensures
        r == is_ws(c),
{
    c == ' ' || c == '\t' || c == '\n' || c == '\r'
}

/// `s` without its leading asterisks.
pub open spec fn drop_star_front(s: Seq<char>) -> Seq<char>
    decreases s.len(),
{
    if s.len() > 0 && s[0] == '*' {
        drop_star_front(s.skip(1))
    } else {
        s
    }
}

/// `s` with leading asterisks removed, as the default-device marker is
/// stripped.
pub fn trim_stars(s: &str) -> (r: String)
    ensures
        r@ == drop_star_front(s@),
{
    let len = s.unicode_len();
    let mut lo: usize = 0;
    proof {
        assert(s@ =~= s@.subrange(0, len as int));
    }
    while lo < len && s.get_char(lo) == '*'
        invariant
            len == s@.len(),
            lo <= len,
            drop_star_front(s@) == drop_star_front(s@.subrange(lo as int, len as int)),
        decreases len - lo,
    {
        proof {
            assert(s@.subrange(lo as int, len as int).skip(1) =~= s@.subrange(
                lo as int + 1,
                len as int,
            ));
        }
        lo = lo + 1;
    }
    proof {
        assert(drop_star_front(s@) == s@.subrange(lo as int, len as int));
    }
    String::from_str(s.substring_char(lo, len))
}

/// Is `c` a decimal digit, and which?
pub open spec fn digit_val(c: char) -> Option<nat> {
    if '0' <= c && c <= '9' {
        Some((c as nat - '0' as nat) as nat)
    } else {
        None
    }
}

/// Numeric value of an all-digit sequence.
pub open spec fn digits_val(s: Seq<char>) -> nat
    decreases s.len(),
{
    if s.len() == 0 {
        0
    } else {
        digits_val(s.drop_last()) * 10 + (match digit_val(s.last()) {
            Some(d) => d,
            None => 0,
        })
    }
}

/// Every character is a decimal digit.
pub open spec fn all_digits(s: Seq<char>) -> bool {
    forall|j: int| 0 <= j < s.len() ==> digit_val(s[j]) is Some
}

/// The value of a digit prefix never exceeds the whole value.
proof fn lemma_digits_prefix_le(s: Seq<char>, i: int)
    requires
        0 <= i <= s.len(),
    ensures
        digits_val(s.take(i)) <= digits_val(s),
    decreases s.len() - i,
{
    if i < s.len() {
        lemma_digits_prefix_le(s, i + 1);
        assert(s.take(i + 1).drop_last() =~= s.take(i));
        assert(digits_val(s.take(i)) <= digits_val(s.take(i + 1)));
    } else {
        assert(s.take(i) =~= s);
    }
}

/// Parse a non-empty, all-digit string as a 32-bit number; anything else
/// — an empty string, a non-digit, a value out of range — yields
/// nothing.
pub fn parse_u32(s: &str) -> (r: Option<u32>)
    ensures
        (r matches Some(v) ==> s@.len() > 0 && all_digits(s@) && v == digits_val(s@)),
        r is None ==> s@.len() == 0 || !all_digits(s@) || digits_val(s@) > u32::MAX,
{
    let len = s.unicode_len();
    if len == 0 {
        return None;
    }
    let mut v: u32 = 0;
    let mut i: usize = 0;
    proof {
        assert(s@.take(0) =~= Seq::<char>::empty());
    }
    while i < len
        invariant
            len == s@.len(),
            i <= len,
            all_digits(s@.take(i as int)),
            v == digits_val(s@.take(i as int)),
        decreases len - i,
    {
        let c = s.get_char(i);
        let code: u32 = c as u32;
        proof {
            assert(s@.take(i as int + 1).drop_last() =~= s@.take(i as int));
            assert(s@.take(i as int + 1).last() == s@[i as int]);
        }
        if code < 48 || code > 57 {
            assert(digit_val(s@[i as int]) is None);
            return None;
        }
        let d: u32 = code - 48;
        proof {
            assert(digit_val(s@[i as int]) == Some(d as nat));
        }
        if v > (u32::MAX - d) / 10 {
            proof {
                assert(digits_val(s@.take(i as int + 1)) > u32::MAX) by (nonlinear_arith)
                    requires
                        digits_val(s@.take(i as int + 1)) == digits_val(s@.take(i as int)) * 10
                            + d,
                        digits_val(s@.take(i as int)) == v,
                        v > (u32::MAX - d) / 10,
                        d <= 9,
                {}
                lemma_digits_prefix_le(s@, i as int + 1);
            }
            return None;
        }
        proof {
            assert(v * 10 + d <= u32::MAX) by (nonlinear_arith)
                requires
                    v <= (u32::MAX - d) / 10,
                    d <= 9,
            {}
        }
        v = v * 10 + d;
        i = i + 1;
    }
    proof {
        assert(s@.take(len as int) =~= s@);
    }
    Some(v)
}

/// ASCII code of `c` with upper-case letters folded to lower case.
pub open spec fn lower_code(c: char) -> u32 {
    if 65 <= c as u32 && c as u32 <= 90 {
        (c as u32 + 32) as u32
    } else {
        c as u32
    }
}

/// The ASCII-lower-cased `s` equals `pat` (given in lower case already).
pub open spec fn lower_matches(s: Seq<char>, pat: Seq<char>) -> bool {
    s.len() == pat.len() && forall|i: int| 0 <= i < s.len() ==> lower_code(s[i]) == pat[i] as u32
}

/// Compare `s`, folded to ASCII lower case, against the pattern `pat`.
pub fn eq_ascii_lower(s: &str, pat: &str) -> (r: bool)
    ensures
        r == lower_matches(s@, pat@),
{
    let slen = s.unicode_len();
    let plen = pat.unicode_len();
    if slen != plen {
        return false;
    }
    let mut i: usize = 0;
    while i < slen
        invariant
            slen == s@.len(),
            slen == pat@.len(),
            i <= slen,
            forall|j: int| 0 <= j < i ==> lower_code(s@[j]) == pat@[j] as u32,
        decreases slen - i,
    {
        let c = s.get_char(i) as u32;
        let folded: u32 = if 65 <= c && c <= 90 {
            c + 32
        } else {
            c
        };
        if folded != pat.get_char(i) as u32 {
            return false;
        }
        i += 1;
    }
    true
}

} // verus!
