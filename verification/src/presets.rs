//! Milkdrop preset handles.
//!
//! A preset is a file path plus the display name taken from its file
//! stem.  Paths are handled as plain strings: the file name is what
//! follows the last separator, the extension what follows the last dot
//! of the file name — except that a name whose only dot leads it has no
//! extension, matching the platform path rules for hidden files.

use vstd::prelude::*;

verus! {

/// Does the sequence hold the character anywhere?
pub open spec fn contains_char(s: Seq<char>, c: char) -> bool {
    exists|i: int| 0 <= i < s.len() && s[i] == c
}

/// The suffix after the last occurrence of `c`; all of `s` when `c` does
/// not occur.
pub open spec fn after_last(s: Seq<char>, c: char) -> Seq<char>
    decreases s.len(),
{
    if s.len() == 0 {
        s
    } else if s.last() == c {
        Seq::empty()
    } else {
        after_last(s.drop_last(), c).push(s.last())
    }
}

/// The prefix before the last occurrence of `c`; all of `s` when `c`
/// does not occur.
pub open spec fn before_last(s: Seq<char>, c: char) -> Seq<char>
    decreases s.len(),
{
    if s.len() == 0 {
        s
    } else if s.last() == c {
        s.drop_last()
    } else {
        before_last(s.drop_last(), c)
    }
}

/// The file-name part of a path string: what follows the last `/`.
pub open spec fn spec_file_name(p: Seq<char>) -> Seq<char> {
    after_last(p, '/')
}

/// The extension of a path string, `None` where the file name has no dot
/// beyond a leading one.
pub open spec fn spec_extension(p: Seq<char>) -> Option<Seq<char>> {
    let f = spec_file_name(p);
    if f.len() > 0 && contains_char(f.skip(1), '.') {
        Some(after_last(f, '.'))
    } else {
        None
    }
}

/// The stem of a path string: the file name up to its last dot beyond a
/// leading one; the whole file name otherwise.
pub open spec fn spec_file_stem(p: Seq<char>) -> Seq<char> {
    let f = spec_file_name(p);
    if contains_char(f.skip(1), '.') {
        before_last(f, '.')
    } else {
        f
    }
}

/// With the last occurrence of `c` at `k`, the suffix after it is
/// everything past `k`.
proof fn lemma_after_last_at(s: Seq<char>, c: char, k: int)
    requires
        0 <= k < s.len(),
        s[k] == c,
        forall|j: int| k < j < s.len() ==> s[j] != c,
    ensures
        after_last(s, c) == s.skip(k + 1),
        before_last(s, c) == s.take(k),
    decreases s.len(),
{
    if k == s.len() - 1 {
        assert(after_last(s, c) =~= s.skip(k + 1));
        assert(before_last(s, c) =~= s.take(k));
    } else {
        lemma_after_last_at(s.drop_last(), c, k);
        assert(s.drop_last().skip(k + 1).push(s.last()) =~= s.skip(k + 1));
        assert(s.drop_last().take(k) =~= s.take(k));
    }
}

/// Without any occurrence of `c`, the suffix after it is all of `s`.
proof fn lemma_after_last_none(s: Seq<char>, c: char)
    requires
        forall|j: int| 0 <= j < s.len() ==> s[j] != c,
    ensures
        after_last(s, c) == s,
    decreases s.len(),
{
    if s.len() > 0 {
        lemma_after_last_none(s.drop_last(), c);
        assert(s.drop_last().push(s.last()) =~= s);
    }
}

/// Index just past the last occurrence of `c`, or zero when `c` does not
/// occur; ghost knowledge ties it to the `after_last` suffix.
fn cut_after_last(s: &str, c: char) -> (r: usize)
    ensures
        r <= s@.len(),
        after_last(s@, c) == s@.skip(r as int),
        r > 0 ==> s@[r as int - 1] == c && before_last(s@, c) == s@.take(r as int - 1),
        forall|j: int| r <= j < s@.len() ==> s@[j] != c,
{
    let len = s.unicode_len();
    let mut i: usize = len;
    while i > 0
        invariant
            len == s@.len(),
            i <= len,
            forall|j: int| i <= j < len ==> s@[j] != c,
        decreases i,
    {
        if s.get_char(i - 1) == c {
            proof {
                lemma_after_last_at(s@, c, i as int - 1);
            }
            return i;
        }
        i = i - 1;
    }
    proof {
        lemma_after_last_none(s@, c);
        assert(s@.skip(0) =~= s@);
    }
    0
}

/// Does the string hold `c` anywhere at or past position `from`?
fn contains_char_from(s: &str, c: char, from: usize) -> (r: bool)
    requires
        from <= s@.len(),
    ensures
        r == contains_char(s@.skip(from as int), c),
{
    let len = s.unicode_len();
    let mut i: usize = from;
    while i < len
        invariant
            len == s@.len(),
            from <= i <= len,
            forall|j: int| from <= j < i ==> s@[j] != c,
        decreases len - i,
    {
        if s.get_char(i) == c {
            assert(s@.skip(from as int)[i - from] == c);
            return true;
        }
        i = i + 1;
    }
    proof {
        assert forall|j: int| 0 <= j < s@.skip(from as int).len() implies s@.skip(from as int)[j]
            != c by {
            assert(s@.skip(from as int)[j] == s@[j + from]);
        }
    }
    false
}

/// A Milkdrop preset: its file path and display name.
#[derive(Debug)]
pub struct Preset {
    /// Path of the preset file.
    pub path: String,
    /// Name taken from the file stem.
    pub name: String,
}

impl Preset {
    /// Build a preset handle from a file path; the name is the file
    /// stem, or `Unknown` for a path without a file name.
    pub fn from_path(path: &str) -> (r: Self)
        ensures
            r.path@ == path@,
            spec_file_name(path@).len() == 0 ==> r.name@ == "Unknown"@,
            spec_file_name(path@).len() > 0 ==> r.name@ == spec_file_stem(path@),
    {
        let len = path.unicode_len();
        let fstart = cut_after_last(path, '/');
        let ghost f = spec_file_name(path@);
        proof {
            assert(f.len() == len - fstart);
        }
        if fstart == len {
            return Preset { path: String::from_str(path), name: String::from_str("Unknown") };
        }
        let has_dot = contains_char_from(path, '.', fstart + 1);
        proof {
            assert(path@.skip(fstart as int + 1) =~= f.skip(1));
        }
        if has_dot {
            let dot = cut_after_last(path, '.');
            proof {
                assert(contains_char(f.skip(1), '.'));
                assert(f.skip(1)[choose|i: int|
                    0 <= i < f.skip(1).len() && f.skip(1)[i] == '.'] == '.');
                let wi = choose|i: int| 0 <= i < f.skip(1).len() && f.skip(1)[i] == '.';
                assert(path@[wi + fstart + 1] == '.');
                assert(dot > 0);
                assert(dot as int - 1 > fstart as int) by {
                    if dot as int - 1 <= fstart as int {
                        assert(after_last(path@, '.') == path@.skip(dot as int));
                        assert(path@.skip(dot as int)[wi + fstart + 1 - dot] == '.');
                    }
                }
                assert(before_last(f, '.') =~= path@.take(dot as int - 1).skip(fstart as int)) by {
                    lemma_before_last_within(path@, fstart as int, dot as int - 1);
                }
            }
            let name = String::from_str(path.substring_char(fstart, dot - 1));
            proof {
                assert(path@.subrange(fstart as int, dot as int - 1) =~= path@.take(
                    dot as int - 1,
                ).skip(fstart as int));
            }
            Preset { path: String::from_str(path), name }
        } else {
            let name = String::from_str(path.substring_char(fstart, len));
            proof {
                assert(path@.subrange(fstart as int, len as int) =~= f);
            }
            Preset { path: String::from_str(path), name }
        }
    }

    /// The preset file's extension, if it has one.
    pub fn extension(&self) -> (r: Option<&str>)
        ensures
            (r matches Some(e) ==> spec_extension(self.path@) == Some(e@)),
            r is None ==> spec_extension(self.path@) is None,
    {
        extension_of(self.path.as_str())
    }

    /// Whether this is a Milkdrop preset file: extension `milk` or
    /// `prjm`.
    pub fn is_valid(&self) -> (r: bool)
        ensures
            r == (spec_extension(self.path@) == Some("milk"@) || spec_extension(self.path@)
                == Some("prjm"@)),
    {
        match self.extension() {
            Some(e) => {
                let m = crate::strutil::str_eq(e, "milk");
                let p = crate::strutil::str_eq(e, "prjm");
                m || p
            },
            None => {
                proof {
                    reveal_strlit("milk");
                }
                false
            },
        }
    }
}

/// The extension of a path string, if it has one.
pub fn extension_of(path: &str) -> (r: Option<&str>)
    ensures
        (r matches Some(e) ==> spec_extension(path@) == Some(e@)),
        r is None ==> spec_extension(path@) is None,
{
    let len = path.unicode_len();
    let fstart = cut_after_last(path, '/');
    let ghost f = spec_file_name(path@);
    proof {
        assert(f.len() == len - fstart);
    }
    if fstart == len {
        return None;
    }
    let has_dot = contains_char_from(path, '.', fstart + 1);
    proof {
        assert(path@.skip(fstart as int + 1) =~= f.skip(1));
    }
    if !has_dot {
        return None;
    }
    let dot = cut_after_last(path, '.');
    proof {
        let wi = choose|i: int| 0 <= i < f.skip(1).len() && f.skip(1)[i] == '.';
        assert(f.skip(1)[wi] == '.');
        assert(path@[wi + fstart + 1] == '.');
        assert(dot > 0);
        assert(dot as int - 1 > fstart as int) by {
            if dot as int - 1 <= fstart as int {
                assert(path@.skip(dot as int)[wi + fstart + 1 - dot] == '.');
            }
        }
        assert(after_last(f, '.') =~= path@.skip(dot as int).subrange(
            0,
            path@.skip(dot as int).len() as int,
        )) by {
            lemma_after_last_within(path@, fstart as int, dot as int - 1);
        }
        assert(path@.subrange(dot as int, len as int) =~= after_last(f, '.'));
    }
    Some(path.substring_char(dot, len))
}

/// Cutting inside the file-name part: the suffix after the last dot of
/// the whole path equals the suffix after the last dot of the file name.
proof fn lemma_after_last_within(p: Seq<char>, fstart: int, dotpos: int)
    requires
        0 <= fstart <= dotpos < p.len(),
        p[dotpos] == '.',
        forall|j: int| dotpos < j < p.len() ==> p[j] != '.',
        after_last(p, '/') == p.skip(fstart),
    ensures
        after_last(p.skip(fstart), '.') == p.skip(dotpos + 1),
{
    let f = p.skip(fstart);
    assert(f[dotpos - fstart] == '.');
    assert forall|j: int| dotpos - fstart < j < f.len() implies f[j] != '.' by {
        assert(f[j] == p[j + fstart]);
    }
    lemma_after_last_at(f, '.', dotpos - fstart);
    assert(f.skip(dotpos - fstart + 1) =~= p.skip(dotpos + 1));
}

/// Likewise for the prefix before the last dot of the file name.
proof fn lemma_before_last_within(p: Seq<char>, fstart: int, dotpos: int)
    requires
        0 <= fstart <= dotpos < p.len(),
        p[dotpos] == '.',
        forall|j: int| dotpos < j < p.len() ==> p[j] != '.',
        after_last(p, '/') == p.skip(fstart),
    ensures
        before_last(p.skip(fstart), '.') == p.take(dotpos).skip(fstart),
{
    let f = p.skip(fstart);
    assert(f[dotpos - fstart] == '.');
    assert forall|j: int| dotpos - fstart < j < f.len() implies f[j] != '.' by {
        assert(f[j] == p[j + fstart]);
    }
    lemma_after_last_at(f, '.', dotpos - fstart);
    assert(f.take(dotpos - fstart) =~= p.take(dotpos).skip(fstart));
}

/// Preset descriptor for listing surfaces.
#[derive(Debug)]
pub struct PresetInfo {
    /// Display name.
    pub name: String,
    /// File path.
    pub path: String,
}

} // verus!
