//! Display enumeration: parsing the display server's query listing.
//!
//! The query tool runs outside the library; its text output comes in
//! here.  A monitor line names a connected output and carries a
//! resolution token such as `1920x1080+0+0`; the parser takes the first
//! such token of each connected line, and a listing without any monitors
//! falls back to one default primary display.

use vstd::prelude::*;

use crate::info::MonitorInfo;
use crate::strutil::all_digits;
use crate::strutil::before_first;
use crate::strutil::contains_str;
use crate::strutil::digits_val;
use crate::strutil::find_first;
use crate::strutil::has_substr;
use crate::strutil::nonempty_tokens;
use crate::strutil::parse_u32;
use crate::strutil::split_on;
use crate::strutil::split_str;

verus! {

/// The whitespace-separated tokens of one line.
pub open spec fn ws_tokens(line: Seq<char>) -> Seq<Seq<char>> {
    split_on(line, ' ').filter(|t: Seq<char>| t.len() > 0)
}

/// Does the token carry one?
pub open spec fn has_char(s: Seq<char>, c: char) -> bool {
    exists|i: int| 0 <= i < s.len() && s[i] == c
}

/// The resolution a token carries, if it is one: a leading digit, an
/// `x` somewhere, and, before any `+` offset, exactly a number, the
/// `x`, and a number.
pub open spec fn token_res(t: Seq<char>) -> Option<(u32, u32)> {
    if t.len() > 0 && has_char(t, 'x') && digit_val(t[0]) is Some {
        let rp = before_first(t, '+');
        let xs = split_on(rp, 'x');
        if xs.len() == 2 && xs[0].len() > 0 && all_digits(xs[0]) && digits_val(xs[0]) <= u32::MAX
            && xs[1].len() > 0 && all_digits(xs[1]) && digits_val(xs[1]) <= u32::MAX {
            Some((digits_val(xs[0]) as u32, digits_val(xs[1]) as u32))
        } else {
            None
        }
    } else {
        None
    }
}

/// Is the character a decimal digit, and which?  Re-exported shape of
/// the shared helper, for the resolution tokens.
pub open spec fn digit_val(c: char) -> Option<nat> {
    crate::strutil::digit_val(c)
}

/// The first resolution among the tokens.
pub open spec fn first_res(ts: Seq<Seq<char>>) -> Option<(u32, u32)>
    decreases ts.len(),
{
    if ts.len() == 0 {
        None
    } else {
        match token_res(ts[0]) {
            Some(r) => Some(r),
            None => first_res(ts.skip(1)),
        }
    }
}

/// The monitor one listing line describes, if it is one: a connected
/// line of at least three tokens whose first resolution has a non-zero
/// width and height.
pub open spec fn line_monitor(line: Seq<char>) -> Option<(Seq<char>, u32, u32, bool)> {
    if has_substr(line, " connected"@) && ws_tokens(line).len() >= 3 {
        match first_res(ws_tokens(line)) {
            Some(r) => {
                if r.0 > 0 && r.1 > 0 {
                    Some((ws_tokens(line)[0], r.0, r.1, has_substr(line, " primary "@)))
                } else {
                    None
                }
            },
            None => None,
        }
    } else {
        None
    }
}

/// All the monitors of the listing, in line order.
pub open spec fn spec_monitors(lines: Seq<Seq<char>>) -> Seq<(Seq<char>, u32, u32, bool)>
    decreases lines.len(),
{
    if lines.len() == 0 {
        Seq::<(Seq<char>, u32, u32, bool)>::empty()
    } else {
        let rest = spec_monitors(lines.drop_last());
        match line_monitor(lines.last()) {
            Some(m) => rest.push(m),
            None => rest,
        }
    }
}

/// The resolution a token carries, if it is one.
fn token_res_exec(t: &str) -> (r: Option<(u32, u32)>)
    ensures
        r == token_res(t@),
{
    let tlen = t.unicode_len();
    if tlen == 0 {
        return None;
    }
    let first = t.get_char(0) as u32;
    if first < 48 || first > 57 {
        proof {
            assert(digit_val(t@[0]) is None);
        }
        return None;
    }
    let rp_end = match find_first(t, '+') {
        Some(p) => p,
        None => tlen,
    };
    match find_first(t, 'x') {
        Some(xi) => {
            proof {
                assert(has_char(t@, 'x'));
            }
        },
        None => {
            proof {
                assert(!has_char(t@, 'x'));
            }
            return None;
        },
    }
    let rp = t.substring_char(0, rp_end);
    proof {
        assert(rp@ =~= before_first(t@, '+'));
    }
    let xs = split_str(rp, 'x');
    if xs.len() != 2 {
        return None;
    }
    proof {
        assert(xs.deep_view()[0] == xs@[0]@);
        assert(xs.deep_view()[1] == xs@[1]@);
    }
    let w = match parse_u32(xs[0].as_str()) {
        Some(w) => w,
        None => {
            return None;
        },
    };
    let h = match parse_u32(xs[1].as_str()) {
        Some(h) => h,
        None => {
            return None;
        },
    };
    Some((w, h))
}

/// Parse the display server's query listing into its monitors, indexed
/// in order of appearance.
pub fn parse_monitors(output: &str) -> (r: Vec<MonitorInfo>)
    ensures
        ({
            let ms = spec_monitors(split_on(output@, '\n'));
            &&& r@.len() == ms.len()
            &&& (forall|i: int|
                0 <= i < r@.len() ==> (#[trigger] r@[i]).index == i && r@[i].name@ == ms[i].0
                    && r@[i].width == ms[i].1 && r@[i].height == ms[i].2 && r@[i].is_primary
                    == ms[i].3)
        }),
{
    let lines = split_str(output, '\n');
    let ghost lv = lines.deep_view();
    let mut out: Vec<MonitorInfo> = Vec::new();
    let mut li: usize = 0;
    proof {
        assert(lv.take(0) =~= Seq::<Seq<char>>::empty());
    }
    while li < lines.len()
        invariant
            lv == lines.deep_view(),
            lv == split_on(output@, '\n'),
            lv.len() == lines@.len(),
            forall|k: int| 0 <= k < lines@.len() ==> lv[k] == lines@[k]@,
            li <= lines@.len(),
            ({
                let ms = spec_monitors(lv.take(li as int));
                &&& out@.len() == ms.len()
                &&& (forall|i: int|
                    0 <= i < out@.len() ==> (#[trigger] out@[i]).index == i && out@[i].name@
                        == ms[i].0 && out@[i].width == ms[i].1 && out@[i].height == ms[i].2
                        && out@[i].is_primary == ms[i].3)
            }),
        decreases lines@.len() - li,
    {
        proof {
            assert(lv.take(li as int + 1).drop_last() =~= lv.take(li as int));
            assert(lv.take(li as int + 1).last() == lv[li as int]);
        }
        let line = lines[li].as_str();
        proof {
            assert(line@ == lv[li as int]);
        }
        if contains_str(line, " connected") {
            let tokens = nonempty_tokens(line, ' ');
            if tokens.len() >= 3 {
                let ghost ts = ws_tokens(lv[li as int]);
                proof {
                    assert(tokens.deep_view() == ts);
                }
                let mut j: usize = 0;
                let mut res: Option<(u32, u32)> = None;
                proof {
                    assert(ts.skip(0) =~= ts);
                }
                while j < tokens.len() && res.is_none()
                    invariant
                        tokens.deep_view() == ts,
                        ts.len() == tokens@.len(),
                        forall|k: int| 0 <= k < tokens@.len() ==> ts[k] == tokens@[k]@,
                        j <= tokens@.len(),
                        res is None ==> first_res(ts) == first_res(ts.skip(j as int)),
                        res is Some ==> first_res(ts) == res,
                    decreases tokens@.len() - j,
                {
                    proof {
                        assert(ts.skip(j as int)[0] == ts[j as int]);
                        assert(ts.skip(j as int).skip(1) =~= ts.skip(j as int + 1));
                    }
                    res = token_res_exec(tokens[j].as_str());
                    j = j + 1;
                }
                proof {
                    if res is None {
                        assert(ts.skip(tokens@.len() as int) =~= Seq::<Seq<char>>::empty());
                    }
                }
                match res {
                    Some((w, h)) => {
                        if w > 0 && h > 0 {
                            let is_primary = contains_str(line, " primary ");
                            let name = tokens[0].clone();
                            out.push(
                                MonitorInfo { index: out.len(), name, width: w, height: h, is_primary },
                            );
                        }
                    },
                    None => {},
                }
            }
        }
        li = li + 1;
    }
    proof {
        assert(lv.take(lines@.len() as int) =~= lv);
    }
    out
}

/// The monitors of the listing, with one default primary display when
/// the listing shows none.
pub fn list_monitors_from(output: &str) -> (r: Vec<MonitorInfo>)
    ensures
        spec_monitors(split_on(output@, '\n')).len() > 0 ==> ({
            let ms = spec_monitors(split_on(output@, '\n'));
            &&& r@.len() == ms.len()
            &&& (forall|i: int|
                0 <= i < r@.len() ==> (#[trigger] r@[i]).index == i && r@[i].name@ == ms[i].0
                    && r@[i].width == ms[i].1 && r@[i].height == ms[i].2 && r@[i].is_primary
                    == ms[i].3)
        }),
        spec_monitors(split_on(output@, '\n')).len() == 0 ==> r@.len() == 1 && r@[0].index == 0
            && r@[0].name@ == "Primary"@ && r@[0].width == 1920 && r@[0].height == 1080
            && r@[0].is_primary,
{
    let mut monitors = parse_monitors(output);
    if monitors.len() == 0 {
        monitors.push(
            MonitorInfo {
                index: 0,
                name: String::from_str("Primary"),
                width: 1920,
                height: 1080,
                is_primary: true,
            },
        );
    }
    monitors
}

} // verus!
