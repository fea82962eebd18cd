//! Media-daemon audio sources: configuration and listing-output parsing.
//!
//! Enumerating sources runs the daemon's command-line tools outside the
//! library and hands their text output in; the parsing of that text is
//! done and specified here.

use vstd::prelude::*;

use crate::strutil::after_first;
use crate::strutil::all_digits;
use crate::strutil::before_first;
use crate::strutil::contains_str;
use crate::strutil::digits_val;
use crate::strutil::drop_quote_back;
use crate::strutil::drop_quote_front;
use crate::strutil::drop_star_front;
use crate::strutil::drop_ws_back;
use crate::strutil::drop_ws_front;
use crate::strutil::find_first;
use crate::strutil::has_substr;
use crate::strutil::is_ws;
use crate::strutil::is_ws_char;
use crate::strutil::parse_u32;
use crate::strutil::spec_trim_quotes;
use crate::strutil::spec_trim_ws;
use crate::strutil::split_on;
use crate::strutil::split_str;
use crate::strutil::str_starts_with;
use crate::strutil::trim_stars;
use crate::strutil::trim_str;

verus! {

/// Capture configuration for the media daemon.
#[derive(Debug)]
pub struct PipeWireConfig {
    /// Target node name; none for the default.
    pub target: Option<String>,
    /// Sample rate.
    pub sample_rate: u32,
    /// Channel count.
    pub channels: u32,
}

impl Default for PipeWireConfig {
    /// Stereo at 44.1 kHz from the default node.
    fn default() -> (r: Self)
        ensures
            r.target is None,
            r.sample_rate == 44100,
            r.channels == 2,
    {
        PipeWireConfig { target: None, sample_rate: 44100, channels: 2 }
    }
}

/// One audio node of the media daemon.
#[derive(Debug)]
pub struct PipeWireSource {
    /// Node ID.
    pub id: u32,
    /// Node name, used to connect.
    pub name: String,
    /// Human-readable description.
    pub description: String,
    /// Media class, such as an audio source or sink.
    pub media_class: String,
    /// Whether the node monitors an output (captures what is heard).
    pub is_monitor: bool,
}

/// The extracted property value: everything after the first equals sign,
/// whitespace-trimmed, then quote-trimmed; nothing without an equals
/// sign.
pub open spec fn spec_property_value(line: Seq<char>) -> Option<Seq<char>> {
    if exists|k: int| 0 <= k < line.len() && line[k] == '=' {
        Some(spec_trim_quotes(spec_trim_ws(after_first(line, '='))))
    } else {
        None
    }
}

/// The value part of a `key = value` property line.
pub fn extract_property_value(line: &str) -> (r: Option<String>)
    ensures
        (r matches Some(v) ==> spec_property_value(line@) == Some(v@)),
        r is None ==> spec_property_value(line@) is None,
{
    let len = line.unicode_len();
    let mut k: usize = 0;
    while k < len
        invariant
            len == line@.len(),
            k <= len,
            forall|j: int| 0 <= j < k ==> line@[j] != '=',
        decreases len - k,
    {
        if line.get_char(k) == '=' {
            proof {
                crate::strutil::lemma_first_at(line@, '=', k as int);
            }
            let mut lo: usize = k + 1;
            let mut hi: usize = len;
            let ghost tail = line@.skip(k as int + 1);
            proof {
                assert(tail =~= line@.subrange(lo as int, hi as int));
            }
            while lo < hi && is_ws_char(line.get_char(lo))
                invariant
                    len == line@.len(),
                    k < lo <= hi <= len,
                    drop_ws_front(tail) == drop_ws_front(
                        line@.subrange(lo as int, hi as int),
                    ),
                decreases hi - lo,
            {
                proof {
                    assert(line@.subrange(lo as int, hi as int).skip(1) =~= line@.subrange(
                        lo as int + 1,
                        hi as int,
                    ));
                }
                lo = lo + 1;
            }
            let ghost after_front = line@.subrange(lo as int, hi as int);
            proof {
                assert(drop_ws_front(tail) == after_front);
            }
            while lo < hi && is_ws_char(line.get_char(hi - 1))
                invariant
                    len == line@.len(),
                    k < lo <= hi <= len,
                    drop_ws_back(after_front) == drop_ws_back(
                        line@.subrange(lo as int, hi as int),
                    ),
                decreases hi - lo,
            {
                proof {
                    assert(line@.subrange(lo as int, hi as int).drop_last() =~= line@.subrange(
                        lo as int,
                        hi as int - 1,
                    ));
                }
                hi = hi - 1;
            }
            let ghost after_ws = line@.subrange(lo as int, hi as int);
            proof {
                assert(spec_trim_ws(tail) == after_ws);
            }
            while lo < hi && line.get_char(lo) == '"'
                invariant
                    len == line@.len(),
                    k < lo <= hi <= len,
                    drop_quote_front(after_ws) == drop_quote_front(
                        line@.subrange(lo as int, hi as int),
                    ),
                decreases hi - lo,
            {
                proof {
                    assert(line@.subrange(lo as int, hi as int).skip(1) =~= line@.subrange(
                        lo as int + 1,
                        hi as int,
                    ));
                }
                lo = lo + 1;
            }
            let ghost after_qf = line@.subrange(lo as int, hi as int);
            proof {
                assert(drop_quote_front(after_ws) == after_qf);
            }
            while lo < hi && line.get_char(hi - 1) == '"'
                invariant
                    len == line@.len(),
                    k < lo <= hi <= len,
                    drop_quote_back(after_qf) == drop_quote_back(
                        line@.subrange(lo as int, hi as int),
                    ),
                decreases hi - lo,
            {
                proof {
                    assert(line@.subrange(lo as int, hi as int).drop_last() =~= line@.subrange(
                        lo as int,
                        hi as int - 1,
                    ));
                }
                hi = hi - 1;
            }
            proof {
                assert(spec_trim_quotes(spec_trim_ws(tail)) == line@.subrange(
                    lo as int,
                    hi as int,
                ));
            }
            let v = String::from_str(line.substring_char(lo, hi));
            return Some(v);
        }
        k = k + 1;
    }
    None
}

/// Scan state of the object-listing parser: the node being collected.
pub struct PwScan {
    pub id: Option<u32>,
    pub name: Option<Seq<char>>,
    pub desc: Option<Seq<char>>,
    pub class: Option<Seq<char>>,
}

/// One audio node the object listing yields: id, name, description,
/// media class, monitor flag.
pub open spec fn pw_entry(st: PwScan) -> (u32, Seq<char>, Seq<char>, Seq<char>, bool)
    recommends
        st.id is Some,
        st.name is Some,
        st.class is Some,
{
    let id = st.id->0;
    let name = st.name->0;
    let class = st.class->0;
    let desc = match st.desc {
        Some(d) => d,
        None => name,
    };
    let monitor = has_substr(name, ".monitor"@) || has_substr(class, "Monitor"@);
    (id, name, desc, class, monitor)
}

/// Flush the collected node, if it is complete and an audio node.
pub open spec fn pw_flush(
    st: PwScan,
    out: Seq<(u32, Seq<char>, Seq<char>, Seq<char>, bool)>,
) -> Seq<(u32, Seq<char>, Seq<char>, Seq<char>, bool)> {
    if st.id is Some && st.name is Some && st.class is Some && st.class->0.len() >= 6
        && st.class->0.subrange(0, 6) == "Audio/"@ {
        out.push(pw_entry(st))
    } else {
        out
    }
}

/// Does the trimmed line open a new node object?
pub open spec fn pw_is_object_start(t: Seq<char>) -> bool {
    t.len() >= 3 && t.subrange(0, 3) == "id "@ && has_substr(
        t,
        "type PipeWire:Interface:Node"@,
    )
}

/// The node ID of an object-start line: the number after `id `, before
/// the first comma.
pub open spec fn pw_line_id(t: Seq<char>) -> Option<u32> {
    let idtxt = spec_trim_ws(before_first(t, ',').skip(3));
    if idtxt.len() > 0 && all_digits(idtxt) && digits_val(idtxt) <= u32::MAX {
        Some(digits_val(idtxt) as u32)
    } else {
        None
    }
}

/// One line of the object listing: an object start flushes the previous
/// node and opens a new one; property lines fill in the node's name,
/// description and class.
pub open spec fn pw_step(
    st: PwScan,
    out: Seq<(u32, Seq<char>, Seq<char>, Seq<char>, bool)>,
    line: Seq<char>,
) -> (PwScan, Seq<(u32, Seq<char>, Seq<char>, Seq<char>, bool)>) {
    let t = spec_trim_ws(line);
    let opened = if pw_is_object_start(t) {
        (PwScan { id: pw_line_id(t), name: None, desc: None, class: None }, pw_flush(st, out))
    } else {
        (st, out)
    };
    let st1 = opened.0;
    let st2 = if has_substr(t, "node.name"@) && spec_property_value(t) is Some {
        PwScan { name: Some(spec_property_value(t)->0), ..st1 }
    } else {
        st1
    };
    let st3 = if has_substr(t, "node.description"@) && spec_property_value(t) is Some {
        PwScan { desc: Some(spec_property_value(t)->0), ..st2 }
    } else {
        st2
    };
    let st4 = if has_substr(t, "media.class"@) && spec_property_value(t) is Some {
        PwScan { class: Some(spec_property_value(t)->0), ..st3 }
    } else {
        st3
    };
    (st4, opened.1)
}

/// The whole object listing: every line in turn, then a final flush.
pub open spec fn pw_scan(lines: Seq<Seq<char>>) -> (
    PwScan,
    Seq<(u32, Seq<char>, Seq<char>, Seq<char>, bool)>,
)
    decreases lines.len(),
{
    if lines.len() == 0 {
        (
            PwScan { id: None, name: None, desc: None, class: None },
            Seq::<(u32, Seq<char>, Seq<char>, Seq<char>, bool)>::empty(),
        )
    } else {
        let prev = pw_scan(lines.drop_last());
        pw_step(prev.0, prev.1, lines.last())
    }
}

/// The audio nodes of the whole listing, last candidate flushed.
pub open spec fn spec_pw_sources(lines: Seq<Seq<char>>) -> Seq<
    (u32, Seq<char>, Seq<char>, Seq<char>, bool),
> {
    pw_flush(pw_scan(lines).0, pw_scan(lines).1)
}

/// Do the parsed entries and the source records agree?
pub open spec fn pw_sources_match(
    rs: Seq<PipeWireSource>,
    es: Seq<(u32, Seq<char>, Seq<char>, Seq<char>, bool)>,
) -> bool {
    &&& rs.len() == es.len()
    &&& (forall|i: int|
        0 <= i < rs.len() ==> (#[trigger] rs[i]).id == es[i].0 && rs[i].name@ == es[i].1
            && rs[i].description@ == es[i].2 && rs[i].media_class@ == es[i].3
            && rs[i].is_monitor == es[i].4)
}

/// The scan state the parser's own optional values stand for.
pub open spec fn state_of(
    id: Option<u32>,
    name: Option<String>,
    desc: Option<String>,
    class: Option<String>,
) -> PwScan {
    PwScan {
        id,
        name: match name {
            Some(s) => Some(s@),
            None => None,
        },
        desc: match desc {
            Some(s) => Some(s@),
            None => None,
        },
        class: match class {
            Some(s) => Some(s@),
            None => None,
        },
    }
}

/// Append the collected node if it is complete and an audio node,
/// exactly as `pw_flush` says.
fn flush_candidate(
    out: &mut Vec<PipeWireSource>,
    id: &Option<u32>,
    name: &Option<String>,
    desc: &Option<String>,
    class: &Option<String>,
)
    ensures
        ({
            let st = state_of(*id, *name, *desc, *class);
            &&& (forall|i: int|
                0 <= i < old(out)@.len() ==> #[trigger] final(out)@[i] == old(out)@[i])
            &&& (st.id is Some && st.name is Some && st.class is Some && st.class->0.len() >= 6
                && st.class->0.subrange(0, 6) == "Audio/"@ ==> final(out)@.len() == old(out)@.len() + 1 && final(out)@.last().id == pw_entry(st).0 && final(out)@.last().name@
                == pw_entry(st).1 && final(out)@.last().description@ == pw_entry(st).2 && final(out)@.last().media_class@ == pw_entry(st).3 && final(out)@.last().is_monitor == pw_entry(st).4)
            &&& (!(st.id is Some && st.name is Some && st.class is Some && st.class->0.len() >= 6
                && st.class->0.subrange(0, 6) == "Audio/"@) ==> final(out)@ == old(out)@)
        }),
{
    proof {
        reveal_strlit("Audio/");
        assert("Audio/"@.len() == 6);
    }
    match (id, name, class) {
        (Some(id), Some(name), Some(class)) => {
            if str_starts_with(class.as_str(), "Audio/") {
                let description = match desc {
                    Some(d) => d.clone(),
                    None => name.clone(),
                };
                let is_monitor = contains_str(name.as_str(), ".monitor") || contains_str(
                    class.as_str(),
                    "Monitor",
                );
                out.push(
                    PipeWireSource {
                        id: *id,
                        name: name.clone(),
                        description,
                        media_class: class.clone(),
                        is_monitor,
                    },
                );
            }
        },
        _ => {},
    }
}

/// Parse the object listing into the audio nodes it shows.
pub fn parse_pw_cli_objects(output: &str) -> (r: Vec<PipeWireSource>)
    ensures
        pw_sources_match(r@, spec_pw_sources(split_on(output@, '\n'))),
{
    let lines = split_str(output, '\n');
    let ghost lv = lines.deep_view();
    let mut out: Vec<PipeWireSource> = Vec::new();
    let mut cur_id: Option<u32> = None;
    let mut cur_name: Option<String> = None;
    let mut cur_desc: Option<String> = None;
    let mut cur_class: Option<String> = None;
    let mut li: usize = 0;
    proof {
        assert(lv.take(0) =~= Seq::<Seq<char>>::empty());
    }
    while li < lines.len()
        invariant
            lv == lines.deep_view(),
            lv == split_on(output@, '\n'),
            lv.len() == lines@.len(),
            forall|k: int| 0 <= k < lines@.len() ==> lv[k] == lines@[k]@,
            li <= lines@.len(),
            state_of(cur_id, cur_name, cur_desc, cur_class) == pw_scan(lv.take(li as int)).0,
            pw_sources_match(out@, pw_scan(lv.take(li as int)).1),
        decreases lines@.len() - li,
    {
        proof {
            assert(lv.take(li as int + 1).drop_last() =~= lv.take(li as int));
            assert(lv.take(li as int + 1).last() == lv[li as int]);
        }
        let trimmed = trim_str(lines[li].as_str());
        let t = trimmed.as_str();
        let tlen = t.unicode_len();
        let ghost ts = spec_trim_ws(lv[li as int]);
        proof {
            assert(t@ == ts);
            reveal_strlit("id ");
            assert("id "@.len() == 3 && "id "@[0] == 'i' && "id "@[1] == 'd' && "id "@[2] == ' ');
        }
        if str_starts_with(t, "id ") && contains_str(t, "type PipeWire:Interface:Node") {
            proof {
                assert(pw_is_object_start(ts));
            }
            flush_candidate(&mut out, &cur_id, &cur_name, &cur_desc, &cur_class);
            let comma = match find_first(t, ',') {
                Some(c) => c,
                None => tlen,
            };
            proof {
                if comma < 3 {
                    assert(ts.subrange(0, 3)[comma as int] == ts[comma as int]);
                    assert(false);
                }
                assert(before_first(ts, ',').skip(3) =~= ts.subrange(3, comma as int));
            }
            let idtxt = trim_str(t.substring_char(3, comma));
            proof {
                assert(idtxt@ == spec_trim_ws(before_first(ts, ',').skip(3)));
            }
            cur_id = parse_u32(idtxt.as_str());
            cur_name = None;
            cur_desc = None;
            cur_class = None;
            proof {
                assert(cur_id == pw_line_id(ts));
            }
        }
        if contains_str(t, "node.name") {
            match extract_property_value(t) {
                Some(v) => {
                    cur_name = Some(v);
                },
                None => {},
            }
        }
        if contains_str(t, "node.description") {
            match extract_property_value(t) {
                Some(v) => {
                    cur_desc = Some(v);
                },
                None => {},
            }
        }
        if contains_str(t, "media.class") {
            match extract_property_value(t) {
                Some(v) => {
                    cur_class = Some(v);
                },
                None => {},
            }
        }
        proof {
            assert(state_of(cur_id, cur_name, cur_desc, cur_class) =~= pw_scan(
                lv.take(li as int + 1),
            ).0);
            assert(pw_sources_match(out@, pw_scan(lv.take(li as int + 1)).1));
        }
        li = li + 1;
    }
    proof {
        assert(lv.take(lines@.len() as int) =~= lv);
    }
    flush_candidate(&mut out, &cur_id, &cur_name, &cur_desc, &cur_class);
    out
}

/// The audio sources two listings yield together: the object listing's
/// nodes, or, when it shows none, the session manager's status devices
/// as a fallback.
pub fn list_sources_from(pw_cli_output: &str, wpctl_output: &str) -> (r: Vec<PipeWireSource>)
    ensures
        spec_pw_sources(split_on(pw_cli_output@, '\n')).len() > 0 ==> pw_sources_match(
            r@,
            spec_pw_sources(split_on(pw_cli_output@, '\n')),
        ),
        spec_pw_sources(split_on(pw_cli_output@, '\n')).len() == 0 ==> sources_match(
            r@,
            spec_wpctl(split_on(wpctl_output@, '\n')).3,
        ),
{
    let mut sources = parse_pw_cli_objects(pw_cli_output);
    if sources.len() == 0 {
        parse_wpctl_status(wpctl_output, &mut sources);
        proof {
            assert(sources@.skip(0) =~= sources@);
        }
    }
    sources
}

/// The device a status line describes, if it is one: the number before
/// the first dot (leading default-marker asterisks stripped) and the
/// name after it, up to a volume bracket.  `sink` records which section
/// the line stood in.
pub open spec fn spec_device_entry(line: Seq<char>, sink: bool) -> Option<(u32, Seq<char>, bool)> {
    let t = spec_trim_ws(line);
    let idtxt = drop_star_front(spec_trim_ws(before_first(t, '.')));
    let name = spec_trim_ws(before_first(after_first(t, '.'), '['));
    if has_substr(line, "."@) && idtxt.len() > 0 && all_digits(idtxt) && digits_val(idtxt)
        <= u32::MAX && name.len() > 0 {
        Some((digits_val(idtxt) as u32, name, sink))
    } else {
        None
    }
}

/// One step of the status scan: section headers flip the flags, and a
/// device line inside the source or sink lists yields an entry.
pub open spec fn spec_wpctl_line(
    st: (bool, bool, bool, Seq<(u32, Seq<char>, bool)>),
    line: Seq<char>,
) -> (bool, bool, bool, Seq<(u32, Seq<char>, bool)>) {
    let audio1 = if has_substr(line, "Audio"@) {
        true
    } else {
        st.0
    };
    let audio = if has_substr(line, "Video"@) || has_substr(line, "Settings"@) {
        false
    } else {
        audio1
    };
    if audio {
        let flags = if has_substr(line, "Sources:"@) || has_substr(line, "Capture:"@) {
            (true, false)
        } else if has_substr(line, "Sinks:"@) || has_substr(line, "Playback:"@) {
            (false, true)
        } else {
            (st.1, st.2)
        };
        let entries = if (flags.0 || flags.1) && has_substr(line, "."@) {
            match spec_device_entry(line, flags.1) {
                Some(e) => st.3.push(e),
                None => st.3,
            }
        } else {
            st.3
        };
        (audio, flags.0, flags.1, entries)
    } else {
        (audio, st.1, st.2, st.3)
    }
}

/// The status scan over all lines.
pub open spec fn spec_wpctl(lines: Seq<Seq<char>>) -> (bool, bool, bool, Seq<(u32, Seq<char>, bool)>)
    decreases lines.len(),
{
    if lines.len() == 0 {
        (false, false, false, Seq::<(u32, Seq<char>, bool)>::empty())
    } else {
        spec_wpctl_line(spec_wpctl(lines.drop_last()), lines.last())
    }
}

/// Do the parsed entries and the source records agree?
pub open spec fn sources_match(
    rs: Seq<PipeWireSource>,
    es: Seq<(u32, Seq<char>, bool)>,
) -> bool {
    &&& rs.len() == es.len()
    &&& (forall|i: int|
        0 <= i < rs.len() ==> (#[trigger] rs[i]).id == es[i].0 && rs[i].name@ == es[i].1
            && rs[i].description@ == es[i].1 && rs[i].media_class@ == (if es[i].2 {
            "Audio/Sink"@
        } else {
            "Audio/Source"@
        }) && rs[i].is_monitor == es[i].2)
}

/// Parse the session manager's status listing and append every audio
/// source and sink device it shows.  Sinks count as monitors: they can
/// be monitored to capture what is heard.
pub fn parse_wpctl_status(output: &str, sources: &mut Vec<PipeWireSource>)
    ensures
        final(sources)@.len() == old(sources)@.len() + spec_wpctl(
            split_on(output@, '\n'),
        ).3.len(),
        forall|i: int|
            0 <= i < old(sources)@.len() ==> final(sources)@[i] == #[trigger] old(sources)@[i],
        sources_match(
            final(sources)@.skip(old(sources)@.len() as int),
            spec_wpctl(split_on(output@, '\n')).3,
        ),
{
    let ghost base = sources@;
    let lines = split_str(output, '\n');
    let ghost lv = lines.deep_view();
    let mut audio = false;
    let mut in_sources = false;
    let mut in_sinks = false;
    let mut li: usize = 0;
    proof {
        assert(lv.take(0) =~= Seq::<Seq<char>>::empty());
        assert(sources@.skip(base.len() as int) =~= Seq::<PipeWireSource>::empty());
    }
    while li < lines.len()
        invariant
            lv == lines.deep_view(),
            lv.len() == lines@.len(),
            forall|k: int| 0 <= k < lines@.len() ==> lv[k] == lines@[k]@,
            li <= lines@.len(),
            sources@.len() >= base.len(),
            forall|i: int| 0 <= i < base.len() ==> sources@[i] == #[trigger] base[i],
            ({
                let st = spec_wpctl(lv.take(li as int));
                &&& audio == st.0
                &&& in_sources == st.1
                &&& in_sinks == st.2
                &&& sources_match(sources@.skip(base.len() as int), st.3)
            }),
        decreases lines@.len() - li,
    {
        proof {
            assert(lv.take(li as int + 1).drop_last() =~= lv.take(li as int));
            assert(lv.take(li as int + 1).last() == lv[li as int]);
        }
        let line = lines[li].as_str();
        proof {
            assert(line@ == lv[li as int]);
        }
        if contains_str(line, "Audio") {
            audio = true;
        }
        if contains_str(line, "Video") || contains_str(line, "Settings") {
            audio = false;
        }
        if audio {
            if contains_str(line, "Sources:") || contains_str(line, "Capture:") {
                in_sources = true;
                in_sinks = false;
            } else if contains_str(line, "Sinks:") || contains_str(line, "Playback:") {
                in_sinks = true;
                in_sources = false;
            }
            if (in_sources || in_sinks) && contains_str(line, ".") {
                let trimmed = trim_str(line);
                let tlen = trimmed.as_str().unicode_len();
                match find_first(trimmed.as_str(), '.') {
                    Some(dot) => {
                        let before = trimmed.as_str().substring_char(0, dot);
                        let rest = trimmed.as_str().substring_char(dot + 1, tlen);
                        let idtxt = trim_stars(trim_str(before).as_str());
                        let name_part = match find_first(rest, '[') {
                            Some(b) => rest.substring_char(0, b),
                            None => rest,
                        };
                        let name = trim_str(name_part);
                        proof {
                            assert(before@ =~= before_first(trimmed@, '.'));
                            assert(rest@ =~= after_first(trimmed@, '.'));
                            assert(name_part@ =~= before_first(rest@, '['));
                        }
                        match parse_u32(idtxt.as_str()) {
                            Some(id) => {
                                if name.as_str().unicode_len() > 0 {
                                    let ghost pre = sources@;
                                    let class = if in_sinks {
                                        String::from_str("Audio/Sink")
                                    } else {
                                        String::from_str("Audio/Source")
                                    };
                                    sources.push(
                                        PipeWireSource {
                                            id,
                                            name: name.clone(),
                                            description: name,
                                            media_class: class,
                                            is_monitor: in_sinks,
                                        },
                                    );
                                    proof {
                                        assert(spec_device_entry(lv[li as int], in_sinks) == Some(
                                            (id, name@, in_sinks),
                                        ));
                                        assert(sources@ =~= pre.push(sources@.last()));
                                        assert(sources@.skip(base.len() as int) =~= pre.skip(
                                            base.len() as int,
                                        ).push(sources@.last()));
                                    }
                                } else {
                                    proof {
                                        assert(spec_device_entry(lv[li as int], in_sinks)
                                            is None);
                                    }
                                }
                            },
                            None => {
                                proof {
                                    assert(spec_device_entry(lv[li as int], in_sinks) is None);
                                }
                            },
                        }
                    },
                    None => {
                        proof {
                            // No dot inside the trimmed line: the name part
                            // is empty, so the line yields no device.
                            let t = spec_trim_ws(lv[li as int]);
                            assert(after_first(t, '.') == Seq::<char>::empty());
                            assert(before_first(Seq::<char>::empty(), '[')
                                == Seq::<char>::empty());
                            assert(spec_trim_ws(Seq::<char>::empty()) == Seq::<char>::empty());
                            assert(spec_device_entry(lv[li as int], in_sinks) is None);
                        }
                    },
                }
            }
        }
        proof {
            assert(spec_wpctl(lv.take(li as int + 1)) == spec_wpctl_line(
                spec_wpctl(lv.take(li as int)),
                lv[li as int],
            ));
            assert(sources_match(
                sources@.skip(base.len() as int),
                spec_wpctl(lv.take(li as int + 1)).3,
            ));
        }
        li = li + 1;
    }
    proof {
        assert(lv.take(lines@.len() as int) =~= lv);
    }
}

} // verus!
