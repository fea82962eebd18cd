//! Line protocol between the controller and a renderer process.
//!
//! Each command travels to the renderer as one JSON object per line on its
//! input stream; each event comes back as one JSON object per line on its
//! output stream.  The encoders produce exactly the canonical character
//! form of each message; the event parser accepts canonical event lines
//! and returns nothing for anything else, which the reader drops as noise
//! — the protocol is best-effort by design.

use vstd::prelude::*;

use crate::jsonfmt::append_bool;
use crate::jsonfmt::append_escaped;
use crate::jsonfmt::append_fixed;
use crate::jsonfmt::append_quoted;
use crate::jsonfmt::append_u64;
use crate::jsonfmt::dec_digits;
use crate::jsonfmt::dec_fixed;
use crate::jsonfmt::append_unescaped_control;
use crate::jsonfmt::esc_char;
use crate::jsonfmt::hex_char;
use crate::jsonfmt::hex_val;
use crate::jsonfmt::json_escaped;
use crate::jsonfmt::lemma_esc_char_injective;
use crate::jsonfmt::lemma_esc_char_shape;
use crate::jsonfmt::lemma_hex_char_injective;
use crate::jsonfmt::lemma_json_escaped_head;
use crate::jsonfmt::lemma_json_escaped_injective;
use crate::jsonfmt::spec_quoted;
use crate::strutil::str_eq;
use crate::strutil::str_starts_with;

verus! {

/// Command the controller sends to a renderer process.
#[derive(Debug)]
pub enum RendererCommand {
    /// Load the preset file at `path`.
    LoadPreset { path: String },
    /// One chunk of interleaved stereo samples, fixed-point at `UNIT`.
    Audio { samples: Vec<i32> },
    /// Toggle the renderer window's fullscreen state.
    ToggleFullscreen,
    /// Beat sensitivity, fixed-point at `UNIT`.
    SetBeatSensitivity { value: u32 },
    /// Enable or disable the renderer's video-device output.
    SetVideoOutput { enabled: bool, device_path: Option<String> },
    /// Enable or disable the renderer's network video output.
    SetNdiOutput { enabled: bool, name: Option<String> },
    /// Texture search paths for presets that reference textures.
    SetTexturePaths { paths: Vec<String> },
    /// Ask the renderer to shut down gracefully.
    Stop,
}

/// Event a renderer process reports back.
#[derive(Debug)]
pub enum RendererEvent {
    /// The renderer finished starting up.
    Ready,
    /// The renderer closed its window.
    Closed,
    /// The renderer hit a non-fatal error.
    Error { message: String },
    /// The renderer finished loading a preset.
    PresetLoaded { path: String },
}

/// Startup configuration handed to a renderer as its one argument.
#[derive(Debug)]
pub struct RendererConfig {
    pub width: u32,
    pub height: u32,
    pub preset_path: Option<String>,
    pub fullscreen: bool,
    pub deck_id: u8,
    pub monitor_index: Option<usize>,
    pub texture_paths: Vec<String>,
}

/// `true` or `false` as characters.
pub open spec fn bool_chars(b: bool) -> Seq<char> {
    if b {
        "true"@
    } else {
        "false"@
    }
}

/// A quoted string or `null`.
pub open spec fn opt_quoted(o: Option<Seq<char>>) -> Seq<char> {
    match o {
        Some(s) => spec_quoted(s),
        None => "null"@,
    }
}

/// Comma-separated fixed-point numbers.
pub open spec fn samples_body(s: Seq<i32>) -> Seq<char>
    decreases s.len(),
{
    if s.len() == 0 {
        Seq::empty()
    } else if s.len() == 1 {
        dec_fixed(s[0] as int)
    } else {
        samples_body(s.drop_last()) + seq![','] + dec_fixed(s.last() as int)
    }
}

/// Comma-separated quoted strings.
pub open spec fn strings_body(s: Seq<Seq<char>>) -> Seq<char>
    decreases s.len(),
{
    if s.len() == 0 {
        Seq::empty()
    } else if s.len() == 1 {
        spec_quoted(s[0])
    } else {
        strings_body(s.drop_last()) + seq![','] + spec_quoted(s.last())
    }
}

/// The canonical line for each command.
pub open spec fn spec_encode_command(cmd: RendererCommand) -> Seq<char> {
    match cmd {
        RendererCommand::LoadPreset { path } => "{\"type\":\"load_preset\",\"path\":"@
            + spec_quoted(path@) + "}"@,
        RendererCommand::Audio { samples } => "{\"type\":\"audio\",\"samples\":["@ + samples_body(
            samples@,
        ) + "]}"@,
        RendererCommand::ToggleFullscreen => "{\"type\":\"toggle_fullscreen\"}"@,
        RendererCommand::SetBeatSensitivity { value } => "{\"type\":\"set_beat_sensitivity\",\"value\":"@
            + dec_fixed(value as int) + "}"@,
        RendererCommand::SetVideoOutput { enabled, device_path } => "{\"type\":\"set_video_output\",\"enabled\":"@
            + bool_chars(enabled) + ",\"device_path\":"@ + opt_quoted(
            match device_path {
                Some(p) => Some(p@),
                None => None,
            },
        ) + "}"@,
        RendererCommand::SetNdiOutput { enabled, name } => "{\"type\":\"set_ndi_output\",\"enabled\":"@
            + bool_chars(enabled) + ",\"name\":"@ + opt_quoted(
            match name {
                Some(p) => Some(p@),
                None => None,
            },
        ) + "}"@,
        RendererCommand::SetTexturePaths { paths } => "{\"type\":\"set_texture_paths\",\"paths\":["@
            + strings_body(paths.deep_view()) + "]}"@,
        RendererCommand::Stop => "{\"type\":\"stop\"}"@,
    }
}

/// The canonical line for each event.
pub open spec fn spec_encode_event(ev: RendererEvent) -> Seq<char> {
    match ev {
        RendererEvent::Ready => "{\"type\":\"ready\"}"@,
        RendererEvent::Closed => "{\"type\":\"closed\"}"@,
        RendererEvent::Error { message } => "{\"type\":\"error\",\"message\":"@ + spec_quoted(
            message@,
        ) + "}"@,
        RendererEvent::PresetLoaded { path } => "{\"type\":\"preset_loaded\",\"path\":"@
            + spec_quoted(path@) + "}"@,
    }
}

/// The canonical startup-configuration text.
pub open spec fn spec_encode_config(cfg: RendererConfig) -> Seq<char> {
    "{\"width\":"@ + dec_digits(cfg.width as nat) + ",\"height\":"@ + dec_digits(
        cfg.height as nat,
    ) + ",\"preset_path\":"@ + opt_quoted(
        match cfg.preset_path {
            Some(p) => Some(p@),
            None => None,
        },
    ) + ",\"fullscreen\":"@ + bool_chars(cfg.fullscreen) + ",\"deck_id\":"@ + dec_digits(
        cfg.deck_id as nat,
    ) + ",\"monitor_index\":"@ + (match cfg.monitor_index {
        Some(m) => dec_digits(m as nat),
        None => "null"@,
    }) + ",\"texture_paths\":["@ + strings_body(cfg.texture_paths.deep_view()) + "]}"@
}

/// Append a quoted string, or `null` when absent.
fn append_opt_quoted(out: &mut String, o: &Option<String>)
    ensures
        final(out)@ == old(out)@ + opt_quoted(
            match *o {
                Some(p) => Some(p@),
                None => None,
            },
        ),
{
    match o {
        Some(s) => append_quoted(out, s.as_str()),
        None => out.append("null"),
    }
}

/// Append the comma-separated fixed-point samples.
fn append_samples(out: &mut String, v: &Vec<i32>)
    ensures
        final(out)@ == old(out)@ + samples_body(v@),
{
    let ghost pre = out@;
    let mut i: usize = 0;
    proof {
        assert(v@.take(0) =~= Seq::<i32>::empty());
    }
    while i < v.len()
        invariant
            i <= v@.len(),
            out@ == pre + samples_body(v@.take(i as int)),
        decreases v@.len() - i,
    {
        proof {
            assert(v@.take(i as int + 1).drop_last() =~= v@.take(i as int));
            assert(v@.take(i as int + 1).last() == v@[i as int]);
        }
        if i > 0 {
            out.append(",");
            proof {
                reveal_strlit(",");
            }
        }
        append_fixed(out, v[i] as i64);
        proof {
            assert(out@ =~= pre + samples_body(v@.take(i as int + 1)));
        }
        i = i + 1;
    }
    proof {
        assert(v@.take(v@.len() as int) =~= v@);
    }
}

/// Append the comma-separated quoted strings.
fn append_strings(out: &mut String, v: &Vec<String>)
    ensures
        final(out)@ == old(out)@ + strings_body(v.deep_view()),
{
    let ghost pre = out@;
    let ghost full = v.deep_view();
    let mut i: usize = 0;
    proof {
        assert(full.take(0) =~= Seq::<Seq<char>>::empty());
        assert(full.len() == v@.len());
    }
    while i < v.len()
        invariant
            i <= v@.len(),
            full == v.deep_view(),
            full.len() == v@.len(),
            forall|k: int| 0 <= k < v@.len() ==> full[k] == v@[k]@,
            out@ == pre + strings_body(full.take(i as int)),
        decreases v@.len() - i,
    {
        proof {
            assert(full.take(i as int + 1).drop_last() =~= full.take(i as int));
            assert(full.take(i as int + 1).last() == full[i as int]);
        }
        if i > 0 {
            out.append(",");
            proof {
                reveal_strlit(",");
            }
        }
        append_quoted(out, v[i].as_str());
        proof {
            assert(out@ =~= pre + strings_body(full.take(i as int + 1)));
        }
        i = i + 1;
    }
    proof {
        assert(full.take(full.len() as int) =~= full);
    }
}

/// Encode one command as its canonical line (without the newline).
pub fn encode_command(cmd: &RendererCommand) -> (r: String)
    ensures
        r@ == spec_encode_command(*cmd),
{
    let mut out = String::new();
    match cmd {
        RendererCommand::LoadPreset { path } => {
            out.append("{\"type\":\"load_preset\",\"path\":");
            append_quoted(&mut out, path.as_str());
            out.append("}");
        },
        RendererCommand::Audio { samples } => {
            out.append("{\"type\":\"audio\",\"samples\":[");
            append_samples(&mut out, samples);
            out.append("]}");
        },
        RendererCommand::ToggleFullscreen => {
            out.append("{\"type\":\"toggle_fullscreen\"}");
        },
        RendererCommand::SetBeatSensitivity { value } => {
            out.append("{\"type\":\"set_beat_sensitivity\",\"value\":");
            append_fixed(&mut out, *value as i64);
            out.append("}");
        },
        RendererCommand::SetVideoOutput { enabled, device_path } => {
            out.append("{\"type\":\"set_video_output\",\"enabled\":");
            append_bool(&mut out, *enabled);
            out.append(",\"device_path\":");
            append_opt_quoted(&mut out, device_path);
            out.append("}");
        },
        RendererCommand::SetNdiOutput { enabled, name } => {
            out.append("{\"type\":\"set_ndi_output\",\"enabled\":");
            append_bool(&mut out, *enabled);
            out.append(",\"name\":");
            append_opt_quoted(&mut out, name);
            out.append("}");
        },
        RendererCommand::SetTexturePaths { paths } => {
            out.append("{\"type\":\"set_texture_paths\",\"paths\":[");
            append_strings(&mut out, paths);
            out.append("]}");
        },
        RendererCommand::Stop => {
            out.append("{\"type\":\"stop\"}");
        },
    }
    proof {
        assert(out@ =~= spec_encode_command(*cmd));
    }
    out
}

/// Encode one event as its canonical line.  The controller itself never
/// sends events; this is the reference form the parser accepts.
pub fn encode_event(ev: &RendererEvent) -> (r: String)
    ensures
        r@ == spec_encode_event(*ev),
{
    let mut out = String::new();
    match ev {
        RendererEvent::Ready => {
            out.append("{\"type\":\"ready\"}");
        },
        RendererEvent::Closed => {
            out.append("{\"type\":\"closed\"}");
        },
        RendererEvent::Error { message } => {
            out.append("{\"type\":\"error\",\"message\":");
            append_quoted(&mut out, message.as_str());
            out.append("}");
        },
        RendererEvent::PresetLoaded { path } => {
            out.append("{\"type\":\"preset_loaded\",\"path\":");
            append_quoted(&mut out, path.as_str());
            out.append("}");
        },
    }
    proof {
        assert(out@ =~= spec_encode_event(*ev));
    }
    out
}

/// Encode the startup configuration as its canonical text.
pub fn encode_config(cfg: &RendererConfig) -> (r: String)
    ensures
        r@ == spec_encode_config(*cfg),
{
    let mut out = String::new();
    out.append("{\"width\":");
    append_u64(&mut out, cfg.width as u64);
    out.append(",\"height\":");
    append_u64(&mut out, cfg.height as u64);
    out.append(",\"preset_path\":");
    append_opt_quoted(&mut out, &cfg.preset_path);
    out.append(",\"fullscreen\":");
    append_bool(&mut out, cfg.fullscreen);
    out.append(",\"deck_id\":");
    append_u64(&mut out, cfg.deck_id as u64);
    out.append(",\"monitor_index\":");
    match &cfg.monitor_index {
        Some(m) => append_u64(&mut out, *m as u64),
        None => out.append("null"),
    }
    out.append(",\"texture_paths\":[");
    append_strings(&mut out, &cfg.texture_paths);
    out.append("]}");
    proof {
        assert(out@ =~= spec_encode_config(*cfg));
    }
    out
}

/// A line is exactly `prefix`, then an escaped body, then `"}`.
pub open spec fn quoted_tail_form(line: Seq<char>, prefix: Seq<char>, w: Seq<char>) -> bool {
    line == prefix + json_escaped(w) + "\"}"@
}

/// What the form fixes about the line: its length, its pieces, and the
/// two closing characters.
proof fn lemma_line_decompose(line: Seq<char>, prefix: Seq<char>, w: Seq<char>)
    requires
        quoted_tail_form(line, prefix, w),
    ensures
        line.len() == prefix.len() + json_escaped(w).len() + 2,
        line.subrange(prefix.len() as int, line.len() - 2) == json_escaped(w),
        line.subrange(0, prefix.len() as int) == prefix,
        line[line.len() - 2] == '"',
        line[line.len() - 1] == '}',
{
    reveal_strlit("\"}");
    assert("\"}"@.len() == 2 && "\"}"@[0] == '"' && "\"}"@[1] == '}');
    let e = json_escaped(w);
    assert(line.len() == prefix.len() + e.len() + 2);
    assert(line.subrange(prefix.len() as int, line.len() - 2) =~= e);
    assert(line.subrange(0, prefix.len() as int) =~= prefix);
}

/// Read the escaped string body that fills `line` between `prefix` and a
/// closing `"}`.  The parse is exact both ways: a result means the line
/// is precisely the canonical form for that body, and every canonical
/// line yields its body — anything else yields `None`.
#[verifier::rlimit(100)]
#[verifier::spinoff_prover]
fn parse_quoted_tail(line: &str, prefix: &str) -> (r: Option<String>)
    ensures
        (r matches Some(m) ==> quoted_tail_form(line@, prefix@, m@)),
        r is None ==> forall|w: Seq<char>|
            #![trigger json_escaped(w)]
            !quoted_tail_form(line@, prefix@, w),
{
    let llen = line.unicode_len();
    let plen = prefix.unicode_len();
    if plen > usize::MAX - 2 || llen < plen + 2 {
        proof {
            assert forall|w: Seq<char>|
                #![trigger json_escaped(w)]
                !quoted_tail_form(line@, prefix@, w) by {
                if quoted_tail_form(line@, prefix@, w) {
                    lemma_line_decompose(line@, prefix@, w);
                }
            }
        }
        return None;
    }
    if !str_starts_with(line, prefix) {
        proof {
            assert forall|w: Seq<char>|
                #![trigger json_escaped(w)]
                !quoted_tail_form(line@, prefix@, w) by {
                if quoted_tail_form(line@, prefix@, w) {
                    lemma_line_decompose(line@, prefix@, w);
                }
            }
        }
        return None;
    }
    proof {
        reveal_strlit("\"}");
        assert("\"}"@.len() == 2 && "\"}"@[0] == '"' && "\"}"@[1] == '}');
    }
    let end = llen - 2;
    if line.get_char(end) != '"' || line.get_char(end + 1) != '}' {
        proof {
            assert forall|w: Seq<char>|
                #![trigger json_escaped(w)]
                !quoted_tail_form(line@, prefix@, w) by {
                if quoted_tail_form(line@, prefix@, w) {
                    lemma_line_decompose(line@, prefix@, w);
                }
            }
        }
        return None;
    }
    let mut m = String::new();
    let mut i: usize = plen;
    proof {
        assert(line@.subrange(plen as int, plen as int) =~= json_escaped(m@));
        assert forall|w: Seq<char>|
            #![trigger json_escaped(w)]
            quoted_tail_form(line@, prefix@, w) implies m@.len() <= w.len() && m@ == w.take(
            m@.len() as int,
        ) && line@.subrange(plen as int, end as int) == json_escaped(w.skip(m@.len() as int)) by {
            lemma_line_decompose(line@, prefix@, w);
            assert(m@ =~= w.take(0));
            assert(w.skip(0) =~= w);
        }
    }
    while i < end
        invariant
            llen == line@.len(),
            plen == prefix@.len(),
            plen <= i <= end,
            end == llen - 2,
            llen >= plen + 2,
            line@.subrange(plen as int, i as int) == json_escaped(m@),
            forall|w: Seq<char>|
                #![trigger json_escaped(w)]
                quoted_tail_form(line@, prefix@, w) ==> m@.len() <= w.len() && m@ == w.take(
                    m@.len() as int,
                ) && line@.subrange(i as int, end as int) == json_escaped(
                    w.skip(m@.len() as int),
                ),
        decreases end - i,
    {
        let c = line.get_char(i);
        let ghost m0 = m@;
        proof {
            // For any line of the canonical form, the rest to consume
            // starts with one whole escape.
            assert forall|w: Seq<char>|
                #![trigger json_escaped(w)]
                quoted_tail_form(line@, prefix@, w) implies w.skip(m0.len() as int).len() > 0
                && line@.subrange(i as int, end as int) == esc_char(
                w.skip(m0.len() as int)[0],
            ) + json_escaped(w.skip(m0.len() as int).skip(1)) by {
                let wr = w.skip(m0.len() as int);
                if wr.len() == 0 {
                    assert(line@.subrange(i as int, end as int).len() == end - i > 0);
                } else {
                    lemma_json_escaped_head(wr);
                }
            }
        }
        if c == '"' {
            proof {
                assert forall|w: Seq<char>|
                    #![trigger json_escaped(w)]
                    !quoted_tail_form(line@, prefix@, w) by {
                    if quoted_tail_form(line@, prefix@, w) {
                        let wr = w.skip(m0.len() as int);
                        lemma_esc_char_shape(wr[0]);
                        assert(line@.subrange(i as int, end as int)[0] == line@[i as int]);
                        assert(esc_char(wr[0])[0] == '"');
                    }
                }
            }
            return None;
        }
        if c == '\\' {
            if i + 1 >= end {
                proof {
                    assert forall|w: Seq<char>|
                        #![trigger json_escaped(w)]
                        !quoted_tail_form(line@, prefix@, w) by {
                        if quoted_tail_form(line@, prefix@, w) {
                            let wr = w.skip(m0.len() as int);
                            lemma_esc_char_shape(wr[0]);
                            assert(line@.subrange(i as int, end as int)[0] == line@[i as int]);
                            assert(esc_char(wr[0])[0] == '\\');
                            assert(esc_char(wr[0]).len() >= 2);
                            assert(line@.subrange(i as int, end as int).len() >= 2);
                        }
                    }
                }
                return None;
            }
            let d = line.get_char(i + 1);
            proof {
                // The second character of the escape fixes its kind.
                assert forall|w: Seq<char>|
                    #![trigger json_escaped(w)]
                    quoted_tail_form(line@, prefix@, w) implies esc_char(
                    w.skip(m0.len() as int)[0],
                )[0] == '\\' && esc_char(w.skip(m0.len() as int)[0])[1] == d by {
                    let wr = w.skip(m0.len() as int);
                    lemma_esc_char_shape(wr[0]);
                    assert(line@.subrange(i as int, end as int)[0] == line@[i as int]);
                    assert(esc_char(wr[0])[0] == '\\');
                    assert(esc_char(wr[0]).len() >= 2);
                    assert(line@.subrange(i as int, end as int)[1] == line@[i as int + 1]);
                }
            }
            if d == 'u' {
                if end - i < 6 || line.get_char(i + 2) != '0' || line.get_char(i + 3) != '0' {
                    proof {
                        assert forall|w: Seq<char>|
                            #![trigger json_escaped(w)]
                            !quoted_tail_form(line@, prefix@, w) by {
                            if quoted_tail_form(line@, prefix@, w) {
                                let wr = w.skip(m0.len() as int);
                                lemma_esc_char_shape(wr[0]);
                                assert(esc_char(wr[0]).len() == 6);
                                assert(line@.subrange(i as int, end as int).len() >= 6);
                                assert(line@.subrange(i as int, end as int)[2] == line@[i as int
                                    + 2]);
                                assert(line@.subrange(i as int, end as int)[3] == line@[i as int
                                    + 3]);
                            }
                        }
                    }
                    return None;
                }
                let h1 = hex_val(line.get_char(i + 4));
                let h2 = hex_val(line.get_char(i + 5));
                let (v1, v2) = match (h1, h2) {
                    (Some(v1), Some(v2)) => (v1, v2),
                    _ => {
                        proof {
                            assert forall|w: Seq<char>|
                                #![trigger json_escaped(w)]
                                !quoted_tail_form(line@, prefix@, w) by {
                                if quoted_tail_form(line@, prefix@, w) {
                                    let wr = w.skip(m0.len() as int);
                                    lemma_esc_char_shape(wr[0]);
                                    let u = wr[0] as u32;
                                    assert(line@.subrange(i as int, end as int)[4] == line@[
                                        i as int + 4]);
                                    assert(line@.subrange(i as int, end as int)[5] == line@[
                                        i as int + 5]);
                                    assert(line@[i as int + 4] == hex_char((u / 16) as nat));
                                    assert(line@[i as int + 5] == hex_char((u % 16) as nat));
                                    assert((u / 16) < 16 && (u % 16) < 16);
                                }
                            }
                        }
                        return None;
                    },
                };
                let okc = append_unescaped_control(&mut m, v1, v2);
                if !okc {
                    proof {
                        assert forall|w: Seq<char>|
                            #![trigger json_escaped(w)]
                            !quoted_tail_form(line@, prefix@, w) by {
                            if quoted_tail_form(line@, prefix@, w) {
                                let wr = w.skip(m0.len() as int);
                                lemma_esc_char_shape(wr[0]);
                                let u = wr[0] as u32;
                                assert(line@.subrange(i as int, end as int)[4] == line@[i as int
                                    + 4]);
                                assert(line@.subrange(i as int, end as int)[5] == line@[i as int
                                    + 5]);
                                assert(hex_char(v1 as nat) == hex_char((u / 16) as nat));
                                assert(hex_char(v2 as nat) == hex_char((u % 16) as nat));
                                lemma_hex_char_injective(v1 as nat, (u / 16) as nat);
                                lemma_hex_char_injective(v2 as nat, (u % 16) as nat);
                                assert(v1 * 16 + v2 == u);
                                assert(u < 32 && u != 8 && u != 9 && u != 10 && u != 12 && u
                                    != 13);
                            }
                        }
                    }
                    return None;
                }
                proof {
                    assert(m@.len() == m0.len() + 1);
                    assert(m@.drop_last() =~= m0);
                    assert(line@.subrange(plen as int, i as int + 6) =~= line@.subrange(
                        plen as int,
                        i as int,
                    ) + seq![
                        line@[i as int],
                        line@[i as int + 1],
                        line@[i as int + 2],
                        line@[i as int + 3],
                        line@[i as int + 4],
                        line@[i as int + 5],
                    ]);
                    assert(seq![
                        line@[i as int],
                        line@[i as int + 1],
                        line@[i as int + 2],
                        line@[i as int + 3],
                        line@[i as int + 4],
                        line@[i as int + 5],
                    ] =~= esc_char(m@.last()));
                    assert(line@.subrange(plen as int, i as int + 6) =~= json_escaped(m@));
                    assert forall|w: Seq<char>|
                        #![trigger json_escaped(w)]
                        quoted_tail_form(line@, prefix@, w) implies m@.len() <= w.len() && m@
                        == w.take(m@.len() as int) && line@.subrange(
                        i as int + 6,
                        end as int,
                    ) == json_escaped(w.skip(m@.len() as int)) by {
                        let wr = w.skip(m0.len() as int);
                        lemma_esc_char_shape(wr[0]);
                        let u = wr[0] as u32;
                        assert(line@.subrange(i as int, end as int)[4] == line@[i as int + 4]);
                        assert(line@.subrange(i as int, end as int)[5] == line@[i as int + 5]);
                        lemma_hex_char_injective(v1 as nat, (u / 16) as nat);
                        lemma_hex_char_injective(v2 as nat, (u % 16) as nat);
                        assert(esc_char(m@.last()) =~= esc_char(wr[0]));
                        lemma_esc_char_injective(m@.last(), wr[0]);
                        assert(m@ =~= w.take(m0.len() as int + 1));
                        assert(wr.skip(1) =~= w.skip(m0.len() as int + 1));
                        assert(line@.subrange(i as int + 6, end as int) =~= line@.subrange(
                            i as int,
                            end as int,
                        ).skip(6));
                        assert((esc_char(wr[0]) + json_escaped(wr.skip(1))).skip(6) =~= json_escaped(
                            wr.skip(1),
                        ));
                        assert(line@.subrange(i as int + 6, end as int) =~= json_escaped(
                            w.skip(m@.len() as int),
                        ));
                    }
                }
                i = i + 6;
            } else {
                if d == '"' {
                    m.append("\"");
                    proof {
                        reveal_strlit("\"");
                    }
                } else if d == '\\' {
                    m.append("\\");
                    proof {
                        reveal_strlit("\\");
                    }
                } else if d == 'b' {
                    m.append("\u{8}");
                    proof {
                        reveal_strlit("\u{8}");
                    }
                } else if d == 't' {
                    m.append("\t");
                    proof {
                        reveal_strlit("\t");
                    }
                } else if d == 'n' {
                    m.append("\n");
                    proof {
                        reveal_strlit("\n");
                    }
                } else if d == 'f' {
                    m.append("\u{c}");
                    proof {
                        reveal_strlit("\u{c}");
                    }
                } else if d == 'r' {
                    m.append("\r");
                    proof {
                        reveal_strlit("\r");
                    }
                } else {
                    proof {
                        assert forall|w: Seq<char>|
                            #![trigger json_escaped(w)]
                            !quoted_tail_form(line@, prefix@, w) by {
                            if quoted_tail_form(line@, prefix@, w) {
                                let wr = w.skip(m0.len() as int);
                                lemma_esc_char_shape(wr[0]);
                            }
                        }
                    }
                    return None;
                }
                proof {
                    assert(m@.len() == m0.len() + 1);
                    assert(m@.drop_last() =~= m0);
                    assert(esc_char(m@.last()) =~= seq!['\\', d]);
                    assert(line@.subrange(plen as int, i as int + 2) =~= line@.subrange(
                        plen as int,
                        i as int,
                    ) + seq![line@[i as int], line@[i as int + 1]]);
                    assert(line@.subrange(plen as int, i as int + 2) =~= json_escaped(m@));
                    assert forall|w: Seq<char>|
                        #![trigger json_escaped(w)]
                        quoted_tail_form(line@, prefix@, w) implies m@.len() <= w.len() && m@
                        == w.take(m@.len() as int) && line@.subrange(
                        i as int + 2,
                        end as int,
                    ) == json_escaped(w.skip(m@.len() as int)) by {
                        let wr = w.skip(m0.len() as int);
                        lemma_esc_char_shape(wr[0]);
                        assert(esc_char(wr[0]).len() == 2);
                        assert(esc_char(wr[0]) =~= esc_char(m@.last()));
                        lemma_esc_char_injective(m@.last(), wr[0]);
                        assert(m@ =~= w.take(m0.len() as int + 1));
                        assert(wr.skip(1) =~= w.skip(m0.len() as int + 1));
                        assert(line@.subrange(i as int + 2, end as int) =~= line@.subrange(
                            i as int,
                            end as int,
                        ).skip(2));
                        assert((esc_char(wr[0]) + json_escaped(wr.skip(1))).skip(2) =~= json_escaped(
                            wr.skip(1),
                        ));
                        assert(line@.subrange(i as int + 2, end as int) =~= json_escaped(
                            w.skip(m@.len() as int),
                        ));
                    }
                }
                i = i + 2;
            }
        } else if (c as u32) < 32 {
            proof {
                assert forall|w: Seq<char>|
                    #![trigger json_escaped(w)]
                    !quoted_tail_form(line@, prefix@, w) by {
                    if quoted_tail_form(line@, prefix@, w) {
                        let wr = w.skip(m0.len() as int);
                        lemma_esc_char_shape(wr[0]);
                        assert(line@.subrange(i as int, end as int)[0] == line@[i as int]);
                    }
                }
            }
            return None;
        } else {
            m.append(line.substring_char(i, i + 1));
            proof {
                assert(line@.subrange(i as int, i as int + 1) =~= seq![line@[i as int]]);
                assert(m@.drop_last() =~= m0);
                assert(esc_char(m@.last()) =~= seq![c]);
                assert(line@.subrange(plen as int, i as int + 1) =~= line@.subrange(
                    plen as int,
                    i as int,
                ) + seq![line@[i as int]]);
                assert(line@.subrange(plen as int, i as int + 1) =~= json_escaped(m@));
                assert forall|w: Seq<char>|
                    #![trigger json_escaped(w)]
                    quoted_tail_form(line@, prefix@, w) implies m@.len() <= w.len() && m@
                    == w.take(m@.len() as int) && line@.subrange(
                    i as int + 1,
                    end as int,
                ) == json_escaped(w.skip(m@.len() as int)) by {
                    let wr = w.skip(m0.len() as int);
                    lemma_esc_char_shape(wr[0]);
                    assert(line@.subrange(i as int, end as int)[0] == line@[i as int]);
                    assert(esc_char(wr[0]).len() == 1);
                    assert(wr[0] == c);
                    assert(m@ =~= w.take(m0.len() as int + 1));
                    assert(wr.skip(1) =~= w.skip(m0.len() as int + 1));
                    assert(line@.subrange(i as int + 1, end as int) =~= line@.subrange(
                        i as int,
                        end as int,
                    ).skip(1));
                    assert((esc_char(wr[0]) + json_escaped(wr.skip(1))).skip(1) =~= json_escaped(
                        wr.skip(1),
                    ));
                    assert(line@.subrange(i as int + 1, end as int) =~= json_escaped(
                        w.skip(m@.len() as int),
                    ));
                }
            }
            i = i + 1;
        }
    }
    proof {
        assert(line@.subrange(end as int, llen as int) =~= "\"}"@);
        assert(line@.subrange(0, plen as int) == prefix@);
        assert(line@ =~= prefix@ + json_escaped(m@) + "\"}"@);
    }
    Some(m)
}

/// Parse one line from a renderer's output stream.  The parse is exact
/// both ways: a result means the line is precisely that event's
/// canonical form, and every canonical event line yields its event —
/// every other line yields `None` and is dropped by the reader as noise.
pub fn parse_event(line: &str) -> (r: Option<RendererEvent>)
    ensures
        (r matches Some(ev) ==> line@ == spec_encode_event(ev)),
        line@ == "{\"type\":\"ready\"}"@ ==> r == Some(RendererEvent::Ready),
        line@ == "{\"type\":\"closed\"}"@ ==> r == Some(RendererEvent::Closed),
        forall|msg: Seq<char>|
            line@ == "{\"type\":\"error\",\"message\":"@ + #[trigger] spec_quoted(msg) + "}"@
                ==> (r matches Some(ev) && (ev matches RendererEvent::Error { message } && message@
                == msg)),
        forall|p: Seq<char>|
            line@ == "{\"type\":\"preset_loaded\",\"path\":"@ + #[trigger] spec_quoted(p) + "}"@
                ==> (r matches Some(ev) && (ev matches RendererEvent::PresetLoaded { path }
                && path@ == p)),
{
    proof {
        reveal_strlit("{\"type\":\"ready\"}");
        reveal_strlit("{\"type\":\"closed\"}");
        reveal_strlit("{\"type\":\"error\",\"message\":");
        reveal_strlit("{\"type\":\"error\",\"message\":\"");
        reveal_strlit("{\"type\":\"preset_loaded\",\"path\":");
        reveal_strlit("{\"type\":\"preset_loaded\",\"path\":\"");
        reveal_strlit("\"}");
        reveal_strlit("}");
        assert("{\"type\":\"ready\"}"@.len() == 16);
        assert("{\"type\":\"closed\"}"@.len() == 17);
        assert("{\"type\":\"error\",\"message\":"@.len() == 26);
        assert("{\"type\":\"preset_loaded\",\"path\":"@.len() == 31);
        assert("}"@.len() == 1);
        assert("{\"type\":\"error\",\"message\":\""@ =~= "{\"type\":\"error\",\"message\":"@
            + seq!['"']);
        assert("{\"type\":\"preset_loaded\",\"path\":\""@ =~=
            "{\"type\":\"preset_loaded\",\"path\":"@ + seq!['"']);
        assert("\"}"@ =~= seq!['"'] + "}"@);
        assert("{\"type\":\"error\",\"message\":"@[9] == 'e');
        assert("{\"type\":\"preset_loaded\",\"path\":"@[9] == 'p');
    }
    if str_eq(line, "{\"type\":\"ready\"}") {
        proof {
            lemma_not_quoted_form(line@, "{\"type\":\"error\",\"message\":"@);
            lemma_not_quoted_form(line@, "{\"type\":\"preset_loaded\",\"path\":"@);
        }
        return Some(RendererEvent::Ready);
    }
    if str_eq(line, "{\"type\":\"closed\"}") {
        proof {
            lemma_not_quoted_form(line@, "{\"type\":\"error\",\"message\":"@);
            lemma_not_quoted_form(line@, "{\"type\":\"preset_loaded\",\"path\":"@);
        }
        return Some(RendererEvent::Closed);
    }
    match parse_quoted_tail(line, "{\"type\":\"error\",\"message\":\"") {
        Some(message) => {
            proof {
                assert(line@ =~= "{\"type\":\"error\",\"message\":"@ + spec_quoted(message@)
                    + "}"@);
                assert(line@.len() == 26 + spec_quoted(message@).len() + 1);
                assert(spec_quoted(message@).len() >= 2);
                assert forall|msg: Seq<char>|
                    line@ == "{\"type\":\"error\",\"message\":"@ + #[trigger] spec_quoted(msg)
                        + "}"@ implies message@ == msg by {
                    assert(line@.subrange(27, line@.len() - 2) =~= json_escaped(message@));
                    assert(line@.subrange(27, line@.len() - 2) =~= json_escaped(msg));
                    lemma_json_escaped_injective(message@, msg);
                }
                assert forall|p: Seq<char>|
                    line@ != "{\"type\":\"preset_loaded\",\"path\":"@ + #[trigger] spec_quoted(p)
                        + "}"@ by {
                    if line@ == "{\"type\":\"preset_loaded\",\"path\":"@ + spec_quoted(p)
                        + "}"@ {
                        assert(line@[9] == 'p');
                        assert(line@[9] == 'e');
                    }
                }
            }
            return Some(RendererEvent::Error { message });
        },
        None => {},
    }
    match parse_quoted_tail(line, "{\"type\":\"preset_loaded\",\"path\":\"") {
        Some(path) => {
            proof {
                assert(line@ =~= "{\"type\":\"preset_loaded\",\"path\":"@ + spec_quoted(path@)
                    + "}"@);
                assert(line@.len() == 31 + spec_quoted(path@).len() + 1);
                assert(spec_quoted(path@).len() >= 2);
                assert forall|p: Seq<char>|
                    line@ == "{\"type\":\"preset_loaded\",\"path\":"@ + #[trigger] spec_quoted(p)
                        + "}"@ implies path@ == p by {
                    assert(line@.subrange(32, line@.len() - 2) =~= json_escaped(path@));
                    assert(line@.subrange(32, line@.len() - 2) =~= json_escaped(p));
                    lemma_json_escaped_injective(path@, p);
                }
                assert forall|msg: Seq<char>|
                    line@ != "{\"type\":\"error\",\"message\":"@ + #[trigger] spec_quoted(msg)
                        + "}"@ by {
                    if line@ == "{\"type\":\"error\",\"message\":"@ + spec_quoted(msg) + "}"@ {
                        assert(line@[9] == 'e');
                        assert(line@[9] == 'p');
                    }
                }
            }
            return Some(RendererEvent::PresetLoaded { path });
        },
        None => {},
    }
    proof {
        assert forall|msg: Seq<char>|
            line@ != "{\"type\":\"error\",\"message\":"@ + #[trigger] spec_quoted(msg) + "}"@ by {
            if line@ == "{\"type\":\"error\",\"message\":"@ + spec_quoted(msg) + "}"@ {
                assert(line@ =~= "{\"type\":\"error\",\"message\":\""@ + json_escaped(msg)
                    + "\"}"@);
                assert(quoted_tail_form(line@, "{\"type\":\"error\",\"message\":\""@, msg));
            }
        }
        assert forall|p: Seq<char>|
            line@ != "{\"type\":\"preset_loaded\",\"path\":"@ + #[trigger] spec_quoted(p) + "}"@
            by {
            if line@ == "{\"type\":\"preset_loaded\",\"path\":"@ + spec_quoted(p) + "}"@ {
                assert(line@ =~= "{\"type\":\"preset_loaded\",\"path\":\""@ + json_escaped(p)
                    + "\"}"@);
                assert(quoted_tail_form(line@, "{\"type\":\"preset_loaded\",\"path\":\""@, p));
            }
        }
    }
    None
}

/// A line of one of the two fixed event forms is never of a quoted
/// form: it is too short.
proof fn lemma_not_quoted_form(line: Seq<char>, prefix: Seq<char>)
    requires
        line.len() <= 17,
        prefix.len() >= 26,
    ensures
        forall|w: Seq<char>| line != prefix + #[trigger] spec_quoted(w) + "}"@,
{
    reveal_strlit("}");
    assert forall|w: Seq<char>| line != prefix + #[trigger] spec_quoted(w) + "}"@ by {
        if line == prefix + spec_quoted(w) + "}"@ {
            assert(spec_quoted(w).len() >= 2);
            assert(line.len() >= prefix.len() + 3);
        }
    }
}

} // verus!
