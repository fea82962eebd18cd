//! Per-deck part of the audio pump cycle.
//!
//! On every tick the pump visits each deck in ascending ID order.  A deck
//! without a live, running renderer is skipped entirely.  A running deck
//! first advances its playlist when auto-cycle is due, then receives each
//! chunk of the tick's audio batch, scaled by the deck volume and the
//! crossfader multiplier — the multiply is skipped entirely when the
//! effective volume is exactly `UNIT`.  The commands to write to the
//! renderer come back as a plan; the caller performs the writes and
//! counts the ones that succeed.

use vstd::prelude::*;

use crate::deck::DeckState;
use crate::jsonfmt::spec_quoted;
use crate::playlist::Playlist;
use crate::protocol::RendererCommand;
use crate::protocol::encode_command;
use crate::protocol::samples_body;
use crate::supervisor::PollResult;
use crate::supervisor::RendererProcess;
use crate::supervisor::spec_poll;
use crate::units::UNIT;
use crate::units::scale_sample;
use crate::units::spec_scale;

verus! {

/// The commands one deck gets on one pump tick: at most one preset load,
/// then one audio command per chunk of the batch.
#[derive(Debug)]
pub struct DeckPlan {
    /// A `load_preset` line when auto-cycle advanced the playlist.
    pub load: Option<String>,
    /// One `audio` line per chunk, in batch order.
    pub audio: Vec<String>,
}

/// The supervision record after applying the tick's poll.
pub open spec fn spec_polled(
    r: Option<RendererProcess>,
    poll: PollResult,
    now_millis: u64,
) -> Option<RendererProcess> {
    match r {
        Some(p) => Some(spec_poll(p, poll, now_millis)),
        None => None,
    }
}

/// Whether the deck has a live renderer after the tick's poll.
pub open spec fn deck_alive(d: DeckState, poll: PollResult, now_millis: u64) -> bool {
    match d.renderer {
        Some(p) => spec_poll(p, poll, now_millis).running,
        None => false,
    }
}

/// Whether an automatic playlist advance is due at `now_millis`.
pub open spec fn cycle_due(d: DeckState, now_millis: u64) -> bool {
    &&& d.playlist.auto_cycle
    &&& d.playlist.items@.len() > 0
    &&& match d.last_cycle_millis {
        Some(t) => now_millis >= t + d.playlist.cycle_duration_secs * 1000,
        None => true,
    }
}

/// Playlist index selected by an automatic advance with entropy
/// `now_millis`.
pub open spec fn advance_index(p: Playlist, entropy: u64) -> int
    recommends
        p.items@.len() > 0,
{
    if p.shuffle {
        entropy as int % (p.items@.len() as int)
    } else {
        (p.current_index + 1) % (p.items@.len() as int)
    }
}

/// Effective fixed-point volume: deck volume times crossfader multiplier.
pub open spec fn eff_vol(deck_volume: u32, xvol: nat) -> nat {
    ((deck_volume * xvol) as nat) / (UNIT as nat)
}

/// One chunk scaled by the fixed-point factor `v`.
pub open spec fn scaled_seq(c: Seq<i32>, v: nat) -> Seq<i32> {
    c.map_values(|x: i32| spec_scale(x as int, v) as i32)
}

/// The audio command line for one scaled chunk.
pub open spec fn audio_line(c: Seq<i32>, v: nat) -> Seq<char> {
    "{\"type\":\"audio\",\"samples\":["@ + samples_body(scaled_seq(c, v)) + "]}"@
}

/// Everything one pump tick does to one deck, and the plan it yields.
pub open spec fn deck_step_ok(
    pre: DeckState,
    post: DeckState,
    p: DeckPlan,
    poll: PollResult,
    now_millis: u64,
    batch: Seq<Seq<i32>>,
    xvol: nat,
) -> bool {
    let alive = deck_alive(pre, poll, now_millis);
    let due = cycle_due(pre, now_millis);
    let ni = advance_index(pre.playlist, now_millis);
    &&& post.wf()
    &&& post.id == pre.id
    &&& post.volume == pre.volume
    &&& post.beat_sensitivity == pre.beat_sensitivity
    &&& post.active == pre.active
    &&& post.renderer == spec_polled(pre.renderer, poll, now_millis)
    &&& (!alive ==> post.playlist == pre.playlist && post.preset_path == pre.preset_path
        && post.last_cycle_millis == pre.last_cycle_millis && p.load is None && p.audio@.len()
        == 0)
    &&& (alive && !due ==> post.playlist == pre.playlist && post.preset_path == pre.preset_path
        && post.last_cycle_millis == pre.last_cycle_millis && p.load is None)
    &&& (alive && due ==> {
        &&& post.playlist.current_index == ni
        &&& post.playlist.items == pre.playlist.items
        &&& post.playlist.name == pre.playlist.name
        &&& post.playlist.shuffle == pre.playlist.shuffle
        &&& post.playlist.auto_cycle == pre.playlist.auto_cycle
        &&& post.playlist.cycle_duration_secs == pre.playlist.cycle_duration_secs
        &&& post.last_cycle_millis == Some(now_millis)
        &&& (post.preset_path matches Some(pp) && pp@ == pre.playlist.items@[ni].path@)
        &&& (p.load matches Some(line) && line@ == "{\"type\":\"load_preset\",\"path\":"@
            + spec_quoted(pre.playlist.items@[ni].path@) + "}"@)
    })
    &&& (alive && batch.len() > 0 ==> p.audio@.len() == batch.len() && (forall|j: int|
        0 <= j < batch.len() ==> #[trigger] p.audio@[j]@ == audio_line(
            batch[j],
            eff_vol(pre.volume, xvol),
        )))
    &&& (!(alive && batch.len() > 0) ==> p.audio@.len() == 0)
}

/// Run one pump tick for one deck: poll the renderer, advance the
/// playlist when due, and build the audio commands for the batch.
pub fn deck_pump_step(
    d: &mut DeckState,
    poll: PollResult,
    now_millis: u64,
    batch: &Vec<Vec<i32>>,
    xvol: u32,
) -> (p: DeckPlan)
    requires
        old(d).wf(),
        xvol <= UNIT,
    ensures
        deck_step_ok(*old(d), *final(d), p, poll, now_millis, batch.deep_view(), xvol as nat),
{
    let ghost bview = batch.deep_view();
    proof {
        assert(bview.len() == batch@.len());
        assert(forall|k: int| 0 <= k < batch@.len() ==> bview[k] == batch@[k]@);
    }
    let alive = match &mut d.renderer {
        Some(r) => r.poll(poll, now_millis),
        None => false,
    };
    let mut load: Option<String> = None;
    if alive && d.playlist.auto_cycle && d.playlist.items.len() > 0 {
        let due = match d.last_cycle_millis {
            Some(t) => {
                let dur_ms: u64 = (d.playlist.cycle_duration_secs as u64) * 1000;
                now_millis >= t && now_millis - t >= dur_ms
            },
            None => true,
        };
        if due {
            d.last_cycle_millis = Some(now_millis);
            let item = d.playlist.advance(now_millis);
            match item {
                Some(it) => {
                    let path = it.path;
                    d.preset_path = Some(path.clone());
                    load = Some(encode_command(&RendererCommand::LoadPreset { path }));
                },
                None => {},
            }
        }
    }
    let mut audio: Vec<String> = Vec::new();
    if alive && batch.len() > 0 {
        let dv: u32 = d.volume;
        proof {
            assert(dv * xvol <= 10000u32 * 10000u32) by (nonlinear_arith)
                requires
                    dv <= 10000u32,
                    xvol <= 10000u32,
            {}
        }
        let ev: u32 = (dv * xvol) / UNIT;
        proof {
            assert(ev <= UNIT) by (nonlinear_arith)
                requires
                    ev == (dv * xvol) / 10000,
                    dv <= 10000u32,
                    xvol <= 10000u32,
                    UNIT == 10000,
            {}
        }
        let mut j: usize = 0;
        while j < batch.len()
            invariant
                bview == batch.deep_view(),
                bview.len() == batch@.len(),
                forall|k: int| 0 <= k < batch@.len() ==> bview[k] == batch@[k]@,
                j <= batch@.len(),
                ev <= UNIT,
                ev == eff_vol(dv, xvol as nat),
                audio@.len() == j,
                forall|k: int|
                    0 <= k < j ==> #[trigger] audio@[k]@ == audio_line(bview[k], ev as nat),
            decreases batch@.len() - j,
        {
            let chunk = &batch[j];
            let mut scaled: Vec<i32> = Vec::new();
            let mut k: usize = 0;
            while k < chunk.len()
                invariant
                    k <= chunk@.len(),
                    ev <= UNIT,
                    scaled@.len() == k,
                    forall|m: int|
                        0 <= m < k ==> #[trigger] scaled@[m] == spec_scale(
                            chunk@[m] as int,
                            ev as nat,
                        ),
                decreases chunk@.len() - k,
            {
                if ev < UNIT {
                    scaled.push(scale_sample(chunk[k], ev));
                } else {
                    let s = chunk[k];
                    proof {
                        lemma_scale_unit(chunk@[k as int] as int);
                    }
                    scaled.push(s);
                }
                k = k + 1;
            }
            proof {
                assert(scaled@ =~= scaled_seq(bview[j as int], ev as nat));
            }
            let line = encode_command(&RendererCommand::Audio { samples: scaled });
            audio.push(line);
            j = j + 1;
        }
    }
    let p = DeckPlan { load, audio };
    proof {
        assert(deck_step_ok(*old(d), *d, p, poll, now_millis, bview, xvol as nat));
    }
    p
}

/// Scaling by exactly `UNIT` leaves a sample unchanged.
proof fn lemma_scale_unit(s: int)
    ensures
        spec_scale(s, UNIT as nat) == s,
{
    if s >= 0 {
        assert((s * 10000) / 10000 == s) by (nonlinear_arith) {}
    } else {
        assert(((-s) * 10000) / 10000 == -s) by (nonlinear_arith)
            requires
                s < 0,
        {}
    }
}

} // verus!
