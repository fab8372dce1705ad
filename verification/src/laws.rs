//! What holds of every mixer state, proved from the definitions of the
//! state's transitions and of the mix.

use vstd::prelude::*;
use crate::channel::{valid_pan, Channel, ChannelParam};
use crate::engine::{EngineState, EngineView, StreamAction};
use crate::error::AudioError;
use crate::frame::{finish, Frame, Side, SAMPLE_MAX, SAMPLE_MIN, UNITY};
use crate::mix::{mixed, pan_weight, solo_active, source_frame, term, total};
use crate::mixer::{lemma_index_of, MixerState, ID_LIMIT};
use crate::session::{negotiated, HostProbe};

verus! {

/// A parameter that was set to a valid value reads back as exactly that
/// value, and the channel's other parameters read back as before.
pub proof fn law_set_then_read(state: MixerState, id: u32, param: ChannelParam)
    requires
        state.wf(),
        state.contains(id),
        param.valid(),
    ensures
        state.with_param(id, param).wf(),
        state.with_param(id, param).lookup(id) == Some(
            state.lookup(id).unwrap().with_param(param),
        ),
        param matches ChannelParam::Volume(volume) ==> state.with_param(id, param).lookup(
            id,
        ).unwrap().volume == volume,
        param matches ChannelParam::Pan(pan) ==> state.with_param(id, param).lookup(
            id,
        ).unwrap().pan == pan,
{
    let i = state.index_of(id);
    let after = state.with_param(id, param);
    assert(0 <= i < state.channels.len() && state.channels[i].id == id);
    assert(after.channels[i].id == id);
    assert forall|j: int| 0 <= j < after.channels.len() implies (#[trigger] after.channels[j]).wf()
        && after.channels[j].id == state.channels[j].id by {
        assert(state.channels[j].wf());
    }
    assert forall|j: int, k: int| 0 <= j < k < after.channels.len() implies (
    #[trigger] after.channels[j]).id < (#[trigger] after.channels[k]).id by {
        assert(state.channels[j].id < state.channels[k].id);
    }
    assert forall|j: int| 0 <= j < after.channels.len() implies (#[trigger] after.channels[j]).id
        < after.next_id by {
        assert(state.channels[j].id < state.next_id);
    }
    lemma_index_of(after, i);
}

/// Changing a parameter of one channel leaves every other channel as it
/// was.
pub proof fn law_set_leaves_others(state: MixerState, id: u32, other: u32, param: ChannelParam)
    requires
        state.wf(),
        other != id,
    ensures
        state.with_param(id, param).lookup(other) == state.lookup(other),
{
    let after = state.with_param(id, param);
    if state.contains(id) {
        let i = state.index_of(id);
        assert(0 <= i < state.channels.len() && state.channels[i].id == id);
        assert forall|j: int| 0 <= j < after.channels.len() implies (
        #[trigger] after.channels[j]).id == state.channels[j].id by {}
        if state.contains(other) {
            let k = state.index_of(other);
            assert(0 <= k < state.channels.len() && state.channels[k].id == other);
            assert(after.channels[k].id == other);
            let m = after.index_of(other);
            assert(state.channels[m].id == other);
            lemma_index_of(state, m);
            assert(m == k);
        } else {
            if after.contains(other) {
                let m = after.index_of(other);
                assert(state.channels[m].id == other);
            }
        }
    }
}

/// The pan law is continuous: a weight lies between nothing and `UNITY`,
/// both weights are `UNITY` at the centre, and one step of the pan position
/// moves a weight by one step at most.
pub proof fn law_pan_is_continuous(pan: i32, side: Side)
    requires
        valid_pan(pan),
    ensures
        0 <= pan_weight(pan as int, side) <= UNITY,
        pan_weight(0, side) == UNITY,
        pan < UNITY ==> -1 <= pan_weight(pan + 1, side) - pan_weight(pan as int, side) <= 1,
        pan_weight(pan as int, Side::Left) == pan_weight(-pan, Side::Right),
{
}

/// While any channel is soloed, the mix depends on the soloed channels
/// alone: two sets of channels that agree on which positions are soloed and
/// on the channels at those positions give the same output, whatever the
/// other channels' parameters, mute flags and input frames are.
pub proof fn law_solo_excludes_others(
    a: Seq<Channel>,
    b: Seq<Channel>,
    sources_a: Map<u32, Frame>,
    sources_b: Map<u32, Frame>,
    master: int,
    side: Side,
)
    requires
        a.len() == b.len(),
        solo_active(a),
        forall|i: int| 0 <= i < a.len() ==> (#[trigger] a[i]).solo == b[i].solo,
        forall|i: int|
            0 <= i < a.len() && (#[trigger] a[i]).solo ==> a[i] == b[i] && source_frame(
                sources_a,
                a[i].id,
            ) == source_frame(sources_b, b[i].id),
    ensures
        mixed(a, master, sources_a, side) == mixed(b, master, sources_b, side),
{
    let k = choose|i: int| 0 <= i < a.len() && (#[trigger] a[i]).solo;
    assert(b[k].solo);
    lemma_soloed_totals_agree(a, b, sources_a, sources_b, side);
}

proof fn lemma_soloed_totals_agree(
    a: Seq<Channel>,
    b: Seq<Channel>,
    sources_a: Map<u32, Frame>,
    sources_b: Map<u32, Frame>,
    side: Side,
)
    requires
        a.len() == b.len(),
        forall|i: int| 0 <= i < a.len() ==> (#[trigger] a[i]).solo == b[i].solo,
        forall|i: int|
            0 <= i < a.len() && (#[trigger] a[i]).solo ==> a[i] == b[i] && source_frame(
                sources_a,
                a[i].id,
            ) == source_frame(sources_b, b[i].id),
    ensures
        total(a, true, sources_a, side) == total(b, true, sources_b, side),
    decreases a.len(),
{
    if a.len() > 0 {
        let n = a.len() - 1;
        assert(a[n].solo == b[n].solo);
        assert forall|i: int| 0 <= i < a.drop_last().len() implies (#[trigger] a.drop_last()[i]).solo
            == b.drop_last()[i].solo by {
            assert(a[i].solo == b[i].solo);
        }
        assert forall|i: int| 0 <= i < a.drop_last().len() && (#[trigger] a.drop_last()[i]).solo
            implies a.drop_last()[i] == b.drop_last()[i] && source_frame(
            sources_a,
            a.drop_last()[i].id,
        ) == source_frame(sources_b, b.drop_last()[i].id) by {
            assert(a[i].solo);
        }
        lemma_soloed_totals_agree(a.drop_last(), b.drop_last(), sources_a, sources_b, side);
    }
}

/// With exactly one channel soloed, the output is that channel's term
/// alone, scaled by the master volume and clipped.
pub proof fn law_single_solo(
    channels: Seq<Channel>,
    k: int,
    sources: Map<u32, Frame>,
    master: int,
    side: Side,
)
    requires
        0 <= k < channels.len(),
        forall|i: int| 0 <= i < channels.len() ==> ((#[trigger] channels[i]).solo <==> i == k),
    ensures
        mixed(channels, master, sources, side) == finish(
            term(channels[k], true, source_frame(sources, channels[k].id), side),
            master,
        ),
{
    assert(channels[k].solo);
    lemma_single_solo_total(channels, k, sources, side, channels.len() as int);
    assert(channels.take(channels.len() as int) =~= channels);
}

proof fn lemma_single_solo_total(
    channels: Seq<Channel>,
    k: int,
    sources: Map<u32, Frame>,
    side: Side,
    n: int,
)
    requires
        0 <= k < channels.len(),
        0 <= n <= channels.len(),
        forall|i: int| 0 <= i < channels.len() ==> ((#[trigger] channels[i]).solo <==> i == k),
    ensures
        total(channels.take(n), true, sources, side) == if k < n {
            term(channels[k], true, source_frame(sources, channels[k].id), side)
        } else {
            0
        },
    decreases n,
{
    if n > 0 {
        lemma_single_solo_total(channels, k, sources, side, n - 1);
        assert(channels.take(n).drop_last() =~= channels.take(n - 1));
        assert(channels[n - 1].solo <==> n - 1 == k);
    }
}

/// Taking a channel out of solo again gives back the state from before it
/// was soloed, and with it the mix in which each channel's own mute flag
/// decides.
pub proof fn law_unsolo_restores(state: MixerState, id: u32)
    requires
        state.wf(),
        state.contains(id),
        !state.lookup(id).unwrap().solo,
    ensures
        state.with_param(id, ChannelParam::Solo(true)).with_param(id, ChannelParam::Solo(false))
            == state,
{
    let i = state.index_of(id);
    let soloed = state.with_param(id, ChannelParam::Solo(true));
    law_set_then_read(state, id, ChannelParam::Solo(true));
    assert(0 <= i < state.channels.len() && state.channels[i].id == id);
    assert(soloed.channels[i].id == id);
    lemma_index_of(soloed, i);
    let back = soloed.with_param(id, ChannelParam::Solo(false));
    assert(back.channels =~= state.channels);
}

/// With every channel muted the output is silent, whatever the master
/// volume, the solo flags and the input frames are.
pub proof fn law_all_muted_is_silent(
    channels: Seq<Channel>,
    master: int,
    sources: Map<u32, Frame>,
    side: Side,
)
    requires
        forall|i: int| 0 <= i < channels.len() ==> (#[trigger] channels[i]).muted,
    ensures
        mixed(channels, master, sources, side) == 0,
{
    lemma_muted_total(channels, solo_active(channels), sources, side);
}

proof fn lemma_muted_total(
    channels: Seq<Channel>,
    solo: bool,
    sources: Map<u32, Frame>,
    side: Side,
)
    requires
        forall|i: int| 0 <= i < channels.len() ==> (#[trigger] channels[i]).muted,
    ensures
        total(channels, solo, sources, side) == 0,
    decreases channels.len(),
{
    if channels.len() > 0 {
        assert(channels[channels.len() - 1].muted);
        assert forall|i: int| 0 <= i < channels.drop_last().len() implies (
        #[trigger] channels.drop_last()[i]).muted by {
            assert(channels[i].muted);
        }
        lemma_muted_total(channels.drop_last(), solo, sources, side);
    }
}

/// Every output sample lies in the sample range, for any number of
/// channels, any gains and any input frames.
pub proof fn law_output_in_range(
    channels: Seq<Channel>,
    master: int,
    sources: Map<u32, Frame>,
    side: Side,
)
    ensures
        SAMPLE_MIN <= mixed(channels, master, sources, side) <= SAMPLE_MAX,
{
}

/// Removing a channel retires its id: no channel carries it afterwards, so
/// removing it once more finds nothing.
pub proof fn law_remove_retires(state: MixerState, id: u32)
    requires
        state.wf(),
        state.contains(id),
    ensures
        state.without(id).wf(),
        !state.without(id).contains(id),
        state.without(id).retired(id),
        state.without(id).without(id) == state.without(id),
{
    let i = state.index_of(id);
    let after = state.without(id);
    assert(0 <= i < state.channels.len() && state.channels[i].id == id);
    assert(state.channels[i].id < state.next_id);
    assert forall|j: int| 0 <= j < after.channels.len() implies #[trigger] after.channels[j]
        == state.channels[if j < i {
        j
    } else {
        j + 1
    }] by {}
    assert forall|j: int| 0 <= j < after.channels.len() implies (#[trigger] after.channels[j]).wf()
        && after.channels[j].id < after.next_id && after.channels[j].id != id by {
        let k = if j < i {
            j
        } else {
            j + 1
        };
        assert(state.channels[k].wf());
        assert(state.channels[k].id < state.next_id);
        if k < i {
            assert(state.channels[k].id < state.channels[i].id);
        } else {
            assert(state.channels[i].id < state.channels[k].id);
        }
    }
    assert forall|j: int, k: int| 0 <= j < k < after.channels.len() implies (
    #[trigger] after.channels[j]).id < (#[trigger] after.channels[k]).id by {
        let j0 = if j < i {
            j
        } else {
            j + 1
        };
        let k0 = if k < i {
            k
        } else {
            k + 1
        };
        assert(state.channels[j0].id < state.channels[k0].id);
    }
}

/// A retired id stays retired through every change of the mixer, and a new
/// channel never receives it.
pub proof fn law_retired_stays_retired(
    state: MixerState,
    id: u32,
    other: u32,
    param: ChannelParam,
    volume: i32,
)
    requires
        state.wf(),
        state.retired(id),
    ensures
        state.next_id < ID_LIMIT ==> state.with_new_channel().retired(id)
            && state.with_new_channel().channels.last().id != id,
        state.without(other).retired(id),
        state.with_param(other, param).retired(id),
        state.with_master(volume).retired(id),
{
    let added = state.with_new_channel();
    if state.next_id < ID_LIMIT && added.contains(id) {
        let j = added.index_of(id);
        assert(0 <= j < added.channels.len() && added.channels[j].id == id);
        if j < state.channels.len() {
            assert(state.channels[j].id == id);
        }
    }
    let removed = state.without(other);
    if state.contains(other) && removed.contains(id) {
        let i = state.index_of(other);
        let j = removed.index_of(id);
        assert(0 <= i < state.channels.len());
        assert(0 <= j < removed.channels.len() && removed.channels[j].id == id);
        assert(state.channels[if j < i {
            j
        } else {
            j + 1
        }].id == id);
    }
    let changed = state.with_param(other, param);
    if state.contains(other) && changed.contains(id) {
        let j = changed.index_of(id);
        assert(0 <= j < changed.channels.len() && changed.channels[j].id == id);
        assert(state.channels[j].id == id);
    }
}

/// Every transition of the engine keeps its view valid: a session is bound
/// exactly when the engine has left `Uninitialized`, so a stream is live
/// only on a negotiated configuration.
pub proof fn law_engine_stays_valid(view: EngineView, probe: HostProbe)
    requires
        view.wf(),
    ensures
        view.after_initialize(probe).wf(),
        view.after_play().wf(),
        view.after_stop().wf(),
        view.after_failure().wf(),
        view.state == EngineState::Playing ==> view.session is Some,
{
}

/// Without a session `play` is refused and changes nothing.
pub proof fn law_play_needs_session(view: EngineView)
    requires
        view.wf(),
        view.session is None,
    ensures
        view.play_result() == Err::<StreamAction, AudioError>(AudioError::NotInitialized),
        view.after_play() == view,
{
}

/// Once `initialize` has succeeded, `play` succeeds: it asks for a stream
/// and the engine plays on the session just negotiated.
pub proof fn law_initialize_then_play(view: EngineView, probe: HostProbe)
    requires
        view.wf(),
        view.initialize_result(probe) is Ok,
    ensures
        view.after_initialize(probe).state == EngineState::Idle,
        view.after_initialize(probe).play_result() == Ok::<StreamAction, AudioError>(
            StreamAction::Start,
        ),
        view.after_initialize(probe).after_play().state == EngineState::Playing,
        view.after_initialize(probe).after_play().session == Some(negotiated(probe)->Ok_0),
{
}

/// After `stop`, `play` resumes on the session that was bound before:
/// nothing has to be negotiated again.
pub proof fn law_stop_then_play(view: EngineView)
    requires
        view.wf(),
        view.state == EngineState::Playing,
    ensures
        view.after_stop().state == EngineState::Stopped,
        view.after_stop().play_result() == Ok::<StreamAction, AudioError>(StreamAction::Start),
        view.after_stop().after_play() == view,
{
}

/// A stream failure stops the engine and is reported by the next `poll`;
/// playback can then resume on the same session.
pub proof fn law_failure_stops(view: EngineView)
    requires
        view.wf(),
        view.state == EngineState::Playing,
    ensures
        view.after_failure().state == EngineState::Stopped,
        view.after_failure().failure_pending,
        view.after_failure().session == view.session,
        view.after_failure().play_result() == Ok::<StreamAction, AudioError>(StreamAction::Start),
{
}

/// While the engine is not playing, its output is silent; while it plays,
/// its output is the mixer's and lies in the sample range.
pub proof fn law_engine_output(view: EngineView, sources: Map<u32, Frame>, side: Side)
    ensures
        view.state != EngineState::Playing ==> view.output(sources, side) == 0,
        view.state == EngineState::Playing ==> view.output(sources, side) == view.mixer.mix(
            sources,
            side,
        ),
        SAMPLE_MIN <= view.output(sources, side) <= SAMPLE_MAX,
{
}

} // verus!
