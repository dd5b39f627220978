use crate::music_theory::time_signature::{beat_length, intensity_of};
use crate::music_theory::{Intensity, TimeSignatureTop};
use crate::reaclick::click::{Click, CLICK_LENGTH};
use crate::reaclick::data::Playhead;
use vstd::arithmetic::div_mod::{lemma_fundamental_div_mod, lemma_mod_pos_bound};
use vstd::prelude::*;

verus! {

/// Ticks from the start of a bar of `top` beats to the start of its beat
/// `index`.
pub open spec fn beat_start(top: int, index: int) -> int {
    index * beat_length(top)
}

/// The click that marks beat `index` in a bar of `top` beats.
pub open spec fn click_of(top: int, index: int) -> Click {
    Click::of(intensity_of(top, index))
}

/// Whether beat `index` of a bar of `top` beats sounds `offset` ticks into
/// the bar: the offset lies in the closed window from the beat's start to
/// the end of its click.
pub open spec fn sounds(offset: int, top: int, index: int) -> bool {
    &&& 0 <= index < top
    &&& beat_start(top, index) <= offset
    &&& offset <= beat_start(top, index) + click_of(top, index).length
}

/// Whether `index` is the beat that is rendered `offset` ticks into the bar:
/// the first one that sounds there.
pub open spec fn is_sounding_beat(offset: int, top: int, index: int) -> bool {
    &&& sounds(offset, top, index)
    &&& forall|earlier: int| 0 <= earlier < index ==> !sounds(offset, top, earlier)
}

/// Whether the bar is silent `offset` ticks in.
pub open spec fn is_silent(offset: int, top: int) -> bool {
    forall|index: int| 0 <= index < top ==> !sounds(offset, top, index)
}

/// What the scan for the sounding beat finds.
pub open spec fn scan_result(offset: int, top: int, found: Option<i32>) -> bool {
    match found {
        Some(index) => is_sounding_beat(offset, top, index as int),
        None => is_silent(offset, top),
    }
}

/// No two beats of a bar sound at once: each click has ended before the next
/// beat starts.
pub proof fn lemma_one_beat_sounds(offset: int, top: int, first: int, second: int)
    requires
        sounds(offset, top, first),
        sounds(offset, top, second),
    ensures
        first == second,
{
    let step = beat_length(top);
    if first < second {
        assert(second * step >= first * step + step) by (nonlinear_arith)
            requires
                first < second,
                step > 0,
        ;
    } else if second < first {
        assert(first * step >= second * step + step) by (nonlinear_arith)
            requires
                second < first,
                step > 0,
        ;
    }
}

/// Beat `index` of a bar is the one that is rendered exactly while the
/// offset into the bar lies from the beat's start to the end of its click,
/// both ends included.
pub proof fn lemma_beat_sounds_in_its_window(offset: int, top: int, index: int)
    requires
        0 <= index < top,
    ensures
        is_sounding_beat(offset, top, index) <==> index * beat_length(top) <= offset <= index
            * beat_length(top) + CLICK_LENGTH,
{
    if sounds(offset, top, index) {
        assert forall|earlier: int| 0 <= earlier < index implies !sounds(offset, top, earlier) by {
            if sounds(offset, top, earlier) {
                lemma_one_beat_sounds(offset, top, earlier, index);
            }
        }
    }
}

/// The first beat of the bar sounds from the bar line on, for the length of
/// the accent's click.
pub proof fn lemma_bar_line_sounds_first_beat(offset: int, top: int)
    requires
        top >= 1,
        0 <= offset <= CLICK_LENGTH,
    ensures
        is_sounding_beat(offset, top, 0),
{
    assert(beat_start(top, 0) == 0) by (nonlinear_arith)
        requires
            beat_start(top, 0) == 0 * beat_length(top),
    ;
}

/// The click that marks beat `index`: the accent on the first beat, the
/// subaccent on the other accented beats, the normal click elsewhere.
pub fn get_click(time_signature_top: TimeSignatureTop, index: i32) -> (click: Click)
    ensures
        click == click_of(time_signature_top@, index as int),
        index == 0 ==> click == Click::of(Intensity::Accent),
{
    Click::for_intensity(time_signature_top.intensity(index))
}

/// A beat other than the one whose span holds the offset does not sound:
/// an earlier one has ended, a later one has not begun.
proof fn lemma_other_beats_are_silent(offset: int, top: int, beat: int, other: int)
    requires
        beat * beat_length(top) <= offset < (beat + 1) * beat_length(top),
        other != beat,
    ensures
        !sounds(offset, top, other),
{
    let step = beat_length(top);
    if other < beat {
        assert(other * step + step <= beat * step) by (nonlinear_arith)
            requires
                other < beat,
                step > 0,
        ;
    } else {
        assert(other * step >= (beat + 1) * step) by (nonlinear_arith)
            requires
                other > beat,
                step > 0,
        ;
    }
}

/// The bar is silent exactly where the offset lies before the bar line,
/// past the last beat's span, or past the end of the click in the span of
/// the beat that holds it.
pub proof fn lemma_silence(offset: int, top: int)
    ensures
        is_silent(offset, top) <==> !(0 <= offset && offset / beat_length(top) < top && offset
            % beat_length(top) <= CLICK_LENGTH),
{
    let step = beat_length(top);
    if offset < 0 {
        assert forall|index: int| 0 <= index < top implies !sounds(offset, top, index) by {
            assert(index * step >= 0) by (nonlinear_arith)
                requires
                    index >= 0,
                    step > 0,
            ;
        }
    } else {
        let beat = offset / step;
        lemma_fundamental_div_mod(offset, step);
        lemma_mod_pos_bound(offset, step);
        assert(beat * step <= offset < (beat + 1) * step && beat * step == offset - offset % step)
            by (nonlinear_arith)
            requires
                offset == step * beat + (offset % step),
                0 <= offset % step < step,
        ;
        assert(0 <= beat) by (nonlinear_arith)
            requires
                offset < (beat + 1) * step,
                0 <= offset,
                step > 0,
        ;
        assert forall|other: int| other != beat implies !sounds(offset, top, other) by {
            lemma_other_beats_are_silent(offset, top, beat, other);
        }
        if beat < top && offset % step <= CLICK_LENGTH {
            assert(sounds(offset, top, beat));
        }
    }
}

/// Finds the beat that sounds at the playhead, if one does: the first beat
/// of the bar whose click window holds the playhead's offset into the bar.
///
/// No two windows overlap, so the beat is found without a scan of the bar:
/// it can only be the one in whose span, from its start to the next
/// beat's, the offset lies.
pub fn sounding_beat(playhead: &Playhead) -> (found: Option<i32>)
    ensures
        scan_result(playhead.offset(), playhead.time_signature.top@, found),
{
    let top = playhead.time_signature.top.as_number();
    let step = playhead.time_signature.beat_length() as i128;
    let offset = playhead.pos_in_bar();
    if offset < 0 {
        assert forall|index: int| 0 <= index < top implies !sounds(
            offset as int,
            top as int,
            index,
        ) by {
            assert(index * step >= 0) by (nonlinear_arith)
                requires
                    index >= 0,
                    step > 0,
            ;
        }
        return None;
    }
    let beat = offset / step;
    proof {
        lemma_fundamental_div_mod(offset as int, step as int);
        lemma_mod_pos_bound(offset as int, step as int);
        assert(beat * step <= offset < (beat + 1) * step) by (nonlinear_arith)
            requires
                offset == step * beat + (offset % step),
                0 <= offset % step < step,
        ;
        assert(0 <= beat) by (nonlinear_arith)
            requires
                offset < (beat + 1) * step,
                0 <= offset,
                step > 0,
        ;
        assert forall|other: int| other != beat implies !sounds(
            offset as int,
            top as int,
            other,
        ) by {
            lemma_other_beats_are_silent(offset as int, top as int, beat as int, other);
        }
    }
    if beat >= top as i128 {
        return None;
    }
    let index = beat as i32;
    let click = get_click(playhead.time_signature.top, index);
    if offset - beat * step <= click.length as i128 {
        Some(index)
    } else {
        None
    }
}

} // verus!
