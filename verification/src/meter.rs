//! How a peak meter's cells split into zones.
use vstd::prelude::*;

verus! {

/// Sizes (in cells) of each zone of a peak meter, from the center mark
/// outward: `active` and `overload` are lit (the peak has reached them);
/// `inactive` and `inactive_overload` are not, and `inactive_overload` is
/// the unlit part past the 0dB boundary - a standing preview of where the
/// overload zone sits on the scale.
#[derive(Debug, Clone, Copy, PartialEq, Eq, Structural)]
pub struct PeakSizes {
    pub active: usize,
    pub overload: usize,
    pub inactive: usize,
    pub inactive_overload: usize,
}

/// The zones of a meter `total` cells wide whose first `lit` cells are
/// lit, the 0dB boundary lying after `zero` cells.
pub open spec fn peak_sizes_spec(total: usize, lit: usize, zero: usize) -> PeakSizes {
    let active = if lit <= zero {
        lit
    } else {
        zero
    };
    let overload = if lit >= zero {
        (lit - zero) as usize
    } else {
        0
    };
    let unlit = (total - lit) as usize;
    let below_zero = if zero >= lit {
        (zero - lit) as usize
    } else {
        0
    };
    let inactive_overload = if unlit >= below_zero {
        (unlit - below_zero) as usize
    } else {
        0
    };
    PeakSizes { active, overload, inactive: (unlit - inactive_overload) as usize, inactive_overload }
}

/// The zones of a meter `total` cells wide, of which the first `lit` are
/// lit (the scaled peak), with the 0dB boundary after `zero` cells (see
/// `peak_sizes_spec`).
pub fn peak_sizes(total: usize, lit: usize, zero: usize) -> (r: PeakSizes)
    requires
        lit <= total,
    ensures
        r == peak_sizes_spec(total, lit, zero),
{
    let active = if lit <= zero {
        lit
    } else {
        zero
    };
    let overload = lit.saturating_sub(zero);
    let inactive = total.saturating_sub(active).saturating_sub(overload);
    let inactive_overload = inactive.saturating_sub(zero.saturating_sub(lit));
    let inactive = inactive - inactive_overload;
    PeakSizes { active, overload, inactive, inactive_overload }
}

/// The four zones always fill the meter exactly, and the two unlit zones
/// split what is not lit between them.
pub proof fn lemma_zones_partition(total: usize, lit: usize, zero: usize)
    requires
        lit <= total,
    ensures
        ({
            let s = peak_sizes_spec(total, lit, zero);
            &&& s.active + s.overload + s.inactive + s.inactive_overload == total
            &&& s.active + s.overload == lit
            &&& s.inactive + s.inactive_overload == total - s.active - s.overload
        }),
{
}

/// Lit cells fill the part below the 0dB boundary first: the active zone
/// never passes the boundary, and overload is lit only once the active
/// zone reaches it. Of the unlit cells, those past the boundary (and only
/// those) preview the overload zone.
pub proof fn lemma_zones_meet_at_zero(total: usize, lit: usize, zero: usize)
    requires
        lit <= total,
        zero <= total,
    ensures
        ({
            let s = peak_sizes_spec(total, lit, zero);
            &&& s.active <= zero
            &&& s.overload > 0 ==> s.active == zero
            &&& s.active + s.overload + s.inactive <= total
            &&& lit <= zero ==> s.active + s.inactive == zero
            &&& s.inactive_overload == total - (if lit > zero { lit as int } else { zero as int })
        }),
{
}

/// At silence nothing is lit, and the whole width past the 0dB boundary
/// previews as unlit overload.
pub proof fn lemma_silence_previews_overload(total: usize, zero: usize)
    requires
        zero <= total,
    ensures
        ({
            let s = peak_sizes_spec(total, 0, zero);
            &&& s.active == 0
            &&& s.overload == 0
            &&& s.inactive == zero
            &&& s.inactive_overload == total - zero
        }),
{
}

/// A peak that lights the whole meter leaves nothing unlit to preview.
pub proof fn lemma_full_peak_leaves_nothing_unlit(total: usize, zero: usize)
    ensures
        ({
            let s = peak_sizes_spec(total, total, zero);
            s.inactive == 0 && s.inactive_overload == 0
        }),
{
}

} // verus!
