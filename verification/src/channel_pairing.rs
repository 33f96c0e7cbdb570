//! Detects stereo (and other named left/right) pairs among a node's audio
//! channel positions, so multi-channel rendering can group channels that
//! are actually a pair and leave everything else independent.
//!
//! Pairing is based on the channel *name* (per `enum spa_audio_channel` in
//! spa/param/audio/raw.h), not proximity in the position array - PipeWire
//! doesn't guarantee adjacent pairs are ordered adjacently, and channels
//! with no left/right semantics at all (LFE, FC, the generic AUX range)
//! must never be paired with anything, since there's no protocol-level
//! signal that they're related.
use std::collections::HashSet;

use vstd::prelude::*;

verus! {

broadcast use vstd::std_specs::hash::group_hash_axioms;

/// Raw `enum spa_audio_channel` values (spa/param/audio/raw.h).
pub const SPA_AUDIO_CHANNEL_UNKNOWN: u32 = 0;
pub const SPA_AUDIO_CHANNEL_NA: u32 = 1;
pub const SPA_AUDIO_CHANNEL_MONO: u32 = 2;
pub const SPA_AUDIO_CHANNEL_FL: u32 = 3;
pub const SPA_AUDIO_CHANNEL_FR: u32 = 4;
pub const SPA_AUDIO_CHANNEL_FC: u32 = 5;
pub const SPA_AUDIO_CHANNEL_LFE: u32 = 6;
pub const SPA_AUDIO_CHANNEL_SL: u32 = 7;
pub const SPA_AUDIO_CHANNEL_SR: u32 = 8;
pub const SPA_AUDIO_CHANNEL_FLC: u32 = 9;
pub const SPA_AUDIO_CHANNEL_FRC: u32 = 10;
pub const SPA_AUDIO_CHANNEL_RC: u32 = 11;
pub const SPA_AUDIO_CHANNEL_RL: u32 = 12;
pub const SPA_AUDIO_CHANNEL_RR: u32 = 13;
pub const SPA_AUDIO_CHANNEL_TC: u32 = 14;
pub const SPA_AUDIO_CHANNEL_TFL: u32 = 15;
pub const SPA_AUDIO_CHANNEL_TFC: u32 = 16;
pub const SPA_AUDIO_CHANNEL_TFR: u32 = 17;
pub const SPA_AUDIO_CHANNEL_TRL: u32 = 18;
pub const SPA_AUDIO_CHANNEL_TRC: u32 = 19;
pub const SPA_AUDIO_CHANNEL_TRR: u32 = 20;
pub const SPA_AUDIO_CHANNEL_RLC: u32 = 21;
pub const SPA_AUDIO_CHANNEL_RRC: u32 = 22;
pub const SPA_AUDIO_CHANNEL_FLW: u32 = 23;
pub const SPA_AUDIO_CHANNEL_FRW: u32 = 24;
pub const SPA_AUDIO_CHANNEL_LFE2: u32 = 25;
pub const SPA_AUDIO_CHANNEL_FLH: u32 = 26;
pub const SPA_AUDIO_CHANNEL_FCH: u32 = 27;
pub const SPA_AUDIO_CHANNEL_FRH: u32 = 28;
pub const SPA_AUDIO_CHANNEL_TFLC: u32 = 29;
pub const SPA_AUDIO_CHANNEL_TFRC: u32 = 30;
pub const SPA_AUDIO_CHANNEL_TSL: u32 = 31;
pub const SPA_AUDIO_CHANNEL_TSR: u32 = 32;
pub const SPA_AUDIO_CHANNEL_LLFE: u32 = 33;
pub const SPA_AUDIO_CHANNEL_RLFE: u32 = 34;
pub const SPA_AUDIO_CHANNEL_BC: u32 = 35;
pub const SPA_AUDIO_CHANNEL_BLC: u32 = 36;
pub const SPA_AUDIO_CHANNEL_BRC: u32 = 37;
pub const SPA_AUDIO_CHANNEL_START_AUX: u32 = 0x1000;
pub const SPA_AUDIO_CHANNEL_AUX0: u32 = 0x1000;
pub const SPA_AUDIO_CHANNEL_AUX1: u32 = 0x1001;

/// One channel, or a left/right pair of channels, in the order they first
/// appear in the `positions` slice `group_channels()` was given.
#[derive(Debug, Clone, Copy, PartialEq, Eq, Structural)]
pub enum ChannelGroup {
    /// A stereo (or other named left/right) pair: `(left_index,
    /// right_index)` into the `positions` slice.
    Pair(usize, usize),
    /// A single channel with no detected pair, by index into the
    /// `positions` slice.
    Single(usize),
}

/// Known left/right channel name pairs, per `enum spa_audio_channel`, in
/// lookup order. `AUX*`/`UNKNOWN`/`NA`/`MONO` are deliberately absent -
/// nothing in the protocol says any of those are paired with anything, so
/// they always come out as `ChannelGroup::Single`.
pub open spec fn lr_pairs() -> Seq<(u32, u32)> {
    seq![
        (SPA_AUDIO_CHANNEL_FL, SPA_AUDIO_CHANNEL_FR),
        (SPA_AUDIO_CHANNEL_SL, SPA_AUDIO_CHANNEL_SR),
        (SPA_AUDIO_CHANNEL_RL, SPA_AUDIO_CHANNEL_RR),
        (SPA_AUDIO_CHANNEL_FLC, SPA_AUDIO_CHANNEL_FRC),
        (SPA_AUDIO_CHANNEL_TFL, SPA_AUDIO_CHANNEL_TFR),
        (SPA_AUDIO_CHANNEL_TRL, SPA_AUDIO_CHANNEL_TRR),
        (SPA_AUDIO_CHANNEL_RLC, SPA_AUDIO_CHANNEL_RRC),
        (SPA_AUDIO_CHANNEL_FLW, SPA_AUDIO_CHANNEL_FRW),
        (SPA_AUDIO_CHANNEL_FLH, SPA_AUDIO_CHANNEL_FRH),
        (SPA_AUDIO_CHANNEL_TSL, SPA_AUDIO_CHANNEL_TSR),
        (SPA_AUDIO_CHANNEL_LLFE, SPA_AUDIO_CHANNEL_RLFE),
        (SPA_AUDIO_CHANNEL_BLC, SPA_AUDIO_CHANNEL_BRC),
    ]
}

/// The partner of `channel` found by scanning `table` from entry `k`
/// onward: the first entry naming `channel` as its left (`true`) or right
/// (`false`) member gives the other member.
pub open spec fn partner_from(table: Seq<(u32, u32)>, k: nat, channel: u32) -> Option<(u32, bool)>
    decreases table.len() - k,
{
    if k >= table.len() {
        None
    } else if table[k as int].0 == channel {
        Some((table[k as int].1, true))
    } else if table[k as int].1 == channel {
        Some((table[k as int].0, false))
    } else {
        partner_from(table, k + 1, channel)
    }
}

/// The documented left/right counterpart of `channel`, and whether
/// `channel` is the left member of that pair.
pub open spec fn spec_lr_partner(channel: u32) -> Option<(u32, bool)> {
    partner_from(lr_pairs(), 0, channel)
}

/// `channel` is the left member of a known pair whose right member is
/// `right`.
pub open spec fn is_left_right(left: u32, right: u32) -> bool {
    spec_lr_partner(left) == Some((right, true))
}

/// Channels `a` and `b` are the two members of one known pair, in either
/// order.
pub open spec fn are_partners(a: u32, b: u32) -> bool {
    exists|is_left: bool| spec_lr_partner(a) == Some((b, is_left))
}

/// Pairing is symmetric: if `b` is `a`'s documented counterpart, then `a`
/// is `b`'s, with the left/right roles swapped.
pub proof fn lemma_lr_partner_symmetric(a: u32, b: u32, is_left: bool)
    requires
        spec_lr_partner(a) == Some((b, is_left)),
    ensures
        spec_lr_partner(b) == Some((a, !is_left)),
{
    reveal_with_fuel(partner_from, 13);
}

/// The documented left/right pairs of `enum spa_audio_channel`, each with
/// its left member (the channel named for the left side) first: front,
/// side, rear, front-of-center, top-front, top-rear, rear-of-center, wide,
/// high, top-side, the two low-frequency channels and the bottom pair.
pub proof fn lemma_documented_pairs()
    ensures
        spec_lr_partner(SPA_AUDIO_CHANNEL_FL) == Some((SPA_AUDIO_CHANNEL_FR, true)),
        spec_lr_partner(SPA_AUDIO_CHANNEL_FR) == Some((SPA_AUDIO_CHANNEL_FL, false)),
        spec_lr_partner(SPA_AUDIO_CHANNEL_SL) == Some((SPA_AUDIO_CHANNEL_SR, true)),
        spec_lr_partner(SPA_AUDIO_CHANNEL_SR) == Some((SPA_AUDIO_CHANNEL_SL, false)),
        spec_lr_partner(SPA_AUDIO_CHANNEL_RL) == Some((SPA_AUDIO_CHANNEL_RR, true)),
        spec_lr_partner(SPA_AUDIO_CHANNEL_RR) == Some((SPA_AUDIO_CHANNEL_RL, false)),
        spec_lr_partner(SPA_AUDIO_CHANNEL_FLC) == Some((SPA_AUDIO_CHANNEL_FRC, true)),
        spec_lr_partner(SPA_AUDIO_CHANNEL_FRC) == Some((SPA_AUDIO_CHANNEL_FLC, false)),
        spec_lr_partner(SPA_AUDIO_CHANNEL_TFL) == Some((SPA_AUDIO_CHANNEL_TFR, true)),
        spec_lr_partner(SPA_AUDIO_CHANNEL_TFR) == Some((SPA_AUDIO_CHANNEL_TFL, false)),
        spec_lr_partner(SPA_AUDIO_CHANNEL_TRL) == Some((SPA_AUDIO_CHANNEL_TRR, true)),
        spec_lr_partner(SPA_AUDIO_CHANNEL_TRR) == Some((SPA_AUDIO_CHANNEL_TRL, false)),
        spec_lr_partner(SPA_AUDIO_CHANNEL_RLC) == Some((SPA_AUDIO_CHANNEL_RRC, true)),
        spec_lr_partner(SPA_AUDIO_CHANNEL_RRC) == Some((SPA_AUDIO_CHANNEL_RLC, false)),
        spec_lr_partner(SPA_AUDIO_CHANNEL_FLW) == Some((SPA_AUDIO_CHANNEL_FRW, true)),
        spec_lr_partner(SPA_AUDIO_CHANNEL_FRW) == Some((SPA_AUDIO_CHANNEL_FLW, false)),
        spec_lr_partner(SPA_AUDIO_CHANNEL_FLH) == Some((SPA_AUDIO_CHANNEL_FRH, true)),
        spec_lr_partner(SPA_AUDIO_CHANNEL_FRH) == Some((SPA_AUDIO_CHANNEL_FLH, false)),
        spec_lr_partner(SPA_AUDIO_CHANNEL_TSL) == Some((SPA_AUDIO_CHANNEL_TSR, true)),
        spec_lr_partner(SPA_AUDIO_CHANNEL_TSR) == Some((SPA_AUDIO_CHANNEL_TSL, false)),
        spec_lr_partner(SPA_AUDIO_CHANNEL_LLFE) == Some((SPA_AUDIO_CHANNEL_RLFE, true)),
        spec_lr_partner(SPA_AUDIO_CHANNEL_RLFE) == Some((SPA_AUDIO_CHANNEL_LLFE, false)),
        spec_lr_partner(SPA_AUDIO_CHANNEL_BLC) == Some((SPA_AUDIO_CHANNEL_BRC, true)),
        spec_lr_partner(SPA_AUDIO_CHANNEL_BRC) == Some((SPA_AUDIO_CHANNEL_BLC, false)),
{
    reveal_with_fuel(partner_from, 13);
}

/// A channel outside the documented pairs (center, LFE, mono, the
/// auxiliary range and the others with no left/right sense) has no
/// partner.
pub proof fn lemma_unpaired_channels(c: u32)
    requires
        c != SPA_AUDIO_CHANNEL_FL,
        c != SPA_AUDIO_CHANNEL_FR,
        c != SPA_AUDIO_CHANNEL_SL,
        c != SPA_AUDIO_CHANNEL_SR,
        c != SPA_AUDIO_CHANNEL_RL,
        c != SPA_AUDIO_CHANNEL_RR,
        c != SPA_AUDIO_CHANNEL_FLC,
        c != SPA_AUDIO_CHANNEL_FRC,
        c != SPA_AUDIO_CHANNEL_TFL,
        c != SPA_AUDIO_CHANNEL_TFR,
        c != SPA_AUDIO_CHANNEL_TRL,
        c != SPA_AUDIO_CHANNEL_TRR,
        c != SPA_AUDIO_CHANNEL_RLC,
        c != SPA_AUDIO_CHANNEL_RRC,
        c != SPA_AUDIO_CHANNEL_FLW,
        c != SPA_AUDIO_CHANNEL_FRW,
        c != SPA_AUDIO_CHANNEL_FLH,
        c != SPA_AUDIO_CHANNEL_FRH,
        c != SPA_AUDIO_CHANNEL_TSL,
        c != SPA_AUDIO_CHANNEL_TSR,
        c != SPA_AUDIO_CHANNEL_LLFE,
        c != SPA_AUDIO_CHANNEL_RLFE,
        c != SPA_AUDIO_CHANNEL_BLC,
        c != SPA_AUDIO_CHANNEL_BRC,
    ensures
        spec_lr_partner(c) is None,
{
    reveal_with_fuel(partner_from, 13);
}

/// Looks up the documented counterpart of `channel` in the pair table.
fn lr_partner(channel: u32) -> (r: Option<(u32, bool)>)
    ensures
        r == spec_lr_partner(channel),
{
    let table: Vec<(u32, u32)> = vec![
        (SPA_AUDIO_CHANNEL_FL, SPA_AUDIO_CHANNEL_FR),
        (SPA_AUDIO_CHANNEL_SL, SPA_AUDIO_CHANNEL_SR),
        (SPA_AUDIO_CHANNEL_RL, SPA_AUDIO_CHANNEL_RR),
        (SPA_AUDIO_CHANNEL_FLC, SPA_AUDIO_CHANNEL_FRC),
        (SPA_AUDIO_CHANNEL_TFL, SPA_AUDIO_CHANNEL_TFR),
        (SPA_AUDIO_CHANNEL_TRL, SPA_AUDIO_CHANNEL_TRR),
        (SPA_AUDIO_CHANNEL_RLC, SPA_AUDIO_CHANNEL_RRC),
        (SPA_AUDIO_CHANNEL_FLW, SPA_AUDIO_CHANNEL_FRW),
        (SPA_AUDIO_CHANNEL_FLH, SPA_AUDIO_CHANNEL_FRH),
        (SPA_AUDIO_CHANNEL_TSL, SPA_AUDIO_CHANNEL_TSR),
        (SPA_AUDIO_CHANNEL_LLFE, SPA_AUDIO_CHANNEL_RLFE),
        (SPA_AUDIO_CHANNEL_BLC, SPA_AUDIO_CHANNEL_BRC),
    ];
    assert(table@ =~= lr_pairs());
    let mut k: usize = 0;
    while k < table.len()
        invariant
            table@ == lr_pairs(),
            k <= table.len(),
            partner_from(lr_pairs(), 0, channel) == partner_from(lr_pairs(), k as nat, channel),
        decreases table.len() - k,
    {
        let (l, r) = table[k];
        if channel == l {
            return Some((r, true));
        } else if channel == r {
            return Some((l, false));
        }
        k += 1;
    }
    None
}

/// Indices into `positions` that `group` covers.
pub open spec fn members(group: ChannelGroup) -> Set<int> {
    match group {
        ChannelGroup::Pair(l, r) => set![l as int, r as int],
        ChannelGroup::Single(i) => set![i as int],
    }
}

/// The index of the group's channel that appears first in `positions`.
pub open spec fn first_index(group: ChannelGroup) -> int {
    match group {
        ChannelGroup::Pair(l, r) => if l <= r { l as int } else { r as int },
        ChannelGroup::Single(i) => i as int,
    }
}

/// The group's other channel, for a pair; the channel itself, for a
/// single.
pub open spec fn second_index(group: ChannelGroup) -> int {
    match group {
        ChannelGroup::Pair(l, r) => if l <= r { r as int } else { l as int },
        ChannelGroup::Single(i) => i as int,
    }
}

/// A group is well-formed: indices in range, and a pair really is a named
/// left/right pair with the left channel first.
pub open spec fn group_valid(positions: Seq<u32>, group: ChannelGroup) -> bool {
    match group {
        ChannelGroup::Pair(l, r) => {
            &&& l < positions.len()
            &&& r < positions.len()
            &&& l != r
            &&& is_left_right(positions[l as int], positions[r as int])
        },
        ChannelGroup::Single(i) => i < positions.len(),
    }
}

/// Index `i` is claimed by one of the first `k` groups.
pub open spec fn claimed_before(groups: Seq<ChannelGroup>, k: int, i: int) -> bool {
    exists|m: int| 0 <= m < k && #[trigger] members(groups[m]).contains(i)
}

/// Index `j` is a partner still available to the `k`th group's first
/// channel: another channel, the documented counterpart, and not claimed
/// by an earlier group.
pub open spec fn available_partner(positions: Seq<u32>, groups: Seq<ChannelGroup>, k: int, j: int) -> bool {
    let i = first_index(groups[k]);
    &&& 0 <= j < positions.len()
    &&& j != i
    &&& are_partners(positions[i], positions[j])
    &&& !claimed_before(groups, k, j)
}

/// The `k`th group made the greedy choice: a pair takes the earliest
/// still-available counterpart of its first channel, and a single had no
/// available counterpart at all.
pub open spec fn greedy_choice(positions: Seq<u32>, groups: Seq<ChannelGroup>, k: int) -> bool {
    match groups[k] {
        ChannelGroup::Pair(_, _) => {
            &&& available_partner(positions, groups, k, second_index(groups[k]))
            &&& forall|j: int|
                0 <= j < second_index(groups[k]) ==> !#[trigger] available_partner(
                    positions,
                    groups,
                    k,
                    j,
                )
        },
        ChannelGroup::Single(_) => forall|j: int|
            !#[trigger] available_partner(positions, groups, k, j),
    }
}

/// What `group_channels` returns for `positions`: every index in exactly
/// one well-formed group, groups ordered by their first channel, each
/// group's pairing the greedy one.
pub open spec fn is_channel_grouping(positions: Seq<u32>, groups: Seq<ChannelGroup>) -> bool {
    &&& forall|k: int| 0 <= k < groups.len() ==> group_valid(positions, #[trigger] groups[k])
    &&& forall|i: int|
        0 <= i < positions.len() ==> #[trigger] claimed_before(groups, groups.len() as int, i)
    &&& forall|k1: int, k2: int|
        0 <= k1 < k2 < groups.len() ==> first_index(#[trigger] groups[k1]) < first_index(
            #[trigger] groups[k2],
        )
    &&& forall|k1: int, k2: int, i: int|
        0 <= k1 < groups.len() && 0 <= k2 < groups.len() && k1 != k2 && #[trigger] members(
            groups[k1],
        ).contains(i) ==> !#[trigger] members(groups[k2]).contains(i)
    &&& forall|k: int| 0 <= k < groups.len() ==> #[trigger] greedy_choice(positions, groups, k)
}

/// A group's first channel is the lowest of its members.
proof fn lemma_first_is_lowest(group: ChannelGroup, j: int)
    ensures
        members(group).contains(first_index(group)),
        members(group).contains(second_index(group)),
        members(group).contains(j) ==> first_index(group) <= j,
{
}

/// In a grouping, each group starts at the lowest index that no earlier
/// group claims.
proof fn lemma_first_is_least_unclaimed(positions: Seq<u32>, groups: Seq<ChannelGroup>, k: int)
    requires
        is_channel_grouping(positions, groups),
        0 <= k < groups.len(),
    ensures
        0 <= first_index(groups[k]) < positions.len(),
        !claimed_before(groups, k, first_index(groups[k])),
        forall|j: int| 0 <= j < first_index(groups[k]) ==> claimed_before(groups, k, j),
{
    let f = first_index(groups[k]);
    assert(group_valid(positions, groups[k]));
    lemma_first_is_lowest(groups[k], f);
    if claimed_before(groups, k, f) {
        let m = choose|m: int| 0 <= m < k && #[trigger] members(groups[m]).contains(f);
        assert(members(groups[m]).contains(f));
        assert(!members(groups[k]).contains(f));
    }
    assert forall|j: int| 0 <= j < f implies claimed_before(groups, k, j) by {
        assert(claimed_before(groups, groups.len() as int, j));
        let m = choose|m: int| 0 <= m < groups.len() && #[trigger] members(groups[m]).contains(j);
        lemma_first_is_lowest(groups[m], j);
        if m == k {
            assert(false);
        } else if m > k {
            assert(first_index(groups[k]) < first_index(groups[m]));
            assert(false);
        } else {
            assert(0 <= m < k && members(groups[m]).contains(j));
        }
    }
}

/// Groupings that agree on their first `k` groups claim the same indices
/// with them.
proof fn lemma_claimed_agree(a: Seq<ChannelGroup>, b: Seq<ChannelGroup>, k: int, i: int)
    requires
        k <= a.len(),
        k <= b.len(),
        forall|m: int| 0 <= m < k ==> a[m] == b[m],
    ensures
        claimed_before(a, k, i) == claimed_before(b, k, i),
{
    if claimed_before(a, k, i) {
        let m = choose|m: int| 0 <= m < k && #[trigger] members(a[m]).contains(i);
        assert(members(b[m]).contains(i));
    }
    if claimed_before(b, k, i) {
        let m = choose|m: int| 0 <= m < k && #[trigger] members(b[m]).contains(i);
        assert(members(a[m]).contains(i));
    }
}

/// Two groupings that agree on their first `k` groups agree on the next.
proof fn lemma_step_agree(positions: Seq<u32>, a: Seq<ChannelGroup>, b: Seq<ChannelGroup>, k: int)
    requires
        is_channel_grouping(positions, a),
        is_channel_grouping(positions, b),
        0 <= k < a.len(),
        k < b.len(),
        forall|m: int| 0 <= m < k ==> a[m] == b[m],
    ensures
        a[k] == b[k],
{
    lemma_first_is_least_unclaimed(positions, a, k);
    lemma_first_is_least_unclaimed(positions, b, k);
    let fa = first_index(a[k]);
    let fb = first_index(b[k]);
    if fa < fb {
        lemma_claimed_agree(a, b, k, fa);
        assert(claimed_before(b, k, fa));
    }
    if fb < fa {
        lemma_claimed_agree(a, b, k, fb);
        assert(claimed_before(a, k, fb));
    }
    assert(fa == fb);
    assert forall|j: int|
        available_partner(positions, a, k, j) == available_partner(positions, b, k, j) by {
        lemma_claimed_agree(a, b, k, j);
    }
    assert(greedy_choice(positions, a, k));
    assert(greedy_choice(positions, b, k));
    assert(group_valid(positions, a[k]));
    assert(group_valid(positions, b[k]));
    match (a[k], b[k]) {
        (ChannelGroup::Pair(la, ra), ChannelGroup::Pair(lb, rb)) => {
            let sa = second_index(a[k]);
            let sb = second_index(b[k]);
            if sa < sb {
                assert(available_partner(positions, a, k, sa));
                assert(!available_partner(positions, b, k, sa));
            }
            if sb < sa {
                assert(available_partner(positions, b, k, sb));
                assert(!available_partner(positions, a, k, sb));
            }
            if la != lb {
                assert(la == rb && ra == lb);
                lemma_lr_partner_symmetric(positions[la as int], positions[ra as int], true);
            }
        },
        (ChannelGroup::Pair(_, _), ChannelGroup::Single(_)) => {
            assert(available_partner(positions, a, k, second_index(a[k])));
            assert(!available_partner(positions, b, k, second_index(a[k])));
        },
        (ChannelGroup::Single(_), ChannelGroup::Pair(_, _)) => {
            assert(available_partner(positions, b, k, second_index(b[k])));
            assert(!available_partner(positions, a, k, second_index(b[k])));
        },
        (ChannelGroup::Single(_), ChannelGroup::Single(_)) => {},
    }
}

/// Two groupings agree on their first `k` groups.
proof fn lemma_prefix_agree(positions: Seq<u32>, a: Seq<ChannelGroup>, b: Seq<ChannelGroup>, k: int)
    requires
        is_channel_grouping(positions, a),
        is_channel_grouping(positions, b),
        0 <= k <= a.len(),
        k <= b.len(),
    ensures
        forall|m: int| 0 <= m < k ==> a[m] == b[m],
    decreases k,
{
    if k > 0 {
        lemma_prefix_agree(positions, a, b, k - 1);
        lemma_step_agree(positions, a, b, k - 1);
    }
}

/// The grouping of a list of positions is unique: at most one list of
/// groups covers every index once, in order of first channels, with the
/// greedy pairing - so `group_channels`' contract pins its result down.
pub proof fn lemma_channel_grouping_unique(positions: Seq<u32>, a: Seq<ChannelGroup>, b: Seq<ChannelGroup>)
    requires
        is_channel_grouping(positions, a),
        is_channel_grouping(positions, b),
    ensures
        a == b,
{
    let n = if a.len() <= b.len() {
        a.len() as int
    } else {
        b.len() as int
    };
    lemma_prefix_agree(positions, a, b, n);
    if a.len() < b.len() {
        lemma_first_is_least_unclaimed(positions, b, n);
        let f = first_index(b[n]);
        lemma_claimed_agree(a, b, n, f);
        assert(claimed_before(a, a.len() as int, f));
    }
    if b.len() < a.len() {
        lemma_first_is_least_unclaimed(positions, a, n);
        let f = first_index(a[n]);
        lemma_claimed_agree(a, b, n, f);
        assert(claimed_before(b, b.len() as int, f));
    }
    assert(a =~= b);
}

/// The loop invariant of `group_channels` after handling every index
/// below `i`, with `paired` the indices already taken by a pair.
spec fn prefix_inv(positions: Seq<u32>, groups: Seq<ChannelGroup>, paired: Set<usize>, i: int) -> bool {
    let n = positions.len();
    &&& n <= usize::MAX
    &&& 0 <= i <= n
    &&& forall|k: int| 0 <= k < groups.len() ==> group_valid(positions, #[trigger] groups[k])
    // An index is claimed by some group exactly when it lies before `i` or
    // has been paired.
    &&& forall|j: int|
        0 <= j < n ==> (claimed_before(groups, groups.len() as int, j) <==> (j < i
            || paired.contains(j as usize)))
    &&& forall|j: usize| #[trigger] paired.contains(j) ==> j < n
    // Claimed but unpaired indices are singles.
    &&& forall|k: int, j: int|
        0 <= k < groups.len() && #[trigger] members(groups[k]).contains(j) && !paired.contains(
            j as usize,
        ) ==> groups[k] == ChannelGroup::Single(j as usize)
    &&& forall|k: int| 0 <= k < groups.len() ==> first_index(#[trigger] groups[k]) < i
    &&& forall|k1: int, k2: int|
        0 <= k1 < k2 < groups.len() ==> first_index(#[trigger] groups[k1]) < first_index(
            #[trigger] groups[k2],
        )
    &&& forall|k1: int, k2: int, j: int|
        0 <= k1 < groups.len() && 0 <= k2 < groups.len() && k1 != k2 && #[trigger] members(
            groups[k1],
        ).contains(j) ==> !#[trigger] members(groups[k2]).contains(j)
    &&& forall|k: int| 0 <= k < groups.len() ==> #[trigger] greedy_choice(positions, groups, k)
}

proof fn lemma_claimed_push(groups: Seq<ChannelGroup>, g: ChannelGroup, m: int, x: int)
    requires
        0 <= m <= groups.len(),
    ensures
        claimed_before(groups.push(g), m, x) == claimed_before(groups, m, x),
        claimed_before(groups.push(g), groups.len() + 1int, x) == (claimed_before(
            groups,
            groups.len() as int,
            x,
        ) || members(g).contains(x)),
{
    let gs2 = groups.push(g);
    if claimed_before(gs2, m, x) {
        let w = choose|w: int| 0 <= w < m && #[trigger] members(gs2[w]).contains(x);
        assert(members(groups[w]).contains(x));
    }
    if claimed_before(groups, m, x) {
        let w = choose|w: int| 0 <= w < m && #[trigger] members(groups[w]).contains(x);
        assert(members(gs2[w]).contains(x));
    }
    let len = groups.len() as int;
    if claimed_before(gs2, len + 1, x) {
        let w = choose|w: int| 0 <= w < len + 1 && #[trigger] members(gs2[w]).contains(x);
        if w < len {
            assert(members(groups[w]).contains(x));
        }
    }
    if claimed_before(groups, len, x) {
        let w = choose|w: int| 0 <= w < len && #[trigger] members(groups[w]).contains(x);
        assert(members(gs2[w]).contains(x));
    }
    if members(g).contains(x) {
        assert(members(gs2[len]).contains(x));
    }
}

proof fn lemma_greedy_push(positions: Seq<u32>, groups: Seq<ChannelGroup>, g: ChannelGroup, k: int)
    requires
        0 <= k < groups.len(),
        greedy_choice(positions, groups, k),
    ensures
        greedy_choice(positions, groups.push(g), k),
{
    let gs2 = groups.push(g);
    assert(gs2[k] == groups[k]);
    assert forall|x: int|
        available_partner(positions, gs2, k, x) == available_partner(positions, groups, k, x) by {
        lemma_claimed_push(groups, g, k, x);
    }
}

/// Common bookkeeping for pushing a group whose members were unclaimed.
proof fn lemma_push_common(
    positions: Seq<u32>,
    groups: Seq<ChannelGroup>,
    paired: Set<usize>,
    paired2: Set<usize>,
    i: int,
    g: ChannelGroup,
)
    requires
        prefix_inv(positions, groups, paired, i),
        i < positions.len(),
        !paired.contains(i as usize),
        group_valid(positions, g),
        first_index(g) == i,
        greedy_choice(positions, groups.push(g), groups.len() as int),
        forall|x: int| #[trigger] members(g).contains(x) ==> x == i || !claimed_before(groups, groups.len() as int, x),
        forall|x: int| #[trigger] members(g).contains(x) ==> 0 <= x < positions.len(),
        forall|x: int|
            0 <= x < positions.len() ==> (paired2.contains(x as usize) <==> (paired.contains(
                x as usize,
            ) || (g is Pair && #[trigger] members(g).contains(x)))),
        forall|x: usize| #[trigger] paired2.contains(x) ==> x < positions.len(),
        g is Single ==> g == ChannelGroup::Single(i as usize),
        g is Pair ==> members(g).contains(i),
    ensures
        prefix_inv(positions, groups.push(g), paired2, i + 1),
{
    let gs2 = groups.push(g);
    let len = groups.len() as int;
    let n = positions.len();
    assert(gs2[len] == g);
    assert forall|k: int| 0 <= k < gs2.len() implies group_valid(positions, #[trigger] gs2[k]) by {
        if k < len {
            assert(gs2[k] == groups[k]);
        }
    }
    // `i` itself is not claimed yet.
    assert(!claimed_before(groups, len, i));
    assert forall|j: int| 0 <= j < n implies (claimed_before(gs2, gs2.len() as int, j) <==> (j < i
        + 1 || paired2.contains(j as usize))) by {
        lemma_claimed_push(groups, g, len, j);
        if members(g).contains(j) {
        }
    }
    assert forall|k: int, j: int|
        0 <= k < gs2.len() && #[trigger] members(gs2[k]).contains(j) && !paired2.contains(
            j as usize,
        ) implies gs2[k] == ChannelGroup::Single(j as usize) by {
        if k < len {
            assert(gs2[k] == groups[k]);
            assert(0 <= j < n);
            if members(g).contains(j) {
            }
            assert(!paired.contains(j as usize));
        } else {
            assert(0 <= j < n);
        }
    }
    assert forall|k: int| 0 <= k < gs2.len() implies first_index(#[trigger] gs2[k]) < i + 1 by {
        if k < len {
            assert(gs2[k] == groups[k]);
        }
    }
    assert forall|k1: int, k2: int|
        0 <= k1 < k2 < gs2.len() implies first_index(#[trigger] gs2[k1]) < first_index(
        #[trigger] gs2[k2],
    ) by {
        assert(gs2[k1] == groups[k1]);
        if k2 < len {
            assert(gs2[k2] == groups[k2]);
        }
    }
    assert forall|k1: int, k2: int, j: int|
        0 <= k1 < gs2.len() && 0 <= k2 < gs2.len() && k1 != k2 && #[trigger] members(
            gs2[k1],
        ).contains(j) implies !#[trigger] members(gs2[k2]).contains(j) by {
        if k1 < len && k2 < len {
            assert(gs2[k1] == groups[k1]);
            assert(gs2[k2] == groups[k2]);
        } else if k1 < len {
            assert(gs2[k1] == groups[k1]);
            assert(claimed_before(groups, len, j));
        } else {
            assert(gs2[k2] == groups[k2]);
            if members(gs2[k2]).contains(j) {
                assert(claimed_before(groups, len, j));
            }
        }
    }
    assert forall|k: int| 0 <= k < gs2.len() implies #[trigger] greedy_choice(positions, gs2, k) by {
        if k < len {
            lemma_greedy_push(positions, groups, g, k);
        }
    }
}

/// An unpaired index before `i` is a single whose counterpart search came
/// up empty, so no index still waiting to be handled is its partner.
proof fn lemma_earlier_single_not_partner(
    positions: Seq<u32>,
    groups: Seq<ChannelGroup>,
    paired: Set<usize>,
    i: int,
    j: int,
)
    requires
        prefix_inv(positions, groups, paired, i),
        i < positions.len(),
        !paired.contains(i as usize),
        0 <= j < i,
        !paired.contains(j as usize),
    ensures
        !are_partners(positions[i], positions[j]),
{
    let len = groups.len() as int;
    if are_partners(positions[i], positions[j]) {
        let b = choose|b: bool| spec_lr_partner(positions[i]) == Some((positions[j], b));
        lemma_lr_partner_symmetric(positions[i], positions[j], b);
        assert(claimed_before(groups, len, j));
        let k = choose|k: int| 0 <= k < len && #[trigger] members(groups[k]).contains(j);
        assert(groups[k] == ChannelGroup::Single(j as usize));
        assert(are_partners(positions[j], positions[i]));
        assert(!claimed_before(groups, len, i));
        if claimed_before(groups, k, i) {
            let w = choose|w: int| 0 <= w < k && #[trigger] members(groups[w]).contains(i);
            assert(claimed_before(groups, len, i));
        }
        assert(available_partner(positions, groups, k, i));
        assert(greedy_choice(positions, groups, k));
    }
}

proof fn lemma_step_pair(
    positions: Seq<u32>,
    groups: Seq<ChannelGroup>,
    paired: Set<usize>,
    i: int,
    j: int,
    is_left: bool,
)
    requires
        prefix_inv(positions, groups, paired, i),
        i < positions.len(),
        !paired.contains(i as usize),
        0 <= j < positions.len(),
        j != i,
        !paired.contains(j as usize),
        spec_lr_partner(positions[i]) == Some((positions[j], is_left)),
        forall|j2: int|
            0 <= j2 < j ==> !(j2 != i && !paired.contains(j2 as usize) && positions[j2]
                == positions[j]),
    ensures
        prefix_inv(
            positions,
            groups.push(
                if is_left {
                    ChannelGroup::Pair(i as usize, j as usize)
                } else {
                    ChannelGroup::Pair(j as usize, i as usize)
                },
            ),
            paired.insert(i as usize).insert(j as usize),
            i + 1,
        ),
{
    let g = if is_left {
        ChannelGroup::Pair(i as usize, j as usize)
    } else {
        ChannelGroup::Pair(j as usize, i as usize)
    };
    let len = groups.len() as int;
    let gs2 = groups.push(g);
    let paired2 = paired.insert(i as usize).insert(j as usize);
    if j < i {
        assert(are_partners(positions[i], positions[j]));
        lemma_earlier_single_not_partner(positions, groups, paired, i, j);
    }
    assert(j > i);
    lemma_lr_partner_symmetric(positions[i], positions[j], is_left);
    assert(group_valid(positions, g));
    assert(first_index(g) == i);
    assert(second_index(g) == j);
    assert(gs2[len] == g);
    assert(!claimed_before(groups, len, j));
    lemma_claimed_push(groups, g, len, j);
    assert(are_partners(positions[i], positions[j]));
    assert(available_partner(positions, gs2, len, j));
    assert forall|j2: int| 0 <= j2 < j implies !#[trigger] available_partner(
        positions,
        gs2,
        len,
        j2,
    ) by {
        lemma_claimed_push(groups, g, len, j2);
        if available_partner(positions, gs2, len, j2) {
            let b = choose|b: bool| spec_lr_partner(positions[i]) == Some((positions[j2], b));
            if j2 < i {
                assert(claimed_before(groups, len, j2));
            }
        }
    }
    assert(greedy_choice(positions, gs2, len));
    assert forall|x: int| #[trigger] members(g).contains(x) implies x == i || !claimed_before(
        groups,
        len,
        x,
    ) by {}
    lemma_push_common(positions, groups, paired, paired2, i, g);
}

proof fn lemma_step_single(positions: Seq<u32>, groups: Seq<ChannelGroup>, paired: Set<usize>, i: int)
    requires
        prefix_inv(positions, groups, paired, i),
        i < positions.len(),
        !paired.contains(i as usize),
        forall|j2: int|
            0 <= j2 < positions.len() && j2 > i && !paired.contains(j2 as usize) ==> !are_partners(
                positions[i],
                positions[j2],
            ),
    ensures
        prefix_inv(positions, groups.push(ChannelGroup::Single(i as usize)), paired, i + 1),
{
    let g = ChannelGroup::Single(i as usize);
    let len = groups.len() as int;
    let gs2 = groups.push(g);
    assert(gs2[len] == g);
    assert forall|j: int| !#[trigger] available_partner(positions, gs2, len, j) by {
        lemma_claimed_push(groups, g, len, j);
        if available_partner(positions, gs2, len, j) {
            if j < i {
                assert(claimed_before(groups, len, j));
            } else {
                assert(!paired.contains(j as usize));
            }
        }
    }
    assert(greedy_choice(positions, gs2, len));
    lemma_push_common(positions, groups, paired, paired, i, g);
}

/// Groups `positions` (raw `enum spa_audio_channel` values, in the order
/// PipeWire reported them) into named left/right pairs and leftover
/// singles. A channel only pairs with its documented counterpart (see
/// `lr_pairs`), and only if that counterpart is also present in
/// `positions` - adjacency in the array is not required, matching
/// PipeWire's own lack of an ordering guarantee here. Every index appears
/// in exactly one output group, in the order its *first* channel of the
/// group appears in `positions`.
pub fn group_channels(positions: &[u32]) -> (groups: Vec<ChannelGroup>)
    ensures
        is_channel_grouping(positions@, groups@),
{
    let n = positions.len();
    let mut paired: HashSet<usize> = HashSet::new();
    let mut groups: Vec<ChannelGroup> = Vec::with_capacity(n);
    let mut i: usize = 0;
    while i < n
        invariant
            n == positions@.len(),
            prefix_inv(positions@, groups@, paired@, i as int),
        decreases n - i,
    {
        if paired.contains(&i) {
            proof {
                assert forall|j: int| 0 <= j < n implies (claimed_before(
                    groups@,
                    groups@.len() as int,
                    j,
                ) <==> (j < i + 1 || paired@.contains(j as usize))) by {}
            }
            i += 1;
            continue;
        }
        let channel = positions[i];
        let mut partner: Option<(usize, bool)> = None;
        if let Some((partner_channel, is_left)) = lr_partner(channel) {
            let mut j: usize = 0;
            while j < n
                invariant_except_break
                    partner is None,
                invariant
                    n == positions@.len(),
                    j <= n,
                    i < n,
                    forall|j2: int|
                        0 <= j2 < j ==> !(j2 != i && !paired@.contains(j2 as usize)
                            && positions@[j2] == partner_channel),
                ensures
                    partner is None ==> forall|j2: int|
                        0 <= j2 < n ==> !(j2 != i && !paired@.contains(j2 as usize)
                            && positions@[j2] == partner_channel),
                    partner matches Some((jj, b)) ==> {
                        &&& jj < n
                        &&& jj != i
                        &&& !paired@.contains(jj)
                        &&& positions@[jj as int] == partner_channel
                        &&& b == is_left
                        &&& forall|j2: int|
                            0 <= j2 < jj ==> !(j2 != i && !paired@.contains(j2 as usize)
                                && positions@[j2] == partner_channel)
                    },
                decreases n - j,
            {
                if j != i && !paired.contains(&j) && positions[j] == partner_channel {
                    partner = Some((j, is_left));
                    break;
                }
                j += 1;
            }
            proof {
                if partner is None {
                    assert forall|j2: int|
                        0 <= j2 < n && j2 > i && !paired@.contains(
                            j2 as usize,
                        ) implies !are_partners(positions@[i as int], positions@[j2]) by {
                        if are_partners(positions@[i as int], positions@[j2]) {
                            let b = choose|b: bool|
                                spec_lr_partner(positions@[i as int]) == Some((positions@[j2], b));
                        }
                    }
                }
            }
        }
        match partner {
            Some((j, is_left)) => {
                proof {
                    lemma_step_pair(positions@, groups@, paired@, i as int, j as int, is_left);
                }
                paired.insert(i);
                paired.insert(j);
                if is_left {
                    groups.push(ChannelGroup::Pair(i, j));
                } else {
                    groups.push(ChannelGroup::Pair(j, i));
                }
            },
            None => {
                proof {
                    lemma_step_single(positions@, groups@, paired@, i as int);
                }
                groups.push(ChannelGroup::Single(i));
            },
        }
        i += 1;
    }
    proof {
        assert forall|j: int| 0 <= j < positions@.len() implies #[trigger] claimed_before(
            groups@,
            groups@.len() as int,
            j,
        ) by {}
    }
    groups
}

} // verus!
