use wiremix::channel_pairing::{
    group_channels, ChannelGroup, SPA_AUDIO_CHANNEL_AUX0, SPA_AUDIO_CHANNEL_AUX1,
    SPA_AUDIO_CHANNEL_FC, SPA_AUDIO_CHANNEL_FL, SPA_AUDIO_CHANNEL_FR, SPA_AUDIO_CHANNEL_LFE,
    SPA_AUDIO_CHANNEL_LFE2, SPA_AUDIO_CHANNEL_MONO, SPA_AUDIO_CHANNEL_RL, SPA_AUDIO_CHANNEL_RR,
    SPA_AUDIO_CHANNEL_SL, SPA_AUDIO_CHANNEL_SR,
};

const FL: u32 = SPA_AUDIO_CHANNEL_FL;
const FR: u32 = SPA_AUDIO_CHANNEL_FR;
const FC: u32 = SPA_AUDIO_CHANNEL_FC;
const LFE: u32 = SPA_AUDIO_CHANNEL_LFE;
const LFE2: u32 = SPA_AUDIO_CHANNEL_LFE2;
const RL: u32 = SPA_AUDIO_CHANNEL_RL;
const RR: u32 = SPA_AUDIO_CHANNEL_RR;
const MONO: u32 = SPA_AUDIO_CHANNEL_MONO;
const AUX0: u32 = SPA_AUDIO_CHANNEL_AUX0;
const AUX1: u32 = SPA_AUDIO_CHANNEL_AUX1;

#[test]
fn empty_positions_produce_no_groups() {
    assert_eq!(group_channels(&[]), vec![]);
}

#[test]
fn mono_is_a_single() {
    assert_eq!(group_channels(&[MONO]), vec![ChannelGroup::Single(0)]);
}

#[test]
fn simple_stereo_pair() {
    assert_eq!(group_channels(&[FL, FR]), vec![ChannelGroup::Pair(0, 1)]);
}

#[test]
fn reversed_order_still_identifies_left_and_right_correctly() {
    assert_eq!(group_channels(&[FR, FL]), vec![ChannelGroup::Pair(1, 0)]);
}

#[test]
fn real_5_1_device_pairs_fronts_and_rears_leaves_center_and_lfe_single() {
    assert_eq!(
        group_channels(&[FL, FR, RL, RR, FC, LFE]),
        vec![
            ChannelGroup::Pair(0, 1),
            ChannelGroup::Pair(2, 3),
            ChannelGroup::Single(4),
            ChannelGroup::Single(5),
        ]
    );
}

#[test]
fn generic_aux_channels_never_pair() {
    assert_eq!(
        group_channels(&[AUX0, AUX1]),
        vec![ChannelGroup::Single(0), ChannelGroup::Single(1)]
    );
}

#[test]
fn lfe_and_lfe2_are_not_a_pair() {
    assert_eq!(
        group_channels(&[LFE, LFE2]),
        vec![ChannelGroup::Single(0), ChannelGroup::Single(1)]
    );
}

#[test]
fn unpaired_channel_missing_its_partner_stays_single() {
    assert_eq!(
        group_channels(&[FR, FC]),
        vec![ChannelGroup::Single(0), ChannelGroup::Single(1),]
    );
}

#[test]
fn duplicate_channel_falls_back_to_single_when_no_partner_left() {
    assert_eq!(
        group_channels(&[FL, FL, FR]),
        vec![ChannelGroup::Pair(0, 2), ChannelGroup::Single(1)]
    );
}

#[test]
fn side_pair_found_across_other_channels() {
    // The partner need not be adjacent.
    assert_eq!(
        group_channels(&[SPA_AUDIO_CHANNEL_SR, FC, SPA_AUDIO_CHANNEL_SL]),
        vec![ChannelGroup::Pair(2, 0), ChannelGroup::Single(1)]
    );
}

#[test]
fn every_index_lands_in_exactly_one_group() {
    let positions = [FL, RR, FC, FR, RL, MONO, FL];
    let groups = group_channels(&positions);
    let mut seen = vec![0usize; positions.len()];
    for g in &groups {
        match *g {
            ChannelGroup::Pair(l, r) => {
                seen[l] += 1;
                seen[r] += 1;
            }
            ChannelGroup::Single(i) => seen[i] += 1,
        }
    }
    assert!(seen.iter().all(|&n| n == 1));
    assert_eq!(
        groups,
        vec![
            ChannelGroup::Pair(0, 3),
            ChannelGroup::Pair(4, 1),
            ChannelGroup::Single(2),
            ChannelGroup::Single(5),
            ChannelGroup::Single(6),
        ]
    );
}
