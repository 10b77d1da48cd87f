use vstd::prelude::*;

verus! {

/// Buffer size requested from the audio backend, in frames.
#[derive(Clone, Copy, Debug, PartialEq, Eq, Structural)]
pub enum BufferSize {
    Default,
    Fixed(u32),
}

/// What the stream setup reads of one supported configuration range that a
/// device reports: whether its samples are 32-bit floats, its channel count
/// and its inclusive sample-rate range.
#[derive(Clone, Copy, Debug, PartialEq, Eq, Structural)]
pub struct SupportedRange {
    pub is_f32: bool,
    pub channels: u16,
    pub min_sample_rate: u32,
    pub max_sample_rate: u32,
}

/// A concrete stream configuration.
#[derive(Clone, Copy, Debug, PartialEq, Eq, Structural)]
pub struct StreamConfig {
    pub channels: u16,
    pub sample_rate: u32,
    pub buffer_size: BufferSize,
}

/// Why no configuration could be chosen.
#[derive(Clone, Copy, Debug, PartialEq, Eq, Structural)]
pub enum ConfigError {
    /// No f32 input range supports a preferred rate.
    NoInputConfig,
    /// No f32 output range supports a preferred rate.
    NoOutputConfig,
}

/// The rate tried first when nothing else is asked for.
pub const RATE_48K: u32 = 48_000;
/// The rate tried second.
pub const RATE_44K1: u32 = 44_100;
/// Buffer size used when none is requested.
pub const DEFAULT_BUFFER_FRAMES: u32 = 256;

/// Sample rates in the order they are tried: a requested rate other than the
/// two standard ones first, then 48 kHz, then 44.1 kHz.
pub open spec fn preferred_rates_spec(requested: Option<u32>) -> Seq<u32> {
    match requested {
        Some(r) => if r != RATE_48K && r != RATE_44K1 {
            seq![r, RATE_48K, RATE_44K1]
        } else {
            seq![RATE_48K, RATE_44K1]
        },
        None => seq![RATE_48K, RATE_44K1],
    }
}

/// Whether a range covers a rate (both ends included).
pub open spec fn supports(range: SupportedRange, rate: u32) -> bool {
    range.min_sample_rate <= rate <= range.max_sample_rate
}

/// The first rate of `prefs` that `range` covers.
pub open spec fn first_supported(range: SupportedRange, prefs: Seq<u32>) -> Option<u32>
    decreases prefs.len(),
{
    if prefs.len() == 0 {
        None
    } else if supports(range, prefs[0]) {
        Some(prefs[0])
    } else {
        first_supported(range, prefs.drop_first())
    }
}

/// Whether a range can be used at all: f32 samples and some preferred rate.
pub open spec fn usable(range: SupportedRange, prefs: Seq<u32>) -> bool {
    range.is_f32 && first_supported(range, prefs) is Some
}

/// The configuration taken from the first usable range, at the first
/// preferred rate it covers, with the backend's default buffer size.
pub open spec fn pick_spec(ranges: Seq<SupportedRange>, prefs: Seq<u32>) -> Option<StreamConfig>
    decreases ranges.len(),
{
    if ranges.len() == 0 {
        None
    } else if usable(ranges[0], prefs) {
        Some(
            StreamConfig {
                channels: ranges[0].channels,
                sample_rate: first_supported(ranges[0], prefs)->0,
                buffer_size: BufferSize::Default,
            },
        )
    } else {
        pick_spec(ranges.drop_first(), prefs)
    }
}

pub open spec fn min_u32(a: u32, b: u32) -> u32 {
    if a <= b { a } else { b }
}

/// The pair of configurations for the input and the output stream: both are
/// picked independently, then run at the lower of the two picked rates with
/// a fixed buffer of the requested size (256 frames if none).
pub open spec fn choose_config_spec(
    inputs: Seq<SupportedRange>,
    outputs: Seq<SupportedRange>,
    requested_sr: Option<u32>,
    requested_buf: Option<u32>,
) -> Result<(StreamConfig, StreamConfig), ConfigError> {
    let prefs = preferred_rates_spec(requested_sr);
    match pick_spec(inputs, prefs) {
        None => Err(ConfigError::NoInputConfig),
        Some(i) => match pick_spec(outputs, prefs) {
            None => Err(ConfigError::NoOutputConfig),
            Some(o) => {
                let rate = min_u32(i.sample_rate, o.sample_rate);
                let buf = BufferSize::Fixed(
                    match requested_buf {
                        Some(b) => b,
                        None => DEFAULT_BUFFER_FRAMES,
                    },
                );
                Ok(
                    (
                        StreamConfig { channels: i.channels, sample_rate: rate, buffer_size: buf },
                        StreamConfig { channels: o.channels, sample_rate: rate, buffer_size: buf },
                    ),
                )
            },
        },
    }
}


/// The rate found for a range is one of the preferred rates and lies in the
/// range; none is found exactly when the range covers no preferred rate.
pub proof fn law_first_supported(range: SupportedRange, prefs: Seq<u32>)
    ensures
        first_supported(range, prefs) matches Some(r) ==> supports(range, r) && prefs.contains(r),
        first_supported(range, prefs) is None <==> forall|i: int|
            0 <= i < prefs.len() ==> !supports(range, #[trigger] prefs[i]),
    decreases prefs.len(),
{
    if prefs.len() > 0 {
        let rest = prefs.drop_first();
        law_first_supported(range, rest);
        if !supports(range, prefs[0]) {
            if let Some(r) = first_supported(range, rest) {
                let i = choose|i: int| 0 <= i < rest.len() && rest[i] == r;
                assert(prefs[i + 1] == r);
            }
            if first_supported(range, rest) is None {
                assert forall|i: int| 0 <= i < prefs.len() implies !supports(range, #[trigger] prefs[i]) by {
                    if i > 0 {
                        assert(prefs[i] == rest[i - 1]);
                    }
                }
            }
        } else {
            assert(prefs.contains(prefs[0]));
        }
    }
}

/// The picked configuration comes from the first usable range (f32 samples
/// and some preferred rate), at the first preferred rate that range covers;
/// nothing is picked exactly when no range is usable.
pub proof fn law_pick_first_usable(ranges: Seq<SupportedRange>, prefs: Seq<u32>)
    ensures
        pick_spec(ranges, prefs) is None <==> forall|k: int|
            0 <= k < ranges.len() ==> !usable(#[trigger] ranges[k], prefs),
        pick_spec(ranges, prefs) matches Some(c) ==> exists|k: int|
            0 <= k < ranges.len() && #[trigger] usable(ranges[k], prefs) && (forall|j: int|
                0 <= j < k ==> !usable(#[trigger] ranges[j], prefs)) && c == (StreamConfig {
                channels: ranges[k].channels,
                sample_rate: first_supported(ranges[k], prefs)->0,
                buffer_size: BufferSize::Default,
            }),
    decreases ranges.len(),
{
    if ranges.len() > 0 {
        let rest = ranges.drop_first();
        law_pick_first_usable(rest, prefs);
        if !usable(ranges[0], prefs) {
            assert forall|k: int| 0 < k < ranges.len() implies ranges[k] == rest[k - 1] by {}
            if pick_spec(rest, prefs) is None {
                assert forall|k: int| 0 <= k < ranges.len() implies !usable(#[trigger] ranges[k], prefs) by {
                    if k > 0 {
                        assert(!usable(rest[k - 1], prefs));
                    }
                }
            } else {
                let c = pick_spec(rest, prefs)->0;
                let k = choose|k: int|
                    0 <= k < rest.len() && #[trigger] usable(rest[k], prefs) && (forall|j: int|
                        0 <= j < k ==> !usable(#[trigger] rest[j], prefs)) && c == (StreamConfig {
                        channels: rest[k].channels,
                        sample_rate: first_supported(rest[k], prefs)->0,
                        buffer_size: BufferSize::Default,
                    });
                assert(usable(ranges[k + 1], prefs));
                assert forall|j: int| 0 <= j < k + 1 implies !usable(#[trigger] ranges[j], prefs) by {
                    if j > 0 {
                        assert(!usable(rest[j - 1], prefs));
                    }
                }
            }
        }
    }
}

/// A requested rate that a range covers is the one used for it, unless the
/// request is 44.1 kHz and the range also covers 48 kHz (48 kHz is then
/// tried first).
pub proof fn law_requested_rate_wins(range: SupportedRange, r: u32)
    requires
        supports(range, r),
        r != RATE_44K1,
    ensures
        first_supported(range, preferred_rates_spec(Some(r))) == Some(r),
{
    let prefs = preferred_rates_spec(Some(r));
    assert(prefs[0] == r);
}

/// When a configuration pair is chosen, both streams run at the lower of the
/// two picked rates and share the requested buffer size (256 frames if
/// none); an error comes exactly when one side has no usable range, the
/// input side being checked first.
pub proof fn law_config_pair(
    inputs: Seq<SupportedRange>,
    outputs: Seq<SupportedRange>,
    requested_sr: Option<u32>,
    requested_buf: Option<u32>,
)
    ensures
        ({
            let prefs = preferred_rates_spec(requested_sr);
            &&& choose_config_spec(inputs, outputs, requested_sr, requested_buf) matches Ok(
                (i, o),
            ) ==> {
                &&& i.sample_rate == o.sample_rate
                &&& i.sample_rate == min_u32(
                    pick_spec(inputs, prefs)->0.sample_rate,
                    pick_spec(outputs, prefs)->0.sample_rate,
                )
                &&& i.buffer_size == o.buffer_size
                &&& i.buffer_size == BufferSize::Fixed(
                    match requested_buf {
                        Some(b) => b,
                        None => DEFAULT_BUFFER_FRAMES,
                    },
                )
            }
            &&& (choose_config_spec(inputs, outputs, requested_sr, requested_buf) == Err::<
                (StreamConfig, StreamConfig),
                ConfigError,
            >(ConfigError::NoInputConfig) <==> forall|k: int|
                0 <= k < inputs.len() ==> !usable(#[trigger] inputs[k], prefs))
            &&& (choose_config_spec(inputs, outputs, requested_sr, requested_buf) == Err::<
                (StreamConfig, StreamConfig),
                ConfigError,
            >(ConfigError::NoOutputConfig) <==> (exists|k: int|
                0 <= k < inputs.len() && #[trigger] usable(inputs[k], prefs)) && forall|k: int|
                0 <= k < outputs.len() ==> !usable(#[trigger] outputs[k], prefs))
        }),
{
    let prefs = preferred_rates_spec(requested_sr);
    law_pick_first_usable(inputs, prefs);
    law_pick_first_usable(outputs, prefs);
}


/// The rates are tried in this order: 48 kHz always comes before 44.1 kHz
/// and both are always tried; a requested rate other than these two is
/// tried before both; nothing else is tried.
pub proof fn law_preferred_order(requested: Option<u32>)
    ensures
        ({
            let prefs = preferred_rates_spec(requested);
            &&& prefs.len() >= 2
            &&& prefs[prefs.len() - 2] == 48_000u32
            &&& prefs[prefs.len() - 1] == 44_100u32
            &&& requested matches Some(r) ==> ((r != 48_000u32 && r != 44_100u32) ==> (prefs.len()
                == 3 && prefs[0] == r))
            &&& requested matches Some(r) ==> ((r == 48_000u32 || r == 44_100u32) ==> prefs.len()
                == 2)
            &&& requested is None ==> prefs.len() == 2
        }),
{
}

/// The rate found for a range is the earliest preferred rate that the
/// range covers: every rate tried before it lies outside the range.
pub proof fn law_first_supported_is_first(range: SupportedRange, prefs: Seq<u32>)
    ensures
        first_supported(range, prefs) matches Some(r) ==> exists|i: int|
            0 <= i < prefs.len() && #[trigger] prefs[i] == r && range.min_sample_rate <= r
                <= range.max_sample_rate && forall|j: int|
                0 <= j < i ==> !(range.min_sample_rate <= #[trigger] prefs[j]
                    <= range.max_sample_rate),
    decreases prefs.len(),
{
    if prefs.len() > 0 {
        let rest = prefs.drop_first();
        law_first_supported_is_first(range, rest);
        if supports(range, prefs[0]) {
            assert(prefs[0] == prefs[0]);
        } else if let Some(r) = first_supported(range, rest) {
            let i = choose|i: int|
                0 <= i < rest.len() && #[trigger] rest[i] == r && range.min_sample_rate <= r
                    <= range.max_sample_rate && forall|j: int|
                    0 <= j < i ==> !(range.min_sample_rate <= #[trigger] rest[j]
                        <= range.max_sample_rate);
            assert(prefs[i + 1] == r);
            assert forall|j: int| 0 <= j < i + 1 implies !(range.min_sample_rate <= #[trigger] prefs[j]
                <= range.max_sample_rate) by {
                if j > 0 {
                    assert(prefs[j] == rest[j - 1]);
                }
            }
        }
    }
}

/// Each stream keeps the channel count of its own device's first usable
/// range (an f32 range covering a preferred rate, with no usable range
/// before it); the other device's channel count plays no part. Both streams
/// run at a rate no higher than either picked rate, equal to one of them.
pub proof fn law_config_channels(
    inputs: Seq<SupportedRange>,
    outputs: Seq<SupportedRange>,
    requested_sr: Option<u32>,
    requested_buf: Option<u32>,
)
    ensures
        ({
            let prefs = preferred_rates_spec(requested_sr);
            choose_config_spec(inputs, outputs, requested_sr, requested_buf) matches Ok((i, o))
                ==> {
                &&& i.channels == pick_spec(inputs, prefs)->0.channels
                &&& o.channels == pick_spec(outputs, prefs)->0.channels
                &&& exists|k: int|
                    0 <= k < inputs.len() && inputs[k].is_f32 && i.channels == #[trigger] inputs[k].channels
                        && forall|j: int| 0 <= j < k ==> !usable(#[trigger] inputs[j], prefs)
                &&& exists|k: int|
                    0 <= k < outputs.len() && outputs[k].is_f32 && o.channels == #[trigger] outputs[k].channels
                        && forall|j: int| 0 <= j < k ==> !usable(#[trigger] outputs[j], prefs)
                &&& i.sample_rate <= pick_spec(inputs, prefs)->0.sample_rate
                &&& i.sample_rate <= pick_spec(outputs, prefs)->0.sample_rate
                &&& (i.sample_rate == pick_spec(inputs, prefs)->0.sample_rate || i.sample_rate
                    == pick_spec(outputs, prefs)->0.sample_rate)
            }
        }),
{
    let prefs = preferred_rates_spec(requested_sr);
    law_pick_first_usable(inputs, prefs);
    law_pick_first_usable(outputs, prefs);
}


/// The picked configuration in plain terms: it comes from a range `k` that
/// holds f32 samples and covers the picked rate; the rate is a preferred one
/// and every rate preferred before it lies outside that range; every earlier
/// range either holds other samples or covers no preferred rate; the
/// channel count is that range's and the buffer size is left to the
/// backend. Nothing is picked exactly when no f32 range covers a preferred
/// rate.
pub proof fn law_pick_plain(ranges: Seq<SupportedRange>, prefs: Seq<u32>)
    ensures
        pick_spec(ranges, prefs) matches Some(c) ==> exists|k: int|
            0 <= k < ranges.len() && (#[trigger] ranges[k]).is_f32 && c.channels == ranges[k].channels
                && c.buffer_size == BufferSize::Default && ranges[k].min_sample_rate <= c.sample_rate
                <= ranges[k].max_sample_rate && (exists|i: int|
                0 <= i < prefs.len() && #[trigger] prefs[i] == c.sample_rate && forall|j: int|
                    0 <= j < i ==> !(ranges[k].min_sample_rate <= #[trigger] prefs[j]
                        <= ranges[k].max_sample_rate)) && forall|j: int|
                0 <= j < k ==> (!(#[trigger] ranges[j]).is_f32 || forall|p: int|
                    0 <= p < prefs.len() ==> !(ranges[j].min_sample_rate <= #[trigger] prefs[p]
                        <= ranges[j].max_sample_rate)),
        pick_spec(ranges, prefs) is None <==> forall|k: int|
            0 <= k < ranges.len() ==> (!(#[trigger] ranges[k]).is_f32 || forall|p: int|
                0 <= p < prefs.len() ==> !(ranges[k].min_sample_rate <= #[trigger] prefs[p]
                    <= ranges[k].max_sample_rate)),
{
    law_pick_first_usable(ranges, prefs);
    assert forall|k: int| 0 <= k < ranges.len() implies (usable(#[trigger] ranges[k], prefs) <==> (ranges[k].is_f32
        && !forall|p: int| 0 <= p < prefs.len() ==> !(ranges[k].min_sample_rate <= #[trigger] prefs[p]
            <= ranges[k].max_sample_rate))) by {
        law_first_supported(ranges[k], prefs);
    }
    if let Some(c) = pick_spec(ranges, prefs) {
        let k = choose|k: int|
            0 <= k < ranges.len() && #[trigger] usable(ranges[k], prefs) && (forall|j: int|
                0 <= j < k ==> !usable(#[trigger] ranges[j], prefs)) && c == (StreamConfig {
                channels: ranges[k].channels,
                sample_rate: first_supported(ranges[k], prefs)->0,
                buffer_size: BufferSize::Default,
            });
        law_first_supported_is_first(ranges[k], prefs);
        assert(ranges[k].is_f32);
    }
}

/// The rates to try, in order.
pub fn preferred_rates(requested: Option<u32>) -> (r: Vec<u32>)
    ensures
        r@ == preferred_rates_spec(requested),
{
    let mut v: Vec<u32> = Vec::new();
    match requested {
        Some(rate) => {
            if rate != RATE_48K && rate != RATE_44K1 {
                v.push(rate);
            }
        },
        None => {},
    }
    v.push(RATE_48K);
    v.push(RATE_44K1);
    v
}

/// The first preferred rate that `range` covers.
pub fn first_supported_rate(range: &SupportedRange, prefs: &Vec<u32>) -> (r: Option<u32>)
    ensures
        r == first_supported(*range, prefs@),
{
    let mut i: usize = 0;
    assert(prefs@.skip(0) =~= prefs@);
    while i < prefs.len()
        invariant
            i <= prefs.len(),
            first_supported(*range, prefs@) == first_supported(*range, prefs@.skip(i as int)),
        decreases prefs.len() - i,
    {
        let rate = prefs[i];
        assert(prefs@.skip(i as int)[0] == rate);
        if range.min_sample_rate <= rate && rate <= range.max_sample_rate {
            return Some(rate);
        }
        assert(prefs@.skip(i as int).drop_first() =~= prefs@.skip(i + 1));
        i = i + 1;
    }
    None
}

/// The configuration of the first usable range, if any.
pub fn pick_config(ranges: &Vec<SupportedRange>, prefs: &Vec<u32>) -> (r: Option<StreamConfig>)
    ensures
        r == pick_spec(ranges@, prefs@),
{
    let mut i: usize = 0;
    assert(ranges@.skip(0) =~= ranges@);
    while i < ranges.len()
        invariant
            i <= ranges.len(),
            pick_spec(ranges@, prefs@) == pick_spec(ranges@.skip(i as int), prefs@),
        decreases ranges.len() - i,
    {
        let range = ranges[i];
        assert(ranges@.skip(i as int)[0] == range);
        if range.is_f32 {
            match first_supported_rate(&range, prefs) {
                Some(rate) => {
                    return Some(
                        StreamConfig {
                            channels: range.channels,
                            sample_rate: rate,
                            buffer_size: BufferSize::Default,
                        },
                    );
                },
                None => {},
            }
        }
        assert(ranges@.skip(i as int).drop_first() =~= ranges@.skip(i + 1));
        i = i + 1;
    }
    None
}

/// Chooses the input and output stream configurations from the ranges the
/// two devices report.
pub fn choose_config(
    inputs: &Vec<SupportedRange>,
    outputs: &Vec<SupportedRange>,
    requested_sr: Option<u32>,
    requested_buf: Option<u32>,
) -> (r: Result<(StreamConfig, StreamConfig), ConfigError>)
    ensures
        r == choose_config_spec(inputs@, outputs@, requested_sr, requested_buf),
        r matches Ok((i, o)) ==> i.channels == pick_spec(inputs@, preferred_rates_spec(requested_sr))->0.channels
            && o.channels == pick_spec(outputs@, preferred_rates_spec(requested_sr))->0.channels,
{
    let prefs = preferred_rates(requested_sr);
    let chosen_in = pick_config(inputs, &prefs);
    let chosen_out = pick_config(outputs, &prefs);
    let input_cfg = match chosen_in {
        Some(c) => c,
        None => {
            return Err(ConfigError::NoInputConfig);
        },
    };
    let output_cfg = match chosen_out {
        Some(c) => c,
        None => {
            return Err(ConfigError::NoOutputConfig);
        },
    };
    let rate = if input_cfg.sample_rate <= output_cfg.sample_rate {
        input_cfg.sample_rate
    } else {
        output_cfg.sample_rate
    };
    let buf = match requested_buf {
        Some(b) => b,
        None => DEFAULT_BUFFER_FRAMES,
    };
    Ok(
        (
            StreamConfig {
                channels: input_cfg.channels,
                sample_rate: rate,
                buffer_size: BufferSize::Fixed(buf),
            },
            StreamConfig {
                channels: output_cfg.channels,
                sample_rate: rate,
                buffer_size: BufferSize::Fixed(buf),
            },
        ),
    )
}

/// The buffer size reported in the statistics: the fixed size, or 0 when the
/// backend chooses.
pub fn buffer_frames(b: BufferSize) -> (r: u32)
    ensures
        r == match b {
            BufferSize::Fixed(v) => v,
            BufferSize::Default => 0u32,
        },
{
    match b {
        BufferSize::Fixed(v) => v,
        BufferSize::Default => 0,
    }
}

} // verus!
