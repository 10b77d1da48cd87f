use vstd::prelude::*;

verus! {

/// Frames of interleaved samples are `channels` samples long; a count of
/// zero is treated as one.
pub open spec fn frame_width(channels: usize) -> nat {
    if channels == 0 { 1 } else { channels as nat }
}

/// Number of frames in a buffer of `len` samples; a shorter last frame counts.
pub open spec fn frame_count_spec(len: nat, channels: usize) -> nat {
    let w = frame_width(channels);
    if len % w == 0 { len / w } else { len / w + 1 }
}

/// The sample of channel `ch` in frame `frame`, or `silence` where the frame
/// has no such channel (the channel is past the frame width, or the last
/// frame is cut short).
pub open spec fn channel_sample<T>(data: Seq<T>, channels: usize, frame: nat, ch: usize, silence: T) -> T {
    let w = frame_width(channels);
    let idx = frame * w + ch;
    if (ch as nat) < w && idx < data.len() { data[idx as int] } else { silence }
}

/// The value written at position `i` of an output frame: the processed
/// sample on the first two channels, silence on the others.
pub open spec fn output_sample<T>(i: int, value: T, silence: T) -> T {
    if i < 2 { value } else { silence }
}


/// Channel `ch` of frame `frame` is the sample at `frame * width + ch` of the
/// interleaved buffer, for every channel below the frame width and every
/// position inside the buffer; only a channel at or past the width, or a
/// position past the end, reads as silence.
pub proof fn law_channel_sample<T>(data: Seq<T>, channels: usize, frame: nat, ch: usize, silence: T)
    ensures
        ({
            let w: int = if channels == 0 { 1 } else { channels as int };
            &&& (ch < w && frame * w + ch < data.len()) ==> channel_sample(data, channels, frame, ch, silence)
                == data[frame * w + ch]
            &&& (ch >= w || frame * w + ch >= data.len()) ==> channel_sample(data, channels, frame, ch, silence)
                == silence
        }),
{
}

/// Only the first two positions of an output frame carry the processed
/// sample; every position from the third on is silence.
pub proof fn law_output_sample<T>(i: int, value: T, silence: T)
    ensures
        0 <= i < 2 ==> output_sample(i, value, silence) == value,
        i >= 2 ==> output_sample(i, value, silence) == silence,
{
}

/// The frames cover the buffer exactly: `count` frames of the width hold at
/// least `len` samples, one frame fewer holds fewer; an empty buffer has no
/// frames.
pub proof fn law_frame_count(len: nat, channels: usize)
    ensures
        ({
            let w: int = if channels == 0 { 1 } else { channels as int };
            let n = frame_count_spec(len, channels);
            &&& n * w >= len
            &&& n > 0 ==> (n - 1) * w < len
            &&& (n == 0 <==> len == 0)
        }),
{
    let w: int = if channels == 0 { 1 } else { channels as int };
    let q = len as int / w;
    let r = len as int % w;
    assert(len == q * w + r && 0 <= r < w && q >= 0) by (nonlinear_arith)
        requires w >= 1, q == len as int / w, r == len as int % w, len >= 0;
    if r == 0 {
        assert(q * w >= len);
        if q > 0 {
            assert((q - 1) * w < len) by (nonlinear_arith)
                requires len == q * w, w >= 1;
        }
        if q == 0 {
            assert(len == 0) by (nonlinear_arith) requires len == q * w, q == 0;
        }
    } else {
        assert((q + 1) * w >= len) by (nonlinear_arith)
            requires len == q * w + r, r < w;
        assert(q * w < len) by (nonlinear_arith)
            requires len == q * w + r, r > 0;
    }
}

/// Number of frames in an interleaved buffer.
pub fn frame_count(len: usize, channels: usize) -> (r: usize)
    ensures
        r == frame_count_spec(len as nat, channels),
{
    let w: usize = if channels == 0 { 1 } else { channels };
    if len % w == 0 {
        len / w
    } else {
        assert(len / w < usize::MAX) by (nonlinear_arith)
            requires len % w != 0, w >= 1, len <= usize::MAX;
        len / w + 1
    }
}

proof fn lemma_frame_start(len: nat, w: nat, frame: nat)
    requires
        w >= 1,
        frame < (if len % w == 0 { len / w } else { len / w + 1 }),
    ensures
        frame * w < len,
{
    let q = len / w;
    let r = len % w;
    assert(len == q * w + r && 0 <= r < w) by (nonlinear_arith)
        requires w >= 1, q == len / w, r == len % w;
    if r == 0 {
        assert(frame * w < q * w) by (nonlinear_arith)
            requires frame < q, w >= 1;
    } else {
        assert(frame * w <= q * w) by (nonlinear_arith)
            requires frame <= q, w >= 1;
    }
}

/// The (main, side-chain) pair of input frame `frame`: each taken from its
/// channel of that frame, or `silence` where the frame has no such channel.
pub fn input_frame_pair<T: Copy>(
    data: &[T],
    channels: usize,
    frame: usize,
    main: usize,
    side: usize,
    silence: T,
) -> (r: (T, T))
    requires
        frame < frame_count_spec(data@.len(), channels),
    ensures
        r.0 == channel_sample(data@, channels, frame as nat, main, silence),
        r.1 == channel_sample(data@, channels, frame as nat, side, silence),
        ({
            let w: int = if channels == 0 { 1 } else { channels as int };
            &&& r.0 == if main < w && frame * w + main < data@.len() { data@[frame * w + main] } else { silence }
            &&& r.1 == if side < w && frame * w + side < data@.len() { data@[frame * w + side] } else { silence }
        }),
{
    let w: usize = if channels == 0 { 1 } else { channels };
    proof {
        lemma_frame_start(data@.len(), w as nat, frame as nat);
    }
    assert(frame * w < data.len());
    let start = frame * w;
    let rest = data.len() - start;
    let m = if main < w && main < rest { data[start + main] } else { silence };
    let s = if side < w && side < rest { data[start + side] } else { silence };
    (m, s)
}

/// Writes one output frame: the processed sample on the first two channels
/// and silence on every other channel.
pub fn fill_output_frame<T: Copy>(frame: &mut [T], value: T, silence: T)
    ensures
        final(frame)@.len() == old(frame)@.len(),
        forall|i: int| 0 <= i < final(frame)@.len() ==> #[trigger] final(frame)@[i] == output_sample(i, value, silence),
        forall|i: int| 0 <= i < final(frame)@.len() ==> #[trigger] final(frame)@[i] == if i < 2 { value } else { silence },
{
    let n = frame.len();
    let mut i: usize = 0;
    while i < n
        invariant
            n == frame@.len(),
            i <= n,
            forall|j: int| 0 <= j < i ==> #[trigger] frame@[j] == output_sample(j, value, silence),
        decreases n - i,
    {
        if i < 2 {
            frame[i] = value;
        } else {
            frame[i] = silence;
        }
        i = i + 1;
    }
}

/// Frames between two meter reports: the computed value, but at least one.
pub fn meter_interval(raw: usize) -> (r: usize)
    ensures
        r == if raw == 0 { 1 } else { raw },
{
    if raw == 0 { 1 } else { raw }
}

/// One frame of the meter cadence: the counter goes up by one (saturating);
/// when it reaches the interval it goes back to zero and a report is due.
pub open spec fn meter_tick_spec(counter: usize, interval: usize) -> (usize, bool) {
    let c = if counter == usize::MAX { usize::MAX } else { (counter + 1) as usize };
    if c >= interval { (0, true) } else { (c, false) }
}

/// Advances the meter counter by one frame; the flag says whether a report
/// is due.
pub fn meter_tick(counter: usize, interval: usize) -> (r: (usize, bool))
    ensures
        r == meter_tick_spec(counter, interval),
        counter < usize::MAX && counter + 1 < interval ==> r.0 == counter + 1 && !r.1,
        counter < usize::MAX && counter + 1 >= interval ==> r == (0usize, true),
{
    let c = counter.saturating_add(1);
    if c >= interval { (0, true) } else { (c, false) }
}

/// The counter after `k` frames of a callback (it starts at zero).
pub open spec fn counter_after(interval: usize, k: nat) -> usize
    decreases k,
{
    if k == 0 { 0 } else { meter_tick_spec(counter_after(interval, (k - 1) as nat), interval).0 }
}

proof fn lemma_mod_step(m: nat, n: nat)
    requires
        n >= 1,
    ensures
        m % n < n,
        m % n + 1 == n ==> (m + 1) % n == 0,
        m % n + 1 < n ==> (m + 1) % n == m % n + 1,
{
    assert(m % n < n) by (nonlinear_arith)
        requires n >= 1;
    if m % n + 1 == n {
        assert((m + 1) % n == 0) by (nonlinear_arith)
            requires m % n + 1 == n, n >= 1;
    }
    if m % n + 1 < n {
        assert((m + 1) % n == m % n + 1) by (nonlinear_arith)
            requires m % n + 1 < n, n >= 1;
    }
}

/// With an interval of `n` frames (at least one), the counter after `k`
/// frames is `k mod n`, and frame `k + 1` brings a report exactly when
/// `k + 1` is a multiple of `n`.
pub proof fn law_meter_period(n: usize, k: nat)
    requires
        n >= 1,
    ensures
        counter_after(n, k) == k % (n as nat),
        meter_tick_spec(counter_after(n, k), n).1 == ((k + 1) % (n as nat) == 0),
    decreases k,
{
    if k > 0 {
        law_meter_period(n, (k - 1) as nat);
        lemma_mod_step((k - 1) as nat, n as nat);
    } else {
        assert(0nat % (n as nat) == 0) by (nonlinear_arith)
            requires n >= 1;
    }
    lemma_mod_step(k, n as nat);
}

} // verus!
