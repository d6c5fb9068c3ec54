//! The VRC7 expansion audio: six FM channels behind one register port.
use vstd::prelude::*;
use crate::vrc7_channel::{
    Vrc7AudioChannel, tables_wf, channel_update, channel_output, fnum_low_written,
    fnum_high_written, instrument_written, refreshed, lemma_channel_update_wf,
    lemma_register_writes_wf,
};

verus! {

pub struct Vrc7Audio {
    pub custom_patch: [u8; 8],
    pub channel1: Vrc7AudioChannel,
    pub channel2: Vrc7AudioChannel,
    pub channel3: Vrc7AudioChannel,
    pub channel4: Vrc7AudioChannel,
    pub channel5: Vrc7AudioChannel,
    pub channel6: Vrc7AudioChannel,
    pub current_channel: usize,
    pub delay_counter: u8,
}

impl Vrc7Audio {
    /// Channel `k` (0..5) of the six.
    pub open spec fn channel(&self, k: int) -> Vrc7AudioChannel {
        if k == 0 {
            self.channel1
        } else if k == 1 {
            self.channel2
        } else if k == 2 {
            self.channel3
        } else if k == 3 {
            self.channel4
        } else if k == 4 {
            self.channel5
        } else {
            self.channel6
        }
    }

    /// The audio unit at power-on: silent channels, a zero custom patch, channel index 1 next.
    pub open spec fn is_power_on(&self) -> bool {
        &&& forall|k: int| 0 <= k < 6 ==> (#[trigger] self.channel(k)).is_power_on()
        &&& self.custom_patch@ == seq![0u8; 8]
        &&& self.current_channel == 1
        &&& self.delay_counter == 0
    }

    /// Every channel reads these two tables.
    pub open spec fn reads_tables(&self, logsin: Seq<u16>, exp: Seq<u16>) -> bool {
        forall|k: int| 0 <= k < 6 ==> {
            &&& (#[trigger] self.channel(k)).logsin_lut@ == logsin
            &&& self.channel(k).exp_lut@ == exp
        }
    }

    /// All six channels are well formed.
    pub open spec fn wf(&self) -> bool {
        forall|k: int| 0 <= k < 6 ==> #[trigger] self.channel(k).wf()
    }
}

/// The audio unit with channel `k` replaced by `c`.
pub open spec fn with_channel(a: Vrc7Audio, k: int, c: Vrc7AudioChannel) -> Vrc7Audio {
    Vrc7Audio {
        channel1: if k == 0 { c } else { a.channel1 },
        channel2: if k == 1 { c } else { a.channel2 },
        channel3: if k == 2 { c } else { a.channel3 },
        channel4: if k == 3 { c } else { a.channel4 },
        channel5: if k == 4 { c } else { a.channel5 },
        channel6: if k == 5 { c } else { a.channel6 },
        ..a
    }
}

/// One CPU clock of the audio unit: every sixth clock updates the next channel in turn
/// (so each channel is updated once every 36 clocks); the clocks between only count down.
/// A round-robin index beyond the six channels updates none and restarts at channel 0.
pub open spec fn audio_clock(a: Vrc7Audio) -> Vrc7Audio {
    if a.delay_counter == 0 {
        let k = a.current_channel as int;
        Vrc7Audio {
            current_channel: if k + 1 >= 6 { 0 } else { (k + 1) as usize },
            delay_counter: 5,
            ..with_channel(a, k, channel_update(a.channel(k)))
        }
    } else {
        Vrc7Audio { delay_counter: (a.delay_counter - 1) as u8, ..a }
    }
}

/// The mixed output: the sum of the six channels' samples.
pub open spec fn audio_output(a: Vrc7Audio) -> int {
    channel_output(a.channel1) + channel_output(a.channel2) + channel_output(a.channel3)
        + channel_output(a.channel4) + channel_output(a.channel5) + channel_output(a.channel6)
}

impl Vrc7Audio {
    /// Six silent channels reading the given tables; channel 1 (index 1) is updated first.
    pub fn new(logsin_lut: &Vec<u16>, exp_lut: &Vec<u16>) -> (a: Vrc7Audio)
        requires
            tables_wf(logsin_lut@, exp_lut@),
        ensures
            a.wf(),
            a.is_power_on(),
            a.reads_tables(logsin_lut@, exp_lut@),
    {
        let thing = Vrc7Audio {
            custom_patch: [0u8; 8],
            channel1: Vrc7AudioChannel::new(logsin_lut, exp_lut),
            channel2: Vrc7AudioChannel::new(logsin_lut, exp_lut),
            channel3: Vrc7AudioChannel::new(logsin_lut, exp_lut),
            channel4: Vrc7AudioChannel::new(logsin_lut, exp_lut),
            channel5: Vrc7AudioChannel::new(logsin_lut, exp_lut),
            channel6: Vrc7AudioChannel::new(logsin_lut, exp_lut),
            current_channel: 1,
            delay_counter: 0,
        };
        assert(thing.custom_patch@ =~= seq![0u8; 8]);
        thing
    }

    fn update_current_channel(&mut self)
        requires
            old(self).wf(),
        ensures
            *final(self) == with_channel(*old(self), old(self).current_channel as int,
                channel_update(old(self).channel(old(self).current_channel as int))),
    {
        if self.current_channel < 6 {
            assert(self.channel(self.current_channel as int).wf());
        }
        match self.current_channel {
            0 => self.channel1.update(),
            1 => self.channel2.update(),
            2 => self.channel3.update(),
            3 => self.channel4.update(),
            4 => self.channel5.update(),
            5 => self.channel6.update(),
            _ => {},
        }
    }

    pub fn clock(&mut self)
        requires
            old(self).wf(),
            old(self).delay_counter == 0 ==> old(self).current_channel < usize::MAX,
        ensures
            final(self).wf(),
            *final(self) == audio_clock(*old(self)),
    {
        if self.delay_counter == 0 {
            self.update_current_channel();
            self.current_channel += 1;
            if self.current_channel >= 6 {
                self.current_channel = 0;
            }
            self.delay_counter = 5;
        } else {
            self.delay_counter -= 1;
        }
        proof {
            let k = old(self).current_channel as int;
            if k < 6 {
                lemma_channel_update_wf(old(self).channel(k));
            }
        }
        assert forall|k: int| 0 <= k < 6 implies #[trigger] self.channel(k).wf() by {
            assert(old(self).channel(k).wf());
        }
    }

    pub fn output(&self) -> (r: i16)
        requires
            self.wf(),
        ensures
            r == audio_output(*self),
            -1530 <= r <= 1530,
    {
        assert(self.channel(0).wf() && self.channel(1).wf() && self.channel(2).wf());
        assert(self.channel(3).wf() && self.channel(4).wf() && self.channel(5).wf());
        let combined_output =
            self.channel1.output() +
            self.channel2.output() +
            self.channel3.output() +
            self.channel4.output() +
            self.channel5.output() +
            self.channel6.output();
        combined_output
    }
}

/// What a write of `data` to audio register `address` does: $00..$07 set a byte of the custom
/// patch (which every channel on instrument 0 reloads), $10..$15, $20..$25 and $30..$35 set a
/// register of channel 1..6, and other addresses are ignored.
pub open spec fn audio_written(a: Vrc7Audio, b: Vrc7Audio, address: u8, data: u8) -> bool {
    if address <= 0x07 {
        let patch = a.custom_patch@.update(address as int, data);
        &&& b.custom_patch@ == patch
        &&& forall|k: int| 0 <= k < 6 ==> #[trigger] b.channel(k) == refreshed(a.channel(k), patch)
        &&& b.current_channel == a.current_channel
        &&& b.delay_counter == a.delay_counter
    } else if 0x10 <= address <= 0x15 {
        let k = address - 0x10;
        b == with_channel(a, k, fnum_low_written(a.channel(k), data))
    } else if 0x20 <= address <= 0x25 {
        let k = address - 0x20;
        b == with_channel(a, k, fnum_high_written(a.channel(k), data))
    } else if 0x30 <= address <= 0x35 {
        let k = address - 0x30;
        b == with_channel(a, k, instrument_written(a.channel(k), data, a.custom_patch@))
    } else {
        b == a
    }
}

impl Vrc7Audio {
    /// Every channel on instrument 0 reloads the custom patch.
    pub fn refresh_custom_patch(&mut self)
        requires
            old(self).wf(),
        ensures
            final(self).wf(),
            forall|k: int| 0 <= k < 6 ==>
                #[trigger] final(self).channel(k) == refreshed(old(self).channel(k), old(self).custom_patch@),
            final(self).custom_patch == old(self).custom_patch,
            final(self).current_channel == old(self).current_channel,
            final(self).delay_counter == old(self).delay_counter,
    {
        proof {
            assert forall|k: int| 0 <= k < 6 implies #[trigger] refreshed(old(self).channel(k), old(self).custom_patch@).wf() by {
                assert(old(self).channel(k).wf());
                lemma_register_writes_wf(old(self).channel(k), 0, old(self).custom_patch@);
            }
        }
        self.channel1.refresh_patch(&self.custom_patch);
        self.channel2.refresh_patch(&self.custom_patch);
        self.channel3.refresh_patch(&self.custom_patch);
        self.channel4.refresh_patch(&self.custom_patch);
        self.channel5.refresh_patch(&self.custom_patch);
        self.channel6.refresh_patch(&self.custom_patch);
        assert forall|k: int| 0 <= k < 6 implies
            #[trigger] self.channel(k) == refreshed(old(self).channel(k), old(self).custom_patch@) by {
        }
    }
}

impl Vrc7Audio {
    fn write_custom_patch(&mut self, index: usize, data: u8)
        requires
            old(self).wf(),
            index < 8,
        ensures
            final(self).wf(),
            final(self).custom_patch@ == old(self).custom_patch@.update(index as int, data),
            forall|k: int| 0 <= k < 6 ==> #[trigger] final(self).channel(k)
                == refreshed(old(self).channel(k), final(self).custom_patch@),
            final(self).current_channel == old(self).current_channel,
            final(self).delay_counter == old(self).delay_counter,
    {
        self.custom_patch[index] = data;
        assert forall|k: int| 0 <= k < 6 implies #[trigger] self.channel(k).wf() by {
            assert(old(self).channel(k).wf());
        }
        self.refresh_custom_patch();
    }

    fn write_frequency_low(&mut self, k: usize, data: u8)
        requires
            old(self).wf(),
            k < 6,
        ensures
            *final(self) == with_channel(*old(self), k as int, fnum_low_written(old(self).channel(k as int), data)),
    {
        assert(self.channel(k as int).wf());
        match k {
            0 => self.channel1.write_fnum_low(data),
            1 => self.channel2.write_fnum_low(data),
            2 => self.channel3.write_fnum_low(data),
            3 => self.channel4.write_fnum_low(data),
            4 => self.channel5.write_fnum_low(data),
            _ => self.channel6.write_fnum_low(data),
        }
    }

    fn write_frequency_high(&mut self, k: usize, data: u8)
        requires
            old(self).wf(),
            k < 6,
        ensures
            *final(self) == with_channel(*old(self), k as int, fnum_high_written(old(self).channel(k as int), data)),
    {
        assert(self.channel(k as int).wf());
        match k {
            0 => self.channel1.write_fnum_high(data),
            1 => self.channel2.write_fnum_high(data),
            2 => self.channel3.write_fnum_high(data),
            3 => self.channel4.write_fnum_high(data),
            4 => self.channel5.write_fnum_high(data),
            _ => self.channel6.write_fnum_high(data),
        }
    }

    fn write_volume_instrument(&mut self, k: usize, data: u8)
        requires
            old(self).wf(),
            k < 6,
        ensures
            *final(self) == with_channel(*old(self), k as int, instrument_written(old(self).channel(k as int), data, old(self).custom_patch@)),
    {
        assert(self.channel(k as int).wf());
        match k {
            0 => self.channel1.write_instrument(data, &self.custom_patch),
            1 => self.channel2.write_instrument(data, &self.custom_patch),
            2 => self.channel3.write_instrument(data, &self.custom_patch),
            3 => self.channel4.write_instrument(data, &self.custom_patch),
            4 => self.channel5.write_instrument(data, &self.custom_patch),
            _ => self.channel6.write_instrument(data, &self.custom_patch),
        }
    }

    /// A write of `data` to the audio register selected by `address`.
    #[verifier::rlimit(100)]
    pub fn write(&mut self, address: u8, data: u8)
        requires
            old(self).wf(),
        ensures
            final(self).wf(),
            audio_written(*old(self), *final(self), address, data),
    {
        let ghost k = (address % 16) as int;
        proof {
            if k < 6 {
                assert(old(self).channel(k).wf());
                lemma_register_writes_wf(old(self).channel(k), data, old(self).custom_patch@);
            }
        }
        match address {
            0x00..=0x07 => self.write_custom_patch(address as usize, data),
            0x10..=0x15 => self.write_frequency_low((address - 0x10) as usize, data),
            0x20..=0x25 => self.write_frequency_high((address - 0x20) as usize, data),
            0x30..=0x35 => self.write_volume_instrument((address - 0x30) as usize, data),
            _ => {},
        }
        assert forall|j: int| 0 <= j < 6 implies #[trigger] self.channel(j).wf() by {
            assert(old(self).channel(j).wf());
        }
    }
}

/// The audio unit after `n` CPU clocks.
pub open spec fn audio_clocks(a: Vrc7Audio, n: nat) -> Vrc7Audio
    decreases n,
{
    if n == 0 { a } else { audio_clocks(audio_clock(a), (n - 1) as nat) }
}

proof fn lemma_audio_clocks_add(a: Vrc7Audio, m: nat, n: nat)
    ensures
        audio_clocks(a, m + n) == audio_clocks(audio_clocks(a, m), n),
    decreases m,
{
    if m > 0 {
        lemma_audio_clocks_add(audio_clock(a), (m - 1) as nat, n);
        assert(audio_clocks(a, m + n) == audio_clocks(audio_clock(a), (m + n - 1) as nat));
    }
}

/// Six clocks after a channel update is due, exactly that channel has been updated once and
/// the next channel is due.
pub proof fn lemma_six_clocks_update_one_channel(a: Vrc7Audio)
    requires
        a.wf(),
        a.delay_counter == 0,
        a.current_channel < 6,
    ensures
        audio_clocks(a, 6) == (Vrc7Audio {
            current_channel: (if a.current_channel + 1 >= 6 { 0 } else { a.current_channel + 1 }) as usize,
            delay_counter: 0,
            ..with_channel(a, a.current_channel as int, channel_update(a.channel(a.current_channel as int)))
        }),
        audio_clocks(a, 6).wf(),
{
    let a1 = audio_clock(a);
    let a2 = audio_clock(a1);
    let a3 = audio_clock(a2);
    let a4 = audio_clock(a3);
    let a5 = audio_clock(a4);
    let a6 = audio_clock(a5);
    assert(audio_clocks(a5, 1) == a6) by {
        assert(audio_clocks(a6, 0) == a6);
    }
    assert(audio_clocks(a4, 2) == a6);
    assert(audio_clocks(a3, 3) == a6);
    assert(audio_clocks(a2, 4) == a6);
    assert(audio_clocks(a1, 5) == a6);
    assert(audio_clocks(a, 6) == a6);
    let k = a.current_channel as int;
    lemma_channel_update_wf(a.channel(k));
    assert forall|j: int| 0 <= j < 6 implies #[trigger] a6.channel(j).wf() by {
        assert(a.channel(j).wf());
    }
}

proof fn lemma_six_clocks_channels(a: Vrc7Audio)
    requires
        a.wf(),
        a.delay_counter == 0,
        a.current_channel < 6,
    ensures
        forall|j: int| 0 <= j < 6 ==> #[trigger] audio_clocks(a, 6).channel(j)
            == if j == a.current_channel { channel_update(a.channel(j)) } else { a.channel(j) },
        audio_clocks(a, 6).current_channel == (a.current_channel + 1) % 6,
        audio_clocks(a, 6).delay_counter == 0,
        audio_clocks(a, 6).custom_patch == a.custom_patch,
        audio_clocks(a, 6).wf(),
{
    lemma_six_clocks_update_one_channel(a);
    let c = audio_clocks(a, 6);
    let k = a.current_channel as int;
    let u = channel_update(a.channel(k));
    assert forall|j: int| 0 <= j < 6 implies #[trigger] c.channel(j)
        == if j == k { u } else { a.channel(j) } by {
        assert(c.channel(j) == with_channel(a, k, u).channel(j));
    }
}

/// While the delay counter runs down, clocks change nothing else.
proof fn lemma_audio_countdown(a: Vrc7Audio, n: nat)
    requires
        n <= a.delay_counter,
    ensures
        audio_clocks(a, n) == (Vrc7Audio { delay_counter: (a.delay_counter - n) as u8, ..a }),
    decreases n,
{
    if n == 0 {
        assert(audio_clocks(a, 0) == a);
    } else {
        let a1 = audio_clock(a);
        assert(a1 == (Vrc7Audio { delay_counter: (a.delay_counter - 1) as u8, ..a }));
        lemma_audio_countdown(a1, (n - 1) as nat);
    }
}

/// Thirty-six clocks update every one of the six channels exactly once, and leave the
/// round-robin index and the delay counter where they started (which may be anywhere in
/// the six-clock delay).
pub proof fn lemma_thirty_six_clocks_update_every_channel(a: Vrc7Audio)
    requires
        a.wf(),
        a.delay_counter <= 5,
        a.current_channel < 6,
    ensures
        forall|k: int| 0 <= k < 6 ==> #[trigger] audio_clocks(a, 36).channel(k) == channel_update(a.channel(k)),
        audio_clocks(a, 36).current_channel == a.current_channel,
        audio_clocks(a, 36).delay_counter == a.delay_counter,
        audio_clocks(a, 36).custom_patch == a.custom_patch,
{
    let d = a.delay_counter as nat;
    lemma_audio_countdown(a, d);
    let b = audio_clocks(a, d);
    assert(b == (Vrc7Audio { delay_counter: 0, ..a }));
    assert forall|k: int| 0 <= k < 6 implies #[trigger] b.channel(k).wf() by {
        assert(a.channel(k).wf());
    }
    lemma_audio_rounds(b, 5);
    let c = audio_clocks(b, 30);
    let due = c.current_channel as int;
    assert(due == (a.current_channel + 5) % 6);
    let c1 = audio_clock(c);
    lemma_audio_countdown(c1, (5 - d) as nat);
    let e = audio_clocks(c1, (5 - d) as nat);
    assert(audio_clocks(c, (6 - d) as nat) == e) by {
        assert(audio_clocks(c, (6 - d) as nat) == audio_clocks(c1, (6 - d - 1) as nat));
    }
    lemma_audio_clocks_add(a, d, 30);
    lemma_audio_clocks_add(a, d + 30, (6 - d) as nat);
    assert(d + 30 + (6 - d) == 36);
    assert(audio_clocks(a, 36) == e);
    assert forall|k: int| 0 <= k < 6 implies #[trigger] e.channel(k) == channel_update(a.channel(k)) by {
        assert(e.channel(k) == c1.channel(k));
        assert(c1.channel(k) == if k == due { channel_update(c.channel(k)) } else { c.channel(k) });
        assert(c.channel(k) == if (k - a.current_channel) % 6 < 5 { channel_update(b.channel(k)) } else { b.channel(k) });
        assert((k == due) == ((k - a.current_channel) % 6 == 5));
        assert(b.channel(k) == a.channel(k));
    }
}

/// After `r` rounds of six clocks, the `r` channels due from `a.current_channel` onwards
/// have each been updated once.
proof fn lemma_audio_rounds(a: Vrc7Audio, r: nat)
    requires
        a.wf(),
        a.delay_counter == 0,
        a.current_channel < 6,
        r <= 6,
    ensures
        audio_clocks(a, 6 * r).wf(),
        audio_clocks(a, 6 * r).delay_counter == 0,
        audio_clocks(a, 6 * r).current_channel == (a.current_channel + r) % 6,
        audio_clocks(a, 6 * r).custom_patch == a.custom_patch,
        forall|k: int| 0 <= k < 6 ==> #[trigger] audio_clocks(a, 6 * r).channel(k)
            == if (k - a.current_channel) % 6 < r { channel_update(a.channel(k)) } else { a.channel(k) },
    decreases r,
{
    if r == 0 {
        assert(audio_clocks(a, 0) == a);
    } else {
        let r1 = (r - 1) as nat;
        lemma_audio_rounds(a, r1);
        let b = audio_clocks(a, 6 * r1);
        lemma_audio_clocks_add(a, 6 * r1, 6);
        assert(6 * r1 + 6 == 6 * r);
        lemma_six_clocks_channels(b);
        let c = audio_clocks(b, 6);
        let due = b.current_channel as int;
        assert forall|k: int| 0 <= k < 6 implies #[trigger] c.channel(k)
            == if (k - a.current_channel) % 6 < r { channel_update(a.channel(k)) } else { a.channel(k) } by {
            assert(c.channel(k) == if k == due { channel_update(b.channel(k)) } else { b.channel(k) });
            assert(b.channel(k) == if (k - a.current_channel) % 6 < r1 { channel_update(a.channel(k)) } else { a.channel(k) });
            assert((k == due) == ((k - a.current_channel) % 6 == r1));
        }
    }
}

} // verus!
