//! The sample formats of a device.
use vstd::prelude::*;

use crate::config::SampleFormat;

verus! {

/// A sample format, as a device knows it. `Ne` stands for the byte order of the
/// machine.
#[derive(Clone, Copy, Debug, PartialEq, Eq, Structural)]
pub enum AudioFormat {
    S8,
    U8,
    S16Ne,
    U16Ne,
    S32Ne,
}

/// The sample formats that a device has.
#[derive(Clone, Copy, Debug, PartialEq, Eq, Structural)]
pub struct AudioFormats {
    pub s8: bool,
    pub u8: bool,
    pub s16_ne: bool,
    pub u16_ne: bool,
    pub s32_ne: bool,
}

impl AudioFormats {
    /// Whether `format` is among the formats.
    pub open spec fn has(self, format: AudioFormat) -> bool {
        match format {
            AudioFormat::S8 => self.s8,
            AudioFormat::U8 => self.u8,
            AudioFormat::S16Ne => self.s16_ne,
            AudioFormat::U16Ne => self.u16_ne,
            AudioFormat::S32Ne => self.s32_ne,
        }
    }

    /// Whether `format` is among the formats.
    pub fn contains(&self, format: AudioFormat) -> (b: bool)
        ensures
            b == self.has(format),
    {
        match format {
            AudioFormat::S8 => self.s8,
            AudioFormat::U8 => self.u8,
            AudioFormat::S16Ne => self.s16_ne,
            AudioFormat::U16Ne => self.u16_ne,
            AudioFormat::S32Ne => self.s32_ne,
        }
    }

    /// Whether samples in `sample_format` can be sent to the device.
    pub open spec fn takes(self, sample_format: SampleFormat) -> bool {
        device_format(sample_format) matches Some(format) && self.has(format)
    }

    /// The sample formats in which samples can be sent to the device, in the order
    /// of [`ranking`].
    pub open spec fn offered(self) -> Seq<SampleFormat> {
        ranking().filter(|sample_format: SampleFormat| self.takes(sample_format))
    }

    /// The sample formats in which samples can be sent to the device.
    pub fn sample_formats(&self) -> (list: Vec<SampleFormat>)
        ensures
            list@ == self.offered(),
    {
        let mut list: Vec<SampleFormat> = Vec::new();
        if self.contains(AudioFormat::S32Ne) {
            list.push(SampleFormat::I32);
        }
        if self.contains(AudioFormat::S16Ne) {
            list.push(SampleFormat::I16);
        }
        if self.contains(AudioFormat::U16Ne) {
            list.push(SampleFormat::U16);
        }
        if self.contains(AudioFormat::S8) {
            list.push(SampleFormat::I8);
        }
        if self.contains(AudioFormat::U8) {
            list.push(SampleFormat::U8);
        }
        proof {
            self.lemma_offered();
            assert(list@ =~= self.offered());
        }
        list
    }

    /// The offered formats, one by one.
    proof fn lemma_offered(self)
        ensures
            self.offered() == one_if(self.s32_ne, SampleFormat::I32) + one_if(
                self.s16_ne,
                SampleFormat::I16,
            ) + one_if(self.u16_ne, SampleFormat::U16) + one_if(self.s8, SampleFormat::I8)
                + one_if(self.u8, SampleFormat::U8),
    {
        reveal_with_fuel(Seq::filter, 6);
        let all = ranking();
        assert(all.drop_last() =~= all.take(4));
        assert(all.take(4).drop_last() =~= all.take(3));
        assert(all.take(3).drop_last() =~= all.take(2));
        assert(all.take(2).drop_last() =~= all.take(1));
        assert(all.take(1).drop_last() =~= all.take(0));
        assert(self.offered() =~= one_if(self.s32_ne, SampleFormat::I32) + one_if(
            self.s16_ne,
            SampleFormat::I16,
        ) + one_if(self.u16_ne, SampleFormat::U16) + one_if(self.s8, SampleFormat::I8) + one_if(
            self.u8,
            SampleFormat::U8,
        ));
    }

    /// A sample format is offered if and only if samples in it can be sent to the
    /// device, and none is offered twice.
    pub proof fn law_offered_is_what_the_device_takes(self, sample_format: SampleFormat)
        ensures
            self.offered().contains(sample_format) <==> self.takes(sample_format),
            self.offered().no_duplicates(),
    {
        broadcast use vstd::seq_lib::group_filter_ensures;

        let pred = |f: SampleFormat| self.takes(f);
        let all = ranking();
        assert(all[0] == SampleFormat::I32 && all[1] == SampleFormat::I16 && all[2]
            == SampleFormat::U16 && all[3] == SampleFormat::I8 && all[4] == SampleFormat::U8);
        if self.takes(sample_format) {
            assert(pred(sample_format));
            assert(all.contains(sample_format));
        }
        lemma_filter_of_distinct(all, pred);
    }

    /// Integers of 8, 16 and signed ones of 32 bits are offered if and only if the
    /// device has the format with the same number of bits and the same signedness;
    /// no other sample format is ever offered. Larger samples are offered before
    /// smaller ones, and signed ones before unsigned ones of the same size.
    pub proof fn law_offered_by_name(self, i: int, j: int)
        ensures
            self.offered().contains(SampleFormat::I32) <==> self.s32_ne,
            self.offered().contains(SampleFormat::I16) <==> self.s16_ne,
            self.offered().contains(SampleFormat::U16) <==> self.u16_ne,
            self.offered().contains(SampleFormat::I8) <==> self.s8,
            self.offered().contains(SampleFormat::U8) <==> self.u8,
            forall|f: SampleFormat| #[trigger]
                self.offered().contains(f) ==> f is I32 || f is I16 || f is U16 || f is I8
                    || f is U8,
            0 <= i < j < self.offered().len() ==> {
                let first = self.offered()[i];
                let second = self.offered()[j];
                ||| first.size() > second.size()
                ||| first is I16 && second is U16
                ||| first is I8 && second is U8
            },
    {
        self.lemma_offered();
        self.law_offered_is_what_the_device_takes(SampleFormat::I32);
        self.law_offered_is_what_the_device_takes(SampleFormat::I16);
        self.law_offered_is_what_the_device_takes(SampleFormat::U16);
        self.law_offered_is_what_the_device_takes(SampleFormat::I8);
        self.law_offered_is_what_the_device_takes(SampleFormat::U8);
        assert forall|f: SampleFormat| #[trigger] self.offered().contains(f) implies f is I32 || f
            is I16 || f is U16 || f is I8 || f is U8 by {
            self.law_offered_is_what_the_device_takes(f);
        }
    }

    /// Each of the five formats is among the formats if and only if its own flag says
    /// so.
    pub proof fn law_has_by_name(self)
        ensures
            self.has(AudioFormat::S32Ne) <==> self.s32_ne,
            self.has(AudioFormat::S16Ne) <==> self.s16_ne,
            self.has(AudioFormat::U16Ne) <==> self.u16_ne,
            self.has(AudioFormat::S8) <==> self.s8,
            self.has(AudioFormat::U8) <==> self.u8,
    {
    }
}

/// Devices call a sample format by the name with the same number of bits and the same
/// signedness, and have no name for sizes above 32 bits, for unsigned samples of 32
/// bits, or for floating point.
pub proof fn law_device_format_by_name(sample_format: SampleFormat, format: AudioFormat)
    ensures
        device_format(sample_format) == Some(format) <==> {
            ||| sample_format is I32 && format is S32Ne
            ||| sample_format is I16 && format is S16Ne
            ||| sample_format is U16 && format is U16Ne
            ||| sample_format is I8 && format is S8
            ||| sample_format is U8 && format is U8
        },
{
}

/// What a filter leaves of distinct items is distinct, and was there before.
proof fn lemma_filter_of_distinct(items: Seq<SampleFormat>, pred: spec_fn(SampleFormat) -> bool)
    requires
        items.no_duplicates(),
    ensures
        items.filter(pred).no_duplicates(),
        forall|i: int|
            0 <= i < items.filter(pred).len() ==> items.contains(#[trigger] items.filter(pred)[i]),
    decreases items.len(),
{
    reveal(Seq::filter);
    if items.len() > 0 {
        let front = items.drop_last();
        lemma_filter_of_distinct(front, pred);
        let kept = front.filter(pred);
        assert forall|i: int| 0 <= i < kept.len() implies items.contains(kept[i]) && kept[i]
            != items.last() by {
            let k = front.index_of(kept[i]);
            assert(front.contains(kept[i]));
            assert(items[k] == kept[i]);
        }
    }
}

/// `x` alone, or nothing.
spec fn one_if(b: bool, x: SampleFormat) -> Seq<SampleFormat> {
    if b {
        seq![x]
    } else {
        seq![]
    }
}

/// The sample formats that devices can have, in the order in which they are
/// looked for.
pub open spec fn ranking() -> Seq<SampleFormat> {
    seq![
        SampleFormat::I32,
        SampleFormat::I16,
        SampleFormat::U16,
        SampleFormat::I8,
        SampleFormat::U8,
    ]
}

/// What a device calls `sample_format`, if devices can have it.
pub open spec fn device_format(sample_format: SampleFormat) -> Option<AudioFormat> {
    match sample_format {
        SampleFormat::I8 => Some(AudioFormat::S8),
        SampleFormat::U8 => Some(AudioFormat::U8),
        SampleFormat::I16 => Some(AudioFormat::S16Ne),
        SampleFormat::U16 => Some(AudioFormat::U16Ne),
        SampleFormat::I32 => Some(AudioFormat::S32Ne),
        _ => None,
    }
}

/// What a device calls `sample_format`, if devices can have it.
pub fn audio_format(sample_format: SampleFormat) -> (format: Option<AudioFormat>)
    ensures
        format == device_format(sample_format),
{
    match sample_format {
        SampleFormat::I8 => Some(AudioFormat::S8),
        SampleFormat::U8 => Some(AudioFormat::U8),
        SampleFormat::I16 => Some(AudioFormat::S16Ne),
        SampleFormat::U16 => Some(AudioFormat::U16Ne),
        SampleFormat::I32 => Some(AudioFormat::S32Ne),
        _ => None,
    }
}

} // verus!
