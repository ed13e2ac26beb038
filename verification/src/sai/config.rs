//! Configuration values of the serial audio interface.

use vstd::prelude::*;

verus! {

/// Operating-mode flags of the audio engine.  Each variant stands for one
/// bit of the native mode word; a configured engine combines several.
#[derive(Clone, Copy, Debug, PartialEq, Eq, Structural)]
pub enum Mode {
    /// Master mode
    Master,
    /// Slave mode
    Slave,
    /// TX mode
    Tx,
    /// RX mode
    Rx,
    /// Pulse-density-modulation mode
    Pdm,
}

impl Mode {
    /// The bit this mode contributes to the native mode word.
    pub open spec fn spec_mask(self) -> u32 {
        match self {
            Mode::Master => 0x01,
            Mode::Slave => 0x02,
            Mode::Tx => 0x04,
            Mode::Rx => 0x08,
            Mode::Pdm => 0x40,
        }
    }

    /// The bit this mode contributes to the native mode word.
    pub fn mask(&self) -> (m: u32)
        ensures
            m == self.spec_mask(),
    {
        match self {
            Mode::Master => 0x01,
            Mode::Slave => 0x02,
            Mode::Tx => 0x04,
            Mode::Rx => 0x08,
            Mode::Pdm => 0x40,
        }
    }
}

/// The hardware bit width of one sample on the data lines.
#[derive(Clone, Copy, Debug, PartialEq, Eq, Structural)]
pub enum BitsPerSample {
    /// 8 bits per sample
    Bits8,
    /// 16 bits per sample
    Bits16,
    /// 24 bits per sample
    Bits24,
    /// 32 bits per sample
    Bits32,
}

impl BitsPerSample {
    /// The bit width as the native configuration word carries it.
    pub open spec fn spec_bits(self) -> u32 {
        match self {
            BitsPerSample::Bits8 => 8,
            BitsPerSample::Bits16 => 16,
            BitsPerSample::Bits24 => 24,
            BitsPerSample::Bits32 => 32,
        }
    }

    /// The bit width as the native configuration word carries it.
    pub fn bits(&self) -> (b: u32)
        ensures
            b == self.spec_bits(),
    {
        match self {
            BitsPerSample::Bits8 => 8,
            BitsPerSample::Bits16 => 16,
            BitsPerSample::Bits24 => 24,
            BitsPerSample::Bits32 => 32,
        }
    }

    /// The bit width derived from an in-memory sample size in bytes.
    pub open spec fn spec_from_size(size: usize) -> BitsPerSample {
        if size == 1 {
            BitsPerSample::Bits8
        } else if size == 2 {
            BitsPerSample::Bits16
        } else if size == 3 {
            BitsPerSample::Bits24
        } else {
            BitsPerSample::Bits32
        }
    }

    /// Derives the hardware bit width from the in-memory element size, so
    /// that the two can never disagree.
    pub fn from_size(size: usize) -> (r: BitsPerSample)
        requires
            1 <= size <= 4,
        ensures
            r == Self::spec_from_size(size),
    {
        if size == 1 {
            BitsPerSample::Bits8
        } else if size == 2 {
            BitsPerSample::Bits16
        } else if size == 3 {
            BitsPerSample::Bits24
        } else {
            BitsPerSample::Bits32
        }
    }
}

/// For every admissible in-memory element size, the derived hardware bit
/// width is eight times that size; in particular the three-byte case maps
/// to the fixed 24-bit format.
pub proof fn lemma_bit_width_matches_element_size(size: usize)
    requires
        1 <= size <= 4,
    ensures
        BitsPerSample::spec_from_size(size).spec_bits() == 8 * size,
{
}

/// How samples are distributed over the left and right channels.
#[derive(Clone, Copy, Debug, PartialEq, Eq, Structural)]
pub enum ChannelFormat {
    /// Separated left and right channel
    RightLeft,
    /// Load right channel data in both two channels
    AllRight,
    /// Load left channel data in both two channels
    AllLeft,
    /// Only load data in right channel (mono mode)
    OnlyRight,
    /// Only load data in left channel (mono mode)
    OnlyLeft,
}

impl ChannelFormat {
    /// The value the native configuration word carries for this format.
    pub open spec fn spec_value(self) -> u32 {
        match self {
            ChannelFormat::RightLeft => 0,
            ChannelFormat::AllRight => 1,
            ChannelFormat::AllLeft => 2,
            ChannelFormat::OnlyRight => 3,
            ChannelFormat::OnlyLeft => 4,
        }
    }

    /// The value the native configuration word carries for this format.
    pub fn value(&self) -> (v: u32)
        ensures
            v == self.spec_value(),
    {
        match self {
            ChannelFormat::RightLeft => 0,
            ChannelFormat::AllRight => 1,
            ChannelFormat::AllLeft => 2,
            ChannelFormat::OnlyRight => 3,
            ChannelFormat::OnlyLeft => 4,
        }
    }
}

/// The wire protocol spoken on the data lines.
#[derive(Clone, Copy, Debug, PartialEq, Eq, Structural)]
pub enum CommFormat {
    /// Philips standard: data launches at the second bit-clock edge.
    I2s,
    /// MSB-alignment standard: data launches at the first bit-clock edge.
    Msb,
    /// PCM short standard (DSP mode): the frame-sync period is one
    /// bit-clock cycle.
    PcmShort,
    /// PCM long standard: the frame-sync period spans a whole channel.
    PcmLong,
}

impl CommFormat {
    /// The value the native configuration word carries for this protocol.
    pub open spec fn spec_value(self) -> u32 {
        match self {
            CommFormat::I2s => 0x01,
            CommFormat::Msb => 0x02,
            CommFormat::PcmShort => 0x04,
            CommFormat::PcmLong => 0x0C,
        }
    }

    /// The value the native configuration word carries for this protocol.
    pub fn value(&self) -> (v: u32)
        ensures
            v == self.spec_value(),
    {
        match self {
            CommFormat::I2s => 0x01,
            CommFormat::Msb => 0x02,
            CommFormat::PcmShort => 0x04,
            CommFormat::PcmLong => 0x0C,
        }
    }
}

} // verus!
