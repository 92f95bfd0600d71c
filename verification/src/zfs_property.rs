//! Dataset property values.
//!
//! The storage engine stores properties as strings or numbers; these
//! enums carry the values the service sets and reads, together with their
//! canonical text, and the conversions the builders accept.

use vstd::prelude::*;

verus! {

/// A plain on/off property value.
#[derive(Clone, Copy, Debug, PartialEq, Eq, Structural)]
pub enum OnOff {
    On,
    Off,
}

impl OnOff {
    /// The canonical text of the value.
    pub open spec fn as_str_spec(&self) -> Seq<char> {
        match self {
            OnOff::On => "on"@,
            OnOff::Off => "off"@,
        }
    }

    /// The canonical text of the value.
    pub fn as_str(&self) -> (r: &'static str)
        ensures
            r@ == self.as_str_spec(),
    {
        match self {
            OnOff::On => "on",
            OnOff::Off => "off",
        }
    }
}

/// The `canmount` property: on, off, or mountable only by hand.
#[derive(Clone, Copy, Debug, PartialEq, Eq, Structural)]
pub enum OnOffNoAuto {
    On,
    Off,
    NoAuto,
}

impl OnOffNoAuto {
    /// The canonical text of the value.
    pub open spec fn as_str_spec(&self) -> Seq<char> {
        match self {
            OnOffNoAuto::On => "on"@,
            OnOffNoAuto::Off => "off"@,
            OnOffNoAuto::NoAuto => "noauto"@,
        }
    }

    /// The canonical text of the value.
    pub fn as_str(&self) -> (r: &'static str)
        ensures
            r@ == self.as_str_spec(),
    {
        match self {
            OnOffNoAuto::On => "on",
            OnOffNoAuto::Off => "off",
            OnOffNoAuto::NoAuto => "noauto",
        }
    }
}

/// The checksum algorithm of a dataset.
#[derive(Clone, Copy, Debug, PartialEq, Eq, Structural)]
pub enum CheckSumAlgo {
    On,
    Off,
    Fletcher2,
    Fletcher4,
    Sha256,
    Sha512,
    Skein,
    Edonr,
}

impl CheckSumAlgo {
    /// The canonical text of the value.
    pub open spec fn as_str_spec(&self) -> Seq<char> {
        match self {
            CheckSumAlgo::On => "on"@,
            CheckSumAlgo::Off => "off"@,
            CheckSumAlgo::Fletcher2 => "fletcher2"@,
            CheckSumAlgo::Fletcher4 => "fletcher4"@,
            CheckSumAlgo::Sha256 => "sha256"@,
            CheckSumAlgo::Sha512 => "sha512"@,
            CheckSumAlgo::Skein => "skein"@,
            CheckSumAlgo::Edonr => "edonr"@,
        }
    }

    /// The canonical text of the value.
    pub fn as_str(&self) -> (r: &'static str)
        ensures
            r@ == self.as_str_spec(),
    {
        match self {
            CheckSumAlgo::On => "on",
            CheckSumAlgo::Off => "off",
            CheckSumAlgo::Fletcher2 => "fletcher2",
            CheckSumAlgo::Fletcher4 => "fletcher4",
            CheckSumAlgo::Sha256 => "sha256",
            CheckSumAlgo::Sha512 => "sha512",
            CheckSumAlgo::Skein => "skein",
            CheckSumAlgo::Edonr => "edonr",
        }
    }
}

/// The compression algorithm of a dataset.
#[derive(Clone, Copy, Debug, PartialEq, Eq, Structural)]
pub enum CompressionAlgo {
    On,
    Off,
    Lzjb,
    Gzip,
    Zle,
    Lz4,
    Zstd,
}

impl CompressionAlgo {
    /// The canonical text of the value.
    pub open spec fn as_str_spec(&self) -> Seq<char> {
        match self {
            CompressionAlgo::On => "on"@,
            CompressionAlgo::Off => "off"@,
            CompressionAlgo::Lzjb => "lzjb"@,
            CompressionAlgo::Gzip => "gzip"@,
            CompressionAlgo::Zle => "zle"@,
            CompressionAlgo::Lz4 => "lz4"@,
            CompressionAlgo::Zstd => "zstd"@,
        }
    }

    /// The canonical text of the value.
    pub fn as_str(&self) -> (r: &'static str)
        ensures
            r@ == self.as_str_spec(),
    {
        match self {
            CompressionAlgo::On => "on",
            CompressionAlgo::Off => "off",
            CompressionAlgo::Lzjb => "lzjb",
            CompressionAlgo::Gzip => "gzip",
            CompressionAlgo::Zle => "zle",
            CompressionAlgo::Lz4 => "lz4",
            CompressionAlgo::Zstd => "zstd",
        }
    }
}

/// The `volmode` property: how a volume is exposed to the system.
#[derive(Clone, Copy, Debug, PartialEq, Eq, Structural)]
pub enum VolModeId {
    Full,
    Dev,
    Disabled,
}

impl VolModeId {
    /// The numeric value the storage engine stores for the mode.
    pub open spec fn as_u64_spec(&self) -> u64 {
        match self {
            VolModeId::Full => 1,
            VolModeId::Dev => 2,
            VolModeId::Disabled => 3,
        }
    }

    /// The numeric value the storage engine stores for the mode.
    pub fn as_u64(&self) -> (r: u64)
        ensures
            r == self.as_u64_spec(),
    {
        match self {
            VolModeId::Full => 1,
            VolModeId::Dev => 2,
            VolModeId::Disabled => 3,
        }
    }
}

/// A value the builders accept where an on/off property is set.
pub trait IntoOnOff: Sized {
    /// The on/off value this converts to.
    spec fn as_on_off(self) -> OnOff;

    /// Converts to the on/off value.
    fn to_on_off(self) -> (r: OnOff)
        ensures
            r == self.as_on_off(),
    ;
}

impl IntoOnOff for OnOff {
    open spec fn as_on_off(self) -> OnOff {
        self
    }

    fn to_on_off(self) -> OnOff {
        self
    }
}

impl IntoOnOff for bool {
    open spec fn as_on_off(self) -> OnOff {
        if self {
            OnOff::On
        } else {
            OnOff::Off
        }
    }

    fn to_on_off(self) -> OnOff {
        if self {
            OnOff::On
        } else {
            OnOff::Off
        }
    }
}

impl IntoOnOff for u64 {
    open spec fn as_on_off(self) -> OnOff {
        if self == 0 {
            OnOff::Off
        } else {
            OnOff::On
        }
    }

    fn to_on_off(self) -> OnOff {
        if self == 0 {
            OnOff::Off
        } else {
            OnOff::On
        }
    }
}

/// A value the builders accept where a `canmount` property is set.
pub trait IntoOnOffNoAuto: Sized {
    /// The value this converts to.
    spec fn as_on_off_no_auto(self) -> OnOffNoAuto;

    /// Converts to the `canmount` value.
    fn to_on_off_no_auto(self) -> (r: OnOffNoAuto)
        ensures
            r == self.as_on_off_no_auto(),
    ;
}

impl IntoOnOffNoAuto for OnOffNoAuto {
    open spec fn as_on_off_no_auto(self) -> OnOffNoAuto {
        self
    }

    fn to_on_off_no_auto(self) -> OnOffNoAuto {
        self
    }
}

impl IntoOnOffNoAuto for bool {
    open spec fn as_on_off_no_auto(self) -> OnOffNoAuto {
        if self {
            OnOffNoAuto::On
        } else {
            OnOffNoAuto::Off
        }
    }

    fn to_on_off_no_auto(self) -> OnOffNoAuto {
        if self {
            OnOffNoAuto::On
        } else {
            OnOffNoAuto::Off
        }
    }
}

/// The checksum algorithm a stored numeric property value stands for.
impl CheckSumAlgo {
    /// The algorithm the engine's numeric value stands for; an
    /// unrecognised value reads as the default, on.
    pub open spec fn from_u64_spec(v: u64) -> CheckSumAlgo {
        if v == 2 {
            CheckSumAlgo::Off
        } else if v == 6 {
            CheckSumAlgo::Fletcher2
        } else if v == 7 {
            CheckSumAlgo::Fletcher4
        } else if v == 8 {
            CheckSumAlgo::Sha256
        } else if v == 11 {
            CheckSumAlgo::Sha512
        } else if v == 12 {
            CheckSumAlgo::Skein
        } else if v == 13 {
            CheckSumAlgo::Edonr
        } else {
            CheckSumAlgo::On
        }
    }

    /// The algorithm the engine's numeric value stands for.
    pub fn from_u64(v: u64) -> (r: CheckSumAlgo)
        ensures
            r == CheckSumAlgo::from_u64_spec(v),
    {
        if v == 2 {
            CheckSumAlgo::Off
        } else if v == 6 {
            CheckSumAlgo::Fletcher2
        } else if v == 7 {
            CheckSumAlgo::Fletcher4
        } else if v == 8 {
            CheckSumAlgo::Sha256
        } else if v == 11 {
            CheckSumAlgo::Sha512
        } else if v == 12 {
            CheckSumAlgo::Skein
        } else if v == 13 {
            CheckSumAlgo::Edonr
        } else {
            CheckSumAlgo::On
        }
    }
}

/// The compression algorithm a stored numeric property value stands for.
impl CompressionAlgo {
    /// The algorithm the engine's numeric value stands for; an
    /// unrecognised value reads as the default, on.
    pub open spec fn from_u64_spec(v: u64) -> CompressionAlgo {
        if v == 2 {
            CompressionAlgo::Off
        } else if v == 3 {
            CompressionAlgo::Lzjb
        } else if 5 <= v && v <= 13 {
            CompressionAlgo::Gzip
        } else if v == 14 {
            CompressionAlgo::Zle
        } else if v == 15 {
            CompressionAlgo::Lz4
        } else if v == 16 {
            CompressionAlgo::Zstd
        } else {
            CompressionAlgo::On
        }
    }

    /// The algorithm the engine's numeric value stands for.
    pub fn from_u64(v: u64) -> (r: CompressionAlgo)
        ensures
            r == CompressionAlgo::from_u64_spec(v),
    {
        if v == 2 {
            CompressionAlgo::Off
        } else if v == 3 {
            CompressionAlgo::Lzjb
        } else if 5 <= v && v <= 13 {
            CompressionAlgo::Gzip
        } else if v == 14 {
            CompressionAlgo::Zle
        } else if v == 15 {
            CompressionAlgo::Lz4
        } else if v == 16 {
            CompressionAlgo::Zstd
        } else {
            CompressionAlgo::On
        }
    }
}

} // verus!
