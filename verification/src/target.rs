//! Closed catalog of CPU microarchitecture targets recognized by the
//! external build tool, each with its canonical uppercase token.

use vstd::prelude::*;

verus! {

/// A CPU microarchitecture the external build should optimize for.
///
/// The set is closed: an out-of-range value is a type-system
/// impossibility, so no runtime validation is needed.
#[derive(Debug, Clone, Copy)]
#[allow(non_camel_case_types)]
pub enum Target {
    // X86/X86_64 Intel
    P2,
    KATMAI,
    COPPERMINE,
    NORTHWOOD,
    PRESCOTT,
    BANIAS,
    YONAH,
    CORE2,
    PENRYN,
    DUNNINGTON,
    NEHALEM,
    SANDYBRIDGE,
    HASWELL,
    SKYLAKEX,
    ATOM,
    // X86/X86_64 AMD
    ATHLON,
    OPTERON,
    OPTERON_SSE3,
    BARCELONA,
    SHANGHAI,
    ISTANBUL,
    BOBCAT,
    BULLDOZER,
    PILEDRIVER,
    STEAMROLLER,
    EXCAVATOR,
    ZEN,
    // X86/X86_64 generic
    SSE_GENERIC,
    VIAC3,
    NANO,
    // Power
    POWER4,
    POWER5,
    POWER6,
    POWER7,
    POWER8,
    POWER9,
    PPCG4,
    PPC970,
    PPC970MP,
    PPC440,
    PPC440FP2,
    CELL,
    // MIPS
    P5600,
    MIPS1004K,
    MIPS24K,
    // MIPS64
    SICORTEX,
    LOONGSON3A,
    LOONGSON3B,
    I6400,
    P6600,
    I6500,
    // IA64
    ITANIUM2,
    // Sparc
    SPARC,
    SPARCV7,
    // ARM
    CORTEXA15,
    CORTEXA9,
    ARMV7,
    ARMV6,
    ARMV5,
    // ARM64
    ARMV8,
    CORTEXA53,
    CORTEXA57,
    CORTEXA72,
    CORTEXA73,
    NEOVERSEN1,
    EMAG8180,
    FALKOR,
    THUNDERX,
    THUNDERX2T99,
    TSV110,
    // System Z
    ZARCH_GENERIC,
    Z13,
    Z14,
}

impl Target {
    /// The canonical token of this target, as a sequence of characters.
    pub open spec fn spec_token(self) -> Seq<char> {
        match self {
            Target::P2 => "P2"@,
            Target::KATMAI => "KATMAI"@,
            Target::COPPERMINE => "COPPERMINE"@,
            Target::NORTHWOOD => "NORTHWOOD"@,
            Target::PRESCOTT => "PRESCOTT"@,
            Target::BANIAS => "BANIAS"@,
            Target::YONAH => "YONAH"@,
            Target::CORE2 => "CORE2"@,
            Target::PENRYN => "PENRYN"@,
            Target::DUNNINGTON => "DUNNINGTON"@,
            Target::NEHALEM => "NEHALEM"@,
            Target::SANDYBRIDGE => "SANDYBRIDGE"@,
            Target::HASWELL => "HASWELL"@,
            Target::SKYLAKEX => "SKYLAKEX"@,
            Target::ATOM => "ATOM"@,
            Target::ATHLON => "ATHLON"@,
            Target::OPTERON => "OPTERON"@,
            Target::OPTERON_SSE3 => "OPTERON_SSE3"@,
            Target::BARCELONA => "BARCELONA"@,
            Target::SHANGHAI => "SHANGHAI"@,
            Target::ISTANBUL => "ISTANBUL"@,
            Target::BOBCAT => "BOBCAT"@,
            Target::BULLDOZER => "BULLDOZER"@,
            Target::PILEDRIVER => "PILEDRIVER"@,
            Target::STEAMROLLER => "STEAMROLLER"@,
            Target::EXCAVATOR => "EXCAVATOR"@,
            Target::ZEN => "ZEN"@,
            Target::SSE_GENERIC => "SSE_GENERIC"@,
            Target::VIAC3 => "VIAC3"@,
            Target::NANO => "NANO"@,
            Target::POWER4 => "POWER4"@,
            Target::POWER5 => "POWER5"@,
            Target::POWER6 => "POWER6"@,
            Target::POWER7 => "POWER7"@,
            Target::POWER8 => "POWER8"@,
            Target::POWER9 => "POWER9"@,
            Target::PPCG4 => "PPCG4"@,
            Target::PPC970 => "PPC970"@,
            Target::PPC970MP => "PPC970MP"@,
            Target::PPC440 => "PPC440"@,
            Target::PPC440FP2 => "PPC440FP2"@,
            Target::CELL => "CELL"@,
            Target::P5600 => "P5600"@,
            Target::MIPS1004K => "MIPS1004K"@,
            Target::MIPS24K => "MIPS24K"@,
            Target::SICORTEX => "SICORTEX"@,
            Target::LOONGSON3A => "LOONGSON3A"@,
            Target::LOONGSON3B => "LOONGSON3B"@,
            Target::I6400 => "I6400"@,
            Target::P6600 => "P6600"@,
            Target::I6500 => "I6500"@,
            Target::ITANIUM2 => "ITANIUM2"@,
            Target::SPARC => "SPARC"@,
            Target::SPARCV7 => "SPARCV7"@,
            Target::CORTEXA15 => "CORTEXA15"@,
            Target::CORTEXA9 => "CORTEXA9"@,
            Target::ARMV7 => "ARMV7"@,
            Target::ARMV6 => "ARMV6"@,
            Target::ARMV5 => "ARMV5"@,
            Target::ARMV8 => "ARMV8"@,
            Target::CORTEXA53 => "CORTEXA53"@,
            Target::CORTEXA57 => "CORTEXA57"@,
            Target::CORTEXA72 => "CORTEXA72"@,
            Target::CORTEXA73 => "CORTEXA73"@,
            Target::NEOVERSEN1 => "NEOVERSEN1"@,
            Target::EMAG8180 => "EMAG8180"@,
            Target::FALKOR => "FALKOR"@,
            Target::THUNDERX => "THUNDERX"@,
            Target::THUNDERX2T99 => "THUNDERX2T99"@,
            Target::TSV110 => "TSV110"@,
            Target::ZARCH_GENERIC => "ZARCH_GENERIC"@,
            Target::Z13 => "Z13"@,
            Target::Z14 => "Z14"@,
        }
    }

    /// The canonical uppercase identifier matching the external build
    /// tool's recognized target names.
    pub fn token(&self) -> (r: &'static str)
        ensures
            r@ == self.spec_token(),
    {
        match self {
            Target::P2 => "P2",
            Target::KATMAI => "KATMAI",
            Target::COPPERMINE => "COPPERMINE",
            Target::NORTHWOOD => "NORTHWOOD",
            Target::PRESCOTT => "PRESCOTT",
            Target::BANIAS => "BANIAS",
            Target::YONAH => "YONAH",
            Target::CORE2 => "CORE2",
            Target::PENRYN => "PENRYN",
            Target::DUNNINGTON => "DUNNINGTON",
            Target::NEHALEM => "NEHALEM",
            Target::SANDYBRIDGE => "SANDYBRIDGE",
            Target::HASWELL => "HASWELL",
            Target::SKYLAKEX => "SKYLAKEX",
            Target::ATOM => "ATOM",
            Target::ATHLON => "ATHLON",
            Target::OPTERON => "OPTERON",
            Target::OPTERON_SSE3 => "OPTERON_SSE3",
            Target::BARCELONA => "BARCELONA",
            Target::SHANGHAI => "SHANGHAI",
            Target::ISTANBUL => "ISTANBUL",
            Target::BOBCAT => "BOBCAT",
            Target::BULLDOZER => "BULLDOZER",
            Target::PILEDRIVER => "PILEDRIVER",
            Target::STEAMROLLER => "STEAMROLLER",
            Target::EXCAVATOR => "EXCAVATOR",
            Target::ZEN => "ZEN",
            Target::SSE_GENERIC => "SSE_GENERIC",
            Target::VIAC3 => "VIAC3",
            Target::NANO => "NANO",
            Target::POWER4 => "POWER4",
            Target::POWER5 => "POWER5",
            Target::POWER6 => "POWER6",
            Target::POWER7 => "POWER7",
            Target::POWER8 => "POWER8",
            Target::POWER9 => "POWER9",
            Target::PPCG4 => "PPCG4",
            Target::PPC970 => "PPC970",
            Target::PPC970MP => "PPC970MP",
            Target::PPC440 => "PPC440",
            Target::PPC440FP2 => "PPC440FP2",
            Target::CELL => "CELL",
            Target::P5600 => "P5600",
            Target::MIPS1004K => "MIPS1004K",
            Target::MIPS24K => "MIPS24K",
            Target::SICORTEX => "SICORTEX",
            Target::LOONGSON3A => "LOONGSON3A",
            Target::LOONGSON3B => "LOONGSON3B",
            Target::I6400 => "I6400",
            Target::P6600 => "P6600",
            Target::I6500 => "I6500",
            Target::ITANIUM2 => "ITANIUM2",
            Target::SPARC => "SPARC",
            Target::SPARCV7 => "SPARCV7",
            Target::CORTEXA15 => "CORTEXA15",
            Target::CORTEXA9 => "CORTEXA9",
            Target::ARMV7 => "ARMV7",
            Target::ARMV6 => "ARMV6",
            Target::ARMV5 => "ARMV5",
            Target::ARMV8 => "ARMV8",
            Target::CORTEXA53 => "CORTEXA53",
            Target::CORTEXA57 => "CORTEXA57",
            Target::CORTEXA72 => "CORTEXA72",
            Target::CORTEXA73 => "CORTEXA73",
            Target::NEOVERSEN1 => "NEOVERSEN1",
            Target::EMAG8180 => "EMAG8180",
            Target::FALKOR => "FALKOR",
            Target::THUNDERX => "THUNDERX",
            Target::THUNDERX2T99 => "THUNDERX2T99",
            Target::TSV110 => "TSV110",
            Target::ZARCH_GENERIC => "ZARCH_GENERIC",
            Target::Z13 => "Z13",
            Target::Z14 => "Z14",
        }
    }
}

} // verus!
