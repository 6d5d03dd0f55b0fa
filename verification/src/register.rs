//! The architectural registers and their ordinals.
//!
//! Every register of every width and register file is one variant of
//! [`Register`]. The ordinal of a register is its position in the enumeration,
//! and the registers of one family occupy consecutive ordinals, so that the
//! n-th register of a family is found by adding n to the ordinal of the first.

use vstd::prelude::*;

use crate::constants::NUMBER_OF_REGISTERS;

verus! {

/// An architectural register.
#[allow(clippy::upper_case_acronyms)]
#[derive(Clone, Copy, Debug, PartialEq, Eq, Structural, Hash)]
pub enum Register {
    // The absence of a register.
    NoRegister,
    // The 8-bit general-purpose registers.
    AL,
    CL,
    DL,
    BL,
    AH,
    CH,
    DH,
    BH,
    SPL,
    BPL,
    SIL,
    DIL,
    R8L,
    R9L,
    R10L,
    R11L,
    R12L,
    R13L,
    R14L,
    R15L,
    // The 16-bit general-purpose registers.
    AX,
    CX,
    DX,
    BX,
    SP,
    BP,
    SI,
    DI,
    R8W,
    R9W,
    R10W,
    R11W,
    R12W,
    R13W,
    R14W,
    R15W,
    // The 32-bit general-purpose registers.
    EAX,
    ECX,
    EDX,
    EBX,
    ESP,
    EBP,
    ESI,
    EDI,
    R8D,
    R9D,
    R10D,
    R11D,
    R12D,
    R13D,
    R14D,
    R15D,
    // The 64-bit general-purpose registers.
    RAX,
    RCX,
    RDX,
    RBX,
    RSP,
    RBP,
    RSI,
    RDI,
    R8,
    R9,
    R10,
    R11,
    R12,
    R13,
    R14,
    R15,
    // The instruction pointers.
    EIP,
    RIP,
    // The segment registers.
    ES,
    CS,
    SS,
    DS,
    FS,
    GS,
    // The 128-bit vector registers.
    XMM0,
    XMM1,
    XMM2,
    XMM3,
    XMM4,
    XMM5,
    XMM6,
    XMM7,
    XMM8,
    XMM9,
    XMM10,
    XMM11,
    XMM12,
    XMM13,
    XMM14,
    XMM15,
    XMM16,
    XMM17,
    XMM18,
    XMM19,
    XMM20,
    XMM21,
    XMM22,
    XMM23,
    XMM24,
    XMM25,
    XMM26,
    XMM27,
    XMM28,
    XMM29,
    XMM30,
    XMM31,
    // The 256-bit vector registers.
    YMM0,
    YMM1,
    YMM2,
    YMM3,
    YMM4,
    YMM5,
    YMM6,
    YMM7,
    YMM8,
    YMM9,
    YMM10,
    YMM11,
    YMM12,
    YMM13,
    YMM14,
    YMM15,
    YMM16,
    YMM17,
    YMM18,
    YMM19,
    YMM20,
    YMM21,
    YMM22,
    YMM23,
    YMM24,
    YMM25,
    YMM26,
    YMM27,
    YMM28,
    YMM29,
    YMM30,
    YMM31,
    // The 512-bit vector registers.
    ZMM0,
    ZMM1,
    ZMM2,
    ZMM3,
    ZMM4,
    ZMM5,
    ZMM6,
    ZMM7,
    ZMM8,
    ZMM9,
    ZMM10,
    ZMM11,
    ZMM12,
    ZMM13,
    ZMM14,
    ZMM15,
    ZMM16,
    ZMM17,
    ZMM18,
    ZMM19,
    ZMM20,
    ZMM21,
    ZMM22,
    ZMM23,
    ZMM24,
    ZMM25,
    ZMM26,
    ZMM27,
    ZMM28,
    ZMM29,
    ZMM30,
    ZMM31,
    // The opmask registers.
    K0,
    K1,
    K2,
    K3,
    K4,
    K5,
    K6,
    K7,
    // The bound registers.
    BND0,
    BND1,
    BND2,
    BND3,
    // The control registers.
    CR0,
    CR1,
    CR2,
    CR3,
    CR4,
    CR5,
    CR6,
    CR7,
    CR8,
    CR9,
    CR10,
    CR11,
    CR12,
    CR13,
    CR14,
    CR15,
    // The debug registers.
    DR0,
    DR1,
    DR2,
    DR3,
    DR4,
    DR5,
    DR6,
    DR7,
    DR8,
    DR9,
    DR10,
    DR11,
    DR12,
    DR13,
    DR14,
    DR15,
    // The floating-point stack registers; `ST0` is the top of the stack.
    ST0,
    ST1,
    ST2,
    ST3,
    ST4,
    ST5,
    ST6,
    ST7,
    // The 64-bit multimedia registers.
    MM0,
    MM1,
    MM2,
    MM3,
    MM4,
    MM5,
    MM6,
    MM7,
    // The test registers.
    TR0,
    TR1,
    TR2,
    TR3,
    TR4,
    TR5,
    TR6,
    TR7,
}

impl Register {
    /// The position of this register in the enumeration.
    pub open spec fn spec_ordinal(self) -> u32 {
        match self {
            Register::NoRegister => 0,
            Register::AL => 1,
            Register::CL => 2,
            Register::DL => 3,
            Register::BL => 4,
            Register::AH => 5,
            Register::CH => 6,
            Register::DH => 7,
            Register::BH => 8,
            Register::SPL => 9,
            Register::BPL => 10,
            Register::SIL => 11,
            Register::DIL => 12,
            Register::R8L => 13,
            Register::R9L => 14,
            Register::R10L => 15,
            Register::R11L => 16,
            Register::R12L => 17,
            Register::R13L => 18,
            Register::R14L => 19,
            Register::R15L => 20,
            Register::AX => 21,
            Register::CX => 22,
            Register::DX => 23,
            Register::BX => 24,
            Register::SP => 25,
            Register::BP => 26,
            Register::SI => 27,
            Register::DI => 28,
            Register::R8W => 29,
            Register::R9W => 30,
            Register::R10W => 31,
            Register::R11W => 32,
            Register::R12W => 33,
            Register::R13W => 34,
            Register::R14W => 35,
            Register::R15W => 36,
            Register::EAX => 37,
            Register::ECX => 38,
            Register::EDX => 39,
            Register::EBX => 40,
            Register::ESP => 41,
            Register::EBP => 42,
            Register::ESI => 43,
            Register::EDI => 44,
            Register::R8D => 45,
            Register::R9D => 46,
            Register::R10D => 47,
            Register::R11D => 48,
            Register::R12D => 49,
            Register::R13D => 50,
            Register::R14D => 51,
            Register::R15D => 52,
            Register::RAX => 53,
            Register::RCX => 54,
            Register::RDX => 55,
            Register::RBX => 56,
            Register::RSP => 57,
            Register::RBP => 58,
            Register::RSI => 59,
            Register::RDI => 60,
            Register::R8 => 61,
            Register::R9 => 62,
            Register::R10 => 63,
            Register::R11 => 64,
            Register::R12 => 65,
            Register::R13 => 66,
            Register::R14 => 67,
            Register::R15 => 68,
            Register::EIP => 69,
            Register::RIP => 70,
            Register::ES => 71,
            Register::CS => 72,
            Register::SS => 73,
            Register::DS => 74,
            Register::FS => 75,
            Register::GS => 76,
            Register::XMM0 => 77,
            Register::XMM1 => 78,
            Register::XMM2 => 79,
            Register::XMM3 => 80,
            Register::XMM4 => 81,
            Register::XMM5 => 82,
            Register::XMM6 => 83,
            Register::XMM7 => 84,
            Register::XMM8 => 85,
            Register::XMM9 => 86,
            Register::XMM10 => 87,
            Register::XMM11 => 88,
            Register::XMM12 => 89,
            Register::XMM13 => 90,
            Register::XMM14 => 91,
            Register::XMM15 => 92,
            Register::XMM16 => 93,
            Register::XMM17 => 94,
            Register::XMM18 => 95,
            Register::XMM19 => 96,
            Register::XMM20 => 97,
            Register::XMM21 => 98,
            Register::XMM22 => 99,
            Register::XMM23 => 100,
            Register::XMM24 => 101,
            Register::XMM25 => 102,
            Register::XMM26 => 103,
            Register::XMM27 => 104,
            Register::XMM28 => 105,
            Register::XMM29 => 106,
            Register::XMM30 => 107,
            Register::XMM31 => 108,
            Register::YMM0 => 109,
            Register::YMM1 => 110,
            Register::YMM2 => 111,
            Register::YMM3 => 112,
            Register::YMM4 => 113,
            Register::YMM5 => 114,
            Register::YMM6 => 115,
            Register::YMM7 => 116,
            Register::YMM8 => 117,
            Register::YMM9 => 118,
            Register::YMM10 => 119,
            Register::YMM11 => 120,
            Register::YMM12 => 121,
            Register::YMM13 => 122,
            Register::YMM14 => 123,
            Register::YMM15 => 124,
            Register::YMM16 => 125,
            Register::YMM17 => 126,
            Register::YMM18 => 127,
            Register::YMM19 => 128,
            Register::YMM20 => 129,
            Register::YMM21 => 130,
            Register::YMM22 => 131,
            Register::YMM23 => 132,
            Register::YMM24 => 133,
            Register::YMM25 => 134,
            Register::YMM26 => 135,
            Register::YMM27 => 136,
            Register::YMM28 => 137,
            Register::YMM29 => 138,
            Register::YMM30 => 139,
            Register::YMM31 => 140,
            Register::ZMM0 => 141,
            Register::ZMM1 => 142,
            Register::ZMM2 => 143,
            Register::ZMM3 => 144,
            Register::ZMM4 => 145,
            Register::ZMM5 => 146,
            Register::ZMM6 => 147,
            Register::ZMM7 => 148,
            Register::ZMM8 => 149,
            Register::ZMM9 => 150,
            Register::ZMM10 => 151,
            Register::ZMM11 => 152,
            Register::ZMM12 => 153,
            Register::ZMM13 => 154,
            Register::ZMM14 => 155,
            Register::ZMM15 => 156,
            Register::ZMM16 => 157,
            Register::ZMM17 => 158,
            Register::ZMM18 => 159,
            Register::ZMM19 => 160,
            Register::ZMM20 => 161,
            Register::ZMM21 => 162,
            Register::ZMM22 => 163,
            Register::ZMM23 => 164,
            Register::ZMM24 => 165,
            Register::ZMM25 => 166,
            Register::ZMM26 => 167,
            Register::ZMM27 => 168,
            Register::ZMM28 => 169,
            Register::ZMM29 => 170,
            Register::ZMM30 => 171,
            Register::ZMM31 => 172,
            Register::K0 => 173,
            Register::K1 => 174,
            Register::K2 => 175,
            Register::K3 => 176,
            Register::K4 => 177,
            Register::K5 => 178,
            Register::K6 => 179,
            Register::K7 => 180,
            Register::BND0 => 181,
            Register::BND1 => 182,
            Register::BND2 => 183,
            Register::BND3 => 184,
            Register::CR0 => 185,
            Register::CR1 => 186,
            Register::CR2 => 187,
            Register::CR3 => 188,
            Register::CR4 => 189,
            Register::CR5 => 190,
            Register::CR6 => 191,
            Register::CR7 => 192,
            Register::CR8 => 193,
            Register::CR9 => 194,
            Register::CR10 => 195,
            Register::CR11 => 196,
            Register::CR12 => 197,
            Register::CR13 => 198,
            Register::CR14 => 199,
            Register::CR15 => 200,
            Register::DR0 => 201,
            Register::DR1 => 202,
            Register::DR2 => 203,
            Register::DR3 => 204,
            Register::DR4 => 205,
            Register::DR5 => 206,
            Register::DR6 => 207,
            Register::DR7 => 208,
            Register::DR8 => 209,
            Register::DR9 => 210,
            Register::DR10 => 211,
            Register::DR11 => 212,
            Register::DR12 => 213,
            Register::DR13 => 214,
            Register::DR14 => 215,
            Register::DR15 => 216,
            Register::ST0 => 217,
            Register::ST1 => 218,
            Register::ST2 => 219,
            Register::ST3 => 220,
            Register::ST4 => 221,
            Register::ST5 => 222,
            Register::ST6 => 223,
            Register::ST7 => 224,
            Register::MM0 => 225,
            Register::MM1 => 226,
            Register::MM2 => 227,
            Register::MM3 => 228,
            Register::MM4 => 229,
            Register::MM5 => 230,
            Register::MM6 => 231,
            Register::MM7 => 232,
            Register::TR0 => 233,
            Register::TR1 => 234,
            Register::TR2 => 235,
            Register::TR3 => 236,
            Register::TR4 => 237,
            Register::TR5 => 238,
            Register::TR6 => 239,
            Register::TR7 => 240,
        }
    }

    /// The register at position `n` of the enumeration, if there is one.
    pub open spec fn spec_from_ordinal(n: u32) -> Option<Register> {
        match n {
            0 => Some(Register::NoRegister),
            1 => Some(Register::AL),
            2 => Some(Register::CL),
            3 => Some(Register::DL),
            4 => Some(Register::BL),
            5 => Some(Register::AH),
            6 => Some(Register::CH),
            7 => Some(Register::DH),
            8 => Some(Register::BH),
            9 => Some(Register::SPL),
            10 => Some(Register::BPL),
            11 => Some(Register::SIL),
            12 => Some(Register::DIL),
            13 => Some(Register::R8L),
            14 => Some(Register::R9L),
            15 => Some(Register::R10L),
            16 => Some(Register::R11L),
            17 => Some(Register::R12L),
            18 => Some(Register::R13L),
            19 => Some(Register::R14L),
            20 => Some(Register::R15L),
            21 => Some(Register::AX),
            22 => Some(Register::CX),
            23 => Some(Register::DX),
            24 => Some(Register::BX),
            25 => Some(Register::SP),
            26 => Some(Register::BP),
            27 => Some(Register::SI),
            28 => Some(Register::DI),
            29 => Some(Register::R8W),
            30 => Some(Register::R9W),
            31 => Some(Register::R10W),
            32 => Some(Register::R11W),
            33 => Some(Register::R12W),
            34 => Some(Register::R13W),
            35 => Some(Register::R14W),
            36 => Some(Register::R15W),
            37 => Some(Register::EAX),
            38 => Some(Register::ECX),
            39 => Some(Register::EDX),
            40 => Some(Register::EBX),
            41 => Some(Register::ESP),
            42 => Some(Register::EBP),
            43 => Some(Register::ESI),
            44 => Some(Register::EDI),
            45 => Some(Register::R8D),
            46 => Some(Register::R9D),
            47 => Some(Register::R10D),
            48 => Some(Register::R11D),
            49 => Some(Register::R12D),
            50 => Some(Register::R13D),
            51 => Some(Register::R14D),
            52 => Some(Register::R15D),
            53 => Some(Register::RAX),
            54 => Some(Register::RCX),
            55 => Some(Register::RDX),
            56 => Some(Register::RBX),
            57 => Some(Register::RSP),
            58 => Some(Register::RBP),
            59 => Some(Register::RSI),
            60 => Some(Register::RDI),
            61 => Some(Register::R8),
            62 => Some(Register::R9),
            63 => Some(Register::R10),
            64 => Some(Register::R11),
            65 => Some(Register::R12),
            66 => Some(Register::R13),
            67 => Some(Register::R14),
            68 => Some(Register::R15),
            69 => Some(Register::EIP),
            70 => Some(Register::RIP),
            71 => Some(Register::ES),
            72 => Some(Register::CS),
            73 => Some(Register::SS),
            74 => Some(Register::DS),
            75 => Some(Register::FS),
            76 => Some(Register::GS),
            77 => Some(Register::XMM0),
            78 => Some(Register::XMM1),
            79 => Some(Register::XMM2),
            80 => Some(Register::XMM3),
            81 => Some(Register::XMM4),
            82 => Some(Register::XMM5),
            83 => Some(Register::XMM6),
            84 => Some(Register::XMM7),
            85 => Some(Register::XMM8),
            86 => Some(Register::XMM9),
            87 => Some(Register::XMM10),
            88 => Some(Register::XMM11),
            89 => Some(Register::XMM12),
            90 => Some(Register::XMM13),
            91 => Some(Register::XMM14),
            92 => Some(Register::XMM15),
            93 => Some(Register::XMM16),
            94 => Some(Register::XMM17),
            95 => Some(Register::XMM18),
            96 => Some(Register::XMM19),
            97 => Some(Register::XMM20),
            98 => Some(Register::XMM21),
            99 => Some(Register::XMM22),
            100 => Some(Register::XMM23),
            101 => Some(Register::XMM24),
            102 => Some(Register::XMM25),
            103 => Some(Register::XMM26),
            104 => Some(Register::XMM27),
            105 => Some(Register::XMM28),
            106 => Some(Register::XMM29),
            107 => Some(Register::XMM30),
            108 => Some(Register::XMM31),
            109 => Some(Register::YMM0),
            110 => Some(Register::YMM1),
            111 => Some(Register::YMM2),
            112 => Some(Register::YMM3),
            113 => Some(Register::YMM4),
            114 => Some(Register::YMM5),
            115 => Some(Register::YMM6),
            116 => Some(Register::YMM7),
            117 => Some(Register::YMM8),
            118 => Some(Register::YMM9),
            119 => Some(Register::YMM10),
            120 => Some(Register::YMM11),
            121 => Some(Register::YMM12),
            122 => Some(Register::YMM13),
            123 => Some(Register::YMM14),
            124 => Some(Register::YMM15),
            125 => Some(Register::YMM16),
            126 => Some(Register::YMM17),
            127 => Some(Register::YMM18),
            128 => Some(Register::YMM19),
            129 => Some(Register::YMM20),
            130 => Some(Register::YMM21),
            131 => Some(Register::YMM22),
            132 => Some(Register::YMM23),
            133 => Some(Register::YMM24),
            134 => Some(Register::YMM25),
            135 => Some(Register::YMM26),
            136 => Some(Register::YMM27),
            137 => Some(Register::YMM28),
            138 => Some(Register::YMM29),
            139 => Some(Register::YMM30),
            140 => Some(Register::YMM31),
            141 => Some(Register::ZMM0),
            142 => Some(Register::ZMM1),
            143 => Some(Register::ZMM2),
            144 => Some(Register::ZMM3),
            145 => Some(Register::ZMM4),
            146 => Some(Register::ZMM5),
            147 => Some(Register::ZMM6),
            148 => Some(Register::ZMM7),
            149 => Some(Register::ZMM8),
            150 => Some(Register::ZMM9),
            151 => Some(Register::ZMM10),
            152 => Some(Register::ZMM11),
            153 => Some(Register::ZMM12),
            154 => Some(Register::ZMM13),
            155 => Some(Register::ZMM14),
            156 => Some(Register::ZMM15),
            157 => Some(Register::ZMM16),
            158 => Some(Register::ZMM17),
            159 => Some(Register::ZMM18),
            160 => Some(Register::ZMM19),
            161 => Some(Register::ZMM20),
            162 => Some(Register::ZMM21),
            163 => Some(Register::ZMM22),
            164 => Some(Register::ZMM23),
            165 => Some(Register::ZMM24),
            166 => Some(Register::ZMM25),
            167 => Some(Register::ZMM26),
            168 => Some(Register::ZMM27),
            169 => Some(Register::ZMM28),
            170 => Some(Register::ZMM29),
            171 => Some(Register::ZMM30),
            172 => Some(Register::ZMM31),
            173 => Some(Register::K0),
            174 => Some(Register::K1),
            175 => Some(Register::K2),
            176 => Some(Register::K3),
            177 => Some(Register::K4),
            178 => Some(Register::K5),
            179 => Some(Register::K6),
            180 => Some(Register::K7),
            181 => Some(Register::BND0),
            182 => Some(Register::BND1),
            183 => Some(Register::BND2),
            184 => Some(Register::BND3),
            185 => Some(Register::CR0),
            186 => Some(Register::CR1),
            187 => Some(Register::CR2),
            188 => Some(Register::CR3),
            189 => Some(Register::CR4),
            190 => Some(Register::CR5),
            191 => Some(Register::CR6),
            192 => Some(Register::CR7),
            193 => Some(Register::CR8),
            194 => Some(Register::CR9),
            195 => Some(Register::CR10),
            196 => Some(Register::CR11),
            197 => Some(Register::CR12),
            198 => Some(Register::CR13),
            199 => Some(Register::CR14),
            200 => Some(Register::CR15),
            201 => Some(Register::DR0),
            202 => Some(Register::DR1),
            203 => Some(Register::DR2),
            204 => Some(Register::DR3),
            205 => Some(Register::DR4),
            206 => Some(Register::DR5),
            207 => Some(Register::DR6),
            208 => Some(Register::DR7),
            209 => Some(Register::DR8),
            210 => Some(Register::DR9),
            211 => Some(Register::DR10),
            212 => Some(Register::DR11),
            213 => Some(Register::DR12),
            214 => Some(Register::DR13),
            215 => Some(Register::DR14),
            216 => Some(Register::DR15),
            217 => Some(Register::ST0),
            218 => Some(Register::ST1),
            219 => Some(Register::ST2),
            220 => Some(Register::ST3),
            221 => Some(Register::ST4),
            222 => Some(Register::ST5),
            223 => Some(Register::ST6),
            224 => Some(Register::ST7),
            225 => Some(Register::MM0),
            226 => Some(Register::MM1),
            227 => Some(Register::MM2),
            228 => Some(Register::MM3),
            229 => Some(Register::MM4),
            230 => Some(Register::MM5),
            231 => Some(Register::MM6),
            232 => Some(Register::MM7),
            233 => Some(Register::TR0),
            234 => Some(Register::TR1),
            235 => Some(Register::TR2),
            236 => Some(Register::TR3),
            237 => Some(Register::TR4),
            238 => Some(Register::TR5),
            239 => Some(Register::TR6),
            240 => Some(Register::TR7),
            _ => None,
        }
    }

    /// The position of this register in the enumeration.
    #[verifier::when_used_as_spec(spec_ordinal)]
    pub fn ordinal(self) -> (n: u32)
        ensures
            n == self.spec_ordinal(),
    {
        match self {
            Register::NoRegister => 0,
            Register::AL => 1,
            Register::CL => 2,
            Register::DL => 3,
            Register::BL => 4,
            Register::AH => 5,
            Register::CH => 6,
            Register::DH => 7,
            Register::BH => 8,
            Register::SPL => 9,
            Register::BPL => 10,
            Register::SIL => 11,
            Register::DIL => 12,
            Register::R8L => 13,
            Register::R9L => 14,
            Register::R10L => 15,
            Register::R11L => 16,
            Register::R12L => 17,
            Register::R13L => 18,
            Register::R14L => 19,
            Register::R15L => 20,
            Register::AX => 21,
            Register::CX => 22,
            Register::DX => 23,
            Register::BX => 24,
            Register::SP => 25,
            Register::BP => 26,
            Register::SI => 27,
            Register::DI => 28,
            Register::R8W => 29,
            Register::R9W => 30,
            Register::R10W => 31,
            Register::R11W => 32,
            Register::R12W => 33,
            Register::R13W => 34,
            Register::R14W => 35,
            Register::R15W => 36,
            Register::EAX => 37,
            Register::ECX => 38,
            Register::EDX => 39,
            Register::EBX => 40,
            Register::ESP => 41,
            Register::EBP => 42,
            Register::ESI => 43,
            Register::EDI => 44,
            Register::R8D => 45,
            Register::R9D => 46,
            Register::R10D => 47,
            Register::R11D => 48,
            Register::R12D => 49,
            Register::R13D => 50,
            Register::R14D => 51,
            Register::R15D => 52,
            Register::RAX => 53,
            Register::RCX => 54,
            Register::RDX => 55,
            Register::RBX => 56,
            Register::RSP => 57,
            Register::RBP => 58,
            Register::RSI => 59,
            Register::RDI => 60,
            Register::R8 => 61,
            Register::R9 => 62,
            Register::R10 => 63,
            Register::R11 => 64,
            Register::R12 => 65,
            Register::R13 => 66,
            Register::R14 => 67,
            Register::R15 => 68,
            Register::EIP => 69,
            Register::RIP => 70,
            Register::ES => 71,
            Register::CS => 72,
            Register::SS => 73,
            Register::DS => 74,
            Register::FS => 75,
            Register::GS => 76,
            Register::XMM0 => 77,
            Register::XMM1 => 78,
            Register::XMM2 => 79,
            Register::XMM3 => 80,
            Register::XMM4 => 81,
            Register::XMM5 => 82,
            Register::XMM6 => 83,
            Register::XMM7 => 84,
            Register::XMM8 => 85,
            Register::XMM9 => 86,
            Register::XMM10 => 87,
            Register::XMM11 => 88,
            Register::XMM12 => 89,
            Register::XMM13 => 90,
            Register::XMM14 => 91,
            Register::XMM15 => 92,
            Register::XMM16 => 93,
            Register::XMM17 => 94,
            Register::XMM18 => 95,
            Register::XMM19 => 96,
            Register::XMM20 => 97,
            Register::XMM21 => 98,
            Register::XMM22 => 99,
            Register::XMM23 => 100,
            Register::XMM24 => 101,
            Register::XMM25 => 102,
            Register::XMM26 => 103,
            Register::XMM27 => 104,
            Register::XMM28 => 105,
            Register::XMM29 => 106,
            Register::XMM30 => 107,
            Register::XMM31 => 108,
            Register::YMM0 => 109,
            Register::YMM1 => 110,
            Register::YMM2 => 111,
            Register::YMM3 => 112,
            Register::YMM4 => 113,
            Register::YMM5 => 114,
            Register::YMM6 => 115,
            Register::YMM7 => 116,
            Register::YMM8 => 117,
            Register::YMM9 => 118,
            Register::YMM10 => 119,
            Register::YMM11 => 120,
            Register::YMM12 => 121,
            Register::YMM13 => 122,
            Register::YMM14 => 123,
            Register::YMM15 => 124,
            Register::YMM16 => 125,
            Register::YMM17 => 126,
            Register::YMM18 => 127,
            Register::YMM19 => 128,
            Register::YMM20 => 129,
            Register::YMM21 => 130,
            Register::YMM22 => 131,
            Register::YMM23 => 132,
            Register::YMM24 => 133,
            Register::YMM25 => 134,
            Register::YMM26 => 135,
            Register::YMM27 => 136,
            Register::YMM28 => 137,
            Register::YMM29 => 138,
            Register::YMM30 => 139,
            Register::YMM31 => 140,
            Register::ZMM0 => 141,
            Register::ZMM1 => 142,
            Register::ZMM2 => 143,
            Register::ZMM3 => 144,
            Register::ZMM4 => 145,
            Register::ZMM5 => 146,
            Register::ZMM6 => 147,
            Register::ZMM7 => 148,
            Register::ZMM8 => 149,
            Register::ZMM9 => 150,
            Register::ZMM10 => 151,
            Register::ZMM11 => 152,
            Register::ZMM12 => 153,
            Register::ZMM13 => 154,
            Register::ZMM14 => 155,
            Register::ZMM15 => 156,
            Register::ZMM16 => 157,
            Register::ZMM17 => 158,
            Register::ZMM18 => 159,
            Register::ZMM19 => 160,
            Register::ZMM20 => 161,
            Register::ZMM21 => 162,
            Register::ZMM22 => 163,
            Register::ZMM23 => 164,
            Register::ZMM24 => 165,
            Register::ZMM25 => 166,
            Register::ZMM26 => 167,
            Register::ZMM27 => 168,
            Register::ZMM28 => 169,
            Register::ZMM29 => 170,
            Register::ZMM30 => 171,
            Register::ZMM31 => 172,
            Register::K0 => 173,
            Register::K1 => 174,
            Register::K2 => 175,
            Register::K3 => 176,
            Register::K4 => 177,
            Register::K5 => 178,
            Register::K6 => 179,
            Register::K7 => 180,
            Register::BND0 => 181,
            Register::BND1 => 182,
            Register::BND2 => 183,
            Register::BND3 => 184,
            Register::CR0 => 185,
            Register::CR1 => 186,
            Register::CR2 => 187,
            Register::CR3 => 188,
            Register::CR4 => 189,
            Register::CR5 => 190,
            Register::CR6 => 191,
            Register::CR7 => 192,
            Register::CR8 => 193,
            Register::CR9 => 194,
            Register::CR10 => 195,
            Register::CR11 => 196,
            Register::CR12 => 197,
            Register::CR13 => 198,
            Register::CR14 => 199,
            Register::CR15 => 200,
            Register::DR0 => 201,
            Register::DR1 => 202,
            Register::DR2 => 203,
            Register::DR3 => 204,
            Register::DR4 => 205,
            Register::DR5 => 206,
            Register::DR6 => 207,
            Register::DR7 => 208,
            Register::DR8 => 209,
            Register::DR9 => 210,
            Register::DR10 => 211,
            Register::DR11 => 212,
            Register::DR12 => 213,
            Register::DR13 => 214,
            Register::DR14 => 215,
            Register::DR15 => 216,
            Register::ST0 => 217,
            Register::ST1 => 218,
            Register::ST2 => 219,
            Register::ST3 => 220,
            Register::ST4 => 221,
            Register::ST5 => 222,
            Register::ST6 => 223,
            Register::ST7 => 224,
            Register::MM0 => 225,
            Register::MM1 => 226,
            Register::MM2 => 227,
            Register::MM3 => 228,
            Register::MM4 => 229,
            Register::MM5 => 230,
            Register::MM6 => 231,
            Register::MM7 => 232,
            Register::TR0 => 233,
            Register::TR1 => 234,
            Register::TR2 => 235,
            Register::TR3 => 236,
            Register::TR4 => 237,
            Register::TR5 => 238,
            Register::TR6 => 239,
            Register::TR7 => 240,
        }
    }

    /// The register at position `n` of the enumeration; `None` when `n` is not
    /// the ordinal of any register.
    #[verifier::when_used_as_spec(spec_from_ordinal)]
    pub fn from_ordinal(n: u32) -> (register: Option<Register>)
        ensures
            register == Register::spec_from_ordinal(n),
    {
        match n {
            0 => Some(Register::NoRegister),
            1 => Some(Register::AL),
            2 => Some(Register::CL),
            3 => Some(Register::DL),
            4 => Some(Register::BL),
            5 => Some(Register::AH),
            6 => Some(Register::CH),
            7 => Some(Register::DH),
            8 => Some(Register::BH),
            9 => Some(Register::SPL),
            10 => Some(Register::BPL),
            11 => Some(Register::SIL),
            12 => Some(Register::DIL),
            13 => Some(Register::R8L),
            14 => Some(Register::R9L),
            15 => Some(Register::R10L),
            16 => Some(Register::R11L),
            17 => Some(Register::R12L),
            18 => Some(Register::R13L),
            19 => Some(Register::R14L),
            20 => Some(Register::R15L),
            21 => Some(Register::AX),
            22 => Some(Register::CX),
            23 => Some(Register::DX),
            24 => Some(Register::BX),
            25 => Some(Register::SP),
            26 => Some(Register::BP),
            27 => Some(Register::SI),
            28 => Some(Register::DI),
            29 => Some(Register::R8W),
            30 => Some(Register::R9W),
            31 => Some(Register::R10W),
            32 => Some(Register::R11W),
            33 => Some(Register::R12W),
            34 => Some(Register::R13W),
            35 => Some(Register::R14W),
            36 => Some(Register::R15W),
            37 => Some(Register::EAX),
            38 => Some(Register::ECX),
            39 => Some(Register::EDX),
            40 => Some(Register::EBX),
            41 => Some(Register::ESP),
            42 => Some(Register::EBP),
            43 => Some(Register::ESI),
            44 => Some(Register::EDI),
            45 => Some(Register::R8D),
            46 => Some(Register::R9D),
            47 => Some(Register::R10D),
            48 => Some(Register::R11D),
            49 => Some(Register::R12D),
            50 => Some(Register::R13D),
            51 => Some(Register::R14D),
            52 => Some(Register::R15D),
            53 => Some(Register::RAX),
            54 => Some(Register::RCX),
            55 => Some(Register::RDX),
            56 => Some(Register::RBX),
            57 => Some(Register::RSP),
            58 => Some(Register::RBP),
            59 => Some(Register::RSI),
            60 => Some(Register::RDI),
            61 => Some(Register::R8),
            62 => Some(Register::R9),
            63 => Some(Register::R10),
            64 => Some(Register::R11),
            65 => Some(Register::R12),
            66 => Some(Register::R13),
            67 => Some(Register::R14),
            68 => Some(Register::R15),
            69 => Some(Register::EIP),
            70 => Some(Register::RIP),
            71 => Some(Register::ES),
            72 => Some(Register::CS),
            73 => Some(Register::SS),
            74 => Some(Register::DS),
            75 => Some(Register::FS),
            76 => Some(Register::GS),
            77 => Some(Register::XMM0),
            78 => Some(Register::XMM1),
            79 => Some(Register::XMM2),
            80 => Some(Register::XMM3),
            81 => Some(Register::XMM4),
            82 => Some(Register::XMM5),
            83 => Some(Register::XMM6),
            84 => Some(Register::XMM7),
            85 => Some(Register::XMM8),
            86 => Some(Register::XMM9),
            87 => Some(Register::XMM10),
            88 => Some(Register::XMM11),
            89 => Some(Register::XMM12),
            90 => Some(Register::XMM13),
            91 => Some(Register::XMM14),
            92 => Some(Register::XMM15),
            93 => Some(Register::XMM16),
            94 => Some(Register::XMM17),
            95 => Some(Register::XMM18),
            96 => Some(Register::XMM19),
            97 => Some(Register::XMM20),
            98 => Some(Register::XMM21),
            99 => Some(Register::XMM22),
            100 => Some(Register::XMM23),
            101 => Some(Register::XMM24),
            102 => Some(Register::XMM25),
            103 => Some(Register::XMM26),
            104 => Some(Register::XMM27),
            105 => Some(Register::XMM28),
            106 => Some(Register::XMM29),
            107 => Some(Register::XMM30),
            108 => Some(Register::XMM31),
            109 => Some(Register::YMM0),
            110 => Some(Register::YMM1),
            111 => Some(Register::YMM2),
            112 => Some(Register::YMM3),
            113 => Some(Register::YMM4),
            114 => Some(Register::YMM5),
            115 => Some(Register::YMM6),
            116 => Some(Register::YMM7),
            117 => Some(Register::YMM8),
            118 => Some(Register::YMM9),
            119 => Some(Register::YMM10),
            120 => Some(Register::YMM11),
            121 => Some(Register::YMM12),
            122 => Some(Register::YMM13),
            123 => Some(Register::YMM14),
            124 => Some(Register::YMM15),
            125 => Some(Register::YMM16),
            126 => Some(Register::YMM17),
            127 => Some(Register::YMM18),
            128 => Some(Register::YMM19),
            129 => Some(Register::YMM20),
            130 => Some(Register::YMM21),
            131 => Some(Register::YMM22),
            132 => Some(Register::YMM23),
            133 => Some(Register::YMM24),
            134 => Some(Register::YMM25),
            135 => Some(Register::YMM26),
            136 => Some(Register::YMM27),
            137 => Some(Register::YMM28),
            138 => Some(Register::YMM29),
            139 => Some(Register::YMM30),
            140 => Some(Register::YMM31),
            141 => Some(Register::ZMM0),
            142 => Some(Register::ZMM1),
            143 => Some(Register::ZMM2),
            144 => Some(Register::ZMM3),
            145 => Some(Register::ZMM4),
            146 => Some(Register::ZMM5),
            147 => Some(Register::ZMM6),
            148 => Some(Register::ZMM7),
            149 => Some(Register::ZMM8),
            150 => Some(Register::ZMM9),
            151 => Some(Register::ZMM10),
            152 => Some(Register::ZMM11),
            153 => Some(Register::ZMM12),
            154 => Some(Register::ZMM13),
            155 => Some(Register::ZMM14),
            156 => Some(Register::ZMM15),
            157 => Some(Register::ZMM16),
            158 => Some(Register::ZMM17),
            159 => Some(Register::ZMM18),
            160 => Some(Register::ZMM19),
            161 => Some(Register::ZMM20),
            162 => Some(Register::ZMM21),
            163 => Some(Register::ZMM22),
            164 => Some(Register::ZMM23),
            165 => Some(Register::ZMM24),
            166 => Some(Register::ZMM25),
            167 => Some(Register::ZMM26),
            168 => Some(Register::ZMM27),
            169 => Some(Register::ZMM28),
            170 => Some(Register::ZMM29),
            171 => Some(Register::ZMM30),
            172 => Some(Register::ZMM31),
            173 => Some(Register::K0),
            174 => Some(Register::K1),
            175 => Some(Register::K2),
            176 => Some(Register::K3),
            177 => Some(Register::K4),
            178 => Some(Register::K5),
            179 => Some(Register::K6),
            180 => Some(Register::K7),
            181 => Some(Register::BND0),
            182 => Some(Register::BND1),
            183 => Some(Register::BND2),
            184 => Some(Register::BND3),
            185 => Some(Register::CR0),
            186 => Some(Register::CR1),
            187 => Some(Register::CR2),
            188 => Some(Register::CR3),
            189 => Some(Register::CR4),
            190 => Some(Register::CR5),
            191 => Some(Register::CR6),
            192 => Some(Register::CR7),
            193 => Some(Register::CR8),
            194 => Some(Register::CR9),
            195 => Some(Register::CR10),
            196 => Some(Register::CR11),
            197 => Some(Register::CR12),
            198 => Some(Register::CR13),
            199 => Some(Register::CR14),
            200 => Some(Register::CR15),
            201 => Some(Register::DR0),
            202 => Some(Register::DR1),
            203 => Some(Register::DR2),
            204 => Some(Register::DR3),
            205 => Some(Register::DR4),
            206 => Some(Register::DR5),
            207 => Some(Register::DR6),
            208 => Some(Register::DR7),
            209 => Some(Register::DR8),
            210 => Some(Register::DR9),
            211 => Some(Register::DR10),
            212 => Some(Register::DR11),
            213 => Some(Register::DR12),
            214 => Some(Register::DR13),
            215 => Some(Register::DR14),
            216 => Some(Register::DR15),
            217 => Some(Register::ST0),
            218 => Some(Register::ST1),
            219 => Some(Register::ST2),
            220 => Some(Register::ST3),
            221 => Some(Register::ST4),
            222 => Some(Register::ST5),
            223 => Some(Register::ST6),
            224 => Some(Register::ST7),
            225 => Some(Register::MM0),
            226 => Some(Register::MM1),
            227 => Some(Register::MM2),
            228 => Some(Register::MM3),
            229 => Some(Register::MM4),
            230 => Some(Register::MM5),
            231 => Some(Register::MM6),
            232 => Some(Register::MM7),
            233 => Some(Register::TR0),
            234 => Some(Register::TR1),
            235 => Some(Register::TR2),
            236 => Some(Register::TR3),
            237 => Some(Register::TR4),
            238 => Some(Register::TR5),
            239 => Some(Register::TR6),
            240 => Some(Register::TR7),
            _ => None,
        }
    }

    /// Every register has an ordinal below the number of registers, and is
    /// found again from its ordinal.
    pub proof fn lemma_ordinal_round_trip(self)
        ensures
            self.spec_ordinal() < NUMBER_OF_REGISTERS,
            Register::spec_from_ordinal(self.spec_ordinal()) == Some(self),
    {
    }

    /// Exactly the numbers below the number of registers are ordinals, and the
    /// register found at an ordinal has that ordinal.
    pub proof fn lemma_from_ordinal(n: u32)
        ensures
            Register::spec_from_ordinal(n) is Some <==> n < NUMBER_OF_REGISTERS,
            Register::spec_from_ordinal(n) matches Some(r) ==> r.spec_ordinal() == n,
    {
    }
}

} // verus!
