use vstd::prelude::*;

use crate::two_level::tables_wf;
use crate::two_level::two_level_lookup;
use crate::two_level::two_level_spec;

verus! {

/// The code point that ISO-8859-16 assigns to byte `b`, for `b` in
/// `0x80..=0xFF`: the encoding's table, stated byte by byte.
pub open spec fn forward_spec(b: int) -> u16 {
    if b == 0x80 {
        128
    } else if b == 0x81 {
        129
    } else if b == 0x82 {
        130
    } else if b == 0x83 {
        131
    } else if b == 0x84 {
        132
    } else if b == 0x85 {
        133
    } else if b == 0x86 {
        134
    } else if b == 0x87 {
        135
    } else if b == 0x88 {
        136
    } else if b == 0x89 {
        137
    } else if b == 0x8A {
        138
    } else if b == 0x8B {
        139
    } else if b == 0x8C {
        140
    } else if b == 0x8D {
        141
    } else if b == 0x8E {
        142
    } else if b == 0x8F {
        143
    } else if b == 0x90 {
        144
    } else if b == 0x91 {
        145
    } else if b == 0x92 {
        146
    } else if b == 0x93 {
        147
    } else if b == 0x94 {
        148
    } else if b == 0x95 {
        149
    } else if b == 0x96 {
        150
    } else if b == 0x97 {
        151
    } else if b == 0x98 {
        152
    } else if b == 0x99 {
        153
    } else if b == 0x9A {
        154
    } else if b == 0x9B {
        155
    } else if b == 0x9C {
        156
    } else if b == 0x9D {
        157
    } else if b == 0x9E {
        158
    } else if b == 0x9F {
        159
    } else if b == 0xA0 {
        160
    } else if b == 0xA1 {
        260
    } else if b == 0xA2 {
        261
    } else if b == 0xA3 {
        321
    } else if b == 0xA4 {
        8364
    } else if b == 0xA5 {
        8222
    } else if b == 0xA6 {
        352
    } else if b == 0xA7 {
        167
    } else if b == 0xA8 {
        353
    } else if b == 0xA9 {
        169
    } else if b == 0xAA {
        536
    } else if b == 0xAB {
        171
    } else if b == 0xAC {
        377
    } else if b == 0xAD {
        173
    } else if b == 0xAE {
        378
    } else if b == 0xAF {
        379
    } else if b == 0xB0 {
        176
    } else if b == 0xB1 {
        177
    } else if b == 0xB2 {
        268
    } else if b == 0xB3 {
        322
    } else if b == 0xB4 {
        381
    } else if b == 0xB5 {
        8221
    } else if b == 0xB6 {
        182
    } else if b == 0xB7 {
        183
    } else if b == 0xB8 {
        382
    } else if b == 0xB9 {
        269
    } else if b == 0xBA {
        537
    } else if b == 0xBB {
        187
    } else if b == 0xBC {
        338
    } else if b == 0xBD {
        339
    } else if b == 0xBE {
        376
    } else if b == 0xBF {
        380
    } else if b == 0xC0 {
        192
    } else if b == 0xC1 {
        193
    } else if b == 0xC2 {
        194
    } else if b == 0xC3 {
        258
    } else if b == 0xC4 {
        196
    } else if b == 0xC5 {
        262
    } else if b == 0xC6 {
        198
    } else if b == 0xC7 {
        199
    } else if b == 0xC8 {
        200
    } else if b == 0xC9 {
        201
    } else if b == 0xCA {
        202
    } else if b == 0xCB {
        203
    } else if b == 0xCC {
        204
    } else if b == 0xCD {
        205
    } else if b == 0xCE {
        206
    } else if b == 0xCF {
        207
    } else if b == 0xD0 {
        272
    } else if b == 0xD1 {
        323
    } else if b == 0xD2 {
        210
    } else if b == 0xD3 {
        211
    } else if b == 0xD4 {
        212
    } else if b == 0xD5 {
        336
    } else if b == 0xD6 {
        214
    } else if b == 0xD7 {
        346
    } else if b == 0xD8 {
        368
    } else if b == 0xD9 {
        217
    } else if b == 0xDA {
        218
    } else if b == 0xDB {
        219
    } else if b == 0xDC {
        220
    } else if b == 0xDD {
        280
    } else if b == 0xDE {
        538
    } else if b == 0xDF {
        223
    } else if b == 0xE0 {
        224
    } else if b == 0xE1 {
        225
    } else if b == 0xE2 {
        226
    } else if b == 0xE3 {
        259
    } else if b == 0xE4 {
        228
    } else if b == 0xE5 {
        263
    } else if b == 0xE6 {
        230
    } else if b == 0xE7 {
        231
    } else if b == 0xE8 {
        232
    } else if b == 0xE9 {
        233
    } else if b == 0xEA {
        234
    } else if b == 0xEB {
        235
    } else if b == 0xEC {
        236
    } else if b == 0xED {
        237
    } else if b == 0xEE {
        238
    } else if b == 0xEF {
        239
    } else if b == 0xF0 {
        273
    } else if b == 0xF1 {
        324
    } else if b == 0xF2 {
        242
    } else if b == 0xF3 {
        243
    } else if b == 0xF4 {
        244
    } else if b == 0xF5 {
        337
    } else if b == 0xF6 {
        246
    } else if b == 0xF7 {
        347
    } else if b == 0xF8 {
        369
    } else if b == 0xF9 {
        249
    } else if b == 0xFA {
        250
    } else if b == 0xFB {
        251
    } else if b == 0xFC {
        252
    } else if b == 0xFD {
        281
    } else if b == 0xFE {
        539
    } else if b == 0xFF {
        255
    } else {
        0
    }
}

/// The byte under which ISO-8859-16 encodes code point `cp`, or 0 when the
/// encoding has no byte for `cp`. No byte of this table is below 0x80, so 0
/// is free to act as the "not found" sentinel.
pub open spec fn backward_spec(cp: int) -> u8 {
    if cp == 128 {
        0x80
    } else if cp == 129 {
        0x81
    } else if cp == 130 {
        0x82
    } else if cp == 131 {
        0x83
    } else if cp == 132 {
        0x84
    } else if cp == 133 {
        0x85
    } else if cp == 134 {
        0x86
    } else if cp == 135 {
        0x87
    } else if cp == 136 {
        0x88
    } else if cp == 137 {
        0x89
    } else if cp == 138 {
        0x8A
    } else if cp == 139 {
        0x8B
    } else if cp == 140 {
        0x8C
    } else if cp == 141 {
        0x8D
    } else if cp == 142 {
        0x8E
    } else if cp == 143 {
        0x8F
    } else if cp == 144 {
        0x90
    } else if cp == 145 {
        0x91
    } else if cp == 146 {
        0x92
    } else if cp == 147 {
        0x93
    } else if cp == 148 {
        0x94
    } else if cp == 149 {
        0x95
    } else if cp == 150 {
        0x96
    } else if cp == 151 {
        0x97
    } else if cp == 152 {
        0x98
    } else if cp == 153 {
        0x99
    } else if cp == 154 {
        0x9A
    } else if cp == 155 {
        0x9B
    } else if cp == 156 {
        0x9C
    } else if cp == 157 {
        0x9D
    } else if cp == 158 {
        0x9E
    } else if cp == 159 {
        0x9F
    } else if cp == 160 {
        0xA0
    } else if cp == 167 {
        0xA7
    } else if cp == 169 {
        0xA9
    } else if cp == 171 {
        0xAB
    } else if cp == 173 {
        0xAD
    } else if cp == 176 {
        0xB0
    } else if cp == 177 {
        0xB1
    } else if cp == 182 {
        0xB6
    } else if cp == 183 {
        0xB7
    } else if cp == 187 {
        0xBB
    } else if cp == 192 {
        0xC0
    } else if cp == 193 {
        0xC1
    } else if cp == 194 {
        0xC2
    } else if cp == 196 {
        0xC4
    } else if cp == 198 {
        0xC6
    } else if cp == 199 {
        0xC7
    } else if cp == 200 {
        0xC8
    } else if cp == 201 {
        0xC9
    } else if cp == 202 {
        0xCA
    } else if cp == 203 {
        0xCB
    } else if cp == 204 {
        0xCC
    } else if cp == 205 {
        0xCD
    } else if cp == 206 {
        0xCE
    } else if cp == 207 {
        0xCF
    } else if cp == 210 {
        0xD2
    } else if cp == 211 {
        0xD3
    } else if cp == 212 {
        0xD4
    } else if cp == 214 {
        0xD6
    } else if cp == 217 {
        0xD9
    } else if cp == 218 {
        0xDA
    } else if cp == 219 {
        0xDB
    } else if cp == 220 {
        0xDC
    } else if cp == 223 {
        0xDF
    } else if cp == 224 {
        0xE0
    } else if cp == 225 {
        0xE1
    } else if cp == 226 {
        0xE2
    } else if cp == 228 {
        0xE4
    } else if cp == 230 {
        0xE6
    } else if cp == 231 {
        0xE7
    } else if cp == 232 {
        0xE8
    } else if cp == 233 {
        0xE9
    } else if cp == 234 {
        0xEA
    } else if cp == 235 {
        0xEB
    } else if cp == 236 {
        0xEC
    } else if cp == 237 {
        0xED
    } else if cp == 238 {
        0xEE
    } else if cp == 239 {
        0xEF
    } else if cp == 242 {
        0xF2
    } else if cp == 243 {
        0xF3
    } else if cp == 244 {
        0xF4
    } else if cp == 246 {
        0xF6
    } else if cp == 249 {
        0xF9
    } else if cp == 250 {
        0xFA
    } else if cp == 251 {
        0xFB
    } else if cp == 252 {
        0xFC
    } else if cp == 255 {
        0xFF
    } else if cp == 258 {
        0xC3
    } else if cp == 259 {
        0xE3
    } else if cp == 260 {
        0xA1
    } else if cp == 261 {
        0xA2
    } else if cp == 262 {
        0xC5
    } else if cp == 263 {
        0xE5
    } else if cp == 268 {
        0xB2
    } else if cp == 269 {
        0xB9
    } else if cp == 272 {
        0xD0
    } else if cp == 273 {
        0xF0
    } else if cp == 280 {
        0xDD
    } else if cp == 281 {
        0xFD
    } else if cp == 321 {
        0xA3
    } else if cp == 322 {
        0xB3
    } else if cp == 323 {
        0xD1
    } else if cp == 324 {
        0xF1
    } else if cp == 336 {
        0xD5
    } else if cp == 337 {
        0xF5
    } else if cp == 338 {
        0xBC
    } else if cp == 339 {
        0xBD
    } else if cp == 346 {
        0xD7
    } else if cp == 347 {
        0xF7
    } else if cp == 352 {
        0xA6
    } else if cp == 353 {
        0xA8
    } else if cp == 368 {
        0xD8
    } else if cp == 369 {
        0xF8
    } else if cp == 376 {
        0xBE
    } else if cp == 377 {
        0xAC
    } else if cp == 378 {
        0xAE
    } else if cp == 379 {
        0xAF
    } else if cp == 380 {
        0xBF
    } else if cp == 381 {
        0xB4
    } else if cp == 382 {
        0xB8
    } else if cp == 536 {
        0xAA
    } else if cp == 537 {
        0xBA
    } else if cp == 538 {
        0xDE
    } else if cp == 539 {
        0xFE
    } else if cp == 8221 {
        0xB5
    } else if cp == 8222 {
        0xA5
    } else if cp == 8364 {
        0xA4
    } else {
        0
    }
}

/// Returns the code point for byte `code`, which must lie in `0x80..=0xFF`
/// (bytes below 0x80 are plain ASCII and have no entry in the table).
pub fn forward(code: u8) -> (r: u16)
    requires
        0x80 <= code,
    ensures
        r == forward_spec(code as int),
{
    let table: [u16; 128] = [
        128, 129, 130, 131, 132, 133, 134, 135, 136, 137, 138, 139, 140, 141, 142, 143, 144,
        145, 146, 147, 148, 149, 150, 151, 152, 153, 154, 155, 156, 157, 158, 159, 160, 260,
        261, 321, 8364, 8222, 352, 167, 353, 169, 536, 171, 377, 173, 378, 379, 176, 177, 268,
        322, 381, 8221, 182, 183, 382, 269, 537, 187, 338, 339, 376, 380, 192, 193, 194, 258,
        196, 262, 198, 199, 200, 201, 202, 203, 204, 205, 206, 207, 272, 323, 210, 211, 212,
        336, 214, 346, 368, 217, 218, 219, 220, 280, 538, 223, 224, 225, 226, 259, 228, 263,
        230, 231, 232, 233, 234, 235, 236, 237, 238, 239, 273, 324, 242, 243, 244, 337, 246,
        347, 369, 249, 250, 251, 252, 281, 539, 255,
    ];
    table[(code - 0x80) as usize]
}

/// Returns the byte under which ISO-8859-16 encodes `code`, or 0 when `code`
/// has no byte in this encoding. Total over all of `u32`: probes far beyond
/// the largest mapped code point resolve to "not found" rather than fault.
pub fn backward(code: u32) -> (r: u8)
    ensures
        r == backward_spec(code as int),
{
    let upper: [u16; 262] = [
        0, 0, 0, 0, 32, 64, 96, 128, 160, 0, 192, 224, 0, 0, 0, 0, 256, 0, 0, 0, 0, 0, 0, 0,
        0, 0, 0, 0, 0, 0, 0, 0, 0, 0, 0, 0, 0, 0, 0, 0, 0, 0, 0, 0, 0, 0, 0, 0, 0, 0, 0, 0, 0,
        0, 0, 0, 0, 0, 0, 0, 0, 0, 0, 0, 0, 0, 0, 0, 0, 0, 0, 0, 0, 0, 0, 0, 0, 0, 0, 0, 0, 0,
        0, 0, 0, 0, 0, 0, 0, 0, 0, 0, 0, 0, 0, 0, 0, 0, 0, 0, 0, 0, 0, 0, 0, 0, 0, 0, 0, 0, 0,
        0, 0, 0, 0, 0, 0, 0, 0, 0, 0, 0, 0, 0, 0, 0, 0, 0, 0, 0, 0, 0, 0, 0, 0, 0, 0, 0, 0, 0,
        0, 0, 0, 0, 0, 0, 0, 0, 0, 0, 0, 0, 0, 0, 0, 0, 0, 0, 0, 0, 0, 0, 0, 0, 0, 0, 0, 0, 0,
        0, 0, 0, 0, 0, 0, 0, 0, 0, 0, 0, 0, 0, 0, 0, 0, 0, 0, 0, 0, 0, 0, 0, 0, 0, 0, 0, 0, 0,
        0, 0, 0, 0, 0, 0, 0, 0, 0, 0, 0, 0, 0, 0, 0, 0, 0, 0, 0, 0, 0, 0, 0, 0, 0, 0, 0, 0, 0,
        0, 0, 0, 0, 0, 0, 0, 0, 0, 0, 0, 0, 0, 0, 0, 0, 0, 0, 0, 0, 0, 0, 0, 0, 0, 0, 0, 0, 0,
        288, 0, 0, 0, 0, 320,
    ];
    let lower: [u8; 352] = [
        0, 0, 0, 0, 0, 0, 0, 0, 0, 0, 0, 0, 0, 0, 0, 0, 0, 0, 0, 0, 0, 0, 0, 0, 0, 0, 0, 0, 0,
        0, 0, 0, 128, 129, 130, 131, 132, 133, 134, 135, 136, 137, 138, 139, 140, 141, 142,
        143, 144, 145, 146, 147, 148, 149, 150, 151, 152, 153, 154, 155, 156, 157, 158, 159,
        160, 0, 0, 0, 0, 0, 0, 167, 0, 169, 0, 171, 0, 173, 0, 0, 176, 177, 0, 0, 0, 0, 182,
        183, 0, 0, 0, 187, 0, 0, 0, 0, 192, 193, 194, 0, 196, 0, 198, 199, 200, 201, 202, 203,
        204, 205, 206, 207, 0, 0, 210, 211, 212, 0, 214, 0, 0, 217, 218, 219, 220, 0, 0, 223,
        224, 225, 226, 0, 228, 0, 230, 231, 232, 233, 234, 235, 236, 237, 238, 239, 0, 0, 242,
        243, 244, 0, 246, 0, 0, 249, 250, 251, 252, 0, 0, 255, 0, 0, 195, 227, 161, 162, 197,
        229, 0, 0, 0, 0, 178, 185, 0, 0, 208, 240, 0, 0, 0, 0, 0, 0, 221, 253, 0, 0, 0, 0, 0,
        0, 0, 163, 179, 209, 241, 0, 0, 0, 0, 0, 0, 0, 0, 0, 0, 0, 213, 245, 188, 189, 0, 0,
        0, 0, 0, 0, 215, 247, 0, 0, 0, 0, 166, 168, 0, 0, 0, 0, 0, 0, 0, 0, 0, 0, 0, 0, 0, 0,
        216, 248, 0, 0, 0, 0, 0, 0, 190, 172, 174, 175, 191, 180, 184, 0, 0, 0, 0, 0, 0, 0, 0,
        0, 0, 0, 0, 0, 0, 0, 0, 0, 0, 0, 0, 0, 0, 0, 0, 0, 170, 186, 222, 254, 0, 0, 0, 0, 0,
        0, 0, 0, 0, 0, 0, 0, 0, 0, 0, 0, 0, 0, 0, 0, 0, 0, 0, 0, 0, 0, 0, 0, 0, 0, 0, 0, 0,
        181, 165, 0, 0, 0, 0, 0, 0, 0, 0, 0, 0, 0, 0, 0, 164, 0, 0, 0, 0, 0, 0, 0, 0, 0, 0, 0,
        0, 0, 0, 0, 0, 0, 0, 0,
    ];
    two_level_lookup(&upper, &lower, code)
}

/// Round trip: every byte of the encoding is recovered from the code point
/// it decodes to.
pub proof fn lemma_round_trip(b: u8)
    requires
        0x80 <= b,
    ensures
        backward_spec(forward_spec(b as int) as int) == b,
{
}

/// Totality of decoding: every byte in `0x80..=0xFF` decodes to a real code
/// point, never to the sentinel 0 nor to an ASCII value.
pub proof fn lemma_forward_total(b: u8)
    requires
        0x80 <= b,
    ensures
        0x80 <= forward_spec(b as int),
{
}

/// Soundness of the sentinel: a non-zero answer of the backward mapping is a
/// byte of the encoding whose forward mapping is exactly `cp`, so 0 is the
/// only answer for a code point outside the table.
pub proof fn lemma_backward_sound(cp: int)
    ensures
        backward_spec(cp) != 0 ==> 0x80 <= backward_spec(cp)
            && forward_spec(backward_spec(cp) as int) == cp,
{
}

/// Completeness of the sentinel: when the backward mapping answers 0, no
/// byte of the encoding decodes to `cp`.
pub proof fn lemma_backward_complete(cp: int, b: u8)
    requires
        0x80 <= b,
        forward_spec(b as int) == cp,
    ensures
        backward_spec(cp) != 0,
{
    lemma_round_trip(b);
}

/// The largest mapped code point is 8364: every probe above it — up to
/// and beyond 2^21 - 1 — resolves to "not found".
pub proof fn lemma_backward_bounded(cp: int)
    ensures
        backward_spec(cp) != 0 ==> cp <= 8364,
{
}

/// Both directions are pure functions of their argument: any two results
/// that meet the contract of `forward`, or of `backward`, for one and the
/// same input are equal.
pub proof fn lemma_idempotent(b: u8, f1: u16, f2: u16, cp: u32, r1: u8, r2: u8)
    requires
        f1 == forward_spec(b as int),
        f2 == forward_spec(b as int),
        r1 == backward_spec(cp as int),
        r2 == backward_spec(cp as int),
    ensures
        f1 == f2,
        r1 == r2,
{
}

} // verus!
