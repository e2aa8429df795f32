use vstd::prelude::*;

use crate::two_level::tables_wf;
use crate::two_level::two_level_lookup;
use crate::two_level::two_level_spec;

verus! {

/// The code point that Windows-1256 assigns to byte `b`, for `b` in
/// `0x80..=0xFF`: the encoding's table, stated byte by byte.
pub open spec fn forward_spec(b: int) -> u16 {
    if b == 0x80 {
        8364
    } else if b == 0x81 {
        1662
    } else if b == 0x82 {
        8218
    } else if b == 0x83 {
        402
    } else if b == 0x84 {
        8222
    } else if b == 0x85 {
        8230
    } else if b == 0x86 {
        8224
    } else if b == 0x87 {
        8225
    } else if b == 0x88 {
        710
    } else if b == 0x89 {
        8240
    } else if b == 0x8A {
        1657
    } else if b == 0x8B {
        8249
    } else if b == 0x8C {
        338
    } else if b == 0x8D {
        1670
    } else if b == 0x8E {
        1688
    } else if b == 0x8F {
        1672
    } else if b == 0x90 {
        1711
    } else if b == 0x91 {
        8216
    } else if b == 0x92 {
        8217
    } else if b == 0x93 {
        8220
    } else if b == 0x94 {
        8221
    } else if b == 0x95 {
        8226
    } else if b == 0x96 {
        8211
    } else if b == 0x97 {
        8212
    } else if b == 0x98 {
        1705
    } else if b == 0x99 {
        8482
    } else if b == 0x9A {
        1681
    } else if b == 0x9B {
        8250
    } else if b == 0x9C {
        339
    } else if b == 0x9D {
        8204
    } else if b == 0x9E {
        8205
    } else if b == 0x9F {
        1722
    } else if b == 0xA0 {
        160
    } else if b == 0xA1 {
        1548
    } else if b == 0xA2 {
        162
    } else if b == 0xA3 {
        163
    } else if b == 0xA4 {
        164
    } else if b == 0xA5 {
        165
    } else if b == 0xA6 {
        166
    } else if b == 0xA7 {
        167
    } else if b == 0xA8 {
        168
    } else if b == 0xA9 {
        169
    } else if b == 0xAA {
        1726
    } else if b == 0xAB {
        171
    } else if b == 0xAC {
        172
    } else if b == 0xAD {
        173
    } else if b == 0xAE {
        174
    } else if b == 0xAF {
        175
    } else if b == 0xB0 {
        176
    } else if b == 0xB1 {
        177
    } else if b == 0xB2 {
        178
    } else if b == 0xB3 {
        179
    } else if b == 0xB4 {
        180
    } else if b == 0xB5 {
        181
    } else if b == 0xB6 {
        182
    } else if b == 0xB7 {
        183
    } else if b == 0xB8 {
        184
    } else if b == 0xB9 {
        185
    } else if b == 0xBA {
        1563
    } else if b == 0xBB {
        187
    } else if b == 0xBC {
        188
    } else if b == 0xBD {
        189
    } else if b == 0xBE {
        190
    } else if b == 0xBF {
        1567
    } else if b == 0xC0 {
        1729
    } else if b == 0xC1 {
        1569
    } else if b == 0xC2 {
        1570
    } else if b == 0xC3 {
        1571
    } else if b == 0xC4 {
        1572
    } else if b == 0xC5 {
        1573
    } else if b == 0xC6 {
        1574
    } else if b == 0xC7 {
        1575
    } else if b == 0xC8 {
        1576
    } else if b == 0xC9 {
        1577
    } else if b == 0xCA {
        1578
    } else if b == 0xCB {
        1579
    } else if b == 0xCC {
        1580
    } else if b == 0xCD {
        1581
    } else if b == 0xCE {
        1582
    } else if b == 0xCF {
        1583
    } else if b == 0xD0 {
        1584
    } else if b == 0xD1 {
        1585
    } else if b == 0xD2 {
        1586
    } else if b == 0xD3 {
        1587
    } else if b == 0xD4 {
        1588
    } else if b == 0xD5 {
        1589
    } else if b == 0xD6 {
        1590
    } else if b == 0xD7 {
        215
    } else if b == 0xD8 {
        1591
    } else if b == 0xD9 {
        1592
    } else if b == 0xDA {
        1593
    } else if b == 0xDB {
        1594
    } else if b == 0xDC {
        1600
    } else if b == 0xDD {
        1601
    } else if b == 0xDE {
        1602
    } else if b == 0xDF {
        1603
    } else if b == 0xE0 {
        224
    } else if b == 0xE1 {
        1604
    } else if b == 0xE2 {
        226
    } else if b == 0xE3 {
        1605
    } else if b == 0xE4 {
        1606
    } else if b == 0xE5 {
        1607
    } else if b == 0xE6 {
        1608
    } else if b == 0xE7 {
        231
    } else if b == 0xE8 {
        232
    } else if b == 0xE9 {
        233
    } else if b == 0xEA {
        234
    } else if b == 0xEB {
        235
    } else if b == 0xEC {
        1609
    } else if b == 0xED {
        1610
    } else if b == 0xEE {
        238
    } else if b == 0xEF {
        239
    } else if b == 0xF0 {
        1611
    } else if b == 0xF1 {
        1612
    } else if b == 0xF2 {
        1613
    } else if b == 0xF3 {
        1614
    } else if b == 0xF4 {
        244
    } else if b == 0xF5 {
        1615
    } else if b == 0xF6 {
        1616
    } else if b == 0xF7 {
        247
    } else if b == 0xF8 {
        1617
    } else if b == 0xF9 {
        249
    } else if b == 0xFA {
        1618
    } else if b == 0xFB {
        251
    } else if b == 0xFC {
        252
    } else if b == 0xFD {
        8206
    } else if b == 0xFE {
        8207
    } else if b == 0xFF {
        1746
    } else {
        0
    }
}

/// The byte under which Windows-1256 encodes code point `cp`, or 0 when the
/// encoding has no byte for `cp`. No byte of this table is below 0x80, so 0
/// is free to act as the "not found" sentinel.
pub open spec fn backward_spec(cp: int) -> u8 {
    if cp == 160 {
        0xA0
    } else if cp == 162 {
        0xA2
    } else if cp == 163 {
        0xA3
    } else if cp == 164 {
        0xA4
    } else if cp == 165 {
        0xA5
    } else if cp == 166 {
        0xA6
    } else if cp == 167 {
        0xA7
    } else if cp == 168 {
        0xA8
    } else if cp == 169 {
        0xA9
    } else if cp == 171 {
        0xAB
    } else if cp == 172 {
        0xAC
    } else if cp == 173 {
        0xAD
    } else if cp == 174 {
        0xAE
    } else if cp == 175 {
        0xAF
    } else if cp == 176 {
        0xB0
    } else if cp == 177 {
        0xB1
    } else if cp == 178 {
        0xB2
    } else if cp == 179 {
        0xB3
    } else if cp == 180 {
        0xB4
    } else if cp == 181 {
        0xB5
    } else if cp == 182 {
        0xB6
    } else if cp == 183 {
        0xB7
    } else if cp == 184 {
        0xB8
    } else if cp == 185 {
        0xB9
    } else if cp == 187 {
        0xBB
    } else if cp == 188 {
        0xBC
    } else if cp == 189 {
        0xBD
    } else if cp == 190 {
        0xBE
    } else if cp == 215 {
        0xD7
    } else if cp == 224 {
        0xE0
    } else if cp == 226 {
        0xE2
    } else if cp == 231 {
        0xE7
    } else if cp == 232 {
        0xE8
    } else if cp == 233 {
        0xE9
    } else if cp == 234 {
        0xEA
    } else if cp == 235 {
        0xEB
    } else if cp == 238 {
        0xEE
    } else if cp == 239 {
        0xEF
    } else if cp == 244 {
        0xF4
    } else if cp == 247 {
        0xF7
    } else if cp == 249 {
        0xF9
    } else if cp == 251 {
        0xFB
    } else if cp == 252 {
        0xFC
    } else if cp == 338 {
        0x8C
    } else if cp == 339 {
        0x9C
    } else if cp == 402 {
        0x83
    } else if cp == 710 {
        0x88
    } else if cp == 1548 {
        0xA1
    } else if cp == 1563 {
        0xBA
    } else if cp == 1567 {
        0xBF
    } else if cp == 1569 {
        0xC1
    } else if cp == 1570 {
        0xC2
    } else if cp == 1571 {
        0xC3
    } else if cp == 1572 {
        0xC4
    } else if cp == 1573 {
        0xC5
    } else if cp == 1574 {
        0xC6
    } else if cp == 1575 {
        0xC7
    } else if cp == 1576 {
        0xC8
    } else if cp == 1577 {
        0xC9
    } else if cp == 1578 {
        0xCA
    } else if cp == 1579 {
        0xCB
    } else if cp == 1580 {
        0xCC
    } else if cp == 1581 {
        0xCD
    } else if cp == 1582 {
        0xCE
    } else if cp == 1583 {
        0xCF
    } else if cp == 1584 {
        0xD0
    } else if cp == 1585 {
        0xD1
    } else if cp == 1586 {
        0xD2
    } else if cp == 1587 {
        0xD3
    } else if cp == 1588 {
        0xD4
    } else if cp == 1589 {
        0xD5
    } else if cp == 1590 {
        0xD6
    } else if cp == 1591 {
        0xD8
    } else if cp == 1592 {
        0xD9
    } else if cp == 1593 {
        0xDA
    } else if cp == 1594 {
        0xDB
    } else if cp == 1600 {
        0xDC
    } else if cp == 1601 {
        0xDD
    } else if cp == 1602 {
        0xDE
    } else if cp == 1603 {
        0xDF
    } else if cp == 1604 {
        0xE1
    } else if cp == 1605 {
        0xE3
    } else if cp == 1606 {
        0xE4
    } else if cp == 1607 {
        0xE5
    } else if cp == 1608 {
        0xE6
    } else if cp == 1609 {
        0xEC
    } else if cp == 1610 {
        0xED
    } else if cp == 1611 {
        0xF0
    } else if cp == 1612 {
        0xF1
    } else if cp == 1613 {
        0xF2
    } else if cp == 1614 {
        0xF3
    } else if cp == 1615 {
        0xF5
    } else if cp == 1616 {
        0xF6
    } else if cp == 1617 {
        0xF8
    } else if cp == 1618 {
        0xFA
    } else if cp == 1657 {
        0x8A
    } else if cp == 1662 {
        0x81
    } else if cp == 1670 {
        0x8D
    } else if cp == 1672 {
        0x8F
    } else if cp == 1681 {
        0x9A
    } else if cp == 1688 {
        0x8E
    } else if cp == 1705 {
        0x98
    } else if cp == 1711 {
        0x90
    } else if cp == 1722 {
        0x9F
    } else if cp == 1726 {
        0xAA
    } else if cp == 1729 {
        0xC0
    } else if cp == 1746 {
        0xFF
    } else if cp == 8204 {
        0x9D
    } else if cp == 8205 {
        0x9E
    } else if cp == 8206 {
        0xFD
    } else if cp == 8207 {
        0xFE
    } else if cp == 8211 {
        0x96
    } else if cp == 8212 {
        0x97
    } else if cp == 8216 {
        0x91
    } else if cp == 8217 {
        0x92
    } else if cp == 8218 {
        0x82
    } else if cp == 8220 {
        0x93
    } else if cp == 8221 {
        0x94
    } else if cp == 8222 {
        0x84
    } else if cp == 8224 {
        0x86
    } else if cp == 8225 {
        0x87
    } else if cp == 8226 {
        0x95
    } else if cp == 8230 {
        0x85
    } else if cp == 8240 {
        0x89
    } else if cp == 8249 {
        0x8B
    } else if cp == 8250 {
        0x9B
    } else if cp == 8364 {
        0x80
    } else if cp == 8482 {
        0x99
    } else {
        0
    }
}

/// Returns the code point for byte `code`, which must lie in `0x80..=0xFF`
/// (bytes below 0x80 are plain ASCII and have no entry in the table).
pub fn forward(code: u8) -> (r: u16)
    requires
        0x80 <= code,
    ensures
        r == forward_spec(code as int),
{
    let table: [u16; 128] = [
        8364, 1662, 8218, 402, 8222, 8230, 8224, 8225, 710, 8240, 1657, 8249, 338, 1670, 1688,
        1672, 1711, 8216, 8217, 8220, 8221, 8226, 8211, 8212, 1705, 8482, 1681, 8250, 339,
        8204, 8205, 1722, 160, 1548, 162, 163, 164, 165, 166, 167, 168, 169, 1726, 171, 172,
        173, 174, 175, 176, 177, 178, 179, 180, 181, 182, 183, 184, 185, 1563, 187, 188, 189,
        190, 1567, 1729, 1569, 1570, 1571, 1572, 1573, 1574, 1575, 1576, 1577, 1578, 1579,
        1580, 1581, 1582, 1583, 1584, 1585, 1586, 1587, 1588, 1589, 1590, 215, 1591, 1592,
        1593, 1594, 1600, 1601, 1602, 1603, 224, 1604, 226, 1605, 1606, 1607, 1608, 231, 232,
        233, 234, 235, 1609, 1610, 238, 239, 1611, 1612, 1613, 1614, 244, 1615, 1616, 247,
        1617, 249, 1618, 251, 252, 8206, 8207, 1746,
    ];
    table[(code - 0x80) as usize]
}

/// Returns the byte under which Windows-1256 encodes `code`, or 0 when `code`
/// has no byte in this encoding. Total over all of `u32`: probes far beyond
/// the largest mapped code point resolve to "not found" rather than fault.
pub fn backward(code: u32) -> (r: u8)
    ensures
        r == backward_spec(code as int),
{
    let upper: [u16; 266] = [
        0, 0, 0, 0, 0, 32, 64, 96, 0, 0, 128, 0, 160, 0, 0, 0, 0, 0, 0, 0, 0, 0, 192, 0, 0, 0,
        0, 0, 0, 0, 0, 0, 0, 0, 0, 0, 0, 0, 0, 0, 0, 0, 0, 0, 0, 0, 0, 0, 224, 256, 288, 320,
        352, 384, 416, 0, 0, 0, 0, 0, 0, 0, 0, 0, 0, 0, 0, 0, 0, 0, 0, 0, 0, 0, 0, 0, 0, 0, 0,
        0, 0, 0, 0, 0, 0, 0, 0, 0, 0, 0, 0, 0, 0, 0, 0, 0, 0, 0, 0, 0, 0, 0, 0, 0, 0, 0, 0, 0,
        0, 0, 0, 0, 0, 0, 0, 0, 0, 0, 0, 0, 0, 0, 0, 0, 0, 0, 0, 0, 0, 0, 0, 0, 0, 0, 0, 0, 0,
        0, 0, 0, 0, 0, 0, 0, 0, 0, 0, 0, 0, 0, 0, 0, 0, 0, 0, 0, 0, 0, 0, 0, 0, 0, 0, 0, 0, 0,
        0, 0, 0, 0, 0, 0, 0, 0, 0, 0, 0, 0, 0, 0, 0, 0, 0, 0, 0, 0, 0, 0, 0, 0, 0, 0, 0, 0, 0,
        0, 0, 0, 0, 0, 0, 0, 0, 0, 0, 0, 0, 0, 0, 0, 0, 0, 0, 0, 0, 0, 0, 0, 0, 0, 0, 0, 0, 0,
        0, 0, 0, 0, 0, 0, 0, 0, 0, 0, 0, 0, 0, 0, 0, 0, 0, 0, 0, 0, 0, 0, 0, 0, 0, 0, 0, 0, 0,
        0, 0, 0, 448, 480, 0, 0, 0, 512, 0, 0, 0, 544,
    ];
    let lower: [u8; 576] = [
        0, 0, 0, 0, 0, 0, 0, 0, 0, 0, 0, 0, 0, 0, 0, 0, 0, 0, 0, 0, 0, 0, 0, 0, 0, 0, 0, 0, 0,
        0, 0, 0, 160, 0, 162, 163, 164, 165, 166, 167, 168, 169, 0, 171, 172, 173, 174, 175,
        176, 177, 178, 179, 180, 181, 182, 183, 184, 185, 0, 187, 188, 189, 190, 0, 0, 0, 0,
        0, 0, 0, 0, 0, 0, 0, 0, 0, 0, 0, 0, 0, 0, 0, 0, 0, 0, 0, 0, 215, 0, 0, 0, 0, 0, 0, 0,
        0, 224, 0, 226, 0, 0, 0, 0, 231, 232, 233, 234, 235, 0, 0, 238, 239, 0, 0, 0, 0, 244,
        0, 0, 247, 0, 249, 0, 251, 252, 0, 0, 0, 0, 0, 0, 0, 0, 0, 0, 0, 0, 0, 0, 0, 0, 0, 0,
        0, 0, 0, 140, 156, 0, 0, 0, 0, 0, 0, 0, 0, 0, 0, 0, 0, 0, 0, 0, 0, 0, 0, 0, 0, 0, 0,
        0, 0, 0, 0, 0, 0, 0, 0, 131, 0, 0, 0, 0, 0, 0, 0, 0, 0, 0, 0, 0, 0, 0, 0, 0, 0, 0, 0,
        136, 0, 0, 0, 0, 0, 0, 0, 0, 0, 0, 0, 0, 0, 0, 0, 0, 0, 0, 0, 0, 0, 0, 0, 0, 0, 0, 0,
        0, 0, 0, 0, 0, 0, 0, 0, 0, 0, 161, 0, 0, 0, 0, 0, 0, 0, 0, 0, 0, 0, 0, 0, 0, 186, 0,
        0, 0, 191, 0, 193, 194, 195, 196, 197, 198, 199, 200, 201, 202, 203, 204, 205, 206,
        207, 208, 209, 210, 211, 212, 213, 214, 216, 217, 218, 219, 0, 0, 0, 0, 0, 220, 221,
        222, 223, 225, 227, 228, 229, 230, 236, 237, 240, 241, 242, 243, 245, 246, 248, 250,
        0, 0, 0, 0, 0, 0, 0, 0, 0, 0, 0, 0, 0, 0, 0, 0, 0, 0, 0, 0, 0, 0, 0, 0, 0, 0, 0, 0, 0,
        0, 0, 0, 0, 0, 0, 0, 0, 0, 138, 0, 0, 0, 0, 129, 0, 0, 0, 0, 0, 0, 0, 141, 0, 143, 0,
        0, 0, 0, 0, 0, 0, 0, 154, 0, 0, 0, 0, 0, 0, 142, 0, 0, 0, 0, 0, 0, 0, 0, 0, 0, 0, 0,
        0, 0, 0, 0, 152, 0, 0, 0, 0, 0, 144, 0, 0, 0, 0, 0, 0, 0, 0, 0, 0, 159, 0, 0, 0, 170,
        0, 0, 192, 0, 0, 0, 0, 0, 0, 0, 0, 0, 0, 0, 0, 0, 0, 0, 0, 255, 0, 0, 0, 0, 0, 0, 0,
        0, 0, 0, 0, 0, 0, 0, 0, 0, 0, 0, 0, 0, 0, 0, 0, 0, 0, 157, 158, 253, 254, 0, 0, 0,
        150, 151, 0, 0, 0, 145, 146, 130, 0, 147, 148, 132, 0, 134, 135, 149, 0, 0, 0, 133, 0,
        0, 0, 0, 0, 0, 0, 0, 0, 137, 0, 0, 0, 0, 0, 0, 0, 0, 139, 155, 0, 0, 0, 0, 0, 0, 0, 0,
        0, 0, 0, 0, 0, 0, 0, 0, 0, 128, 0, 0, 0, 0, 0, 0, 0, 0, 0, 0, 0, 0, 0, 0, 0, 0, 0, 0,
        0, 0, 0, 153, 0, 0, 0, 0, 0, 0, 0, 0, 0, 0, 0, 0, 0, 0, 0, 0, 0, 0, 0, 0, 0, 0, 0, 0,
        0, 0, 0, 0, 0,
    ];
    two_level_lookup(&upper, &lower, code)
}

/// Round trip: every byte of the encoding is recovered from the code point
/// it decodes to.
pub proof fn lemma_round_trip(b: u8)
    requires
        0x80 <= b,
    ensures
        backward_spec(forward_spec(b as int) as int) == b,
{
}

/// Totality of decoding: every byte in `0x80..=0xFF` decodes to a real code
/// point, never to the sentinel 0 nor to an ASCII value.
pub proof fn lemma_forward_total(b: u8)
    requires
        0x80 <= b,
    ensures
        0x80 <= forward_spec(b as int),
{
}

/// Soundness of the sentinel: a non-zero answer of the backward mapping is a
/// byte of the encoding whose forward mapping is exactly `cp`, so 0 is the
/// only answer for a code point outside the table.
pub proof fn lemma_backward_sound(cp: int)
    ensures
        backward_spec(cp) != 0 ==> 0x80 <= backward_spec(cp)
            && forward_spec(backward_spec(cp) as int) == cp,
{
}

/// Completeness of the sentinel: when the backward mapping answers 0, no
/// byte of the encoding decodes to `cp`.
pub proof fn lemma_backward_complete(cp: int, b: u8)
    requires
        0x80 <= b,
        forward_spec(b as int) == cp,
    ensures
        backward_spec(cp) != 0,
{
    lemma_round_trip(b);
}

/// The largest mapped code point is 8482: every probe above it — up to
/// and beyond 2^21 - 1 — resolves to "not found".
pub proof fn lemma_backward_bounded(cp: int)
    ensures
        backward_spec(cp) != 0 ==> cp <= 8482,
{
}

/// Both directions are pure functions of their argument: any two results
/// that meet the contract of `forward`, or of `backward`, for one and the
/// same input are equal.
pub proof fn lemma_idempotent(b: u8, f1: u16, f2: u16, cp: u32, r1: u8, r2: u8)
    requires
        f1 == forward_spec(b as int),
        f2 == forward_spec(b as int),
        r1 == backward_spec(cp as int),
        r2 == backward_spec(cp as int),
    ensures
        f1 == f2,
        r1 == r2,
{
}

} // verus!
