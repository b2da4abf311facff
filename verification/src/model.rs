//! Mathematical model of GF(2^8).
//!
//! The field is generated by the element `x` (byte 0x02): repeatedly
//! multiplying by `x` and reducing modulo the fixed polynomial visits every
//! nonzero byte once before returning to 1, so every nonzero element is
//! `x^i` for exactly one exponent `i` below 255. The exponent and logarithm
//! tables below record that correspondence as constant data; `lemmas` proves
//! that the exponent table is exactly the orbit of the generator and that
//! the two tables are mutually inverse. The four field operations are
//! defined over them exactly as the executable code computes them.

use vstd::prelude::*;

verus! {

/// Low byte of the reduction polynomial x^8 + x^4 + x^3 + x^2 + 1.
pub const POLY: u8 = 0x1D;

/// Replicates the least significant bit of `bit` to every bit position.
pub open spec fn spec_mask(bit: u8) -> u8 {
    if bit & 1 == 1 {
        0xFF
    } else {
        0x00
    }
}

/// Multiplies a polynomial by x and reduces the product modulo the field's
/// defining polynomial: shift left one bit and, if the bit shifted out was
/// set, cancel the degree-8 term by XORing in `POLY`.
pub open spec fn spec_xtimes(p: u8) -> u8 {
    (p << 1) ^ (spec_mask(p >> 7) & POLY)
}

/// Multiplies `y` by x in the field `n` times over: `y * x^n`.
pub open spec fn xtimes_iter(n: nat, y: u8) -> u8
    decreases n,
{
    if n == 0 {
        y
    } else {
        spec_xtimes(xtimes_iter((n - 1) as nat, y))
    }
}

/// The generator x raised to the power `n`.
pub open spec fn power_of_x(n: nat) -> u8 {
    xtimes_iter(n, 1)
}

/// The exponent table: entry `i` holds `x^i`. Entry 255 repeats entry 0
/// (both hold 1) so that an exponent sum that lands exactly on 255 can be
/// looked up without a reduction step.
pub open spec fn exp_entry(i: u8) -> u8 {
    if i == 0 { 0x01 }
    else if i == 1 { 0x02 }
    else if i == 2 { 0x04 }
    else if i == 3 { 0x08 }
    else if i == 4 { 0x10 }
    else if i == 5 { 0x20 }
    else if i == 6 { 0x40 }
    else if i == 7 { 0x80 }
    else if i == 8 { 0x1d }
    else if i == 9 { 0x3a }
    else if i == 10 { 0x74 }
    else if i == 11 { 0xe8 }
    else if i == 12 { 0xcd }
    else if i == 13 { 0x87 }
    else if i == 14 { 0x13 }
    else if i == 15 { 0x26 }
    else if i == 16 { 0x4c }
    else if i == 17 { 0x98 }
    else if i == 18 { 0x2d }
    else if i == 19 { 0x5a }
    else if i == 20 { 0xb4 }
    else if i == 21 { 0x75 }
    else if i == 22 { 0xea }
    else if i == 23 { 0xc9 }
    else if i == 24 { 0x8f }
    else if i == 25 { 0x03 }
    else if i == 26 { 0x06 }
    else if i == 27 { 0x0c }
    else if i == 28 { 0x18 }
    else if i == 29 { 0x30 }
    else if i == 30 { 0x60 }
    else if i == 31 { 0xc0 }
    else if i == 32 { 0x9d }
    else if i == 33 { 0x27 }
    else if i == 34 { 0x4e }
    else if i == 35 { 0x9c }
    else if i == 36 { 0x25 }
    else if i == 37 { 0x4a }
    else if i == 38 { 0x94 }
    else if i == 39 { 0x35 }
    else if i == 40 { 0x6a }
    else if i == 41 { 0xd4 }
    else if i == 42 { 0xb5 }
    else if i == 43 { 0x77 }
    else if i == 44 { 0xee }
    else if i == 45 { 0xc1 }
    else if i == 46 { 0x9f }
    else if i == 47 { 0x23 }
    else if i == 48 { 0x46 }
    else if i == 49 { 0x8c }
    else if i == 50 { 0x05 }
    else if i == 51 { 0x0a }
    else if i == 52 { 0x14 }
    else if i == 53 { 0x28 }
    else if i == 54 { 0x50 }
    else if i == 55 { 0xa0 }
    else if i == 56 { 0x5d }
    else if i == 57 { 0xba }
    else if i == 58 { 0x69 }
    else if i == 59 { 0xd2 }
    else if i == 60 { 0xb9 }
    else if i == 61 { 0x6f }
    else if i == 62 { 0xde }
    else if i == 63 { 0xa1 }
    else if i == 64 { 0x5f }
    else if i == 65 { 0xbe }
    else if i == 66 { 0x61 }
    else if i == 67 { 0xc2 }
    else if i == 68 { 0x99 }
    else if i == 69 { 0x2f }
    else if i == 70 { 0x5e }
    else if i == 71 { 0xbc }
    else if i == 72 { 0x65 }
    else if i == 73 { 0xca }
    else if i == 74 { 0x89 }
    else if i == 75 { 0x0f }
    else if i == 76 { 0x1e }
    else if i == 77 { 0x3c }
    else if i == 78 { 0x78 }
    else if i == 79 { 0xf0 }
    else if i == 80 { 0xfd }
    else if i == 81 { 0xe7 }
    else if i == 82 { 0xd3 }
    else if i == 83 { 0xbb }
    else if i == 84 { 0x6b }
    else if i == 85 { 0xd6 }
    else if i == 86 { 0xb1 }
    else if i == 87 { 0x7f }
    else if i == 88 { 0xfe }
    else if i == 89 { 0xe1 }
    else if i == 90 { 0xdf }
    else if i == 91 { 0xa3 }
    else if i == 92 { 0x5b }
    else if i == 93 { 0xb6 }
    else if i == 94 { 0x71 }
    else if i == 95 { 0xe2 }
    else if i == 96 { 0xd9 }
    else if i == 97 { 0xaf }
    else if i == 98 { 0x43 }
    else if i == 99 { 0x86 }
    else if i == 100 { 0x11 }
    else if i == 101 { 0x22 }
    else if i == 102 { 0x44 }
    else if i == 103 { 0x88 }
    else if i == 104 { 0x0d }
    else if i == 105 { 0x1a }
    else if i == 106 { 0x34 }
    else if i == 107 { 0x68 }
    else if i == 108 { 0xd0 }
    else if i == 109 { 0xbd }
    else if i == 110 { 0x67 }
    else if i == 111 { 0xce }
    else if i == 112 { 0x81 }
    else if i == 113 { 0x1f }
    else if i == 114 { 0x3e }
    else if i == 115 { 0x7c }
    else if i == 116 { 0xf8 }
    else if i == 117 { 0xed }
    else if i == 118 { 0xc7 }
    else if i == 119 { 0x93 }
    else if i == 120 { 0x3b }
    else if i == 121 { 0x76 }
    else if i == 122 { 0xec }
    else if i == 123 { 0xc5 }
    else if i == 124 { 0x97 }
    else if i == 125 { 0x33 }
    else if i == 126 { 0x66 }
    else if i == 127 { 0xcc }
    else if i == 128 { 0x85 }
    else if i == 129 { 0x17 }
    else if i == 130 { 0x2e }
    else if i == 131 { 0x5c }
    else if i == 132 { 0xb8 }
    else if i == 133 { 0x6d }
    else if i == 134 { 0xda }
    else if i == 135 { 0xa9 }
    else if i == 136 { 0x4f }
    else if i == 137 { 0x9e }
    else if i == 138 { 0x21 }
    else if i == 139 { 0x42 }
    else if i == 140 { 0x84 }
    else if i == 141 { 0x15 }
    else if i == 142 { 0x2a }
    else if i == 143 { 0x54 }
    else if i == 144 { 0xa8 }
    else if i == 145 { 0x4d }
    else if i == 146 { 0x9a }
    else if i == 147 { 0x29 }
    else if i == 148 { 0x52 }
    else if i == 149 { 0xa4 }
    else if i == 150 { 0x55 }
    else if i == 151 { 0xaa }
    else if i == 152 { 0x49 }
    else if i == 153 { 0x92 }
    else if i == 154 { 0x39 }
    else if i == 155 { 0x72 }
    else if i == 156 { 0xe4 }
    else if i == 157 { 0xd5 }
    else if i == 158 { 0xb7 }
    else if i == 159 { 0x73 }
    else if i == 160 { 0xe6 }
    else if i == 161 { 0xd1 }
    else if i == 162 { 0xbf }
    else if i == 163 { 0x63 }
    else if i == 164 { 0xc6 }
    else if i == 165 { 0x91 }
    else if i == 166 { 0x3f }
    else if i == 167 { 0x7e }
    else if i == 168 { 0xfc }
    else if i == 169 { 0xe5 }
    else if i == 170 { 0xd7 }
    else if i == 171 { 0xb3 }
    else if i == 172 { 0x7b }
    else if i == 173 { 0xf6 }
    else if i == 174 { 0xf1 }
    else if i == 175 { 0xff }
    else if i == 176 { 0xe3 }
    else if i == 177 { 0xdb }
    else if i == 178 { 0xab }
    else if i == 179 { 0x4b }
    else if i == 180 { 0x96 }
    else if i == 181 { 0x31 }
    else if i == 182 { 0x62 }
    else if i == 183 { 0xc4 }
    else if i == 184 { 0x95 }
    else if i == 185 { 0x37 }
    else if i == 186 { 0x6e }
    else if i == 187 { 0xdc }
    else if i == 188 { 0xa5 }
    else if i == 189 { 0x57 }
    else if i == 190 { 0xae }
    else if i == 191 { 0x41 }
    else if i == 192 { 0x82 }
    else if i == 193 { 0x19 }
    else if i == 194 { 0x32 }
    else if i == 195 { 0x64 }
    else if i == 196 { 0xc8 }
    else if i == 197 { 0x8d }
    else if i == 198 { 0x07 }
    else if i == 199 { 0x0e }
    else if i == 200 { 0x1c }
    else if i == 201 { 0x38 }
    else if i == 202 { 0x70 }
    else if i == 203 { 0xe0 }
    else if i == 204 { 0xdd }
    else if i == 205 { 0xa7 }
    else if i == 206 { 0x53 }
    else if i == 207 { 0xa6 }
    else if i == 208 { 0x51 }
    else if i == 209 { 0xa2 }
    else if i == 210 { 0x59 }
    else if i == 211 { 0xb2 }
    else if i == 212 { 0x79 }
    else if i == 213 { 0xf2 }
    else if i == 214 { 0xf9 }
    else if i == 215 { 0xef }
    else if i == 216 { 0xc3 }
    else if i == 217 { 0x9b }
    else if i == 218 { 0x2b }
    else if i == 219 { 0x56 }
    else if i == 220 { 0xac }
    else if i == 221 { 0x45 }
    else if i == 222 { 0x8a }
    else if i == 223 { 0x09 }
    else if i == 224 { 0x12 }
    else if i == 225 { 0x24 }
    else if i == 226 { 0x48 }
    else if i == 227 { 0x90 }
    else if i == 228 { 0x3d }
    else if i == 229 { 0x7a }
    else if i == 230 { 0xf4 }
    else if i == 231 { 0xf5 }
    else if i == 232 { 0xf7 }
    else if i == 233 { 0xf3 }
    else if i == 234 { 0xfb }
    else if i == 235 { 0xeb }
    else if i == 236 { 0xcb }
    else if i == 237 { 0x8b }
    else if i == 238 { 0x0b }
    else if i == 239 { 0x16 }
    else if i == 240 { 0x2c }
    else if i == 241 { 0x58 }
    else if i == 242 { 0xb0 }
    else if i == 243 { 0x7d }
    else if i == 244 { 0xfa }
    else if i == 245 { 0xe9 }
    else if i == 246 { 0xcf }
    else if i == 247 { 0x83 }
    else if i == 248 { 0x1b }
    else if i == 249 { 0x36 }
    else if i == 250 { 0x6c }
    else if i == 251 { 0xd8 }
    else if i == 252 { 0xad }
    else if i == 253 { 0x47 }
    else if i == 254 { 0x8e }
    else { 0x01 }
}

/// The logarithm table: the discrete logarithm of `v`, that is, the unique
/// exponent `i` below 255 with `x^i == v`. Meaningful only for `v != 0`;
/// zero has no logarithm and entry 0 is unused, set to 0 by convention.
pub open spec fn gf_log(v: u8) -> u8 {
    if v == 0 { 0x00 }
    else if v == 1 { 0x00 }
    else if v == 2 { 0x01 }
    else if v == 3 { 0x19 }
    else if v == 4 { 0x02 }
    else if v == 5 { 0x32 }
    else if v == 6 { 0x1a }
    else if v == 7 { 0xc6 }
    else if v == 8 { 0x03 }
    else if v == 9 { 0xdf }
    else if v == 10 { 0x33 }
    else if v == 11 { 0xee }
    else if v == 12 { 0x1b }
    else if v == 13 { 0x68 }
    else if v == 14 { 0xc7 }
    else if v == 15 { 0x4b }
    else if v == 16 { 0x04 }
    else if v == 17 { 0x64 }
    else if v == 18 { 0xe0 }
    else if v == 19 { 0x0e }
    else if v == 20 { 0x34 }
    else if v == 21 { 0x8d }
    else if v == 22 { 0xef }
    else if v == 23 { 0x81 }
    else if v == 24 { 0x1c }
    else if v == 25 { 0xc1 }
    else if v == 26 { 0x69 }
    else if v == 27 { 0xf8 }
    else if v == 28 { 0xc8 }
    else if v == 29 { 0x08 }
    else if v == 30 { 0x4c }
    else if v == 31 { 0x71 }
    else if v == 32 { 0x05 }
    else if v == 33 { 0x8a }
    else if v == 34 { 0x65 }
    else if v == 35 { 0x2f }
    else if v == 36 { 0xe1 }
    else if v == 37 { 0x24 }
    else if v == 38 { 0x0f }
    else if v == 39 { 0x21 }
    else if v == 40 { 0x35 }
    else if v == 41 { 0x93 }
    else if v == 42 { 0x8e }
    else if v == 43 { 0xda }
    else if v == 44 { 0xf0 }
    else if v == 45 { 0x12 }
    else if v == 46 { 0x82 }
    else if v == 47 { 0x45 }
    else if v == 48 { 0x1d }
    else if v == 49 { 0xb5 }
    else if v == 50 { 0xc2 }
    else if v == 51 { 0x7d }
    else if v == 52 { 0x6a }
    else if v == 53 { 0x27 }
    else if v == 54 { 0xf9 }
    else if v == 55 { 0xb9 }
    else if v == 56 { 0xc9 }
    else if v == 57 { 0x9a }
    else if v == 58 { 0x09 }
    else if v == 59 { 0x78 }
    else if v == 60 { 0x4d }
    else if v == 61 { 0xe4 }
    else if v == 62 { 0x72 }
    else if v == 63 { 0xa6 }
    else if v == 64 { 0x06 }
    else if v == 65 { 0xbf }
    else if v == 66 { 0x8b }
    else if v == 67 { 0x62 }
    else if v == 68 { 0x66 }
    else if v == 69 { 0xdd }
    else if v == 70 { 0x30 }
    else if v == 71 { 0xfd }
    else if v == 72 { 0xe2 }
    else if v == 73 { 0x98 }
    else if v == 74 { 0x25 }
    else if v == 75 { 0xb3 }
    else if v == 76 { 0x10 }
    else if v == 77 { 0x91 }
    else if v == 78 { 0x22 }
    else if v == 79 { 0x88 }
    else if v == 80 { 0x36 }
    else if v == 81 { 0xd0 }
    else if v == 82 { 0x94 }
    else if v == 83 { 0xce }
    else if v == 84 { 0x8f }
    else if v == 85 { 0x96 }
    else if v == 86 { 0xdb }
    else if v == 87 { 0xbd }
    else if v == 88 { 0xf1 }
    else if v == 89 { 0xd2 }
    else if v == 90 { 0x13 }
    else if v == 91 { 0x5c }
    else if v == 92 { 0x83 }
    else if v == 93 { 0x38 }
    else if v == 94 { 0x46 }
    else if v == 95 { 0x40 }
    else if v == 96 { 0x1e }
    else if v == 97 { 0x42 }
    else if v == 98 { 0xb6 }
    else if v == 99 { 0xa3 }
    else if v == 100 { 0xc3 }
    else if v == 101 { 0x48 }
    else if v == 102 { 0x7e }
    else if v == 103 { 0x6e }
    else if v == 104 { 0x6b }
    else if v == 105 { 0x3a }
    else if v == 106 { 0x28 }
    else if v == 107 { 0x54 }
    else if v == 108 { 0xfa }
    else if v == 109 { 0x85 }
    else if v == 110 { 0xba }
    else if v == 111 { 0x3d }
    else if v == 112 { 0xca }
    else if v == 113 { 0x5e }
    else if v == 114 { 0x9b }
    else if v == 115 { 0x9f }
    else if v == 116 { 0x0a }
    else if v == 117 { 0x15 }
    else if v == 118 { 0x79 }
    else if v == 119 { 0x2b }
    else if v == 120 { 0x4e }
    else if v == 121 { 0xd4 }
    else if v == 122 { 0xe5 }
    else if v == 123 { 0xac }
    else if v == 124 { 0x73 }
    else if v == 125 { 0xf3 }
    else if v == 126 { 0xa7 }
    else if v == 127 { 0x57 }
    else if v == 128 { 0x07 }
    else if v == 129 { 0x70 }
    else if v == 130 { 0xc0 }
    else if v == 131 { 0xf7 }
    else if v == 132 { 0x8c }
    else if v == 133 { 0x80 }
    else if v == 134 { 0x63 }
    else if v == 135 { 0x0d }
    else if v == 136 { 0x67 }
    else if v == 137 { 0x4a }
    else if v == 138 { 0xde }
    else if v == 139 { 0xed }
    else if v == 140 { 0x31 }
    else if v == 141 { 0xc5 }
    else if v == 142 { 0xfe }
    else if v == 143 { 0x18 }
    else if v == 144 { 0xe3 }
    else if v == 145 { 0xa5 }
    else if v == 146 { 0x99 }
    else if v == 147 { 0x77 }
    else if v == 148 { 0x26 }
    else if v == 149 { 0xb8 }
    else if v == 150 { 0xb4 }
    else if v == 151 { 0x7c }
    else if v == 152 { 0x11 }
    else if v == 153 { 0x44 }
    else if v == 154 { 0x92 }
    else if v == 155 { 0xd9 }
    else if v == 156 { 0x23 }
    else if v == 157 { 0x20 }
    else if v == 158 { 0x89 }
    else if v == 159 { 0x2e }
    else if v == 160 { 0x37 }
    else if v == 161 { 0x3f }
    else if v == 162 { 0xd1 }
    else if v == 163 { 0x5b }
    else if v == 164 { 0x95 }
    else if v == 165 { 0xbc }
    else if v == 166 { 0xcf }
    else if v == 167 { 0xcd }
    else if v == 168 { 0x90 }
    else if v == 169 { 0x87 }
    else if v == 170 { 0x97 }
    else if v == 171 { 0xb2 }
    else if v == 172 { 0xdc }
    else if v == 173 { 0xfc }
    else if v == 174 { 0xbe }
    else if v == 175 { 0x61 }
    else if v == 176 { 0xf2 }
    else if v == 177 { 0x56 }
    else if v == 178 { 0xd3 }
    else if v == 179 { 0xab }
    else if v == 180 { 0x14 }
    else if v == 181 { 0x2a }
    else if v == 182 { 0x5d }
    else if v == 183 { 0x9e }
    else if v == 184 { 0x84 }
    else if v == 185 { 0x3c }
    else if v == 186 { 0x39 }
    else if v == 187 { 0x53 }
    else if v == 188 { 0x47 }
    else if v == 189 { 0x6d }
    else if v == 190 { 0x41 }
    else if v == 191 { 0xa2 }
    else if v == 192 { 0x1f }
    else if v == 193 { 0x2d }
    else if v == 194 { 0x43 }
    else if v == 195 { 0xd8 }
    else if v == 196 { 0xb7 }
    else if v == 197 { 0x7b }
    else if v == 198 { 0xa4 }
    else if v == 199 { 0x76 }
    else if v == 200 { 0xc4 }
    else if v == 201 { 0x17 }
    else if v == 202 { 0x49 }
    else if v == 203 { 0xec }
    else if v == 204 { 0x7f }
    else if v == 205 { 0x0c }
    else if v == 206 { 0x6f }
    else if v == 207 { 0xf6 }
    else if v == 208 { 0x6c }
    else if v == 209 { 0xa1 }
    else if v == 210 { 0x3b }
    else if v == 211 { 0x52 }
    else if v == 212 { 0x29 }
    else if v == 213 { 0x9d }
    else if v == 214 { 0x55 }
    else if v == 215 { 0xaa }
    else if v == 216 { 0xfb }
    else if v == 217 { 0x60 }
    else if v == 218 { 0x86 }
    else if v == 219 { 0xb1 }
    else if v == 220 { 0xbb }
    else if v == 221 { 0xcc }
    else if v == 222 { 0x3e }
    else if v == 223 { 0x5a }
    else if v == 224 { 0xcb }
    else if v == 225 { 0x59 }
    else if v == 226 { 0x5f }
    else if v == 227 { 0xb0 }
    else if v == 228 { 0x9c }
    else if v == 229 { 0xa9 }
    else if v == 230 { 0xa0 }
    else if v == 231 { 0x51 }
    else if v == 232 { 0x0b }
    else if v == 233 { 0xf5 }
    else if v == 234 { 0x16 }
    else if v == 235 { 0xeb }
    else if v == 236 { 0x7a }
    else if v == 237 { 0x75 }
    else if v == 238 { 0x2c }
    else if v == 239 { 0xd7 }
    else if v == 240 { 0x4f }
    else if v == 241 { 0xae }
    else if v == 242 { 0xd5 }
    else if v == 243 { 0xe9 }
    else if v == 244 { 0xe6 }
    else if v == 245 { 0xe7 }
    else if v == 246 { 0xad }
    else if v == 247 { 0xe8 }
    else if v == 248 { 0x74 }
    else if v == 249 { 0xd6 }
    else if v == 250 { 0xf4 }
    else if v == 251 { 0xea }
    else if v == 252 { 0xa8 }
    else if v == 253 { 0x50 }
    else if v == 254 { 0x58 }
    else { 0xaf }
}

/// Field addition: XOR of the coefficient vectors.
pub open spec fn gf_add(a: u8, b: u8) -> u8 {
    a ^ b
}

/// Field subtraction coincides with addition: the field has characteristic 2.
pub open spec fn gf_sub(a: u8, b: u8) -> u8 {
    a ^ b
}

/// Field multiplication: zero absorbs; otherwise add the discrete logarithms
/// modulo 255 and exponentiate.
pub open spec fn gf_mul(a: u8, b: u8) -> u8 {
    if a == 0 || b == 0 {
        0
    } else {
        power_of_x(((gf_log(a) + gf_log(b)) % 255) as nat)
    }
}

/// Field division. Meaningful only for `b != 0`: dividing zero by anything
/// nonzero gives zero, otherwise subtract the logarithms modulo 255.
pub open spec fn gf_div(a: u8, b: u8) -> u8 {
    if a == 0 {
        0
    } else {
        power_of_x(((gf_log(a) + 255 - gf_log(b)) % 255) as nat)
    }
}

/// The multiplicative inverse. Meaningful only for `a != 0`; zero has no
/// inverse.
pub open spec fn gf_inv(a: u8) -> u8 {
    power_of_x((255 - gf_log(a)) as nat)
}

/// `a` raised to the power `n` by repeated field multiplication.
pub open spec fn gf_pow(a: u8, n: nat) -> u8
    decreases n,
{
    if n == 0 {
        1
    } else {
        gf_mul(a, gf_pow(a, (n - 1) as nat))
    }
}

} // verus!
