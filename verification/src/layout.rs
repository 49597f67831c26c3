//! Layout strings: the base-64 text a run is configured by, decoded into a
//! big integer, bit-scrambled, checksummed, and decomposed into per-slot
//! digits; plus the seed derived from the string's digest.

use vstd::prelude::*;
use vstd::arithmetic::power2::pow2;

verus! {

/// The arbitrary-precision integer the decoder accumulates into.
#[verifier::external_type_specification]
#[verifier::external_body]
pub struct ExBigUint(num_bigint::BigUint);

/// The number a big integer holds.
pub uninterp spec fn big_val(b: num_bigint::BigUint) -> nat;

/// Relies on num-bigint's `From<u8>`: a fresh zero.
#[verifier::external_body]
pub fn big_zero() -> (r: num_bigint::BigUint)
    ensures
        big_val(r) == 0,
{
    num_bigint::BigUint::from(0u8)
}

/// Relies on num-bigint's multiplication and addition: exact arithmetic on
/// arbitrarily large integers.
#[verifier::external_body]
pub fn big_mul_small_add(b: &num_bigint::BigUint, m: u8, d: u8) -> (r: num_bigint::BigUint)
    ensures
        big_val(r) == big_val(*b) * m + d,
{
    b * m + num_bigint::BigUint::from(d)
}

/// Relies on num-bigint's `bits`: the minimal bit width, zero for zero.
#[verifier::external_body]
pub fn big_bits(b: &num_bigint::BigUint) -> (r: u64)
    ensures
        big_val(*b) == 0 ==> r == 0,
        big_val(*b) > 0 ==> r > 0 && pow2((r - 1) as nat) <= big_val(*b) < pow2(r as nat),
{
    b.bits()
}

/// Relies on num-bigint's `bit`: the bit in the given position.
#[verifier::external_body]
pub fn big_bit(b: &num_bigint::BigUint, i: u64) -> (r: bool)
    ensures
        r == (big_val(*b) / pow2(i as nat) % 2 == 1),
{
    b.bit(i)
}

/// Relies on num-integer's `div_rem` on big integers: exact Euclidean
/// division by a small divisor.
#[verifier::external_body]
pub fn big_div_rem_small(b: &num_bigint::BigUint, d: u8) -> (r: (num_bigint::BigUint, u8))
    requires
        d > 0,
    ensures
        big_val(r.0) == big_val(*b) / (d as nat),
        r.1 == big_val(*b) % (d as nat),
        r.1 < d,
{
    let (q, rem) = num_integer::Integer::div_rem(b, &num_bigint::BigUint::from(d));
    let rem8 = num_traits::ToPrimitive::to_u8(&rem).unwrap_or(0);
    (q, rem8)
}

/// Relies on num-bigint's right shift: division by the given power of two.
#[verifier::external_body]
pub fn big_shr(b: &num_bigint::BigUint, n: u64) -> (r: num_bigint::BigUint)
    ensures
        big_val(r) == big_val(*b) / pow2(n as nat),
{
    b >> n
}

/// Relies on num-bigint's `Clone`: an equal, independent copy.
#[verifier::external_body]
pub fn big_copy(b: &num_bigint::BigUint) -> (r: num_bigint::BigUint)
    ensures
        big_val(r) == big_val(*b),
{
    b.clone()
}

/// Relies on num-traits' `Zero::is_zero`.
#[verifier::external_body]
pub fn big_is_zero(b: &num_bigint::BigUint) -> (r: bool)
    ensures
        r == (big_val(*b) == 0),
{
    num_traits::Zero::is_zero(b)
}

/// What hashing a byte string with SHA-512 yields: 64 bytes that depend on
/// the input alone.
pub uninterp spec fn sha512_of(s: Seq<u8>) -> Seq<u8>;

/// Relies on sha2's `Sha512` through the `Digest` one-shot interface.
#[verifier::external_body]
pub fn sha512(bytes: &[u8]) -> (r: Vec<u8>)
    ensures
        r@ == sha512_of(bytes@),
        r@.len() == 64,
{
    let digest = <sha2::Sha512 as sha2::Digest>::digest(bytes);
    digest.as_slice().to_vec()
}

/// Is `c` one of the sixty-four characters layout strings are written in:
/// letters, digits, dash and underscore?
pub open spec fn spec_is_layout_char(c: u8) -> bool {
    (65 <= c <= 90) || (97 <= c <= 122) || (48 <= c <= 57) || c == 45 || c == 95
}

/// The position of a layout character in the character set. The set is not
/// alphabetical throughout: two letter pairs sit swapped, in both cases.
pub open spec fn spec_layout_char_index(c: u8) -> int {
    if 65 <= c <= 84 {
        c - 65
    } else if c == 85 {
        20
    } else if c == 87 {
        21
    } else if c == 86 {
        22
    } else if 88 <= c <= 90 {
        c - 65
    } else if 97 <= c <= 116 {
        c - 97 + 26
    } else if c == 117 {
        46
    } else if c == 119 {
        47
    } else if c == 118 {
        48
    } else if 120 <= c <= 122 {
        c - 97 + 26
    } else if 48 <= c <= 57 {
        c - 48 + 52
    } else if c == 45 {
        62
    } else {
        63
    }
}

/// The character set layout strings are written in, in digit order.
pub fn layout_char_table() -> (r: Vec<u8>)
    ensures
        r@.len() == 64,
        forall|i: int| 0 <= i < 64 ==> spec_is_layout_char(#[trigger] r@[i]),
        forall|c: u8| spec_is_layout_char(c) ==> r@.contains(c),
{
    let mut out: Vec<u8> = Vec::new();
    out.push(65u8);
    out.push(66u8);
    out.push(67u8);
    out.push(68u8);
    out.push(69u8);
    out.push(70u8);
    out.push(71u8);
    out.push(72u8);
    out.push(73u8);
    out.push(74u8);
    out.push(75u8);
    out.push(76u8);
    out.push(77u8);
    out.push(78u8);
    out.push(79u8);
    out.push(80u8);
    out.push(81u8);
    out.push(82u8);
    out.push(83u8);
    out.push(84u8);
    out.push(85u8);
    out.push(87u8);
    out.push(86u8);
    out.push(88u8);
    out.push(89u8);
    out.push(90u8);
    out.push(97u8);
    out.push(98u8);
    out.push(99u8);
    out.push(100u8);
    out.push(101u8);
    out.push(102u8);
    out.push(103u8);
    out.push(104u8);
    out.push(105u8);
    out.push(106u8);
    out.push(107u8);
    out.push(108u8);
    out.push(109u8);
    out.push(110u8);
    out.push(111u8);
    out.push(112u8);
    out.push(113u8);
    out.push(114u8);
    out.push(115u8);
    out.push(116u8);
    out.push(117u8);
    out.push(119u8);
    out.push(118u8);
    out.push(120u8);
    out.push(121u8);
    out.push(122u8);
    out.push(48u8);
    out.push(49u8);
    out.push(50u8);
    out.push(51u8);
    out.push(52u8);
    out.push(53u8);
    out.push(54u8);
    out.push(55u8);
    out.push(56u8);
    out.push(57u8);
    out.push(45u8);
    out.push(95u8);
    proof {
        assert(out@ =~= seq![65u8, 66u8, 67u8, 68u8, 69u8, 70u8, 71u8, 72u8, 73u8, 74u8, 75u8, 76u8, 77u8, 78u8, 79u8, 80u8, 81u8, 82u8, 83u8, 84u8, 85u8, 87u8, 86u8, 88u8, 89u8, 90u8, 97u8, 98u8, 99u8, 100u8, 101u8, 102u8, 103u8, 104u8, 105u8, 106u8, 107u8, 108u8, 109u8, 110u8, 111u8, 112u8, 113u8, 114u8, 115u8, 116u8, 117u8, 119u8, 118u8, 120u8, 121u8, 122u8, 48u8, 49u8, 50u8, 51u8, 52u8, 53u8, 54u8, 55u8, 56u8, 57u8, 45u8, 95u8]);
        assert forall|c: u8| spec_is_layout_char(c) implies out@.contains(c) by {
            let j = spec_layout_char_index(c);
            assert(0 <= j < 64);
            assert(out@[j] == c);
        }
    }
    out
}

/// The digit a layout character encodes, if it is in the character set.
fn char_table_index(table: &Vec<u8>, c: u8) -> (r: Option<u8>)
    requires
        table@.len() == 64,
    ensures
        match r {
            Some(i) => i < 64 && table@[i as int] == c,
            None => forall|j: int| 0 <= j < table@.len() ==> table@[j] != c,
        },
{
    let mut i: usize = 0;
    while i < table.len()
        invariant
            table@.len() == 64,
            i <= table@.len(),
            forall|j: int| 0 <= j < i ==> table@[j] != c,
        decreases table@.len() - i,
    {
        if table[i] == c {
            return Some(i as u8);
        }
        i += 1;
    }
    None
}

/// Decode a layout section: read the characters as a little-endian base-64
/// number, un-scramble the odd bits, split off and verify the checksum, and
/// decompose the payload into one digit per slot.
///
/// Every failure is a configuration error reported before any patch runs:
/// a character outside the table, bits beyond the declared width, a
/// checksum mismatch, or a payload that does not decompose exactly.
pub fn parse_layout_chars_to_ints(
    bytes: &[u8],
    layout_data_size: u64,
    checksum_size: u64,
    denominators: &Vec<u8>,
) -> (r: Result<Vec<u8>, String>)
    requires
        1 <= checksum_size < 8,
        layout_data_size < 4096,
    ensures
        r matches Ok(digits) ==> {
            &&& digits@.len() == denominators@.len()
            &&& (forall|i: int|
                0 <= i < digits@.len() ==> (#[trigger] digits@[i]) < denominators@[i])
            &&& (forall|i: int|
                0 <= i < bytes@.len() ==> spec_is_layout_char(#[trigger] bytes@[i]))
        },
        (exists|i: int| 0 <= i < bytes@.len() && !spec_is_layout_char(#[trigger] bytes@[i]))
            ==> r is Err,
{
    let table = layout_char_table();
    let mut sum = big_zero();
    let mut i: usize = bytes.len();
    while i > 0
        invariant
            i <= bytes@.len(),
            table@.len() == 64,
            forall|j: int| 0 <= j < 64 ==> spec_is_layout_char(#[trigger] table@[j]),
            forall|c: u8| spec_is_layout_char(c) ==> table@.contains(c),
            forall|j: int|
                i <= j < bytes@.len() ==> spec_is_layout_char(#[trigger] bytes@[j]),
        decreases i,
    {
        i = i - 1;
        let idx = match char_table_index(&table, bytes[i]) {
            Some(v) => v,
            None => {
                proof {
                    assert(!spec_is_layout_char(bytes@[i as int])) by {
                        if spec_is_layout_char(bytes@[i as int]) {
                            let j = choose|j: int|
                                0 <= j < table@.len() && table@[j] == bytes@[i as int];
                            assert(table@[j] == bytes@[i as int]);
                        }
                    }
                }
                return Err(String::from_str("the layout contains an invalid character"));
            },
        };
        proof {
            assert(spec_is_layout_char(table@[idx as int]));
        }
        sum = big_mul_small_add(&sum, 64, idx);
    }

    // Un-scramble: the odd-position bits of the number's canonical binary
    // form are stored reversed.
    let nbits = big_bits(&sum);
    if nbits > layout_data_size + checksum_size {
        return Err(String::from_str("the layout holds more bits than its format allows"));
    }
    let n = nbits as usize;
    let mut bits: Vec<bool> = Vec::new();
    let mut k: usize = 0;
    while k < n
        invariant
            k <= n,
            bits@.len() == k,
            n == nbits,
            nbits <= 4103,
        decreases n - k,
    {
        bits.push(big_bit(&sum, (n - 1 - k) as u64));
        k += 1;
    }
    let mut k: usize = 0;
    while k < n / 4
        invariant
            bits@.len() == n,
            k <= n,
        decreases n / 4 - k,
    {
        let len2 = n - n % 2;
        let a = 2 * k + 1;
        let b = len2 - 2 * k - 1;
        if a < n && b < n && a != b {
            let va = bits[a];
            let vb = bits[b];
            bits.set(a, vb);
            bits.set(b, va);
        }
        k += 1;
    }
    let mut unscrambled = big_zero();
    let mut k: usize = 0;
    while k < n
        invariant
            bits@.len() == n,
            k <= n,
        decreases n - k,
    {
        let d: u8 = if bits[k] {
            1
        } else {
            0
        };
        unscrambled = big_mul_small_add(&unscrambled, 2, d);
        k += 1;
    }

    // The top bits are the checksum of the payload's chunks.
    let cs8: u8 = checksum_size as u8;
    let modulus: u8 = 1u8 << cs8;
    proof {
        assert(1 <= cs8 < 8);
        assert(2 <= (1u8 << cs8) <= 128) by (bit_vector)
            requires
                1 <= cs8 < 8,
        ;
    }
    let shifted = big_shr(&unscrambled, layout_data_size);
    let (beyond, checksum) = big_div_rem_small(&shifted, modulus);
    if !big_is_zero(&beyond) {
        return Err(String::from_str("the layout holds more bits than its format allows"));
    }
    let payload = unscrambled;
    // Strip the checksum bits off the top: what remains is the payload.
    let mut low = big_zero();
    let mut weight_digits: Vec<bool> = Vec::new();
    let mut k: u64 = 0;
    while k < layout_data_size
        invariant
            k <= layout_data_size,
            weight_digits@.len() == k,
            layout_data_size < 4096,
        decreases layout_data_size - k,
    {
        weight_digits.push(big_bit(&payload, layout_data_size - 1 - k));
        k += 1;
    }
    let mut k: usize = 0;
    while k < weight_digits.len()
        invariant
            k <= weight_digits@.len(),
        decreases weight_digits@.len() - k,
    {
        let d: u8 = if weight_digits[k] {
            1
        } else {
            0
        };
        low = big_mul_small_add(&low, 2, d);
        k += 1;
    }
    let payload = low;

    // The checksum is the sum of the payload's chunks, modulo the modulus.
    let mut computed: u8 = 0;
    let mut s = big_copy(&payload);
    while !big_is_zero(&s)
        invariant
            1 <= checksum_size < 8,
            computed < modulus,
            2 <= modulus <= 128,
        decreases big_val(s),
    {
        let (_, chunk) = big_div_rem_small(&s, modulus);
        computed = (computed + chunk) % modulus;
        let next = big_shr(&s, checksum_size);
        proof {
            vstd::arithmetic::power2::lemma2_to64();
            assert(pow2(checksum_size as nat) >= 2) by {
                if checksum_size > 1 {
                    vstd::arithmetic::power2::lemma_pow2_strictly_increases(
                        1,
                        checksum_size as nat,
                    );
                }
            }
            assert(big_val(next) < big_val(s)) by {
                assert(big_val(next) == big_val(s) / pow2(checksum_size as nat));
                assert(big_val(s) > 0);
                vstd::arithmetic::div_mod::lemma_div_decreases(
                    big_val(s) as int,
                    pow2(checksum_size as nat) as int,
                );
            }
        }
        s = next;
    }
    if computed != checksum {
        return Err(String::from_str("the layout checksum does not match"));
    }

    // Decompose the payload into one digit per slot, least significant
    // first, then restore slot order.
    let mut reversed: Vec<u8> = Vec::new();
    let mut rest = big_copy(&payload);
    let mut k: usize = 0;
    while k < denominators.len()
        invariant
            k <= denominators@.len(),
            reversed@.len() == k,
            forall|j: int|
                0 <= j < k ==> (#[trigger] reversed@[j]) < denominators@[j],
        decreases denominators@.len() - k,
    {
        let d = denominators[k];
        if d == 0 {
            return Err(String::from_str("a layout slot has no values"));
        }
        let (q, rem) = big_div_rem_small(&rest, d);
        reversed.push(rem);
        rest = q;
        k += 1;
    }
    if !big_is_zero(&rest) {
        return Err(String::from_str("the layout does not decompose into its slots"));
    }
    let mut digits: Vec<u8> = Vec::new();
    let mut k: usize = reversed.len();
    while k > 0
        invariant
            k <= reversed@.len(),
            reversed@.len() == denominators@.len(),
            digits@.len() == reversed@.len() - k,
            forall|j: int| 0 <= j < k ==> (#[trigger] reversed@[j]) < denominators@[j],
            forall|j: int|
                0 <= j < digits@.len() ==> (#[trigger] digits@[j]) < denominators@[denominators@.len()
                    - 1 - j],
        decreases k,
    {
        k = k - 1;
        digits.push(reversed[k]);
    }
    proof {
        assert(forall|i: int|
            0 <= i < digits@.len() ==> (#[trigger] digits@[i]) < denominators@[denominators@.len()
                - 1 - i]);
    }
    let mut ordered: Vec<u8> = Vec::new();
    let mut k: usize = 0;
    while k < digits.len()
        invariant
            k <= digits@.len(),
            digits@.len() == denominators@.len(),
            ordered@.len() == k,
            forall|j: int|
                0 <= j < digits@.len() ==> (#[trigger] digits@[j])
                    < denominators@[denominators@.len() - 1 - j],
            forall|j: int|
                0 <= j < k ==> (#[trigger] ordered@[j]) < denominators@[j],
        decreases digits@.len() - k,
    {
        let idx = digits.len() - 1 - k;
        let v = digits[idx];
        proof {
            assert(digits@[idx as int] < denominators@[denominators@.len() - 1 - idx]);
            assert(denominators@.len() - 1 - idx == k);
        }
        ordered.push(v);
        k += 1;
    }
    Ok(ordered)
}

/// The default elevator section used when a layout string has no explicit
/// one.
pub fn default_elevator_bytes() -> (r: Vec<u8>) {
    let s = "qzoCAr2fwehJmRjM";
    let b = s.as_bytes();
    let mut out: Vec<u8> = Vec::new();
    let mut i: usize = 0;
    while i < b.len()
        invariant
            i <= b@.len(),
            out@.len() == i,
        decreases b@.len() - i,
    {
        out.push(b[i]);
        i += 1;
    }
    out
}

/// Split a layout string's bytes into its elevator and pickup sections:
/// the text before the first dot names the elevators (a fixed default when
/// no dot occurs), and a leading bang on the pickup section marks a layout
/// that also shuffles the scan visor.
pub fn split_layout_sections(text_bytes: &Vec<u8>) -> (r: (Vec<u8>, Vec<u8>, bool)) {
    let mut dot: Option<usize> = Option::None;
    let mut i: usize = 0;
    while i < text_bytes.len()
        invariant
            i <= text_bytes@.len(),
            dot matches Some(d) ==> d < text_bytes@.len(),
        decreases text_bytes@.len() - i,
    {
        if text_bytes[i] == 46 && dot.is_none() {
            dot = Option::Some(i);
        }
        i += 1;
    }
    let (elevator, pickup_start): (Vec<u8>, usize) = match dot {
        Option::Some(d) => {
            let mut e: Vec<u8> = Vec::new();
            let mut i: usize = 0;
            while i < d
                invariant
                    d < text_bytes@.len(),
                    i <= d,
                decreases d - i,
            {
                e.push(text_bytes[i]);
                i += 1;
            }
            (e, d + 1)
        },
        Option::None => (default_elevator_bytes(), 0),
    };
    let mut pickup: Vec<u8> = Vec::new();
    if pickup_start <= text_bytes.len() {
        let mut i: usize = pickup_start;
        while i < text_bytes.len()
            invariant
                i <= text_bytes@.len(),
            decreases text_bytes@.len() - i,
        {
            pickup.push(text_bytes[i]);
            i += 1;
        }
    }
    let has_scan_visor = pickup.len() > 0 && pickup[0] == 33;
    if has_scan_visor {
        pickup.remove(0);
    }
    (elevator, pickup, has_scan_visor)
}

/// The big-endian word at position `w` of a byte string.
pub open spec fn spec_be_word(s: Seq<u8>, w: int) -> int {
    s[4 * w] * 0x1000000 + s[4 * w + 1] * 0x10000 + s[4 * w + 2] * 0x100 + s[4 * w + 3]
}

/// The sixteen-word seed a pair of layout sections determines: the SHA-512
/// digest of the elevator section followed by the pickup section, read as
/// big-endian words.
pub fn seed_from_sections(elevator_bytes: &Vec<u8>, pickup_bytes: &Vec<u8>) -> (r: Vec<u32>)
    ensures
        r@.len() == 16,
        forall|w: int|
            0 <= w < 16 ==> (#[trigger] r@[w]) == spec_be_word(
                sha512_of(elevator_bytes@ + pickup_bytes@),
                w,
            ),
{
    let mut hashed: Vec<u8> = Vec::new();
    let mut i: usize = 0;
    while i < elevator_bytes.len()
        invariant
            i <= elevator_bytes@.len(),
            hashed@ == elevator_bytes@.subrange(0, i as int),
        decreases elevator_bytes@.len() - i,
    {
        hashed.push(elevator_bytes[i]);
        proof {
            assert(hashed@ =~= elevator_bytes@.subrange(0, i as int + 1));
        }
        i += 1;
    }
    proof {
        assert(hashed@ =~= elevator_bytes@);
    }
    let mut i: usize = 0;
    while i < pickup_bytes.len()
        invariant
            i <= pickup_bytes@.len(),
            hashed@ == elevator_bytes@ + pickup_bytes@.subrange(0, i as int),
        decreases pickup_bytes@.len() - i,
    {
        hashed.push(pickup_bytes[i]);
        proof {
            assert(hashed@ =~= elevator_bytes@ + pickup_bytes@.subrange(0, i as int + 1));
        }
        i += 1;
    }
    proof {
        assert(hashed@ =~= elevator_bytes@ + pickup_bytes@);
    }
    let digest = sha512(hashed.as_slice());
    let mut seed: Vec<u32> = Vec::new();
    let mut w: usize = 0;
    while w < 16
        invariant
            w <= 16,
            seed@.len() == w,
            digest@.len() == 64,
            digest@ == sha512_of(elevator_bytes@ + pickup_bytes@),
            forall|v: int|
                0 <= v < w ==> (#[trigger] seed@[v]) == spec_be_word(digest@, v),
        decreases 16 - w,
    {
        let base = 4 * w;
        let word = ((digest[base] as u32) * 0x1000000) + ((digest[base + 1] as u32) * 0x10000)
            + ((digest[base + 2] as u32) * 0x100) + (digest[base + 3] as u32);
        seed.push(word);
        w += 1;
    }
    seed
}

/// Decode a full layout string into the pickup digits, the elevator
/// digits, and the sixteen-word seed derived from the string's digest.
pub fn parse_layout(text: &str) -> (r: Result<(Vec<u8>, Vec<u8>, Vec<u32>), String>)
    ensures
        !vstd::string::is_ascii(text) ==> r is Err,
        r matches Ok(parts) ==> {
            &&& parts.0@.len() == 100
            &&& (forall|k: int| 0 <= k < 100 ==> (#[trigger] parts.0@[k]) < 37)
            &&& parts.1@.len() == 21
            &&& parts.1@[0] < 21
            &&& (forall|k: int| 1 <= k < 21 ==> (#[trigger] parts.1@[k]) < 20)
            &&& parts.2@.len() == 16
        },
{
    if !text.is_ascii() {
        return Err(String::from_str("the layout contains non-ascii characters"));
    }
    let b = text.as_bytes();
    let mut text_bytes: Vec<u8> = Vec::new();
    let mut i: usize = 0;
    while i < b.len()
        invariant
            i <= b@.len(),
        decreases b@.len() - i,
    {
        text_bytes.push(b[i]);
        i += 1;
    }
    let (elevator_bytes, pickup_bytes, has_scan_visor) = split_layout_sections(&text_bytes);
    if elevator_bytes.len() != 16 {
        return Err(
            String::from_str(
                "the section of the layout before the dot should be 16 characters",
            ),
        );
    }
    if pickup_bytes.len() != 87 {
        return Err(String::from_str("the layout should be exactly 87 characters"));
    }

    let seed = seed_from_sections(&elevator_bytes, &pickup_bytes);

    let mut pickup_dens: Vec<u8> = Vec::new();
    let pickup_den: u8 = if has_scan_visor {
        37
    } else {
        36
    };
    let mut k: usize = 0;
    while k < 100
        invariant
            k <= 100,
            pickup_dens@.len() == k,
            pickup_den <= 37,
            forall|j: int| 0 <= j < k ==> (#[trigger] pickup_dens@[j]) <= 37,
        decreases 100 - k,
    {
        pickup_dens.push(pickup_den);
        k += 1;
    }
    let pickup_layout = match parse_layout_chars_to_ints(
        pickup_bytes.as_slice(),
        if has_scan_visor {
            521
        } else {
            517
        },
        if has_scan_visor {
            1
        } else {
            5
        },
        &pickup_dens,
    ) {
        Ok(v) => v,
        Err(e) => {
            return Err(e);
        },
    };

    let mut elevator_dens: Vec<u8> = Vec::new();
    elevator_dens.push(21);
    let mut k: usize = 0;
    while k < 20
        invariant
            k <= 20,
            elevator_dens@.len() == k + 1,
            elevator_dens@[0] == 21,
            forall|j: int| 1 <= j < k + 1 ==> (#[trigger] elevator_dens@[j]) == 20,
        decreases 20 - k,
    {
        elevator_dens.push(20);
        k += 1;
    }
    let elevator_layout = match parse_layout_chars_to_ints(
        elevator_bytes.as_slice(),
        91,
        5,
        &elevator_dens,
    ) {
        Ok(v) => v,
        Err(e) => {
            return Err(e);
        },
    };
    Ok((pickup_layout, elevator_layout, seed))
}

} // verus!
