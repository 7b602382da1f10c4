use vstd::prelude::*;
use vstd::string::StrSliceExecFns;

verus! {

/// The value of a hexadecimal digit, or zero for any other character.
pub open spec fn nibble_of(c: char) -> u8 {
    if '0' <= c && c <= '9' {
        (c as u32 - '0' as u32) as u8
    } else if 'a' <= c && c <= 'f' {
        (c as u32 - 'a' as u32 + 10) as u8
    } else if 'A' <= c && c <= 'F' {
        (c as u32 - 'A' as u32 + 10) as u8
    } else {
        0
    }
}

/// The four bits of a nibble, most significant first.
pub open spec fn nibble_bits(n: u8) -> Seq<u8> {
    seq![((n / 8) % 2) as u8, ((n / 4) % 2) as u8, ((n / 2) % 2) as u8, (n % 2) as u8]
}

/// The bit vector of a hash: each character expands to the four bits of its
/// nibble, most significant first.
pub open spec fn encode(s: Seq<char>) -> Seq<u8> {
    Seq::new(4 * s.len(), |i: int| nibble_bits(nibble_of(s[i / 4]))[i % 4])
}

fn nibble_value(c: char) -> (r: u8)
    ensures
        r == nibble_of(c),
        r < 16,
{
    if '0' <= c && c <= '9' {
        (c as u32 - '0' as u32) as u8
    } else if 'a' <= c && c <= 'f' {
        (c as u32 - 'a' as u32 + 10) as u8
    } else if 'A' <= c && c <= 'F' {
        (c as u32 - 'A' as u32 + 10) as u8
    } else {
        0
    }
}

/// Expands a hexadecimal hash into its bit vector. A character that is not a
/// hexadecimal digit counts as the zero nibble.
pub fn hex_to_binary_vector(hash: &str) -> (r: Vec<u8>)
    ensures
        r@ == encode(hash@),
{
    let n = hash.unicode_len();
    let mut r: Vec<u8> = Vec::new();
    let mut i: usize = 0;
    while i < n
        invariant
            n == hash@.len(),
            i <= n,
            r@ =~= encode(hash@.subrange(0, i as int)),
        decreases n - i,
    {
        let c = hash.get_char(i);
        let byte = nibble_value(c);
        r.push(byte / 8 % 2);
        r.push(byte / 4 % 2);
        r.push(byte / 2 % 2);
        r.push(byte % 2);
        proof {
            let s = hash@.subrange(0, i + 1);
            assert(s[i as int] == c);
            assert forall|j: int| 0 <= j < 4 * (i + 1) implies #[trigger] r@[j] == encode(s)[j] by {
                if j < 4 * i {
                    assert(s[j / 4] == hash@.subrange(0, i as int)[j / 4]);
                }
            }
        }
        i = i + 1;
    }
    proof {
        assert(hash@.subrange(0, n as int) =~= hash@);
    }
    r
}

/// Every hash encodes to four entries per character, and each group of four
/// is the bit pattern of one of the sixteen nibbles: the one of the character
/// at that position.
pub proof fn lemma_encoding_shape(s: Seq<char>)
    ensures
        encode(s).len() == 4 * s.len(),
        forall|i: int|
            0 <= i < s.len() ==> nibble_of(#[trigger] s[i]) < 16 && encode(s).subrange(
                4 * i,
                4 * i + 4,
            ) == nibble_bits(nibble_of(s[i])),
{
    assert forall|i: int| 0 <= i < s.len() implies nibble_of(#[trigger] s[i]) < 16
        && encode(s).subrange(4 * i, 4 * i + 4) == nibble_bits(nibble_of(s[i])) by {
        assert(encode(s).subrange(4 * i, 4 * i + 4) =~= nibble_bits(nibble_of(s[i])));
    }
}

} // verus!
