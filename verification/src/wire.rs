use vstd::prelude::*;
use vstd::string::*;

verus! {

/// The eight bytes of `x`, least significant first.
pub open spec fn le_bytes(x: u64) -> Seq<u8> {
    seq![
        (x % 0x100) as u8,
        (x / 0x100 % 0x100) as u8,
        (x / 0x1_0000 % 0x100) as u8,
        (x / 0x100_0000 % 0x100) as u8,
        (x / 0x1_0000_0000 % 0x100) as u8,
        (x / 0x100_0000_0000 % 0x100) as u8,
        (x / 0x1_0000_0000_0000 % 0x100) as u8,
        (x / 0x100_0000_0000_0000 % 0x100) as u8,
    ]
}

/// The number whose eight bytes, least significant first, are `bytes`.
pub open spec fn le_value(bytes: Seq<u8>) -> u64
    recommends
        bytes.len() == 8,
{
    (bytes[0] + bytes[1] * 0x100 + bytes[2] * 0x1_0000 + bytes[3] * 0x100_0000 + bytes[4]
        * 0x1_0000_0000 + bytes[5] * 0x100_0000_0000 + bytes[6] * 0x1_0000_0000_0000 + bytes[7]
        * 0x100_0000_0000_0000) as u64
}

/// Reading the bytes of a number gives the number back.
pub proof fn lemma_le_value_of_bytes(x: u64)
    ensures
        le_bytes(x).len() == 8,
        le_value(le_bytes(x)) == x,
{
    let b0: u64 = x & 0xff;
    let b1: u64 = (x >> 8) & 0xff;
    let b2: u64 = (x >> 16) & 0xff;
    let b3: u64 = (x >> 24) & 0xff;
    let b4: u64 = (x >> 32) & 0xff;
    let b5: u64 = (x >> 40) & 0xff;
    let b6: u64 = (x >> 48) & 0xff;
    let b7: u64 = (x >> 56) & 0xff;
    lemma_shifted_bytes(x);
    lemma_joined_bytes(b0, b1, b2, b3, b4, b5, b6, b7);
    lemma_split_then_join(x);
}

/// Writing the number that eight bytes stand for gives the bytes back.
pub proof fn lemma_le_bytes_of_value(bytes: Seq<u8>)
    requires
        bytes.len() == 8,
    ensures
        le_bytes(le_value(bytes)) == bytes,
{
    let b0: u64 = bytes[0] as u64;
    let b1: u64 = bytes[1] as u64;
    let b2: u64 = bytes[2] as u64;
    let b3: u64 = bytes[3] as u64;
    let b4: u64 = bytes[4] as u64;
    let b5: u64 = bytes[5] as u64;
    let b6: u64 = bytes[6] as u64;
    let b7: u64 = bytes[7] as u64;
    lemma_joined_bytes(b0, b1, b2, b3, b4, b5, b6, b7);
    lemma_join_then_split(b0, b1, b2, b3, b4, b5, b6, b7);
    lemma_shifted_bytes(le_value(bytes));
    assert(le_bytes(le_value(bytes)) =~= bytes);
}

proof fn lemma_split_then_join(x: u64)
    by (bit_vector)
    ensures
        x == (x & 0xff) | (((x >> 8) & 0xff) << 8) | (((x >> 16) & 0xff) << 16) | (((x >> 24)
            & 0xff) << 24) | (((x >> 32) & 0xff) << 32) | (((x >> 40) & 0xff) << 40) | (((x >> 48)
            & 0xff) << 48) | (((x >> 56) & 0xff) << 56),
{
}

proof fn lemma_join_then_split(
    b0: u64,
    b1: u64,
    b2: u64,
    b3: u64,
    b4: u64,
    b5: u64,
    b6: u64,
    b7: u64,
)
    by (bit_vector)
    requires
        b0 < 0x100,
        b1 < 0x100,
        b2 < 0x100,
        b3 < 0x100,
        b4 < 0x100,
        b5 < 0x100,
        b6 < 0x100,
        b7 < 0x100,
    ensures
        ({
            let x = b0 | (b1 << 8) | (b2 << 16) | (b3 << 24) | (b4 << 32) | (b5 << 40) | (b6 << 48)
                | (b7 << 56);
            &&& x & 0xff == b0
            &&& (x >> 8) & 0xff == b1
            &&& (x >> 16) & 0xff == b2
            &&& (x >> 24) & 0xff == b3
            &&& (x >> 32) & 0xff == b4
            &&& (x >> 40) & 0xff == b5
            &&& (x >> 48) & 0xff == b6
            &&& (x >> 56) & 0xff == b7
        }),
{
}

proof fn lemma_shifted_bytes(x: u64)
    by (bit_vector)
    ensures
        x & 0xff == x % 0x100,
        (x >> 8) & 0xff == x / 0x100 % 0x100,
        (x >> 16) & 0xff == x / 0x1_0000 % 0x100,
        (x >> 24) & 0xff == x / 0x100_0000 % 0x100,
        (x >> 32) & 0xff == x / 0x1_0000_0000 % 0x100,
        (x >> 40) & 0xff == x / 0x100_0000_0000 % 0x100,
        (x >> 48) & 0xff == x / 0x1_0000_0000_0000 % 0x100,
        (x >> 56) & 0xff == x / 0x100_0000_0000_0000 % 0x100,
{
}

proof fn lemma_joined_bytes(b0: u64, b1: u64, b2: u64, b3: u64, b4: u64, b5: u64, b6: u64, b7: u64)
    by (bit_vector)
    requires
        b0 < 0x100,
        b1 < 0x100,
        b2 < 0x100,
        b3 < 0x100,
        b4 < 0x100,
        b5 < 0x100,
        b6 < 0x100,
        b7 < 0x100,
    ensures
        b0 | (b1 << 8) | (b2 << 16) | (b3 << 24) | (b4 << 32) | (b5 << 40) | (b6 << 48) | (b7 << 56)
            == b0 + b1 * 0x100 + b2 * 0x1_0000 + b3 * 0x100_0000 + b4 * 0x1_0000_0000 + b5
            * 0x100_0000_0000 + b6 * 0x1_0000_0000_0000 + b7 * 0x100_0000_0000_0000,
{
}

/// Splits `x` into its eight bytes, least significant first.
pub fn word_to_le_bytes(x: u64) -> (r: [u8; 8])
    ensures
        r@ == le_bytes(x),
{
    proof {
        lemma_shifted_bytes(x);
    }
    let r: [u8; 8] = [
        (x & 0xff) as u8,
        ((x >> 8) & 0xff) as u8,
        ((x >> 16) & 0xff) as u8,
        ((x >> 24) & 0xff) as u8,
        ((x >> 32) & 0xff) as u8,
        ((x >> 40) & 0xff) as u8,
        ((x >> 48) & 0xff) as u8,
        ((x >> 56) & 0xff) as u8,
    ];
    assert(r@ =~= le_bytes(x));
    r
}

/// Joins the eight bytes of `bytes` that start at `at`, least significant
/// first.
pub fn word_from_le_bytes(bytes: &[u8], at: usize) -> (r: u64)
    requires
        at + 8 <= bytes@.len(),
    ensures
        r == le_value(bytes@.subrange(at as int, at + 8)),
{
    let b0: u64 = bytes[at] as u64;
    let b1: u64 = bytes[at + 1] as u64;
    let b2: u64 = bytes[at + 2] as u64;
    let b3: u64 = bytes[at + 3] as u64;
    let b4: u64 = bytes[at + 4] as u64;
    let b5: u64 = bytes[at + 5] as u64;
    let b6: u64 = bytes[at + 6] as u64;
    let b7: u64 = bytes[at + 7] as u64;
    proof {
        lemma_joined_bytes(b0, b1, b2, b3, b4, b5, b6, b7);
    }
    b0 | (b1 << 8) | (b2 << 16) | (b3 << 24) | (b4 << 32) | (b5 << 40) | (b6 << 48) | (b7 << 56)
}

/// The sixteen digits of upper-case hexadecimal, in order.
pub open spec fn upper_hex_digits() -> Seq<char> {
    seq!['0', '1', '2', '3', '4', '5', '6', '7', '8', '9', 'A', 'B', 'C', 'D', 'E', 'F']
}

/// The two characters that stand for `node` in text: upper-case
/// hexadecimal, with `X` where a leading zero would stand.
pub open spec fn node_prefix(node: u8) -> Seq<char> {
    seq![
        if node < 16 {
            'X'
        } else {
            upper_hex_digits()[node as int / 16]
        },
        upper_hex_digits()[node as int % 16],
    ]
}

/// The value of the ASCII byte `b` as a hexadecimal digit of either case.
pub open spec fn hex_value(b: u8) -> Option<u8> {
    if 0x30 <= b <= 0x39 {
        Some((b - 0x30) as u8)
    } else if 0x41 <= b <= 0x46 {
        Some((b - 0x41 + 10) as u8)
    } else if 0x61 <= b <= 0x66 {
        Some((b - 0x61 + 10) as u8)
    } else {
        None
    }
}

/// The byte read in place of `b`: `0` for an upper-case `X`, else `b`.
pub open spec fn unpadded(b: u8) -> u8 {
    if b == 0x58 {
        0x30
    } else {
        b
    }
}

/// The node that the two bytes `b0` and `b1` stand for, if any. Each `X`
/// is read as `0`. Then both have to be hexadecimal digits: the first
/// counts sixteen times its value, the second once.
pub open spec fn prefix_node(b0: u8, b1: u8) -> Option<u8> {
    match (hex_value(unpadded(b0)), hex_value(unpadded(b1))) {
        (Some(high), Some(low)) => Some((high * 16 + low) as u8),
        _ => None,
    }
}

/// The UTF-8 bytes of a node's two characters are those two characters,
/// and they stand for that node.
pub proof fn lemma_node_prefix_reads_back(node: u8)
    ensures
        node_prefix(node).len() == 2,
        vstd::utf8::is_ascii_chars(node_prefix(node)),
        prefix_node(node_prefix(node)[0] as u8, node_prefix(node)[1] as u8) == Some(node),
{
    let digits = upper_hex_digits();
    let high = node as int / 16;
    let low = node as int % 16;
    assert(hex_value(digits[low] as u8) == Some(low as u8));
    assert(hex_value(digits[high] as u8) == Some(high as u8));
}

/// The sixteen digits of upper-case hexadecimal as text.
fn upper_hex_text() -> (s: &'static str)
    ensures
        s@ == upper_hex_digits(),
        s.is_ascii(),
{
    proof {
        reveal_strlit("0123456789ABCDEF");
    }
    let s = "0123456789ABCDEF";
    assert(s@ =~= upper_hex_digits());
    s
}

/// The two characters that stand for `node` in text.
pub fn node_prefix_text(node: u8) -> (s: String)
    ensures
        s@ == node_prefix(node),
{
    let digits = upper_hex_text();
    let high: usize = (node / 16) as usize;
    let low: usize = (node % 16) as usize;
    proof {
        reveal_strlit("X");
    }
    let first: &str = if node < 16 {
        "X"
    } else {
        digits.substring_ascii(high, high + 1)
    };
    let mut s = first.to_owned();
    s.append(digits.substring_ascii(low, low + 1));
    assert(s@ =~= node_prefix(node));
    s
}

/// Reads the node from the first two bytes of a text form.
pub fn read_node_prefix(b0: u8, b1: u8) -> (r: Option<u8>)
    ensures
        r == prefix_node(b0, b1),
{
    match (hex_digit(unpad(b0)), hex_digit(unpad(b1))) {
        (Some(high), Some(low)) => Some(high * 16 + low),
        _ => None,
    }
}

fn unpad(b: u8) -> (r: u8)
    ensures
        r == unpadded(b),
{
    if b == 0x58 {
        0x30
    } else {
        b
    }
}

fn hex_digit(b: u8) -> (r: Option<u8>)
    ensures
        r == hex_value(b),
        r matches Some(v) ==> v < 16,
{
    if 0x30 <= b && b <= 0x39 {
        Some(b - 0x30)
    } else if 0x41 <= b && b <= 0x46 {
        Some(b - 0x41 + 10)
    } else if 0x61 <= b && b <= 0x66 {
        Some(b - 0x61 + 10)
    } else {
        None
    }
}

} // verus!
