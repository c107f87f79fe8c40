use crate::base64url::{
    decode_text, decoded_view, decodes_to, encode_word, url_safe_no_pad_decoding,
    url_safe_no_pad_encoding, url_safe_symbol, url_safe_text,
};
use crate::wire::{
    le_bytes, le_value, lemma_le_bytes_of_value, lemma_le_value_of_bytes,
    lemma_node_prefix_reads_back, node_prefix, node_prefix_text, prefix_node, read_node_prefix,
    upper_hex_digits,
    word_from_le_bytes, word_to_le_bytes,
};
use crate::hasher::{digest_of, feed};
use base64::DecodeError;
use std::hash::{Hash, Hasher};
use vstd::pervasive::unreached;
use vstd::prelude::*;
use vstd::slice::slice_subrange;
use vstd::string::*;
use vstd::utf8::{encode_utf8, is_ascii_chars_encode_utf8};

verus! {

/// One more than the largest sequence number: sequence numbers have 12 bits.
pub const SEQ_LIMIT: u16 = 0x1000;

/// One more than the largest timestamp: timestamps have 44 bits.
pub const TIMESTAMP_LIMIT: u64 = 0x1000_0000_0000;

/// Why a triple of node, sequence number and timestamp is no identifier.
#[derive(Debug, Clone, Copy, PartialEq, Eq)]
pub enum InvalidOatError {
    /// The sequence number does not fit in 12 bits.
    SeqOutOfRange(u16),
    /// The timestamp does not fit in 44 bits.
    TimestampOutOfRange(u64),
}

/// Why bytes or text are no identifier.
#[derive(Debug, Clone, PartialEq, Eq)]
pub enum ParseOatError {
    /// The first two characters are no node in hexadecimal.
    InvalidNode,
    /// What follows the node is no unpadded URL-safe base64, for the
    /// decoder's reason.
    InvalidLUIDForm(DecodeError),
    /// The input has this many bytes where 9 are asked for, or the text
    /// decodes to this many where 8 are asked for.
    InvalidLUIDLength(usize),
}

/// The 64-bit local id that holds `timestamp` above the 12 bits of `seq`.
pub open spec fn pack(seq: u16, timestamp: u64) -> u64 {
    (timestamp * 0x1000 + seq) as u64
}

/// The text layout shared by the text form and the hashed form: the two
/// characters of the node, then the base64 text of the eight bytes of
/// `word`, least significant first.
pub open spec fn text_layout(node: u8, word: u64) -> Seq<char> {
    node_prefix(node) + url_safe_no_pad_encoding(le_bytes(word))
}

/// The local id that a decoder's answer stands for: the answer has to be
/// eight bytes.
pub open spec fn luid_of(decoded: Result<Seq<u8>, DecodeError>) -> Result<u64, ParseOatError> {
    match decoded {
        Err(e) => Err(ParseOatError::InvalidLUIDForm(e)),
        Ok(bytes) => if bytes.len() == 8 {
            Ok(le_value(bytes))
        } else {
            Err(ParseOatError::InvalidLUIDLength(bytes.len() as usize))
        },
    }
}

/// An outcome as the model sees it: the identifier by its view, the error
/// as it is.
pub open spec fn outcome_view<E>(r: Result<Oat, E>) -> Result<OatView, E> {
    match r {
        Ok(o) => Ok(o@),
        Err(e) => Err(e),
    }
}

/// What an [`Oat`] is: a node and a packed local id.
pub struct OatView {
    pub node: u8,
    pub luid: u64,
}

impl OatView {
    /// The identifier of `node`, `seq` and `timestamp`, or which of the two
    /// does not fit its bit width; the sequence number is looked at first.
    pub open spec fn of(node: u8, seq: u16, timestamp: u64) -> Result<OatView, InvalidOatError> {
        if seq >= SEQ_LIMIT {
            Err(InvalidOatError::SeqOutOfRange(seq))
        } else if timestamp >= TIMESTAMP_LIMIT {
            Err(InvalidOatError::TimestampOutOfRange(timestamp))
        } else {
            Ok(OatView { node, luid: pack(seq, timestamp) })
        }
    }

    /// The low 12 bits of the local id.
    pub open spec fn seq(self) -> u16 {
        (self.luid % 0x1000) as u16
    }

    /// The 44 bits above the sequence number. Bits above those are not part
    /// of the timestamp.
    pub open spec fn timestamp(self) -> u64 {
        (self.luid / 0x1000) % TIMESTAMP_LIMIT
    }

    /// The binary form: the node, then the local id, least significant
    /// byte first.
    pub open spec fn bytes(self) -> Seq<u8> {
        seq![self.node] + le_bytes(self.luid)
    }

    /// The value whose binary form is `bytes`, for nine bytes.
    pub open spec fn of_bytes(bytes: Seq<u8>) -> OatView
        recommends
            bytes.len() == 9,
    {
        OatView { node: bytes[0], luid: le_value(bytes.subrange(1, 9)) }
    }

    /// What a slice of `bytes` is read as: it has to hold nine bytes.
    pub open spec fn of_slice(bytes: Seq<u8>) -> Result<OatView, ParseOatError> {
        if bytes.len() == 9 {
            Ok(OatView::of_bytes(bytes))
        } else {
            Err(ParseOatError::InvalidLUIDLength(bytes.len() as usize))
        }
    }

    /// The text form.
    pub open spec fn text(self) -> Seq<char> {
        text_layout(self.node, self.luid)
    }

    /// What the text with the UTF-8 bytes `bytes` is read as. The node is
    /// looked at first, then the form of what follows it, then its length.
    pub open spec fn of_text(bytes: Seq<u8>) -> Result<OatView, ParseOatError> {
        if bytes.len() < 2 {
            Err(ParseOatError::InvalidNode)
        } else {
            match prefix_node(bytes[0], bytes[1]) {
                None => Err(ParseOatError::InvalidNode),
                Some(node) => match luid_of(
                    url_safe_no_pad_decoding(bytes.subrange(2, bytes.len() as int)),
                ) {
                    Ok(luid) => Ok(OatView { node, luid }),
                    Err(e) => Err(e),
                },
            }
        }
    }

    /// Whether the local id uses no bit above the timestamp's, as every
    /// identifier built from a valid triple does.
    pub open spec fn canonical(self) -> bool {
        self.luid < 0x100_0000_0000_0000
    }
}

/// An identifier: the node that issued it and its local id.
#[derive(Debug)]
pub struct Oat {
    node: u8,
    luid: u64,
}

impl View for Oat {
    type V = OatView;

    closed spec fn view(&self) -> OatView {
        OatView { node: self.node, luid: self.luid }
    }
}

impl Oat {
    /// Creates a new Oat with the given node, sequence number, and
    /// timestamp. A sequence number of more than 12 bits and a timestamp of
    /// more than 44 bits are rejected.
    pub fn of(node: u8, seq: u16, timestamp: u64) -> (r: Result<Oat, InvalidOatError>)
        ensures
            outcome_view(r) == OatView::of(node, seq, timestamp),
            r is Ok <==> seq < SEQ_LIMIT && timestamp < TIMESTAMP_LIMIT,
    {
        if seq >= SEQ_LIMIT {
            return Err(InvalidOatError::SeqOutOfRange(seq));
        }
        if timestamp >= TIMESTAMP_LIMIT {
            return Err(InvalidOatError::TimestampOutOfRange(timestamp));
        }
        let low: u64 = seq as u64;
        let luid: u64 = (timestamp << 12) | low;
        assert(luid == timestamp * 0x1000 + low) by (bit_vector)
            requires
                luid == (timestamp << 12) | low,
                low < 0x1000,
                timestamp < 0x1000_0000_0000,
        ;
        Ok(Oat { node, luid })
    }

    /// The nine bytes of the binary form. The local id is written as it is
    /// held, bits above the timestamp included.
    pub fn to_bytes(&self) -> (r: [u8; 9])
        ensures
            r@ == self@.bytes(),
    {
        let w: [u8; 8] = word_to_le_bytes(self.luid);
        let r: [u8; 9] = [self.node, w[0], w[1], w[2], w[3], w[4], w[5], w[6], w[7]];
        assert(r@ =~= self@.bytes());
        r
    }

    /// Reads the binary form. Every node and every local id is taken as it
    /// stands: bits above the timestamp are kept, not cleared.
    pub fn from_bytes(bytes: [u8; 9]) -> (r: Oat)
        ensures
            r@ == OatView::of_bytes(bytes@),
    {
        Oat { node: bytes[0], luid: word_from_le_bytes(bytes.as_slice(), 1) }
    }

    /// Reads the binary form from a slice, which must hold exactly 9 bytes.
    pub fn from_bytes_ref(bytes: &[u8]) -> (r: Result<Oat, ParseOatError>)
        ensures
            outcome_view(r) == OatView::of_slice(bytes@),
            r is Ok <==> bytes@.len() == 9,
    {
        if bytes.len() != 9 {
            return Err(ParseOatError::InvalidLUIDLength(bytes.len()));
        }
        Ok(Oat { node: bytes[0], luid: word_from_le_bytes(bytes, 1) })
    }

    /// Converts the Oat to its text form of 13 characters. Read back, the
    /// text gives the same identifier.
    pub fn to_string(&self) -> (s: String)
        ensures
            s@ == self@.text(),
            s@.len() == 13,
            url_safe_text(s@),
            OatView::of_text(encode_utf8(s@)) == Ok::<OatView, ParseOatError>(self@),
    {
        text_form(self.node, self.luid)
    }

    /// Says whether `string` is the text form of an identifier, and if not,
    /// why not.
    pub fn check_string(string: &str) -> (r: Result<(), ParseOatError>)
        ensures
            match OatView::of_text(string.spec_bytes()) {
                Ok(_) => r is Ok,
                Err(e) => r == Err::<(), _>(e),
            },
    {
        let bytes = string.as_bytes();
        if bytes.len() < 2 {
            return Err(ParseOatError::InvalidNode);
        }
        if read_node_prefix(bytes[0], bytes[1]).is_none() {
            return Err(ParseOatError::InvalidNode);
        }
        match luid_of_decoded(decode_text(slice_subrange(bytes, 2, bytes.len()))) {
            Ok(_) => Ok(()),
            Err(e) => Err(e),
        }
    }

    /// Parses a string representation of an Oat. The text is checked first
    /// and read after, so it is decoded twice.
    pub fn from_string(string: &str) -> (r: Result<Oat, ParseOatError>)
        ensures
            outcome_view(r) == OatView::of_text(string.spec_bytes()),
    {
        match Oat::check_string(string) {
            Ok(()) => Ok(Oat::from_string_unchecked(string)),
            Err(e) => Err(e),
        }
    }

    /// Parses a string representation of an Oat that is known to be one:
    /// for a caller that has checked the text already.
    pub fn from_string_unchecked(string: &str) -> (r: Oat)
        requires
            OatView::of_text(string.spec_bytes()) is Ok,
        ensures
            Ok::<OatView, ParseOatError>(r@) == OatView::of_text(string.spec_bytes()),
    {
        let bytes = string.as_bytes();
        let node: u8 = match read_node_prefix(bytes[0], bytes[1]) {
            Some(node) => node,
            None => unreached(),
        };
        let luid: u64 = match luid_of_decoded(decode_text(slice_subrange(bytes, 2, bytes.len()))) {
            Ok(luid) => luid,
            Err(_) => unreached(),
        };
        Oat { node, luid }
    }

    /// The hashed form: the eight bytes of the local id, and nothing of the
    /// node, are fed to `new`, and its digest is written in the text
    /// layout. The digest is the hasher's own, so all that is known of the
    /// result is its shape.
    pub fn hashed<H: Hasher>(&self, mut new: H) -> (s: String)
        ensures
            exists|digest: u64| s@ == text_layout(self@.node, digest),
            s@.len() == 13,
            url_safe_text(s@),
    {
        self.hash(&mut new);
        let digest: u64 = digest_of(&new);
        self.hashed_digest(digest)
    }

    /// The hashed form of a 64-bit digest: the text layout with the digest
    /// in the place of the local id.
    pub fn hashed_digest(&self, digest: u64) -> (s: String)
        ensures
            s@ == text_layout(self@.node, digest),
            s@.len() == 13,
            url_safe_text(s@),
    {
        text_form(self.node, digest)
    }

    /// The node that issued the identifier.
    pub fn node(&self) -> (r: u8)
        ensures
            r == self@.node,
    {
        self.node
    }

    /// The sequence number.
    pub fn seq(&self) -> (r: u16)
        ensures
            r == self@.seq(),
            r < SEQ_LIMIT,
    {
        let luid: u64 = self.luid;
        let low: u64 = luid & 0xfff;
        assert(low == luid % 0x1000) by (bit_vector)
            requires
                low == luid & 0xfff,
        ;
        low as u16
    }

    /// The timestamp, in milliseconds since the generator's epoch.
    pub fn timestamp(&self) -> (r: u64)
        ensures
            r == self@.timestamp(),
            r < TIMESTAMP_LIMIT,
    {
        let luid: u64 = self.luid;
        let high: u64 = (luid >> 12) & 0xfff_ffff_ffff;
        assert(high == (luid / 0x1000) % 0x1000_0000_0000) by (bit_vector)
            requires
                high == (luid >> 12) & 0xfff_ffff_ffff,
        ;
        high
    }
}

/// The identifier built of a valid triple has the node, the sequence
/// number and the timestamp of the triple, and no bit above them.
pub proof fn lemma_pack_fields(node: u8, seq: u16, timestamp: u64)
    requires
        seq < SEQ_LIMIT,
        timestamp < TIMESTAMP_LIMIT,
    ensures
        OatView::of(node, seq, timestamp) matches Ok(o) && o.node == node && o.seq() == seq
            && o.timestamp() == timestamp && o.canonical(),
{
}

/// Writes the text layout of `node` and `word`.
pub fn text_form(node: u8, word: u64) -> (s: String)
    ensures
        s@ == text_layout(node, word),
        s@.len() == 13,
        url_safe_text(s@),
        OatView::of_text(encode_utf8(s@)) == Ok::<OatView, ParseOatError>(
            OatView { node, luid: word },
        ),
{
    let mut s = node_prefix_text(node);
    let word_bytes: [u8; 8] = word_to_le_bytes(word);
    let tail = encode_word(&word_bytes);
    s.append(tail.as_str());
    proof {
        lemma_text_round_trip(node, word);
        lemma_node_prefix_is_url_safe(node);
        assert forall|i: int| 0 <= i < s@.len() implies url_safe_symbol(#[trigger] s@[i]) by {
            if i >= 2 {
                assert(s@[i] == tail@[i - 2]);
            }
        }
    }
    s
}

/// The two characters of a node are symbols of the URL-safe alphabet.
pub proof fn lemma_node_prefix_is_url_safe(node: u8)
    ensures
        url_safe_text(node_prefix(node)),
{
    let digits = upper_hex_digits();
    assert forall|d: int| 0 <= d < 16 implies url_safe_symbol(#[trigger] digits[d]) by {}
    assert(url_safe_symbol('X'));
    assert(url_safe_symbol(digits[node as int % 16]));
    assert(url_safe_symbol(digits[node as int / 16]));
}

/// A text layout reads back as the node and the word it was written of,
/// wherever the decoder reads the encoder's text of the word back as the
/// bytes of the word.
pub proof fn lemma_text_round_trip(node: u8, word: u64)
    requires
        decodes_to(encode_utf8(url_safe_no_pad_encoding(le_bytes(word))), le_bytes(word)),
    ensures
        OatView::of_text(encode_utf8(text_layout(node, word))) == Ok::<OatView, ParseOatError>(
            OatView { node, luid: word },
        ),
{
    let head = node_prefix(node);
    let tail = url_safe_no_pad_encoding(le_bytes(word));
    let bytes = encode_utf8(head + tail);
    lemma_le_value_of_bytes(word);
    lemma_node_prefix_reads_back(node);
    lemma_encode_utf8_concat(head, tail);
    is_ascii_chars_encode_utf8(head);
    assert(bytes.subrange(2, bytes.len() as int) =~= encode_utf8(tail));
    assert(bytes[0] == head[0] as u8);
    assert(bytes[1] == head[1] as u8);
}

/// An identifier built of a valid triple, written as text and read back,
/// has the node, the sequence number and the timestamp it was built of,
/// wherever the decoder reads the encoder's text back as its bytes.
pub proof fn lemma_triple_survives_text(node: u8, seq: u16, timestamp: u64)
    requires
        seq < SEQ_LIMIT,
        timestamp < TIMESTAMP_LIMIT,
        decodes_to(
            encode_utf8(url_safe_no_pad_encoding(le_bytes(pack(seq, timestamp)))),
            le_bytes(pack(seq, timestamp)),
        ),
    ensures
        OatView::of(node, seq, timestamp) matches Ok(o) && OatView::of_text(encode_utf8(o.text()))
            matches Ok(back) && back.node == node && back.seq() == seq && back.timestamp()
            == timestamp,
{
    lemma_text_round_trip(node, pack(seq, timestamp));
    lemma_pack_fields(node, seq, timestamp);
}

/// What a decoder's answer gives for the local id: the answer must be a
/// success, and eight bytes.
pub fn luid_of_decoded(decoded: Result<Vec<u8>, DecodeError>) -> (r: Result<u64, ParseOatError>)
    ensures
        r == luid_of(decoded_view(decoded)),
{
    match decoded {
        Err(e) => Err(ParseOatError::InvalidLUIDForm(e)),
        Ok(bytes) => {
            if bytes.len() != 8 {
                return Err(ParseOatError::InvalidLUIDLength(bytes.len()));
            }
            assert(bytes@.subrange(0, 8) =~= bytes@);
            Ok(word_from_le_bytes(bytes.as_slice(), 0))
        },
    }
}

/// The UTF-8 bytes of two texts, one after the other, are the bytes of the
/// one followed by the bytes of the other.
pub proof fn lemma_encode_utf8_concat(a: Seq<char>, b: Seq<char>)
    ensures
        encode_utf8(a + b) == encode_utf8(a) + encode_utf8(b),
    decreases a.len(),
{
    if a.len() == 0 {
        assert(a + b =~= b);
        assert(encode_utf8(a) + encode_utf8(b) =~= encode_utf8(b));
    } else {
        assert((a + b).drop_first() =~= a.drop_first() + b);
        lemma_encode_utf8_concat(a.drop_first(), b);
        assert(encode_utf8(a + b) =~= encode_utf8(a) + encode_utf8(b));
    }
}

impl Hash for Oat {
    /// Feeds the eight bytes of the local id, least significant first, to
    /// `state`.
    fn hash<H: Hasher>(&self, state: &mut H) {
        let bytes: [u8; 8] = word_to_le_bytes(self.luid);
        feed(state, bytes.as_slice())
    }
}

impl From<Oat> for String {
    /// The text form, as [`Oat::to_string`] gives it.
    fn from(oat: Oat) -> (s: String)
        ensures
            s@ == oat@.text(),
    {
        oat.to_string()
    }
}

impl vstd::std_specs::convert::FromSpecImpl<Oat> for String {
    open spec fn obeys_from_spec() -> bool {
        false
    }

    open spec fn from_spec(oat: Oat) -> String {
        arbitrary()
    }
}

/// The array that holds the binary form of `oat`.
pub open spec fn byte_array(oat: Oat) -> [u8; 9] {
    choose|a: [u8; 9]| a@ == oat@.bytes()
}

impl From<Oat> for [u8; 9] {
    /// The binary form, as [`Oat::to_bytes`] gives it.
    fn from(oat: Oat) -> (r: [u8; 9])
        ensures
            r@ == oat@.bytes(),
    {
        let r = oat.to_bytes();
        assert(r =~= byte_array(oat));
        r
    }
}

impl vstd::std_specs::convert::FromSpecImpl<Oat> for [u8; 9] {
    open spec fn obeys_from_spec() -> bool {
        true
    }

    open spec fn from_spec(oat: Oat) -> [u8; 9] {
        byte_array(oat)
    }
}

/// The binary form of an identifier has nine bytes and reads back as the
/// same identifier, whatever its local id holds.
pub proof fn lemma_bytes_round_trip(o: OatView)
    ensures
        o.bytes().len() == 9,
        OatView::of_bytes(o.bytes()) == o,
{
    lemma_le_value_of_bytes(o.luid);
    assert(o.bytes().subrange(1, 9) =~= le_bytes(o.luid));
}

/// An identifier built of a valid triple, written to bytes and read back,
/// has the node, the sequence number and the timestamp it was built of.
pub proof fn lemma_triple_survives_bytes(node: u8, seq: u16, timestamp: u64)
    requires
        seq < SEQ_LIMIT,
        timestamp < TIMESTAMP_LIMIT,
    ensures
        OatView::of(node, seq, timestamp) matches Ok(o) && OatView::of_slice(o.bytes()) matches Ok(
            back,
        ) && back == OatView::of_bytes(o.bytes()) && back.node == node && back.seq() == seq
            && back.timestamp() == timestamp,
{
    lemma_bytes_round_trip(OatView { node, luid: pack(seq, timestamp) });
    lemma_pack_fields(node, seq, timestamp);
}

/// Nine bytes read as an identifier are written back unchanged.
pub proof fn lemma_bytes_survive_reading(bytes: Seq<u8>)
    requires
        bytes.len() == 9,
    ensures
        OatView::of_bytes(bytes).bytes() == bytes,
{
    lemma_le_bytes_of_value(bytes.subrange(1, 9));
    assert(OatView::of_bytes(bytes).bytes() =~= bytes);
}

} // verus!
