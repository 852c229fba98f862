use crate::events::Error;
use vstd::prelude::*;
use vstd::std_specs::cmp::PartialEqSpec;
use vstd::string::StringSliceAdditionalSpecFns;
use vstd::utf8::{encode_utf8_decode_utf8, is_ascii_chars, is_ascii_chars_encode_utf8};

verus! {

/// Bit 5 (value 32) of a type code byte: clear for an upper-case letter, set
/// for a lower-case one.
pub open spec fn flag_bit(b: u8) -> bool {
    (b >> 5u8) & 1u8 == 1u8
}

/// `A`-`Z` or `a`-`z`, as an ASCII byte.
pub open spec fn is_ascii_letter(b: u8) -> bool {
    (65 <= b <= 90) || (97 <= b <= 122)
}

/// `A`-`Z` or `a`-`z`, as a character.
pub open spec fn is_letter_char(c: char) -> bool {
    ('A' <= c <= 'Z') || ('a' <= c <= 'z')
}

/// Four bytes, each an ASCII letter: what a chunk type name must be.
pub open spec fn is_letter_code(b: Seq<u8>) -> bool {
    b.len() == 4 && forall|i: int| 0 <= i < 4 ==> #[trigger] is_ascii_letter(b[i])
}

/// Each byte read as the character of the same number, in order.
pub open spec fn render(b: Seq<u8>) -> Seq<char> {
    b.map_values(|x: u8| x as char)
}

/// The four-byte type code of a chunk.
///
/// A code built from text holds four ASCII letters; one built from raw bytes
/// holds them as they were given.
#[derive(Debug, Clone, Copy, Eq)]
pub struct ChunkType {
    type_code: [u8; 4],
}

impl View for ChunkType {
    type V = Seq<u8>;

    closed spec fn view(&self) -> Seq<u8> {
        self.type_code@
    }
}

/// Every chunk type has exactly four bytes.
pub broadcast proof fn lemma_view_len(c: ChunkType)
    ensures
        #[trigger] c@.len() == 4,
{
}

/// The chunk type built from four bytes holds those bytes.
pub broadcast proof fn lemma_new_spec_view(b: [u8; 4])
    ensures
        #[trigger] ChunkType::new_spec(b)@ == b@,
{
}

fn is_letter(b: u8) -> (r: bool)
    ensures
        r == is_ascii_letter(b),
{
    (65 <= b && b <= 90) || (97 <= b && b <= 122)
}

/// Relies on `String::push`: appends the character at the end of the string.
#[verifier::external_body]
fn push_char(s: &mut String, c: char)
    ensures
        final(s)@ == old(s)@.push(c),
{
    s.push(c)
}

impl ChunkType {
    /// The chunk type that holds these four bytes.
    pub closed spec fn new_spec(b: [u8; 4]) -> Self {
        ChunkType { type_code: b }
    }

    /// The chunk type with these four bytes, taken as they are.
    pub fn new(bytes: &[u8; 4]) -> (r: Self)
        ensures
            r@ == bytes@,
    {
        ChunkType { type_code: *bytes }
    }

    /// The four bytes of the code, in order.
    pub fn bytes(&self) -> (r: [u8; 4])
        ensures
            r@ == self@,
    {
        self.type_code
    }

    /// Whether bit 5 of byte `i` is set.
    fn flag(&self, i: usize) -> (r: bool)
        requires
            i < 4,
        ensures
            r == flag_bit(self@[i as int]),
    {
        (self.type_code[i] >> 5u8) & 1u8 == 1u8
    }

    /// A code is valid when its reserved bit is valid; the other three bits
    /// only classify the chunk.
    pub fn is_valid(&self) -> (r: bool)
        ensures
            r == !flag_bit(self@[2]),
    {
        self.is_reserved_bit_valid()
    }

    /// Critical chunks have an upper-case first letter.
    pub fn is_critical(&self) -> (r: bool)
        ensures
            r == !flag_bit(self@[0]),
    {
        !self.flag(0)
    }

    /// Public chunks have an upper-case second letter.
    pub fn is_public(&self) -> (r: bool)
        ensures
            r == !flag_bit(self@[1]),
    {
        !self.flag(1)
    }

    /// The reserved bit is valid when the third letter is upper case.
    pub fn is_reserved_bit_valid(&self) -> (r: bool)
        ensures
            r == !flag_bit(self@[2]),
    {
        !self.flag(2)
    }

    /// Chunks safe to copy have a lower-case fourth letter.
    pub fn is_safe_to_copy(&self) -> (r: bool)
        ensures
            r == flag_bit(self@[3]),
    {
        self.flag(3)
    }

    /// The code as text: each byte becomes the character of the same number.
    /// A code built from raw bytes may render characters other than letters.
    pub fn to_string(&self) -> (r: String)
        ensures
            r@ == render(self@),
    {
        let mut r = String::new();
        let mut i: usize = 0;
        while i < 4
            invariant
                i <= 4,
                self@.len() == 4,
                r@ == render(self@.take(i as int)),
            decreases 4 - i,
        {
            push_char(&mut r, self.type_code[i] as char);
            assert(self@.take(i + 1) == self@.take(i as int).push(self@[i as int]));
            i += 1;
        }
        assert(self@.take(4) == self@);
        r
    }

    /// Parses a chunk type name: four bytes, each an ASCII letter.
    pub fn from_str(s: &str) -> (r: Result<Self, Error>)
        ensures
            r is Ok <==> is_letter_code(s.spec_bytes()),
            r matches Ok(c) ==> c@ == s.spec_bytes(),
            s.spec_bytes().len() != 4 <==> r is Err && r->Err_0 is InvalidStringLength,
            r is Err && r->Err_0 is InvalidStringLength ==> r->Err_0->InvalidStringLength_0@ == s@,
            (s.spec_bytes().len() == 4 && !is_letter_code(s.spec_bytes())) <==> (r is Err
                && r->Err_0 is InvalidStringCharacter),
            r is Err && r->Err_0 is InvalidStringCharacter
                ==> r->Err_0->InvalidStringCharacter_0@ == s@,
    {
        let b = s.as_bytes();
        if b.len() != 4 {
            return Err(Error::InvalidStringLength(s.to_owned()));
        }
        let mut i: usize = 0;
        while i < 4
            invariant
                i <= 4,
                b@ == s.spec_bytes(),
                b@.len() == 4,
                forall|j: int| 0 <= j < i ==> #[trigger] is_ascii_letter(b@[j]),
            decreases 4 - i,
        {
            if !is_letter(b[i]) {
                return Err(Error::InvalidStringCharacter(s.to_owned()));
            }
            i += 1;
        }
        let code = ChunkType { type_code: [b[0], b[1], b[2], b[3]] };
        assert(code@ == b@);
        Ok(code)
    }
}

impl PartialEq for ChunkType {
    /// Byte-for-byte equality, so case matters.
    fn eq(&self, other: &Self) -> (r: bool) {
        let r = self.type_code[0] == other.type_code[0] && self.type_code[1]
            == other.type_code[1] && self.type_code[2] == other.type_code[2] && self.type_code[3]
            == other.type_code[3];
        proof {
            if r {
                assert(self@ =~= other@);
            }
        }
        r
    }
}

impl vstd::std_specs::cmp::PartialEqSpecImpl for ChunkType {
    open spec fn obeys_eq_spec() -> bool {
        true
    }

    open spec fn eq_spec(&self, other: &ChunkType) -> bool {
        self@ == other@
    }
}

impl TryFrom<[u8; 4]> for ChunkType {
    type Error = Error;

    /// Four raw bytes are always accepted, with no check on what they hold.
    fn try_from(value: [u8; 4]) -> (r: Result<Self, Error>) {
        Ok(ChunkType { type_code: value })
    }
}

impl vstd::std_specs::convert::TryFromSpecImpl<[u8; 4]> for ChunkType {
    open spec fn obeys_try_from_spec() -> bool {
        true
    }

    open spec fn try_from_spec(value: [u8; 4]) -> Result<Self, Error> {
        Ok(ChunkType::new_spec(value))
    }
}

impl std::str::FromStr for ChunkType {
    type Err = Error;

    fn from_str(s: &str) -> (r: Result<Self, Error>) {
        ChunkType::from_str(s)
    }
}

/// Reading back the bytes of a chunk type built from four raw bytes gives
/// those bytes unchanged: `c` is what `new` or `try_from` returns for `b`, and
/// `r` is what `bytes` returns for `c`.
pub proof fn lemma_bytes_round_trip(b: [u8; 4], c: ChunkType, r: [u8; 4])
    requires
        c@ == b@,
        r@ == c@,
    ensures
        r == b,
{
    assert(r =~= b);
}

/// A name of four ASCII letters, in any mix of case, is accepted, and the
/// chunk type parsed from it renders back as the same name.
pub proof fn lemma_text_round_trip(s: &str)
    requires
        s@.len() == 4,
        forall|i: int| 0 <= i < 4 ==> #[trigger] is_letter_char(s@[i]),
    ensures
        is_letter_code(s.spec_bytes()),
        render(s.spec_bytes()) == s@,
{
    assert(is_ascii_chars(s@)) by {
        assert forall|i: int| 0 <= i < s@.len() implies '\0' <= #[trigger] s@[i] <= '\u{7f}' by {
            assert(is_letter_char(s@[i]));
        }
    }
    is_ascii_chars_encode_utf8(s@);
    let b = s.spec_bytes();
    assert forall|i: int| 0 <= i < 4 implies is_ascii_letter(#[trigger] b[i]) && (b[i] as char)
        == s@[i] by {
        assert(is_letter_char(s@[i]));
    }
    assert(render(b) =~= s@);
}

/// Equality of chunk types is reflexive, symmetric and transitive.
pub proof fn lemma_eq_equivalence(a: ChunkType, b: ChunkType, c: ChunkType)
    ensures
        a.eq_spec(&a),
        a.eq_spec(&b) == b.eq_spec(&a),
        a.eq_spec(&b) && b.eq_spec(&c) ==> a.eq_spec(&c),
{
}

/// Chunk types parsed from two names are equal exactly when the names are the
/// same text, so the comparison is case-sensitive: `a` is what `from_str`
/// returns for `s`, and `b` what it returns for `t`.
pub proof fn lemma_eq_case_sensitive(s: &str, t: &str, a: ChunkType, b: ChunkType)
    requires
        a@ == s.spec_bytes(),
        b@ == t.spec_bytes(),
    ensures
        a.eq_spec(&b) <==> s@ == t@,
{
    encode_utf8_decode_utf8(s@);
    encode_utf8_decode_utf8(t@);
}

} // verus!
