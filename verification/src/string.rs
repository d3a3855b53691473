//! Strings: the C datum of a string is a nul-terminated array of C
//! characters holding its UTF-8 bytes.
use crate::foreign::{
    BorrowedMutPointer, CloneToForeign, FreeForeign, FromForeign, IntoForeign, OwnedPointer,
};
use libc::c_char;
use vstd::prelude::*;
use vstd::string::StringSliceAdditionalSpecFns;
use vstd::utf8::{
    char_is_scalar, decode_utf8, encode_scalar, encode_utf8, encode_utf8_decode_utf8,
    encode_utf8_valid_utf8, valid_utf8,
};

verus! {

/// The C string that holds the bytes `bytes`: each byte as a C character,
/// then a nul.
pub open spec fn c_string_of(bytes: Seq<u8>) -> Seq<c_char> {
    bytes.map_values(|b: u8| b as c_char) + seq![0 as c_char]
}

/// Whether `n` is the position of the first nul in `cells`.
pub open spec fn is_first_nul(cells: Seq<c_char>, n: int) -> bool {
    &&& 0 <= n < cells.len()
    &&& cells[n] == 0
    &&& forall|i: int| 0 <= i < n ==> cells[i] != 0
}

/// Whether `cells` holds a nul, which ends the C string that starts there.
pub open spec fn has_nul(cells: Seq<c_char>) -> bool {
    exists|n: int| is_first_nul(cells, n)
}

/// The bytes of the C string that starts at `cells`: the characters before
/// the first nul.
pub open spec fn c_string_bytes(cells: Seq<c_char>) -> Seq<u8> {
    let n = choose|n: int| is_first_nul(cells, n);
    cells.take(n).map_values(|c: c_char| c as u8)
}

/// What `String::from_utf8_lossy` makes of `bytes`.
pub uninterp spec fn utf8_lossy(bytes: Seq<u8>) -> Seq<char>;

/// `String::from_utf8_lossy`: the text of `bytes`, with each invalid UTF-8
/// sequence replaced by U+FFFD.  The contract names the result and states
/// what the documentation gives: valid UTF-8 is decoded as it stands.
#[verifier::external_body]
fn string_from_utf8_lossy(bytes: &[u8]) -> (r: String)
    ensures
        r@ == utf8_lossy(bytes@),
        valid_utf8(bytes@) ==> r@ == decode_utf8(bytes@),
{
    String::from_utf8_lossy(bytes).into_owned()
}

/// The text that the C string starting at `cells` is read as.
pub open spec fn read_c_string(cells: Seq<c_char>, s: Seq<char>) -> bool {
    let bytes = c_string_bytes(cells);
    &&& s == utf8_lossy(bytes)
    &&& valid_utf8(bytes) ==> s == decode_utf8(bytes)
}

/// The first nul of a block is unique.
proof fn lemma_first_nul_unique(cells: Seq<c_char>, n: int, m: int)
    requires
        is_first_nul(cells, n),
        is_first_nul(cells, m),
    ensures
        n == m,
{
}

/// A byte survives the trip to a C character and back.
proof fn lemma_byte_cast(b: u8)
    ensures
        ((b as c_char) as u8) == b,
{
    assert(((b as i8) as u8) == b) by (bit_vector);
}

/// Build the C string that holds `bytes`.
fn c_string_from_bytes(bytes: &[u8]) -> (r: Vec<c_char>)
    ensures
        r@ == c_string_of(bytes@),
{
    let mut block: Vec<c_char> = Vec::new();
    let mut i: usize = 0;
    while i < bytes.len()
        invariant
            i <= bytes@.len(),
            block@ == bytes@.take(i as int).map_values(|b: u8| b as c_char),
        decreases bytes@.len() - i,
    {
        block.push(bytes[i] as c_char);
        i = i + 1;
        assert(bytes@.take(i as int).map_values(|b: u8| b as c_char) == bytes@.take(
            i - 1,
        ).map_values(|b: u8| b as c_char).push(bytes@[i - 1] as c_char));
    }
    block.push(0);
    assert(bytes@.take(bytes@.len() as int) == bytes@);
    block
}

/// Copy the C string that starts at `cells` into a vector of bytes.
fn c_string_bytes_of(cells: &[c_char]) -> (r: Vec<u8>)
    requires
        has_nul(cells@),
    ensures
        r@ == c_string_bytes(cells@),
{
    let ghost n = choose|n: int| is_first_nul(cells@, n);
    let mut bytes: Vec<u8> = Vec::new();
    let mut i: usize = 0;
    while cells[i] != 0
        invariant
            is_first_nul(cells@, n),
            0 <= i <= n,
            bytes@ == cells@.take(i as int).map_values(|c: c_char| c as u8),
        decreases n - i,
    {
        bytes.push(cells[i] as u8);
        i = i + 1;
        assert(cells@.take(i as int).map_values(|c: c_char| c as u8) == cells@.take(
            i - 1,
        ).map_values(|c: c_char| c as u8).push(cells@[i - 1] as u8));
    }
    bytes
}

impl FreeForeign for str {
    type Foreign = c_char;

    open spec fn foreign_repr(&self) -> Option<Seq<c_char>> {
        Some(c_string_of(self.spec_bytes()))
    }
}

impl CloneToForeign for str {
    fn clone_to_foreign(&self) -> (r: OwnedPointer<Self>) {
        OwnedPointer::new(Some(c_string_from_bytes(self.as_bytes())))
    }
}

impl FreeForeign for String {
    type Foreign = c_char;

    open spec fn foreign_repr(&self) -> Option<Seq<c_char>> {
        Some(c_string_of(encode_utf8(self@)))
    }
}

impl CloneToForeign for String {
    fn clone_to_foreign(&self) -> (r: OwnedPointer<Self>) {
        self.as_str().clone_to_foreign().into()
    }
}

impl FromForeign for String {
    open spec fn valid_foreign(p: Option<Seq<c_char>>) -> bool {
        p matches Some(cells) && has_nul(cells)
    }

    open spec fn read_foreign(p: Option<Seq<c_char>>, v: String) -> bool {
        p matches Some(cells) && read_c_string(cells, v@)
    }

    fn cloned_from_foreign(p: Option<&[c_char]>) -> (r: String) {
        let bytes = c_string_bytes_of(p.unwrap());
        string_from_utf8_lossy(bytes.as_slice())
    }
}

impl IntoForeign for String {
    type Storage = Vec<c_char>;

    /// The string must not hold a nul character, which a C string cannot
    /// carry.
    open spec fn into_foreign_requires(&self) -> bool {
        !self@.contains('\0')
    }

    fn into_foreign(self) -> (r: BorrowedMutPointer<Self, Vec<c_char>>)
        ensures
            r.storage_spec()@ == c_string_of(encode_utf8(self@)),
    {
        let text: &str = self.as_str();
        let bytes: &[u8] = text.as_bytes();
        assert(bytes@ == encode_utf8(self@));
        let block = c_string_from_bytes(bytes);
        let r = BorrowedMutPointer::new(block);
        assert(r.storage_spec()@ == c_string_of(encode_utf8(self@)));
        assert(r.ptr_spec() == Some(r.storage_spec()@));
        assert(self.foreign_repr() == Some(c_string_of(encode_utf8(self@))));
        r
    }
}

/// The UTF-8 encoding of a character other than nul holds no zero byte.
proof fn lemma_encode_scalar_nonzero(c: char)
    requires
        c != '\0',
    ensures
        forall|i: int|
            0 <= i < encode_scalar(c as u32).len() ==> #[trigger] encode_scalar(c as u32)[i] != 0,
{
    char_is_scalar(c);
    let v = c as u32;
    assert(v != 0) by {
        vstd::utf8::char_u32_cast(c, v);
        vstd::utf8::char_u32_cast('\0', 0u32);
    }
    assert(forall|x: u8| #![auto] (0x80u8 | x) != 0) by (bit_vector);
    assert(forall|x: u8| #![auto] (0xC0u8 | x) != 0) by (bit_vector);
    assert(forall|x: u8| #![auto] (0xE0u8 | x) != 0) by (bit_vector);
    assert(forall|x: u8| #![auto] (0xF0u8 | x) != 0) by (bit_vector);
    assert(1 <= v <= 0x7F ==> ((v & 0x7F) as u8) != 0) by (bit_vector);
}

/// The UTF-8 encoding of a text without nul characters holds no zero byte.
proof fn lemma_encode_nonzero(chars: Seq<char>)
    requires
        !chars.contains('\0'),
    ensures
        forall|i: int| 0 <= i < encode_utf8(chars).len() ==> #[trigger] encode_utf8(chars)[i] != 0,
    decreases chars.len(),
{
    if chars.len() > 0 {
        assert(chars[0] != '\0') by {
            if chars[0] == '\0' {
                assert(chars.contains('\0'));
            }
        }
        lemma_encode_scalar_nonzero(chars[0]);
        let rest = chars.drop_first();
        assert(!rest.contains('\0')) by {
            if rest.contains('\0') {
                let k = choose|k: int| 0 <= k < rest.len() && rest[k] == '\0';
                assert(chars[k + 1] == '\0');
            }
        }
        lemma_encode_nonzero(rest);
        let first = encode_scalar(chars[0] as u32);
        assert forall|i: int| 0 <= i < encode_utf8(chars).len() implies #[trigger] encode_utf8(
            chars,
        )[i] != 0 by {
            if i < first.len() {
                assert(encode_utf8(chars)[i] == first[i]);
            } else {
                assert(encode_utf8(chars)[i] == encode_utf8(rest)[i - first.len()]);
            }
        }
    }
}

/// In the C string of bytes that hold no zero, the first nul is the
/// terminator, and the bytes read back are the bytes written.
proof fn lemma_c_string_bytes_roundtrip(bytes: Seq<u8>)
    requires
        forall|i: int| 0 <= i < bytes.len() ==> #[trigger] bytes[i] != 0,
    ensures
        is_first_nul(c_string_of(bytes), bytes.len() as int),
        has_nul(c_string_of(bytes)),
        c_string_bytes(c_string_of(bytes)) == bytes,
{
    let cells = c_string_of(bytes);
    let n = bytes.len() as int;
    assert forall|i: int| 0 <= i < n implies cells[i] != 0 by {
        lemma_byte_cast(bytes[i]);
    }
    assert(is_first_nul(cells, n));
    let m = choose|m: int| is_first_nul(cells, m);
    lemma_first_nul_unique(cells, n, m);
    assert forall|i: int| 0 <= i < n implies (cells[i] as u8) == #[trigger] bytes[i] by {
        lemma_byte_cast(bytes[i]);
    }
    assert(c_string_bytes(cells) =~= bytes);
}

/// A text without nul characters is read back from its C string as the same
/// text: converting a string to C and back gives it back.
pub proof fn lemma_string_roundtrip(text: Seq<char>, r: String)
    requires
        !text.contains('\0'),
    ensures
        String::valid_foreign(Some(c_string_of(encode_utf8(text)))),
        String::read_foreign(Some(c_string_of(encode_utf8(text))), r) ==> r@ == text,
{
    lemma_encode_nonzero(text);
    lemma_c_string_bytes_roundtrip(encode_utf8(text));
    encode_utf8_valid_utf8(text);
    encode_utf8_decode_utf8(text);
}

/// A text with a nul character is read back from its C string as the text
/// before its first nul: C sees the string end there.
pub proof fn lemma_string_truncated_at_nul(before: Seq<char>, after: Seq<char>, r: String)
    requires
        !before.contains('\0'),
    ensures
        String::valid_foreign(Some(c_string_of(encode_utf8(before + seq!['\0'] + after)))),
        String::read_foreign(Some(c_string_of(encode_utf8(before + seq!['\0'] + after))), r)
            ==> r@ == before,
{
    let text = before + seq!['\0'] + after;
    let head = encode_utf8(before);
    lemma_encode_append(before, seq!['\0'] + after);
    lemma_encode_append(seq!['\0'], after);
    assert(text == before + (seq!['\0'] + after));
    assert(encode_utf8(seq!['\0']) == seq![0u8]) by {
        reveal_with_fuel(encode_utf8, 2);
        assert(seq!['\0'].drop_first() =~= Seq::<char>::empty());
        assert(('\0' as u32) == 0u32);
        assert(((0u32 & 0x7F) as u8) == 0u8) by (bit_vector);
        assert(encode_scalar(0u32) =~= seq![0u8]);
        assert(encode_utf8(seq!['\0']) =~= seq![0u8]);
    }
    let bytes = encode_utf8(text);
    lemma_encode_nonzero(before);
    let cells = c_string_of(bytes);
    let n = head.len() as int;
    assert(bytes[n] == 0);
    assert forall|i: int| 0 <= i < n implies cells[i] != 0 by {
        assert(bytes[i] == head[i]);
        lemma_byte_cast(bytes[i]);
    }
    assert(is_first_nul(cells, n));
    let m = choose|m: int| is_first_nul(cells, m);
    lemma_first_nul_unique(cells, n, m);
    assert forall|i: int| 0 <= i < n implies (cells[i] as u8) == #[trigger] head[i] by {
        assert(bytes[i] == head[i]);
        lemma_byte_cast(bytes[i]);
    }
    assert(c_string_bytes(cells) =~= head);
    encode_utf8_valid_utf8(before);
    encode_utf8_decode_utf8(before);
}

/// The encoding of two texts one after the other is the encoding of the
/// first followed by that of the second.
proof fn lemma_encode_append(a: Seq<char>, b: Seq<char>)
    ensures
        encode_utf8(a + b) == encode_utf8(a) + encode_utf8(b),
    decreases a.len(),
{
    if a.len() > 0 {
        assert((a + b).drop_first() =~= a.drop_first() + b);
        lemma_encode_append(a.drop_first(), b);
        assert((a + b)[0] == a[0]);
        assert(encode_utf8(a + b) =~= encode_utf8(a) + encode_utf8(b));
    } else {
        assert(a + b =~= b);
        assert(encode_utf8(a) =~= Seq::<u8>::empty());
        assert(encode_utf8(a) + encode_utf8(b) =~= encode_utf8(b));
    }
}

/// The C datum of a string slice is its UTF-8 bytes unchanged, each byte in
/// one C character, followed by a single nul.
pub proof fn lemma_str_datum(s: &str)
    ensures
        s.foreign_repr() is Some,
        s.foreign_repr().unwrap().len() == s.spec_bytes().len() + 1,
        forall|i: int|
            0 <= i < s.spec_bytes().len() ==> (#[trigger] s.foreign_repr().unwrap()[i] as u8)
                == s.spec_bytes()[i],
        s.foreign_repr().unwrap()[s.spec_bytes().len() as int] == 0,
{
    lemma_c_string_cells(s.spec_bytes());
}

/// The C datum of a `String` is its UTF-8 bytes unchanged, each byte in one
/// C character, followed by a single nul.
pub proof fn lemma_string_datum(s: String)
    ensures
        s.foreign_repr() is Some,
        s.foreign_repr().unwrap().len() == encode_utf8(s@).len() + 1,
        forall|i: int|
            0 <= i < encode_utf8(s@).len() ==> (#[trigger] s.foreign_repr().unwrap()[i] as u8)
                == encode_utf8(s@)[i],
        s.foreign_repr().unwrap()[encode_utf8(s@).len() as int] == 0,
{
    lemma_c_string_cells(encode_utf8(s@));
}

/// The cells of the C string of `bytes`: the bytes themselves, then a nul.
proof fn lemma_c_string_cells(bytes: Seq<u8>)
    ensures
        c_string_of(bytes).len() == bytes.len() + 1,
        forall|i: int|
            0 <= i < bytes.len() ==> (#[trigger] c_string_of(bytes)[i] as u8) == bytes[i],
        c_string_of(bytes)[bytes.len() as int] == 0,
{
    assert forall|i: int| 0 <= i < bytes.len() implies (#[trigger] c_string_of(bytes)[i] as u8)
        == bytes[i] by {
        lemma_byte_cast(bytes[i]);
    }
}

/// Reading a C string takes the characters before its first nul, each as
/// the byte it holds, and makes of them what `String::from_utf8_lossy`
/// makes; bytes that are valid UTF-8 are decoded as they stand.
pub proof fn lemma_string_read(cells: Seq<c_char>, n: int, v: String)
    requires
        0 <= n < cells.len(),
        cells[n] == 0,
        forall|i: int| 0 <= i < n ==> cells[i] != 0,
    ensures
        String::valid_foreign(Some(cells)),
        String::read_foreign(Some(cells), v) ==> v@ == utf8_lossy(
            Seq::new(n as nat, |i: int| cells[i] as u8),
        ),
        String::read_foreign(Some(cells), v) && valid_utf8(
            Seq::new(n as nat, |i: int| cells[i] as u8),
        ) ==> v@ == decode_utf8(Seq::new(n as nat, |i: int| cells[i] as u8)),
{
    assert(is_first_nul(cells, n));
    let m = choose|m: int| is_first_nul(cells, m);
    lemma_first_nul_unique(cells, n, m);
    assert(c_string_bytes(cells) =~= Seq::new(n as nat, |i: int| cells[i] as u8));
}

} // verus!
