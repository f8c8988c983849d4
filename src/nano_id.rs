//! Short random identifiers over a 62-symbol alphabet, drawn by rejection
//! sampling from random bytes.
use vstd::prelude::*;

verus! {

/// Number of symbols an identifier may use.
pub const ALPHABET_LEN: u8 = 62;

/// Mask that reduces a byte to the smallest power-of-two range covering the alphabet.
pub const MASK: u8 = 63;

/// The symbol at position `i` of the alphabet: digits, then `a`..`z`, then `A`..`Z`.
pub open spec fn spec_symbol(i: int) -> char {
    if i < 10 {
        (48 + i) as char
    } else if i < 36 {
        (97 + (i - 10)) as char
    } else {
        (65 + (i - 36)) as char
    }
}

/// Whether `c` is one of the alphabet's symbols.
pub open spec fn is_id_symbol(c: char) -> bool {
    ('0' <= c && c <= '9') || ('a' <= c && c <= 'z') || ('A' <= c && c <= 'Z')
}

/// The symbol at position `i` of the alphabet.
pub fn symbol(i: u8) -> (c: char)
    requires
        i < ALPHABET_LEN,
    ensures
        c == spec_symbol(i as int),
        is_id_symbol(c),
{
    if i < 10 {
        (48 + i) as char
    } else if i < 36 {
        (97 + (i - 10)) as char
    } else {
        (65 + (i - 36)) as char
    }
}

/// Random bytes drawn at a time.
pub const BATCH: usize = 64;

/// Symbols that one random byte contributes: the symbol its masked value
/// names, or nothing where that value lies past the alphabet.
pub open spec fn byte_symbols(b: u8) -> Seq<char> {
    if (b & MASK) < ALPHABET_LEN {
        seq![spec_symbol((b & MASK) as int)]
    } else {
        Seq::empty()
    }
}

/// Identifier text after consuming `bytes` on top of `acc`, stopping as soon
/// as `size` symbols have been gathered.
pub open spec fn fill_from(acc: Seq<char>, bytes: Seq<u8>, size: nat) -> Seq<char>
    decreases bytes.len(),
{
    if acc.len() >= size || bytes.len() == 0 {
        acc
    } else {
        fill_from(acc + byte_symbols(bytes[0]), bytes.drop_first(), size)
    }
}

/// Every character of `s` is an alphabet symbol.
pub open spec fn all_id_symbols(s: Seq<char>) -> bool {
    forall|i: int| 0 <= i < s.len() ==> is_id_symbol(#[trigger] s[i])
}

/// Relies on `String::push`: appends one character at the end.
#[verifier::external_body]
fn push_char(s: &mut String, c: char)
    ensures
        final(s)@ == old(s)@.push(c),
{
    s.push(c)
}

/// Appends to `id`, which holds `len` symbols, the symbols that `bytes`
/// yield, in order, stopping once `id` holds `size` symbols. Returns the new
/// number of symbols.
pub fn accept_bytes(bytes: &Vec<u8>, id: &mut String, len: usize, size: usize) -> (n: usize)
    requires
        old(id)@.len() == len,
        len <= size,
        all_id_symbols(old(id)@),
    ensures
        final(id)@ == fill_from(old(id)@, bytes@, size as nat),
        n == final(id)@.len(),
        n <= size,
        all_id_symbols(final(id)@),
{
    let mut n: usize = len;
    let mut i: usize = 0;
    assert(bytes@.skip(0) == bytes@);
    while i < bytes.len()
        invariant
            i <= bytes@.len(),
            n == id@.len(),
            n <= size,
            all_id_symbols(id@),
            fill_from(id@, bytes@.skip(i as int), size as nat) == fill_from(
                old(id)@,
                bytes@,
                size as nat,
            ),
        ensures
            i == bytes@.len() || n >= size,
            n == id@.len(),
            n <= size,
            all_id_symbols(id@),
            fill_from(id@, bytes@.skip(i as int), size as nat) == fill_from(
                old(id)@,
                bytes@,
                size as nat,
            ),
        decreases bytes@.len() - i,
    {
        if n >= size {
            break;
        }
        let b = bytes[i];
        let ghost prev = id@;
        assert(bytes@.skip(i as int).drop_first() == bytes@.skip(i as int + 1));
        let m: u8 = b & MASK;
        if m < ALPHABET_LEN {
            let c = symbol(m);
            push_char(id, c);
            n = n + 1;
        }
        assert(id@ == prev + byte_symbols(b));
        assert(all_id_symbols(id@));
        i = i + 1;
    }
    assert(fill_from(id@, bytes@.skip(i as int), size as nat) == id@);
    n
}

/// Relies on `fastrand::fill`: overwrites the bytes with random values and
/// leaves the length as it was.
#[verifier::external_body]
fn fill_random(bytes: &mut Vec<u8>)
    ensures
        final(bytes)@.len() == old(bytes)@.len(),
{
    fastrand::fill(bytes.as_mut_slice())
}

/// A fresh random identifier of `size` symbols of the alphabet.
///
/// Bytes are drawn in batches of `BATCH` and rejected where their masked value
/// lies past the alphabet, so every symbol is equally likely. At most `size`
/// batches are drawn; a batch yields no symbol only when all of its bytes are
/// rejected (chance 2^-320), and only then is `None` returned.
pub fn nanoid(size: usize) -> (r: Option<String>)
    ensures
        r matches Some(s) ==> s@.len() == size && all_id_symbols(s@),
        size == 0 ==> r is Some,
{
    let mut id = String::new();
    let mut len: usize = 0;
    let mut batches: usize = 0;
    assert(all_id_symbols(id@));
    while len < size
        invariant
            len == id@.len(),
            len <= size,
            all_id_symbols(id@),
            batches <= size,
        decreases size - batches,
    {
        if batches == size {
            return None;
        }
        let mut bytes: Vec<u8> = vec![0u8; BATCH];
        fill_random(&mut bytes);
        len = accept_bytes(&bytes, &mut id, len, size);
        batches = batches + 1;
    }
    Some(id)
}

} // verus!
