//! Commit and change identifiers: raw bytes, their textual forms, and
//! comparison.

use vstd::prelude::*;

verus! {

/// The digit for a nibble in ordinary hex: `0-9a-f`.
pub open spec fn hex_digit(n: u8) -> char {
    if n < 10 {
        ((n + 48) as u8) as char
    } else {
        ((n + 87) as u8) as char
    }
}

/// The digit for a nibble in "reverse" hex, as change ids are shown: `z-k`.
pub open spec fn reverse_hex_digit(n: u8) -> char {
    ((122 - n) as u8) as char
}

/// Ordinary hex text of a byte string: two digits per byte, high nibble first.
pub open spec fn hex_text(b: Seq<u8>) -> Seq<char>
    decreases b.len(),
{
    if b.len() == 0 {
        Seq::empty()
    } else {
        hex_text(b.drop_last()) + seq![hex_digit(b.last() / 16), hex_digit(b.last() % 16)]
    }
}

/// Reverse hex text of a byte string: two `z-k` digits per byte, high nibble
/// first.
pub open spec fn reverse_hex_text(b: Seq<u8>) -> Seq<char>
    decreases b.len(),
{
    if b.len() == 0 {
        Seq::empty()
    } else {
        reverse_hex_text(b.drop_last()) + seq![
            reverse_hex_digit(b.last() / 16),
            reverse_hex_digit(b.last() % 16),
        ]
    }
}

/// Relies on jj_lib's `CommitId::hex`, which encodes the id's bytes with
/// `hex_util::encode_hex`: digits `0-9a-f`, high nibble first.
#[verifier::external_body]
pub(crate) fn commit_id_hex(id: &Vec<u8>) -> (r: String)
    ensures
        r@ == hex_text(id@),
{
    jj_lib::object_id::ObjectId::hex(&jj_lib::backend::CommitId::new(id.clone()))
}

/// Relies on jj_lib's `Display` for `ChangeId`, which pads the id's
/// `reverse_hex`, itself `hex_util::encode_reverse_hex`: digits `z-k`, high
/// nibble first.
#[verifier::external_body]
pub(crate) fn change_id_text(id: &Vec<u8>) -> (r: String)
    ensures
        r@ == reverse_hex_text(id@),
{
    jj_lib::backend::ChangeId::new(id.clone()).to_string()
}

/// Whether two ids are the same byte string.
pub fn same_id(a: &Vec<u8>, b: &Vec<u8>) -> (r: bool)
    ensures
        r == (a@ == b@),
{
    if a.len() != b.len() {
        return false;
    }
    let mut i: usize = 0;
    while i < a.len()
        invariant
            a@.len() == b@.len(),
            i <= a@.len(),
            a@.take(i as int) == b@.take(i as int),
        decreases a@.len() - i,
    {
        if a[i] != b[i] {
            assert(a@[i as int] != b@[i as int]);
            return false;
        }
        assert(a@.take(i + 1) == a@.take(i as int).push(a@[i as int]));
        assert(b@.take(i + 1) == b@.take(i as int).push(b@[i as int]));
        i = i + 1;
    }
    assert(a@ == a@.take(a@.len() as int));
    assert(b@ == b@.take(b@.len() as int));
    true
}

/// Whether `id` is one of `ids`.
pub fn contains_id(ids: &Vec<Vec<u8>>, id: &Vec<u8>) -> (r: bool)
    ensures
        r == exists|k: int| 0 <= k < ids@.len() && (#[trigger] ids@[k])@ == id@,
{
    let mut i: usize = 0;
    while i < ids.len()
        invariant
            i <= ids@.len(),
            forall|k: int| 0 <= k < i ==> (#[trigger] ids@[k])@ != id@,
        decreases ids@.len() - i,
    {
        if same_id(&ids[i], id) {
            return true;
        }
        i = i + 1;
    }
    false
}

} // verus!
