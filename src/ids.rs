use vstd::prelude::*;

verus! {

/// The number of characters of a correlation id. With an alphabet of 62
/// characters this gives about 131 bits of randomness, so that two calls that
/// are in flight together are practically never given the same id.
pub const ID_LENGTH: usize = 22;

/// The characters that correlation ids are made of: ASCII digits and letters.
pub open spec fn is_id_char(c: char) -> bool {
    ('0' <= c && c <= '9') || ('a' <= c && c <= 'z') || ('A' <= c && c <= 'Z')
}

/// A correlation id: `ID_LENGTH` ASCII digits and letters.
pub open spec fn is_request_id(s: Seq<char>) -> bool {
    s.len() == ID_LENGTH && forall|i: int| 0 <= i < s.len() ==> is_id_char(#[trigger] s[i])
}

/// Relies on `nanoid::format` with the `nanoid::rngs::default` source of
/// random bytes: it pushes characters of `alphabet` until the string is `size`
/// bytes long. For an alphabet of ASCII characters, at most 255 of them, that
/// is `size` characters; it never returns for an empty alphabet or `size` 0.
#[verifier::external_body]
fn random_token(alphabet: &[char], size: usize) -> (r: String)
    requires
        0 < alphabet@.len() <= 255,
        0 < size,
        forall|i: int| 0 <= i < alphabet@.len() ==> (#[trigger] alphabet@[i] as u32) < 128,
    ensures
        r@.len() == size,
        forall|i: int| 0 <= i < r@.len() ==> alphabet@.contains(#[trigger] r@[i]),
{
    nanoid::format(nanoid::rngs::default, alphabet, size)
}

/// The alphabet of correlation ids.
fn id_alphabet() -> (r: Vec<char>)
    ensures
        0 < r@.len() <= 255,
        forall|i: int| 0 <= i < r@.len() ==> is_id_char(#[trigger] r@[i]),
{
    let r = vec![
        '0', '1', '2', '3', '4', '5', '6', '7', '8', '9',
        'a', 'b', 'c', 'd', 'e', 'f', 'g', 'h', 'i', 'j', 'k', 'l', 'm',
        'n', 'o', 'p', 'q', 'r', 's', 't', 'u', 'v', 'w', 'x', 'y', 'z',
        'A', 'B', 'C', 'D', 'E', 'F', 'G', 'H', 'I', 'J', 'K', 'L', 'M',
        'N', 'O', 'P', 'Q', 'R', 'S', 'T', 'U', 'V', 'W', 'X', 'Y', 'Z',
    ];
    r
}

/// A fresh random correlation id for an outgoing call.
pub fn new_request_id() -> (r: String)
    ensures
        is_request_id(r@),
{
    let alphabet = id_alphabet();
    assert forall|i: int| 0 <= i < alphabet@.len() implies (#[trigger] alphabet@[i] as u32) < 128 by {
        assert(is_id_char(alphabet@[i]));
    }
    let id = random_token(alphabet.as_slice(), ID_LENGTH);
    assert forall|i: int| 0 <= i < id@.len() implies is_id_char(#[trigger] id@[i]) by {
        assert(alphabet@.contains(id@[i]));
    }
    id
}

} // verus!
