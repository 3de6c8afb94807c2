//! Reading the caller's language preferences.
//!
//! The value of an `Accept-Language` header is a comma-separated list of
//! locale tags, each with an optional weight. The `accept-language` crate
//! orders the tags by weight; this module calls it, and keeps away from it
//! the one kind of header on which it may fail.

use vstd::prelude::*;
use vstd::string::StringSliceAdditionalSpecFns;
use vstd::utf8::encode_utf8;

verus! {

/// The locale tags that `accept-language` reads from the header value
/// `header`, most preferred first.
pub uninterp spec fn preferred_locales(header: Seq<char>) -> Seq<Seq<char>>;

/// The texts of a list of strings, in the same order.
pub open spec fn texts(strings: Seq<String>) -> Seq<Seq<char>> {
    Seq::new(strings.len(), |i: int| strings[i]@)
}

/// Whether `byte` is the letter `n`, in either case.
pub open spec fn is_letter_n(byte: u8) -> bool {
    byte == 0x6e || byte == 0x4e
}

/// Whether no comma stands between the positions `i` and `j` of `bytes`.
pub open spec fn no_comma_between(bytes: Seq<u8>, i: int, j: int) -> bool {
    forall|k: int| i < k < j ==> bytes[k] != 0x2c
}

/// Whether position `i` of `bytes` holds an equals sign and the later
/// position `j` of the same entry the letter `n`.
pub open spec fn letter_n_behind_equals(bytes: Seq<u8>, i: int, j: int) -> bool {
    &&& 0 <= i < j < bytes.len()
    &&& bytes[i] == 0x3d
    &&& is_letter_n(bytes[j])
    &&& no_comma_between(bytes, i, j)
}

/// Whether some entry of the header holds the letter `n` behind an equals
/// sign. Only such an entry can carry a weight that is not a number, and a
/// header without one is safe to order by weight.
pub open spec fn weight_may_be_nan(bytes: Seq<u8>) -> bool {
    exists|i: int, j: int| letter_n_behind_equals(bytes, i, j)
}

/// Calls `accept_language::parse`.
///
/// Trusted: the result is taken to depend on the header's text alone. The
/// crate sorts the entries by their weights as floating-point numbers, and a
/// weight that is not a number has no place in that order, so headers that
/// may hold one are left out.
#[verifier::external_body]
fn parse_weighted(header: &str) -> (locales: Vec<String>)
    requires
        !weight_may_be_nan(header.spec_bytes()),
    ensures
        texts(locales@) == preferred_locales(header@),
{
    accept_language::parse(header)
}

/// Whether `header` may hold a weight that is not a number.
pub fn has_suspect_weight(header: &str) -> (suspect: bool)
    ensures
        suspect == weight_may_be_nan(header.spec_bytes()),
{
    let bytes = header.as_bytes();
    let mut after_equals: bool = false;
    let ghost mut start: int = 0;
    let mut pos: usize = 0;
    while pos < bytes.len()
        invariant
            pos <= bytes.len(),
            bytes@ == header.spec_bytes(),
            after_equals ==> 0 <= start < pos && bytes[start] == 0x3d && no_comma_between(
                bytes@,
                start,
                pos as int,
            ),
            !after_equals ==> forall|i: int|
                0 <= i < pos && bytes[i] == 0x3d ==> !no_comma_between(bytes@, i, pos as int),
            forall|i: int, j: int| j < pos ==> !letter_n_behind_equals(bytes@, i, j),
        decreases bytes.len() - pos,
    {
        let byte = bytes[pos];
        if after_equals && (byte == 0x6e || byte == 0x4e) {
            assert(letter_n_behind_equals(bytes@, start, pos as int));
            return true;
        }
        proof {
            assert forall|i: int, j: int| j < pos + 1 implies !letter_n_behind_equals(
                bytes@,
                i,
                j,
            ) by {
                if j == pos && letter_n_behind_equals(bytes@, i, j) {
                    assert(!after_equals);
                }
            }
        }
        if byte == 0x3d {
            after_equals = true;
            proof {
                start = pos as int;
            }
        } else if byte == 0x2c {
            after_equals = false;
            assert forall|i: int| 0 <= i < pos + 1 && bytes[i] == 0x3d implies !no_comma_between(
                bytes@,
                i,
                pos + 1,
            ) by {
                assert(i < pos < pos + 1 && bytes[pos as int] == 0x2c);
            }
        } else {
            proof {
                if !after_equals {
                    assert forall|i: int|
                        0 <= i < pos + 1 && bytes[i] == 0x3d implies !no_comma_between(
                        bytes@,
                        i,
                        pos + 1,
                    ) by {
                        let k = choose|k: int| i < k < pos && bytes[k] == 0x2c;
                        assert(i < k < pos + 1 && bytes[k] == 0x2c);
                    }
                }
            }
        }
        pos = pos + 1;
    }
    assert(!weight_may_be_nan(bytes@));
    false
}

/// The locale tags of an `Accept-Language` header value, most preferred
/// first. A header that may hold a weight that is not a number counts as
/// unreadable and gives no tag at all.
pub fn parse_accept_language(header: &str) -> (locales: Vec<String>)
    ensures
        texts(locales@) == requested_locales(header@),
{
    if has_suspect_weight(header) {
        let locales: Vec<String> = Vec::new();
        assert(texts(locales@) =~= Seq::<Seq<char>>::empty());
        locales
    } else {
        parse_weighted(header)
    }
}

/// What [`parse_accept_language`] reads from `header`.
pub open spec fn requested_locales(header: Seq<char>) -> Seq<Seq<char>> {
    if weight_may_be_nan(encode_utf8(header)) {
        Seq::empty()
    } else {
        preferred_locales(header)
    }
}

} // verus!
