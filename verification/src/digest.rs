//! Content hashes, computed by the `sha2` and `buildchain` crates, and how
//! they are written.

use vstd::prelude::*;
use vstd::string::*;

verus! {

/// The SHA-256 of `data`.
pub uninterp spec fn sha256_of(data: Seq<u8>) -> Seq<u8>;

/// The digest under which a content-addressed store files `data`: the
/// base-32 SHA-384 of it, or `None` where it cannot be computed.
pub uninterp spec fn object_digest(data: Seq<u8>) -> Option<Seq<char>>;

/// Calls `sha2::Sha256::digest` and hands out the bytes it returns. The
/// contract only gives them a name: they are a function of `data` alone.
#[verifier::external_body]
pub(crate) fn sha256(data: &[u8]) -> (hash: Vec<u8>)
    ensures
        hash@ == sha256_of(data@),
{
    <sha2::Sha256 as sha2::Digest>::digest(data).to_vec()
}

/// Calls `buildchain::Sha384::new` on `data` and `to_base32` on what it
/// returns. The contract only gives the outcome a name: it is a function of
/// `data` alone, the read of a slice having no other input.
#[verifier::external_body]
pub(crate) fn content_digest(data: &[u8]) -> (digest: Option<String>)
    ensures
        digest is Some == object_digest(data@) is Some,
        digest matches Some(d) ==> object_digest(data@) == Some(d@),
{
    buildchain::Sha384::new(data).ok().map(|sha| sha.to_base32())
}

/// The hexadecimal digit for a number below sixteen, in lower case.
pub open spec fn hex_digit(nibble: int) -> char {
    if nibble == 0 {
        '0'
    } else if nibble == 1 {
        '1'
    } else if nibble == 2 {
        '2'
    } else if nibble == 3 {
        '3'
    } else if nibble == 4 {
        '4'
    } else if nibble == 5 {
        '5'
    } else if nibble == 6 {
        '6'
    } else if nibble == 7 {
        '7'
    } else if nibble == 8 {
        '8'
    } else if nibble == 9 {
        '9'
    } else if nibble == 10 {
        'a'
    } else if nibble == 11 {
        'b'
    } else if nibble == 12 {
        'c'
    } else if nibble == 13 {
        'd'
    } else if nibble == 14 {
        'e'
    } else {
        'f'
    }
}

/// The digit of `bytes` in hexadecimal at `at`: each byte gives two, the
/// high half first.
pub open spec fn hex_at(bytes: Seq<u8>, at: int) -> char {
    if at % 2 == 0 {
        hex_digit(bytes[at / 2] as int / 16)
    } else {
        hex_digit(bytes[at / 2] as int % 16)
    }
}

/// `bytes` in hexadecimal, in lower case.
pub open spec fn hex_of(bytes: Seq<u8>) -> Seq<char> {
    Seq::new(2 * bytes.len(), |at: int| hex_at(bytes, at))
}

/// The hexadecimal digit for `nibble`.
fn digit(nibble: u8) -> (text: &'static str)
    requires
        nibble < 16,
    ensures
        text@ == seq![hex_digit(nibble as int)],
{
    proof {
        reveal_strlit("0");
        reveal_strlit("1");
        reveal_strlit("2");
        reveal_strlit("3");
        reveal_strlit("4");
        reveal_strlit("5");
        reveal_strlit("6");
        reveal_strlit("7");
        reveal_strlit("8");
        reveal_strlit("9");
        reveal_strlit("a");
        reveal_strlit("b");
        reveal_strlit("c");
        reveal_strlit("d");
        reveal_strlit("e");
        reveal_strlit("f");
    }
    let text = if nibble == 0 {
        "0"
    } else if nibble == 1 {
        "1"
    } else if nibble == 2 {
        "2"
    } else if nibble == 3 {
        "3"
    } else if nibble == 4 {
        "4"
    } else if nibble == 5 {
        "5"
    } else if nibble == 6 {
        "6"
    } else if nibble == 7 {
        "7"
    } else if nibble == 8 {
        "8"
    } else if nibble == 9 {
        "9"
    } else if nibble == 10 {
        "a"
    } else if nibble == 11 {
        "b"
    } else if nibble == 12 {
        "c"
    } else if nibble == 13 {
        "d"
    } else if nibble == 14 {
        "e"
    } else {
        "f"
    };
    assert(text@ =~= seq![hex_digit(nibble as int)]);
    text
}

/// `bytes` in hexadecimal, in lower case.
pub fn hex(bytes: &[u8]) -> (text: String)
    ensures
        text@ == hex_of(bytes@),
{
    let mut text = String::new();
    let mut i: usize = 0;
    while i < bytes.len()
        invariant
            i <= bytes.len(),
            text@ == hex_of(bytes@.take(i as int)),
        decreases bytes.len() - i,
    {
        let byte = bytes[i];
        let ghost before = text@;
        text.append(digit(byte / 16));
        text.append(digit(byte % 16));
        proof {
            let done = bytes@.take(i as int);
            let more = bytes@.take(i + 1);
            assert(more.len() == i + 1);
            assert forall|at: int| 0 <= at < 2 * (i + 1) implies #[trigger] text@[at] == hex_at(
                more,
                at,
            ) by {
                if at < 2 * i {
                    assert(text@[at] == before[at]);
                    assert(before[at] == hex_at(done, at));
                    assert(done[at / 2] == more[at / 2]);
                } else {
                    assert(more[at / 2] == byte);
                }
            }
            assert(text@ =~= hex_of(more));
        }
        i = i + 1;
    }
    assert(bytes@.take(i as int) =~= bytes@);
    text
}

} // verus!
