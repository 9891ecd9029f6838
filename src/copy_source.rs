use vstd::prelude::*;
use vstd::string::StringSliceAdditionalSpecFns;

verus! {

/// Bytes that percent-encoding leaves as they are: ASCII letters and digits
/// and `-`, `.`, `_`, `~`.
pub open spec fn is_unreserved(b: u8) -> bool {
    (48 <= b <= 57) || (65 <= b <= 90) || (97 <= b <= 122) || b == 45 || b == 46 || b == 95
        || b == 126
}

/// Upper-case hexadecimal digit of `d < 16`.
pub open spec fn hex_digit(d: int) -> char {
    seq!['0', '1', '2', '3', '4', '5', '6', '7', '8', '9', 'A', 'B', 'C', 'D', 'E', 'F'][d]
}

/// One byte, percent-encoded.
pub open spec fn encode_byte(b: u8) -> Seq<char> {
    if is_unreserved(b) {
        seq![b as char]
    } else {
        seq!['%', hex_digit(b as int / 16), hex_digit(b as int % 16)]
    }
}

/// `bytes`, percent-encoded byte by byte.
pub open spec fn percent_encoded(bytes: Seq<u8>) -> Seq<char>
    decreases bytes.len(),
{
    if bytes.len() == 0 {
        Seq::empty()
    } else {
        encode_byte(bytes[0]) + percent_encoded(bytes.drop_first())
    }
}

/// The copy source that names object `key` of `bucket`: `bucket/key`,
/// percent-encoded as UTF-8.
pub open spec fn copy_source_of(bucket: Seq<char>, key: Seq<char>) -> Seq<char> {
    percent_encoded(vstd::utf8::encode_utf8(bucket + seq!['/'] + key))
}

/// Relies on urlencoding::encode: every byte of the UTF-8 text but ASCII
/// letters, digits and `-`, `.`, `_`, `~` becomes `%` and two upper-case
/// hexadecimal digits.
#[verifier::external_body]
fn percent_encode(s: &str) -> (r: String)
    ensures
        r@ == percent_encoded(s.spec_bytes()),
{
    urlencoding::encode(s).into_owned()
}

/// The copy source that names object `key` of `bucket`.
pub fn copy_source(bucket: &str, key: &str) -> (r: String)
    ensures
        r@ == copy_source_of(bucket@, key@),
{
    let mut path = String::from_str(bucket);
    path.append("/");
    path.append(key);
    proof {
        reveal_strlit("/");
        assert(path@ =~= bucket@ + seq!['/'] + key@);
    }
    percent_encode(path.as_str())
}

} // verus!
