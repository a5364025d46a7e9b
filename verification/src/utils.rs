//! Digest encoding, decimal rendering, signing-string construction, and path
//! joining: the pure text layer of the upload pipeline.
use vstd::prelude::*;

verus! {

/// Which textual rendering of a digest is wanted: the compact lowercase
/// content-hash form, or the colon-delimited uppercase fingerprint form.
#[derive(PartialEq, Debug)]
pub enum HashType {
    Fingerprint,
    Deafult,
}

/// A canonical signing string together with the Unix timestamp that was
/// embedded in it; the same timestamp must be sent verbatim with the request.
pub struct IdentifyString {
    pub identify: String,
    pub timestamp: u64,
}

/// The lowercase hex character of a nibble.
pub open spec fn lower_hex_char(n: u8) -> char {
    if n == 0 {
        '0'
    } else if n == 1 {
        '1'
    } else if n == 2 {
        '2'
    } else if n == 3 {
        '3'
    } else if n == 4 {
        '4'
    } else if n == 5 {
        '5'
    } else if n == 6 {
        '6'
    } else if n == 7 {
        '7'
    } else if n == 8 {
        '8'
    } else if n == 9 {
        '9'
    } else if n == 10 {
        'a'
    } else if n == 11 {
        'b'
    } else if n == 12 {
        'c'
    } else if n == 13 {
        'd'
    } else if n == 14 {
        'e'
    } else {
        'f'
    }
}

/// The uppercase hex character of a nibble.
pub open spec fn upper_hex_char(n: u8) -> char {
    if n == 10 {
        'A'
    } else if n == 11 {
        'B'
    } else if n == 12 {
        'C'
    } else if n == 13 {
        'D'
    } else if n == 14 {
        'E'
    } else if n == 15 {
        'F'
    } else {
        lower_hex_char(n)
    }
}

/// Two lowercase hex characters of one byte, high nibble first.
pub open spec fn lower_hex_pair(b: u8) -> Seq<char> {
    seq![lower_hex_char(b / 16), lower_hex_char(b % 16)]
}

/// Two uppercase hex characters of one byte, high nibble first.
pub open spec fn upper_hex_pair(b: u8) -> Seq<char> {
    seq![upper_hex_char(b / 16), upper_hex_char(b % 16)]
}

/// The default digest rendering: each byte as two lowercase hex characters,
/// concatenated with no separator.
pub open spec fn lower_hex(bytes: Seq<u8>) -> Seq<char>
    decreases bytes.len(),
{
    if bytes.len() == 0 {
        Seq::empty()
    } else {
        lower_hex(bytes.drop_last()) + lower_hex_pair(bytes.last())
    }
}

/// The fingerprint rendering: each byte as two uppercase hex characters,
/// with `:` between consecutive bytes.
pub open spec fn fingerprint_hex(bytes: Seq<u8>) -> Seq<char>
    decreases bytes.len(),
{
    if bytes.len() == 0 {
        Seq::empty()
    } else if bytes.len() == 1 {
        upper_hex_pair(bytes.last())
    } else {
        fingerprint_hex(bytes.drop_last()) + seq![':'] + upper_hex_pair(bytes.last())
    }
}

/// The rendering selected by an optional mode: absent means the default form.
pub open spec fn requested_type(output_type: Option<HashType>) -> HashType {
    match output_type {
        Some(t) => t,
        None => HashType::Deafult,
    }
}

/// The rendering of a digest under a mode.
pub open spec fn digest_hash_spec(bytes: Seq<u8>, t: HashType) -> Seq<char> {
    if t == HashType::Fingerprint {
        fingerprint_hex(bytes)
    } else {
        lower_hex(bytes)
    }
}

fn lower_hex_digit(n: u8) -> (r: &'static str)
    requires
        n < 16,
    ensures
        r@ == seq![lower_hex_char(n)],
{
    let s: &'static str = match n {
        0 => "0",
        1 => "1",
        2 => "2",
        3 => "3",
        4 => "4",
        5 => "5",
        6 => "6",
        7 => "7",
        8 => "8",
        9 => "9",
        10 => "a",
        11 => "b",
        12 => "c",
        13 => "d",
        14 => "e",
        _ => "f",
    };
    proof {
        reveal_strlit("0");
        reveal_strlit("1");
        reveal_strlit("2");
        reveal_strlit("3");
        reveal_strlit("4");
        reveal_strlit("5");
        reveal_strlit("6");
        reveal_strlit("7");
        reveal_strlit("8");
        reveal_strlit("9");
        reveal_strlit("a");
        reveal_strlit("b");
        reveal_strlit("c");
        reveal_strlit("d");
        reveal_strlit("e");
        reveal_strlit("f");
        assert(s@ =~= seq![lower_hex_char(n)]);
    }
    s
}

fn upper_hex_digit(n: u8) -> (r: &'static str)
    requires
        n < 16,
    ensures
        r@ == seq![upper_hex_char(n)],
{
    let s: &'static str = match n {
        0 => "0",
        1 => "1",
        2 => "2",
        3 => "3",
        4 => "4",
        5 => "5",
        6 => "6",
        7 => "7",
        8 => "8",
        9 => "9",
        10 => "A",
        11 => "B",
        12 => "C",
        13 => "D",
        14 => "E",
        _ => "F",
    };
    proof {
        reveal_strlit("0");
        reveal_strlit("1");
        reveal_strlit("2");
        reveal_strlit("3");
        reveal_strlit("4");
        reveal_strlit("5");
        reveal_strlit("6");
        reveal_strlit("7");
        reveal_strlit("8");
        reveal_strlit("9");
        reveal_strlit("A");
        reveal_strlit("B");
        reveal_strlit("C");
        reveal_strlit("D");
        reveal_strlit("E");
        reveal_strlit("F");
        assert(s@ =~= seq![upper_hex_char(n)]);
    }
    s
}

/// Renders a digest as text. With `Fingerprint` the bytes become
/// colon-delimited uppercase hex pairs; otherwise (including when no mode is
/// given) they become compact lowercase hex.
pub fn digest_bytes_to_hash(bytes: &[u8], output_type: Option<HashType>) -> (r: String)
    ensures
        r@ == digest_hash_spec(bytes@, requested_type(output_type)),
{
    let is_fingerprint = match output_type {
        Some(HashType::Fingerprint) => true,
        _ => false,
    };
    let n = bytes.len();
    let mut out = String::new();
    let mut i: usize = 0;
    if is_fingerprint {
        while i < n
            invariant
                i <= n,
                n == bytes@.len(),
                out@ == fingerprint_hex(bytes@.take(i as int)),
            decreases n - i,
        {
            if i > 0 {
                out.append(":");
            }
            let b = bytes[i];
            out.append(upper_hex_digit(b / 16));
            out.append(upper_hex_digit(b % 16));
            proof {
                reveal_strlit(":");
                assert(bytes@.take(i + 1).drop_last() =~= bytes@.take(i as int));
                assert(bytes@.take(i + 1).last() == bytes@[i as int]);
                assert(out@ =~= fingerprint_hex(bytes@.take(i + 1)));
            }
            i += 1;
        }
        proof {
            assert(bytes@.take(n as int) =~= bytes@);
        }
    } else {
        while i < n
            invariant
                i <= n,
                n == bytes@.len(),
                out@ == lower_hex(bytes@.take(i as int)),
            decreases n - i,
        {
            let b = bytes[i];
            out.append(lower_hex_digit(b / 16));
            out.append(lower_hex_digit(b % 16));
            proof {
                assert(bytes@.take(i + 1).drop_last() =~= bytes@.take(i as int));
                assert(bytes@.take(i + 1).last() == bytes@[i as int]);
                assert(out@ =~= lower_hex(bytes@.take(i + 1)));
            }
            i += 1;
        }
        proof {
            assert(bytes@.take(n as int) =~= bytes@);
        }
    }
    out
}

/// The default rendering is exactly twice as long as the digest; the
/// fingerprint rendering of a non-empty digest has three characters per byte
/// less the final missing separator.
pub proof fn lemma_digest_hash_len(bytes: Seq<u8>)
    ensures
        lower_hex(bytes).len() == 2 * bytes.len(),
        bytes.len() == 0 ==> fingerprint_hex(bytes).len() == 0,
        bytes.len() > 0 ==> fingerprint_hex(bytes).len() == 3 * bytes.len() - 1,
    decreases bytes.len(),
{
    if bytes.len() > 0 {
        lemma_digest_hash_len(bytes.drop_last());
    }
}

/// A character that the default rendering may contain.
pub open spec fn is_lower_hex_text_char(c: char) -> bool {
    exists|n: u8| n < 16 && c == #[trigger] lower_hex_char(n)
}

/// A character that the fingerprint rendering may contain.
pub open spec fn is_fingerprint_text_char(c: char) -> bool {
    c == ':' || exists|n: u8| n < 16 && c == #[trigger] upper_hex_char(n)
}

/// Every character of the default rendering is a lowercase hex digit, and
/// every character of the fingerprint rendering is an uppercase hex digit or
/// the separator: neither form smuggles in any other text.
pub proof fn lemma_digest_hash_chars(bytes: Seq<u8>)
    ensures
        forall|i: int|
            0 <= i < lower_hex(bytes).len() ==> is_lower_hex_text_char(#[trigger] lower_hex(bytes)[i]),
        forall|i: int|
            0 <= i < fingerprint_hex(bytes).len() ==> is_fingerprint_text_char(
                #[trigger] fingerprint_hex(bytes)[i],
            ),
    decreases bytes.len(),
{
    if bytes.len() > 0 {
        lemma_digest_hash_chars(bytes.drop_last());
        let b = bytes.last();
        assert(b / 16 < 16 && b % 16 < 16);
        assert(is_lower_hex_text_char(lower_hex_char(b / 16)));
        assert(is_lower_hex_text_char(lower_hex_char(b % 16)));
        assert(is_fingerprint_text_char(upper_hex_char(b / 16)));
        assert(is_fingerprint_text_char(upper_hex_char(b % 16)));
        let lo_pre = lower_hex(bytes.drop_last());
        assert forall|i: int| 0 <= i < lower_hex(bytes).len() implies is_lower_hex_text_char(
            #[trigger] lower_hex(bytes)[i],
        ) by {
            if i < lo_pre.len() {
                assert(lower_hex(bytes)[i] == lo_pre[i]);
            } else {
                assert(lower_hex(bytes)[i] == lower_hex_pair(b)[i - lo_pre.len()]);
            }
        }
        let fp_pre = fingerprint_hex(bytes.drop_last());
        assert forall|i: int| 0 <= i < fingerprint_hex(bytes).len() implies is_fingerprint_text_char(
            #[trigger] fingerprint_hex(bytes)[i],
        ) by {
            if bytes.len() == 1 {
                assert(fingerprint_hex(bytes)[i] == upper_hex_pair(b)[i]);
            } else if i < fp_pre.len() {
                assert(fingerprint_hex(bytes)[i] == fp_pre[i]);
            } else if i == fp_pre.len() {
                assert(fingerprint_hex(bytes)[i] == ':');
            } else {
                assert(fingerprint_hex(bytes)[i] == upper_hex_pair(b)[i - fp_pre.len() - 1]);
            }
        }
    }
}

/// The decimal digit character of a value below ten.
pub open spec fn dec_digit_char(n: u64) -> char {
    lower_hex_char((n % 10) as u8)
}

/// The decimal rendering of an unsigned value, most significant digit first,
/// with no sign, no leading zero (except for zero itself) and no separators.
pub open spec fn dec_digits(n: u64) -> Seq<char>
    decreases n,
{
    if n < 10 {
        seq![dec_digit_char(n)]
    } else {
        dec_digits(n / 10) + seq![dec_digit_char(n % 10)]
    }
}

/// The canonical signing string: action, payload hash and decimal timestamp
/// joined by single commas, in that fixed order.
pub open spec fn signing_string(action: Seq<char>, data: Seq<char>, timestamp: u64) -> Seq<char> {
    action + seq![','] + data + seq![','] + dec_digits(timestamp)
}

/// Renders an unsigned value in decimal.
pub fn u64_to_dec(n: u64) -> (r: String)
    ensures
        r@ == dec_digits(n),
    decreases n,
{
    if n < 10 {
        let d = lower_hex_digit((n % 10) as u8);
        let r = d.to_owned();
        proof {
            assert(r@ =~= dec_digits(n));
        }
        r
    } else {
        let mut r = u64_to_dec(n / 10);
        r.append(lower_hex_digit((n % 10) as u8));
        proof {
            assert(r@ =~= dec_digits(n));
        }
        r
    }
}

/// The default hex rendering never contains the signing-string delimiter, so
/// a hex content hash can stand between the commas without escaping.
pub proof fn lemma_lower_hex_has_no_comma(bytes: Seq<u8>)
    ensures
        !lower_hex(bytes).contains(','),
{
    lemma_digest_hash_chars(bytes);
    if lower_hex(bytes).contains(',') {
        let i = choose|i: int| 0 <= i < lower_hex(bytes).len() && lower_hex(bytes)[i] == ',';
        assert(is_lower_hex_text_char(lower_hex(bytes)[i]));
    }
}

/// Joins an action name, a payload hash and a given timestamp into the
/// canonical signing string. The delimiter must not appear inside `action` or
/// `data` — both are controlled vocabulary or hex text, so this holds by
/// construction — else the string would be ambiguous to the server.
pub fn build_identify_string(action: &str, data: &str, timestamp: u64) -> (r: String)
    requires
        !action@.contains(','),
        !data@.contains(','),
    ensures
        r@ == signing_string(action@, data@, timestamp),
{
    let mut s = action.to_owned();
    s.append(",");
    s.append(data);
    s.append(",");
    let ts = u64_to_dec(timestamp);
    s.append(ts.as_str());
    proof {
        reveal_strlit(",");
        assert(s@ =~= signing_string(action@, data@, timestamp));
    }
    s
}

/// Relies on std::time::SystemTime::now (read through duration_since and
/// as_secs): the number of whole seconds since the Unix epoch. The clock is
/// outside the program, so nothing is promised of the value; a clock set
/// before the epoch reports zero seconds.
#[verifier::external_body]
fn unix_now() -> u64 {
    match std::time::SystemTime::now().duration_since(std::time::SystemTime::UNIX_EPOCH) {
        Ok(d) => d.as_secs(),
        Err(_) => 0,
    }
}

/// Captures the current Unix timestamp and joins it with the action and the
/// payload hash into the canonical signing string. The returned timestamp is
/// the one embedded in the string and must be sent verbatim with the request.
/// As with `build_identify_string`, the delimiter must not appear inside the
/// action or the payload hash.
pub fn create_identify_string(action: &str, data: &str) -> (r: IdentifyString)
    requires
        !action@.contains(','),
        !data@.contains(','),
    ensures
        r.identify@ == signing_string(action@, data@, r.timestamp),
{
    let secs = unix_now();
    IdentifyString { identify: build_identify_string(action, data, secs), timestamp: secs }
}

/// Joins a directory path and an entry name with a single `/` separator.
pub fn get_dir_path(base: &str, name: &str) -> (r: String)
    ensures
        r@ == base@ + seq!['/'] + name@,
{
    let mut s = base.to_owned();
    s.append("/");
    s.append(name);
    proof {
        reveal_strlit("/");
        assert(s@ =~= base@ + seq!['/'] + name@);
    }
    s
}

} // verus!
