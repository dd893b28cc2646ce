use hmac::Mac;
use vstd::prelude::*;
use vstd::string::{StrSliceExecFns, StringExecFns, StringSliceAdditionalSpecFns};
use vstd::utf8::encode_utf8;

use crate::errors::{SlackEventSignatureError, SlackSignatureErrorReason};
use crate::models::SlackSigningSecret;
use crate::text::{all_dec_digits, dec_val, parse_u64};

verus! {

/// The HMAC-SHA-256 digest of a message under a key.
pub uninterp spec fn hmac_sha256_of(key: Seq<u8>, message: Seq<u8>) -> Seq<u8>;

/// Relies on the hmac and sha2 crates: the HMAC-SHA-256 digest of the
/// message under the key, 32 bytes, a function of the two arguments alone.
#[verifier::external_body]
fn hmac_sha256(key: &[u8], message: &[u8]) -> (r: Vec<u8>)
    ensures
        r@ == hmac_sha256_of(key@, message@),
        r@.len() == 32,
{
    let mut mac = hmac::Hmac::<sha2::Sha256>::new_from_slice(key).expect("any key length fits");
    mac.update(message);
    mac.finalize().into_bytes().to_vec()
}

/// The character of one hexadecimal digit, lower case.
pub open spec fn hex_char(d: nat) -> char
    recommends
        d < 16,
{
    if d == 0 {
        '0'
    } else if d == 1 {
        '1'
    } else if d == 2 {
        '2'
    } else if d == 3 {
        '3'
    } else if d == 4 {
        '4'
    } else if d == 5 {
        '5'
    } else if d == 6 {
        '6'
    } else if d == 7 {
        '7'
    } else if d == 8 {
        '8'
    } else if d == 9 {
        '9'
    } else if d == 10 {
        'a'
    } else if d == 11 {
        'b'
    } else if d == 12 {
        'c'
    } else if d == 13 {
        'd'
    } else if d == 14 {
        'e'
    } else {
        'f'
    }
}

/// The lower-case hexadecimal text of a byte sequence, two digits a byte.
pub open spec fn hex_of(b: Seq<u8>) -> Seq<char>
    decreases b.len(),
{
    if b.len() == 0 {
        Seq::empty()
    } else {
        hex_of(b.drop_last()) + seq![hex_char(b.last() as nat / 16), hex_char(b.last() as nat % 16)]
    }
}

fn hex_digit(d: u8) -> (r: &'static str)
    requires
        d < 16,
    ensures
        r@ == seq![hex_char(d as nat)],
{
    let r: &'static str = match d {
        0 => "0",
        1 => "1",
        2 => "2",
        3 => "3",
        4 => "4",
        5 => "5",
        6 => "6",
        7 => "7",
        8 => "8",
        9 => "9",
        10 => "a",
        11 => "b",
        12 => "c",
        13 => "d",
        14 => "e",
        _ => "f",
    };
    proof {
        reveal_strlit("0");
        reveal_strlit("1");
        reveal_strlit("2");
        reveal_strlit("3");
        reveal_strlit("4");
        reveal_strlit("5");
        reveal_strlit("6");
        reveal_strlit("7");
        reveal_strlit("8");
        reveal_strlit("9");
        reveal_strlit("a");
        reveal_strlit("b");
        reveal_strlit("c");
        reveal_strlit("d");
        reveal_strlit("e");
        reveal_strlit("f");
        assert(r@ =~= seq![hex_char(d as nat)]);
    }
    r
}

/// Writes a byte sequence in lower-case hexadecimal.
pub fn hex_encode(bytes: &Vec<u8>) -> (r: String)
    ensures
        r@ == hex_of(bytes@),
{
    let mut r = String::new();
    let mut i: usize = 0;
    while i < bytes.len()
        invariant
            0 <= i <= bytes.len(),
            r@ == hex_of(bytes@.take(i as int)),
        decreases bytes.len() - i,
    {
        let b = bytes[i];
        r.append(hex_digit(b / 16));
        r.append(hex_digit(b % 16));
        proof {
            assert(bytes@.take(i + 1).drop_last() =~= bytes@.take(i as int));
            assert(r@ =~= hex_of(bytes@.take(i + 1)));
        }
        i += 1;
    }
    proof {
        assert(bytes@.take(bytes.len() as int) =~= bytes@);
    }
    r
}

proof fn lemma_encode_utf8_injective(a: Seq<char>, b: Seq<char>)
    requires
        encode_utf8(a) == encode_utf8(b),
    ensures
        a == b,
{
    vstd::utf8::encode_utf8_decode_utf8(a);
    vstd::utf8::encode_utf8_decode_utf8(b);
}

/// Compares two texts byte for byte, folding the differences together so
/// that the time taken does not reveal where the first difference lies.
pub fn constant_time_str_eq(a: &str, b: &str) -> (r: bool)
    ensures
        r == (a@ == b@),
{
    let ab = a.as_bytes_vec();
    let bb = b.as_bytes_vec();
    if ab.len() != bb.len() {
        proof {
            if a@ == b@ {
                assert(encode_utf8(a@) == encode_utf8(b@));
            }
        }
        return false;
    }
    let mut acc: u8 = 0;
    let mut i: usize = 0;
    while i < ab.len()
        invariant
            0 <= i <= ab.len(),
            ab.len() == bb.len(),
            (acc == 0) <==> (forall|j: int| 0 <= j < i ==> ab@[j] == bb@[j]),
        decreases ab.len() - i,
    {
        let x = ab[i];
        let y = bb[i];
        proof {
            assert((acc | (x ^ y)) == 0 <==> (acc == 0 && x == y)) by (bit_vector);
        }
        acc = acc | (x ^ y);
        i += 1;
    }
    let r = acc == 0;
    proof {
        if r {
            assert(ab@ =~= bb@);
            lemma_encode_utf8_injective(a@, b@);
        } else {
            if a@ == b@ {
                assert(encode_utf8(a@) == encode_utf8(b@));
            }
        }
    }
    r
}

/// The text the digest is computed over: the version prefix, the timestamp
/// and the raw body, joined with colons.
pub open spec fn signature_base_string(ts: Seq<char>, body: Seq<char>) -> Seq<char> {
    "v0:"@ + ts + ":"@ + body
}

/// The signature a well-signed request carries: the version tag and the
/// hex-encoded digest of the base string under the signing secret.
pub open spec fn expected_signature(secret: Seq<char>, ts: Seq<char>, body: Seq<char>) -> Seq<
    char,
> {
    "v0="@ + hex_of(
        hmac_sha256_of(encode_utf8(secret), encode_utf8(signature_base_string(ts, body))),
    )
}

/// Whether a timestamp lies inside the freshness window around now, in
/// either direction: stale and future-dated requests both fall outside.
pub open spec fn timestamp_fresh(ts_val: u64, now: u64, window: u64) -> bool {
    now <= ts_val + window && ts_val <= now + window
}

/// Everything a verified inbound request satisfies: a timestamp that is a
/// whole number of seconds, fresh, and a hash that is exactly the signature
/// of the raw body under the secret.
pub open spec fn signature_verifies(
    secret: Seq<char>,
    hash: Seq<char>,
    body: Seq<char>,
    ts: Seq<char>,
    now: u64,
    window: u64,
) -> bool {
    &&& ts.len() > 0 && all_dec_digits(ts) && dec_val(ts) <= u64::MAX
    &&& timestamp_fresh(dec_val(ts) as u64, now, window)
    &&& hash == expected_signature(secret, ts, body)
}

/// Authenticates inbound webhook requests: a timestamped HMAC over the raw
/// body, checked before any decoding of that body.
pub struct SlackEventSignatureVerifier {
    pub secret: SlackSigningSecret,
    pub freshness_window_seconds: u64,
}

impl SlackEventSignatureVerifier {
    pub fn new(secret: &SlackSigningSecret, freshness_window_seconds: u64) -> (r: Self)
        ensures
            r.secret == *secret,
            r.freshness_window_seconds == freshness_window_seconds,
    {
        SlackEventSignatureVerifier {
            secret: SlackSigningSecret(secret.0.clone()),
            freshness_window_seconds,
        }
    }

    /// Signs a body as the remote service would.
    pub fn sign(&self, body: &str, ts: &str) -> (r: String)
        ensures
            r@ == expected_signature(self.secret.0@, ts@, body@),
    {
        let mut base = String::new();
        base.append("v0:");
        base.append(ts);
        base.append(":");
        base.append(body);
        proof {
            assert(base@ =~= signature_base_string(ts@, body@));
        }
        let digest = hmac_sha256(self.secret.0.as_str().as_bytes(), base.as_str().as_bytes());
        let hex = hex_encode(&digest);
        let mut r = String::new();
        r.append("v0=");
        r.append(hex.as_str());
        proof {
            assert(r@ =~= expected_signature(self.secret.0@, ts@, body@));
        }
        r
    }

    /// Verifies one inbound request from its two header values and its raw,
    /// unparsed body. Succeeds exactly when the timestamp is a fresh whole
    /// number of seconds and the hash equals the body's signature; each
    /// failure names its reason.
    pub fn verify(&self, hash: &str, body: &str, ts: &str, now: u64) -> (r: Result<
        (),
        SlackEventSignatureError,
    >)
        ensures
            r is Ok <==> signature_verifies(
                self.secret.0@,
                hash@,
                body@,
                ts@,
                now,
                self.freshness_window_seconds,
            ),
            r matches Err(e) ==> e.reason == {
                if !(ts@.len() > 0 && all_dec_digits(ts@) && dec_val(ts@) <= u64::MAX) {
                    SlackSignatureErrorReason::InvalidTimestamp
                } else if !timestamp_fresh(
                    dec_val(ts@) as u64,
                    now,
                    self.freshness_window_seconds,
                ) {
                    SlackSignatureErrorReason::StaleTimestamp
                } else {
                    SlackSignatureErrorReason::WrongSignature
                }
            },
    {
        let ts_val = match parse_u64(ts) {
            Some(v) => v,
            None => {
                return Err(
                    SlackEventSignatureError::new(SlackSignatureErrorReason::InvalidTimestamp),
                );
            },
        };
        let window = self.freshness_window_seconds;
        let fresh = (now as u128) <= (ts_val as u128) + (window as u128) && (ts_val as u128) <= (
        now as u128) + (window as u128);
        if !fresh {
            return Err(SlackEventSignatureError::new(SlackSignatureErrorReason::StaleTimestamp));
        }
        let expected = self.sign(body, ts);
        if constant_time_str_eq(hash, expected.as_str()) {
            Ok(())
        } else {
            Err(SlackEventSignatureError::new(SlackSignatureErrorReason::WrongSignature))
        }
    }

    /// Gates a whole inbound request: both headers must be present, and the
    /// raw body must verify, before the body is handed onward unparsed.
    pub fn decode_signed_response(
        &self,
        hash: Option<&String>,
        ts: Option<&String>,
        body: String,
        now: u64,
    ) -> (r: Result<String, SlackEventSignatureError>)
        ensures
            r matches Ok(b) ==> b@ == body@,
            r is Ok <==> match (hash, ts) {
                (Some(h), Some(t)) => signature_verifies(
                    self.secret.0@,
                    h@,
                    body@,
                    t@,
                    now,
                    self.freshness_window_seconds,
                ),
                _ => false,
            },
            (hash is None || ts is None) ==> (r matches Err(e) && e.reason
                == SlackSignatureErrorReason::AbsentSignature),
    {
        match (hash, ts) {
            (Some(h), Some(t)) => match self.verify(h.as_str(), body.as_str(), t.as_str(), now) {
                Ok(()) => Ok(body),
                Err(e) => Err(e),
            },
            _ => Err(SlackEventSignatureError::new(SlackSignatureErrorReason::AbsentSignature)),
        }
    }
}

/// Law: a request carrying exactly the signature of its body under the
/// secret, with a fresh timestamp, verifies; a request carrying any other
/// hash fails, and so does one whose timestamp is outside the window or not
/// a whole number of seconds.
pub proof fn lemma_signature_verification(
    secret: Seq<char>,
    hash: Seq<char>,
    body: Seq<char>,
    ts: Seq<char>,
    now: u64,
    window: u64,
)
    ensures
        (ts.len() > 0 && all_dec_digits(ts) && dec_val(ts) <= u64::MAX && timestamp_fresh(
            dec_val(ts) as u64,
            now,
            window,
        ) && hash == expected_signature(secret, ts, body)) ==> signature_verifies(
            secret,
            hash,
            body,
            ts,
            now,
            window,
        ),
        hash != expected_signature(secret, ts, body) ==> !signature_verifies(
            secret,
            hash,
            body,
            ts,
            now,
            window,
        ),
        (ts.len() > 0 && all_dec_digits(ts) && dec_val(ts) <= u64::MAX && !timestamp_fresh(
            dec_val(ts) as u64,
            now,
            window,
        )) ==> !signature_verifies(secret, hash, body, ts, now, window),
{
}

} // verus!
