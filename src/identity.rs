//! The user's stable fingerprint, from a public key or from the machine.

use vstd::prelude::*;
use base64::Engine;
use sha2::Digest;

verus! {

/// What base64's standard alphabet, with padding, decodes `s` to; none when
/// `s` is not such an encoding.
pub uninterp spec fn base64_decoded(s: Seq<char>) -> Option<Seq<u8>>;

/// The SHA-256 digest of `b`.
pub uninterp spec fn sha256_digest(b: Seq<u8>) -> Seq<u8>;

/// Relies on `base64::engine::general_purpose::STANDARD.decode`: the decoded
/// bytes, or none when the text is not valid standard base64.
#[verifier::external_body]
fn decode_base64(s: &str) -> (r: Option<Vec<u8>>)
    ensures
        r is Some <==> base64_decoded(s@) is Some,
        r is Some ==> r->0@ == base64_decoded(s@)->0,
{
    base64::engine::general_purpose::STANDARD.decode(s).ok()
}

/// Relies on `sha2::Sha256::digest`: the digest, 32 bytes long.
#[verifier::external_body]
fn sha256(b: &[u8]) -> (r: Vec<u8>)
    ensures
        r@ == sha256_digest(b@),
        r@.len() == 32,
{
    sha2::Sha256::digest(b).to_vec()
}

/// The characters that `char::is_whitespace` accepts: those with Unicode's
/// White_Space property.
pub open spec fn is_space(c: char) -> bool {
    let u = c as u32;
    (0x09 <= u && u <= 0x0d) || u == 0x20 || u == 0x85 || u == 0xa0 || u == 0x1680 || (0x2000
        <= u && u <= 0x200a) || u == 0x2028 || u == 0x2029 || u == 0x202f || u == 0x205f || u
        == 0x3000
}

fn space(c: char) -> (r: bool)
    ensures
        r == is_space(c),
{
    let u = c as u32;
    (0x09 <= u && u <= 0x0d) || u == 0x20 || u == 0x85 || u == 0xa0 || u == 0x1680 || (0x2000
        <= u && u <= 0x200a) || u == 0x2028 || u == 0x2029 || u == 0x202f || u == 0x205f || u
        == 0x3000
}

/// The words of `s`: its maximal runs of non-space characters, in order.
pub open spec fn words(s: Seq<char>) -> Seq<Seq<char>>
    decreases s.len(),
{
    if s.len() == 0 {
        Seq::empty()
    } else {
        let w = words(s.drop_last());
        let c = s.last();
        if is_space(c) {
            w
        } else if s.len() >= 2 && !is_space(s[s.len() - 2]) {
            w.update(w.len() - 1, w.last().push(c))
        } else {
            w.push(seq![c])
        }
    }
}

proof fn lemma_words_nonempty(s: Seq<char>)
    ensures
        s.len() > 0 && !is_space(s.last()) ==> words(s).len() > 0,
        words(s).len() <= s.len(),
    decreases s.len(),
{
    if s.len() > 0 {
        lemma_words_nonempty(s.drop_last());
        if s.len() >= 2 {
            assert(s.drop_last().last() == s[s.len() - 2]);
        }
    }
}

/// The second word of `s`, and whether `s` has at least two words.
fn second_word(s: &str) -> (r: (bool, String))
    ensures
        r.0 == (words(s@).len() >= 2),
        r.0 ==> r.1@ == words(s@)[1],
{
    let n = s.unicode_len();
    let mut count: usize = 0;
    let mut second = String::new();
    let mut i: usize = 0;
    while i < n
        invariant
            n == s@.len(),
            0 <= i <= n,
            count as int == words(s@.subrange(0, i as int)).len(),
            count <= i,
            count >= 2 ==> second@ == words(s@.subrange(0, i as int))[1],
            count < 2 ==> second@.len() == 0,
        decreases n - i,
    {
        let c = s.get_char(i);
        let ghost pre = s@.subrange(0, i as int);
        let ghost cur = s@.subrange(0, i + 1);
        proof {
            assert(cur.drop_last() =~= pre);
            assert(cur.last() == c);
            lemma_words_nonempty(pre);
            if i >= 1 {
                assert(cur[cur.len() - 2] == s@[i - 1]);
                assert(pre.last() == s@[i - 1]);
                lemma_words_nonempty(pre);
            }
        }
        if !space(c) {
            let joins = i >= 1 && !space(s.get_char(i - 1));
            if joins {
                if count == 2 {
                    second.push(c);
                }
            } else {
                if count == 1 {
                    second.push(c);
                    assert(second@ =~= seq![c]);
                }
                count = count + 1;
            }
        }
        i = i + 1;
    }
    assert(s@.subrange(0, n as int) =~= s@);
    (count >= 2, second)
}

pub open spec fn hex_digit(d: int) -> char {
    if d < 10 {
        ((48 + d) as u8) as char
    } else {
        ((87 + d) as u8) as char
    }
}

/// Two lowercase hexadecimal digits per byte, high digit first.
pub open spec fn hex_of(b: Seq<u8>) -> Seq<char>
    decreases b.len(),
{
    if b.len() == 0 {
        Seq::empty()
    } else {
        hex_of(b.drop_last()) + seq![hex_digit(b.last() as int / 16), hex_digit(b.last() as int % 16)]
    }
}

/// A lowercase hexadecimal digit.
pub open spec fn is_hex_char(c: char) -> bool {
    ('0' <= c && c <= '9') || ('a' <= c && c <= 'f')
}

/// The form of every fingerprint: 64 lowercase hexadecimal digits, as
/// a SHA-256 digest gives.
pub open spec fn hex_fingerprint(s: Seq<char>) -> bool {
    &&& s.len() == 64
    &&& forall|i: int| 0 <= i < s.len() ==> is_hex_char(#[trigger] s[i])
}

fn hex_char(d: u8) -> (r: char)
    requires
        d < 16,
    ensures
        r == hex_digit(d as int),
        is_hex_char(r),
{
    if d < 10 {
        (48u8 + d) as char
    } else {
        (87u8 + d) as char
    }
}

fn hex(b: &Vec<u8>) -> (r: String)
    ensures
        r@ == hex_of(b@),
        r@.len() == 2 * b@.len(),
        forall|i: int| 0 <= i < r@.len() ==> is_hex_char(#[trigger] r@[i]),
{
    let mut s = String::new();
    let mut i: usize = 0;
    while i < b.len()
        invariant
            0 <= i <= b@.len(),
            s@ == hex_of(b@.subrange(0, i as int)),
            s@.len() == 2 * i,
            forall|j: int| 0 <= j < s@.len() ==> is_hex_char(#[trigger] s@[j]),
        decreases b@.len() - i,
    {
        let x = b[i];
        s.push(hex_char(x / 16));
        s.push(hex_char(x % 16));
        proof {
            let cur = b@.subrange(0, i + 1);
            assert(cur.drop_last() =~= b@.subrange(0, i as int));
            assert(cur.last() == x);
            assert(s@ =~= hex_of(cur));
        }
        i = i + 1;
    }
    assert(b@.subrange(0, i as int) =~= b@);
    s
}

/// The fingerprint that a public key line gives: the hexadecimal SHA-256
/// digest of the key data, which is the base64 second word of the line.
pub open spec fn key_fingerprint(content: Seq<char>) -> Option<Seq<char>> {
    let w = words(content);
    if w.len() < 2 {
        None
    } else {
        match base64_decoded(w[1]) {
            Some(key) => Some(hex_of(sha256_digest(key))),
            None => None,
        }
    }
}

/// The fingerprint of a user without a key: the hexadecimal SHA-256 digest
/// of the UTF-8 bytes of `user@home`.
pub open spec fn fallback_fingerprint(username: Seq<char>, home: Seq<char>) -> Seq<char> {
    hex_of(sha256_digest(vstd::utf8::encode_utf8(username + "@"@ + home)))
}

/// The fingerprint of the first key line that gives one.
pub open spec fn first_key_fingerprint(keys: Seq<Seq<char>>) -> Option<Seq<char>>
    decreases keys.len(),
{
    if keys.len() == 0 {
        None
    } else {
        match key_fingerprint(keys[0]) {
            Some(f) => Some(f),
            None => first_key_fingerprint(keys.drop_first()),
        }
    }
}

/// Who the user is, by a stable fingerprint, with a short form for display.
#[derive(Debug)]
pub struct SshIdentity {
    pub fingerprint: String,
    pub short_id: String,
}

impl Clone for SshIdentity {
    fn clone(&self) -> (r: Self)
        ensures
            r == *self,
    {
        SshIdentity { fingerprint: self.fingerprint.clone(), short_id: self.short_id.clone() }
    }
}

impl SshIdentity {
    /// Fingerprint `f`, shortened to its first eight characters.
    pub open spec fn is_for(self, f: Seq<char>) -> bool {
        &&& self.fingerprint@ == f
        &&& self.short_id@ == f.subrange(0, 8)
    }

    /// The identity whose fingerprint is the hexadecimal form of a 32-byte
    /// digest.
    pub fn from_digest(digest: &Vec<u8>) -> (r: SshIdentity)
        requires
            digest@.len() == 32,
        ensures
            r.is_for(hex_of(digest@)),
            hex_fingerprint(r.fingerprint@),
    {
        let fingerprint = hex(digest);
        let short_id = fingerprint.as_str().substring_char(0, 8).to_owned();
        SshIdentity { fingerprint, short_id }
    }

    /// The identity of a public key line `type key comment`, if its key is
    /// valid base64.
    pub fn from_key_text(content: &str) -> (r: Option<SshIdentity>)
        ensures
            r is Some <==> key_fingerprint(content@) is Some,
            r is Some ==> r->0.is_for(key_fingerprint(content@)->0),
            r is Some ==> hex_fingerprint(r->0.fingerprint@),
    {
        let (enough, key) = second_word(content);
        if !enough {
            return None;
        }
        match decode_base64(key.as_str()) {
            Some(data) => {
                let digest = sha256(data.as_slice());
                Some(Self::from_digest(&digest))
            },
            None => None,
        }
    }

    /// The identity derived from user name and home directory.
    pub fn fallback_identity(username: &str, home: &str) -> (r: SshIdentity)
        ensures
            r.is_for(fallback_fingerprint(username@, home@)),
            hex_fingerprint(r.fingerprint@),
    {
        let mut combined = username.to_owned();
        combined.append("@");
        combined.append(home);
        let digest = sha256(combined.as_str().as_bytes());
        Self::from_digest(&digest)
    }

    /// The identity of the first key line that gives one, else the fallback
    /// one. `key_texts` are the user's public key files in order of
    /// preference.
    pub fn get_or_create(key_texts: &Vec<String>, username: &str, home: &str) -> (r: SshIdentity)
        ensures
            ({
                let keys = key_texts@.map_values(|t: String| t@);
                match first_key_fingerprint(keys) {
                    Some(f) => r.is_for(f),
                    None => r.is_for(fallback_fingerprint(username@, home@)),
                }
            }),
            hex_fingerprint(r.fingerprint@),
    {
        let ghost keys = key_texts@.map_values(|t: String| t@);
        assert(keys.subrange(0, keys.len() as int) =~= keys);
        let mut i: usize = 0;
        while i < key_texts.len()
            invariant
                0 <= i <= key_texts@.len(),
                keys == key_texts@.map_values(|t: String| t@),
                first_key_fingerprint(keys) == first_key_fingerprint(keys.subrange(i as int, keys.len() as int)),
            decreases key_texts@.len() - i,
        {
            let ghost rest = keys.subrange(i as int, keys.len() as int);
            assert(rest[0] == key_texts@[i as int]@);
            assert(rest.drop_first() =~= keys.subrange(i + 1, keys.len() as int));
            if let Some(id) = Self::from_key_text(key_texts[i].as_str()) {
                return id;
            }
            i = i + 1;
        }
        assert(keys.subrange(i as int, keys.len() as int).len() == 0);
        Self::fallback_identity(username, home)
    }
}

} // verus!
