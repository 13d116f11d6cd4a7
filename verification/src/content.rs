//! A file fetched from the remote content gateway, and the decoding of its
//! transport form: the gateway hands file bodies over base64-encoded with
//! interspersed ASCII whitespace.
use vstd::prelude::*;

use base64::Engine;

verus! {

/// A content object as the remote gateway describes one file.
#[derive(Debug, Clone)]
pub struct GitHubContentObject {
    /// The file's name.
    pub name: String,
    /// The file's path within the repository.
    pub path: String,
    /// The content checksum the gateway reports.
    pub sha: String,
    /// The size in bytes the gateway reports.
    pub size: i32,
    /// The canonical URL of this object.
    pub url: String,
    /// The page URL of this object.
    pub html_url: String,
    /// The raw object URL.
    pub git_url: String,
    /// The direct download URL.
    pub download_url: String,
    /// The kind of object (a file, a directory).
    pub content_type: String,
    /// The file body in its transport form, when the gateway sent one.
    pub content: Option<String>,
    /// The transport encoding the gateway names.
    pub encoding: String,
    /// Related URLs, keyed by relation name.
    pub links: Vec<(String, String)>,
}

/// What the remote content gateway returned for one path.
#[derive(Debug)]
pub enum ContentFetch {
    /// The path exists; the content items it denotes.
    Found(Vec<GitHubContentObject>),
    /// The path does not exist.
    NotFound,
    /// The gateway failed for another reason; carries its message.
    Failed(String),
}

/// The whitespace bytes the gateway intersperses in transport bodies: space,
/// newline, tab, carriage return, vertical tab, form feed.
pub open spec fn is_transport_whitespace(b: u8) -> bool {
    b == 32 || b == 10 || b == 9 || b == 13 || b == 11 || b == 12
}

/// What the base64 standard engine makes of a byte string: the decoded bytes,
/// or nothing when the input is not valid base64.  Decoding is a function of
/// the input alone.
pub uninterp spec fn base64_decoding(s: Seq<u8>) -> Option<Seq<u8>>;

/// What lossy UTF-8 decoding makes of a byte string: invalid sequences are
/// replaced, never rejected.  The result is a function of the bytes alone.
pub uninterp spec fn utf8_lossy_decoding(bytes: Seq<u8>) -> Seq<char>;

/// Relies on base64's `BASE64_STANDARD` engine `decode`: it decodes the
/// input bytes, deterministically in them, and rejects input that is not
/// valid base64.
#[verifier::external_body]
fn base64_decode(input: &Vec<u8>) -> (r: Option<Vec<u8>>)
    ensures
        match r {
            Some(v) => base64_decoding(input@) == Some(v@),
            None => base64_decoding(input@) is None,
        },
{
    match base64::prelude::BASE64_STANDARD.decode(input.as_slice()) {
        Ok(v) => Some(v),
        Err(_) => None,
    }
}

/// Relies on std's `String::from_utf8_lossy`: it decodes the bytes as UTF-8,
/// replacing invalid sequences, deterministically in the bytes; bytes that
/// are valid UTF-8 are returned as they stand, so the encoding of a text
/// decodes back to that very text.
#[verifier::external_body]
fn utf8_lossy(bytes: &Vec<u8>) -> (r: String)
    ensures
        r@ == utf8_lossy_decoding(bytes@),
        forall|s: Seq<char>| bytes@ == #[trigger] vstd::utf8::encode_utf8(s) ==> r@ == s,
{
    String::from_utf8_lossy(bytes.as_slice()).into_owned()
}

/// Drops every transport-whitespace byte, keeping the rest in order.
pub fn strip_transport_whitespace(bytes: &Vec<u8>) -> (r: Vec<u8>)
    ensures
        r@ == bytes@.filter(|b: u8| !is_transport_whitespace(b)),
{
    let n = bytes.len();
    let mut out: Vec<u8> = Vec::new();
    let mut i: usize = 0;
    proof {
        assert(bytes@.take(0) =~= Seq::<u8>::empty());
        reveal(Seq::filter);
        assert(out@ =~= bytes@.take(0).filter(|b: u8| !is_transport_whitespace(b)));
    }
    while i < n
        invariant
            i <= n,
            n == bytes@.len(),
            out@ == bytes@.take(i as int).filter(|b: u8| !is_transport_whitespace(b)),
        decreases n - i,
    {
        let b = bytes[i];
        proof {
            reveal(Seq::filter);
            assert(bytes@.take(i + 1).drop_last() =~= bytes@.take(i as int));
            assert(bytes@.take(i + 1).last() == b);
        }
        if !(b == 32 || b == 10 || b == 9 || b == 13 || b == 11 || b == 12) {
            out.push(b);
        }
        i = i + 1;
    }
    proof {
        assert(bytes@.take(n as int) =~= bytes@);
    }
    out
}

/// The text a transport body denotes: whitespace stripped, base64 decoded,
/// then read as UTF-8 with invalid sequences replaced.
pub open spec fn decoded_of(content: Seq<char>) -> Option<Seq<char>> {
    match base64_decoding(
        vstd::utf8::encode_utf8(content).filter(|b: u8| !is_transport_whitespace(b)),
    ) {
        Some(b) => Some(utf8_lossy_decoding(b)),
        None => None,
    }
}

/// The transport body `content` carries exactly the text `s`: stripped of
/// whitespace it is base64 for the UTF-8 encoding of `s`.
pub open spec fn encodes_text(content: Seq<char>, s: Seq<char>) -> bool {
    base64_decoding(vstd::utf8::encode_utf8(content).filter(|b: u8| !is_transport_whitespace(b)))
        == Some(vstd::utf8::encode_utf8(s))
}

impl GitHubContentObject {
    /// The file body as text, when the gateway sent one and it decodes.  A
    /// body carrying the UTF-8 encoding of a text comes back as that very
    /// text.
    pub fn decoded_content(&self) -> (r: Option<String>)
        ensures
            match self.content {
                None => r is None,
                Some(c) => match decoded_of(c@) {
                    Some(text) => r matches Some(s) && s@ == text,
                    None => r is None,
                },
            },
            forall|s: Seq<char>|
                (self.content is Some && #[trigger] encodes_text((self.content->Some_0)@, s))
                    ==> (r matches Some(t) && t@ == s),
    {
        match &self.content {
            None => None,
            Some(c) => {
                let raw = c.as_str().as_bytes_vec();
                let stripped = strip_transport_whitespace(&raw);
                match base64_decode(&stripped) {
                    Some(decoded) => {
                        let text = utf8_lossy(&decoded);
                        proof {
                            assert forall|s: Seq<char>| #[trigger] encodes_text(c@, s) implies text@
                                == s by {
                                assert(decoded@ == vstd::utf8::encode_utf8(s));
                            }
                        }
                        Some(text)
                    },
                    None => None,
                }
            },
        }
    }
}

} // verus!
