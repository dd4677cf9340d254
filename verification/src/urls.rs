//! The addresses under which the server answers.

use vstd::prelude::*;
use vstd::string::StringExecFns;
use vstd::string::StringSliceAdditionalSpecFns;
use vstd::utf8::encode_utf8;

verus! {

/// Whether a byte stands for itself in a percent-encoded text: a digit,
/// a letter of the Latin alphabet, or one of `-`, `.`, `_`, `~`.
pub open spec fn is_unreserved(b: u8) -> bool {
    ||| 0x30 <= b <= 0x39
    ||| 0x41 <= b <= 0x5A
    ||| 0x61 <= b <= 0x7A
    ||| b == 0x2D
    ||| b == 0x2E
    ||| b == 0x5F
    ||| b == 0x7E
}

/// The hexadecimal digit for a value below 16, letters in capitals.
pub open spec fn hex_digit(value: u8) -> char {
    if value < 10 {
        ((0x30 + value) as u8) as char
    } else {
        ((0x41 + value - 10) as u8) as char
    }
}

/// One byte, percent-encoded: itself if it is unreserved, else `%` and
/// its two hexadecimal digits.
pub open spec fn escaped(b: u8) -> Seq<char> {
    if is_unreserved(b) {
        seq![b as char]
    } else {
        seq!['%', hex_digit(b / 16), hex_digit(b % 16)]
    }
}

/// A run of bytes, percent-encoded byte by byte.
pub open spec fn percent_encoded(bytes: Seq<u8>) -> Seq<char>
    decreases bytes.len(),
{
    if bytes.len() == 0 {
        Seq::empty()
    } else {
        percent_encoded(bytes.drop_last()) + escaped(bytes.last())
    }
}

/// A text as it stands in one segment of an address: the bytes of its
/// UTF-8 form, percent-encoded.
pub open spec fn segment(text: Seq<char>) -> Seq<char> {
    percent_encoded(encode_utf8(text))
}

/// Calls `urlencoding::encode`. The contract claims what that function
/// documents: every byte of the text's UTF-8 form is percent-encoded,
/// except letters, digits and `-`, `.`, `_`, `~`, which stand as they are.
#[verifier::external_body]
fn percent_encode(text: &str) -> (out: String)
    ensures
        out@ == percent_encoded(text.spec_bytes()),
{
    urlencoding::encode(text).into_owned()
}

/// The address of `path` on the server.
pub fn endpoint(server: &str, path: &str) -> (url: String)
    ensures
        url@ == server@ + path@,
{
    let mut url = String::from_str(server);
    url.append(path);
    url
}

/// The address of the list of albums of one artist.
pub open spec fn albums_address(server: Seq<char>, artist: Seq<char>) -> Seq<char> {
    server + "/api/library/artists/"@ + segment(artist) + "/albums"@
}

/// The address of the list of tracks of one album of one artist.
pub open spec fn tracks_address(server: Seq<char>, artist: Seq<char>, album: Seq<char>) -> Seq<
    char,
> {
    server + "/api/library/artists/"@ + segment(artist) + "/"@ + segment(album)
}

/// The address of the list of albums of one artist.
pub fn albums_url(server: &str, artist: &str) -> (url: String)
    ensures
        url@ == albums_address(server@, artist@),
{
    let mut url = String::from_str(server);
    url.append("/api/library/artists/");
    url.append(percent_encode(artist).as_str());
    url.append("/albums");
    url
}

/// The address of the list of tracks of one album of one artist.
pub fn tracks_url(server: &str, artist: &str, album: &str) -> (url: String)
    ensures
        url@ == tracks_address(server@, artist@, album@),
{
    let mut url = String::from_str(server);
    url.append("/api/library/artists/");
    url.append(percent_encode(artist).as_str());
    url.append("/");
    url.append(percent_encode(album).as_str());
    url
}

} // verus!
