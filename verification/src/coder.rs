//! Identifiers of documents, collections and indexes.
//!
//! An identifier is a role prefix, the separator `1`, and ten bytes of a
//! cryptographic hash in Bech32m, which carries a checksum. Two inputs that
//! hash to the same ten bytes share an identifier: uniqueness rests on the
//! eighty bits of the payload and is not enforced anywhere.

use crate::error::{CoderError, CoderErrorView};
use crate::text::{decimal, decimal_string, join2};
use sha3::Digest;
use vstd::prelude::*;
use vstd::slice::{slice_subrange, slice_to_vec};

verus! {

/// Prefix of a document identifier.
pub const DOC_PREFIX: &'static str = "gbdoc";

/// Prefix of a collection identifier.
pub const COL_PREFIX: &'static str = "gbcol";

/// Prefix of an index identifier.
pub const IDX_PREFIX: &'static str = "gbidx";

/// Number of bytes in the payload of every identifier.
pub const PAYLOAD_LEN: usize = 10;

/// Number of characters of every identifier: five of prefix, the separator,
/// sixteen of payload and six of checksum.
pub const ID_LEN: usize = 28;

/// The SHA3-256 digest of the UTF-8 bytes of a text.
pub uninterp spec fn sha3_256_digest(text: Seq<char>) -> Seq<u8>;

/// The BLAKE3 hash of the UTF-8 bytes of a text.
pub uninterp spec fn blake3_digest(text: Seq<char>) -> Seq<u8>;

/// The Bech32m string of a human-readable part and a payload.
pub uninterp spec fn bech32m_encoded(hrp: Seq<char>, data: Seq<u8>) -> Seq<char>;

/// The human-readable part and the payload of a string with a valid Bech32
/// or Bech32m checksum; `None` for any other string.
pub uninterp spec fn bech32_decoded(s: Seq<char>) -> Option<(Seq<char>, Seq<u8>)>;

/// Whether `c` is a lower-case ASCII letter.
pub open spec fn is_lower(c: char) -> bool {
    'a' <= c <= 'z'
}

/// Whether `c` is an upper-case ASCII letter.
pub open spec fn is_upper(c: char) -> bool {
    'A' <= c <= 'Z'
}

/// Whether `s` can be the human-readable part of an identifier: one to 83
/// printable ASCII characters, not in mixed case.
pub open spec fn hrp_well_formed(s: Seq<char>) -> bool {
    &&& 1 <= s.len() <= 83
    &&& forall|i: int| 0 <= i < s.len() ==> '!' <= #[trigger] s[i] <= '~'
    &&& !((exists|i: int| 0 <= i < s.len() && is_lower(#[trigger] s[i])) && (exists|i: int|
        0 <= i < s.len() && is_upper(#[trigger] s[i])))
}

/// Whether `s` holds no upper-case letter.
pub open spec fn no_upper(s: Seq<char>) -> bool {
    forall|i: int| 0 <= i < s.len() ==> !is_upper(#[trigger] s[i])
}

/// The length of the Bech32m string of a prefix of `hrp_len` characters and
/// a payload of `data_len` bytes: prefix, separator, five bits per character,
/// six characters of checksum.
pub open spec fn encoded_len(hrp_len: nat, data_len: nat) -> nat {
    hrp_len + 1 + (data_len * 8 + 4) / 5 + 6
}

/// The longest string that the checksum protects.
pub const CODE_LENGTH: usize = 1023;

/// Whether `s` is made of the prefix `hrp`, the separator `1`, and a body.
pub open spec fn has_prefix(s: Seq<char>, hrp: Seq<char>) -> bool {
    &&& s.len() > hrp.len()
    &&& s.subrange(0, hrp.len() as int) == hrp
    &&& s[hrp.len() as int] == '1'
}

/// Hashes a text with SHA3-256. Trusted: `Sha3_256` of the `sha3` crate, fed
/// the bytes of the text once, yields the 32 bytes of their digest.
#[verifier::external_body]
fn sha256_hash(input: &str) -> (digest: Vec<u8>)
    ensures
        digest@ == sha3_256_digest(input@),
        digest@.len() == 32,
{
    let mut hasher = sha3::Sha3_256::new();
    hasher.update(input);
    hasher.finalize().to_vec()
}

/// Hashes a text with BLAKE3. Trusted: `blake3::Hasher`, fed the bytes of the
/// text once, yields the 32 bytes of their hash.
#[verifier::external_body]
fn blake3_full(input: &str) -> (digest: Vec<u8>)
    ensures
        digest@ == blake3_digest(input@),
        digest@.len() == 32,
{
    let mut hasher = blake3::Hasher::new();
    hasher.update(input.as_bytes());
    hasher.finalize().as_bytes().to_vec()
}

/// Tests a human-readable part. Trusted: `Hrp::parse` of the `bech32` crate
/// accepts exactly the strings of one to 83 characters in the range `!` to
/// `~` that do not mix upper and lower case.
#[verifier::external_body]
fn hrp_parses(hrp: &str) -> (ok: bool)
    ensures
        ok == hrp_well_formed(hrp@),
{
    bech32::Hrp::parse(hrp).is_ok()
}

/// Encodes in Bech32m. Trusted: `bech32::encode` with the `Bech32m` checksum
/// fails exactly when the string would be longer than 1023 characters; its
/// result depends on the arguments alone and has the length that
/// `bech32::encoded_length` computes; a prefix without upper-case letters
/// stands at its front as it is, followed by the separator; and
/// `bech32::decode` gives back such a prefix and the payload.
#[verifier::external_body]
fn bech32m_encode(hrp: &str, data: &[u8]) -> (r: Option<String>)
    requires
        hrp_well_formed(hrp@),
        data@.len() <= usize::MAX / 8,
    ensures
        r is Some <==> encoded_len(hrp@.len(), data@.len()) <= CODE_LENGTH,
        r matches Some(s) ==> s@ == bech32m_encoded(hrp@, data@),
        r matches Some(s) ==> s@.len() == encoded_len(hrp@.len(), data@.len()),
        r matches Some(s) ==> (no_upper(hrp@) ==> has_prefix(s@, hrp@)),
        r is Some && no_upper(hrp@) ==> bech32_decoded(bech32m_encoded(hrp@, data@)) == Some(
            (hrp@, data@),
        ),
{
    bech32::encode::<bech32::Bech32m>(bech32::Hrp::parse_unchecked(hrp), data).ok()
}

/// Decodes a Bech32 string. Trusted: `bech32::decode` returns the prefix and
/// the payload of a string with a valid Bech32m or Bech32 checksum and fails
/// on every other string; its result depends on the string alone.
#[verifier::external_body]
fn bech32_decode(s: &str) -> (r: Option<(String, Vec<u8>)>)
    ensures
        match r {
            Some((hrp, data)) => bech32_decoded(s@) == Some((hrp@, data@)),
            None => bech32_decoded(s@) is None,
        },
{
    match bech32::decode(s) {
        Ok((hrp, data)) => Some((hrp.to_string(), data)),
        Err(_) => None,
    }
}

/// The first ten bytes of a hash.
pub open spec fn payload_of(digest: Seq<u8>) -> Seq<u8> {
    digest.subrange(0, PAYLOAD_LEN as int)
}

/// The first ten bytes of `digest`.
fn first_ten(digest: &Vec<u8>) -> (payload: Vec<u8>)
    requires
        digest@.len() >= PAYLOAD_LEN,
    ensures
        payload@ == payload_of(digest@),
{
    slice_to_vec(slice_subrange(digest.as_slice(), 0, PAYLOAD_LEN))
}

/// The payload of a collection identifier: the first ten bytes of the BLAKE3
/// hash of the name.
fn blake3_hash(input: &str) -> (payload: Vec<u8>)
    ensures
        payload@ == payload_of(blake3_digest(input@)),
        payload@.len() == PAYLOAD_LEN,
{
    let digest = blake3_full(input);
    first_ten(&digest)
}

/// The identifier of a prefix and a payload, or the error that refuses them:
/// a malformed prefix first, then a string too long for the checksum.
pub open spec fn encoded_id(hrp: Seq<char>, data: Seq<u8>) -> Result<Seq<char>, CoderErrorView> {
    if !hrp_well_formed(hrp) {
        Err(CoderErrorView::InvalidHRP)
    } else if encoded_len(hrp.len(), data.len()) > CODE_LENGTH {
        Err(CoderErrorView::EncodingError("encoding failed"@))
    } else {
        Ok(bech32m_encoded(hrp, data))
    }
}

/// What decoding yields for a result of the Bech32 decoder: the prefix and a
/// payload of exactly ten bytes, or an error.
pub open spec fn decoded_id(decoded: Option<(Seq<char>, Seq<u8>)>) -> Result<
    (Seq<char>, Seq<u8>),
    CoderErrorView,
> {
    match decoded {
        None => Err(CoderErrorView::DecodingError("decoding failed"@)),
        Some((hrp, data)) => if data.len() == PAYLOAD_LEN {
            Ok((hrp, data))
        } else {
            Err(CoderErrorView::DecodingError("payload is not 10 bytes"@))
        },
    }
}

/// The view of the result of an encoding.
pub open spec fn id_view(r: Result<String, CoderError>) -> Result<Seq<char>, CoderErrorView> {
    match r {
        Ok(id) => Ok(id@),
        Err(e) => Err(e@),
    }
}

/// The view of the result of a decoding.
pub open spec fn parts_view(r: Result<(String, Vec<u8>), CoderError>) -> Result<
    (Seq<char>, Seq<u8>),
    CoderErrorView,
> {
    match r {
        Ok((hrp, data)) => Ok((hrp@, data@)),
        Err(e) => Err(e@),
    }
}

/// The view of what the Bech32 decoder returned.
pub open spec fn decoder_view(d: Option<(String, Vec<u8>)>) -> Option<(Seq<char>, Seq<u8>)> {
    match d {
        Some((hrp, data)) => Some((hrp@, data@)),
        None => None,
    }
}

/// Encodes `data` under the prefix `hrp`.
///
/// Where the prefix holds no upper-case letter, decoding the identifier
/// gives the prefix and the payload back.
pub fn generate_bech32_id(hrp: &str, data: &[u8]) -> (r: Result<String, CoderError>)
    ensures
        id_view(r) == encoded_id(hrp@, data@),
        r matches Ok(id) ==> id@.len() == encoded_len(hrp@.len(), data@.len()),
        r matches Ok(id) ==> (no_upper(hrp@) ==> has_prefix(id@, hrp@)),
        r is Ok && no_upper(hrp@) ==> bech32_decoded(bech32m_encoded(hrp@, data@)) == Some(
            (hrp@, data@),
        ),
{
    if !hrp_parses(hrp) {
        return Err(CoderError::InvalidHRP);
    }
    if data.len() > usize::MAX / 8 {
        assert(encoded_len(hrp@.len(), data@.len()) > CODE_LENGTH);
        return Err(CoderError::EncodingError(String::from_str("encoding failed")));
    }
    match bech32m_encode(hrp, data) {
        Some(id) => Ok(id),
        None => Err(CoderError::EncodingError(String::from_str("encoding failed"))),
    }
}

/// Checks what the Bech32 decoder returned: a string that did not decode, or
/// whose payload is not ten bytes long, is no identifier.
pub fn check_decoded(decoded: Option<(String, Vec<u8>)>) -> (r: Result<
    (String, Vec<u8>),
    CoderError,
>)
    ensures
        parts_view(r) == decoded_id(decoder_view(decoded)),
{
    match decoded {
        None => Err(CoderError::DecodingError(String::from_str("decoding failed"))),
        Some((hrp, data)) => {
            if data.len() == PAYLOAD_LEN {
                Ok((hrp, data))
            } else {
                Err(CoderError::DecodingError(String::from_str("payload is not 10 bytes")))
            }
        },
    }
}

/// Decodes an identifier into its prefix and its ten bytes of payload.
///
/// Fails on a string whose checksum does not validate, whose prefix is
/// malformed, or whose payload is not ten bytes long.
pub fn decode_bech32_id(encoded: &str) -> (r: Result<(String, Vec<u8>), CoderError>)
    ensures
        parts_view(r) == decoded_id(bech32_decoded(encoded@)),
{
    check_decoded(bech32_decode(encoded))
}

/// The payload of a document identifier: the first ten bytes of the SHA3-256
/// digest of the content followed by the timestamp in decimal.
pub open spec fn document_payload(content: Seq<char>, timestamp: u64) -> Seq<u8> {
    payload_of(sha3_256_digest(content + decimal(timestamp as nat)))
}

/// The payload of a collection identifier: the first ten bytes of the BLAKE3
/// hash of the name.
pub open spec fn collection_payload(name: Seq<char>) -> Seq<u8> {
    payload_of(blake3_digest(name))
}

/// The payload of an index identifier: the first ten bytes of the SHA3-256
/// digest of the index name followed by the collection name.
pub open spec fn index_payload(index_name: Seq<char>, collection_name: Seq<char>) -> Seq<u8> {
    payload_of(sha3_256_digest(index_name + collection_name))
}

/// The identifier of a document.
pub open spec fn document_id(content: Seq<char>, timestamp: u64) -> Seq<char> {
    bech32m_encoded(DOC_PREFIX@, document_payload(content, timestamp))
}

/// The identifier of a collection.
pub open spec fn collection_id(name: Seq<char>) -> Seq<char> {
    bech32m_encoded(COL_PREFIX@, collection_payload(name))
}

/// The identifier of an index.
pub open spec fn index_id(index_name: Seq<char>, collection_name: Seq<char>) -> Seq<char> {
    bech32m_encoded(IDX_PREFIX@, index_payload(index_name, collection_name))
}

/// The three prefixes are well formed, in lower case, and five characters long.
pub proof fn lemma_prefixes_well_formed()
    ensures
        hrp_well_formed(DOC_PREFIX@) && no_upper(DOC_PREFIX@) && DOC_PREFIX@.len() == 5,
        hrp_well_formed(COL_PREFIX@) && no_upper(COL_PREFIX@) && COL_PREFIX@.len() == 5,
        hrp_well_formed(IDX_PREFIX@) && no_upper(IDX_PREFIX@) && IDX_PREFIX@.len() == 5,
{
    reveal_strlit("gbdoc");
    reveal_strlit("gbcol");
    reveal_strlit("gbidx");
}

/// Encodes a payload of ten bytes under one of the three prefixes, which
/// cannot fail.
fn generate_prefixed_id(prefix: &str, payload: &[u8]) -> (r: Result<String, CoderError>)
    requires
        prefix@ == DOC_PREFIX@ || prefix@ == COL_PREFIX@ || prefix@ == IDX_PREFIX@,
        payload@.len() == PAYLOAD_LEN,
    ensures
        r matches Ok(id) && id@ == bech32m_encoded(prefix@, payload@),
        bech32m_encoded(prefix@, payload@).len() == ID_LEN,
        has_prefix(bech32m_encoded(prefix@, payload@), prefix@),
        bech32_decoded(bech32m_encoded(prefix@, payload@)) == Some((prefix@, payload@)),
{
    proof {
        lemma_prefixes_well_formed();
    }
    generate_bech32_id(prefix, payload)
}

/// Names a document by its content and the time of its creation.
///
/// Never fails. Decoding the identifier gives `gbdoc` and the ten bytes of
/// its payload back.
pub fn generate_document_id(content: &str, timestamp: u64) -> (r: Result<String, CoderError>)
    ensures
        r matches Ok(id) && id@ == document_id(content@, timestamp),
        document_id(content@, timestamp).len() == ID_LEN,
        has_prefix(document_id(content@, timestamp), DOC_PREFIX@),
        document_payload(content@, timestamp).len() == PAYLOAD_LEN,
        decoded_id(bech32_decoded(document_id(content@, timestamp))) == Ok::<
            (Seq<char>, Seq<u8>),
            CoderErrorView,
        >((DOC_PREFIX@, document_payload(content@, timestamp))),
{
    let stamp = decimal_string(timestamp);
    let text = join2(content, stamp.as_str());
    let digest = sha256_hash(text.as_str());
    let payload = first_ten(&digest);
    generate_prefixed_id(DOC_PREFIX, payload.as_slice())
}

/// Names a collection by its name.
///
/// Never fails, and the identifier depends on the name alone. Decoding it
/// gives `gbcol` and the ten bytes of its payload back.
pub fn generate_collection_id(collection_name: &str) -> (r: Result<String, CoderError>)
    ensures
        r matches Ok(id) && id@ == collection_id(collection_name@),
        collection_id(collection_name@).len() == ID_LEN,
        has_prefix(collection_id(collection_name@), COL_PREFIX@),
        collection_payload(collection_name@).len() == PAYLOAD_LEN,
        decoded_id(bech32_decoded(collection_id(collection_name@))) == Ok::<
            (Seq<char>, Seq<u8>),
            CoderErrorView,
        >((COL_PREFIX@, collection_payload(collection_name@))),
{
    let payload = blake3_hash(collection_name);
    generate_prefixed_id(COL_PREFIX, payload.as_slice())
}

/// Names an index by its own name and that of its collection.
///
/// Never fails. Decoding the identifier gives `gbidx` and the ten bytes of
/// its payload back.
pub fn generate_index_id(index_name: &str, collection_name: &str) -> (r: Result<
    String,
    CoderError,
>)
    ensures
        r matches Ok(id) && id@ == index_id(index_name@, collection_name@),
        index_id(index_name@, collection_name@).len() == ID_LEN,
        has_prefix(index_id(index_name@, collection_name@), IDX_PREFIX@),
        index_payload(index_name@, collection_name@).len() == PAYLOAD_LEN,
        decoded_id(bech32_decoded(index_id(index_name@, collection_name@))) == Ok::<
            (Seq<char>, Seq<u8>),
            CoderErrorView,
        >((IDX_PREFIX@, index_payload(index_name@, collection_name@))),
{
    let text = join2(index_name, collection_name);
    let digest = sha256_hash(text.as_str());
    let payload = first_ten(&digest);
    generate_prefixed_id(IDX_PREFIX, payload.as_slice())
}

/// The identifier of a collection is a function of its name: whenever two
/// names are the same, so are the identifiers that are generated for them.
pub proof fn lemma_collection_id_depends_on_name_alone(
    first_name: Seq<char>,
    second_name: Seq<char>,
    first_id: Seq<char>,
    second_id: Seq<char>,
)
    requires
        first_name == second_name,
        first_id == collection_id(first_name),
        second_id == collection_id(second_name),
    ensures
        first_id == second_id,
{
}

} // verus!
