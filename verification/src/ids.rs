//! Identifiers of cluster resources: nodes, pools, replicas, nexuses,
//! nexus children, volumes and JSON gRPC calls.
use crate::text::zeros;
use vstd::prelude::*;
use vstd::utf8::{
    decode_utf8, encode_utf8, encode_utf8_decode_utf8, encode_utf8_valid_utf8, is_ascii_chars,
    is_ascii_chars_encode_utf8, valid_utf8,
};

verus! {

/// The text of the nil UUID, "00000000-0000-0000-0000-000000000000".
pub open spec fn nil_uuid_text() -> Seq<char> {
    zeros(8) + seq!['-'] + zeros(4) + seq!['-'] + zeros(4) + seq!['-'] + zeros(4) + seq!['-']
        + zeros(12)
}

/// A lower-case hexadecimal digit.
pub open spec fn is_lower_hex_char(c: char) -> bool {
    ('0' <= c && c <= '9') || ('a' <= c && c <= 'f')
}

/// The hyphenated text of a random (version 4, RFC 4122 variant) UUID.
pub open spec fn is_random_uuid_text(s: Seq<char>) -> bool {
    &&& s.len() == 36
    &&& forall|i: int| 0 <= i < 36 ==> if i == 8 || i == 13 || i == 18 || i == 23 {
        #[trigger] s[i] == '-'
    } else {
        is_lower_hex_char(s[i])
    }
    &&& s[14] == '4'
    &&& (s[19] == '8' || s[19] == '9' || s[19] == 'a' || s[19] == 'b')
}

/// The text of the nil UUID (`uuid::Uuid::default()`), as the default
/// identifier.
#[verifier::external_body]
fn nil_uuid_string() -> (s: String)
    ensures
        s@ == nil_uuid_text(),
{
    uuid::Uuid::default().to_string()
}

/// The text of a freshly generated random UUID (`uuid::Uuid::new_v4()`).
/// The contract states its form (hyphenated, lower-case, version 4, RFC 4122
/// variant); which random value comes out is left unsaid.
#[verifier::external_body]
fn random_uuid_string() -> (s: String)
    ensures
        is_random_uuid_text(s@),
{
    uuid::Uuid::new_v4().to_string()
}

/// An ASCII hexadecimal digit byte, upper or lower case.
pub open spec fn is_hex_byte(b: u8) -> bool {
    (48 <= b && b <= 57) || (65 <= b && b <= 70) || (97 <= b && b <= 102)
}

/// The value of a hexadecimal digit byte.
pub open spec fn hex_byte_value(b: u8) -> int {
    if b <= 57 {
        b - 48
    } else if b <= 70 {
        b - 55
    } else {
        b - 87
    }
}

/// Percent-decoding of bytes: every '%' followed by two hexadecimal digits
/// stands for the byte they spell; every other byte stands for itself.
pub open spec fn percent_decoded(bytes: Seq<u8>) -> Seq<u8>
    decreases bytes.len(),
{
    if bytes.len() == 0 {
        Seq::empty()
    } else if bytes[0] == 37 && bytes.len() >= 3 && is_hex_byte(bytes[1]) && is_hex_byte(bytes[2]) {
        seq![(hex_byte_value(bytes[1]) * 16 + hex_byte_value(bytes[2])) as u8] + percent_decoded(
            bytes.subrange(3, bytes.len() as int),
        )
    } else {
        seq![bytes[0]] + percent_decoded(bytes.subrange(1, bytes.len() as int))
    }
}

/// The text that a child URI holds for the given input: its percent-decoding
/// when that decodes to valid UTF-8, else the input itself.
pub open spec fn child_uri_text(s: Seq<char>) -> Seq<char> {
    let decoded = percent_decoded(encode_utf8(s));
    if valid_utf8(decoded) {
        decode_utf8(decoded)
    } else {
        s
    }
}

/// Bytes without a '%' percent-decode to themselves.
pub proof fn lemma_percent_decoded_plain(bytes: Seq<u8>)
    requires
        forall|i: int| 0 <= i < bytes.len() ==> bytes[i] != 37,
    ensures
        percent_decoded(bytes) == bytes,
    decreases bytes.len(),
{
    if bytes.len() > 0 {
        let rest = bytes.subrange(1, bytes.len() as int);
        lemma_percent_decoded_plain(rest);
        assert(seq![bytes[0]] + rest =~= bytes);
    }
}

/// An ASCII child URI without a '%' is kept as it is.
pub proof fn lemma_plain_child_uri_kept(s: Seq<char>)
    requires
        is_ascii_chars(s),
        forall|i: int| 0 <= i < s.len() ==> s[i] != '%',
    ensures
        child_uri_text(s) == s,
{
    is_ascii_chars_encode_utf8(s);
    let bytes = encode_utf8(s);
    assert forall|i: int| 0 <= i < bytes.len() implies bytes[i] != 37 by {
        assert(s[i] as u8 == bytes[i]);
        assert(s[i] <= '\u{7f}');
        assert((s[i] as u32) < 128);
    }
    lemma_percent_decoded_plain(bytes);
    encode_utf8_valid_utf8(s);
    encode_utf8_decode_utf8(s);
}

/// Percent-decodes `input` and reads the bytes as UTF-8
/// (`percent_encoding::percent_decode_str(..).decode_utf8()`): `None` where
/// the decoded bytes are not valid UTF-8.
#[verifier::external_body]
fn percent_decode_utf8(input: &str) -> (r: Option<String>)
    ensures
        r is Some <==> valid_utf8(percent_decoded(encode_utf8(input@))),
        r matches Some(d) ==> d@ == decode_utf8(percent_decoded(encode_utf8(input@))),
{
    match percent_encoding::percent_decode_str(input).decode_utf8() {
        Ok(decoded) => Some(decoded.into_owned()),
        Err(_) => None,
    }
}

/// ID of a mayastor node
#[derive(Debug, PartialEq, Eq, Hash)]
pub struct NodeId(String);

impl View for NodeId {
    type V = Seq<char>;

    closed spec fn view(&self) -> Seq<char> {
        self.0@
    }
}

impl Clone for NodeId {
    fn clone(&self) -> (r: Self)
        ensures
            r == *self,
    {
        NodeId(self.0.clone())
    }
}

impl Default for NodeId {
    /// The nil-UUID identifier.
    fn default() -> (r: Self)
        ensures
            r@ == nil_uuid_text(),
    {
        NodeId(nil_uuid_string())
    }
}

impl NodeId {
    /// Build the identifier from a string slice.
    pub fn from(id: &str) -> (r: Self)
        ensures
            r@ == (id@),
    {
        Self::from_string(id.to_owned())
    }

    /// Build the identifier from an owned string.
    pub fn from_string(id: String) -> (r: Self)
        ensures
            r@ == (id@),
    {
        NodeId(id)
    }

    /// The identifier as a string slice.
    pub fn as_str(&self) -> (s: &str)
        ensures
            s@ == self@,
    {
        self.0.as_str()
    }

    /// The identifier as an owned string.
    pub fn to_string(&self) -> (s: String)
        ensures
            s@ == self@,
    {
        self.0.clone()
    }

    /// The string that holds the identifier.
    pub closed spec fn inner(&self) -> String {
        self.0
    }

    /// Turn the identifier into its string.
    pub fn into_string(self) -> (s: String)
        ensures
            s@ == self@,
            s == self.inner(),
    {
        self.0
    }

    /// Whether two identifiers are the same.
    pub fn same(&self, other: &Self) -> (b: bool)
        ensures
            b == (self@ == other@),
    {
        self.0 == other.0
    }

    /// Generate a new random identifier.
    pub fn new() -> (r: Self)
        ensures
            is_random_uuid_text(r@),
    {
        NodeId(random_uuid_string())
    }
}

/// ID of a mayastor pool
#[derive(Debug, PartialEq, Eq, Hash)]
pub struct PoolId(String);

impl View for PoolId {
    type V = Seq<char>;

    closed spec fn view(&self) -> Seq<char> {
        self.0@
    }
}

impl Clone for PoolId {
    fn clone(&self) -> (r: Self)
        ensures
            r == *self,
    {
        PoolId(self.0.clone())
    }
}

impl Default for PoolId {
    /// The nil-UUID identifier.
    fn default() -> (r: Self)
        ensures
            r@ == nil_uuid_text(),
    {
        PoolId(nil_uuid_string())
    }
}

impl PoolId {
    /// Build the identifier from a string slice.
    pub fn from(id: &str) -> (r: Self)
        ensures
            r@ == (id@),
    {
        Self::from_string(id.to_owned())
    }

    /// Build the identifier from an owned string.
    pub fn from_string(id: String) -> (r: Self)
        ensures
            r@ == (id@),
    {
        PoolId(id)
    }

    /// The identifier as a string slice.
    pub fn as_str(&self) -> (s: &str)
        ensures
            s@ == self@,
    {
        self.0.as_str()
    }

    /// The identifier as an owned string.
    pub fn to_string(&self) -> (s: String)
        ensures
            s@ == self@,
    {
        self.0.clone()
    }

    /// The string that holds the identifier.
    pub closed spec fn inner(&self) -> String {
        self.0
    }

    /// Turn the identifier into its string.
    pub fn into_string(self) -> (s: String)
        ensures
            s@ == self@,
            s == self.inner(),
    {
        self.0
    }

    /// Whether two identifiers are the same.
    pub fn same(&self, other: &Self) -> (b: bool)
        ensures
            b == (self@ == other@),
    {
        self.0 == other.0
    }

    /// Generate a new random identifier.
    pub fn new() -> (r: Self)
        ensures
            is_random_uuid_text(r@),
    {
        PoolId(random_uuid_string())
    }
}

/// UUID of a mayastor pool replica
#[derive(Debug, PartialEq, Eq, Hash)]
pub struct ReplicaId(String);

impl View for ReplicaId {
    type V = Seq<char>;

    closed spec fn view(&self) -> Seq<char> {
        self.0@
    }
}

impl Clone for ReplicaId {
    fn clone(&self) -> (r: Self)
        ensures
            r == *self,
    {
        ReplicaId(self.0.clone())
    }
}

impl Default for ReplicaId {
    /// The nil-UUID identifier.
    fn default() -> (r: Self)
        ensures
            r@ == nil_uuid_text(),
    {
        ReplicaId(nil_uuid_string())
    }
}

impl ReplicaId {
    /// Build the identifier from a string slice.
    pub fn from(id: &str) -> (r: Self)
        ensures
            r@ == (id@),
    {
        Self::from_string(id.to_owned())
    }

    /// Build the identifier from an owned string.
    pub fn from_string(id: String) -> (r: Self)
        ensures
            r@ == (id@),
    {
        ReplicaId(id)
    }

    /// The identifier as a string slice.
    pub fn as_str(&self) -> (s: &str)
        ensures
            s@ == self@,
    {
        self.0.as_str()
    }

    /// The identifier as an owned string.
    pub fn to_string(&self) -> (s: String)
        ensures
            s@ == self@,
    {
        self.0.clone()
    }

    /// The string that holds the identifier.
    pub closed spec fn inner(&self) -> String {
        self.0
    }

    /// Turn the identifier into its string.
    pub fn into_string(self) -> (s: String)
        ensures
            s@ == self@,
            s == self.inner(),
    {
        self.0
    }

    /// Whether two identifiers are the same.
    pub fn same(&self, other: &Self) -> (b: bool)
        ensures
            b == (self@ == other@),
    {
        self.0 == other.0
    }

    /// Generate a new random identifier.
    pub fn new() -> (r: Self)
        ensures
            is_random_uuid_text(r@),
    {
        ReplicaId(random_uuid_string())
    }
}

/// UUID of a mayastor nexus
#[derive(Debug, PartialEq, Eq, Hash)]
pub struct NexusId(String);

impl View for NexusId {
    type V = Seq<char>;

    closed spec fn view(&self) -> Seq<char> {
        self.0@
    }
}

impl Clone for NexusId {
    fn clone(&self) -> (r: Self)
        ensures
            r == *self,
    {
        NexusId(self.0.clone())
    }
}

impl Default for NexusId {
    /// The nil-UUID identifier.
    fn default() -> (r: Self)
        ensures
            r@ == nil_uuid_text(),
    {
        NexusId(nil_uuid_string())
    }
}

impl NexusId {
    /// Build the identifier from a string slice.
    pub fn from(id: &str) -> (r: Self)
        ensures
            r@ == (id@),
    {
        Self::from_string(id.to_owned())
    }

    /// Build the identifier from an owned string.
    pub fn from_string(id: String) -> (r: Self)
        ensures
            r@ == (id@),
    {
        NexusId(id)
    }

    /// The identifier as a string slice.
    pub fn as_str(&self) -> (s: &str)
        ensures
            s@ == self@,
    {
        self.0.as_str()
    }

    /// The identifier as an owned string.
    pub fn to_string(&self) -> (s: String)
        ensures
            s@ == self@,
    {
        self.0.clone()
    }

    /// The string that holds the identifier.
    pub closed spec fn inner(&self) -> String {
        self.0
    }

    /// Turn the identifier into its string.
    pub fn into_string(self) -> (s: String)
        ensures
            s@ == self@,
            s == self.inner(),
    {
        self.0
    }

    /// Whether two identifiers are the same.
    pub fn same(&self, other: &Self) -> (b: bool)
        ensures
            b == (self@ == other@),
    {
        self.0 == other.0
    }

    /// Generate a new random identifier.
    pub fn new() -> (r: Self)
        ensures
            is_random_uuid_text(r@),
    {
        NexusId(random_uuid_string())
    }
}

/// URI of a mayastor nexus child
#[derive(Debug, PartialEq, Eq, Hash)]
pub struct ChildUri(String);

impl View for ChildUri {
    type V = Seq<char>;

    closed spec fn view(&self) -> Seq<char> {
        self.0@
    }
}

impl Clone for ChildUri {
    fn clone(&self) -> (r: Self)
        ensures
            r == *self,
    {
        ChildUri(self.0.clone())
    }
}

impl Default for ChildUri {
    /// The empty identifier.
    fn default() -> (r: Self)
        ensures
            r@ == Seq::<char>::empty(),
    {
        ChildUri(String::new())
    }
}

impl ChildUri {
    /// Build the URI from a string slice, percent-decoding it where the
    /// decoded bytes are valid UTF-8.
    pub fn from(id: &str) -> (r: Self)
        ensures
            r@ == child_uri_text(id@),
    {
        Self::from_string(id.to_owned())
    }

    /// Build the URI from an owned string, percent-decoding it where the
    /// decoded bytes are valid UTF-8.
    pub fn from_string(id: String) -> (r: Self)
        ensures
            r@ == child_uri_text(id@),
    {
        match percent_decode_utf8(id.as_str()) {
            Some(decoded) => ChildUri(decoded),
            None => ChildUri(id),
        }
    }

    /// The identifier as a string slice.
    pub fn as_str(&self) -> (s: &str)
        ensures
            s@ == self@,
    {
        self.0.as_str()
    }

    /// The identifier as an owned string.
    pub fn to_string(&self) -> (s: String)
        ensures
            s@ == self@,
    {
        self.0.clone()
    }

    /// The string that holds the identifier.
    pub closed spec fn inner(&self) -> String {
        self.0
    }

    /// Turn the identifier into its string.
    pub fn into_string(self) -> (s: String)
        ensures
            s@ == self@,
            s == self.inner(),
    {
        self.0
    }

    /// Whether two identifiers are the same.
    pub fn same(&self, other: &Self) -> (b: bool)
        ensures
            b == (self@ == other@),
    {
        self.0 == other.0
    }
}

/// UUID of a mayastor volume
#[derive(Debug, PartialEq, Eq, Hash)]
pub struct VolumeId(String);

impl View for VolumeId {
    type V = Seq<char>;

    closed spec fn view(&self) -> Seq<char> {
        self.0@
    }
}

impl Clone for VolumeId {
    fn clone(&self) -> (r: Self)
        ensures
            r == *self,
    {
        VolumeId(self.0.clone())
    }
}

impl Default for VolumeId {
    /// The nil-UUID identifier.
    fn default() -> (r: Self)
        ensures
            r@ == nil_uuid_text(),
    {
        VolumeId(nil_uuid_string())
    }
}

impl VolumeId {
    /// Build the identifier from a string slice.
    pub fn from(id: &str) -> (r: Self)
        ensures
            r@ == (id@),
    {
        Self::from_string(id.to_owned())
    }

    /// Build the identifier from an owned string.
    pub fn from_string(id: String) -> (r: Self)
        ensures
            r@ == (id@),
    {
        VolumeId(id)
    }

    /// The identifier as a string slice.
    pub fn as_str(&self) -> (s: &str)
        ensures
            s@ == self@,
    {
        self.0.as_str()
    }

    /// The identifier as an owned string.
    pub fn to_string(&self) -> (s: String)
        ensures
            s@ == self@,
    {
        self.0.clone()
    }

    /// The string that holds the identifier.
    pub closed spec fn inner(&self) -> String {
        self.0
    }

    /// Turn the identifier into its string.
    pub fn into_string(self) -> (s: String)
        ensures
            s@ == self@,
            s == self.inner(),
    {
        self.0
    }

    /// Whether two identifiers are the same.
    pub fn same(&self, other: &Self) -> (b: bool)
        ensures
            b == (self@ == other@),
    {
        self.0 == other.0
    }

    /// Generate a new random identifier.
    pub fn new() -> (r: Self)
        ensures
            is_random_uuid_text(r@),
    {
        VolumeId(random_uuid_string())
    }
}

/// JSON gRPC method
#[derive(Debug, PartialEq, Eq, Hash)]
pub struct JsonGrpcMethod(String);

impl View for JsonGrpcMethod {
    type V = Seq<char>;

    closed spec fn view(&self) -> Seq<char> {
        self.0@
    }
}

impl Clone for JsonGrpcMethod {
    fn clone(&self) -> (r: Self)
        ensures
            r == *self,
    {
        JsonGrpcMethod(self.0.clone())
    }
}

impl Default for JsonGrpcMethod {
    /// The nil-UUID identifier.
    fn default() -> (r: Self)
        ensures
            r@ == nil_uuid_text(),
    {
        JsonGrpcMethod(nil_uuid_string())
    }
}

impl JsonGrpcMethod {
    /// Build the identifier from a string slice.
    pub fn from(id: &str) -> (r: Self)
        ensures
            r@ == (id@),
    {
        Self::from_string(id.to_owned())
    }

    /// Build the identifier from an owned string.
    pub fn from_string(id: String) -> (r: Self)
        ensures
            r@ == (id@),
    {
        JsonGrpcMethod(id)
    }

    /// The identifier as a string slice.
    pub fn as_str(&self) -> (s: &str)
        ensures
            s@ == self@,
    {
        self.0.as_str()
    }

    /// The identifier as an owned string.
    pub fn to_string(&self) -> (s: String)
        ensures
            s@ == self@,
    {
        self.0.clone()
    }

    /// The string that holds the identifier.
    pub closed spec fn inner(&self) -> String {
        self.0
    }

    /// Turn the identifier into its string.
    pub fn into_string(self) -> (s: String)
        ensures
            s@ == self@,
            s == self.inner(),
    {
        self.0
    }

    /// Whether two identifiers are the same.
    pub fn same(&self, other: &Self) -> (b: bool)
        ensures
            b == (self@ == other@),
    {
        self.0 == other.0
    }

    /// Generate a new random identifier.
    pub fn new() -> (r: Self)
        ensures
            is_random_uuid_text(r@),
    {
        JsonGrpcMethod(random_uuid_string())
    }
}

/// Parameters to be passed to a JSON gRPC method
#[derive(Debug, PartialEq, Eq, Hash)]
pub struct JsonGrpcParams(String);

impl View for JsonGrpcParams {
    type V = Seq<char>;

    closed spec fn view(&self) -> Seq<char> {
        self.0@
    }
}

impl Clone for JsonGrpcParams {
    fn clone(&self) -> (r: Self)
        ensures
            r == *self,
    {
        JsonGrpcParams(self.0.clone())
    }
}

impl Default for JsonGrpcParams {
    /// The nil-UUID identifier.
    fn default() -> (r: Self)
        ensures
            r@ == nil_uuid_text(),
    {
        JsonGrpcParams(nil_uuid_string())
    }
}

impl JsonGrpcParams {
    /// Build the identifier from a string slice.
    pub fn from(id: &str) -> (r: Self)
        ensures
            r@ == (id@),
    {
        Self::from_string(id.to_owned())
    }

    /// Build the identifier from an owned string.
    pub fn from_string(id: String) -> (r: Self)
        ensures
            r@ == (id@),
    {
        JsonGrpcParams(id)
    }

    /// The identifier as a string slice.
    pub fn as_str(&self) -> (s: &str)
        ensures
            s@ == self@,
    {
        self.0.as_str()
    }

    /// The identifier as an owned string.
    pub fn to_string(&self) -> (s: String)
        ensures
            s@ == self@,
    {
        self.0.clone()
    }

    /// The string that holds the identifier.
    pub closed spec fn inner(&self) -> String {
        self.0
    }

    /// Turn the identifier into its string.
    pub fn into_string(self) -> (s: String)
        ensures
            s@ == self@,
            s == self.inner(),
    {
        self.0
    }

    /// Whether two identifiers are the same.
    pub fn same(&self, other: &Self) -> (b: bool)
        ensures
            b == (self@ == other@),
    {
        self.0 == other.0
    }

    /// Generate a new random identifier.
    pub fn new() -> (r: Self)
        ensures
            is_random_uuid_text(r@),
    {
        JsonGrpcParams(random_uuid_string())
    }
}

} // verus!
