//! The header abstraction: an immutable byte sequence ([`HeaderPart`]), a
//! name/value pair of two such sequences ([`Header`]), and an
//! insertion-ordered collection of pairs ([`Headers`]).
use vstd::prelude::*;
use vstd::utf8::{decode_utf8, encode_utf8, valid_utf8};
use crate::byte_buf::{
    bytes_as_slice, bytes_clone, bytes_content, bytes_copy_from_slice, bytes_from_vec, slice_eq,
};
use crate::escape::{byte_string_rendering, render_byte_string};
use crate::text::{cow_bytes_into_vec, cow_str_into_string, try_str_from_utf8};

verus! {

/// A part of a header (either the name or the value): an opaque, immutable
/// byte sequence, cheap to clone because clones share the backing storage.
///
/// The bytes need not be valid text; nothing is parsed or interpreted here.
pub struct HeaderPart(bytes::Bytes);

impl View for HeaderPart {
    type V = Seq<u8>;

    closed spec fn view(&self) -> Seq<u8> {
        bytes_content(self.0)
    }
}

impl HeaderPart {
    /// Canonical constructor: takes already-owned bytes. Every other
    /// conversion funnels into this one.
    pub fn from_vec(v: Vec<u8>) -> (r: HeaderPart)
        ensures
            r@ == v@,
    {
        HeaderPart(bytes_from_vec(v))
    }

    /// Builds a part from a borrowed byte slice, copying it into owned bytes.
    pub fn from_slice(s: &[u8]) -> (r: HeaderPart)
        ensures
            r@ == s@,
    {
        HeaderPart(bytes_copy_from_slice(s))
    }

    /// Builds a part from a fixed-size byte array, copying it.
    pub fn from_array<const N: usize>(a: &[u8; N]) -> (r: HeaderPart)
        ensures
            r@ == a@,
    {
        HeaderPart::from_slice(a.as_slice())
    }

    /// Builds a part from an owned text string, taking its UTF-8 encoding.
    pub fn from_string(s: String) -> (r: HeaderPart)
        ensures
            r@ == encode_utf8(s@),
    {
        HeaderPart::from_slice(s.as_str().as_bytes())
    }

    /// Builds a part from a borrowed text slice, copying its UTF-8 encoding.
    pub fn from_str(s: &str) -> (r: HeaderPart)
        ensures
            r@ == encode_utf8(s@),
    {
        HeaderPart::from_slice(s.as_bytes())
    }

    /// Builds a part from a copy-on-write byte buffer, materializing the
    /// owned form.
    pub fn from_cow_bytes(c: std::borrow::Cow<'_, [u8]>) -> (r: HeaderPart)
        ensures
            r@ == c@,
    {
        HeaderPart::from_vec(cow_bytes_into_vec(c))
    }

    /// Builds a part from a copy-on-write text value, taking the UTF-8
    /// encoding of its owned form.
    pub fn from_cow_str(c: std::borrow::Cow<'_, str>) -> (r: HeaderPart)
        ensures
            r@ == encode_utf8(c@),
    {
        HeaderPart::from_string(cow_str_into_string(c))
    }

    /// Read-only view of the bytes; never a copy.
    pub fn as_bytes(&self) -> (r: &[u8])
        ensures
            r@ == self@,
    {
        bytes_as_slice(&self.0)
    }

    /// The bytes reinterpreted as text: the decoded characters when the
    /// bytes are valid UTF-8, and nothing otherwise.
    pub fn as_text(&self) -> (r: Option<&str>)
        ensures
            r is Some <==> valid_utf8(self@),
            r matches Some(s) ==> encode_utf8(s@) == self@ && s@ == decode_utf8(self@),
    {
        match try_str_from_utf8(self.as_bytes()) {
            Some(s) => {
                proof {
                    vstd::utf8::encode_utf8_valid_utf8(s@);
                    vstd::utf8::encode_utf8_decode_utf8(s@);
                }
                Some(s)
            },
            None => None,
        }
    }

    /// Diagnostic rendering as a quoted byte-string literal (see
    /// [`crate::escape`]).
    pub fn debug_string(&self) -> (r: String)
        ensures
            r@ == byte_string_rendering(self@),
    {
        render_byte_string(self.as_bytes())
    }
}

impl Clone for HeaderPart {
    /// O(1) clone: the clone shares the backing storage and observes the
    /// same bytes.
    fn clone(&self) -> (r: Self)
        ensures
            r@ == self@,
    {
        HeaderPart(bytes_clone(&self.0))
    }
}

impl PartialEq for HeaderPart {
    /// Two parts are equal iff their byte contents are equal, not iff they
    /// share backing storage or were built through the same conversion.
    fn eq(&self, other: &HeaderPart) -> (r: bool) {
        slice_eq(self.as_bytes(), other.as_bytes())
    }
}

impl vstd::std_specs::cmp::PartialEqSpecImpl for HeaderPart {
    open spec fn obeys_eq_spec() -> bool {
        true
    }

    open spec fn eq_spec(&self, other: &HeaderPart) -> bool {
        self@ == other@
    }
}

/// Equality law: under `==`, two parts are equal exactly when their byte
/// contents are equal, whichever conversion built each side and whether or
/// not they share backing storage.
pub proof fn lemma_part_equality_is_content_equality(a: &HeaderPart, b: &HeaderPart)
    ensures
        vstd::std_specs::cmp::PartialEqSpec::eq_spec(a, b) <==> a@ == b@,
{
}

/// The mathematical value of a [`Header`]: its two byte sequences.
#[verifier::ext_equal]
pub ghost struct HeaderView {
    pub name: Seq<u8>,
    pub value: Seq<u8>,
}

/// A single header: an immutable (name, value) pair of byte sequences.
pub struct Header {
    pub name: HeaderPart,
    pub value: HeaderPart,
}

impl View for Header {
    type V = HeaderView;

    open spec fn view(&self) -> HeaderView {
        HeaderView { name: self.name@, value: self.value@ }
    }
}

impl Header {
    /// Creates a new `Header` with the given name and value.
    pub fn new(name: HeaderPart, value: HeaderPart) -> (h: Header)
        ensures
            h@.name == name@,
            h@.value == value@,
    {
        Header { name, value }
    }

    /// Pair-conversion sugar for [`Header::new`].
    pub fn from_pair(p: (HeaderPart, HeaderPart)) -> (h: Header)
        ensures
            h@.name == p.0@,
            h@.value == p.1@,
    {
        Header::new(p.0, p.1)
    }

    /// Return a borrowed representation of the `Header` name.
    pub fn name(&self) -> (r: &[u8])
        ensures
            r@ == self@.name,
    {
        self.name.as_bytes()
    }

    /// Return a borrowed representation of the `Header` value.
    pub fn value(&self) -> (r: &[u8])
        ensures
            r@ == self@.value,
    {
        self.value.as_bytes()
    }

    /// Diagnostic rendering as a structured record showing both fields under
    /// the quoted byte-string rule.
    pub fn debug_string(&self) -> (r: String)
        ensures
            r@ == header_rendering(self@),
    {
        let mut s = String::new();
        s.push_str("Header { name: ");
        let name_part = self.name.debug_string();
        s.push_str(name_part.as_str());
        s.push_str(", value: ");
        let value_part = self.value.debug_string();
        s.push_str(value_part.as_str());
        s.push_str(" }");
        s
    }
}

/// Rendering of a whole header: both fields labeled, each under the quoted
/// byte-string rule.
pub open spec fn header_rendering(h: HeaderView) -> Seq<char> {
    "Header { name: "@ + byte_string_rendering(h.name) + ", value: "@ + byte_string_rendering(
        h.value,
    ) + " }"@
}

impl Clone for Header {
    /// O(1) clone: both fields share their backing storage.
    fn clone(&self) -> (r: Self)
        ensures
            r@ == self@,
    {
        Header { name: self.name.clone(), value: self.value.clone() }
    }
}

impl PartialEq for Header {
    /// Two headers are equal iff both fields are byte-for-byte equal.
    fn eq(&self, other: &Header) -> (r: bool) {
        self.name == other.name && self.value == other.value
    }
}

impl vstd::std_specs::cmp::PartialEqSpecImpl for Header {
    open spec fn obeys_eq_spec() -> bool {
        true
    }

    open spec fn eq_spec(&self, other: &Header) -> bool {
        self@ == other@
    }
}

/// True when some entry of `s` has the given name.
pub open spec fn has_match(s: Seq<HeaderView>, name: Seq<u8>) -> bool {
    exists|i: int| 0 <= i < s.len() && s[i].name == name
}

/// The value of the first entry of `s` whose name is `name`.
pub open spec fn first_value(s: Seq<HeaderView>, name: Seq<u8>) -> Seq<u8>
    recommends
        has_match(s, name),
    decreases s.len(),
{
    if s.len() == 0 {
        Seq::empty()
    } else if s[0].name == name {
        s[0].value
    } else {
        first_value(s.drop_first(), name)
    }
}

/// The first match is found at the first matching index: when nothing before
/// `i` matches and `s[i]` does, the scan's answer is `s[i]`'s value.
pub proof fn lemma_first_value_at(s: Seq<HeaderView>, name: Seq<u8>, i: int)
    requires
        0 <= i < s.len(),
        s[i].name == name,
        forall|j: int| 0 <= j < i ==> s[j].name != name,
    ensures
        has_match(s, name),
        first_value(s, name) == s[i].value,
    decreases i,
{
    if i > 0 {
        lemma_first_value_at(s.drop_first(), name, i - 1);
    }
}

/// An insertion-ordered sequence of headers. Entries may repeat the same
/// name; nothing is deduplicated, sorted, or case-folded at this layer.
pub struct Headers(pub Vec<Header>);

impl View for Headers {
    type V = Seq<HeaderView>;

    open spec fn view(&self) -> Seq<HeaderView> {
        self.0@.map_values(|h: Header| h@)
    }
}

impl Default for Headers {
    /// A default-constructed list is empty.
    fn default() -> (r: Headers)
        ensures
            r@ == Seq::<HeaderView>::empty(),
    {
        let r = Headers(Vec::new());
        proof {
            assert(r@ =~= Seq::<HeaderView>::empty());
        }
        r
    }
}

impl Headers {
    /// Creates an empty list.
    pub fn new() -> (r: Headers)
        ensures
            r@ == Seq::<HeaderView>::empty(),
    {
        Default::default()
    }

    /// Appends a header built from the two text arguments; insertion order is
    /// preserved and nothing else changes.
    pub fn add(&mut self, name: &str, value: &str)
        ensures
            final(self)@ == old(self)@.push(
                HeaderView { name: encode_utf8(name@), value: encode_utf8(value@) },
            ),
    {
        let h = Header::new(HeaderPart::from_str(name), HeaderPart::from_str(value));
        self.0.push(h);
        proof {
            assert(self@ =~= old(self)@.push(
                HeaderView { name: encode_utf8(name@), value: encode_utf8(value@) },
            ));
        }
    }

    /// Scans in insertion order for the first entry whose name byte-equals
    /// the UTF-8 encoding of `name` and returns its value reinterpreted as
    /// text.
    ///
    /// Callers must know, by protocol contract, that such an entry exists and
    /// that its value is valid UTF-8: either failure is a precondition
    /// violation, fatal by design, never a silent default.
    pub fn get<'a>(&'a self, name: &str) -> (r: &'a str)
        requires
            has_match(self@, encode_utf8(name@)),
            valid_utf8(first_value(self@, encode_utf8(name@))),
        ensures
            encode_utf8(r@) == first_value(self@, encode_utf8(name@)),
            r@ == decode_utf8(first_value(self@, encode_utf8(name@))),
    {
        let name_bytes: &[u8] = name.as_bytes();
        let n: usize = self.0.len();
        let mut i: usize = 0;
        while i < n
            invariant
                n == self.0.len(),
                self@.len() == n,
                0 <= i <= n,
                name_bytes@ == encode_utf8(name@),
                has_match(self@, encode_utf8(name@)),
                valid_utf8(first_value(self@, encode_utf8(name@))),
                forall|j: int| 0 <= j < i ==> self@[j].name != encode_utf8(name@),
            decreases n - i,
        {
            let h = &self.0[i];
            proof {
                assert(h@ == self@[i as int]);
            }
            if slice_eq(h.name(), name_bytes) {
                proof {
                    lemma_first_value_at(self@, encode_utf8(name@), i as int);
                }
                let vb = h.value();
                match try_str_from_utf8(vb) {
                    Some(s) => {
                        proof {
                            vstd::utf8::encode_utf8_decode_utf8(s@);
                        }
                        return s;
                    },
                    None => {
                        return vstd::pervasive::unreached();
                    },
                }
            }
            i += 1;
        }
        proof {
            assert(false);
        }
        vstd::pervasive::unreached()
    }

    /// Non-fatal lookup: the first matching entry's value as text, or nothing
    /// when no entry matches or the matching value is not valid UTF-8.
    ///
    /// This is the hardened counterpart of [`Headers::get`], for callers that
    /// cannot promise the precondition.
    pub fn get_opt<'a>(&'a self, name: &str) -> (r: Option<&'a str>)
        ensures
            r is Some <==> has_match(self@, encode_utf8(name@)) && valid_utf8(
                first_value(self@, encode_utf8(name@)),
            ),
            r matches Some(s) ==> encode_utf8(s@) == first_value(self@, encode_utf8(name@))
                && s@ == decode_utf8(first_value(self@, encode_utf8(name@))),
    {
        let name_bytes: &[u8] = name.as_bytes();
        let n: usize = self.0.len();
        let mut i: usize = 0;
        while i < n
            invariant
                n == self.0.len(),
                self@.len() == n,
                0 <= i <= n,
                name_bytes@ == encode_utf8(name@),
                forall|j: int| 0 <= j < i ==> self@[j].name != encode_utf8(name@),
            decreases n - i,
        {
            let h = &self.0[i];
            proof {
                assert(h@ == self@[i as int]);
            }
            if slice_eq(h.name(), name_bytes) {
                proof {
                    lemma_first_value_at(self@, encode_utf8(name@), i as int);
                }
                let vb = h.value();
                match try_str_from_utf8(vb) {
                    Some(_) => {
                        return Some(self.get(name));
                    },
                    None => {
                        return None;
                    },
                }
            }
            i += 1;
        }
        None
    }
}

/// Round-trip law: the bytes taken from any text are valid UTF-8 and decode
/// back to exactly that text, so a part built from a string reads back, via
/// [`HeaderPart::as_text`], as exactly the string it was built from.
pub proof fn lemma_text_round_trip(cs: Seq<char>)
    ensures
        valid_utf8(encode_utf8(cs)),
        decode_utf8(encode_utf8(cs)) == cs,
{
    vstd::utf8::encode_utf8_valid_utf8(cs);
    vstd::utf8::encode_utf8_decode_utf8(cs);
}

} // verus!
