//! Message bodies for the echo and character-count exchanges of the
//! end-to-end harness.
//!
//! Each message is modeled by its message fields alone; putting a message on
//! the wire is the concern of the outside serialization layer, not of this
//! library.
use vstd::prelude::*;

verus! {

/// Request carrying a text payload to be echoed back.
pub struct EchoRequest {
    pub payload: String,
}

impl Default for EchoRequest {
    fn default() -> (r: EchoRequest)
        ensures
            r.payload@ == Seq::<char>::empty(),
    {
        EchoRequest { payload: String::new() }
    }
}

impl Clone for EchoRequest {
    fn clone(&self) -> (r: Self)
        ensures
            r.payload@ == self.payload@,
    {
        EchoRequest { payload: self.payload.clone() }
    }
}

impl PartialEq for EchoRequest {
    fn eq(&self, other: &EchoRequest) -> (r: bool) {
        self.payload == other.payload
    }
}

impl vstd::std_specs::cmp::PartialEqSpecImpl for EchoRequest {
    open spec fn obeys_eq_spec() -> bool {
        true
    }

    open spec fn eq_spec(&self, other: &EchoRequest) -> bool {
        self.payload@ == other.payload@
    }
}

impl EchoRequest {
    /// A fresh request with an empty payload.
    pub fn new() -> (r: EchoRequest)
        ensures
            r.payload@ == Seq::<char>::empty(),
    {
        Default::default()
    }

    /// Resets the payload to empty.
    pub fn clear_payload(&mut self)
        ensures
            final(self).payload@ == Seq::<char>::empty(),
    {
        self.payload = String::new();
    }

    /// Replaces the payload with the given string.
    pub fn set_payload(&mut self, v: String)
        ensures
            final(self).payload@ == v@,
    {
        self.payload = v;
    }

    /// Mutable access to the payload.
    pub fn mut_payload(&mut self) -> (r: &mut String)
        ensures
            (*r)@ == old(self).payload@,
            final(self).payload@ == (*final(r))@,
    {
        &mut self.payload
    }

    /// Takes the payload out, leaving it empty.
    pub fn take_payload(&mut self) -> (r: String)
        ensures
            r@ == old(self).payload@,
            final(self).payload@ == Seq::<char>::empty(),
    {
        let mut tmp = String::new();
        core::mem::swap(&mut tmp, &mut self.payload);
        tmp
    }

    /// Read-only access to the payload.
    pub fn get_payload(&self) -> (r: &str)
        ensures
            r@ == self.payload@,
    {
        self.payload.as_str()
    }
}

/// Response carrying the echoed text payload.
pub struct EchoResponse {
    pub payload: String,
}

impl Default for EchoResponse {
    fn default() -> (r: EchoResponse)
        ensures
            r.payload@ == Seq::<char>::empty(),
    {
        EchoResponse { payload: String::new() }
    }
}

impl Clone for EchoResponse {
    fn clone(&self) -> (r: Self)
        ensures
            r.payload@ == self.payload@,
    {
        EchoResponse { payload: self.payload.clone() }
    }
}

impl PartialEq for EchoResponse {
    fn eq(&self, other: &EchoResponse) -> (r: bool) {
        self.payload == other.payload
    }
}

impl vstd::std_specs::cmp::PartialEqSpecImpl for EchoResponse {
    open spec fn obeys_eq_spec() -> bool {
        true
    }

    open spec fn eq_spec(&self, other: &EchoResponse) -> bool {
        self.payload@ == other.payload@
    }
}

impl EchoResponse {
    /// A fresh response with an empty payload.
    pub fn new() -> (r: EchoResponse)
        ensures
            r.payload@ == Seq::<char>::empty(),
    {
        Default::default()
    }

    /// Resets the payload to empty.
    pub fn clear_payload(&mut self)
        ensures
            final(self).payload@ == Seq::<char>::empty(),
    {
        self.payload = String::new();
    }

    /// Replaces the payload with the given string.
    pub fn set_payload(&mut self, v: String)
        ensures
            final(self).payload@ == v@,
    {
        self.payload = v;
    }

    /// Mutable access to the payload.
    pub fn mut_payload(&mut self) -> (r: &mut String)
        ensures
            (*r)@ == old(self).payload@,
            final(self).payload@ == (*final(r))@,
    {
        &mut self.payload
    }

    /// Takes the payload out, leaving it empty.
    pub fn take_payload(&mut self) -> (r: String)
        ensures
            r@ == old(self).payload@,
            final(self).payload@ == Seq::<char>::empty(),
    {
        let mut tmp = String::new();
        core::mem::swap(&mut tmp, &mut self.payload);
        tmp
    }

    /// Read-only access to the payload.
    pub fn get_payload(&self) -> (r: &str)
        ensures
            r@ == self.payload@,
    {
        self.payload.as_str()
    }
}

/// Request carrying a text part whose characters are to be counted.
pub struct CharCountRequest {
    pub part: String,
}

impl Default for CharCountRequest {
    fn default() -> (r: CharCountRequest)
        ensures
            r.part@ == Seq::<char>::empty(),
    {
        CharCountRequest { part: String::new() }
    }
}

impl Clone for CharCountRequest {
    fn clone(&self) -> (r: Self)
        ensures
            r.part@ == self.part@,
    {
        CharCountRequest { part: self.part.clone() }
    }
}

impl PartialEq for CharCountRequest {
    fn eq(&self, other: &CharCountRequest) -> (r: bool) {
        self.part == other.part
    }
}

impl vstd::std_specs::cmp::PartialEqSpecImpl for CharCountRequest {
    open spec fn obeys_eq_spec() -> bool {
        true
    }

    open spec fn eq_spec(&self, other: &CharCountRequest) -> bool {
        self.part@ == other.part@
    }
}

impl CharCountRequest {
    /// A fresh request with an empty part.
    pub fn new() -> (r: CharCountRequest)
        ensures
            r.part@ == Seq::<char>::empty(),
    {
        Default::default()
    }

    /// Resets the part to empty.
    pub fn clear_part(&mut self)
        ensures
            final(self).part@ == Seq::<char>::empty(),
    {
        self.part = String::new();
    }

    /// Replaces the part with the given string.
    pub fn set_part(&mut self, v: String)
        ensures
            final(self).part@ == v@,
    {
        self.part = v;
    }

    /// Mutable access to the part.
    pub fn mut_part(&mut self) -> (r: &mut String)
        ensures
            (*r)@ == old(self).part@,
            final(self).part@ == (*final(r))@,
    {
        &mut self.part
    }

    /// Takes the part out, leaving it empty.
    pub fn take_part(&mut self) -> (r: String)
        ensures
            r@ == old(self).part@,
            final(self).part@ == Seq::<char>::empty(),
    {
        let mut tmp = String::new();
        core::mem::swap(&mut tmp, &mut self.part);
        tmp
    }

    /// Read-only access to the part.
    pub fn get_part(&self) -> (r: &str)
        ensures
            r@ == self.part@,
    {
        self.part.as_str()
    }
}

/// Response carrying the character count.
pub struct CharCountResponse {
    pub char_count: u64,
}

impl Default for CharCountResponse {
    fn default() -> (r: CharCountResponse)
        ensures
            r.char_count == 0,
    {
        CharCountResponse { char_count: 0 }
    }
}

impl Clone for CharCountResponse {
    fn clone(&self) -> (r: Self)
        ensures
            r.char_count == self.char_count,
    {
        CharCountResponse { char_count: self.char_count }
    }
}

impl PartialEq for CharCountResponse {
    fn eq(&self, other: &CharCountResponse) -> (r: bool) {
        self.char_count == other.char_count
    }
}

impl vstd::std_specs::cmp::PartialEqSpecImpl for CharCountResponse {
    open spec fn obeys_eq_spec() -> bool {
        true
    }

    open spec fn eq_spec(&self, other: &CharCountResponse) -> bool {
        self.char_count == other.char_count
    }
}

impl CharCountResponse {
    /// A fresh response with a zero count.
    pub fn new() -> (r: CharCountResponse)
        ensures
            r.char_count == 0,
    {
        Default::default()
    }

    /// Resets the count to zero.
    pub fn clear_char_count(&mut self)
        ensures
            final(self).char_count == 0,
    {
        self.char_count = 0;
    }

    /// Replaces the count with the given value.
    pub fn set_char_count(&mut self, v: u64)
        ensures
            final(self).char_count == v,
    {
        self.char_count = v;
    }

    /// The current count.
    pub fn get_char_count(&self) -> (r: u64)
        ensures
            r == self.char_count,
    {
        self.char_count
    }
}

} // verus!
