use crate::codec::{spec_frame, write_frame};
use crate::crypto::{decrypt_message, encrypt_message, is_sealed_payload, Cipher};
use crate::error::NamedPipeError;
use vstd::prelude::*;
use vstd::slice::slice_to_vec;
use vstd::string::StringSliceAdditionalSpecFns;
use vstd::utf8::{decode_utf8, valid_utf8};

verus! {

/// One end of the message protocol over an owned transport: length-prefixed
/// framing composed with optional authenticated encryption. A client and a
/// server-side connection each hold one, which makes the two sides of the
/// protocol symmetric.
///
/// The transport itself stays with the caller: `encode_message` returns the
/// exact bytes one send puts on the wire, and `decode_message` takes the
/// payload of one frame read from it.
pub struct Channel {
    cipher: Option<Cipher>,
    connected: bool,
}

impl Channel {
    /// Whether the transport of this channel is currently open.
    pub closed spec fn spec_connected(&self) -> bool {
        self.connected
    }

    /// The configured key, when encryption is active.
    pub closed spec fn key_opt(&self) -> Option<Seq<u8>> {
        match self.cipher {
            Some(ref c) => Some(c.key_view()),
            None => None,
        }
    }

    /// Whether encryption is active on this channel.
    pub open spec fn encrypts(&self) -> bool {
        self.key_opt() is Some
    }

    pub open spec fn wf(&self) -> bool {
        self.key_opt() matches Some(k) ==> k.len() == 32
    }

    /// The frames that may carry `msg` on this channel: without a cipher
    /// the frame of `msg` itself, with one the frame of any sealed payload
    /// carrying `msg` (the nonce inside is random, so many frames do).
    pub open spec fn is_wire_frame(&self, wire: Seq<u8>, msg: Seq<u8>) -> bool {
        match self.key_opt() {
            None => wire == spec_frame(msg),
            Some(key) => exists|p: Seq<u8>|
                wire == spec_frame(p) && #[trigger] is_sealed_payload(key, p, msg),
        }
    }

    /// A channel over a not-yet-open transport.
    pub fn new(cipher: Option<Cipher>) -> (c: Channel)
        requires
            cipher matches Some(ci) ==> ci.wf(),
        ensures
            c.wf(),
            !c.spec_connected(),
            cipher matches Some(ci) ==> c.key_opt() == Some(ci.key_view()),
            cipher is None ==> c.key_opt() is None,
    {
        Channel { cipher, connected: false }
    }

    /// Record that the caller has opened the transport of this channel.
    pub fn mark_connected(&mut self)
        ensures
            final(self).spec_connected(),
            final(self).key_opt() == old(self).key_opt(),
    {
        self.connected = true;
    }

    /// Release the transport. Idempotent; afterwards every send or receive
    /// fails with a not-connected error.
    pub fn disconnect(&mut self)
        ensures
            !final(self).spec_connected(),
            final(self).key_opt() == old(self).key_opt(),
    {
        self.connected = false;
    }

    pub fn is_connected(&self) -> (r: bool)
        ensures
            r == self.spec_connected(),
    {
        self.connected
    }

    /// Whether encryption is active; callers that must bound a message's
    /// length before sending test this.
    pub fn is_encrypted(&self) -> (r: bool)
        ensures
            r == self.encrypts(),
    {
        self.cipher.is_some()
    }

    /// The exact bytes that one send writes to the wire for `data`: the
    /// sealed payload when a cipher is configured, else `data` itself, each
    /// behind a length prefix whose value is the payload's byte length.
    /// While connected, encoding always succeeds.
    pub fn encode_message(&self, data: &[u8]) -> (r: Result<Vec<u8>, NamedPipeError>)
        requires
            self.wf(),
            self.encrypts() ==> data@.len() + 28 <= u32::MAX,
            !self.encrypts() ==> data@.len() <= u32::MAX,
        ensures
            !self.spec_connected() ==> (r matches Err(e) && e == NamedPipeError::NotConnected),
            self.spec_connected() ==> r is Ok,
            self.spec_connected() && !self.encrypts() ==> (r matches Ok(w) && w@ == spec_frame(
                data@,
            )),
            self.spec_connected() && self.encrypts() ==> (r matches Ok(w) && w@.len() == data@.len()
                + 32),
            self.spec_connected() ==> (r matches Ok(w) ==> self.is_wire_frame(w@, data@)),
    {
        if !self.connected {
            return Err(NamedPipeError::NotConnected);
        }
        match &self.cipher {
            None => {
                let v = slice_to_vec(data);
                Ok(write_frame(&v))
            },
            Some(c) => {
                let payload = match encrypt_message(c, data) {
                    Ok(p) => p,
                    Err(e) => {
                        return Err(e);
                    },
                };
                let w = write_frame(&payload);
                proof {
                    let key = self.key_opt()->Some_0;
                    assert(w@ == spec_frame(payload@) && is_sealed_payload(key, payload@, data@));
                }
                Ok(w)
            },
        }
    }

    /// Recover the message from the payload of one frame read off the
    /// wire: unseal it when a cipher is configured, else take it as is.
    ///
    /// With a cipher, success happens exactly when the payload carries some
    /// message under this channel's key, and yields that message; nothing
    /// escapes from a tampered or foreign payload.
    pub fn decode_message(&self, body: &[u8]) -> (r: Result<Vec<u8>, NamedPipeError>)
        requires
            self.wf(),
        ensures
            !self.spec_connected() ==> (r matches Err(e) && e == NamedPipeError::NotConnected),
            self.spec_connected() && !self.encrypts() ==> (r matches Ok(p) && p@ == body@),
            self.key_opt() matches Some(key) ==> (self.spec_connected() ==> {
                &&& r matches Ok(p) ==> is_sealed_payload(key, body@, p@)
                &&& forall|msg: Seq<u8>|
                    is_sealed_payload(key, body@, msg) ==> (r matches Ok(q) && q@ == msg)
                &&& r matches Err(e) ==> e == NamedPipeError::Data
            }),
    {
        if !self.connected {
            return Err(NamedPipeError::NotConnected);
        }
        match &self.cipher {
            None => Ok(slice_to_vec(body)),
            Some(c) => decrypt_message(c, body),
        }
    }

    /// The bytes one send writes for a string message: its UTF-8 encoding,
    /// sealed and framed as `encode_message` does. While connected,
    /// encoding always succeeds.
    pub fn encode_string_message(&self, message: &str) -> (r: Result<Vec<u8>, NamedPipeError>)
        requires
            self.wf(),
            self.encrypts() ==> message.spec_bytes().len() + 28 <= u32::MAX,
            !self.encrypts() ==> message.spec_bytes().len() <= u32::MAX,
        ensures
            !self.spec_connected() ==> (r matches Err(e) && e == NamedPipeError::NotConnected),
            self.spec_connected() ==> r is Ok,
            self.spec_connected() && !self.encrypts() ==> (r matches Ok(w) && w@ == spec_frame(
                message.spec_bytes(),
            )),
            self.spec_connected() && self.encrypts() ==> (r matches Ok(w) && w@.len()
                == message.spec_bytes().len() + 32),
            self.spec_connected() ==> (r matches Ok(w) ==> self.is_wire_frame(
                w@,
                message.spec_bytes(),
            )),
    {
        self.encode_message(message.as_bytes())
    }

    /// Recover a string message from the payload of one frame: decode as
    /// `decode_message`, then require the bytes to be valid UTF-8; anything
    /// else is a data error.
    pub fn decode_string_message(&self, body: &[u8]) -> (r: Result<String, NamedPipeError>)
        requires
            self.wf(),
        ensures
            !self.spec_connected() ==> (r matches Err(e) && e == NamedPipeError::NotConnected),
            self.spec_connected() && !self.encrypts() ==> {
                &&& r matches Ok(s) ==> valid_utf8(body@) && s@ == decode_utf8(body@)
                &&& valid_utf8(body@) ==> (r matches Ok(s) && s@ == decode_utf8(body@))
                &&& r matches Err(e) ==> e == NamedPipeError::Data
            },
            self.key_opt() matches Some(key) ==> (self.spec_connected() ==> {
                &&& r matches Ok(s) ==> exists|msg: Seq<u8>|
                    #[trigger] is_sealed_payload(key, body@, msg) && valid_utf8(msg) && s@
                        == decode_utf8(msg)
                &&& forall|msg: Seq<u8>|
                    is_sealed_payload(key, body@, msg) && valid_utf8(msg) ==> (r matches Ok(s)
                        && s@ == decode_utf8(msg))
                &&& r matches Err(e) ==> e == NamedPipeError::Data
            }),
    {
        let bytes = match self.decode_message(body) {
            Ok(b) => b,
            Err(e) => {
                return Err(e);
            },
        };
        match bytes_to_string(bytes) {
            Some(s) => Ok(s),
            None => Err(NamedPipeError::Data),
        }
    }
}

/// Relies on `String::from_utf8`: it succeeds exactly on a valid UTF-8
/// encoding and returns the string those bytes encode.
#[verifier::external_body]
fn bytes_to_string(bytes: Vec<u8>) -> (r: Option<String>)
    ensures
        r matches Some(s) ==> valid_utf8(bytes@) && s@ == decode_utf8(bytes@),
        r is None ==> !valid_utf8(bytes@),
{
    match String::from_utf8(bytes) {
        Ok(s) => Some(s),
        Err(_) => None,
    }
}

} // verus!
