use crate::channel::Channel;
use crate::codec::spec_frame;
use crate::crypto::{spec_default_key, Cipher};
use crate::error::NamedPipeError;
use crate::utils::{format_pipe_name, spec_format_pipe_name, spec_paths_match, verify_same_path};
use vstd::prelude::*;
use vstd::string::StringSliceAdditionalSpecFns;

verus! {

/// A named pipe client.
///
/// It owns the protocol state of one connection: the normalized pipe name,
/// the optional cipher, the identity-enforcement switch and whether a
/// transport is currently open. The caller opens the pipe, performs the
/// reads and writes, and hands every byte through `encode_message` /
/// `decode_message` and their string forms, so that all framing, sealing
/// and identity decisions happen here.
pub struct NamedPipeClientStruct {
    pipe_name: String,
    channel: Channel,
    enforce_same_path_server: bool,
}

impl NamedPipeClientStruct {
    /// The normalized pipe name this client rendezvouses on.
    pub closed spec fn spec_pipe_name(&self) -> Seq<char> {
        self.pipe_name@
    }

    /// The channel state of this client.
    pub closed spec fn spec_channel(&self) -> Channel {
        self.channel
    }

    /// Whether the server's executable path must match the caller's own.
    pub closed spec fn spec_enforce(&self) -> bool {
        self.enforce_same_path_server
    }

    pub open spec fn spec_connected(&self) -> bool {
        self.spec_channel().spec_connected()
    }

    pub open spec fn key_opt(&self) -> Option<Seq<u8>> {
        self.spec_channel().key_opt()
    }

    pub open spec fn encrypts(&self) -> bool {
        self.spec_channel().encrypts()
    }

    pub open spec fn wf(&self) -> bool {
        self.spec_channel().wf()
    }

    /// The frames that may carry `msg` between this client and its server.
    pub open spec fn is_wire_frame(&self, wire: Seq<u8>, msg: Seq<u8>) -> bool {
        self.spec_channel().is_wire_frame(wire, msg)
    }

    /// A new unencrypted client for the given logical pipe name.
    pub fn new(pipe_name: &str) -> (c: Self)
        ensures
            c.wf(),
            c.spec_pipe_name() == spec_format_pipe_name(pipe_name@),
            c.key_opt() is None,
            !c.spec_connected(),
            !c.spec_enforce(),
    {
        NamedPipeClientStruct {
            pipe_name: format_pipe_name(pipe_name),
            channel: Channel::new(None),
            enforce_same_path_server: false,
        }
    }

    /// A new encrypted client. With `None` the compiled-in fallback key is
    /// used; with `Some(key)` the caller's own 256-bit key.
    pub fn new_encrypted(pipe_name: &str, key: Option<&[u8; 32]>) -> (c: Self)
        ensures
            c.wf(),
            c.spec_pipe_name() == spec_format_pipe_name(pipe_name@),
            c.key_opt() == Some(
                match key {
                    Some(k) => k@,
                    None => spec_default_key(),
                },
            ),
            !c.spec_connected(),
            !c.spec_enforce(),
    {
        NamedPipeClientStruct {
            pipe_name: format_pipe_name(pipe_name),
            channel: Channel::new(Some(Cipher::from_key_option(key))),
            enforce_same_path_server: false,
        }
    }

    /// Switch enforcement that the server runs the caller's own executable.
    pub fn enforce_same_path_server(&mut self, enforce: bool)
        ensures
            final(self).spec_enforce() == enforce,
            final(self).spec_pipe_name() == old(self).spec_pipe_name(),
            final(self).spec_channel() == old(self).spec_channel(),
    {
        self.enforce_same_path_server = enforce;
    }

    /// Complete a connect, after the caller has opened the transport.
    ///
    /// `server_path` is the server process's resolved executable path, or
    /// `None` when it could not be resolved; `self_path` is the caller's
    /// own. With enforcement on, a missing or mismatching path fails the
    /// whole connect with an identity error and the transport must be
    /// treated as unusable (fail closed); the paths are ignored otherwise.
    /// A failure to open the transport itself is the caller's I/O error and
    /// never reaches this step.
    pub fn connect(&mut self, server_path: Option<&str>, self_path: &str) -> (r: Result<
        (),
        NamedPipeError,
    >)
        requires
            old(self).wf(),
        ensures
            final(self).wf(),
            final(self).spec_pipe_name() == old(self).spec_pipe_name(),
            final(self).key_opt() == old(self).key_opt(),
            final(self).spec_enforce() == old(self).spec_enforce(),
            !old(self).spec_enforce() ==> r is Ok,
            old(self).spec_enforce() ==> (r is Ok <==> (server_path matches Some(p)
                && spec_paths_match(p.spec_bytes(), self_path.spec_bytes()))),
            final(self).spec_connected() <==> r is Ok,
            r matches Err(e) ==> e == NamedPipeError::Identity,
    {
        self.channel.mark_connected();
        if self.enforce_same_path_server {
            match server_path {
                Some(p) => match verify_same_path(p, self_path) {
                    Ok(()) => Ok(()),
                    Err(_) => {
                        self.channel.disconnect();
                        Err(NamedPipeError::Identity)
                    },
                },
                None => {
                    self.channel.disconnect();
                    Err(NamedPipeError::Identity)
                },
            }
        } else {
            Ok(())
        }
    }

    /// Verify the server's executable path against the caller's own, if
    /// enforcement is enabled; with it disabled this accepts outright.
    pub fn verify_server_path(&self, server_path: Option<&str>, self_path: &str) -> (r: Result<
        (),
        NamedPipeError,
    >)
        ensures
            !self.spec_enforce() ==> r is Ok,
            self.spec_enforce() && !self.spec_connected() ==> (r matches Err(e) && e
                == NamedPipeError::NotConnected),
            self.spec_enforce() && self.spec_connected() ==> (r is Ok <==> (
            server_path matches Some(p) && spec_paths_match(
                p.spec_bytes(),
                self_path.spec_bytes(),
            ))),
            self.spec_enforce() && self.spec_connected() ==> (r matches Err(e) ==> e
                == NamedPipeError::Identity),
    {
        if !self.enforce_same_path_server {
            return Ok(());
        }
        if !self.channel.is_connected() {
            return Err(NamedPipeError::NotConnected);
        }
        match server_path {
            Some(p) => verify_same_path(p, self_path),
            None => Err(NamedPipeError::Identity),
        }
    }

    pub fn is_connected(&self) -> (r: bool)
        ensures
            r == self.spec_connected(),
    {
        self.channel.is_connected()
    }

    /// Release the transport state. Idempotent; afterwards every send or
    /// receive fails with a not-connected error until the next connect.
    pub fn disconnect(&mut self)
        ensures
            !final(self).spec_connected(),
            final(self).key_opt() == old(self).key_opt(),
            final(self).spec_pipe_name() == old(self).spec_pipe_name(),
            final(self).spec_enforce() == old(self).spec_enforce(),
            final(self).wf() == old(self).wf(),
    {
        self.channel.disconnect();
    }

    /// The normalized pipe name.
    pub fn pipe_name(&self) -> (r: &str)
        ensures
            r@ == self.spec_pipe_name(),
    {
        self.pipe_name.as_str()
    }

    /// Whether encryption is active; callers that must bound a message's
    /// length before sending test this.
    pub fn is_encrypted(&self) -> (r: bool)
        ensures
            r == self.encrypts(),
    {
        self.channel.is_encrypted()
    }

    /// The exact bytes one send writes to the wire for `data`. While
    /// connected, encoding always succeeds.
    pub fn encode_message(&self, data: &[u8]) -> (r: Result<Vec<u8>, NamedPipeError>)
        requires
            self.wf(),
            self.encrypts() ==> data@.len() + 28 <= u32::MAX,
            !self.encrypts() ==> data@.len() <= u32::MAX,
        ensures
            !self.spec_connected() ==> (r matches Err(e) && e == NamedPipeError::NotConnected),
            self.spec_connected() ==> r is Ok,
            self.spec_connected() && !self.encrypts() ==> (r matches Ok(w) && w@ == spec_frame(
                data@,
            )),
            self.spec_connected() && self.encrypts() ==> (r matches Ok(w) && w@.len() == data@.len()
                + 32),
            self.spec_connected() ==> (r matches Ok(w) ==> self.is_wire_frame(w@, data@)),
    {
        self.channel.encode_message(data)
    }

    /// Recover the message from the payload of one frame read off the wire.
    pub fn decode_message(&self, body: &[u8]) -> (r: Result<Vec<u8>, NamedPipeError>)
        requires
            self.wf(),
        ensures
            !self.spec_connected() ==> (r matches Err(e) && e == NamedPipeError::NotConnected),
            self.spec_connected() && !self.encrypts() ==> (r matches Ok(p) && p@ == body@),
            self.key_opt() matches Some(key) ==> (self.spec_connected() ==> {
                &&& r matches Ok(p) ==> crate::crypto::is_sealed_payload(key, body@, p@)
                &&& forall|msg: Seq<u8>|
                    crate::crypto::is_sealed_payload(key, body@, msg) ==> (r matches Ok(q) && q@
                        == msg)
                &&& r matches Err(e) ==> e == NamedPipeError::Data
            }),
    {
        self.channel.decode_message(body)
    }

    /// The exact bytes one send writes for a string message. While
    /// connected, encoding always succeeds.
    pub fn encode_string_message(&self, message: &str) -> (r: Result<Vec<u8>, NamedPipeError>)
        requires
            self.wf(),
            self.encrypts() ==> message.spec_bytes().len() + 28 <= u32::MAX,
            !self.encrypts() ==> message.spec_bytes().len() <= u32::MAX,
        ensures
            !self.spec_connected() ==> (r matches Err(e) && e == NamedPipeError::NotConnected),
            self.spec_connected() ==> r is Ok,
            self.spec_connected() && !self.encrypts() ==> (r matches Ok(w) && w@ == spec_frame(
                message.spec_bytes(),
            )),
            self.spec_connected() && self.encrypts() ==> (r matches Ok(w) && w@.len()
                == message.spec_bytes().len() + 32),
            self.spec_connected() ==> (r matches Ok(w) ==> self.is_wire_frame(
                w@,
                message.spec_bytes(),
            )),
    {
        self.channel.encode_string_message(message)
    }

    /// Recover a string message from the payload of one frame.
    pub fn decode_string_message(&self, body: &[u8]) -> (r: Result<String, NamedPipeError>)
        requires
            self.wf(),
        ensures
            !self.spec_connected() ==> (r matches Err(e) && e == NamedPipeError::NotConnected),
            self.spec_connected() && !self.encrypts() ==> {
                &&& r matches Ok(s) ==> vstd::utf8::valid_utf8(body@) && s@
                    == vstd::utf8::decode_utf8(body@)
                &&& vstd::utf8::valid_utf8(body@) ==> (r matches Ok(s) && s@
                    == vstd::utf8::decode_utf8(body@))
                &&& r matches Err(e) ==> e == NamedPipeError::Data
            },
            self.key_opt() matches Some(key) ==> (self.spec_connected() ==> {
                &&& r matches Ok(s) ==> exists|msg: Seq<u8>|
                    #[trigger] crate::crypto::is_sealed_payload(key, body@, msg)
                        && vstd::utf8::valid_utf8(msg) && s@ == vstd::utf8::decode_utf8(msg)
                &&& forall|msg: Seq<u8>|
                    crate::crypto::is_sealed_payload(key, body@, msg) && vstd::utf8::valid_utf8(
                        msg,
                    ) ==> (r matches Ok(s) && s@ == vstd::utf8::decode_utf8(msg))
                &&& r matches Err(e) ==> e == NamedPipeError::Data
            }),
    {
        self.channel.decode_string_message(body)
    }
}

} // verus!
