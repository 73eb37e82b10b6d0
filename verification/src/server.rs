use crate::channel::Channel;
use crate::crypto::{spec_default_key, Cipher};
use crate::error::NamedPipeError;
use crate::utils::{format_pipe_name, spec_format_pipe_name, spec_paths_match, verify_same_path};
use vstd::prelude::*;
use vstd::string::StringSliceAdditionalSpecFns;

verus! {

/// The source of connection identifiers: a counter that hands out each
/// value once, in strictly increasing order, for the life of the listener.
/// The ghost sequence records every id issued so far.
pub struct ConnectionIdAllocator {
    next: u64,
    issued: Ghost<Seq<u64>>,
}

impl ConnectionIdAllocator {
    /// The id the next accept will receive.
    pub closed spec fn spec_next(&self) -> u64 {
        self.next
    }

    /// Every id issued so far, in the order of issue.
    pub closed spec fn issued_ids(&self) -> Seq<u64> {
        self.issued@
    }

    pub open spec fn wf(&self) -> bool {
        &&& forall|i: int, j: int|
            0 <= i < j < self.issued_ids().len() ==> self.issued_ids()[i] < self.issued_ids()[j]
        &&& forall|i: int|
            0 <= i < self.issued_ids().len() ==> self.issued_ids()[i] < self.spec_next()
    }

    pub fn new() -> (a: Self)
        ensures
            a.wf(),
            a.spec_next() == 0,
            a.issued_ids() == Seq::<u64>::empty(),
    {
        ConnectionIdAllocator { next: 0, issued: Ghost(Seq::empty()) }
    }

    /// Hand out the next id and record it as issued.
    pub fn allocate(&mut self) -> (id: u64)
        requires
            old(self).wf(),
            old(self).spec_next() < u64::MAX,
        ensures
            final(self).wf(),
            id == old(self).spec_next(),
            final(self).spec_next() == old(self).spec_next() + 1,
            final(self).issued_ids() == old(self).issued_ids().push(id),
    {
        let id = self.next;
        self.next = self.next + 1;
        let ghost recorded = self.issued@.push(id);
        self.issued = Ghost(recorded);
        proof {
            let prior = old(self).issued_ids();
            assert(recorded == prior.push(id));
            assert forall|i: int, j: int| 0 <= i < j < recorded.len() implies recorded[i]
                < recorded[j] by {
                if j == recorded.len() - 1 {
                    assert(prior[i] < id);
                } else {
                    assert(prior[i] < prior[j]);
                }
            }
            assert forall|i: int| 0 <= i < recorded.len() implies recorded[i] < self.next by {
                if i < recorded.len() - 1 {
                    assert(prior[i] < id);
                }
            }
        }
        id
    }
}

/// Connection-id uniqueness: ids are issued strictly increasing in accept
/// order, so any two issued ids are distinct, however many accepts ran and
/// in whatever interleaving, since the allocator is consulted once each.
pub proof fn lemma_issued_ids_strictly_increasing(a: ConnectionIdAllocator, i: int, j: int)
    requires
        a.wf(),
        0 <= i < j < a.issued_ids().len(),
    ensures
        a.issued_ids()[i] < a.issued_ids()[j],
        a.issued_ids()[i] != a.issued_ids()[j],
{
}

/// A server-side handle to one accepted peer: a unique connection id and a
/// channel configured like the listener that accepted it. The handler the
/// server dispatches to owns it exclusively.
pub struct NamedPipeConnection {
    id: u64,
    channel: Channel,
    verified: bool,
}

impl NamedPipeConnection {
    /// The unique id this connection was assigned at accept time.
    pub closed spec fn spec_id(&self) -> u64 {
        self.id
    }

    /// Whether the peer's identity was verified at accept time. Set
    /// exactly when the accepting server enforced the client's path, since
    /// a mismatch then never becomes a connection.
    pub closed spec fn spec_verified(&self) -> bool {
        self.verified
    }

    pub fn verified(&self) -> (r: bool)
        ensures
            r == self.spec_verified(),
    {
        self.verified
    }

    pub closed spec fn spec_channel(&self) -> Channel {
        self.channel
    }

    pub open spec fn spec_connected(&self) -> bool {
        self.spec_channel().spec_connected()
    }

    pub open spec fn key_opt(&self) -> Option<Seq<u8>> {
        self.spec_channel().key_opt()
    }

    pub open spec fn encrypts(&self) -> bool {
        self.spec_channel().encrypts()
    }

    pub open spec fn wf(&self) -> bool {
        self.spec_channel().wf()
    }

    /// The frames that may carry `msg` on this connection.
    pub open spec fn is_wire_frame(&self, wire: Seq<u8>, msg: Seq<u8>) -> bool {
        self.spec_channel().is_wire_frame(wire, msg)
    }

    pub fn id(&self) -> (r: u64)
        ensures
            r == self.spec_id(),
    {
        self.id
    }

    pub fn is_connected(&self) -> (r: bool)
        ensures
            r == self.spec_connected(),
    {
        self.channel.is_connected()
    }

    /// Release the transport state. Idempotent; afterwards every send or
    /// receive fails with a not-connected error.
    pub fn disconnect(&mut self)
        ensures
            !final(self).spec_connected(),
            final(self).key_opt() == old(self).key_opt(),
            final(self).spec_id() == old(self).spec_id(),
            final(self).spec_verified() == old(self).spec_verified(),
    {
        self.channel.disconnect();
    }

    /// Whether encryption is active; callers that must bound a message's
    /// length before sending test this.
    pub fn is_encrypted(&self) -> (r: bool)
        ensures
            r == self.encrypts(),
    {
        self.channel.is_encrypted()
    }

    /// The exact bytes one send writes to the wire for `data`. While
    /// connected, encoding always succeeds.
    pub fn encode_message(&self, data: &[u8]) -> (r: Result<Vec<u8>, NamedPipeError>)
        requires
            self.wf(),
            self.encrypts() ==> data@.len() + 28 <= u32::MAX,
            !self.encrypts() ==> data@.len() <= u32::MAX,
        ensures
            !self.spec_connected() ==> (r matches Err(e) && e == NamedPipeError::NotConnected),
            self.spec_connected() ==> r is Ok,
            self.spec_connected() && !self.encrypts() ==> (r matches Ok(w) && w@
                == crate::codec::spec_frame(data@)),
            self.spec_connected() && self.encrypts() ==> (r matches Ok(w) && w@.len() == data@.len()
                + 32),
            self.spec_connected() ==> (r matches Ok(w) ==> self.is_wire_frame(w@, data@)),
    {
        self.channel.encode_message(data)
    }

    /// Recover the message from the payload of one frame read off the wire.
    pub fn decode_message(&self, body: &[u8]) -> (r: Result<Vec<u8>, NamedPipeError>)
        requires
            self.wf(),
        ensures
            !self.spec_connected() ==> (r matches Err(e) && e == NamedPipeError::NotConnected),
            self.spec_connected() && !self.encrypts() ==> (r matches Ok(p) && p@ == body@),
            self.key_opt() matches Some(key) ==> (self.spec_connected() ==> {
                &&& r matches Ok(p) ==> crate::crypto::is_sealed_payload(key, body@, p@)
                &&& forall|msg: Seq<u8>|
                    crate::crypto::is_sealed_payload(key, body@, msg) ==> (r matches Ok(q) && q@
                        == msg)
                &&& r matches Err(e) ==> e == NamedPipeError::Data
            }),
    {
        self.channel.decode_message(body)
    }

    /// The exact bytes one send writes for a string message. While
    /// connected, encoding always succeeds.
    pub fn encode_string_message(&self, message: &str) -> (r: Result<Vec<u8>, NamedPipeError>)
        requires
            self.wf(),
            self.encrypts() ==> message.spec_bytes().len() + 28 <= u32::MAX,
            !self.encrypts() ==> message.spec_bytes().len() <= u32::MAX,
        ensures
            !self.spec_connected() ==> (r matches Err(e) && e == NamedPipeError::NotConnected),
            self.spec_connected() ==> r is Ok,
            self.spec_connected() && !self.encrypts() ==> (r matches Ok(w) && w@
                == crate::codec::spec_frame(message.spec_bytes())),
            self.spec_connected() && self.encrypts() ==> (r matches Ok(w) && w@.len()
                == message.spec_bytes().len() + 32),
            self.spec_connected() ==> (r matches Ok(w) ==> self.is_wire_frame(
                w@,
                message.spec_bytes(),
            )),
    {
        self.channel.encode_string_message(message)
    }

    /// Recover a string message from the payload of one frame.
    pub fn decode_string_message(&self, body: &[u8]) -> (r: Result<String, NamedPipeError>)
        requires
            self.wf(),
        ensures
            !self.spec_connected() ==> (r matches Err(e) && e == NamedPipeError::NotConnected),
            self.spec_connected() && !self.encrypts() ==> {
                &&& r matches Ok(s) ==> vstd::utf8::valid_utf8(body@) && s@
                    == vstd::utf8::decode_utf8(body@)
                &&& vstd::utf8::valid_utf8(body@) ==> (r matches Ok(s) && s@
                    == vstd::utf8::decode_utf8(body@))
                &&& r matches Err(e) ==> e == NamedPipeError::Data
            },
            self.key_opt() matches Some(key) ==> (self.spec_connected() ==> {
                &&& r matches Ok(s) ==> exists|msg: Seq<u8>|
                    #[trigger] crate::crypto::is_sealed_payload(key, body@, msg)
                        && vstd::utf8::valid_utf8(msg) && s@ == vstd::utf8::decode_utf8(msg)
                &&& forall|msg: Seq<u8>|
                    crate::crypto::is_sealed_payload(key, body@, msg) && vstd::utf8::valid_utf8(
                        msg,
                    ) ==> (r matches Ok(s) && s@ == vstd::utf8::decode_utf8(msg))
                &&& r matches Err(e) ==> e == NamedPipeError::Data
            }),
    {
        self.channel.decode_string_message(body)
    }
}

/// A named pipe server: the listener configuration and the connection-id
/// counter shared by every accept.
///
/// The caller runs the accept loop: it creates a pipe instance, waits for a
/// client, resolves the client's executable path when enforcement is on,
/// and hands the outcome to `accept_connection`, which makes the identity
/// decision and, on success, assigns the unique id and builds the
/// `NamedPipeConnection` that the caller dispatches to its handler. A
/// rejected client's transport is simply closed by the caller; no protocol
/// frame explains the rejection. A handler's failure is contained to its
/// connection and never reaches this state.
pub struct NamedPipeServerStruct {
    pipe_name: String,
    cipher: Option<Cipher>,
    enforce_same_path_client: bool,
    ids: ConnectionIdAllocator,
}

impl NamedPipeServerStruct {
    /// The normalized pipe name this server listens on.
    pub closed spec fn spec_pipe_name(&self) -> Seq<char> {
        self.pipe_name@
    }

    /// The configured key, when accepted connections are encrypted.
    pub closed spec fn key_opt(&self) -> Option<Seq<u8>> {
        match self.cipher {
            Some(ref c) => Some(c.key_view()),
            None => None,
        }
    }

    /// Whether each client's executable path must match the caller's own.
    pub closed spec fn spec_enforce(&self) -> bool {
        self.enforce_same_path_client
    }

    /// The id counter of this listener.
    pub closed spec fn spec_ids(&self) -> ConnectionIdAllocator {
        self.ids
    }

    pub open spec fn wf(&self) -> bool {
        &&& self.key_opt() matches Some(k) ==> k.len() == 32
        &&& self.spec_ids().wf()
    }

    /// Whether another id can still be assigned.
    pub open spec fn spec_can_accept(&self) -> bool {
        self.spec_ids().spec_next() < u64::MAX
    }

    /// Whether another id can still be assigned; callers test this before
    /// each accept.
    pub fn can_accept(&self) -> (r: bool)
        ensures
            r == self.spec_can_accept(),
    {
        self.ids.next < u64::MAX
    }

    /// A new unencrypted server for the given logical pipe name.
    pub fn new(pipe_name: &str) -> (s: Self)
        ensures
            s.wf(),
            s.spec_pipe_name() == spec_format_pipe_name(pipe_name@),
            s.key_opt() is None,
            !s.spec_enforce(),
            s.spec_ids().spec_next() == 0,
            s.spec_ids().issued_ids() == Seq::<u64>::empty(),
    {
        NamedPipeServerStruct {
            pipe_name: format_pipe_name(pipe_name),
            cipher: None,
            enforce_same_path_client: false,
            ids: ConnectionIdAllocator::new(),
        }
    }

    /// A new encrypted server. With `None` the compiled-in fallback key is
    /// used; with `Some(key)` the caller's own 256-bit key.
    pub fn new_encrypted(pipe_name: &str, key: Option<&[u8; 32]>) -> (s: Self)
        ensures
            s.wf(),
            s.spec_pipe_name() == spec_format_pipe_name(pipe_name@),
            s.key_opt() == Some(
                match key {
                    Some(k) => k@,
                    None => spec_default_key(),
                },
            ),
            !s.spec_enforce(),
            s.spec_ids().spec_next() == 0,
            s.spec_ids().issued_ids() == Seq::<u64>::empty(),
    {
        NamedPipeServerStruct {
            pipe_name: format_pipe_name(pipe_name),
            cipher: Some(Cipher::from_key_option(key)),
            enforce_same_path_client: false,
            ids: ConnectionIdAllocator::new(),
        }
    }

    /// Switch enforcement that each client runs the caller's own
    /// executable.
    pub fn enforce_same_path_client(&mut self, enforce: bool)
        ensures
            final(self).spec_enforce() == enforce,
            final(self).spec_pipe_name() == old(self).spec_pipe_name(),
            final(self).key_opt() == old(self).key_opt(),
            final(self).spec_ids() == old(self).spec_ids(),
    {
        self.enforce_same_path_client = enforce;
    }

    /// The normalized pipe name.
    pub fn pipe_name(&self) -> (r: &str)
        ensures
            r@ == self.spec_pipe_name(),
    {
        self.pipe_name.as_str()
    }

    /// Decide one accepted transport, before any message is exchanged.
    ///
    /// `client_path` is the connecting client's resolved executable path,
    /// or `None` when it could not be resolved; `self_path` is the
    /// caller's own. With enforcement on, a missing or mismatching path is
    /// rejected with an identity error, no id is consumed, and the caller
    /// closes the transport and loops again without invoking the handler.
    /// On success the next id is assigned — exactly once, atomically with
    /// respect to this `&mut` borrow — and the returned connection owns
    /// the configured cipher over an open transport.
    pub fn accept_connection(&mut self, client_path: Option<&str>, self_path: &str) -> (r: Result<
        NamedPipeConnection,
        NamedPipeError,
    >)
        requires
            old(self).wf(),
            old(self).spec_can_accept(),
        ensures
            final(self).wf(),
            final(self).spec_pipe_name() == old(self).spec_pipe_name(),
            final(self).key_opt() == old(self).key_opt(),
            final(self).spec_enforce() == old(self).spec_enforce(),
            !old(self).spec_enforce() ==> r is Ok,
            old(self).spec_enforce() ==> (r is Ok <==> (client_path matches Some(p)
                && spec_paths_match(p.spec_bytes(), self_path.spec_bytes()))),
            r matches Ok(conn) ==> {
                &&& conn.wf()
                &&& conn.spec_connected()
                &&& conn.spec_verified() == old(self).spec_enforce()
                &&& conn.key_opt() == old(self).key_opt()
                &&& conn.spec_id() == old(self).spec_ids().spec_next()
                &&& final(self).spec_ids().spec_next() == old(self).spec_ids().spec_next() + 1
                &&& final(self).spec_ids().issued_ids() == old(self).spec_ids().issued_ids().push(
                    conn.spec_id(),
                )
            },
            r matches Err(e) ==> e == NamedPipeError::Identity && final(self).spec_ids() == old(
                self,
            ).spec_ids(),
    {
        if self.enforce_same_path_client {
            let ok = match client_path {
                Some(p) => verify_same_path(p, self_path).is_ok(),
                None => false,
            };
            if !ok {
                return Err(NamedPipeError::Identity);
            }
        }
        let id = self.ids.allocate();
        let cipher = match &self.cipher {
            Some(c) => Some(c.duplicate()),
            None => None,
        };
        let mut channel = Channel::new(cipher);
        channel.mark_connected();
        Ok(NamedPipeConnection { id, channel, verified: self.enforce_same_path_client })
    }
}

} // verus!
