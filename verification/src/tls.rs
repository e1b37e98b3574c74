//! Secure-transport layer model: client configuration with server-name
//! indication, the certificate-policy flag, and the checked single-use
//! buffer pair that one handshake at a time may hold.
//!
//! The handshake itself runs over the byte transport outside this library;
//! everything the library decides — sizing, configuration, exclusive buffer
//! ownership — is here, under contract.

use vstd::prelude::*;

verus! {

/// Largest protocol record carried in one read, in bytes.
pub const TLS_MAX_RECORD_LEN: usize = 16384;

/// Record header overhead, in bytes.
pub const TLS_RECORD_HEADER_LEN: usize = 5;

/// Authentication-tag overhead of the AEAD cipher, in bytes.
pub const TLS_AEAD_TAG_LEN: usize = 16;

/// Read buffer size: covers a full record plus header and tag overhead,
/// with margin.
pub const TLS_READ_BUF_SIZE: usize = 18 * 1024;

/// Write buffer size: covers the largest outgoing record.
pub const TLS_WRITE_BUF_SIZE: usize = 16 * 1024;

/// Errors of the secure-transport layer.
#[derive(Debug, Clone, Copy, PartialEq, Eq, Structural)]
pub enum TlsError {
    /// The handshake was rejected or failed.
    HandshakeFailed,
    /// Certificate verification failed.
    CertificateError,
    /// The peer sent an alert.
    AlertReceived,
    /// The connection closed unexpectedly.
    ConnectionClosed,
}

/// Transport configuration of the experimental direct client.
pub struct TlsConfig {
    /// Server hostname, carried in the server-name indication.
    pub server_name: &'static str,
    /// Server port.
    pub server_port: u16,
    /// Whether the server certificate must verify.  `false` selects the
    /// accept-all policy, which is for bring-up only and unsafe for
    /// production use.
    pub verify_server: bool,
}

impl Default for TlsConfig {
    /// Bring-up defaults against a public broker, without verification.
    fn default() -> (r: TlsConfig)
        ensures
            r.server_name@ == "test.mosquitto.org"@,
            r.server_port == 8883,
            !r.verify_server,
    {
        TlsConfig { server_name: "test.mosquitto.org", server_port: 8883, verify_server: false }
    }
}

/// Configuration of the secure-transport client.
pub struct TlsClientConfig {
    /// Server hostname, carried in the server-name indication.
    pub server_name: &'static str,
    /// Server port.
    pub server_port: u16,
    /// Whether the server certificate must verify.  `false` selects the
    /// accept-all policy, which is for bring-up only and unsafe for
    /// production use.
    pub verify_server: bool,
}

impl Default for TlsClientConfig {
    /// Bring-up defaults against a public broker, without verification.
    fn default() -> (r: TlsClientConfig)
        ensures
            r.server_name@ == "broker.emqx.io"@,
            r.server_port == 8883,
            !r.verify_server,
    {
        TlsClientConfig { server_name: "broker.emqx.io", server_port: 8883, verify_server: false }
    }
}

/// The secure-transport client.
pub struct TlsClient {
    /// The active configuration.
    pub config: TlsClientConfig,
}

impl TlsClient {
    /// Client over the given configuration.
    pub fn new(config: TlsClientConfig) -> (r: TlsClient)
        ensures
            r.config.server_name == config.server_name,
            r.config.server_port == config.server_port,
            r.config.verify_server == config.verify_server,
    {
        TlsClient { config }
    }
}

/// Law: the configured buffer sizes cover what the protocol demands — a
/// full record with header and tag on the read side, and the largest
/// outgoing record on the write side.
pub proof fn lemma_buffer_sizing()
    ensures
        TLS_READ_BUF_SIZE >= TLS_MAX_RECORD_LEN + TLS_RECORD_HEADER_LEN + TLS_AEAD_TAG_LEN,
        TLS_WRITE_BUF_SIZE >= TLS_MAX_RECORD_LEN,
{
}

/// A zero-filled buffer of the asked-for size.
fn zeroed_buffer(n: usize) -> (r: Vec<u8>)
    ensures
        r@.len() == n,
{
    let mut v: Vec<u8> = Vec::new();
    let mut i: usize = 0;
    while i < n
        invariant
            0 <= i <= n,
            v@.len() == i,
        decreases n - i,
    {
        v.push(0);
        i = i + 1;
    }
    v
}

/// The single-use buffer pair of the secure transport, behind an explicit
/// in-use flag: a second acquisition while one session holds the buffers
/// is rejected instead of silently aliasing them.
pub struct TlsBufferPool {
    read_buf: Vec<u8>,
    write_buf: Vec<u8>,
    in_use: bool,
}

impl TlsBufferPool {
    /// The buffers kept by an idle pool have their configured sizes.
    pub closed spec fn wf(self) -> bool {
        !self.in_use ==> self.read_buf@.len() == TLS_READ_BUF_SIZE && self.write_buf@.len()
            == TLS_WRITE_BUF_SIZE
    }

    /// Whether a session currently holds the pair.
    pub closed spec fn spec_in_use(self) -> bool {
        self.in_use
    }

    /// Whether a session currently holds the pair.
    pub fn is_in_use(&self) -> (r: bool)
        ensures
            r == self.spec_in_use(),
    {
        self.in_use
    }

    /// A fresh pool: buffers allocated, nobody holding them.
    pub fn new() -> (r: TlsBufferPool)
        ensures
            r.wf(),
            !r.spec_in_use(),
    {
        TlsBufferPool {
            read_buf: zeroed_buffer(TLS_READ_BUF_SIZE),
            write_buf: zeroed_buffer(TLS_WRITE_BUF_SIZE),
            in_use: false,
        }
    }

    /// Hand the pair to one session.  While a session already holds it the
    /// acquisition is refused and the pool is left as it was.
    pub fn tls_buffers(&mut self) -> (r: Option<(Vec<u8>, Vec<u8>)>)
        requires
            old(self).wf(),
        ensures
            final(self).wf(),
            old(self).spec_in_use() ==> r is None && *final(self) == *old(self),
            !old(self).spec_in_use() ==> (r matches Some(bufs) && bufs.0@.len()
                == TLS_READ_BUF_SIZE && bufs.1@.len() == TLS_WRITE_BUF_SIZE
                && final(self).spec_in_use()),
    {
        if self.in_use {
            return None;
        }
        self.in_use = true;
        let mut read_buf: Vec<u8> = Vec::new();
        let mut write_buf: Vec<u8> = Vec::new();
        core::mem::swap(&mut read_buf, &mut self.read_buf);
        core::mem::swap(&mut write_buf, &mut self.write_buf);
        Some((read_buf, write_buf))
    }

    /// Take the pair back once the session is torn down.
    pub fn release(&mut self, read_buf: Vec<u8>, write_buf: Vec<u8>)
        requires
            read_buf@.len() == TLS_READ_BUF_SIZE,
            write_buf@.len() == TLS_WRITE_BUF_SIZE,
        ensures
            final(self).wf(),
            !final(self).spec_in_use(),
    {
        self.read_buf = read_buf;
        self.write_buf = write_buf;
        self.in_use = false;
    }
}

/// One live secure session: the exclusive owner of the buffer pair for as
/// long as it exists.  It can only be created by taking the pair out of
/// the pool, and the pair only returns to the pool when the session is
/// torn down, so a second concurrent session per pool cannot be built.
pub struct SecureSession {
    read_buf: Vec<u8>,
    write_buf: Vec<u8>,
}

impl SecureSession {
    /// The buffers a session holds have their configured sizes.
    pub closed spec fn wf(self) -> bool {
        self.read_buf@.len() == TLS_READ_BUF_SIZE && self.write_buf@.len() == TLS_WRITE_BUF_SIZE
    }

    /// Begin a session by taking the pool's buffer pair.  While another
    /// session holds it, the attempt is refused and the pool untouched.
    pub fn establish(pool: &mut TlsBufferPool) -> (r: Option<SecureSession>)
        requires
            old(pool).wf(),
        ensures
            final(pool).wf(),
            old(pool).spec_in_use() ==> r is None && *final(pool) == *old(pool),
            !old(pool).spec_in_use() ==> (r matches Some(session) && session.wf()
                && final(pool).spec_in_use()),
    {
        match pool.tls_buffers() {
            None => None,
            Some((read_buf, write_buf)) => Some(SecureSession { read_buf, write_buf }),
        }
    }

    /// Tear the session down and hand the buffer pair back to the pool.
    pub fn teardown(self, pool: &mut TlsBufferPool)
        requires
            self.wf(),
        ensures
            final(pool).wf(),
            !final(pool).spec_in_use(),
    {
        pool.release(self.read_buf, self.write_buf);
    }
}

} // verus!
