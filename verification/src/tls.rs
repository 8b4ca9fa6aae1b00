//! The TLS contexts on which sessions are opened.
//!
//! A context is built here, with the settings that the protocol asks for.
//! The handshake itself needs a stream and is the business of whoever owns
//! the stream.

use crate::error::Error;
use crate::native_tls_specs::{
    acceptor_builder, acceptor_floor, add_root_certificate, build_acceptor, build_connector,
    connector_builder, connector_roots, set_min_protocol_version,
};
use native_tls::Error as TlsError;
use native_tls::{Certificate, HandshakeError, Identity, TlsAcceptor, TlsConnector, TlsStream};
use vstd::prelude::*;

verus! {

/// The protocol versions at which a TLS context can be told to begin, oldest
/// first.
#[allow(missing_docs)]
#[derive(Clone, Copy, Debug, PartialEq, Eq, Structural)]
pub enum Protocol {
    Sslv3,
    Tlsv10,
    Tlsv11,
    Tlsv12,
    Tlsv13,
}

/// The oldest protocol version that an acceptor agrees to. A peer that offers
/// nothing from here on up gets no session.
pub const MIN_PROTOCOL_VERSION: Protocol = Protocol::Tlsv12;

/// Turns the failure to build a TLS context into [`Error::TLSFailure`], and
/// hands a context that was built on as it is.
pub fn context_or_failure<T>(built: Result<T, TlsError>) -> (res: Result<T, Error>)
    ensures
        match built {
            Ok(context) => res == Ok::<T, Error>(context),
            Err(_) => res == Err::<T, Error>(Error::TLSFailure),
        },
{
    match built {
        Ok(context) => Ok(context),
        Err(_) => Err(Error::TLSFailure),
    }
}

/// Turns a handshake that did not lead to a session into
/// [`Error::TLSHandshakeFailure`], and hands the stream of one that did on as
/// it is.
pub fn session_or_failure<S>(handshake: Result<TlsStream<S>, HandshakeError<S>>) -> (res: Result<
    TlsStream<S>,
    Error,
>)
    ensures
        match handshake {
            Ok(stream) => res == Ok::<TlsStream<S>, Error>(stream),
            Err(_) => res == Err::<TlsStream<S>, Error>(Error::TLSHandshakeFailure),
        },
{
    match handshake {
        Ok(stream) => Ok(stream),
        Err(_) => Err(Error::TLSHandshakeFailure),
    }
}

/// The accepting side of the handshake: the TLS context with which a target
/// proves its identity to the clients that connect to it.
///
/// Every acceptor is pinned to [`MIN_PROTOCOL_VERSION`]: there is no way to
/// make one that agrees to less. An acceptor holds no state of a handshake.
/// It can be cloned and handed to as many threads as there are connections.
pub struct Acceptor(TlsAcceptor);

impl Clone for Acceptor {
    /// A second handle on the same TLS context, for use by another thread.
    fn clone(&self) -> (res: Acceptor)
        ensures
            res.floor() == self.floor(),
    {
        proof {
            use_type_invariant(self);
        }
        Acceptor(self.0.clone())
    }
}

impl Acceptor {
    #[verifier::type_invariant]
    spec fn pinned(self) -> bool {
        acceptor_floor(self.0) == Some(MIN_PROTOCOL_VERSION)
    }

    /// The oldest protocol version that this acceptor agrees to.
    pub closed spec fn floor(&self) -> Option<Protocol> {
        acceptor_floor(self.0)
    }

    /// Constructs a new acceptor with sane TLS configuration: it agrees to
    /// nothing below [`MIN_PROTOCOL_VERSION`].
    ///
    /// Whether the context can be built from `identity` is up to the TLS
    /// library; where it cannot, the error is [`Error::TLSFailure`].
    pub fn new(identity: Identity) -> (res: Result<Acceptor, Error>)
        ensures
            match res {
                Ok(acceptor) => acceptor.floor() == Some(MIN_PROTOCOL_VERSION),
                Err(e) => e == Error::TLSFailure,
            },
    {
        let mut builder = acceptor_builder(identity);
        set_min_protocol_version(&mut builder, MIN_PROTOCOL_VERSION);
        match context_or_failure(build_acceptor(&builder)) {
            Ok(context) => Ok(Acceptor(context)),
            Err(e) => Err(e),
        }
    }

    /// The TLS context of this acceptor, for the handshake on a stream that
    /// was accepted. It agrees to nothing below [`MIN_PROTOCOL_VERSION`].
    pub fn context(&self) -> (context: &TlsAcceptor)
        ensures
            acceptor_floor(*context) == self.floor(),
            acceptor_floor(*context) == Some(MIN_PROTOCOL_VERSION),
    {
        proof {
            use_type_invariant(self);
        }
        &self.0
    }
}

/// The root certificates that a client's context is built with: the custom
/// certificate alone where one is given, none where none is.
pub open spec fn roots_of(custom_cert: Option<Certificate>) -> Seq<Certificate> {
    match custom_cert {
        Some(cert) => seq![cert],
        None => Seq::<Certificate>::empty(),
    }
}

/// Builds the TLS context of a client. It is asked to trust what the platform
/// trusts, and `custom_cert` besides where one is given: the context is built
/// with exactly that root certificate added, and with none added where none
/// is given.
///
/// Whether the context can be built is up to the TLS library; where it
/// cannot, the error is [`Error::TLSFailure`].
pub fn connector(custom_cert: Option<Certificate>) -> (res: Result<TlsConnector, Error>)
    ensures
        match res {
            Ok(context) => connector_roots(context) == roots_of(custom_cert),
            Err(e) => e == Error::TLSFailure,
        },
{
    let mut builder = connector_builder();
    if let Some(cert) = custom_cert {
        add_root_certificate(&mut builder, cert);
    }
    context_or_failure(build_connector(&builder))
}

} // verus!
