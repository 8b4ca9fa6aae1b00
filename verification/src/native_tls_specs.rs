//! What this library takes on trust about the `native_tls` crate: the
//! contracts below are believed, not proved.
//!
//! The types of `native_tls` are opaque here. Two settings are spoken of and
//! given names: of an acceptor and its builder, the oldest protocol version
//! they agree to; of a connector and its builder, the root certificates that
//! were added. The contracts say what `native_tls` does to them.

use crate::tls::Protocol;
use native_tls::Error as TlsError;
use native_tls::{
    Certificate, Identity, TlsAcceptor, TlsAcceptorBuilder, TlsConnector, TlsConnectorBuilder,
};
use vstd::prelude::*;

verus! {

/// `native_tls::Identity`: a private key with its certificate chain.
#[verifier::external_type_specification]
#[verifier::external_body]
pub struct ExIdentity(native_tls::Identity);

/// `native_tls::Certificate`: an X509 certificate.
#[verifier::external_type_specification]
#[verifier::external_body]
pub struct ExCertificate(native_tls::Certificate);

/// `native_tls::TlsAcceptorBuilder`: the settings of an acceptor under
/// construction.
#[verifier::external_type_specification]
#[verifier::external_body]
pub struct ExTlsAcceptorBuilder(native_tls::TlsAcceptorBuilder);

/// `native_tls::TlsAcceptor`: the TLS context of the accepting side.
#[verifier::external_type_specification]
#[verifier::external_body]
pub struct ExTlsAcceptor(native_tls::TlsAcceptor);

/// `native_tls::TlsConnectorBuilder`: the settings of a connector under
/// construction.
#[verifier::external_type_specification]
#[verifier::external_body]
pub struct ExTlsConnectorBuilder(native_tls::TlsConnectorBuilder);

/// `native_tls::TlsConnector`: the TLS context of the connecting side.
#[verifier::external_type_specification]
#[verifier::external_body]
pub struct ExTlsConnector(native_tls::TlsConnector);

/// `native_tls::TlsStream`: a stream that carries a TLS session.
#[verifier::external_type_specification]
#[verifier::external_body]
#[verifier::reject_recursive_types(S)]
pub struct ExTlsStream<S>(native_tls::TlsStream<S>);

/// `native_tls::HandshakeError`: why a handshake did not lead to a session.
#[verifier::external_type_specification]
#[verifier::external_body]
#[verifier::reject_recursive_types(S)]
pub struct ExHandshakeError<S>(native_tls::HandshakeError<S>);

/// `native_tls::Error`: why a TLS context could not be built.
#[verifier::external_type_specification]
#[verifier::external_body]
pub struct ExTlsError(TlsError);

/// The oldest protocol version that an acceptor built from `builder` will
/// agree to: the builder's `min_protocol` setting. `None` stands for no floor
/// at all.
pub uninterp spec fn builder_floor(builder: TlsAcceptorBuilder) -> Option<Protocol>;

/// The oldest protocol version that `acceptor` agrees to in a handshake: the
/// `min_protocol` setting that it was built with.
pub uninterp spec fn acceptor_floor(acceptor: TlsAcceptor) -> Option<Protocol>;

/// The root certificates that were added to `builder`, in the order in which
/// they were added: the builder's `root_certificates` setting.
pub uninterp spec fn builder_roots(builder: TlsConnectorBuilder) -> Seq<Certificate>;

/// The root certificates of the builder that `connector` was built from: what
/// the connector was asked to trust beside the roots of the platform. This is
/// not the content of the platform's store, which may refuse a certificate;
/// the connector is built without that one.
pub uninterp spec fn connector_roots(connector: TlsConnector) -> Seq<Certificate>;

/// `TlsAcceptor::builder` begins the construction of an acceptor that proves
/// itself with `identity`. Nothing is claimed of the settings it starts with.
#[verifier::external_body]
pub(crate) fn acceptor_builder(identity: Identity) -> (builder: TlsAcceptorBuilder) {
    TlsAcceptor::builder(identity)
}

/// `TlsAcceptorBuilder::min_protocol_version` sets the builder's floor to the
/// version it is given.
#[verifier::external_body]
pub(crate) fn set_min_protocol_version(builder: &mut TlsAcceptorBuilder, floor: Protocol)
    ensures
        builder_floor(*final(builder)) == Some(floor),
{
    let protocol = match floor {
        Protocol::Sslv3 => native_tls::Protocol::Sslv3,
        Protocol::Tlsv10 => native_tls::Protocol::Tlsv10,
        Protocol::Tlsv11 => native_tls::Protocol::Tlsv11,
        Protocol::Tlsv12 => native_tls::Protocol::Tlsv12,
        Protocol::Tlsv13 => native_tls::Protocol::Tlsv13,
    };
    builder.min_protocol_version(Some(protocol));
}

/// `TlsAcceptorBuilder::build` makes an acceptor with the settings of the
/// builder, its floor among them, or fails. When it fails is up to the TLS
/// library of the platform.
#[verifier::external_body]
pub(crate) fn build_acceptor(builder: &TlsAcceptorBuilder) -> (res: Result<TlsAcceptor, TlsError>)
    ensures
        res matches Ok(acceptor) ==> acceptor_floor(acceptor) == builder_floor(*builder),
{
    builder.build()
}

/// Cloning a `TlsAcceptor` gives a second handle on the same TLS context, and
/// so an acceptor with the same floor.
pub assume_specification[ <TlsAcceptor as Clone>::clone ](
    acceptor: &TlsAcceptor,
) -> (res: TlsAcceptor)
    ensures
        acceptor_floor(res) == acceptor_floor(*acceptor),
;

/// `TlsConnector::builder` begins the construction of a connector, with no
/// root certificate added yet. Nothing is claimed of its other settings.
#[verifier::external_body]
pub(crate) fn connector_builder() -> (builder: TlsConnectorBuilder)
    ensures
        builder_roots(builder) == Seq::<Certificate>::empty(),
{
    TlsConnector::builder()
}

/// `TlsConnectorBuilder::add_root_certificate` adds `cert` behind the root
/// certificates that the builder holds already.
#[verifier::external_body]
pub(crate) fn add_root_certificate(builder: &mut TlsConnectorBuilder, cert: Certificate)
    ensures
        builder_roots(*final(builder)) == builder_roots(*old(builder)).push(cert),
{
    builder.add_root_certificate(cert);
}

/// `TlsConnectorBuilder::build` makes a connector from the builder, and so
/// with the builder's root certificates, or fails. When it fails is up to the
/// TLS library of the platform.
#[verifier::external_body]
pub(crate) fn build_connector(builder: &TlsConnectorBuilder) -> (res: Result<
    TlsConnector,
    TlsError,
>)
    ensures
        res matches Ok(connector) ==> connector_roots(connector) == builder_roots(*builder),
{
    builder.build()
}

} // verus!
