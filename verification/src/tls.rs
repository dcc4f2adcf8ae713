//! Transport choice and the TLS arguments.

use vstd::prelude::*;

verus! {

/// A stream that is either plain or wrapped in TLS.
pub enum MayBeTlsStream<R, T> {
    Raw(R),
    Tls(T),
}

/// The TLS files named on the command line, by their paths `P`.
///
/// The command line only accepts them together: `cert` requires `key`, `key`
/// requires `ca` and `ca` requires `cert`.
#[derive(Debug, Clone, PartialEq, Eq)]
pub struct TlsArgs<P> {
    pub cert: Option<P>,
    pub key: Option<P>,
    pub ca: Option<P>,
}

/// The three TLS files, all present.
#[derive(Debug, Clone, PartialEq, Eq)]
pub struct TlsFiles<P> {
    pub cert: P,
    pub key: P,
    pub ca: P,
}

impl<P> TlsArgs<P> {
    /// The command line's rule: each file requires the next, round the circle,
    /// so either all three are given or none.
    pub open spec fn meets_requirements(&self) -> bool {
        &&& self.cert is Some ==> self.key is Some
        &&& self.key is Some ==> self.ca is Some
        &&& self.ca is Some ==> self.cert is Some
    }

    /// The three files needed to set up TLS, or `None` when one is missing.
    pub fn into_files(self) -> (files: Option<TlsFiles<P>>)
        ensures
            files is Some <==> (self.cert is Some && self.key is Some && self.ca is Some),
            files matches Some(f) ==> (f.cert == self.cert->0 && f.key == self.key->0 && f.ca
                == self.ca->0),
    {
        match (self.cert, self.key, self.ca) {
            (Some(cert), Some(key), Some(ca)) => Some(TlsFiles { cert, key, ca }),
            _ => None,
        }
    }
}

/// Under the command line's rule, the files are there exactly when any one of them is.
pub proof fn lemma_all_or_none<P>(args: TlsArgs<P>)
    requires
        args.meets_requirements(),
    ensures
        (args.cert is Some || args.key is Some || args.ca is Some) <==> (args.cert is Some
            && args.key is Some && args.ca is Some),
{
}

/// How both ends treat their TLS peer: mutual TLS.
#[derive(Debug, Clone, Copy, PartialEq, Eq, Structural)]
pub struct PeerPolicy {
    /// The peer's certificate is verified against the CA store.
    pub verify_peer: bool,
    /// A peer that presents no certificate is refused.
    pub fail_if_no_peer_cert: bool,
    /// TLS sessions are not cached for resumption.
    pub session_cache_off: bool,
    /// The lowest protocol version accepted is SSL 3.
    pub min_version_ssl3: bool,
}

/// The peer policy of this program: the peer must present a certificate that
/// the CA store verifies, no session is cached, and SSL 3 is the lowest version.
pub fn mutual_tls_policy() -> (p: PeerPolicy)
    ensures
        p.verify_peer,
        p.fail_if_no_peer_cert,
        p.session_cache_off,
        p.min_version_ssl3,
{
    PeerPolicy {
        verify_peer: true,
        fail_if_no_peer_cert: true,
        session_cache_off: true,
        min_version_ssl3: true,
    }
}

/// Declares openssl's certificate store; nothing inside it is read.
#[verifier::external_type_specification]
#[verifier::external_body]
pub struct ExX509Store(openssl::x509::store::X509Store);

/// Declares openssl's certificate store builder; nothing inside it is read.
#[verifier::external_type_specification]
#[verifier::external_body]
pub struct ExX509StoreBuilder(openssl::x509::store::X509StoreBuilder);

/// Declares openssl's error type; nothing inside it is read.
#[verifier::external_type_specification]
#[verifier::external_body]
pub struct ExErrorStack(openssl::error::ErrorStack);

/// What a store builder holds: the PEM texts whose certificates were added to it.
pub uninterp spec fn builder_certs(b: openssl::x509::store::X509StoreBuilder) -> Set<Seq<u8>>;

/// What a built store holds: the PEM texts whose certificates were added to it.
pub uninterp spec fn store_certs(s: openssl::x509::store::X509Store) -> Set<Seq<u8>>;

/// Calls `openssl::x509::store::X509StoreBuilder::new` (`X509_STORE_new`), which
/// makes an empty store. Whether the C library's allocation succeeds is not stated.
#[verifier::external_body]
fn store_builder_new() -> (res: Result<
    openssl::x509::store::X509StoreBuilder,
    openssl::error::ErrorStack,
>)
    ensures
        res matches Ok(b) ==> builder_certs(b) == Set::<Seq<u8>>::empty(),
{
    openssl::x509::store::X509StoreBuilder::new()
}

/// Adds the certificate of the PEM text `pem` to the builder: the text is read
/// with `X509::from_pem` (`PEM_read_bio_X509`) into the certificate that
/// `X509StoreBuilder::add_cert` (`X509_STORE_add_cert`) takes. When both
/// succeed the builder also holds that certificate; when either fails it holds
/// what it held. Whether they succeed is not stated: besides the text, it rests
/// on the installed OpenSSL, and for a PEM block marked encrypted OpenSSL asks
/// for a passphrase on the terminal. The openssl crate asserts that the text
/// fits in a C `int`, hence the bound.
#[verifier::external_body]
fn store_add_pem(builder: &mut openssl::x509::store::X509StoreBuilder, pem: &[u8]) -> (res:
    Result<(), openssl::error::ErrorStack>)
    requires
        pem@.len() <= 0x7fff_ffff,
    ensures
        res is Ok ==> builder_certs(*final(builder)) == builder_certs(*old(builder)).insert(pem@),
        res is Err ==> builder_certs(*final(builder)) == builder_certs(*old(builder)),
{
    let cert = openssl::x509::X509::from_pem(pem)?;
    builder.add_cert(cert)
}

/// Calls `X509StoreBuilder::build`, which hands over the store it built; the
/// store holds what the builder held.
#[verifier::external_body]
fn store_build(builder: openssl::x509::store::X509StoreBuilder) -> (res:
    openssl::x509::store::X509Store)
    ensures
        store_certs(res) == builder_certs(builder),
{
    builder.build()
}

/// The store of trusted CAs, holding the certificate of the PEM text `ca_pem`
/// and nothing else. OpenSSL may still refuse the text or fail to allocate
/// the store; then the error comes back.
pub fn ca_store_from_pem(ca_pem: &[u8]) -> (res: Result<
    openssl::x509::store::X509Store,
    openssl::error::ErrorStack,
>)
    requires
        ca_pem@.len() <= 0x7fff_ffff,
    ensures
        res matches Ok(store) ==> store_certs(store) == Set::<Seq<u8>>::empty().insert(ca_pem@),
{
    let mut builder = match store_builder_new() {
        Ok(b) => b,
        Err(e) => return Err(e),
    };
    match store_add_pem(&mut builder, ca_pem) {
        Ok(()) => {},
        Err(e) => return Err(e),
    }
    Ok(store_build(builder))
}

} // verus!
