//! Loading the trusted root certificates for TLS connections to the cluster
//! from a PEM file's contents.

use vstd::prelude::*;

verus! {

/// `rustls::RootCertStore`, carried through as an opaque value.
#[verifier::external_type_specification]
#[verifier::external_body]
pub struct ExRootCertStore(rustls::RootCertStore);

/// `rustls::ClientConfig`, carried through as an opaque value.
#[verifier::external_type_specification]
#[verifier::external_body]
pub struct ExClientConfig(rustls::ClientConfig);

/// The items that `rustls_pemfile::certs` yields for a PEM text, up to and
/// including the first error: each certificate's DER bytes, or the error's
/// message.
pub uninterp spec fn pem_certificate_items(pem: Seq<u8>) -> Seq<Result<Seq<u8>, Seq<char>>>;

/// A trust anchor taken by value: the DER bytes of its subject, of its
/// subject public key info, and of its name constraints when it has some.
pub type AnchorView = (Seq<u8>, Seq<u8>, Option<Seq<u8>>);

/// What `RootCertStore::add` makes of a DER certificate: the trust anchor
/// that `anchor_from_trusted_cert` extracts from it, or the message of the
/// error it fails with.
pub uninterp spec fn root_cert_anchor(der: Seq<u8>) -> Result<AnchorView, Seq<char>>;

/// The trust anchor of a certificate that `RootCertStore::add` accepts.
pub open spec fn accepted_anchor(der: Seq<u8>) -> AnchorView {
    match root_cert_anchor(der) {
        Ok(a) => a,
        Err(_) => (Seq::empty(), Seq::empty(), None),
    }
}

/// The message with which `RootCertStore::add` rejects a certificate, if it
/// does.
pub open spec fn rejection_message(der: Seq<u8>) -> Option<Seq<char>> {
    match root_cert_anchor(der) {
        Ok(_) => None,
        Err(m) => Some(m),
    }
}

/// The trust anchors that a root store holds (its `roots`), in order.
pub uninterp spec fn root_store_anchors(store: rustls::RootCertStore) -> Seq<AnchorView>;

/// The trust anchors that a client configuration verifies servers against.
pub uninterp spec fn client_config_roots(config: rustls::ClientConfig) -> Seq<AnchorView>;

/// Whether a client configuration can present a client certificate.
pub uninterp spec fn client_config_offers_client_cert(config: rustls::ClientConfig) -> bool;

/// A PEM item taken by value.
pub open spec fn item_view(item: Result<Vec<u8>, String>) -> Result<Seq<u8>, Seq<char>> {
    match item {
        Ok(der) => Ok(der@),
        Err(e) => Err(e@),
    }
}

/// Calls `rustls_pemfile::certs` on the PEM text and collects the items it
/// yields, each certificate as its DER bytes and each error as its message,
/// stopping after the first error. The contract claims only that these are the
/// items that function yields for these bytes.
#[verifier::external_body]
fn pem_certificates(pem: &[u8]) -> (r: Vec<Result<Vec<u8>, String>>)
    ensures
        r@.map_values(|i: Result<Vec<u8>, String>| item_view(i)) == pem_certificate_items(pem@),
{
    let mut reader: &[u8] = pem;
    let mut out = Vec::new();
    for item in rustls_pemfile::certs(&mut reader) {
        let stop = item.is_err();
        out.push(item.map(|c| c.as_ref().to_vec()).map_err(|e| e.to_string()));
        if stop {
            break ;
        }
    }
    out
}

/// Calls `rustls::RootCertStore::empty`: a store holding no certificate.
#[verifier::external_body]
fn root_store_empty() -> (r: rustls::RootCertStore)
    ensures
        root_store_anchors(r) == Seq::<AnchorView>::empty(),
{
    rustls::RootCertStore::empty()
}

/// Calls `rustls::RootCertStore::add` with the DER bytes. As its source shows,
/// it either extracts the certificate's trust anchor and appends it to the
/// store's roots, or fails with the extraction error and leaves the store as
/// it was; which one depends on the bytes alone.
#[verifier::external_body]
fn root_store_add(store: &mut rustls::RootCertStore, der: Vec<u8>) -> (r: Result<(), String>)
    ensures
        r is Ok <==> root_cert_anchor(der@) is Ok,
        r is Ok ==> root_store_anchors(*final(store)) == root_store_anchors(*old(store)).push(
            accepted_anchor(der@),
        ),
        r matches Err(m) ==> rejection_message(der@) == Some(m@) && root_store_anchors(
            *final(store),
        ) == root_store_anchors(*old(store)),
{
    store.add(rustls::pki_types::CertificateDer::from(der)).map_err(|e| e.to_string())
}

/// Calls `rustls::ClientConfig::builder()`, then `with_root_certificates`
/// with the store and `with_no_client_auth`: a client configuration with the
/// process-default crypto provider and default protocol versions that verifies
/// servers against these roots and presents no client certificate. The three
/// calls go together because the builder between them is never held apart.
/// `builder()` panics only when no provider can be told from the crate
/// features and none was installed; this crate builds `rustls` with exactly
/// one provider feature, so it does not. As the source shows, the server
/// verifier it installs holds the store's roots, and the resolver that
/// `with_no_client_auth` installs never offers a client certificate.
#[verifier::external_body]
fn client_config_with_roots(roots: rustls::RootCertStore) -> (r: rustls::ClientConfig)
    ensures
        client_config_roots(r) == root_store_anchors(roots),
        !client_config_offers_client_cert(r),
{
    rustls::ClientConfig::builder().with_root_certificates(roots).with_no_client_auth()
}

/// Why the root certificates could not be loaded.
#[derive(Debug)]
pub enum TlsError {
    /// A PEM section could not be read; the reader's message.
    Parse(String),
    /// A certificate was not accepted as a trust anchor; the store's message.
    Add(String),
    /// The file holds no certificate.
    NoCertificates,
}

/// A load error taken by value.
pub enum TlsErrorView {
    Parse(Seq<char>),
    Add(Seq<char>),
    NoCertificates,
}

impl View for TlsError {
    type V = TlsErrorView;

    open spec fn view(&self) -> TlsErrorView {
        match self {
            TlsError::Parse(m) => TlsErrorView::Parse(m@),
            TlsError::Add(m) => TlsErrorView::Add(m@),
            TlsError::NoCertificates => TlsErrorView::NoCertificates,
        }
    }
}

/// The trust anchors of the certificates accepted while going through PEM
/// items in order, or the first failure: a read error, or a certificate the
/// store does not accept.
pub open spec fn scan_items(items: Seq<Result<Seq<u8>, Seq<char>>>) -> Result<
    Seq<AnchorView>,
    TlsErrorView,
>
    decreases items.len(),
{
    if items.len() == 0 {
        Ok(Seq::empty())
    } else {
        match items[0] {
            Err(m) => Err(TlsErrorView::Parse(m)),
            Ok(der) => match root_cert_anchor(der) {
                Err(m) => Err(TlsErrorView::Add(m)),
                Ok(a) => match scan_items(items.drop_first()) {
                    Ok(rest) => Ok(seq![a] + rest),
                    Err(e) => Err(e),
                },
            },
        }
    }
}

/// The outcome of loading roots from the items read from a PEM text: the
/// trust anchors of the certificates, all accepted, and at least one; or the
/// first failure.
pub open spec fn roots_outcome(items: Seq<Result<Seq<u8>, Seq<char>>>) -> Result<
    Seq<AnchorView>,
    TlsErrorView,
> {
    match scan_items(items) {
        Ok(anchors) => if anchors.len() == 0 {
            Err(TlsErrorView::NoCertificates)
        } else {
            Ok(anchors)
        },
        Err(e) => Err(e),
    }
}

/// The outcome of loading roots from a PEM text.
pub open spec fn load_outcome(pem: Seq<u8>) -> Result<Seq<AnchorView>, TlsErrorView> {
    roots_outcome(pem_certificate_items(pem))
}

/// The items read from a PEM text taken by value.
pub open spec fn items_view(items: Seq<Result<Vec<u8>, String>>) -> Seq<Result<Seq<u8>, Seq<char>>> {
    items.map_values(|i: Result<Vec<u8>, String>| item_view(i))
}

/// Going through the items from an accepted certificate at `i` gives that
/// certificate followed by what the rest gives.
proof fn lemma_scan_split(items: Seq<Result<Seq<u8>, Seq<char>>>, i: int)
    requires
        0 <= i < items.len(),
        items[i] is Ok,
        root_cert_anchor(items[i]->Ok_0) is Ok,
    ensures
        scan_items(items.subrange(i, items.len() as int)) == match scan_items(
            items.subrange(i + 1, items.len() as int),
        ) {
            Ok(rest) => Ok(seq![accepted_anchor(items[i]->Ok_0)] + rest),
            Err(e) => Err(e),
        },
{
    assert(items.subrange(i, items.len() as int).drop_first() =~= items.subrange(
        i + 1,
        items.len() as int,
    ));
}

/// Builds the root store from the contents of a PEM file: every certificate
/// in it is added in order; the first section that cannot be read, or the
/// first certificate that is not accepted, ends the load with that error; a
/// file with no certificate is an error too.
pub fn root_store_from_pem(pem: &[u8]) -> (r: Result<rustls::RootCertStore, TlsError>)
    ensures
        r is Ok <==> load_outcome(pem@) is Ok,
        r matches Ok(store) ==> load_outcome(pem@) == Ok::<Seq<AnchorView>, TlsErrorView>(
            root_store_anchors(store),
        ),
        r matches Err(e) ==> load_outcome(pem@) == Err::<Seq<AnchorView>, TlsErrorView>(e@),
{
    let items = pem_certificates(pem);
    root_store_from_items(&items)
}

/// Builds the root store from the items read from a PEM file, in order:
/// every certificate is added; the first item that could not be read, or the
/// first certificate that is not accepted, ends the load with that error; no
/// certificate at all is an error too.
pub fn root_store_from_items(items: &Vec<Result<Vec<u8>, String>>) -> (r: Result<
    rustls::RootCertStore,
    TlsError,
>)
    ensures
        r is Ok <==> roots_outcome(items_view(items@)) is Ok,
        r matches Ok(store) ==> roots_outcome(items_view(items@)) == Ok::<
            Seq<AnchorView>,
            TlsErrorView,
        >(root_store_anchors(store)),
        r matches Err(e) ==> roots_outcome(items_view(items@)) == Err::<
            Seq<AnchorView>,
            TlsErrorView,
        >(e@),
{
    let ghost iv = items@.map_values(|i: Result<Vec<u8>, String>| item_view(i));
    let mut store = root_store_empty();
    let mut count: usize = 0;
    let mut i: usize = 0;
    assert(iv.subrange(0, iv.len() as int) =~= iv);
    proof {
        match scan_items(iv) {
            Ok(rest) => {
                assert(Seq::<AnchorView>::empty() + rest =~= rest);
            },
            Err(_) => {},
        }
    }
    while i < items.len()
        invariant
            0 <= i <= items.len(),
            count <= i,
            iv == items@.map_values(|i: Result<Vec<u8>, String>| item_view(i)),
            count == root_store_anchors(store).len(),
            scan_items(iv) == match scan_items(iv.subrange(i as int, iv.len() as int)) {
                Ok(rest) => Ok(root_store_anchors(store) + rest),
                Err(e) => Err(e),
            },
        decreases items.len() - i,
    {
        assert(iv[i as int] == item_view(items@[i as int]));
        match &items[i] {
            Err(m) => {
                let ghost tail = iv.subrange(i as int, iv.len() as int);
                assert(tail[0] == iv[i as int]);
                return Err(TlsError::Parse(m.clone()));
            },
            Ok(der) => {
                let ghost before = root_store_anchors(store);
                match root_store_add(&mut store, der.clone()) {
                    Err(m) => {
                        let ghost tail = iv.subrange(i as int, iv.len() as int);
                        assert(tail[0] == iv[i as int]);
                        return Err(TlsError::Add(m));
                    },
                    Ok(()) => {
                        proof {
                            lemma_scan_split(iv, i as int);
                            let a = accepted_anchor(der@);
                            match scan_items(iv.subrange(i + 1, iv.len() as int)) {
                                Ok(rest) => {
                                    assert(before + (seq![a] + rest) =~= before.push(a) + rest);
                                },
                                Err(e) => {},
                            }
                        }
                        count = count + 1;
                    },
                }
            },
        }
        i = i + 1;
    }
    assert(iv.subrange(i as int, iv.len() as int) =~= Seq::<Result<Seq<u8>, Seq<char>>>::empty());
    assert(root_store_anchors(store) + Seq::<AnchorView>::empty() =~= root_store_anchors(store));
    if count == 0 {
        Err(TlsError::NoCertificates)
    } else {
        Ok(store)
    }
}

/// A client configuration built from a PEM text: it verifies servers against
/// exactly the trust anchors loaded from the text, in order, and presents no
/// client certificate.
pub open spec fn config_built_from(pem: Seq<u8>, c: rustls::ClientConfig) -> bool {
    &&& load_outcome(pem) == Ok::<Seq<AnchorView>, TlsErrorView>(client_config_roots(c))
    &&& !client_config_offers_client_cert(c)
}

/// Builds the TLS client configuration from the contents of the CA file: it
/// verifies servers against the trust anchors of the file's certificates, in
/// file order, and presents no client certificate. It fails exactly when
/// loading the roots fails, with the same error.
pub fn client_config_from_pem(pem: &[u8]) -> (r: Result<std::sync::Arc<rustls::ClientConfig>, TlsError>)
    ensures
        r is Ok <==> load_outcome(pem@) is Ok,
        r matches Ok(c) ==> config_built_from(pem@, *c),
        r matches Err(e) ==> load_outcome(pem@) == Err::<Seq<AnchorView>, TlsErrorView>(e@),
{
    match root_store_from_pem(pem) {
        Ok(roots) => {
            Ok(std::sync::Arc::new(client_config_with_roots(roots)))
        },
        Err(e) => Err(e),
    }
}

/// The TLS configuration for connecting to the cluster, from the CA file's
/// contents when the file exists: without a file, TLS is not configured
/// (`Ok(None)`); with one, the configuration that `client_config_from_pem`
/// builds from it, or its error.
pub fn tls_config_from_ca_file(contents: Option<&[u8]>) -> (r: Result<
    Option<std::sync::Arc<rustls::ClientConfig>>,
    TlsError,
>)
    ensures
        contents is None ==> r matches Ok(None),
        contents is Some ==> (r is Ok <==> load_outcome(contents->Some_0@) is Ok),
        contents is Some && r is Ok ==> (r matches Ok(Some(c)) && config_built_from(
            contents->Some_0@,
            *c,
        )),
        r matches Err(e) ==> contents is Some && load_outcome(contents->Some_0@) == Err::<
            Seq<AnchorView>,
            TlsErrorView,
        >(e@),
{
    match contents {
        None => Ok(None),
        Some(pem) => match client_config_from_pem(pem) {
            Ok(c) => Ok(Some(c)),
            Err(e) => Err(e),
        },
    }
}

/// Where the CA certificate file is read from.
pub fn ca_cert_path() -> (r: String)
    ensures
        r@ == "certs/ca.crt"@,
{
    "certs/ca.crt".to_owned()
}

impl TlsError {
    /// The message a load failure is reported with: a read error is reported
    /// as a certificate that failed to parse (its cause kept in the variant),
    /// a rejected certificate by the store's own message, and an empty file as
    /// such.
    pub fn message(&self) -> (r: String)
        ensures
            match self@ {
                TlsErrorView::Parse(_) => r@ == "Failed to parse certificate from ca.crt"@,
                TlsErrorView::Add(m) => r@ == m,
                TlsErrorView::NoCertificates => r@ == "No certificates found in certs/ca.crt"@,
            },
    {
        match self {
            TlsError::Parse(_) => "Failed to parse certificate from ca.crt".to_owned(),
            TlsError::Add(m) => m.clone(),
            TlsError::NoCertificates => "No certificates found in certs/ca.crt".to_owned(),
        }
    }
}

} // verus!
