//! Where the node is and which credentials open the session to it.

use vstd::prelude::*;

verus! {

/// How to reach an LND node. Every field is text: the endpoint is a URL in
/// its canonical written form, the other two are paths of files. The files'
/// contents are never held here.
#[derive(Clone, Debug, PartialEq, Eq)]
pub struct LndLightningSettings {
    /// The URL of the node's gRPC endpoint.
    pub grpc_host: Option<String>,
    /// The path of the node's TLS certificate.
    pub tls_cert_path: Option<String>,
    /// The path of the macaroon that authorises the session.
    pub macaroon_path: Option<String>,
}

/// The text of a value in the one-line description: the value as it is, and
/// nothing for a value that is absent.
pub open spec fn shown(value: Option<String>) -> Seq<char> {
    match value {
        Some(text) => text@,
        None => ""@,
    }
}

/// Computes [`shown`].
fn shown_text(value: &Option<String>) -> (text: &str)
    ensures
        text@ == shown(*value),
{
    match value {
        Some(text) => text.as_str(),
        None => "",
    }
}

/// The one-line description of settings with these three texts.
pub open spec fn settings_text(
    grpc_host: Seq<char>,
    tls_cert_path: Seq<char>,
    macaroon_path: Seq<char>,
) -> Seq<char> {
    "grpc_host: "@ + grpc_host + ", tls_cert_path: "@ + tls_cert_path + ", macaroon_path: "@
        + macaroon_path
}

impl Default for LndLightningSettings {
    /// Settings that name nothing yet.
    fn default() -> (settings: Self)
        ensures
            settings.grpc_host is None,
            settings.tls_cert_path is None,
            settings.macaroon_path is None,
    {
        LndLightningSettings { grpc_host: None, tls_cert_path: None, macaroon_path: None }
    }
}

impl LndLightningSettings {
    /// Whether all that a session needs is named.
    pub open spec fn spec_is_complete(&self) -> bool {
        self.grpc_host is Some && self.tls_cert_path is Some && self.macaroon_path is Some
    }

    /// Whether all that a session needs is named: the endpoint, the
    /// certificate and the macaroon.
    #[verifier::when_used_as_spec(spec_is_complete)]
    pub fn is_complete(&self) -> (complete: bool)
        ensures
            complete == self.spec_is_complete(),
    {
        self.grpc_host.is_some() && self.tls_cert_path.is_some() && self.macaroon_path.is_some()
    }

    /// The settings in one line, for a log or a message: the three values as
    /// they are, under their names, with nothing after the name of a value
    /// that is absent. Incomplete settings are written like any other.
    pub fn to_string(&self) -> (text: String)
        ensures
            text@ == settings_text(
                shown(self.grpc_host),
                shown(self.tls_cert_path),
                shown(self.macaroon_path),
            ),
    {
        let mut text = String::from_str("grpc_host: ");
        text.append(shown_text(&self.grpc_host));
        text.append(", tls_cert_path: ");
        text.append(shown_text(&self.tls_cert_path));
        text.append(", macaroon_path: ");
        text.append(shown_text(&self.macaroon_path));
        text
    }
}

} // verus!
