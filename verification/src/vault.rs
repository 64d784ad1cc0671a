//! Cluster secret preparation.
//!
//! After every successful lifecycle action the freshly retrieved
//! kubeconfig is stored with the secret-store collaborator; the library
//! prepares the payload — the kubeconfig as standard base64 — and the
//! caller ships it.

use base64::Engine;
use vstd::prelude::*;
use vstd::string::StringSliceAdditionalSpecFns;

verus! {

/// The cluster secrets the engine maintains; the kubeconfig travels
/// base64-encoded.
pub struct ClusterSecrets {
    pub kubeconfig_b64: Option<String>,
}

/// Names the result of base64's standard engine on a byte string: the
/// encoding depends on the bytes alone.
pub uninterp spec fn base64_of(bytes: Seq<u8>) -> Seq<char>;

/// Relies on base64's STANDARD engine (padded): four output characters for
/// every started group of three input bytes.
#[verifier::external_body]
fn b64_encode(s: &str) -> (r: String)
    ensures
        r@ == base64_of(s.spec_bytes()),
        r@.len() == 4 * ((s.spec_bytes().len() + 2) / 3),
{
    base64::engine::general_purpose::STANDARD.encode(s)
}

impl ClusterSecrets {
    /// Records a kubeconfig in its stored form.
    pub fn set_kubeconfig_b64(&mut self, kubeconfig_b64: String)
        ensures
            final(self).kubeconfig_b64 matches Some(k) && k@ == kubeconfig_b64@,
    {
        self.kubeconfig_b64 = Some(kubeconfig_b64);
    }
}

/// Prepares the vault update that follows a lifecycle action: the
/// kubeconfig, read by the caller, goes into the secrets base64-encoded;
/// storing them is the collaborator's part and its failure is not fatal.
pub fn update_vault_config(cluster_secrets: ClusterSecrets, kubeconfig: &str) -> (r:
    ClusterSecrets)
    ensures
        r.kubeconfig_b64 matches Some(k) && k@ == base64_of(kubeconfig.spec_bytes()),
{
    let mut updated = cluster_secrets;
    updated.set_kubeconfig_b64(b64_encode(kubeconfig));
    updated
}

} // verus!
