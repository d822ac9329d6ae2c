//! The decoded result of verifying a TDX attestation quote.
//!
//! The verifier returns the quote's decoded fields; the one field this
//! protocol reads is the report data, which carries the hash binding the
//! attested public key (base64-encoded by the verifier).

use vstd::prelude::*;

verus! {

/// What base64 decoding (standard alphabet, padded) yields on a character
/// string: `Some` of the decoded bytes on valid input, `None` otherwise.
pub uninterp spec fn b64_decoded(s: Seq<char>) -> Option<Seq<u8>>;

/// Relies on base64's standard-alphabet Engine::decode: decoding is a
/// function of the input characters alone, and fails exactly on strings that
/// are not valid base64.
#[verifier::external_body]
pub(crate) fn base64_decode(s: &String) -> (r: Option<Vec<u8>>)
    ensures
        r is Some ==> b64_decoded(s@) == Some(r->Some_0@),
        r is None ==> b64_decoded(s@) is None,
{
    base64::Engine::decode(&base64::prelude::BASE64_STANDARD, s.as_str()).ok()
}

/// The quote header fields.
pub struct Header {
    pub version: u8,
    pub attestation_key_type: u8,
    pub tee_type: u8,
    pub qe_svn: String,
    pub pce_svn: String,
    pub qe_vendor_id: String,
    pub user_data: String,
}

/// The TD quote body: measurement registers and the report data.
pub struct TdQuoteBody {
    pub tee_tcb_svn: String,
    pub mr_seam: String,
    pub mr_signer_seam: String,
    pub seam_attributes: String,
    pub td_attributes: String,
    pub xfam: String,
    pub mr_td: String,
    pub mr_config_id: String,
    pub mr_owner: String,
    pub mr_owner_config: String,
    pub rtmrs: Vec<String>,
    pub report_data: String,
}

/// The quoting enclave's report.
pub struct QeReport {
    pub cpu_svn: String,
    pub reserved1: String,
    pub attributes: String,
    pub mr_enclave: String,
    pub reserved2: String,
    pub mr_signer: String,
    pub reserved3: String,
    pub isv_prod_id: u16,
    pub isv_svn: u16,
    pub reserved4: String,
    pub report_data: String,
}

/// Authentication data of the quoting enclave.
pub struct QeAuthData {
    pub parsed_data_size: u32,
    pub data: String,
}

/// The PCK certificate chain carried by the quote.
pub struct PckCertificateChainData {
    pub certificate_data_type: u8,
    pub size: u32,
    pub pck_cert_chain: String,
}

/// Certification data wrapping the quoting enclave's report.
pub struct QeReportCertificationData {
    pub qe_report: QeReport,
    pub qe_report_signature: String,
    pub qe_auth_data: QeAuthData,
    pub pck_certificate_chain_data: PckCertificateChainData,
}

/// The quote's certification data.
pub struct CertificationData {
    pub certificate_data_type: u8,
    pub size: u32,
    pub qe_report_certification_data: QeReportCertificationData,
}

/// The quote's signature section.
pub struct SignedData {
    pub signature: String,
    pub ecdsa_attestation_key: String,
    pub certification_data: CertificationData,
}

/// A verified quote, decoded.
pub struct QuoteVerificationResult {
    pub header: Header,
    pub td_quote_body: TdQuoteBody,
    pub signed_data_size: u32,
    pub signed_data: SignedData,
    pub extra_bytes: String,
}

/// The application data bound into a verified quote: the first 32 bytes of
/// the base64-decoded report data, or nothing when the field is malformed.
pub open spec fn appdata_of(q: &QuoteVerificationResult) -> Option<Seq<u8>> {
    match b64_decoded(q.td_quote_body.report_data@) {
        Some(d) => if d.len() >= 32 {
            Some(d.take(32))
        } else {
            None
        },
        None => None,
    }
}

impl QuoteVerificationResult {
    /// Extracts the bound application data: the first 32 bytes of the
    /// base64-decoded report data.
    pub fn get_appdata(&self) -> (r: Option<[u8; 32]>)
        ensures
            match appdata_of(self) {
                Some(d) => r matches Some(a) && a@ == d,
                None => r is None,
            },
    {
        match base64_decode(&self.td_quote_body.report_data) {
            Some(decoded) => {
                if decoded.len() >= 32 {
                    let mut out = [0u8; 32];
                    let mut i: usize = 0;
                    while i < 32
                        invariant
                            i <= 32,
                            decoded@.len() >= 32,
                            forall|k: int| 0 <= k < i ==> out@[k] == decoded@[k],
                        decreases 32 - i,
                    {
                        out[i] = decoded[i];
                        i = i + 1;
                    }
                    proof {
                        assert(out@ =~= decoded@.take(32));
                    }
                    Some(out)
                } else {
                    None
                }
            },
            None => None,
        }
    }
}

} // verus!
