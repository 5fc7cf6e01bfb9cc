//! The resource-backend client types and the interpretation of backend
//! responses. Every backend call answers with a text: either a marked
//! error, or a JSON document carrying an `ok` boolean and a `data` field.
//! The calls themselves cross a foreign-function boundary and stay
//! outside; interpreting what they answered is decided — and verified —
//! here.

use vstd::prelude::*;
use vstd::string::StringSliceAdditionalSpecFns;
use vstd::utf8::encode_utf8;

verus! {

/// Why a backend response was rejected.
#[derive(Clone, Copy, Debug, PartialEq, Eq, Structural)]
pub enum CfsError {
    /// The response text carries the backend's error marker.
    Backend,
    /// The response is not a JSON document with an `ok` boolean.
    Malformed,
    /// The backend answered, but with `ok` false.
    Refused,
}

/// The `ok` boolean of the response document, if the text parses as JSON
/// and carries one; a function of the text alone. Read only by the trusted
/// wrapper below.
pub uninterp spec fn spec_cfs_ok_flag(s: Seq<char>) -> Option<bool>;

/// Relies on serde_json::from_str::<Value>, Value::get and Value::as_bool:
/// the `ok` boolean field of the parsed response document; `None` when the
/// text does not parse as JSON, or the field is missing or not a boolean.
/// An `ok` flag can only be read from a text that parses, and
/// `spec_cfs_data_text` is `Some` for every text that parses (the parse,
/// serde_json::from_str, is deterministic in the text): hence the second
/// clause.
#[verifier::external_body]
fn cfs_ok_flag(s: &str) -> (r: Option<bool>)
    ensures
        r == spec_cfs_ok_flag(s@),
        r is Some ==> spec_cfs_data_text(s@) is Some,
{
    let doc: serde_json::Value = match serde_json::from_str(s) {
        Ok(doc) => doc,
        Err(_) => return None,
    };
    match doc.get("ok") {
        Some(v) => v.as_bool(),
        None => None,
    }
}

/// The JSON text of the response document's `data` field — the text
/// `null` when the field is absent — or `None` when the text does not
/// parse as JSON; a function of the text alone. Read only by the trusted
/// wrapper below.
pub uninterp spec fn spec_cfs_data_text(s: Seq<char>) -> Option<Seq<char>>;

/// Relies on serde_json::from_str::<Value>, Value::get and the
/// Display rendering of serde_json::Value: the JSON text of the parsed
/// document's `data` field, `null` when the field is absent; `None` when
/// the text does not parse as JSON.
#[verifier::external_body]
fn cfs_data_text(s: &str) -> (r: Option<String>)
    ensures
        r matches Some(t) ==> spec_cfs_data_text(s@) == Some(t@),
        r is None ==> spec_cfs_data_text(s@) is None,
{
    let doc: serde_json::Value = match serde_json::from_str(s) {
        Ok(doc) => doc,
        Err(_) => return None,
    };
    match doc.get("data") {
        Some(v) => Some(v.to_string()),
        None => Some(serde_json::Value::Null.to_string()),
    }
}

/// Whether a response text starts with the backend's error marker, the
/// seven bytes of `Error::`.
pub open spec fn spec_backend_error(s: Seq<char>) -> bool {
    let b = encode_utf8(s);
    b.len() >= 7 && b[0] == 69 && b[1] == 114 && b[2] == 114 && b[3] == 111 && b[4] == 114 && b[5]
        == 58 && b[6] == 58
}

/// What a backend response text means: a marked error fails at once; the
/// text must otherwise parse as JSON with a true `ok` boolean, and the
/// JSON text of its `data` field is the result.
pub open spec fn spec_cfs_outcome(s: Seq<char>) -> Result<Seq<char>, CfsError> {
    if spec_backend_error(s) {
        Err(CfsError::Backend)
    } else {
        match spec_cfs_ok_flag(s) {
            None => Err(CfsError::Malformed),
            Some(false) => Err(CfsError::Refused),
            Some(true) => match spec_cfs_data_text(s) {
                Some(t) => Ok(t),
                None => Err(CfsError::Malformed),
            },
        }
    }
}

/// Interprets one backend response text, exactly as `spec_cfs_outcome`
/// describes it: in particular, it succeeds if and only if the text lacks
/// the error marker and carries a true `ok` boolean.
pub fn parse_cfs_response(res: &String) -> (r: Result<String, CfsError>)
    ensures
        ({
            let s = spec_cfs_outcome(res@);
            match r {
                Ok(t) => s == Ok::<Seq<char>, CfsError>(t@),
                Err(e) => s == Err::<Seq<char>, CfsError>(e),
            }
        }),
        r is Ok <==> !spec_backend_error(res@) && spec_cfs_ok_flag(res@) == Some(true),
{
    let b = res.as_str().as_bytes();
    if b.len() >= 7 && b[0] == 69 && b[1] == 114 && b[2] == 114 && b[3] == 111 && b[4] == 114
        && b[5] == 58 && b[6] == 58 {
        return Err(CfsError::Backend);
    }
    match cfs_ok_flag(res.as_str()) {
        None => Err(CfsError::Malformed),
        Some(false) => Err(CfsError::Refused),
        Some(true) => match cfs_data_text(res.as_str()) {
            Some(t) => Ok(t),
            None => Err(CfsError::Malformed),
        },
    }
}

/// The bytes a resource read hands back: the UTF-8 encoding of the `data`
/// field's JSON text. It succeeds if and only if the text lacks the error
/// marker and carries a true `ok` boolean.
pub fn resource_bytes_from_response(res: &String) -> (r: Result<Vec<u8>, CfsError>)
    ensures
        ({
            let s = spec_cfs_outcome(res@);
            match r {
                Ok(v) => s matches Ok(t) && v@ == encode_utf8(t),
                Err(e) => s == Err::<Seq<char>, CfsError>(e),
            }
        }),
        r is Ok <==> !spec_backend_error(res@) && spec_cfs_ok_flag(res@) == Some(true),
{
    match parse_cfs_response(res) {
        Ok(t) => Ok(t.as_str().as_bytes_vec()),
        Err(e) => Err(e),
    }
}

/// The resource-backend client handle.
#[derive(Debug, Clone)]
pub struct Cfs {
    pub info: String,
}

impl Cfs {
    /// A client handle described by `info`.
    pub fn new(info: String) -> (r: Result<Cfs, CfsError>)
        ensures
            r matches Ok(c) && c.info == info,
    {
        Ok(Cfs { info })
    }
}

/// A relayed meta-transaction request, as the backend expects it.
pub struct MetaTxForwardRequest {
    pub from: String,
    pub to: String,
    pub value: String,
    pub gas: String,
    pub nonce: String,
    pub deadline: u64,
    pub data: String,
}

/// A request to mint a filesystem: the forwarded meta-transaction and its
/// signature.
pub struct MintFilesystemReq {
    pub meta_tx_request: MetaTxForwardRequest,
    pub meta_tx_signature: String,
}

/// What minting a filesystem answers.
pub struct MintFilesystemResp {
    pub token_id: String,
}

/// Burning a filesystem takes the same request shape as minting one.
pub type BurnFilesystemReq = MintFilesystemReq;

/// What looking a filesystem up answers.
pub struct GetFilesystemResp {
    pub filesystem_name: String,
    pub owner_address: String,
    pub token_id: String,
    pub token_uri: String,
}

/// The meta-transaction parameters of an account.
pub struct GetMetaTxParamsResp {
    pub chain_id: u64,
    pub chain_number: u64,
    pub eip712_name: String,
    pub eip712_version: String,
}

/// The contract addresses the backend publishes.
pub struct Contracts {
    pub forwarder: String,
    pub filesystem: String,
}

/// The backend's well-known configuration.
pub struct GetConfigureResp {
    pub configure: GetMetaTxParamsResp,
    pub contracts: Contracts,
    pub nonce: u64,
}

} // verus!
