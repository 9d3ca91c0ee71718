//! Requests to the KubeVirt subresources of a VMI.
//!
//! KubeVirt's subresources have no typed client, so the requests are built by
//! hand. Whoever sends one sees from the transport whether it was refused.

use vstd::prelude::*;

use crate::controller::TeePlatform;
use crate::error::{Error, ErrorView};
use crate::json::{
    document_view, insert_text, insert_texts, members, new_object, object_bytes, texts, to_vec,
    Member,
};

verus! {

/// An HTTP request of the `http` crate.
#[verifier::external_type_specification]
#[verifier::external_body]
#[verifier::reject_recursive_types(T)]
pub struct ExRequest<T>(http::Request<T>);

/// The `PUT` request to `uri` with one header and `body`, or the text of the
/// failure where the `http` crate does not accept the URI or the header.
pub uninterp spec fn put_request(
    uri: Seq<char>,
    header: Seq<char>,
    value: Seq<char>,
    body: Seq<u8>,
) -> Result<http::Request<Vec<u8>>, Seq<char>>;

/// Calls `http::Request::put` and, on its builder, `header` and `body`.
/// Believed: the request, or the text of the failure, is a function of these
/// arguments alone. Which URIs and headers are accepted is not stated, nor how
/// the request keeps its parts.
#[verifier::external_body]
fn put(uri: &str, header: &str, value: &str, body: Vec<u8>) -> (request: Result<
    http::Request<Vec<u8>>,
    String,
>)
    ensures
        build_view(request) == put_request(uri@, header@, value@, body@),
{
    match http::Request::put(uri).header(header, value).body(body) {
        Ok(request) => Ok(request),
        Err(error) => Err(error.to_string()),
    }
}

/// Path of the VMI `name` among the subresources of KubeVirt.
pub open spec fn vmi_path(namespace: Seq<char>, name: Seq<char>) -> Seq<char> {
    "/apis/subresources.kubevirt.io/v1/namespaces/"@ + namespace + "/virtualmachineinstances/"@
        + name
}

/// Path of the subresource that unpauses a VMI.
pub open spec fn unpause_path(namespace: Seq<char>, name: Seq<char>) -> Seq<char> {
    vmi_path(namespace, name) + "/unpause"@
}

/// Path of the subresource that injects attestation data into a VMI.
pub open spec fn inject_path(
    namespace: Seq<char>,
    name: Seq<char>,
    platform: TeePlatform,
) -> Seq<char> {
    match platform {
        TeePlatform::Tdx => vmi_path(namespace, name) + "/tdx/injectInitdata"@,
        TeePlatform::Snp => vmi_path(namespace, name) + "/sev/injectInitdata"@,
    }
}

/// The attestation data that is injected: the measurement of the platform, and
/// the OEM strings.
pub open spec fn payload(
    platform: TeePlatform,
    mr_config_id: Seq<char>,
    hostdata: Seq<char>,
    oem_strings: Seq<Seq<char>>,
) -> Map<Seq<char>, Member> {
    match platform {
        TeePlatform::Tdx => map![
            "mrConfigId"@ => Member::Text(mr_config_id),
            "oemStrings"@ => Member::Texts(oem_strings),
        ],
        TeePlatform::Snp => map![
            "hostData"@ => Member::Text(hostdata),
            "oemStrings"@ => Member::Texts(oem_strings),
        ],
    }
}

/// The bytes of the empty JSON object, `{}`.
pub open spec fn empty_object() -> Seq<u8> {
    seq![0x7bu8, 0x7du8]
}

/// The outcome of a build that gave a request, or the text of a failure.
pub open spec fn built_outcome(built: Result<http::Request<Vec<u8>>, Seq<char>>) -> Result<
    http::Request<Vec<u8>>,
    ErrorView,
> {
    match built {
        Ok(request) => Ok(request),
        Err(text) => Err(ErrorView::ProvisioningError(text)),
    }
}

/// The outcome of putting the JSON document `body` to `path`.
pub open spec fn put_json_outcome(path: Seq<char>, body: Seq<u8>) -> Result<
    http::Request<Vec<u8>>,
    ErrorView,
> {
    built_outcome(put_request(path, "Content-Type"@, "application/json"@, body))
}

/// The outcome of putting a document to `path` whose serialization gave
/// `document`.
pub open spec fn put_serialized_outcome(
    path: Seq<char>,
    document: Result<Seq<u8>, Seq<char>>,
) -> Result<http::Request<Vec<u8>>, ErrorView> {
    match document {
        Ok(body) => put_json_outcome(path, body),
        Err(text) => Err(ErrorView::ProvisioningError(text)),
    }
}

/// What an outcome holds.
pub open spec fn outcome_view(outcome: Result<http::Request<Vec<u8>>, Error>) -> Result<
    http::Request<Vec<u8>>,
    ErrorView,
> {
    match outcome {
        Ok(request) => Ok(request),
        Err(error) => Err(error.deep_view()),
    }
}

/// What a build gave.
pub open spec fn build_view(built: Result<http::Request<Vec<u8>>, String>) -> Result<
    http::Request<Vec<u8>>,
    Seq<char>,
> {
    match built {
        Ok(request) => Ok(request),
        Err(text) => Err(text@),
    }
}

/// A request that was built, or the error for the text of the failure.
pub fn built(request: Result<http::Request<Vec<u8>>, String>) -> (outcome: Result<
    http::Request<Vec<u8>>,
    Error,
>)
    ensures
        outcome_view(outcome) == built_outcome(build_view(request)),
{
    match request {
        Ok(request) => Ok(request),
        Err(text) => Err(Error::ProvisioningError(text)),
    }
}

/// The request that puts the JSON document `body` to `path`.
pub fn put_json(path: &str, body: Vec<u8>) -> (outcome: Result<http::Request<Vec<u8>>, Error>)
    ensures
        outcome_view(outcome) == put_json_outcome(path@, body@),
{
    built(put(path, "Content-Type", "application/json", body))
}

/// The request that puts to `path` the JSON document whose serialization gave
/// `document`: its bytes, or the text of the failure.
pub fn put_serialized(path: &str, document: Result<Vec<u8>, String>) -> (outcome: Result<
    http::Request<Vec<u8>>,
    Error,
>)
    ensures
        outcome_view(outcome) == put_serialized_outcome(path@, document_view(document)),
{
    match document {
        Ok(body) => put_json(path, body),
        Err(text) => Err(Error::ProvisioningError(text)),
    }
}

/// The attestation data that is injected into a VMI of `platform`.
pub fn inject_payload(
    platform: TeePlatform,
    mr_config_id: &str,
    hostdata: &str,
    oem_strings: &[String],
) -> (object: serde_json::Map<String, serde_json::Value>)
    ensures
        members(object) == payload(platform, mr_config_id@, hostdata@, texts(oem_strings@)),
{
    let mut object = new_object();
    match platform {
        TeePlatform::Tdx => insert_text(&mut object, "mrConfigId", mr_config_id),
        TeePlatform::Snp => insert_text(&mut object, "hostData", hostdata),
    }
    insert_texts(&mut object, "oemStrings", oem_strings);
    assert(members(object) =~= payload(
        platform,
        mr_config_id@,
        hostdata@,
        texts(oem_strings@),
    ));
    object
}

/// Path of the subresource that injects attestation data into a VMI.
pub fn inject_uri(namespace: &str, name: &str, platform: TeePlatform) -> (uri: String)
    ensures
        uri@ == inject_path(namespace@, name@, platform),
{
    let vmi = vmi_uri(namespace, name);
    match platform {
        TeePlatform::Tdx => vmi.concat("/tdx/injectInitdata"),
        TeePlatform::Snp => vmi.concat("/sev/injectInitdata"),
    }
}

/// Path of the subresource that unpauses a VMI.
pub fn unpause_uri(namespace: &str, name: &str) -> (uri: String)
    ensures
        uri@ == unpause_path(namespace@, name@),
{
    vmi_uri(namespace, name).concat("/unpause")
}

/// Path of a VMI among the subresources of KubeVirt.
fn vmi_uri(namespace: &str, name: &str) -> (uri: String)
    ensures
        uri@ == vmi_path(namespace@, name@),
{
    "/apis/subresources.kubevirt.io/v1/namespaces/".to_owned().concat(namespace).concat(
        "/virtualmachineinstances/",
    ).concat(name)
}

/// The request that injects attestation data into a VMI: `mr_config_id` and the
/// OEM strings for TDX, `hostdata` and the OEM strings for SEV-SNP.
pub fn inject_initdata(
    platform: TeePlatform,
    namespace: &str,
    name: &str,
    mr_config_id: &str,
    hostdata: &str,
    oem_strings: &[String],
) -> (outcome: Result<http::Request<Vec<u8>>, Error>)
    ensures
        outcome_view(outcome) == put_serialized_outcome(
            inject_path(namespace@, name@, platform),
            object_bytes(payload(platform, mr_config_id@, hostdata@, texts(oem_strings@))),
        ),
{
    let object = inject_payload(platform, mr_config_id, hostdata, oem_strings);
    put_serialized(inject_uri(namespace, name, platform).as_str(), to_vec(&object))
}

/// The request that unpauses a VMI, so that the guest starts once the
/// attestation is complete. Its body is the empty JSON object.
pub fn unpause(namespace: &str, name: &str) -> (outcome: Result<http::Request<Vec<u8>>, Error>)
    ensures
        outcome_view(outcome) == put_json_outcome(
            unpause_path(namespace@, name@),
            empty_object(),
        ),
{
    let mut body: Vec<u8> = Vec::new();
    body.push(0x7b);
    body.push(0x7d);
    assert(body@ =~= empty_object());
    put_json(unpause_uri(namespace, name).as_str(), body)
}

} // verus!
