//! Trustee's answers, and the data that is derived from them.

use vstd::prelude::*;
use vstd::utf8::encode_utf8;

use crate::encoding::{
    base64, base64_text, encodable, identifies, sha256, sha256_digest, sha384, sha384_digest,
};
use crate::error::{Error, ErrorView};
use crate::json::{insert_text, members, new_object, Member};
use crate::laws::law_initdata_tells_resources_apart;
use crate::status::{is_success, status_text, Status};

verus! {

/// What Trustee knows of a provisioned VM.
#[derive(Debug, Clone, PartialEq, Eq)]
pub struct TrusteeResponse {
    /// Deterministic identifier of the VM.
    pub uuid: String,
    /// KBS resource path of the VM's LUKS key.
    pub resource_path: String,
}

/// What a [`TrusteeResponse`] holds.
pub struct TrusteeResponseView {
    pub uuid: Seq<char>,
    pub resource_path: Seq<char>,
}

impl DeepView for TrusteeResponse {
    type V = TrusteeResponseView;

    open spec fn deep_view(&self) -> TrusteeResponseView {
        TrusteeResponseView { uuid: self.uuid@, resource_path: self.resource_path@ }
    }
}

/// The values that a VM is launched with.
#[derive(Debug, Clone, PartialEq, Eq)]
pub struct ProvisionedData {
    /// Base64 of the SHA-384 digest of the initdata, for Intel TDX.
    pub mr_config_id: String,
    /// Base64 of the SHA-256 digest of the initdata, for AMD SEV-SNP.
    pub hostdata: String,
    /// Base64 of the initdata, the only OEM string.
    pub oem_strings: Vec<String>,
}

/// What a [`ProvisionedData`] holds.
#[verifier::ext_equal]
pub struct ProvisionedDataView {
    pub mr_config_id: Seq<char>,
    pub hostdata: Seq<char>,
    pub oem_strings: Seq<Seq<char>>,
}

impl DeepView for ProvisionedData {
    type V = ProvisionedDataView;

    open spec fn deep_view(&self) -> ProvisionedDataView {
        ProvisionedDataView {
            mr_config_id: self.mr_config_id@,
            hostdata: self.hostdata@,
            oem_strings: self.oem_strings.deep_view(),
        }
    }
}

/// Trustee's reply to a provisioning request.
#[derive(Debug, PartialEq, Eq)]
pub struct TrusteeReply {
    pub status: Status,
    /// The body as it came.
    pub body: String,
    /// What the body says, or why it cannot be read.
    pub parsed: Result<TrusteeResponse, String>,
}

/// What a [`TrusteeReply`] holds.
pub struct TrusteeReplyView {
    pub status: u16,
    pub body: Seq<char>,
    pub parsed: Result<TrusteeResponseView, Seq<char>>,
}

impl DeepView for TrusteeReply {
    type V = TrusteeReplyView;

    open spec fn deep_view(&self) -> TrusteeReplyView {
        TrusteeReplyView {
            status: self.status.deep_view(),
            body: self.body@,
            parsed: match self.parsed {
                Ok(response) => Ok(response.deep_view()),
                Err(reason) => Err(reason@),
            },
        }
    }
}

/// URL to which a provisioning request is posted.
pub open spec fn provision_url(provisioner_url: Seq<char>) -> Seq<char> {
    provisioner_url + "/provision"@
}

/// URL of the provisioning record of a VM, deleted when the VM is gone.
pub open spec fn record_url(
    provisioner_url: Seq<char>,
    namespace: Seq<char>,
    name: Seq<char>,
) -> Seq<char> {
    provisioner_url + "/provision/"@ + namespace + "/"@ + name
}

/// Initdata up to the KBS URL.
pub const TOML_HEAD: &'static str =
    "algorithm = \"sha384\"\nversion = \"0.1.0\"\n\n[data]\n\"trustee.kbs.url\" = \"";

/// Initdata between the KBS URL and the resource path.
pub const TOML_MIDDLE: &'static str = "\"\n\"trustee.kbs.resource\" = \"kbs+provisioner:///";

/// Initdata after the resource path.
pub const TOML_TAIL: &'static str = "\"\n";

/// The initdata that tells a guest where its KBS is and which resource to fetch.
pub open spec fn toml(kbs_url: Seq<char>, resource_path: Seq<char>) -> Seq<char> {
    TOML_HEAD@ + kbs_url + TOML_MIDDLE@ + resource_path + TOML_TAIL@
}

/// What is derived from the initdata `toml`.
pub open spec fn derived_data(toml: Seq<char>) -> ProvisionedDataView {
    let bytes = encode_utf8(toml);
    ProvisionedDataView {
        mr_config_id: base64_text(sha384_digest(bytes)),
        hostdata: base64_text(sha256_digest(bytes)),
        oem_strings: seq![base64_text(bytes)],
    }
}

/// Whether the digests of the initdata `toml` have 48 and 32 bytes, and each
/// text in `data` is the base64 of nothing but what it was made of: the digests
/// and the initdata.
pub open spec fn decodable(data: ProvisionedDataView, toml: Seq<char>) -> bool {
    let bytes = encode_utf8(toml);
    &&& sha384_digest(bytes).len() == 48
    &&& sha256_digest(bytes).len() == 32
    &&& identifies(data.mr_config_id, sha384_digest(bytes))
    &&& identifies(data.hostdata, sha256_digest(bytes))
    &&& identifies(data.oem_strings[0], bytes)
}

/// Whether the initdata for any resource of this KBS other than `resource_path`
/// has another base64 than `oem_string`, as far as it can be put into base64.
pub open spec fn stands_for(
    oem_string: Seq<char>,
    kbs_url: Seq<char>,
    resource_path: Seq<char>,
) -> bool {
    forall|other: Seq<char>|
        other != resource_path && encodable(encode_utf8(#[trigger] toml(kbs_url, other)).len())
            ==> base64_text(encode_utf8(toml(kbs_url, other))) != oem_string
}

/// A text as `{:?}` renders it: quoted, with escapes.
pub uninterp spec fn debug_text(text: Seq<char>) -> Seq<char>;

/// Renders `text` with `Debug` of `str`. Believed: the result is a function of
/// `text` alone.
#[verifier::external_body]
fn debug(text: &str) -> (quoted: String)
    ensures
        quoted@ == debug_text(text@),
{
    format!("{:?}", text)
}

/// What a health check that was answered with a status, or failed with a
/// reason, comes to.
pub open spec fn health_outcome(answer: Result<u16, Seq<char>>) -> Result<(), ErrorView> {
    match answer {
        Err(reason) => Err(ErrorView::Http(reason)),
        Ok(status) => if is_success(status) {
            Ok(())
        } else {
            Err(unhealthy_error(status_text(status)))
        },
    }
}

/// The error for a health check that was answered with this status.
pub open spec fn unhealthy_error(status: Seq<char>) -> ErrorView {
    ErrorView::ProvisioningError("Trustee health check failed: HTTP "@ + status)
}

/// The error for a provisioning request that was answered with this status.
pub open spec fn refusal_error(status: Seq<char>, body: Seq<char>) -> ErrorView {
    ErrorView::ProvisioningError("Trustee returned HTTP "@ + status + ": "@ + body)
}

/// The error for a reply whose body cannot be read.
pub open spec fn unreadable_error(reason: Seq<char>, quoted_body: Seq<char>) -> ErrorView {
    ErrorView::ProvisioningError(
        "Failed to parse Trustee response: "@ + reason + " — body was: "@ + quoted_body,
    )
}

/// What a provisioning request comes to.
pub open spec fn provision_outcome(
    kbs_url: Seq<char>,
    reply: Result<TrusteeReplyView, Seq<char>>,
) -> Result<ProvisionedDataView, ErrorView> {
    match reply {
        Err(reason) => Err(ErrorView::Http(reason)),
        Ok(reply) => if !is_success(reply.status) {
            Err(refusal_error(status_text(reply.status), reply.body))
        } else {
            match reply.parsed {
                Err(reason) => Err(unreadable_error(reason, debug_text(reply.body))),
                Ok(response) => Ok(derived_data(toml(kbs_url, response.resource_path))),
            }
        },
    }
}

/// Whether the initdata that a successful reply leads to is small enough to be
/// put into base64.
pub open spec fn reply_fits(
    kbs_url: Seq<char>,
    reply: Result<TrusteeReplyView, Seq<char>>,
) -> bool {
    match reply {
        Ok(reply) => match reply.parsed {
            Ok(response) => is_success(reply.status) ==> encodable(
                encode_utf8(toml(kbs_url, response.resource_path)).len(),
            ),
            Err(_) => true,
        },
        Err(_) => true,
    }
}

/// The error for a health check that was answered with a status other than
/// success; `status` is the text of the status.
pub fn unhealthy(status: &str) -> (error: Error)
    ensures
        error.deep_view() == unhealthy_error(status@),
{
    Error::ProvisioningError("Trustee health check failed: HTTP ".to_owned().concat(status))
}

/// The error for a provisioning request that was answered with a status other
/// than success; `status` is the text of the status.
pub fn refusal(status: &str, body: &str) -> (error: Error)
    ensures
        error.deep_view() == refusal_error(status@, body@),
{
    Error::ProvisioningError(
        "Trustee returned HTTP ".to_owned().concat(status).concat(": ").concat(body),
    )
}

/// The error for a reply whose body cannot be read; `quoted_body` is the body
/// with quotes and escapes.
pub fn unreadable(reason: &str, quoted_body: &str) -> (error: Error)
    ensures
        error.deep_view() == unreadable_error(reason@, quoted_body@),
{
    Error::ProvisioningError(
        "Failed to parse Trustee response: ".to_owned().concat(reason).concat(
            " — body was: ",
        ).concat(quoted_body),
    )
}

/// Whether KBS is healthy, from the status that its health check was answered
/// with or the reason why it was not answered.
pub fn health_check(answer: Result<Status, String>) -> (outcome: Result<(), Error>)
    ensures
        match outcome {
            Ok(_) => health_outcome(health_view(answer)) is Ok,
            Err(error) => health_outcome(health_view(answer)) == Err::<(), ErrorView>(
                error.deep_view(),
            ),
        },
{
    match answer {
        Err(reason) => Err(Error::Http(reason)),
        Ok(status) => {
            if status.is_success() {
                Ok(())
            } else {
                Err(unhealthy(status.text().as_str()))
            }
        },
    }
}

/// What the answer to a health check holds.
pub open spec fn health_view(answer: Result<Status, String>) -> Result<u16, Seq<char>> {
    match answer {
        Ok(status) => Ok(status.deep_view()),
        Err(reason) => Err(reason@),
    }
}

/// What the reply to a provisioning request holds.
pub open spec fn reply_view(reply: Result<TrusteeReply, String>) -> Result<
    TrusteeReplyView,
    Seq<char>,
> {
    match reply {
        Ok(reply) => Ok(reply.deep_view()),
        Err(reason) => Err(reason@),
    }
}

/// What the outcome of a provisioning request holds.
pub open spec fn outcome_view(outcome: Result<ProvisionedData, Error>) -> Result<
    ProvisionedDataView,
    ErrorView,
> {
    match outcome {
        Ok(data) => Ok(data.deep_view()),
        Err(error) => Err(error.deep_view()),
    }
}

/// The body of a provisioning request for the VM `name` in `namespace`.
pub fn provision_body(name: &str, namespace: &str) -> (body: serde_json::Map<
    String,
    serde_json::Value,
>)
    ensures
        members(body) == map![
            "vm_name"@ => Member::Text(name@),
            "namespace"@ => Member::Text(namespace@),
        ],
{
    let mut body = new_object();
    insert_text(&mut body, "vm_name", name);
    insert_text(&mut body, "namespace", namespace);
    assert(members(body) =~= map![
        "vm_name"@ => Member::Text(name@),
        "namespace"@ => Member::Text(namespace@),
    ]);
    body
}

/// The initdata for a guest whose KBS is at `kbs_url` and whose resource is at
/// `resource_path`.
pub fn initdata_toml(kbs_url: &str, resource_path: &str) -> (text: String)
    ensures
        text@ == toml(kbs_url@, resource_path@),
{
    TOML_HEAD.to_owned().concat(kbs_url).concat(TOML_MIDDLE).concat(resource_path).concat(TOML_TAIL)
}

/// Whether the initdata for this KBS and resource is small enough to be put
/// into base64.
fn is_encodable(kbs_url: &str, resource_path: &str) -> (b: bool)
    ensures
        b == encodable(encode_utf8(toml(kbs_url@, resource_path@)).len()),
{
    initdata_toml(kbs_url, resource_path).as_str().as_bytes().len() <= isize::MAX as usize / 4 * 3
}

/// Whether the initdata that a successful reply leads to is small enough to be
/// put into base64.
pub fn fits(kbs_url: &str, reply: &Result<TrusteeReply, String>) -> (b: bool)
    ensures
        b == reply_fits(kbs_url@, reply_view(*reply)),
{
    match reply {
        Ok(TrusteeReply { status, parsed: Ok(response), .. }) => !status.is_success()
            || is_encodable(kbs_url, response.resource_path.as_str()),
        _ => true,
    }
}

/// The data of a VM, from the texts that were derived from its initdata.
pub fn provisioned_data(mr_config_id: String, hostdata: String, oem_string: String) -> (data:
    ProvisionedData)
    ensures
        data.deep_view() == (ProvisionedDataView {
            mr_config_id: mr_config_id@,
            hostdata: hostdata@,
            oem_strings: seq![oem_string@],
        }),
{
    let mut oem_strings: Vec<String> = Vec::new();
    oem_strings.push(oem_string);
    ProvisionedData { mr_config_id, hostdata, oem_strings }
}

/// What is derived from the initdata `text`.
pub fn derive_data(text: &str) -> (data: ProvisionedData)
    requires
        encodable(encode_utf8(text@).len()),
    ensures
        data.deep_view() == derived_data(text@),
        decodable(data.deep_view(), text@),
{
    let bytes = text.as_bytes();
    let mr_config_id = base64(sha384(bytes).as_slice());
    let hostdata = base64(sha256(bytes).as_slice());
    provisioned_data(mr_config_id, hostdata, base64(bytes))
}

/// The data of a VM, from Trustee's reply to its provisioning request or the
/// reason why there was none.
///
/// The initdata that a successful reply leads to must be small enough to be put
/// into base64; [`fits`] tests that.
pub fn provision(kbs_url: &str, reply: Result<TrusteeReply, String>) -> (outcome: Result<
    ProvisionedData,
    Error,
>)
    requires
        reply_fits(kbs_url@, reply_view(reply)),
    ensures
        outcome_view(outcome) == provision_outcome(kbs_url@, reply_view(reply)),
        outcome matches Ok(data) ==> reply matches Ok(reply) && reply.parsed matches Ok(response)
            && decodable(data.deep_view(), toml(kbs_url@, response.resource_path@)) && stands_for(
            data.deep_view().oem_strings[0],
            kbs_url@,
            response.resource_path@,
        ),
{
    match reply {
        Err(reason) => Err(Error::Http(reason)),
        Ok(reply) => {
            if !reply.status.is_success() {
                return Err(refusal(reply.status.text().as_str(), reply.body.as_str()));
            }
            match reply.parsed {
                Err(reason) => Err(
                    unreadable(reason.as_str(), debug(reply.body.as_str()).as_str()),
                ),
                Ok(response) => {
                    let text = initdata_toml(kbs_url, response.resource_path.as_str());
                    let data = derive_data(text.as_str());
                    proof {
                        assert forall|other: Seq<char>|
                            other != response.resource_path@ && encodable(
                                encode_utf8(#[trigger] toml(kbs_url@, other)).len(),
                            ) implies base64_text(encode_utf8(toml(kbs_url@, other)))
                            != data.deep_view().oem_strings[0] by {
                            law_initdata_tells_resources_apart(
                                kbs_url@,
                                other,
                                response.resource_path@,
                            );
                        }
                    }
                    Ok(data)
                },
            }
        },
    }
}

} // verus!
