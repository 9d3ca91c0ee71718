//! What is put to KubeVirt's subresources, in terms of the arguments.

use vstd::prelude::*;

use crate::controller::TeePlatform;
use crate::error::ErrorView;
use crate::json::Member;
use crate::kubevirt::{
    built_outcome, empty_object, inject_path, payload, put_json_outcome, put_request,
    put_serialized_outcome, unpause_path, vmi_path,
};

verus! {

/// The injected object holds, for either platform, exactly the given OEM strings
/// in their order.
pub proof fn law_oem_strings_are_injected(
    platform: TeePlatform,
    mr_config_id: Seq<char>,
    hostdata: Seq<char>,
    oem_strings: Seq<Seq<char>>,
)
    ensures
        payload(platform, mr_config_id, hostdata, oem_strings).contains_key("oemStrings"@),
        payload(platform, mr_config_id, hostdata, oem_strings)["oemStrings"@] matches Member::Texts(
            strings,
        ) && strings.len() == oem_strings.len() && (forall|i: int|
            0 <= i < strings.len() ==> #[trigger] strings[i] == oem_strings[i]),
{
}

/// Beside the OEM strings the injected object holds the measurement for its
/// platform, and no other member.
pub proof fn law_one_measurement_is_injected(
    platform: TeePlatform,
    mr_config_id: Seq<char>,
    hostdata: Seq<char>,
    oem_strings: Seq<Seq<char>>,
)
    ensures
        forall|key: Seq<char>| #[trigger]
            payload(platform, mr_config_id, hostdata, oem_strings).contains_key(key) <==> {
                ||| key == "oemStrings"@
                ||| platform == TeePlatform::Tdx && key == "mrConfigId"@
                ||| platform == TeePlatform::Snp && key == "hostData"@
            },
        platform == TeePlatform::Tdx ==> payload(
            platform,
            mr_config_id,
            hostdata,
            oem_strings,
        )["mrConfigId"@] == Member::Text(mr_config_id),
        platform == TeePlatform::Snp ==> payload(
            platform,
            mr_config_id,
            hostdata,
            oem_strings,
        )["hostData"@] == Member::Text(hostdata),
{
    reveal_strlit("oemStrings");
    reveal_strlit("mrConfigId");
    reveal_strlit("hostData");
    assert("mrConfigId"@[0] != "oemStrings"@[0]);
    assert("hostData"@[0] != "oemStrings"@[0]);
}

/// The paths of a VMI among KubeVirt's subresources, for every namespace and
/// name.
pub proof fn law_subresource_paths(namespace: Seq<char>, name: Seq<char>)
    ensures
        vmi_path(namespace, name) == "/apis/subresources.kubevirt.io/v1/namespaces/"@ + namespace
            + "/virtualmachineinstances/"@ + name,
        unpause_path(namespace, name) == "/apis/subresources.kubevirt.io/v1/namespaces/"@
            + namespace + "/virtualmachineinstances/"@ + name + "/unpause"@,
        inject_path(namespace, name, TeePlatform::Tdx)
            == "/apis/subresources.kubevirt.io/v1/namespaces/"@ + namespace
            + "/virtualmachineinstances/"@ + name + "/tdx/injectInitdata"@,
        inject_path(namespace, name, TeePlatform::Snp)
            == "/apis/subresources.kubevirt.io/v1/namespaces/"@ + namespace
            + "/virtualmachineinstances/"@ + name + "/sev/injectInitdata"@,
{
}

/// A document is put as it is, as JSON, to its path: the outcome is the request
/// that was built, or the text of what kept it from being built.
pub proof fn law_documents_are_put_as_json(path: Seq<char>, body: Seq<u8>)
    ensures
        put_request(path, "Content-Type"@, "application/json"@, body) matches Ok(request)
            ==> put_json_outcome(path, body) == Ok::<_, ErrorView>(request),
        put_request(path, "Content-Type"@, "application/json"@, body) matches Err(text)
            ==> put_json_outcome(path, body) == Err::<http::Request<Vec<u8>>, _>(
            ErrorView::ProvisioningError(text),
        ),
        put_serialized_outcome(path, Ok(body)) == put_json_outcome(path, body),
{
}

/// Where a document cannot be serialized nothing is put, and the error holds the
/// text of the failure. So it is where a request cannot be built.
pub proof fn law_failures_are_told(path: Seq<char>, text: Seq<char>, request: http::Request<Vec<u8>>)
    ensures
        put_serialized_outcome(path, Err(text)) == Err::<http::Request<Vec<u8>>, _>(
            ErrorView::ProvisioningError(text),
        ),
        built_outcome(Err(text)) == Err::<http::Request<Vec<u8>>, _>(
            ErrorView::ProvisioningError(text),
        ),
        built_outcome(Ok(request)) == Ok::<_, ErrorView>(request),
{
}

/// The body that unpauses a VMI is two bytes: an opening and a closing brace.
pub proof fn law_unpause_body()
    ensures
        empty_object().len() == 2,
        empty_object()[0] as char == '{',
        empty_object()[1] as char == '}',
{
}

} // verus!
