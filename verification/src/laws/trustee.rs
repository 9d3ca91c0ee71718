//! What is made of Trustee's answers, in terms of the answers themselves.

use vstd::prelude::*;
use vstd::utf8::encode_utf8;

use crate::config::{health_url, provisioner_url};
use crate::controller::{answer_fits, conflict_error, AnswerView, PendingView};
use crate::encoding::{base64_text, encodable, sha256_digest, sha384_digest};
use crate::error::{ApiErrorView, ErrorView};
use crate::laws::law_initdata_names_kbs_and_resource;
use crate::status::{is_success, status_text};
use crate::trustee::{
    debug_text, derived_data, health_outcome, provision_outcome, provision_url, record_url,
    refusal_error, reply_fits, toml, unhealthy_error, unreadable_error, TrusteeReplyView,
};

verus! {

/// From any initdata come the base64 of its SHA-384 digest, the base64 of its
/// SHA-256 digest and, as the only OEM string, its own base64.
pub proof fn law_derived_from_the_whole_initdata(initdata: Seq<char>)
    ensures
        derived_data(initdata).mr_config_id == base64_text(sha384_digest(encode_utf8(initdata))),
        derived_data(initdata).hostdata == base64_text(sha256_digest(encode_utf8(initdata))),
        derived_data(initdata).oem_strings.len() == 1,
        derived_data(initdata).oem_strings[0] == base64_text(encode_utf8(initdata)),
{
}

/// Success is a status from 200 to 299, and an object is missing where the code
/// is 404.
pub proof fn law_codes(code: u16, error: ApiErrorView)
    ensures
        is_success(code) <==> 200 <= code <= 299,
        error.is_not_found() <==> error.code is Some && error.code->0 == 404,
{
}

/// KBS is healthy if and only if it answers with a status from 200 to 299. The
/// error tells any other status, or why there was none.
pub proof fn law_health(answer: Result<u16, Seq<char>>)
    ensures
        health_outcome(answer) is Ok <==> answer is Ok && 200 <= answer->Ok_0 <= 299,
        answer matches Ok(code) ==> !(200 <= code <= 299) ==> health_outcome(answer)->Err_0
            == ErrorView::ProvisioningError(
            "Trustee health check failed: HTTP "@ + status_text(code),
        ),
        answer matches Err(reason) ==> health_outcome(answer)->Err_0 == ErrorView::Http(reason),
{
}

/// Provisioning succeeds if and only if Trustee answers with a status from 200
/// to 299 and a body that can be read. The data is then made of the initdata
/// with the path that the body gives; the body's other fields play no part.
pub proof fn law_provisioning_succeeds(
    kbs_url: Seq<char>,
    reply: Result<TrusteeReplyView, Seq<char>>,
)
    ensures
        provision_outcome(kbs_url, reply) is Ok <==> {
            &&& reply matches Ok(reply)
            &&& 200 <= reply.status <= 299
            &&& reply.parsed is Ok
        },
        provision_outcome(kbs_url, reply) matches Ok(data) ==> {
            let initdata = encode_utf8(
                "algorithm = \"sha384\"\nversion = \"0.1.0\"\n\n[data]\n"@
                    + "\"trustee.kbs.url\" = \""@ + kbs_url + "\"\n"@
                    + "\"trustee.kbs.resource\" = \"kbs+provisioner:///"@
                    + reply->Ok_0.parsed->Ok_0.resource_path + "\"\n"@,
            );
            &&& data.mr_config_id == base64_text(sha384_digest(initdata))
            &&& data.hostdata == base64_text(sha256_digest(initdata))
            &&& data.oem_strings.len() == 1
            &&& data.oem_strings[0] == base64_text(initdata)
        },
{
    if provision_outcome(kbs_url, reply) is Ok {
        law_initdata_names_kbs_and_resource(kbs_url, reply->Ok_0.parsed->Ok_0.resource_path);
    }
}

/// Where provisioning fails, the error tells why there was no reply, or else
/// the status and the body of the refusal, or else why the body cannot be read.
pub proof fn law_provisioning_fails(kbs_url: Seq<char>, reply: Result<TrusteeReplyView, Seq<char>>)
    ensures
        reply matches Err(reason) ==> provision_outcome(kbs_url, reply)->Err_0 == ErrorView::Http(
            reason,
        ),
        reply matches Ok(refused) ==> !(200 <= refused.status <= 299) ==> provision_outcome(
            kbs_url,
            reply,
        )->Err_0 == ErrorView::ProvisioningError(
            "Trustee returned HTTP "@ + status_text(refused.status) + ": "@ + refused.body,
        ),
        reply matches Ok(accepted) ==> 200 <= accepted.status <= 299 && accepted.parsed is Err
            ==> provision_outcome(kbs_url, reply)->Err_0 == ErrorView::ProvisioningError(
            "Failed to parse Trustee response: "@ + accepted.parsed->Err_0 + " — body was: "@
                + debug_text(accepted.body),
        ),
{
}

/// The texts of the errors, for every status, body, reason and name.
pub proof fn law_error_texts(a: Seq<char>, b: Seq<char>)
    ensures
        unhealthy_error(a) == ErrorView::ProvisioningError(
            "Trustee health check failed: HTTP "@ + a,
        ),
        refusal_error(a, b) == ErrorView::ProvisioningError(
            "Trustee returned HTTP "@ + a + ": "@ + b,
        ),
        unreadable_error(a, b) == ErrorView::ProvisioningError(
            "Failed to parse Trustee response: "@ + a + " — body was: "@ + b,
        ),
        conflict_error(a) == ErrorView::Provisioning(
            "InitData "@ + a + " is already owned by another VMI"@,
        ),
{
}

/// The endpoints of a KBS lie below its URL, for every URL; a record lies below
/// the endpoint for provisioning, first by namespace and then by name.
pub proof fn law_endpoints(kbs_url: Seq<char>, namespace: Seq<char>, name: Seq<char>)
    ensures
        health_url(kbs_url) == kbs_url + "/healthz"@,
        provisioner_url(kbs_url) == kbs_url + "/kbs/v0/provisioner"@,
        provision_url(kbs_url) == kbs_url + "/provision"@,
        record_url(kbs_url, namespace, name) == provision_url(kbs_url) + "/"@ + namespace + "/"@
            + name,
{
    reveal_strlit("/provision");
    reveal_strlit("/provision/");
    reveal_strlit("/");
    assert("/provision/"@ =~= "/provision"@ + "/"@);
    assert(record_url(kbs_url, namespace, name) =~= provision_url(kbs_url) + "/"@ + namespace
        + "/"@ + name);
}

/// Bytes can be put into base64 if and only if four characters for every three
/// bytes begun are no more than an allocation holds.
pub proof fn law_encodable(len: nat)
    ensures
        encodable(len) <==> (len + 2) / 3 * 4 <= isize::MAX,
{
}

/// The only answer that is too large is a reply of Trustee to the provisioning
/// request, with a status from 200 to 299 and a body that can be read, whose
/// initdata has more base64 than an allocation holds.
pub proof fn law_only_large_initdata_does_not_fit(
    kbs_url: Seq<char>,
    pending: PendingView,
    answer: AnswerView,
)
    ensures
        !answer_fits(kbs_url, pending, answer) <==> {
            &&& pending is Provision
            &&& answer matches AnswerView::Provisioned(Ok(reply))
            &&& 200 <= reply.status <= 299
            &&& reply.parsed matches Ok(response)
            &&& (encode_utf8(
                "algorithm = \"sha384\"\nversion = \"0.1.0\"\n\n[data]\n"@
                    + "\"trustee.kbs.url\" = \""@ + kbs_url + "\"\n"@
                    + "\"trustee.kbs.resource\" = \"kbs+provisioner:///"@ + response.resource_path
                    + "\"\n"@,
            ).len() + 2) / 3 * 4 > isize::MAX
        },
        answer matches AnswerView::Provisioned(reply) ==> pending is Provision ==> answer_fits(
            kbs_url,
            pending,
            answer,
        ) == reply_fits(kbs_url, reply),
{
    if answer matches AnswerView::Provisioned(Ok(TrusteeReplyView { parsed: Ok(response), .. })) {
        let path = answer->Provisioned_0->Ok_0.parsed->Ok_0.resource_path;
        law_initdata_names_kbs_and_resource(kbs_url, path);
        law_encodable(encode_utf8(toml(kbs_url, path)).len());
    }
}

} // verus!
