//! What a value holds, its view says field by field: nothing is left out and
//! nothing is added.

use vstd::prelude::*;

use crate::controller::{
    Action, Answer, AnswerView, Call, CallView, Pending, PendingView, Step, StepView, Target,
};
use crate::error::{ApiError, Error, ErrorView};
use crate::json::{document_view, texts};
use crate::kubevirt::build_view;
use crate::resource::{InitData, ObjectMeta, OwnerReference, VirtualMachineInstance};
use crate::status::Status;
use crate::trustee::{
    health_view, outcome_view, reply_view, ProvisionedData, TrusteeReply, TrusteeResponse,
};

verus! {

/// Strings keep their number, their order and their text.
pub proof fn law_view_of_strings(strings: Seq<String>, list: Vec<String>)
    ensures
        texts(strings).len() == strings.len(),
        forall|i: int| 0 <= i < strings.len() ==> #[trigger] texts(strings)[i] == strings[i]@,
        list.deep_view().len() == list@.len(),
        forall|i: int| 0 <= i < list@.len() ==> #[trigger] list.deep_view()[i] == list@[i]@,
{
}

/// The view of an owner reference.
pub proof fn law_view_of_owner(owner: OwnerReference)
    ensures
        owner.deep_view().api_version == owner.api_version@,
        owner.deep_view().kind == owner.kind@,
        owner.deep_view().name == owner.name@,
        owner.deep_view().uid == owner.uid@,
        owner.deep_view().controller == owner.controller,
        owner.deep_view().block_owner_deletion == owner.block_owner_deletion,
{
}

/// The view of the metadata of an object.
pub proof fn law_view_of_metadata(metadata: ObjectMeta)
    ensures
        metadata.deep_view().name == (match metadata.name {
            Some(text) => Some(text@),
            None => None,
        }),
        metadata.deep_view().namespace == (match metadata.namespace {
            Some(text) => Some(text@),
            None => None,
        }),
        metadata.deep_view().uid == (match metadata.uid {
            Some(text) => Some(text@),
            None => None,
        }),
        metadata.deep_view().deletion_timestamp == (match metadata.deletion_timestamp {
            Some(text) => Some(text@),
            None => None,
        }),
        metadata.deep_view().finalizers is Some <==> metadata.finalizers is Some,
        metadata.finalizers matches Some(finalizers) ==> {
            let viewed = metadata.deep_view().finalizers->0;
            &&& viewed.len() == finalizers@.len()
            &&& forall|i: int| 0 <= i < viewed.len() ==> #[trigger] viewed[i] == finalizers@[i]@
        },
        metadata.deep_view().owner_references is Some <==> metadata.owner_references is Some,
        metadata.owner_references matches Some(owners) ==> {
            let viewed = metadata.deep_view().owner_references->0;
            &&& viewed.len() == owners@.len()
            &&& forall|i: int|
                0 <= i < viewed.len() ==> #[trigger] viewed[i] == owners@[i].deep_view()
        },
{
}

/// The view of a VMI.
pub proof fn law_view_of_vmi(vmi: VirtualMachineInstance)
    ensures
        vmi.deep_view().metadata == vmi.metadata.deep_view(),
        vmi.deep_view().status is Some <==> vmi.status is Some,
        vmi.deep_view().spec.domain is Some <==> vmi.spec.domain is Some,
        vmi.spec.domain matches Some(domain) ==> {
            &&& vmi.deep_view().spec.domain->0.launch_security is Some
                <==> domain.launch_security is Some
            &&& domain.launch_security matches Some(security) ==> {
                let viewed = vmi.deep_view().spec.domain->0.launch_security->0;
                &&& viewed.tdx is Some <==> security.tdx is Some
                &&& security.tdx matches Some(tdx) ==> viewed.tdx->0.init_data_ref
                    == tdx.init_data_ref@
                &&& viewed.sev_snp is Some <==> security.sev_snp is Some
                &&& security.sev_snp matches Some(snp) ==> viewed.sev_snp->0.init_data_ref
                    == snp.init_data_ref@
            }
        },
{
}

/// The view of an `InitData`.
pub proof fn law_view_of_init_data(init_data: InitData)
    ensures
        init_data.deep_view().metadata == init_data.metadata.deep_view(),
        init_data.deep_view().spec.mr_config_id == (match init_data.spec.mr_config_id {
            Some(text) => Some(text@),
            None => None,
        }),
        init_data.deep_view().spec.host_data == (match init_data.spec.host_data {
            Some(text) => Some(text@),
            None => None,
        }),
        init_data.deep_view().spec.oem_strings.len() == init_data.spec.oem_strings@.len(),
        forall|i: int|
            0 <= i < init_data.spec.oem_strings@.len()
                ==> #[trigger] init_data.deep_view().spec.oem_strings[i]
                == init_data.spec.oem_strings@[i]@,
        init_data.deep_view().status == init_data.status,
{
}

/// The views of errors keep their kind, their code and their text.
pub proof fn law_view_of_errors(text: String, api_error: ApiError)
    ensures
        Error::Provisioning(text).deep_view() == ErrorView::Provisioning(text@),
        Error::ProvisioningError(text).deep_view() == ErrorView::ProvisioningError(text@),
        Error::Kube(text).deep_view() == ErrorView::Kube(text@),
        Error::Http(text).deep_view() == ErrorView::Http(text@),
        api_error.deep_view().code == api_error.code,
        api_error.deep_view().message == api_error.message@,
{
}

/// The views of Trustee's replies and of the data made of them.
pub proof fn law_view_of_replies(
    response: TrusteeResponse,
    reply: TrusteeReply,
    data: ProvisionedData,
)
    ensures
        response.deep_view().uuid == response.uuid@,
        response.deep_view().resource_path == response.resource_path@,
        reply.deep_view().status == reply.status.deep_view(),
        reply.deep_view().body == reply.body@,
        reply.parsed matches Ok(parsed) ==> reply.deep_view().parsed matches Ok(viewed) && viewed
            == parsed.deep_view(),
        reply.parsed matches Err(reason) ==> reply.deep_view().parsed matches Err(viewed) && viewed
            == reason@,
        data.deep_view().mr_config_id == data.mr_config_id@,
        data.deep_view().hostdata == data.hostdata@,
        data.deep_view().oem_strings.len() == data.oem_strings@.len(),
        forall|i: int|
            0 <= i < data.oem_strings@.len() ==> #[trigger] data.deep_view().oem_strings[i]
                == data.oem_strings@[i]@,
{
}

/// The views of outcomes tell success from failure and keep what either holds.
pub proof fn law_view_of_outcomes(
    health: Result<Status, String>,
    reply: Result<TrusteeReply, String>,
    outcome: Result<ProvisionedData, Error>,
    document: Result<Vec<u8>, String>,
)
    ensures
        health matches Ok(status) ==> health_view(health) matches Ok(viewed) && viewed
            == status.deep_view(),
        health matches Err(reason) ==> health_view(health) matches Err(viewed) && viewed == reason@,
        reply matches Ok(value) ==> reply_view(reply) matches Ok(viewed) && viewed
            == value.deep_view(),
        reply matches Err(reason) ==> reply_view(reply) matches Err(viewed) && viewed == reason@,
        outcome matches Ok(data) ==> outcome_view(outcome) matches Ok(viewed) && viewed
            == data.deep_view(),
        outcome matches Err(error) ==> outcome_view(outcome) matches Err(viewed) && viewed
            == error.deep_view(),
        document matches Ok(bytes) ==> document_view(document) matches Ok(viewed) && viewed
            == bytes@,
        document matches Err(text) ==> document_view(document) matches Err(viewed) && viewed
            == text@,
{
}

/// The views of requests tell success from failure and keep what either holds.
pub proof fn law_view_of_requests(
    built: Result<http::Request<Vec<u8>>, String>,
    outcome: Result<http::Request<Vec<u8>>, Error>,
)
    ensures
        built matches Ok(request) ==> build_view(built) matches Ok(viewed) && viewed == request,
        built matches Err(text) ==> build_view(built) matches Err(viewed) && viewed == text@,
        outcome matches Ok(request) ==> crate::kubevirt::outcome_view(outcome) matches Ok(viewed)
            && viewed == request,
        outcome matches Err(error) ==> crate::kubevirt::outcome_view(outcome) matches Err(viewed)
            && viewed == error.deep_view(),
{
}

/// The views of what a reconciliation waits for.
pub proof fn law_view_of_pending(target: Target, init_data: InitData)
    ensures
        target.deep_view().init_data_ref == target.init_data_ref@,
        target.deep_view().platform == target.platform,
        Pending::Lookup(target).deep_view() == PendingView::Lookup(target.deep_view()),
        Pending::AddFinalizer(target).deep_view() == PendingView::AddFinalizer(target.deep_view()),
        Pending::Recheck(target).deep_view() == PendingView::Recheck(target.deep_view()),
        Pending::Health(target).deep_view() == PendingView::Health(target.deep_view()),
        Pending::Provision(target).deep_view() == PendingView::Provision(target.deep_view()),
        Pending::Create(init_data).deep_view() == PendingView::Create(init_data.deep_view()),
        Pending::NotifyTrustee.deep_view() == PendingView::NotifyTrustee,
        Pending::RemoveFinalizer.deep_view() == PendingView::RemoveFinalizer,
{
}

/// The views of where a reconciliation stands.
pub proof fn law_view_of_steps(pending: Pending, action: Action, error: Error)
    ensures
        Step::Wait(pending).deep_view() == StepView::Wait(pending.deep_view()),
        Step::Done(Ok(action)).deep_view() == StepView::Done(Ok(action)),
        Step::Done(Err(error)).deep_view() == StepView::Done(Err(error.deep_view())),
{
}

/// The views of the calls.
pub proof fn law_view_of_calls(
    a: String,
    b: String,
    c: String,
    finalizers: Vec<String>,
    init_data: &InitData,
)
    ensures
        (Call::GetInitData { namespace: a, name: b }).deep_view() == (CallView::GetInitData {
            namespace: a@,
            name: b@,
        }),
        (Call::PatchFinalizers {
            namespace: a,
            name: b,
            field_manager: c,
            finalizers,
        }).deep_view() == (CallView::PatchFinalizers {
            namespace: a@,
            name: b@,
            field_manager: c@,
            finalizers: finalizers.deep_view(),
        }),
        (Call::GetHealth { url: a }).deep_view() == (CallView::GetHealth { url: a@ }),
        (Call::PostProvision { url: a, vm_name: b, namespace: c }).deep_view()
            == (CallView::PostProvision { url: a@, vm_name: b@, namespace: c@ }),
        (Call::CreateInitData { namespace: a, init_data }).deep_view()
            == (CallView::CreateInitData { namespace: a@, init_data: init_data.deep_view() }),
        (Call::DeleteProvision { url: a }).deep_view() == (CallView::DeleteProvision { url: a@ }),
{
}

/// The views of the answers.
pub proof fn law_view_of_answers(
    found: InitData,
    error: ApiError,
    reason: String,
    status: Status,
    reply: TrusteeReply,
)
    ensures
        Answer::InitData(Ok(found)).deep_view() == AnswerView::InitData(Ok(found.deep_view())),
        Answer::InitData(Err(error)).deep_view() == AnswerView::InitData(Err(error.deep_view())),
        Answer::Patched(Ok(())).deep_view() matches AnswerView::Patched(Ok(_)),
        Answer::Patched(Err(error)).deep_view() == AnswerView::Patched(Err(error.deep_view())),
        Answer::Health(Ok(status)).deep_view() == AnswerView::Health(Ok(status.deep_view())),
        Answer::Health(Err(reason)).deep_view() == AnswerView::Health(Err(reason@)),
        Answer::Provisioned(Ok(reply)).deep_view() == AnswerView::Provisioned(
            Ok(reply.deep_view()),
        ),
        Answer::Provisioned(Err(reason)).deep_view() == AnswerView::Provisioned(Err(reason@)),
        Answer::Created(Ok(())).deep_view() matches AnswerView::Created(Ok(_)),
        Answer::Created(Err(error)).deep_view() == AnswerView::Created(Err(error.deep_view())),
        Answer::Deleted(Ok(())).deep_view() matches AnswerView::Deleted(Ok(_)),
        Answer::Deleted(Err(reason)).deep_view() == AnswerView::Deleted(Err(reason@)),
{
}

} // verus!
