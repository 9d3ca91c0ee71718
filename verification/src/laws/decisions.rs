//! What the controller decides and calls for, in terms of the objects and the
//! answers themselves.

use vstd::prelude::*;
use vstd::utf8::encode_utf8;

use crate::controller::{
    awaited_call, first_step, init_data_for, init_data_ref, next_step, owned_by, owned_by_another,
    Action, AnswerView, CallView, PendingView, StepView, TargetView, TeePlatform,
};
use crate::encoding::{base64_text, sha256_digest, sha384_digest};
use crate::error::{ApiErrorView, ErrorView};
use crate::laws::law_initdata_names_kbs_and_resource;
use crate::resource::{InitDataView, VirtualMachineInstanceView};
use crate::status::status_text;
use crate::trustee::{ProvisionedDataView, TrusteeReplyView};

verus! {

/// Name, namespace and identity of a VMI are those of its metadata. Without them
/// the name and the identity are empty and the namespace is `default`. A VMI is
/// deleted once it has a deletion timestamp.
pub proof fn law_identity_is_in_the_metadata(vmi: VirtualMachineInstanceView)
    ensures
        vmi.metadata.name matches Some(name) ==> vmi.name() == name,
        vmi.metadata.name is None ==> vmi.name().len() == 0,
        vmi.metadata.namespace matches Some(namespace) ==> vmi.namespace() == namespace,
        vmi.metadata.namespace is None ==> vmi.namespace() == "default"@,
        vmi.metadata.uid matches Some(uid) ==> vmi.uid() == uid,
        vmi.metadata.uid is None ==> vmi.uid().len() == 0,
        vmi.is_deleted() <==> vmi.metadata.deletion_timestamp is Some,
{
    reveal_strlit("");
}

/// A VMI carries the operator's finalizer if and only if that finalizer stands
/// anywhere in its list, whatever stands around it.
pub proof fn law_finalizer_counts_at_any_index(vmi: VirtualMachineInstanceView)
    ensures
        vmi.has_finalizer() <==> {
            &&& vmi.metadata.finalizers matches Some(finalizers)
            &&& exists|i: int|
                0 <= i < finalizers.len() && #[trigger] finalizers[i]
                    == "provisioner-operator.confidentialcontainers.io/cleanup"@
        },
{
}

/// The cleanup after a deleted VMI begins with the news to Trustee if and only
/// if the operator's finalizer stands anywhere in its list; otherwise nothing is
/// done.
pub proof fn law_cleanup_begins_with_the_notice(vmi: VirtualMachineInstanceView)
    requires
        vmi.metadata.deletion_timestamp is Some,
    ensures
        first_step(vmi) == StepView::Wait(PendingView::NotifyTrustee) <==> {
            &&& vmi.metadata.finalizers matches Some(finalizers)
            &&& exists|i: int|
                0 <= i < finalizers.len() && #[trigger] finalizers[i]
                    == "provisioner-operator.confidentialcontainers.io/cleanup"@
        },
        first_step(vmi) != StepView::Wait(PendingView::NotifyTrustee) ==> first_step(vmi)
            == StepView::Done(Ok(Action::AwaitChange)),
{
}

/// A name under TDX that is not empty is the reference, for TDX. Where there is
/// none, a name under SEV-SNP that is not empty is the reference, for SEV-SNP.
/// Nothing else of the VMI plays a part.
pub proof fn law_reference_is_the_named_one(vmi: VirtualMachineInstanceView, name: Seq<char>)
    ensures
        init_data_ref(vmi) == Some((name, TeePlatform::Tdx)) <==> {
            &&& name.len() > 0
            &&& vmi.spec.domain matches Some(domain)
            &&& domain.launch_security matches Some(security)
            &&& security.tdx matches Some(tdx)
            &&& tdx.init_data_ref == name
        },
        init_data_ref(vmi) == Some((name, TeePlatform::Snp)) <==> {
            &&& name.len() > 0
            &&& vmi.spec.domain matches Some(domain)
            &&& domain.launch_security matches Some(security)
            &&& security.sev_snp matches Some(snp)
            &&& snp.init_data_ref == name
            &&& security.tdx matches Some(tdx) ==> tdx.init_data_ref.len() == 0
        },
{
}

/// Nothing is detected only where neither platform is given a name that is not
/// empty.
pub proof fn law_no_reference_without_a_reason(vmi: VirtualMachineInstanceView)
    ensures
        init_data_ref(vmi) is None <==> {
            vmi.spec.domain matches Some(domain) ==> domain.launch_security matches Some(security)
                ==> {
                &&& security.tdx matches Some(tdx) ==> tdx.init_data_ref.len() == 0
                &&& security.sev_snp matches Some(snp) ==> snp.init_data_ref.len() == 0
            }
        },
{
}

/// The reconciliation of a live VMI begins with a lookup of the name under TDX,
/// or else of the name under SEV-SNP; without such a name it is over, for 300
/// seconds.
pub proof fn law_live_vmi_begins_with_a_lookup(vmi: VirtualMachineInstanceView)
    requires
        vmi.metadata.deletion_timestamp is None,
    ensures
        vmi.spec.domain is None ==> first_step(vmi) == StepView::Done(Ok(Action::Requeue(300))),
        vmi.spec.domain matches Some(domain) ==> {
            &&& domain.launch_security is None ==> first_step(vmi) == StepView::Done(
                Ok(Action::Requeue(300)),
            )
            &&& domain.launch_security matches Some(security) ==> {
                let tdx = security.tdx is Some && security.tdx->0.init_data_ref.len() > 0;
                let snp = security.sev_snp is Some && security.sev_snp->0.init_data_ref.len() > 0;
                &&& tdx ==> first_step(vmi) == StepView::Wait(
                    PendingView::Lookup(
                        TargetView {
                            init_data_ref: security.tdx->0.init_data_ref,
                            platform: TeePlatform::Tdx,
                        },
                    ),
                )
                &&& !tdx && snp ==> first_step(vmi) == StepView::Wait(
                    PendingView::Lookup(
                        TargetView {
                            init_data_ref: security.sev_snp->0.init_data_ref,
                            platform: TeePlatform::Snp,
                        },
                    ),
                )
                &&& !tdx && !snp ==> first_step(vmi) == StepView::Done(Ok(Action::Requeue(300)))
            }
        },
{
}

/// An `InitData` belongs to the VMI that its first owner reference names by kind,
/// name and identity, and to another VMI where the kind agrees and the name or
/// the identity does not. No other field and no other owner plays a part.
pub proof fn law_first_owner_tells(init_data: InitDataView, vmi: VirtualMachineInstanceView)
    ensures
        owned_by(init_data, vmi) <==> {
            &&& init_data.metadata.owner_references matches Some(owners)
            &&& owners.len() > 0
            &&& owners[0].kind == "VirtualMachineInstance"@
            &&& owners[0].name == vmi.name()
            &&& owners[0].uid == vmi.uid()
        },
        owned_by_another(init_data, vmi) <==> {
            &&& init_data.metadata.owner_references matches Some(owners)
            &&& owners.len() > 0
            &&& owners[0].kind == "VirtualMachineInstance"@
            &&& owners[0].name == vmi.name() ==> owners[0].uid != vmi.uid()
        },
{
}

/// The `InitData` that is created has exactly one owner reference, on either
/// platform: KubeVirt's version and kind, name and identity of the VMI, and
/// nothing more.
pub proof fn law_created_refers_to_its_vmi(
    vmi: VirtualMachineInstanceView,
    target: TargetView,
    data: ProvisionedDataView,
)
    ensures
        init_data_for(vmi, target, data).metadata.owner_references matches Some(owners) && {
            &&& owners.len() == 1
            &&& owners[0].api_version == "kubevirt.io/v1"@
            &&& owners[0].kind == "VirtualMachineInstance"@
            &&& owners[0].name == vmi.name()
            &&& owners[0].uid == vmi.uid()
            &&& owners[0].controller is None
            &&& owners[0].block_owner_deletion is None
        },
{
}

/// The `InitData` that is created has the name that the VMI gives, the namespace
/// of the VMI and no more metadata but its owner. It holds the measurement for
/// its platform alone, and on both platforms all the OEM strings.
pub proof fn law_created_holds_the_data(
    vmi: VirtualMachineInstanceView,
    target: TargetView,
    data: ProvisionedDataView,
)
    ensures
        init_data_for(vmi, target, data).metadata.name == Some(target.init_data_ref),
        init_data_for(vmi, target, data).metadata.namespace == Some(vmi.namespace()),
        init_data_for(vmi, target, data).metadata.uid is None,
        init_data_for(vmi, target, data).metadata.deletion_timestamp is None,
        init_data_for(vmi, target, data).metadata.finalizers is None,
        target.platform == TeePlatform::Tdx ==> {
            &&& init_data_for(vmi, target, data).spec.mr_config_id == Some(data.mr_config_id)
            &&& init_data_for(vmi, target, data).spec.host_data is None
        },
        target.platform == TeePlatform::Snp ==> {
            &&& init_data_for(vmi, target, data).spec.mr_config_id is None
            &&& init_data_for(vmi, target, data).spec.host_data == Some(data.hostdata)
        },
        init_data_for(vmi, target, data).spec.oem_strings == data.oem_strings,
        init_data_for(vmi, target, data).status is None,
{
}

/// The first lookup. An `InitData` that is found must have the VMI as its first
/// owner. With the code 404 the provisioning begins, with the finalizer unless it
/// stands in the list. Any other failure ends the reconciliation.
pub proof fn law_first_lookup(
    vmi: VirtualMachineInstanceView,
    kbs_url: Seq<char>,
    target: TargetView,
    answer: Result<InitDataView, ApiErrorView>,
)
    ensures
        answer matches Ok(found) ==> {
            let owned = {
                &&& found.metadata.owner_references matches Some(owners)
                &&& owners.len() > 0
                &&& owners[0].kind == "VirtualMachineInstance"@
                &&& owners[0].name == vmi.name()
                &&& owners[0].uid == vmi.uid()
            };
            next_step(vmi, kbs_url, PendingView::Lookup(target), AnswerView::InitData(answer))
                == StepView::Done(
                if owned {
                    Ok(Action::Requeue(300))
                } else {
                    Err(
                        ErrorView::Provisioning(
                            "InitData "@ + target.init_data_ref
                                + " is already owned by another VMI"@,
                        ),
                    )
                },
            )
        },
        answer matches Err(error) ==> {
            let marked = {
                &&& vmi.metadata.finalizers matches Some(finalizers)
                &&& exists|i: int|
                    0 <= i < finalizers.len() && #[trigger] finalizers[i]
                        == "provisioner-operator.confidentialcontainers.io/cleanup"@
            };
            next_step(vmi, kbs_url, PendingView::Lookup(target), AnswerView::InitData(answer))
                == if error.code != Some(404u16) {
                StepView::Done(Err(ErrorView::Kube(error.message)))
            } else if marked {
                StepView::Wait(PendingView::Recheck(target))
            } else {
                StepView::Wait(PendingView::AddFinalizer(target))
            }
        },
{
}

/// The patch that adds the finalizer. Once it has gone through the `InitData` is
/// looked up again; a failure ends the reconciliation.
pub proof fn law_finalizer_then_second_lookup(
    vmi: VirtualMachineInstanceView,
    kbs_url: Seq<char>,
    target: TargetView,
    answer: Result<(), ApiErrorView>,
)
    ensures
        next_step(vmi, kbs_url, PendingView::AddFinalizer(target), AnswerView::Patched(answer))
            == match answer {
            Ok(_) => StepView::Wait(PendingView::Recheck(target)),
            Err(error) => StepView::Done(Err(ErrorView::Kube(error.message))),
        },
{
}

/// The second lookup. An `InitData` that is found is taken unless its first owner
/// is another VMI. Whatever keeps it from being got, the health check follows.
pub proof fn law_second_lookup(
    vmi: VirtualMachineInstanceView,
    kbs_url: Seq<char>,
    target: TargetView,
    answer: Result<InitDataView, ApiErrorView>,
)
    ensures
        answer matches Ok(found) ==> {
            let foreign = {
                &&& found.metadata.owner_references matches Some(owners)
                &&& owners.len() > 0
                &&& owners[0].kind == "VirtualMachineInstance"@
                &&& owners[0].name == vmi.name() ==> owners[0].uid != vmi.uid()
            };
            next_step(vmi, kbs_url, PendingView::Recheck(target), AnswerView::InitData(answer))
                == StepView::Done(
                if foreign {
                    Err(
                        ErrorView::Provisioning(
                            "InitData "@ + target.init_data_ref
                                + " is already owned by another VMI"@,
                        ),
                    )
                } else {
                    Ok(Action::Requeue(300))
                },
            )
        },
        answer is Err ==> next_step(
            vmi,
            kbs_url,
            PendingView::Recheck(target),
            AnswerView::InitData(answer),
        ) == StepView::Wait(PendingView::Health(target)),
{
}

/// The health check. Any status from 200 to 299 leads on to the provisioning
/// request, for the same target; anything else ends the reconciliation.
pub proof fn law_health_decides(
    vmi: VirtualMachineInstanceView,
    kbs_url: Seq<char>,
    target: TargetView,
    answer: Result<u16, Seq<char>>,
)
    ensures
        next_step(vmi, kbs_url, PendingView::Health(target), AnswerView::Health(answer))
            == match answer {
            Err(reason) => StepView::Done(Err(ErrorView::Http(reason))),
            Ok(code) => if 200 <= code <= 299 {
                StepView::Wait(PendingView::Provision(target))
            } else {
                StepView::Done(
                    Err(
                        ErrorView::ProvisioningError(
                            "Trustee health check failed: HTTP "@ + status_text(code),
                        ),
                    ),
                )
            },
        },
{
}

/// Trustee's reply. With a status from 200 to 299 and a body that can be read it
/// leads to the creation of an `InitData` under the name that the VMI gives, for
/// its platform, whose texts are made of the initdata with the reply's resource
/// path; anything else ends the reconciliation.
pub proof fn law_reply_becomes_init_data(
    vmi: VirtualMachineInstanceView,
    kbs_url: Seq<char>,
    target: TargetView,
    answer: Result<TrusteeReplyView, Seq<char>>,
)
    ensures
        ({
            let step = next_step(
                vmi,
                kbs_url,
                PendingView::Provision(target),
                AnswerView::Provisioned(answer),
            );
            &&& answer matches Err(reason) ==> step == StepView::Done(Err(ErrorView::Http(reason)))
            &&& answer matches Ok(reply) ==> if 200 <= reply.status <= 299 && reply.parsed is Ok {
                &&& step matches StepView::Wait(PendingView::Create(made))
                &&& ({
                    let initdata = encode_utf8(
                        "algorithm = \"sha384\"\nversion = \"0.1.0\"\n\n[data]\n"@
                            + "\"trustee.kbs.url\" = \""@ + kbs_url + "\"\n"@
                            + "\"trustee.kbs.resource\" = \"kbs+provisioner:///"@
                            + reply.parsed->Ok_0.resource_path + "\"\n"@,
                    );
                    &&& made.metadata.name == Some(target.init_data_ref)
                    &&& made.metadata.namespace == Some(vmi.namespace())
                    &&& made.metadata.owner_references matches Some(owners)
                    &&& owners.len() == 1
                    &&& owners[0].api_version == "kubevirt.io/v1"@
                    &&& owners[0].kind == "VirtualMachineInstance"@
                    &&& owners[0].name == vmi.name()
                    &&& owners[0].uid == vmi.uid()
                    &&& made.spec.oem_strings.len() == 1
                    &&& made.spec.oem_strings[0] == base64_text(initdata)
                    &&& target.platform == TeePlatform::Tdx ==> made.spec.mr_config_id == Some(
                        base64_text(sha384_digest(initdata)),
                    ) && made.spec.host_data is None
                    &&& target.platform == TeePlatform::Snp ==> made.spec.host_data == Some(
                        base64_text(sha256_digest(initdata)),
                    ) && made.spec.mr_config_id is None
                })
            } else {
                step matches StepView::Done(Err(ErrorView::ProvisioningError(_)))
            }
        }),
{
    if answer matches Ok(TrusteeReplyView { parsed: Ok(response), .. }) {
        law_initdata_names_kbs_and_resource(kbs_url, answer->Ok_0.parsed->Ok_0.resource_path);
    }
}

/// The creation. It ends the reconciliation, well for 300 seconds or with the
/// failure.
pub proof fn law_creation_ends_it(
    vmi: VirtualMachineInstanceView,
    kbs_url: Seq<char>,
    init_data: InitDataView,
    answer: Result<(), ApiErrorView>,
)
    ensures
        next_step(vmi, kbs_url, PendingView::Create(init_data), AnswerView::Created(answer))
            == match answer {
            Ok(_) => StepView::Done(Ok(Action::Requeue(300))),
            Err(error) => StepView::Done(Err(ErrorView::Kube(error.message))),
        },
{
}

/// The cleanup. Once Trustee has answered, with whatever status, the finalizer is
/// removed, and then the VMI can go. A failure ends the reconciliation.
pub proof fn law_notice_then_removal(
    vmi: VirtualMachineInstanceView,
    kbs_url: Seq<char>,
    told: Result<(), Seq<char>>,
    patched: Result<(), ApiErrorView>,
)
    ensures
        next_step(vmi, kbs_url, PendingView::NotifyTrustee, AnswerView::Deleted(told))
            == match told {
            Ok(_) => StepView::Wait(PendingView::RemoveFinalizer),
            Err(reason) => StepView::Done(Err(ErrorView::Http(reason))),
        },
        next_step(vmi, kbs_url, PendingView::RemoveFinalizer, AnswerView::Patched(patched))
            == match patched {
            Ok(_) => StepView::Done(Ok(Action::AwaitChange)),
            Err(error) => StepView::Done(Err(ErrorView::Kube(error.message))),
        },
{
}

/// An answer to another call than was made leaves the reconciliation where it
/// is.
pub proof fn law_only_its_own_answer_counts(
    vmi: VirtualMachineInstanceView,
    kbs_url: Seq<char>,
    pending: PendingView,
    answer: AnswerView,
)
    requires
        !(answer is InitData) || !(pending is Lookup || pending is Recheck),
        !(answer is Patched) || !(pending is AddFinalizer || pending is RemoveFinalizer),
        !(answer is Health) || !(pending is Health),
        !(answer is Provisioned) || !(pending is Provision),
        !(answer is Created) || !(pending is Create),
        !(answer is Deleted) || !(pending is NotifyTrustee),
    ensures
        next_step(vmi, kbs_url, pending, answer) == StepView::Wait(pending),
{
}

/// Both lookups ask for the named `InitData` in the namespace of the VMI, and the
/// creation is in that namespace too, of the object that was made.
pub proof fn law_init_data_calls(
    vmi: VirtualMachineInstanceView,
    kbs_url: Seq<char>,
    target: TargetView,
    made: InitDataView,
)
    ensures
        awaited_call(vmi, kbs_url, PendingView::Lookup(target)) matches CallView::GetInitData {
            namespace,
            name,
        } && namespace == vmi.namespace() && name == target.init_data_ref,
        awaited_call(vmi, kbs_url, PendingView::Recheck(target)) matches CallView::GetInitData {
            namespace,
            name,
        } && namespace == vmi.namespace() && name == target.init_data_ref,
        awaited_call(vmi, kbs_url, PendingView::Create(made)) matches CallView::CreateInitData {
            namespace,
            init_data,
        } && namespace == vmi.namespace() && init_data == made,
{
}

/// Both patches are of the VMI itself, in the operator's name. The first keeps
/// every finalizer in its place and puts the operator's behind them; the second
/// leaves none.
pub proof fn law_finalizer_calls(
    vmi: VirtualMachineInstanceView,
    kbs_url: Seq<char>,
    target: TargetView,
)
    ensures
        awaited_call(vmi, kbs_url, PendingView::AddFinalizer(target))
            matches CallView::PatchFinalizers { namespace, name, field_manager, finalizers } && {
            let count: nat = match vmi.metadata.finalizers {
                Some(before) => before.len(),
                None => 0,
            };
            &&& namespace == vmi.namespace()
            &&& name == vmi.name()
            &&& field_manager == "provisioner-operator"@
            &&& finalizers.len() == count + 1
            &&& forall|i: int|
                0 <= i < count ==> #[trigger] finalizers[i] == vmi.metadata.finalizers->0[i]
            &&& finalizers[count as int] == "provisioner-operator.confidentialcontainers.io/cleanup"@
            &&& finalizers == vmi.with_ours()
        },
        awaited_call(vmi, kbs_url, PendingView::RemoveFinalizer)
            matches CallView::PatchFinalizers { namespace, name, field_manager, finalizers } && {
            &&& namespace == vmi.namespace()
            &&& name == vmi.name()
            &&& field_manager == "provisioner-operator"@
            &&& finalizers.len() == 0
        },
{
}

/// The three calls of Trustee go to the endpoints of the KBS: the health check,
/// the provisioning request with name and namespace of the VMI, and the record
/// under that namespace and name.
pub proof fn law_trustee_calls(
    vmi: VirtualMachineInstanceView,
    kbs_url: Seq<char>,
    target: TargetView,
)
    ensures
        awaited_call(vmi, kbs_url, PendingView::Health(target)) == (CallView::GetHealth {
            url: kbs_url + "/healthz"@,
        }),
        awaited_call(vmi, kbs_url, PendingView::Provision(target))
            matches CallView::PostProvision { url, vm_name, namespace } && {
            &&& url == kbs_url + "/kbs/v0/provisioner/provision"@
            &&& vm_name == vmi.name()
            &&& namespace == vmi.namespace()
        },
        awaited_call(vmi, kbs_url, PendingView::NotifyTrustee)
            matches CallView::DeleteProvision { url } && url == kbs_url
            + "/kbs/v0/provisioner/provision"@ + "/"@ + vmi.namespace() + "/"@ + vmi.name(),
{
    reveal_strlit("/kbs/v0/provisioner");
    reveal_strlit("/kbs/v0/provisioner/provision");
    reveal_strlit("/provision");
    reveal_strlit("/provision/");
    reveal_strlit("/");
    assert("/kbs/v0/provisioner/provision"@ =~= "/kbs/v0/provisioner"@ + "/provision"@);
    assert("/provision/"@ =~= "/provision"@ + "/"@);
    assert(kbs_url + "/kbs/v0/provisioner"@ + "/provision"@ =~= kbs_url
        + "/kbs/v0/provisioner/provision"@);
    assert(kbs_url + "/kbs/v0/provisioner"@ + "/provision/"@ + vmi.namespace() + "/"@ + vmi.name()
        =~= kbs_url + "/kbs/v0/provisioner/provision"@ + "/"@ + vmi.namespace() + "/"@
        + vmi.name());
}

} // verus!
