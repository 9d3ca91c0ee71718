//! What holds of reconciliations as a whole; and, in the modules below, of each
//! decision, of Trustee's answers, of the requests to KubeVirt and of the views.

pub mod decisions;
pub mod kubevirt;
pub mod trustee;
pub mod views;

use vstd::prelude::*;
use vstd::utf8::encode_utf8;

use crate::config::provisioner_url;
use crate::controller::{
    answers, awaited_call, cleanup_start, conflict_error, failed, first_step, init_data_for,
    init_data_ref, next_step, owned_by, owned_by_another, owner_reference, provisioning_start,
    settled, Action, AnswerView, CallView, PendingView, StepView, TargetView, TeePlatform,
    RESYNC_SECONDS,
};
use crate::encoding::{base64_text, encodable, sha256_digest, sha384_digest};
use crate::error::ErrorView;
use crate::resource::{
    InitDataView, ObjectMetaView, VirtualMachineInstanceView, FINALIZER, VMI_KIND,
};
use crate::status::is_success;
use crate::trustee::{
    decodable, derived_data, provision_outcome, provision_url, toml, ProvisionedDataView,
    TrusteeReplyView, TOML_HEAD, TOML_MIDDLE, TOML_TAIL,
};

verus! {

/// Where the reconciliation of `vmi` stands after the answers in `history`.
pub open spec fn run(
    vmi: VirtualMachineInstanceView,
    kbs_url: Seq<char>,
    history: Seq<AnswerView>,
) -> StepView
    decreases history.len(),
{
    if history.len() == 0 {
        first_step(vmi)
    } else {
        match run(vmi, kbs_url, history.drop_last()) {
            StepView::Wait(pending) => next_step(vmi, kbs_url, pending, history.last()),
            done => done,
        }
    }
}

/// Whether each answer in `history` came while the reconciliation of `vmi`
/// waited for one of its kind.
pub open spec fn orderly(
    vmi: VirtualMachineInstanceView,
    kbs_url: Seq<char>,
    history: Seq<AnswerView>,
) -> bool
    decreases history.len(),
{
    history.len() == 0 || {
        &&& orderly(vmi, kbs_url, history.drop_last())
        &&& run(vmi, kbs_url, history.drop_last()) matches StepView::Wait(pending)
        &&& answers(history.last(), pending)
    }
}

/// The most answers that a reconciliation takes once it waits for `pending`.
pub open spec fn answers_left(pending: PendingView) -> nat {
    match pending {
        PendingView::Lookup(_) => 6,
        PendingView::AddFinalizer(_) => 5,
        PendingView::Recheck(_) => 4,
        PendingView::Health(_) => 3,
        PendingView::Provision(_) => 2,
        PendingView::Create(_) => 1,
        PendingView::NotifyTrustee => 2,
        PendingView::RemoveFinalizer => 1,
    }
}

/// `vmi` with its finalizers set to `finalizers`.
pub open spec fn with_finalizers(
    vmi: VirtualMachineInstanceView,
    finalizers: Seq<Seq<char>>,
) -> VirtualMachineInstanceView {
    VirtualMachineInstanceView {
        metadata: ObjectMetaView { finalizers: Some(finalizers), ..vmi.metadata },
        ..vmi
    }
}

/// Whether the first answers in `history` are those with which the
/// provisioning of `vmi` gets past its finalizer: its `InitData` was not found,
/// and the patch that adds the finalizer, where it is needed, went through.
pub open spec fn finalized(vmi: VirtualMachineInstanceView, history: Seq<AnswerView>) -> bool {
    &&& history.len() > 0
    &&& history[0] matches AnswerView::InitData(Err(error))
    &&& error.is_not_found()
    &&& !vmi.has_finalizer() ==> history.len() > 1 && history[1] matches AnswerView::Patched(Ok(_))
}

/// The number of answers after which the finalizer of `vmi` is in place.
pub open spec fn finalized_after(vmi: VirtualMachineInstanceView) -> int {
    if vmi.has_finalizer() {
        1
    } else {
        2
    }
}

/// The target that `vmi` names, if it names one.
pub open spec fn target_of(vmi: VirtualMachineInstanceView) -> Option<TargetView> {
    match init_data_ref(vmi) {
        Some((init_data_ref, platform)) => Some(TargetView { init_data_ref, platform }),
        None => None,
    }
}

/// The answers with which the reconciliation of `vmi` comes to wait for
/// `pending`.
pub open spec fn leads_to(
    vmi: VirtualMachineInstanceView,
    kbs_url: Seq<char>,
    history: Seq<AnswerView>,
    pending: PendingView,
) -> bool {
    let k = finalized_after(vmi);
    match pending {
        PendingView::Lookup(target) => {
            &&& !vmi.is_deleted()
            &&& target_of(vmi) == Some(target)
            &&& history.len() == 0
        },
        PendingView::AddFinalizer(target) => {
            &&& !vmi.is_deleted()
            &&& target_of(vmi) == Some(target)
            &&& !vmi.has_finalizer()
            &&& history.len() == 1
            &&& history[0] matches AnswerView::InitData(Err(error))
            &&& error.is_not_found()
        },
        PendingView::Recheck(target) => {
            &&& !vmi.is_deleted()
            &&& target_of(vmi) == Some(target)
            &&& finalized(vmi, history)
            &&& history.len() == k
        },
        PendingView::Health(target) => {
            &&& !vmi.is_deleted()
            &&& target_of(vmi) == Some(target)
            &&& finalized(vmi, history)
            &&& history.len() == k + 1
            &&& history[k] matches AnswerView::InitData(Err(_))
        },
        PendingView::Provision(target) => {
            &&& !vmi.is_deleted()
            &&& target_of(vmi) == Some(target)
            &&& finalized(vmi, history)
            &&& history.len() == k + 2
            &&& history[k] matches AnswerView::InitData(Err(_))
            &&& history[k + 1] matches AnswerView::Health(Ok(status))
            &&& is_success(status)
        },
        PendingView::Create(init_data) => {
            &&& !vmi.is_deleted()
            &&& finalized(vmi, history)
            &&& history.len() == k + 3
            &&& history[k] matches AnswerView::InitData(Err(_))
            &&& history[k + 1] matches AnswerView::Health(Ok(status))
            &&& is_success(status)
            &&& history[k + 2] matches AnswerView::Provisioned(reply)
            &&& provision_outcome(kbs_url, reply) matches Ok(data)
            &&& target_of(vmi) matches Some(target)
            &&& init_data == init_data_for(vmi, target, data)
        },
        PendingView::NotifyTrustee => {
            &&& vmi.is_deleted()
            &&& vmi.has_finalizer()
            &&& history.len() == 0
        },
        PendingView::RemoveFinalizer => {
            &&& vmi.is_deleted()
            &&& vmi.has_finalizer()
            &&& history.len() == 1
            &&& history[0] matches AnswerView::Deleted(Ok(_))
        },
    }
}

/// What a reconciliation waits for tells which answers it has had, and in which
/// order: the `InitData` was not found, the finalizer is in place, the `InitData`
/// could not be got a second time, KBS is healthy, Trustee gave the data. For a
/// deleted VMI, that Trustee has answered the news.
pub proof fn law_history(
    vmi: VirtualMachineInstanceView,
    kbs_url: Seq<char>,
    history: Seq<AnswerView>,
)
    requires
        orderly(vmi, kbs_url, history),
    ensures
        run(vmi, kbs_url, history) matches StepView::Wait(pending) ==> leads_to(
            vmi,
            kbs_url,
            history,
            pending,
        ),
    decreases history.len(),
{
    if history.len() > 0 {
        let before = history.drop_last();
        law_history(vmi, kbs_url, before);
        assert(forall|i: int| 0 <= i < before.len() ==> before[i] == history[i]);
    }
}

/// Those answers, in that order, are also enough: after them the reconciliation
/// waits for `pending`.
pub proof fn law_progress(
    vmi: VirtualMachineInstanceView,
    kbs_url: Seq<char>,
    history: Seq<AnswerView>,
    pending: PendingView,
)
    requires
        leads_to(vmi, kbs_url, history, pending),
    ensures
        orderly(vmi, kbs_url, history),
        run(vmi, kbs_url, history) == StepView::Wait(pending),
    decreases history.len(),
{
    if history.len() > 0 {
        let before = history.drop_last();
        assert(forall|i: int| 0 <= i < before.len() ==> before[i] == history[i]);
        let earlier = match pending {
            PendingView::AddFinalizer(target) => PendingView::Lookup(target),
            PendingView::Recheck(target) => if vmi.has_finalizer() {
                PendingView::Lookup(target)
            } else {
                PendingView::AddFinalizer(target)
            },
            PendingView::Health(target) => PendingView::Recheck(target),
            PendingView::Provision(target) => PendingView::Health(target),
            PendingView::Create(_) => PendingView::Provision(target_of(vmi)->0),
            _ => PendingView::NotifyTrustee,
        };
        law_progress(vmi, kbs_url, before, earlier);
    }
}

/// An answer of the kind that is waited for brings a reconciliation nearer to
/// its end.
pub proof fn law_answers_advance(
    vmi: VirtualMachineInstanceView,
    kbs_url: Seq<char>,
    pending: PendingView,
    answer: AnswerView,
)
    requires
        answers(answer, pending),
    ensures
        next_step(vmi, kbs_url, pending, answer) matches StepView::Wait(next) ==> answers_left(next)
            < answers_left(pending),
{
}

/// An answer of any other kind changes nothing.
pub proof fn law_stray_answers_change_nothing(
    vmi: VirtualMachineInstanceView,
    kbs_url: Seq<char>,
    pending: PendingView,
    answer: AnswerView,
)
    requires
        !answers(answer, pending),
    ensures
        next_step(vmi, kbs_url, pending, answer) == StepView::Wait(pending),
{
}

/// Every reconciliation is over after at most six answers, and that of a
/// deleted VMI after at most two.
pub proof fn law_run_ends(
    vmi: VirtualMachineInstanceView,
    kbs_url: Seq<char>,
    history: Seq<AnswerView>,
)
    requires
        orderly(vmi, kbs_url, history),
    ensures
        history.len() <= 6,
        vmi.is_deleted() ==> history.len() <= 2,
        run(vmi, kbs_url, history) matches StepView::Wait(pending) ==> history.len()
            + answers_left(pending) <= if vmi.is_deleted() {
            2nat
        } else {
            6nat
        },
    decreases history.len(),
{
    if history.len() > 0 {
        law_run_ends(vmi, kbs_url, history.drop_last());
    }
}

/// An `InitData` is created only for a live VMI that names one, after it was not
/// found and could not be got a second time, with the finalizer in place and KBS
/// healthy; and it is made of the data that Trustee gave.
pub proof fn law_creation_is_earned(
    vmi: VirtualMachineInstanceView,
    kbs_url: Seq<char>,
    history: Seq<AnswerView>,
    init_data: InitDataView,
)
    requires
        orderly(vmi, kbs_url, history),
        run(vmi, kbs_url, history) == StepView::Wait(PendingView::Create(init_data)),
    ensures
        !vmi.is_deleted(),
        finalized(vmi, history),
        history.len() == finalized_after(vmi) + 3,
        history[finalized_after(vmi)] matches AnswerView::InitData(Err(_)),
        history[finalized_after(vmi) + 1] matches AnswerView::Health(Ok(status)) && is_success(
            status,
        ),
        history.last() matches AnswerView::Provisioned(reply) && provision_outcome(
            kbs_url,
            reply,
        ) matches Ok(data) && target_of(vmi) matches Some(target) && init_data == init_data_for(
            vmi,
            target,
            data,
        ),
{
    law_history(vmi, kbs_url, history);
}

/// Once the `InitData` is created the VMI is as it should be.
pub proof fn law_creation_settles(
    vmi: VirtualMachineInstanceView,
    kbs_url: Seq<char>,
    history: Seq<AnswerView>,
    init_data: InitDataView,
)
    requires
        leads_to(vmi, kbs_url, history, PendingView::Create(init_data)),
    ensures
        orderly(vmi, kbs_url, history.push(AnswerView::Created(Ok(())))),
        run(vmi, kbs_url, history.push(AnswerView::Created(Ok(())))) == settled(),
{
    law_progress(vmi, kbs_url, history, PendingView::Create(init_data));
    assert(history.push(AnswerView::Created(Ok(()))).drop_last() =~= history);
}

/// Once Trustee has been told of the deletion of a VMI that carries the
/// finalizer, and the finalizer is removed, the VMI can go.
pub proof fn law_cleanup_settles(vmi: VirtualMachineInstanceView, kbs_url: Seq<char>)
    requires
        vmi.is_deleted(),
        vmi.has_finalizer(),
    ensures
        run(vmi, kbs_url, seq![AnswerView::Deleted(Ok(())), AnswerView::Patched(Ok(()))])
            == StepView::Done(Ok(Action::AwaitChange)),
{
    let told = seq![AnswerView::Deleted(Ok(()))];
    law_progress(vmi, kbs_url, told, PendingView::RemoveFinalizer);
    assert(seq![AnswerView::Deleted(Ok(())), AnswerView::Patched(Ok(()))].drop_last() =~= told);
}

/// Trustee is asked for data only right after KBS proved healthy, and with the
/// finalizer in place.
pub proof fn law_health_before_provisioning(
    vmi: VirtualMachineInstanceView,
    kbs_url: Seq<char>,
    history: Seq<AnswerView>,
    target: TargetView,
)
    requires
        orderly(vmi, kbs_url, history),
        run(vmi, kbs_url, history) == StepView::Wait(PendingView::Provision(target)),
    ensures
        history.last() matches AnswerView::Health(Ok(status)) && is_success(status),
        finalized(vmi, history),
{
    law_history(vmi, kbs_url, history);
}

/// Where the health check fails nothing is provisioned: the reconciliation
/// ends with an error, to be tried again.
pub proof fn law_unhealthy_skips_provisioning(
    vmi: VirtualMachineInstanceView,
    kbs_url: Seq<char>,
    target: TargetView,
    answer: Result<u16, Seq<char>>,
)
    requires
        answer matches Ok(status) ==> !is_success(status),
    ensures
        next_step(vmi, kbs_url, PendingView::Health(target), AnswerView::Health(answer))
            matches StepView::Done(Err(_)),
{
}

/// The finalizer is removed only from a deleted VMI that carries it, and only
/// once Trustee has been told of the deletion.
pub proof fn law_notice_before_removal(
    vmi: VirtualMachineInstanceView,
    kbs_url: Seq<char>,
    history: Seq<AnswerView>,
)
    requires
        orderly(vmi, kbs_url, history),
        run(vmi, kbs_url, history) == StepView::Wait(PendingView::RemoveFinalizer),
    ensures
        vmi.is_deleted(),
        vmi.has_finalizer(),
        history.len() == 1,
        history[0] matches AnswerView::Deleted(Ok(_)),
{
    law_history(vmi, kbs_url, history);
}

/// A deleted VMI is never provisioned: all that its reconciliation waits for is
/// Trustee's answer and the removal of the finalizer. A live VMI is never
/// cleaned up after.
pub proof fn law_deleted_are_only_cleaned_up(
    vmi: VirtualMachineInstanceView,
    kbs_url: Seq<char>,
    history: Seq<AnswerView>,
    pending: PendingView,
)
    requires
        orderly(vmi, kbs_url, history),
        run(vmi, kbs_url, history) == StepView::Wait(pending),
    ensures
        vmi.is_deleted() <==> pending is NotifyTrustee || pending is RemoveFinalizer,
{
    law_history(vmi, kbs_url, history);
}

/// A reconciliation that succeeds looks at a live VMI again after the resync
/// time, and at a deleted one only when it changes.
pub proof fn law_success_outcome(
    vmi: VirtualMachineInstanceView,
    kbs_url: Seq<char>,
    history: Seq<AnswerView>,
    action: Action,
)
    requires
        orderly(vmi, kbs_url, history),
        run(vmi, kbs_url, history) == StepView::Done(Ok(action)),
    ensures
        action == if vmi.is_deleted() {
            Action::AwaitChange
        } else {
            Action::Requeue(RESYNC_SECONDS)
        },
{
    if history.len() > 0 {
        law_history(vmi, kbs_url, history.drop_last());
    }
}

/// A live VMI that names no `InitData` is left alone: nothing is called for.
pub proof fn law_unnamed_is_left_alone(
    vmi: VirtualMachineInstanceView,
    kbs_url: Seq<char>,
    history: Seq<AnswerView>,
)
    requires
        !vmi.is_deleted(),
        init_data_ref(vmi) is None,
    ensures
        run(vmi, kbs_url, history) == settled(),
    decreases history.len(),
{
    if history.len() > 0 {
        law_unnamed_is_left_alone(vmi, kbs_url, history.drop_last());
    }
}

/// A deleted VMI without the finalizer is let go without a word to Trustee.
pub proof fn law_unmarked_is_let_go(
    vmi: VirtualMachineInstanceView,
    kbs_url: Seq<char>,
    history: Seq<AnswerView>,
)
    requires
        vmi.is_deleted(),
        !vmi.has_finalizer(),
    ensures
        run(vmi, kbs_url, history) == StepView::Done(Ok(Action::AwaitChange)),
    decreases history.len(),
{
    if history.len() > 0 {
        law_unmarked_is_let_go(vmi, kbs_url, history.drop_last());
    }
}

/// Where a VMI names an `InitData` both for TDX and for SEV-SNP, the one for TDX
/// counts.
pub proof fn law_tdx_comes_first(vmi: VirtualMachineInstanceView)
    requires
        vmi.spec.domain matches Some(domain) && domain.launch_security matches Some(security)
            && security.tdx matches Some(tdx) && tdx.init_data_ref.len() > 0,
    ensures
        init_data_ref(vmi) == Some(
            (vmi.spec.domain->0.launch_security->0.tdx->0.init_data_ref, TeePlatform::Tdx),
        ),
{
}

/// A reference is never empty.
pub proof fn law_reference_is_not_empty(vmi: VirtualMachineInstanceView)
    ensures
        init_data_ref(vmi) matches Some((name, _)) ==> name.len() > 0,
{
}

/// The `InitData` that is created for a VMI is owned by it.
pub proof fn law_created_is_owned(
    vmi: VirtualMachineInstanceView,
    target: TargetView,
    data: ProvisionedDataView,
)
    ensures
        owned_by(init_data_for(vmi, target, data), vmi),
{
}

/// An `InitData` that the first lookup finds is accepted if the VMI is its first
/// owner; otherwise the VMI is rejected.
pub proof fn law_ownership_decides(
    vmi: VirtualMachineInstanceView,
    kbs_url: Seq<char>,
    history: Seq<AnswerView>,
    target: TargetView,
    found: InitDataView,
)
    requires
        leads_to(vmi, kbs_url, history, PendingView::Lookup(target)),
    ensures
        run(vmi, kbs_url, history.push(AnswerView::InitData(Ok(found)))) == if owned_by(
            found,
            vmi,
        ) {
            settled()
        } else {
            failed(conflict_error(target.init_data_ref))
        },
{
    assert(history.push(AnswerView::InitData(Ok(found))).drop_last() =~= history);
    law_progress(vmi, kbs_url, history, PendingView::Lookup(target));
}

/// An `InitData` that only the second lookup finds is accepted, whether it has an
/// owner or not, unless its first owner is another VMI; then the VMI is rejected.
pub proof fn law_other_owner_decides_second_lookup(
    vmi: VirtualMachineInstanceView,
    kbs_url: Seq<char>,
    history: Seq<AnswerView>,
    target: TargetView,
    found: InitDataView,
)
    requires
        leads_to(vmi, kbs_url, history, PendingView::Recheck(target)),
    ensures
        run(vmi, kbs_url, history.push(AnswerView::InitData(Ok(found)))) == if owned_by_another(
            found,
            vmi,
        ) {
            failed(conflict_error(target.init_data_ref))
        } else {
            settled()
        },
{
    assert(history.push(AnswerView::InitData(Ok(found))).drop_last() =~= history);
    law_progress(vmi, kbs_url, history, PendingView::Recheck(target));
}

/// An `InitData` has one first owner: it is not both the VMI and another. Where
/// that owner is a VMI at all, it is one or the other.
pub proof fn law_one_first_owner(init_data: InitDataView, vmi: VirtualMachineInstanceView)
    ensures
        !(owned_by(init_data, vmi) && owned_by_another(init_data, vmi)),
        owned_by(init_data, vmi) || owned_by_another(init_data, vmi) <==> {
            &&& init_data.metadata.owner_references matches Some(owners)
            &&& owners.len() > 0
            &&& owners[0].kind == VMI_KIND@
        },
{
}

/// Provisioning is done once: when a VMI finds the `InitData` that was created
/// for it, its reconciliation is over at once. The VMI may have changed since,
/// but for its name and identity, and the cluster may have added to the object,
/// but for its owners.
pub proof fn law_provisioned_once(
    vmi: VirtualMachineInstanceView,
    created_for: TargetView,
    data: ProvisionedDataView,
    later: VirtualMachineInstanceView,
    kbs_url: Seq<char>,
    history: Seq<AnswerView>,
    target: TargetView,
    found: InitDataView,
)
    requires
        later.name() == vmi.name(),
        later.uid() == vmi.uid(),
        leads_to(later, kbs_url, history, PendingView::Lookup(target)) || leads_to(
            later,
            kbs_url,
            history,
            PendingView::Recheck(target),
        ),
        found.metadata.owner_references == init_data_for(
            vmi,
            created_for,
            data,
        ).metadata.owner_references,
    ensures
        run(later, kbs_url, history.push(AnswerView::InitData(Ok(found)))) == settled(),
{
    if leads_to(later, kbs_url, history, PendingView::Lookup(target)) {
        law_ownership_decides(later, kbs_url, history, target, found);
    } else {
        law_other_owner_decides_second_lookup(later, kbs_url, history, target, found);
    }
    law_created_is_owned(vmi, created_for, data);
}

/// A VMI that names an `InitData` which was created for a VMI of another name or
/// identity is rejected, whether the first lookup finds it or the second.
pub proof fn law_foreign_init_data_is_rejected(
    owner: VirtualMachineInstanceView,
    created_for: TargetView,
    data: ProvisionedDataView,
    vmi: VirtualMachineInstanceView,
    kbs_url: Seq<char>,
    history: Seq<AnswerView>,
    target: TargetView,
    found: InitDataView,
)
    requires
        vmi.name() != owner.name() || vmi.uid() != owner.uid(),
        leads_to(vmi, kbs_url, history, PendingView::Lookup(target)) || leads_to(
            vmi,
            kbs_url,
            history,
            PendingView::Recheck(target),
        ),
        found.metadata.owner_references == init_data_for(
            owner,
            created_for,
            data,
        ).metadata.owner_references,
    ensures
        run(vmi, kbs_url, history.push(AnswerView::InitData(Ok(found)))) == failed(
            conflict_error(target.init_data_ref),
        ),
{
    if leads_to(vmi, kbs_url, history, PendingView::Lookup(target)) {
        law_ownership_decides(vmi, kbs_url, history, target, found);
    } else {
        law_other_owner_decides_second_lookup(vmi, kbs_url, history, target, found);
    }
    assert(found.metadata.owner_references->0[0] == owner_reference(owner));
}

/// An `InitData` holds the measurement of its platform and not that of the
/// other.
pub proof fn law_one_measurement(
    vmi: VirtualMachineInstanceView,
    target: TargetView,
    data: ProvisionedDataView,
)
    ensures
        init_data_for(vmi, target, data).spec.mr_config_id is Some <==> target.platform
            is Tdx,
        init_data_for(vmi, target, data).spec.host_data is Some <==> target.platform is Snp,
{
}

/// From a reply of Trustee to the `InitData`: it holds the base64 of the
/// initdata, and as the measurement the base64 of its SHA-384 digest for TDX or
/// of its SHA-256 digest for SEV-SNP.
pub proof fn law_init_data_measures_the_initdata(
    vmi: VirtualMachineInstanceView,
    target: TargetView,
    kbs_url: Seq<char>,
    reply: TrusteeReplyView,
    data: ProvisionedDataView,
)
    requires
        provision_outcome(kbs_url, Ok(reply)) == Ok::<ProvisionedDataView, ErrorView>(data),
    ensures
        reply.parsed matches Ok(response) && {
            let initdata = encode_utf8(toml(kbs_url, response.resource_path));
            let spec = init_data_for(vmi, target, data).spec;
            &&& spec.oem_strings == seq![base64_text(initdata)]
            &&& target.platform is Tdx ==> spec.mr_config_id == Some(
                base64_text(sha384_digest(initdata)),
            )
            &&& target.platform is Snp ==> spec.host_data == Some(
                base64_text(sha256_digest(initdata)),
            )
        },
{
}

/// The initdata is a fixed header, which ends with the table `data`, and then a
/// line for the KBS and a line for the resource, which hold the URL and the path
/// as they are.
pub proof fn law_initdata_names_kbs_and_resource(kbs_url: Seq<char>, resource_path: Seq<char>)
    ensures
        exists|head: Seq<char>|
            toml(kbs_url, resource_path) == #[trigger] (head + "\"trustee.kbs.url\" = \""@)
                + kbs_url + "\"\n"@ + "\"trustee.kbs.resource\" = \"kbs+provisioner:///"@
                + resource_path + "\"\n"@,
        toml(kbs_url, resource_path)
            == "algorithm = \"sha384\"\nversion = \"0.1.0\"\n\n[data]\n"@
            + "\"trustee.kbs.url\" = \""@ + kbs_url + "\"\n"@
            + "\"trustee.kbs.resource\" = \"kbs+provisioner:///"@ + resource_path + "\"\n"@,
{
    reveal_strlit(
        "algorithm = \"sha384\"\nversion = \"0.1.0\"\n\n[data]\n\"trustee.kbs.url\" = \"",
    );
    reveal_strlit("\"trustee.kbs.url\" = \"");
    reveal_strlit("\"\n\"trustee.kbs.resource\" = \"kbs+provisioner:///");
    reveal_strlit("\"trustee.kbs.resource\" = \"kbs+provisioner:///");
    reveal_strlit("\"\n");
    let url_key = "\"trustee.kbs.url\" = \""@;
    let head = TOML_HEAD@.take(TOML_HEAD@.len() - url_key.len());
    assert(TOML_HEAD@ =~= head + url_key);
    assert(TOML_MIDDLE@ =~= "\"\n"@ + "\"trustee.kbs.resource\" = \"kbs+provisioner:///"@);
    assert(toml(kbs_url, resource_path) =~= (head + url_key) + kbs_url + "\"\n"@
        + "\"trustee.kbs.resource\" = \"kbs+provisioner:///"@ + resource_path + "\"\n"@);
    reveal_strlit("algorithm = \"sha384\"\nversion = \"0.1.0\"\n\n[data]\n");
    assert(head =~= "algorithm = \"sha384\"\nversion = \"0.1.0\"\n\n[data]\n"@);
}

/// The initdata for two resources of one KBS differs, byte for byte.
pub proof fn law_initdata_tells_resources_apart(
    kbs_url: Seq<char>,
    resource_path: Seq<char>,
    other: Seq<char>,
)
    requires
        resource_path != other,
    ensures
        toml(kbs_url, resource_path) != toml(kbs_url, other),
        encode_utf8(toml(kbs_url, resource_path)) != encode_utf8(toml(kbs_url, other)),
{
    let head = TOML_HEAD@ + kbs_url + TOML_MIDDLE@;
    let a = toml(kbs_url, resource_path);
    let b = toml(kbs_url, other);
    assert(a.subrange(head.len() as int, a.len() - TOML_TAIL@.len()) =~= resource_path);
    assert(b.subrange(head.len() as int, b.len() - TOML_TAIL@.len()) =~= other);
    vstd::utf8::encode_utf8_decode_utf8(a);
    vstd::utf8::encode_utf8_decode_utf8(b);
}

/// Provisioning for different resources of one KBS gives different OEM strings,
/// and each is the base64 of nothing but the initdata that names the KBS and its
/// own resource. What is required of the data is what [`provision`] ensures of
/// it.
///
/// [`provision`]: crate::trustee::provision
pub proof fn law_oem_string_tells_the_resource(
    kbs_url: Seq<char>,
    resource_path: Seq<char>,
    data: ProvisionedDataView,
    other: Seq<char>,
    other_data: ProvisionedDataView,
)
    requires
        resource_path != other,
        encodable(encode_utf8(toml(kbs_url, other)).len()),
        data == derived_data(toml(kbs_url, resource_path)),
        decodable(data, toml(kbs_url, resource_path)),
        other_data == derived_data(toml(kbs_url, other)),
    ensures
        data.oem_strings[0] != other_data.oem_strings[0],
        forall|bytes: Seq<u8>|
            encodable(bytes.len()) ==> (#[trigger] base64_text(bytes) == data.oem_strings[0]
                <==> bytes == encode_utf8(toml(kbs_url, resource_path))),
{
    law_initdata_tells_resources_apart(kbs_url, resource_path, other);
}

/// Once the patch that adds the finalizer has gone through, the VMI carries it
/// beside all that it carried before, and it is not asked for again.
pub proof fn law_finalizer_is_added_once(
    vmi: VirtualMachineInstanceView,
    kbs_url: Seq<char>,
    target: TargetView,
)
    ensures
        awaited_call(
            vmi,
            kbs_url,
            PendingView::AddFinalizer(target),
        ) matches CallView::PatchFinalizers { finalizers, .. } && {
            let patched = with_finalizers(vmi, finalizers);
            &&& patched.has_finalizer()
            &&& vmi.metadata.finalizers matches Some(before) ==> before.is_prefix_of(finalizers)
            &&& provisioning_start(patched, target) == StepView::Wait(PendingView::Recheck(target))
        },
{
    assert(vmi.with_ours().last() == FINALIZER@);
    if let Some(before) = vmi.metadata.finalizers {
        assert(before =~= before.push(FINALIZER@).subrange(0, before.len() as int));
    }
}

/// Once the patch that removes the finalizer has gone through, the VMI does not
/// carry it, and Trustee is not told again.
pub proof fn law_finalizer_is_removed_once(vmi: VirtualMachineInstanceView, kbs_url: Seq<char>)
    ensures
        awaited_call(
            vmi,
            kbs_url,
            PendingView::RemoveFinalizer,
        ) matches CallView::PatchFinalizers { finalizers, .. } && {
            let patched = with_finalizers(vmi, finalizers);
            &&& !patched.has_finalizer()
            &&& cleanup_start(patched) == StepView::Done(Ok(Action::AwaitChange))
        },
{
}

/// Whatever is called for in the cluster lies in the namespace of the VMI, and
/// the only VMI that is patched is the one that is reconciled.
pub proof fn law_calls_stay_with_the_vmi(
    vmi: VirtualMachineInstanceView,
    kbs_url: Seq<char>,
    pending: PendingView,
)
    ensures
        match awaited_call(vmi, kbs_url, pending) {
            CallView::GetInitData { namespace, .. } => namespace == vmi.namespace(),
            CallView::PatchFinalizers { namespace, name, .. } => namespace == vmi.namespace()
                && name == vmi.name(),
            CallView::CreateInitData { namespace, .. } => namespace == vmi.namespace(),
            CallView::PostProvision { vm_name, namespace, .. } => namespace == vmi.namespace()
                && vm_name == vmi.name(),
            _ => true,
        },
{
}

/// The `InitData` is created under the very name that was looked up.
pub proof fn law_created_under_its_reference(
    vmi: VirtualMachineInstanceView,
    kbs_url: Seq<char>,
    target: TargetView,
    data: ProvisionedDataView,
)
    ensures
        awaited_call(vmi, kbs_url, PendingView::Lookup(target)) == (CallView::GetInitData {
            namespace: vmi.namespace(),
            name: init_data_for(vmi, target, data).metadata.name->0,
        }),
        init_data_for(vmi, target, data).metadata.namespace == Some(vmi.namespace()),
{
}

/// The record that is deleted lies below the URL to which the provisioning
/// request was posted, under the namespace and the name of that request.
pub proof fn law_cleanup_matches_provisioning(
    vmi: VirtualMachineInstanceView,
    kbs_url: Seq<char>,
    target: TargetView,
)
    ensures
        awaited_call(
            vmi,
            kbs_url,
            PendingView::Provision(target),
        ) matches CallView::PostProvision { url, vm_name, namespace } && awaited_call(
            vmi,
            kbs_url,
            PendingView::NotifyTrustee,
        ) == (CallView::DeleteProvision { url: url + "/"@ + namespace + "/"@ + vm_name }),
{
    reveal_strlit("/provision");
    reveal_strlit("/provision/");
    reveal_strlit("/");
    assert("/provision/"@ =~= "/provision"@ + "/"@);
    let base = provisioner_url(kbs_url);
    assert(base + "/provision/"@ + vmi.namespace() + "/"@ + vmi.name() =~= provision_url(base)
        + "/"@ + vmi.namespace() + "/"@ + vmi.name());
}

/// VMIs of one namespace that each name the `InitData` after themselves never
/// name the same one, provided that their own names differ.
pub proof fn law_own_names_never_clash(
    a: VirtualMachineInstanceView,
    b: VirtualMachineInstanceView,
    kbs_url: Seq<char>,
    target_a: TargetView,
    target_b: TargetView,
)
    requires
        a.namespace() == b.namespace(),
        a.name() != b.name(),
        target_of(a) == Some(target_a),
        target_of(b) == Some(target_b),
        target_a.init_data_ref == a.name(),
        target_b.init_data_ref == b.name(),
    ensures
        awaited_call(a, kbs_url, PendingView::Lookup(target_a)) != awaited_call(
            b,
            kbs_url,
            PendingView::Lookup(target_b),
        ),
{
}

} // verus!
