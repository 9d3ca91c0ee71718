//! The reconciliation of a VMI, one answer at a time.
//!
//! [`reconcile`] decides what a reconciliation waits for first. While a
//! [`Step`] is waiting, [`call`] says what to ask for, and [`resume`] takes
//! the answer and decides what comes next.

use vstd::prelude::*;

use crate::config::{health_url, provisioner_url, Config};
use crate::error::{ApiError, ApiErrorView, Error, ErrorView};
use crate::json::{insert_object, insert_texts, members, new_object, texts, Member};
use crate::resource::{
    InitData, InitDataSpec, InitDataSpecView, InitDataView, ObjectMeta, ObjectMetaView,
    OwnerReference, OwnerReferenceView, VirtualMachineInstance, VirtualMachineInstanceView,
    API_VERSION, VMI_KIND,
};
use crate::status::Status;
use crate::trustee::{
    fits, health_check, health_outcome, health_view, provision, provision_outcome, provision_url,
    record_url, reply_fits, reply_view, ProvisionedData, ProvisionedDataView, TrusteeReply,
    TrusteeReplyView,
};

verus! {

/// Seconds after which a VMI that needs nothing is looked at again.
pub const RESYNC_SECONDS: u64 = 300;

/// Seconds after which a failed reconciliation is tried again.
pub const RETRY_SECONDS: u64 = 30;

/// Field manager under which the operator patches VMIs.
pub const FIELD_MANAGER: &'static str = "provisioner-operator";

/// TEE platform of a VMI.
#[derive(Debug, Clone, Copy, PartialEq, Eq, Structural)]
pub enum TeePlatform {
    /// Intel TDX.
    Tdx,
    /// AMD SEV-SNP.
    Snp,
}

/// When a VMI is to be reconciled again.
#[derive(Debug, Clone, Copy, PartialEq, Eq, Structural)]
pub enum Action {
    /// After this many seconds.
    Requeue(u64),
    /// When it changes.
    AwaitChange,
}

/// The `InitData` that a VMI names, and the platform for which it does.
#[derive(Debug, Clone, PartialEq, Eq)]
pub struct Target {
    pub init_data_ref: String,
    pub platform: TeePlatform,
}

/// What a [`Target`] holds.
pub struct TargetView {
    pub init_data_ref: Seq<char>,
    pub platform: TeePlatform,
}

impl DeepView for Target {
    type V = TargetView;

    open spec fn deep_view(&self) -> TargetView {
        TargetView { init_data_ref: self.init_data_ref@, platform: self.platform }
    }
}

/// What a reconciliation waits for.
#[derive(Debug, PartialEq, Eq)]
pub enum Pending {
    /// Whether the `InitData` exists.
    Lookup(Target),
    /// The patch that adds the finalizer.
    AddFinalizer(Target),
    /// Whether the `InitData` exists now. The patch of the VMI triggers a
    /// reconciliation of its own, which may have created it.
    Recheck(Target),
    /// The health of KBS.
    Health(Target),
    /// The provisioning data.
    Provision(Target),
    /// The creation of the `InitData`.
    Create(InitData),
    /// Trustee's answer to the news that the VMI is deleted.
    NotifyTrustee,
    /// The patch that removes the finalizer.
    RemoveFinalizer,
}

/// What a [`Pending`] holds.
pub enum PendingView {
    Lookup(TargetView),
    AddFinalizer(TargetView),
    Recheck(TargetView),
    Health(TargetView),
    Provision(TargetView),
    Create(InitDataView),
    NotifyTrustee,
    RemoveFinalizer,
}

impl DeepView for Pending {
    type V = PendingView;

    open spec fn deep_view(&self) -> PendingView {
        match self {
            Pending::Lookup(target) => PendingView::Lookup(target.deep_view()),
            Pending::AddFinalizer(target) => PendingView::AddFinalizer(target.deep_view()),
            Pending::Recheck(target) => PendingView::Recheck(target.deep_view()),
            Pending::Health(target) => PendingView::Health(target.deep_view()),
            Pending::Provision(target) => PendingView::Provision(target.deep_view()),
            Pending::Create(init_data) => PendingView::Create(init_data.deep_view()),
            Pending::NotifyTrustee => PendingView::NotifyTrustee,
            Pending::RemoveFinalizer => PendingView::RemoveFinalizer,
        }
    }
}

/// Where a reconciliation stands.
#[derive(Debug, PartialEq, Eq)]
pub enum Step {
    /// It waits for an answer.
    Wait(Pending),
    /// It is over.
    Done(Result<Action, Error>),
}

/// What a [`Step`] holds.
pub enum StepView {
    Wait(PendingView),
    Done(Result<Action, ErrorView>),
}

impl DeepView for Step {
    type V = StepView;

    open spec fn deep_view(&self) -> StepView {
        match self {
            Step::Wait(pending) => StepView::Wait(pending.deep_view()),
            Step::Done(Ok(action)) => StepView::Done(Ok(*action)),
            Step::Done(Err(error)) => StepView::Done(Err(error.deep_view())),
        }
    }
}

/// A call of the Kubernetes API or of Trustee.
#[derive(Debug, PartialEq, Eq)]
pub enum Call<'a> {
    /// Get an `InitData`.
    GetInitData { namespace: String, name: String },
    /// Set the finalizers of a VMI, by a merge patch ([`finalizer_patch`]).
    PatchFinalizers {
        namespace: String,
        name: String,
        field_manager: String,
        finalizers: Vec<String>,
    },
    /// `GET` this URL of Trustee.
    GetHealth { url: String },
    /// `POST` a provisioning request to this URL of Trustee
    /// ([`crate::trustee::provision_body`]).
    PostProvision { url: String, vm_name: String, namespace: String },
    /// Create an `InitData`.
    CreateInitData { namespace: String, init_data: &'a InitData },
    /// `DELETE` this URL of Trustee.
    DeleteProvision { url: String },
}

/// What a [`Call`] holds.
#[verifier::ext_equal]
pub enum CallView {
    GetInitData { namespace: Seq<char>, name: Seq<char> },
    PatchFinalizers {
        namespace: Seq<char>,
        name: Seq<char>,
        field_manager: Seq<char>,
        finalizers: Seq<Seq<char>>,
    },
    GetHealth { url: Seq<char> },
    PostProvision { url: Seq<char>, vm_name: Seq<char>, namespace: Seq<char> },
    CreateInitData { namespace: Seq<char>, init_data: InitDataView },
    DeleteProvision { url: Seq<char> },
}

impl<'a> DeepView for Call<'a> {
    type V = CallView;

    open spec fn deep_view(&self) -> CallView {
        match self {
            Call::GetInitData { namespace, name } => CallView::GetInitData {
                namespace: namespace@,
                name: name@,
            },
            Call::PatchFinalizers { namespace, name, field_manager, finalizers } =>
                CallView::PatchFinalizers {
                namespace: namespace@,
                name: name@,
                field_manager: field_manager@,
                finalizers: finalizers.deep_view(),
            },
            Call::GetHealth { url } => CallView::GetHealth { url: url@ },
            Call::PostProvision { url, vm_name, namespace } => CallView::PostProvision {
                url: url@,
                vm_name: vm_name@,
                namespace: namespace@,
            },
            Call::CreateInitData { namespace, init_data } => CallView::CreateInitData {
                namespace: namespace@,
                init_data: init_data.deep_view(),
            },
            Call::DeleteProvision { url } => CallView::DeleteProvision { url: url@ },
        }
    }
}

/// The answer to a [`Call`].
#[derive(Debug, PartialEq, Eq)]
pub enum Answer {
    /// The `InitData` that was asked for.
    InitData(Result<InitData, ApiError>),
    /// The finalizers of the VMI were set, or not.
    Patched(Result<(), ApiError>),
    /// Status of the health check, or the reason why it was not answered.
    Health(Result<Status, String>),
    /// Trustee's reply, or the reason why there was none.
    Provisioned(Result<TrusteeReply, String>),
    /// The `InitData` was created, or not.
    Created(Result<(), ApiError>),
    /// Trustee answered, with whatever status, or the reason why it did not.
    Deleted(Result<(), String>),
}

/// What a [`Answer`] holds.
pub enum AnswerView {
    InitData(Result<InitDataView, ApiErrorView>),
    Patched(Result<(), ApiErrorView>),
    Health(Result<u16, Seq<char>>),
    Provisioned(Result<TrusteeReplyView, Seq<char>>),
    Created(Result<(), ApiErrorView>),
    Deleted(Result<(), Seq<char>>),
}

impl DeepView for Answer {
    type V = AnswerView;

    open spec fn deep_view(&self) -> AnswerView {
        match self {
            Answer::InitData(Ok(found)) => AnswerView::InitData(Ok(found.deep_view())),
            Answer::InitData(Err(error)) => AnswerView::InitData(Err(error.deep_view())),
            Answer::Patched(Ok(_)) => AnswerView::Patched(Ok(())),
            Answer::Patched(Err(error)) => AnswerView::Patched(Err(error.deep_view())),
            Answer::Health(answer) => AnswerView::Health(health_view(*answer)),
            Answer::Provisioned(reply) => AnswerView::Provisioned(reply_view(*reply)),
            Answer::Created(Ok(_)) => AnswerView::Created(Ok(())),
            Answer::Created(Err(error)) => AnswerView::Created(Err(error.deep_view())),
            Answer::Deleted(Ok(_)) => AnswerView::Deleted(Ok(())),
            Answer::Deleted(Err(reason)) => AnswerView::Deleted(Err(reason@)),
        }
    }
}

// --- What the decisions are ---

/// The `InitData` that the VMI names: the one under TDX, or else the one under
/// SEV-SNP. An empty name is none.
pub open spec fn init_data_ref(vmi: VirtualMachineInstanceView) -> Option<
    (Seq<char>, TeePlatform),
> {
    match vmi.spec.domain {
        Some(domain) => match domain.launch_security {
            Some(security) => if security.tdx matches Some(tdx) && tdx.init_data_ref.len() > 0 {
                Some((security.tdx->0.init_data_ref, TeePlatform::Tdx))
            } else if security.sev_snp matches Some(snp) && snp.init_data_ref.len() > 0 {
                Some((security.sev_snp->0.init_data_ref, TeePlatform::Snp))
            } else {
                None
            },
            None => None,
        },
        None => None,
    }
}

/// Whether the first owner of `init_data` is `vmi`.
pub open spec fn owned_by(init_data: InitDataView, vmi: VirtualMachineInstanceView) -> bool {
    &&& init_data.metadata.owner_references matches Some(owners)
    &&& owners.len() > 0
    &&& owners[0].kind == VMI_KIND@
    &&& owners[0].name == vmi.name()
    &&& owners[0].uid == vmi.uid()
}

/// Whether the first owner of `init_data` is a VMI other than `vmi`.
pub open spec fn owned_by_another(
    init_data: InitDataView,
    vmi: VirtualMachineInstanceView,
) -> bool {
    &&& init_data.metadata.owner_references matches Some(owners)
    &&& owners.len() > 0
    &&& owners[0].kind == VMI_KIND@
    &&& owners[0].name != vmi.name() || owners[0].uid != vmi.uid()
}

/// The owner reference that points back to `vmi`.
pub open spec fn owner_reference(vmi: VirtualMachineInstanceView) -> OwnerReferenceView {
    OwnerReferenceView {
        api_version: API_VERSION@,
        kind: VMI_KIND@,
        name: vmi.name(),
        uid: vmi.uid(),
        controller: None,
        block_owner_deletion: None,
    }
}

/// The `InitData` that is created for `vmi`: owned by it, and with the
/// measurement of its platform only.
pub open spec fn init_data_for(
    vmi: VirtualMachineInstanceView,
    target: TargetView,
    data: ProvisionedDataView,
) -> InitDataView {
    InitDataView {
        metadata: ObjectMetaView {
            name: Some(target.init_data_ref),
            namespace: Some(vmi.namespace()),
            uid: None,
            deletion_timestamp: None,
            finalizers: None,
            owner_references: Some(seq![owner_reference(vmi)]),
        },
        spec: InitDataSpecView {
            mr_config_id: match target.platform {
                TeePlatform::Tdx => Some(data.mr_config_id),
                TeePlatform::Snp => None,
            },
            host_data: match target.platform {
                TeePlatform::Tdx => None,
                TeePlatform::Snp => Some(data.hostdata),
            },
            oem_strings: data.oem_strings,
        },
        status: None,
    }
}

/// The end of a reconciliation that leaves a live VMI as it should be.
pub open spec fn settled() -> StepView {
    StepView::Done(Ok(Action::Requeue(RESYNC_SECONDS)))
}

/// The error for an `InitData` that another VMI owns.
pub open spec fn conflict_error(init_data_ref: Seq<char>) -> ErrorView {
    ErrorView::Provisioning("InitData "@ + init_data_ref + " is already owned by another VMI"@)
}

/// How the provisioning of `vmi` begins: with the finalizer, unless the VMI
/// carries it already.
pub open spec fn provisioning_start(
    vmi: VirtualMachineInstanceView,
    target: TargetView,
) -> StepView {
    if vmi.has_finalizer() {
        StepView::Wait(PendingView::Recheck(target))
    } else {
        StepView::Wait(PendingView::AddFinalizer(target))
    }
}

/// How the cleanup after a deleted VMI begins: Trustee is told, unless the VMI
/// does not carry the finalizer.
pub open spec fn cleanup_start(vmi: VirtualMachineInstanceView) -> StepView {
    if vmi.has_finalizer() {
        StepView::Wait(PendingView::NotifyTrustee)
    } else {
        StepView::Done(Ok(Action::AwaitChange))
    }
}

/// How the reconciliation of `vmi` begins.
pub open spec fn first_step(vmi: VirtualMachineInstanceView) -> StepView {
    if vmi.is_deleted() {
        cleanup_start(vmi)
    } else {
        match init_data_ref(vmi) {
            None => settled(),
            Some((init_data_ref, platform)) => StepView::Wait(
                PendingView::Lookup(TargetView { init_data_ref, platform }),
            ),
        }
    }
}

/// What is called for while a reconciliation waits for `pending`.
pub open spec fn awaited_call(
    vmi: VirtualMachineInstanceView,
    kbs_url: Seq<char>,
    pending: PendingView,
) -> CallView {
    match pending {
        PendingView::Lookup(target) => CallView::GetInitData {
            namespace: vmi.namespace(),
            name: target.init_data_ref,
        },
        PendingView::AddFinalizer(_) => CallView::PatchFinalizers {
            namespace: vmi.namespace(),
            name: vmi.name(),
            field_manager: FIELD_MANAGER@,
            finalizers: vmi.with_ours(),
        },
        PendingView::Recheck(target) => CallView::GetInitData {
            namespace: vmi.namespace(),
            name: target.init_data_ref,
        },
        PendingView::Health(_) => CallView::GetHealth { url: health_url(kbs_url) },
        PendingView::Provision(_) => CallView::PostProvision {
            url: provision_url(provisioner_url(kbs_url)),
            vm_name: vmi.name(),
            namespace: vmi.namespace(),
        },
        PendingView::Create(init_data) => CallView::CreateInitData {
            namespace: vmi.namespace(),
            init_data,
        },
        PendingView::NotifyTrustee => CallView::DeleteProvision {
            url: record_url(provisioner_url(kbs_url), vmi.namespace(), vmi.name()),
        },
        PendingView::RemoveFinalizer => CallView::PatchFinalizers {
            namespace: vmi.namespace(),
            name: vmi.name(),
            field_manager: FIELD_MANAGER@,
            finalizers: seq![],
        },
    }
}

/// Whether `answer` is of the kind that `pending` waits for.
pub open spec fn answers(answer: AnswerView, pending: PendingView) -> bool {
    match pending {
        PendingView::Lookup(_) => answer is InitData,
        PendingView::AddFinalizer(_) => answer is Patched,
        PendingView::Recheck(_) => answer is InitData,
        PendingView::Health(_) => answer is Health,
        PendingView::Provision(_) => answer is Provisioned,
        PendingView::Create(_) => answer is Created,
        PendingView::NotifyTrustee => answer is Deleted,
        PendingView::RemoveFinalizer => answer is Patched,
    }
}

/// Whether the initdata that `answer` leads to, where it is a reply of Trustee
/// that is waited for, is small enough to be put into base64.
pub open spec fn answer_fits(
    kbs_url: Seq<char>,
    pending: PendingView,
    answer: AnswerView,
) -> bool {
    match (pending, answer) {
        (PendingView::Provision(_), AnswerView::Provisioned(reply)) => reply_fits(kbs_url, reply),
        _ => true,
    }
}

/// The end of a reconciliation that an error stops.
pub open spec fn failed(error: ErrorView) -> StepView {
    StepView::Done(Err(error))
}

/// What a reconciliation that waits for `pending` does when `answer` comes.
/// An answer of another kind than is waited for changes nothing.
///
/// An `InitData` that the first lookup finds must be owned by the VMI. One that
/// has appeared since is taken as it is, unless another VMI owns it.
pub open spec fn next_step(
    vmi: VirtualMachineInstanceView,
    kbs_url: Seq<char>,
    pending: PendingView,
    answer: AnswerView,
) -> StepView {
    match (pending, answer) {
        (PendingView::Lookup(target), AnswerView::InitData(Ok(found))) => if owned_by(found, vmi) {
            settled()
        } else {
            failed(conflict_error(target.init_data_ref))
        },
        (
            PendingView::Lookup(target),
            AnswerView::InitData(Err(error)),
        ) => if error.is_not_found() {
            provisioning_start(vmi, target)
        } else {
            failed(ErrorView::Kube(error.message))
        },
        (PendingView::AddFinalizer(target), AnswerView::Patched(Ok(_))) => StepView::Wait(
            PendingView::Recheck(target),
        ),
        (PendingView::AddFinalizer(_), AnswerView::Patched(Err(error))) => failed(
            ErrorView::Kube(error.message),
        ),
        (PendingView::Recheck(target), AnswerView::InitData(Ok(found))) => if owned_by_another(
            found,
            vmi,
        ) {
            failed(conflict_error(target.init_data_ref))
        } else {
            settled()
        },
        (PendingView::Recheck(target), AnswerView::InitData(Err(_))) => StepView::Wait(
            PendingView::Health(target),
        ),
        (PendingView::Health(target), AnswerView::Health(answer)) => match health_outcome(answer) {
            Ok(_) => StepView::Wait(PendingView::Provision(target)),
            Err(error) => failed(error),
        },
        (PendingView::Provision(target), AnswerView::Provisioned(reply)) => match provision_outcome(
            kbs_url,
            reply,
        ) {
            Ok(data) => StepView::Wait(PendingView::Create(init_data_for(vmi, target, data))),
            Err(error) => failed(error),
        },
        (PendingView::Create(_), AnswerView::Created(Ok(_))) => settled(),
        (PendingView::Create(_), AnswerView::Created(Err(error))) => failed(
            ErrorView::Kube(error.message),
        ),
        (PendingView::NotifyTrustee, AnswerView::Deleted(Ok(_))) => StepView::Wait(
            PendingView::RemoveFinalizer,
        ),
        (PendingView::NotifyTrustee, AnswerView::Deleted(Err(reason))) => failed(
            ErrorView::Http(reason),
        ),
        (PendingView::RemoveFinalizer, AnswerView::Patched(Ok(_))) => StepView::Done(
            Ok(Action::AwaitChange),
        ),
        (PendingView::RemoveFinalizer, AnswerView::Patched(Err(error))) => failed(
            ErrorView::Kube(error.message),
        ),
        _ => StepView::Wait(pending),
    }
}

// --- The decisions ---

/// The `InitData` that the VMI names and the platform for which it does, if it
/// names one for TDX or SEV-SNP.
pub fn extract_init_data_ref(vmi: &VirtualMachineInstance) -> (found: Option<
    (String, TeePlatform),
>)
    ensures
        match found {
            Some((name, platform)) => init_data_ref(vmi.deep_view()) == Some((name@, platform)),
            None => init_data_ref(vmi.deep_view()) is None,
        },
{
    let security = match &vmi.spec.domain {
        Some(domain) => match &domain.launch_security {
            Some(security) => security,
            None => return None,
        },
        None => return None,
    };
    if let Some(tdx) = &security.tdx {
        if !tdx.init_data_ref.as_str().is_empty() {
            return Some((tdx.init_data_ref.clone(), TeePlatform::Tdx));
        }
    }
    if let Some(snp) = &security.sev_snp {
        if !snp.init_data_ref.as_str().is_empty() {
            return Some((snp.init_data_ref.clone(), TeePlatform::Snp));
        }
    }
    None
}

/// Whether the first owner of `init_data` is `vmi`.
pub fn is_owned_by(init_data: &InitData, vmi: &VirtualMachineInstance) -> (owned: bool)
    ensures
        owned == owned_by(init_data.deep_view(), vmi.deep_view()),
{
    match &init_data.metadata.owner_references {
        None => false,
        Some(owners) => {
            if owners.len() == 0 {
                return false;
            }
            let owner = &owners[0];
            assert(owners.deep_view()[0] == owner.deep_view());
            owner.kind == VMI_KIND.to_owned() && owner.name == vmi.name() && owner.uid == vmi.uid()
        },
    }
}

/// Whether the first owner of `init_data` is a VMI other than `vmi`.
pub fn is_owned_by_another(init_data: &InitData, vmi: &VirtualMachineInstance) -> (foreign: bool)
    ensures
        foreign == owned_by_another(init_data.deep_view(), vmi.deep_view()),
{
    match &init_data.metadata.owner_references {
        None => false,
        Some(owners) => {
            if owners.len() == 0 {
                return false;
            }
            let owner = &owners[0];
            assert(owners.deep_view()[0] == owner.deep_view());
            owner.kind == VMI_KIND.to_owned() && !(owner.name == vmi.name() && owner.uid
                == vmi.uid())
        },
    }
}

/// The error for an `InitData` that another VMI owns.
pub fn conflict(init_data_ref: &str) -> (error: Error)
    ensures
        error.deep_view() == conflict_error(init_data_ref@),
{
    Error::Provisioning(
        "InitData ".to_owned().concat(init_data_ref).concat(" is already owned by another VMI"),
    )
}

/// How the reconciliation of `vmi` begins.
pub fn reconcile(vmi: &VirtualMachineInstance) -> (step: Step)
    ensures
        step.deep_view() == first_step(vmi.deep_view()),
{
    if vmi.metadata.deletion_timestamp.is_some() {
        return handle_deletion(vmi);
    }
    match extract_init_data_ref(vmi) {
        None => Step::Done(Ok(Action::Requeue(RESYNC_SECONDS))),
        Some((init_data_ref, platform)) => Step::Wait(
            Pending::Lookup(Target { init_data_ref, platform }),
        ),
    }
}

/// When a failed reconciliation is tried again.
pub fn error_policy(error: &Error) -> (action: Action)
    ensures
        action == Action::Requeue(RETRY_SECONDS),
        action == Action::Requeue(30),
{
    Action::Requeue(RETRY_SECONDS)
}

/// The finalizers to be set so that `vmi` carries the operator's beside those of
/// others, or `None` where it does.
pub fn ensure_finalizer(vmi: &VirtualMachineInstance) -> (finalizers: Option<Vec<String>>)
    ensures
        finalizers is None <==> vmi.deep_view().has_finalizer(),
        finalizers matches Some(finalizers) ==> finalizers.deep_view()
            == vmi.deep_view().with_ours(),
{
    if vmi.has_finalizer() {
        None
    } else {
        Some(vmi.with_ours())
    }
}

/// How the provisioning of `vmi` begins, once its `InitData` is known to be
/// missing.
pub fn provision_vmi(vmi: &VirtualMachineInstance, target: Target) -> (step: Step)
    ensures
        step.deep_view() == provisioning_start(vmi.deep_view(), target.deep_view()),
{
    match ensure_finalizer(vmi) {
        Some(_) => Step::Wait(Pending::AddFinalizer(target)),
        None => Step::Wait(Pending::Recheck(target)),
    }
}

/// How the cleanup after a deleted VMI begins. Its `InitData` is
/// garbage-collected by Kubernetes through the owner reference.
pub fn handle_deletion(vmi: &VirtualMachineInstance) -> (step: Step)
    ensures
        step.deep_view() == cleanup_start(vmi.deep_view()),
{
    if vmi.has_finalizer() {
        Step::Wait(Pending::NotifyTrustee)
    } else {
        Step::Done(Ok(Action::AwaitChange))
    }
}

/// The `InitData` to be created for `vmi`.
pub fn make_init_data(vmi: &VirtualMachineInstance, target: Target, data: ProvisionedData) -> (
    init_data: InitData)
    ensures
        init_data.deep_view() == init_data_for(
            vmi.deep_view(),
            target.deep_view(),
            data.deep_view(),
        ),
{
    let (mr_config_id, host_data) = match target.platform {
        TeePlatform::Tdx => (Some(data.mr_config_id), None),
        TeePlatform::Snp => (None, Some(data.hostdata)),
    };
    let mut owners: Vec<OwnerReference> = Vec::new();
    owners.push(
        OwnerReference {
            api_version: API_VERSION.to_owned(),
            kind: VMI_KIND.to_owned(),
            name: vmi.name(),
            uid: vmi.uid(),
            controller: None,
            block_owner_deletion: None,
        },
    );
    assert(owners.deep_view() =~= seq![owner_reference(vmi.deep_view())]);
    InitData {
        metadata: ObjectMeta {
            name: Some(target.init_data_ref),
            namespace: Some(vmi.namespace()),
            uid: None,
            deletion_timestamp: None,
            finalizers: None,
            owner_references: Some(owners),
        },
        spec: InitDataSpec { mr_config_id, host_data, oem_strings: data.oem_strings },
        status: None,
    }
}

/// What is to be asked for while the reconciliation of `vmi` waits for
/// `pending`.
pub fn call<'a>(
    vmi: &VirtualMachineInstance,
    config: &Config,
    pending: &'a Pending,
) -> (call: Call<'a>)
    ensures
        call.deep_view() == awaited_call(
            vmi.deep_view(),
            config.kbs_url@,
            pending.deep_view(),
        ),
{
    match pending {
        Pending::Lookup(target) => Call::GetInitData {
            namespace: vmi.namespace(),
            name: target.init_data_ref.clone(),
        },
        Pending::AddFinalizer(_) => Call::PatchFinalizers {
            namespace: vmi.namespace(),
            name: vmi.name(),
            field_manager: FIELD_MANAGER.to_owned(),
            finalizers: vmi.with_ours(),
        },
        Pending::Recheck(target) => Call::GetInitData {
            namespace: vmi.namespace(),
            name: target.init_data_ref.clone(),
        },
        Pending::Health(_) => Call::GetHealth { url: config.health_url() },
        Pending::Provision(_) => Call::PostProvision {
            url: config.provisioner_url().concat("/provision"),
            vm_name: vmi.name(),
            namespace: vmi.namespace(),
        },
        Pending::Create(init_data) => Call::CreateInitData {
            namespace: vmi.namespace(),
            init_data,
        },
        Pending::NotifyTrustee => Call::DeleteProvision {
            url: config.provisioner_url().concat("/provision/").concat(
                vmi.namespace().as_str(),
            ).concat("/").concat(vmi.name().as_str()),
        },
        Pending::RemoveFinalizer => Call::PatchFinalizers {
            namespace: vmi.namespace(),
            name: vmi.name(),
            field_manager: FIELD_MANAGER.to_owned(),
            finalizers: Vec::new(),
        },
    }
}

/// The merge patch that sets the finalizers of an object.
pub fn finalizer_patch(finalizers: &[String]) -> (patch: serde_json::Map<
    String,
    serde_json::Value,
>)
    ensures
        members(patch) == map![
            "metadata"@ => Member::Object(map![
                "finalizers"@ => Member::Texts(texts(finalizers@)),
            ]),
        ],
{
    let mut metadata = new_object();
    insert_texts(&mut metadata, "finalizers", finalizers);
    assert(members(metadata) =~= map!["finalizers"@ => Member::Texts(texts(finalizers@))]);
    let mut patch = new_object();
    insert_object(&mut patch, "metadata", metadata);
    assert(members(patch) =~= map!["metadata"@ => Member::Object(members(metadata))]);
    patch
}

/// What the reconciliation of `vmi`, which waits for `pending`, does now that
/// `answer` has come. An answer of another kind than is waited for changes
/// nothing.
///
/// The initdata that Trustee's reply leads to must be small enough to be put
/// into base64; [`try_resume`] tests that.
pub fn resume(vmi: &VirtualMachineInstance, config: &Config, pending: Pending, answer: Answer) -> (
    step: Step)
    requires
        answer_fits(config.kbs_url@, pending.deep_view(), answer.deep_view()),
    ensures
        step.deep_view() == next_step(
            vmi.deep_view(),
            config.kbs_url@,
            pending.deep_view(),
            answer.deep_view(),
        ),
{
    match (pending, answer) {
        (Pending::Lookup(target), Answer::InitData(Ok(found))) => {
            if is_owned_by(&found, vmi) {
                Step::Done(Ok(Action::Requeue(RESYNC_SECONDS)))
            } else {
                Step::Done(Err(conflict(target.init_data_ref.as_str())))
            }
        },
        (Pending::Lookup(target), Answer::InitData(Err(error))) => {
            if error.is_not_found() {
                provision_vmi(vmi, target)
            } else {
                Step::Done(Err(Error::Kube(error.message)))
            }
        },
        (Pending::AddFinalizer(target), Answer::Patched(Ok(_))) => {
            Step::Wait(Pending::Recheck(target))
        },
        (Pending::AddFinalizer(_), Answer::Patched(Err(error))) => {
            Step::Done(Err(Error::Kube(error.message)))
        },
        (Pending::Recheck(target), Answer::InitData(Ok(found))) => {
            if is_owned_by_another(&found, vmi) {
                Step::Done(Err(conflict(target.init_data_ref.as_str())))
            } else {
                Step::Done(Ok(Action::Requeue(RESYNC_SECONDS)))
            }
        },
        (Pending::Recheck(target), Answer::InitData(Err(_))) => {
            Step::Wait(Pending::Health(target))
        },
        (Pending::Health(target), Answer::Health(answer)) => match health_check(answer) {
            Ok(_) => Step::Wait(Pending::Provision(target)),
            Err(error) => Step::Done(Err(error)),
        },
        (Pending::Provision(target), Answer::Provisioned(reply)) => {
            match provision(config.kbs_url.as_str(), reply) {
                Ok(data) => Step::Wait(Pending::Create(make_init_data(vmi, target, data))),
                Err(error) => Step::Done(Err(error)),
            }
        },
        (Pending::Create(_), Answer::Created(Ok(_))) => {
            Step::Done(Ok(Action::Requeue(RESYNC_SECONDS)))
        },
        (Pending::Create(_), Answer::Created(Err(error))) => {
            Step::Done(Err(Error::Kube(error.message)))
        },
        (Pending::NotifyTrustee, Answer::Deleted(Ok(_))) => Step::Wait(Pending::RemoveFinalizer),
        (Pending::NotifyTrustee, Answer::Deleted(Err(reason))) => {
            Step::Done(Err(Error::Http(reason)))
        },
        (Pending::RemoveFinalizer, Answer::Patched(Ok(_))) => {
            Step::Done(Ok(Action::AwaitChange))
        },
        (Pending::RemoveFinalizer, Answer::Patched(Err(error))) => {
            Step::Done(Err(Error::Kube(error.message)))
        },
        (pending, _) => Step::Wait(pending),
    }
}

/// As [`resume`], or `None` where the initdata that Trustee's reply leads to is
/// too large to be put into base64.
pub fn try_resume(
    vmi: &VirtualMachineInstance,
    config: &Config,
    pending: Pending,
    answer: Answer,
) -> (step: Option<Step>)
    ensures
        step is Some <==> answer_fits(config.kbs_url@, pending.deep_view(), answer.deep_view()),
        step matches Some(step) ==> step.deep_view() == next_step(
            vmi.deep_view(),
            config.kbs_url@,
            pending.deep_view(),
            answer.deep_view(),
        ),
{
    let small = match (&pending, &answer) {
        (Pending::Provision(_), Answer::Provisioned(reply)) => fits(config.kbs_url.as_str(), reply),
        _ => true,
    };
    if small {
        Some(resume(vmi, config, pending, answer))
    } else {
        None
    }
}

} // verus!
