//! The Kubernetes objects that the operator reads and creates, reduced to the
//! fields that it needs.

use vstd::prelude::*;

use crate::config::DEFAULT_NAMESPACE;

verus! {

/// API group and version of the KubeVirt objects.
pub const API_VERSION: &'static str = "kubevirt.io/v1";

/// Kind of a virtual machine instance.
pub const VMI_KIND: &'static str = "VirtualMachineInstance";

/// Finalizer that keeps a VMI from being deleted until Trustee has been told.
pub const FINALIZER: &'static str = "provisioner-operator.confidentialcontainers.io/cleanup";

/// Reference from a dependent object to its owner.
#[derive(Debug, Clone, PartialEq, Eq)]
pub struct OwnerReference {
    pub api_version: String,
    pub kind: String,
    pub name: String,
    pub uid: String,
    pub controller: Option<bool>,
    pub block_owner_deletion: Option<bool>,
}

/// What an [`OwnerReference`] holds.
pub struct OwnerReferenceView {
    pub api_version: Seq<char>,
    pub kind: Seq<char>,
    pub name: Seq<char>,
    pub uid: Seq<char>,
    pub controller: Option<bool>,
    pub block_owner_deletion: Option<bool>,
}

impl DeepView for OwnerReference {
    type V = OwnerReferenceView;

    open spec fn deep_view(&self) -> OwnerReferenceView {
        OwnerReferenceView {
            api_version: self.api_version@,
            kind: self.kind@,
            name: self.name@,
            uid: self.uid@,
            controller: self.controller,
            block_owner_deletion: self.block_owner_deletion,
        }
    }
}

/// Metadata of an object.
#[derive(Debug, Clone, PartialEq, Eq)]
pub struct ObjectMeta {
    pub name: Option<String>,
    pub namespace: Option<String>,
    pub uid: Option<String>,
    /// When the object's deletion was asked for, if it was.
    pub deletion_timestamp: Option<String>,
    pub finalizers: Option<Vec<String>>,
    pub owner_references: Option<Vec<OwnerReference>>,
}

/// What an [`ObjectMeta`] holds.
#[verifier::ext_equal]
pub struct ObjectMetaView {
    pub name: Option<Seq<char>>,
    pub namespace: Option<Seq<char>>,
    pub uid: Option<Seq<char>>,
    pub deletion_timestamp: Option<Seq<char>>,
    pub finalizers: Option<Seq<Seq<char>>>,
    pub owner_references: Option<Seq<OwnerReferenceView>>,
}

impl DeepView for ObjectMeta {
    type V = ObjectMetaView;

    open spec fn deep_view(&self) -> ObjectMetaView {
        ObjectMetaView {
            name: self.name.deep_view(),
            namespace: self.namespace.deep_view(),
            uid: self.uid.deep_view(),
            deletion_timestamp: self.deletion_timestamp.deep_view(),
            finalizers: self.finalizers.deep_view(),
            owner_references: self.owner_references.deep_view(),
        }
    }
}

/// Intel TDX settings of a VMI.
#[derive(Debug, Clone, PartialEq, Eq)]
pub struct Tdx {
    /// Name of the `InitData` of the VMI, empty where none is named.
    pub init_data_ref: String,
}

/// What a [`Tdx`] holds.
pub struct TdxView {
    pub init_data_ref: Seq<char>,
}

impl DeepView for Tdx {
    type V = TdxView;

    open spec fn deep_view(&self) -> TdxView {
        TdxView { init_data_ref: self.init_data_ref@ }
    }
}

/// AMD SEV-SNP settings of a VMI.
#[derive(Debug, Clone, PartialEq, Eq)]
pub struct SevSnp {
    /// Name of the `InitData` of the VMI, empty where none is named.
    pub init_data_ref: String,
}

/// What a [`SevSnp`] holds.
pub struct SevSnpView {
    pub init_data_ref: Seq<char>,
}

impl DeepView for SevSnp {
    type V = SevSnpView;

    open spec fn deep_view(&self) -> SevSnpView {
        SevSnpView { init_data_ref: self.init_data_ref@ }
    }
}

/// Launch security settings of a VMI.
#[derive(Debug, Clone, PartialEq, Eq)]
pub struct LaunchSecurity {
    pub tdx: Option<Tdx>,
    pub sev_snp: Option<SevSnp>,
}

/// What a [`LaunchSecurity`] holds.
pub struct LaunchSecurityView {
    pub tdx: Option<TdxView>,
    pub sev_snp: Option<SevSnpView>,
}

impl DeepView for LaunchSecurity {
    type V = LaunchSecurityView;

    open spec fn deep_view(&self) -> LaunchSecurityView {
        LaunchSecurityView { tdx: self.tdx.deep_view(), sev_snp: self.sev_snp.deep_view() }
    }
}

/// Domain of a VMI.
#[derive(Debug, Clone, PartialEq, Eq)]
pub struct DomainSpec {
    pub launch_security: Option<LaunchSecurity>,
}

/// What a [`DomainSpec`] holds.
pub struct DomainSpecView {
    pub launch_security: Option<LaunchSecurityView>,
}

impl DeepView for DomainSpec {
    type V = DomainSpecView;

    open spec fn deep_view(&self) -> DomainSpecView {
        DomainSpecView { launch_security: self.launch_security.deep_view() }
    }
}

/// Specification of a VMI.
#[derive(Debug, Clone, PartialEq, Eq)]
pub struct VirtualMachineInstanceSpec {
    pub domain: Option<DomainSpec>,
}

/// What a [`VirtualMachineInstanceSpec`] holds.
pub struct VirtualMachineInstanceSpecView {
    pub domain: Option<DomainSpecView>,
}

impl DeepView for VirtualMachineInstanceSpec {
    type V = VirtualMachineInstanceSpecView;

    open spec fn deep_view(&self) -> VirtualMachineInstanceSpecView {
        VirtualMachineInstanceSpecView { domain: self.domain.deep_view() }
    }
}

/// Status of a VMI.
#[derive(Debug, Clone, PartialEq, Eq)]
pub struct VirtualMachineInstanceStatus {
    pub phase: Option<String>,
}

/// What a [`VirtualMachineInstanceStatus`] holds.
pub struct VirtualMachineInstanceStatusView {
    pub phase: Option<Seq<char>>,
}

impl DeepView for VirtualMachineInstanceStatus {
    type V = VirtualMachineInstanceStatusView;

    open spec fn deep_view(&self) -> VirtualMachineInstanceStatusView {
        VirtualMachineInstanceStatusView { phase: self.phase.deep_view() }
    }
}

/// A KubeVirt virtual machine instance.
#[derive(Debug, Clone, PartialEq, Eq)]
pub struct VirtualMachineInstance {
    pub metadata: ObjectMeta,
    pub spec: VirtualMachineInstanceSpec,
    pub status: Option<VirtualMachineInstanceStatus>,
}

/// What a [`VirtualMachineInstance`] holds.
pub struct VirtualMachineInstanceView {
    pub metadata: ObjectMetaView,
    pub spec: VirtualMachineInstanceSpecView,
    pub status: Option<VirtualMachineInstanceStatusView>,
}

impl DeepView for VirtualMachineInstance {
    type V = VirtualMachineInstanceView;

    open spec fn deep_view(&self) -> VirtualMachineInstanceView {
        VirtualMachineInstanceView {
            metadata: self.metadata.deep_view(),
            spec: self.spec.deep_view(),
            status: self.status.deep_view(),
        }
    }
}

/// The text in `text`, or `default` where there is none.
pub open spec fn text_or(text: Option<Seq<char>>, default: Seq<char>) -> Seq<char> {
    match text {
        Some(text) => text,
        None => default,
    }
}

impl VirtualMachineInstanceView {
    /// Name of the VMI, empty where it has none.
    pub open spec fn name(self) -> Seq<char> {
        text_or(self.metadata.name, ""@)
    }

    /// Namespace of the VMI, the default one where it has none.
    pub open spec fn namespace(self) -> Seq<char> {
        text_or(self.metadata.namespace, DEFAULT_NAMESPACE@)
    }

    /// Unique identifier of the VMI, empty where it has none.
    pub open spec fn uid(self) -> Seq<char> {
        text_or(self.metadata.uid, ""@)
    }

    /// Whether the deletion of the VMI was asked for.
    pub open spec fn is_deleted(self) -> bool {
        self.metadata.deletion_timestamp is Some
    }

    /// Whether the VMI carries the operator's finalizer.
    pub open spec fn has_finalizer(self) -> bool {
        self.metadata.finalizers matches Some(finalizers) && finalizers.contains(FINALIZER@)
    }

    /// The finalizers of the VMI, with the operator's added.
    pub open spec fn with_ours(self) -> Seq<Seq<char>> {
        match self.metadata.finalizers {
            Some(finalizers) => finalizers.push(FINALIZER@),
            None => seq![FINALIZER@],
        }
    }
}

/// The text in `text`, or `default` where there is none.
fn owned_or(text: &Option<String>, default: &str) -> (owned: String)
    ensures
        owned@ == text_or(text.deep_view(), default@),
{
    match text {
        Some(text) => text.clone(),
        None => default.to_owned(),
    }
}

/// Whether `text` is among `list`.
fn contains(list: &Vec<String>, text: &str) -> (found: bool)
    ensures
        found == list.deep_view().contains(text@),
{
    let wanted = text.to_owned();
    for i in 0..list.len()
        invariant
            wanted@ == text@,
            forall|j: int| 0 <= j < i ==> list.deep_view()[j] != text@,
    {
        if list[i] == wanted {
            assert(list.deep_view()[i as int] == text@);
            return true;
        }
    }
    false
}

/// A copy of `list`.
fn copied(list: &Vec<String>) -> (copy: Vec<String>)
    ensures
        copy.deep_view() == list.deep_view(),
{
    let mut copy: Vec<String> = Vec::new();
    for i in 0..list.len()
        invariant
            copy@ == list@.take(i as int),
    {
        copy.push(list[i].clone());
    }
    assert(copy@ =~= list@);
    copy
}

impl VirtualMachineInstance {
    /// Name of the VMI, empty where it has none.
    pub fn name(&self) -> (name: String)
        ensures
            name@ == self.deep_view().name(),
    {
        owned_or(&self.metadata.name, "")
    }

    /// Namespace of the VMI, the default one where it has none.
    pub fn namespace(&self) -> (namespace: String)
        ensures
            namespace@ == self.deep_view().namespace(),
    {
        owned_or(&self.metadata.namespace, DEFAULT_NAMESPACE)
    }

    /// Unique identifier of the VMI, empty where it has none.
    pub fn uid(&self) -> (uid: String)
        ensures
            uid@ == self.deep_view().uid(),
    {
        owned_or(&self.metadata.uid, "")
    }

    /// Whether the VMI carries the operator's finalizer.
    pub fn has_finalizer(&self) -> (found: bool)
        ensures
            found == self.deep_view().has_finalizer(),
    {
        match &self.metadata.finalizers {
            None => false,
            Some(finalizers) => contains(finalizers, FINALIZER),
        }
    }

    /// The finalizers of the VMI, with the operator's added.
    pub fn with_ours(&self) -> (finalizers: Vec<String>)
        ensures
            finalizers.deep_view() == self.deep_view().with_ours(),
    {
        let mut finalizers = match &self.metadata.finalizers {
            Some(present) => copied(present),
            None => Vec::new(),
        };
        finalizers.push(FINALIZER.to_owned());
        assert(finalizers.deep_view() =~= self.deep_view().with_ours());
        finalizers
    }
}

/// Specification of an `InitData`: what virt-handler starts QEMU with.
#[derive(Debug, Clone, PartialEq, Eq)]
pub struct InitDataSpec {
    /// Measurement for Intel TDX.
    pub mr_config_id: Option<String>,
    /// Measurement for AMD SEV-SNP.
    pub host_data: Option<String>,
    /// SMBIOS OEM strings for the guest.
    pub oem_strings: Vec<String>,
}

/// What an [`InitDataSpec`] holds.
#[verifier::ext_equal]
pub struct InitDataSpecView {
    pub mr_config_id: Option<Seq<char>>,
    pub host_data: Option<Seq<char>>,
    pub oem_strings: Seq<Seq<char>>,
}

impl DeepView for InitDataSpec {
    type V = InitDataSpecView;

    open spec fn deep_view(&self) -> InitDataSpecView {
        InitDataSpecView {
            mr_config_id: self.mr_config_id.deep_view(),
            host_data: self.host_data.deep_view(),
            oem_strings: self.oem_strings.deep_view(),
        }
    }
}

/// Status of an `InitData`.
#[derive(Debug, Clone, PartialEq, Eq)]
pub struct InitDataStatus {
    pub conditions: Option<Vec<serde_json::Value>>,
}

/// An `InitData` custom resource.
#[derive(Debug, Clone, PartialEq, Eq)]
pub struct InitData {
    pub metadata: ObjectMeta,
    pub spec: InitDataSpec,
    pub status: Option<InitDataStatus>,
}

/// What an [`InitData`] holds.
#[verifier::ext_equal]
pub struct InitDataView {
    pub metadata: ObjectMetaView,
    pub spec: InitDataSpecView,
    pub status: Option<InitDataStatus>,
}

impl DeepView for InitData {
    type V = InitDataView;

    open spec fn deep_view(&self) -> InitDataView {
        InitDataView {
            metadata: self.metadata.deep_view(),
            spec: self.spec.deep_view(),
            status: self.status,
        }
    }
}

} // verus!
