use provisioner_operator::config::Config;
use provisioner_operator::controller::{
    call, conflict, ensure_finalizer, error_policy, extract_init_data_ref, finalizer_patch,
    handle_deletion, is_owned_by, is_owned_by_another, make_init_data, provision_vmi, reconcile,
    resume, try_resume, Action, Answer, Call, Pending, Step, Target, TeePlatform,
};
use provisioner_operator::error::{ApiError, Error};
use provisioner_operator::resource::{
    DomainSpec, InitData, InitDataSpec, LaunchSecurity, ObjectMeta, OwnerReference, SevSnp, Tdx,
    VirtualMachineInstance, VirtualMachineInstanceSpec, FINALIZER,
};
use provisioner_operator::status::Status;
use provisioner_operator::trustee::{ProvisionedData, TrusteeReply, TrusteeResponse};

fn text(s: &str) -> Option<String> {
    Some(s.to_string())
}

fn config() -> Config {
    Config::from_env(text("http://kbs:8080"), None)
}

fn vmi(tdx: Option<&str>, snp: Option<&str>) -> VirtualMachineInstance {
    VirtualMachineInstance {
        metadata: ObjectMeta {
            name: text("my-vm"),
            namespace: text("prod"),
            uid: text("u-1"),
            deletion_timestamp: None,
            finalizers: None,
            owner_references: None,
        },
        spec: VirtualMachineInstanceSpec {
            domain: Some(DomainSpec {
                launch_security: Some(LaunchSecurity {
                    tdx: tdx.map(|r| Tdx { init_data_ref: r.to_string() }),
                    sev_snp: snp.map(|r| SevSnp { init_data_ref: r.to_string() }),
                }),
            }),
        },
        status: None,
    }
}

fn marked(mut vmi: VirtualMachineInstance) -> VirtualMachineInstance {
    vmi.metadata.finalizers = Some(vec!["other".to_string(), FINALIZER.to_string()]);
    vmi
}

fn deleted(mut vmi: VirtualMachineInstance) -> VirtualMachineInstance {
    vmi.metadata.deletion_timestamp = text("2026-01-01T00:00:00Z");
    vmi
}

fn target(platform: TeePlatform) -> Target {
    Target { init_data_ref: "vm-ref".to_string(), platform }
}

fn data() -> ProvisionedData {
    ProvisionedData {
        mr_config_id: "mr".to_string(),
        hostdata: "host".to_string(),
        oem_strings: vec!["oem".to_string()],
    }
}

fn status(code: u16) -> Status {
    Status::from_u16(code).unwrap()
}

fn reply(code: u16) -> TrusteeReply {
    TrusteeReply {
        status: status(code),
        body: "{}".to_string(),
        parsed: Ok(TrusteeResponse {
            uuid: "2b48".to_string(),
            resource_path: "default/2b48/root".to_string(),
        }),
    }
}

fn api_error(code: Option<u16>) -> ApiError {
    ApiError { code, message: "failure".to_string() }
}

fn settled() -> Step {
    Step::Done(Ok(Action::Requeue(300)))
}

fn conflicting() -> Step {
    Step::Done(Err(Error::Provisioning(
        "InitData vm-ref is already owned by another VMI".to_string(),
    )))
}

fn kube_failure() -> Step {
    Step::Done(Err(Error::Kube("failure".to_string())))
}

fn owner(name: &str, uid: &str) -> OwnerReference {
    OwnerReference {
        api_version: "kubevirt.io/v1".to_string(),
        kind: "VirtualMachineInstance".to_string(),
        name: name.to_string(),
        uid: uid.to_string(),
        controller: None,
        block_owner_deletion: None,
    }
}

fn init_data(owners: Option<Vec<OwnerReference>>) -> InitData {
    InitData {
        metadata: ObjectMeta {
            name: text("vm-ref"),
            namespace: text("prod"),
            uid: text("i-1"),
            deletion_timestamp: None,
            finalizers: None,
            owner_references: owners,
        },
        spec: InitDataSpec { mr_config_id: None, host_data: None, oem_strings: vec![] },
        status: None,
    }
}

#[test]
fn reference_for_each_platform() {
    assert_eq!(
        extract_init_data_ref(&vmi(Some("a"), None)),
        Some(("a".to_string(), TeePlatform::Tdx))
    );
    assert_eq!(
        extract_init_data_ref(&vmi(None, Some("b"))),
        Some(("b".to_string(), TeePlatform::Snp))
    );
}

#[test]
fn tdx_reference_goes_first() {
    assert_eq!(
        extract_init_data_ref(&vmi(Some("a"), Some("b"))),
        Some(("a".to_string(), TeePlatform::Tdx))
    );
    assert_eq!(
        extract_init_data_ref(&vmi(Some(""), Some("b"))),
        Some(("b".to_string(), TeePlatform::Snp))
    );
}

#[test]
fn no_reference() {
    assert_eq!(extract_init_data_ref(&vmi(None, None)), None);
    assert_eq!(extract_init_data_ref(&vmi(Some(""), Some(""))), None);
    let mut bare = vmi(Some("a"), None);
    bare.spec.domain = Some(DomainSpec { launch_security: None });
    assert_eq!(extract_init_data_ref(&bare), None);
    bare.spec.domain = None;
    assert_eq!(extract_init_data_ref(&bare), None);
}

#[test]
fn vmi_without_reference_is_left_alone() {
    assert_eq!(reconcile(&vmi(None, None)), settled());
}

#[test]
fn lookup_comes_first() {
    let vmi = vmi(Some("vm-ref"), None);
    let pending = Pending::Lookup(target(TeePlatform::Tdx));
    assert_eq!(
        call(&vmi, &config(), &pending),
        Call::GetInitData { namespace: "prod".to_string(), name: "vm-ref".to_string() }
    );
    assert_eq!(reconcile(&vmi), Step::Wait(pending));
}

#[test]
fn metadata_defaults() {
    let mut vmi = vmi(Some("vm-ref"), None);
    vmi.metadata.name = None;
    vmi.metadata.namespace = None;
    vmi.metadata.uid = None;
    assert_eq!(vmi.name(), "");
    assert_eq!(vmi.namespace(), "default");
    assert_eq!(vmi.uid(), "");
    assert!(is_owned_by(&init_data(Some(vec![owner("", "")])), &vmi));
}

#[test]
fn ownership_is_of_the_first_owner() {
    let vmi = vmi(Some("vm-ref"), None);
    assert!(is_owned_by(&init_data(Some(vec![owner("my-vm", "u-1")])), &vmi));
    assert!(is_owned_by(
        &init_data(Some(vec![owner("my-vm", "u-1"), owner("x", "y")])),
        &vmi
    ));
    assert!(!is_owned_by(
        &init_data(Some(vec![owner("x", "y"), owner("my-vm", "u-1")])),
        &vmi
    ));
    assert!(!is_owned_by(&init_data(Some(vec![owner("my-vm", "u-2")])), &vmi));
    assert!(!is_owned_by(&init_data(Some(vec![owner("other", "u-1")])), &vmi));
    let mut pod = owner("my-vm", "u-1");
    pod.kind = "Pod".to_string();
    assert!(!is_owned_by(&init_data(Some(vec![pod])), &vmi));
    assert!(!is_owned_by(&init_data(Some(vec![])), &vmi));
    assert!(!is_owned_by(&init_data(None), &vmi));
}

#[test]
fn own_init_data_settles() {
    let vmi = vmi(Some("vm-ref"), None);
    let found = init_data(Some(vec![owner("my-vm", "u-1")]));
    assert_eq!(
        resume(&vmi, &config(), Pending::Lookup(target(TeePlatform::Tdx)), Answer::InitData(Ok(found))),
        settled()
    );
}

#[test]
fn foreign_init_data_is_rejected() {
    let vmi = vmi(Some("vm-ref"), None);
    let found = init_data(Some(vec![owner("my-vm", "u-0")]));
    assert_eq!(
        resume(&vmi, &config(), Pending::Lookup(target(TeePlatform::Tdx)), Answer::InitData(Ok(found))),
        conflicting()
    );
}

#[test]
fn lookup_failures() {
    let vmi = vmi(Some("vm-ref"), None);
    for code in [None, Some(403), Some(500)] {
        assert_eq!(
            resume(
                &vmi,
                &config(),
                Pending::Lookup(target(TeePlatform::Tdx)),
                Answer::InitData(Err(api_error(code)))
            ),
            kube_failure()
        );
    }
    assert_eq!(
        resume(
            &vmi,
            &config(),
            Pending::Lookup(target(TeePlatform::Tdx)),
            Answer::InitData(Err(api_error(Some(404))))
        ),
        Step::Wait(Pending::AddFinalizer(target(TeePlatform::Tdx)))
    );
}

#[test]
fn finalizer_is_added_unless_present() {
    let bare = vmi(Some("vm-ref"), None);
    assert_eq!(ensure_finalizer(&bare), Some(vec![FINALIZER.to_string()]));
    assert_eq!(
        provision_vmi(&bare, target(TeePlatform::Snp)),
        Step::Wait(Pending::AddFinalizer(target(TeePlatform::Snp)))
    );
    let marked = marked(bare);
    assert_eq!(ensure_finalizer(&marked), None);
    assert_eq!(
        provision_vmi(&marked, target(TeePlatform::Snp)),
        Step::Wait(Pending::Recheck(target(TeePlatform::Snp)))
    );
}

#[test]
fn finalizer_is_added_to_those_of_others() {
    let mut vmi = vmi(Some("vm-ref"), None);
    vmi.metadata.finalizers = Some(vec!["other/f".to_string()]);
    let both = vec!["other/f".to_string(), FINALIZER.to_string()];
    assert!(!vmi.has_finalizer());
    assert_eq!(vmi.with_ours(), both);
    assert_eq!(ensure_finalizer(&vmi), Some(both.clone()));
    match call(&vmi, &config(), &Pending::AddFinalizer(target(TeePlatform::Tdx))) {
        Call::PatchFinalizers { finalizers, .. } => {
            assert_eq!(
                serde_json::to_string(&finalizer_patch(&finalizers)).unwrap(),
                "{\"metadata\":{\"finalizers\":[\"other/f\",\
                 \"provisioner-operator.confidentialcontainers.io/cleanup\"]}}"
            );
        }
        other => panic!("{:?}", other),
    }
    vmi.metadata.finalizers = Some(both);
    assert!(vmi.has_finalizer());
    assert_eq!(ensure_finalizer(&vmi), None);
    vmi.metadata.finalizers = Some(vec![]);
    assert_eq!(ensure_finalizer(&vmi), Some(vec![FINALIZER.to_string()]));
}

#[test]
fn finalizer_patches() {
    let vmi = vmi(Some("vm-ref"), None);
    match call(&vmi, &config(), &Pending::AddFinalizer(target(TeePlatform::Tdx))) {
        Call::PatchFinalizers { namespace, name, field_manager, finalizers } => {
            assert_eq!(namespace, "prod");
            assert_eq!(name, "my-vm");
            assert_eq!(field_manager, "provisioner-operator");
            assert_eq!(
                serde_json::to_string(&finalizer_patch(&finalizers)).unwrap(),
                "{\"metadata\":{\"finalizers\":[\"provisioner-operator.confidentialcontainers.io/cleanup\"]}}"
            );
        }
        other => panic!("{:?}", other),
    }
    match call(&vmi, &config(), &Pending::RemoveFinalizer) {
        Call::PatchFinalizers { finalizers, .. } => assert_eq!(
            serde_json::to_string(&finalizer_patch(&finalizers)).unwrap(),
            "{\"metadata\":{\"finalizers\":[]}}"
        ),
        other => panic!("{:?}", other),
    }
}

#[test]
fn provisioning_runs_to_its_end() {
    let vmi = vmi(None, Some("vm-ref"));
    let step = reconcile(&vmi);
    let answers = vec![
        Answer::InitData(Err(api_error(Some(404)))),
        Answer::Patched(Ok(())),
        Answer::InitData(Err(api_error(None))),
        Answer::Health(Ok(status(200))),
        Answer::Provisioned(Ok(reply(200))),
        Answer::Created(Ok(())),
    ];
    let mut calls: Vec<String> = vec![];
    let mut step = step;
    for answer in answers {
        match step {
            Step::Wait(pending) => {
                calls.push(match call(&vmi, &config(), &pending) {
                    Call::GetInitData { namespace, name } => format!("get {namespace}/{name}"),
                    Call::PatchFinalizers { name, .. } => format!("patch {name}"),
                    Call::GetHealth { url } => url,
                    Call::PostProvision { url, vm_name, namespace } => {
                        format!("{url} {namespace}/{vm_name}")
                    }
                    Call::CreateInitData { namespace, init_data } => {
                        format!("create {namespace}/{}", init_data.metadata.name.as_ref().unwrap())
                    }
                    Call::DeleteProvision { url } => url,
                });
                step = try_resume(&vmi, &config(), pending, answer).unwrap();
            }
            done => panic!("{:?}", done),
        }
    }
    assert_eq!(step, settled());
    assert_eq!(
        calls,
        vec![
            "get prod/vm-ref",
            "patch my-vm",
            "get prod/vm-ref",
            "http://kbs:8080/healthz",
            "http://kbs:8080/kbs/v0/provisioner/provision prod/my-vm",
            "create prod/vm-ref",
        ]
    );
}

#[test]
fn reply_of_trustee_becomes_init_data() {
    let vmi = vmi(None, Some("vm-ref"));
    match resume(
        &vmi,
        &config(),
        Pending::Provision(target(TeePlatform::Snp)),
        Answer::Provisioned(Ok(reply(200))),
    ) {
        Step::Wait(Pending::Create(made)) => {
            assert_eq!(made.spec.mr_config_id, None);
            assert_eq!(
                made.spec.host_data,
                text("39ZbgFBLa05bHUT4K+ejAo01ZVl1meUcHe4Fbuuz/9U=")
            );
            assert_eq!(made.spec.oem_strings.len(), 1);
        }
        other => panic!("{:?}", other),
    }
}

#[test]
fn recheck_finds_init_data() {
    let vmi = vmi(Some("vm-ref"), None);
    let mut pod = owner("other-vm", "u-2");
    pod.kind = "Pod".to_string();
    let accepted =
        [None, Some(vec![]), Some(vec![pod]), Some(vec![owner("my-vm", "u-1"), owner("x", "y")])];
    for owners in accepted {
        let found = init_data(owners);
        assert!(!is_owned_by_another(&found, &vmi));
        assert_eq!(
            resume(
                &vmi,
                &config(),
                Pending::Recheck(target(TeePlatform::Tdx)),
                Answer::InitData(Ok(found))
            ),
            settled()
        );
    }
}

#[test]
fn recheck_rejects_foreign_init_data() {
    let vmi = vmi(Some("vm-ref"), None);
    for owner in [owner("other-vm", "u-2"), owner("my-vm", "u-0"), owner("other-vm", "u-1")] {
        let found = init_data(Some(vec![owner]));
        assert!(is_owned_by_another(&found, &vmi));
        assert_eq!(
            resume(
                &vmi,
                &config(),
                Pending::Recheck(target(TeePlatform::Tdx)),
                Answer::InitData(Ok(found))
            ),
            conflicting()
        );
    }
}

#[test]
fn first_lookup_rejects_unowned_init_data() {
    let vmi = vmi(Some("vm-ref"), None);
    let mut pod = owner("my-vm", "u-1");
    pod.kind = "Pod".to_string();
    for owners in [None, Some(vec![]), Some(vec![pod])] {
        assert_eq!(
            resume(
                &vmi,
                &config(),
                Pending::Lookup(target(TeePlatform::Tdx)),
                Answer::InitData(Ok(init_data(owners)))
            ),
            conflicting()
        );
    }
}

#[test]
fn conflict_names_the_init_data() {
    assert_eq!(
        conflict("vm-ref"),
        Error::Provisioning("InitData vm-ref is already owned by another VMI".to_string())
    );
}

#[test]
fn failures_end_the_reconciliation() {
    let vmi = vmi(Some("vm-ref"), None);
    let t = || target(TeePlatform::Tdx);
    assert_eq!(
        resume(&vmi, &config(), Pending::AddFinalizer(t()), Answer::Patched(Err(api_error(None)))),
        kube_failure()
    );
    assert_eq!(
        resume(&vmi, &config(), Pending::Health(t()), Answer::Health(Ok(status(503)))),
        Step::Done(Err(Error::ProvisioningError(
            "Trustee health check failed: HTTP 503 Service Unavailable".to_string()
        )))
    );
    assert_eq!(
        resume(
            &vmi,
            &config(),
            Pending::Provision(t()),
            Answer::Provisioned(Err("down".to_string()))
        ),
        Step::Done(Err(Error::Http("down".to_string())))
    );
    assert_eq!(
        resume(&vmi, &config(), Pending::Provision(t()), Answer::Provisioned(Ok(reply(500)))),
        Step::Done(Err(Error::ProvisioningError(
            "Trustee returned HTTP 500 Internal Server Error: {}".to_string()
        )))
    );
    assert_eq!(
        resume(
            &vmi,
            &config(),
            Pending::Create(init_data(None)),
            Answer::Created(Err(api_error(Some(409))))
        ),
        kube_failure()
    );
}

#[test]
fn init_data_for_tdx() {
    let made = make_init_data(&vmi(Some("vm-ref"), None), target(TeePlatform::Tdx), data());
    assert_eq!(
        made,
        InitData {
            metadata: ObjectMeta {
                name: text("vm-ref"),
                namespace: text("prod"),
                uid: None,
                deletion_timestamp: None,
                finalizers: None,
                owner_references: Some(vec![owner("my-vm", "u-1")]),
            },
            spec: InitDataSpec {
                mr_config_id: text("mr"),
                host_data: None,
                oem_strings: vec!["oem".to_string()],
            },
            status: None,
        }
    );
}

#[test]
fn init_data_for_snp() {
    let made = make_init_data(&vmi(None, Some("vm-ref")), target(TeePlatform::Snp), data());
    assert_eq!(made.spec.mr_config_id, None);
    assert_eq!(made.spec.host_data, text("host"));
}

#[test]
fn created_init_data_is_recognized_later() {
    let vmi = vmi(Some("vm-ref"), None);
    let mut made = make_init_data(&vmi, target(TeePlatform::Tdx), data());
    made.metadata.uid = text("i-7");
    let later = marked(vmi);
    match reconcile(&later) {
        Step::Wait(pending) => {
            assert_eq!(resume(&later, &config(), pending, Answer::InitData(Ok(made))), settled())
        }
        done => panic!("{:?}", done),
    }
}

#[test]
fn deleted_vmi_without_finalizer_is_let_go() {
    let vmi = deleted(vmi(Some("vm-ref"), None));
    assert_eq!(reconcile(&vmi), Step::Done(Ok(Action::AwaitChange)));
    assert_eq!(handle_deletion(&vmi), Step::Done(Ok(Action::AwaitChange)));
}

#[test]
fn deleted_vmi_is_cleaned_up_after() {
    let vmi = deleted(marked(vmi(None, None)));
    assert_eq!(reconcile(&vmi), Step::Wait(Pending::NotifyTrustee));
    assert_eq!(
        call(&vmi, &config(), &Pending::NotifyTrustee),
        Call::DeleteProvision {
            url: "http://kbs:8080/kbs/v0/provisioner/provision/prod/my-vm".to_string()
        }
    );
    assert_eq!(
        resume(&vmi, &config(), Pending::NotifyTrustee, Answer::Deleted(Ok(()))),
        Step::Wait(Pending::RemoveFinalizer)
    );
    assert_eq!(
        resume(&vmi, &config(), Pending::RemoveFinalizer, Answer::Patched(Ok(()))),
        Step::Done(Ok(Action::AwaitChange))
    );
}

#[test]
fn cleanup_failures() {
    let vmi = deleted(marked(vmi(None, None)));
    assert_eq!(
        resume(&vmi, &config(), Pending::NotifyTrustee, Answer::Deleted(Err("down".to_string()))),
        Step::Done(Err(Error::Http("down".to_string())))
    );
    assert_eq!(
        resume(&vmi, &config(), Pending::RemoveFinalizer, Answer::Patched(Err(api_error(Some(409))))),
        kube_failure()
    );
}

#[test]
fn stray_answers_change_nothing() {
    let vmi = vmi(Some("vm-ref"), None);
    assert_eq!(
        resume(&vmi, &config(), Pending::Lookup(target(TeePlatform::Tdx)), Answer::Health(Ok(status(200)))),
        Step::Wait(Pending::Lookup(target(TeePlatform::Tdx)))
    );
    assert_eq!(
        resume(&vmi, &config(), Pending::NotifyTrustee, Answer::Patched(Ok(()))),
        Step::Wait(Pending::NotifyTrustee)
    );
}

#[test]
fn failures_are_tried_again() {
    assert_eq!(error_policy(&Error::Kube("x".to_string())), Action::Requeue(30));
}

#[test]
fn vmis_named_after_themselves_look_up_different_objects() {
    let a = vmi(Some("my-vm"), None);
    let mut b = vmi(Some("vm-2"), None);
    b.metadata.name = text("vm-2");
    match (reconcile(&a), reconcile(&b)) {
        (Step::Wait(x), Step::Wait(y)) => {
            assert_ne!(call(&a, &config(), &x), call(&b, &config(), &y))
        }
        _ => panic!("both look up their InitData"),
    }
}
