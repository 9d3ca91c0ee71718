use provisioner_operator::controller::TeePlatform;
use provisioner_operator::error::Error;
use provisioner_operator::kubevirt::{
    inject_initdata, inject_payload, inject_uri, put_json, put_serialized, unpause, unpause_uri,
};

fn oem() -> Vec<String> {
    vec!["b3Jn".to_string(), "quo\"te".to_string()]
}

#[test]
fn paths_of_the_subresources() {
    assert_eq!(
        unpause_uri("ns", "vm"),
        "/apis/subresources.kubevirt.io/v1/namespaces/ns/virtualmachineinstances/vm/unpause"
    );
    assert_eq!(
        inject_uri("ns", "vm", TeePlatform::Tdx),
        "/apis/subresources.kubevirt.io/v1/namespaces/ns/virtualmachineinstances/vm/tdx/injectInitdata"
    );
    assert_eq!(
        inject_uri("ns", "vm", TeePlatform::Snp),
        "/apis/subresources.kubevirt.io/v1/namespaces/ns/virtualmachineinstances/vm/sev/injectInitdata"
    );
}

#[test]
fn payload_of_each_platform() {
    let tdx = inject_payload(TeePlatform::Tdx, "mr", "host", &oem());
    assert_eq!(tdx.len(), 2);
    assert_eq!(tdx["mrConfigId"], serde_json::Value::from("mr"));
    assert_eq!(tdx["oemStrings"], serde_json::Value::from(oem()));
    let snp = inject_payload(TeePlatform::Snp, "mr", "host", &oem());
    assert_eq!(snp.len(), 2);
    assert_eq!(snp["hostData"], serde_json::Value::from("host"));
}

#[test]
fn injection_for_tdx() {
    let request = inject_initdata(TeePlatform::Tdx, "ns", "vm", "mr", "host", &oem()).unwrap();
    assert_eq!(request.method().as_str(), "PUT");
    assert_eq!(request.uri().to_string(), inject_uri("ns", "vm", TeePlatform::Tdx));
    assert_eq!(request.headers().len(), 1);
    assert_eq!(request.headers()["content-type"], "application/json");
    assert_eq!(
        request.body().as_slice(),
        b"{\"mrConfigId\":\"mr\",\"oemStrings\":[\"b3Jn\",\"quo\\\"te\"]}"
    );
}

#[test]
fn injection_for_snp() {
    let request = inject_initdata(TeePlatform::Snp, "ns", "vm", "mr", "host", &[]).unwrap();
    assert_eq!(request.uri().to_string(), inject_uri("ns", "vm", TeePlatform::Snp));
    assert_eq!(request.body().as_slice(), b"{\"hostData\":\"host\",\"oemStrings\":[]}");
}

#[test]
fn injection_under_an_impossible_path() {
    match inject_initdata(TeePlatform::Tdx, "name space", "vm", "mr", "host", &[]) {
        Err(Error::ProvisioningError(text)) => assert_eq!(text, "invalid uri character"),
        _ => panic!("a space has no place in a path"),
    }
}

#[test]
fn unserializable_payload() {
    match put_serialized("/p", Err("bad".to_string())) {
        Err(error) => assert_eq!(error, Error::ProvisioningError("bad".to_string())),
        Ok(_) => panic!("there is nothing to put"),
    }
    assert_eq!(put_serialized("/p", Ok(vec![1])).unwrap().body(), &vec![1u8]);
}

#[test]
fn unpausing() {
    let request = unpause("ns", "vm").unwrap();
    assert_eq!(request.method().as_str(), "PUT");
    assert_eq!(request.uri().to_string(), unpause_uri("ns", "vm"));
    assert_eq!(request.headers()["content-type"], "application/json");
    assert_eq!(request.body().as_slice(), b"{}");
}

#[test]
fn unpausing_under_an_impossible_path() {
    assert!(matches!(unpause("ns", "a b"), Err(Error::ProvisioningError(_))));
    assert!(put_json("", vec![]).is_err());
}
