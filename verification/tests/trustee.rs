use base64::Engine;
use provisioner_operator::error::Error;
use provisioner_operator::status::Status;
use provisioner_operator::trustee::{
    derive_data, fits, health_check, initdata_toml, provision, provision_body, provisioned_data,
    refusal, unhealthy, unreadable, ProvisionedData, TrusteeReply, TrusteeResponse,
};

const TOML: &str = "algorithm = \"sha384\"\n\
    version = \"0.1.0\"\n\
    \n\
    [data]\n\
    \"trustee.kbs.url\" = \"http://kbs:8080\"\n\
    \"trustee.kbs.resource\" = \"kbs+provisioner:///default/2b48/root\"\n";

const MR_CONFIG_ID: &str = "LMg8ypF0cKrtu3y586myXSSGygX2yGTHRmnvofnoxJEDKB7DPnJ2NZ7y2em83YGD";

const HOST_DATA: &str = "39ZbgFBLa05bHUT4K+ejAo01ZVl1meUcHe4Fbuuz/9U=";

const OEM_STRING: &str = "YWxnb3JpdGhtID0gInNoYTM4NCIKdmVyc2lvbiA9ICIwLjEuMCIKCltkYXRhXQoidHJ1\
    c3RlZS5rYnMudXJsIiA9ICJodHRwOi8va2JzOjgwODAiCiJ0cnVzdGVlLmticy5yZXNvdXJjZSIgPSAia2JzK3Byb3Zp\
    c2lvbmVyOi8vL2RlZmF1bHQvMmI0OC9yb290Igo=";

fn status(code: u16) -> Status {
    Status::from_u16(code).unwrap()
}

fn reply(code: u16, body: &str, parsed: Result<TrusteeResponse, String>) -> TrusteeReply {
    TrusteeReply { status: status(code), body: body.to_string(), parsed }
}

fn response(resource_path: &str) -> TrusteeResponse {
    TrusteeResponse { uuid: "2b48".to_string(), resource_path: resource_path.to_string() }
}

fn expected() -> ProvisionedData {
    ProvisionedData {
        mr_config_id: MR_CONFIG_ID.to_string(),
        hostdata: HOST_DATA.to_string(),
        oem_strings: vec![OEM_STRING.to_string()],
    }
}

#[test]
fn statuses_are_three_digit_numbers() {
    assert!(Status::from_u16(99).is_none());
    assert!(Status::from_u16(1000).is_none());
    assert_eq!(status(100).as_u16(), 100);
    assert_eq!(status(999).as_u16(), 999);
    assert_eq!(status(200).text(), "200 OK");
    assert_eq!(status(503).text(), "503 Service Unavailable");
    assert_eq!(status(799).text(), "799 <unknown status code>");
}

#[test]
fn success_is_200_to_299() {
    assert!(!status(199).is_success());
    assert!(status(200).is_success());
    assert!(status(299).is_success());
    assert!(!status(300).is_success());
}

#[test]
fn healthy() {
    assert_eq!(health_check(Ok(status(200))), Ok(()));
}

#[test]
fn health_check_refused() {
    assert_eq!(
        health_check(Ok(status(503))),
        Err(Error::ProvisioningError(
            "Trustee health check failed: HTTP 503 Service Unavailable".to_string()
        ))
    );
    assert_eq!(
        unhealthy("404 Not Found"),
        Error::ProvisioningError("Trustee health check failed: HTTP 404 Not Found".to_string())
    );
}

#[test]
fn health_check_unanswered() {
    assert_eq!(
        health_check(Err("connection refused".to_string())),
        Err(Error::Http("connection refused".to_string()))
    );
}

#[test]
fn initdata_names_the_kbs_and_the_resource() {
    assert_eq!(initdata_toml("http://kbs:8080", "default/2b48/root"), TOML);
}

#[test]
fn measurements_of_the_initdata() {
    assert_eq!(derive_data(TOML), expected());
    assert_eq!(
        provisioned_data(MR_CONFIG_ID.to_string(), HOST_DATA.to_string(), OEM_STRING.to_string()),
        expected()
    );
}

#[test]
fn provisioned() {
    let ok = reply(200, "{}", Ok(response("default/2b48/root")));
    assert_eq!(provision("http://kbs:8080", Ok(ok)), Ok(expected()));
    let created = reply(201, "{}", Ok(response("default/2b48/root")));
    assert!(fits("http://kbs:8080", &Err(String::new())));
    let created = Ok(created);
    assert!(fits("http://kbs:8080", &created));
    assert_eq!(provision("http://kbs:8080", created), Ok(expected()));
}

#[test]
fn each_resource_has_an_oem_string_of_its_own() {
    let oem_string = |path: &str| {
        let reply = Ok(reply(200, "{}", Ok(response(path))));
        assert!(fits("http://kbs:8080", &reply));
        provision("http://kbs:8080", reply).unwrap().oem_strings.remove(0)
    };
    let paths = ["default/2b48/root", "default/2b49/root", ""];
    for a in paths {
        let decoded = base64::engine::general_purpose::STANDARD.decode(oem_string(a)).unwrap();
        let line = format!("\n\"trustee.kbs.resource\" = \"kbs+provisioner:///{a}\"\n");
        assert!(String::from_utf8(decoded).unwrap().ends_with(&line));
        for b in paths {
            assert_eq!(oem_string(a) == oem_string(b), a == b);
        }
    }
}

#[test]
fn provisioning_refused() {
    let refused = reply(403, "no such VM", Ok(response("x")));
    let error = Error::ProvisioningError(
        "Trustee returned HTTP 403 Forbidden: no such VM".to_string(),
    );
    assert_eq!(refusal("403 Forbidden", "no such VM"), error);
    assert_eq!(provision("http://kbs:8080", Ok(refused)), Err(error));
}

#[test]
fn provisioning_reply_unreadable() {
    let unread = reply(200, "not \"json\"\n", Err("expected value".to_string()));
    let error = Error::ProvisioningError(
        "Failed to parse Trustee response: expected value \u{2014} body was: \"not \\\"json\\\"\\n\""
            .to_string(),
    );
    assert_eq!(unreadable("expected value", "\"not \\\"json\\\"\\n\""), error);
    assert_eq!(provision("http://kbs:8080", Ok(unread)), Err(error));
}

#[test]
fn refusal_goes_before_an_unreadable_body() {
    let refused = reply(500, "oops", Err("expected value".to_string()));
    assert_eq!(
        provision("http://kbs:8080", Ok(refused)),
        Err(Error::ProvisioningError(
            "Trustee returned HTTP 500 Internal Server Error: oops".to_string()
        ))
    );
}

#[test]
fn provisioning_unanswered() {
    assert_eq!(
        provision("http://kbs:8080", Err("timed out".to_string())),
        Err(Error::Http("timed out".to_string()))
    );
}

#[test]
fn provisioning_request_body() {
    let body = provision_body("tdx1", "default");
    assert_eq!(
        serde_json::to_string(&body).unwrap(),
        "{\"namespace\":\"default\",\"vm_name\":\"tdx1\"}"
    );
}
