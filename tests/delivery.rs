use hook_deploy::{
    compute_signature, deployment_outcome, response_status, Config, DeliveryError,
    PipelineError, Step,
};

const MAIN_PUSH: &[u8] = br#"{"ref":"refs/heads/main"}"#;

fn config(secret: &str) -> Config {
    Config::new(secret.as_bytes().to_vec(), "/www/hugo".to_string())
}

#[test]
fn missing_signature_is_a_client_error() {
    let cfg = config("topsecret");
    for body in [MAIN_PUSH, b"", b"not json at all"] {
        let r = cfg.check_delivery(None, body);
        assert_eq!(r, Err(DeliveryError::MissingSignature));
        assert_eq!(response_status(&r), 400);
    }
}

#[test]
fn wrong_signature_is_unauthorized() {
    let cfg = config("topsecret");
    let sig = "sha256=6035c92f05940feb5beb0351ac0ab0c743e4b6ca1e87c7966fa75c3544d44bd0";
    let r = cfg.check_delivery(Some(sig), MAIN_PUSH);
    assert_eq!(r, Err(DeliveryError::SignatureMismatch));
    assert_eq!(response_status(&r), 401);
}

#[test]
fn valid_signature_and_json_is_accepted() {
    let cfg = config("topsecret");
    let sig = "sha256=7804d460f7eadad206a6d4c5a760b15defa80add90a31069e5ab2df85f18bcfa";
    let r = cfg.check_delivery(Some(sig), MAIN_PUSH);
    assert_eq!(r, Ok(()));
    assert_eq!(response_status(&r), 200);
}

#[test]
fn malformed_json_with_valid_signature_is_a_client_error() {
    let cfg = config("topsecret");
    let body: &[u8] = b"not json at all";
    let sig = "sha256=728d8fe8c44ca1fdae3ab6453f8aba1128f2f6a99fea07cd022d49129a1f468a";
    assert_eq!(compute_signature(b"topsecret", body).unwrap(), sig);
    let r = cfg.check_delivery(Some(sig), body);
    assert_eq!(r, Err(DeliveryError::MalformedPayload));
    assert_eq!(response_status(&r), 400);
}

#[test]
fn empty_body_with_valid_signature_is_malformed() {
    let cfg = config("topsecret");
    let sig = "sha256=818f9cb88315ac08b5ef83f96650ca6f4e3dddcb4548e4879b746f56b57fa2b0";
    assert_eq!(cfg.check_delivery(Some(sig), b""), Err(DeliveryError::MalformedPayload));
}

#[test]
fn malformed_json_with_bad_signature_is_unauthorized() {
    let cfg = config("topsecret");
    let r = cfg.check_delivery(Some("sha256=00"), b"{");
    assert_eq!(r, Err(DeliveryError::SignatureMismatch));
}

#[test]
fn any_json_value_passes_the_gate() {
    let cfg = config("k");
    for body in [&b"[]"[..], b"3", b"\"s\"", b" {\"a\": [1, {\"b\": null}]} \n"] {
        let sig = compute_signature(b"k", body).unwrap();
        assert_eq!(cfg.check_delivery(Some(&sig), body), Ok(()));
    }
    for body in [&b"{\"a\":}"[..], b"[1,", b"{} {}", b"nul"] {
        let sig = compute_signature(b"k", body).unwrap();
        assert_eq!(
            cfg.check_delivery(Some(&sig), body),
            Err(DeliveryError::MalformedPayload)
        );
    }
}

#[test]
fn empty_secret_still_authenticates() {
    let cfg = config("");
    assert!(cfg.secret_is_empty());
    assert!(!config("topsecret").secret_is_empty());
    let sig = "sha256=70f408f0cf4971860f1ae76a84a59fed54c23b666a5c1069573bd17b46168283";
    assert_eq!(cfg.check_delivery(Some(sig), MAIN_PUSH), Ok(()));
    let other = compute_signature(b"topsecret", MAIN_PUSH).unwrap();
    assert_eq!(
        cfg.check_delivery(Some(&other), MAIN_PUSH),
        Err(DeliveryError::SignatureMismatch)
    );
}

#[test]
fn statuses_of_every_error() {
    assert_eq!(response_status(&Ok(())), 200);
    assert_eq!(response_status(&Err(DeliveryError::MissingSignature)), 400);
    assert_eq!(response_status(&Err(DeliveryError::SignatureMismatch)), 401);
    assert_eq!(response_status(&Err(DeliveryError::MalformedPayload)), 400);
    assert_eq!(response_status(&Err(DeliveryError::MacSetup)), 500);
    for e in [
        PipelineError::Launch(Step::Sync),
        PipelineError::Exit(Step::Sync),
        PipelineError::Launch(Step::Build),
        PipelineError::Exit(Step::Build),
    ] {
        assert_eq!(response_status(&Err(DeliveryError::Pipeline(e))), 500);
    }
}

#[test]
fn pipeline_results_become_delivery_outcomes() {
    assert_eq!(deployment_outcome(Ok(())), Ok(()));
    let e = PipelineError::Exit(Step::Build);
    assert_eq!(deployment_outcome(Err(e)), Err(DeliveryError::Pipeline(e)));
    assert_eq!(response_status(&deployment_outcome(Err(e))), 500);
}

#[test]
fn invocations_of_each_step() {
    let cfg = config("s");
    let sync = cfg.invocation(Step::Sync);
    assert_eq!(sync.program, "git");
    assert_eq!(sync.args, vec!["pull".to_string()]);
    assert_eq!(sync.dir, "/www/hugo");
    let build = cfg.invocation(Step::Build);
    assert_eq!(build.program, "hugo");
    assert!(build.args.is_empty());
    assert_eq!(build.dir, "/www/hugo");
}
