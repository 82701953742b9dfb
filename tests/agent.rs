use attestation_agent::agent::{AttestationAgent, ExtendRequest, Phase};
use attestation_agent::config::{CoCoASConfig, Config, KbsConfig, DEFAULT_PCR_INDEX};
use attestation_agent::error::{AgentError, ErrorKind};
use attestation_agent::hash::HashAlgorithm;
use attestation_agent::token::{resolve_token_request, TokenRequest, TokenType};
use sha2::{Digest, Sha256};

fn sha256_config() -> Config {
    let mut c = Config::new();
    c.eventlog_config.eventlog_algorithm = HashAlgorithm::Sha256;
    c
}

/// Runs a whole extension with both steps succeeding; hands back the request.
fn complete(agent: &mut AttestationAgent, req: Result<ExtendRequest, AgentError>) -> ExtendRequest {
    let req = req.unwrap();
    let line = agent.register_extended(Ok(())).unwrap();
    agent.log_written(Ok(())).unwrap();
    assert!(!line.is_empty());
    req
}

fn chain(old: &[u8], digest: &[u8]) -> Vec<u8> {
    let mut v = old.to_vec();
    v.extend_from_slice(digest);
    Sha256::digest(&v).to_vec()
}

#[test]
fn init_then_extend_with_sha256() {
    let mut agent = AttestationAgent::new(sha256_config());
    let r = agent.begin_init();
    let init = complete(&mut agent, r);
    let init_text = format!("INIT sha256/{}", "0".repeat(64));
    assert_eq!(init.register_index, 17);
    assert_eq!(init.digest, Sha256::digest(init_text.as_bytes()).to_vec());

    let r = agent.begin_extend("workload", "start", "v1", None);
    let ext = complete(&mut agent, r);
    assert_eq!(ext.register_index, 17);
    assert_eq!(ext.digest, Sha256::digest(b"workload start v1").to_vec());

    let lines = agent.event_log().lines();
    assert_eq!(lines, vec![init_text.clone(), "workload start v1".to_string()]);

    let expected = chain(&chain(&[0u8; 32], &init.digest), &ext.digest);
    assert_eq!(agent.event_log().replay(HashAlgorithm::Sha256, 17), expected);
    assert_eq!(agent.phase(), Phase::Idle);
}

#[test]
fn init_alone_gives_one_zero_digest_entry() {
    for (alg, name, n) in [
        (HashAlgorithm::Sha256, "sha256", 64usize),
        (HashAlgorithm::Sha384, "sha384", 96),
        (HashAlgorithm::Sha512, "sha512", 128),
    ] {
        let mut c = Config::new();
        c.eventlog_config.eventlog_algorithm = alg;
        let mut agent = AttestationAgent::new(c);
        let r = agent.begin_init();
        complete(&mut agent, r);
        let lines = agent.event_log().lines();
        assert_eq!(lines.len(), 1);
        assert_eq!(lines[0], format!("INIT {}/{}", name, "0".repeat(n)));
    }
}

#[test]
fn default_config_uses_sha384_and_register_17() {
    let c = Config::new();
    assert_eq!(c.eventlog_config.eventlog_algorithm, HashAlgorithm::Sha384);
    assert_eq!(c.eventlog_config.init_pcr, DEFAULT_PCR_INDEX);
    assert_eq!(DEFAULT_PCR_INDEX, 17);
}

#[test]
fn init_pcr_from_config_is_used() {
    let mut c = sha256_config();
    c.eventlog_config.init_pcr = 9;
    let mut agent = AttestationAgent::new(c);
    let req = agent.begin_init().unwrap();
    assert_eq!(req.register_index, 9);
}

#[test]
fn explicit_register_index_is_kept() {
    let mut agent = AttestationAgent::new(sha256_config());
    let req = agent.begin_extend("d", "o", "c", Some(4)).unwrap();
    assert_eq!(req.register_index, 4);
}

#[test]
fn n_extensions_give_n_entries_in_order() {
    let mut agent = AttestationAgent::new(sha256_config());
    let mut expected = vec![0u8; 32];
    for i in 0..5 {
        let content = format!("v{}", i);
        let r = agent.begin_extend("workload", "step", &content, None);
        let req = complete(&mut agent, r);
        expected = chain(&expected, &req.digest);
    }
    let lines = agent.event_log().lines();
    assert_eq!(lines.len(), 5);
    for (i, l) in lines.iter().enumerate() {
        assert_eq!(l, &format!("workload step v{}", i));
    }
    assert_eq!(agent.event_log().replay(HashAlgorithm::Sha256, 17), expected);
}

#[test]
fn second_extension_waits_for_the_first() {
    let mut agent = AttestationAgent::new(sha256_config());
    agent.begin_extend("a", "b", "c", None).unwrap();
    assert_eq!(agent.begin_extend("d", "e", "f", None).unwrap_err(), AgentError::Busy);
    assert_eq!(agent.begin_init().unwrap_err(), AgentError::Busy);
    agent.register_extended(Ok(())).unwrap();
    assert_eq!(agent.begin_extend("d", "e", "f", None).unwrap_err(), AgentError::Busy);
    agent.log_written(Ok(())).unwrap();
    assert!(agent.begin_extend("d", "e", "f", None).is_ok());
}

#[test]
fn failed_register_extension_appends_nothing() {
    let mut agent = AttestationAgent::new(sha256_config());
    let r = agent.begin_init();
    complete(&mut agent, r);
    agent.begin_extend("a", "b", "c", None).unwrap();
    let err = agent.register_extended(Err("device busy".to_string())).unwrap_err();
    assert_eq!(err, AgentError::Attester("device busy".to_string()));
    assert_eq!(err.kind(), ErrorKind::Attester);
    assert_eq!(agent.event_log().len(), 1);
    assert_eq!(agent.phase(), Phase::Idle);
    assert!(agent.begin_extend("a", "b", "c", None).is_ok());
}

#[test]
fn failed_log_write_diverges() {
    let mut agent = AttestationAgent::new(sha256_config());
    agent.begin_extend("a", "b", "c", None).unwrap();
    agent.register_extended(Ok(())).unwrap();
    let err = agent.log_written(Err("disk full".to_string())).unwrap_err();
    assert_eq!(err, AgentError::LogWrite("disk full".to_string()));
    assert_eq!(err.kind(), ErrorKind::LogIo);
    assert_eq!(agent.event_log().len(), 0);
    assert_eq!(agent.phase(), Phase::Diverged);
    assert_eq!(agent.begin_extend("a", "b", "c", None).unwrap_err(), AgentError::Diverged);
    assert_eq!(agent.begin_init().unwrap_err(), AgentError::Diverged);
}

#[test]
fn init_only_opens_an_empty_log() {
    let mut agent = AttestationAgent::new(sha256_config());
    let r = agent.begin_extend("a", "b", "c", None);
    complete(&mut agent, r);
    let err = agent.begin_init().unwrap_err();
    assert_eq!(err, AgentError::AlreadyInitialized);
    assert_eq!(err.kind(), ErrorKind::Protocol);
}

#[test]
fn illegal_event_is_refused_before_any_extension() {
    let mut agent = AttestationAgent::new(sha256_config());
    let err = agent.begin_extend("a b", "c", "d", None).unwrap_err();
    assert_eq!(err, AgentError::InvalidEvent);
    assert_eq!(err.kind(), ErrorKind::Configuration);
    assert_eq!(agent.phase(), Phase::Idle);
}

#[test]
fn steps_out_of_order_are_refused() {
    let mut agent = AttestationAgent::new(sha256_config());
    assert_eq!(agent.register_extended(Ok(())).unwrap_err(), AgentError::NoPendingExtension);
    assert_eq!(agent.log_written(Ok(())).unwrap_err(), AgentError::NoPendingExtension);
    agent.begin_extend("a", "b", "c", None).unwrap();
    assert_eq!(agent.log_written(Ok(())).unwrap_err(), AgentError::NoPendingExtension);
    assert_eq!(agent.phase(), Phase::AwaitingRegister);
}

#[test]
fn unknown_token_type_is_a_configuration_error() {
    let mut agent = AttestationAgent::new(sha256_config());
    let r = agent.begin_init();
    complete(&mut agent, r);
    let err = agent.token_request("unknown-type").unwrap_err();
    assert_eq!(err, AgentError::UnsupportedTokenType("unknown-type".to_string()));
    assert_eq!(err.kind(), ErrorKind::Configuration);
    assert_eq!(agent.event_log().len(), 1);
    assert_eq!(agent.phase(), Phase::Idle);
}

#[test]
fn token_types_resolve_to_their_configs() {
    let mut c = Config::new();
    c.token_configs.kbs = Some(KbsConfig { url: "http://kbs".to_string(), cert: None });
    let agent = AttestationAgent::new(c);
    match agent.token_request("kbs").unwrap() {
        TokenRequest::Kbs(k) => assert_eq!(k.url, "http://kbs"),
        other => panic!("unexpected {:?}", other),
    }
    let err = agent.token_request("coco_as").unwrap_err();
    assert_eq!(err, AgentError::TokenNotConfigured("coco_as".to_string()));
    assert_eq!(err.kind(), ErrorKind::Configuration);
    assert_eq!(TokenType::from_name("coco_as"), Some(TokenType::CoCoAS));
    assert_eq!(TokenType::from_name("KBS"), None);

    let mut c2 = Config::new();
    c2.token_configs.coco_as = Some(CoCoASConfig { url: "http://as".to_string() });
    match resolve_token_request(&c2.token_configs, "coco_as").unwrap() {
        TokenRequest::CoCoAS(a) => assert_eq!(a.url, "http://as"),
        other => panic!("unexpected {:?}", other),
    }
}

#[test]
fn update_configuration_swaps_whole_config() {
    let mut agent = AttestationAgent::new(sha256_config());
    let r = agent.begin_init();
    complete(&mut agent, r);
    let mut c = Config::new();
    c.eventlog_config.init_pcr = 3;
    agent.update_configuration(c);
    assert_eq!(agent.config().eventlog_config.eventlog_algorithm, HashAlgorithm::Sha384);
    assert_eq!(agent.config().eventlog_config.init_pcr, 3);
    assert_eq!(agent.event_log().len(), 1);
    let req = agent.begin_extend("a", "b", "c", None).unwrap();
    assert_eq!(req.digest.len(), 48);
}

#[test]
fn abandoned_extension_diverges() {
    let mut agent = AttestationAgent::new(sha256_config());
    assert!(!agent.abandon_pending());
    assert_eq!(agent.phase(), Phase::Idle);
    agent.begin_extend("a", "b", "c", None).unwrap();
    assert!(agent.abandon_pending());
    assert_eq!(agent.phase(), Phase::Diverged);
    assert_eq!(agent.event_log().len(), 0);
    assert_eq!(agent.begin_extend("a", "b", "c", None).unwrap_err(), AgentError::Diverged);
}
