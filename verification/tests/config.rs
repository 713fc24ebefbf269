use actix_web_lets_encrypt::config::{EngineConfig, JobConfig};
use actix_web_lets_encrypt::{BindAddr, CertBuilder, LetsEncrypt, LifecycleError, TimeSpan};

fn addr(port: u16) -> BindAddr {
    BindAddr::V4 { octets: [0, 0, 0, 0], port }
}

fn bare(port: u16, domains: &[&str]) -> JobConfig {
    JobConfig {
        addrs: vec![addr(port)],
        domains: domains.iter().map(|d| d.to_string()).collect(),
        email: None,
        production: None,
        renew_within: None,
        check_every: None,
        key_path: None,
        cert_path: None,
    }
}

#[test]
fn job_config_without_options_gets_the_defaults() {
    let job = CertBuilder::from_config(&bare(8089, &["example.com"])).unwrap();
    assert_eq!(job.addrs(), &vec![addr(8089)]);
    assert_eq!(job.domains(), &vec!["example.com".to_string()]);
    assert_eq!(job.contact_email(), &None);
    assert!(job.is_production());
    assert_eq!(job.renewal_window(), TimeSpan::from_secs(30 * 86_400));
    assert_eq!(job.recheck_interval(), TimeSpan::from_secs(12 * 3_600));
    assert_eq!(job.key_path(), &None);
    assert_eq!(job.cert_path(), &None);
}

#[test]
fn job_config_options_are_taken_over() {
    let mut config = bare(8091, &["test.example.com", "alt.example.com"]);
    config.addrs.push(addr(9091));
    config.email = Some("ctm@example.com".to_string());
    config.production = Some(false);
    config.renew_within = Some(TimeSpan::from_secs(7 * 86_400));
    config.check_every = Some(TimeSpan::new(3_600, 1));
    config.key_path = Some("k.pem".to_string());
    config.cert_path = Some("/abs/c.pem".to_string());
    let job = CertBuilder::from_config(&config).unwrap();
    assert_eq!(job.addrs(), &vec![addr(8091), addr(9091)]);
    assert_eq!(
        job.domains(),
        &vec!["test.example.com".to_string(), "alt.example.com".to_string()]
    );
    assert_eq!(job.contact_email(), &Some("ctm@example.com".to_string()));
    assert!(!job.is_production());
    assert_eq!(job.renewal_window(), TimeSpan::from_secs(7 * 86_400));
    assert_eq!(job.recheck_interval(), TimeSpan::new(3_600, 1));
    assert_eq!(job.key_path(), &Some("k.pem".to_string()));
    assert_eq!(job.cert_path(), &Some("/abs/c.pem".to_string()));
}

#[test]
fn explicit_production_flag_is_production() {
    let mut config = bare(1, &["a.example"]);
    config.production = Some(true);
    assert!(CertBuilder::from_config(&config).unwrap().is_production());
}

#[test]
fn job_config_without_domains_or_addresses_is_refused() {
    let no_domains = bare(1, &[]);
    assert_eq!(
        CertBuilder::from_config(&no_domains).err(),
        Some(LifecycleError::Configuration)
    );
    let mut no_addrs = bare(1, &["a.example"]);
    no_addrs.addrs.clear();
    assert_eq!(CertBuilder::from_config(&no_addrs).err(), Some(LifecycleError::Configuration));
}

#[test]
fn empty_engine_config_gives_the_default_engine() {
    let config =
        EngineConfig { nonce_directory: None, ssl_directory: None, cert_builders: Vec::new() };
    let engine = LetsEncrypt::from_config(&config).unwrap();
    assert_eq!(engine.nonce_dir(), "/var/tmp/lets_encrypt");
    assert_eq!(engine.ssl_dir(), "/ssl");
    assert!(engine.cert_builders().is_empty());
}

#[test]
fn engine_config_resolves_every_job_once() {
    let mut third = bare(8091, &["test.example.com"]);
    third.production = Some(false);
    third.key_path = Some("/keys/test.pem".to_string());
    third.cert_path = Some("certs/test.pem".to_string());
    let config = EngineConfig {
        nonce_directory: Some("/var/nonce".to_string()),
        ssl_directory: Some("ssl".to_string()),
        cert_builders: vec![
            bare(8089, &["example.com"]),
            bare(8090, &["example.org", "example.net"]),
            third,
        ],
    };
    let engine = LetsEncrypt::from_config(&config).unwrap();
    assert_eq!(engine.nonce_dir(), "/var/nonce");
    assert_eq!(engine.ssl_dir(), "ssl");
    let jobs = engine.cert_builders();
    assert_eq!(jobs.len(), 3);
    assert_eq!(jobs[0].key_path(), &Some("ssl/example.com_key.pem".to_string()));
    assert_eq!(jobs[0].cert_path(), &Some("ssl/example.com_cert.pem".to_string()));
    assert_eq!(jobs[1].key_path(), &Some("ssl/example.org_key.pem".to_string()));
    assert_eq!(jobs[1].cert_path(), &Some("ssl/example.org_cert.pem".to_string()));
    assert_eq!(jobs[2].key_path(), &Some("/keys/test.pem".to_string()));
    assert_eq!(jobs[2].cert_path(), &Some("ssl/certs/test.pem".to_string()));
    assert!(!jobs[2].is_production());
    assert!(jobs[0].is_production());
}

#[test]
fn engine_config_is_the_same_as_adding_each_job() {
    let config = EngineConfig {
        nonce_directory: None,
        ssl_directory: Some("/etc/tls".to_string()),
        cert_builders: vec![bare(1, &["a.example"]), bare(2, &["b.example"])],
    };
    let engine = LetsEncrypt::from_config(&config).unwrap();
    let by_hand = LetsEncrypt::encryption_enabler()
        .ssl_directory("/etc/tls")
        .add_cert(CertBuilder::new(vec![addr(1)], vec!["a.example".to_string()]).unwrap())
        .add_cert(CertBuilder::new(vec![addr(2)], vec!["b.example".to_string()]).unwrap());
    assert_eq!(engine.cert_builders().len(), by_hand.cert_builders().len());
    for i in 0..2 {
        assert_eq!(engine.cert_builders()[i].key_path(), by_hand.cert_builders()[i].key_path());
        assert_eq!(engine.cert_builders()[i].cert_path(), by_hand.cert_builders()[i].cert_path());
        assert_eq!(engine.cert_builders()[i].addrs(), by_hand.cert_builders()[i].addrs());
    }
}

#[test]
fn one_malformed_job_refuses_the_whole_configuration() {
    let config = EngineConfig {
        nonce_directory: None,
        ssl_directory: None,
        cert_builders: vec![bare(1, &["a.example"]), bare(2, &[])],
    };
    assert_eq!(LetsEncrypt::from_config(&config).err(), Some(LifecycleError::Configuration));
}
