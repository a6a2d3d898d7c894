use outpost::endpoint::{build_port_mappings, Endpoint, Protocol};
use outpost::errors::OutpostError;
use outpost::keys::{WireGuardKeys, WireGuardPair};
use outpost::service::{split_and_trim_commas, CommandLine, ServiceConfig};
use outpost::subnet::select_subnet;

fn aws_config(ingress: Vec<&str>, origin: &str, use_cloudfront: bool) -> ServiceConfig {
    ServiceConfig::Aws {
        ingress: ingress.into_iter().map(|s| s.to_string()).collect(),
        origin: origin.to_string(),
        regions: "us-east-2".to_string(),
        instance_type: "t4g.nano".to_string(),
        hosted_zone_id: "Z123".to_string(),
        access_key_id: "test-key-id".to_string(),
        secret_access_key: "test-secret".to_string(),
        debug: false,
        use_cloudfront,
    }
}

#[test]
fn test_protocol_from_str() {
    assert!(matches!(Protocol::from_str("tcp"), Ok(Protocol::Tcp)));
    assert!(matches!(Protocol::from_str("UDP"), Ok(Protocol::Udp)));
    assert!(matches!(Protocol::from_str("Tls"), Ok(Protocol::Tls)));
    assert!(matches!(
        Protocol::from_str("icmp"),
        Err(OutpostError::BadInput(_))
    ));
    assert_eq!(Protocol::Tcp.as_str(), "tcp");
    assert_eq!(Protocol::Udp.as_str(), "udp");
    assert_eq!(Protocol::Tls.as_str(), "tls");
}

#[test]
fn test_endpoint_parse_round_trip() {
    let e = Endpoint::parse("tcp://www.example.com:8080", true).unwrap();
    assert_eq!(e.protocol, Protocol::Tcp);
    assert_eq!(e.host, "www.example.com");
    assert_eq!(e.port, Some(8080));

    let e = Endpoint::parse("tls://a.example.com:443", true).unwrap();
    assert_eq!(e.protocol, Protocol::Tls);
    assert_eq!(e.host, "a.example.com");
    assert_eq!(e.port, Some(443));

    let e = Endpoint::parse("udp://dns.example.com:53", false).unwrap();
    assert_eq!(e.protocol, Protocol::Udp);
    assert_eq!(e.port, Some(53));
}

#[test]
fn test_endpoint_parse_rejections() {
    assert!(Endpoint::parse("http://www.example.com:80", true).is_err());
    assert!(Endpoint::parse("tcp://:80", true).is_err());
    assert!(Endpoint::parse("tcp://", true).is_err());
    assert!(Endpoint::parse("no-scheme", true).is_err());
    assert!(Endpoint::parse("tcp://host:99999", true).is_err());
    assert!(Endpoint::parse("tcp://host:80x", true).is_err());
    // A port is demanded only when the caller requires one.
    assert!(Endpoint::parse("tcp://host", true).is_err());
    let e = Endpoint::parse("tcp://host", false).unwrap();
    assert_eq!(e.port, None);
    let e = Endpoint::parse("tcp://host", false).unwrap();
    assert!(matches!(e.port(), Err(OutpostError::BadInput(_))));
}

#[test]
fn test_validate_protocols_homogeneous() {
    let ok = aws_config(
        vec!["tcp://www.example.com:80", "tcp://www.example.com:443"],
        "tcp://www",
        false,
    );
    assert!(ok.validate_protocols().is_ok());
    assert!(ok.validate_all().is_ok());

    let mixed = aws_config(
        vec!["tcp://www.example.com:80", "udp://www.example.com:53"],
        "tcp://www",
        false,
    );
    assert!(mixed.validate_protocols().is_err());

    let origin_differs = aws_config(
        vec!["tcp://www.example.com:80", "tcp://www.example.com:443"],
        "udp://www",
        false,
    );
    assert!(origin_differs.validate_protocols().is_err());
}

#[test]
fn test_two_tcp_ports_mapping() {
    let cfg = aws_config(
        vec!["tcp://www.example.com:80", "tcp://www.example.com:443"],
        "tcp://www",
        false,
    );
    assert!(cfg.validate_all().is_ok());
    let ingresses = cfg.ingresses().unwrap();
    let mappings = build_port_mappings(&ingresses).unwrap();
    assert_eq!(mappings, vec![(80, "tcp".to_string()), (443, "tcp".to_string())]);
    let origin = cfg.origin().unwrap();
    assert_eq!(origin.host, "www");
    assert_eq!(origin.port, None);
}

#[test]
fn test_multi_ingress_origin_must_not_have_port() {
    let cfg = aws_config(
        vec!["tcp://www.example.com:80", "tcp://www.example.com:443"],
        "tcp://www:8080",
        false,
    );
    assert!(matches!(cfg.origin(), Err(OutpostError::BadInput(_))));
}

#[test]
fn test_tls_single_endpoint_rule() {
    let single = aws_config(vec!["tls://a.example.com:443"], "tls://a:443", false);
    assert!(single.validate_tls_single_endpoint().is_ok());

    let multi = aws_config(
        vec!["tls://a.example.com:443", "tls://b.example.com:443"],
        "tls://a",
        false,
    );
    assert!(multi.validate_tls_single_endpoint().is_err());
}

#[test]
fn test_cloudfront_rules() {
    let good = aws_config(vec!["tls://a.example.com:443"], "tls://a:443", true);
    assert!(good.validate_cloudfront().is_ok());

    let multi = aws_config(
        vec!["tls://a.example.com:443", "tls://b.example.com:443"],
        "tls://a",
        true,
    );
    assert!(multi.validate_cloudfront().is_err());

    let wrong_port = aws_config(vec!["tls://a.example.com:8443"], "tls://a:8443", true);
    assert!(wrong_port.validate_cloudfront().is_err());
}

#[test]
fn test_empty_ingress_rejected() {
    let cfg = aws_config(vec![], "tcp://www:80", false);
    assert!(cfg.ingresses().is_err());
}

#[test]
fn test_aws_regions_split() {
    let cfg = aws_config(vec!["tcp://www.example.com:80"], "tcp://www:80", false);
    let regions = cfg.aws_regions().unwrap();
    assert_eq!(regions, vec!["us-east-2".to_string()]);

    assert_eq!(
        split_and_trim_commas("us-east-2, eu-west-1 ,ap-south-1"),
        vec![
            "us-east-2".to_string(),
            "eu-west-1".to_string(),
            "ap-south-1".to_string()
        ]
    );
}

#[test]
fn test_command_line_limits() {
    let ok = CommandLine { command: None, upload_limit: Some(1), download_limit: Some(10000) };
    assert!(ok.validate().is_ok());
    let low = CommandLine { command: None, upload_limit: Some(0), download_limit: None };
    assert!(low.validate().is_err());
    let high = CommandLine { command: None, upload_limit: None, download_limit: Some(10001) };
    assert!(high.validate().is_err());
    let none = CommandLine { command: None, upload_limit: None, download_limit: None };
    assert!(none.validate().is_ok());
}

#[test]
fn test_subnet_collision() {
    // An interface on 172.17.0.5 pushes the picker to the next candidate.
    let existing = vec![(172u8, 17u8)];
    let choice = select_subnet(&existing).unwrap();
    assert_eq!(choice.proxy_ip, "172.18.0.1");
    assert_eq!(choice.origin_ip, "172.18.0.2");
}

#[test]
fn test_subnet_no_collision_takes_first() {
    let existing = vec![(192u8, 168u8), (10u8, 0u8)];
    let choice = select_subnet(&existing).unwrap();
    assert_eq!(choice.proxy_ip, "172.17.0.1");
    assert_eq!(choice.origin_ip, "172.17.0.2");
}

#[test]
fn test_subnet_fallback_never_collides() {
    // Fill every two-octet candidate; the three-octet fallback still wins.
    let mut existing: Vec<(u8, u8)> = (17u8..=31).map(|b| (172u8, b)).collect();
    existing.push((10, 99));
    existing.push((10, 98));
    existing.push((10, 97));
    let choice = select_subnet(&existing).unwrap();
    assert_eq!(choice.proxy_ip, "192.168.99.1");
    assert_eq!(choice.origin_ip, "192.168.99.2");
}

#[test]
fn test_port_spec_parsing() {
    assert_eq!(outpost::endpoint::parse_port_spec("80").unwrap(), (80, 80));
    assert_eq!(outpost::endpoint::parse_port_spec("8080:80").unwrap(), (8080, 80));
    assert!(outpost::endpoint::parse_port_spec("").is_err());
    assert!(outpost::endpoint::parse_port_spec("80:").is_err());
    assert!(outpost::endpoint::parse_port_spec(":80").is_err());
    assert!(outpost::endpoint::parse_port_spec("99999").is_err());
    assert!(outpost::endpoint::parse_port_spec("80x").is_err());
}

#[test]
fn test_keys_assemble_trims() {
    let k = WireGuardKeys::assemble(" priv \n", "pub\n", "\tpsk\n").unwrap();
    assert_eq!(k.private_key, "priv");
    assert_eq!(k.public_key, "pub");
    assert_eq!(k.preshared_key, "psk");
}

#[test]
fn test_keys_assemble_rejects_empty() {
    assert!(matches!(
        WireGuardKeys::assemble("priv", "  \n", "psk"),
        Err(OutpostError::ToolchainFailed(_))
    ));
}

#[test]
fn test_key_pair_assemble() {
    let origin = WireGuardKeys::assemble("opriv", "opub", "opsk").unwrap();
    let proxy = WireGuardKeys::assemble("ppriv", "ppub", "ppsk").unwrap();
    let pair = WireGuardPair::assemble(origin, proxy);
    assert_eq!(pair.origin.private_key, "opriv");
    assert_eq!(pair.proxy.private_key, "ppriv");
    assert_ne!(pair.origin.private_key, pair.proxy.private_key);
}
