use outpost::dashboard::{calculate_uptime, format_uptime, CloudFrontInfo, ProxyInfo};
use outpost::errors::OutpostError;
use outpost::keys::WireGuardKeys;
use outpost::lifecycle::{Action, Coordinator, Event, Phase};
use outpost::stack::{
    create_wait_step, delete_wait_step, extract_stack_outputs, find_output, is_stack_gone_error,
    newest_image, normalize_zone_id, stack_name_for, update_progress, validate_zone_match,
    StackEvent, StackPoll, StackStatus, WaitStep,
};
use outpost::stats::{format_bytes, parse_traffic_stats, TunnelStats};
use outpost::template::CloudFormationTemplate;
use outpost::tunnel::{build_rules, build_tunnel_config, check_bandwidth_modules};

fn template(instance_type: &str, debug: bool, use_cloudfront: bool) -> CloudFormationTemplate {
    CloudFormationTemplate {
        stack_name: "test".to_string(),
        region: "us-east-2".to_string(),
        ingress_host: "test.example.com".to_string(),
        ingress_port: 80,
        ingress_protocol: "tcp".to_string(),
        port_mappings: vec![(80, "tcp".to_string())],
        origin_host: "localhost".to_string(),
        origin_port: 8080,
        origin_ip: "1.2.3.4".to_string(),
        instance_type: instance_type.to_string(),
        proxy_wg_private_key: "test_key".to_string(),
        proxy_wg_public_key: "test_pub".to_string(),
        origin_wg_public_key: "origin_pub".to_string(),
        preshared_key: "preshared".to_string(),
        debug,
        use_cloudfront,
        wg_proxy_ip: "172.17.0.1".to_string(),
        wg_origin_ip: "172.17.0.2".to_string(),
    }
}

#[test]
fn test_architecture_detection_x86() {
    let template = CloudFormationTemplate {
        stack_name: "test".to_string(),
        region: "us-east-2".to_string(),
        ingress_host: "test.example.com".to_string(),
        ingress_port: 80,
        ingress_protocol: "tcp".to_string(),
        port_mappings: vec![(80, "tcp".to_string())],
        origin_host: "localhost".to_string(),
        origin_port: 8080,
        origin_ip: "1.2.3.4".to_string(),
        instance_type: "t3.micro".to_string(),
        proxy_wg_private_key: "test_key".to_string(),
        proxy_wg_public_key: "test_pub".to_string(),
        origin_wg_public_key: "origin_pub".to_string(),
        preshared_key: "preshared".to_string(),
        debug: false,
        use_cloudfront: false,
        wg_proxy_ip: "172.17.0.1".to_string(),
        wg_origin_ip: "172.17.0.2".to_string(),
    };

    assert_eq!(template.get_architecture(), "x86_64");
}

#[test]
fn test_architecture_detection_arm() {
    let template = CloudFormationTemplate {
        stack_name: "test".to_string(),
        region: "us-east-2".to_string(),
        ingress_host: "test.example.com".to_string(),
        ingress_port: 80,
        ingress_protocol: "tcp".to_string(),
        port_mappings: vec![(80, "tcp".to_string())],
        origin_host: "localhost".to_string(),
        origin_port: 8080,
        origin_ip: "1.2.3.4".to_string(),
        instance_type: "t4g.nano".to_string(),
        proxy_wg_private_key: "test_key".to_string(),
        proxy_wg_public_key: "test_pub".to_string(),
        origin_wg_public_key: "origin_pub".to_string(),
        preshared_key: "preshared".to_string(),
        debug: false,
        use_cloudfront: false,
        wg_proxy_ip: "172.17.0.1".to_string(),
        wg_origin_ip: "172.17.0.2".to_string(),
    };

    assert_eq!(template.get_architecture(), "arm64");
}

#[test]
fn test_tcp_protocol_in_userdata() {
    let template = template("t4g.nano", false, false);
    let userdata = template.generate_userdata();
    let userdata_str = serde_json::to_string(&userdata).unwrap();
    assert!(userdata_str.contains("{ config, pkgs, lib, ... }:"));
    assert!(userdata_str.contains("debug = false"));
    assert!(userdata_str.contains("port = 80"));
    assert!(userdata_str.contains("protocol = \\\"tcp\\\""));
}

#[test]
fn test_udp_protocol_in_userdata() {
    let mut t = template("t4g.nano", false, false);
    t.ingress_port = 53;
    t.ingress_protocol = "udp".to_string();
    t.port_mappings = vec![(53, "udp".to_string())];
    t.origin_port = 53;
    let userdata = t.generate_userdata();
    let userdata_str = serde_json::to_string(&userdata).unwrap();
    assert!(userdata_str.contains("{ config, pkgs, lib, ... }:"));
    assert!(userdata_str.contains("debug = false"));
    assert!(userdata_str.contains("port = 53"));
    assert!(userdata_str.contains("protocol = \\\"udp\\\""));
}

#[test]
fn test_debug_mode_enabled() {
    let t = template("t4g.nano", true, false);
    let userdata = t.generate_userdata();
    let userdata_str = serde_json::to_string(&userdata).unwrap();
    assert!(userdata_str.contains("debug = true"));
    assert!(userdata_str.contains("services.openssh"));
    assert!(userdata_str.contains("lib.mkIf debug"));
}

#[test]
fn test_template_is_valid_json() {
    let t = template("t4g.nano", false, false);
    let body = t.generate().unwrap();
    let v: serde_json::Value = serde_json::from_str(&body).unwrap();
    assert_eq!(v["AWSTemplateFormatVersion"], "2010-09-09");
    assert!(v["Resources"]["VPC"].is_object());
    assert_eq!(v["Resources"]["PublicSubnet"]["Properties"]["CidrBlock"], "10.0.1.0/24");
    assert_eq!(v["Resources"]["WaitCondition"]["Properties"]["Timeout"], "600");
    assert_eq!(v["Outputs"]["DNSName"]["Value"], "test.example.com");
}

#[test]
fn test_security_group_has_tunnel_and_port_rules() {
    let mut t = template("t4g.nano", false, false);
    t.port_mappings = vec![(80, "tcp".to_string()), (443, "tcp".to_string())];
    let body = t.generate().unwrap();
    let v: serde_json::Value = serde_json::from_str(&body).unwrap();
    let rules = v["Resources"]["SecurityGroup"]["Properties"]["SecurityGroupIngress"]
        .as_array()
        .unwrap();
    assert_eq!(rules.len(), 3);
    assert_eq!(rules[0]["IpProtocol"], "udp");
    assert_eq!(rules[0]["FromPort"], 51820);
    assert_eq!(rules[0]["CidrIp"], "1.2.3.4/32");
    assert_eq!(rules[1]["IpProtocol"], "tcp");
    assert_eq!(rules[1]["FromPort"], 80);
    assert_eq!(rules[1]["CidrIp"], "0.0.0.0/0");
    assert_eq!(rules[2]["FromPort"], 443);
}

#[test]
fn test_json_escaping() {
    assert_eq!(outpost::jsontext::escape_json("plain"), "plain");
    assert_eq!(outpost::jsontext::escape_json("a\"b\\c\nd"), "a\\\"b\\\\c\\nd");
    assert_eq!(outpost::jsontext::escape_json("\r\t"), "\\r\\t");
    // The remaining control characters get their \u00XX form.
    assert_eq!(outpost::jsontext::escape_json("a\u{8}b"), "a\\u0008b");
    assert_eq!(outpost::jsontext::escape_json("\u{0}\u{1f}"), "\\u0000\\u001f");
    assert_eq!(outpost::jsontext::quote_json("x\u{b}"), "\"x\\u000b\"");
}

#[test]
fn test_template_with_control_chars_is_valid_json() {
    let mut t = template("t4g.nano", false, false);
    t.stack_name = "odd\u{8}name\"with\\quotes".to_string();
    let body = t.generate().unwrap();
    let v: serde_json::Value = serde_json::from_str(&body).unwrap();
    assert_eq!(
        v["Resources"]["VPC"]["Properties"]["Tags"][0]["Value"],
        "outpost-odd\u{8}name\"with\\quotes"
    );
}

#[test]
fn test_debug_adds_shell_rule() {
    let t = template("t4g.nano", true, false);
    let body = t.generate().unwrap();
    let v: serde_json::Value = serde_json::from_str(&body).unwrap();
    let rules = v["Resources"]["SecurityGroup"]["Properties"]["SecurityGroupIngress"]
        .as_array()
        .unwrap();
    let last = rules.last().unwrap();
    assert_eq!(last["FromPort"], 22);
    assert_eq!(last["CidrIp"], "1.2.3.4/32");
}

#[test]
fn test_cloudfront_conditions() {
    let with = template("t4g.nano", false, true);
    let body = with.generate().unwrap();
    let v: serde_json::Value = serde_json::from_str(&body).unwrap();
    assert_eq!(v["Conditions"]["UseCloudFront"]["Fn::Equals"][0], true);
    assert!(v["Resources"]["CloudFrontDistribution"].is_object());
    assert_eq!(v["Resources"]["CloudFrontDNSRecord"]["Condition"], "UseCloudFront");
    assert_eq!(v["Resources"]["DirectDNSRecord"]["Condition"], "NotUseCloudFront");
    assert!(v["Resources"]["CloudFrontDNSRecord"]["Properties"]["AliasTarget"].is_object());

    let without = template("t4g.nano", false, false);
    let body = without.generate().unwrap();
    let v: serde_json::Value = serde_json::from_str(&body).unwrap();
    assert_eq!(v["Conditions"]["UseCloudFront"]["Fn::Equals"][0], false);
}

#[test]
fn test_tunnel_config_dnat_both_ports() {
    let keys = WireGuardKeys::assemble("origin_priv", "origin_pub", "psk").unwrap();
    let mappings = vec![(80, "tcp".to_string()), (443, "tcp".to_string())];
    let config = build_tunnel_config(
        &keys,
        "proxy_pub",
        "203.0.113.42:51820",
        "172.17.0.1",
        "172.17.0.2",
        "www",
        &mappings,
        None,
        None,
    )
    .unwrap();
    assert!(config.contains("[Interface]"));
    assert!(config.contains("Address = 172.17.0.2/24"));
    assert!(config.contains(
        "PostUp = iptables -t nat -A PREROUTING -i wg0 -s 172.17.0.1 -p tcp --dport 80 -j DNAT --to-destination www:80"
    ));
    assert!(config.contains(
        "PostUp = iptables -t nat -A PREROUTING -i wg0 -s 172.17.0.1 -p tcp --dport 443 -j DNAT --to-destination www:443"
    ));
    assert!(config.contains("Endpoint = 203.0.113.42:51820"));
    assert!(config.contains("AllowedIPs = 172.17.0.1/32"));
    assert!(config.contains("PersistentKeepalive = 25"));
    // No shaping was requested.
    assert!(!config.contains("tc qdisc"));
}

#[test]
fn test_teardown_lines_tolerate_absent_rules() {
    let mappings = vec![(80, "tcp".to_string())];
    let (post, pre) = build_rules("172.17.0.1", "www", &mappings, Some(5), Some(10)).unwrap();
    for line in &pre {
        assert!(line.ends_with(" || true"), "teardown line not tolerant: {}", line);
    }
    // Setup and teardown mirror each other: every append has its delete.
    assert!(post.contains(&"iptables -A FORWARD -j OUTPOST_ACCOUNTING".to_string()));
    assert!(pre.contains(&"iptables -D FORWARD -j OUTPOST_ACCOUNTING || true".to_string()));
    assert!(post.iter().any(|l| l.contains("rate 5000kbit")));
    assert!(post.iter().any(|l| l.contains("rate 10000kbit")));
    assert!(pre.contains(&"tc qdisc del dev wg0 root || true".to_string()));
    assert!(pre.contains(&"tc qdisc del dev ifb0 root || true".to_string()));
}

#[test]
fn test_rules_reject_unknown_protocol() {
    let mappings = vec![(80, "icmp".to_string())];
    assert!(matches!(
        build_rules("172.17.0.1", "www", &mappings, None, None),
        Err(OutpostError::BadInput(_))
    ));
    let empty: Vec<(u16, String)> = vec![];
    assert!(build_rules("172.17.0.1", "www", &empty, None, None).is_err());
}

#[test]
fn test_bandwidth_module_preflight() {
    let listing = "sch_htb 12345 0 - Live\nifb 16384 0 - Live\nact_mirred 16384 1 - Live\n";
    assert!(check_bandwidth_modules(listing, Some(5), Some(5)).is_ok());
    let no_ifb = "sch_htb 12345 0 - Live\n";
    assert!(check_bandwidth_modules(no_ifb, Some(5), None).is_ok());
    assert!(matches!(
        check_bandwidth_modules(no_ifb, Some(5), Some(5)),
        Err(OutpostError::ModulesMissing(_))
    ));
    assert!(matches!(
        check_bandwidth_modules("", Some(5), None),
        Err(OutpostError::ModulesMissing(_))
    ));
    assert!(check_bandwidth_modules("", None, None).is_ok());
}

#[test]
fn test_stats_parse_canonical_listing() {
    let listing = "Chain OUTPOST_ACCOUNTING (1 references)\n\
                   pkts bytes target prot opt in out source destination\n\
                   10 1500 RETURN tcp -- * * 0.0.0.0/0 10.0.0.5 tcp dpt:80\n\
                   7 900 RETURN tcp -- * * 10.0.0.5 0.0.0.0/0 tcp spt:80\n\
                   3 250 RETURN tcp -- * * 0.0.0.0/0 10.0.0.5 tcp dpt:443\n";
    let (sent, received) = parse_traffic_stats(listing);
    assert_eq!(sent, 1750);
    assert_eq!(received, 900);
}

#[test]
fn test_stats_parse_skips_malformed_rows() {
    let listing = "header\nheader\nshort row\n10 notanumber RETURN tcp -- * * 0.0.0.0/0 10.0.0.5\n\
                   5 100 RETURN tcp -- * * 0.0.0.0/0 10.0.0.5\n";
    let (sent, received) = parse_traffic_stats(listing);
    assert_eq!(sent, 100);
    assert_eq!(received, 0);
}

#[test]
fn test_stats_monotone_between_samples() {
    let first = "h\nh\n10 100 RETURN tcp -- * * 0.0.0.0/0 10.0.0.5\n\
                 10 200 RETURN tcp -- * * 10.0.0.5 0.0.0.0/0\n";
    let second = "h\nh\n12 180 RETURN tcp -- * * 0.0.0.0/0 10.0.0.5\n\
                  11 200 RETURN tcp -- * * 10.0.0.5 0.0.0.0/0\n";
    let (s1, r1) = parse_traffic_stats(first);
    let (s2, r2) = parse_traffic_stats(second);
    assert!(s2 >= s1);
    assert!(r2 >= r1);
}

#[test]
fn test_format_bytes_values() {
    assert_eq!(format_bytes(0), "0 B");
    assert_eq!(format_bytes(512), "512 B");
    assert_eq!(format_bytes(1024), "1.00 KB");
    assert_eq!(format_bytes(1536), "1.50 KB");
    assert_eq!(format_bytes(1048576), "1.00 MB");
    assert_eq!(format_bytes(1234567890), "1.15 GB");
}

#[test]
fn test_tunnel_stats_example() {
    let stats = TunnelStats::example();
    assert_eq!(stats.bytes_sent, 1_234_567_890);
    assert_eq!(stats.bytes_received, 9_876_543_210);
    assert_eq!(stats.bytes_sent_formatted, "1.15 GB");
    assert_eq!(stats.bytes_received_formatted, "9.20 GB");
    assert!(stats.tunnel_up);
    assert_eq!(stats.uptime_seconds, 3665);
}

#[test]
fn test_format_sizes_refreshes() {
    let mut stats = TunnelStats::default();
    stats.bytes_sent = 2048;
    stats.bytes_received = 10;
    stats.format_sizes();
    assert_eq!(stats.bytes_sent_formatted, "2.00 KB");
    assert_eq!(stats.bytes_received_formatted, "10 B");
}

#[test]
fn test_uptime_formatting() {
    assert_eq!(format_uptime(0), "0m");
    assert_eq!(format_uptime(3665), "1h 1m");
    assert_eq!(format_uptime(90061), "1d 1h 1m");
    assert_eq!(calculate_uptime("not a timestamp"), "Unknown");
    assert_ne!(calculate_uptime("2020-01-01T00:00:00Z"), "Unknown");
}

#[test]
fn test_proxy_info_examples() {
    match ProxyInfo::example_aws() {
        ProxyInfo::Aws { instance_id, region, .. } => {
            assert_eq!(instance_id, "i-0123456789abcdef0");
            assert_eq!(region, "us-east-2");
        },
        _ => panic!("expected the cloud-stack variant"),
    }
    match ProxyInfo::example_cloudflare() {
        ProxyInfo::Cloudflare { hostname, connections, .. } => {
            assert_eq!(hostname, "www.example.com");
            assert_eq!(connections, 4);
        },
        _ => panic!("expected the daemon variant"),
    }
    let cf = CloudFrontInfo::example();
    assert_eq!(cf.distribution_id, "E1234ABCDEFGHI");
    assert_eq!(cf.status, "Deployed");
}

#[test]
fn test_stack_name_and_zone_rules() {
    assert_eq!(stack_name_for("www.example.com"), "outpost-www-example-com");
    assert_eq!(normalize_zone_id("/hostedzone/Z123"), "Z123");
    assert_eq!(normalize_zone_id("Z123"), "Z123");
    assert!(validate_zone_match("www.example.com", "example.com.").is_ok());
    assert!(validate_zone_match("example.com", "example.com").is_ok());
    assert!(matches!(
        validate_zone_match("www.other.com", "example.com"),
        Err(OutpostError::BadInput(_))
    ));
    // A bare suffix is not a subdomain.
    assert!(validate_zone_match("badexample.com", "example.com").is_err());
}

#[test]
fn test_newest_image_by_creation_date() {
    let images = vec![
        ("ami-old".to_string(), "2023-01-01T00:00:00.000Z".to_string()),
        ("ami-new".to_string(), "2024-06-01T00:00:00.000Z".to_string()),
        ("ami-mid".to_string(), "2023-09-01T00:00:00.000Z".to_string()),
    ];
    assert_eq!(newest_image(&images), Some("ami-new".to_string()));
    let empty: Vec<(String, String)> = vec![];
    assert_eq!(newest_image(&empty), None);
}

#[test]
fn test_wait_step_classification() {
    let ready = StackPoll::Status { status: StackStatus::CreateComplete, reason: String::new() };
    assert!(matches!(create_wait_step(&ready), WaitStep::Succeed));
    let in_progress =
        StackPoll::Status { status: StackStatus::CreateInProgress, reason: String::new() };
    assert!(matches!(create_wait_step(&in_progress), WaitStep::Continue));
    let failed = StackPoll::Status {
        status: StackStatus::RollbackComplete,
        reason: "boot failed".to_string(),
    };
    assert!(matches!(
        create_wait_step(&failed),
        WaitStep::Fail(OutpostError::CloudRejected(_))
    ));
    let odd = StackPoll::Status { status: StackStatus::Other, reason: String::new() };
    assert!(matches!(
        create_wait_step(&odd),
        WaitStep::Fail(OutpostError::UnexpectedStackState(_))
    ));
    let gone = StackPoll::CallError {
        message: "ValidationError: stack outpost-x does not exist".to_string(),
    };
    assert!(matches!(
        create_wait_step(&gone),
        WaitStep::Fail(OutpostError::StackDisappeared)
    ));
    let transient = StackPoll::CallError { message: "connection reset".to_string() };
    assert!(matches!(create_wait_step(&transient), WaitStep::Continue));
    assert!(is_stack_gone_error("ValidationError: does not exist"));
    assert!(!is_stack_gone_error("throttled"));
}

#[test]
fn test_delete_wait_classification() {
    let done = StackPoll::Status { status: StackStatus::DeleteComplete, reason: String::new() };
    assert!(matches!(delete_wait_step(&done), WaitStep::Succeed));
    let going = StackPoll::Status { status: StackStatus::DeleteInProgress, reason: String::new() };
    assert!(matches!(delete_wait_step(&going), WaitStep::Continue));
    let failed =
        StackPoll::Status { status: StackStatus::DeleteFailed, reason: "stuck".to_string() };
    assert!(matches!(
        delete_wait_step(&failed),
        WaitStep::Fail(OutpostError::CloudRejected(_))
    ));
    // A vanished stack counts as success during cleanup.
    let gone = StackPoll::CallError {
        message: "ValidationError: stack does not exist".to_string(),
    };
    assert!(matches!(delete_wait_step(&gone), WaitStep::Succeed));
}

#[test]
fn test_stack_outputs_extraction() {
    let outs = vec![
        ("ProxyPublicIP".to_string(), "203.0.113.42".to_string()),
        ("ProxyInstanceId".to_string(), "i-abc".to_string()),
    ];
    assert_eq!(find_output(&outs, "ProxyPublicIP"), Some("203.0.113.42".to_string()));
    assert_eq!(find_output(&outs, "Missing"), None);
    let (ip, id) = extract_stack_outputs(&outs).unwrap();
    assert_eq!(ip, "203.0.113.42");
    assert_eq!(id, "i-abc");
    let missing = vec![("ProxyPublicIP".to_string(), "203.0.113.42".to_string())];
    assert!(matches!(
        extract_stack_outputs(&missing),
        Err(OutpostError::CloudRejected(_))
    ));
}

#[test]
fn test_progress_view_counts_distinct_completed() {
    let evs = vec![
        StackEvent {
            logical_resource_id: "VPC".to_string(),
            resource_status: "CREATE_IN_PROGRESS".to_string(),
        },
        StackEvent {
            logical_resource_id: "VPC".to_string(),
            resource_status: "CREATE_COMPLETE".to_string(),
        },
        StackEvent {
            logical_resource_id: "VPC".to_string(),
            resource_status: "CREATE_COMPLETE".to_string(),
        },
        StackEvent {
            logical_resource_id: "outpost-test".to_string(),
            resource_status: "CREATE_IN_PROGRESS".to_string(),
        },
        StackEvent {
            logical_resource_id: "ProxyInstance".to_string(),
            resource_status: "DELETE_COMPLETE".to_string(),
        },
        StackEvent {
            logical_resource_id: "ProxyInstance".to_string(),
            resource_status: "CREATE_IN_PROGRESS".to_string(),
        },
    ];
    let progress = update_progress(&evs, "outpost-test");
    assert_eq!(progress.seen.len(), 2);
    assert_eq!(progress.completed, vec!["VPC".to_string()]);
}

#[test]
fn test_cancellation_during_wait() {
    // Drive the coordinator to the stack wait, then fire the shutdown.
    let c = Coordinator::new();
    assert_eq!(c.phase, Phase::Preflight);
    let (c, a) = c.step(Event::StepDone);
    assert_eq!(a, Action::ParseConfig);
    let (c, a) = c.step(Event::StepDone);
    assert_eq!(a, Action::PrepareKeys);
    let (c, a) = c.step(Event::StepDone);
    assert_eq!(a, Action::LookupOriginIp);
    let (c, a) = c.step(Event::StepDone);
    assert_eq!(a, Action::SubmitStack);
    // CreateStack returned: the machine records the submission.
    let (c, a) = c.step(Event::StepDone);
    assert_eq!(a, Action::PollStack);
    assert!(c.stack_submitted);
    // Shutdown during the wait: exactly one DeleteStack, then a clean exit.
    let (c, a) = c.step(Event::Shutdown);
    assert_eq!(a, Action::DeleteStack);
    assert!(c.delete_issued);
    assert_eq!(c.phase, Phase::CleaningUpStack);
    let (c, a) = c.step(Event::StepDone);
    assert_eq!(a, Action::Exit);
    assert_eq!(c.phase, Phase::Finished);
    assert!(c.exit_success);
}

#[test]
fn test_cancellation_before_deploy_is_clean() {
    let c = Coordinator::new();
    let (c, a) = c.step(Event::Shutdown);
    assert_eq!(a, Action::Exit);
    assert_eq!(c.phase, Phase::Finished);
    assert!(c.exit_success);
    assert!(!c.delete_issued);
}

#[test]
fn test_tunnel_failure_still_cleans_up() {
    let c = Coordinator::new();
    let (c, _) = c.step(Event::StepDone);
    let (c, _) = c.step(Event::StepDone);
    let (c, _) = c.step(Event::StepDone);
    let (c, _) = c.step(Event::StepDone);
    let (c, _) = c.step(Event::StepDone);
    let (c, a) = c.step(Event::StepDone);
    assert_eq!(a, Action::BringUpTunnel);
    let (c, a) = c.step(Event::StepFailed);
    assert_eq!(a, Action::DeleteStack);
    assert!(c.delete_issued);
    let (c, _) = c.step(Event::StepFailed);
    assert_eq!(c.phase, Phase::Finished);
    assert!(!c.exit_success);
}

#[test]
fn test_full_run_tears_down_tunnel_then_stack() {
    let c = Coordinator::new();
    let mut c = c;
    for _ in 0..7 {
        let (n, _) = c.step(Event::StepDone);
        c = n;
    }
    assert_eq!(c.phase, Phase::Serving);
    assert!(c.tunnel_up);
    let (c, a) = c.step(Event::Shutdown);
    assert_eq!(a, Action::TearDownTunnel);
    let (c, a) = c.step(Event::StepDone);
    assert_eq!(a, Action::DeleteStack);
    assert!(!c.tunnel_up);
    let (c, a) = c.step(Event::StepDone);
    assert_eq!(a, Action::Exit);
    assert!(c.exit_success);
}

#[test]
fn test_error_kind_names() {
    assert_eq!(OutpostError::StackDisappeared.kind_name(), "StackDisappeared");
    assert_eq!(OutpostError::Cancelled.kind_name(), "Cancelled");
    assert_eq!(
        OutpostError::BadInput("x".to_string()).kind_name(),
        "BadInput"
    );
}

#[test]
fn test_cloudflare_config_shape() {
    let cfg = outpost::cloudflare::build_cloudflare_config("www.example.com", "localhost", 8080);
    assert_eq!(cfg.ingress.len(), 2);
    assert_eq!(cfg.ingress[0].hostname, Some("www.example.com".to_string()));
    assert_eq!(cfg.ingress[0].service, "http://localhost:8080");
    assert_eq!(cfg.ingress[1].hostname, None);
    assert_eq!(cfg.ingress[1].service, "http_status:404");
    let names = vec![
        "cert.pem".to_string(),
        "abc123.json".to_string(),
        "config.yml".to_string(),
    ];
    let (stem, file) = outpost::cloudflare::pick_credentials(&names).unwrap();
    assert_eq!(stem, "abc123");
    assert_eq!(file, "abc123.json");
    assert_eq!(outpost::cloudflare::pick_credentials(&vec!["a.txt".to_string()]), None);
}
