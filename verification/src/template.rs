//! The cloud-stack template renderer: a declarative stack description in JSON
//! plus the boot-time host configuration of the remote proxy, both specified
//! as exact text functions of the request.

use vstd::prelude::*;
use vstd::string::StrSliceExecFns;
use vstd::string::StringExecFns;

use crate::errors::OutpostError;
use crate::jsontext::{json_str, quote_json};
use crate::text::{
    dec_rep, lower, lower_string, rfind_in, rfind_char_in, starts_with, str_starts_with,
    u16_to_string,
};

verus! {

/// Everything the stack template needs, assembled once at deploy time.
pub struct CloudFormationTemplate {
    pub stack_name: String,
    pub region: String,
    pub ingress_host: String,
    /// Primary port (first ingress).
    pub ingress_port: u16,
    pub ingress_protocol: String,
    /// All `(port, protocol)` pairs to open end-to-end.
    pub port_mappings: Vec<(u16, String)>,
    pub origin_host: String,
    pub origin_port: u16,
    /// The origin's public IP, used to fence the tunnel handshake.
    pub origin_ip: String,
    pub instance_type: String,
    pub proxy_wg_private_key: String,
    pub proxy_wg_public_key: String,
    pub origin_wg_public_key: String,
    pub preshared_key: String,
    pub debug: bool,
    pub use_cloudfront: bool,
    pub wg_proxy_ip: String,
    pub wg_origin_ip: String,
}

// ---------------------------------------------------------------------------
// Architecture detection
// ---------------------------------------------------------------------------

/// Whether the instance type names one of the Graviton (arm) families.
pub open spec fn is_arm_instance(s: Seq<char>) -> bool {
    ||| starts_with(s, "t4g."@)
    ||| starts_with(s, "a1."@)
    ||| starts_with(s, "m6g."@)
    ||| starts_with(s, "m7g."@)
    ||| starts_with(s, "c6g."@)
    ||| starts_with(s, "c7g."@)
    ||| starts_with(s, "r6g."@)
    ||| starts_with(s, "r7g."@)
    ||| starts_with(s, "g5g."@)
}

/// The machine architecture implied by an instance type.
pub open spec fn architecture_of(s: Seq<char>) -> Seq<char> {
    if is_arm_instance(s) {
        "arm64"@
    } else {
        "x86_64"@
    }
}

// ---------------------------------------------------------------------------
// Text pieces
// ---------------------------------------------------------------------------

/// `true` or `false`, as JSON spells them.
pub open spec fn bool_text(b: bool) -> Seq<char> {
    if b {
        "true"@
    } else {
        "false"@
    }
}

fn bool_str(b: bool) -> (r: &'static str)
    ensures
        r@ == bool_text(b),
{
    if b {
        "true"
    } else {
        "false"
    }
}

/// One security-group ingress rule as a JSON object.
pub open spec fn sg_rule_text(proto: Seq<char>, port: u16, cidr: Seq<char>, desc: Seq<char>) -> Seq<
    char,
> {
    "{\"IpProtocol\": "@ + json_str(proto) + ", \"FromPort\": "@ + dec_rep(port as nat)
        + ", \"ToPort\": "@ + dec_rep(port as nat) + ", \"CidrIp\": "@ + json_str(cidr)
        + ", \"Description\": "@ + json_str(desc) + "}"@
}

fn sg_rule(proto: &str, port: u16, cidr: &str, desc: &str) -> (r: String)
    ensures
        r@ == sg_rule_text(proto@, port, cidr@, desc@),
{
    let mut out = "{\"IpProtocol\": ".to_owned();
    out.append(quote_json(proto).as_str());
    out.append(", \"FromPort\": ");
    out.append(u16_to_string(port).as_str());
    out.append(", \"ToPort\": ");
    out.append(u16_to_string(port).as_str());
    out.append(", \"CidrIp\": ");
    out.append(quote_json(cidr).as_str());
    out.append(", \"Description\": ");
    out.append(quote_json(desc).as_str());
    out.append("}");
    out
}

/// The description of one public ingress rule.
pub open spec fn sg_port_desc(port: u16, proto: Seq<char>) -> Seq<char> {
    "Ingress "@ + lower(proto) + " traffic on port "@ + dec_rep(port as nat)
}

/// The `,`-prefixed rules for the port mappings from index `i` on.
pub open spec fn sg_port_rules_from(ms: Seq<(u16, String)>, i: int) -> Seq<char>
    decreases ms.len() - i,
{
    if i < 0 || i >= ms.len() {
        Seq::empty()
    } else {
        ","@ + sg_rule_text(
            lower(ms[i].1@),
            ms[i].0,
            "0.0.0.0/0"@,
            sg_port_desc(ms[i].0, ms[i].1@),
        ) + sg_port_rules_from(ms, i + 1)
    }
}

/// The whole `SecurityGroupIngress` array: the tunnel handshake rule, one
/// public rule per port mapping, and — in debug mode — shell access from the
/// origin only.
pub open spec fn sg_rules_text(t: &CloudFormationTemplate) -> Seq<char> {
    "["@ + sg_rule_text("udp"@, 51820, t.origin_ip@ + "/32"@, "WireGuard from origin"@)
        + sg_port_rules_from(t.port_mappings@, 0) + (if t.debug {
        ","@ + sg_rule_text("tcp"@, 22, t.origin_ip@ + "/32"@, "Debug SSH access from origin"@)
    } else {
        Seq::empty()
    }) + "]"@
}

/// The first two octets of the tunnel network, extended with `.0`: the /24's
/// network address. Falls back to the default network when the IP has no dot.
pub open spec fn subnet_of(ip: Seq<char>) -> Seq<char> {
    let k = rfind_in(ip, '.', 0, ip.len() as int);
    if k < 0 {
        "172.17.0.0"@
    } else {
        ip.subrange(0, k) + ".0"@
    }
}

fn subnet_string(ip: &str) -> (r: String)
    ensures
        r@ == subnet_of(ip@),
{
    let n = ip.unicode_len();
    proof {
        crate::text::lemma_rfind_in_bounds(ip@, '.', 0, n as int);
    }
    match rfind_char_in(ip, '.', 0, n) {
        Some(k) => {
            let mut out = ip.substring_char(0, k).to_owned();
            out.append(".0");
            out
        },
        None => "172.17.0.0".to_owned(),
    }
}

/// One port mapping as it appears in the boot configuration.
pub open spec fn pm_entry_text(port: u16, proto: Seq<char>) -> Seq<char> {
    "{ port = "@ + dec_rep(port as nat) + "; protocol = \""@ + lower(proto) + "\"; }"@
}

fn pm_entry(port: u16, proto: &str) -> (r: String)
    ensures
        r@ == pm_entry_text(port, proto@),
{
    let mut out = "{ port = ".to_owned();
    out.append(u16_to_string(port).as_str());
    out.append("; protocol = \"");
    out.append(lower_string(proto).as_str());
    out.append("\"; }");
    out
}

/// The newline-prefixed entries from index `i` on.
pub open spec fn pm_entries_from(ms: Seq<(u16, String)>, i: int) -> Seq<char>
    decreases ms.len() - i,
{
    if i < 0 || i >= ms.len() {
        Seq::empty()
    } else {
        "\n    "@ + pm_entry_text(ms[i].0, ms[i].1@) + pm_entries_from(ms, i + 1)
    }
}

/// The port-mapping list in the boot configuration's syntax.
pub open spec fn pm_list_text(ms: Seq<(u16, String)>) -> Seq<char> {
    if ms.len() == 0 {
        "[ ]"@
    } else {
        "[\n    "@ + pm_entry_text(ms[0].0, ms[0].1@) + pm_entries_from(ms, 1) + "\n  ]"@
    }
}

fn pm_list(ms: &Vec<(u16, String)>) -> (r: String)
    ensures
        r@ == pm_list_text(ms@),
{
    if ms.len() == 0 {
        return "[ ]".to_owned();
    }
    let mut out = "[\n    ".to_owned();
    out.append(pm_entry(ms[0].0, ms[0].1.as_str()).as_str());
    let mut i: usize = 1;
    while i < ms.len()
        invariant
            1 <= i <= ms@.len(),
            out@ + pm_entries_from(ms@, i as int) == "[\n    "@ + pm_entry_text(
                ms@[0].0,
                ms@[0].1@,
            ) + pm_entries_from(ms@, 1),
        decreases ms@.len() - i,
    {
        out.append("\n    ");
        out.append(pm_entry(ms[i].0, ms[i].1.as_str()).as_str());
        i = i + 1;
    }
    out.append("\n  ]");
    out
}

// ---------------------------------------------------------------------------
// The boot configuration of the remote proxy
// ---------------------------------------------------------------------------

/// The boot-time host configuration: tunnel server, per-port redirects, debug
/// shell gated on the flag, a watchdog that deletes the stack after 60 missed
/// pings, and the success signal to the stack's wait condition.
pub open spec fn userdata_text(t: &CloudFormationTemplate) -> Seq<char> {
    "{ config, pkgs, lib, ... }:

let
  debug = "@ + bool_text(t.debug) + ";
  portMappings = "@ + pm_list_text(t.port_mappings@) + ";
  proxyPrivateKey = \""@ + t.proxy_wg_private_key@ + "\";
  originPublicKey = \""@ + t.origin_wg_public_key@ + "\";
  presharedKey = \""@ + t.preshared_key@ + "\";
  originTunnelIp = \""@ + t.wg_origin_ip@ + "\";
  proxyTunnelIp = \""@ + t.wg_proxy_ip@ + "\";
  tunnelSubnet = \""@ + subnet_of(t.wg_proxy_ip@) + "\";
  stackName = \""@ + t.stack_name@ + "\";
  stackRegion = \""@ + t.region@ + "\";
in
{
  boot.kernel.sysctl.\"net.ipv4.ip_forward\" = 1;

  networking.firewall.enable = false;

  networking.wireguard.interfaces.wg0 = {
    ips = [ \"${proxyTunnelIp}/24\" ];
    listenPort = 51820;
    privateKey = proxyPrivateKey;
    postSetup = lib.concatMapStrings (m: ''
      iptables -t nat -A PREROUTING -i ens5 -p ${m.protocol} --dport ${toString m.port} -j DNAT --to-destination ${originTunnelIp}:${toString m.port}
      iptables -t nat -A POSTROUTING -d ${originTunnelIp} -p ${m.protocol} --dport ${toString m.port} -j MASQUERADE
    '') portMappings;
    peers = [
      {
        publicKey = originPublicKey;
        presharedKey = presharedKey;
        allowedIPs = [ \"${tunnelSubnet}/24\" ];
      }
    ];
  };

  services.openssh = lib.mkIf debug {
    enable = true;
    settings.PermitRootLogin = \"yes\";
  };

  systemd.services.outpost-watchdog = {
    wantedBy = [ \"multi-user.target\" ];
    after = [ \"network-online.target\" \"wireguard-wg0.service\" ];
    path = [ pkgs.iputils pkgs.awscli2 pkgs.curl ];
    script = ''
      waitUrl=$(aws cloudformation describe-stack-resource --region ${stackRegion} --stack-name ${stackName} --logical-resource-id WaitHandle --query StackResourceDetail.PhysicalResourceId --output text)
      curl -X PUT -H \"Content-Type:\" --data-binary \"{\\\"Status\\\":\\\"SUCCESS\\\",\\\"Reason\\\":\\\"tunnel configured\\\",\\\"UniqueId\\\":\\\"wg0\\\",\\\"Data\\\":\\\"ready\\\"}\" \"$waitUrl\"
      failures=0
      while true; do
        if ping -c 1 -W 4 ${originTunnelIp} > /dev/null 2>&1; then
          failures=0
        else
          failures=$((failures + 1))
        fi
        if [ \"$failures\" -ge 60 ]; then
          aws cloudformation delete-stack --region ${stackRegion} --stack-name ${stackName}
          exit 0
        fi
        sleep 5
      done
    '';
  };
}
"@
}

// ---------------------------------------------------------------------------
// The stack description
// ---------------------------------------------------------------------------

/// A name tag value: `outpost-<stack><suffix>`, quoted for JSON.
pub open spec fn tag_text(t: &CloudFormationTemplate, suffix: Seq<char>) -> Seq<char> {
    json_str("outpost-"@ + t.stack_name@ + suffix)
}

fn tag_json(stack_name: &str, suffix: &str) -> (r: String)
    ensures
        r@ == json_str("outpost-"@ + stack_name@ + suffix@),
{
    let mut v = "outpost-".to_owned();
    v.append(stack_name);
    v.append(suffix);
    quote_json(v.as_str())
}

/// The complete stack description: the fixed topology of §network, gateway,
/// subnet, routing, security group, self-delete role, instance, wait
/// condition, and the two conditional DNS paths, with the request's values
/// inserted.
pub open spec fn template_text(t: &CloudFormationTemplate) -> Seq<char> {
    "{
  \"AWSTemplateFormatVersion\": \"2010-09-09\",
  \"Description\": \"Outpost AWS Proxy with VPC, WireGuard, and self-destruct\",
  \"Parameters\": {
    \"HostedZoneId\": {\"Type\": \"String\", \"Description\": \"Route53 Hosted Zone ID for DNS record\"},
    \"NixOSAMI\": {\"Type\": \"AWS::EC2::Image::Id\", \"Description\": \"NixOS AMI ID\"}
  },
  \"Conditions\": {
    \"UseCloudFront\": {\"Fn::Equals\": ["@ + bool_text(t.use_cloudfront) + ", true]},
    \"NotUseCloudFront\": {\"Fn::Not\": [{\"Fn::Equals\": ["@ + bool_text(t.use_cloudfront)
        + ", true]}]}
  },
  \"Resources\": {
    \"VPC\": {\"Type\": \"AWS::EC2::VPC\", \"Properties\": {\"CidrBlock\": \"10.0.0.0/16\", \"EnableDnsHostnames\": true, \"EnableDnsSupport\": true, \"Tags\": [{\"Key\": \"Name\", \"Value\": "@
        + tag_text(t, ""@) + "}]}},
    \"InternetGateway\": {\"Type\": \"AWS::EC2::InternetGateway\", \"Properties\": {\"Tags\": [{\"Key\": \"Name\", \"Value\": "@
        + tag_text(t, "-igw"@) + "}]}},
    \"AttachGateway\": {\"Type\": \"AWS::EC2::VPCGatewayAttachment\", \"Properties\": {\"VpcId\": {\"Ref\": \"VPC\"}, \"InternetGatewayId\": {\"Ref\": \"InternetGateway\"}}},
    \"PublicSubnet\": {\"Type\": \"AWS::EC2::Subnet\", \"Properties\": {\"VpcId\": {\"Ref\": \"VPC\"}, \"CidrBlock\": \"10.0.1.0/24\", \"MapPublicIpOnLaunch\": true, \"Tags\": [{\"Key\": \"Name\", \"Value\": "@
        + tag_text(t, "-public"@) + "}]}},
    \"PublicRouteTable\": {\"Type\": \"AWS::EC2::RouteTable\", \"Properties\": {\"VpcId\": {\"Ref\": \"VPC\"}, \"Tags\": [{\"Key\": \"Name\", \"Value\": "@
        + tag_text(t, "-public-rt"@) + "}]}},
    \"PublicRoute\": {\"Type\": \"AWS::EC2::Route\", \"DependsOn\": \"AttachGateway\", \"Properties\": {\"RouteTableId\": {\"Ref\": \"PublicRouteTable\"}, \"DestinationCidrBlock\": \"0.0.0.0/0\", \"GatewayId\": {\"Ref\": \"InternetGateway\"}}},
    \"SubnetRouteTableAssociation\": {\"Type\": \"AWS::EC2::SubnetRouteTableAssociation\", \"Properties\": {\"SubnetId\": {\"Ref\": \"PublicSubnet\"}, \"RouteTableId\": {\"Ref\": \"PublicRouteTable\"}}},
    \"SecurityGroup\": {\"Type\": \"AWS::EC2::SecurityGroup\", \"Properties\": {\"GroupDescription\": \"Allow WireGuard and ingress traffic only\", \"VpcId\": {\"Ref\": \"VPC\"}, \"SecurityGroupIngress\": "@
        + sg_rules_text(t)
        + ", \"SecurityGroupEgress\": [{\"IpProtocol\": \"-1\", \"CidrIp\": \"0.0.0.0/0\", \"Description\": \"Allow all outbound\"}], \"Tags\": [{\"Key\": \"Name\", \"Value\": "@
        + tag_text(t, "-sg"@) + "}]}},
    \"EC2Role\": {\"Type\": \"AWS::IAM::Role\", \"Properties\": {\"AssumeRolePolicyDocument\": {\"Version\": \"2012-10-17\", \"Statement\": [{\"Effect\": \"Allow\", \"Principal\": {\"Service\": \"ec2.amazonaws.com\"}, \"Action\": \"sts:AssumeRole\"}]}, \"Policies\": [{\"PolicyName\": \"SelfDestructPolicy\", \"PolicyDocument\": {\"Version\": \"2012-10-17\", \"Statement\": [{\"Effect\": \"Allow\", \"Action\": [\"cloudformation:DeleteStack\", \"cloudformation:DescribeStacks\", \"cloudformation:DescribeStackResource\"], \"Resource\": {\"Fn::Sub\": \"arn:aws:cloudformation:${AWS::Region}:${AWS::AccountId}:stack/${AWS::StackName}/*\"}}]}}]}},
    \"InstanceProfile\": {\"Type\": \"AWS::IAM::InstanceProfile\", \"Properties\": {\"Roles\": [{\"Ref\": \"EC2Role\"}]}},
    \"ProxyInstance\": {\"Type\": \"AWS::EC2::Instance\", \"DependsOn\": \"AttachGateway\", \"Properties\": {\"InstanceType\": "@
        + json_str(t.instance_type@)
        + ", \"ImageId\": {\"Ref\": \"NixOSAMI\"}, \"SubnetId\": {\"Ref\": \"PublicSubnet\"}, \"SecurityGroupIds\": [{\"Ref\": \"SecurityGroup\"}], \"IamInstanceProfile\": {\"Ref\": \"InstanceProfile\"}, \"UserData\": {\"Fn::Base64\": "@
        + json_str(userdata_text(t)) + "}, \"Tags\": [{\"Key\": \"Name\", \"Value\": "@ + tag_text(
        t,
        "-proxy"@,
    )
        + "}]}},
    \"WaitHandle\": {\"Type\": \"AWS::CloudFormation::WaitConditionHandle\"},
    \"WaitCondition\": {\"Type\": \"AWS::CloudFormation::WaitCondition\", \"DependsOn\": \"ProxyInstance\", \"Properties\": {\"Handle\": {\"Ref\": \"WaitHandle\"}, \"Timeout\": \"600\", \"Count\": 1}},
    \"DirectDNSRecord\": {\"Type\": \"AWS::Route53::RecordSet\", \"Condition\": \"NotUseCloudFront\", \"DependsOn\": \"WaitCondition\", \"Properties\": {\"HostedZoneId\": {\"Ref\": \"HostedZoneId\"}, \"Name\": "@
        + json_str(t.ingress_host@ + "."@)
        + ", \"Type\": \"A\", \"TTL\": \"60\", \"ResourceRecords\": [{\"Fn::GetAtt\": [\"ProxyInstance\", \"PublicIp\"]}]}},
    \"CloudFrontDistribution\": {\"Type\": \"AWS::CloudFront::Distribution\", \"Condition\": \"UseCloudFront\", \"DependsOn\": \"WaitCondition\", \"Properties\": {\"DistributionConfig\": {\"Comment\": \"Outpost CloudFront distribution\", \"Enabled\": true, \"HttpVersion\": \"http2\", \"Origins\": [{\"Id\": \"outpost-ec2-origin\", \"DomainName\": {\"Fn::GetAtt\": [\"ProxyInstance\", \"PublicIp\"]}, \"CustomOriginConfig\": {\"HTTPPort\": 80, \"HTTPSPort\": 443, \"OriginProtocolPolicy\": \"https-only\", \"OriginSSLProtocols\": [\"TLSv1.2\"], \"OriginReadTimeout\": 30, \"OriginKeepaliveTimeout\": 5}}], \"DefaultCacheBehavior\": {\"TargetOriginId\": \"outpost-ec2-origin\", \"ViewerProtocolPolicy\": \"https-only\", \"AllowedMethods\": [\"GET\", \"HEAD\", \"OPTIONS\", \"PUT\", \"POST\", \"PATCH\", \"DELETE\"], \"CachedMethods\": [\"GET\", \"HEAD\"], \"Compress\": true, \"ForwardedValues\": {\"QueryString\": true, \"Headers\": [\"*\"], \"Cookies\": {\"Forward\": \"all\"}}, \"MinTTL\": 0, \"DefaultTTL\": 0, \"MaxTTL\": 0}}}},
    \"CloudFrontDNSRecord\": {\"Type\": \"AWS::Route53::RecordSet\", \"Condition\": \"UseCloudFront\", \"DependsOn\": \"CloudFrontDistribution\", \"Properties\": {\"HostedZoneId\": {\"Ref\": \"HostedZoneId\"}, \"Name\": "@
        + json_str(t.ingress_host@ + "."@)
        + ", \"Type\": \"A\", \"AliasTarget\": {\"HostedZoneId\": \"Z2FDTNDATAQYW2\", \"DNSName\": {\"Fn::GetAtt\": [\"CloudFrontDistribution\", \"DomainName\"]}, \"EvaluateTargetHealth\": false}}}
  },
  \"Outputs\": {
    \"ProxyPublicIP\": {\"Description\": \"Public IP of the proxy instance\", \"Value\": {\"Fn::GetAtt\": [\"ProxyInstance\", \"PublicIp\"]}},
    \"ProxyInstanceId\": {\"Description\": \"Instance ID of the proxy\", \"Value\": {\"Ref\": \"ProxyInstance\"}},
    \"DNSName\": {\"Description\": \"DNS name for the proxy\", \"Value\": "@ + json_str(
        t.ingress_host@,
    )
        + "},
    \"CloudFrontDistributionId\": {\"Condition\": \"UseCloudFront\", \"Description\": \"CloudFront distribution ID\", \"Value\": {\"Ref\": \"CloudFrontDistribution\"}},
    \"CloudFrontDomain\": {\"Condition\": \"UseCloudFront\", \"Description\": \"CloudFront distribution domain name\", \"Value\": {\"Fn::GetAtt\": [\"CloudFrontDistribution\", \"DomainName\"]}}
  }
}
"@
}

impl CloudFormationTemplate {
    /// The architecture the boot image must have for this instance type:
    /// the Graviton prefixes map to `arm64`, anything else to `x86_64`.
    pub fn get_architecture(&self) -> (r: &'static str)
        ensures
            r@ == architecture_of(self.instance_type@),
            is_arm_instance(self.instance_type@) <==> r@ == "arm64"@,
    {
        proof {
            reveal_strlit("arm64");
            reveal_strlit("x86_64");
            assert("arm64"@.len() == 5);
            assert("x86_64"@.len() == 6);
        }
        let t = self.instance_type.as_str();
        if str_starts_with(t, "t4g.") || str_starts_with(t, "a1.") || str_starts_with(t, "m6g.")
            || str_starts_with(t, "m7g.") || str_starts_with(t, "c6g.") || str_starts_with(
            t,
            "c7g.",
        ) || str_starts_with(t, "r6g.") || str_starts_with(t, "r7g.") || str_starts_with(
            t,
            "g5g.",
        ) {
            "arm64"
        } else {
            "x86_64"
        }
    }

    /// Renders the `SecurityGroupIngress` array.
    pub fn generate_security_group_rules(&self) -> (r: String)
        ensures
            r@ == sg_rules_text(self),
    {
        let mut origin_cidr = self.origin_ip.clone();
        origin_cidr.append("/32");
        let mut out = "[".to_owned();
        out.append(sg_rule("udp", 51820, origin_cidr.as_str(), "WireGuard from origin").as_str());
        let ms = &self.port_mappings;
        let mut i: usize = 0;
        while i < ms.len()
            invariant
                i <= ms@.len(),
                out@ + sg_port_rules_from(ms@, i as int) == "["@ + sg_rule_text(
                    "udp"@,
                    51820,
                    self.origin_ip@ + "/32"@,
                    "WireGuard from origin"@,
                ) + sg_port_rules_from(ms@, 0),
            decreases ms@.len() - i,
        {
            let mut desc = "Ingress ".to_owned();
            desc.append(lower_string(ms[i].1.as_str()).as_str());
            desc.append(" traffic on port ");
            desc.append(u16_to_string(ms[i].0).as_str());
            assert(desc@ == sg_port_desc(ms@[i as int].0, ms@[i as int].1@));
            out.append(",");
            out.append(
                sg_rule(
                    lower_string(ms[i].1.as_str()).as_str(),
                    ms[i].0,
                    "0.0.0.0/0",
                    desc.as_str(),
                ).as_str(),
            );
            i = i + 1;
        }
        if self.debug {
            out.append(",");
            out.append(
                sg_rule("tcp", 22, origin_cidr.as_str(), "Debug SSH access from origin").as_str(),
            );
        }
        out.append("]");
        out
    }

    /// Renders the boot-time host configuration of the remote proxy.
    pub fn generate_userdata(&self) -> (r: String)
        ensures
            r@ == userdata_text(self),
    {
        let mut out = "{ config, pkgs, lib, ... }:

let
  debug = ".to_owned();
        out.append(bool_str(self.debug));
        out.append(";
  portMappings = ");
        out.append(pm_list(&self.port_mappings).as_str());
        out.append(";
  proxyPrivateKey = \"");
        out.append(self.proxy_wg_private_key.as_str());
        out.append("\";
  originPublicKey = \"");
        out.append(self.origin_wg_public_key.as_str());
        out.append("\";
  presharedKey = \"");
        out.append(self.preshared_key.as_str());
        out.append("\";
  originTunnelIp = \"");
        out.append(self.wg_origin_ip.as_str());
        out.append("\";
  proxyTunnelIp = \"");
        out.append(self.wg_proxy_ip.as_str());
        out.append("\";
  tunnelSubnet = \"");
        out.append(subnet_string(self.wg_proxy_ip.as_str()).as_str());
        out.append("\";
  stackName = \"");
        out.append(self.stack_name.as_str());
        out.append("\";
  stackRegion = \"");
        out.append(self.region.as_str());
        out.append("\";
in
{
  boot.kernel.sysctl.\"net.ipv4.ip_forward\" = 1;

  networking.firewall.enable = false;

  networking.wireguard.interfaces.wg0 = {
    ips = [ \"${proxyTunnelIp}/24\" ];
    listenPort = 51820;
    privateKey = proxyPrivateKey;
    postSetup = lib.concatMapStrings (m: ''
      iptables -t nat -A PREROUTING -i ens5 -p ${m.protocol} --dport ${toString m.port} -j DNAT --to-destination ${originTunnelIp}:${toString m.port}
      iptables -t nat -A POSTROUTING -d ${originTunnelIp} -p ${m.protocol} --dport ${toString m.port} -j MASQUERADE
    '') portMappings;
    peers = [
      {
        publicKey = originPublicKey;
        presharedKey = presharedKey;
        allowedIPs = [ \"${tunnelSubnet}/24\" ];
      }
    ];
  };

  services.openssh = lib.mkIf debug {
    enable = true;
    settings.PermitRootLogin = \"yes\";
  };

  systemd.services.outpost-watchdog = {
    wantedBy = [ \"multi-user.target\" ];
    after = [ \"network-online.target\" \"wireguard-wg0.service\" ];
    path = [ pkgs.iputils pkgs.awscli2 pkgs.curl ];
    script = ''
      waitUrl=$(aws cloudformation describe-stack-resource --region ${stackRegion} --stack-name ${stackName} --logical-resource-id WaitHandle --query StackResourceDetail.PhysicalResourceId --output text)
      curl -X PUT -H \"Content-Type:\" --data-binary \"{\\\"Status\\\":\\\"SUCCESS\\\",\\\"Reason\\\":\\\"tunnel configured\\\",\\\"UniqueId\\\":\\\"wg0\\\",\\\"Data\\\":\\\"ready\\\"}\" \"$waitUrl\"
      failures=0
      while true; do
        if ping -c 1 -W 4 ${originTunnelIp} > /dev/null 2>&1; then
          failures=0
        else
          failures=$((failures + 1))
        fi
        if [ \"$failures\" -ge 60 ]; then
          aws cloudformation delete-stack --region ${stackRegion} --stack-name ${stackName}
          exit 0
        fi
        sleep 5
      done
    '';
  };
}
");
        out
    }

    /// Renders the complete stack description.
    pub fn generate(&self) -> (r: Result<String, OutpostError>)
        ensures
            r is Ok,
            r->Ok_0@ == template_text(self),
    {
        let mut out = "{
  \"AWSTemplateFormatVersion\": \"2010-09-09\",
  \"Description\": \"Outpost AWS Proxy with VPC, WireGuard, and self-destruct\",
  \"Parameters\": {
    \"HostedZoneId\": {\"Type\": \"String\", \"Description\": \"Route53 Hosted Zone ID for DNS record\"},
    \"NixOSAMI\": {\"Type\": \"AWS::EC2::Image::Id\", \"Description\": \"NixOS AMI ID\"}
  },
  \"Conditions\": {
    \"UseCloudFront\": {\"Fn::Equals\": [".to_owned();
        out.append(bool_str(self.use_cloudfront));
        out.append(", true]},
    \"NotUseCloudFront\": {\"Fn::Not\": [{\"Fn::Equals\": [");
        out.append(bool_str(self.use_cloudfront));
        out.append(", true]}]}
  },
  \"Resources\": {
    \"VPC\": {\"Type\": \"AWS::EC2::VPC\", \"Properties\": {\"CidrBlock\": \"10.0.0.0/16\", \"EnableDnsHostnames\": true, \"EnableDnsSupport\": true, \"Tags\": [{\"Key\": \"Name\", \"Value\": ");
        out.append(tag_json(self.stack_name.as_str(), "").as_str());
        out.append("}]}},
    \"InternetGateway\": {\"Type\": \"AWS::EC2::InternetGateway\", \"Properties\": {\"Tags\": [{\"Key\": \"Name\", \"Value\": ");
        out.append(tag_json(self.stack_name.as_str(), "-igw").as_str());
        out.append("}]}},
    \"AttachGateway\": {\"Type\": \"AWS::EC2::VPCGatewayAttachment\", \"Properties\": {\"VpcId\": {\"Ref\": \"VPC\"}, \"InternetGatewayId\": {\"Ref\": \"InternetGateway\"}}},
    \"PublicSubnet\": {\"Type\": \"AWS::EC2::Subnet\", \"Properties\": {\"VpcId\": {\"Ref\": \"VPC\"}, \"CidrBlock\": \"10.0.1.0/24\", \"MapPublicIpOnLaunch\": true, \"Tags\": [{\"Key\": \"Name\", \"Value\": ");
        out.append(tag_json(self.stack_name.as_str(), "-public").as_str());
        out.append("}]}},
    \"PublicRouteTable\": {\"Type\": \"AWS::EC2::RouteTable\", \"Properties\": {\"VpcId\": {\"Ref\": \"VPC\"}, \"Tags\": [{\"Key\": \"Name\", \"Value\": ");
        out.append(tag_json(self.stack_name.as_str(), "-public-rt").as_str());
        out.append("}]}},
    \"PublicRoute\": {\"Type\": \"AWS::EC2::Route\", \"DependsOn\": \"AttachGateway\", \"Properties\": {\"RouteTableId\": {\"Ref\": \"PublicRouteTable\"}, \"DestinationCidrBlock\": \"0.0.0.0/0\", \"GatewayId\": {\"Ref\": \"InternetGateway\"}}},
    \"SubnetRouteTableAssociation\": {\"Type\": \"AWS::EC2::SubnetRouteTableAssociation\", \"Properties\": {\"SubnetId\": {\"Ref\": \"PublicSubnet\"}, \"RouteTableId\": {\"Ref\": \"PublicRouteTable\"}}},
    \"SecurityGroup\": {\"Type\": \"AWS::EC2::SecurityGroup\", \"Properties\": {\"GroupDescription\": \"Allow WireGuard and ingress traffic only\", \"VpcId\": {\"Ref\": \"VPC\"}, \"SecurityGroupIngress\": ");
        out.append(self.generate_security_group_rules().as_str());
        out.append(", \"SecurityGroupEgress\": [{\"IpProtocol\": \"-1\", \"CidrIp\": \"0.0.0.0/0\", \"Description\": \"Allow all outbound\"}], \"Tags\": [{\"Key\": \"Name\", \"Value\": ");
        out.append(tag_json(self.stack_name.as_str(), "-sg").as_str());
        out.append("}]}},
    \"EC2Role\": {\"Type\": \"AWS::IAM::Role\", \"Properties\": {\"AssumeRolePolicyDocument\": {\"Version\": \"2012-10-17\", \"Statement\": [{\"Effect\": \"Allow\", \"Principal\": {\"Service\": \"ec2.amazonaws.com\"}, \"Action\": \"sts:AssumeRole\"}]}, \"Policies\": [{\"PolicyName\": \"SelfDestructPolicy\", \"PolicyDocument\": {\"Version\": \"2012-10-17\", \"Statement\": [{\"Effect\": \"Allow\", \"Action\": [\"cloudformation:DeleteStack\", \"cloudformation:DescribeStacks\", \"cloudformation:DescribeStackResource\"], \"Resource\": {\"Fn::Sub\": \"arn:aws:cloudformation:${AWS::Region}:${AWS::AccountId}:stack/${AWS::StackName}/*\"}}]}}]}},
    \"InstanceProfile\": {\"Type\": \"AWS::IAM::InstanceProfile\", \"Properties\": {\"Roles\": [{\"Ref\": \"EC2Role\"}]}},
    \"ProxyInstance\": {\"Type\": \"AWS::EC2::Instance\", \"DependsOn\": \"AttachGateway\", \"Properties\": {\"InstanceType\": ");
        out.append(quote_json(self.instance_type.as_str()).as_str());
        out.append(", \"ImageId\": {\"Ref\": \"NixOSAMI\"}, \"SubnetId\": {\"Ref\": \"PublicSubnet\"}, \"SecurityGroupIds\": [{\"Ref\": \"SecurityGroup\"}], \"IamInstanceProfile\": {\"Ref\": \"InstanceProfile\"}, \"UserData\": {\"Fn::Base64\": ");
        out.append(quote_json(self.generate_userdata().as_str()).as_str());
        out.append("}, \"Tags\": [{\"Key\": \"Name\", \"Value\": ");
        out.append(tag_json(self.stack_name.as_str(), "-proxy").as_str());
        out.append("}]}},
    \"WaitHandle\": {\"Type\": \"AWS::CloudFormation::WaitConditionHandle\"},
    \"WaitCondition\": {\"Type\": \"AWS::CloudFormation::WaitCondition\", \"DependsOn\": \"ProxyInstance\", \"Properties\": {\"Handle\": {\"Ref\": \"WaitHandle\"}, \"Timeout\": \"600\", \"Count\": 1}},
    \"DirectDNSRecord\": {\"Type\": \"AWS::Route53::RecordSet\", \"Condition\": \"NotUseCloudFront\", \"DependsOn\": \"WaitCondition\", \"Properties\": {\"HostedZoneId\": {\"Ref\": \"HostedZoneId\"}, \"Name\": ");
        let mut host_dot = self.ingress_host.clone();
        host_dot.append(".");
        out.append(quote_json(host_dot.as_str()).as_str());
        out.append(", \"Type\": \"A\", \"TTL\": \"60\", \"ResourceRecords\": [{\"Fn::GetAtt\": [\"ProxyInstance\", \"PublicIp\"]}]}},
    \"CloudFrontDistribution\": {\"Type\": \"AWS::CloudFront::Distribution\", \"Condition\": \"UseCloudFront\", \"DependsOn\": \"WaitCondition\", \"Properties\": {\"DistributionConfig\": {\"Comment\": \"Outpost CloudFront distribution\", \"Enabled\": true, \"HttpVersion\": \"http2\", \"Origins\": [{\"Id\": \"outpost-ec2-origin\", \"DomainName\": {\"Fn::GetAtt\": [\"ProxyInstance\", \"PublicIp\"]}, \"CustomOriginConfig\": {\"HTTPPort\": 80, \"HTTPSPort\": 443, \"OriginProtocolPolicy\": \"https-only\", \"OriginSSLProtocols\": [\"TLSv1.2\"], \"OriginReadTimeout\": 30, \"OriginKeepaliveTimeout\": 5}}], \"DefaultCacheBehavior\": {\"TargetOriginId\": \"outpost-ec2-origin\", \"ViewerProtocolPolicy\": \"https-only\", \"AllowedMethods\": [\"GET\", \"HEAD\", \"OPTIONS\", \"PUT\", \"POST\", \"PATCH\", \"DELETE\"], \"CachedMethods\": [\"GET\", \"HEAD\"], \"Compress\": true, \"ForwardedValues\": {\"QueryString\": true, \"Headers\": [\"*\"], \"Cookies\": {\"Forward\": \"all\"}}, \"MinTTL\": 0, \"DefaultTTL\": 0, \"MaxTTL\": 0}}}},
    \"CloudFrontDNSRecord\": {\"Type\": \"AWS::Route53::RecordSet\", \"Condition\": \"UseCloudFront\", \"DependsOn\": \"CloudFrontDistribution\", \"Properties\": {\"HostedZoneId\": {\"Ref\": \"HostedZoneId\"}, \"Name\": ");
        out.append(quote_json(host_dot.as_str()).as_str());
        out.append(", \"Type\": \"A\", \"AliasTarget\": {\"HostedZoneId\": \"Z2FDTNDATAQYW2\", \"DNSName\": {\"Fn::GetAtt\": [\"CloudFrontDistribution\", \"DomainName\"]}, \"EvaluateTargetHealth\": false}}}
  },
  \"Outputs\": {
    \"ProxyPublicIP\": {\"Description\": \"Public IP of the proxy instance\", \"Value\": {\"Fn::GetAtt\": [\"ProxyInstance\", \"PublicIp\"]}},
    \"ProxyInstanceId\": {\"Description\": \"Instance ID of the proxy\", \"Value\": {\"Ref\": \"ProxyInstance\"}},
    \"DNSName\": {\"Description\": \"DNS name for the proxy\", \"Value\": ");
        out.append(quote_json(self.ingress_host.as_str()).as_str());
        out.append("},
    \"CloudFrontDistributionId\": {\"Condition\": \"UseCloudFront\", \"Description\": \"CloudFront distribution ID\", \"Value\": {\"Ref\": \"CloudFrontDistribution\"}},
    \"CloudFrontDomain\": {\"Condition\": \"UseCloudFront\", \"Description\": \"CloudFront distribution domain name\", \"Value\": {\"Fn::GetAtt\": [\"CloudFrontDistribution\", \"DomainName\"]}}
  }
}
");
        proof {
            assert(out@ =~= template_text(self));
        }
        Ok(out)
    }
}

} // verus!
