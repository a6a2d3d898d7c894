//! The tunnel installer's pure core: the packet-steering and shaping rule
//! lists, the on-disk tunnel configuration, the bandwidth-module preflight,
//! and a model of teardown under which running the teardown list twice equals
//! running it once.

use vstd::prelude::*;
use vstd::string::StrSliceExecFns;
use vstd::string::StringExecFns;

use crate::errors::OutpostError;
use crate::keys::WireGuardKeys;
use crate::text::{
    dec_rep, ends_with, has_substr, lower, lower_string, starts_with, str_contains,
    str_starts_with, u16_to_string, u64_to_string,
};

verus! {

// ---------------------------------------------------------------------------
// Rule bodies, shared between setup and teardown
// ---------------------------------------------------------------------------

/// Accept established/related inbound from the proxy on the tunnel interface.
pub open spec fn conn_body(proxy_ip: Seq<char>) -> Seq<char> {
    "-i wg0 -s "@ + proxy_ip + " -m conntrack --ctstate RELATED,ESTABLISHED -j ACCEPT"@
}

/// Accept forward out to the tunnel interface, destined for the proxy.
pub open spec fn fwd_out_body(proxy_ip: Seq<char>) -> Seq<char> {
    "-o wg0 -d "@ + proxy_ip + " -j ACCEPT"@
}

/// Accept inbound on one proxied port.
pub open spec fn in_body(proxy_ip: Seq<char>, port: u16, proto: Seq<char>) -> Seq<char> {
    "-i wg0 -s "@ + proxy_ip + " -p "@ + proto + " --dport "@ + dec_rep(port as nat)
        + " -j ACCEPT"@
}

/// Accept forward from the proxy for one protocol.
pub open spec fn fw_body(proxy_ip: Seq<char>, proto: Seq<char>) -> Seq<char> {
    "-i wg0 -s "@ + proxy_ip + " -p "@ + proto + " -j ACCEPT"@
}

/// Redirect one proxied port to the origin service.
pub open spec fn dnat_body(
    proxy_ip: Seq<char>,
    origin_host: Seq<char>,
    port: u16,
    proto: Seq<char>,
) -> Seq<char> {
    "-i wg0 -s "@ + proxy_ip + " -p "@ + proto + " --dport "@ + dec_rep(port as nat)
        + " -j DNAT --to-destination "@ + origin_host + ":"@ + dec_rep(port as nat)
}

/// Masquerade the return traffic of one proxied port.
pub open spec fn masq_body(origin_host: Seq<char>, port: u16, proto: Seq<char>) -> Seq<char> {
    "-d "@ + origin_host + " -p "@ + proto + " --dport "@ + dec_rep(port as nat)
        + " -j MASQUERADE"@
}

/// Count traffic to the origin on one port.
pub open spec fn acct_to_body(origin_host: Seq<char>, port: u16, proto: Seq<char>) -> Seq<char> {
    "-d "@ + origin_host + " -p "@ + proto + " --dport "@ + dec_rep(port as nat) + " -j RETURN"@
}

/// Count traffic from the origin on one port.
pub open spec fn acct_from_body(origin_host: Seq<char>, port: u16, proto: Seq<char>) -> Seq<char> {
    "-s "@ + origin_host + " -p "@ + proto + " --sport "@ + dec_rep(port as nat) + " -j RETURN"@
}

/// An append command for a rule.
pub open spec fn add_rule(nat_table: bool, chain: Seq<char>, body: Seq<char>) -> Seq<char> {
    (if nat_table {
        "iptables -t nat -A "@
    } else {
        "iptables -A "@
    }) + chain + " "@ + body
}

/// The shaping rate in Kbit for a limit in Mbps.
pub open spec fn kbit(limit: u32) -> Seq<char> {
    dec_rep((limit as nat) * 1000)
}

// ---------------------------------------------------------------------------
// The teardown model
// ---------------------------------------------------------------------------

/// What the kernel holds, as far as teardown is concerned: packet-filter
/// rules with their table and chain, user chains, queueing disciplines, and
/// raised devices.
pub enum PfEntry {
    Rule { nat_table: bool, chain: Seq<char>, body: Seq<char> },
    Chain { name: Seq<char> },
    Qdisc { dev: Seq<char>, which: Seq<char> },
    Link { dev: Seq<char> },
}

/// One teardown command. Every kind only removes.
pub enum TdCmd {
    DeleteRule { nat_table: bool, chain: Seq<char>, body: Seq<char> },
    FlushChain { name: Seq<char> },
    DeleteChain { name: Seq<char> },
    DeleteQdisc { dev: Seq<char>, which: Seq<char> },
    LinkDown { dev: Seq<char> },
}

/// The set of entries a command removes. Deleting an absent entry removes
/// nothing, which is what the `|| true` on every rendered line stands for.
pub open spec fn removes(c: TdCmd) -> Set<PfEntry> {
    match c {
        TdCmd::DeleteRule { nat_table, chain, body } => Set::empty().insert(
            PfEntry::Rule { nat_table, chain, body },
        ),
        TdCmd::FlushChain { name } => Set::new(
            |e: PfEntry|
                match e {
                    PfEntry::Rule { nat_table, chain, .. } => !nat_table && chain == name,
                    _ => false,
                },
        ),
        TdCmd::DeleteChain { name } => Set::empty().insert(PfEntry::Chain { name }),
        TdCmd::DeleteQdisc { dev, which } => Set::empty().insert(PfEntry::Qdisc { dev, which }),
        TdCmd::LinkDown { dev } => Set::empty().insert(PfEntry::Link { dev }),
    }
}

/// Running one teardown command.
pub open spec fn apply_cmd(s: Set<PfEntry>, c: TdCmd) -> Set<PfEntry> {
    s.difference(removes(c))
}

/// Running a whole teardown list, front to back.
pub open spec fn apply_all(s: Set<PfEntry>, cmds: Seq<TdCmd>) -> Set<PfEntry>
    decreases cmds.len(),
{
    if cmds.len() == 0 {
        s
    } else {
        apply_all(apply_cmd(s, cmds[0]), cmds.drop_first())
    }
}

/// Everything a teardown list removes.
pub open spec fn removes_all(cmds: Seq<TdCmd>) -> Set<PfEntry>
    decreases cmds.len(),
{
    if cmds.len() == 0 {
        Set::empty()
    } else {
        removes(cmds[0]).union(removes_all(cmds.drop_first()))
    }
}

/// A teardown list only subtracts: its effect is one set difference.
pub proof fn lemma_apply_all_is_difference(s: Set<PfEntry>, cmds: Seq<TdCmd>)
    ensures
        apply_all(s, cmds) == s.difference(removes_all(cmds)),
    decreases cmds.len(),
{
    if cmds.len() == 0 {
        assert(s.difference(Set::empty()) =~= s);
    } else {
        lemma_apply_all_is_difference(s.difference(removes(cmds[0])), cmds.drop_first());
        assert(s.difference(removes(cmds[0])).difference(removes_all(cmds.drop_first()))
            =~= s.difference(removes(cmds[0]).union(removes_all(cmds.drop_first()))));
    }
}

/// Idempotent teardown: running any teardown list twice leaves the
/// packet-filter in the same state as running it once. Deleting what is
/// already gone is a no-op, so a replayed `PreDown` list changes nothing.
pub proof fn lemma_teardown_idempotent(s: Set<PfEntry>, cmds: Seq<TdCmd>)
    ensures
        apply_all(apply_all(s, cmds), cmds) == apply_all(s, cmds),
{
    lemma_apply_all_is_difference(s, cmds);
    lemma_apply_all_is_difference(s.difference(removes_all(cmds)), cmds);
    assert(s.difference(removes_all(cmds)).difference(removes_all(cmds)) =~= s.difference(
        removes_all(cmds),
    ));
}

/// Idempotent teardown of a generated list: replaying the teardown commands
/// built for any port mappings and shaping limits leaves the packet-filter
/// exactly where one run left it.
pub proof fn lemma_generated_teardown_idempotent(
    s: Set<PfEntry>,
    proxy_ip: Seq<char>,
    origin_host: Seq<char>,
    ms: Seq<(u16, String)>,
    upload: Option<u32>,
    download: Option<u32>,
)
    ensures
        ({
            let cmds = teardown_model(proxy_ip, origin_host, ms, upload, download);
            apply_all(apply_all(s, cmds), cmds) == apply_all(s, cmds)
        }),
{
    lemma_teardown_idempotent(s, teardown_model(proxy_ip, origin_host, ms, upload, download));
}

/// The rendered text of one teardown command: the matching delete, always
/// tolerating an absent target.
pub open spec fn td_render(c: TdCmd) -> Seq<char> {
    match c {
        TdCmd::DeleteRule { nat_table, chain, body } => (if nat_table {
            "iptables -t nat -D "@
        } else {
            "iptables -D "@
        }) + chain + " "@ + body + " || true"@,
        TdCmd::FlushChain { name } => "iptables -F "@ + name + " || true"@,
        TdCmd::DeleteChain { name } => "iptables -X "@ + name + " || true"@,
        TdCmd::DeleteQdisc { dev, which } => "tc qdisc del dev "@ + dev + " "@ + which
            + " || true"@,
        TdCmd::LinkDown { dev } => "ip link set dev "@ + dev + " down || true"@,
    }
}

/// Every rendered teardown line tolerates an absent rule.
pub proof fn lemma_td_render_tolerant(c: TdCmd)
    ensures
        ends_with(td_render(c), " || true"@),
{
    reveal_strlit(" || true");
    let t = td_render(c);
    match c {
        TdCmd::DeleteRule { .. } => {
            assert(t.subrange(t.len() - 8, t.len() as int) =~= " || true"@);
        },
        TdCmd::FlushChain { .. } => {
            assert(t.subrange(t.len() - 8, t.len() as int) =~= " || true"@);
        },
        TdCmd::DeleteChain { .. } => {
            assert(t.subrange(t.len() - 8, t.len() as int) =~= " || true"@);
        },
        TdCmd::DeleteQdisc { .. } => {
            assert(t.subrange(t.len() - 8, t.len() as int) =~= " || true"@);
        },
        TdCmd::LinkDown { dev } => {
            reveal_strlit(" down || true");
            assert(t =~= ("ip link set dev "@ + dev) + " down || true"@);
            assert(t.subrange(t.len() - 8, t.len() as int) =~= " || true"@);
        },
    }
}

// ---------------------------------------------------------------------------
// The rule lists
// ---------------------------------------------------------------------------

/// The setup lines for one port mapping.
pub open spec fn port_post(
    proxy_ip: Seq<char>,
    origin_host: Seq<char>,
    port: u16,
    proto: Seq<char>,
) -> Seq<Seq<char>> {
    seq![
        add_rule(false, "INPUT"@, in_body(proxy_ip, port, proto)),
        add_rule(false, "FORWARD"@, fw_body(proxy_ip, proto)),
        add_rule(true, "PREROUTING"@, dnat_body(proxy_ip, origin_host, port, proto)),
        add_rule(true, "POSTROUTING"@, masq_body(origin_host, port, proto)),
        add_rule(false, "OUTPOST_ACCOUNTING"@, acct_to_body(origin_host, port, proto)),
        add_rule(false, "OUTPOST_ACCOUNTING"@, acct_from_body(origin_host, port, proto)),
    ]
}

/// The teardown commands for one port mapping: the accounting returns are
/// flushed with their chain, everything else gets its delete.
pub open spec fn port_td(
    proxy_ip: Seq<char>,
    origin_host: Seq<char>,
    port: u16,
    proto: Seq<char>,
) -> Seq<TdCmd> {
    seq![
        TdCmd::DeleteRule { nat_table: false, chain: "INPUT"@, body: in_body(proxy_ip, port, proto) },
        TdCmd::DeleteRule { nat_table: false, chain: "FORWARD"@, body: fw_body(proxy_ip, proto) },
        TdCmd::DeleteRule {
            nat_table: true,
            chain: "PREROUTING"@,
            body: dnat_body(proxy_ip, origin_host, port, proto),
        },
        TdCmd::DeleteRule {
            nat_table: true,
            chain: "POSTROUTING"@,
            body: masq_body(origin_host, port, proto),
        },
    ]
}

/// The setup lines for the port mappings from index `i` on.
pub open spec fn ports_post_from(
    ms: Seq<(u16, String)>,
    i: int,
    proxy_ip: Seq<char>,
    origin_host: Seq<char>,
) -> Seq<Seq<char>>
    decreases ms.len() - i,
{
    if i < 0 || i >= ms.len() {
        Seq::empty()
    } else {
        port_post(proxy_ip, origin_host, ms[i].0, lower(ms[i].1@)) + ports_post_from(
            ms,
            i + 1,
            proxy_ip,
            origin_host,
        )
    }
}

/// The teardown commands for the port mappings from index `i` on.
pub open spec fn ports_td_from(
    ms: Seq<(u16, String)>,
    i: int,
    proxy_ip: Seq<char>,
    origin_host: Seq<char>,
) -> Seq<TdCmd>
    decreases ms.len() - i,
{
    if i < 0 || i >= ms.len() {
        Seq::empty()
    } else {
        port_td(proxy_ip, origin_host, ms[i].0, lower(ms[i].1@)) + ports_td_from(
            ms,
            i + 1,
            proxy_ip,
            origin_host,
        )
    }
}

/// The upload-shaping setup lines: a root HTB qdisc with one class at the
/// requested rate.
pub open spec fn upload_post(limit: Option<u32>) -> Seq<Seq<char>> {
    match limit {
        None => Seq::empty(),
        Some(l) => seq![
            "tc qdisc add dev wg0 root handle 1: htb default 10"@,
            "tc class add dev wg0 parent 1: classid 1:10 htb rate "@ + kbit(l) + "kbit ceil "@
                + kbit(l) + "kbit"@,
        ],
    }
}

/// The download-shaping setup lines: raise the intermediate block device,
/// redirect all ingress onto it, and shape there.
pub open spec fn download_post(limit: Option<u32>) -> Seq<Seq<char>> {
    match limit {
        None => Seq::empty(),
        Some(l) => seq![
            "modprobe ifb numifbs=1"@,
            "ip link set dev ifb0 up"@,
            "tc qdisc add dev wg0 handle ffff: ingress"@,
            "tc filter add dev wg0 parent ffff: protocol all u32 match u32 0 0 action mirred egress redirect dev ifb0"@,
            "tc qdisc add dev ifb0 root handle 1: htb default 10"@,
            "tc class add dev ifb0 parent 1: classid 1:10 htb rate "@ + kbit(l) + "kbit ceil "@
                + kbit(l) + "kbit"@,
        ],
    }
}

pub open spec fn upload_td(limit: Option<u32>) -> Seq<TdCmd> {
    match limit {
        None => Seq::empty(),
        Some(_) => seq![TdCmd::DeleteQdisc { dev: "wg0"@, which: "root"@ }],
    }
}

pub open spec fn download_td(limit: Option<u32>) -> Seq<TdCmd> {
    match limit {
        None => Seq::empty(),
        Some(_) => seq![
            TdCmd::DeleteQdisc { dev: "wg0"@, which: "ingress"@ },
            TdCmd::DeleteQdisc { dev: "ifb0"@, which: "root"@ },
            TdCmd::LinkDown { dev: "ifb0"@ },
        ],
    }
}

/// The whole ordered setup list of §tunnel: conntrack and forward accepts,
/// optional shaping, the accounting chain, the per-port rules, and the jump
/// to accounting last.
pub open spec fn post_rules(
    proxy_ip: Seq<char>,
    origin_host: Seq<char>,
    ms: Seq<(u16, String)>,
    upload: Option<u32>,
    download: Option<u32>,
) -> Seq<Seq<char>> {
    seq![
        add_rule(false, "INPUT"@, conn_body(proxy_ip)),
        add_rule(false, "FORWARD"@, fwd_out_body(proxy_ip)),
    ] + upload_post(upload) + download_post(download) + seq!["iptables -N OUTPOST_ACCOUNTING || true"@]
        + ports_post_from(ms, 0, proxy_ip, origin_host) + seq![
        add_rule(false, "FORWARD"@, "-j OUTPOST_ACCOUNTING"@),
    ]
}

/// The whole ordered teardown list, mirroring the setup.
pub open spec fn teardown_model(
    proxy_ip: Seq<char>,
    origin_host: Seq<char>,
    ms: Seq<(u16, String)>,
    upload: Option<u32>,
    download: Option<u32>,
) -> Seq<TdCmd> {
    seq![
        TdCmd::DeleteRule { nat_table: false, chain: "INPUT"@, body: conn_body(proxy_ip) },
        TdCmd::DeleteRule { nat_table: false, chain: "FORWARD"@, body: fwd_out_body(proxy_ip) },
    ] + upload_td(upload) + download_td(download) + seq![
        TdCmd::FlushChain { name: "OUTPOST_ACCOUNTING"@ },
        TdCmd::DeleteChain { name: "OUTPOST_ACCOUNTING"@ },
    ] + ports_td_from(ms, 0, proxy_ip, origin_host) + seq![
        TdCmd::DeleteRule { nat_table: false, chain: "FORWARD"@, body: "-j OUTPOST_ACCOUNTING"@ },
    ]
}

/// The rendered text of a whole teardown list.
pub open spec fn render_all(cmds: Seq<TdCmd>) -> Seq<Seq<char>> {
    cmds.map_values(|c: TdCmd| td_render(c))
}

/// The rendered teardown lines.
pub open spec fn pre_rules(
    proxy_ip: Seq<char>,
    origin_host: Seq<char>,
    ms: Seq<(u16, String)>,
    upload: Option<u32>,
    download: Option<u32>,
) -> Seq<Seq<char>> {
    render_all(teardown_model(proxy_ip, origin_host, ms, upload, download))
}

/// Every mapping names tcp or udp, ASCII case aside.
pub open spec fn mappings_ok(ms: Seq<(u16, String)>) -> bool {
    forall|i: int|
        0 <= i < ms.len() ==> (lower((#[trigger] ms[i]).1@) == "tcp"@ || lower(ms[i].1@) == "udp"@)
}

// ---------------------------------------------------------------------------
// Building the lists
// ---------------------------------------------------------------------------

/// The views of a list of strings.
pub open spec fn views(v: Seq<String>) -> Seq<Seq<char>> {
    v.map_values(|s: String| s@)
}

/// `iptables` append command text.
fn s_add(nat_table: bool, chain: &str, body: &str) -> (r: String)
    ensures
        r@ == add_rule(nat_table, chain@, body@),
{
    let mut out = if nat_table {
        "iptables -t nat -A ".to_owned()
    } else {
        "iptables -A ".to_owned()
    };
    out.append(chain);
    out.append(" ");
    out.append(body);
    out
}

/// `iptables` delete command text, tolerant of an absent rule.
fn s_del(nat_table: bool, chain: &str, body: &str) -> (r: String)
    ensures
        r@ == td_render(TdCmd::DeleteRule { nat_table, chain: chain@, body: body@ }),
{
    let mut out = if nat_table {
        "iptables -t nat -D ".to_owned()
    } else {
        "iptables -D ".to_owned()
    };
    out.append(chain);
    out.append(" ");
    out.append(body);
    out.append(" || true");
    out
}

fn s_conn_body(proxy_ip: &str) -> (r: String)
    ensures
        r@ == conn_body(proxy_ip@),
{
    let mut out = "-i wg0 -s ".to_owned();
    out.append(proxy_ip);
    out.append(" -m conntrack --ctstate RELATED,ESTABLISHED -j ACCEPT");
    out
}

fn s_fwd_out_body(proxy_ip: &str) -> (r: String)
    ensures
        r@ == fwd_out_body(proxy_ip@),
{
    let mut out = "-o wg0 -d ".to_owned();
    out.append(proxy_ip);
    out.append(" -j ACCEPT");
    out
}

fn s_in_body(proxy_ip: &str, port: u16, proto: &str) -> (r: String)
    ensures
        r@ == in_body(proxy_ip@, port, proto@),
{
    let mut out = "-i wg0 -s ".to_owned();
    out.append(proxy_ip);
    out.append(" -p ");
    out.append(proto);
    out.append(" --dport ");
    out.append(u16_to_string(port).as_str());
    out.append(" -j ACCEPT");
    out
}

fn s_fw_body(proxy_ip: &str, proto: &str) -> (r: String)
    ensures
        r@ == fw_body(proxy_ip@, proto@),
{
    let mut out = "-i wg0 -s ".to_owned();
    out.append(proxy_ip);
    out.append(" -p ");
    out.append(proto);
    out.append(" -j ACCEPT");
    out
}

fn s_dnat_body(proxy_ip: &str, origin_host: &str, port: u16, proto: &str) -> (r: String)
    ensures
        r@ == dnat_body(proxy_ip@, origin_host@, port, proto@),
{
    let mut out = "-i wg0 -s ".to_owned();
    out.append(proxy_ip);
    out.append(" -p ");
    out.append(proto);
    out.append(" --dport ");
    out.append(u16_to_string(port).as_str());
    out.append(" -j DNAT --to-destination ");
    out.append(origin_host);
    out.append(":");
    out.append(u16_to_string(port).as_str());
    out
}

fn s_masq_body(origin_host: &str, port: u16, proto: &str) -> (r: String)
    ensures
        r@ == masq_body(origin_host@, port, proto@),
{
    let mut out = "-d ".to_owned();
    out.append(origin_host);
    out.append(" -p ");
    out.append(proto);
    out.append(" --dport ");
    out.append(u16_to_string(port).as_str());
    out.append(" -j MASQUERADE");
    out
}

fn s_acct_to_body(origin_host: &str, port: u16, proto: &str) -> (r: String)
    ensures
        r@ == acct_to_body(origin_host@, port, proto@),
{
    let mut out = "-d ".to_owned();
    out.append(origin_host);
    out.append(" -p ");
    out.append(proto);
    out.append(" --dport ");
    out.append(u16_to_string(port).as_str());
    out.append(" -j RETURN");
    out
}

fn s_acct_from_body(origin_host: &str, port: u16, proto: &str) -> (r: String)
    ensures
        r@ == acct_from_body(origin_host@, port, proto@),
{
    let mut out = "-s ".to_owned();
    out.append(origin_host);
    out.append(" -p ");
    out.append(proto);
    out.append(" --sport ");
    out.append(u16_to_string(port).as_str());
    out.append(" -j RETURN");
    out
}

/// The shaping rate text.
fn s_kbit(limit: u32) -> (r: String)
    ensures
        r@ == kbit(limit),
{
    u64_to_string((limit as u64) * 1000)
}

fn s_qdisc_del(dev: &str, which: &str) -> (r: String)
    ensures
        r@ == td_render(TdCmd::DeleteQdisc { dev: dev@, which: which@ }),
{
    let mut out = "tc qdisc del dev ".to_owned();
    out.append(dev);
    out.append(" ");
    out.append(which);
    out.append(" || true");
    out
}

fn s_link_down(dev: &str) -> (r: String)
    ensures
        r@ == td_render(TdCmd::LinkDown { dev: dev@ }),
{
    let mut out = "ip link set dev ".to_owned();
    out.append(dev);
    out.append(" down || true");
    out
}

fn s_flush_chain(name: &str) -> (r: String)
    ensures
        r@ == td_render(TdCmd::FlushChain { name: name@ }),
{
    let mut out = "iptables -F ".to_owned();
    out.append(name);
    out.append(" || true");
    out
}

fn s_delete_chain(name: &str) -> (r: String)
    ensures
        r@ == td_render(TdCmd::DeleteChain { name: name@ }),
{
    let mut out = "iptables -X ".to_owned();
    out.append(name);
    out.append(" || true");
    out
}

/// Builds the setup and teardown command lists.
///
/// Succeeds exactly when there is at least one port mapping and every
/// mapping's protocol is tcp or udp.
#[verifier::rlimit(100)]
pub fn build_rules(
    proxy_ip: &str,
    origin_host: &str,
    ms: &Vec<(u16, String)>,
    upload: Option<u32>,
    download: Option<u32>,
) -> (r: Result<(Vec<String>, Vec<String>), OutpostError>)
    ensures
        r is Ok <==> ms@.len() > 0 && mappings_ok(ms@),
        r is Ok ==> views(r->Ok_0.0@) == post_rules(proxy_ip@, origin_host@, ms@, upload, download),
        r is Ok ==> views(r->Ok_0.1@) == pre_rules(proxy_ip@, origin_host@, ms@, upload, download),
        r is Err ==> r->Err_0 is BadInput,
{
    if ms.len() == 0 {
        return Err(
            OutpostError::BadInput("at least one port mapping is required".to_owned()),
        );
    }
    let mut i: usize = 0;
    while i < ms.len()
        invariant
            i <= ms@.len(),
            forall|m: int|
                0 <= m < i ==> (lower((#[trigger] ms@[m]).1@) == "tcp"@ || lower(ms@[m].1@)
                    == "udp"@),
        decreases ms@.len() - i,
    {
        let lp = lower_string(ms[i].1.as_str());
        if !(crate::text::str_eq(lp.as_str(), "tcp") || crate::text::str_eq(lp.as_str(), "udp")) {
            return Err(
                OutpostError::BadInput("only tcp and udp can be forwarded".to_owned()),
            );
        }
        i = i + 1;
    }
    let mut post: Vec<String> = Vec::new();
    let mut pre: Vec<String> = Vec::new();
    let ghost mut model: Seq<TdCmd> = Seq::empty();
    let conn = s_conn_body(proxy_ip);
    let fwd = s_fwd_out_body(proxy_ip);
    post.push(s_add(false, "INPUT", conn.as_str()));
    post.push(s_add(false, "FORWARD", fwd.as_str()));
    pre.push(s_del(false, "INPUT", conn.as_str()));
    pre.push(s_del(false, "FORWARD", fwd.as_str()));
    proof {
        model = model + seq![
            TdCmd::DeleteRule { nat_table: false, chain: "INPUT"@, body: conn_body(proxy_ip@) },
            TdCmd::DeleteRule {
                nat_table: false,
                chain: "FORWARD"@,
                body: fwd_out_body(proxy_ip@),
            },
        ];
        assert(views(pre@) =~= render_all(model));
    }
    if let Some(l) = upload {
        let rate = s_kbit(l);
        post.push("tc qdisc add dev wg0 root handle 1: htb default 10".to_owned());
        let mut cls = "tc class add dev wg0 parent 1: classid 1:10 htb rate ".to_owned();
        cls.append(rate.as_str());
        cls.append("kbit ceil ");
        cls.append(rate.as_str());
        cls.append("kbit");
        post.push(cls);
        pre.push(s_qdisc_del("wg0", "root"));
        proof {
            model = model + seq![TdCmd::DeleteQdisc { dev: "wg0"@, which: "root"@ }];
            assert(views(pre@) =~= render_all(model));
        }
    }
    if let Some(l) = download {
        let rate = s_kbit(l);
        post.push("modprobe ifb numifbs=1".to_owned());
        post.push("ip link set dev ifb0 up".to_owned());
        post.push("tc qdisc add dev wg0 handle ffff: ingress".to_owned());
        post.push(
            "tc filter add dev wg0 parent ffff: protocol all u32 match u32 0 0 action mirred egress redirect dev ifb0".to_owned(),
        );
        post.push("tc qdisc add dev ifb0 root handle 1: htb default 10".to_owned());
        let mut cls = "tc class add dev ifb0 parent 1: classid 1:10 htb rate ".to_owned();
        cls.append(rate.as_str());
        cls.append("kbit ceil ");
        cls.append(rate.as_str());
        cls.append("kbit");
        post.push(cls);
        pre.push(s_qdisc_del("wg0", "ingress"));
        pre.push(s_qdisc_del("ifb0", "root"));
        pre.push(s_link_down("ifb0"));
        proof {
            model = model + seq![
                TdCmd::DeleteQdisc { dev: "wg0"@, which: "ingress"@ },
                TdCmd::DeleteQdisc { dev: "ifb0"@, which: "root"@ },
                TdCmd::LinkDown { dev: "ifb0"@ },
            ];
            assert(views(pre@) =~= render_all(model));
        }
    }
    post.push("iptables -N OUTPOST_ACCOUNTING || true".to_owned());
    pre.push(s_flush_chain("OUTPOST_ACCOUNTING"));
    pre.push(s_delete_chain("OUTPOST_ACCOUNTING"));
    proof {
        model = model + seq![
            TdCmd::FlushChain { name: "OUTPOST_ACCOUNTING"@ },
            TdCmd::DeleteChain { name: "OUTPOST_ACCOUNTING"@ },
        ];
        assert(views(pre@) =~= render_all(model));
        assert(views(post@) =~= seq![
            add_rule(false, "INPUT"@, conn_body(proxy_ip@)),
            add_rule(false, "FORWARD"@, fwd_out_body(proxy_ip@)),
        ] + upload_post(upload) + download_post(download) + seq![
            "iptables -N OUTPOST_ACCOUNTING || true"@,
        ]);
    }
    let ghost post0 = views(post@);
    let ghost model0 = model;
    let mut k: usize = 0;
    while k < ms.len()
        invariant
            k <= ms@.len(),
            mappings_ok(ms@),
            post0 == seq![
                add_rule(false, "INPUT"@, conn_body(proxy_ip@)),
                add_rule(false, "FORWARD"@, fwd_out_body(proxy_ip@)),
            ] + upload_post(upload) + download_post(download) + seq![
                "iptables -N OUTPOST_ACCOUNTING || true"@,
            ],
            views(post@) + ports_post_from(ms@, k as int, proxy_ip@, origin_host@) == post0
                + ports_post_from(ms@, 0, proxy_ip@, origin_host@),
            model + ports_td_from(ms@, k as int, proxy_ip@, origin_host@) == model0
                + ports_td_from(ms@, 0, proxy_ip@, origin_host@),
            views(pre@) == render_all(model),
            model0 == seq![
                TdCmd::DeleteRule {
                    nat_table: false,
                    chain: "INPUT"@,
                    body: conn_body(proxy_ip@),
                },
                TdCmd::DeleteRule {
                    nat_table: false,
                    chain: "FORWARD"@,
                    body: fwd_out_body(proxy_ip@),
                },
            ] + upload_td(upload) + download_td(download) + seq![
                TdCmd::FlushChain { name: "OUTPOST_ACCOUNTING"@ },
                TdCmd::DeleteChain { name: "OUTPOST_ACCOUNTING"@ },
            ],
        decreases ms@.len() - k,
    {
        let ghost pre_in = pre@;
        let ghost model_in = model;
        let port = ms[k].0;
        let lp = lower_string(ms[k].1.as_str());
        let inb = s_in_body(proxy_ip, port, lp.as_str());
        let fwb = s_fw_body(proxy_ip, lp.as_str());
        let dnb = s_dnat_body(proxy_ip, origin_host, port, lp.as_str());
        let mqb = s_masq_body(origin_host, port, lp.as_str());
        let atb = s_acct_to_body(origin_host, port, lp.as_str());
        let afb = s_acct_from_body(origin_host, port, lp.as_str());
        post.push(s_add(false, "INPUT", inb.as_str()));
        post.push(s_add(false, "FORWARD", fwb.as_str()));
        post.push(s_add(true, "PREROUTING", dnb.as_str()));
        post.push(s_add(true, "POSTROUTING", mqb.as_str()));
        post.push(s_add(false, "OUTPOST_ACCOUNTING", atb.as_str()));
        post.push(s_add(false, "OUTPOST_ACCOUNTING", afb.as_str()));
        pre.push(s_del(false, "INPUT", inb.as_str()));
        pre.push(s_del(false, "FORWARD", fwb.as_str()));
        pre.push(s_del(true, "PREROUTING", dnb.as_str()));
        pre.push(s_del(true, "POSTROUTING", mqb.as_str()));
        proof {
            let cmds = port_td(proxy_ip@, origin_host@, ms@[k as int].0, lower(ms@[k as int].1@));
            model = model + cmds;
            let n = model_in.len() as int;
            assert(views(pre_in).len() == pre_in.len());
            assert(render_all(model_in).len() == model_in.len());
            assert(pre@.len() == n + 4);
            assert(model.len() == n + 4);
            assert(pre@[n]@ == td_render(model[n]));
            assert(pre@[n + 1]@ == td_render(model[n + 1]));
            assert(pre@[n + 2]@ == td_render(model[n + 2]));
            assert(pre@[n + 3]@ == td_render(model[n + 3]));
            assert forall|i: int| 0 <= i < model.len() implies #[trigger] views(pre@)[i]
                == render_all(model)[i] by {
                assert(render_all(model)[i] == td_render(model[i]));
                assert(views(pre@)[i] == pre@[i]@);
                if i < n {
                    assert(model[i] == model_in[i]);
                    assert(pre@[i] == pre_in[i]);
                    assert(views(pre_in)[i] == render_all(model_in)[i]);
                }
            }
            assert(views(pre@) =~= render_all(model));
            assert(views(post@) + ports_post_from(ms@, k + 1, proxy_ip@, origin_host@) =~= post0
                + ports_post_from(ms@, 0, proxy_ip@, origin_host@));
            assert(model + ports_td_from(ms@, k + 1, proxy_ip@, origin_host@) =~= model0
                + ports_td_from(ms@, 0, proxy_ip@, origin_host@));
        }
        k = k + 1;
    }
    let ghost pre_fin = pre@;
    let ghost model_fin = model;
    post.push(s_add(false, "FORWARD", "-j OUTPOST_ACCOUNTING"));
    pre.push(s_del(false, "FORWARD", "-j OUTPOST_ACCOUNTING"));
    proof {
        model = model + seq![
            TdCmd::DeleteRule {
                nat_table: false,
                chain: "FORWARD"@,
                body: "-j OUTPOST_ACCOUNTING"@,
            },
        ];
        let n = model_fin.len() as int;
        assert(views(pre_fin).len() == pre_fin.len());
        assert(render_all(model_fin).len() == model_fin.len());
        assert(pre@.len() == n + 1);
        assert(model.len() == n + 1);
        assert(pre@[n]@ == td_render(model[n]));
        assert forall|i: int| 0 <= i < model.len() implies #[trigger] views(pre@)[i]
            == render_all(model)[i] by {
            assert(render_all(model)[i] == td_render(model[i]));
            assert(views(pre@)[i] == pre@[i]@);
            if i < n {
                assert(model[i] == model_fin[i]);
                assert(pre@[i] == pre_fin[i]);
                assert(views(pre_fin)[i] == render_all(model_fin)[i]);
            }
        }
        assert(views(pre@) =~= render_all(model));
        assert(model =~= teardown_model(proxy_ip@, origin_host@, ms@, upload, download));
        assert(views(post@) =~= post_rules(proxy_ip@, origin_host@, ms@, upload, download));
        assert(views(pre@) =~= pre_rules(proxy_ip@, origin_host@, ms@, upload, download));
    }
    Ok((post, pre))
}

// ---------------------------------------------------------------------------
// The configuration file
// ---------------------------------------------------------------------------

/// The `prefix`ed lines of `ls[i..]`, each ended by a newline.
pub open spec fn lines_from(prefix: Seq<char>, ls: Seq<Seq<char>>, i: int) -> Seq<char>
    decreases ls.len() - i,
{
    if i < 0 || i >= ls.len() {
        Seq::empty()
    } else {
        prefix + ls[i] + "\n"@ + lines_from(prefix, ls, i + 1)
    }
}

/// The on-disk tunnel configuration of §tunnel: the interface's address and
/// key, the ordered setup and teardown lists, and the peer binding with its
/// keepalive.
pub open spec fn config_text(
    origin_ip: Seq<char>,
    private_key: Seq<char>,
    post: Seq<Seq<char>>,
    pre: Seq<Seq<char>>,
    proxy_public_key: Seq<char>,
    preshared_key: Seq<char>,
    proxy_endpoint: Seq<char>,
    proxy_ip: Seq<char>,
) -> Seq<char> {
    "[Interface]\nAddress = "@ + origin_ip + "/24\nPrivateKey = "@ + private_key + "\n"@
        + lines_from("PostUp = "@, post, 0) + lines_from("PreDown = "@, pre, 0)
        + "\n[Peer]\nPublicKey = "@ + proxy_public_key + "\nPresharedKey = "@ + preshared_key
        + "\nEndpoint = "@ + proxy_endpoint + "\nAllowedIPs = "@ + proxy_ip
        + "/32\nPersistentKeepalive = 25\n"@
}

/// Appends `prefix`ed, newline-ended lines.
fn append_lines(out: &mut String, prefix: &str, ls: &Vec<String>)
    ensures
        final(out)@ == old(out)@ + lines_from(prefix@, views(ls@), 0),
{
    let ghost base = out@;
    let mut i: usize = 0;
    while i < ls.len()
        invariant
            i <= ls@.len(),
            out@ + lines_from(prefix@, views(ls@), i as int) == base + lines_from(
                prefix@,
                views(ls@),
                0,
            ),
        decreases ls@.len() - i,
    {
        out.append(prefix);
        out.append(ls[i].as_str());
        out.append("\n");
        i = i + 1;
    }
}

/// Renders the tunnel configuration file.
pub fn render_config(
    origin_ip: &str,
    private_key: &str,
    post: &Vec<String>,
    pre: &Vec<String>,
    proxy_public_key: &str,
    preshared_key: &str,
    proxy_endpoint: &str,
    proxy_ip: &str,
) -> (r: String)
    ensures
        r@ == config_text(
            origin_ip@,
            private_key@,
            views(post@),
            views(pre@),
            proxy_public_key@,
            preshared_key@,
            proxy_endpoint@,
            proxy_ip@,
        ),
{
    let mut out = "[Interface]\nAddress = ".to_owned();
    out.append(origin_ip);
    out.append("/24\nPrivateKey = ");
    out.append(private_key);
    out.append("\n");
    append_lines(&mut out, "PostUp = ", post);
    append_lines(&mut out, "PreDown = ", pre);
    out.append("\n[Peer]\nPublicKey = ");
    out.append(proxy_public_key);
    out.append("\nPresharedKey = ");
    out.append(preshared_key);
    out.append("\nEndpoint = ");
    out.append(proxy_endpoint);
    out.append("\nAllowedIPs = ");
    out.append(proxy_ip);
    out.append("/32\nPersistentKeepalive = 25\n");
    out
}

/// Renders the whole tunnel configuration for one deployment: the interface
/// section with the setup and teardown lists for these port mappings and
/// shaping limits, and the peer section binding the proxy.
///
/// Succeeds exactly when there is at least one mapping and every mapping's
/// protocol is tcp or udp.
pub fn build_tunnel_config(
    origin_keys: &WireGuardKeys,
    proxy_public_key: &str,
    proxy_endpoint: &str,
    proxy_ip: &str,
    origin_ip: &str,
    origin_host: &str,
    port_mappings: &Vec<(u16, String)>,
    upload_limit: Option<u32>,
    download_limit: Option<u32>,
) -> (r: Result<String, OutpostError>)
    ensures
        r is Ok <==> port_mappings@.len() > 0 && mappings_ok(port_mappings@),
        r is Ok ==> r->Ok_0@ == config_text(
            origin_ip@,
            origin_keys.private_key@,
            post_rules(proxy_ip@, origin_host@, port_mappings@, upload_limit, download_limit),
            pre_rules(proxy_ip@, origin_host@, port_mappings@, upload_limit, download_limit),
            proxy_public_key@,
            origin_keys.preshared_key@,
            proxy_endpoint@,
            proxy_ip@,
        ),
        r is Err ==> r->Err_0 is BadInput,
{
    let (post, pre) = build_rules(proxy_ip, origin_host, port_mappings, upload_limit, download_limit)?;
    Ok(
        render_config(
            origin_ip,
            origin_keys.private_key.as_str(),
            &post,
            &pre,
            proxy_public_key,
            origin_keys.preshared_key.as_str(),
            proxy_endpoint,
            proxy_ip,
        ),
    )
}

// ---------------------------------------------------------------------------
// Bandwidth preflight
// ---------------------------------------------------------------------------

/// The HTB scheduler module appears on its own line of the module listing.
pub open spec fn htb_listed(c: Seq<char>) -> bool {
    starts_with(c, "sch_htb "@) || has_substr(c, "\nsch_htb "@)
}

/// The intermediate-block-device module appears in the module listing.
pub open spec fn ifb_listed(c: Seq<char>) -> bool {
    starts_with(c, "ifb "@) || has_substr(c, "\nifb "@)
}

/// The mirred action module appears in the module listing.
pub open spec fn mirred_listed(c: Seq<char>) -> bool {
    starts_with(c, "act_mirred "@) || has_substr(c, "\nact_mirred "@)
}

/// Checks the kernel-module listing against the requested shaping: any limit
/// needs the HTB scheduler, a download limit additionally needs the
/// intermediate block device and the mirred action.
pub fn check_bandwidth_modules(modules: &str, upload: Option<u32>, download: Option<u32>) -> (r:
    Result<(), OutpostError>)
    ensures
        r is Ok <==> (((upload is Some || download is Some) ==> htb_listed(modules@)) && (
        download is Some ==> ifb_listed(modules@) && mirred_listed(modules@))),
        r is Err ==> r->Err_0 is ModulesMissing,
{
    if upload.is_some() || download.is_some() {
        if !(str_starts_with(modules, "sch_htb ") || str_contains(modules, "\nsch_htb ")) {
            return Err(OutpostError::ModulesMissing("sch_htb".to_owned()));
        }
    }
    if download.is_some() {
        if !(str_starts_with(modules, "ifb ") || str_contains(modules, "\nifb ")) {
            return Err(OutpostError::ModulesMissing("ifb".to_owned()));
        }
        if !(str_starts_with(modules, "act_mirred ") || str_contains(modules, "\nact_mirred ")) {
            return Err(OutpostError::ModulesMissing("act_mirred".to_owned()));
        }
    }
    Ok(())
}

} // verus!
