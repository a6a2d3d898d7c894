//! The statistics sampler's pure core: parsing the accounting chain's
//! counter listing, the byte formatting of the dashboard, and the
//! monotonicity of the parsed totals under growing counters.

use vstd::prelude::*;
use vstd::string::StrSliceExecFns;
use vstd::string::StringExecFns;

use crate::text::{
    all_digits, dec_rep, dec_val, find_from, is_wsp, find_char_from, parse_u64_digits, str_eq,
    u64_to_string, lemma_dec_val_nonneg,
};

verus! {

// ---------------------------------------------------------------------------
// Lines and fields
// ---------------------------------------------------------------------------

/// The lines of `s[start..]`, split on newlines.
pub open spec fn lines_from(s: Seq<char>, start: int) -> Seq<Seq<char>>
    decreases s.len() - start,
    via lines_from_dec
{
    if start < 0 || start > s.len() {
        seq![]
    } else {
        let k = find_from(s, '\n', start);
        if k >= s.len() {
            seq![s.subrange(start, s.len() as int)]
        } else {
            seq![s.subrange(start, k)] + lines_from(s, k + 1)
        }
    }
}

#[via_fn]
proof fn lines_from_dec(s: Seq<char>, start: int) {
    if 0 <= start <= s.len() {
        crate::text::lemma_find_from_bounds(s, '\n', start);
    }
}

pub open spec fn lines_of(s: Seq<char>) -> Seq<Seq<char>> {
    lines_from(s, 0)
}

/// The first whitespace index at or after `i`; the length if none.
pub open spec fn find_ws_from(s: Seq<char>, i: int) -> int
    decreases s.len() - i,
{
    if i < 0 {
        find_ws_from(s, 0)
    } else if i >= s.len() {
        s.len() as int
    } else if is_wsp(s[i]) {
        i
    } else {
        find_ws_from(s, i + 1)
    }
}

proof fn lemma_find_ws_bounds(s: Seq<char>, i: int)
    requires
        0 <= i <= s.len(),
    ensures
        i <= find_ws_from(s, i) <= s.len(),
        find_ws_from(s, i) < s.len() ==> is_wsp(s[find_ws_from(s, i)]),
        forall|m: int| i <= m < find_ws_from(s, i) ==> !is_wsp(s[m]),
    decreases s.len() - i,
{
    if i < s.len() && !is_wsp(s[i]) {
        lemma_find_ws_bounds(s, i + 1);
    }
}

/// The whitespace-separated fields of `s[i..]`.
pub open spec fn fields_from(s: Seq<char>, i: int) -> Seq<Seq<char>>
    decreases s.len() - i,
    via fields_from_dec
{
    if i < 0 || i >= s.len() {
        seq![]
    } else if is_wsp(s[i]) {
        fields_from(s, i + 1)
    } else {
        let j = find_ws_from(s, i);
        seq![s.subrange(i, j)] + fields_from(s, j)
    }
}

#[via_fn]
proof fn fields_from_dec(s: Seq<char>, i: int) {
    if 0 <= i < s.len() && !is_wsp(s[i]) {
        lemma_find_ws_bounds(s, i);
        assert(find_ws_from(s, i) == find_ws_from(s, i + 1));
    }
}

pub open spec fn fields_of(line: Seq<char>) -> Seq<Seq<char>> {
    fields_from(line, 0)
}

/// Splits a line into its whitespace-separated fields.
pub fn split_fields(line: &str) -> (r: Vec<String>)
    ensures
        r@.len() == fields_of(line@).len(),
        forall|i: int|
            0 <= i < r@.len() ==> (#[trigger] r@[i])@ == fields_of(line@)[i],
{
    let n = line.unicode_len();
    let mut out: Vec<String> = Vec::new();
    let mut p: usize = 0;
    let ghost all = fields_of(line@);
    let ghost mut done: Seq<Seq<char>> = Seq::empty();
    while p < n
        invariant
            p <= n,
            n == line@.len(),
            all == fields_of(line@),
            all =~= done + fields_from(line@, p as int),
            out@.len() == done.len(),
            forall|i: int| 0 <= i < done.len() ==> (#[trigger] out@[i])@ == done[i],
        decreases n - p,
    {
        let c = line.get_char(p);
        if c == ' ' || c == '\n' || c == '\r' || c == '\t' {
            p = p + 1;
        } else {
            let mut q = p + 1;
            while q < n && !is_field_sep(line.get_char(q))
                invariant
                    p < q <= n,
                    n == line@.len(),
                    !is_wsp(line@[p as int]),
                    forall|m: int| p <= m < q ==> !is_wsp(line@[m]),
                decreases n - q,
            {
                q = q + 1;
            }
            proof {
                crate::text::lemma_find_from_bounds(line@, ' ', 0);
                lemma_find_ws_eq(line@, p as int, q as int);
            }
            out.push(line.substring_char(p, q).to_owned());
            proof {
                done = done + seq![line@.subrange(p as int, q as int)];
            }
            p = q;
        }
    }
    proof {
        assert(done =~= all);
    }
    out
}

/// The exec twin of `is_wsp` for field separation.
fn is_field_sep(c: char) -> (r: bool)
    ensures
        r == is_wsp(c),
{
    c == ' ' || c == '\n' || c == '\r' || c == '\t'
}

proof fn lemma_find_ws_eq(s: Seq<char>, i: int, j: int)
    requires
        0 <= i <= j <= s.len(),
        forall|m: int| i <= m < j ==> !is_wsp(s[m]),
        j == s.len() || is_wsp(s[j]),
    ensures
        find_ws_from(s, i) == j,
    decreases j - i,
{
    if i < j {
        lemma_find_ws_eq(s, i + 1, j);
    }
}

// ---------------------------------------------------------------------------
// Row classification and totals
// ---------------------------------------------------------------------------

/// A counted row: at least nine fields, a parsable byte counter in the second
/// field.
pub open spec fn row_valid(f: Seq<Seq<char>>) -> bool {
    f.len() >= 9 && f[1].len() > 0 && all_digits(f[1]) && dec_val(f[1]) <= u64::MAX
}

/// A row whose traffic flows to the origin: any source, a pinned destination.
pub open spec fn row_to_origin(f: Seq<Seq<char>>) -> bool {
    row_valid(f) && f[7] == "0.0.0.0/0"@ && f[8] != "0.0.0.0/0"@
}

/// A row whose traffic flows from the origin: a pinned source, any
/// destination.
pub open spec fn row_from_origin(f: Seq<Seq<char>>) -> bool {
    row_valid(f) && f[8] == "0.0.0.0/0"@ && f[7] != "0.0.0.0/0"@
}

/// The to-origin bytes summed over the rows from index `i` on; the first two
/// lines are the listing's headers and never counted.
pub open spec fn sent_from_row(ls: Seq<Seq<char>>, i: int) -> int
    decreases ls.len() - i,
{
    if i < 0 || i >= ls.len() {
        0
    } else {
        (if i >= 2 && row_to_origin(fields_of(ls[i])) {
            dec_val(fields_of(ls[i])[1])
        } else {
            0
        }) + sent_from_row(ls, i + 1)
    }
}

/// The from-origin bytes summed over the rows from index `i` on.
pub open spec fn recv_from_row(ls: Seq<Seq<char>>, i: int) -> int
    decreases ls.len() - i,
{
    if i < 0 || i >= ls.len() {
        0
    } else {
        (if i >= 2 && row_from_origin(fields_of(ls[i])) {
            dec_val(fields_of(ls[i])[1])
        } else {
            0
        }) + recv_from_row(ls, i + 1)
    }
}

///`bytes_sent` of a listing: the to-origin total.
pub open spec fn total_sent(text: Seq<char>) -> int {
    sent_from_row(lines_of(text), 0)
}

/// `bytes_received` of a listing: the from-origin total.
pub open spec fn total_received(text: Seq<char>) -> int {
    recv_from_row(lines_of(text), 0)
}

/// Saturation at the counter width.
pub open spec fn clamp_u64(n: int) -> int {
    if n <= u64::MAX {
        n
    } else {
        u64::MAX as int
    }
}

proof fn lemma_sent_nonneg(ls: Seq<Seq<char>>, i: int)
    ensures
        sent_from_row(ls, i) >= 0,
        recv_from_row(ls, i) >= 0,
    decreases ls.len() - i,
{
    if 0 <= i < ls.len() {
        lemma_sent_nonneg(ls, i + 1);
        if i >= 2 && row_to_origin(fields_of(ls[i])) {
            lemma_dec_val_nonneg(fields_of(ls[i])[1]);
        }
        if i >= 2 && row_from_origin(fields_of(ls[i])) {
            lemma_dec_val_nonneg(fields_of(ls[i])[1]);
        }
    }
}

/// Parses the accounting chain's verbose numeric listing.
///
/// Skips the two header lines; on each remaining row of at least nine fields
/// whose byte counter parses, counts the bytes as sent when the source is
/// `0.0.0.0/0` and the destination is pinned, and as received in the mirrored
/// case. The pair is `(bytes_sent, bytes_received)`, each saturating at the
/// counter width.
pub fn parse_traffic_stats(output: &str) -> (r: (u64, u64))
    ensures
        r.0 as int == clamp_u64(total_sent(output@)),
        r.1 as int == clamp_u64(total_received(output@)),
{
    let n = output.unicode_len();
    let ghost ls = lines_of(output@);
    let mut sent: u64 = 0;
    let mut received: u64 = 0;
    let ghost mut sent_total: int = 0;
    let ghost mut recv_total: int = 0;
    let mut idx: usize = 0;
    let mut start: usize = 0;
    loop
        invariant_except_break
            start <= n,
            idx <= start,
            n == output@.len(),
            ls == lines_of(output@),
            ls =~= ls.subrange(0, idx as int) + lines_from(output@, start as int),
            idx <= ls.len(),
            sent_total + sent_from_row(ls, idx as int) == sent_from_row(ls, 0),
            recv_total + recv_from_row(ls, idx as int) == recv_from_row(ls, 0),
            sent_total >= 0,
            recv_total >= 0,
            sent as int == clamp_u64(sent_total),
            received as int == clamp_u64(recv_total),
        ensures
            sent as int == clamp_u64(sent_from_row(ls, 0)),
            received as int == clamp_u64(recv_from_row(ls, 0)),
        decreases n - start,
    {
        let k = find_char_from(output, '\n', start);
        proof {
            crate::text::lemma_find_from_bounds(output@, '\n', start as int);
            assert(lines_from(output@, start as int)[0] == output@.subrange(
                start as int,
                if k == n { n as int } else { k as int },
            ));
            assert(ls[idx as int] == output@.subrange(
                start as int,
                if k == n { n as int } else { k as int },
            ));
        }
        let line = output.substring_char(start, k);
        if idx >= 2 {
            let fields = split_fields(line);
            let ghost f = fields_of(ls[idx as int]);
            if fields.len() >= 9 {
                let blen = fields[1].as_str().unicode_len();
                proof {
                    assert(fields@[1]@ =~= fields@[1]@.subrange(0, blen as int));
                    assert(f[1] == fields@[1]@);
                }
                match parse_u64_digits(fields[1].as_str(), 0, blen) {
                    Some(b) => {
                        let to_origin = str_eq(fields[7].as_str(), "0.0.0.0/0") && !str_eq(
                            fields[8].as_str(),
                            "0.0.0.0/0",
                        );
                        let from_origin = str_eq(fields[8].as_str(), "0.0.0.0/0") && !str_eq(
                            fields[7].as_str(),
                            "0.0.0.0/0",
                        );
                        if to_origin {
                            proof {
                                sent_total = sent_total + b as int;
                            }
                            if sent > u64::MAX - b {
                                sent = u64::MAX;
                            } else {
                                sent = sent + b;
                            }
                        } else if from_origin {
                            proof {
                                recv_total = recv_total + b as int;
                            }
                            if received > u64::MAX - b {
                                received = u64::MAX;
                            } else {
                                received = received + b;
                            }
                        } else {
                            proof {
                                assert(!row_to_origin(f) && !row_from_origin(f));
                            }
                        }
                    },
                    None => {
                        proof {
                            assert(!row_valid(f));
                        }
                    },
                }
            } else {
                proof {
                    assert(!row_valid(f));
                }
            }
        }
        proof {
            lemma_sent_nonneg(ls, idx + 1);
        }
        if k == n {
            proof {
                assert(lines_from(output@, start as int) =~= seq![
                    output@.subrange(start as int, n as int),
                ]);
                assert(idx + 1 == ls.len());
                assert(sent_from_row(ls, idx + 1) == 0);
                assert(recv_from_row(ls, idx + 1) == 0);
            }
            break;
        }
        proof {
            assert(ls =~= ls.subrange(0, idx + 1) + lines_from(output@, k + 1));
        }
        start = k + 1;
        idx = idx + 1;
    }
    (sent, received)
}

// ---------------------------------------------------------------------------
// Monotone counters
// ---------------------------------------------------------------------------

/// Two listings describe the same rules when every row past the headers has
/// the same fields except the byte counter, which parses in both and does not
/// shrink.
pub open spec fn counters_grow(a: Seq<char>, b: Seq<char>) -> bool {
    let la = lines_of(a);
    let lb = lines_of(b);
    &&& la.len() == lb.len()
    &&& forall|i: int|
        2 <= i < la.len() ==> {
            let fa = fields_of(#[trigger] la[i]);
            let fb = fields_of(lb[i]);
            &&& fa.len() == fb.len()
            &&& (forall|j: int| 0 <= j < fa.len() && j != 1 ==> #[trigger] fa[j] == fb[j])
            &&& (fa.len() >= 2 ==> fa[1].len() > 0 && fb[1].len() > 0 && all_digits(fa[1])
                && all_digits(fb[1]) && dec_val(fa[1]) <= dec_val(fb[1]) && dec_val(fb[1])
                <= u64::MAX)
        }
}

/// Counters are monotone: between two samples of the accounting chain whose
/// rows are the same rules with counters that only grew, both parsed totals
/// are non-decreasing.
pub proof fn lemma_counters_monotone(a: Seq<char>, b: Seq<char>)
    requires
        counters_grow(a, b),
    ensures
        total_sent(a) <= total_sent(b),
        total_received(a) <= total_received(b),
        clamp_u64(total_sent(a)) <= clamp_u64(total_sent(b)),
        clamp_u64(total_received(a)) <= clamp_u64(total_received(b)),
{
    lemma_counters_monotone_from(a, b, 0);
}

proof fn lemma_counters_monotone_from(a: Seq<char>, b: Seq<char>, i: int)
    requires
        counters_grow(a, b),
        0 <= i,
    ensures
        sent_from_row(lines_of(a), i) <= sent_from_row(lines_of(b), i),
        recv_from_row(lines_of(a), i) <= recv_from_row(lines_of(b), i),
    decreases lines_of(a).len() - i,
{
    let la = lines_of(a);
    let lb = lines_of(b);
    if i < la.len() {
        lemma_counters_monotone_from(a, b, i + 1);
        if i >= 2 {
            let fa = fields_of(la[i]);
            let fb = fields_of(lb[i]);
            assert(row_to_origin(fa) <==> row_to_origin(fb));
            assert(row_from_origin(fa) <==> row_from_origin(fb));
        }
    }
}

// ---------------------------------------------------------------------------
// The dashboard's stats record
// ---------------------------------------------------------------------------

/// One rounded two-decimal quotient: `b / unit` scaled by 100 and rounded
/// half-up, rendered as `int.frac`.
pub open spec fn two_dec(b: nat, unit: nat) -> Seq<char> {
    let v = (b * 200 / unit + 1) / 2;
    dec_rep(v / 100) + "."@ + (if v % 100 < 10 {
        seq!['0']
    } else {
        Seq::empty()
    }) + dec_rep(v % 100)
}

/// Human-readable byte counts: plain bytes below one KB, then two decimals in
/// the largest unit that fits, up to TB.
pub open spec fn format_bytes_text(b: nat) -> Seq<char> {
    if b < 1024 {
        dec_rep(b) + " B"@
    } else if b < 1048576 {
        two_dec(b, 1024) + " KB"@
    } else if b < 1073741824 {
        two_dec(b, 1048576) + " MB"@
    } else if b < 1099511627776 {
        two_dec(b, 1073741824) + " GB"@
    } else {
        two_dec(b, 1099511627776) + " TB"@
    }
}

/// Renders `b / unit` with two rounded decimals.
fn two_dec_string(b: u64, unit: u64) -> (r: String)
    requires
        unit >= 1,
    ensures
        r@ == two_dec(b as nat, unit as nat),
{
    let v128 = ((b as u128) * 200 / (unit as u128) + 1) / 2;
    proof {
        assert((b as u128) * 200 == (b as nat) * 200) by (nonlinear_arith);
        assert((b as nat) * 200 / (unit as nat) + 1 <= (b as nat) * 200 + 1) by {
            crate::stats::lemma_div_le((b as nat) * 200, unit as nat);
        }
    }
    let whole = v128 / 100;
    let frac = v128 % 100;
    let mut out = u128_to_string(whole);
    out.append(".");
    if frac < 10 {
        out.append("0");
        proof {
            reveal_strlit("0");
            assert("0"@ =~= seq!['0']);
        }
    }
    out.append(u128_to_string(frac).as_str());
    out
}

/// Division by a positive number never grows a natural.
pub proof fn lemma_div_le(a: nat, d: nat)
    requires
        d >= 1,
    ensures
        a / d <= a,
{
    assert(a / d <= a) by (nonlinear_arith)
        requires
            d >= 1,
    ;
}

/// Renders `n` in decimal.
fn u128_to_string(n: u128) -> (s: String)
    ensures
        s@ == dec_rep(n as nat),
    decreases n,
{
    if n < 10 {
        crate::text::digit_str(n as u64).to_owned()
    } else {
        let mut s = u128_to_string(n / 10);
        s.append(crate::text::digit_str((n % 10) as u64));
        s
    }
}

/// Formats a byte count for the dashboard.
pub fn format_bytes(bytes: u64) -> (r: String)
    ensures
        r@ == format_bytes_text(bytes as nat),
{
    if bytes < 1024 {
        let mut out = u64_to_string(bytes);
        out.append(" B");
        out
    } else if bytes < 1048576 {
        let mut out = two_dec_string(bytes, 1024);
        out.append(" KB");
        out
    } else if bytes < 1073741824 {
        let mut out = two_dec_string(bytes, 1048576);
        out.append(" MB");
        out
    } else if bytes < 1099511627776 {
        let mut out = two_dec_string(bytes, 1073741824);
        out.append(" GB");
        out
    } else {
        let mut out = two_dec_string(bytes, 1099511627776);
        out.append(" TB");
        out
    }
}

/// The live counters the dashboard shows.
#[derive(Debug, Clone)]
pub struct TunnelStats {
    pub bytes_sent: u64,
    pub bytes_received: u64,
    pub bytes_sent_formatted: String,
    pub bytes_received_formatted: String,
    pub packets_sent: u64,
    pub packets_received: u64,
    pub tunnel_up: bool,
    pub uptime_seconds: u64,
}

impl Default for TunnelStats {
    /// Everything zeroed, the tunnel down, the formatted fields empty.
    fn default() -> (r: TunnelStats)
        ensures
            r.bytes_sent == 0 && r.bytes_received == 0 && r.packets_sent == 0
                && r.packets_received == 0 && !r.tunnel_up && r.uptime_seconds == 0
                && r.bytes_sent_formatted@ == Seq::<char>::empty()
                && r.bytes_received_formatted@ == Seq::<char>::empty(),
    {
        TunnelStats {
            bytes_sent: 0,
            bytes_received: 0,
            bytes_sent_formatted: String::new(),
            bytes_received_formatted: String::new(),
            packets_sent: 0,
            packets_received: 0,
            tunnel_up: false,
            uptime_seconds: 0,
        }
    }
}

impl TunnelStats {
    /// Refreshes the two formatted fields from the raw counters; nothing else
    /// changes.
    pub fn format_sizes(&mut self)
        ensures
            final(self).bytes_sent_formatted@ == format_bytes_text(old(self).bytes_sent as nat),
            final(self).bytes_received_formatted@ == format_bytes_text(
                old(self).bytes_received as nat,
            ),
            final(self).bytes_sent == old(self).bytes_sent,
            final(self).bytes_received == old(self).bytes_received,
            final(self).packets_sent == old(self).packets_sent,
            final(self).packets_received == old(self).packets_received,
            final(self).tunnel_up == old(self).tunnel_up,
            final(self).uptime_seconds == old(self).uptime_seconds,
    {
        self.bytes_sent_formatted = format_bytes(self.bytes_sent);
        self.bytes_received_formatted = format_bytes(self.bytes_received);
    }

    /// The demo-mode record: fixed counters with their formatted forms.
    pub fn example() -> (r: TunnelStats)
        ensures
            r.bytes_sent == 1234567890 && r.bytes_received == 9876543210u64 && r.packets_sent
                == 45678 && r.packets_received == 123456 && r.tunnel_up && r.uptime_seconds == 3665,
            r.bytes_sent_formatted@ == format_bytes_text(1234567890),
            r.bytes_received_formatted@ == format_bytes_text(9876543210),
    {
        let mut stats = TunnelStats {
            bytes_sent: 1234567890,
            bytes_received: 9876543210,
            bytes_sent_formatted: String::new(),
            bytes_received_formatted: String::new(),
            packets_sent: 45678,
            packets_received: 123456,
            tunnel_up: true,
            uptime_seconds: 3665,
        };
        stats.format_sizes();
        stats
    }
}

} // verus!
