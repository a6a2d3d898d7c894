//! The stack driver's decision rules: status classification for the create
//! and delete polls, error-text classification, output extraction, the
//! progress view over the event stream, zone matching, image selection, and
//! the stack naming rule.
//!
//! The network calls themselves live outside the library; every function here
//! is a pure decision over what a poll returned.

use vstd::prelude::*;
use vstd::string::StrSliceExecFns;
use vstd::string::StringExecFns;

use crate::errors::OutpostError;
use crate::text::{
    ends_with, has_substr, starts_with, str_contains, str_ends_with, str_eq,
    str_starts_with,
};

verus! {

/// The stack statuses the driver distinguishes.
#[derive(Debug, Clone, PartialEq, Eq, Structural)]
pub enum StackStatus {
    CreateComplete,
    CreateInProgress,
    CreateFailed,
    RollbackComplete,
    RollbackFailed,
    RollbackInProgress,
    DeleteComplete,
    DeleteFailed,
    DeleteInProgress,
    Other,
}

/// What one poll of the stack produced: a status with its reason, or the
/// text of a failed call.
#[derive(Debug, Clone)]
pub enum StackPoll {
    Status { status: StackStatus, reason: String },
    CallError { message: String },
}

/// What the poll loop should do next.
#[derive(Debug, Clone)]
pub enum WaitStep {
    /// Sleep and poll again.
    Continue,
    /// The awaited terminal state was reached.
    Succeed,
    /// Stop with this error.
    Fail(OutpostError),
}

/// The failure text of a describe call that means the stack no longer exists:
/// a validation error naming a non-existent stack.
pub open spec fn stack_gone_text(msg: Seq<char>) -> bool {
    has_substr(msg, "ValidationError"@) && has_substr(msg, "does not exist"@)
}

/// Whether a failed describe call means the stack is gone.
pub fn is_stack_gone_error(msg: &str) -> (r: bool)
    ensures
        r == stack_gone_text(msg@),
{
    str_contains(msg, "ValidationError") && str_contains(msg, "does not exist")
}

/// One step of the creation wait.
///
/// `CREATE_COMPLETE` succeeds; `CREATE_IN_PROGRESS` and `DELETE_IN_PROGRESS`
/// keep polling; the terminal failure statuses fail with the stack's reason;
/// any other status fails as unexpected. A failed call means the stack was
/// auto-deleted when its text says the stack is gone — fatal during the wait —
/// and is otherwise a transient poll failure, retried on the next poll.
pub fn create_wait_step(p: &StackPoll) -> (r: WaitStep)
    ensures
        match p {
            StackPoll::Status { status, reason } => {
                &&& (r is Succeed <==> status is CreateComplete)
                &&& (r is Continue <==> (status is CreateInProgress || status is DeleteInProgress))
                &&& (r is Fail ==> ((status is CreateFailed || status is RollbackComplete
                    || status is RollbackFailed || status is RollbackInProgress
                    || status is DeleteFailed || status is DeleteComplete)
                    <==> (r->Fail_0 matches OutpostError::CloudRejected(m) && m@ == reason@)))
                &&& (r is Fail ==> (status is Other <==> (r->Fail_0
                    matches OutpostError::UnexpectedStackState(m) && m@ == reason@)))
            },
            StackPoll::CallError { message } => {
                &&& (r is Fail <==> stack_gone_text(message@))
                &&& (r is Fail ==> r->Fail_0 is StackDisappeared)
                &&& (!stack_gone_text(message@) ==> r is Continue)
            },
        },
{
    match p {
        StackPoll::Status { status, reason } => match status {
            StackStatus::CreateComplete => WaitStep::Succeed,
            StackStatus::CreateInProgress => WaitStep::Continue,
            StackStatus::DeleteInProgress => WaitStep::Continue,
            StackStatus::CreateFailed
            | StackStatus::RollbackComplete
            | StackStatus::RollbackFailed
            | StackStatus::RollbackInProgress
            | StackStatus::DeleteFailed
            | StackStatus::DeleteComplete => WaitStep::Fail(
                OutpostError::CloudRejected(reason.clone()),
            ),
            StackStatus::Other => WaitStep::Fail(
                OutpostError::UnexpectedStackState(reason.clone()),
            ),
        },
        StackPoll::CallError { message } => {
            if is_stack_gone_error(message.as_str()) {
                WaitStep::Fail(OutpostError::StackDisappeared)
            } else {
                WaitStep::Continue
            }
        },
    }
}

/// One step of the deletion wait.
///
/// `DELETE_COMPLETE` succeeds; `DELETE_IN_PROGRESS` keeps polling;
/// `DELETE_FAILED` fails with the reason; any other status fails as
/// unexpected. A failed call whose text says the stack is gone counts as
/// success during cleanup; any other call failure is retried.
pub fn delete_wait_step(p: &StackPoll) -> (r: WaitStep)
    ensures
        match p {
            StackPoll::Status { status, reason } => {
                &&& (r is Succeed <==> status is DeleteComplete)
                &&& (r is Continue <==> status is DeleteInProgress)
                &&& (r is Fail ==> (status is DeleteFailed <==> (r->Fail_0
                    matches OutpostError::CloudRejected(m) && m@ == reason@)))
                &&& (r is Fail ==> (!(status is DeleteFailed) <==> (r->Fail_0
                    matches OutpostError::UnexpectedStackState(m) && m@ == reason@)))
            },
            StackPoll::CallError { message } => {
                &&& (r is Succeed <==> stack_gone_text(message@))
                &&& (!stack_gone_text(message@) ==> r is Continue)
            },
        },
{
    match p {
        StackPoll::Status { status, reason } => match status {
            StackStatus::DeleteComplete => WaitStep::Succeed,
            StackStatus::DeleteInProgress => WaitStep::Continue,
            StackStatus::DeleteFailed => WaitStep::Fail(
                OutpostError::CloudRejected(reason.clone()),
            ),
            _ => WaitStep::Fail(OutpostError::UnexpectedStackState(reason.clone())),
        },
        StackPoll::CallError { message } => {
            if is_stack_gone_error(message.as_str()) {
                WaitStep::Succeed
            } else {
                WaitStep::Continue
            }
        },
    }
}

// ---------------------------------------------------------------------------
// Outputs
// ---------------------------------------------------------------------------

/// The first index holding the key, or `-1`.
pub open spec fn output_index(outs: Seq<(String, String)>, key: Seq<char>, i: int) -> int
    decreases outs.len() - i,
{
    if i < 0 || i >= outs.len() {
        -1
    } else if outs[i].0@ == key {
        i
    } else {
        output_index(outs, key, i + 1)
    }
}

/// Looks a stack output up by key; the first match wins.
pub fn find_output(outs: &Vec<(String, String)>, key: &str) -> (r: Option<String>)
    ensures
        r is Some <==> output_index(outs@, key@, 0) >= 0,
        r is Some ==> r->0@ == outs@[output_index(outs@, key@, 0)].1@,
{
    let mut i: usize = 0;
    while i < outs.len()
        invariant
            i <= outs@.len(),
            output_index(outs@, key@, 0) == output_index(outs@, key@, i as int),
        decreases outs@.len() - i,
    {
        if str_eq(outs[i].0.as_str(), key) {
            return Some(outs[i].1.clone());
        }
        i = i + 1;
    }
    None
}

/// Pulls the proxy's public IP and instance id out of the stack outputs.
///
/// Succeeds exactly when both outputs are present.
pub fn extract_stack_outputs(outs: &Vec<(String, String)>) -> (r: Result<
    (String, String),
    OutpostError,
>)
    ensures
        r is Ok <==> output_index(outs@, "ProxyPublicIP"@, 0) >= 0 && output_index(
            outs@,
            "ProxyInstanceId"@,
            0,
        ) >= 0,
        r is Ok ==> r->Ok_0.0@ == outs@[output_index(outs@, "ProxyPublicIP"@, 0)].1@
            && r->Ok_0.1@ == outs@[output_index(outs@, "ProxyInstanceId"@, 0)].1@,
        r is Err ==> r->Err_0 is CloudRejected,
{
    let ip = find_output(outs, "ProxyPublicIP");
    let id = find_output(outs, "ProxyInstanceId");
    match (ip, id) {
        (Some(ip), Some(id)) => Ok((ip, id)),
        _ => Err(
            OutpostError::CloudRejected(
                "stack outputs are missing ProxyPublicIP or ProxyInstanceId".to_owned(),
            ),
        ),
    }
}

// ---------------------------------------------------------------------------
// Progress view
// ---------------------------------------------------------------------------

/// One stack event, reduced to what the progress view reads.
#[derive(Debug, Clone)]
pub struct StackEvent {
    pub logical_resource_id: String,
    pub resource_status: String,
}

/// A status that marks a resource as created: it ends in `_COMPLETE` and is
/// not a deletion.
pub open spec fn is_created_status(st: Seq<char>) -> bool {
    ends_with(st, "_COMPLETE"@) && !starts_with(st, "DELETE"@)
}

/// Whether `id` occurs among the first `k` events, the stack itself excluded.
pub open spec fn id_occurs_upto(evs: Seq<StackEvent>, stack: Seq<char>, id: Seq<char>, k: int) -> bool {
    id != stack && exists|i: int|
        0 <= i < k && i < evs.len() && (#[trigger] evs[i]).logical_resource_id@ == id
}

/// Whether `id` is created by one of the first `k` events.
pub open spec fn id_created_upto(evs: Seq<StackEvent>, stack: Seq<char>, id: Seq<char>, k: int) -> bool {
    id != stack && exists|i: int|
        0 <= i < k && i < evs.len() && (#[trigger] evs[i]).logical_resource_id@ == id
            && is_created_status(evs[i].resource_status@)
}

/// The progress view over a stack's event stream: every distinct non-stack
/// resource id seen, and those already created.
pub struct StackProgress {
    /// All distinct resource ids, the stack itself excluded.
    pub seen: Vec<String>,
    /// The distinct resource ids whose status marks them created.
    pub completed: Vec<String>,
}

/// Whether `v` holds a string equal to `s`.
fn vec_contains_str(v: &Vec<String>, s: &str) -> (r: bool)
    ensures
        r == exists|i: int| 0 <= i < v@.len() && (#[trigger] v@[i])@ == s@,
{
    let mut i: usize = 0;
    while i < v.len()
        invariant
            i <= v@.len(),
            forall|m: int| 0 <= m < i ==> (#[trigger] v@[m])@ != s@,
        decreases v@.len() - i,
    {
        if str_eq(v[i].as_str(), s) {
            return true;
        }
        i = i + 1;
    }
    false
}

/// Builds the progress view from the event stream: `seen` holds each distinct
/// resource id once, `completed` each distinct created id once.
pub fn update_progress(evs: &Vec<StackEvent>, stack_name: &str) -> (r: StackProgress)
    ensures
        forall|i: int, j: int|
            0 <= i < j < r.seen@.len() ==> (#[trigger] r.seen@[i])@ != (#[trigger] r.seen@[j])@,
        forall|i: int, j: int|
            0 <= i < j < r.completed@.len() ==> (#[trigger] r.completed@[i])@ != (
            #[trigger] r.completed@[j])@,
        forall|i: int|
            0 <= i < r.seen@.len() ==> id_occurs_upto(
                evs@,
                stack_name@,
                (#[trigger] r.seen@[i])@,
                evs@.len() as int,
            ),
        forall|id: Seq<char>|
            id_occurs_upto(evs@, stack_name@, id, evs@.len() as int) ==> exists|i: int|
                0 <= i < r.seen@.len() && (#[trigger] r.seen@[i])@ == id,
        forall|i: int|
            0 <= i < r.completed@.len() ==> id_created_upto(
                evs@,
                stack_name@,
                (#[trigger] r.completed@[i])@,
                evs@.len() as int,
            ),
        forall|id: Seq<char>|
            id_created_upto(evs@, stack_name@, id, evs@.len() as int) ==> exists|i: int|
                0 <= i < r.completed@.len() && (#[trigger] r.completed@[i])@ == id,
{
    let mut seen: Vec<String> = Vec::new();
    let mut completed: Vec<String> = Vec::new();
    let mut k: usize = 0;
    while k < evs.len()
        invariant
            k <= evs@.len(),
            forall|i: int, j: int|
                0 <= i < j < seen@.len() ==> (#[trigger] seen@[i])@ != (#[trigger] seen@[j])@,
            forall|i: int, j: int|
                0 <= i < j < completed@.len() ==> (#[trigger] completed@[i])@ != (
                #[trigger] completed@[j])@,
            forall|i: int|
                0 <= i < seen@.len() ==> id_occurs_upto(
                    evs@,
                    stack_name@,
                    (#[trigger] seen@[i])@,
                    k as int,
                ),
            forall|id: Seq<char>|
                id_occurs_upto(evs@, stack_name@, id, k as int) ==> exists|i: int|
                    0 <= i < seen@.len() && (#[trigger] seen@[i])@ == id,
            forall|i: int|
                0 <= i < completed@.len() ==> id_created_upto(
                    evs@,
                    stack_name@,
                    (#[trigger] completed@[i])@,
                    k as int,
                ),
            forall|id: Seq<char>|
                id_created_upto(evs@, stack_name@, id, k as int) ==> exists|i: int|
                    0 <= i < completed@.len() && (#[trigger] completed@[i])@ == id,
        decreases evs@.len() - k,
    {
        let ev = &evs[k];
        let ghost evid = evs@[k as int].logical_resource_id@;
        let ghost seen0 = seen@;
        let ghost completed0 = completed@;
        let id = ev.logical_resource_id.as_str();
        if !str_eq(id, stack_name) {
            if !vec_contains_str(&seen, id) {
                seen.push(id.to_owned());
                assert(seen@[seen@.len() - 1]@ == evid);
            }
            assert(exists|i: int| 0 <= i < seen@.len() && (#[trigger] seen@[i])@ == evid);
            let st = ev.resource_status.as_str();
            if str_ends_with(st, "_COMPLETE") && !str_starts_with(st, "DELETE") {
                if !vec_contains_str(&completed, id) {
                    completed.push(id.to_owned());
                    assert(completed@[completed@.len() - 1]@ == evid);
                }
                assert(exists|i: int|
                    0 <= i < completed@.len() && (#[trigger] completed@[i])@ == evid);
            }
        }
        proof {
            assert(evid == evs@[k as int].logical_resource_id@);
            assert(forall|i: int| 0 <= i < seen0.len() ==> seen@[i] == seen0[i]);
            assert(forall|i: int| 0 <= i < completed0.len() ==> completed@[i] == completed0[i]);
            if evid != stack_name@ {
                assert(exists|i: int| 0 <= i < seen@.len() && (#[trigger] seen@[i])@ == evid);
                if is_created_status(evs@[k as int].resource_status@) {
                    assert(exists|i: int|
                        0 <= i < completed@.len() && (#[trigger] completed@[i])@ == evid);
                }
            }
            assert forall|id2: Seq<char>|
                #![trigger id_occurs_upto(evs@, stack_name@, id2, k + 1)]
                id_occurs_upto(evs@, stack_name@, id2, k + 1) implies exists|i: int|
                0 <= i < seen@.len() && (#[trigger] seen@[i])@ == id2 by {
                if id2 == evid {
                    assert(evid != stack_name@);
                    assert(exists|i: int| 0 <= i < seen@.len() && (#[trigger] seen@[i])@ == id2);
                } else {
                    let i0 = choose|i: int|
                        0 <= i < k + 1 && i < evs@.len() && (#[trigger] evs@[i]).logical_resource_id@
                            == id2;
                    assert(i0 != k);
                    assert(id_occurs_upto(evs@, stack_name@, id2, k as int));
                    let j0 = choose|i: int| 0 <= i < seen0.len() && (#[trigger] seen0[i])@ == id2;
                    assert(seen@[j0] == seen0[j0]);
                    assert(exists|i: int| 0 <= i < seen@.len() && (#[trigger] seen@[i])@ == id2);
                }
            }
            assert forall|id2: Seq<char>|
                #![trigger id_created_upto(evs@, stack_name@, id2, k + 1)]
                id_created_upto(evs@, stack_name@, id2, k + 1) implies exists|i: int|
                0 <= i < completed@.len() && (#[trigger] completed@[i])@ == id2 by {
                if id2 == evid && is_created_status(evs@[k as int].resource_status@) {
                    assert(evid != stack_name@);
                    assert(exists|i: int|
                        0 <= i < completed@.len() && (#[trigger] completed@[i])@ == id2);
                } else {
                    let i0 = choose|i: int|
                        0 <= i < k + 1 && i < evs@.len() && (#[trigger] evs@[i]).logical_resource_id@
                            == id2 && is_created_status(evs@[i].resource_status@);
                    assert(i0 != k);
                    assert(id_created_upto(evs@, stack_name@, id2, k as int));
                    let j0 = choose|i: int|
                        0 <= i < completed0.len() && (#[trigger] completed0[i])@ == id2;
                    assert(completed@[j0] == completed0[j0]);
                    assert(exists|i: int|
                        0 <= i < completed@.len() && (#[trigger] completed@[i])@ == id2);
                }
            }
        }
        k = k + 1;
    }
    StackProgress { seen, completed }
}

// ---------------------------------------------------------------------------
// Zone matching
// ---------------------------------------------------------------------------

/// `s` with every trailing dot removed.
pub open spec fn trim_trailing_dots(s: Seq<char>) -> Seq<char>
    decreases s.len(),
{
    if s.len() > 0 && s.last() == '.' {
        trim_trailing_dots(s.drop_last())
    } else {
        s
    }
}

/// The ingress host lies in the zone: after dropping trailing dots on both,
/// the host equals the zone name or ends with `.<zone>`.
pub open spec fn host_in_zone(host: Seq<char>, zone: Seq<char>) -> bool {
    let h = trim_trailing_dots(host);
    let z = trim_trailing_dots(zone);
    h == z || ends_with(h, "."@ + z)
}

proof fn lemma_trim_dots_range(s: Seq<char>, j: int)
    requires
        0 <= j <= s.len(),
        forall|m: int| j <= m < s.len() ==> s[m] == '.',
        j == 0 || s[j - 1] != '.',
    ensures
        trim_trailing_dots(s) == s.subrange(0, j),
    decreases s.len() - j,
{
    if j == s.len() {
        if s.len() > 0 {
        }
        assert(s.subrange(0, j) =~= s);
    } else {
        assert(s.last() == '.');
        assert(s.drop_last() =~= s.subrange(0, s.len() - 1));
        lemma_trim_dots_range(s.subrange(0, s.len() - 1), j);
        assert(s.subrange(0, s.len() - 1).subrange(0, j) =~= s.subrange(0, j));
    }
}

/// `s` up to its trailing dots.
fn trim_dots(s: &str) -> (r: String)
    ensures
        r@ == trim_trailing_dots(s@),
{
    let n = s.unicode_len();
    let mut b = n;
    while b > 0 && s.get_char(b - 1) == '.'
        invariant
            b <= n,
            n == s@.len(),
            forall|m: int| b <= m < n ==> s@[m] == '.',
        decreases b,
    {
        b = b - 1;
    }
    proof {
        lemma_trim_dots_range(s@, b as int);
    }
    s.substring_char(0, b).to_owned()
}

/// Checks that the ingress host equals the zone's domain or lies under it.
pub fn validate_zone_match(ingress_host: &str, zone_name: &str) -> (r: Result<(), OutpostError>)
    ensures
        r is Ok <==> host_in_zone(ingress_host@, zone_name@),
        r is Err ==> r->Err_0 is BadInput,
{
    proof {
        reveal_strlit(".");
    }
    let h = trim_dots(ingress_host);
    let z = trim_dots(zone_name);
    if str_eq(h.as_str(), z.as_str()) {
        return Ok(());
    }
    let mut dotted = ".".to_owned();
    dotted.append(z.as_str());
    assert(dotted@ =~= "."@ + trim_trailing_dots(zone_name@));
    if str_ends_with(h.as_str(), dotted.as_str()) {
        Ok(())
    } else {
        Err(
            OutpostError::BadInput(
                "ingress host is not a subdomain of the hosted zone's domain".to_owned(),
            ),
        )
    }
}

/// The zone id with a leading `/hostedzone/` prefix removed, repeatedly.
pub open spec fn strip_zone_prefix(s: Seq<char>) -> Seq<char>
    decreases s.len(),
{
    if starts_with(s, "/hostedzone/"@) && "/hostedzone/"@.len() > 0 {
        strip_zone_prefix(s.subrange("/hostedzone/"@.len() as int, s.len() as int))
    } else {
        s
    }
}

/// Normalizes a hosted-zone id by stripping any `/hostedzone/` prefixes.
pub fn normalize_zone_id(s: &str) -> (r: String)
    ensures
        r@ == strip_zone_prefix(s@),
{
    let mut cur = s.to_owned();
    loop
        invariant_except_break
            strip_zone_prefix(s@) == strip_zone_prefix(cur@),
        ensures
            cur@ == strip_zone_prefix(s@),
        decreases cur@.len(),
    {
        proof {
            reveal_strlit("/hostedzone/");
        }
        if str_starts_with(cur.as_str(), "/hostedzone/") {
            let n = cur.as_str().unicode_len();
            assert("/hostedzone/"@.len() == 12);
            let rest = cur.as_str().substring_char(12, n).to_owned();
            cur = rest;
        } else {
            assert(strip_zone_prefix(cur@) == cur@);
            break;
        }
    }
    cur
}

// ---------------------------------------------------------------------------
// Image selection
// ---------------------------------------------------------------------------

/// Strict lexicographic order on character sequences.
pub open spec fn lex_lt(a: Seq<char>, b: Seq<char>) -> bool
    decreases a.len(),
{
    if b.len() == 0 {
        false
    } else if a.len() == 0 {
        true
    } else if a[0] != b[0] {
        a[0] < b[0]
    } else {
        lex_lt(a.drop_first(), b.drop_first())
    }
}

/// Lexicographic comparison of two strings.
pub fn lex_less(a: &str, b: &str) -> (r: bool)
    ensures
        r == lex_lt(a@, b@),
{
    let na = a.unicode_len();
    let nb = b.unicode_len();
    let mut i: usize = 0;
    proof {
        assert(a@.subrange(0, na as int) =~= a@);
        assert(b@.subrange(0, nb as int) =~= b@);
    }
    loop
        invariant
            i <= na,
            i <= nb,
            na == a@.len(),
            nb == b@.len(),
            lex_lt(a@, b@) == lex_lt(
                a@.subrange(i as int, na as int),
                b@.subrange(i as int, nb as int),
            ),
        decreases na - i,
    {
        if i == nb {
            assert(b@.subrange(i as int, nb as int).len() == 0);
            return false;
        }
        if i == na {
            assert(a@.subrange(i as int, na as int).len() == 0);
            assert(b@.subrange(i as int, nb as int).len() > 0);
            return true;
        }
        let ca = a.get_char(i);
        let cb = b.get_char(i);
        proof {
            assert(a@.subrange(i as int, na as int)[0] == ca);
            assert(b@.subrange(i as int, nb as int)[0] == cb);
            assert(a@.subrange(i as int, na as int).drop_first() =~= a@.subrange(
                i + 1,
                na as int,
            ));
            assert(b@.subrange(i as int, nb as int).drop_first() =~= b@.subrange(
                i + 1,
                nb as int,
            ));
        }
        if ca != cb {
            return ca < cb;
        }
        i = i + 1;
    }
}

/// The index of the image with the lexicographically greatest creation date;
/// on ties, the earliest such index. `best` is the best index seen so far.
pub open spec fn newest_index_from(imgs: Seq<(String, String)>, i: int, best: int) -> int
    decreases imgs.len() - i,
{
    if i < 0 || best < 0 || i >= imgs.len() || best >= imgs.len() {
        best
    } else if lex_lt(imgs[best].1@, imgs[i].1@) {
        newest_index_from(imgs, i + 1, i)
    } else {
        newest_index_from(imgs, i + 1, best)
    }
}

/// Picks the newest image of a candidate list of `(image id, creation date)`
/// pairs: the greatest creation date, ties resolved to the earliest entry.
pub fn newest_image(imgs: &Vec<(String, String)>) -> (r: Option<String>)
    ensures
        r is Some <==> imgs@.len() > 0,
        r is Some ==> {
            let k = newest_index_from(imgs@, 1, 0);
            0 <= k < imgs@.len() && r->0@ == imgs@[k].0@
        },
{
    if imgs.len() == 0 {
        return None;
    }
    let mut best: usize = 0;
    let mut i: usize = 1;
    while i < imgs.len()
        invariant
            1 <= i <= imgs@.len(),
            best < i,
            newest_index_from(imgs@, 1, 0) == newest_index_from(imgs@, i as int, best as int),
        decreases imgs@.len() - i,
    {
        if lex_less(imgs[best].1.as_str(), imgs[i].1.as_str()) {
            best = i;
        }
        i = i + 1;
    }
    Some(imgs[best].0.clone())
}

// ---------------------------------------------------------------------------
// Stack naming
// ---------------------------------------------------------------------------

/// Dots become dashes.
pub open spec fn dots_to_dashes(s: Seq<char>) -> Seq<char> {
    s.map_values(|c: char| if c == '.' { '-' } else { c })
}

/// The stack name for an ingress host: `outpost-` plus the host with every
/// dot replaced by a dash.
pub fn stack_name_for(host: &str) -> (r: String)
    ensures
        r@ == "outpost-"@ + dots_to_dashes(host@),
{
    let n = host.unicode_len();
    let mut out = "outpost-".to_owned();
    let mut i: usize = 0;
    while i < n
        invariant
            i <= n,
            n == host@.len(),
            out@ =~= "outpost-"@ + dots_to_dashes(host@).subrange(0, i as int),
        decreases n - i,
    {
        let c = host.get_char(i);
        if c == '.' {
            out.append("-");
            proof {
                reveal_strlit("-");
            }
        } else {
            let piece = host.substring_char(i, i + 1);
            assert(piece@ =~= seq![host@[i as int]]);
            out.append(piece);
        }
        proof {
            assert(dots_to_dashes(host@)[i as int] == (if host@[i as int] == '.' {
                '-'
            } else {
                host@[i as int]
            }));
            assert(out@ =~= "outpost-"@ + dots_to_dashes(host@).subrange(0, i + 1));
        }
        i = i + 1;
    }
    proof {
        assert(dots_to_dashes(host@).subrange(0, n as int) =~= dots_to_dashes(host@));
    }
    out
}

} // verus!
