//! Live-reload assets and script injection: the fixed script tag that
//! special responses carry when live mode is on, the embedded client
//! script, and the notification payload sent to reload connections.

use vstd::prelude::*;
use vstd::string::*;
use crate::fanout::RecvOutcome;

verus! {

/// What a reload connection's loop does after one receive attempt.
#[derive(Clone, Copy, Debug, PartialEq, Eq, Structural)]
pub enum LiveAction {
    SendPayload,
    Wait,
    Stop,
}

/// One iteration of a reload connection's loop: a signal is forwarded
/// as the notification payload, and a lag is treated exactly the same
/// way, since either means at least one change occurred; a closed
/// channel ends the connection.
pub fn live_step(r: &RecvOutcome) -> (a: LiveAction)
    ensures
        a is SendPayload <==> (r is Signal || r is Lagged),
        a is Stop <==> r is Closed,
        a is Wait <==> r is Pending,
{
    match r {
        RecvOutcome::Signal => LiveAction::SendPayload,
        RecvOutcome::Lagged => LiveAction::SendPayload,
        RecvOutcome::Pending => LiveAction::Wait,
        RecvOutcome::Closed => LiveAction::Stop,
    }
}

/// The tag appended to special responses when live mode is on.
pub open spec fn script_tag() -> Seq<char> {
    "\n<script src=\"/_webhere_live.js\"></script>"@
}

/// The payload a reload connection sends when the tree changed.
pub open spec fn reload_payload_spec() -> Seq<char> {
    "server_files_changed"@
}

/// The script tag as a string slice.
pub fn live_script_tag() -> (r: &'static str)
    ensures
        r@ == script_tag(),
{
    "\n<script src=\"/_webhere_live.js\"></script>"
}

/// The payload as a string slice.
pub fn reload_payload() -> (r: &'static str)
    ensures
        r@ == reload_payload_spec(),
{
    "server_files_changed"
}

/// The client-side script served at the reload asset path: it opens
/// the reload connection and reloads the page when the notification
/// payload arrives.
pub fn live_script_content() -> &'static str {
    "const ws = new WebSocket(`ws://${location.host}/_webhere_live_ws`);\nws.onmessage = (ev) => {\n  if (ev.data === 'server_files_changed') {\n    location.reload();\n  }\n};\n"
}

/// A page body, with the reload script tag appended exactly when live
/// mode is on; with live mode off the content is returned unchanged.
pub fn page_with_live(content: String, live: bool) -> (r: String)
    ensures
        live ==> r@ == content@ + script_tag(),
        !live ==> r@ == content@,
{
    let mut page = content;
    if live {
        page.append(live_script_tag());
    }
    page
}

/// The pattern `pat` occurs in `s` at position `i`.
pub open spec fn occurs_at(s: Seq<char>, pat: Seq<char>, i: int) -> bool {
    0 <= i && i + pat.len() <= s.len() && s.subrange(i, i + pat.len() as int) == pat
}

/// Every character of `t` from position `k` on differs from a newline.
spec fn no_newline_from(t: Seq<char>, k: int) -> bool
    decreases t.len() - k,
{
    if k < 0 || k >= t.len() {
        true
    } else {
        t[k] != '\n' && no_newline_from(t, k + 1)
    }
}

proof fn lemma_no_newline_at(t: Seq<char>, k0: int, k: int)
    requires
        no_newline_from(t, k0),
        0 <= k0 <= k < t.len(),
    ensures
        t[k] != '\n',
    decreases k - k0,
{
    if k0 < k {
        lemma_no_newline_at(t, k0 + 1, k);
    }
}

/// With live mode on, the rendered page holds exactly one occurrence of
/// the script tag, and it stands at the very end: the part before it is
/// byte-identical to the content handed in. (With live mode off the page
/// is the content itself, so it holds as many occurrences as the
/// content did: none, under this precondition.)
pub proof fn lemma_appended_tag_unique(content: Seq<char>)
    requires
        forall|i: int| !occurs_at(content, script_tag(), i),
    ensures
        occurs_at(content + script_tag(), script_tag(), content.len() as int),
        forall|i: int|
            i != content.len() as int ==> !occurs_at(content + script_tag(), script_tag(), i),
{
    let t = script_tag();
    let la = t.len() as int;
    let clen = content.len() as int;
    let r = content + t;
    reveal_strlit("\n<script src=\"/_webhere_live.js\"></script>");
    assert(t[0] == '\n');
    assert(no_newline_from(t, 1)) by {
        reveal_with_fuel(no_newline_from, 45);
    }
    assert(r.subrange(clen, clen + la) =~= t);
    assert forall|i: int| i != clen implies !occurs_at(r, t, i) by {
        if 0 <= i && i + la <= r.len() && r.subrange(i, i + la) == t {
            if i + la <= clen {
                assert(r.subrange(i, i + la) =~= content.subrange(i, i + la));
                assert(occurs_at(content, t, i));
                assert(false);
            } else {
                // the occurrence would straddle the boundary, so the
                // tag's leading newline would recur inside the tag
                let m = i + la - clen;
                assert(0 < m < la);
                assert(t[la - m] == r.subrange(i, i + la)[la - m]);
                assert(r.subrange(i, i + la)[la - m] == r[clen]);
                assert(r[clen] == t[0]);
                lemma_no_newline_at(t, 1, la - m);
                assert(false);
            }
        }
    }
}

} // verus!
