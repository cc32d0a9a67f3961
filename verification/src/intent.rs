//! Resolution of free text into one of the closed set of intents the agent can act on.
use vstd::prelude::*;
use vstd::utf8::encode_utf8;

use crate::model::{
    AgentIntent, AgentIntentRequest, AgentIntentResolution, AgentRoutingMode,
    AgentUnsupportedIntentReason,
};
use crate::text::{chars_of, contains_chars, contains_seq, push_char};

verus! {

/// The longest accepted request, in characters.
pub const MAX_INTENT_TEXT_LENGTH: usize = 160;

/// The longest accepted request, in UTF-8 bytes.
pub const MAX_INTENT_TEXT_BYTES: usize = MAX_INTENT_TEXT_LENGTH * 4;

/// The characters that `char::to_lowercase` yields for `c`.
pub uninterp spec fn std_lowercase(c: char) -> Seq<char>;

/// Whether `char::is_alphanumeric` holds of `c`.
pub uninterp spec fn std_is_alphanumeric(c: char) -> bool;

/// Calls `char::to_lowercase` and collects what it yields; the result is named, not described.
#[verifier::external_body]
fn lowercase_of(c: char) -> (lower: Vec<char>)
    ensures
        lower@ == std_lowercase(c),
{
    c.to_lowercase().collect()
}

/// Calls `char::is_alphanumeric`; the result is named, not described.
#[verifier::external_body]
fn is_alphanumeric(c: char) -> (alphanumeric: bool)
    ensures
        alphanumeric == std_is_alphanumeric(c),
{
    c.is_alphanumeric()
}

/// The alphanumeric characters of `s`, in order.
pub open spec fn alphanumeric_only(s: Seq<char>) -> Seq<char>
    decreases s.len(),
{
    if s.len() == 0 {
        s
    } else if std_is_alphanumeric(s.last()) {
        alphanumeric_only(s.drop_last()).push(s.last())
    } else {
        alphanumeric_only(s.drop_last())
    }
}

/// The text lowercased character by character, keeping only alphanumeric characters.
pub open spec fn normalized(s: Seq<char>) -> Seq<char>
    decreases s.len(),
{
    if s.len() == 0 {
        Seq::empty()
    } else {
        normalized(s.drop_last()) + alphanumeric_only(std_lowercase(s.last()))
    }
}

/// Lowercases the text and drops everything that is not alphanumeric (spaces, punctuation).
pub fn normalize(text: &str) -> (result: String)
    ensures
        result@ == normalized(text@),
{
    let chars = chars_of(text);
    let mut result = String::new();
    let mut i: usize = 0;
    while i < chars.len()
        invariant
            i <= chars.len(),
            chars@ == text@,
            result@ == normalized(chars@.take(i as int)),
        decreases chars.len() - i,
    {
        let lower = lowercase_of(chars[i]);
        let ghost before = result@;
        let mut j: usize = 0;
        while j < lower.len()
            invariant
                j <= lower.len(),
                result@ == before + alphanumeric_only(lower@.take(j as int)),
            decreases lower.len() - j,
        {
            assert(lower@.take(j + 1).drop_last() =~= lower@.take(j as int));
            if is_alphanumeric(lower[j]) {
                push_char(&mut result, lower[j]);
            }
            j = j + 1;
        }
        assert(lower@.take(lower.len() as int) =~= lower@);
        assert(chars@.take(i + 1).drop_last() =~= chars@.take(i as int));
        i = i + 1;
    }
    assert(chars@.take(chars.len() as int) =~= chars@);
    result
}

/// Whether one of the phrases occurs in the text.
pub open spec fn any_phrase_occurs(text: Seq<char>, phrases: Seq<&str>) -> bool {
    exists|i: int| 0 <= i < phrases.len() && contains_seq(text, #[trigger] phrases[i]@)
}

pub fn matches_any(text: &str, phrases: &[&str]) -> (matched: bool)
    ensures
        matched == any_phrase_occurs(text@, phrases@),
{
    let haystack = chars_of(text);
    let mut i: usize = 0;
    while i < phrases.len()
        invariant
            i <= phrases.len(),
            haystack@ == text@,
            forall|k: int| 0 <= k < i ==> !contains_seq(text@, #[trigger] phrases@[k]@),
        decreases phrases.len() - i,
    {
        let needle = chars_of(phrases[i]);
        if contains_chars(&haystack, &needle) {
            return true;
        }
        i = i + 1;
    }
    false
}

pub open spec fn global_phrases() -> Seq<&'static str> {
    seq!["全局模式", "切换全局", "全局路由", "globalmode", "useglobal"]
}

pub open spec fn rule_phrases() -> Seq<&'static str> {
    seq!["规则模式", "切换规则", "规则路由", "rulemode", "userule"]
}

pub open spec fn direct_phrases() -> Seq<&'static str> {
    seq!["直连模式", "切换直连", "directmode", "usedirect"]
}

pub open spec fn tun_on_phrases() -> Seq<&'static str> {
    seq!["开启tun", "打开tun", "启用tun", "enabletun", "turnontun"]
}

pub open spec fn tun_off_phrases() -> Seq<&'static str> {
    seq!["关闭tun", "禁用tun", "停用tun", "disabletun", "turnofftun"]
}

pub open spec fn proxy_on_phrases() -> Seq<&'static str> {
    seq!["开启系统代理", "打开系统代理", "启用系统代理", "enablesystemproxy", "turnonsystemproxy"]
}

pub open spec fn proxy_off_phrases() -> Seq<&'static str> {
    seq!["关闭系统代理", "禁用系统代理", "停用系统代理", "disablesystemproxy", "turnoffsystemproxy"]
}

pub open spec fn stale_proxy_phrases() -> Seq<&'static str> {
    seq!["关闭残留代理", "清理残留代理", "disablestaleproxy"]
}

pub open spec fn diagnose_phrases() -> Seq<&'static str> {
    seq!["诊断", "检查网络", "刷新诊断", "diagnose", "checknetwork"]
}

/// The first rule, in order, with a phrase that occurs in the normalized text.
pub open spec fn closed_intent(text: Seq<char>) -> Option<AgentIntent> {
    if any_phrase_occurs(text, global_phrases()) {
        Some(AgentIntent::SetRoutingMode { mode: AgentRoutingMode::Global })
    } else if any_phrase_occurs(text, rule_phrases()) {
        Some(AgentIntent::SetRoutingMode { mode: AgentRoutingMode::Rule })
    } else if any_phrase_occurs(text, direct_phrases()) {
        Some(AgentIntent::SetRoutingMode { mode: AgentRoutingMode::Direct })
    } else if any_phrase_occurs(text, tun_on_phrases()) {
        Some(AgentIntent::SetTunEnabled { enabled: true })
    } else if any_phrase_occurs(text, tun_off_phrases()) {
        Some(AgentIntent::SetTunEnabled { enabled: false })
    } else if any_phrase_occurs(text, proxy_on_phrases()) {
        Some(AgentIntent::SetSystemProxyEnabled { enabled: true })
    } else if any_phrase_occurs(text, proxy_off_phrases()) {
        Some(AgentIntent::SetSystemProxyEnabled { enabled: false })
    } else if any_phrase_occurs(text, stale_proxy_phrases()) {
        Some(AgentIntent::DisableStaleSystemProxy)
    } else if any_phrase_occurs(text, diagnose_phrases()) {
        Some(AgentIntent::Diagnose)
    } else {
        None
    }
}

pub fn resolve_closed_intent(text: &str) -> (intent: Option<AgentIntent>)
    ensures
        intent == closed_intent(text@),
{
    let global: [&str; 5] = ["全局模式", "切换全局", "全局路由", "globalmode", "useglobal"];
    assert(global@ =~= global_phrases());
    if matches_any(text, &global) {
        return Some(AgentIntent::SetRoutingMode { mode: AgentRoutingMode::Global });
    }
    let rule: [&str; 5] = ["规则模式", "切换规则", "规则路由", "rulemode", "userule"];
    assert(rule@ =~= rule_phrases());
    if matches_any(text, &rule) {
        return Some(AgentIntent::SetRoutingMode { mode: AgentRoutingMode::Rule });
    }
    let direct: [&str; 4] = ["直连模式", "切换直连", "directmode", "usedirect"];
    assert(direct@ =~= direct_phrases());
    if matches_any(text, &direct) {
        return Some(AgentIntent::SetRoutingMode { mode: AgentRoutingMode::Direct });
    }
    let tun_on: [&str; 5] = ["开启tun", "打开tun", "启用tun", "enabletun", "turnontun"];
    assert(tun_on@ =~= tun_on_phrases());
    if matches_any(text, &tun_on) {
        return Some(AgentIntent::SetTunEnabled { enabled: true });
    }
    let tun_off: [&str; 5] = ["关闭tun", "禁用tun", "停用tun", "disabletun", "turnofftun"];
    assert(tun_off@ =~= tun_off_phrases());
    if matches_any(text, &tun_off) {
        return Some(AgentIntent::SetTunEnabled { enabled: false });
    }
    let proxy_on: [&str; 5] = [
        "开启系统代理",
        "打开系统代理",
        "启用系统代理",
        "enablesystemproxy",
        "turnonsystemproxy",
    ];
    assert(proxy_on@ =~= proxy_on_phrases());
    if matches_any(text, &proxy_on) {
        return Some(AgentIntent::SetSystemProxyEnabled { enabled: true });
    }
    let proxy_off: [&str; 5] = [
        "关闭系统代理",
        "禁用系统代理",
        "停用系统代理",
        "disablesystemproxy",
        "turnoffsystemproxy",
    ];
    assert(proxy_off@ =~= proxy_off_phrases());
    if matches_any(text, &proxy_off) {
        return Some(AgentIntent::SetSystemProxyEnabled { enabled: false });
    }
    let stale: [&str; 3] = ["关闭残留代理", "清理残留代理", "disablestaleproxy"];
    assert(stale@ =~= stale_proxy_phrases());
    if matches_any(text, &stale) {
        return Some(AgentIntent::DisableStaleSystemProxy);
    }
    let diagnose: [&str; 5] = ["诊断", "检查网络", "刷新诊断", "diagnose", "checknetwork"];
    assert(diagnose@ =~= diagnose_phrases());
    if matches_any(text, &diagnose) {
        return Some(AgentIntent::Diagnose);
    }
    None
}

/// Whether the request is over either length limit.
pub open spec fn too_long(text: Seq<char>) -> bool {
    encode_utf8(text).len() > MAX_INTENT_TEXT_BYTES || text.len() > MAX_INTENT_TEXT_LENGTH
}

/// A character takes at most four bytes in UTF-8.
proof fn lemma_encoded_len_bound(s: Seq<char>)
    ensures
        encode_utf8(s).len() <= 4 * s.len(),
    decreases s.len(),
{
    if s.len() > 0 {
        lemma_encoded_len_bound(s.drop_first());
    }
}

/// How a request resolves: too long, empty once normalized, one of the closed intents, or none.
pub open spec fn intent_resolution(text: Seq<char>) -> AgentIntentResolution {
    if too_long(text) {
        AgentIntentResolution::Unsupported { reason: AgentUnsupportedIntentReason::InputTooLong }
    } else if normalized(text).len() == 0 {
        AgentIntentResolution::Unsupported { reason: AgentUnsupportedIntentReason::EmptyInput }
    } else {
        match closed_intent(normalized(text)) {
            Some(intent) => AgentIntentResolution::Resolved { intent },
            None => AgentIntentResolution::Unsupported {
                reason: AgentUnsupportedIntentReason::NoMatchingIntent,
            },
        }
    }
}

pub fn resolve_intent(request: AgentIntentRequest) -> (resolution: AgentIntentResolution)
    ensures
        resolution == intent_resolution(request.text@),
{
    let text: &str = request.text.as_str();
    if text.len() > MAX_INTENT_TEXT_BYTES || chars_of(text).len() > MAX_INTENT_TEXT_LENGTH {
        return AgentIntentResolution::Unsupported {
            reason: AgentUnsupportedIntentReason::InputTooLong,
        };
    }
    proof {
        lemma_encoded_len_bound(text@);
    }
    let normalized_text = normalize(text);
    if normalized_text.as_str().is_empty() {
        return AgentIntentResolution::Unsupported {
            reason: AgentUnsupportedIntentReason::EmptyInput,
        };
    }
    match resolve_closed_intent(normalized_text.as_str()) {
        Some(intent) => AgentIntentResolution::Resolved { intent },
        None => AgentIntentResolution::Unsupported {
            reason: AgentUnsupportedIntentReason::NoMatchingIntent,
        },
    }
}

/// The closed set of intents that free text can resolve to.
pub open spec fn is_closed_intent(intent: AgentIntent) -> bool {
    match intent {
        AgentIntent::SetRoutingMode { .. } => true,
        AgentIntent::SetTunEnabled { .. } => true,
        AgentIntent::SetSystemProxyEnabled { .. } => true,
        AgentIntent::DisableStaleSystemProxy => true,
        AgentIntent::Diagnose => true,
        _ => false,
    }
}

/// Resolution fails closed: it never asks for clarification, resolves only to the closed set
/// of intents, and refuses any over-long text whatever it says.
pub proof fn lemma_resolution_is_closed(text: Seq<char>)
    ensures
        !(intent_resolution(text) is NeedsClarification),
        intent_resolution(text) matches AgentIntentResolution::Resolved { intent } ==> is_closed_intent(
            intent,
        ),
        too_long(text) ==> intent_resolution(text) == (AgentIntentResolution::Unsupported {
            reason: AgentUnsupportedIntentReason::InputTooLong,
        }),
{
}

proof fn lemma_five_phrases(text: Seq<char>, phrases: Seq<&str>, a: &str, b: &str, c: &str, d: &str, e: &str)
    requires
        phrases == seq![a, b, c, d, e],
    ensures
        any_phrase_occurs(text, phrases) <==> (contains_seq(text, a@) || contains_seq(text, b@)
            || contains_seq(text, c@) || contains_seq(text, d@) || contains_seq(text, e@)),
{
    if contains_seq(text, a@) {
        assert(phrases[0] == a);
    }
    if contains_seq(text, b@) {
        assert(phrases[1] == b);
    }
    if contains_seq(text, c@) {
        assert(phrases[2] == c);
    }
    if contains_seq(text, d@) {
        assert(phrases[3] == d);
    }
    if contains_seq(text, e@) {
        assert(phrases[4] == e);
    }
}

proof fn lemma_four_phrases(text: Seq<char>, phrases: Seq<&str>, a: &str, b: &str, c: &str, d: &str)
    requires
        phrases == seq![a, b, c, d],
    ensures
        any_phrase_occurs(text, phrases) <==> (contains_seq(text, a@) || contains_seq(text, b@)
            || contains_seq(text, c@) || contains_seq(text, d@)),
{
    if contains_seq(text, a@) {
        assert(phrases[0] == a);
    }
    if contains_seq(text, b@) {
        assert(phrases[1] == b);
    }
    if contains_seq(text, c@) {
        assert(phrases[2] == c);
    }
    if contains_seq(text, d@) {
        assert(phrases[3] == d);
    }
}

proof fn lemma_nothing_occurs_in_empty_text(t: Seq<char>)
    requires
        t.len() == 0,
    ensures
        !asks_tun_off(t),
{
    reveal_strlit("关闭tun");
    reveal_strlit("禁用tun");
    reveal_strlit("停用tun");
    reveal_strlit("disabletun");
    reveal_strlit("turnofftun");
}

/// Whether a normalized text names a routing mode.
pub open spec fn names_routing_mode(t: Seq<char>) -> bool {
    contains_seq(t, "全局模式"@) || contains_seq(t, "切换全局"@) || contains_seq(t, "全局路由"@)
        || contains_seq(t, "globalmode"@) || contains_seq(t, "useglobal"@) || contains_seq(t, "规则模式"@)
        || contains_seq(t, "切换规则"@) || contains_seq(t, "规则路由"@) || contains_seq(t, "rulemode"@)
        || contains_seq(t, "userule"@) || contains_seq(t, "直连模式"@) || contains_seq(t, "切换直连"@)
        || contains_seq(t, "directmode"@) || contains_seq(t, "usedirect"@)
}

/// Whether a normalized text asks to turn TUN on.
pub open spec fn asks_tun_on(t: Seq<char>) -> bool {
    contains_seq(t, "开启tun"@) || contains_seq(t, "打开tun"@) || contains_seq(t, "启用tun"@)
        || contains_seq(t, "enabletun"@) || contains_seq(t, "turnontun"@)
}

/// Whether a normalized text asks to turn TUN off.
pub open spec fn asks_tun_off(t: Seq<char>) -> bool {
    contains_seq(t, "关闭tun"@) || contains_seq(t, "禁用tun"@) || contains_seq(t, "停用tun"@)
        || contains_seq(t, "disabletun"@) || contains_seq(t, "turnofftun"@)
}

/// A request to turn TUN off is resolved as turning TUN off when it names no routing mode and
/// does not ask to turn TUN on; TUN is resolved to be turned on only for a text that asks for
/// it, and off only for a text that asks for that.
pub proof fn lemma_tun_requests_resolve_to_their_direction(t: Seq<char>, request: Seq<char>)
    ensures
        asks_tun_off(t) && !asks_tun_on(t) && !names_routing_mode(t) ==> closed_intent(t) == Some(
            AgentIntent::SetTunEnabled { enabled: false },
        ),
        closed_intent(t) == Some(AgentIntent::SetTunEnabled { enabled: true }) ==> asks_tun_on(t),
        closed_intent(t) == Some(AgentIntent::SetTunEnabled { enabled: false }) ==> asks_tun_off(t),
        !too_long(request) && asks_tun_off(normalized(request)) && !asks_tun_on(normalized(request))
            && !names_routing_mode(normalized(request)) ==> intent_resolution(request)
            == (AgentIntentResolution::Resolved { intent: AgentIntent::SetTunEnabled { enabled: false } }),
        intent_resolution(request) == (AgentIntentResolution::Resolved {
            intent: AgentIntent::SetTunEnabled { enabled: true },
        }) ==> asks_tun_on(normalized(request)),
{
    lemma_five_phrases(t, global_phrases(), "全局模式", "切换全局", "全局路由", "globalmode", "useglobal");
    lemma_five_phrases(t, rule_phrases(), "规则模式", "切换规则", "规则路由", "rulemode", "userule");
    lemma_four_phrases(t, direct_phrases(), "直连模式", "切换直连", "directmode", "usedirect");
    lemma_five_phrases(t, tun_on_phrases(), "开启tun", "打开tun", "启用tun", "enabletun", "turnontun");
    lemma_five_phrases(t, tun_off_phrases(), "关闭tun", "禁用tun", "停用tun", "disabletun", "turnofftun");
    let n = normalized(request);
    lemma_five_phrases(n, global_phrases(), "全局模式", "切换全局", "全局路由", "globalmode", "useglobal");
    lemma_five_phrases(n, rule_phrases(), "规则模式", "切换规则", "规则路由", "rulemode", "userule");
    lemma_four_phrases(n, direct_phrases(), "直连模式", "切换直连", "directmode", "usedirect");
    lemma_five_phrases(n, tun_on_phrases(), "开启tun", "打开tun", "启用tun", "enabletun", "turnontun");
    lemma_five_phrases(n, tun_off_phrases(), "关闭tun", "禁用tun", "停用tun", "disabletun", "turnofftun");
    if asks_tun_off(n) {
        assert(n.len() > 0) by {
            if n.len() == 0 {
                lemma_nothing_occurs_in_empty_text(n);
            }
        }
    }
}

proof fn lemma_three_phrases(text: Seq<char>, phrases: Seq<&str>, a: &str, b: &str, c: &str)
    requires
        phrases == seq![a, b, c],
    ensures
        any_phrase_occurs(text, phrases) <==> (contains_seq(text, a@) || contains_seq(text, b@)
            || contains_seq(text, c@)),
{
    if contains_seq(text, a@) {
        assert(phrases[0] == a);
    }
    if contains_seq(text, b@) {
        assert(phrases[1] == b);
    }
    if contains_seq(text, c@) {
        assert(phrases[2] == c);
    }
}

/// Whether a normalized text asks to turn the system proxy on.
pub open spec fn asks_proxy_on(t: Seq<char>) -> bool {
    contains_seq(t, "开启系统代理"@) || contains_seq(t, "打开系统代理"@) || contains_seq(t, "启用系统代理"@)
        || contains_seq(t, "enablesystemproxy"@) || contains_seq(t, "turnonsystemproxy"@)
}

/// Whether a normalized text asks to turn the system proxy off.
pub open spec fn asks_proxy_off(t: Seq<char>) -> bool {
    contains_seq(t, "关闭系统代理"@) || contains_seq(t, "禁用系统代理"@) || contains_seq(t, "停用系统代理"@)
        || contains_seq(t, "disablesystemproxy"@) || contains_seq(t, "turnoffsystemproxy"@)
}

/// Each intent is resolved only from a text that asks for it: a routing mode from a phrase
/// naming that mode, TUN or the system proxy on or off from a phrase asking for that, the stale
/// proxy cleanup and the diagnosis from their own phrases.
pub proof fn lemma_each_intent_comes_from_its_own_phrase(t: Seq<char>)
    ensures
        closed_intent(t) == Some(AgentIntent::SetRoutingMode { mode: AgentRoutingMode::Global }) ==> (
            contains_seq(t, "全局模式"@) || contains_seq(t, "切换全局"@) || contains_seq(t, "全局路由"@)
            || contains_seq(t, "globalmode"@) || contains_seq(t, "useglobal"@)),
        closed_intent(t) == Some(AgentIntent::SetRoutingMode { mode: AgentRoutingMode::Rule }) ==> (
            contains_seq(t, "规则模式"@) || contains_seq(t, "切换规则"@) || contains_seq(t, "规则路由"@)
            || contains_seq(t, "rulemode"@) || contains_seq(t, "userule"@)),
        closed_intent(t) == Some(AgentIntent::SetRoutingMode { mode: AgentRoutingMode::Direct }) ==> (
            contains_seq(t, "直连模式"@) || contains_seq(t, "切换直连"@) || contains_seq(t, "directmode"@)
            || contains_seq(t, "usedirect"@)),
        closed_intent(t) == Some(AgentIntent::SetTunEnabled { enabled: true }) ==> asks_tun_on(t),
        closed_intent(t) == Some(AgentIntent::SetTunEnabled { enabled: false }) ==> asks_tun_off(t),
        closed_intent(t) == Some(AgentIntent::SetSystemProxyEnabled { enabled: true }) ==> asks_proxy_on(t),
        closed_intent(t) == Some(AgentIntent::SetSystemProxyEnabled { enabled: false }) ==> asks_proxy_off(t),
        closed_intent(t) == Some(AgentIntent::DisableStaleSystemProxy) ==> (contains_seq(t, "关闭残留代理"@)
            || contains_seq(t, "清理残留代理"@) || contains_seq(t, "disablestaleproxy"@)),
        closed_intent(t) == Some(AgentIntent::Diagnose) ==> (contains_seq(t, "诊断"@) || contains_seq(t, "检查网络"@)
            || contains_seq(t, "刷新诊断"@) || contains_seq(t, "diagnose"@) || contains_seq(t, "checknetwork"@)),
        closed_intent(t) is None ==> !names_routing_mode(t) && !asks_tun_on(t) && !asks_tun_off(t)
            && !asks_proxy_on(t) && !asks_proxy_off(t),
{
    lemma_five_phrases(t, global_phrases(), "全局模式", "切换全局", "全局路由", "globalmode", "useglobal");
    lemma_five_phrases(t, rule_phrases(), "规则模式", "切换规则", "规则路由", "rulemode", "userule");
    lemma_four_phrases(t, direct_phrases(), "直连模式", "切换直连", "directmode", "usedirect");
    lemma_five_phrases(t, tun_on_phrases(), "开启tun", "打开tun", "启用tun", "enabletun", "turnontun");
    lemma_five_phrases(t, tun_off_phrases(), "关闭tun", "禁用tun", "停用tun", "disabletun", "turnofftun");
    lemma_five_phrases(t, proxy_on_phrases(), "开启系统代理", "打开系统代理", "启用系统代理", "enablesystemproxy", "turnonsystemproxy");
    lemma_five_phrases(t, proxy_off_phrases(), "关闭系统代理", "禁用系统代理", "停用系统代理", "disablesystemproxy", "turnoffsystemproxy");
    lemma_three_phrases(t, stale_proxy_phrases(), "关闭残留代理", "清理残留代理", "disablestaleproxy");
    lemma_five_phrases(t, diagnose_phrases(), "诊断", "检查网络", "刷新诊断", "diagnose", "checknetwork");
}

} // verus!
