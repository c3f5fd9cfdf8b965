use vstd::prelude::*;

use crate::commands::{
    is_static_command, CommandDefinition, CommandKind, CommandKindView, CommandRegistry,
    CommandView, DynamicCommand, DynamicCommandView,
};
use crate::text::{
    chars_of, ends_with, occurs_at, occurs_at_index, prefix_between, trim, trim_end, trim_end_at,
    trim_start_at,
};

verus! {

/// How long a dynamic trigger waits for more typing before it fires.
pub const DYNAMIC_DEBOUNCE_MS: u64 = 650;

#[derive(Debug, Clone, PartialEq, Eq)]
pub enum DetectionDecision {
    NoMatch,
    Matched(TriggerMatch),
    PendingDynamic(PendingDynamicTrigger),
}

#[derive(Debug, Clone, PartialEq, Eq)]
pub struct TriggerMatch {
    pub trigger_text: String,
    pub transform_input: String,
    pub command: CommandDefinition,
}

#[derive(Debug, Clone, PartialEq, Eq)]
pub struct PendingDynamicTrigger {
    pub trigger_text: String,
    pub transform_input: String,
    pub debounce_ms: u64,
}

pub struct TriggerMatchView {
    pub trigger_text: Seq<char>,
    pub transform_input: Seq<char>,
    pub command: CommandView,
}

pub struct PendingView {
    pub trigger_text: Seq<char>,
    pub transform_input: Seq<char>,
    pub debounce_ms: u64,
}

pub enum DecisionView {
    NoMatch,
    Matched(TriggerMatchView),
    PendingDynamic(PendingView),
}

impl View for TriggerMatch {
    type V = TriggerMatchView;

    open spec fn view(&self) -> TriggerMatchView {
        TriggerMatchView {
            trigger_text: self.trigger_text@,
            transform_input: self.transform_input@,
            command: self.command@,
        }
    }
}

impl View for PendingDynamicTrigger {
    type V = PendingView;

    open spec fn view(&self) -> PendingView {
        PendingView {
            trigger_text: self.trigger_text@,
            transform_input: self.transform_input@,
            debounce_ms: self.debounce_ms,
        }
    }
}

impl View for DetectionDecision {
    type V = DecisionView;

    open spec fn view(&self) -> DecisionView {
        match self {
            DetectionDecision::NoMatch => DecisionView::NoMatch,
            DetectionDecision::Matched(m) => DecisionView::Matched(m@),
            DetectionDecision::PendingDynamic(p) => DecisionView::PendingDynamic(p@),
        }
    }
}

impl TriggerMatch {
    /// An equal copy.
    pub fn duplicate(&self) -> (m: TriggerMatch)
        ensures
            m@ == self@,
    {
        TriggerMatch {
            trigger_text: self.trigger_text.clone(),
            transform_input: self.transform_input.clone(),
            command: self.command.duplicate(),
        }
    }
}

pub open spec fn translate_prefix() -> Seq<char> {
    "?translate:"@
}

pub open spec fn ask_prefix() -> Seq<char> {
    "?ask:"@
}

/// The number of backslashes that directly precede index `i` of `s`.
pub open spec fn backslashes_before(s: Seq<char>, i: int) -> nat
    decreases i,
{
    if 0 < i <= s.len() && s[i - 1] == '\\' {
        1 + backslashes_before(s, i - 1)
    } else {
        0
    }
}

/// A trigger at index `i` is escaped by an odd run of backslashes before it.
pub open spec fn escaped_at(s: Seq<char>, i: int) -> bool {
    backslashes_before(s, i) % 2 == 1
}

/// `s` ends with the trigger `t`, and that trigger is not escaped.
pub open spec fn ends_with_unescaped(s: Seq<char>, t: Seq<char>) -> bool {
    ends_with(s, t) && !escaped_at(s, s.len() - t.len())
}

/// Command `i` of the registry is a static command whose trigger ends `s`.
pub open spec fn static_candidate(reg: Seq<CommandView>, s: Seq<char>, i: int) -> bool {
    0 <= i < reg.len() && is_static_command(reg[i]) && ends_with_unescaped(s, reg[i].trigger)
}

/// Command `i` is the static match that wins: its trigger is the longest that
/// matches, and among equally long ones it was registered first.
pub open spec fn preferred_static(reg: Seq<CommandView>, s: Seq<char>, i: int) -> bool {
    &&& static_candidate(reg, s, i)
    &&& forall|j: int|
        #![trigger static_candidate(reg, s, j)]
        static_candidate(reg, s, j) ==> (reg[j].trigger.len() < reg[i].trigger.len() || (
        reg[j].trigger.len() == reg[i].trigger.len() && i <= j))
}

/// The static trigger that ends the buffer (trailing white space ignored), if any.
pub open spec fn static_detection(reg: Seq<CommandView>, buffer: Seq<char>) -> Option<
    TriggerMatchView,
> {
    let t = trim_end(buffer);
    if exists|i: int| preferred_static(reg, t, i) {
        let i = choose|i: int| preferred_static(reg, t, i);
        Some(
            TriggerMatchView {
                trigger_text: reg[i].trigger,
                transform_input: trim_end(t.take(t.len() - reg[i].trigger.len())),
                command: reg[i],
            },
        )
    } else {
        None
    }
}

/// A dynamic prefix starts at index `i` and is not escaped.
pub open spec fn is_dynamic_start(s: Seq<char>, i: int) -> bool {
    (occurs_at(s, i, translate_prefix()) || occurs_at(s, i, ask_prefix())) && !escaped_at(s, i)
}

/// The last index below `n` where an unescaped dynamic prefix starts.
pub open spec fn last_dynamic_start(s: Seq<char>, n: int) -> Option<int>
    decreases n,
{
    if n <= 0 {
        None
    } else if is_dynamic_start(s, n - 1) {
        Some(n - 1)
    } else {
        last_dynamic_start(s, n - 1)
    }
}

pub open spec fn ascii_letter(c: char) -> bool {
    ('a' as u32 <= c as u32 <= 'z' as u32) || ('A' as u32 <= c as u32 <= 'Z' as u32)
}

pub open spec fn ascii_letter_or_digit(c: char) -> bool {
    ascii_letter(c) || ('0' as u32 <= c as u32 <= '9' as u32)
}

/// The index of the first `-` at or after `i`, or the length of `s`.
pub open spec fn dash_index_from(s: Seq<char>, i: int) -> int
    decreases s.len() - i,
{
    if i < 0 || i >= s.len() || s[i] == '-' {
        i
    } else {
        dash_index_from(s, i + 1)
    }
}

pub proof fn lemma_dash_index_from(s: Seq<char>, i: int)
    requires
        0 <= i <= s.len(),
    ensures
        i <= dash_index_from(s, i) <= s.len(),
        dash_index_from(s, i) < s.len() ==> s[dash_index_from(s, i)] == '-',
        forall|j: int| i <= j < dash_index_from(s, i) ==> s[j] != '-',
    decreases s.len() - i,
{
    if i < s.len() && s[i] != '-' {
        lemma_dash_index_from(s, i + 1);
    }
}

/// The `-`-separated parts of `s` from index `start` on are each 2 to 8
/// characters long; the first part is ASCII letters, the others ASCII letters
/// or digits.
pub open spec fn lang_parts_ok(s: Seq<char>, start: int, first: bool) -> bool
    decreases s.len() - start,
{
    if 0 <= start <= s.len() {
        let k = dash_index_from(s, start);
        proof {
            lemma_dash_index_from(s, start);
        }
        &&& 2 <= k - start <= 8
        &&& forall|j: int|
            start <= j < k ==> (if first {
                ascii_letter(#[trigger] s[j])
            } else {
                ascii_letter_or_digit(s[j])
            })
        &&& (k < s.len() ==> lang_parts_ok(s, k + 1, false))
    } else {
        false
    }
}

/// The subset of BCP 47 language tags that `?translate:` accepts.
pub open spec fn is_lang_code(s: Seq<char>) -> bool {
    lang_parts_ok(s, 0, true)
}

pub open spec fn dynamic_command_view(
    trigger: Seq<char>,
    name: Seq<char>,
    command: DynamicCommandView,
) -> CommandView {
    CommandView {
        trigger,
        name,
        prompt: Seq::empty(),
        enabled: true,
        case_sensitive: true,
        raw_output: false,
        kind: CommandKindView::Dynamic(command),
    }
}

pub open spec fn translate_detection(
    param: Seq<char>,
    input: Seq<char>,
    finalize: bool,
) -> DecisionView {
    let code = trim_end(param);
    if !is_lang_code(code) {
        DecisionView::NoMatch
    } else if finalize || (param.len() > 0 && param.last() == ' ') {
        DecisionView::Matched(
            TriggerMatchView {
                trigger_text: translate_prefix() + code,
                transform_input: input,
                command: dynamic_command_view(
                    translate_prefix(),
                    "Translate"@,
                    DynamicCommandView::Translate { lang_code: code },
                ),
            },
        )
    } else {
        DecisionView::PendingDynamic(
            PendingView {
                trigger_text: translate_prefix() + code,
                transform_input: input,
                debounce_ms: DYNAMIC_DEBOUNCE_MS,
            },
        )
    }
}

pub open spec fn ask_detection(param: Seq<char>, input: Seq<char>, finalize: bool) -> DecisionView {
    let question = trim(param);
    if !(3 <= question.len() <= 256) {
        DecisionView::NoMatch
    } else if finalize {
        DecisionView::Matched(
            TriggerMatchView {
                trigger_text: ask_prefix() + question,
                transform_input: input,
                command: dynamic_command_view(
                    ask_prefix(),
                    "Ask"@,
                    DynamicCommandView::Ask { question },
                ),
            },
        )
    } else {
        DecisionView::PendingDynamic(
            PendingView {
                trigger_text: ask_prefix() + question,
                transform_input: input,
                debounce_ms: DYNAMIC_DEBOUNCE_MS,
            },
        )
    }
}

/// What the last unescaped `?translate:` or `?ask:` in the buffer asks for.
pub open spec fn dynamic_detection(s: Seq<char>, finalize: bool) -> DecisionView {
    match last_dynamic_start(s, s.len() as int) {
        None => DecisionView::NoMatch,
        Some(i) => {
            let input = trim_end(s.take(i));
            if occurs_at(s, i, translate_prefix()) {
                translate_detection(s.skip(i + translate_prefix().len()), input, finalize)
            } else {
                ask_detection(s.skip(i + ask_prefix().len()), input, finalize)
            }
        },
    }
}

/// The decision for a buffer while the user is typing: a static trigger at the
/// end wins; otherwise the last dynamic trigger decides.
pub open spec fn detection(reg: Seq<CommandView>, buffer: Seq<char>) -> DecisionView {
    match static_detection(reg, buffer) {
        Some(m) => DecisionView::Matched(m),
        None => dynamic_detection(buffer, false),
    }
}

/// Decides whether the typed buffer ends with a trigger.
pub fn detect_trigger(buffer: &str, registry: &CommandRegistry) -> (d: DetectionDecision)
    ensures
        d@ == detection(registry@, buffer@),
{
    if let Some(static_match) = detect_static(buffer, registry) {
        return DetectionDecision::Matched(static_match);
    }
    detect_dynamic(buffer, false)
}

/// Decides a dynamic trigger once its debounce has run out.
pub fn finalize_pending_dynamic(buffer: &str) -> (d: DetectionDecision)
    ensures
        d@ == dynamic_detection(buffer@, true),
{
    detect_dynamic(buffer, true)
}

/// The first `n` characters of `v`.
fn prefix_of(v: &Vec<char>, n: usize) -> (p: Vec<char>)
    requires
        n <= v@.len(),
    ensures
        p@ == v@.take(n as int),
{
    let mut p: Vec<char> = Vec::new();
    let mut i: usize = 0;
    while i < n
        invariant
            i <= n <= v@.len(),
            p@ == v@.take(i as int),
        decreases n - i,
    {
        p.push(v[i]);
        assert(v@.take(i + 1) =~= v@.take(i as int).push(v@[i as int]));
        i = i + 1;
    }
    p
}

/// Owned text of the characters `from..to` of `s`.
fn text_between(s: &str, from: usize, to: usize) -> (t: String)
    requires
        from <= to <= s@.len(),
    ensures
        t@ == s@.subrange(from as int, to as int),
{
    String::from_str(s.substring_char(from, to))
}

fn detect_static(buffer: &str, registry: &CommandRegistry) -> (m: Option<TriggerMatch>)
    ensures
        match m {
            Some(m) => static_detection(registry@, buffer@) == Some(m@),
            None => static_detection(registry@, buffer@) is None,
        },
{
    let v = chars_of(buffer);
    let t_end = trim_end_at(&v, 0, v.len());
    let t = prefix_of(&v, t_end);
    assert(v@.subrange(0, t_end as int) =~= t@);
    assert(v@.subrange(0, v@.len() as int) =~= buffer@);
    let ghost tt = t@;
    let ghost reg = registry@;
    let mut best: Option<usize> = None;
    let mut best_len: usize = 0;
    let mut j: usize = 0;
    while j < registry.len()
        invariant
            j <= reg.len(),
            reg == registry@,
            tt == t@,
            match best {
                Some(b) => {
                    &&& b < j
                    &&& static_candidate(reg, tt, b as int)
                    &&& best_len == reg[b as int].trigger.len()
                    &&& forall|k: int|
                        #![trigger static_candidate(reg, tt, k)]
                        0 <= k < j && static_candidate(reg, tt, k) ==> (reg[k].trigger.len()
                            < reg[b as int].trigger.len() || (reg[k].trigger.len()
                            == reg[b as int].trigger.len() && b <= k))
                },
                None => forall|k: int|
                    #![trigger static_candidate(reg, tt, k)]
                    0 <= k < j ==> !static_candidate(reg, tt, k),
            },
        decreases reg.len() - j,
    {
        let c = registry.get(j);
        let is_static = match c.kind {
            CommandKind::Dynamic(_) => false,
            _ => c.enabled,
        };
        if is_static {
            let trig = chars_of(c.trigger.as_str());
            if ends_with_trigger(&t, &trig) {
                let better = match best {
                    None => true,
                    Some(_) => trig.len() > best_len,
                };
                if better {
                    best = Some(j);
                    best_len = trig.len();
                }
            }
        }
        j = j + 1;
    }
    match best {
        None => {
            assert(!exists|i: int| preferred_static(reg, tt, i));
            None
        },
        Some(b) => {
            assert(preferred_static(reg, tt, b as int));
            assert forall|i: int| preferred_static(reg, tt, i) implies i == b as int by {
                assert(static_candidate(reg, tt, b as int));
            }
            let c = registry.get(b);
            let input_end = trim_end_at(&t, 0, t_end - best_len);
            assert(t@.take(t_end - best_len) =~= t@.subrange(0, t_end - best_len));
            assert(buffer@.subrange(0, input_end as int) =~= t@.subrange(0, input_end as int));
            Some(
                TriggerMatch {
                    trigger_text: c.trigger.clone(),
                    transform_input: text_between(buffer, 0, input_end),
                    command: c.duplicate(),
                },
            )
        },
    }
}

fn ends_with_trigger(buffer: &Vec<char>, trigger: &Vec<char>) -> (b: bool)
    ensures
        b == ends_with_unescaped(buffer@, trigger@),
{
    if trigger.len() > buffer.len() {
        return false;
    }
    let at = buffer.len() - trigger.len();
    let found = occurs_at_index(buffer, at, trigger);
    assert(found == ends_with(buffer@, trigger@));
    found && !is_escaped_at(buffer, at)
}

fn is_escaped_at(buffer: &Vec<char>, index: usize) -> (b: bool)
    requires
        index <= buffer@.len(),
    ensures
        b == escaped_at(buffer@, index as int),
{
    let mut count: usize = 0;
    let mut i: usize = index;
    while i > 0 && buffer[i - 1] == '\\'
        invariant
            i <= index <= buffer@.len(),
            count == index - i,
            backslashes_before(buffer@, index as int) == count + backslashes_before(
                buffer@,
                i as int,
            ),
        decreases i,
    {
        i = i - 1;
        count = count + 1;
    }
    count % 2 == 1
}

/// The start of the last unescaped dynamic prefix, and whether it is `?translate:`.
fn last_unescaped_dynamic_prefix(v: &Vec<char>, translate: &Vec<char>, ask: &Vec<char>) -> (r:
    Option<(usize, bool)>)
    requires
        translate@ == translate_prefix(),
        ask@ == ask_prefix(),
    ensures
        r is None ==> last_dynamic_start(v@, v@.len() as int) is None,
        r matches Some(p) ==> {
            &&& last_dynamic_start(v@, v@.len() as int) == Some(p.0 as int)
            &&& p.1 == occurs_at(v@, p.0 as int, translate_prefix())
            &&& p.1 || occurs_at(v@, p.0 as int, ask_prefix())
        },
{
    let mut n: usize = v.len();
    while n > 0
        invariant
            n <= v@.len(),
            translate@ == translate_prefix(),
            ask@ == ask_prefix(),
            last_dynamic_start(v@, v@.len() as int) == last_dynamic_start(v@, n as int),
        decreases n,
    {
        let i = n - 1;
        let is_translate = occurs_at_index(v, i, translate);
        let is_ask = occurs_at_index(v, i, ask);
        if (is_translate || is_ask) && !is_escaped_at(v, i) {
            return Some((i, is_translate));
        }
        n = i;
    }
    None
}

fn detect_dynamic(buffer: &str, finalize: bool) -> (d: DetectionDecision)
    ensures
        d@ == dynamic_detection(buffer@, finalize),
{
    let v = chars_of(buffer);
    let n = v.len();
    let translate = chars_of("?translate:");
    let ask = chars_of("?ask:");
    match last_unescaped_dynamic_prefix(&v, &translate, &ask) {
        None => DetectionDecision::NoMatch,
        Some((start, is_translate)) => {
            let input_end = trim_end_at(&v, 0, start);
            assert(v@.subrange(0, start as int) =~= v@.take(start as int));
            let transform_input = text_between(buffer, 0, input_end);
            if is_translate {
                detect_translate(buffer, &v, start, start + translate.len(), transform_input, finalize)
            } else {
                detect_ask(buffer, &v, start, start + ask.len(), transform_input, finalize)
            }
        },
    }
}

/// Decides `?translate:` whose parameter starts at `param_start`.
fn detect_translate(
    buffer: &str,
    v: &Vec<char>,
    start: usize,
    param_start: usize,
    transform_input: String,
    finalize: bool,
) -> (d: DetectionDecision)
    requires
        v@ == buffer@,
        occurs_at(v@, start as int, translate_prefix()),
        param_start == start + translate_prefix().len(),
    ensures
        d@ == translate_detection(
            v@.skip(param_start as int),
            transform_input@,
            finalize,
        ),
{
    let n = v.len();
    let ghost param = v@.skip(param_start as int);
    let finalizing_with_space = n > param_start && v[n - 1] == ' ';
    let code_end = trim_end_at(v, param_start, n);
    assert(v@.subrange(param_start as int, n as int) =~= param);
    let code = prefix_between(v, param_start, code_end);
    if !is_valid_bcp47_subset(&code) {
        return DetectionDecision::NoMatch;
    }
    assert(v@.subrange(start as int, code_end as int) =~= translate_prefix() + code@);
    let trigger_text = text_between(buffer, start, code_end);
    if finalize || finalizing_with_space {
        let lang_code = text_between(buffer, param_start, code_end);
        return DetectionDecision::Matched(
            TriggerMatch {
                trigger_text,
                transform_input,
                command: dynamic_command(
                    "?translate:",
                    "Translate",
                    DynamicCommand::Translate { lang_code },
                ),
            },
        );
    }
    DetectionDecision::PendingDynamic(
        PendingDynamicTrigger { trigger_text, transform_input, debounce_ms: DYNAMIC_DEBOUNCE_MS },
    )
}

/// Decides `?ask:` whose parameter starts at `param_start`.
fn detect_ask(
    buffer: &str,
    v: &Vec<char>,
    start: usize,
    param_start: usize,
    transform_input: String,
    finalize: bool,
) -> (d: DetectionDecision)
    requires
        v@ == buffer@,
        occurs_at(v@, start as int, ask_prefix()),
        param_start == start + ask_prefix().len(),
    ensures
        d@ == ask_detection(v@.skip(param_start as int), transform_input@, finalize),
{
    let n = v.len();
    let ghost param = v@.skip(param_start as int);
    let q_end = trim_end_at(v, param_start, n);
    let q_start = trim_start_at(v, param_start, q_end);
    assert(v@.subrange(param_start as int, n as int) =~= param);
    let count = q_end - q_start;
    if !(3 <= count && count <= 256) {
        return DetectionDecision::NoMatch;
    }
    let question = text_between(buffer, q_start, q_end);
    let prefix = text_between(buffer, start, param_start);
    assert(v@.subrange(start as int, param_start as int) =~= ask_prefix());
    let trigger_text = prefix.concat(question.as_str());
    if finalize {
        return DetectionDecision::Matched(
            TriggerMatch {
                trigger_text,
                transform_input,
                command: dynamic_command("?ask:", "Ask", DynamicCommand::Ask { question }),
            },
        );
    }
    DetectionDecision::PendingDynamic(
        PendingDynamicTrigger { trigger_text, transform_input, debounce_ms: DYNAMIC_DEBOUNCE_MS },
    )
}

fn dynamic_command(trigger: &str, name: &str, command: DynamicCommand) -> (c: CommandDefinition)
    ensures
        c@ == dynamic_command_view(trigger@, name@, command@),
{
    CommandDefinition {
        trigger: String::from_str(trigger),
        name: String::from_str(name),
        prompt: String::new(),
        enabled: true,
        case_sensitive: true,
        raw_output: false,
        kind: CommandKind::Dynamic(command),
    }
}

pub(crate) fn is_ascii_alpha(c: char) -> (b: bool)
    ensures
        b == ascii_letter(c),
{
    ('a' <= c && c <= 'z') || ('A' <= c && c <= 'Z')
}

fn is_ascii_alnum(c: char) -> (b: bool)
    ensures
        b == ascii_letter_or_digit(c),
{
    is_ascii_alpha(c) || ('0' <= c && c <= '9')
}

fn is_valid_bcp47_subset(code: &Vec<char>) -> (b: bool)
    ensures
        b == is_lang_code(code@),
{
    lang_parts_from(code, 0, true)
}

fn lang_parts_from(code: &Vec<char>, start: usize, first: bool) -> (b: bool)
    requires
        start <= code@.len(),
    ensures
        b == lang_parts_ok(code@, start as int, first),
    decreases code@.len() - start,
{
    proof {
        lemma_dash_index_from(code@, start as int);
    }
    let mut k: usize = start;
    while k < code.len() && code[k] != '-'
        invariant
            start <= k <= code@.len(),
            dash_index_from(code@, start as int) == dash_index_from(code@, k as int),
        decreases code.len() - k,
    {
        k = k + 1;
    }
    if k - start < 2 || k - start > 8 {
        return false;
    }
    let mut j: usize = start;
    while j < k
        invariant
            start <= j <= k <= code@.len(),
            k == dash_index_from(code@, start as int),
            forall|i: int|
                start <= i < j ==> (if first {
                    ascii_letter(#[trigger] code@[i])
                } else {
                    ascii_letter_or_digit(code@[i])
                }),
        decreases k - j,
    {
        let ok = if first {
            is_ascii_alpha(code[j])
        } else {
            is_ascii_alnum(code[j])
        };
        if !ok {
            return false;
        }
        j = j + 1;
    }
    if k < code.len() {
        lang_parts_from(code, k + 1, false)
    } else {
        true
    }
}

} // verus!

verus! {

/// Once its debounce has run out, a dynamic trigger either fires or is no
/// match: finalizing never leaves it pending.
pub proof fn lemma_finalized_never_pending(s: Seq<char>)
    ensures
        !(dynamic_detection(s, true) is PendingDynamic),
{
}

/// While typing, `?ask:` never fires at once: with a question it waits for
/// the debounce.
pub proof fn lemma_ask_waits_while_typing(param: Seq<char>, input: Seq<char>)
    ensures
        !(ask_detection(param, input, false) is Matched),
{
}

} // verus!

verus! {

/// A static trigger preceded by an odd run of backslashes never matches.
pub proof fn lemma_escaped_trigger_never_matches(reg: Seq<CommandView>, buffer: Seq<char>, i: int)
    requires
        0 <= i < reg.len(),
        escaped_at(trim_end(buffer), trim_end(buffer).len() - reg[i].trigger.len()),
    ensures
        !static_candidate(reg, trim_end(buffer), i),
{
}

/// The text a match hands to the transformation never ends in white space.
pub proof fn lemma_match_input_is_trimmed(reg: Seq<CommandView>, buffer: Seq<char>)
    ensures
        detection(reg, buffer) matches DecisionView::Matched(m) ==> trim_end(m.transform_input)
            == m.transform_input,
        dynamic_detection(buffer, true) matches DecisionView::Matched(m) ==> trim_end(
            m.transform_input,
        ) == m.transform_input,
{
    let t = trim_end(buffer);
    if exists|i: int| preferred_static(reg, t, i) {
        let i = choose|i: int| preferred_static(reg, t, i);
        crate::text::lemma_trim_end_idempotent(t.take(t.len() - reg[i].trigger.len()));
    }
    match last_dynamic_start(buffer, buffer.len() as int) {
        Some(i) => crate::text::lemma_trim_end_idempotent(buffer.take(i)),
        None => {},
    }
}

/// Among the commands before index `n`, command `k` is a static candidate
/// with the longest trigger, registered first on a tie.
pub open spec fn best_candidate_below(reg: Seq<CommandView>, s: Seq<char>, n: int, k: int) -> bool {
    &&& 0 <= k < n
    &&& static_candidate(reg, s, k)
    &&& forall|j: int|
        #![trigger static_candidate(reg, s, j)]
        0 <= j < n && static_candidate(reg, s, j) ==> (reg[j].trigger.len() < reg[k].trigger.len()
            || (reg[j].trigger.len() == reg[k].trigger.len() && k <= j))
}

proof fn lemma_best_candidate_below(reg: Seq<CommandView>, s: Seq<char>, n: int, c: int)
    requires
        0 <= c < n <= reg.len(),
        static_candidate(reg, s, c),
    ensures
        exists|k: int| best_candidate_below(reg, s, n, k),
    decreases n,
{
    let m = n - 1;
    if exists|j: int| 0 <= j < m && static_candidate(reg, s, j) {
        let j = choose|j: int| 0 <= j < m && static_candidate(reg, s, j);
        lemma_best_candidate_below(reg, s, m, j);
        let k = choose|k: int| best_candidate_below(reg, s, m, k);
        if static_candidate(reg, s, m) && reg[m].trigger.len() > reg[k].trigger.len() {
            assert(best_candidate_below(reg, s, n, m));
        } else {
            assert(best_candidate_below(reg, s, n, k));
        }
    } else {
        assert(c == m);
        assert(best_candidate_below(reg, s, n, m));
    }
}

/// A static trigger that ends the buffer (trailing white space aside) and is
/// not escaped always gives a match, whatever dynamic trigger the buffer also
/// holds: the match is for the longest such trigger (registered first on a
/// tie), and hands on the text before it without trailing white space.
pub proof fn lemma_static_candidate_matches(reg: Seq<CommandView>, buffer: Seq<char>, i: int)
    requires
        static_candidate(reg, trim_end(buffer), i),
    ensures
        detection(reg, buffer) matches DecisionView::Matched(m) && ({
            let t = trim_end(buffer);
            exists|k: int|
                #![trigger preferred_static(reg, t, k)]
                preferred_static(reg, t, k) && m.trigger_text == reg[k].trigger && m.command
                    == reg[k] && m.transform_input == trim_end(t.take(t.len() - reg[k].trigger.len()))
                    && reg[k].trigger.len() >= reg[i].trigger.len()
        }),
{
    let t = trim_end(buffer);
    lemma_best_candidate_below(reg, t, reg.len() as int, i);
    let k = choose|k: int| best_candidate_below(reg, t, reg.len() as int, k);
    assert(preferred_static(reg, t, k));
    let c = choose|c: int| preferred_static(reg, t, c);
    assert(preferred_static(reg, t, c));
    assert(static_candidate(reg, t, i));
}

/// A language part of 2 to 8 ASCII letters, from index `start` to the end of
/// `s`, is a complete list of language parts, first or not.
proof fn lemma_last_lang_part(s: Seq<char>, start: int, first: bool)
    requires
        0 <= start,
        2 <= s.len() - start <= 8,
        forall|j: int| start <= j < s.len() ==> ascii_letter_or_digit(#[trigger] s[j]),
        first ==> forall|j: int| start <= j < s.len() ==> ascii_letter(#[trigger] s[j]),
    ensures
        lang_parts_ok(s, start, first),
{
    lemma_dash_index_from(s, start);
    let k = dash_index_from(s, start);
    if k < s.len() {
        assert(ascii_letter_or_digit(s[k]));
    }
}

/// Every language code of 2 to 8 ASCII letters is accepted: `english` as
/// much as `en`.
pub proof fn lemma_letter_code_is_lang_code(code: Seq<char>)
    requires
        2 <= code.len() <= 8,
        forall|j: int| 0 <= j < code.len() ==> ascii_letter(#[trigger] code[j]),
    ensures
        is_lang_code(code),
{
    lemma_last_lang_part(code, 0, true);
}

/// A language of 2 to 8 ASCII letters with one subtag of 2 to 8 ASCII
/// letters or digits, joined by `-` (such as `zh-Hant` or `es-419`), is
/// accepted.
pub proof fn lemma_tagged_code_is_lang_code(language: Seq<char>, subtag: Seq<char>)
    requires
        2 <= language.len() <= 8,
        forall|j: int| 0 <= j < language.len() ==> ascii_letter(#[trigger] language[j]),
        2 <= subtag.len() <= 8,
        forall|j: int| 0 <= j < subtag.len() ==> ascii_letter_or_digit(#[trigger] subtag[j]),
    ensures
        is_lang_code(language + seq!['-'] + subtag),
{
    let code = language + seq!['-'] + subtag;
    let n = language.len() as int;
    lemma_dash_index_from(code, 0);
    assert(code[n] == '-');
    assert(dash_index_from(code, 0) == n) by {
        let k = dash_index_from(code, 0);
        if k < n {
            assert(code[k] == language[k]);
            assert(ascii_letter(language[k]));
        }
    }
    assert forall|j: int| n + 1 <= j < code.len() implies ascii_letter_or_digit(#[trigger] code[j]) by {
        assert(code[j] == subtag[j - n - 1]);
    }
    lemma_last_lang_part(code, n + 1, false);
    assert forall|j: int| 0 <= j < n implies ascii_letter(#[trigger] code[j]) by {
        assert(code[j] == language[j]);
    }
}

/// `?translate:` with a code of 2 to 8 ASCII letters followed by a space
/// fires at once, for that language, on the text before the trigger.
pub proof fn lemma_translate_letter_code_fires(code: Seq<char>, input: Seq<char>)
    requires
        2 <= code.len() <= 8,
        forall|j: int| 0 <= j < code.len() ==> ascii_letter(#[trigger] code[j]),
    ensures
        translate_detection(code.push(' '), input, false) == DecisionView::Matched(
            TriggerMatchView {
                trigger_text: translate_prefix() + code,
                transform_input: input,
                command: dynamic_command_view(
                    translate_prefix(),
                    "Translate"@,
                    DynamicCommandView::Translate { lang_code: code },
                ),
            },
        ),
{
    lemma_letter_code_is_lang_code(code);
    crate::text::lemma_trim_end_push_white_space(code, ' ');
    assert(!crate::text::is_white_space(code.last())) by {
        assert(ascii_letter(code[code.len() - 1]));
    }
    assert(trim_end(code) == code);
}

/// No unescaped dynamic prefix starts at or after index `from` below `n`
/// when no `?` stands there.
proof fn lemma_no_dynamic_start_above(s: Seq<char>, from: int, n: int)
    requires
        0 <= from <= n <= s.len(),
        forall|j: int| from <= j < n ==> s[j] != '?',
    ensures
        last_dynamic_start(s, n) == last_dynamic_start(s, from),
    decreases n - from,
{
    if n > from {
        reveal_strlit("?translate:");
        reveal_strlit("?ask:");
        assert(!is_dynamic_start(s, n - 1)) by {
            if occurs_at(s, n - 1, translate_prefix()) {
                assert(s.subrange(n - 1, n - 1 + translate_prefix().len())[0] == s[n - 1]);
            }
            if occurs_at(s, n - 1, ask_prefix()) {
                assert(s.subrange(n - 1, n - 1 + ask_prefix().len())[0] == s[n - 1]);
            }
        }
        lemma_no_dynamic_start_above(s, from, n - 1);
    }
}

/// Typed text without `?` and not ending in a backslash, followed by
/// `?translate:`, a code of 2 to 8 ASCII letters and a space, is a
/// translation into that language of the text (without its trailing white
/// space), as soon as the space is typed.
pub proof fn lemma_typed_translate_fires(input: Seq<char>, code: Seq<char>)
    requires
        2 <= code.len() <= 8,
        forall|j: int| 0 <= j < code.len() ==> ascii_letter(#[trigger] code[j]),
        forall|j: int| 0 <= j < input.len() ==> input[j] != '?',
        input.len() > 0 ==> input.last() != '\\',
    ensures
        dynamic_detection(input + translate_prefix() + code.push(' '), false)
            == DecisionView::Matched(
            TriggerMatchView {
                trigger_text: translate_prefix() + code,
                transform_input: trim_end(input),
                command: dynamic_command_view(
                    translate_prefix(),
                    "Translate"@,
                    DynamicCommandView::Translate { lang_code: code },
                ),
            },
        ),
{
    reveal_strlit("?translate:");
    let p = translate_prefix();
    let s = input + p + code.push(' ');
    let i = input.len() as int;
    assert forall|j: int| i + 1 <= j < s.len() implies s[j] != '?' by {
        if j < i + p.len() {
            assert(s[j] == p[j - i]);
        } else if j < s.len() - 1 {
            assert(s[j] == code[j - i - p.len()]);
            assert(ascii_letter(code[j - i - p.len()]));
        }
    }
    lemma_no_dynamic_start_above(s, i + 1, s.len() as int);
    assert(s.subrange(i, i + p.len()) =~= p);
    assert(backslashes_before(s, i) == 0) by {
        if i > 0 {
            assert(s[i - 1] == input.last());
        }
    }
    assert(is_dynamic_start(s, i));
    assert(last_dynamic_start(s, i + 1) == Some(i));
    assert(s.take(i) =~= input);
    assert(s.skip(i + p.len()) =~= code.push(' '));
    lemma_translate_letter_code_fires(code, trim_end(input));
}

} // verus!
