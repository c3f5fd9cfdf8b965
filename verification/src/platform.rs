use vstd::prelude::*;

use crate::text::{copy_opt_text, opt_text, same_text};

verus! {

/// The application that has keyboard focus.
#[derive(Debug, Clone, PartialEq, Eq)]
pub struct ForegroundApp {
    pub app_id: String,
    pub window_id: Option<String>,
    pub display_name: Option<String>,
    pub secure_input: bool,
    pub elevated: bool,
}

pub struct ForegroundAppView {
    pub app_id: Seq<char>,
    pub window_id: Option<Seq<char>>,
    pub display_name: Option<Seq<char>>,
    pub secure_input: bool,
    pub elevated: bool,
}

impl View for ForegroundApp {
    type V = ForegroundAppView;

    open spec fn view(&self) -> ForegroundAppView {
        ForegroundAppView {
            app_id: self.app_id@,
            window_id: opt_text(self.window_id),
            display_name: opt_text(self.display_name),
            secure_input: self.secure_input,
            elevated: self.elevated,
        }
    }
}

impl ForegroundApp {
    /// An equal copy.
    pub fn duplicate(&self) -> (a: ForegroundApp)
        ensures
            a@ == self@,
    {
        ForegroundApp {
            app_id: self.app_id.clone(),
            window_id: copy_opt_text(&self.window_id),
            display_name: copy_opt_text(&self.display_name),
            secure_input: self.secure_input,
            elevated: self.elevated,
        }
    }
}

#[derive(Debug, Clone, Copy, PartialEq, Eq, Structural)]
pub enum PlatformContextError {
    Unavailable,
    CommandFailed,
    InvalidOutput,
}

/// Tells which application has focus.
pub trait ForegroundAppProvider {
    fn foreground_app(&mut self) -> Result<ForegroundApp, PlatformContextError>;
}

/// A provider that always reports the same application.
#[derive(Debug, Clone)]
pub struct StaticForegroundAppProvider {
    app: ForegroundApp,
}

impl StaticForegroundAppProvider {
    pub fn new(app: ForegroundApp) -> (p: StaticForegroundAppProvider)
        ensures
            p.app()@ == app@,
    {
        StaticForegroundAppProvider { app }
    }

    pub closed spec fn app(&self) -> ForegroundApp {
        self.app
    }
}

impl ForegroundAppProvider for StaticForegroundAppProvider {
    fn foreground_app(&mut self) -> (r: Result<ForegroundApp, PlatformContextError>)
        ensures
            final(self).app() == old(self).app(),
            r matches Ok(a) && a@ == old(self).app()@,
    {
        Ok(self.app.duplicate())
    }
}

/// Why an operation may or may not start in the focused application.
#[derive(Debug, Clone, Copy, PartialEq, Eq, Structural)]
pub enum OperationGateDecision {
    Allow,
    Disabled,
    BlockedSecureInput,
    BlockedElevated,
    BlockedExcluded,
}

/// The applications in which nothing may be transformed.
#[derive(Debug, Clone, PartialEq, Eq)]
pub struct ExclusionConfig {
    pub apps: Vec<String>,
}

/// The applications excluded out of the box: password managers.
pub open spec fn default_excluded_apps() -> Seq<Seq<char>> {
    seq![
        "1Password.exe"@,
        "1Password"@,
        "com.1password.1password"@,
        "KeePass.exe"@,
        "KeePassXC.exe"@,
        "org.keepassxc.keepassxc"@,
        "Bitwarden.exe"@,
        "com.bitwarden.desktop"@,
        "LastPass.exe"@,
    ]
}

pub open spec fn texts_of(v: Seq<String>) -> Seq<Seq<char>> {
    v.map_values(|s: String| s@)
}

impl Default for ExclusionConfig {
    fn default() -> (c: ExclusionConfig)
        ensures
            texts_of(c.apps@) == default_excluded_apps(),
    {
        let mut apps: Vec<String> = Vec::new();
        apps.push(String::from_str("1Password.exe"));
        apps.push(String::from_str("1Password"));
        apps.push(String::from_str("com.1password.1password"));
        apps.push(String::from_str("KeePass.exe"));
        apps.push(String::from_str("KeePassXC.exe"));
        apps.push(String::from_str("org.keepassxc.keepassxc"));
        apps.push(String::from_str("Bitwarden.exe"));
        apps.push(String::from_str("com.bitwarden.desktop"));
        apps.push(String::from_str("LastPass.exe"));
        assert(texts_of(apps@) =~= default_excluded_apps());
        ExclusionConfig { apps }
    }
}

/// Matches application ids against a list of excluded ones.
#[derive(Debug, Clone)]
pub struct ExclusionMatcher {
    apps: Vec<String>,
}

impl View for ExclusionMatcher {
    type V = Seq<Seq<char>>;

    closed spec fn view(&self) -> Seq<Seq<char>> {
        texts_of(self.apps@)
    }
}

/// A copy of a list of texts.
fn copy_texts(v: &Vec<String>) -> (r: Vec<String>)
    ensures
        texts_of(r@) == texts_of(v@),
{
    let mut r: Vec<String> = Vec::new();
    let mut i: usize = 0;
    while i < v.len()
        invariant
            i <= v@.len(),
            texts_of(r@) == texts_of(v@.take(i as int)),
        decreases v.len() - i,
    {
        r.push(v[i].clone());
        assert(texts_of(v@.take(i + 1)) =~= texts_of(v@.take(i as int)).push(v@[i as int]@));
        assert(texts_of(r@) =~= texts_of(v@.take(i as int)).push(v@[i as int]@));
        i = i + 1;
    }
    assert(v@.take(v@.len() as int) =~= v@);
    r
}

impl ExclusionMatcher {
    pub fn new(apps: Vec<String>) -> (m: ExclusionMatcher)
        ensures
            m@ == texts_of(apps@),
    {
        ExclusionMatcher { apps }
    }

    pub fn from_config(config: &ExclusionConfig) -> (m: ExclusionMatcher)
        ensures
            m@ == texts_of(config.apps@),
    {
        ExclusionMatcher { apps: copy_texts(&config.apps) }
    }

    /// Whether `app_id` is one of the excluded applications.
    pub fn matches(&self, app_id: &str) -> (b: bool)
        ensures
            b == self@.contains(app_id@),
    {
        let mut i: usize = 0;
        while i < self.apps.len()
            invariant
                i <= self.apps@.len(),
                forall|j: int| 0 <= j < i ==> self.apps@[j]@ != app_id@,
            decreases self.apps.len() - i,
        {
            if same_text(self.apps[i].as_str(), app_id) {
                assert(self@[i as int] == app_id@);
                return true;
            }
            i = i + 1;
        }
        assert(!self@.contains(app_id@)) by {
            if self@.contains(app_id@) {
                let j = choose|j: int| 0 <= j < self@.len() && self@[j] == app_id@;
                assert(self.apps@[j]@ == app_id@);
            }
        }
        false
    }
}

/// Decides whether an operation may start in the focused application.
#[derive(Debug, Clone)]
pub struct OperationGate {
    enabled: bool,
    exclusions: ExclusionMatcher,
}

/// The decision for an application. Nothing may run while operations are
/// turned off. Secure input comes next, then elevated and then excluded
/// applications; any other application is allowed.
pub open spec fn gate_decision(
    enabled: bool,
    excluded: Seq<Seq<char>>,
    app: ForegroundAppView,
) -> OperationGateDecision {
    if !enabled {
        OperationGateDecision::Disabled
    } else if app.secure_input {
        OperationGateDecision::BlockedSecureInput
    } else if app.elevated {
        OperationGateDecision::BlockedElevated
    } else if excluded.contains(app.app_id) {
        OperationGateDecision::BlockedExcluded
    } else {
        OperationGateDecision::Allow
    }
}

impl OperationGate {
    pub fn new(enabled: bool, exclusions: ExclusionMatcher) -> (g: OperationGate)
        ensures
            g.enabled() == enabled,
            g.excluded() == exclusions@,
    {
        OperationGate { enabled, exclusions }
    }

    pub closed spec fn enabled(&self) -> bool {
        self.enabled
    }

    pub closed spec fn excluded(&self) -> Seq<Seq<char>> {
        self.exclusions@
    }

    pub open spec fn decision_for(&self, app: ForegroundAppView) -> OperationGateDecision {
        gate_decision(self.enabled(), self.excluded(), app)
    }

    pub fn is_enabled(&self) -> (b: bool)
        ensures
            b == self.enabled(),
    {
        self.enabled
    }

    pub fn evaluate(&self, app: &ForegroundApp) -> (d: OperationGateDecision)
        ensures
            d == self.decision_for(app@),
    {
        if !self.enabled {
            OperationGateDecision::Disabled
        } else if app.secure_input {
            OperationGateDecision::BlockedSecureInput
        } else if app.elevated {
            OperationGateDecision::BlockedElevated
        } else if self.exclusions.matches(app.app_id.as_str()) {
            OperationGateDecision::BlockedExcluded
        } else {
            OperationGateDecision::Allow
        }
    }
}

/// Only an enabled gate, for an application that is neither secure, elevated
/// nor excluded, lets an operation start.
pub proof fn lemma_gate_allows_only_plain_apps(
    enabled: bool,
    excluded: Seq<Seq<char>>,
    app: ForegroundAppView,
)
    ensures
        gate_decision(enabled, excluded, app) == OperationGateDecision::Allow <==> (enabled
            && !app.secure_input && !app.elevated && !excluded.contains(app.app_id)),
{
}

} // verus!

verus! {

/// A separator of a Windows path: `\` and `/`, but only `\` in a verbatim
/// (`\\?\`) path.
pub open spec fn is_separator_in(c: char, verbatim: bool) -> bool {
    c == '\\' || (!verbatim && c == '/')
}

/// A verbatim path: one that starts with `\\?\`.
pub open spec fn is_verbatim(path: Seq<char>) -> bool {
    path.len() >= 4 && path[0] == '\\' && path[1] == '\\' && path[2] == '?' && path[3] == '\\'
}

/// Where the last component of a Windows path begins: just after the last
/// separator before index `n`, or at 0.
pub open spec fn component_start(path: Seq<char>, n: int, verbatim: bool) -> int
    decreases n,
{
    if n <= 0 {
        0
    } else if is_separator_in(path[n - 1], verbatim) {
        n
    } else {
        component_start(path, n - 1, verbatim)
    }
}

/// The first separator at or after index `i`, or the end of `path`.
pub open spec fn next_separator(path: Seq<char>, i: int, verbatim: bool) -> int
    decreases path.len() - i,
{
    if i >= path.len() {
        path.len() as int
    } else if is_separator_in(path[i], verbatim) {
        i
    } else {
        next_separator(path, i + 1, verbatim)
    }
}

/// The end of the two components that start at `i` (a server and a share).
pub open spec fn after_two_components(path: Seq<char>, i: int, verbatim: bool) -> int {
    let a = next_separator(path, i, verbatim);
    if a >= path.len() {
        a
    } else {
        next_separator(path, a + 1, verbatim)
    }
}

/// How many characters the prefix of a Windows path takes: `\\?\UNC\server\share`,
/// `\\?\name` (`name` such as `C:`), `\\.\device`, `\\server\share`, or a
/// drive `C:`; 0 when there is none.
pub open spec fn prefix_len(path: Seq<char>) -> int {
    if path.len() >= 2 && is_separator_in(path[0], false) && is_separator_in(path[1], false) {
        if is_verbatim(path) {
            if path.len() >= 8 && path[4] == 'U' && path[5] == 'N' && path[6] == 'C' && path[7]
                == '\\' {
                after_two_components(path, 8, true)
            } else {
                next_separator(path, 4, true)
            }
        } else if path.len() >= 4 && path[2] == '.' && is_separator_in(path[3], false) {
            next_separator(path, 4, false)
        } else {
            after_two_components(path, 2, false)
        }
    } else if path.len() >= 2 && crate::detection::ascii_letter(path[0]) && path[1] == ':' {
        2
    } else {
        0
    }
}

/// The last component of a path without prefix: separators at its end are
/// passed over, and so are `.` components unless the path is verbatim;
/// empty when no component is left.
pub open spec fn last_component(s: Seq<char>, verbatim: bool) -> Seq<char>
    decreases s.len(),
{
    let start = component_start(s, s.len() as int, verbatim);
    let piece = s.skip(start);
    if s.len() == 0 {
        Seq::empty()
    } else if piece.len() == 0 || (!verbatim && piece == seq!['.']) {
        if start <= 0 {
            Seq::empty()
        } else {
            proof {
                lemma_component_start(s, s.len() as int, verbatim);
            }
            last_component(s.take(start - 1), verbatim)
        }
    } else {
        piece
    }
}

/// The file name of a Windows path, as `Path::file_name` reads it there: the
/// last component after the prefix, unless there is none or it is `..` (or
/// `.`, which only a verbatim path keeps as a component).
pub open spec fn file_name(path: Seq<char>) -> Option<Seq<char>> {
    let c = last_component(path.skip(prefix_len(path)), is_verbatim(path));
    if c.len() == 0 || c == seq!['.', '.'] || c == seq!['.'] {
        None
    } else {
        Some(c)
    }
}

/// The last component before index `n` starts at or before `n`.
pub proof fn lemma_component_start(path: Seq<char>, n: int, verbatim: bool)
    requires
        0 <= n <= path.len(),
    ensures
        0 <= component_start(path, n, verbatim) <= n,
    decreases n,
{
    if n > 0 && !is_separator_in(path[n - 1], verbatim) {
        lemma_component_start(path, n - 1, verbatim);
    }
}

fn next_separator_at(v: &Vec<char>, i: usize, verbatim: bool) -> (r: usize)
    requires
        i <= v@.len(),
    ensures
        r == next_separator(v@, i as int, verbatim),
        i <= r <= v@.len(),
{
    let mut j = i;
    while j < v.len() && !(v[j] == '\\' || (!verbatim && v[j] == '/'))
        invariant
            i <= j <= v@.len(),
            next_separator(v@, j as int, verbatim) == next_separator(v@, i as int, verbatim),
        decreases v.len() - j,
    {
        j = j + 1;
    }
    j
}

fn after_two_components_at(v: &Vec<char>, i: usize, verbatim: bool) -> (r: usize)
    requires
        i <= v@.len(),
    ensures
        r == after_two_components(v@, i as int, verbatim),
        r <= v@.len(),
{
    let a = next_separator_at(v, i, verbatim);
    if a >= v.len() {
        a
    } else {
        next_separator_at(v, a + 1, verbatim)
    }
}

fn prefix_len_of(v: &Vec<char>) -> (r: usize)
    ensures
        r == prefix_len(v@),
        r <= v@.len(),
{
    let n = v.len();
    if n >= 2 && (v[0] == '\\' || v[0] == '/') && (v[1] == '\\' || v[1] == '/') {
        if n >= 4 && v[0] == '\\' && v[1] == '\\' && v[2] == '?' && v[3] == '\\' {
            if n >= 8 && v[4] == 'U' && v[5] == 'N' && v[6] == 'C' && v[7] == '\\' {
                after_two_components_at(v, 8, true)
            } else {
                next_separator_at(v, 4, true)
            }
        } else if n >= 4 && v[2] == '.' && (v[3] == '\\' || v[3] == '/') {
            next_separator_at(v, 4, false)
        } else {
            after_two_components_at(v, 2, false)
        }
    } else if n >= 2 && crate::detection::is_ascii_alpha(v[0]) && v[1] == ':' {
        2
    } else {
        0
    }
}

/// Where the last component of `v[base..]` lies, as `(start, end)`; `None`
/// when there is none.
fn last_component_at(v: &Vec<char>, base: usize, verbatim: bool) -> (r: Option<(usize, usize)>)
    requires
        base <= v@.len(),
    ensures
        match r {
            Some((start, end)) => {
                &&& base <= start < end <= v@.len()
                &&& v@.subrange(start as int, end as int) == last_component(
                    v@.subrange(base as int, v@.len() as int),
                    verbatim,
                )
            },
            None => last_component(v@.subrange(base as int, v@.len() as int), verbatim).len() == 0,
        },
{
    let ghost whole = v@.subrange(base as int, v@.len() as int);
    let mut end: usize = v.len();
    loop
        invariant
            base <= end <= v@.len(),
            last_component(v@.subrange(base as int, end as int), verbatim) == last_component(
                whole,
                verbatim,
            ),
            whole == v@.subrange(base as int, v@.len() as int),
        decreases end,
    {
        let ghost s = v@.subrange(base as int, end as int);
        let mut start: usize = end;
        while start > base && !(v[start - 1] == '\\' || (!verbatim && v[start - 1] == '/'))
            invariant
                base <= start <= end <= v@.len(),
                s == v@.subrange(base as int, end as int),
                component_start(s, s.len() as int, verbatim) == component_start(
                    s,
                    start - base,
                    verbatim,
                ),
            decreases start,
        {
            start = start - 1;
        }
        proof {
            lemma_component_start(s, s.len() as int, verbatim);
            assert(component_start(s, s.len() as int, verbatim) == start - base);
            assert(s.skip(start - base) =~= v@.subrange(start as int, end as int));
        }
        if end == base {
            return None;
        }
        if start == end || (!verbatim && end - start == 1 && v[start] == '.') {
            if start == base {
                proof {
                    if start != end {
                        assert(s.skip(0) =~= seq!['.']);
                    }
                }
                return None;
            }
            proof {
                if start != end {
                    assert(s.skip(start - base) =~= seq!['.']);
                }
                assert(s.take(start - base - 1) =~= v@.subrange(base as int, start - 1));
            }
            end = start - 1;
        } else {
            proof {
                if !verbatim && end - start == 1 {
                    assert(s.skip(start - base) != seq!['.']) by {
                        assert(s.skip(start - base)[0] == v@[start as int]);
                    }
                }
            }
            return Some((start, end));
        }
    }
}

/// The executable's file name in a process image path, as `Path::file_name`
/// reads a Windows path; a path without one, or whose file name is blank,
/// is invalid output.
pub fn executable_name(process_image_path: &str) -> (r: Result<String, PlatformContextError>)
    ensures
        match file_name(process_image_path@) {
            Some(name) => if crate::text::has_content(name) {
                r matches Ok(n) && n@ == name
            } else {
                r == Err::<String, PlatformContextError>(PlatformContextError::InvalidOutput)
            },
            None => r == Err::<String, PlatformContextError>(PlatformContextError::InvalidOutput),
        },
{
    let v = crate::text::chars_of(process_image_path);
    let base = prefix_len_of(&v);
    let verbatim = v.len() >= 4 && v[0] == '\\' && v[1] == '\\' && v[2] == '?' && v[3] == '\\';
    assert(v@.subrange(base as int, v@.len() as int) =~= v@.skip(base as int));
    let (start, end) = match last_component_at(&v, base, verbatim) {
        Some(range) => range,
        None => {
            return Err(PlatformContextError::InvalidOutput);
        },
    };
    let name = crate::text::prefix_between(&v, start, end);
    if end - start == 2 && v[start] == '.' && v[start + 1] == '.' {
        assert(name@ =~= seq!['.', '.']);
        return Err(PlatformContextError::InvalidOutput);
    }
    if end - start == 1 && v[start] == '.' {
        assert(name@ =~= seq!['.']);
        return Err(PlatformContextError::InvalidOutput);
    }
    proof {
        if name@.len() == 1 {
            assert(name@ != seq!['.']) by {
                assert(name@[0] == v@[start as int]);
            }
        }
        if name@.len() == 2 {
            assert(name@ != seq!['.', '.']) by {
                assert(name@[0] == v@[start as int]);
                assert(name@[1] == v@[start + 1]);
            }
        }
    }
    if !crate::text::has_content_chars(&name) {
        return Err(PlatformContextError::InvalidOutput);
    }
    Ok(String::from_str(process_image_path.substring_char(start, end)))
}

} // verus!

verus! {

pub open spec fn is_high_surrogate(u: u16) -> bool {
    0xD800 <= u <= 0xDBFF
}

pub open spec fn is_low_surrogate(u: u16) -> bool {
    0xDC00 <= u <= 0xDFFF
}

/// The character that a high and a low surrogate encode together.
pub open spec fn surrogate_pair_char(high: u16, low: u16) -> char {
    (0x10000 + (high - 0xD800) * 0x400 + (low - 0xDC00)) as char
}

/// UTF-16 code units read as text: a high surrogate followed by a low one
/// is one character, every other surrogate becomes U+FFFD, and every other
/// unit is the character with its value.
pub open spec fn decode_utf16_lossy(wide: Seq<u16>) -> Seq<char>
    decreases wide.len(),
{
    if wide.len() == 0 {
        Seq::empty()
    } else if wide.len() >= 2 && is_high_surrogate(wide[0]) && is_low_surrogate(wide[1]) {
        seq![surrogate_pair_char(wide[0], wide[1])] + decode_utf16_lossy(wide.skip(2))
    } else if is_high_surrogate(wide[0]) || is_low_surrogate(wide[0]) {
        seq!['\u{FFFD}'] + decode_utf16_lossy(wide.skip(1))
    } else {
        seq![wide[0] as char] + decode_utf16_lossy(wide.skip(1))
    }
}

/// Decodes UTF-16 (`String::from_utf16_lossy`). Its documentation: invalid
/// data, that is each surrogate without its partner, becomes U+FFFD.
#[verifier::external_body]
fn utf16_lossy(wide: &[u16]) -> (s: String)
    ensures
        s@ == decode_utf16_lossy(wide@),
{
    String::from_utf16_lossy(wide)
}

/// The text of a UTF-16 buffer that the system filled; text that is blank is
/// invalid output.
pub fn wide_to_string(wide: &[u16]) -> (r: Result<String, PlatformContextError>)
    ensures
        crate::text::has_content(decode_utf16_lossy(wide@)) ==> (r matches Ok(s) && s@
            == decode_utf16_lossy(wide@)),
        !crate::text::has_content(decode_utf16_lossy(wide@)) ==> r == Err::<
            String,
            PlatformContextError,
        >(PlatformContextError::InvalidOutput),
{
    let value = utf16_lossy(wide);
    let chars = crate::text::chars_of(value.as_str());
    if !crate::text::has_content_chars(&chars) {
        return Err(PlatformContextError::InvalidOutput);
    }
    Ok(value)
}

/// Whether the application may not receive input from this process: the
/// target runs elevated (or its elevation could not be read, `None`) while
/// this process does not (an unreadable elevation of this process counts as
/// not elevated).
pub fn blocks_unelevated_access(target_elevated: Option<bool>, current_elevated: Option<bool>) -> (b:
    bool)
    ensures
        b == (target_elevated != Some(false) && current_elevated != Some(true)),
{
    let target = match target_elevated {
        Some(elevated) => elevated,
        None => true,
    };
    if !target {
        return false;
    }
    let current = match current_elevated {
        Some(elevated) => elevated,
        None => false,
    };
    target && !current
}

pub open spec fn hex_digit(d: int) -> char {
    if d < 10 {
        ('0' as int + d) as char
    } else {
        ('a' as int + d - 10) as char
    }
}

/// The digits of `n` in base 16, lower case, without leading zeros.
pub open spec fn lower_hex(n: nat) -> Seq<char>
    decreases n,
{
    if n < 16 {
        seq![hex_digit(n as int)]
    } else {
        lower_hex(n / 16).push(hex_digit((n % 16) as int))
    }
}

fn hex_digit_text(d: usize) -> (s: &'static str)
    requires
        d < 16,
    ensures
        s@ == seq![hex_digit(d as int)],
{
    match d {
        0 => {
            proof {
                reveal_strlit("0");
            }
            "0"
        },
        1 => {
            proof {
                reveal_strlit("1");
            }
            "1"
        },
        2 => {
            proof {
                reveal_strlit("2");
            }
            "2"
        },
        3 => {
            proof {
                reveal_strlit("3");
            }
            "3"
        },
        4 => {
            proof {
                reveal_strlit("4");
            }
            "4"
        },
        5 => {
            proof {
                reveal_strlit("5");
            }
            "5"
        },
        6 => {
            proof {
                reveal_strlit("6");
            }
            "6"
        },
        7 => {
            proof {
                reveal_strlit("7");
            }
            "7"
        },
        8 => {
            proof {
                reveal_strlit("8");
            }
            "8"
        },
        9 => {
            proof {
                reveal_strlit("9");
            }
            "9"
        },
        10 => {
            proof {
                reveal_strlit("a");
            }
            "a"
        },
        11 => {
            proof {
                reveal_strlit("b");
            }
            "b"
        },
        12 => {
            proof {
                reveal_strlit("c");
            }
            "c"
        },
        13 => {
            proof {
                reveal_strlit("d");
            }
            "d"
        },
        14 => {
            proof {
                reveal_strlit("e");
            }
            "e"
        },
        _ => {
            proof {
                reveal_strlit("f");
            }
            "f"
        },
    }
}

fn append_hex(out: String, n: usize) -> (r: String)
    ensures
        r@ == out@ + lower_hex(n as nat),
    decreases n,
{
    if n < 16 {
        out.concat(hex_digit_text(n))
    } else {
        let head = append_hex(out, n / 16);
        let r = head.concat(hex_digit_text(n % 16));
        assert(r@ =~= out@ + lower_hex(n as nat));
        r
    }
}

/// The text that identifies a window: its handle in lower-case hexadecimal
/// after `0x`.
pub fn format_window_handle(handle: usize) -> (s: String)
    ensures
        s@ == seq!['0', 'x'] + lower_hex(handle as nat),
{
    proof {
        reveal_strlit("0x");
    }
    append_hex(String::from_str("0x"), handle)
}

} // verus!
