use vstd::prelude::*;

use crate::text::same_text;

verus! {

/// The static commands that ship with the application.
#[derive(Debug, Clone, Copy, PartialEq, Eq)]
pub enum BuiltInCommand {
    Fix,
    Improve,
    Shorten,
    Expand,
    Formal,
    Casual,
    Emoji,
    Reply,
    Bullets,
    Summarize,
}

/// A command whose parameter is typed after its prefix.
#[derive(Debug, Clone, PartialEq, Eq)]
pub enum DynamicCommand {
    Translate { lang_code: String },
    Ask { question: String },
}

#[derive(Debug, Clone, PartialEq, Eq)]
pub enum CommandKind {
    BuiltIn(BuiltInCommand),
    Custom,
    Dynamic(DynamicCommand),
}

#[derive(Debug, Clone, PartialEq, Eq)]
pub struct CommandDefinition {
    pub trigger: String,
    pub name: String,
    pub prompt: String,
    pub enabled: bool,
    pub case_sensitive: bool,
    pub raw_output: bool,
    pub kind: CommandKind,
}

pub enum DynamicCommandView {
    Translate { lang_code: Seq<char> },
    Ask { question: Seq<char> },
}

pub enum CommandKindView {
    BuiltIn(BuiltInCommand),
    Custom,
    Dynamic(DynamicCommandView),
}

/// A command definition with its texts taken as character sequences.
pub struct CommandView {
    pub trigger: Seq<char>,
    pub name: Seq<char>,
    pub prompt: Seq<char>,
    pub enabled: bool,
    pub case_sensitive: bool,
    pub raw_output: bool,
    pub kind: CommandKindView,
}

impl View for DynamicCommand {
    type V = DynamicCommandView;

    open spec fn view(&self) -> DynamicCommandView {
        match self {
            DynamicCommand::Translate { lang_code } => DynamicCommandView::Translate {
                lang_code: lang_code@,
            },
            DynamicCommand::Ask { question } => DynamicCommandView::Ask { question: question@ },
        }
    }
}

impl View for CommandKind {
    type V = CommandKindView;

    open spec fn view(&self) -> CommandKindView {
        match self {
            CommandKind::BuiltIn(b) => CommandKindView::BuiltIn(*b),
            CommandKind::Custom => CommandKindView::Custom,
            CommandKind::Dynamic(d) => CommandKindView::Dynamic(d@),
        }
    }
}

impl View for CommandDefinition {
    type V = CommandView;

    open spec fn view(&self) -> CommandView {
        CommandView {
            trigger: self.trigger@,
            name: self.name@,
            prompt: self.prompt@,
            enabled: self.enabled,
            case_sensitive: self.case_sensitive,
            raw_output: self.raw_output,
            kind: self.kind@,
        }
    }
}

/// A command that fires when the text ends with its trigger.
pub open spec fn is_static_command(c: CommandView) -> bool {
    c.enabled && !(c.kind is Dynamic)
}

pub open spec fn builtin_trigger(b: BuiltInCommand) -> Seq<char> {
    match b {
        BuiltInCommand::Fix => "?fix"@,
        BuiltInCommand::Improve => "?improve"@,
        BuiltInCommand::Shorten => "?shorten"@,
        BuiltInCommand::Expand => "?expand"@,
        BuiltInCommand::Formal => "?formal"@,
        BuiltInCommand::Casual => "?casual"@,
        BuiltInCommand::Emoji => "?emoji"@,
        BuiltInCommand::Reply => "?reply"@,
        BuiltInCommand::Bullets => "?bullets"@,
        BuiltInCommand::Summarize => "?summarize"@,
    }
}

pub open spec fn builtin_name(b: BuiltInCommand) -> Seq<char> {
    match b {
        BuiltInCommand::Fix => "Fix"@,
        BuiltInCommand::Improve => "Improve"@,
        BuiltInCommand::Shorten => "Shorten"@,
        BuiltInCommand::Expand => "Expand"@,
        BuiltInCommand::Formal => "Formal"@,
        BuiltInCommand::Casual => "Casual"@,
        BuiltInCommand::Emoji => "Emoji"@,
        BuiltInCommand::Reply => "Reply"@,
        BuiltInCommand::Bullets => "Bullets"@,
        BuiltInCommand::Summarize => "Summarize"@,
    }
}

pub open spec fn builtin_prompt(b: BuiltInCommand) -> Seq<char> {
    match b {
        BuiltInCommand::Fix => "Fix grammar, spelling, and punctuation: {text}"@,
        BuiltInCommand::Improve => "Improve clarity and readability: {text}"@,
        BuiltInCommand::Shorten => "Shorten text: {text}"@,
        BuiltInCommand::Expand => "Expand with more detail: {text}"@,
        BuiltInCommand::Formal => "Rewrite formally: {text}"@,
        BuiltInCommand::Casual => "Rewrite casually: {text}"@,
        BuiltInCommand::Emoji => "Add tasteful emojis: {text}"@,
        BuiltInCommand::Reply => "Generate a reply: {text}"@,
        BuiltInCommand::Bullets => "Convert to bullet points: {text}"@,
        BuiltInCommand::Summarize => "Summarize in 1-3 sentences: {text}"@,
    }
}

pub open spec fn builtin_view(b: BuiltInCommand) -> CommandView {
    CommandView {
        trigger: builtin_trigger(b),
        name: builtin_name(b),
        prompt: builtin_prompt(b),
        enabled: true,
        case_sensitive: true,
        raw_output: false,
        kind: CommandKindView::BuiltIn(b),
    }
}

/// The built-in commands, in the order the registry lists them.
pub open spec fn builtin_commands() -> Seq<BuiltInCommand> {
    seq![
        BuiltInCommand::Fix,
        BuiltInCommand::Improve,
        BuiltInCommand::Shorten,
        BuiltInCommand::Expand,
        BuiltInCommand::Formal,
        BuiltInCommand::Casual,
        BuiltInCommand::Emoji,
        BuiltInCommand::Reply,
        BuiltInCommand::Bullets,
        BuiltInCommand::Summarize,
    ]
}

impl BuiltInCommand {
    pub fn trigger(self) -> (s: &'static str)
        ensures
            s@ == builtin_trigger(self),
    {
        match self {
            BuiltInCommand::Fix => "?fix",
            BuiltInCommand::Improve => "?improve",
            BuiltInCommand::Shorten => "?shorten",
            BuiltInCommand::Expand => "?expand",
            BuiltInCommand::Formal => "?formal",
            BuiltInCommand::Casual => "?casual",
            BuiltInCommand::Emoji => "?emoji",
            BuiltInCommand::Reply => "?reply",
            BuiltInCommand::Bullets => "?bullets",
            BuiltInCommand::Summarize => "?summarize",
        }
    }

    pub fn name(self) -> (s: &'static str)
        ensures
            s@ == builtin_name(self),
    {
        match self {
            BuiltInCommand::Fix => "Fix",
            BuiltInCommand::Improve => "Improve",
            BuiltInCommand::Shorten => "Shorten",
            BuiltInCommand::Expand => "Expand",
            BuiltInCommand::Formal => "Formal",
            BuiltInCommand::Casual => "Casual",
            BuiltInCommand::Emoji => "Emoji",
            BuiltInCommand::Reply => "Reply",
            BuiltInCommand::Bullets => "Bullets",
            BuiltInCommand::Summarize => "Summarize",
        }
    }

    pub fn prompt(self) -> (s: &'static str)
        ensures
            s@ == builtin_prompt(self),
    {
        match self {
            BuiltInCommand::Fix => "Fix grammar, spelling, and punctuation: {text}",
            BuiltInCommand::Improve => "Improve clarity and readability: {text}",
            BuiltInCommand::Shorten => "Shorten text: {text}",
            BuiltInCommand::Expand => "Expand with more detail: {text}",
            BuiltInCommand::Formal => "Rewrite formally: {text}",
            BuiltInCommand::Casual => "Rewrite casually: {text}",
            BuiltInCommand::Emoji => "Add tasteful emojis: {text}",
            BuiltInCommand::Reply => "Generate a reply: {text}",
            BuiltInCommand::Bullets => "Convert to bullet points: {text}",
            BuiltInCommand::Summarize => "Summarize in 1-3 sentences: {text}",
        }
    }

    pub fn definition(self) -> (c: CommandDefinition)
        ensures
            c@ == builtin_view(self),
    {
        CommandDefinition {
            trigger: String::from_str(self.trigger()),
            name: String::from_str(self.name()),
            prompt: String::from_str(self.prompt()),
            enabled: true,
            case_sensitive: true,
            raw_output: false,
            kind: CommandKind::BuiltIn(self),
        }
    }
}

impl DynamicCommand {
    /// An equal copy.
    pub fn duplicate(&self) -> (d: DynamicCommand)
        ensures
            d@ == self@,
    {
        match self {
            DynamicCommand::Translate { lang_code } => DynamicCommand::Translate {
                lang_code: lang_code.clone(),
            },
            DynamicCommand::Ask { question } => DynamicCommand::Ask { question: question.clone() },
        }
    }
}

impl CommandKind {
    /// An equal copy.
    pub fn duplicate(&self) -> (k: CommandKind)
        ensures
            k@ == self@,
    {
        match self {
            CommandKind::BuiltIn(b) => CommandKind::BuiltIn(*b),
            CommandKind::Custom => CommandKind::Custom,
            CommandKind::Dynamic(d) => CommandKind::Dynamic(d.duplicate()),
        }
    }
}

impl CommandDefinition {
    /// An equal copy.
    pub fn duplicate(&self) -> (c: CommandDefinition)
        ensures
            c@ == self@,
    {
        CommandDefinition {
            trigger: self.trigger.clone(),
            name: self.name.clone(),
            prompt: self.prompt.clone(),
            enabled: self.enabled,
            case_sensitive: self.case_sensitive,
            raw_output: self.raw_output,
            kind: self.kind.duplicate(),
        }
    }
}

/// The commands the detector knows, in registration order.
#[derive(Debug, Clone)]
pub struct CommandRegistry {
    commands: Vec<CommandDefinition>,
}

impl View for CommandRegistry {
    type V = Seq<CommandView>;

    closed spec fn view(&self) -> Seq<CommandView> {
        self.commands@.map_values(|c: CommandDefinition| c@)
    }
}

impl CommandRegistry {
    /// The registry of the built-in commands.
    pub fn new() -> (r: CommandRegistry)
        ensures
            r@ == builtin_commands().map_values(|b: BuiltInCommand| builtin_view(b)),
    {
        let mut commands: Vec<CommandDefinition> = Vec::new();
        commands.push(BuiltInCommand::Fix.definition());
        commands.push(BuiltInCommand::Improve.definition());
        commands.push(BuiltInCommand::Shorten.definition());
        commands.push(BuiltInCommand::Expand.definition());
        commands.push(BuiltInCommand::Formal.definition());
        commands.push(BuiltInCommand::Casual.definition());
        commands.push(BuiltInCommand::Emoji.definition());
        commands.push(BuiltInCommand::Reply.definition());
        commands.push(BuiltInCommand::Bullets.definition());
        commands.push(BuiltInCommand::Summarize.definition());
        let r = CommandRegistry { commands };
        assert(r@ =~= builtin_commands().map_values(|b: BuiltInCommand| builtin_view(b)));
        r
    }

    /// The registered commands.
    pub fn commands(&self) -> (s: &[CommandDefinition])
        ensures
            s@.map_values(|c: CommandDefinition| c@) == self@,
    {
        self.commands.as_slice()
    }

    pub fn len(&self) -> (n: usize)
        ensures
            n == self@.len(),
    {
        self.commands.len()
    }

    /// The command registered at position `i`.
    pub fn get(&self, i: usize) -> (c: &CommandDefinition)
        requires
            i < self@.len(),
        ensures
            c@ == self@[i as int],
    {
        &self.commands[i]
    }
}

} // verus!

verus! {

/// A user command as the configuration stores it.
#[derive(Debug, Clone, PartialEq, Eq)]
pub struct CommandConfig {
    pub trigger: String,
    pub name: String,
    pub prompt: String,
    pub enabled: bool,
    pub case_sensitive: bool,
    pub raw_output: bool,
    pub created_at: String,
}

/// The command section of the configuration.
#[derive(Debug, Clone, PartialEq, Eq)]
pub struct CommandsConfig {
    pub custom: Vec<CommandConfig>,
}

impl Default for CommandsConfig {
    fn default() -> (c: CommandsConfig)
        ensures
            c.custom@.len() == 0,
    {
        CommandsConfig { custom: Vec::new() }
    }
}

#[derive(Debug, Clone, PartialEq, Eq)]
pub enum CustomCommandError {
    /// The trigger is not `?` followed by 1 to 32 ASCII letters, digits, `_` or `-`.
    InvalidTrigger(String),
    /// The trigger is taken by a built-in or an earlier custom command.
    DuplicateTrigger(String),
}

pub open spec fn trigger_char(c: char) -> bool {
    let u = c as u32;
    (97 <= u <= 122) || (65 <= u <= 90) || (48 <= u <= 57) || u == 95 || u == 45
}

/// A trigger a custom command may use.
pub open spec fn valid_custom_trigger(t: Seq<char>) -> bool {
    &&& 2 <= t.len() <= 33
    &&& t[0] == '?'
    &&& forall|i: int| 1 <= i < t.len() ==> trigger_char(#[trigger] t[i])
}

pub open spec fn custom_view(c: CommandConfig) -> CommandView {
    CommandView {
        trigger: c.trigger@,
        name: c.name@,
        prompt: c.prompt@,
        enabled: c.enabled,
        case_sensitive: c.case_sensitive,
        raw_output: c.raw_output,
        kind: CommandKindView::Custom,
    }
}

pub open spec fn builtin_registry() -> Seq<CommandView> {
    builtin_commands().map_values(|b: BuiltInCommand| builtin_view(b))
}

/// Custom command `i` of `customs` is acceptable: its trigger is valid and
/// taken neither by a built-in nor by an earlier custom command.
pub open spec fn custom_ok(customs: Seq<CommandConfig>, i: int) -> bool {
    &&& valid_custom_trigger(customs[i].trigger@)
    &&& forall|b: int|
        0 <= b < builtin_registry().len() ==> (#[trigger] builtin_registry()[b]).trigger
            != customs[i].trigger@
    &&& forall|j: int| 0 <= j < i ==> (#[trigger] customs[j]).trigger@ != customs[i].trigger@
}

impl CustomCommandError {
    pub open spec fn trigger(self) -> Seq<char> {
        match self {
            CustomCommandError::InvalidTrigger(t) => t@,
            CustomCommandError::DuplicateTrigger(t) => t@,
        }
    }
}

/// Whether `t` is a valid custom trigger.
fn is_valid_custom_trigger(t: &str) -> (b: bool)
    ensures
        b == valid_custom_trigger(t@),
{
    let v = crate::text::chars_of(t);
    if v.len() < 2 || v.len() > 33 || v[0] != '?' {
        return false;
    }
    let mut i: usize = 1;
    while i < v.len()
        invariant
            1 <= i <= v@.len(),
            v@ == t@,
            forall|k: int| 1 <= k < i ==> trigger_char(#[trigger] v@[k]),
        decreases v.len() - i,
    {
        let u = v[i] as u32;
        let ok = (97 <= u && u <= 122) || (65 <= u && u <= 90) || (48 <= u && u <= 57) || u == 95
            || u == 45;
        if !ok {
            assert(!trigger_char(v@[i as int]));
            return false;
        }
        i = i + 1;
    }
    true
}

impl CommandRegistry {
    /// The built-in commands followed by the configured custom commands; the
    /// first custom command with an invalid or taken trigger is the error.
    pub fn from_config(config: &CommandsConfig) -> (r: Result<CommandRegistry, CustomCommandError>)
        ensures
            (forall|i: int| 0 <= i < config.custom@.len() ==> custom_ok(config.custom@, i)) ==> (r matches Ok(
                reg,
            ) && reg@ == builtin_registry() + config.custom@.map_values(
                |c: CommandConfig| custom_view(c),
            )),
            r is Ok ==> forall|i: int| 0 <= i < config.custom@.len() ==> custom_ok(config.custom@, i),
            r matches Err(e) ==> exists|i: int|
                #![trigger config.custom@[i]]
                0 <= i < config.custom@.len() && !custom_ok(config.custom@, i) && (forall|j: int|
                    0 <= j < i ==> custom_ok(config.custom@, j)) && e.trigger()
                    == config.custom@[i].trigger@ && (e is InvalidTrigger <==> !valid_custom_trigger(
                    config.custom@[i].trigger@,
                )),
    {
        let mut registry = CommandRegistry::new();
        let ghost customs = config.custom@;
        let builtins = registry.len();
        let mut i: usize = 0;
        while i < config.custom.len()
            invariant
                i <= customs.len(),
                customs == config.custom@,
                builtins == 10,
                registry@ == builtin_registry() + customs.take(i as int).map_values(
                    |c: CommandConfig| custom_view(c),
                ),
                forall|j: int| 0 <= j < i ==> custom_ok(customs, j),
            decreases customs.len() - i,
        {
            let c = &config.custom[i];
            if !is_valid_custom_trigger(c.trigger.as_str()) {
                assert(!custom_ok(customs, i as int));
                return Err(CustomCommandError::InvalidTrigger(c.trigger.clone()));
            }
            let mut k: usize = 0;
            while k < registry.len()
                invariant
                    k <= registry@.len(),
                    registry@ == builtin_registry() + customs.take(i as int).map_values(
                        |c: CommandConfig| custom_view(c),
                    ),
                    i < customs.len(),
                    customs == config.custom@,
                    *c == customs[i as int],
                    valid_custom_trigger(c.trigger@),
                    forall|j: int| 0 <= j < i ==> custom_ok(customs, j),
                    forall|m: int| 0 <= m < k ==> (#[trigger] registry@[m]).trigger != c.trigger@,
                decreases registry@.len() - k,
            {
                if same_text(registry.get(k).trigger.as_str(), c.trigger.as_str()) {
                    proof {
                        if k < 10 {
                            assert(builtin_registry()[k as int] == registry@[k as int]);
                        } else {
                            assert(registry@[k as int] == custom_view(customs[k - 10]));
                        }
                        assert(!custom_ok(customs, i as int));
                    }
                    return Err(CustomCommandError::DuplicateTrigger(c.trigger.clone()));
                }
                k = k + 1;
            }
            proof {
                assert forall|b: int| 0 <= b < builtin_registry().len() implies (#[trigger] builtin_registry()[b]).trigger
                    != customs[i as int].trigger@ by {
                    assert(registry@[b] == builtin_registry()[b]);
                }
                assert forall|j: int| 0 <= j < i implies (#[trigger] customs[j]).trigger@
                    != customs[i as int].trigger@ by {
                    assert(registry@[10 + j] == custom_view(customs[j]));
                }
            }
            let definition = CommandDefinition {
                trigger: c.trigger.clone(),
                name: c.name.clone(),
                prompt: c.prompt.clone(),
                enabled: c.enabled,
                case_sensitive: c.case_sensitive,
                raw_output: c.raw_output,
                kind: CommandKind::Custom,
            };
            assert(definition@ == custom_view(customs[i as int]));
            let ghost before = registry.commands@;
            registry.commands.push(definition);
            assert(registry.commands@.map_values(|c: CommandDefinition| c@) =~= before.map_values(
                |c: CommandDefinition| c@,
            ).push(definition@));
            assert(customs.take(i + 1).map_values(|c: CommandConfig| custom_view(c))
                =~= customs.take(i as int).map_values(|c: CommandConfig| custom_view(c)).push(
                custom_view(customs[i as int]),
            ));
            assert(registry@ =~= builtin_registry() + customs.take(i + 1).map_values(
                |c: CommandConfig| custom_view(c),
            ));
            i = i + 1;
        }
        assert(customs.take(customs.len() as int) =~= customs);
        Ok(registry)
    }
}

} // verus!
