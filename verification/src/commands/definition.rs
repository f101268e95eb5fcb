use vstd::prelude::*;

verus! {

/// What a slash-command option takes.
#[derive(Clone, Copy, PartialEq, Eq, Structural, Debug)]
pub enum OptionKind {
    Text,
    Number,
    Boolean,
    User,
    Attachment,
}

/// Whether a command is typed in the chat or picked from a user's menu.
#[derive(Clone, Copy, PartialEq, Eq, Structural, Debug)]
pub enum CommandKind {
    ChatInput,
    User,
}

/// The label of a choice: a translation key, or a text shown as it is.
#[derive(Clone, Copy, Debug)]
pub enum ChoiceLabel {
    Translated(&'static str),
    Fixed(&'static str),
}

/// A choice label with its text as characters.
pub enum ChoiceLabelView {
    Translated(Seq<char>),
    Fixed(Seq<char>),
}

impl View for ChoiceLabel {
    type V = ChoiceLabelView;

    open spec fn view(&self) -> ChoiceLabelView {
        match self {
            ChoiceLabel::Translated(k) => ChoiceLabelView::Translated(k@),
            ChoiceLabel::Fixed(t) => ChoiceLabelView::Fixed(t@),
        }
    }
}

/// One of the fixed values a text option offers.
#[derive(Clone, Copy, Debug)]
pub struct ChoiceSpec {
    pub label: ChoiceLabel,
    pub value: &'static str,
}

/// A choice as values.
pub struct ChoiceView {
    pub label: ChoiceLabelView,
    pub value: Seq<char>,
}

impl View for ChoiceSpec {
    type V = ChoiceView;

    open spec fn view(&self) -> ChoiceView {
        ChoiceView { label: self.label@, value: self.value@ }
    }
}

/// An option of a slash command or of one of its subcommands.
#[derive(Clone, Debug)]
pub struct OptionSpec {
    pub kind: OptionKind,
    pub name: &'static str,
    pub description_key: &'static str,
    pub required: bool,
    pub choices: Vec<ChoiceSpec>,
}

/// An option as values.
#[verifier::ext_equal]
pub struct OptionView {
    pub kind: OptionKind,
    pub name: Seq<char>,
    pub description_key: Seq<char>,
    pub required: bool,
    pub choices: Seq<ChoiceView>,
}

impl View for OptionSpec {
    type V = OptionView;

    open spec fn view(&self) -> OptionView {
        OptionView {
            kind: self.kind,
            name: self.name@,
            description_key: self.description_key@,
            required: self.required,
            choices: self.choices@.map_values(|c: ChoiceSpec| c@),
        }
    }
}

/// A subcommand with its options.
#[derive(Clone, Debug)]
pub struct SubcommandSpec {
    pub name: &'static str,
    pub description_key: &'static str,
    pub options: Vec<OptionSpec>,
}

/// A subcommand as values.
#[verifier::ext_equal]
pub struct SubcommandView {
    pub name: Seq<char>,
    pub description_key: Seq<char>,
    pub options: Seq<OptionView>,
}

impl View for SubcommandSpec {
    type V = SubcommandView;

    open spec fn view(&self) -> SubcommandView {
        SubcommandView {
            name: self.name@,
            description_key: self.description_key@,
            options: self.options@.map_values(|o: OptionSpec| o@),
        }
    }
}

/// What a command offers to Discord: its name, the translation key of its
/// description (none for a user-menu command), its options and subcommands.
#[derive(Clone, Debug)]
pub struct CommandSpec {
    pub name: &'static str,
    pub kind: CommandKind,
    pub description_key: Option<&'static str>,
    pub options: Vec<OptionSpec>,
    pub subcommands: Vec<SubcommandSpec>,
}

/// A command definition as values.
#[verifier::ext_equal]
pub struct CommandView {
    pub name: Seq<char>,
    pub kind: CommandKind,
    pub description_key: Option<Seq<char>>,
    pub options: Seq<OptionView>,
    pub subcommands: Seq<SubcommandView>,
}

impl View for CommandSpec {
    type V = CommandView;

    open spec fn view(&self) -> CommandView {
        CommandView {
            name: self.name@,
            kind: self.kind,
            description_key: match self.description_key {
                Some(k) => Some(k@),
                None => None,
            },
            options: self.options@.map_values(|o: OptionSpec| o@),
            subcommands: self.subcommands@.map_values(|s: SubcommandSpec| s@),
        }
    }
}

/// An option with no fixed choices, as values.
pub open spec fn plain_option(
    kind: OptionKind,
    name: Seq<char>,
    description_key: Seq<char>,
    required: bool,
) -> OptionView {
    OptionView { kind, name, description_key, required, choices: Seq::empty() }
}

/// An option with no fixed choices.
pub fn option(
    kind: OptionKind,
    name: &'static str,
    description_key: &'static str,
    required: bool,
) -> (r: OptionSpec)
    ensures
        r@ == plain_option(kind, name@, description_key@, required),
{
    let r = OptionSpec { kind, name, description_key, required, choices: Vec::new() };
    assert(r@ =~~= plain_option(kind, name@, description_key@, required));
    r
}

/// A chat command with options and no subcommands, as values.
pub open spec fn chat_command(
    name: Seq<char>,
    description_key: Seq<char>,
    options: Seq<OptionView>,
) -> CommandView {
    CommandView {
        name,
        kind: CommandKind::ChatInput,
        description_key: Some(description_key),
        options,
        subcommands: Seq::empty(),
    }
}

/// A chat command with the given options and no subcommands.
pub fn chat_command_spec(
    name: &'static str,
    description_key: &'static str,
    options: Vec<OptionSpec>,
) -> (r: CommandSpec)
    ensures
        r@ == chat_command(name@, description_key@, options@.map_values(|o: OptionSpec| o@)),
{
    let ghost ov = options@;
    let r = CommandSpec {
        name,
        kind: CommandKind::ChatInput,
        description_key: Some(description_key),
        options,
        subcommands: Vec::new(),
    };
    assert(r@ =~~= chat_command(name@, description_key@, ov.map_values(|o: OptionSpec| o@)));
    r
}

/// A subcommand with the given options.
pub fn subcommand(
    name: &'static str,
    description_key: &'static str,
    options: Vec<OptionSpec>,
) -> (r: SubcommandSpec)
    ensures
        r@ == (SubcommandView {
            name: name@,
            description_key: description_key@,
            options: options@.map_values(|o: OptionSpec| o@),
        }),
{
    SubcommandSpec { name, description_key, options }
}

} // verus!
