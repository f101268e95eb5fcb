use crate::commands::definition::{
    chat_command, chat_command_spec, option, plain_option, CommandSpec, CommandView, OptionKind,
};
use crate::commands::options::{
    attachments_named, last_flag, last_text, option_attachments, option_flag, option_text,
    options_view, CommandOption,
};
use crate::text::opt_view;
use vstd::prelude::*;

verus! {

/// The `/reply` slash command.
pub struct ReplyCommand;

impl ReplyCommand {
    /// The command's name.
    pub fn name(&self) -> (r: &'static str)
        ensures
            r@ == "reply"@,
    {
        "reply"
    }

    /// The translation key of the command's description.
    pub fn description_key(&self) -> (r: &'static str)
        ensures
            r@ == "slash_command.reply_command_description"@,
    {
        "slash_command.reply_command_description"
    }
}

/// What `/reply` was given: the text, the attachments, and whether the reply
/// goes out without the staff member's name.
pub struct ReplyArguments {
    pub content: Option<String>,
    pub snippet: Option<String>,
    pub attachments: Vec<u64>,
    pub anonymous: bool,
}

/// Reads the options of `/reply`: the last `message` text, the last `snippet`
/// key, every `attachment` in order, and the last `anonymous` flag (false when
/// it is absent).
pub fn reply_arguments(options: &Vec<CommandOption>) -> (r: ReplyArguments)
    ensures
        opt_view(r.content) == last_text(options_view(options@), "message"@),
        opt_view(r.snippet) == last_text(options_view(options@), "snippet"@),
        r.attachments@ == attachments_named(options_view(options@), "attachment"@),
        r.anonymous == (last_flag(options_view(options@), "anonymous"@) == Some(true)),
{
    let content = option_text(options, "message");
    let snippet = option_text(options, "snippet");
    let attachments = option_attachments(options, "attachment");
    let anonymous = match option_flag(options, "anonymous") {
        Some(b) => b,
        None => false,
    };
    ReplyArguments { content, snippet, attachments, anonymous }
}

/// The `/reply` command: a text `message`, or in its place a `snippet` key
/// (`/reply snippet:<key>`), an optional `attachment` and an optional flag
/// `anonymous`.
pub open spec fn reply_command_spec() -> CommandView {
    chat_command(
        "reply"@,
        "slash_command.reply_command_description"@,
        seq![
            plain_option(OptionKind::Text, "message"@, "slash_command.reply_message_argument_description"@, false),
            plain_option(OptionKind::Text, "snippet"@, "slash_command.reply_snippet_argument_description"@, false),
            plain_option(
                OptionKind::Attachment,
                "attachment"@,
                "slash_command.reply_attachment_argument_description"@,
                false,
            ),
            plain_option(
                OptionKind::Boolean,
                "anonymous"@,
                "slash_command.reply_anonymous_argument_description"@,
                false,
            ),
        ],
    )
}

impl ReplyCommand {
    /// What `/reply` offers to Discord.
    pub fn definition(&self) -> (r: CommandSpec)
        ensures
            r@ == reply_command_spec(),
    {
        let mut options = Vec::new();
        options.push(option(OptionKind::Text, "message", "slash_command.reply_message_argument_description", false));
        options.push(option(OptionKind::Text, "snippet", "slash_command.reply_snippet_argument_description", false));
        options.push(
            option(OptionKind::Attachment, "attachment", "slash_command.reply_attachment_argument_description", false),
        );
        options.push(
            option(OptionKind::Boolean, "anonymous", "slash_command.reply_anonymous_argument_description", false),
        );
        let r = chat_command_spec("reply", "slash_command.reply_command_description", options);
        assert(r@ =~~= reply_command_spec());
        r
    }
}

/// What a reply sends: text, attachments, or both.
#[derive(Debug)]
pub enum ReplyIntent {
    Text(String),
    Attachments,
    TextAndAttachments(String),
}

/// What a reply sends, with its text as characters.
pub enum ReplyIntentView {
    Text(Seq<char>),
    Attachments,
    TextAndAttachments(Seq<char>),
}

impl View for ReplyIntent {
    type V = ReplyIntentView;

    open spec fn view(&self) -> ReplyIntentView {
        match self {
            ReplyIntent::Text(t) => ReplyIntentView::Text(t@),
            ReplyIntent::Attachments => ReplyIntentView::Attachments,
            ReplyIntent::TextAndAttachments(t) => ReplyIntentView::TextAndAttachments(t@),
        }
    }
}

/// Why a reply is refused.
#[derive(Clone, Copy, PartialEq, Eq, Structural, Debug)]
pub enum ReplyError {
    /// Neither text nor attachment: `message.empty`.
    MessageEmpty,
}

impl ReplyError {
    /// The translation key of the refusal.
    pub fn key(&self) -> (r: &'static str)
        ensures
            r@ == "message.empty"@,
    {
        "message.empty"
    }
}

/// What a reply with text `text` (the message, or the content of the snippet it
/// names) sends; an empty text counts as none, and a reply with nothing to send
/// is refused.
pub open spec fn reply_intent_spec(text: Option<Seq<char>>, has_attachments: bool) -> Result<
    ReplyIntentView,
    ReplyError,
> {
    match text {
        Some(t) if t.len() > 0 => if has_attachments {
            Ok(ReplyIntentView::TextAndAttachments(t))
        } else {
            Ok(ReplyIntentView::Text(t))
        },
        _ => if has_attachments {
            Ok(ReplyIntentView::Attachments)
        } else {
            Err(ReplyError::MessageEmpty)
        },
    }
}

/// Decides what a reply sends.
pub fn reply_intent(text: Option<String>, has_attachments: bool) -> (r: Result<ReplyIntent, ReplyError>)
    ensures
        match r {
            Ok(i) => reply_intent_spec(opt_view(text), has_attachments) == Ok::<ReplyIntentView, ReplyError>(i@),
            Err(e) => reply_intent_spec(opt_view(text), has_attachments) == Err::<ReplyIntentView, ReplyError>(e),
        },
{
    match text {
        Some(t) if t.unicode_len() > 0 => if has_attachments {
            Ok(ReplyIntent::TextAndAttachments(t))
        } else {
            Ok(ReplyIntent::Text(t))
        },
        _ => if has_attachments {
            Ok(ReplyIntent::Attachments)
        } else {
            Err(ReplyError::MessageEmpty)
        },
    }
}

/// A reply is refused exactly when it has neither a non-empty text nor an
/// attachment; otherwise it sends the text when there is one, and the
/// attachments when there are some.
pub proof fn lemma_reply_intents(text: Option<Seq<char>>, has_attachments: bool)
    ensures
        reply_intent_spec(text, has_attachments) is Err <==> (!has_attachments && (text is None
            || text->0.len() == 0)),
        (text matches Some(t) && t.len() > 0 && has_attachments) ==> reply_intent_spec(
            text,
            has_attachments,
        ) == Ok::<ReplyIntentView, ReplyError>(ReplyIntentView::TextAndAttachments(text->0)),
        (text matches Some(t) && t.len() > 0 && !has_attachments) ==> reply_intent_spec(
            text,
            has_attachments,
        ) == Ok::<ReplyIntentView, ReplyError>(ReplyIntentView::Text(text->0)),
        (text is None || text->0.len() == 0) && has_attachments ==> reply_intent_spec(
            text,
            has_attachments,
        ) == Ok::<ReplyIntentView, ReplyError>(ReplyIntentView::Attachments),
{
}

} // verus!
