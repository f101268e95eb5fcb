use crate::commands::definition::{
    option, plain_option, subcommand, CommandKind, CommandSpec, CommandView, OptionKind,
    OptionSpec, OptionView, SubcommandView,
};
use crate::commands::options::{last_text, option_text, options_view, CommandOption};
use crate::text::{
    chars_of, decimal, ellipsize, ellipsized, find, find_char, is_boundary_at, is_white_space,
    push_decimal,
    str_eq, trim, trimmed, utf8_len,
};
use vstd::prelude::*;

verus! {

/// The `/snippet` slash command.
pub struct SnippetCommand;

impl SnippetCommand {
    /// The command's name.
    pub fn name(&self) -> (r: &'static str)
        ensures
            r@ == "snippet"@,
    {
        "snippet"
    }

    /// The translation key of the command's description, which is also its help text.
    pub fn description_key(&self) -> (r: &'static str)
        ensures
            r@ == "slash_command.snippet_command_description"@,
    {
        "slash_command.snippet_command_description"
    }
}

/// A saved reply that staff insert by its key.
#[derive(Clone, Debug)]
pub struct Snippet {
    pub key: String,
    pub content: String,
    pub created_by: String,
    pub created_at: String,
}

/// The longest snippet content, in characters.
pub const SNIPPET_MAX_CONTENT_CHARS: usize = 4000;

/// A character allowed in a snippet key: an ASCII letter or digit, `_` or `-`.
pub open spec fn is_key_char(c: char) -> bool {
    ('a' <= c && c <= 'z') || ('A' <= c && c <= 'Z') || ('0' <= c && c <= '9') || c == '_' || c
        == '-'
}

/// Whether `key` is a snippet key: one or more allowed characters
/// (the pattern `^[a-zA-Z0-9_-]+$`).
pub open spec fn is_snippet_key(key: Seq<char>) -> bool {
    key.len() > 0 && forall|i: int| 0 <= i < key.len() ==> is_key_char(#[trigger] key[i])
}

/// Whether `key` matches the snippet key pattern, as the `regex` crate decides:
/// `Regex::new("^[a-zA-Z0-9_-]+$").is_match(key)`.  The claim is that the
/// anchored pattern matches exactly the non-empty strings made of the listed
/// ASCII classes.
#[verifier::external_body]
fn matches_key_pattern(key: &str) -> (r: bool)
    ensures
        r == is_snippet_key(key@),
{
    regex::Regex::new("^[a-zA-Z0-9_-]+$").unwrap().is_match(key)
}

/// Why a snippet is refused.
#[derive(Clone, Copy, PartialEq, Eq, Structural, Debug)]
pub enum SnippetError {
    /// The key is not made of letters, digits, `_` and `-`.
    InvalidKeyFormat,
    /// The content is longer than `SNIPPET_MAX_CONTENT_CHARS` characters.
    ContentTooLong,
}

/// The checks of a new snippet: its key, then its length.
pub open spec fn new_snippet_check(key: Seq<char>, content: Seq<char>) -> Result<(), SnippetError> {
    if !is_snippet_key(key) {
        Err(SnippetError::InvalidKeyFormat)
    } else if content.len() > SNIPPET_MAX_CONTENT_CHARS {
        Err(SnippetError::ContentTooLong)
    } else {
        Ok(())
    }
}

/// Checks a snippet before it is created.
pub fn check_new_snippet(key: &str, content: &str) -> (r: Result<(), SnippetError>)
    ensures
        r == new_snippet_check(key@, content@),
{
    if !matches_key_pattern(key) {
        Err(SnippetError::InvalidKeyFormat)
    } else if content.unicode_len() > SNIPPET_MAX_CONTENT_CHARS {
        Err(SnippetError::ContentTooLong)
    } else {
        Ok(())
    }
}

/// Checks the new content of an edited snippet (only its length is checked).
pub fn check_snippet_content(content: &str) -> (r: Result<(), SnippetError>)
    ensures
        r is Err <==> content@.len() > SNIPPET_MAX_CONTENT_CHARS,
        r is Err ==> r == Err::<(), SnippetError>(SnippetError::ContentTooLong),
{
    if content.unicode_len() > SNIPPET_MAX_CONTENT_CHARS {
        Err(SnippetError::ContentTooLong)
    } else {
        Ok(())
    }
}

/// `s` split at its first space (`s.splitn(2, ' ')`): the part before it, and
/// the part after it when there is one.
pub open spec fn split_at_space(s: Seq<char>) -> (Seq<char>, Option<Seq<char>>) {
    let f = find_char(s, ' ');
    if f < s.len() {
        (s.subrange(0, f as int), Some(s.subrange(f as int + 1, s.len() as int)))
    } else {
        (s, None)
    }
}

/// Splits a text at its first space.
pub fn split_once_space(s: &str) -> (r: (&str, Option<&str>))
    ensures
        r.0@ == split_at_space(s@).0,
        match r.1 {
            Some(rest) => split_at_space(s@).1 == Some(rest@),
            None => split_at_space(s@).1 is None,
        },
{
    let v = chars_of(s);
    let n = v.len();
    let f = find(&v, ' ');
    proof {
        crate::text::lemma_find_char(s@, ' ');
    }
    if f < n {
        (s.substring_char(0, f), Some(s.substring_char(f + 1, n)))
    } else {
        proof {
            assert(s@.subrange(0, n as int) =~= s@);
        }
        (s.substring_char(0, n), None)
    }
}

/// The second part of a split, or the empty text.
pub open spec fn or_empty(o: Option<Seq<char>>) -> Seq<char> {
    match o {
        Some(s) => s,
        None => Seq::empty(),
    }
}

/// A key and a content read from `<key> <content>`, both trimmed.
pub open spec fn key_and_content(args: Seq<char>) -> (Seq<char>, Seq<char>) {
    let (k, c) = split_at_space(args);
    (trimmed(k), trimmed(or_empty(c)))
}

/// What a snippet command asks for.
pub enum SnippetRequestView {
    Create { key: Seq<char>, content: Seq<char> },
    List,
    Show { key: Seq<char> },
    Edit { key: Seq<char>, content: Seq<char> },
    Delete { key: Seq<char> },
    /// Reply to the ticket's user with the snippet's content.
    Use { key: Seq<char> },
    /// The command is incomplete: the usage behind the translation key is shown.
    Usage { key: Seq<char> },
    /// The subcommand is not known.
    UnknownSubcommand,
}

/// What a snippet command asks for.
#[derive(Debug)]
pub enum SnippetRequest {
    Create { key: String, content: String },
    List,
    Show { key: String },
    Edit { key: String, content: String },
    Delete { key: String },
    Use { key: String },
    Usage { key: &'static str },
    UnknownSubcommand,
}

impl View for SnippetRequest {
    type V = SnippetRequestView;

    open spec fn view(&self) -> SnippetRequestView {
        match self {
            SnippetRequest::Create { key, content } => SnippetRequestView::Create {
                key: key@,
                content: content@,
            },
            SnippetRequest::List => SnippetRequestView::List,
            SnippetRequest::Show { key } => SnippetRequestView::Show { key: key@ },
            SnippetRequest::Edit { key, content } => SnippetRequestView::Edit {
                key: key@,
                content: content@,
            },
            SnippetRequest::Delete { key } => SnippetRequestView::Delete { key: key@ },
            SnippetRequest::Use { key } => SnippetRequestView::Use { key: key@ },
            SnippetRequest::Usage { key } => SnippetRequestView::Usage { key: key@ },
            SnippetRequest::UnknownSubcommand => SnippetRequestView::UnknownSubcommand,
        }
    }
}

/// How the text form of the snippet command is read, from the text after the
/// command name: the first word is the subcommand; `create` and `edit` take a
/// key and a content (both needed; `create` checks the key, both check the
/// length); `show`, `delete` and `use` take a key; a missing part shows the
/// usage; a lone word that is a snippet key uses that snippet (`!snippet <key>`).
pub open spec fn snippet_request_spec(text: Seq<char>) -> Result<SnippetRequestView, SnippetError> {
    let (first, rest) = split_at_space(text);
    let sub = trimmed(first);
    let args = trimmed(or_empty(rest));
    if sub == "create"@ {
        let (key, content) = key_and_content(args);
        if key.len() == 0 || content.len() == 0 {
            Ok(SnippetRequestView::Usage { key: "snippet.text_create_usage"@ })
        } else {
            match new_snippet_check(key, content) {
                Ok(_) => Ok(SnippetRequestView::Create { key, content }),
                Err(e) => Err(e),
            }
        }
    } else if sub == "list"@ {
        Ok(SnippetRequestView::List)
    } else if sub == "show"@ {
        let key = trimmed(args);
        if key.len() == 0 {
            Ok(SnippetRequestView::Usage { key: "snippet.text_show_usage"@ })
        } else {
            Ok(SnippetRequestView::Show { key })
        }
    } else if sub == "edit"@ {
        let (key, content) = key_and_content(args);
        if key.len() == 0 || content.len() == 0 {
            Ok(SnippetRequestView::Usage { key: "snippet.text_edit_usage"@ })
        } else if content.len() > SNIPPET_MAX_CONTENT_CHARS {
            Err(SnippetError::ContentTooLong)
        } else {
            Ok(SnippetRequestView::Edit { key, content })
        }
    } else if sub == "delete"@ {
        let key = trimmed(args);
        if key.len() == 0 {
            Ok(SnippetRequestView::Usage { key: "snippet.text_delete_usage"@ })
        } else {
            Ok(SnippetRequestView::Delete { key })
        }
    } else if sub == "use"@ {
        let key = trimmed(args);
        if key.len() == 0 {
            Ok(SnippetRequestView::Usage { key: "snippet.text_usage"@ })
        } else {
            Ok(SnippetRequestView::Use { key })
        }
    } else if args.len() == 0 && is_snippet_key(sub) {
        Ok(SnippetRequestView::Use { key: sub })
    } else {
        Ok(SnippetRequestView::UnknownSubcommand)
    }
}

/// A text snippet command that is accepted as a creation or an edit names a
/// key and a content, neither empty and neither padded with white space, and a
/// content of at most `SNIPPET_MAX_CONTENT_CHARS` characters; a created snippet
/// also has a valid key.
pub proof fn lemma_accepted_snippet_requests(text: Seq<char>)
    ensures
        snippet_request_spec(text) matches Ok(SnippetRequestView::Create { key, content }) ==> {
            &&& is_snippet_key(key)
            &&& content.len() > 0
            &&& content.len() <= SNIPPET_MAX_CONTENT_CHARS
            &&& trimmed(key) == key
            &&& trimmed(content) == content
        },
        snippet_request_spec(text) matches Ok(SnippetRequestView::Edit { key, content }) ==> {
            &&& key.len() > 0
            &&& content.len() > 0
            &&& content.len() <= SNIPPET_MAX_CONTENT_CHARS
            &&& trimmed(key) == key
            &&& trimmed(content) == content
        },
{
    let (first, rest) = split_at_space(text);
    let args = trimmed(or_empty(rest));
    let (k, c) = split_at_space(args);
    crate::text::lemma_trim_idempotent(k);
    crate::text::lemma_trim_idempotent(or_empty(c));
}

fn read_key_and_content(args: &str) -> (r: (&str, &str))
    ensures
        (r.0@, r.1@) == key_and_content(args@),
{
    let (k, c) = split_once_space(args);
    let content = match c {
        Some(c) => trim(c),
        None => {
            proof {
                assert(trimmed(Seq::<char>::empty()) == Seq::<char>::empty());
            }
            ""
        },
    };
    proof {
        reveal_strlit("");
    }
    (trim(k), content)
}

/// Reads the text form of the snippet command (the text after `snippet`).
pub fn parse_snippet_request(text: &str) -> (r: Result<SnippetRequest, SnippetError>)
    ensures
        match r {
            Ok(req) => snippet_request_spec(text@) == Ok::<SnippetRequestView, SnippetError>(req@),
            Err(e) => snippet_request_spec(text@) == Err::<SnippetRequestView, SnippetError>(e),
        },
{
    proof {
        reveal_strlit("");
        assert(trimmed(Seq::<char>::empty()) == Seq::<char>::empty());
    }
    let (first, rest) = split_once_space(text);
    let sub = trim(first);
    let args = match rest {
        Some(r) => trim(r),
        None => "",
    };
    if str_eq(sub, "create") {
        let (key, content) = read_key_and_content(args);
        if key.unicode_len() == 0 || content.unicode_len() == 0 {
            Ok(SnippetRequest::Usage { key: "snippet.text_create_usage" })
        } else {
            match check_new_snippet(key, content) {
                Ok(_) => Ok(SnippetRequest::Create { key: key.to_owned(), content: content.to_owned() }),
                Err(e) => Err(e),
            }
        }
    } else if str_eq(sub, "list") {
        Ok(SnippetRequest::List)
    } else if str_eq(sub, "show") {
        let key = trim(args);
        if key.unicode_len() == 0 {
            Ok(SnippetRequest::Usage { key: "snippet.text_show_usage" })
        } else {
            Ok(SnippetRequest::Show { key: key.to_owned() })
        }
    } else if str_eq(sub, "edit") {
        let (key, content) = read_key_and_content(args);
        if key.unicode_len() == 0 || content.unicode_len() == 0 {
            Ok(SnippetRequest::Usage { key: "snippet.text_edit_usage" })
        } else if content.unicode_len() > SNIPPET_MAX_CONTENT_CHARS {
            Err(SnippetError::ContentTooLong)
        } else {
            Ok(SnippetRequest::Edit { key: key.to_owned(), content: content.to_owned() })
        }
    } else if str_eq(sub, "delete") {
        let key = trim(args);
        if key.unicode_len() == 0 {
            Ok(SnippetRequest::Usage { key: "snippet.text_delete_usage" })
        } else {
            Ok(SnippetRequest::Delete { key: key.to_owned() })
        }
    } else if str_eq(sub, "use") {
        let key = trim(args);
        if key.unicode_len() == 0 {
            Ok(SnippetRequest::Usage { key: "snippet.text_usage" })
        } else {
            Ok(SnippetRequest::Use { key: key.to_owned() })
        }
    } else if args.unicode_len() == 0 && matches_key_pattern(sub) {
        Ok(SnippetRequest::Use { key: sub.to_owned() })
    } else {
        Ok(SnippetRequest::UnknownSubcommand)
    }
}


/// How many snippets the slash listing shows.
pub const SNIPPET_LIST_LIMIT: usize = 25;

/// The line of one snippet in the slash listing: its key in bold code, then its
/// content cut to fifty bytes.
pub open spec fn listing_line(key: Seq<char>, content: Seq<char>) -> Seq<char> {
    "**`"@ + key + "`** - "@ + ellipsized(content, 50) + "\n"@
}

/// The lines of the first snippets.
pub open spec fn listing_lines(snippets: Seq<Snippet>) -> Seq<char>
    decreases snippets.len(),
{
    if snippets.len() == 0 {
        Seq::empty()
    } else {
        listing_lines(snippets.drop_last()) + listing_line(
            snippets.last().key@,
            snippets.last().content@,
        )
    }
}

/// The description of the slash listing: the lines of the first twenty-five
/// snippets, then how many more there are.
pub open spec fn snippet_listing_spec(snippets: Seq<Snippet>) -> Seq<char> {
    if snippets.len() > SNIPPET_LIST_LIMIT {
        listing_lines(snippets.take(SNIPPET_LIST_LIMIT as int)) + "\n*...and "@ + decimal(
            (snippets.len() - SNIPPET_LIST_LIMIT) as nat,
        ) + " more*"@
    } else {
        listing_lines(snippets)
    }
}

/// Whether the contents shown by the listing can be cut at their fiftieth byte.
pub open spec fn listing_cuttable(snippets: Seq<Snippet>) -> bool {
    forall|i: int|
        0 <= i < snippets.len() && i < SNIPPET_LIST_LIMIT ==> (utf8_len(
            #[trigger] snippets[i].content@,
        ) > 50 ==> is_boundary_at(snippets[i].content@, 50))
}

/// The description of the slash listing of snippets.
pub fn snippet_listing(snippets: &Vec<Snippet>) -> (r: String)
    requires
        listing_cuttable(snippets@),
    ensures
        r@ == snippet_listing_spec(snippets@),
{
    let n = if snippets.len() > SNIPPET_LIST_LIMIT {
        SNIPPET_LIST_LIMIT
    } else {
        snippets.len()
    };
    let mut r = String::new();
    let mut i: usize = 0;
    assert(snippets@.take(0) =~= Seq::<Snippet>::empty());
    while i < n
        invariant
            n <= snippets.len(),
            n <= SNIPPET_LIST_LIMIT,
            i <= n,
            listing_cuttable(snippets@),
            r@ == listing_lines(snippets@.take(i as int)),
        decreases n - i,
    {
        let s = &snippets[i];
        assert(utf8_len(snippets@[i as int].content@) > 50 ==> is_boundary_at(snippets@[i as int].content@, 50));
        let preview = ellipsize(s.content.as_str(), 50);
        r.append("**`");
        r.append(s.key.as_str());
        r.append("`** - ");
        r.append(preview.as_str());
        r.append("\n");
        assert(snippets@.take(i + 1).drop_last() =~= snippets@.take(i as int));
        assert(r@ =~= listing_lines(snippets@.take(i + 1)));
        i = i + 1;
    }
    if snippets.len() > SNIPPET_LIST_LIMIT {
        r.append("\n*...and ");
        push_decimal(&mut r, (snippets.len() - SNIPPET_LIST_LIMIT) as u64);
        r.append(" more*");
    } else {
        assert(snippets@.take(n as int) =~= snippets@);
    }
    r
}

/// The numbered lines of the text listing: position (from one) in backticks,
/// then the key, each followed by a blank line.
pub open spec fn numbered_lines(snippets: Seq<Snippet>) -> Seq<char>
    decreases snippets.len(),
{
    if snippets.len() == 0 {
        Seq::empty()
    } else {
        numbered_lines(snippets.drop_last()) + "`"@ + decimal(snippets.len()) + "` "@
            + snippets.last().key@ + "\n\n"@
    }
}

/// The text listing of snippets under its (translated) title.
pub fn snippet_text_listing(title: &str, snippets: &Vec<Snippet>) -> (r: String)
    ensures
        r@ == title@ + "\n\n"@ + numbered_lines(snippets@),
{
    let mut r = title.to_owned();
    r.append("\n\n");
    let ghost head = r@;
    let mut i: usize = 0;
    assert(snippets@.take(0) =~= Seq::<Snippet>::empty());
    while i < snippets.len()
        invariant
            i <= snippets.len(),
            r@ == head + numbered_lines(snippets@.take(i as int)),
        decreases snippets.len() - i,
    {
        r.append("`");
        push_decimal(&mut r, (i + 1) as u64);
        r.append("` ");
        r.append(snippets[i].key.as_str());
        r.append("\n\n");
        assert(snippets@.take(i + 1).drop_last() =~= snippets@.take(i as int));
        assert(r@ =~= head + numbered_lines(snippets@.take(i + 1)));
        i = i + 1;
    }
    assert(snippets@.take(snippets.len() as int) =~= snippets@);
    r
}

/// The text shown by the text form of `snippet show`.
pub open spec fn snippet_card_spec(
    title: Seq<char>,
    s: Snippet,
    created_by_label: Seq<char>,
    created_at_label: Seq<char>,
) -> Seq<char> {
    title + "\n\n"@ + s.content@ + "\n\n*"@ + created_by_label + ": <@"@ + s.created_by@
        + "> | "@ + created_at_label + ": "@ + s.created_at@ + "*"@
}

/// Shows a snippet with its author and date under the translated labels.
pub fn snippet_card(
    title: &str,
    s: &Snippet,
    created_by_label: &str,
    created_at_label: &str,
) -> (r: String)
    ensures
        r@ == snippet_card_spec(title@, *s, created_by_label@, created_at_label@),
{
    let mut r = title.to_owned();
    r.append("\n\n");
    r.append(s.content.as_str());
    r.append("\n\n*");
    r.append(created_by_label);
    r.append(": <@");
    r.append(s.created_by.as_str());
    r.append("> | ");
    r.append(created_at_label);
    r.append(": ");
    r.append(s.created_at.as_str());
    r.append("*");
    r
}

/// The key and the content given to a snippet subcommand: the last `key` and
/// `content` texts among its options, empty when absent.
pub fn snippet_arguments(options: &Vec<CommandOption>) -> (r: (String, String))
    ensures
        r.0@ == or_empty(last_text(options_view(options@), "key"@)),
        r.1@ == or_empty(last_text(options_view(options@), "content"@)),
{
    let key = match option_text(options, "key") {
        Some(k) => k,
        None => String::new(),
    };
    let content = match option_text(options, "content") {
        Some(c) => c,
        None => String::new(),
    };
    (key, content)
}

/// The `key` argument of the snippet subcommands.
pub open spec fn snippet_key_option() -> OptionView {
    plain_option(OptionKind::Text, "key"@, "slash_command.snippet_key_argument"@, true)
}

/// The `content` argument of the snippet subcommands.
pub open spec fn snippet_content_option() -> OptionView {
    plain_option(OptionKind::Text, "content"@, "slash_command.snippet_content_argument"@, true)
}

/// The `/snippet` command: the subcommands `create` (key, content), `list`,
/// `show` (key), `edit` (key, content), `delete` (key) and `use` (key), every argument
/// required text, each with the translation key of its description.
pub open spec fn snippet_command_spec() -> CommandView {
    CommandView {
        name: "snippet"@,
        kind: CommandKind::ChatInput,
        description_key: Some("slash_command.snippet_command_description"@),
        options: Seq::empty(),
        subcommands: seq![
            SubcommandView {
                name: "create"@,
                description_key: "slash_command.snippet_create_description"@,
                options: seq![snippet_key_option(), snippet_content_option()],
            },
            SubcommandView {
                name: "list"@,
                description_key: "slash_command.snippet_list_description"@,
                options: Seq::empty(),
            },
            SubcommandView {
                name: "show"@,
                description_key: "slash_command.snippet_show_description"@,
                options: seq![snippet_key_option()],
            },
            SubcommandView {
                name: "edit"@,
                description_key: "slash_command.snippet_edit_description"@,
                options: seq![snippet_key_option(), snippet_content_option()],
            },
            SubcommandView {
                name: "delete"@,
                description_key: "slash_command.snippet_delete_description"@,
                options: seq![snippet_key_option()],
            },
            SubcommandView {
                name: "use"@,
                description_key: "slash_command.snippet_use_description"@,
                options: seq![snippet_key_option()],
            },
        ],
    }
}

fn snippet_key_argument() -> (r: OptionSpec)
    ensures
        r@ == snippet_key_option(),
{
    option(OptionKind::Text, "key", "slash_command.snippet_key_argument", true)
}

fn snippet_content_argument() -> (r: OptionSpec)
    ensures
        r@ == snippet_content_option(),
{
    option(OptionKind::Text, "content", "slash_command.snippet_content_argument", true)
}

impl SnippetCommand {
    /// What `/snippet` offers to Discord.
    pub fn definition(&self) -> (r: CommandSpec)
        ensures
            r@ == snippet_command_spec(),
    {
        let mut create = Vec::new();
        create.push(snippet_key_argument());
        create.push(snippet_content_argument());
        let mut show = Vec::new();
        show.push(snippet_key_argument());
        let mut edit = Vec::new();
        edit.push(snippet_key_argument());
        edit.push(snippet_content_argument());
        let mut delete = Vec::new();
        delete.push(snippet_key_argument());
        let mut use_it = Vec::new();
        use_it.push(snippet_key_argument());
        let mut subcommands = Vec::new();
        subcommands.push(subcommand("create", "slash_command.snippet_create_description", create));
        subcommands.push(subcommand("list", "slash_command.snippet_list_description", Vec::new()));
        subcommands.push(subcommand("show", "slash_command.snippet_show_description", show));
        subcommands.push(subcommand("edit", "slash_command.snippet_edit_description", edit));
        subcommands.push(subcommand("delete", "slash_command.snippet_delete_description", delete));
        subcommands.push(subcommand("use", "slash_command.snippet_use_description", use_it));
        let r = CommandSpec {
            name: "snippet",
            kind: CommandKind::ChatInput,
            description_key: Some("slash_command.snippet_command_description"),
            options: Vec::new(),
            subcommands,
        };
        assert(r@ =~~= snippet_command_spec());
        r
    }
}

/// What a `/snippet` subcommand asks for: `create` and `edit` with their key
/// and content, `show`, `delete` and `use` with their key (empty when absent),
/// `list`, and anything else as an unknown subcommand.
pub open spec fn snippet_slash_request_spec(
    subcommand: Seq<char>,
    options: Seq<crate::commands::options::CommandOptionView>,
) -> SnippetRequestView {
    let key = or_empty(last_text(options, "key"@));
    let content = or_empty(last_text(options, "content"@));
    if subcommand == "create"@ {
        SnippetRequestView::Create { key, content }
    } else if subcommand == "list"@ {
        SnippetRequestView::List
    } else if subcommand == "show"@ {
        SnippetRequestView::Show { key }
    } else if subcommand == "edit"@ {
        SnippetRequestView::Edit { key, content }
    } else if subcommand == "delete"@ {
        SnippetRequestView::Delete { key }
    } else if subcommand == "use"@ {
        SnippetRequestView::Use { key }
    } else {
        SnippetRequestView::UnknownSubcommand
    }
}

/// Reads a `/snippet` subcommand and its options.
pub fn snippet_slash_request(subcommand: &str, options: &Vec<CommandOption>) -> (r: SnippetRequest)
    ensures
        r@ == snippet_slash_request_spec(subcommand@, options_view(options@)),
{
    let (key, content) = snippet_arguments(options);
    if str_eq(subcommand, "create") {
        SnippetRequest::Create { key, content }
    } else if str_eq(subcommand, "list") {
        SnippetRequest::List
    } else if str_eq(subcommand, "show") {
        SnippetRequest::Show { key }
    } else if str_eq(subcommand, "edit") {
        SnippetRequest::Edit { key, content }
    } else if str_eq(subcommand, "delete") {
        SnippetRequest::Delete { key }
    } else if str_eq(subcommand, "use") {
        SnippetRequest::Use { key }
    } else {
        SnippetRequest::UnknownSubcommand
    }
}

/// What using a snippet gives: its content, sent to the ticket's user as a
/// reply, when the snippet exists.
#[derive(Debug)]
pub enum SnippetUse {
    /// Send this content to the user, then answer `snippet.used`.
    Send { content: String },
    /// Answer `snippet.not_found`.
    NotFound,
}

/// Decides the use of the snippet that the lookup found, if any.
pub fn snippet_use(found: Option<&Snippet>) -> (r: SnippetUse)
    ensures
        match found {
            Some(s) => r matches SnippetUse::Send { content } && content@ == s.content@,
            None => r is NotFound,
        },
{
    match found {
        Some(s) => SnippetUse::Send { content: s.content.clone() },
        None => SnippetUse::NotFound,
    }
}

/// The answer of `/snippet list`: the listing, or, when there are no snippets,
/// the translation key `snippet.no_snippets_found`.
pub fn snippet_list_reply(snippets: &Vec<Snippet>) -> (r: Result<String, &'static str>)
    requires
        listing_cuttable(snippets@),
    ensures
        snippets.len() == 0 ==> r == Err::<String, &'static str>("snippet.no_snippets_found"),
        snippets.len() > 0 ==> (r matches Ok(t) && t@ == snippet_listing_spec(snippets@)),
{
    if snippets.len() == 0 {
        Err("snippet.no_snippets_found")
    } else {
        Ok(snippet_listing(snippets))
    }
}

/// The answer of `!snippet list`: the numbered listing under `title`, or, when
/// there are no snippets, the translation key `snippet.list_empty`.
pub fn snippet_text_list_reply(title: &str, snippets: &Vec<Snippet>) -> (r: Result<String, &'static str>)
    ensures
        snippets.len() == 0 ==> r == Err::<String, &'static str>("snippet.list_empty"),
        snippets.len() > 0 ==> (r matches Ok(t) && t@ == title@ + "\n\n"@ + numbered_lines(snippets@)),
{
    if snippets.len() == 0 {
        Err("snippet.list_empty")
    } else {
        Ok(snippet_text_listing(title, snippets))
    }
}

/// A new snippet is accepted exactly when its key is made of one or more ASCII
/// letters, digits, `_` and `-`, and its content holds at most 4000 characters;
/// a bad key is reported before a long content.
pub proof fn lemma_new_snippet_checks(key: Seq<char>, content: Seq<char>)
    ensures
        new_snippet_check(key, content) is Ok <==> (key.len() > 0 && (forall|i: int|
            0 <= i < key.len() ==> ('a' <= #[trigger] key[i] <= 'z' || 'A' <= key[i] <= 'Z' || '0'
                <= key[i] <= '9' || key[i] == '_' || key[i] == '-')) && content.len() <= 4000),
        (key.len() == 0 || exists|i: int|
            0 <= i < key.len() && !('a' <= #[trigger] key[i] <= 'z' || 'A' <= key[i] <= 'Z' || '0'
                <= key[i] <= '9' || key[i] == '_' || key[i] == '-')) ==> new_snippet_check(key, content)
            == Err::<(), SnippetError>(SnippetError::InvalidKeyFormat),
{
}

/// The text form `use <key>` uses the snippet named by the key, and so does a
/// lone word that is a snippet key (`!snippet <key>`).
pub proof fn lemma_snippet_use_requests(key: Seq<char>)
    requires
        key.len() > 0,
        forall|i: int| 0 <= i < key.len() ==> is_key_char(#[trigger] key[i]),
        key != "create"@ && key != "list"@ && key != "show"@ && key != "edit"@ && key != "delete"@
            && key != "use"@,
    ensures
        snippet_request_spec("use "@ + key) == Ok::<SnippetRequestView, SnippetError>(
            SnippetRequestView::Use { key },
        ),
        snippet_request_spec(key) == Ok::<SnippetRequestView, SnippetError>(
            SnippetRequestView::Use { key },
        ),
{
    reveal_strlit("use ");
    reveal_strlit("use");
    reveal_strlit("create");
    reveal_strlit("list");
    reveal_strlit("show");
    reveal_strlit("edit");
    reveal_strlit("delete");
    assert("use"@.len() == 3 && "use"@[0] == 'u');
    assert("create"@.len() == 6 && "list"@.len() == 4 && "show"@.len() == 4);
    assert("edit"@.len() == 4 && "delete"@.len() == 6);
    assert forall|i: int| 0 <= i < key.len() implies key[i] != ' ' && !is_white_space(#[trigger] key[i]) by {
        assert(is_key_char(key[i]));
    }
    let t = "use "@ + key;
    assert forall|k: int| 0 <= k < 3 implies t[k] != ' ' by {}
    crate::text::lemma_find_char_at(t, ' ', 3);
    assert(t.subrange(0, 3) =~= "use"@);
    assert(t.subrange(4, t.len() as int) =~= key);
    assert(split_at_space(t) == ("use"@, Some(key)));
    crate::text::lemma_find_char_at(key, ' ', key.len() as int);
    lemma_trimmed_no_white(key);
    lemma_trimmed_no_white("use"@);
    reveal_strlit("");
    lemma_trimmed_no_white(Seq::<char>::empty());
}

proof fn lemma_trimmed_no_white(s: Seq<char>)
    requires
        forall|i: int| 0 <= i < s.len() ==> !is_white_space(#[trigger] s[i]),
    ensures
        trimmed(s) == s,
{
    crate::text::lemma_trim_idempotent(s);
    if s.len() > 0 {
        assert(!is_white_space(s[0]));
        assert(!is_white_space(s.last()));
    }
}

} // verus!
