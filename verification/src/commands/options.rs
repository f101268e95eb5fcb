use crate::text::{opt_view, str_eq};
use vstd::prelude::*;

verus! {

/// What an option of a slash command carries, as far as the commands read it.
#[derive(Clone, Debug)]
pub enum OptionValue {
    Text(String),
    Attachment(u64),
    Flag(bool),
    User(u64),
    Other,
}

/// The value of an option, with its text as characters.
pub enum OptionValueView {
    Text(Seq<char>),
    Attachment(u64),
    Flag(bool),
    User(u64),
    Other,
}

impl View for OptionValue {
    type V = OptionValueView;

    open spec fn view(&self) -> OptionValueView {
        match self {
            OptionValue::Text(t) => OptionValueView::Text(t@),
            OptionValue::Attachment(id) => OptionValueView::Attachment(*id),
            OptionValue::Flag(b) => OptionValueView::Flag(*b),
            OptionValue::User(id) => OptionValueView::User(*id),
            OptionValue::Other => OptionValueView::Other,
        }
    }
}

/// A named option of a slash command.
#[derive(Clone, Debug)]
pub struct CommandOption {
    pub name: String,
    pub value: OptionValue,
}

/// An option, with its name as characters.
pub struct CommandOptionView {
    pub name: Seq<char>,
    pub value: OptionValueView,
}

impl View for CommandOption {
    type V = CommandOptionView;

    open spec fn view(&self) -> CommandOptionView {
        CommandOptionView { name: self.name@, value: self.value@ }
    }
}

/// The options as values.
pub open spec fn options_view(options: Seq<CommandOption>) -> Seq<CommandOptionView> {
    options.map_values(|o: CommandOption| o@)
}

/// The text an option value carries, if it is text.
pub open spec fn text_value(v: OptionValueView) -> Option<Seq<char>> {
    match v {
        OptionValueView::Text(t) => Some(t),
        _ => None,
    }
}

/// The flag an option value carries, if it is a flag.
pub open spec fn flag_value(v: OptionValueView) -> Option<bool> {
    match v {
        OptionValueView::Flag(b) => Some(b),
        _ => None,
    }
}

/// The text of the last option called `name` that carries text.
pub open spec fn last_text(options: Seq<CommandOptionView>, name: Seq<char>) -> Option<Seq<char>>
    decreases options.len(),
{
    if options.len() == 0 {
        None
    } else if options.last().name == name && text_value(options.last().value) is Some {
        text_value(options.last().value)
    } else {
        last_text(options.drop_last(), name)
    }
}

/// The flag of the last option called `name` that carries a flag.
pub open spec fn last_flag(options: Seq<CommandOptionView>, name: Seq<char>) -> Option<bool>
    decreases options.len(),
{
    if options.len() == 0 {
        None
    } else if options.last().name == name && flag_value(options.last().value) is Some {
        flag_value(options.last().value)
    } else {
        last_flag(options.drop_last(), name)
    }
}

/// The attachment ids of the options called `name`, in order.
pub open spec fn attachments_named(options: Seq<CommandOptionView>, name: Seq<char>) -> Seq<u64>
    decreases options.len(),
{
    if options.len() == 0 {
        Seq::empty()
    } else {
        let rest = attachments_named(options.drop_last(), name);
        match options.last().value {
            OptionValueView::Attachment(id) => if options.last().name == name {
                rest.push(id)
            } else {
                rest
            },
            _ => rest,
        }
    }
}

/// The value of the first option called `name`.
pub open spec fn first_named(options: Seq<CommandOptionView>, name: Seq<char>) -> Option<
    OptionValueView,
>
    decreases options.len(),
{
    if options.len() == 0 {
        None
    } else if options[0].name == name {
        Some(options[0].value)
    } else {
        first_named(options.drop_first(), name)
    }
}

proof fn lemma_take_last(options: Seq<CommandOption>, i: int)
    requires
        0 <= i < options.len(),
    ensures
        options_view(options.take(i + 1)).drop_last() == options_view(options.take(i)),
        options_view(options.take(i + 1)).last() == options[i]@,
        options_view(options.take(i + 1)).len() == i + 1,
{
    assert(options_view(options.take(i + 1)).drop_last() =~= options_view(options.take(i)));
}

/// The text of the last option called `name` that carries text.
pub fn option_text(options: &Vec<CommandOption>, name: &str) -> (r: Option<String>)
    ensures
        opt_view(r) == last_text(options_view(options@), name@),
{
    let mut found: Option<String> = None;
    let mut i: usize = 0;
    assert(options_view(options@.take(0)) =~= Seq::<CommandOptionView>::empty());
    while i < options.len()
        invariant
            i <= options.len(),
            opt_view(found) == last_text(options_view(options@.take(i as int)), name@),
        decreases options.len() - i,
    {
        proof {
            lemma_take_last(options@, i as int);
        }
        let o = &options[i];
        if str_eq(o.name.as_str(), name) {
            match &o.value {
                OptionValue::Text(t) => {
                    found = Some(t.clone());
                },
                _ => {},
            }
        }
        i = i + 1;
    }
    assert(options@.take(options.len() as int) =~= options@);
    found
}

/// The flag of the last option called `name` that carries a flag.
pub fn option_flag(options: &Vec<CommandOption>, name: &str) -> (r: Option<bool>)
    ensures
        r == last_flag(options_view(options@), name@),
{
    let mut found: Option<bool> = None;
    let mut i: usize = 0;
    assert(options_view(options@.take(0)) =~= Seq::<CommandOptionView>::empty());
    while i < options.len()
        invariant
            i <= options.len(),
            found == last_flag(options_view(options@.take(i as int)), name@),
        decreases options.len() - i,
    {
        proof {
            lemma_take_last(options@, i as int);
        }
        let o = &options[i];
        if str_eq(o.name.as_str(), name) {
            match &o.value {
                OptionValue::Flag(b) => {
                    found = Some(*b);
                },
                _ => {},
            }
        }
        i = i + 1;
    }
    assert(options@.take(options.len() as int) =~= options@);
    found
}

/// The attachment ids of the options called `name`, in order.
pub fn option_attachments(options: &Vec<CommandOption>, name: &str) -> (r: Vec<u64>)
    ensures
        r@ == attachments_named(options_view(options@), name@),
{
    let mut ids: Vec<u64> = Vec::new();
    let mut i: usize = 0;
    assert(options_view(options@.take(0)) =~= Seq::<CommandOptionView>::empty());
    while i < options.len()
        invariant
            i <= options.len(),
            ids@ == attachments_named(options_view(options@.take(i as int)), name@),
        decreases options.len() - i,
    {
        proof {
            lemma_take_last(options@, i as int);
        }
        let o = &options[i];
        match &o.value {
            OptionValue::Attachment(id) => {
                if str_eq(o.name.as_str(), name) {
                    ids.push(*id);
                }
            },
            _ => {},
        }
        i = i + 1;
    }
    assert(options@.take(options.len() as int) =~= options@);
    ids
}

/// The value of the first option called `name`.
pub fn first_option(options: &Vec<CommandOption>, name: &str) -> (r: Option<OptionValue>)
    ensures
        match r {
            Some(v) => first_named(options_view(options@), name@) == Some(v@),
            None => first_named(options_view(options@), name@) is None,
        },
{
    let mut i: usize = 0;
    assert(options@.skip(0) =~= options@);
    while i < options.len()
        invariant
            i <= options.len(),
            first_named(options_view(options@), name@) == first_named(
                options_view(options@.skip(i as int)),
                name@,
            ),
        decreases options.len() - i,
    {
        proof {
            assert(options_view(options@.skip(i as int)).drop_first() =~= options_view(
                options@.skip(i as int + 1),
            ));
            assert(options_view(options@.skip(i as int))[0] == options@[i as int]@);
        }
        if str_eq(options[i].name.as_str(), name) {
            let v = match &options[i].value {
                OptionValue::Text(t) => OptionValue::Text(t.clone()),
                OptionValue::Attachment(id) => OptionValue::Attachment(*id),
                OptionValue::Flag(b) => OptionValue::Flag(*b),
                OptionValue::User(id) => OptionValue::User(*id),
                OptionValue::Other => OptionValue::Other,
            };
            return Some(v);
        }
        i = i + 1;
    }
    assert(options_view(options@.skip(i as int)) =~= Seq::<CommandOptionView>::empty());
    None
}

} // verus!
