//! Commands: their errors, the responses that answer them, embeds and the
//! rules shared by every command.
use vstd::prelude::*;
pub mod args;
pub mod cooldown;
pub mod definitions;
pub mod dryupdate;
pub mod forcelink;
pub mod forceupdate;
pub mod dispatch;
pub mod interactions;
pub mod link;
pub mod masslink;
pub mod linked;
pub mod sendverification;
pub mod split_laws;
pub mod unlink;
pub mod updateloop;

use crate::text::{
    append_str, byte_len, chars_of, decimal, lemma_utf8_len_concat, owned, push_char, split_whitespace,
    utf8_len, words, write_u64,
};

verus! {

/// The colour of the bot's ordinary embeds.
pub const EMBED_COLOR: u32 = 0x22CBE6;

/// The colour of the bot's error embeds.
pub const ERROR_COLOR: u32 = 0xFF0000;

/// The bit of a message's flags that makes it visible to its addressee only.
pub const EPHEMERAL: u64 = 64;

/// One field of an embed.
pub struct EmbedField {
    pub name: String,
    pub value: String,
}

/// An embed of a Discord message, as far as the bot builds and reads it.
pub struct Embed {
    /// The author's name, if the embed names an author.
    pub author: Option<String>,
    pub color: Option<u32>,
    pub description: Option<String>,
    pub fields: Vec<EmbedField>,
    /// The footer's text, if the embed has a footer.
    pub footer: Option<String>,
    pub kind: String,
    pub title: Option<String>,
}

/// The mathematical content of an [`Embed`].
pub struct EmbedView {
    pub author: Option<Seq<char>>,
    pub color: Option<u32>,
    pub description: Option<Seq<char>>,
    pub fields: Seq<(Seq<char>, Seq<char>)>,
    pub footer: Option<Seq<char>>,
    pub kind: Seq<char>,
    pub title: Option<Seq<char>>,
}

impl View for Embed {
    type V = EmbedView;

    open spec fn view(&self) -> EmbedView {
        EmbedView {
            author: self.author.deep_view(),
            color: self.color,
            description: self.description.deep_view(),
            fields: self.fields@.map_values(|f: EmbedField| (f.name@, f.value@)),
            footer: self.footer.deep_view(),
            kind: self.kind@,
            title: self.title.deep_view(),
        }
    }
}

impl EmbedView {
    /// The counts of `self` and `template`, with a separator, leave room for
    /// the sums that splitting text across them makes.
    pub open spec fn total_chars_bound(self, template: EmbedView, sep: Seq<char>) -> bool {
        chars_no_desc(self) + chars_no_desc(template) + utf8_len(sep) + 20000 <= usize::MAX
    }

    /// This embed with `d` as its description.
    pub open spec fn with_description(self, d: Seq<char>) -> EmbedView {
        EmbedView { description: Some(d), ..self }
    }
}

/// The length of an optional text, zero where there is none.
pub open spec fn opt_len(s: Option<Seq<char>>) -> nat {
    match s {
        Some(t) => utf8_len(t),
        None => 0,
    }
}

/// The bytes of the fields' names and values, summed over the first `n` fields.
pub open spec fn fields_len(fields: Seq<(Seq<char>, Seq<char>)>, n: int) -> nat
    decreases n,
{
    if n <= 0 {
        0
    } else {
        fields_len(fields, n - 1) + utf8_len(fields[n - 1].0) + utf8_len(fields[n - 1].1)
    }
}

/// The characters an embed counts towards Discord's limits, its description
/// left out: title, author's name, footer, and the fields' names and values.
pub open spec fn chars_no_desc(e: EmbedView) -> nat {
    opt_len(e.title) + opt_len(e.author) + opt_len(e.footer) + fields_len(e.fields, e.fields.len() as int)
}

/// All the characters an embed counts towards Discord's limits.
pub open spec fn embed_chars(e: EmbedView) -> nat {
    chars_no_desc(e) + opt_len(e.description)
}

/// An embed of the bot's colour with the given title and description.
pub open spec fn plain_embed(title: Option<Seq<char>>, description: Option<Seq<char>>) -> EmbedView {
    EmbedView {
        author: None,
        color: Some(EMBED_COLOR),
        description,
        fields: Seq::empty(),
        footer: None,
        kind: "rich"@,
        title,
    }
}

/// An error embed with the given title and description.
pub open spec fn error_embed_view(title: Option<Seq<char>>, description: Option<Seq<char>>) -> EmbedView {
    EmbedView {
        author: None,
        color: Some(ERROR_COLOR),
        description,
        fields: Seq::empty(),
        footer: None,
        kind: "rich"@,
        title,
    }
}

fn opt_copy(s: &Option<String>) -> (r: Option<String>)
    ensures
        r.deep_view() == s.deep_view(),
{
    match s {
        Some(t) => Some(t.clone()),
        None => None,
    }
}

impl Embed {
    /// A copy of this embed.
    pub fn duplicate(&self) -> (r: Embed)
        ensures
            r@ == self@,
    {
        let mut fields: Vec<EmbedField> = Vec::new();
        let n = self.fields.len();
        let mut i: usize = 0;
        while i < n
            invariant
                n == self.fields@.len(),
                i <= n,
                fields@.len() == i,
                forall|j: int|
                    0 <= j < i ==> #[trigger] fields@[j].name@ == self.fields@[j].name@
                        && fields@[j].value@ == self.fields@[j].value@,
            decreases n - i,
        {
            fields.push(
                EmbedField { name: self.fields[i].name.clone(), value: self.fields[i].value.clone() },
            );
            i = i + 1;
        }
        let r = Embed {
            author: opt_copy(&self.author),
            color: self.color,
            description: opt_copy(&self.description),
            fields,
            footer: opt_copy(&self.footer),
            kind: self.kind.clone(),
            title: opt_copy(&self.title),
        };
        assert(r.fields@.map_values(|f: EmbedField| (f.name@, f.value@)) =~= self.fields@.map_values(
            |f: EmbedField| (f.name@, f.value@),
        ));
        r
    }
}

fn make_plain_embed(title: Option<String>, description: Option<String>) -> (e: Embed)
    ensures
        e@ == plain_embed(title.deep_view(), description.deep_view()),
{
    let e = Embed {
        author: None,
        color: Some(EMBED_COLOR),
        description,
        fields: Vec::new(),
        footer: None,
        kind: owned("rich"),
        title,
    };
    assert(e@.fields =~= Seq::<(Seq<char>, Seq<char>)>::empty());
    e
}

/// An embed with a title and a description.
pub fn make_embed(title: String, description: String) -> (e: Embed)
    ensures
        e@ == plain_embed(Some(title@), Some(description@)),
{
    make_plain_embed(Some(title), Some(description))
}

/// An embed with a description and no title.
pub fn make_titleless_embed(description: String) -> (e: Embed)
    ensures
        e@ == plain_embed(None, Some(description@)),
{
    make_plain_embed(None, Some(description))
}

/// An embed with a title and no description.
pub fn make_descless_embed(title: String) -> (e: Embed)
    ensures
        e@ == plain_embed(Some(title@), None),
{
    make_plain_embed(Some(title), None)
}

/// An embed with neither title nor description.
pub fn make_empty_embed() -> (e: Embed)
    ensures
        e@ == plain_embed(None, None),
{
    make_plain_embed(None, None)
}

/// An error embed with the given title and description.
pub fn error_embed(title: Option<String>, description: Option<String>) -> (e: Embed)
    ensures
        e@ == error_embed_view(title.deep_view(), description.deep_view()),
{
    let e = Embed {
        author: None,
        color: Some(ERROR_COLOR),
        description,
        fields: Vec::new(),
        footer: None,
        kind: owned("rich"),
        title,
    };
    assert(e@.fields =~= Seq::<(Seq<char>, Seq<char>)>::empty());
    e
}

fn opt_byte_len(s: &Option<String>) -> (n: usize)
    ensures
        n == opt_len(s.deep_view()),
{
    match s {
        Some(t) => byte_len(t),
        None => 0,
    }
}

/// The characters of `embed` that count towards Discord's limits, its
/// description left out.
pub fn count_embed_chars_no_desc(embed: &Embed) -> (count: usize)
    requires
        chars_no_desc(embed@) <= usize::MAX,
    ensures
        count == chars_no_desc(embed@),
{
    let ghost fs = embed@.fields;
    let mut count: usize = opt_byte_len(&embed.title);
    count = count + opt_byte_len(&embed.author);
    count = count + opt_byte_len(&embed.footer);
    let n = embed.fields.len();
    assert(fields_len(fs, 0) == 0);
    let mut i: usize = 0;
    while i < n
        invariant
            i <= n,
            n == embed.fields@.len(),
            fs == embed@.fields,
            chars_no_desc(embed@) <= usize::MAX,
            count == opt_len(embed@.title) + opt_len(embed@.author) + opt_len(embed@.footer)
                + fields_len(fs, i as int),
        decreases n - i,
    {
        assert(fs[i as int] == (embed.fields@[i as int].name@, embed.fields@[i as int].value@));
        proof {
            lemma_fields_len_mono(fs, i + 1, fs.len() as int);
        }
        count = count + byte_len(&embed.fields[i].name) + byte_len(&embed.fields[i].value);
        i = i + 1;
    }
    count
}

/// Summing over more fields never gives less.
pub proof fn lemma_fields_len_mono(fields: Seq<(Seq<char>, Seq<char>)>, a: int, b: int)
    requires
        0 <= a <= b,
    ensures
        fields_len(fields, a) <= fields_len(fields, b),
    decreases b - a,
{
    if a < b {
        lemma_fields_len_mono(fields, a, b - 1);
    }
}

/// A message component the bot sends.
pub enum Component {
    /// An enabled button of the primary style.
    Button { custom_id: String, label: String },
    /// A required single-line text input.
    TextInput {
        custom_id: String,
        label: String,
        min_length: u16,
        max_length: u16,
        placeholder: String,
    },
}

/// A row of message components.
pub struct ActionRow {
    pub components: Vec<Component>,
}

/// What the bot answers: the parts of a message or of an interaction response.
pub struct CommandResponse {
    pub content: Option<String>,
    pub components: Option<Vec<ActionRow>>,
    pub embeds: Option<Vec<Embed>>,
    /// The message flags, as their bits.
    pub flags: Option<u64>,
}

/// The mathematical content of a [`CommandResponse`].
pub struct ResponseView {
    pub content: Option<Seq<char>>,
    pub components: Option<Seq<ActionRow>>,
    pub embeds: Option<Seq<EmbedView>>,
    pub flags: Option<u64>,
}

impl View for CommandResponse {
    type V = ResponseView;

    open spec fn view(&self) -> ResponseView {
        ResponseView {
            content: self.content.deep_view(),
            components: match self.components {
                Some(c) => Some(c@),
                None => None,
            },
            embeds: match self.embeds {
                Some(e) => Some(e@.map_values(|x: Embed| x@)),
                None => None,
            },
            flags: self.flags,
        }
    }
}

/// The response with nothing set.
pub open spec fn empty_response() -> ResponseView {
    ResponseView { content: None, components: None, embeds: None, flags: None }
}

/// A response made of the given embeds and nothing else.
pub open spec fn embeds_response(embeds: Seq<EmbedView>) -> ResponseView {
    ResponseView { embeds: Some(embeds), ..empty_response() }
}

impl CommandResponse {
    /// The response with nothing set.
    pub fn new() -> (r: CommandResponse)
        ensures
            r@ == empty_response(),
    {
        CommandResponse { content: None, components: None, embeds: None, flags: None }
    }
}

fn embed_response(e: Embed) -> (r: CommandResponse)
    ensures
        r@ == embeds_response(seq![e@]),
{
    let ghost v = e@;
    let mut embeds: Vec<Embed> = Vec::new();
    embeds.push(e);
    let r = CommandResponse { content: None, components: None, embeds: Some(embeds), flags: None };
    assert(r@.embeds->0 =~= seq![v]);
    r
}

/// Why a command did not run as asked.
#[derive(Debug)]
pub enum MissingRequirement {
    /// Only the bot's owner may run the command.
    BotOwnerOnly,
    /// Any other missing permission, with the text to show.
    General(String),
}

/// How a command failed. This decides what the bot answers.
#[derive(Debug)]
pub enum CommandError {
    /// The bot may not reply; nothing more is tried.
    NoMsgPermission,
    /// The user may not run the command.
    MissingRequirement(MissingRequirement),
    /// The arguments were invalid.
    InvalidArgs(String),
    /// The arguments were invalid; the command's usage is shown with the message.
    InvalidArgsWithUsage(String, String),
    /// The command is on cooldown for this many more nanoseconds.
    Cooldown(u64),
    /// An unexpected error.
    Generic,
    /// An error with a message of its own.
    Specific(String),
}

/// The mathematical content of a [`CommandError`].
pub enum CommandErrorView {
    NoMsgPermission,
    BotOwnerOnly,
    General(Seq<char>),
    InvalidArgs(Seq<char>),
    InvalidArgsWithUsage(Seq<char>, Seq<char>),
    Cooldown(u64),
    Generic,
    Specific(Seq<char>),
}

impl View for CommandError {
    type V = CommandErrorView;

    open spec fn view(&self) -> CommandErrorView {
        match self {
            CommandError::NoMsgPermission => CommandErrorView::NoMsgPermission,
            CommandError::MissingRequirement(MissingRequirement::BotOwnerOnly) => CommandErrorView::BotOwnerOnly,
            CommandError::MissingRequirement(MissingRequirement::General(m)) => CommandErrorView::General(m@),
            CommandError::InvalidArgs(m) => CommandErrorView::InvalidArgs(m@),
            CommandError::InvalidArgsWithUsage(m, u) => CommandErrorView::InvalidArgsWithUsage(m@, u@),
            CommandError::Cooldown(n) => CommandErrorView::Cooldown(*n),
            CommandError::Generic => CommandErrorView::Generic,
            CommandError::Specific(m) => CommandErrorView::Specific(m@),
        }
    }
}

/// The text shown where a command is for the bot's owner only.
pub open spec fn owner_only_text() -> Seq<char> {
    "This command can only be used by the owner of the bot."@
}

/// The text shown for an unexpected error.
pub open spec fn generic_text() -> Seq<char> {
    "Sorry, there was an unexpected error."@
}

/// The title of the embed that reports invalid arguments.
pub open spec fn invalid_args_title() -> Seq<char> {
    "Invalid Arguments Provided"@
}

/// The message of an invalid-arguments error followed by the command's usage.
pub open spec fn with_usage_text(msg: Seq<char>, usage: Seq<char>) -> Seq<char> {
    msg + "\n\n**Usage**:\n```\n"@ + usage + "\n```"@
}

/// The whole seconds left of a cooldown of `nanos` nanoseconds, plus one.
pub open spec fn cooldown_secs(nanos: u64) -> nat {
    (nanos / 1_000_000_000) as nat + 1
}

/// The text that asks a user to wait for the end of a cooldown.
pub open spec fn cooldown_text(nanos: u64) -> Seq<char> {
    let secs = cooldown_secs(nanos);
    "Please wait "@ + decimal(secs) + " second"@ + (if secs == 1 {
        Seq::<char>::empty()
    } else {
        "s"@
    }) + " before using this command again."@
}

/// What the bot answers to a failed command.
pub open spec fn error_response(e: CommandErrorView) -> ResponseView {
    match e {
        CommandErrorView::NoMsgPermission => empty_response(),
        CommandErrorView::BotOwnerOnly => embeds_response(
            seq![error_embed_view(None, Some(owner_only_text()))],
        ),
        CommandErrorView::General(m) => embeds_response(seq![error_embed_view(None, Some(m))]),
        CommandErrorView::InvalidArgs(m) => embeds_response(
            seq![error_embed_view(Some(invalid_args_title()), Some(m))],
        ),
        CommandErrorView::InvalidArgsWithUsage(m, u) => embeds_response(
            seq![error_embed_view(Some(invalid_args_title()), Some(with_usage_text(m, u)))],
        ),
        CommandErrorView::Cooldown(n) => embeds_response(
            seq![error_embed_view(None, Some(cooldown_text(n)))],
        ),
        CommandErrorView::Generic => embeds_response(
            seq![error_embed_view(None, Some(generic_text()))],
        ),
        CommandErrorView::Specific(m) => embeds_response(seq![error_embed_view(None, Some(m))]),
    }
}

impl CommandError {
    /// The response that tells the user about this error.
    pub fn into_response(self) -> (r: CommandResponse)
        ensures
            r@ == error_response(self@),
    {
        match self {
            CommandError::NoMsgPermission => CommandResponse::new(),
            CommandError::MissingRequirement(req) => match req {
                MissingRequirement::BotOwnerOnly => embed_response(
                    error_embed(None, Some(owned("This command can only be used by the owner of the bot."))),
                ),
                MissingRequirement::General(msg) => embed_response(error_embed(None, Some(msg))),
            },
            CommandError::InvalidArgs(msg) => embed_response(
                error_embed(Some(owned("Invalid Arguments Provided")), Some(msg)),
            ),
            CommandError::InvalidArgsWithUsage(msg, usage) => {
                let mut d = msg;
                append_str(&mut d, "\n\n**Usage**:\n```\n");
                append_str(&mut d, usage.as_str());
                append_str(&mut d, "\n```");
                embed_response(error_embed(Some(owned("Invalid Arguments Provided")), Some(d)))
            },
            CommandError::Cooldown(nanos) => {
                let secs = nanos / 1_000_000_000 + 1;
                let mut d = owned("Please wait ");
                write_u64(&mut d, secs);
                append_str(&mut d, " second");
                if secs != 1 {
                    append_str(&mut d, "s");
                }
                append_str(&mut d, " before using this command again.");
                proof {
                    let e: Seq<char> = Seq::empty();
                    if secs == 1 {
                        assert("Please wait "@ + decimal(secs as nat) + " second"@ =~= "Please wait "@
                            + decimal(secs as nat) + " second"@ + e);
                    }
                }
                embed_response(error_embed(None, Some(d)))
            },
            CommandError::Generic => embed_response(
                error_embed(None, Some(owned("Sorry, there was an unexpected error."))),
            ),
            CommandError::Specific(msg) => embed_response(error_embed(None, Some(msg))),
        }
    }
}

/// The most bytes an embed's description may hold.
pub const DESCRIPTION_LIMIT: usize = 4096;

/// The most characters all the embeds of one message may hold together.
pub const EMBEDS_TOTAL_LIMIT: usize = 6000;

/// Splitting a text across embeds failed.
#[derive(Debug)]
pub enum SplitAcrossEmbedsError {
    /// One part is longer than an embed's description may be.
    Unsplittable,
}

/// Where the split of parts across embeds stands: the descriptions so far
/// (the last is the one being filled), the characters counted so far, whether
/// the next part needs a separator first, and how many parts were taken up.
pub struct SplitState {
    pub descs: Seq<Seq<char>>,
    pub total: nat,
    pub pending: bool,
    pub index: nat,
}

/// The split of the remaining `parts` from state `st`: the descriptions and
/// the index at which the parts stopped fitting (zero where all fit), or
/// `None` where a part is longer than a description may be.
pub open spec fn split_rest(st: SplitState, parts: Seq<Seq<char>>, sep: Seq<char>, count_temp: nat) -> Option<(Seq<Seq<char>>, nat)>
    decreases parts.len(),
{
    if parts.len() == 0 {
        Some((st.descs, 0))
    } else {
        let part = parts[0];
        let index = st.index + 1;
        if utf8_len(part) > DESCRIPTION_LIMIT {
            None
        } else {
            let sep_len: nat = if st.pending {
                utf8_len(sep)
            } else {
                0
            };
            let overflow = utf8_len(st.descs.last()) + sep_len + utf8_len(part) > DESCRIPTION_LIMIT;
            let descs = if overflow {
                st.descs.push(Seq::empty())
            } else {
                st.descs
            };
            let total: nat = if overflow {
                st.total + count_temp
            } else {
                st.total
            };
            let pending = !overflow && st.pending;
            let total2: nat = total + (if pending {
                utf8_len(sep)
            } else {
                0
            }) + utf8_len(part);
            if total2 > EMBEDS_TOTAL_LIMIT {
                Some(
                    (
                        if descs.last().len() == 0 {
                            descs.drop_last()
                        } else {
                            descs
                        },
                        index,
                    ),
                )
            } else {
                let last = if pending {
                    descs.last() + sep + part
                } else {
                    descs.last() + part
                };
                split_rest(
                    SplitState { descs: descs.drop_last().push(last), total: total2, pending: true, index },
                    parts.drop_first(),
                    sep,
                    count_temp,
                )
            }
        }
    }
}

/// The embeds made of descriptions `descs`: the first copies `first`, the
/// others copy `template`.
pub open spec fn embeds_of(first: EmbedView, template: EmbedView, descs: Seq<Seq<char>>) -> Seq<EmbedView> {
    Seq::new(
        descs.len(),
        |j: int|
            if j == 0 {
                first.with_description(descs[0])
            } else {
                template.with_description(descs[j])
            },
    )
}

/// The state in which a split starts.
pub open spec fn split_start(first: EmbedView) -> SplitState {
    SplitState { descs: seq![Seq::<char>::empty()], total: chars_no_desc(first), pending: false, index: 0 }
}

/// The split of `parts`, joined by `sep`, across embeds that copy `first` and
/// then `template`: the embeds and the index at which the parts stopped
/// fitting (zero where all fit), or `None` where a part is too long.
pub open spec fn split_result(first: EmbedView, template: EmbedView, sep: Seq<char>, parts: Seq<Seq<char>>) -> Option<(Seq<EmbedView>, nat)> {
    match split_rest(split_start(first), parts, sep, chars_no_desc(template)) {
        Some((descs, idx)) => Some((embeds_of(first, template, descs), idx)),
        None => None,
    }
}

/// A builder of [`CommandResponse`]s.
pub struct CommandResponseBuilder(CommandResponse);

impl View for CommandResponseBuilder {
    type V = ResponseView;

    closed spec fn view(&self) -> ResponseView {
        self.0@
    }
}

impl CommandResponseBuilder {
    /// A builder of the empty response.
    pub fn new() -> (b: Self)
        ensures
            b@ == empty_response(),
    {
        CommandResponseBuilder(CommandResponse::new())
    }

    /// Sets the content.
    pub fn content(self, content: String) -> (b: Self)
        ensures
            b@ == (ResponseView { content: Some(content@), ..self@ }),
    {
        let CommandResponseBuilder(r) = self;
        CommandResponseBuilder(CommandResponse { content: Some(content), ..r })
    }

    /// Sets the embeds.
    pub fn embeds(self, embeds: Vec<Embed>) -> (b: Self)
        ensures
            b@ == (ResponseView { embeds: Some(embeds@.map_values(|x: Embed| x@)), ..self@ }),
    {
        let CommandResponseBuilder(r) = self;
        CommandResponseBuilder(CommandResponse { embeds: Some(embeds), ..r })
    }

    /// Sets the components.
    pub fn components(self, components: Vec<ActionRow>) -> (b: Self)
        ensures
            b@ == (ResponseView { components: Some(components@), ..self@ }),
    {
        let CommandResponseBuilder(r) = self;
        CommandResponseBuilder(CommandResponse { components: Some(components), ..r })
    }

    /// Sets the flags.
    pub fn flags(self, flags: u64) -> (b: Self)
        ensures
            b@ == (ResponseView { flags: Some(flags), ..self@ }),
    {
        let CommandResponseBuilder(r) = self;
        CommandResponseBuilder(CommandResponse { flags: Some(flags), ..r })
    }

    /// Adds an embed after those already there.
    pub fn embed(self, embed: Embed) -> (b: Self)
        ensures
            b@ == (ResponseView {
                embeds: Some(
                    match self@.embeds {
                        Some(es) => es.push(embed@),
                        None => seq![embed@],
                    },
                ),
                ..self@
            }),
    {
        let CommandResponseBuilder(r) = self;
        let ghost ev = embed@;
        let embeds = match r.embeds {
            Some(es) => {
                let mut es = es;
                es.push(embed);
                es
            },
            None => {
                let mut es: Vec<Embed> = Vec::new();
                es.push(embed);
                es
            },
        };
        let b = CommandResponseBuilder(
            CommandResponse { content: r.content, components: r.components, embeds: Some(embeds), flags: r.flags },
        );
        assert(b@.embeds->0 =~= match self@.embeds {
            Some(es) => es.push(ev),
            None => seq![ev],
        });
        b
    }

    /// Adds an embed with a title and a description.
    pub fn etd(self, title: String, description: String) -> (b: Self)
        ensures
            b@ == self.add_embed_spec(plain_embed(Some(title@), Some(description@))),
    {
        self.embed(make_embed(title, description))
    }

    /// Adds an embed with a description.
    pub fn ed(self, description: String) -> (b: Self)
        ensures
            b@ == self.add_embed_spec(plain_embed(None, Some(description@))),
    {
        self.embed(make_titleless_embed(description))
    }

    /// Adds an embed with a title.
    pub fn et(self, title: String) -> (b: Self)
        ensures
            b@ == self.add_embed_spec(plain_embed(Some(title@), None)),
    {
        self.embed(make_descless_embed(title))
    }

    /// The response after an embed is added.
    pub open spec fn add_embed_spec(self, e: EmbedView) -> ResponseView {
        ResponseView {
            embeds: Some(
                match self@.embeds {
                    Some(es) => es.push(e),
                    None => seq![e],
                },
            ),
            ..self@
        }
    }

    /// Spreads `description`, its parts joined by `separator`, over the
    /// descriptions of embeds: the first copies `first`, the next ones copy
    /// `template`. A new embed starts where a part would not fit in the
    /// current description, and the parts stop where the embeds would hold
    /// more characters than a message may. The embeds replace those of the
    /// builder; the index returned is that of the part after the last one
    /// looked at when the parts stopped, and zero where they all fit.
    pub fn split_across_embeds(
        self,
        first: Embed,
        template: Embed,
        separator: &str,
        description: &[String],
    ) -> (r: Result<(Self, usize), SplitAcrossEmbedsError>)
        requires
            chars_no_desc(first@) + chars_no_desc(template@) + utf8_len(separator@) + 20000
                <= usize::MAX,
        ensures
            match r {
                Ok((b, idx)) => {
                    let parts = description@.map_values(|p: String| p@);
                    &&& split_result(first@, template@, separator@, parts) matches Some((es, i))
                    &&& idx == i
                    &&& b@ == (ResponseView { embeds: Some(es), ..self@ })
                },
                Err(_) => split_result(
                    first@,
                    template@,
                    separator@,
                    description@.map_values(|p: String| p@),
                ) is None,
            },
    {
        let ghost parts = description@.map_values(|p: String| p@);
        let ghost ct = chars_no_desc(template@);
        let ghost fv = first@;
        let ghost tv = template@;
        let n = description.len();
        let sep_len = separator.as_bytes().len();
        let mut total = count_embed_chars_no_desc(&first);
        let count_temp = count_embed_chars_no_desc(&template);
        let mut done: Vec<Embed> = Vec::new();
        let mut cur_embed = first;
        let mut cur = String::new();
        let mut cur_len: usize = 0;
        let mut add_separator = false;
        let mut index: usize = 0;
        let mut i: usize = 0;
        let ghost descs: Seq<Seq<char>> = seq![Seq::<char>::empty()];
        assert(parts.skip(0) =~= parts);
        while i < n
            invariant
                n == description@.len(),
                parts == description@.map_values(|p: String| p@),
                sep_len == utf8_len(separator@),
                ct == chars_no_desc(tv),
                count_temp == ct,
                fv == first@,
                tv == template@,
                fv.total_chars_bound(tv, separator@),
                i <= n,
                index == i,
                total <= EMBEDS_TOTAL_LIMIT || i == 0,
                total == chars_no_desc(fv) || i > 0,
                cur_len <= DESCRIPTION_LIMIT,
                cur_len == utf8_len(cur@),
                descs.len() == done@.len() + 1,
                descs.last() == cur@,
                cur_embed@ == (if done@.len() == 0 {
                    fv
                } else {
                    tv
                }),
                forall|j: int|
                    0 <= j < done@.len() ==> #[trigger] done@[j]@ == (if j == 0 {
                        fv
                    } else {
                        tv
                    }).with_description(descs[j]),
                split_rest(
                    SplitState { descs, total: total as nat, pending: add_separator, index: index as nat },
                    parts.skip(i as int),
                    separator@,
                    ct,
                ) == split_rest(split_start(fv), parts, separator@, ct),
            decreases n - i,
        {
            let ghost st = SplitState { descs, total: total as nat, pending: add_separator, index: index as nat };
            let ghost rest = parts.skip(i as int);
            assert(rest[0] == description@[i as int]@);
            assert(rest.drop_first() =~= parts.skip(i + 1));
            index = index + 1;
            let part = &description[i];
            let plen = byte_len(part);
            if plen > DESCRIPTION_LIMIT {
                assert(split_rest(st, rest, separator@, ct) is None);
                return Err(SplitAcrossEmbedsError::Unsplittable);
            }
            let sl = if add_separator {
                sep_len
            } else {
                0
            };
            if cur_len + sl + plen > DESCRIPTION_LIMIT {
                let mut next = template.duplicate();
                std::mem::swap(&mut next, &mut cur_embed);
                let mut fresh = String::new();
                std::mem::swap(&mut fresh, &mut cur);
                next.description = Some(fresh);
                done.push(next);
                cur_len = 0;
                add_separator = false;
                total = total + count_temp;
                proof {
                    descs = descs.push(Seq::<char>::empty());
                }
            }
            if add_separator {
                total = total + sep_len;
            }
            total = total + plen;
            if total > EMBEDS_TOTAL_LIMIT {
                let empty_last = cur.as_str().is_empty();
                if !empty_last {
                    cur_embed.description = Some(cur);
                    done.push(cur_embed);
                }
                let ghost final_descs = if empty_last {
                    descs.drop_last()
                } else {
                    descs
                };
                assert(split_rest(st, rest, separator@, ct) == Some((final_descs, index as nat)));
                assert(done@.map_values(|x: Embed| x@) =~= embeds_of(fv, tv, final_descs));
                let b = self.embeds(done);
                return Ok((b, index));
            }
            let ghost old_cur = cur@;
            let sl2 = if add_separator {
                sep_len
            } else {
                0
            };
            if add_separator {
                append_str(&mut cur, separator);
            }
            append_str(&mut cur, part.as_str());
            proof {
                lemma_utf8_len_concat(old_cur, separator@);
                lemma_utf8_len_concat(old_cur, part@);
                lemma_utf8_len_concat(old_cur + separator@, part@);
                descs = descs.drop_last().push(cur@);
            }
            cur_len = cur_len + sl2 + plen;
            add_separator = true;
            i = i + 1;
        }
        cur_embed.description = Some(cur);
        done.push(cur_embed);
        assert(parts.skip(n as int) =~= Seq::<Seq<char>>::empty());
        assert(done@.map_values(|x: Embed| x@) =~= embeds_of(fv, tv, descs));
        let b = self.embeds(done);
        Ok((b, 0))
    }

    /// The response built.
    pub fn build(self) -> (r: CommandResponse)
        ensures
            r@ == self@,
    {
        self.0
    }
}

impl CommandError {
    /// The error that a failed split across embeds becomes.
    pub fn from_split_error(e: SplitAcrossEmbedsError) -> (r: CommandError)
        ensures
            r@ == CommandErrorView::Generic,
    {
        match e {
            SplitAcrossEmbedsError::Unsplittable => CommandError::Generic,
        }
    }

    /// An argument error that shows the command's usage with its message; any
    /// other error unchanged.
    pub fn with_usage(self, usage: &str) -> (r: CommandError)
        ensures
            r@ == (match self@ {
                CommandErrorView::InvalidArgs(m) => CommandErrorView::InvalidArgsWithUsage(m, usage@),
                e => e,
            }),
    {
        match self {
            CommandError::InvalidArgs(msg) => CommandError::InvalidArgsWithUsage(msg, owned(usage)),
            e => e,
        }
    }
}

/// What the bot answers to a command that failed with `e`: nothing where it may
/// not reply, nothing to a legacy command that only the owner may run, and
/// otherwise the error's response.
pub open spec fn error_reply(e: CommandErrorView, legacy: bool) -> Option<ResponseView> {
    match e {
        CommandErrorView::NoMsgPermission => None,
        CommandErrorView::BotOwnerOnly => if legacy {
            None
        } else {
            Some(error_response(e))
        },
        _ => Some(error_response(e)),
    }
}

/// The response to a command that failed with `e`, if the bot answers it.
pub fn reply_to_error(e: CommandError, legacy: bool) -> (r: Option<CommandResponse>)
    ensures
        r matches Some(x) ==> error_reply(e@, legacy) == Some(x@),
        r is None <==> error_reply(e@, legacy) is None,
{
    match e {
        CommandError::NoMsgPermission => None,
        CommandError::MissingRequirement(MissingRequirement::BotOwnerOnly) if legacy => None,
        e => Some(e.into_response()),
    }
}

/// The users who own the bot.
pub const OWNERS: [u64; 1] = [887046293669707797];

/// Whether `id` is one of the bot's owners.
pub open spec fn is_owner(id: u64) -> bool {
    id == 887046293669707797
}

/// Where a command came from: a message with the prefix, or a slash command.
pub enum CommandData {
    Legacy { guild_id: Option<u64>, author: u64, author_name: String },
    ChatInput { guild_id: Option<u64>, author_id: Option<u64>, user_name: Option<String> },
}

impl CommandData {
    /// The guild the command was used in.
    pub open spec fn guild_of(&self) -> Option<u64> {
        match self {
            CommandData::Legacy { guild_id, .. } => *guild_id,
            CommandData::ChatInput { guild_id, .. } => *guild_id,
        }
    }

    /// The user who used the command.
    pub open spec fn author_of(&self) -> Option<u64> {
        match self {
            CommandData::Legacy { author, .. } => Some(*author),
            CommandData::ChatInput { author_id, .. } => *author_id,
        }
    }

    /// Whether the command came from a message.
    pub open spec fn is_legacy(&self) -> bool {
        self is Legacy
    }

    /// The guild the command was used in.
    pub fn guild_id(&self) -> (r: Option<u64>)
        ensures
            r == self.guild_of(),
    {
        match self {
            CommandData::Legacy { guild_id, .. } => *guild_id,
            CommandData::ChatInput { guild_id, .. } => *guild_id,
        }
    }

    /// The user who used the command.
    pub fn author_id(&self) -> (r: Option<u64>)
        ensures
            r == self.author_of(),
    {
        match self {
            CommandData::Legacy { author, .. } => Some(*author),
            CommandData::ChatInput { author_id, .. } => *author_id,
        }
    }
}

/// Lets the bot's owners through, and no one else.
pub fn check_owner(cmd: &CommandData) -> (r: Result<(), MissingRequirement>)
    requires
        cmd.author_of() is Some,
    ensures
        r is Ok <==> is_owner(cmd.author_of()->0),
        r matches Err(m) ==> m is BotOwnerOnly,
{
    let id = match cmd.author_id() {
        Some(id) => id,
        None => 0,
    };
    if id != OWNERS[0] {
        Err(MissingRequirement::BotOwnerOnly)
    } else {
        Ok(())
    }
}

/// Lets a user act on someone else only if the user owns the bot; `denied` is
/// the message otherwise. Acting on oneself, or on no one named, is always
/// allowed.
pub fn check_other_user(cmd: &CommandData, target: Option<u64>, denied: &str) -> (r: Result<(), MissingRequirement>)
    requires
        target is Some ==> cmd.author_of() is Some,
    ensures
        r is Ok <==> (target is None || target == cmd.author_of() || is_owner(cmd.author_of()->0)),
        r matches Err(m) ==> m matches MissingRequirement::General(t) && t@ == denied@,
{
    if target.is_some() && target != cmd.author_id() {
        match check_owner(cmd) {
            Ok(()) => Ok(()),
            Err(_) => Err(MissingRequirement::General(owned(denied))),
        }
    } else {
        Ok(())
    }
}

/// The text `s` without the prefix `p`, if `s` starts with it.
pub open spec fn stripped(s: Seq<char>, p: Seq<char>) -> Option<Seq<char>> {
    if p.len() <= s.len() && s.take(p.len() as int) == p {
        Some(s.skip(p.len() as int))
    } else {
        None
    }
}

/// The text `s` without the prefix `p`, if `s` starts with it.
pub fn strip_prefix(s: &str, p: &str) -> (r: Option<String>)
    ensures
        r.deep_view() == stripped(s@, p@),
{
    let cs = chars_of(s);
    let ps = chars_of(p);
    if ps.len() > cs.len() {
        return None;
    }
    let mut i: usize = 0;
    while i < ps.len()
        invariant
            cs@ == s@,
            ps@ == p@,
            ps@.len() <= cs@.len(),
            i <= ps@.len(),
            forall|j: int| 0 <= j < i ==> cs@[j] == ps@[j],
        decreases ps@.len() - i,
    {
        if cs[i] != ps[i] {
            assert(s@.take(p@.len() as int)[i as int] != p@[i as int]);
            return None;
        }
        i = i + 1;
    }
    assert(s@.take(p@.len() as int) =~= p@);
    let mut out = String::new();
    let mut k = ps.len();
    while k < cs.len()
        invariant
            cs@ == s@,
            ps@ == p@,
            ps@.len() <= k <= cs@.len(),
            out@ == s@.subrange(p@.len() as int, k as int),
        decreases cs@.len() - k,
    {
        push_char(&mut out, cs[k]);
        assert(s@.subrange(p@.len() as int, k + 1) =~= s@.subrange(p@.len() as int, k as int).push(
            s@[k as int],
        ));
        k = k + 1;
    }
    assert(out@ =~= s@.skip(p@.len() as int));
    Some(out)
}

/// A message read as a legacy command under `prefix`: its keyword and its
/// arguments, the words after the prefix.
pub open spec fn legacy_command(content: Seq<char>, prefix: Seq<char>) -> Option<(Seq<char>, Seq<Seq<char>>)> {
    match stripped(content, prefix) {
        Some(rest) => if words(rest).len() > 0 {
            Some((words(rest)[0], words(rest).drop_first()))
        } else {
            None
        },
        None => None,
    }
}

/// Reads a message as a legacy command under `prefix`: nothing where it does
/// not start with the prefix or has no word after it, else the keyword and
/// the arguments.
pub fn split_legacy_command(content: &str, prefix: &str) -> (r: Option<(String, Vec<String>)>)
    ensures
        match r {
            Some((k, args)) => legacy_command(content@, prefix@) == Some(
                (k@, args@.map_values(|a: String| a@)),
            ),
            None => legacy_command(content@, prefix@) is None,
        },
{
    let rest = match strip_prefix(content, prefix) {
        Some(rest) => rest,
        None => return None,
    };
    let ws = split_whitespace(rest.as_str());
    if ws.len() == 0 {
        return None;
    }
    let ghost all = ws@.map_values(|a: String| a@);
    let keyword = ws[0].clone();
    let mut args: Vec<String> = Vec::new();
    let mut j: usize = 1;
    while j < ws.len()
        invariant
            1 <= j <= ws@.len(),
            all == ws@.map_values(|a: String| a@),
            args@.len() == j - 1,
            args@.map_values(|a: String| a@) == all.subrange(1, j as int),
        decreases ws@.len() - j,
    {
        let ghost prev = args@;
        let w = ws[j].clone();
        assert(w@ == all[j as int]);
        args.push(w);
        assert(args@ == prev.push(w));
        assert forall|k: int| 0 <= k < args@.len() implies #[trigger] args@[k]@ == all[k + 1] by {
            if k < prev.len() {
                assert(prev.map_values(|a: String| a@)[k] == all.subrange(1, j as int)[k]);
            }
        }
        assert(args@.map_values(|a: String| a@) =~= all.subrange(1, j + 1));
        j = j + 1;
    }
    assert(all.subrange(1, all.len() as int) =~= all.drop_first());
    Some((keyword, args))
}


/// The seconds a user is told to wait cover the time left, and are less
/// than one second more than it.
pub proof fn law_cooldown_seconds_cover_time_left(nanos: u64)
    ensures
        (cooldown_secs(nanos) - 1) * 1_000_000_000 <= nanos,
        nanos < cooldown_secs(nanos) * 1_000_000_000,
{
}


/// Taking a prefix off is undone by putting it back: a text with the prefix
/// gives back the rest, and only a text that starts with the prefix gives
/// anything.
pub proof fn law_stripped_undoes_prefix(p: Seq<char>, s: Seq<char>)
    ensures
        stripped(p + s, p) == Some(s),
        stripped(s, p) matches Some(r) ==> s == p + r,
{
    assert((p + s).take(p.len() as int) =~= p);
    assert((p + s).skip(p.len() as int) =~= s);
    if let Some(r) = stripped(s, p) {
        assert(s =~= p + r);
    }
}

} // verus!
