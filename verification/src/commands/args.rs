//! Reading the arguments of commands: the words of a legacy command and the
//! options of a slash command, with the messages for invalid ones.
use vstd::prelude::*;
use crate::commands::{strip_prefix, stripped, CommandError, CommandErrorView};
use crate::text::{
    append_str, chars_of, text_eq, decimal, is_digit, lemma_decimal_digits, owned, parse_id, parsed_id,
    push_char, split_whitespace, words, write_u64,
};

verus! {

/// The text `s` without the suffix `p`, if `s` ends with it.
pub open spec fn stripped_suffix(s: Seq<char>, p: Seq<char>) -> Option<Seq<char>> {
    if p.len() <= s.len() && s.skip(s.len() - p.len()) == p {
        Some(s.take(s.len() - p.len()))
    } else {
        None
    }
}

/// The text `s` without the suffix `p`, if `s` ends with it.
pub fn strip_suffix(s: &str, p: &str) -> (r: Option<String>)
    ensures
        r.deep_view() == stripped_suffix(s@, p@),
{
    let cs = chars_of(s);
    let ps = chars_of(p);
    if ps.len() > cs.len() {
        return None;
    }
    let cl = cs.len();
    let off = cl - ps.len();
    let mut i: usize = 0;
    while i < ps.len()
        invariant
            cs@ == s@,
            ps@ == p@,
            off == cs@.len() - ps@.len(),
            off + ps@.len() == cl,
            cl == cs@.len(),
            i <= ps@.len(),
            forall|j: int| 0 <= j < i ==> cs@[off + j] == ps@[j],
        decreases ps@.len() - i,
    {
        if cs[off + i] != ps[i] {
            assert(s@.skip(off as int)[i as int] != p@[i as int]);
            return None;
        }
        i = i + 1;
    }
    assert(s@.skip(off as int) =~= p@);
    let mut out = String::new();
    let mut k: usize = 0;
    while k < off
        invariant
            cs@ == s@,
            off <= cs@.len(),
            k <= off,
            out@ == s@.take(k as int),
        decreases off - k,
    {
        push_char(&mut out, cs[k]);
        assert(s@.take(k + 1) =~= s@.take(k as int).push(s@[k as int]));
        k = k + 1;
    }
    Some(out)
}

/// The id a legacy user argument names: the argument with a leading `<@`, then
/// a `!`, and a trailing `>` taken off where they are there. Where there is no
/// trailing `>`, the argument is read whole.
pub open spec fn mention_text(a: Seq<char>) -> Seq<char> {
    let s1 = match stripped(a, "<@"@) {
        Some(x) => x,
        None => a,
    };
    let s2 = match stripped(s1, "!"@) {
        Some(x) => x,
        None => s1,
    };
    match stripped_suffix(s2, ">"@) {
        Some(x) => x,
        None => a,
    }
}

/// The user id that a legacy argument gives: a mention or a plain id.
pub open spec fn mention_id(a: Seq<char>) -> Option<u64> {
    parsed_id(mention_text(a))
}

/// A user is read back from what the bot writes of it: its mention `<@id>`
/// and its bare id both name it.
pub proof fn law_mention_round_trip(id: u64)
    requires
        id != 0,
    ensures
        mention_id("<@"@ + decimal(id as nat) + ">"@) == Some(id),
        mention_id(decimal(id as nat)) == Some(id),
{
    let d = decimal(id as nat);
    lemma_decimal_digits(id as nat);
    reveal_strlit("<@");
    reveal_strlit(">");
    reveal_strlit("!");
    let m = "<@"@ + d + ">"@;
    assert(m.take(2) =~= "<@"@);
    assert(m.skip(2) =~= d + ">"@);
    let s1 = d + ">"@;
    assert(s1[0] == d[0]);
    assert(is_digit(d[0]));
    assert(s1.take(1) != "!"@) by {
        assert(s1.take(1)[0] == d[0]);
    }
    assert(s1.skip(s1.len() - 1) =~= ">"@);
    assert(s1.take(s1.len() - 1) =~= d);
    assert(mention_text(m) == d);
    assert(d.take(1) != "!"@) by {
        assert(d.take(1)[0] == d[0]);
    }
    if d.len() >= 2 {
        assert(d.take(2) != "<@"@) by {
            assert(d.take(2)[0] == d[0]);
        }
    }
    assert(d.skip(d.len() - 1) != ">"@) by {
        assert(d.skip(d.len() - 1)[0] == d[d.len() - 1]);
        assert(is_digit(d[d.len() - 1]));
    }
    assert(mention_text(d) == d);
    assert(d[0] != '+');
}

/// Reads a legacy user argument: a mention such as `<@123>` or `<@!123>`, or
/// a plain id.
pub fn parse_mention(a: &str) -> (r: Option<u64>)
    ensures
        r == mention_id(a@),
{
    let s1 = match strip_prefix(a, "<@") {
        Some(x) => x,
        None => owned(a),
    };
    let s2 = match strip_prefix(s1.as_str(), "!") {
        Some(x) => x,
        None => s1,
    };
    let s3 = match strip_suffix(s2.as_str(), ">") {
        Some(x) => x,
        None => owned(a),
    };
    parse_id(s3.as_str())
}

/// "The argument `name` must have a length smaller than or equal to `max`..."
pub open spec fn too_long_text(name: Seq<char>, max: nat, arg: Seq<char>) -> Seq<char> {
    "The argument `"@ + name + "` must have a length smaller than or equal to `"@ + decimal(max)
        + "`. You provided: `"@ + arg + "`, which is too long."@
}

/// "The argument `name` must have a length greater than or equal to `min`..."
pub open spec fn too_short_text(name: Seq<char>, min: nat, arg: Seq<char>) -> Seq<char> {
    "The argument `"@ + name + "` must have a length greater than or equal to `"@ + decimal(min)
        + "`. You provided: `"@ + arg + "`, which is too short."@
}

/// "The argument `name` must be a single word..."
pub open spec fn single_word_text(name: Seq<char>, arg: Seq<char>) -> Seq<char> {
    "The argument `"@ + name + "` must be a single word. You provided: `"@ + arg + "`"@
}

/// "The argument `name` must be a user's mention or id..."
pub open spec fn user_arg_text(name: Seq<char>, arg: Seq<char>) -> Seq<char> {
    "The argument `"@ + name + "` must be a user's mention or id. You provided: `"@ + arg + "`"@
}

/// "This command has `required` required argument(s), but you only provided `given`."
pub open spec fn required_text(required: nat, given: nat) -> Seq<char> {
    "This command has `"@ + decimal(required) + "` required argument"@ + (if required >= 2 {
        "s"@
    } else {
        Seq::<char>::empty()
    }) + ", but you only provided `"@ + decimal(given) + "`."@
}

/// "You provided too many arguments for this command..."
pub open spec fn too_many_text(max: nat, given: nat) -> Seq<char> {
    "You provided too many arguments for this command. Expected a maximum of `"@ + decimal(max)
        + "` arguments, but you provided `"@ + decimal(given) + "`."@
}

/// "The argument `name` must be ..." for a word of the wrong length.
pub fn too_long_error(name: &str, max: u64, arg: &str) -> (e: CommandError)
    ensures
        e@ == CommandErrorView::InvalidArgs(too_long_text(name@, max as nat, arg@)),
{
    let mut m = owned("The argument `");
    append_str(&mut m, name);
    append_str(&mut m, "` must have a length smaller than or equal to `");
    write_u64(&mut m, max);
    append_str(&mut m, "`. You provided: `");
    append_str(&mut m, arg);
    append_str(&mut m, "`, which is too long.");
    CommandError::InvalidArgs(m)
}

/// The error for a word that is too short.
pub fn too_short_error(name: &str, min: u64, arg: &str) -> (e: CommandError)
    ensures
        e@ == CommandErrorView::InvalidArgs(too_short_text(name@, min as nat, arg@)),
{
    let mut m = owned("The argument `");
    append_str(&mut m, name);
    append_str(&mut m, "` must have a length greater than or equal to `");
    write_u64(&mut m, min);
    append_str(&mut m, "`. You provided: `");
    append_str(&mut m, arg);
    append_str(&mut m, "`, which is too short.");
    CommandError::InvalidArgs(m)
}

/// The error for a word argument that holds more than one word.
pub fn single_word_error(name: &str, arg: &str) -> (e: CommandError)
    ensures
        e@ == CommandErrorView::InvalidArgs(single_word_text(name@, arg@)),
{
    let mut m = owned("The argument `");
    append_str(&mut m, name);
    append_str(&mut m, "` must be a single word. You provided: `");
    append_str(&mut m, arg);
    append_str(&mut m, "`");
    CommandError::InvalidArgs(m)
}

/// The error for a user argument that names no user.
pub fn user_arg_error(name: &str, arg: &str) -> (e: CommandError)
    ensures
        e@ == CommandErrorView::InvalidArgs(user_arg_text(name@, arg@)),
{
    let mut m = owned("The argument `");
    append_str(&mut m, name);
    append_str(&mut m, "` must be a user's mention or id. You provided: `");
    append_str(&mut m, arg);
    append_str(&mut m, "`");
    CommandError::InvalidArgs(m)
}

/// The error for a legacy command given fewer arguments than it needs.
pub fn required_error(required: u64, given: u64) -> (e: CommandError)
    ensures
        e@ == CommandErrorView::InvalidArgs(required_text(required as nat, given as nat)),
{
    let mut m = owned("This command has `");
    write_u64(&mut m, required);
    append_str(&mut m, "` required argument");
    let ghost before = m@;
    if required >= 2 {
        append_str(&mut m, "s");
    } else {
        assert(before + Seq::<char>::empty() =~= before);
    }
    append_str(&mut m, ", but you only provided `");
    write_u64(&mut m, given);
    append_str(&mut m, "`.");
    CommandError::InvalidArgs(m)
}

/// The error for a legacy command given more arguments than it takes.
pub fn too_many_error(max: u64, given: u64) -> (e: CommandError)
    ensures
        e@ == CommandErrorView::InvalidArgs(too_many_text(max as nat, given as nat)),
{
    let mut m = owned("You provided too many arguments for this command. Expected a maximum of `");
    write_u64(&mut m, max);
    append_str(&mut m, "` arguments, but you provided `");
    write_u64(&mut m, given);
    append_str(&mut m, "`.");
    CommandError::InvalidArgs(m)
}

/// A word argument's length in characters must lie in `[min, max]`; the
/// upper bound is checked first.
pub open spec fn word_length_check(name: Seq<char>, arg: Seq<char>, min: nat, max: nat) -> Result<(), CommandErrorView> {
    if arg.len() > max {
        Err(CommandErrorView::InvalidArgs(too_long_text(name, max, arg)))
    } else if arg.len() < min {
        Err(CommandErrorView::InvalidArgs(too_short_text(name, min, arg)))
    } else {
        Ok(())
    }
}

/// Checks that a word argument has between `min` and `max` characters.
pub fn check_word_length(name: &str, arg: &str, min: u64, max: u64) -> (r: Result<(), CommandError>)
    ensures
        match r {
            Ok(()) => word_length_check(name@, arg@, min as nat, max as nat) is Ok,
            Err(e) => word_length_check(name@, arg@, min as nat, max as nat) == Err::<(), CommandErrorView>(e@),
        },
{
    let count = chars_of(arg).len() as u64;
    if count > max {
        return Err(too_long_error(name, max, arg));
    }
    if count < min {
        return Err(too_short_error(name, min, arg));
    }
    Ok(())
}

/// The value of a slash command's option.
pub enum OptionValue {
    String(String),
    User(u64),
    Integer(i64),
    SubCommand(Vec<CommandOption>),
    /// Any other kind of value.
    Other,
}

/// One option of a slash command: its name and value.
pub struct CommandOption {
    pub name: String,
    pub value: OptionValue,
}

/// The index of the first option named `name`.
pub open spec fn option_index(list: Seq<CommandOption>, name: Seq<char>) -> Option<int>
    decreases list.len(),
{
    if list.len() == 0 {
        None
    } else if list[0].name@ == name {
        Some(0)
    } else {
        match option_index(list.drop_first(), name) {
            Some(i) => Some(i + 1),
            None => None,
        }
    }
}

proof fn lemma_option_index_bounds(list: Seq<CommandOption>, name: Seq<char>)
    ensures
        option_index(list, name) matches Some(i) ==> 0 <= i < list.len() && list[i].name@ == name,
    decreases list.len(),
{
    if list.len() > 0 && list[0].name@ != name {
        lemma_option_index_bounds(list.drop_first(), name);
    }
}

proof fn lemma_option_index_skip(list: Seq<CommandOption>, name: Seq<char>, i: int)
    requires
        0 <= i <= list.len(),
        forall|j: int| 0 <= j < i ==> #[trigger] list[j].name@ != name,
    ensures
        option_index(list, name) == (match option_index(list.skip(i), name) {
            Some(k) => Some(k + i),
            None => None,
        }),
    decreases i,
{
    if i == 0 {
        assert(list.skip(0) =~= list);
        match option_index(list, name) {
            Some(k) => {},
            None => {},
        }
    } else {
        let t = list.drop_first();
        assert forall|j: int| 0 <= j < i - 1 implies #[trigger] t[j].name@ != name by {
            assert(t[j] == list[j + 1]);
        }
        lemma_option_index_skip(t, name, i - 1);
        assert(t.skip(i - 1) =~= list.skip(i));
    }
}

/// The first option named `name`.
pub fn get_option<'a>(list: &'a [CommandOption], name: &str) -> (r: Option<&'a CommandOption>)
    ensures
        match option_index(list@, name@) {
            Some(i) => r == Some(&list@[i]),
            None => r is None,
        },
{
    proof {
        lemma_option_index_bounds(list@, name@);
    }
    let n = list.len();
    let mut i: usize = 0;
    while i < n
        invariant
            n == list@.len(),
            i <= n,
            forall|j: int| 0 <= j < i ==> #[trigger] list@[j].name@ != name@,
        decreases n - i,
    {
        if text_eq(list[i].name.as_str(), name) {
            proof {
                lemma_option_index_skip(list@, name@, i as int);
                assert(list@.skip(i as int)[0] == list@[i as int]);
            }
            return Some(&list[i]);
        }
        i = i + 1;
    }
    proof {
        lemma_option_index_skip(list@, name@, n as int);
        assert(list@.skip(n as int) =~= Seq::<CommandOption>::empty());
    }
    None
}

/// The words of a text, counted as far as two.
pub fn has_second_word(s: &str) -> (b: bool)
    ensures
        b == (words(s@).len() >= 2),
{
    let ws = split_whitespace(s);
    ws.len() >= 2
}

/// A legacy command's arguments read as a required word `ign`, of 2 to 16
/// characters, and an optional user `user`.
pub open spec fn ign_user_legacy(args: Seq<Seq<char>>) -> Result<(Seq<char>, Option<u64>), CommandErrorView> {
    if args.len() < 1 {
        Err(CommandErrorView::InvalidArgs(required_text(1, args.len())))
    } else {
        match word_length_check("ign"@, args[0], 2, 16) {
            Err(e) => Err(e),
            Ok(_) => if args.len() >= 2 {
                match mention_id(args[1]) {
                    None => Err(CommandErrorView::InvalidArgs(user_arg_text("user"@, args[1]))),
                    Some(u) => if args.len() > 2 {
                        Err(CommandErrorView::InvalidArgs(too_many_text(2, args.len())))
                    } else {
                        Ok((args[0], Some(u)))
                    },
                }
            } else {
                Ok((args[0], None))
            },
        }
    }
}

/// Reads a legacy command's arguments as a word `ign` and an optional user.
pub fn parse_ign_user_legacy(args: Vec<String>) -> (r: Result<(String, Option<u64>), CommandError>)
    ensures
        match r {
            Ok((ign, user)) => ign_user_legacy(args@.map_values(|a: String| a@)) == Ok::<(Seq<char>, Option<u64>), CommandErrorView>((ign@, user)),
            Err(e) => ign_user_legacy(args@.map_values(|a: String| a@)) == Err::<(Seq<char>, Option<u64>), CommandErrorView>(e@),
        },
{
    let ghost v = args@.map_values(|a: String| a@);
    let n = args.len();
    if n < 1 {
        return Err(required_error(1, n as u64));
    }
    assert(v[0] == args@[0]@);
    let ign = args[0].clone();
    match check_word_length("ign", ign.as_str(), 2, 16) {
        Err(e) => {
            return Err(e);
        },
        Ok(()) => {},
    }
    if n >= 2 {
        assert(v[1] == args@[1]@);
        match parse_mention(args[1].as_str()) {
            None => Err(user_arg_error("user", args[1].as_str())),
            Some(u) => if n > 2 {
                Err(too_many_error(2, n as u64))
            } else {
                Ok((ign, Some(u)))
            },
        }
    } else {
        Ok((ign, None))
    }
}

/// A legacy command's arguments read as an optional user `user`.
pub open spec fn user_legacy(args: Seq<Seq<char>>) -> Result<Option<u64>, CommandErrorView> {
    if args.len() >= 1 {
        match mention_id(args[0]) {
            None => Err(CommandErrorView::InvalidArgs(user_arg_text("user"@, args[0]))),
            Some(u) => if args.len() > 1 {
                Err(CommandErrorView::InvalidArgs(too_many_text(1, args.len())))
            } else {
                Ok(Some(u))
            },
        }
    } else {
        Ok(None)
    }
}

/// Reads a legacy command's arguments as an optional user.
pub fn parse_user_legacy(args: Vec<String>) -> (r: Result<Option<u64>, CommandError>)
    ensures
        match r {
            Ok(user) => user_legacy(args@.map_values(|a: String| a@)) == Ok::<Option<u64>, CommandErrorView>(user),
            Err(e) => user_legacy(args@.map_values(|a: String| a@)) == Err::<Option<u64>, CommandErrorView>(e@),
        },
{
    let ghost v = args@.map_values(|a: String| a@);
    let n = args.len();
    if n >= 1 {
        assert(v[0] == args@[0]@);
        match parse_mention(args[0].as_str()) {
            None => Err(user_arg_error("user", args[0].as_str())),
            Some(u) => if n > 1 {
                Err(too_many_error(1, n as u64))
            } else {
                Ok(Some(u))
            },
        }
    } else {
        Ok(None)
    }
}

/// A legacy command that takes no argument accepts none.
pub open spec fn no_args_legacy(args: Seq<Seq<char>>) -> Result<(), CommandErrorView> {
    if args.len() > 0 {
        Err(CommandErrorView::InvalidArgs(too_many_text(0, args.len())))
    } else {
        Ok(())
    }
}

/// Checks that a legacy command was given no argument.
pub fn parse_no_args_legacy(args: Vec<String>) -> (r: Result<(), CommandError>)
    ensures
        match r {
            Ok(()) => no_args_legacy(args@.map_values(|a: String| a@)) is Ok,
            Err(e) => no_args_legacy(args@.map_values(|a: String| a@)) == Err::<(), CommandErrorView>(e@),
        },
{
    if args.len() > 0 {
        Err(too_many_error(0, args.len() as u64))
    } else {
        Ok(())
    }
}

/// The optional user option named `user` of a slash command.
pub open spec fn user_slash(opts: Seq<CommandOption>) -> Result<Option<u64>, CommandErrorView> {
    match option_index(opts, "user"@) {
        None => Ok(None),
        Some(j) => match opts[j].value {
            OptionValue::User(u) => Ok(Some(u)),
            _ => Err(CommandErrorView::Generic),
        },
    }
}

/// Reads the optional user option of a slash command; a value of another
/// kind is an unexpected error.
pub fn parse_user_slash(opts: &[CommandOption]) -> (r: Result<Option<u64>, CommandError>)
    ensures
        match r {
            Ok(user) => user_slash(opts@) == Ok::<Option<u64>, CommandErrorView>(user),
            Err(e) => user_slash(opts@) == Err::<Option<u64>, CommandErrorView>(e@),
        },
{
    match get_option(opts, "user") {
        None => Ok(None),
        Some(o) => match &o.value {
            OptionValue::User(u) => Ok(Some(*u)),
            _ => Err(CommandError::Generic),
        },
    }
}

/// A slash command's options read as a single word `ign`, of 2 to 16
/// characters, and an optional user `user`.
pub open spec fn ign_user_slash(opts: Seq<CommandOption>) -> Result<(Seq<char>, Option<u64>), CommandErrorView> {
    let i = option_index(opts, "ign"@)->0;
    match opts[i].value {
        OptionValue::String(s) => if words(s@).len() >= 2 {
            Err(CommandErrorView::InvalidArgs(single_word_text("ign"@, s@)))
        } else {
            match word_length_check("ign"@, s@, 2, 16) {
                Err(e) => Err(e),
                Ok(_) => match user_slash(opts) {
                    Err(e) => Err(e),
                    Ok(u) => Ok((s@, u)),
                },
            }
        },
        _ => Err(CommandErrorView::Generic),
    }
}

/// Reads a slash command's options as a word `ign` and an optional user.
/// Discord always sends the required option `ign`.
pub fn parse_ign_user_slash(opts: &[CommandOption]) -> (r: Result<(String, Option<u64>), CommandError>)
    requires
        option_index(opts@, "ign"@) is Some,
    ensures
        match r {
            Ok((ign, user)) => ign_user_slash(opts@) == Ok::<(Seq<char>, Option<u64>), CommandErrorView>((ign@, user)),
            Err(e) => ign_user_slash(opts@) == Err::<(Seq<char>, Option<u64>), CommandErrorView>(e@),
        },
{
    let o = match get_option(opts, "ign") {
        Some(o) => o,
        None => {
            return Err(CommandError::Generic);
        },
    };
    let s = match &o.value {
        OptionValue::String(s) => s,
        _ => {
            return Err(CommandError::Generic);
        },
    };
    if has_second_word(s.as_str()) {
        return Err(single_word_error("ign", s.as_str()));
    }
    let ign = s.clone();
    match check_word_length("ign", ign.as_str(), 2, 16) {
        Err(e) => {
            return Err(e);
        },
        Ok(()) => {},
    }
    match parse_user_slash(opts) {
        Err(e) => Err(e),
        Ok(u) => Ok((ign, u)),
    }
}


/// The words of `link` or `forcelink` are read as a name of 2 to 16
/// characters, the first word, and the user the second word names, if there
/// is one; more than two words are refused, and a lone name of the right
/// length is accepted.
pub proof fn law_ign_user_words(args: Seq<Seq<char>>)
    ensures
        ign_user_legacy(args) matches Ok((ign, user)) ==> {
            &&& ign == args[0]
            &&& 2 <= ign.len() <= 16
            &&& user matches Some(u) ==> args.len() == 2 && mention_id(args[1]) == Some(u)
            &&& user is None ==> args.len() == 1
        },
        args.len() == 0 || args.len() > 2 ==> ign_user_legacy(args) is Err,
        (args.len() == 1 && 2 <= args[0].len() <= 16) ==> ign_user_legacy(args) == Ok::<(Seq<char>, Option<u64>), CommandErrorView>((args[0], None)),
{
}

/// The options of `link` or `forcelink` are read as a single word of 2 to
/// 16 characters and the user option, if there is one.
pub proof fn law_ign_user_options(opts: Seq<CommandOption>)
    requires
        option_index(opts, "ign"@) is Some,
    ensures
        ign_user_slash(opts) matches Ok((ign, user)) ==> {
            &&& 2 <= ign.len() <= 16
            &&& words(ign).len() < 2
            &&& opts[option_index(opts, "ign"@)->0].value matches OptionValue::String(s) && s@ == ign
            &&& user matches Some(u) ==> (option_index(opts, "user"@) matches Some(j) && opts[j].value == OptionValue::User(u))
        },
{
}

/// An optional user from words: none without words, the user one word
/// names, and a refusal for more words or a word that names no user.
pub proof fn law_user_words(args: Seq<Seq<char>>)
    ensures
        args.len() == 0 ==> user_legacy(args) == Ok::<Option<u64>, CommandErrorView>(None),
        args.len() > 1 ==> user_legacy(args) is Err,
        args.len() == 1 ==> (mention_id(args[0]) matches Some(u) ==> user_legacy(args) == Ok::<Option<u64>, CommandErrorView>(Some(u))),
        args.len() == 1 ==> (user_legacy(args) is Err <==> mention_id(args[0]) is None),
{
}

} // verus!
