//! `dryupdate`: show the changes an update of the members would make,
//! without making them; for the bot's owners only.
use vstd::prelude::*;
use crate::commands::split_laws::law_split_index_within;
use crate::commands::{
    check_owner, embeds_response, is_owner, make_descless_embed, make_empty_embed, plain_embed,
    split_result, CommandData, CommandError, CommandErrorView, CommandResponse,
    CommandResponseBuilder, EmbedView, MissingRequirement, ResponseView,
};
use crate::minecraft::updates::{update_text, MemberUpdate};
use crate::minecraft::UpdateRolesError;
use crate::text::{append_str, lemma_utf8_len_bound, owned};

verus! {

/// How the command is used.
pub const USAGE: &'static str = "dryupdate => Shows the changes that an update would bring.\nSyntax: dryupdate";

/// Seconds a user waits between two uses.
pub const COOLDOWN_SECS: u64 = 5;

/// How many more answers follow the first at most.
pub const MAX_FOLLOWUPS: usize = 5;

/// Only the bot's owners may look at the changes.
pub fn check_gen_requirements(cmd: &CommandData) -> (r: Result<(), MissingRequirement>)
    requires
        cmd.author_of() is Some,
    ensures
        r is Ok <==> is_owner(cmd.author_of()->0),
        r matches Err(m) ==> m is BotOwnerOnly,
{
    check_owner(cmd)
}

/// What went wrong, in words, where the changes could not be computed.
pub open spec fn fatal_error_text(e: UpdateRolesError) -> Seq<char> {
    "There was a fatal error: "@ + match e {
        UpdateRolesError::GuildRequest(_) => "Failed to gather guild data from Hypixel."@,
        UpdateRolesError::Database(_) => "Failed to gather data from the database."@,
        UpdateRolesError::GetGuildMembers(_) => "Failed to fetch guild members."@,
        UpdateRolesError::InvalidDbUser(_) => "An user doesn't seem to have a valid linking status in the database. The state is corrupted."@,
    }
}

/// The error the command ends with where the changes could not be computed.
pub fn fatal_error(e: &UpdateRolesError) -> (r: CommandError)
    ensures
        r@ == CommandErrorView::Specific(fatal_error_text(*e)),
{
    let mut m = owned("There was a fatal error: ");
    match e {
        UpdateRolesError::GuildRequest(_) => append_str(&mut m, "Failed to gather guild data from Hypixel."),
        UpdateRolesError::Database(_) => append_str(&mut m, "Failed to gather data from the database."),
        UpdateRolesError::GetGuildMembers(_) => append_str(&mut m, "Failed to fetch guild members."),
        UpdateRolesError::InvalidDbUser(_) => append_str(
            &mut m,
            "An user doesn't seem to have a valid linking status in the database. The state is corrupted.",
        ),
    }
    CommandError::Specific(m)
}

/// The title of the embeds that list the changes.
pub open spec fn dry_title() -> Seq<char> {
    "Update actions (dry run)"@
}

/// The embed that begins the first page.
pub open spec fn dry_first() -> EmbedView {
    plain_embed(Some(dry_title()), None)
}

/// The embed that every further embed copies.
pub open spec fn dry_template() -> EmbedView {
    plain_embed(None, None)
}

/// The answer where more changes remain than are shown.
pub open spec fn truncated_response() -> ResponseView {
    embeds_response(seq![plain_embed(None, Some("Not all actions have been displayed. They are too many."@))])
}

/// The pages that list `parts` from `start` on, the `replies`-th answer
/// first: each page holds what fits of the rest, one line per part, and a
/// page that stops early is followed by the next, up to five further pages
/// and then a note that not all are shown; `None` where a part is too long
/// for a description.
pub open spec fn dry_pages(parts: Seq<Seq<char>>, start: int, replies: int) -> Option<Seq<ResponseView>>
    decreases MAX_FOLLOWUPS - replies,
{
    match split_result(dry_first(), dry_template(), "\n"@, parts.skip(start)) {
        None => None,
        Some((es, i)) => {
            let page = embeds_response(es);
            if i == 0 {
                Some(seq![page])
            } else if replies >= MAX_FOLLOWUPS {
                Some(seq![page, truncated_response()])
            } else {
                match dry_pages(parts, start + i, replies + 1) {
                    None => None,
                    Some(rest) => Some(seq![page] + rest),
                }
            }
        },
    }
}

/// The answers that list the changes, one line per update: where there are
/// none, a single embed says so; else the pages of [`dry_pages`]. A line too
/// long for an embed is an unexpected error.
pub open spec fn dry_run(lines: Seq<Seq<char>>) -> Option<Seq<ResponseView>> {
    if lines.len() == 0 {
        Some(seq![embeds_response(seq![plain_embed(Some(dry_title()), Some("No actions required."@))])])
    } else {
        dry_pages(lines, 0, 0)
    }
}

proof fn lemma_dry_pages_bounded(parts: Seq<Seq<char>>, start: int, replies: int)
    requires
        0 <= replies <= MAX_FOLLOWUPS,
    ensures
        dry_pages(parts, start, replies) matches Some(ps) ==> 1 <= ps.len() <= MAX_FOLLOWUPS + 2 - replies,
    decreases MAX_FOLLOWUPS - replies,
{
    if let Some((_, i)) = split_result(dry_first(), dry_template(), "\n"@, parts.skip(start)) {
        if i != 0 && replies < MAX_FOLLOWUPS {
            lemma_dry_pages_bounded(parts, start + i, replies + 1);
        }
    }
}

/// However many changes there are, `dryupdate` answers at most seven times:
/// six pages of changes, then a note that not all are shown.
pub proof fn law_dry_run_bounded(lines: Seq<Seq<char>>)
    ensures
        dry_run(lines) matches Some(ps) ==> 1 <= ps.len() <= MAX_FOLLOWUPS + 2,
{
    if lines.len() > 0 {
        lemma_dry_pages_bounded(lines, 0, 0);
    }
}

fn pages_from(lines: &Vec<String>, start: usize, replies: usize) -> (r: Result<Vec<CommandResponse>, CommandError>)
    requires
        start <= lines@.len(),
        replies <= MAX_FOLLOWUPS,
    ensures
        match dry_pages(lines@.map_values(|l: String| l@), start as int, replies as int) {
            Some(ps) => r matches Ok(v) && v@.map_values(|x: CommandResponse| x@) == ps,
            None => r matches Err(e) && e@ == CommandErrorView::Generic,
        },
    decreases MAX_FOLLOWUPS - replies,
{
    let ghost parts = lines@.map_values(|l: String| l@);
    let (_, rest) = lines.as_slice().split_at(start);
    assert(rest@.map_values(|l: String| l@) =~= parts.skip(start as int));
    let first = make_descless_embed(owned("Update actions (dry run)"));
    let template = make_empty_embed();
    proof {
        reveal_strlit("Update actions (dry run)");
        lemma_utf8_len_bound(dry_title());
        lemma_utf8_len_bound("\n"@);
        reveal_strlit("\n");
        law_split_index_within(dry_first(), dry_template(), "\n"@, parts.skip(start as int));
    }
    let (b, i) = match CommandResponseBuilder::new().split_across_embeds(first, template, "\n", rest) {
        Ok(x) => x,
        Err(e) => {
            return Err(CommandError::from_split_error(e));
        },
    };
    let page = b.build();
    let mut out: Vec<CommandResponse> = Vec::new();
    out.push(page);
    if i == 0 {
        assert(out@.map_values(|x: CommandResponse| x@) =~= seq![page@]);
        return Ok(out);
    }
    if replies >= MAX_FOLLOWUPS {
        let note = CommandResponseBuilder::new().ed(
            owned("Not all actions have been displayed. They are too many."),
        ).build();
        out.push(note);
        assert(out@.map_values(|x: CommandResponse| x@) =~= seq![page@, truncated_response()]);
        return Ok(out);
    }
    assert(first@ == dry_first());
    let total = lines.len();
    assert(i <= total - start);
    let mut more = match pages_from(lines, start + i, replies + 1) {
        Ok(v) => v,
        Err(e) => {
            return Err(e);
        },
    };
    let ghost mv = more@;
    out.append(&mut more);
    assert(out@.map_values(|x: CommandResponse| x@) =~= seq![page@] + mv.map_values(|x: CommandResponse| x@));
    Ok(out)
}

/// The answers of `dryupdate` to the updates computed; see [`dry_run`].
pub fn dry_run_responses(updates: &Vec<MemberUpdate>) -> (r: Result<Vec<CommandResponse>, CommandError>)
    ensures
        match dry_run(updates@.map_values(|u: MemberUpdate| update_text(u@))) {
            Some(ps) => r matches Ok(v) && v@.map_values(|x: CommandResponse| x@) == ps,
            None => r matches Err(e) && e@ == CommandErrorView::Generic,
        },
{
    let ghost wanted = updates@.map_values(|u: MemberUpdate| update_text(u@));
    if updates.len() == 0 {
        let mut out: Vec<CommandResponse> = Vec::new();
        out.push(
            CommandResponseBuilder::new().etd(
                owned("Update actions (dry run)"),
                owned("No actions required."),
            ).build(),
        );
        assert(out@.map_values(|x: CommandResponse| x@) =~= seq![out@[0]@]);
        return Ok(out);
    }
    let n = updates.len();
    let mut lines: Vec<String> = Vec::new();
    let mut k: usize = 0;
    while k < n
        invariant
            n == updates@.len(),
            k <= n,
            lines@.map_values(|l: String| l@) == wanted.take(k as int),
            wanted == updates@.map_values(|u: MemberUpdate| update_text(u@)),
        decreases n - k,
    {
        let line = updates[k].to_string();
        assert(line@ == wanted[k as int]);
        let ghost before = lines@;
        lines.push(line);
        assert(lines@ == before.push(line));
        assert(lines@.map_values(|l: String| l@) =~= before.map_values(|l: String| l@).push(line@));
        assert(wanted.take(k + 1) =~= wanted.take(k as int).push(wanted[k as int]));
        k = k + 1;
    }
    assert(wanted.take(n as int) =~= wanted);
    pages_from(&lines, 0, 0)
}

} // verus!
