use guildbot::commands::{
    count_embed_chars_no_desc, make_descless_embed, make_embed, make_empty_embed,
    make_titleless_embed, reply_to_error, split_legacy_command, strip_prefix, CommandError,
    CommandResponse, CommandResponseBuilder, Embed, EmbedField, MissingRequirement,
    SplitAcrossEmbedsError, EMBED_COLOR, ERROR_COLOR,
};

fn only_embed(r: &CommandResponse) -> &Embed {
    let es = r.embeds.as_ref().expect("embeds");
    assert_eq!(es.len(), 1);
    &es[0]
}

#[test]
fn embeds_carry_the_colour_and_texts() {
    let e = make_embed("T".to_string(), "D".to_string());
    assert_eq!(e.title.as_deref(), Some("T"));
    assert_eq!(e.description.as_deref(), Some("D"));
    assert_eq!(e.color, Some(EMBED_COLOR));
    assert_eq!(e.kind, "rich");
    assert!(make_titleless_embed("D".to_string()).title.is_none());
    assert!(make_descless_embed("T".to_string()).description.is_none());
    let empty = make_empty_embed();
    assert!(empty.title.is_none() && empty.description.is_none());
}

#[test]
fn chars_without_description_count_bytes() {
    let mut e = make_embed("héllo".to_string(), "ignored description".to_string());
    e.footer = Some("ab".to_string());
    e.author = Some("c".to_string());
    e.fields.push(EmbedField { name: "n".to_string(), value: "vv".to_string() });
    assert_eq!(count_embed_chars_no_desc(&e), 6 + 2 + 1 + 1 + 2);
}

#[test]
fn cooldown_error_rounds_up_seconds() {
    let r = CommandError::Cooldown(1_500_000_000).into_response();
    let e = only_embed(&r);
    assert_eq!(e.description.as_deref(), Some("Please wait 2 seconds before using this command again."));
    assert_eq!(e.color, Some(ERROR_COLOR));
    let r = CommandError::Cooldown(0).into_response();
    assert_eq!(
        only_embed(&r).description.as_deref(),
        Some("Please wait 1 second before using this command again.")
    );
}

#[test]
fn each_error_has_its_answer() {
    assert!(CommandError::NoMsgPermission.into_response().embeds.is_none());
    let r = CommandError::Generic.into_response();
    assert_eq!(only_embed(&r).description.as_deref(), Some("Sorry, there was an unexpected error."));
    let r = CommandError::Specific("boom".to_string()).into_response();
    assert_eq!(only_embed(&r).description.as_deref(), Some("boom"));
    let r = CommandError::MissingRequirement(MissingRequirement::BotOwnerOnly).into_response();
    assert_eq!(
        only_embed(&r).description.as_deref(),
        Some("This command can only be used by the owner of the bot.")
    );
    let r = CommandError::MissingRequirement(MissingRequirement::General("no".to_string())).into_response();
    assert_eq!(only_embed(&r).description.as_deref(), Some("no"));
    let r = CommandError::InvalidArgs("bad".to_string()).into_response();
    assert_eq!(only_embed(&r).title.as_deref(), Some("Invalid Arguments Provided"));
    assert_eq!(only_embed(&r).description.as_deref(), Some("bad"));
    let r = CommandError::InvalidArgsWithUsage("bad".to_string(), "x => y".to_string()).into_response();
    assert_eq!(
        only_embed(&r).description.as_deref(),
        Some("bad\n\n**Usage**:\n```\nx => y\n```")
    );
}

#[test]
fn with_usage_only_changes_argument_errors() {
    match CommandError::InvalidArgs("m".to_string()).with_usage("u") {
        CommandError::InvalidArgsWithUsage(m, u) => {
            assert_eq!(m, "m");
            assert_eq!(u, "u");
        }
        _ => panic!("expected usage"),
    }
    assert!(matches!(CommandError::Generic.with_usage("u"), CommandError::Generic));
}

#[test]
fn errors_that_get_no_reply() {
    assert!(reply_to_error(CommandError::NoMsgPermission, false).is_none());
    assert!(reply_to_error(CommandError::MissingRequirement(MissingRequirement::BotOwnerOnly), true).is_none());
    assert!(reply_to_error(CommandError::MissingRequirement(MissingRequirement::BotOwnerOnly), false).is_some());
    assert!(reply_to_error(CommandError::Generic, true).is_some());
}

#[test]
fn builder_sets_parts() {
    let r = CommandResponseBuilder::new()
        .content("hi".to_string())
        .flags(64)
        .et("A".to_string())
        .ed("B".to_string())
        .build();
    assert_eq!(r.content.as_deref(), Some("hi"));
    assert_eq!(r.flags, Some(64));
    let es = r.embeds.unwrap();
    assert_eq!(es.len(), 2);
    assert_eq!(es[0].title.as_deref(), Some("A"));
    assert_eq!(es[1].description.as_deref(), Some("B"));
}

fn split(parts: &[String], sep: &str) -> Result<(Vec<Embed>, usize), SplitAcrossEmbedsError> {
    let (b, i) = CommandResponseBuilder::new().split_across_embeds(
        make_descless_embed("Title".to_string()),
        make_empty_embed(),
        sep,
        parts,
    )?;
    Ok((b.build().embeds.unwrap(), i))
}

#[test]
fn split_fits_small_parts_in_one_embed() {
    let parts = vec!["a".to_string(), "b".to_string(), "c".to_string()];
    let (es, i) = split(&parts, "\n").ok().unwrap();
    assert_eq!(i, 0);
    assert_eq!(es.len(), 1);
    assert_eq!(es[0].title.as_deref(), Some("Title"));
    assert_eq!(es[0].description.as_deref(), Some("a\nb\nc"));
}

#[test]
fn split_starts_a_new_embed_when_a_part_does_not_fit() {
    let parts = vec!["x".repeat(3000), "y".repeat(2000)];
    let (es, i) = split(&parts, "\n").ok().unwrap();
    assert_eq!(i, 0);
    assert_eq!(es.len(), 2);
    assert_eq!(es[0].description.as_deref().map(|d| d.len()), Some(3000));
    assert_eq!(es[1].description.as_deref().map(|d| d.len()), Some(2000));
    assert!(es[1].title.is_none());
}

#[test]
fn split_stops_at_the_message_limit() {
    let parts = vec!["x".repeat(4000), "y".repeat(1900), "z".repeat(500), "w".to_string()];
    let (es, i) = split(&parts, "\n").ok().unwrap();
    // "Title" (5) + 4000 + 1900 fits; the third part would pass 6000.
    assert_eq!(i, 3);
    assert_eq!(es.len(), 2);
    let total: usize = es.iter().map(|e| e.description.as_ref().unwrap().len()).sum::<usize>() + 5;
    assert!(total <= 6000);
}

#[test]
fn split_refuses_a_part_too_long_for_a_description() {
    let parts = vec!["x".repeat(4097)];
    assert!(matches!(split(&parts, "\n"), Err(SplitAcrossEmbedsError::Unsplittable)));
    assert!(matches!(
        CommandError::from_split_error(SplitAcrossEmbedsError::Unsplittable),
        CommandError::Generic
    ));
}

#[test]
fn legacy_command_needs_the_prefix_and_a_word() {
    let (name, args) = split_legacy_command(";link  abc <@1>", ";").unwrap();
    assert_eq!(name, "link");
    assert_eq!(args, vec!["abc", "<@1>"]);
    assert!(split_legacy_command("link abc", ";").is_none());
    assert!(split_legacy_command(";   ", ";").is_none());
    assert_eq!(strip_prefix("!!x", "!!").as_deref(), Some("x"));
    assert!(strip_prefix("x", "!!").is_none());
}
