# guildbot

A Discord bot for a Hypixel guild. Members link their Discord account to
their Minecraft account (`link`, or the verification button and its form);
the bot then keeps their roles and nicknames in line with their guild and
rank on Hypixel, refreshes the stored names, and gives the owners commands to
inspect and control all this.

## Layout

- `src/` is the verified library. Every decision the bot takes is here, with
  its contract:
  - `commands.rs`: embeds, responses and their builder (splitting long lists
    over embeds), errors and what is answered to them, who may run what.
  - `commands/args.rs`: reading the words of a prefixed command and the
    options of a slash command.
  - `commands/cooldown.rs`, `commands/dispatch.rs`: cooldowns, the command
    table and the steps every command goes through.
  - `commands/*.rs` for each command: its arguments and its run, as a state
    machine from what an outside call gave back to what to do next.
  - `minecraft/updates.rs`: which roles and nickname each member should have;
    `minecraft/update_laws.rs` and `commands/split_laws.rs` state what always
    holds of these.
  - `minecraft/tasks.rs`, `minecraft/runs.rs`: the update loop, fetching
    members page by page, refreshing names, gathering and applying updates.
- `app/` is the program around it: Discord's gateway and HTTP API, the
  database, the requests to Mojang and Hypixel, and the configuration file.
  It performs what the library's state machines ask for and hands back what
  came of it.
- `tests/` runs the library on concrete values.
