# project_bot

A Discord bot that runs projects on a server: `/project generate` creates a
project's role and a category of channels, `/project rename` and
`/project delete` rename or remove them, `/member` lists a project's members
and adds or removes them, and `/help` lists the server's commands.

The decisions of every command are a verified library (`src/`, checked with
Verus); a thin program (`app/`) talks to Discord through serenity.

- `src/text.rs`: whitespace trimming, splitting at a separator, decimal
  numbers, mentions, joining, case-insensitive comparison.
- `src/category.rs`: category titles `{project}(PM: {pm})` and reading the
  project name back from them, with the round-trip law.
- `src/cache.rs`: the bot's snapshot of members, projects and PMs, and the
  changes sent to it.
- `src/permissions.rs`: roles, the administrator check (through serenity's
  `Permissions`), finding a project's role.
- `src/commands/`: each command as a state machine from state and event to
  the next state and the next action (`member.rs`, `project.rs`, `help.rs`),
  the channel layout of a project (`layout.rs`) and the command definitions
  (`registry.rs`), with the laws that their steps keep.
- `app/`: the serenity client; for each command it performs the actions the
  library asks for and hands back what Discord answered.
