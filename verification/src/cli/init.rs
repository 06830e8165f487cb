//! The first configuration: templates that document themselves.
use crate::path;
use crate::text;
use vstd::prelude::*;

verus! {

/// The configuration file as first written: settings only, all but the provider commented
/// out at their defaults.
pub const CONFIG_TEMPLATE: &'static str =
    "# komo runtime settings. Credentials never go here — put them in .env\n# next to this file. Priority: built-in defaults < this file < KOMO_* env.\n\n# LLM provider: deepseek | openai | anthropic | openrouter | codex\n# (codex needs no API key — it uses the Codex CLI's OAuth login)\nprovider = \"deepseek\"\n# model = \"deepseek-chat\"        # defaults per provider\n# base_url = \"\"                  # OpenAI-compatible endpoint override\n# aux_model = \"\"                 # cheaper model for sub-tasks (review/recall/briefing)\n\n# Maintenance sweep cron (5-field Unix cron). Default: hourly.\n# schedule = \"0 * * * *\"\n\n# Daily briefing — opt-in, no default. Uncomment to enable.\n# briefing_schedule = \"30 8 * * *\"\n# briefing_workdays_only = true  # skip Chinese non-working days (incl. 调休)\n\n# Usage-driven memory consolidation (\"dreaming\"). On by default, nightly.\n# dream_schedule = \"0 3 * * *\"   # set to \"off\" to disable\n\n# --- ingress channels (each needs its credential in .env) -------------------\n\n# [channels.telegram]\n# enabled = true\n# allow_from = [\"123456789\"]     # pre-trusted sender ids (skip pairing)\n# require_mention = true         # group messages must @mention the bot\n# home_chat = \"123456789\"        # reminders/briefing delivered here\n\n# [channels.feishu]\n# enabled = true\n# allow_from = [\"ou_xxx\"]\n# require_mention = true\n# home_chat = \"oc_xxx\"\n\n# [channels.wechat]              # DM-only; provision with `komo channel wechat login`\n# enabled = true\n\n# [channels.homeassistant]       # HA event ingress (HASS_TOKEN in .env)\n# enabled = true\n# watch_domains = [\"binary_sensor\", \"lock\"]\n# watch_entities = []\n# cooldown_seconds = 30\n\n# [channels.api]                 # widen the loopback HTTP API (needs API_SERVER_KEY)\n# enabled = true\n# bind = \"0.0.0.0\"\n# port = 8765\n";

/// The credentials file as first written; an empty value counts as unset.
pub const ENV_TEMPLATE: &'static str =
    "# komo credentials (this file is chmod 600; never commit it anywhere).\n# Empty values are treated as unset. Match the `provider` in config.toml.\n\nDEEPSEEK_API_KEY=\n# OPENAI_API_KEY=\n# ANTHROPIC_API_KEY=\n# OPENROUTER_API_KEY=\n\n# Channels\n# TELEGRAM_BOT_TOKEN=\n# FEISHU_APP_ID=\n# FEISHU_APP_SECRET=\n\n# Home Assistant (shared by the tool and the event channel)\n# HASS_TOKEN=\n# HASS_URL=http://homeassistant.local:8123\n\n# Bearer key for an externally-bound api channel ([channels.api])\n# API_SERVER_KEY=\n";

/// What to write where: a file's name, its content, and whether it is for its owner only.
#[derive(Debug)]
pub struct Scaffold {
    pub name: &'static str,
    pub content: &'static str,
    pub owner_only: bool,
}

/// What is written into a home that holds some of the files already: never one that is
/// there.
pub fn init_at(config_exists: bool, env_exists: bool) -> (r: Vec<Scaffold>)
    ensures
        r@.len() == (if config_exists {
            0int
        } else {
            1
        }) + (if env_exists {
            0int
        } else {
            1
        }),
        !config_exists ==> r@[0].name@ == "config.toml"@ && r@[0].content@ == CONFIG_TEMPLATE@
            && !r@[0].owner_only,
        !env_exists ==> r@.last().name@ == ".env"@ && r@.last().content@ == ENV_TEMPLATE@
            && r@.last().owner_only,
{
    let mut out: Vec<Scaffold> = Vec::new();
    if !config_exists {
        out.push(Scaffold { name: "config.toml", content: CONFIG_TEMPLATE, owner_only: false });
    }
    if !env_exists {
        out.push(Scaffold { name: ".env", content: ENV_TEMPLATE, owner_only: true });
    }
    out
}

/// What is said of a file.
pub open spec fn report_line(home: Seq<char>, name: Seq<char>, created: bool) -> Seq<char> {
    if created {
        "created   "@ + path::joined(home, name)
    } else {
        "unchanged "@ + path::joined(home, name) + " (already exists)"@
    }
}

fn report(home: &str, name: &str, created: bool) -> (r: String)
    ensures
        r@ == report_line(home@, name@, created),
{
    let file = path::join(home, name);
    if created {
        text::prefixed("created   ", &file)
    } else {
        text::between("unchanged ", &file, " (already exists)")
    }
}

/// What is said once the files were written.
pub open spec fn init_lines(home: Seq<char>, config_created: bool, env_created: bool) -> Seq<
    Seq<char>,
> {
    seq![report_line(home, "config.toml"@, config_created)].push(
        report_line(home, ".env"@, env_created),
    ) + text::one_if(
        config_created || env_created,
        "\nNext: put your API key in "@ + home
            + "/.env (DEEPSEEK_API_KEY=sk-...),\nthen restart the gateway. `komo doctor` verifies the result."@,
    )
}

/// What is said once the files were written.
pub fn run(home: &str, config_created: bool, env_created: bool) -> (r: Vec<String>)
    ensures
        text::views(r@) == init_lines(home@, config_created, env_created),
{
    let mut out = text::only(report(home, "config.toml", config_created));
    text::append_line(&mut out, report(home, ".env", env_created));
    text::append_if(
        &mut out,
        config_created || env_created,
        text::between(
            "\nNext: put your API key in ",
            home,
            "/.env (DEEPSEEK_API_KEY=sk-...),\nthen restart the gateway. `komo doctor` verifies the result.",
        ),
    );
    out
}

} // verus!
