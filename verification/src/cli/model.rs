//! Showing and switching the model.
use crate::casing;
use crate::config::provider::Provider;
use crate::text;
use vstd::prelude::*;

verus! {

/// Where the selection comes from: variables of the environment, then the file.
#[derive(Debug)]
pub struct Selection {
    pub env_provider: Option<String>,
    pub env_model: Option<String>,
    pub file_provider: Option<String>,
    pub file_model: Option<String>,
}

/// The first of two settings that is there, else a fallback; an empty variable does not
/// count.
pub open spec fn chosen(
    env: Option<String>,
    file: Option<String>,
    fallback: Seq<char>,
) -> Seq<char> {
    match text::set_text(env) {
        Some(s) => s,
        None => match file {
            Some(s) => s@,
            None => fallback,
        },
    }
}

/// Where the chosen setting came from.
pub open spec fn source(
    env: Option<String>,
    file: Option<String>,
    var: Seq<char>,
    fallback: Seq<char>,
) -> Seq<char> {
    if text::set_text(env) is Some {
        var
    } else if file is Some {
        "config.toml"@
    } else {
        fallback
    }
}

fn choose_setting(env: &Option<String>, file: &Option<String>, fallback: &str) -> (r: String)
    ensures
        r@ == chosen(*env, *file, fallback@),
{
    match text::nonempty(env) {
        Some(s) => s.to_owned(),
        None => match file {
            Some(s) => s.clone(),
            None => fallback.to_owned(),
        },
    }
}

fn setting_source(
    env: &Option<String>,
    file: &Option<String>,
    var: &'static str,
    fallback: &'static str,
) -> (r: &'static str)
    ensures
        r@ == source(*env, *file, var@, fallback@),
{
    if text::nonempty(env).is_some() {
        var
    } else if file.is_some() {
        "config.toml"
    } else {
        fallback
    }
}

/// Where a provider stands among all.
pub open spec fn place(p: Provider) -> int {
    match p {
        Provider::DeepSeek => 0,
        Provider::OpenAi => 1,
        Provider::Anthropic => 2,
        Provider::OpenRouter => 3,
        Provider::Codex => 4,
    }
}

fn place_of(p: Provider) -> (r: usize)
    ensures
        r == place(p),
        r < 5,
        Provider::all_spec()[r as int] == p,
{
    match p {
        Provider::DeepSeek => 0,
        Provider::OpenAi => 1,
        Provider::Anthropic => 2,
        Provider::OpenRouter => 3,
        Provider::Codex => 4,
    }
}

/// A provider's row in the table.
pub open spec fn provider_row(p: Provider, active: bool, has_key: bool) -> Seq<char> {
    "  "@ + if active {
        "*"@
    } else {
        " "@
    } + " "@ + text::padded(p.name_spec(), 11) + " default "@ + text::padded(
        p.default_model_spec(),
        26,
    ) + " key "@ + p.api_key_var_spec() + " "@ + if has_key {
        "✓"@
    } else {
        "·"@
    }
}

fn row(p: Provider, active: bool, has_key: bool) -> (r: String)
    ensures
        r@ == provider_row(p, active, has_key),
{
    let mut out = "  ".to_owned();
    if active {
        out.push_str("*");
    } else {
        out.push_str(" ");
    }
    out.push_str(" ");
    out.push_str(&text::pad(p.name(), 11));
    out.push_str(" default ");
    out.push_str(&text::pad(p.default_model(), 26));
    out.push_str(" key ");
    out.push_str(p.api_key_var());
    out.push_str(" ");
    if has_key {
        out.push_str("✓");
    } else {
        out.push_str("·");
    }
    out
}

/// The selection in force and the table of providers, where `keys` says which providers
/// have a key.
pub open spec fn listing(s: Selection, p: Provider, keys: Seq<bool>) -> Seq<Seq<char>> {
    seq![
        "Current"@,
        "  provider  "@ + p.name_spec() + "  ("@ + source(
            s.env_provider,
            s.file_provider,
            "env SHION_PROVIDER"@,
            "default"@,
        ) + ")"@,
        "  model     "@ + chosen(s.env_model, s.file_model, p.default_model_spec()) + "  ("@
            + source(s.env_model, s.file_model, "env SHION_MODEL"@, "provider default"@) + ")"@,
        "  api key   "@ + p.api_key_var_spec() + "  "@ + if keys[place(p)] {
            "✓ set"@
        } else {
            "✗ missing"@
        },
        ""@,
        "Available providers  (* = active)"@,
    ] + Seq::new(
        5,
        |i: int| provider_row(Provider::all_spec()[i], Provider::all_spec()[i] == p, keys[i]),
    ) + seq![""@, "Switch with: shion model set <provider> [model]"@]
}

/// The selection in force and the table of providers, where `keys` says which providers
/// have a key. An unknown provider is an error.
pub fn list(s: &Selection, keys: &Vec<bool>) -> (r: Result<Vec<String>, String>)
    requires
        keys@.len() == 5,
    ensures
        match r {
            Ok(lines) => exists|p: Provider|
                {
                    &&& Provider::named(
                        casing::lowercase(
                            text::trimmed(
                                chosen(s.env_provider, s.file_provider, "deepseek"@),
                            ),
                        ),
                    ) == Some(p)
                    &&& text::views(lines@) == #[trigger] listing(*s, p, keys@)
                },
            Err(e) => Provider::is_parse(
                casing::lowercase(
                    text::trimmed(chosen(s.env_provider, s.file_provider, "deepseek"@)),
                ),
                Err(e),
            ),
        },
{
    let word = choose_setting(&s.env_provider, &s.file_provider, "deepseek");
    let p = match Provider::parse(&word) {
        Ok(p) => p,
        Err(e) => return Err(e),
    };
    let model = choose_setting(&s.env_model, &s.file_model, p.default_model());
    let mut out: Vec<String> = Vec::new();
    text::append_line(&mut out, "Current".to_owned());
    let mut a = "  provider  ".to_owned();
    a.push_str(p.name());
    a.push_str("  (");
    a.push_str(
        setting_source(&s.env_provider, &s.file_provider, "env SHION_PROVIDER", "default"),
    );
    a.push_str(")");
    text::append_line(&mut out, a);
    let mut b = "  model     ".to_owned();
    b.push_str(&model);
    b.push_str("  (");
    b.push_str(setting_source(&s.env_model, &s.file_model, "env SHION_MODEL", "provider default"));
    b.push_str(")");
    text::append_line(&mut out, b);
    let mut c = "  api key   ".to_owned();
    c.push_str(p.api_key_var());
    c.push_str("  ");
    if keys[place_of(p)] {
        c.push_str("✓ set");
    } else {
        c.push_str("✗ missing");
    }
    text::append_line(&mut out, c);
    text::append_line(&mut out, "".to_owned());
    text::append_line(&mut out, "Available providers  (* = active)".to_owned());
    let ghost head = text::views(out@);
    let ghost rows = Seq::new(
        5,
        |i: int| provider_row(Provider::all_spec()[i], Provider::all_spec()[i] == p, keys@[i]),
    );
    let all = Provider::all();
    let mut i: usize = 0;
    assert(text::views(out@) =~= head + rows.take(0));
    while i < 5
        invariant
            i <= 5,
            keys@.len() == 5,
            all@ == Provider::all_spec(),
            rows == Seq::new(
                5,
                |i: int|
                    provider_row(Provider::all_spec()[i], Provider::all_spec()[i] == p, keys@[i]),
            ),
            text::views(out@) == head + rows.take(i as int),
        decreases 5 - i,
    {
        let q = all[i];
        text::append_line(&mut out, row(q, q == p, keys[i]));
        i = i + 1;
        assert(text::views(out@) =~= head + rows.take(i as int));
    }
    text::append_line(&mut out, "".to_owned());
    text::append_line(&mut out, "Switch with: shion model set <provider> [model]".to_owned());
    assert(text::views(out@) =~= listing(*s, p, keys@));
    Ok(out)
}

/// What is said of a switch that was written to `path`.
pub open spec fn switch_lines(p: Provider, model: Option<Seq<char>>, path: Seq<char>) -> Seq<
    Seq<char>,
> {
    seq![
        "provider = "@ + p.name_spec(),
        match model {
            Some(m) => "model    = "@ + m,
            None => "model    = "@ + p.default_model_spec() + "  (provider default)"@,
        },
        "wrote "@ + path,
    ]
}

/// What is said of a switch that was written to `path`.
pub fn set(p: Provider, model: Option<&str>, path: &str) -> (r: Vec<String>)
    ensures
        text::views(r@) == switch_lines(p, text::opt_view(model), path@),
{
    let mut out: Vec<String> = Vec::new();
    let mut a = "provider = ".to_owned();
    a.push_str(p.name());
    text::append_line(&mut out, a);
    let mut b = "model    = ".to_owned();
    match model {
        Some(m) => b.push_str(m),
        None => {
            b.push_str(p.default_model());
            b.push_str("  (provider default)");
        },
    }
    text::append_line(&mut out, b);
    let mut c = "wrote ".to_owned();
    c.push_str(path);
    text::append_line(&mut out, c);
    assert(text::views(out@) =~= switch_lines(p, text::opt_view(model), path@));
    out
}

/// What may still stand in the way of a switch.
pub open spec fn switch_notes(p: Provider, overridden: bool, has_key: bool, home: Seq<char>) -> Seq<
    Seq<char>,
> {
    let first = if overridden {
        seq![
            "note: SHION_PROVIDER/SHION_MODEL are set and override config.toml; unset them for this change to take effect"@,
        ]
    } else {
        Seq::empty()
    };
    if has_key {
        first
    } else {
        first.push(
            "note: "@ + p.api_key_var_spec() + " is not set — add it to "@ + home
                + "/.env before using "@ + p.name_spec(),
        )
    }
}

/// What may still stand in the way of a switch: variables that override the file, or a
/// missing key.
pub fn notes(p: Provider, overridden: bool, has_key: bool, home: &str) -> (r: Vec<String>)
    ensures
        text::views(r@) == switch_notes(p, overridden, has_key, home@),
{
    let mut out: Vec<String> = Vec::new();
    assert(text::views(out@) =~= Seq::empty());
    if overridden {
        text::append_line(
            &mut out,
            "note: SHION_PROVIDER/SHION_MODEL are set and override config.toml; unset them for this change to take effect".to_owned(),
        );
        assert(text::views(out@) =~= seq![
            "note: SHION_PROVIDER/SHION_MODEL are set and override config.toml; unset them for this change to take effect"@,
        ]);
    }
    if !has_key {
        let mut n = "note: ".to_owned();
        n.push_str(p.api_key_var());
        n.push_str(" is not set — add it to ");
        n.push_str(home);
        n.push_str("/.env before using ");
        n.push_str(p.name());
        text::append_line(&mut out, n);
    }
    out
}

} // verus!
