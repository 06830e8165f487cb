//! The one configuration write: persisting a model selection.
use crate::config::provider::Provider;
use vstd::prelude::*;

verus! {

/// A TOML table.
#[verifier::external_type_specification]
#[verifier::external_body]
#[verifier::reject_recursive_types(K)]
#[verifier::reject_recursive_types(V)]
pub struct ExTomlMap<K, V>(toml::map::Map<K, V>);

/// A TOML value.
#[verifier::external_type_specification]
#[verifier::external_body]
pub struct ExTomlValue(toml::Value);

/// What a TOML table holds: for each key, its value written as TOML.
pub uninterp spec fn entries(t: toml::Table) -> Map<Seq<char>, Seq<char>>;

/// How TOML writes a string value.
pub uninterp spec fn string_value(s: Seq<char>) -> Seq<char>;

/// What `toml::from_str` reads as a table in a document, or `None` when it
/// refuses the document.
pub uninterp spec fn read_entries(s: Seq<char>) -> Option<Map<Seq<char>, Seq<char>>>;

/// What `toml::from_str` says of a document that it refuses.
pub uninterp spec fn read_fault(s: Seq<char>) -> Seq<char>;

/// What `toml::to_string_pretty` gives for a table: the document, or the
/// complaint.
pub uninterp spec fn written(m: Map<Seq<char>, Seq<char>>) -> Result<Seq<char>, Seq<char>>;

/// `toml::from_str` into a table: the entries, or the complaint, are a function
/// of the document.
#[verifier::external_body]
fn read_table(s: &str) -> (r: Result<toml::Table, String>)
    ensures
        r is Ok ==> read_entries(s@) == Some(entries(r->Ok_0)),
        r is Err ==> read_entries(s@) is None && r->Err_0@ == read_fault(s@),
{
    toml::from_str::<toml::Table>(s).map_err(|e| e.to_string())
}

/// The entries of an empty table.
pub open spec fn no_entries() -> Map<Seq<char>, Seq<char>> {
    Map::empty()
}

/// `toml::map::Map::new`: a table with no entries.
#[verifier::external_body]
fn empty_table() -> (r: toml::Table)
    ensures
        entries(r) == no_entries(),
{
    toml::Table::new()
}

/// `toml::map::Map::insert` of a string value: the key now holds that string, and
/// the other keys keep their values.
#[verifier::external_body]
fn put_string(t: &mut toml::Table, key: &str, value: &str)
    ensures
        entries(*final(t)) == entries(*old(t)).insert(key@, string_value(value@)),
{
    t.insert(key.to_string(), toml::Value::String(value.to_string()));
}

/// `toml::map::Map::remove`: the key is gone, and the other keys keep their
/// values.
#[verifier::external_body]
fn drop_key(t: &mut toml::Table, key: &str)
    ensures
        entries(*final(t)) == entries(*old(t)).remove(key@),
{
    t.remove(key);
}

/// `toml::to_string_pretty` of a table: the document, or the complaint, is a
/// function of the entries.
#[verifier::external_body]
fn write_table(t: &toml::Table) -> (r: Result<String, String>)
    ensures
        r is Ok ==> written(entries(*t)) is Ok && written(entries(*t))->Ok_0 == r->Ok_0@,
        r is Err ==> written(entries(*t)) is Err && written(entries(*t))->Err_0 == r->Err_0@,
{
    toml::to_string_pretty(t).map_err(|e| e.to_string())
}

/// A table's entries with the selection set: the provider's name, and the model
/// where one is given; without one the `model` key goes, so that the provider's
/// default applies.
pub open spec fn with_selection(
    m: Map<Seq<char>, Seq<char>>,
    provider: Provider,
    model: Option<&str>,
) -> Map<Seq<char>, Seq<char>> {
    let named = m.insert("provider"@, string_value(provider.name_spec()));
    match model {
        Some(id) => named.insert("model"@, string_value(id@)),
        None => named.remove("model"@),
    }
}

/// The table with the selection set.
pub fn select_model(
    table: toml::Table,
    provider: Provider,
    model: Option<&str>,
) -> (r: toml::Table)
    ensures
        entries(r) == with_selection(entries(table), provider, model),
{
    let mut table = table;
    put_string(&mut table, "provider", provider.name());
    match model {
        Some(id) => {
            put_string(&mut table, "model", id);
        },
        None => {
            drop_key(&mut table, "model");
        },
    }
    table
}

/// The message for a configuration file that is not TOML.
pub open spec fn invalid_toml(path: Seq<char>, fault: Seq<char>) -> Seq<char> {
    path + " is invalid TOML: "@ + fault
}

/// Whether `r` is the new text of a configuration file that held `existing` (or
/// was not there): every other key stays as it was.
pub open spec fn is_rewrite(
    path: Seq<char>,
    existing: Option<&str>,
    provider: Provider,
    model: Option<&str>,
    r: Result<String, String>,
) -> bool {
    let before = match existing {
        Some(s) => read_entries(s@),
        None => Some(no_entries()),
    };
    match before {
        None => r is Err && r->Err_0@ == invalid_toml(path, read_fault(existing->0@)),
        Some(m) => match written(with_selection(m, provider, model)) {
            Ok(s) => r is Ok && r->Ok_0@ == s,
            Err(e) => r is Err && r->Err_0@ == e,
        },
    }
}

/// The new text of the configuration file at `path`, which holds `existing` or is
/// not there yet, with the provider and model selection set and every other key
/// preserved.
pub fn write_model_selection(
    path: &str,
    existing: Option<&str>,
    provider: Provider,
    model: Option<&str>,
) -> (r: Result<String, String>)
    ensures
        is_rewrite(path@, existing, provider, model, r),
{
    let table = match existing {
        Some(s) => match read_table(s) {
            Ok(t) => t,
            Err(e) => {
                let mut m = path.to_owned();
                m.push_str(" is invalid TOML: ");
                m.push_str(&e);
                return Err(m);
            },
        },
        None => empty_table(),
    };
    write_table(&select_model(table, provider, model))
}

/// Setting a selection touches the keys `provider` and `model` only, and setting
/// it twice is setting the second one.
pub proof fn selection_touches_two_keys(
    m: Map<Seq<char>, Seq<char>>,
    p: Provider,
    model: Option<&str>,
    q: Provider,
    other: Option<&str>,
    key: Seq<char>,
)
    requires
        key != "provider"@,
        key != "model"@,
    ensures
        with_selection(m, p, model).dom().contains(key) == m.dom().contains(key),
        m.dom().contains(key) ==> with_selection(m, p, model)[key] == m[key],
        with_selection(with_selection(m, p, model), q, other) == with_selection(m, q, other),
{
    reveal_strlit("provider");
    reveal_strlit("model");
    assert("provider"@.len() != "model"@.len());
    assert(with_selection(with_selection(m, p, model), q, other) =~= with_selection(m, q, other));
}

} // verus!
