//! Weather snapshots, the symbols that stand for a condition, and the
//! summary text of a daily greeting.

use vstd::prelude::*;
use crate::config::Configuration;
use crate::template::{fill_all, format_template, texts};
use crate::text::{apart_from, chars_of, find_first, lemma_occurs_across_separator, occurs_in};

verus! {

/// Conditions at the time of a daily greeting, as the weather service words them.
#[derive(Debug)]
pub struct WeatherModel {
    pub temp_c: String,
    pub feels_like_c: String,
    pub wind_speed_kmph: String,
    pub min_temp_c: String,
    pub max_temp_c: String,
    pub status: String,
}

impl Clone for WeatherModel {
    fn clone(&self) -> (copy: WeatherModel)
        ensures
            copy == *self,
    {
        WeatherModel {
            temp_c: self.temp_c.clone(),
            feels_like_c: self.feels_like_c.clone(),
            wind_speed_kmph: self.wind_speed_kmph.clone(),
            min_temp_c: self.min_temp_c.clone(),
            max_temp_c: self.max_temp_c.clone(),
            status: self.status.clone(),
        }
    }
}

/// The lowercase form of a text, as `str::to_lowercase` gives it.
pub uninterp spec fn lowercase_of(s: Seq<char>) -> Seq<char>;

/// Calls `str::to_lowercase`, which returns the lowercase equivalent of the
/// string slice as a new `String`. The result is a function of the text
/// alone; `lowercase_of` is its name.
#[verifier::external_body]
fn to_lowercase(s: &str) -> (out: String)
    ensures
        out@ == lowercase_of(s@),
{
    s.to_lowercase()
}

/// The keywords of a condition, each with its symbol, in the order in which
/// the symbols are written.
pub open spec fn pattern_table() -> Seq<(Seq<char>, Seq<char>)> {
    seq![
        ("замерзающий"@, "🧊"@),
        ("переменная"@, "☀️"@),
        ("гроза"@, "⛈️"@),
        ("дождь"@, "🌧️"@),
        ("снег"@, "❄️"@),
        ("слякоть"@, "🌨️"@),
        ("град"@, "🌨️"@),
        ("туман"@, "🌫️"@),
        ("дымка"@, "🌫️"@),
        ("ясно"@, "☀️"@),
        ("облачно"@, "☁️"@),
        ("пасмурно"@, "🌥️"@),
    ]
}

/// The symbols of the keywords of `table` that stand in `lower`, in the
/// order of `table`.
pub open spec fn symbols(lower: Seq<char>, table: Seq<(Seq<char>, Seq<char>)>) -> Seq<char>
    decreases table.len(),
{
    if table.len() == 0 {
        Seq::empty()
    } else {
        symbols(lower, table.drop_last()) + (if occurs_in(lower, table.last().0) {
            table.last().1
        } else {
            Seq::empty()
        })
    }
}

/// The symbols that stand for the condition `desc`.
pub open spec fn emoji_text(desc: Seq<char>) -> Seq<char> {
    symbols(lowercase_of(desc), pattern_table())
}

/// The keywords and symbols of `pattern_table`.
fn pattern_list() -> (list: Vec<(&'static str, &'static str)>)
    ensures
        list@.len() == pattern_table().len(),
        forall|i: int| 0 <= i < list@.len() ==> (list@[i].0@, list@[i].1@) == pattern_table()[i],
{
    vec![
        ("замерзающий", "🧊"),
        ("переменная", "☀️"),
        ("гроза", "⛈️"),
        ("дождь", "🌧️"),
        ("снег", "❄️"),
        ("слякоть", "🌨️"),
        ("град", "🌨️"),
        ("туман", "🌫️"),
        ("дымка", "🌫️"),
        ("ясно", "☀️"),
        ("облачно", "☁️"),
        ("пасмурно", "🌥️"),
    ]
}

/// The symbols of the keywords that stand in `lower`, a description in
/// lowercase, in the order of the keyword list.
pub fn symbols_of(lower: &str) -> (out: String)
    ensures
        out@ == symbols(lower@, pattern_table()),
{
    let list = pattern_list();
    let ghost table = pattern_table();
    let hay = chars_of(lower);
    let mut out = String::new();
    let mut i: usize = 0;
    while i < list.len()
        invariant
            i <= list.len(),
            table == pattern_table(),
            list@.len() == table.len(),
            forall|k: int| 0 <= k < list@.len() ==> (list@[k].0@, list@[k].1@) == table[k],
            hay@ == lower@,
            out@ == symbols(lower@, table.take(i as int)),
        decreases list.len() - i,
    {
        let (keyword, symbol) = list[i];
        proof {
            let upto = table.take(i + 1);
            assert(upto.drop_last() == table.take(i as int));
            assert(upto.last() == table[i as int]);
        }
        if find_first(&hay, &chars_of(keyword)).is_some() {
            out.append(symbol);
        } else {
            assert(out@ + Seq::<char>::empty() == out@);
        }
        i += 1;
    }
    assert(table.take(table.len() as int) == table);
    out
}

/// Turns the description of a condition into its symbols. Letter case is
/// ignored, a keyword counts wherever it stands in the description, and the
/// symbols come in the order of the keyword list, not of the description.
pub fn weather_to_emoji(desc: &str) -> (out: String)
    ensures
        out@ == emoji_text(desc@),
{
    let lower = to_lowercase(desc);
    symbols_of(lower.as_str())
}

/// Two descriptions in which the same keywords stand have the same symbols,
/// wherever the keywords stand in each.
pub proof fn lemma_symbols_ignore_position(
    a: Seq<char>,
    b: Seq<char>,
    table: Seq<(Seq<char>, Seq<char>)>,
)
    requires
        forall|k: int| 0 <= k < table.len() ==> occurs_in(a, table[k].0) == occurs_in(b, table[k].0),
    ensures
        symbols(a, table) == symbols(b, table),
    decreases table.len(),
{
    if table.len() > 0 {
        let rest = table.drop_last();
        assert forall|k: int| 0 <= k < rest.len() implies occurs_in(a, rest[k].0) == occurs_in(
            b,
            rest[k].0,
        ) by {
            assert(rest[k] == table[k]);
        }
        lemma_symbols_ignore_position(a, b, rest);
        assert(table.last() == table[table.len() - 1]);
    }
}

/// What stands between the parts of a description.
pub open spec fn separator() -> Seq<char> {
    ", "@
}

/// No keyword holds a character of the separator.
proof fn lemma_keywords_hold_no_separator()
    ensures
        separator().len() > 0,
        forall|k: int|
            0 <= k < pattern_table().len() ==> apart_from(
                #[trigger] pattern_table()[k].0,
                separator(),
            ),
{
    reveal_strlit(", ");
    reveal_strlit("замерзающий");
    reveal_strlit("переменная");
    reveal_strlit("гроза");
    reveal_strlit("дождь");
    reveal_strlit("снег");
    reveal_strlit("слякоть");
    reveal_strlit("град");
    reveal_strlit("туман");
    reveal_strlit("дымка");
    reveal_strlit("ясно");
    reveal_strlit("облачно");
    reveal_strlit("пасмурно");
    assert(apart_from("замерзающий"@, separator()));
    assert(apart_from("переменная"@, separator()));
    assert(apart_from("гроза"@, separator()));
    assert(apart_from("дождь"@, separator()));
    assert(apart_from("снег"@, separator()));
    assert(apart_from("слякоть"@, separator()));
    assert(apart_from("град"@, separator()));
    assert(apart_from("туман"@, separator()));
    assert(apart_from("дымка"@, separator()));
    assert(apart_from("ясно"@, separator()));
    assert(apart_from("облачно"@, separator()));
    assert(apart_from("пасмурно"@, separator()));
}

/// The parts of a description in lowercase can change places around the
/// separator: the symbols stay the same, in the same order.
pub proof fn lemma_symbols_ignore_order(a: Seq<char>, b: Seq<char>)
    ensures
        symbols(a + separator() + b, pattern_table()) == symbols(
            b + separator() + a,
            pattern_table(),
        ),
{
    lemma_keywords_hold_no_separator();
    let table = pattern_table();
    assert forall|k: int| 0 <= k < table.len() implies occurs_in(
        a + separator() + b,
        table[k].0,
    ) == occurs_in(b + separator() + a, table[k].0) by {
        lemma_occurs_across_separator(a, separator(), b, table[k].0);
        lemma_occurs_across_separator(b, separator(), a, table[k].0);
    }
    lemma_symbols_ignore_position(a + separator() + b, b + separator() + a, table);
}

/// The parts of a description can change places around the separator
/// wherever lowercase is taken part by part: the symbols stay the same, in
/// the same order.
pub proof fn lemma_emoji_ignore_order(a: Seq<char>, b: Seq<char>)
    requires
        lowercase_of(a + separator() + b) == lowercase_of(a) + separator() + lowercase_of(b),
        lowercase_of(b + separator() + a) == lowercase_of(b) + separator() + lowercase_of(a),
    ensures
        emoji_text(a + separator() + b) == emoji_text(b + separator() + a),
{
    lemma_symbols_ignore_order(lowercase_of(a), lowercase_of(b));
}

/// Descriptions that differ only in letter case have the same symbols.
pub proof fn lemma_symbols_ignore_case(a: Seq<char>, b: Seq<char>)
    requires
        lowercase_of(a) == lowercase_of(b),
    ensures
        emoji_text(a) == emoji_text(b),
{
}

/// The summary that stands in for the weather when the service gave none.
pub open spec fn fallback_summary() -> Seq<char> {
    "Пасмурно"@
}

/// The summary of a snapshot: the configured weather template filled with
/// temperature, felt temperature, wind speed, the day's minimum and maximum,
/// the condition's symbols and the condition's text.
pub open spec fn summary_text(cfg: &Configuration, model: &WeatherModel) -> Seq<char> {
    fill_all(
        cfg.weather_fmt@,
        seq![
            model.temp_c@,
            model.feels_like_c@,
            model.wind_speed_kmph@,
            model.min_temp_c@,
            model.max_temp_c@,
            emoji_text(model.status@),
            model.status@,
        ],
    )
}

/// Formats a snapshot into the weather summary of a daily greeting.
pub fn format_weather(model: &WeatherModel, cfg: &Configuration) -> (out: String)
    ensures
        out@ == summary_text(cfg, model),
{
    let mut args: Vec<String> = Vec::new();
    args.push(model.temp_c.clone());
    args.push(model.feels_like_c.clone());
    args.push(model.wind_speed_kmph.clone());
    args.push(model.min_temp_c.clone());
    args.push(model.max_temp_c.clone());
    args.push(weather_to_emoji(model.status.as_str()));
    args.push(model.status.clone());
    assert(texts(args@) == seq![
        model.temp_c@,
        model.feels_like_c@,
        model.wind_speed_kmph@,
        model.min_temp_c@,
        model.max_temp_c@,
        emoji_text(model.status@),
        model.status@,
    ]);
    format_template(cfg.weather_fmt.as_str(), &args)
}

/// The weather summary of a daily greeting: that of the snapshot where the
/// service gave one, the fallback where it did not.
pub fn weather_summary(fetched: Option<&WeatherModel>, cfg: &Configuration) -> (out: String)
    ensures
        out@ == match fetched {
            Some(model) => summary_text(cfg, model),
            None => fallback_summary(),
        },
{
    match fetched {
        Some(model) => format_weather(model, cfg),
        None => "Пасмурно".to_owned(),
    }
}

} // verus!
