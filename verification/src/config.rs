//! The bot's settings.

use vstd::prelude::*;

verus! {

/// Everything the bot is configured with. The templates hold `{}`
/// placeholders; the comments name what fills them, in order.
#[derive(Debug)]
pub struct Configuration {
    /// Address of the weather service.
    pub weather_url: String,
    /// Weather summary: temperature, felt temperature, wind speed, day's
    /// minimum, day's maximum, condition symbols, condition text.
    pub weather_fmt: String,
    /// Name of the language model.
    pub ai_model: String,
    /// Prompt for the language model: weather summary.
    pub ai_prompt: String,
    /// What a greeting says in place of generated text when the language
    /// model cannot be reached.
    pub ai_msg_off: String,
    /// Schedule of the daily greeting.
    pub greeting_date_cron: String,
    /// Greeting: recipient's name, date, weather summary, generated text.
    pub greeting_fmt: String,
    /// Reply to the registration command: recipient's name, identity.
    pub start_fmt: String,
    /// Address of the recipient store.
    pub db_url: String,
    /// Schedule of the draw.
    pub draw_date_cron: String,
    /// Message to the winner of a draw: winner's name.
    pub draw_win_fmt: String,
    /// Identity of the administrator, who never wins a draw.
    pub admin: String,
    /// Announcement of a draw's result: winner's name.
    pub draw_admin_fmt: String,
    /// Identity of the channel.
    pub channel: String,
}

impl Clone for Configuration {
    fn clone(&self) -> (copy: Configuration)
        ensures
            copy == *self,
    {
        Configuration {
            weather_url: self.weather_url.clone(),
            weather_fmt: self.weather_fmt.clone(),
            ai_model: self.ai_model.clone(),
            ai_prompt: self.ai_prompt.clone(),
            ai_msg_off: self.ai_msg_off.clone(),
            greeting_date_cron: self.greeting_date_cron.clone(),
            greeting_fmt: self.greeting_fmt.clone(),
            start_fmt: self.start_fmt.clone(),
            db_url: self.db_url.clone(),
            draw_date_cron: self.draw_date_cron.clone(),
            draw_win_fmt: self.draw_win_fmt.clone(),
            admin: self.admin.clone(),
            draw_admin_fmt: self.draw_admin_fmt.clone(),
            channel: self.channel.clone(),
        }
    }
}

/// What the `config` crate reads as text under `key` from the TOML document
/// `text`: a text as it stands, a number or a truth value as it is written
/// out; nothing where the document cannot be parsed, has no such key, or
/// holds a table or an array there.
pub uninterp spec fn setting_of(text: Seq<char>, key: Seq<char>) -> Option<Seq<char>>;

/// `config::ConfigError`, the reason why a setting could not be read.
/// Nothing is read from it.
#[verifier::external_type_specification]
#[verifier::external_body]
pub struct ExConfigError(config::ConfigError);

/// Parses `text` as a TOML source of `config::Config` and calls
/// `config::Config::get_string` on `key`, which hands out a text as it
/// stands and a number or a truth value written out, and fails for a
/// document that does not parse and for a key that is missing or holds a
/// table or an array. The result depends on the two arguments alone;
/// `setting_of` is its name.
#[verifier::external_body]
fn read_setting(text: &str, key: &str) -> (out: Result<String, config::ConfigError>)
    ensures
        match out {
            Ok(value) => setting_of(text@, key@) == Some(value@),
            Err(_) => setting_of(text@, key@) is None,
        },
{
    config::Config::builder()
        .add_source(config::File::from_str(text, config::FileFormat::Toml))
        .build()?
        .get_string(key)
}

/// Calls `to_string` on a `config::ConfigError`, which writes out the
/// error's message. Nothing is claimed of the text.
#[verifier::external_body]
fn reason_of(error: &config::ConfigError) -> String {
    error.to_string()
}

/// A setting that a document does not hold.
#[derive(Debug)]
pub struct LoadError {
    /// The key of the setting.
    pub key: String,
    /// Why the setting could not be read, in the words of the reader.
    pub reason: String,
}

/// The keys of the settings, in the order in which they are read.
pub open spec fn setting_keys() -> Seq<Seq<char>> {
    seq![
        "weather_url"@,
        "weather_fmt"@,
        "ai_model"@,
        "ai_prompt"@,
        "ai_msg_off"@,
        "greeting_date_cron"@,
        "greeting_fmt"@,
        "start_fmt"@,
        "db_url"@,
        "draw_date_cron"@,
        "draw_win_fmt"@,
        "admin"@,
        "draw_admin_fmt"@,
        "channel"@,
    ]
}

/// `cfg` holds under each key what `text` holds under it.
pub open spec fn loaded_from(cfg: &Configuration, text: Seq<char>) -> bool {
    &&& setting_of(text, "weather_url"@) == Some(cfg.weather_url@)
    &&& setting_of(text, "weather_fmt"@) == Some(cfg.weather_fmt@)
    &&& setting_of(text, "ai_model"@) == Some(cfg.ai_model@)
    &&& setting_of(text, "ai_prompt"@) == Some(cfg.ai_prompt@)
    &&& setting_of(text, "ai_msg_off"@) == Some(cfg.ai_msg_off@)
    &&& setting_of(text, "greeting_date_cron"@) == Some(cfg.greeting_date_cron@)
    &&& setting_of(text, "greeting_fmt"@) == Some(cfg.greeting_fmt@)
    &&& setting_of(text, "start_fmt"@) == Some(cfg.start_fmt@)
    &&& setting_of(text, "db_url"@) == Some(cfg.db_url@)
    &&& setting_of(text, "draw_date_cron"@) == Some(cfg.draw_date_cron@)
    &&& setting_of(text, "draw_win_fmt"@) == Some(cfg.draw_win_fmt@)
    &&& setting_of(text, "admin"@) == Some(cfg.admin@)
    &&& setting_of(text, "draw_admin_fmt"@) == Some(cfg.draw_admin_fmt@)
    &&& setting_of(text, "channel"@) == Some(cfg.channel@)
}

/// `key` is the first setting that `text` does not hold.
pub open spec fn first_missing(text: Seq<char>, key: Seq<char>) -> bool {
    exists|k: int|
        0 <= k < setting_keys().len() && #[trigger] setting_keys()[k] == key && setting_of(
            text,
            key,
        ) is None && forall|j: int| 0 <= j < k ==> setting_of(text, setting_keys()[j]) is Some
}

/// Reads the setting `key`, which stands at `index` among the keys, after
/// every setting before it was found.
fn required(text: &str, key: &str, Ghost(index): Ghost<int>) -> (out: Result<String, LoadError>)
    requires
        0 <= index < setting_keys().len(),
        key@ == setting_keys()[index],
        forall|j: int| 0 <= j < index ==> setting_of(text@, setting_keys()[j]) is Some,
    ensures
        match out {
            Ok(value) => setting_of(text@, key@) == Some(value@),
            Err(e) => first_missing(text@, e.key@),
        },
{
    match read_setting(text, key) {
        Ok(value) => Ok(value),
        Err(e) => Err(LoadError { key: key.to_owned(), reason: reason_of(&e) }),
    }
}

/// Reads the settings from the TOML document `text`. Every setting is
/// required; the error names the first one that the document lacks.
pub fn load_config(text: &str) -> (out: Result<Configuration, LoadError>)
    ensures
        match out {
            Ok(cfg) => loaded_from(&cfg, text@),
            Err(e) => first_missing(text@, e.key@),
        },
{
    let weather_url = required(text, "weather_url", Ghost(0))?;
    let weather_fmt = required(text, "weather_fmt", Ghost(1))?;
    let ai_model = required(text, "ai_model", Ghost(2))?;
    let ai_prompt = required(text, "ai_prompt", Ghost(3))?;
    let ai_msg_off = required(text, "ai_msg_off", Ghost(4))?;
    let greeting_date_cron = required(text, "greeting_date_cron", Ghost(5))?;
    let greeting_fmt = required(text, "greeting_fmt", Ghost(6))?;
    let start_fmt = required(text, "start_fmt", Ghost(7))?;
    let db_url = required(text, "db_url", Ghost(8))?;
    let draw_date_cron = required(text, "draw_date_cron", Ghost(9))?;
    let draw_win_fmt = required(text, "draw_win_fmt", Ghost(10))?;
    let admin = required(text, "admin", Ghost(11))?;
    let draw_admin_fmt = required(text, "draw_admin_fmt", Ghost(12))?;
    let channel = required(text, "channel", Ghost(13))?;
    Ok(
        Configuration {
            weather_url,
            weather_fmt,
            ai_model,
            ai_prompt,
            ai_msg_off,
            greeting_date_cron,
            greeting_fmt,
            start_fmt,
            db_url,
            draw_date_cron,
            draw_win_fmt,
            admin,
            draw_admin_fmt,
            channel,
        },
    )
}

} // verus!
