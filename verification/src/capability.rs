//! The outside services the bot relies on, each behind one interface.
//!
//! An implementation may fail on any call and may answer two equal calls
//! differently; the functions of this crate that call one promise only what
//! holds whatever it answers, and say of what they report which answer it
//! came from.

use vstd::prelude::*;
use crate::recipient::User;
use crate::weather::WeatherModel;

verus! {

/// Why a service could not do what it was asked.
#[derive(Debug)]
pub struct Failure {
    pub reason: String,
}

/// The chat transport, as far as sending goes.
pub trait Platform {
    /// Sends `msg` to `user`.
    fn send_message(&self, user: &User, msg: &str) -> Result<(), Failure>;
}

/// The recipient store.
pub trait Database {
    /// Stores `user`, replacing the name of a recipient with the same
    /// identity.
    fn create_user(&self, user: User) -> Result<(), Failure>;

    /// All stored recipients.
    fn get_users(&self) -> Result<Vec<User>, Failure>;
}

/// The language model.
pub trait AiModule {
    /// Text generated for a weather summary.
    fn process(&self, weather: String) -> Result<String, Failure>;
}

/// The weather service.
pub trait WeatherModule {
    /// Current conditions and the day's forecast.
    fn get_weather(&self) -> Result<WeatherModel, Failure>;
}

/// `answer` is an answer that `db` may give when asked for its recipients.
pub open spec fn listed<D: Database>(db: &D, answer: Result<Vec<User>, Failure>) -> bool {
    call_ensures(D::get_users, (db,), answer)
}

/// `stored` is what remains of an answer that `db` may give when asked to
/// store `user`: whether it stored the recipient.
pub open spec fn stored_by<D: Database>(db: &D, user: User, stored: bool) -> bool {
    exists|answer: Result<(), Failure>|
        #[trigger] call_ensures(D::create_user, (db, user), answer) && stored == (answer is Ok)
}

/// `snapshot` is what remains of an answer that `weather` may give: the
/// snapshot, or nothing where the service failed.
pub open spec fn observed<W: WeatherModule>(weather: &W, snapshot: Option<WeatherModel>) -> bool {
    exists|answer: Result<WeatherModel, Failure>|
        #[trigger] call_ensures(W::get_weather, (weather,), answer) && snapshot == match answer {
            Ok(model) => Some(model),
            Err(_) => None,
        }
}

/// `generated` is what remains of an answer that `ai` may give when asked
/// about `weather`: the text, or nothing where the model failed.
pub open spec fn generated_by<A: AiModule>(
    ai: &A,
    weather: String,
    generated: Option<String>,
) -> bool {
    exists|answer: Result<String, Failure>|
        #[trigger] call_ensures(A::process, (ai, weather), answer) && generated == match answer {
            Ok(text) => Some(text),
            Err(_) => None,
        }
}

/// `taken` is what remains of an answer that `platform` may give when
/// handed the message `text` for `to`: whether it took the message.
pub open spec fn answered<P: Platform>(
    platform: &P,
    to: User,
    text: Seq<char>,
    taken: bool,
) -> bool {
    exists|msg: &str, answer: Result<(), Failure>|
        msg@ == text && (answer is Ok) == taken && #[trigger] call_ensures(
            P::send_message,
            (platform, &to, msg),
            answer,
        )
}

} // verus!
