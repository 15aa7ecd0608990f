//! The daily greeting: one weather summary, then for every recipient and for
//! the channel a generated text, a greeting and a delivery of its own.

use vstd::prelude::*;
use crate::capability::{
    answered, generated_by, listed, observed, AiModule, Database, Failure, Platform, WeatherModule,
};
use crate::config::Configuration;
use crate::date::{civil_time, format_civil_time, russian_datetime, CivilTime};
use crate::recipient::{User, UserView};
use crate::template::{fill_all, format_template, texts};
use crate::weather::{fallback_summary, summary_text, weather_summary, WeatherModel};

verus! {

/// Why a daily greeting ended before any greeting was sent.
#[derive(Debug, Clone, Copy, PartialEq, Eq, Structural)]
pub enum GreetingError {
    /// The recipient store could not list its recipients.
    StoreUnavailable,
}

/// The text that closes a greeting: what the language model generated, or
/// the configured fallback where it generated nothing.
pub open spec fn closing_text(cfg: &Configuration, generated: Option<Seq<char>>) -> Seq<char> {
    match generated {
        Some(text) => text,
        None => cfg.ai_msg_off@,
    }
}

/// The greeting of one recipient: the configured template filled with the
/// recipient's name, the date, the weather summary and the closing text.
pub open spec fn greeting_text(
    cfg: &Configuration,
    name: Seq<char>,
    date: Seq<char>,
    weather: Seq<char>,
    generated: Option<Seq<char>>,
) -> Seq<char> {
    fill_all(cfg.greeting_fmt@, seq![name, date, weather, closing_text(cfg, generated)])
}

/// The channel as an addressee of the daily greeting.
pub open spec fn channel_view(cfg: &Configuration) -> UserView {
    UserView { id: cfg.channel@, username: "oneprogofficial"@ }
}

/// The text of a generated reply, if there is one.
pub open spec fn generated_view(generated: Option<String>) -> Option<Seq<char>> {
    match generated {
        Some(text) => Some(text@),
        None => None,
    }
}

/// Composes the greeting of `user`.
pub fn compose_greeting(
    cfg: &Configuration,
    user: &User,
    date: &str,
    weather: &str,
    generated: &Option<String>,
) -> (out: String)
    ensures
        out@ == greeting_text(cfg, user@.username, date@, weather@, generated_view(*generated)),
{
    let closing = match generated {
        Some(text) => text.clone(),
        None => cfg.ai_msg_off.clone(),
    };
    let mut args: Vec<String> = Vec::new();
    args.push(user.username.clone());
    args.push(date.to_owned());
    args.push(weather.to_owned());
    args.push(closing);
    assert(texts(args@) == seq![
        user@.username,
        date@,
        weather@,
        closing_text(cfg, generated_view(*generated)),
    ]);
    format_template(cfg.greeting_fmt.as_str(), &args)
}

/// `targets` are `users`, in their order, and then the channel.
pub open spec fn targets_of(targets: Seq<User>, users: Seq<User>, cfg: &Configuration) -> bool {
    &&& targets.len() == users.len() + 1
    &&& forall|i: int| 0 <= i < users.len() ==> targets[i] == users[i]
    &&& targets[users.len() as int]@ == channel_view(cfg)
}

/// Everyone a daily greeting is addressed to: the listed recipients in their
/// order, then the channel.
pub fn greeting_targets(users: Vec<User>, cfg: &Configuration) -> (targets: Vec<User>)
    ensures
        targets_of(targets@, users@, cfg),
{
    let mut targets = users;
    targets.push(User { id: cfg.channel.clone(), username: "oneprogofficial".to_owned() });
    targets
}

/// Calls `chrono::Utc::now` and `naive_local` on its result: the current
/// date and time of day. Nothing is claimed of the value.
#[verifier::external_body]
fn current_time() -> chrono::NaiveDateTime {
    chrono::Utc::now().naive_local()
}

/// What became of the greeting of one recipient.
#[derive(Debug)]
pub struct Delivery {
    /// The recipient.
    pub to: User,
    /// What the language model generated for this recipient, if anything.
    pub generated: Option<String>,
    /// The greeting that was handed to the transport.
    pub text: String,
    /// Whether the transport took it.
    pub delivered: bool,
}

impl Delivery {
    /// The greeting is the one of its recipient for the summary `weather`,
    /// written at some date: it closes with the recipient's own generated
    /// text, or with the fallback where nothing was generated for this
    /// recipient.
    pub open spec fn composed(&self, cfg: &Configuration, weather: Seq<char>) -> bool {
        exists|t: CivilTime|
            t.valid() && self.text@ == #[trigger] greeting_text(
                cfg,
                self.to@.username,
                russian_datetime(t),
                weather,
                generated_view(self.generated),
            )
    }
}

impl Delivery {
    /// The delivery is what `ai` and `platform` made of it: `generated` is
    /// what remains of an answer of the language model to the summary
    /// `weather`, and `delivered` of an answer of the transport to the
    /// greeting.
    pub open spec fn served<A: AiModule, P: Platform>(
        &self,
        ai: &A,
        platform: &P,
        weather: String,
    ) -> bool {
        &&& generated_by(ai, weather, self.generated)
        &&& answered(platform, self.to, self.text@, self.delivered)
    }
}

/// Greets one recipient: asks the language model for a text, falls back to
/// the configured phrase where it fails, composes the greeting with the
/// current date and hands it to the transport.
///
/// A failure of the language model or of the transport is recorded in the
/// result and never passed on.
pub fn process_user<A: AiModule, P: Platform>(
    ai: &A,
    platform: &P,
    user: User,
    weather: &String,
    cfg: &Configuration,
) -> (result: Delivery)
    ensures
        result.to == user,
        result.composed(cfg, weather@),
        result.served(ai, platform, *weather),
{
    let generated = match ai.process(weather.clone()) {
        Ok(text) => Some(text),
        Err(_) => None,
    };
    assert(generated_by(ai, *weather, generated));
    let now = current_time();
    let t = civil_time(&now);
    let date = format_civil_time(&t);
    let text = compose_greeting(cfg, &user, date.as_str(), weather.as_str(), &generated);
    let delivered = platform.send_message(&user, text.as_str()).is_ok();
    assert(answered(platform, user, text@, delivered));
    let result = Delivery { to: user, generated, text, delivered };
    assert(result.text@ == greeting_text(
        cfg,
        result.to@.username,
        russian_datetime(t),
        weather@,
        generated_view(result.generated),
    ));
    result
}

/// Greets every one of `targets` in turn, whatever became of the ones
/// before: one delivery for each, in their order.
pub fn greet_all<A: AiModule, P: Platform>(
    ai: &A,
    platform: &P,
    targets: &Vec<User>,
    weather: &String,
    cfg: &Configuration,
) -> (deliveries: Vec<Delivery>)
    ensures
        deliveries@.len() == targets@.len(),
        forall|i: int| 0 <= i < targets@.len() ==> deliveries@[i].to == targets@[i],
        forall|i: int|
            0 <= i < targets@.len() ==> (#[trigger] deliveries@[i]).composed(cfg, weather@),
        forall|i: int|
            0 <= i < targets@.len() ==> (#[trigger] deliveries@[i]).served(ai, platform, *weather),
{
    let mut deliveries: Vec<Delivery> = Vec::new();
    let mut i: usize = 0;
    while i < targets.len()
        invariant
            i <= targets.len(),
            deliveries@.len() == i,
            forall|j: int| 0 <= j < i ==> deliveries@[j].to == targets@[j],
            forall|j: int| 0 <= j < i ==> (#[trigger] deliveries@[j]).composed(cfg, weather@),
            forall|j: int|
                0 <= j < i ==> (#[trigger] deliveries@[j]).served(ai, platform, *weather),
        decreases targets.len() - i,
    {
        let delivery = process_user(ai, platform, targets[i].clone(), weather, cfg);
        deliveries.push(delivery);
        i += 1;
    }
    deliveries
}

/// What a daily greeting sets out to do.
#[derive(Debug)]
pub struct GreetingPlan {
    /// The snapshot that the weather service gave, if it gave one.
    pub snapshot: Option<WeatherModel>,
    /// The weather summary that every greeting holds.
    pub summary: String,
    /// The listed recipients, in their order, then the channel.
    pub targets: Vec<User>,
}

/// The snapshot of an answer of the weather service, if it gave one.
pub open spec fn snapshot_of(fetched: Result<WeatherModel, Failure>) -> Option<WeatherModel> {
    match fetched {
        Ok(model) => Some(model),
        Err(_) => None,
    }
}

/// The summary of a snapshot, or the fallback without one.
pub open spec fn summary_of(cfg: &Configuration, snapshot: Option<WeatherModel>) -> Seq<char> {
    match snapshot {
        Some(model) => summary_text(cfg, &model),
        None => fallback_summary(),
    }
}

/// Plans a daily greeting from the answers of the weather service and of the
/// recipient store. Without weather the summary is the fallback; without
/// the list of recipients there is no greeting.
pub fn plan_greeting(
    fetched: Result<WeatherModel, Failure>,
    listing: Result<Vec<User>, Failure>,
    cfg: &Configuration,
) -> (outcome: Result<GreetingPlan, GreetingError>)
    ensures
        match outcome {
            Ok(plan) => {
                &&& listing is Ok
                &&& plan.snapshot == snapshot_of(fetched)
                &&& plan.summary@ == summary_of(cfg, plan.snapshot)
                &&& targets_of(plan.targets@, listing->Ok_0@, cfg)
            },
            Err(e) => listing is Err && e == GreetingError::StoreUnavailable,
        },
{
    let snapshot = match fetched {
        Ok(model) => Some(model),
        Err(_) => None,
    };
    let summary = weather_summary(snapshot.as_ref(), cfg);
    let users = match listing {
        Ok(users) => users,
        Err(_) => {
            return Err(GreetingError::StoreUnavailable);
        },
    };
    let targets = greeting_targets(users, cfg);
    Ok(GreetingPlan { snapshot, summary, targets })
}

/// What a daily greeting did.
#[derive(Debug)]
pub struct GreetingReport {
    /// The snapshot that the weather service gave, if it gave one.
    pub snapshot: Option<WeatherModel>,
    /// The weather summary that every greeting holds.
    pub summary: String,
    /// One entry for each listed recipient, in their order, then one for the
    /// channel.
    pub deliveries: Vec<Delivery>,
}

impl GreetingReport {
    /// The summary is that of the snapshot, or the fallback without one; the
    /// last delivery is the channel's; every delivery holds the greeting of
    /// its own recipient.
    pub open spec fn valid(&self, cfg: &Configuration) -> bool {
        &&& self.summary@ == summary_of(cfg, self.snapshot)
        &&& self.deliveries@.len() >= 1
        &&& self.deliveries@.last().to@ == channel_view(cfg)
        &&& forall|i: int|
            0 <= i < self.deliveries@.len() ==> (#[trigger] self.deliveries@[i]).composed(
                cfg,
                self.summary@,
            )
    }
}

/// `outcome` is a possible end of a daily greeting with the four services.
///
/// A report holds what remains of an answer of the weather service, one
/// delivery for each recipient that the store listed, in their order, and
/// one for the channel; each delivery is what the language model and the
/// transport made of it. The run fails only on a failure of the store.
pub open spec fn greeted<W: WeatherModule, D: Database, A: AiModule, P: Platform>(
    weather: &W,
    db: &D,
    ai: &A,
    platform: &P,
    cfg: &Configuration,
    outcome: Result<GreetingReport, GreetingError>,
) -> bool {
    match outcome {
        Ok(report) => {
            &&& report.valid(cfg)
            &&& observed(weather, report.snapshot)
            &&& exists|users: Vec<User>|
                {
                    &&& #[trigger] listed(db, Ok(users))
                    &&& report.deliveries@.len() == users@.len() + 1
                    &&& forall|i: int|
                        0 <= i < users@.len() ==> (#[trigger] report.deliveries@[i]).to
                            == users@[i]
                }
            &&& forall|i: int|
                0 <= i < report.deliveries@.len() ==> (#[trigger] report.deliveries@[i]).served(
                    ai,
                    platform,
                    report.summary,
                )
        },
        Err(e) => e == GreetingError::StoreUnavailable && exists|failure: Failure|
            #[trigger] listed(db, Err(failure)),
    }
}

/// Runs one daily greeting: fetches the weather, lists the recipients and greets
/// each of them and the channel in turn.
///
/// Only a failure of the recipient store ends the run. Without weather the
/// fallback summary is used; a recipient for whom nothing was generated gets
/// the fallback phrase; a greeting that the transport refused is recorded
/// and the run goes on.
pub fn daily_message<W: WeatherModule, D: Database, A: AiModule, P: Platform>(
    weather: &W,
    db: &D,
    ai: &A,
    platform: &P,
    cfg: &Configuration,
) -> (outcome: Result<GreetingReport, GreetingError>)
    ensures
        outcome matches Ok(report) ==> report.valid(cfg),
        outcome matches Err(e) ==> e == GreetingError::StoreUnavailable,
        greeted(weather, db, ai, platform, cfg, outcome),
{
    let fetched = weather.get_weather();
    let listing = db.get_users();
    let ghost sky = fetched;
    let ghost answer = listing;
    let plan = match plan_greeting(fetched, listing, cfg) {
        Ok(plan) => plan,
        Err(e) => {
            assert(listed(db, Err(answer->Err_0)));
            return Err(e);
        },
    };
    assert(observed(weather, plan.snapshot)) by {
        assert(call_ensures(W::get_weather, (weather,), sky));
    }
    let deliveries = greet_all(ai, platform, &plan.targets, &plan.summary, cfg);
    let report = GreetingReport { snapshot: plan.snapshot, summary: plan.summary, deliveries };
    assert(listed(db, Ok(answer->Ok_0)));
    assert(report.deliveries@.len() == answer->Ok_0@.len() + 1);
    assert forall|i: int| 0 <= i < answer->Ok_0@.len() implies (#[trigger] report.deliveries@[i]).to
        == answer->Ok_0@[i] by {
        assert(plan.targets@[i] == answer->Ok_0@[i]);
    }
    Ok(report)
}

/// With a store that never fails, a daily greeting reaches everyone,
/// whatever the weather service and the language model answer: there is a
/// delivery for each listed recipient, in their order, and one for the
/// channel. With a transport that refuses nothing, each one was delivered.
pub proof fn lemma_greeting_reaches_everyone<
    W: WeatherModule,
    D: Database,
    A: AiModule,
    P: Platform,
>(
    weather: &W,
    db: &D,
    ai: &A,
    platform: &P,
    cfg: &Configuration,
    outcome: Result<GreetingReport, GreetingError>,
)
    requires
        greeted(weather, db, ai, platform, cfg, outcome),
        forall|answer: Result<Vec<User>, Failure>| #[trigger] listed(db, answer) ==> answer is Ok,
    ensures
        outcome is Ok,
        exists|users: Vec<User>|
            {
                &&& #[trigger] listed(db, Ok(users))
                &&& outcome->Ok_0.deliveries@.len() == users@.len() + 1
                &&& forall|i: int|
                    0 <= i < users@.len() ==> (#[trigger] outcome->Ok_0.deliveries@[i]).to
                        == users@[i]
            },
        outcome->Ok_0.deliveries@.last().to@ == channel_view(cfg),
        (forall|to: User, text: Seq<char>| !#[trigger] answered(platform, to, text, false))
            ==> forall|i: int|
            0 <= i < outcome->Ok_0.deliveries@.len() ==> (
            #[trigger] outcome->Ok_0.deliveries@[i]).delivered,
{
    match outcome {
        Ok(report) => {
            if forall|to: User, text: Seq<char>| !#[trigger] answered(platform, to, text, false) {
                assert forall|i: int| 0 <= i < report.deliveries@.len() implies (
                #[trigger] report.deliveries@[i]).delivered by {
                    let d = report.deliveries@[i];
                    assert(d.served(ai, platform, report.summary));
                    assert(answered(platform, d.to, d.text@, d.delivered));
                }
            }
        },
        Err(e) => {
            let failure = choose|failure: Failure| #[trigger] listed(db, Err(failure));
            assert(listed(db, Err::<Vec<User>, Failure>(failure)));
        },
    }
}

/// In a valid report, a recipient for whom the language model generated
/// nothing is greeted with the fallback phrase, and every other recipient
/// with the text generated for it: the failure changes that one greeting
/// and no other.
pub proof fn lemma_generation_failure_is_isolated(
    cfg: &Configuration,
    report: GreetingReport,
    k: int,
)
    requires
        report.valid(cfg),
        0 <= k < report.deliveries@.len(),
        report.deliveries@[k].generated is None,
    ensures
        exists|t: CivilTime|
            t.valid() && report.deliveries@[k].text@ == #[trigger] greeting_text(
                cfg,
                report.deliveries@[k].to@.username,
                russian_datetime(t),
                report.summary@,
                None,
            ),
        closing_text(cfg, None) == cfg.ai_msg_off@,
        forall|i: int|
            0 <= i < report.deliveries@.len() && i != k
                && report.deliveries@[i].generated is Some ==> exists|t: CivilTime|
                t.valid() && report.deliveries@[i].text@ == #[trigger] greeting_text(
                    cfg,
                    report.deliveries@[i].to@.username,
                    russian_datetime(t),
                    report.summary@,
                    Some(report.deliveries@[i].generated->Some_0@),
                ),
{
    let dk = report.deliveries@[k];
    assert(dk.composed(cfg, report.summary@));
    assert(generated_view(dk.generated) == None::<Seq<char>>);
    assert forall|i: int|
        0 <= i < report.deliveries@.len() && i != k
            && report.deliveries@[i].generated is Some implies exists|t: CivilTime|
        t.valid() && report.deliveries@[i].text@ == #[trigger] greeting_text(
            cfg,
            report.deliveries@[i].to@.username,
            russian_datetime(t),
            report.summary@,
            Some(report.deliveries@[i].generated->Some_0@),
        ) by {
        let di = report.deliveries@[i];
        assert(di.composed(cfg, report.summary@));
        assert(generated_view(di.generated) == Some(di.generated->Some_0@));
    }
}

} // verus!
