use std::cell::{Cell, RefCell};

use greeting_bot::greeting::{
    greeting_targets, compose_greeting, daily_message, greet_all, plan_greeting, process_user,
    GreetingError,
};
use greeting_bot::capability::{AiModule, Database, Failure, Platform, WeatherModule};
use greeting_bot::config::Configuration;
use greeting_bot::recipient::User;
use greeting_bot::weather::WeatherModel;

fn settings() -> Configuration {
    Configuration {
        weather_url: String::new(),
        weather_fmt: "{}|{}|{}|{}|{}|{}|{}".to_string(),
        ai_model: String::new(),
        ai_prompt: String::new(),
        ai_msg_off: "(the model is resting)".to_string(),
        greeting_date_cron: String::new(),
        greeting_fmt: "Hi {}! [{}] <{}> {}".to_string(),
        start_fmt: String::new(),
        db_url: String::new(),
        draw_date_cron: String::new(),
        draw_win_fmt: String::new(),
        admin: "1".to_string(),
        draw_admin_fmt: String::new(),
        channel: "-100".to_string(),
    }
}

fn failure(reason: &str) -> Failure {
    Failure { reason: reason.to_string() }
}

struct Store {
    users: Option<Vec<User>>,
    listed: Cell<usize>,
}

impl Database for Store {
    fn create_user(&self, _user: User) -> Result<(), Failure> {
        Ok(())
    }

    fn get_users(&self) -> Result<Vec<User>, Failure> {
        self.listed.set(self.listed.get() + 1);
        self.users.clone().ok_or_else(|| failure("no connection"))
    }
}

struct Transport {
    refuses: Vec<String>,
    sent: RefCell<Vec<(String, String)>>,
}

impl Platform for Transport {
    fn send_message(&self, user: &User, msg: &str) -> Result<(), Failure> {
        self.sent.borrow_mut().push((user.id.clone(), msg.to_string()));
        if self.refuses.contains(&user.id) {
            Err(failure("blocked"))
        } else {
            Ok(())
        }
    }
}

/// Answers the n-th call with "text n", and fails on the calls in `fails`.
struct Model {
    fails: Vec<usize>,
    calls: RefCell<Vec<String>>,
}

impl AiModule for Model {
    fn process(&self, weather: String) -> Result<String, Failure> {
        let n = self.calls.borrow().len();
        self.calls.borrow_mut().push(weather);
        if self.fails.contains(&n) {
            Err(failure("timeout"))
        } else {
            Ok(format!("text {n}"))
        }
    }
}

struct Sky {
    status: Option<String>,
    fetched: Cell<usize>,
}

impl WeatherModule for Sky {
    fn get_weather(&self) -> Result<WeatherModel, Failure> {
        self.fetched.set(self.fetched.get() + 1);
        match &self.status {
            Some(status) => Ok(WeatherModel {
                temp_c: "1".to_string(),
                feels_like_c: "2".to_string(),
                wind_speed_kmph: "3".to_string(),
                min_temp_c: "4".to_string(),
                max_temp_c: "5".to_string(),
                status: status.clone(),
            }),
            None => Err(failure("unreachable")),
        }
    }
}

fn users(n: usize) -> Vec<User> {
    (0..n).map(|i| User::new(&format!("{}", 10 + i), &format!("user{i}"))).collect()
}

fn transport(refuses: &[&str]) -> Transport {
    Transport { refuses: refuses.iter().map(|s| s.to_string()).collect(), sent: RefCell::new(Vec::new()) }
}

fn model(fails: &[usize]) -> Model {
    Model { fails: fails.to_vec(), calls: RefCell::new(Vec::new()) }
}

/// The date of a greeting built with `settings`: what stands between [ and ].
fn date_of(text: &str) -> &str {
    let from = text.find('[').expect("a date") + 1;
    let to = text.find(']').expect("a date");
    &text[from..to]
}

#[test]
fn a_greeting_holds_name_date_weather_and_text() {
    let cfg = settings();
    let user = User::new("10", "masha");
    let text = compose_greeting(&cfg, &user, "среда", "-3 ❄️", &Some("Good morning".to_string()));
    assert_eq!(text, "Hi masha! [среда] <-3 ❄️> Good morning");
}

#[test]
fn a_greeting_without_generated_text_holds_the_fallback() {
    let cfg = settings();
    let user = User::new("10", "masha");
    let text = compose_greeting(&cfg, &user, "среда", "-3 ❄️", &None);
    assert_eq!(text, "Hi masha! [среда] <-3 ❄️> (the model is resting)");
}

#[test]
fn the_channel_is_the_last_target() {
    let targets = greeting_targets(users(2), &settings());
    assert_eq!(targets.len(), 3);
    assert_eq!(targets[0].id, "10");
    assert_eq!(targets[1].id, "11");
    assert_eq!(targets[2].id, "-100");
    assert_eq!(targets[2].username, "oneprogofficial");
    let alone = greeting_targets(Vec::new(), &settings());
    assert_eq!(alone.len(), 1);
    assert_eq!(alone[0].id, "-100");
}

#[test]
fn one_recipient_is_greeted_with_its_own_text() {
    let cfg = settings();
    let ai = model(&[]);
    let out = transport(&[]);
    let done = process_user(&ai, &out, User::new("10", "masha"), &"sunny".to_string(), &cfg);
    assert_eq!(done.to.id, "10");
    assert_eq!(done.generated.as_deref(), Some("text 0"));
    assert!(done.delivered);
    assert_eq!(done.text, format!("Hi masha! [{}] <sunny> text 0", date_of(&done.text)));
    assert!(date_of(&done.text).contains(" года, "));
    assert_eq!(ai.calls.borrow().as_slice(), ["sunny".to_string()]);
    assert_eq!(out.sent.borrow().as_slice(), [("10".to_string(), done.text.clone())]);
}

#[test]
fn a_refused_greeting_is_recorded() {
    let cfg = settings();
    let done = process_user(&model(&[]), &transport(&["10"]), User::new("10", "masha"), &"sunny".to_string(), &cfg);
    assert!(!done.delivered);
    assert_eq!(done.generated.as_deref(), Some("text 0"));
}

#[test]
fn a_failed_generation_changes_one_greeting_only() {
    let cfg = settings();
    let n = 5;
    for k in 0..=n {
        let ai = model(&[k]);
        let out = transport(&[]);
        let store = Store { users: Some(users(n)), listed: Cell::new(0) };
        let sky = Sky { status: Some("Ясно".to_string()), fetched: Cell::new(0) };
        let report = daily_message(&sky, &store, &ai, &out, &cfg).expect("the run succeeds");
        assert_eq!(report.summary, "1|2|3|4|5|☀️|Ясно");
        assert_eq!(report.deliveries.len(), n + 1);
        assert_eq!(out.sent.borrow().len(), n + 1);
        assert_eq!(store.listed.get(), 1);
        assert_eq!(sky.fetched.get(), 1);
        for (i, delivery) in report.deliveries.iter().enumerate() {
            assert!(delivery.delivered);
            let name = if i < n { format!("user{i}") } else { "oneprogofficial".to_string() };
            let closing = if i == k { "(the model is resting)".to_string() } else { format!("text {i}") };
            assert_eq!(delivery.to.username, name);
            assert_eq!(delivery.generated.is_none(), i == k);
            assert_eq!(
                delivery.text,
                format!("Hi {name}! [{}] <1|2|3|4|5|☀️|Ясно> {closing}", date_of(&delivery.text))
            );
            assert_eq!(out.sent.borrow()[i], (delivery.to.id.clone(), delivery.text.clone()));
        }
    }
}

#[test]
fn a_refused_greeting_does_not_stop_the_others() {
    let cfg = settings();
    let out = transport(&["11"]);
    let targets = greeting_targets(users(3), &cfg);
    let deliveries = greet_all(&model(&[]), &out, &targets, &"sunny".to_string(), &cfg);
    let delivered: Vec<bool> = deliveries.iter().map(|d| d.delivered).collect();
    assert_eq!(delivered, [true, false, true, true]);
    assert_eq!(out.sent.borrow().len(), 4);
}

#[test]
fn without_weather_the_fallback_summary_is_used() {
    let cfg = settings();
    let out = transport(&[]);
    let store = Store { users: Some(users(1)), listed: Cell::new(0) };
    let sky = Sky { status: None, fetched: Cell::new(0) };
    let ai = model(&[]);
    let report = daily_message(&sky, &store, &ai, &out, &cfg).expect("the run succeeds");
    assert!(report.snapshot.is_none());
    assert_eq!(report.summary, "Пасмурно");
    assert_eq!(report.deliveries.len(), 2);
    assert_eq!(ai.calls.borrow().as_slice(), ["Пасмурно".to_string(), "Пасмурно".to_string()]);
    for delivery in &report.deliveries {
        assert!(delivery.text.contains("<Пасмурно>"));
    }
}

#[test]
fn without_the_store_nothing_is_sent() {
    let cfg = settings();
    let out = transport(&[]);
    let store = Store { users: None, listed: Cell::new(0) };
    let sky = Sky { status: Some("ясно".to_string()), fetched: Cell::new(0) };
    let ai = model(&[]);
    let outcome = daily_message(&sky, &store, &ai, &out, &cfg);
    assert_eq!(outcome.expect_err("the store is down"), GreetingError::StoreUnavailable);
    assert!(out.sent.borrow().is_empty());
    assert!(ai.calls.borrow().is_empty());
}

#[test]
fn a_plan_holds_the_summary_and_the_targets() {
    let cfg = settings();
    let sky = Sky { status: Some("Гроза".to_string()), fetched: Cell::new(0) };
    let plan = plan_greeting(sky.get_weather(), Ok(users(2)), &cfg).expect("a plan");
    assert_eq!(plan.summary, "1|2|3|4|5|⛈️|Гроза");
    assert_eq!(plan.snapshot.expect("a snapshot").status, "Гроза");
    let ids: Vec<&str> = plan.targets.iter().map(|u| u.id.as_str()).collect();
    assert_eq!(ids, ["10", "11", "-100"]);
}

#[test]
fn a_plan_without_weather_or_without_the_list() {
    let cfg = settings();
    let plan = plan_greeting(Err(failure("unreachable")), Ok(users(0)), &cfg).expect("a plan");
    assert!(plan.snapshot.is_none());
    assert_eq!(plan.summary, "Пасмурно");
    assert_eq!(plan.targets.len(), 1);
    let sky = Sky { status: Some("ясно".to_string()), fetched: Cell::new(0) };
    let none = plan_greeting(sky.get_weather(), Err(failure("no connection")), &cfg);
    assert_eq!(none.expect_err("no list"), GreetingError::StoreUnavailable);
}
