use greeting_bot::config::Configuration;
use greeting_bot::scheduler::{schedule_all_tasks, Task};

#[test]
fn each_job_runs_on_its_own_schedule() {
    let cfg = Configuration {
        weather_url: String::new(),
        weather_fmt: String::new(),
        ai_model: String::new(),
        ai_prompt: String::new(),
        ai_msg_off: String::new(),
        greeting_date_cron: "0 0 6 * * *".to_string(),
        greeting_fmt: String::new(),
        start_fmt: String::new(),
        db_url: String::new(),
        draw_date_cron: "0 0 18 * * 5".to_string(),
        draw_win_fmt: String::new(),
        admin: String::new(),
        draw_admin_fmt: String::new(),
        channel: String::new(),
    };
    let tasks = schedule_all_tasks(&cfg);
    assert_eq!(tasks.len(), 2);
    assert_eq!((tasks[0].cron.as_str(), tasks[0].task), ("0 0 6 * * *", Task::DailyMessage));
    assert_eq!((tasks[1].cron.as_str(), tasks[1].task), ("0 0 18 * * 5", Task::Draw));
}
