//! The bot's two recurring jobs and their schedules.

use vstd::prelude::*;
use crate::config::Configuration;

verus! {

/// A recurring job.
#[derive(Debug, Clone, Copy, PartialEq, Eq, Structural)]
pub enum Task {
    /// The daily greeting.
    DailyMessage,
    /// The draw.
    Draw,
}

/// A job with the cron expression on which it runs.
#[derive(Debug)]
pub struct ScheduledTask {
    pub cron: String,
    pub task: Task,
}

/// The jobs of the bot: the daily greeting on its schedule, then the draw on
/// its own. Each runs independently of the other.
pub fn schedule_all_tasks(cfg: &Configuration) -> (tasks: Vec<ScheduledTask>)
    ensures
        tasks@.len() == 2,
        tasks@[0].cron@ == cfg.greeting_date_cron@,
        tasks@[0].task == Task::DailyMessage,
        tasks@[1].cron@ == cfg.draw_date_cron@,
        tasks@[1].task == Task::Draw,
{
    let mut tasks: Vec<ScheduledTask> = Vec::new();
    tasks.push(ScheduledTask { cron: cfg.greeting_date_cron.clone(), task: Task::DailyMessage });
    tasks.push(ScheduledTask { cron: cfg.draw_date_cron.clone(), task: Task::Draw });
    tasks
}

} // verus!
