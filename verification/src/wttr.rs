//! The weather service's answer and the snapshot that is read from it.

use vstd::prelude::*;
use crate::weather::WeatherModel;

verus! {

/// Current conditions as the service reports them.
#[derive(Debug)]
pub struct WttrInCondition {
    pub temp_c: String,
    pub feels_like_c: String,
    pub wind_speed_kmph: String,
    /// Descriptions of the condition in Russian.
    pub weather_desc: Vec<String>,
}

/// The forecast of one day.
#[derive(Debug)]
pub struct WttrInDailyWeather {
    pub max_temp_c: String,
    pub min_temp_c: String,
}

/// An answer of the service.
#[derive(Debug)]
pub struct WttrInWeatherResponse {
    pub current_condition: Vec<WttrInCondition>,
    /// Forecasts, today's first.
    pub weather: Vec<WttrInDailyWeather>,
}

/// Why an answer holds no snapshot.
#[derive(Debug, Clone, Copy, PartialEq, Eq, Structural)]
pub enum WeatherError {
    /// The answer has no current condition.
    NoCurrentCondition,
    /// The answer has no forecast.
    NoForecast,
}

/// The description that stands in for a condition without one.
pub open spec fn unknown_status() -> Seq<char> {
    "?"@
}

/// The status of a condition: its first description, or the stand-in.
pub open spec fn status_of(condition: &WttrInCondition) -> Seq<char> {
    if condition.weather_desc@.len() > 0 {
        condition.weather_desc@[0]@
    } else {
        unknown_status()
    }
}

/// The weather service client's rules.
#[derive(Debug)]
pub struct WttrInWeather;

impl WttrInWeather {
    /// Reads the snapshot of an answer: temperatures and wind of the first
    /// current condition, its status, and minimum and maximum of the first
    /// forecast.
    pub fn snapshot(response: &WttrInWeatherResponse) -> (out: Result<WeatherModel, WeatherError>)
        ensures
            match out {
                Ok(model) => {
                    &&& response.current_condition@.len() > 0
                    &&& response.weather@.len() > 0
                    &&& model.temp_c@ == response.current_condition@[0].temp_c@
                    &&& model.feels_like_c@ == response.current_condition@[0].feels_like_c@
                    &&& model.wind_speed_kmph@ == response.current_condition@[0].wind_speed_kmph@
                    &&& model.min_temp_c@ == response.weather@[0].min_temp_c@
                    &&& model.max_temp_c@ == response.weather@[0].max_temp_c@
                    &&& model.status@ == status_of(&response.current_condition@[0])
                },
                Err(WeatherError::NoCurrentCondition) => response.current_condition@.len() == 0,
                Err(WeatherError::NoForecast) => response.current_condition@.len() > 0
                    && response.weather@.len() == 0,
            },
    {
        if response.current_condition.len() == 0 {
            return Err(WeatherError::NoCurrentCondition);
        }
        if response.weather.len() == 0 {
            return Err(WeatherError::NoForecast);
        }
        let current = &response.current_condition[0];
        let today = &response.weather[0];
        let status = if current.weather_desc.len() > 0 {
            current.weather_desc[0].clone()
        } else {
            "?".to_owned()
        };
        Ok(
            WeatherModel {
                temp_c: current.temp_c.clone(),
                feels_like_c: current.feels_like_c.clone(),
                wind_speed_kmph: current.wind_speed_kmph.clone(),
                min_temp_c: today.min_temp_c.clone(),
                max_temp_c: today.max_temp_c.clone(),
                status,
            },
        )
    }
}

} // verus!
