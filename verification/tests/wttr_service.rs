use greeting_bot::wttr::{
    WeatherError, WttrInCondition, WttrInDailyWeather, WttrInWeather, WttrInWeatherResponse,
};

fn condition(descriptions: &[&str]) -> WttrInCondition {
    WttrInCondition {
        temp_c: "-3".to_string(),
        feels_like_c: "-8".to_string(),
        wind_speed_kmph: "14".to_string(),
        weather_desc: descriptions.iter().map(|s| s.to_string()).collect(),
    }
}

fn day(min: &str, max: &str) -> WttrInDailyWeather {
    WttrInDailyWeather { max_temp_c: max.to_string(), min_temp_c: min.to_string() }
}

#[test]
fn the_snapshot_is_read_from_the_first_entries() {
    let response = WttrInWeatherResponse {
        current_condition: vec![condition(&["Небольшой снег", "Снег"]), condition(&["Ясно"])],
        weather: vec![day("-9", "-1"), day("-5", "2")],
    };
    let model = WttrInWeather::snapshot(&response).expect("a snapshot");
    assert_eq!(model.temp_c, "-3");
    assert_eq!(model.feels_like_c, "-8");
    assert_eq!(model.wind_speed_kmph, "14");
    assert_eq!(model.min_temp_c, "-9");
    assert_eq!(model.max_temp_c, "-1");
    assert_eq!(model.status, "Небольшой снег");
}

#[test]
fn a_condition_without_description_has_the_stand_in() {
    let response = WttrInWeatherResponse {
        current_condition: vec![condition(&[])],
        weather: vec![day("0", "1")],
    };
    assert_eq!(WttrInWeather::snapshot(&response).expect("a snapshot").status, "?");
}

#[test]
fn an_answer_without_condition_or_forecast_holds_no_snapshot() {
    let response = WttrInWeatherResponse { current_condition: vec![], weather: vec![day("0", "1")] };
    assert_eq!(WttrInWeather::snapshot(&response).err(), Some(WeatherError::NoCurrentCondition));
    let response = WttrInWeatherResponse { current_condition: vec![], weather: vec![] };
    assert_eq!(WttrInWeather::snapshot(&response).err(), Some(WeatherError::NoCurrentCondition));
    let response = WttrInWeatherResponse { current_condition: vec![condition(&["Ясно"])], weather: vec![] };
    assert_eq!(WttrInWeather::snapshot(&response).err(), Some(WeatherError::NoForecast));
}
