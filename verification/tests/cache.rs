use luzbot::cache::{
    answer_day, answer_price, answer_with_day, answer_with_price, update_day_cache, update_price_cache,
    Answer, Cache, Timestamp,
};
use luzbot::day_query::DayQuery;
use luzbot::error::{FetchError, FormatError, QueryError};
use luzbot::price_query::PriceQuery;

fn at(day: u32, hour: u32) -> Timestamp {
    Timestamp { day, hour }
}

fn now_record(price: i64, hour: &str) -> PriceQuery {
    PriceQuery::new(
        String::from("14-03-2024"),
        price,
        Some(false),
        Some(true),
        Some(String::from(hour)),
    )
}

fn min_record(hour: &str) -> PriceQuery {
    PriceQuery::new(String::from("14-03-2024"), 52, None, None, Some(String::from(hour)))
}

fn day_record(date: &str) -> DayQuery {
    DayQuery::new(
        PriceQuery::new(String::from(date), 52, None, None, Some(String::from("03-04"))),
        PriceQuery::new(String::from(date), 187, None, None, Some(String::from("20-21"))),
        PriceQuery::new(String::from(date), 101, None, None, None),
    )
}

fn day_text(date: &str) -> String {
    format!(
        "Precio de la luz a {date}\nMínimo: 0.052€, de 03 a 04\nMáximo: 0.187€, de 20 a 21\nMedia: 0.101€"
    )
}

fn failure(cause: &str) -> FetchError {
    FetchError { cause: String::from(cause) }
}

fn price_cache_with(record: PriceQuery) -> Cache<PriceQuery> {
    let mut cache = Cache::new();
    let _ = update_price_cache(&mut cache, Ok(record));
    cache
}

fn day_cache_with(day: DayQuery) -> Cache<DayQuery> {
    let mut cache = Cache::new();
    let _ = update_day_cache(&mut cache, Ok(day));
    cache
}

#[test]
fn cache_starts_empty() {
    let prices: Cache<PriceQuery> = Cache::new();
    let days: Cache<DayQuery> = Cache::new();
    assert_eq!(prices.get(), None);
    assert_eq!(days.get(), None);
}

#[test]
fn empty_price_cache_is_filled_by_one_fetch() {
    let mut cache: Cache<PriceQuery> = Cache::new();
    assert_eq!(answer_price(&cache, at(14, 8)), Ok(Answer::Refresh));
    assert_eq!(cache.get(), None);

    let fetched = now_record(123, "08-09");
    let reply = update_price_cache(&mut cache, Ok(fetched.clone()));
    assert_eq!(reply, Ok(String::from("0.123€, precio medio")));
    assert_eq!(cache.get(), Some(&fetched));

    assert_eq!(
        answer_price(&cache, at(14, 8)),
        Ok(Answer::Reply(String::from("0.123€, precio medio")))
    );
}

#[test]
fn price_is_kept_before_the_end_of_its_window() {
    let record = now_record(123, "08-09");
    let cache = price_cache_with(record.clone());
    for hour in 0..9 {
        assert_eq!(
            answer_price(&cache, at(14, hour)),
            Ok(Answer::Reply(String::from("0.123€, precio medio"))),
            "at hour {hour}"
        );
        assert_eq!(cache.get(), Some(&record));
    }
}

#[test]
fn price_is_fetched_from_the_end_of_its_window() {
    let cache = price_cache_with(now_record(123, "08-09"));
    for hour in 9..24 {
        assert_eq!(answer_price(&cache, at(14, hour)), Ok(Answer::Refresh), "at hour {hour}");
    }
    assert_eq!(answer_price(&cache, at(14, u32::MAX)), Ok(Answer::Refresh));
}

#[test]
fn stale_price_makes_way_for_the_fetched_one() {
    let mut cache = price_cache_with(now_record(123, "08-09"));
    assert_eq!(answer_price(&cache, at(14, 9)), Ok(Answer::Refresh));

    let newer = now_record(98, "09-10");
    assert_eq!(
        update_price_cache(&mut cache, Ok(newer.clone())),
        Ok(String::from("0.098€, precio medio"))
    );
    assert_eq!(cache.get(), Some(&newer));
    assert_eq!(
        answer_price(&cache, at(14, 9)),
        Ok(Answer::Reply(String::from("0.098€, precio medio")))
    );
    assert_eq!(answer_price(&cache, at(14, 10)), Ok(Answer::Refresh));
}

#[test]
fn min_record_with_window_two_to_five_is_stale_at_six() {
    let cache = price_cache_with(min_record("2-5"));
    assert_eq!(cache.get().and_then(|record| record.hour()), Some((2, 5)));
    assert_eq!(answer_price(&cache, at(14, 6)), Ok(Answer::Refresh));
    assert_eq!(answer_price(&cache, at(14, 5)), Ok(Answer::Refresh));
}

#[test]
fn only_the_hour_counts_for_the_price() {
    let cache = price_cache_with(now_record(123, "08-09"));
    for day in [1, 13, 14, 15, 31] {
        assert_eq!(
            answer_price(&cache, at(day, 8)),
            Ok(Answer::Reply(String::from("0.123€, precio medio")))
        );
        assert_eq!(answer_price(&cache, at(day, 9)), Ok(Answer::Refresh));
    }
}

#[test]
fn failed_price_fetch_leaves_the_cache_as_it_was() {
    let mut empty: Cache<PriceQuery> = Cache::new();
    assert_eq!(
        update_price_cache(&mut empty, Err(failure("no network"))),
        Err(QueryError::Fetch(failure("no network")))
    );
    assert_eq!(empty.get(), None);
    assert_eq!(answer_price(&empty, at(14, 8)), Ok(Answer::Refresh));

    let record = now_record(123, "08-09");
    let mut cache = price_cache_with(record.clone());
    assert_eq!(
        update_price_cache(&mut cache, Err(failure("status 503"))),
        Err(QueryError::Fetch(failure("status 503")))
    );
    assert_eq!(cache.get(), Some(&record));
    assert_eq!(answer_price(&cache, at(14, 9)), Ok(Answer::Refresh));
}

#[test]
fn cached_price_without_a_window_is_an_error() {
    let record = PriceQuery::new(String::from("14-03-2024"), 123, Some(true), Some(true), None);
    let mut cache = Cache::new();
    assert_eq!(update_price_cache(&mut cache, Ok(record.clone())), Ok(String::from("0.123€, barata")));
    assert_eq!(cache.get(), Some(&record));
    assert_eq!(answer_price(&cache, at(14, 0)), Err(FormatError::NoHourRange));
    assert_eq!(answer_price(&cache, at(14, 23)), Err(FormatError::NoHourRange));
}

#[test]
fn cached_price_without_flags_is_an_error_only_as_a_reply() {
    let record = min_record("2-5");
    let mut cache = Cache::new();
    assert_eq!(
        update_price_cache(&mut cache, Ok(record.clone())),
        Err(QueryError::Format(FormatError::NoClassification))
    );
    assert_eq!(cache.get(), Some(&record));
    assert_eq!(answer_price(&cache, at(14, 4)), Err(FormatError::NoClassification));
    assert_eq!(answer_price(&cache, at(14, 5)), Ok(Answer::Refresh));
}

#[test]
fn price_answer_goes_by_the_record_alone() {
    let record = now_record(123, "08-09");
    assert_eq!(
        answer_with_price(&record, at(1, 8)),
        Ok(Answer::Reply(String::from("0.123€, precio medio")))
    );
    assert_eq!(answer_with_price(&record, at(1, 9)), Ok(Answer::Refresh));
}

#[test]
fn empty_day_cache_is_filled_by_one_fetch() {
    let mut cache: Cache<DayQuery> = Cache::new();
    assert_eq!(answer_day(&cache, at(14, 8)), Ok(Answer::Refresh));

    let fetched = day_record("14-03-2024");
    assert_eq!(update_day_cache(&mut cache, Ok(fetched.clone())), Ok(day_text("14-03-2024")));
    assert_eq!(cache.get(), Some(&fetched));
    assert_eq!(answer_day(&cache, at(14, 8)), Ok(Answer::Reply(day_text("14-03-2024"))));
}

#[test]
fn day_is_kept_up_to_its_day_of_the_month() {
    let record = day_record("14-03-2024");
    let cache = day_cache_with(record.clone());
    for day in 1..=14 {
        assert_eq!(
            answer_day(&cache, at(day, 12)),
            Ok(Answer::Reply(day_text("14-03-2024"))),
            "on day {day}"
        );
        assert_eq!(cache.get(), Some(&record));
    }
    assert_eq!(answer_day(&cache, at(0, 12)), Ok(Answer::Reply(day_text("14-03-2024"))));
}

#[test]
fn day_is_fetched_on_a_later_day_of_the_month() {
    let cache = day_cache_with(day_record("14-03-2024"));
    for day in 15..=31 {
        assert_eq!(answer_day(&cache, at(day, 0)), Ok(Answer::Refresh), "on day {day}");
    }
}

#[test]
fn day_of_the_fourteenth_is_stale_on_the_fifteenth() {
    let mut cache = day_cache_with(day_record("14-03-2024"));
    assert_eq!(answer_day(&cache, at(15, 7)), Ok(Answer::Refresh));

    let newer = day_record("15-03-2024");
    assert_eq!(update_day_cache(&mut cache, Ok(newer.clone())), Ok(day_text("15-03-2024")));
    assert_eq!(cache.get(), Some(&newer));
    assert_eq!(answer_day(&cache, at(15, 7)), Ok(Answer::Reply(day_text("15-03-2024"))));
}

#[test]
fn day_of_the_thirty_first_is_kept_on_the_first_of_the_next_month() {
    let record = day_record("31-03-2024");
    let cache = day_cache_with(record.clone());
    assert_eq!(answer_day(&cache, at(1, 0)), Ok(Answer::Reply(day_text("31-03-2024"))));
    assert_eq!(cache.get(), Some(&record));
}

#[test]
fn only_the_day_counts_for_the_day_record() {
    let cache = day_cache_with(day_record("14-03-2024"));
    for hour in [0, 8, 23] {
        assert_eq!(answer_day(&cache, at(14, hour)), Ok(Answer::Reply(day_text("14-03-2024"))));
        assert_eq!(answer_day(&cache, at(15, hour)), Ok(Answer::Refresh));
    }
}

#[test]
fn day_of_the_month_is_read_from_the_front_of_the_date() {
    let cache = day_cache_with(day_record("05-12-2023"));
    assert_eq!(answer_day(&cache, at(5, 0)), Ok(Answer::Reply(day_text("05-12-2023"))));
    assert_eq!(answer_day(&cache, at(6, 0)), Ok(Answer::Refresh));
    assert_eq!(answer_day(&cache, at(12, 0)), Ok(Answer::Refresh));
}

#[test]
fn day_record_without_a_date_is_an_error() {
    for date in ["", "hoy", "2024-03-14", "31-02-2024", "14/03/2024", "00-03-2024"] {
        let cache = day_cache_with(day_record(date));
        assert_eq!(answer_day(&cache, at(1, 0)), Err(FormatError::NoDate), "with {date:?}");
        assert_eq!(answer_day(&cache, at(31, 0)), Err(FormatError::NoDate), "with {date:?}");
    }
}

#[test]
fn failed_day_fetch_leaves_the_cache_as_it_was() {
    let mut empty: Cache<DayQuery> = Cache::new();
    assert_eq!(
        update_day_cache(&mut empty, Err(failure("no network"))),
        Err(QueryError::Fetch(failure("no network")))
    );
    assert_eq!(empty.get(), None);

    let record = day_record("14-03-2024");
    let mut cache = day_cache_with(record.clone());
    assert_eq!(
        update_day_cache(&mut cache, Err(failure("status 503"))),
        Err(QueryError::Fetch(failure("status 503")))
    );
    assert_eq!(cache.get(), Some(&record));
    assert_eq!(answer_day(&cache, at(15, 0)), Ok(Answer::Refresh));
}

#[test]
fn cached_day_without_windows_is_an_error_only_as_a_reply() {
    let record = DayQuery::new(
        PriceQuery::new(String::from("14-03-2024"), 52, None, None, None),
        PriceQuery::new(String::from("14-03-2024"), 187, None, None, None),
        PriceQuery::new(String::from("14-03-2024"), 101, None, None, None),
    );
    let mut cache = Cache::new();
    assert_eq!(
        update_day_cache(&mut cache, Ok(record.clone())),
        Err(QueryError::Format(FormatError::NoHourRange))
    );
    assert_eq!(cache.get(), Some(&record));
    assert_eq!(answer_day(&cache, at(14, 0)), Err(FormatError::NoHourRange));
    assert_eq!(answer_day(&cache, at(15, 0)), Ok(Answer::Refresh));
}

#[test]
fn day_answer_goes_by_the_day_it_is_given() {
    let record = day_record("14-03-2024");
    assert_eq!(answer_with_day(&record, Some(20), at(20, 0)), Ok(Answer::Reply(day_text("14-03-2024"))));
    assert_eq!(answer_with_day(&record, Some(20), at(21, 0)), Ok(Answer::Refresh));
    assert_eq!(answer_with_day(&record, Some(0), at(0, 0)), Ok(Answer::Reply(day_text("14-03-2024"))));
    assert_eq!(answer_with_day(&record, Some(u32::MAX), at(u32::MAX, 0)), Ok(Answer::Reply(day_text("14-03-2024"))));
    assert_eq!(answer_with_day(&record, None, at(1, 0)), Err(FormatError::NoDate));
}

/// A request for the price of the hour from its first step to its end, as a
/// caller that holds the cache runs it. `fetch` stands for the remote service.
fn price_request(
    cache: &mut Cache<PriceQuery>,
    now: Timestamp,
    fetch: &mut dyn FnMut() -> Result<PriceQuery, FetchError>,
) -> Result<String, QueryError> {
    match answer_price(cache, now) {
        Ok(Answer::Reply(text)) => Ok(text),
        Ok(Answer::Refresh) => update_price_cache(cache, fetch()),
        Err(error) => Err(QueryError::Format(error)),
    }
}

#[test]
fn two_stale_requests_in_a_row_make_one_fetch() {
    let mut cache = price_cache_with(now_record(123, "08-09"));
    let mut fetches = 0;
    let mut fetch = || {
        fetches += 1;
        Ok(now_record(98, "09-10"))
    };
    let first = price_request(&mut cache, at(14, 9), &mut fetch);
    let second = price_request(&mut cache, at(14, 9), &mut fetch);
    assert_eq!(first, Ok(String::from("0.098€, precio medio")));
    assert_eq!(second, Ok(String::from("0.098€, precio medio")));
    assert_eq!(fetches, 1);
    assert_eq!(cache.get(), Some(&now_record(98, "09-10")));
}

#[test]
fn fetched_price_that_is_stale_already_is_fetched_again() {
    let mut cache = price_cache_with(now_record(123, "07-08"));
    let mut fetches = 0;
    let mut fetch = || {
        fetches += 1;
        Ok(now_record(98, "08-09"))
    };
    let first = price_request(&mut cache, at(14, 9), &mut fetch);
    let second = price_request(&mut cache, at(14, 9), &mut fetch);
    assert_eq!(first, Ok(String::from("0.098€, precio medio")));
    assert_eq!(second, Ok(String::from("0.098€, precio medio")));
    assert_eq!(fetches, 2);
}

#[test]
fn failed_fetch_is_tried_again_by_the_next_request() {
    let mut cache = price_cache_with(now_record(123, "08-09"));
    let mut fetches = 0;
    let mut fetch = || {
        fetches += 1;
        if fetches == 1 {
            Err(failure("timed out"))
        } else {
            Ok(now_record(98, "09-10"))
        }
    };
    let first = price_request(&mut cache, at(14, 9), &mut fetch);
    assert_eq!(first, Err(QueryError::Fetch(failure("timed out"))));
    let second = price_request(&mut cache, at(14, 9), &mut fetch);
    assert_eq!(second, Ok(String::from("0.098€, precio medio")));
    assert_eq!(fetches, 2);
}

#[test]
fn cache_is_never_emptied() {
    let mut prices = price_cache_with(now_record(123, "08-09"));
    let _ = update_price_cache(&mut prices, Err(failure("no network")));
    assert!(prices.get().is_some());
    let _ = update_price_cache(&mut prices, Ok(min_record("nada")));
    assert!(prices.get().is_some());

    let mut days = day_cache_with(day_record("14-03-2024"));
    let _ = update_day_cache(&mut days, Err(failure("no network")));
    assert!(days.get().is_some());
    let _ = update_day_cache(&mut days, Ok(day_record("nunca")));
    assert!(days.get().is_some());
}
