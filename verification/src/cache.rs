//! The cache between the chat commands and the remote service. It holds at
//! most one price of the hour and one day record, and decides for each request
//! whether what it holds still answers it.
//!
//! Fetching is not done here. A request is answered in two steps: `answer_price`
//! or `answer_day` says whether the cache can reply or a fetch is due, and
//! `update_price_cache` or `update_day_cache` takes the outcome of that fetch.
//! The caller keeps others away from the cache between the two steps.

use crate::calendar::{day_of_month, read_day_of_month};
use crate::day_query::{DayModel, DayQuery};
use crate::error::{shown, FetchError, FormatError, QueryError};
use crate::price_query::{PriceModel, PriceQuery};
use vstd::prelude::*;

verus! {

/// The moment at which a request was sent, in local time, as far as the cache
/// looks at it.
#[derive(Clone, Copy, Debug, PartialEq, Eq, Structural)]
pub struct Timestamp {
    /// The day of the month, from 1.
    pub day: u32,
    /// The hour of the day, from 0 to 23.
    pub hour: u32,
}

/// A holder of at most one record. It starts empty, and a record in it only
/// ever makes way for a newer one.
#[derive(Debug)]
pub struct Cache<T> {
    slot: Option<T>,
}

impl<T> View for Cache<T> {
    type V = Option<T>;

    closed spec fn view(&self) -> Option<T> {
        self.slot
    }
}

impl<T> Cache<T> {
    /// An empty cache.
    pub fn new() -> (cache: Cache<T>)
        ensures
            cache@ is None,
    {
        Cache { slot: None }
    }

    /// The record that the cache holds.
    pub fn get(&self) -> (held: Option<&T>)
        ensures
            held == match self@ {
                Some(record) => Some(&record),
                None => None,
            },
    {
        self.slot.as_ref()
    }

    /// Puts `record` in the place of what the cache held.
    fn replace(&mut self, record: T)
        ensures
            final(self)@ == Some(record),
    {
        self.slot = Some(record);
    }
}

/// What is to be done for a request.
#[derive(Clone, Debug, PartialEq, Eq)]
pub enum Answer {
    /// The cache answers: this is the reply.
    Reply(String),
    /// What the cache holds does not answer: fetch, and hand the outcome to the update.
    Refresh,
}

/// An answer, with the reply as the characters it holds.
pub enum AnswerModel {
    /// The cache answers with this reply.
    Reply(Seq<char>),
    /// A fetch is due.
    Refresh,
}

impl View for Answer {
    type V = AnswerModel;

    open spec fn view(&self) -> AnswerModel {
        match self {
            Answer::Reply(text) => AnswerModel::Reply(text@),
            Answer::Refresh => AnswerModel::Refresh,
        }
    }
}

/// An answer or an error, with the answer as its model.
pub open spec fn decided(answer: Result<Answer, FormatError>) -> Result<AnswerModel, FormatError> {
    match answer {
        Ok(answer) => Ok(answer@),
        Err(error) => Err(error),
    }
}

/// The reply that the cache gives with the text of the record it holds.
pub open spec fn reply_with(text: Result<Seq<char>, FormatError>) -> Result<
    AnswerModel,
    FormatError,
> {
    match text {
        Ok(text) => Ok(AnswerModel::Reply(text)),
        Err(error) => Err(error),
    }
}

/// The answer to a request for the price of the hour, with `record` in the
/// cache. The record is good until the last hour of its window: from that hour
/// on a fetch is due, before it the record is the reply.
pub open spec fn cached_price_answer(record: PriceModel, now: Timestamp) -> Result<
    AnswerModel,
    FormatError,
> {
    match record.hour() {
        None => Err(FormatError::NoHourRange),
        Some((_, end)) => if now.hour >= end {
            Ok(AnswerModel::Refresh)
        } else {
            reply_with(record.text())
        },
    }
}

/// The answer to a request for the prices of the day, with `day` in the cache,
/// where `stored` is the day of the month that the date of the record names.
/// Only days of the month are compared, not months or years: a fetch is due on
/// a later day of the month, and up to that day the record is the reply.
pub open spec fn cached_day_answer(day: DayModel, stored: Option<u32>, now: Timestamp) -> Result<
    AnswerModel,
    FormatError,
> {
    match stored {
        None => Err(FormatError::NoDate),
        Some(stored) => if now.day > stored {
            Ok(AnswerModel::Refresh)
        } else {
            reply_with(day.text())
        },
    }
}

/// The first step of a request for the price of the hour: an empty cache asks
/// for a fetch, and a record answers as `cached_price_answer` says.
pub open spec fn first_price_step(held: Option<PriceQuery>, now: Timestamp) -> Result<
    AnswerModel,
    FormatError,
> {
    match held {
        None => Ok(AnswerModel::Refresh),
        Some(record) => cached_price_answer(record@, now),
    }
}

/// The first step of a request for the prices of the day: an empty cache asks
/// for a fetch, and a record answers as `cached_day_answer` says, by the day
/// of the month that `chrono` reads out of its date.
pub open spec fn first_day_step(held: Option<DayQuery>, now: Timestamp) -> Result<
    AnswerModel,
    FormatError,
> {
    match held {
        None => Ok(AnswerModel::Refresh),
        Some(day) => cached_day_answer(day@, day_of_month(day@.date()), now),
    }
}

/// What a requester gets from a record with this text.
pub open spec fn outcome_of(text: Result<Seq<char>, FormatError>) -> Result<
    Seq<char>,
    QueryError,
> {
    match text {
        Ok(text) => Ok(text),
        Err(error) => Err(QueryError::Format(error)),
    }
}

/// The answer that the cache gives with a record of this text.
fn reply(text: Result<String, FormatError>) -> (answer: Result<Answer, FormatError>)
    ensures
        decided(answer) == reply_with(shown(text)),
{
    match text {
        Ok(text) => Ok(Answer::Reply(text)),
        Err(error) => Err(error),
    }
}

/// Answers a request for the price of the hour with `record` in the cache.
pub fn answer_with_price(record: &PriceQuery, now: Timestamp) -> (answer: Result<Answer, FormatError>)
    ensures
        decided(answer) == cached_price_answer(record@, now),
{
    match record.hour() {
        None => Err(FormatError::NoHourRange),
        Some((_, end)) => {
            let end: u32 = end as u32;
            if now.hour >= end {
                Ok(Answer::Refresh)
            } else {
                reply(record.display())
            }
        },
    }
}

/// Answers a request for the prices of the day with `day` in the cache, where
/// `stored` is the day of the month that its date names.
pub fn answer_with_day(day: &DayQuery, stored: Option<u32>, now: Timestamp) -> (answer: Result<
    Answer,
    FormatError,
>)
    ensures
        decided(answer) == cached_day_answer(day@, stored, now),
{
    match stored {
        None => Err(FormatError::NoDate),
        Some(stored) => {
            if now.day > stored {
                Ok(Answer::Refresh)
            } else {
                reply(day.display())
            }
        },
    }
}

/// The first step of a request for the price of the hour. An empty cache asks
/// for a fetch. A record whose window ends after the hour of `now` is the
/// reply, and the cache stays as it is. A record whose window has ended asks
/// for a fetch. A record without a window that can be read, or one that is
/// due as the reply and cannot be displayed, is an error.
pub fn answer_price(cache: &Cache<PriceQuery>, now: Timestamp) -> (answer: Result<
    Answer,
    FormatError,
>)
    ensures
        decided(answer) == first_price_step(cache@, now),
{
    match cache.get() {
        None => Ok(Answer::Refresh),
        Some(record) => answer_with_price(record, now),
    }
}

/// The first step of a request for the prices of the day. An empty cache asks
/// for a fetch. A record is the reply up to the day of the month that its date
/// names, and asks for a fetch on a later day of the month. A record whose
/// date cannot be read, or one that is due as the reply and cannot be
/// displayed, is an error.
pub fn answer_day(cache: &Cache<DayQuery>, now: Timestamp) -> (answer: Result<Answer, FormatError>)
    ensures
        decided(answer) == first_day_step(cache@, now),
{
    match cache.get() {
        None => Ok(Answer::Refresh),
        Some(day) => {
            let stored: Option<u32> = read_day_of_month(day.date());
            answer_with_day(day, stored, now)
        },
    }
}

/// The second step of a request for the price of the hour: takes the outcome
/// of the fetch. A record goes into the cache in the place of what was there,
/// and its text is the reply. After a failed fetch the cache is as it was, and
/// the failure is handed on as it came.
pub fn update_price_cache(
    cache: &mut Cache<PriceQuery>,
    fetched: Result<PriceQuery, FetchError>,
) -> (reply: Result<String, QueryError>)
    ensures
        match fetched {
            Ok(record) => final(cache)@ == Some(record) && shown(reply) == outcome_of(
                record@.text(),
            ),
            Err(error) => final(cache)@ == old(cache)@ && reply == Err::<String, QueryError>(
                QueryError::Fetch(error),
            ),
        },
        old(cache)@ is Some ==> final(cache)@ is Some,
{
    match fetched {
        Ok(record) => {
            let text = record.display();
            cache.replace(record);
            match text {
                Ok(text) => Ok(text),
                Err(error) => Err(QueryError::Format(error)),
            }
        },
        Err(error) => Err(QueryError::Fetch(error)),
    }
}

/// The second step of a request for the prices of the day: takes the outcome
/// of the three fetches. A day record goes into the cache in the place of what
/// was there, and its text is the reply. After a failed fetch the cache is as
/// it was, and the failure is handed on as it came.
pub fn update_day_cache(cache: &mut Cache<DayQuery>, fetched: Result<DayQuery, FetchError>) -> (reply:
    Result<String, QueryError>)
    ensures
        match fetched {
            Ok(day) => final(cache)@ == Some(day) && shown(reply) == outcome_of(day@.text()),
            Err(error) => final(cache)@ == old(cache)@ && reply == Err::<String, QueryError>(
                QueryError::Fetch(error),
            ),
        },
        old(cache)@ is Some ==> final(cache)@ is Some,
{
    match fetched {
        Ok(day) => {
            let text = day.display();
            cache.replace(day);
            match text {
                Ok(text) => Ok(text),
                Err(error) => Err(QueryError::Format(error)),
            }
        },
        Err(error) => Err(QueryError::Fetch(error)),
    }
}

/// A request from its first step to its end.
pub struct Served<T> {
    /// What the cache holds when the request ends.
    pub held: Option<T>,
    /// What the requester gets.
    pub outcome: Result<Seq<char>, QueryError>,
    /// How many fetches were made.
    pub fetches: nat,
}

/// A request for the price of the hour, made at `now` on a cache that holds
/// `held`, where a fetch, if one is made, brings `fetched`: the first step, and
/// the update where the first step asks for a fetch.
pub open spec fn price_request(
    held: Option<PriceQuery>,
    now: Timestamp,
    fetched: Result<PriceQuery, FetchError>,
) -> Served<PriceQuery> {
    match first_price_step(held, now) {
        Ok(AnswerModel::Reply(text)) => Served { held, outcome: Ok(text), fetches: 0 },
        Err(error) => Served { held, outcome: Err(QueryError::Format(error)), fetches: 0 },
        Ok(AnswerModel::Refresh) => match fetched {
            Ok(record) => Served {
                held: Some(record),
                outcome: outcome_of(record@.text()),
                fetches: 1,
            },
            Err(error) => Served { held, outcome: Err(QueryError::Fetch(error)), fetches: 1 },
        },
    }
}

/// A request for the prices of the day, made at `now` on a cache that holds
/// `held`, where the fetches, if they are made, bring `fetched`: the first
/// step, and the update where the first step asks for a fetch.
pub open spec fn day_request(
    held: Option<DayQuery>,
    now: Timestamp,
    fetched: Result<DayQuery, FetchError>,
) -> Served<DayQuery> {
    match first_day_step(held, now) {
        Ok(AnswerModel::Reply(text)) => Served { held, outcome: Ok(text), fetches: 0 },
        Err(error) => Served { held, outcome: Err(QueryError::Format(error)), fetches: 0 },
        Ok(AnswerModel::Refresh) => match fetched {
            Ok(day) => Served { held: Some(day), outcome: outcome_of(day@.text()), fetches: 1 },
            Err(error) => Served { held, outcome: Err(QueryError::Fetch(error)), fetches: 1 },
        },
    }
}

/// At every hour before the last hour of the window of the record in the
/// cache, a request for the price of the hour gets the text of that record,
/// makes no fetch, and leaves the cache as it was.
pub proof fn lemma_price_kept_before_end(
    record: PriceQuery,
    now: Timestamp,
    fetched: Result<PriceQuery, FetchError>,
)
    requires
        record@.hour() matches Some((_, end)) && now.hour < end,
    ensures
        price_request(Some(record), now, fetched) == (Served {
            held: Some(record),
            outcome: outcome_of(record@.text()),
            fetches: 0,
        }),
{
}

/// From the last hour of the window of the record in the cache on, a request
/// for the price of the hour makes one fetch. The record that the fetch brings
/// takes the place of the old one and answers the request; after a failed
/// fetch the old record stays and the requester gets the failure.
pub proof fn lemma_price_fetched_from_end(
    record: PriceQuery,
    now: Timestamp,
    fetched: Result<PriceQuery, FetchError>,
)
    requires
        record@.hour() matches Some((_, end)) && now.hour >= end,
    ensures
        price_request(Some(record), now, fetched).fetches == 1,
        fetched matches Ok(newer) ==> price_request(Some(record), now, fetched) == (Served {
            held: Some(newer),
            outcome: outcome_of(newer@.text()),
            fetches: 1,
        }),
        fetched matches Err(error) ==> price_request(Some(record), now, fetched) == (Served {
            held: Some(record),
            outcome: Err(QueryError::Fetch(error)),
            fetches: 1,
        }),
{
}

/// Up to the day of the month that the date of the day record in the cache
/// names, that day included, a request for the prices of the day gets the
/// text of that record, makes no fetch, and leaves the cache as it was. The
/// month and the year of the record play no part.
pub proof fn lemma_day_kept_up_to_its_day(
    day: DayQuery,
    now: Timestamp,
    fetched: Result<DayQuery, FetchError>,
)
    requires
        day_of_month(day@.date()) matches Some(stored) && now.day <= stored,
    ensures
        day_request(Some(day), now, fetched) == (Served {
            held: Some(day),
            outcome: outcome_of(day@.text()),
            fetches: 0,
        }),
{
}

/// On a day of the month after the one that the date of the day record in the
/// cache names, a request for the prices of the day makes the fetch. The
/// record that it brings takes the place of the old one and answers the
/// request; after a failed fetch the old record stays and the requester gets
/// the failure.
pub proof fn lemma_day_fetched_on_later_day(
    day: DayQuery,
    now: Timestamp,
    fetched: Result<DayQuery, FetchError>,
)
    requires
        day_of_month(day@.date()) matches Some(stored) && now.day > stored,
    ensures
        day_request(Some(day), now, fetched).fetches == 1,
        fetched matches Ok(newer) ==> day_request(Some(day), now, fetched) == (Served {
            held: Some(newer),
            outcome: outcome_of(newer@.text()),
            fetches: 1,
        }),
        fetched matches Err(error) ==> day_request(Some(day), now, fetched) == (Served {
            held: Some(day),
            outcome: Err(QueryError::Fetch(error)),
            fetches: 1,
        }),
{
}

/// A request on an empty cache makes one fetch, whatever the moment, and the
/// cache holds what the fetch brought, or stays empty where the fetch failed.
pub proof fn lemma_empty_cache_fetches(
    now: Timestamp,
    price: Result<PriceQuery, FetchError>,
    day: Result<DayQuery, FetchError>,
)
    ensures
        price_request(None, now, price).fetches == 1,
        price_request(None, now, price).held == match price {
            Ok(record) => Some(record),
            Err(_) => None,
        },
        day_request(None, now, day).fetches == 1,
        day_request(None, now, day).held == match day {
            Ok(record) => Some(record),
            Err(_) => None,
        },
{
}

/// No request empties a cache that holds a record.
pub proof fn lemma_never_emptied(
    price_held: PriceQuery,
    day_held: DayQuery,
    now: Timestamp,
    price: Result<PriceQuery, FetchError>,
    day: Result<DayQuery, FetchError>,
)
    ensures
        price_request(Some(price_held), now, price).held is Some,
        day_request(Some(day_held), now, day).held is Some,
{
}

/// Two requests for the price of the hour, made one after the other at the
/// same moment on a cache that does not answer: where the fetch of the first
/// brings a record whose window ends later, the second finds that record in
/// the cache. One fetch is made in all, and both requesters get the text of
/// the fetched record.
pub proof fn lemma_second_request_finds_fetched_price(
    held: Option<PriceQuery>,
    now: Timestamp,
    newer: PriceQuery,
    again: Result<PriceQuery, FetchError>,
)
    requires
        first_price_step(held, now) == Ok::<AnswerModel, FormatError>(AnswerModel::Refresh),
        newer@.hour() matches Some((_, end)) && now.hour < end,
    ensures
        ({
            let first = price_request(held, now, Ok(newer));
            let second = price_request(first.held, now, again);
            &&& first.fetches + second.fetches == 1
            &&& first.held == Some(newer)
            &&& second.held == Some(newer)
            &&& first.outcome == outcome_of(newer@.text())
            &&& second.outcome == outcome_of(newer@.text())
        }),
{
}

} // verus!
