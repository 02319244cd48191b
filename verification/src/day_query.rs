//! The lowest, the average and the highest price of one day, and the three
//! fetches that bring them.

use crate::decimal::{padded, push_padded};
use crate::endpoint::Endpoint;
use crate::error::{shown, FetchError, FormatError};
use crate::price_query::{Price, PriceModel, PriceQuery};
use vstd::prelude::*;

verus! {

/// What a day record holds.
pub struct DayModel {
    /// The lowest price of the day.
    pub min: PriceModel,
    /// The average price of the day.
    pub avg: PriceModel,
    /// The highest price of the day.
    pub max: PriceModel,
}

impl DayModel {
    /// The day of the record, which is that of its average price.
    pub open spec fn date(self) -> Seq<char> {
        self.avg.date
    }

    /// One line of the reply: a price per kWh and the hours at which it applies.
    pub open spec fn bounded(price: i64, window: (u8, u8)) -> Seq<char> {
        Price::of(price).text() + "€, de "@ + padded(window.0 as nat, 2) + " a "@ + padded(
            window.1 as nat,
            2,
        )
    }

    /// The reply for the day: its date, the lowest and the highest price with
    /// their hours, and the average price. Fails where the lowest or the
    /// highest price has no hour window that can be read.
    pub open spec fn text(self) -> Result<Seq<char>, FormatError> {
        match (self.min.hour(), self.max.hour()) {
            (Some(low), Some(high)) => Ok(
                "Precio de la luz a "@ + self.date() + "\nMínimo: "@ + Self::bounded(
                    self.min.price,
                    low,
                ) + "\nMáximo: "@ + Self::bounded(self.max.price, high) + "\nMedia: "@ + Price::of(
                    self.avg.price,
                ).text() + "€"@,
            ),
            _ => Err(FormatError::NoHourRange),
        }
    }
}

/// The three prices of one day. Nothing checks that the three records name the
/// same day: the date shown is that of the average.
#[derive(Clone, Debug, PartialEq, Eq)]
pub struct DayQuery {
    min: PriceQuery,
    avg: PriceQuery,
    max: PriceQuery,
}

impl View for DayQuery {
    type V = DayModel;

    closed spec fn view(&self) -> DayModel {
        DayModel { min: self.min@, avg: self.avg@, max: self.max@ }
    }
}

impl DayQuery {
    /// The record of a day from its three prices, named in the order in which
    /// they are fetched.
    pub fn new(min: PriceQuery, max: PriceQuery, avg: PriceQuery) -> (day: DayQuery)
        ensures
            day@ == (DayModel { min: min@, avg: avg@, max: max@ }),
    {
        DayQuery { min, avg, max }
    }

    /// The day of the record, which is that of its average price.
    pub fn date(&self) -> (date: &str)
        ensures
            date@ == self@.date(),
    {
        self.avg.date()
    }

    /// The reply for the day, on four lines: its date, the lowest and the
    /// highest price with their hours in two digits, and the average price.
    /// Fails where the lowest or the highest price has no hour window that can
    /// be read.
    pub fn display(&self) -> (text: Result<String, FormatError>)
        ensures
            shown(text) == self@.text(),
    {
        let low = match self.min.hour() {
            Some(window) => window,
            None => {
                return Err(FormatError::NoHourRange);
            },
        };
        let high = match self.max.hour() {
            Some(window) => window,
            None => {
                return Err(FormatError::NoHourRange);
            },
        };
        let mut text = String::new();
        text.append("Precio de la luz a ");
        text.append(self.date());
        text.append("\nMínimo: ");
        write_bounded(&mut text, &self.min, low);
        text.append("\nMáximo: ");
        write_bounded(&mut text, &self.max, high);
        text.append("\nMedia: ");
        self.avg.price().write(&mut text);
        text.append("€");
        assert(Ok::<Seq<char>, FormatError>(text@) =~= self@.text());
        Ok(text)
    }
}

/// Appends a price per kWh and the hours at which it applies.
fn write_bounded(out: &mut String, record: &PriceQuery, window: (u8, u8))
    ensures
        final(out)@ == old(out)@ + DayModel::bounded(record@.price, window),
{
    record.price().write(out);
    out.append("€, de ");
    push_padded(out, window.0 as u64, 2);
    out.append(" a ");
    push_padded(out, window.1 as u64, 2);
    assert(out@ =~= old(out)@ + DayModel::bounded(record@.price, window));
}

/// How far the fetches for a day record have come. The prices are asked for
/// one after the other: the lowest, then the highest, then the average.
#[derive(Clone, Debug, PartialEq, Eq)]
pub enum DayFetch {
    /// Nothing has been fetched.
    Start,
    /// The lowest price is here.
    HasMin(PriceQuery),
    /// The lowest and the highest price are here.
    HasMinMax(PriceQuery, PriceQuery),
}

/// What follows the outcome of one fetch for a day record.
#[derive(Clone, Debug, PartialEq, Eq)]
pub enum DayProgress {
    /// Another price is to be fetched.
    Next(DayFetch),
    /// The three prices are here.
    Done(DayQuery),
    /// A fetch failed. What came before it is dropped, and nothing more is fetched.
    Failed(FetchError),
}

impl DayFetch {
    /// The kind of price to fetch next.
    pub open spec fn spec_wanted(self) -> Endpoint {
        match self {
            DayFetch::Start => Endpoint::Min,
            DayFetch::HasMin(_) => Endpoint::Max,
            DayFetch::HasMinMax(_, _) => Endpoint::Avg,
        }
    }

    /// The state before the first fetch.
    pub fn start() -> (state: DayFetch)
        ensures
            state == DayFetch::Start,
    {
        DayFetch::Start
    }

    /// The kind of price to fetch next: the lowest, then the highest, then the average.
    pub fn wanted(&self) -> (kind: Endpoint)
        ensures
            kind == self.spec_wanted(),
    {
        match self {
            DayFetch::Start => Endpoint::Min,
            DayFetch::HasMin(_) => Endpoint::Max,
            DayFetch::HasMinMax(_, _) => Endpoint::Avg,
        }
    }

    /// Takes the outcome of the fetch that `wanted` asked for. A failure ends
    /// the work with that error. A record is kept; the third one completes the day.
    pub fn accept(self, fetched: Result<PriceQuery, FetchError>) -> (progress: DayProgress)
        ensures
            match (self, fetched) {
                (_, Err(error)) => progress == DayProgress::Failed(error),
                (DayFetch::Start, Ok(min)) => progress == DayProgress::Next(DayFetch::HasMin(min)),
                (DayFetch::HasMin(min), Ok(max)) => progress == DayProgress::Next(
                    DayFetch::HasMinMax(min, max),
                ),
                (DayFetch::HasMinMax(min, max), Ok(avg)) => progress matches DayProgress::Done(day)
                    && day@ == (DayModel { min: min@, avg: avg@, max: max@ }),
            },
    {
        match fetched {
            Err(error) => DayProgress::Failed(error),
            Ok(record) => match self {
                DayFetch::Start => DayProgress::Next(DayFetch::HasMin(record)),
                DayFetch::HasMin(min) => DayProgress::Next(DayFetch::HasMinMax(min, record)),
                DayFetch::HasMinMax(min, max) => DayProgress::Done(DayQuery::new(min, max, record)),
            },
        }
    }
}

} // verus!
