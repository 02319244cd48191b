//! One price of the remote service, and how it is shown.

use crate::decimal::{decimal, padded, push_decimal, push_padded};
use crate::error::{shown, FormatError};
use crate::hours::{hour_range, parse_hour_range};
use vstd::prelude::*;

verus! {

/// How a price stands against the other prices of its day.
#[derive(Clone, Copy, Debug, PartialEq, Eq, Structural)]
pub enum Label {
    /// Among the cheap hours of the day.
    Cheap,
    /// Not cheap, but under the average of the day.
    Average,
    /// Neither.
    Expensive,
}

impl Label {
    /// The word for this label in replies.
    pub open spec fn text(self) -> Seq<char> {
        match self {
            Label::Cheap => "barata"@,
            Label::Average => "precio medio"@,
            Label::Expensive => "cara"@,
        }
    }

    /// The label that the two flags of a record stand for: cheap wins, then
    /// under the average, and what is neither is expensive.
    pub open spec fn of(is_cheap: bool, is_under_avg: bool) -> Label {
        if is_cheap {
            Label::Cheap
        } else if is_under_avg {
            Label::Average
        } else {
            Label::Expensive
        }
    }

    /// The word for this label in replies.
    pub fn as_str(&self) -> (word: &'static str)
        ensures
            word@ == self.text(),
    {
        match self {
            Label::Cheap => "barata",
            Label::Average => "precio medio",
            Label::Expensive => "cara",
        }
    }
}

/// An amount of euros per kWh, exact to a thousandth of a euro.
#[derive(Clone, Copy, Debug, PartialEq, Eq, Structural)]
pub struct Price {
    /// Whether the amount is below zero.
    pub negative: bool,
    /// The whole euros of the amount, without its sign.
    pub euros: u64,
    /// The thousandths of a euro beyond the whole euros.
    pub thousandths: u16,
}

impl Price {
    /// The amount per kWh of a raw price, which counts euros per MWh: the raw
    /// price divided by 1000.
    pub open spec fn of(raw: i64) -> Price {
        let size: int = if raw < 0 {
            -raw
        } else {
            raw as int
        };
        Price {
            negative: raw < 0,
            euros: (size / 1000) as u64,
            thousandths: (size % 1000) as u16,
        }
    }

    /// The amount with a decimal point and three decimals, and a minus sign
    /// before it where it is below zero.
    pub open spec fn text(self) -> Seq<char> {
        let sign = if self.negative {
            "-"@
        } else {
            Seq::empty()
        };
        sign + decimal(self.euros as nat) + "."@ + padded(self.thousandths as nat, 3)
    }

    /// Appends the amount to `out`.
    pub(crate) fn write(&self, out: &mut String)
        ensures
            final(out)@ == old(out)@ + self.text(),
    {
        if self.negative {
            out.append("-");
        }
        push_decimal(out, self.euros);
        out.append(".");
        push_padded(out, self.thousandths as u64, 3);
        assert(out@ =~= old(out)@ + self.text());
    }

    /// The amount as text.
    pub fn display(&self) -> (text: String)
        ensures
            text@ == self.text(),
    {
        let mut text = String::new();
        self.write(&mut text);
        assert(text@ =~= self.text());
        text
    }
}

/// What a price record holds.
pub struct PriceModel {
    /// The day that the price applies to, as the remote service writes it.
    pub date: Seq<char>,
    /// The price in euros per MWh.
    pub price: i64,
    /// Whether the price is among the cheap ones of its day, where the record says.
    pub is_cheap: Option<bool>,
    /// Whether the price is under the average of its day, where the record says.
    pub is_under_avg: Option<bool>,
    /// The hours during which the price applies, as the remote service writes
    /// them, where the record has them.
    pub hour: Option<Seq<char>>,
}

impl PriceModel {
    /// The label of the price, for a record that has both flags.
    pub open spec fn classification(self) -> Option<Label> {
        match (self.is_cheap, self.is_under_avg) {
            (Some(is_cheap), Some(is_under_avg)) => Some(Label::of(is_cheap, is_under_avg)),
            _ => None,
        }
    }

    /// The first and the last hour of the window during which the price
    /// applies, for a record that has a window that can be read.
    pub open spec fn hour(self) -> Option<(u8, u8)> {
        match self.hour {
            Some(text) => hour_range(text),
            None => None,
        }
    }

    /// The reply for the record: the price per kWh and its label.
    pub open spec fn text(self) -> Result<Seq<char>, FormatError> {
        match self.classification() {
            Some(label) => Ok(Price::of(self.price).text() + "€, "@ + label.text()),
            None => Err(FormatError::NoClassification),
        }
    }
}

/// One price as the remote service gave it. A record is never changed: a new
/// fetch makes a new one.
#[derive(Clone, Debug, PartialEq, Eq)]
pub struct PriceQuery {
    date: String,
    price: i64,
    is_cheap: Option<bool>,
    is_under_avg: Option<bool>,
    hour: Option<String>,
}

impl View for PriceQuery {
    type V = PriceModel;

    closed spec fn view(&self) -> PriceModel {
        PriceModel {
            date: self.date@,
            price: self.price,
            is_cheap: self.is_cheap,
            is_under_avg: self.is_under_avg,
            hour: match self.hour {
                Some(text) => Some(text@),
                None => None,
            },
        }
    }
}

impl PriceQuery {
    /// A record of the given fields. The price counts whole euros per MWh.
    pub fn new(
        date: String,
        price: i64,
        is_cheap: Option<bool>,
        is_under_avg: Option<bool>,
        hour: Option<String>,
    ) -> (record: PriceQuery)
        ensures
            record@ == (PriceModel {
                date: date@,
                price,
                is_cheap,
                is_under_avg,
                hour: match hour {
                    Some(text) => Some(text@),
                    None => None,
                },
            }),
    {
        PriceQuery { date, price, is_cheap, is_under_avg, hour }
    }

    /// The day that the price applies to.
    pub fn date(&self) -> (date: &str)
        ensures
            date@ == self@.date,
    {
        self.date.as_str()
    }

    /// The raw price, in whole euros per MWh.
    pub fn raw_price(&self) -> (price: i64)
        ensures
            price == self@.price,
    {
        self.price
    }

    /// Whether the price is among the cheap ones of its day, where the record says.
    pub fn is_cheap(&self) -> (flag: Option<bool>)
        ensures
            flag == self@.is_cheap,
    {
        self.is_cheap
    }

    /// Whether the price is under the average of its day, where the record says.
    pub fn is_under_avg(&self) -> (flag: Option<bool>)
        ensures
            flag == self@.is_under_avg,
    {
        self.is_under_avg
    }

    /// The hour window as the remote service wrote it, where the record has one.
    pub fn hour_text(&self) -> (text: Option<&str>)
        ensures
            match text {
                Some(text) => self@.hour == Some(text@),
                None => self@.hour is None,
            },
    {
        match &self.hour {
            Some(text) => Some(text.as_str()),
            None => None,
        }
    }

    /// The price in euros per kWh: the raw price divided by 1000, with nothing
    /// lost or rounded.
    pub fn price(&self) -> (price: Price)
        ensures
            price == Price::of(self@.price),
            price.thousandths < 1000,
            price.negative <==> self@.price < 0,
            price.euros * 1000 + price.thousandths == if price.negative {
                -self@.price
            } else {
                self@.price as int
            },
    {
        let negative: bool = self.price < 0;
        let size: u64 = if negative {
            (-(self.price + 1)) as u64 + 1
        } else {
            self.price as u64
        };
        Price { negative, euros: size / 1000, thousandths: (size % 1000) as u16 }
    }

    /// The first and the last hour of the window during which the price
    /// applies. `None` for a record without a window, and for one whose window
    /// cannot be read.
    pub fn hour(&self) -> (window: Option<(u8, u8)>)
        ensures
            window == self@.hour(),
    {
        match &self.hour {
            Some(text) => parse_hour_range(text.as_str()),
            None => None,
        }
    }

    /// The label of the price. `None` for a record that lacks one of the two flags.
    pub fn classification(&self) -> (label: Option<Label>)
        ensures
            label == self@.classification(),
            self@.is_cheap == Some(true) && self@.is_under_avg is Some ==> label == Some(
                Label::Cheap,
            ),
            self@.is_cheap == Some(false) && self@.is_under_avg == Some(true) ==> label == Some(
                Label::Average,
            ),
            self@.is_cheap == Some(false) && self@.is_under_avg == Some(false) ==> label == Some(
                Label::Expensive,
            ),
            label is None <==> self@.is_cheap is None || self@.is_under_avg is None,
    {
        match (self.is_cheap, self.is_under_avg) {
            (Some(is_cheap), Some(is_under_avg)) => Some(
                if is_cheap {
                    Label::Cheap
                } else if is_under_avg {
                    Label::Average
                } else {
                    Label::Expensive
                },
            ),
            _ => None,
        }
    }

    /// The reply for the record: the price per kWh with three decimals, the
    /// euro sign, and the label. Fails for a record that lacks one of the two flags.
    pub fn display(&self) -> (text: Result<String, FormatError>)
        ensures
            shown(text) == self@.text(),
    {
        match self.classification() {
            Some(label) => {
                let mut text = String::new();
                self.price().write(&mut text);
                text.append("€, ");
                text.append(label.as_str());
                assert(text@ =~= Price::of(self@.price).text() + "€, "@ + label.text());
                Ok(text)
            },
            None => Err(FormatError::NoClassification),
        }
    }
}

} // verus!
