//! The four price queries that the remote service answers, and their addresses.

use vstd::prelude::*;

verus! {

/// The kind of price asked of the remote service.
#[derive(Clone, Copy, Debug, PartialEq, Eq, Structural)]
pub enum Endpoint {
    /// The price of the current hour.
    Now,
    /// The lowest price of the day.
    Min,
    /// The highest price of the day.
    Max,
    /// The average price of the day.
    Avg,
}

impl Endpoint {
    /// The last path segment of the address, which alone tells the four kinds apart.
    pub open spec fn segment(self) -> Seq<char> {
        match self {
            Endpoint::Now => "now"@,
            Endpoint::Min => "min"@,
            Endpoint::Max => "max"@,
            Endpoint::Avg => "avg"@,
        }
    }

    /// The address of a kind: one host and path prefix, the kind's segment, and
    /// the fixed price zone.
    pub open spec fn url(self) -> Seq<char> {
        "https://api.preciodelaluz.org/v1/prices/"@ + self.segment() + "?zone=PCB"@
    }

    /// The address to send a GET request to for this kind of price.
    pub fn get_endpoint(&self) -> (address: &str)
        ensures
            address@ == self.url(),
    {
        proof {
            reveal_strlit("https://api.preciodelaluz.org/v1/prices/");
            reveal_strlit("?zone=PCB");
            reveal_strlit("now");
            reveal_strlit("min");
            reveal_strlit("max");
            reveal_strlit("avg");
            reveal_strlit("https://api.preciodelaluz.org/v1/prices/now?zone=PCB");
            reveal_strlit("https://api.preciodelaluz.org/v1/prices/min?zone=PCB");
            reveal_strlit("https://api.preciodelaluz.org/v1/prices/max?zone=PCB");
            reveal_strlit("https://api.preciodelaluz.org/v1/prices/avg?zone=PCB");
        }
        match self {
            Endpoint::Now => "https://api.preciodelaluz.org/v1/prices/now?zone=PCB",
            Endpoint::Min => "https://api.preciodelaluz.org/v1/prices/min?zone=PCB",
            Endpoint::Max => "https://api.preciodelaluz.org/v1/prices/max?zone=PCB",
            Endpoint::Avg => "https://api.preciodelaluz.org/v1/prices/avg?zone=PCB",
        }
    }
}

} // verus!
