use vstd::prelude::*;

use crate::parameters::{ContractStyle, ContractType};
use crate::json::{
    i64_parse, key1, key2, number_map_parse, number_parse, spec_i64, spec_number, spec_number_map,
    spec_string, string_parse, opt_vec_is, JsonObject, Number, Parse, Json, lookup_from,
    pick_from, writes_str, writes_number, writes_int, str_json, number_json, int_json,
};

verus! {

/// One value of a technical indicator.
#[derive(Debug)]
pub struct MovingAverage {
    pub timestamp: Option<i64>,
    pub value: Option<Number>,
}

impl Parse for MovingAverage {
    open spec fn spec_parse(obj: JsonObject) -> Self {
        MovingAverage {
            timestamp: spec_i64(obj, seq!["timestamp"]),
            value: spec_number(obj, seq!["value"]),
        }
    }

    fn parse(obj: &JsonObject) -> (r: Self) {
        let timestamp = i64_parse(obj, &key1("timestamp"));
        let value = number_parse(obj, &key1("value"));
        MovingAverage { timestamp, value }
    }
}

/// One aggregate bar: prices, volume and time of a window.
#[derive(Debug)]
pub struct Bar {
    pub ticker: Option<String>,
    pub close: Option<Number>,
    pub high: Option<Number>,
    pub low: Option<Number>,
    pub transactions: Option<i64>,
    pub open: Option<Number>,
    pub timestamp: Option<i64>,
    pub volume: Option<Number>,
    pub vwap: Option<Number>,
}

impl Parse for Bar {
    open spec fn spec_parse(obj: JsonObject) -> Self {
        Bar {
            ticker: spec_string(obj, seq!["T"]),
            close: spec_number(obj, seq!["c"]),
            high: spec_number(obj, seq!["h"]),
            low: spec_number(obj, seq!["l"]),
            transactions: spec_i64(obj, seq!["n"]),
            open: spec_number(obj, seq!["o"]),
            timestamp: spec_i64(obj, seq!["t"]),
            volume: spec_number(obj, seq!["v"]),
            vwap: spec_number(obj, seq!["vw"]),
        }
    }

    fn parse(obj: &JsonObject) -> (r: Self) {
        let ticker = string_parse(obj, &key1("T"));
        let close = number_parse(obj, &key1("c"));
        let high = number_parse(obj, &key1("h"));
        let low = number_parse(obj, &key1("l"));
        let transactions = i64_parse(obj, &key1("n"));
        let open = number_parse(obj, &key1("o"));
        let timestamp = i64_parse(obj, &key1("t"));
        let volume = number_parse(obj, &key1("v"));
        let vwap = number_parse(obj, &key1("vw"));
        Bar { ticker, close, high, low, transactions, open, timestamp, volume, vwap }
    }
}

/// One quote: the best bid and ask at a moment.
#[derive(Debug)]
pub struct Quote {
    pub ask: Option<Number>,
    pub ask_exchange: Option<i64>,
    pub ask_size: Option<Number>,
    pub bid: Option<Number>,
    pub bid_exchange: Option<i64>,
    pub bid_size: Option<Number>,
    pub exchange: Option<i64>,
    pub participant_timestamp: Option<i64>,
    pub sequence_number: Option<i64>,
    pub timestamp: Option<i64>,
    pub tape: Option<i64>,
}

impl Parse for Quote {
    open spec fn spec_parse(obj: JsonObject) -> Self {
        Quote {
            ask: spec_number(obj, seq!["ask", "ask_price"]),
            ask_exchange: spec_i64(obj, seq!["ask_exchange"]),
            ask_size: spec_number(obj, seq!["ask_size"]),
            bid: spec_number(obj, seq!["bid", "bid_price"]),
            bid_exchange: spec_i64(obj, seq!["bid_exchange"]),
            bid_size: spec_number(obj, seq!["bid_size"]),
            exchange: spec_i64(obj, seq!["exchange"]),
            participant_timestamp: spec_i64(obj, seq!["participant_timestamp"]),
            sequence_number: spec_i64(obj, seq!["sequence_number"]),
            timestamp: spec_i64(obj, seq!["timestamp", "sip_timestamp"]),
            tape: spec_i64(obj, seq!["tape"]),
        }
    }

    fn parse(obj: &JsonObject) -> (r: Self) {
        let ask = number_parse(obj, &key2("ask", "ask_price"));
        let ask_exchange = i64_parse(obj, &key1("ask_exchange"));
        let ask_size = number_parse(obj, &key1("ask_size"));
        let bid = number_parse(obj, &key2("bid", "bid_price"));
        let bid_exchange = i64_parse(obj, &key1("bid_exchange"));
        let bid_size = number_parse(obj, &key1("bid_size"));
        let exchange = i64_parse(obj, &key1("exchange"));
        let participant_timestamp = i64_parse(obj, &key1("participant_timestamp"));
        let sequence_number = i64_parse(obj, &key1("sequence_number"));
        let timestamp = i64_parse(obj, &key2("timestamp", "sip_timestamp"));
        let tape = i64_parse(obj, &key1("tape"));
        Quote { ask, ask_exchange, ask_size, bid, bid_exchange, bid_size, exchange, participant_timestamp, sequence_number, timestamp, tape }
    }
}

/// One trade.
#[derive(Debug)]
pub struct Trade {
    pub ticker: Option<String>,
    pub exchange: Option<i64>,
    pub id: Option<String>,
    pub price: Option<Number>,
    pub size: Option<Number>,
    pub participant_timestamp: Option<i64>,
    pub sequence_number: Option<i64>,
    pub timestamp: Option<i64>,
    pub tape: Option<i64>,
}

impl Parse for Trade {
    open spec fn spec_parse(obj: JsonObject) -> Self {
        Trade {
            ticker: spec_string(obj, seq!["T"]),
            exchange: spec_i64(obj, seq!["exchange", "x"]),
            id: spec_string(obj, seq!["id", "i"]),
            price: spec_number(obj, seq!["price", "p"]),
            size: spec_number(obj, seq!["size", "s"]),
            participant_timestamp: spec_i64(obj, seq!["participant_timestamp", "y"]),
            sequence_number: spec_i64(obj, seq!["sequence_number", "q"]),
            timestamp: spec_i64(obj, seq!["sip_timestamp", "t"]),
            tape: spec_i64(obj, seq!["tape", "z"]),
        }
    }

    fn parse(obj: &JsonObject) -> (r: Self) {
        let ticker = string_parse(obj, &key1("T"));
        let exchange = i64_parse(obj, &key2("exchange", "x"));
        let id = string_parse(obj, &key2("id", "i"));
        let price = number_parse(obj, &key2("price", "p"));
        let size = number_parse(obj, &key2("size", "s"));
        let participant_timestamp = i64_parse(obj, &key2("participant_timestamp", "y"));
        let sequence_number = i64_parse(obj, &key2("sequence_number", "q"));
        let timestamp = i64_parse(obj, &key2("sip_timestamp", "t"));
        let tape = i64_parse(obj, &key2("tape", "z"));
        Trade { ticker, exchange, id, price, size, participant_timestamp, sequence_number, timestamp, tape }
    }
}

/// One entry of a market snapshot.
#[derive(Debug)]
pub struct Ticker {
    pub ticker: Option<String>,
    pub todays_change: Option<Number>,
    pub todays_change_perc: Option<Number>,
    pub updated: Option<i64>,
}

impl Parse for Ticker {
    open spec fn spec_parse(obj: JsonObject) -> Self {
        Ticker {
            ticker: spec_string(obj, seq!["ticker"]),
            todays_change: spec_number(obj, seq!["todaysChange"]),
            todays_change_perc: spec_number(obj, seq!["todaysChangePerc"]),
            updated: spec_i64(obj, seq!["updated"]),
        }
    }

    fn parse(obj: &JsonObject) -> (r: Self) {
        let ticker = string_parse(obj, &key1("ticker"));
        let todays_change = number_parse(obj, &key1("todaysChange"));
        let todays_change_perc = number_parse(obj, &key1("todaysChangePerc"));
        let updated = i64_parse(obj, &key1("updated"));
        Ticker { ticker, todays_change, todays_change_perc, updated }
    }
}

/// The ask side of a book level.
#[derive(Debug)]
pub struct Ask {
    pub price: Option<Number>,
    pub size: Option<Vec<(String, Number)>>,
}

impl Ask {
    /// `self` is what `obj` reads as.
    pub open spec fn read_from(&self, obj: JsonObject) -> bool {
        &&& self.price == spec_number(obj, seq!["price"])
        &&& opt_vec_is(self.size, spec_number_map(obj, seq!["size"]))
    }

    /// Reads the object; a missing or mistyped member leaves its field `None`.
    pub fn parse(obj: &JsonObject) -> (r: Self)
        ensures
            r.read_from(*obj),
    {
        let price = number_parse(obj, &key1("price"));
        let size = number_map_parse(obj, &key1("size"));
        Ask { price, size }
    }
}

/// The bid side of a book level.
#[derive(Debug)]
pub struct Bid {
    pub price: Option<Number>,
    pub size: Option<Vec<(String, Number)>>,
}

impl Bid {
    /// `self` is what `obj` reads as.
    pub open spec fn read_from(&self, obj: JsonObject) -> bool {
        &&& self.price == spec_number(obj, seq!["price"])
        &&& opt_vec_is(self.size, spec_number_map(obj, seq!["size"]))
    }

    /// Reads the object; a missing or mistyped member leaves its field `None`.
    pub fn parse(obj: &JsonObject) -> (r: Self)
        ensures
            r.read_from(*obj),
    {
        let price = number_parse(obj, &key1("price"));
        let size = number_map_parse(obj, &key1("size"));
        Bid { price, size }
    }
}

/// The terms of an option contract.
#[derive(Debug)]
pub struct Details {
    pub contract_type: Option<ContractType>,
    pub contract_style: Option<ContractStyle>,
    pub expiration_date: Option<String>,
    pub shares_per_contract: Option<i64>,
    pub strike_price: Option<Number>,
    pub ticker: Option<String>,
}

/// The contract type that a name stands for: only `Call` and `Put` are read.
pub open spec fn contract_type_of(s: Option<String>) -> Option<ContractType> {
    match s {
        Some(s) => if s@ == "Call"@ {
            Some(ContractType::Call)
        } else if s@ == "Put"@ {
            Some(ContractType::Put)
        } else {
            None
        },
        None => None,
    }
}

/// The contract style that a name stands for.
pub open spec fn contract_style_of(s: Option<String>) -> Option<ContractStyle> {
    match s {
        Some(s) => if s@ == "American"@ {
            Some(ContractStyle::American)
        } else if s@ == "European"@ {
            Some(ContractStyle::European)
        } else if s@ == "Bermudan"@ {
            Some(ContractStyle::Bermudan)
        } else {
            None
        },
        None => None,
    }
}

fn is_name(s: &String, name: &str) -> (r: bool)
    ensures
        r == (s@ == name@),
{
    *s == String::from_str(name)
}

impl Parse for Details {
    open spec fn spec_parse(obj: JsonObject) -> Self {
        Details {
            contract_type: contract_type_of(spec_string(obj, seq!["contract_type"])),
            contract_style: contract_style_of(spec_string(obj, seq!["contract_style"])),
            expiration_date: spec_string(obj, seq!["expiration_date"]),
            shares_per_contract: spec_i64(obj, seq!["shares_per_contract"]),
            strike_price: spec_number(obj, seq!["strike_price"]),
            ticker: spec_string(obj, seq!["ticker"]),
        }
    }

    fn parse(obj: &JsonObject) -> (r: Self) {
        let contract_type = match string_parse(obj, &key1("contract_type")) {
            Some(s) => if is_name(&s, "Call") {
                Some(ContractType::Call)
            } else if is_name(&s, "Put") {
                Some(ContractType::Put)
            } else {
                None
            },
            None => None,
        };
        let contract_style = match string_parse(obj, &key1("contract_style")) {
            Some(s) => if is_name(&s, "American") {
                Some(ContractStyle::American)
            } else if is_name(&s, "European") {
                Some(ContractStyle::European)
            } else if is_name(&s, "Bermudan") {
                Some(ContractStyle::Bermudan)
            } else {
                None
            },
            None => None,
        };
        let expiration_date = string_parse(obj, &key1("expiration_date"));
        let shares_per_contract = i64_parse(obj, &key1("shares_per_contract"));
        let strike_price = number_parse(obj, &key1("strike_price"));
        let ticker = string_parse(obj, &key1("ticker"));
        Details {
            contract_type,
            contract_style,
            expiration_date,
            shares_per_contract,
            strike_price,
            ticker,
        }
    }
}

impl Bar {
    /// `obj` is this bar written out: one member per field, `null` where the
    /// field is absent.
    pub open spec fn written_as(&self, obj: JsonObject) -> bool {
        &&& obj.spec_get("T"@) matches Some(j) && writes_str(j, self.ticker)
        &&& obj.spec_get("c"@) matches Some(j) && writes_number(j, self.close)
        &&& obj.spec_get("h"@) matches Some(j) && writes_number(j, self.high)
        &&& obj.spec_get("l"@) matches Some(j) && writes_number(j, self.low)
        &&& obj.spec_get("n"@) matches Some(j) && writes_int(j, self.transactions)
        &&& obj.spec_get("o"@) matches Some(j) && writes_number(j, self.open)
        &&& obj.spec_get("t"@) matches Some(j) && writes_int(j, self.timestamp)
        &&& obj.spec_get("v"@) matches Some(j) && writes_number(j, self.volume)
        &&& obj.spec_get("vw"@) matches Some(j) && writes_number(j, self.vwap)
    }

    /// Writes the bar as a JSON object under the keys it is read from.
    pub fn to_json(&self) -> (r: JsonObject)
        ensures
            self.written_as(r),
    {
        let mut entries: Vec<(String, Json)> = Vec::new();
        entries.push((String::from_str("T"), str_json(&self.ticker)));
        entries.push((String::from_str("c"), number_json(&self.close)));
        entries.push((String::from_str("h"), number_json(&self.high)));
        entries.push((String::from_str("l"), number_json(&self.low)));
        entries.push((String::from_str("n"), int_json(self.transactions)));
        entries.push((String::from_str("o"), number_json(&self.open)));
        entries.push((String::from_str("t"), int_json(self.timestamp)));
        entries.push((String::from_str("v"), number_json(&self.volume)));
        entries.push((String::from_str("vw"), number_json(&self.vwap)));
        proof {
            reveal_strlit("T");
            reveal_strlit("c");
            reveal_strlit("h");
            reveal_strlit("l");
            reveal_strlit("n");
            reveal_strlit("o");
            reveal_strlit("t");
            reveal_strlit("v");
            reveal_strlit("vw");
            reveal_with_fuel(lookup_from, 10);
            assert(entries@.len() == 9);
            assert("T"@[0] == 'T' && "c"@[0] == 'c' && "h"@[0] == 'h' && "l"@[0] == 'l');
            assert("n"@[0] == 'n' && "o"@[0] == 'o' && "t"@[0] == 't' && "v"@[0] == 'v');
            assert("vw"@.len() == 2);
        }
        JsonObject { entries }
    }
}

/// Reading a bar back from its written form gives the same bar, so decoding
/// what was written from a decoded bar changes nothing.
pub proof fn lemma_bar_round_trip(b: Bar, obj: JsonObject)
    requires
        b.written_as(obj),
    ensures
        Bar::spec_parse(obj) == b,
{
    reveal_with_fuel(pick_from, 2);
}

/// `j` writes an optional name: the name as a string, or `null`.
pub open spec fn writes_name(j: Json, name: Option<Seq<char>>) -> bool {
    match name {
        Some(n) => j is Str && j->Str_0@ == n,
        None => j is Null,
    }
}

fn name_json(name: Option<&str>) -> (r: Json)
    ensures
        writes_name(
            r,
            match name {
                Some(n) => Some(n@),
                None => None,
            },
        ),
{
    match name {
        Some(n) => Json::Str(String::from_str(n)),
        None => Json::Null,
    }
}

pub open spec fn contract_type_name(t: Option<ContractType>) -> Option<Seq<char>> {
    match t {
        Some(t) => Some(t.spec_name()),
        None => None,
    }
}

pub open spec fn contract_style_name(t: Option<ContractStyle>) -> Option<Seq<char>> {
    match t {
        Some(t) => Some(t.spec_name()),
        None => None,
    }
}

impl Details {
    /// `obj` is these terms written out: one member per field, the contract
    /// type and style by name, `null` where the field is absent.
    pub open spec fn written_as(&self, obj: JsonObject) -> bool {
        &&& obj.spec_get("contract_type"@) matches Some(j) && writes_name(
            j,
            contract_type_name(self.contract_type),
        )
        &&& obj.spec_get("contract_style"@) matches Some(j) && writes_name(
            j,
            contract_style_name(self.contract_style),
        )
        &&& obj.spec_get("expiration_date"@) matches Some(j) && writes_str(j, self.expiration_date)
        &&& obj.spec_get("shares_per_contract"@) matches Some(j) && writes_int(
            j,
            self.shares_per_contract,
        )
        &&& obj.spec_get("strike_price"@) matches Some(j) && writes_number(j, self.strike_price)
        &&& obj.spec_get("ticker"@) matches Some(j) && writes_str(j, self.ticker)
    }

    /// Writes the terms as a JSON object under the keys they are read from.
    pub fn to_json(&self) -> (r: JsonObject)
        ensures
            self.written_as(r),
    {
        let contract_type = match &self.contract_type {
            Some(t) => Some(t.name()),
            None => None,
        };
        let contract_style = match &self.contract_style {
            Some(t) => Some(t.name()),
            None => None,
        };
        let mut entries: Vec<(String, Json)> = Vec::new();
        entries.push((String::from_str("contract_type"), name_json(contract_type)));
        entries.push((String::from_str("contract_style"), name_json(contract_style)));
        entries.push((String::from_str("expiration_date"), str_json(&self.expiration_date)));
        entries.push((String::from_str("shares_per_contract"), int_json(self.shares_per_contract)));
        entries.push((String::from_str("strike_price"), number_json(&self.strike_price)));
        entries.push((String::from_str("ticker"), str_json(&self.ticker)));
        proof {
            reveal_strlit("contract_type");
            reveal_strlit("contract_style");
            reveal_strlit("expiration_date");
            reveal_strlit("shares_per_contract");
            reveal_strlit("strike_price");
            reveal_strlit("ticker");
            reveal_with_fuel(lookup_from, 7);
            assert("contract_type"@.len() == 13 && "contract_style"@.len() == 14);
            assert("expiration_date"@.len() == 15 && "shares_per_contract"@.len() == 19);
            assert("strike_price"@.len() == 12 && "ticker"@.len() == 6);
        }
        JsonObject { entries }
    }
}

/// Reading option terms back from their written form gives the same terms,
/// whenever the contract type and style are ones that are read by name
/// (`Other` and `Unknown` are written but read back as absent).
pub proof fn lemma_details_round_trip(d: Details, obj: JsonObject)
    requires
        d.written_as(obj),
        !(d.contract_type matches Some(ContractType::Other)),
        !(d.contract_type matches Some(ContractType::Unknown)),
        !(d.contract_style matches Some(ContractStyle::Unknown)),
    ensures
        Details::spec_parse(obj) == d,
{
    reveal_with_fuel(pick_from, 2);
    reveal_strlit("Call");
    reveal_strlit("Put");
    reveal_strlit("American");
    reveal_strlit("European");
    reveal_strlit("Bermudan");
    assert("Call"@[0] == 'C' && "Put"@[0] == 'P');
    assert("American"@[0] == 'A' && "European"@[0] == 'E' && "Bermudan"@[0] == 'B');
}

impl MovingAverage {
    /// `obj` is this value written out: one member per field, `null` where
    /// the field is absent.
    pub open spec fn written_as(&self, obj: JsonObject) -> bool {
        &&& obj.spec_get("timestamp"@) matches Some(j) && writes_int(j, self.timestamp)
        &&& obj.spec_get("value"@) matches Some(j) && writes_number(j, self.value)
    }

    /// Writes the value as a JSON object under the keys it is read from.
    pub fn to_json(&self) -> (r: JsonObject)
        ensures
            self.written_as(r),
    {
        let mut entries: Vec<(String, Json)> = Vec::new();
        entries.push((String::from_str("timestamp"), int_json(self.timestamp)));
        entries.push((String::from_str("value"), number_json(&self.value)));
        proof {
            reveal_strlit("timestamp");
            reveal_strlit("value");
            reveal_with_fuel(lookup_from, 3);
            assert("timestamp"@.len() == 9 && "value"@.len() == 5);
        }
        JsonObject { entries }
    }
}

/// Reading an indicator value back from its written form gives the same
/// value.
pub proof fn lemma_moving_average_round_trip(m: MovingAverage, obj: JsonObject)
    requires
        m.written_as(obj),
    ensures
        MovingAverage::spec_parse(obj) == m,
{
    reveal_with_fuel(pick_from, 2);
}

} // verus!
