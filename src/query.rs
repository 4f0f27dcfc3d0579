use vstd::prelude::*;

use crate::parameters::{Decimal, Order, SeriesType, Sortv3, Timespan};
use crate::text::{bool_text, decimal_text, int_text, nat_text, push_bool, push_decimal, push_int, push_nat};

verus! {

/// One `key=value&` segment of a query string.
pub open spec fn seg(key: Seq<char>, value: Seq<char>) -> Seq<char> {
    key + "="@ + value + "&"@
}

/// The segment for an optional value: nothing when it is absent.
pub open spec fn opt_seg(key: Seq<char>, value: Option<Seq<char>>) -> Seq<char> {
    match value {
        Some(v) => seg(key, v),
        None => Seq::empty(),
    }
}

pub open spec fn str_value(o: Option<String>) -> Option<Seq<char>> {
    match o {
        Some(s) => Some(s@),
        None => None,
    }
}

pub open spec fn bool_value(o: Option<bool>) -> Option<Seq<char>> {
    match o {
        Some(b) => Some(bool_text(b)),
        None => None,
    }
}

pub open spec fn u16_value(o: Option<u16>) -> Option<Seq<char>> {
    match o {
        Some(n) => Some(nat_text(n as nat)),
        None => None,
    }
}

pub open spec fn u8_value(o: Option<u8>) -> Option<Seq<char>> {
    match o {
        Some(n) => Some(nat_text(n as nat)),
        None => None,
    }
}

pub open spec fn i64_value(o: Option<i64>) -> Option<Seq<char>> {
    match o {
        Some(n) => Some(int_text(n as int)),
        None => None,
    }
}

pub open spec fn decimal_value(o: Option<Decimal>) -> Option<Seq<char>> {
    match o {
        Some(d) => Some(decimal_text(d)),
        None => None,
    }
}

pub open spec fn timespan_value(o: Option<Timespan>) -> Option<Seq<char>> {
    match o {
        Some(t) => Some(t.spec_query_value()),
        None => None,
    }
}

pub open spec fn order_value(o: Option<Order>) -> Option<Seq<char>> {
    match o {
        Some(t) => Some(t.spec_query_value()),
        None => None,
    }
}

pub open spec fn sortv3_value(o: Option<Sortv3>) -> Option<Seq<char>> {
    match o {
        Some(t) => Some(t.spec_query_value()),
        None => None,
    }
}

pub open spec fn series_value(o: Option<SeriesType>) -> Option<Seq<char>> {
    match o {
        Some(t) => Some(t.spec_query_value()),
        None => None,
    }
}

fn push_key(out: &mut String, key: &str)
    ensures
        final(out)@ == old(out)@ + key@ + "="@,
{
    out.append(key);
    out.append("=");
}

fn push_end(out: &mut String)
    ensures
        final(out)@ == old(out)@ + "&"@,
{
    out.append("&");
}

pub fn push_str_seg(out: &mut String, key: &str, value: &Option<String>)
    ensures
        final(out)@ == old(out)@ + opt_seg(key@, str_value(*value)),
{
    if let Some(v) = value {
        push_key(out, key);
        out.append(v.as_str());
        push_end(out);
        assert(out@ =~= old(out)@ + seg(key@, v@));
    } else {
        assert(out@ =~= old(out)@ + Seq::<char>::empty());
    }
}

pub fn push_bool_seg(out: &mut String, key: &str, value: Option<bool>)
    ensures
        final(out)@ == old(out)@ + opt_seg(key@, bool_value(value)),
{
    if let Some(v) = value {
        push_key(out, key);
        push_bool(out, v);
        push_end(out);
        assert(out@ =~= old(out)@ + seg(key@, bool_text(v)));
    } else {
        assert(out@ =~= old(out)@ + Seq::<char>::empty());
    }
}

pub fn push_u16_seg(out: &mut String, key: &str, value: Option<u16>)
    ensures
        final(out)@ == old(out)@ + opt_seg(key@, u16_value(value)),
{
    if let Some(v) = value {
        push_key(out, key);
        push_nat(out, v as u64);
        push_end(out);
        assert(out@ =~= old(out)@ + seg(key@, nat_text(v as nat)));
    } else {
        assert(out@ =~= old(out)@ + Seq::<char>::empty());
    }
}

pub fn push_u8_seg(out: &mut String, key: &str, value: Option<u8>)
    ensures
        final(out)@ == old(out)@ + opt_seg(key@, u8_value(value)),
{
    if let Some(v) = value {
        push_key(out, key);
        push_nat(out, v as u64);
        push_end(out);
        assert(out@ =~= old(out)@ + seg(key@, nat_text(v as nat)));
    } else {
        assert(out@ =~= old(out)@ + Seq::<char>::empty());
    }
}

pub fn push_i64_seg(out: &mut String, key: &str, value: Option<i64>)
    ensures
        final(out)@ == old(out)@ + opt_seg(key@, i64_value(value)),
{
    if let Some(v) = value {
        push_key(out, key);
        push_int(out, v);
        push_end(out);
        assert(out@ =~= old(out)@ + seg(key@, int_text(v as int)));
    } else {
        assert(out@ =~= old(out)@ + Seq::<char>::empty());
    }
}

pub fn push_decimal_seg(out: &mut String, key: &str, value: Option<Decimal>)
    ensures
        final(out)@ == old(out)@ + opt_seg(key@, decimal_value(value)),
{
    if let Some(v) = value {
        push_key(out, key);
        push_decimal(out, v);
        push_end(out);
        assert(out@ =~= old(out)@ + seg(key@, decimal_text(v)));
    } else {
        assert(out@ =~= old(out)@ + Seq::<char>::empty());
    }
}

/// Appends the segment of a value that is already text, or nothing.
pub fn push_text_seg(out: &mut String, key: &str, value: Option<&str>)
    ensures
        final(out)@ == old(out)@ + opt_seg(
            key@,
            match value {
                Some(v) => Some(v@),
                None => None,
            },
        ),
{
    if let Some(v) = value {
        push_key(out, key);
        out.append(v);
        push_end(out);
        assert(out@ =~= old(out)@ + seg(key@, v@));
    } else {
        assert(out@ =~= old(out)@ + Seq::<char>::empty());
    }
}

} // verus!
