//! Schedule endpoints: broadcast and web schedules, with genuinely optional
//! country and date filters, and the full future schedule.
//!
//! A filter that is not given contributes neither its query key nor a
//! separator. For the web schedule the empty country string is meaningful
//! to the service (global web channels only), so it is passed through —
//! encoded — like any other value.

use vstd::prelude::*;

use crate::urlenc::encode_str;
use crate::urlenc::percent_encode;

verus! {

/// The query string for optional country and date filters, starting with
/// `?` when at least one filter is given.
pub open spec fn spec_schedule_query(country: Option<&str>, date: Option<&str>) -> Seq<char> {
    match (country, date) {
        (Option::None, Option::None) => Seq::<char>::empty(),
        (Option::Some(c), Option::None) => "?country="@ + encode_str(c@),
        (Option::None, Option::Some(d)) => "?date="@ + encode_str(d@),
        (Option::Some(c), Option::Some(d)) => "?country="@ + encode_str(c@) + "&date="@
            + encode_str(d@),
    }
}

fn push_schedule_query(url: &mut String, country: Option<&str>, date: Option<&str>)
    ensures
        final(url)@ == old(url)@ + spec_schedule_query(country, date),
{
    match (country, date) {
        (Option::None, Option::None) => {
            proof {
                assert(final(url)@ =~= old(url)@ + spec_schedule_query(country, date));
            }
        },
        (Option::Some(c), Option::None) => {
            url.append("?country=");
            let e = percent_encode(c);
            url.append(e.as_str());
            assert(final(url)@ =~= old(url)@ + spec_schedule_query(country, date));
        },
        (Option::None, Option::Some(d)) => {
            url.append("?date=");
            let e = percent_encode(d);
            url.append(e.as_str());
            assert(final(url)@ =~= old(url)@ + spec_schedule_query(country, date));
        },
        (Option::Some(c), Option::Some(d)) => {
            url.append("?country=");
            let ec = percent_encode(c);
            url.append(ec.as_str());
            url.append("&date=");
            let ed = percent_encode(d);
            url.append(ed.as_str());
            assert(final(url)@ =~= old(url)@ + spec_schedule_query(country, date));
        },
    }
}

pub open spec fn spec_schedule_url(country: Option<&str>, date: Option<&str>) -> Seq<char> {
    "https://api.tvmaze.com/schedule"@ + spec_schedule_query(country, date)
}

/// URL of the broadcast schedule, filtered by country and date when given.
pub fn schedule_url(country: Option<&str>, date: Option<&str>) -> (r: String)
    ensures
        r@ == spec_schedule_url(country, date),
{
    let mut url = String::from_str("https://api.tvmaze.com/schedule");
    push_schedule_query(&mut url, country, date);
    url
}

pub open spec fn spec_web_schedule_url(country: Option<&str>, date: Option<&str>) -> Seq<char> {
    "https://api.tvmaze.com/schedule/web"@ + spec_schedule_query(country, date)
}

/// URL of the web/streaming schedule, filtered by country and date when
/// given.
pub fn web_schedule_url(country: Option<&str>, date: Option<&str>) -> (r: String)
    ensures
        r@ == spec_web_schedule_url(country, date),
{
    let mut url = String::from_str("https://api.tvmaze.com/schedule/web");
    push_schedule_query(&mut url, country, date);
    url
}

pub open spec fn spec_full_schedule_url() -> Seq<char> {
    "https://api.tvmaze.com/schedule/full"@
}

/// URL of the full future schedule.
pub fn full_schedule_url() -> (r: String)
    ensures
        r@ == spec_full_schedule_url(),
{
    String::from_str("https://api.tvmaze.com/schedule/full")
}

} // verus!
