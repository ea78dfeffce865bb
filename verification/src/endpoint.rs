//! The two requests of a lookup and the addresses they go to.

use crate::units::UnitSystem;
use vstd::prelude::*;

verus! {

/// One GET request: the address, and the `User-Agent` header to send with it.
#[derive(Clone, Debug, PartialEq, Eq)]
pub struct Request {
    pub url: String,
    pub user_agent: String,
}

/// Mathematical model of a [`Request`].
pub struct RequestModel {
    pub url: Seq<char>,
    pub user_agent: Seq<char>,
}

impl View for Request {
    type V = RequestModel;

    open spec fn view(&self) -> RequestModel {
        RequestModel { url: self.url@, user_agent: self.user_agent@ }
    }
}

/// Address of the point resource of a coordinate pair, each coordinate given
/// as decimal text.
pub open spec fn point_url_text(latitude: Seq<char>, longitude: Seq<char>) -> Seq<char> {
    "https://api.weather.gov/points/"@ + latitude + ","@ + longitude
}

/// Address of a gridpoint forecast: the forecast link itself, followed by a
/// `units` query when a unit system is given.
pub open spec fn forecast_url_text(forecast: Seq<char>, units: Option<UnitSystem>) -> Seq<char> {
    match units {
        Some(system) => forecast + "?units="@ + system.code_text(),
        None => forecast,
    }
}

/// Builds the address of the point resource of a coordinate pair.
pub fn point_url(latitude: &str, longitude: &str) -> (url: String)
    ensures
        url@ == point_url_text(latitude@, longitude@),
{
    let mut url = String::from_str("https://api.weather.gov/points/");
    url.append(latitude);
    url.append(",");
    url.append(longitude);
    url
}

/// Builds the address of a gridpoint forecast from the link that the point
/// resource gave.
pub fn forecast_url(forecast: &str, units: Option<UnitSystem>) -> (url: String)
    ensures
        url@ == forecast_url_text(forecast@, units),
{
    let mut url = String::from_str(forecast);
    match units {
        Some(system) => {
            url.append("?units=");
            url.append(system.code());
        },
        None => {},
    }
    url
}

/// The query of a forecast address spells out the unit system: `units=si` for
/// metric, `units=us` for imperial, and no query at all when none is given.
pub proof fn lemma_query_names_units(forecast: Seq<char>)
    ensures
        forecast_url_text(forecast, Some(UnitSystem::Metric)) == forecast + "?"@ + "units=si"@,
        forecast_url_text(forecast, Some(UnitSystem::Imperial)) == forecast + "?"@ + "units=us"@,
        forecast_url_text(forecast, None) == forecast,
{
    reveal_strlit("?units=");
    reveal_strlit("?");
    reveal_strlit("units=si");
    reveal_strlit("units=us");
    assert("?units="@ + seq!['s', 'i'] =~= "?"@ + "units=si"@);
    assert("?units="@ + seq!['u', 's'] =~= "?"@ + "units=us"@);
    assert(forecast + "?units="@ + seq!['s', 'i'] =~= forecast + ("?units="@ + seq!['s', 'i']));
    assert(forecast + "?units="@ + seq!['u', 's'] =~= forecast + ("?units="@ + seq!['u', 's']));
    assert(forecast + "?"@ + "units=si"@ =~= forecast + ("?"@ + "units=si"@));
    assert(forecast + "?"@ + "units=us"@ =~= forecast + ("?"@ + "units=us"@));
}

/// Whatever the unit system, a forecast address begins with the forecast link.
pub proof fn lemma_forecast_url_extends_link(forecast: Seq<char>, units: Option<UnitSystem>)
    ensures
        forecast.is_prefix_of(forecast_url_text(forecast, units)),
        units is None ==> forecast_url_text(forecast, units) == forecast,
{
    match units {
        Some(system) => {
            assert(forecast + "?units="@ + system.code_text() =~= forecast + ("?units="@
                + system.code_text()));
        },
        None => {},
    }
}

} // verus!
