//! Response bodies as decoded, and the resources a lookup reads from them.
//!
//! A body is decoded leniently: every member the lookup reads may be absent,
//! and members it does not read are skipped. The functions here decide which
//! absences make a body unusable and name the place of the first one.

use crate::error::JsonPath;
use vstd::prelude::*;

verus! {

/// One entry of `properties.periods`, as decoded.
#[derive(Clone, Debug, PartialEq, Eq)]
pub struct BodyPeriod {
    pub name: Option<String>,
    pub short_forecast: Option<String>,
    pub detailed_forecast: Option<String>,
}

/// The `properties` member of a body, as decoded.
#[derive(Clone, Debug, PartialEq, Eq)]
pub struct BodyProperties {
    pub forecast: Option<String>,
    pub periods: Option<Vec<BodyPeriod>>,
}

/// A response body, as decoded.
#[derive(Clone, Debug, PartialEq, Eq)]
pub struct Body {
    pub properties: Option<BodyProperties>,
}

/// The point resource of a coordinate pair. Only the link to its gridpoint
/// forecast is kept.
#[derive(Clone, Debug, PartialEq, Eq)]
pub struct PointResource {
    pub forecast: String,
}

/// One forecast period: a named time segment with its brief and full text.
#[derive(Clone, Debug, PartialEq, Eq)]
pub struct ForecastPeriod {
    pub name: String,
    pub short_forecast: String,
    pub detailed_forecast: String,
}

/// A gridpoint forecast: its periods, in the order the service returned them.
#[derive(Clone, Debug, PartialEq, Eq)]
pub struct ForecastDocument {
    pub periods: Vec<ForecastPeriod>,
}

/// Mathematical model of a [`BodyPeriod`].
pub struct BodyPeriodModel {
    pub name: Option<Seq<char>>,
    pub short_forecast: Option<Seq<char>>,
    pub detailed_forecast: Option<Seq<char>>,
}

/// Mathematical model of a [`BodyProperties`].
pub struct BodyPropertiesModel {
    pub forecast: Option<Seq<char>>,
    pub periods: Option<Seq<BodyPeriodModel>>,
}

/// Mathematical model of a [`Body`].
pub struct BodyModel {
    pub properties: Option<BodyPropertiesModel>,
}

/// Mathematical model of a [`PointResource`].
pub struct PointModel {
    pub forecast: Seq<char>,
}

/// Mathematical model of a [`ForecastPeriod`].
pub struct PeriodModel {
    pub name: Seq<char>,
    pub short_forecast: Seq<char>,
    pub detailed_forecast: Seq<char>,
}

/// The characters of an optional string.
pub open spec fn optional_text(text: Option<String>) -> Option<Seq<char>> {
    match text {
        Some(s) => Some(s@),
        None => None,
    }
}

/// The models of a sequence of decoded periods, in the same order.
pub open spec fn body_period_models(entries: Seq<BodyPeriod>) -> Seq<BodyPeriodModel> {
    Seq::new(entries.len(), |i: int| entries[i]@)
}

/// The models of a sequence of forecast periods, in the same order.
pub open spec fn period_models(periods: Seq<ForecastPeriod>) -> Seq<PeriodModel> {
    Seq::new(periods.len(), |i: int| periods[i]@)
}

impl View for BodyPeriod {
    type V = BodyPeriodModel;

    open spec fn view(&self) -> BodyPeriodModel {
        BodyPeriodModel {
            name: optional_text(self.name),
            short_forecast: optional_text(self.short_forecast),
            detailed_forecast: optional_text(self.detailed_forecast),
        }
    }
}

impl View for BodyProperties {
    type V = BodyPropertiesModel;

    open spec fn view(&self) -> BodyPropertiesModel {
        BodyPropertiesModel {
            forecast: optional_text(self.forecast),
            periods: match self.periods {
                Some(entries) => Some(body_period_models(entries@)),
                None => None,
            },
        }
    }
}

impl View for Body {
    type V = BodyModel;

    open spec fn view(&self) -> BodyModel {
        BodyModel {
            properties: match self.properties {
                Some(properties) => Some(properties@),
                None => None,
            },
        }
    }
}

impl View for PointResource {
    type V = PointModel;

    open spec fn view(&self) -> PointModel {
        PointModel { forecast: self.forecast@ }
    }
}

impl View for ForecastPeriod {
    type V = PeriodModel;

    open spec fn view(&self) -> PeriodModel {
        PeriodModel {
            name: self.name@,
            short_forecast: self.short_forecast@,
            detailed_forecast: self.detailed_forecast@,
        }
    }
}

/// A forecast is modelled by the sequence of its periods.
impl View for ForecastDocument {
    type V = Seq<PeriodModel>;

    open spec fn view(&self) -> Seq<PeriodModel> {
        period_models(self.periods@)
    }
}

/// The point resource that a body holds, or the place where the body falls
/// short of one.
pub open spec fn point_of(body: BodyModel) -> Result<PointModel, JsonPath> {
    match body.properties {
        None => Err(JsonPath::Properties),
        Some(properties) => match properties.forecast {
            None => Err(JsonPath::Forecast),
            Some(link) => Ok(PointModel { forecast: link }),
        },
    }
}

/// The first member that a decoded period lacks, in the order name, short
/// forecast, detailed forecast.
pub open spec fn period_gap(entry: BodyPeriodModel) -> Option<JsonPath> {
    if entry.name is None {
        Some(JsonPath::PeriodName)
    } else if entry.short_forecast is None {
        Some(JsonPath::PeriodShortForecast)
    } else if entry.detailed_forecast is None {
        Some(JsonPath::PeriodDetailedForecast)
    } else {
        None
    }
}

/// The period that a decoded entry without a gap stands for.
pub open spec fn completed(entry: BodyPeriodModel) -> PeriodModel
    recommends
        period_gap(entry) is None,
{
    PeriodModel {
        name: entry.name->0,
        short_forecast: entry.short_forecast->0,
        detailed_forecast: entry.detailed_forecast->0,
    }
}

/// The gap of the earliest entry that has one.
pub open spec fn first_gap(entries: Seq<BodyPeriodModel>) -> Option<JsonPath>
    decreases entries.len(),
{
    if entries.len() == 0 {
        None
    } else if period_gap(entries[0]) is Some {
        period_gap(entries[0])
    } else {
        first_gap(entries.drop_first())
    }
}

/// The forecast that a body holds, its periods in the order of its entries, or
/// the place where the body falls short of one.
pub open spec fn forecast_of(body: BodyModel) -> Result<Seq<PeriodModel>, JsonPath> {
    match body.properties {
        None => Err(JsonPath::Properties),
        Some(properties) => match properties.periods {
            None => Err(JsonPath::Periods),
            Some(entries) => match first_gap(entries) {
                Some(path) => Err(path),
                None => Ok(entries.map_values(|entry: BodyPeriodModel| completed(entry))),
            },
        },
    }
}

/// The model of a point resource or the path reported in its place.
pub open spec fn point_outcome(outcome: Result<PointResource, JsonPath>) -> Result<
    PointModel,
    JsonPath,
> {
    match outcome {
        Ok(point) => Ok(point@),
        Err(path) => Err(path),
    }
}

/// The model of a forecast or the path reported in its place.
pub open spec fn forecast_outcome(outcome: Result<ForecastDocument, JsonPath>) -> Result<
    Seq<PeriodModel>,
    JsonPath,
> {
    match outcome {
        Ok(forecast) => Ok(forecast@),
        Err(path) => Err(path),
    }
}

impl PointResource {
    /// Reads the point resource from a decoded body.
    pub fn from_body(body: &Body) -> (outcome: Result<PointResource, JsonPath>)
        ensures
            point_outcome(outcome) == point_of(body@),
    {
        match &body.properties {
            None => Err(JsonPath::Properties),
            Some(properties) => match &properties.forecast {
                None => Err(JsonPath::Forecast),
                Some(link) => Ok(PointResource { forecast: link.clone() }),
            },
        }
    }
}

impl ForecastDocument {
    /// Reads the forecast from a decoded body, keeping the periods in their
    /// order. A period that lacks its name, short forecast or
    /// detailed forecast makes the whole body unusable.
    pub fn from_body(body: &Body) -> (outcome: Result<ForecastDocument, JsonPath>)
        ensures
            forecast_outcome(outcome) == forecast_of(body@),
    {
        let entries = match &body.properties {
            None => { return Err(JsonPath::Properties); },
            Some(properties) => match &properties.periods {
                None => { return Err(JsonPath::Periods); },
                Some(entries) => entries,
            },
        };
        let ghost models = body_period_models(entries@);
        let mut periods: Vec<ForecastPeriod> = Vec::new();
        let mut i: usize = 0;
        assert(models.skip(0) =~= models);
        while i < entries.len()
            invariant
                i <= entries.len(),
                models == body_period_models(entries@),
                body@.properties matches Some(properties) && properties.periods == Some(models),
                first_gap(models) == first_gap(models.skip(i as int)),
                periods@.len() == i,
                forall|j: int| 0 <= j < i ==> period_gap(#[trigger] models[j]) is None,
                forall|j: int| 0 <= j < i ==> (#[trigger] periods@[j])@ == completed(models[j]),
            decreases entries.len() - i,
        {
            let entry = &entries[i];
            assert(entry@ == models[i as int]);
            assert(models.skip(i as int)[0] == models[i as int]);
            assert(models.skip(i as int).drop_first() =~= models.skip(i as int + 1));
            let name = match &entry.name {
                Some(text) => text.clone(),
                None => { return Err(JsonPath::PeriodName); },
            };
            let short_forecast = match &entry.short_forecast {
                Some(text) => text.clone(),
                None => { return Err(JsonPath::PeriodShortForecast); },
            };
            let detailed_forecast = match &entry.detailed_forecast {
                Some(text) => text.clone(),
                None => { return Err(JsonPath::PeriodDetailedForecast); },
            };
            periods.push(ForecastPeriod { name, short_forecast, detailed_forecast });
            i += 1;
        }
        assert(models.skip(i as int).len() == 0);
        assert(period_models(periods@) =~= models.map_values(
            |entry: BodyPeriodModel| completed(entry),
        ));
        Ok(ForecastDocument { periods })
    }
}

/// No entry has a gap exactly when the sequence has no first gap.
pub proof fn lemma_first_gap_is_none(entries: Seq<BodyPeriodModel>)
    ensures
        first_gap(entries) is None <==> forall|i: int|
            0 <= i < entries.len() ==> period_gap(#[trigger] entries[i]) is None,
    decreases entries.len(),
{
    if entries.len() > 0 {
        let rest = entries.drop_first();
        lemma_first_gap_is_none(rest);
        if period_gap(entries[0]) is None && first_gap(rest) is None {
            assert forall|i: int| 0 <= i < entries.len() implies period_gap(
                #[trigger] entries[i],
            ) is None by {
                if i > 0 {
                    assert(entries[i] == rest[i - 1]);
                }
            }
        }
        if forall|i: int| 0 <= i < entries.len() ==> period_gap(#[trigger] entries[i]) is None {
            assert forall|i: int| 0 <= i < rest.len() implies period_gap(#[trigger] rest[i])
                is None by {
                assert(rest[i] == entries[i + 1]);
            }
        }
    }
}

/// A body with a list of periods yields a forecast exactly when every entry
/// is complete, and the forecast then has one period per entry, in the order
/// of the entries.
pub proof fn lemma_forecast_keeps_order(body: BodyModel, entries: Seq<BodyPeriodModel>)
    requires
        body.properties matches Some(properties) && properties.periods == Some(entries),
    ensures
        forecast_of(body) is Ok <==> forall|i: int|
            0 <= i < entries.len() ==> period_gap(#[trigger] entries[i]) is None,
        forecast_of(body) matches Ok(periods) ==> ({
            &&& periods.len() == entries.len()
            &&& forall|i: int|
                0 <= i < periods.len() ==> #[trigger] periods[i] == completed(entries[i])
        }),
{
    lemma_first_gap_is_none(entries);
}

} // verus!
