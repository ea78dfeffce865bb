//! Rendering of forecast periods as text.

use crate::document::{ForecastDocument, ForecastPeriod, PeriodModel};
use crate::error::{text_outcome, ErrorModel, ForecastError};
use vstd::prelude::*;

verus! {

/// How many periods are shown.
#[derive(Clone, Copy, Debug, PartialEq, Eq, Structural)]
pub enum PeriodCount {
    /// The first period only.
    First,
    /// The first three periods.
    FirstThree,
}

/// Which texts of a period are shown.
#[derive(Clone, Copy, Debug, PartialEq, Eq, Structural)]
pub enum FieldSet {
    /// The name and the detailed forecast.
    NameAndDetail,
    /// The name, the short forecast and the detailed forecast.
    NameShortAndDetail,
}

/// What a presentation shows of a forecast.
#[derive(Clone, Copy, Debug, PartialEq, Eq, Structural)]
pub struct DisplayPolicy {
    pub count: PeriodCount,
    pub fields: FieldSet,
}

impl PeriodCount {
    /// The largest number of periods shown.
    pub open spec fn limit(self) -> nat {
        match self {
            PeriodCount::First => 1,
            PeriodCount::FirstThree => 3,
        }
    }

    /// Returns the largest number of periods shown.
    pub fn max_periods(self) -> (n: usize)
        ensures
            n == self.limit(),
    {
        match self {
            PeriodCount::First => 1,
            PeriodCount::FirstThree => 3,
        }
    }
}

/// The first line of a period: its name, followed by the short forecast where
/// the field set includes it.
pub open spec fn heading_text(period: PeriodModel, fields: FieldSet) -> Seq<char> {
    match fields {
        FieldSet::NameAndDetail => period.name,
        FieldSet::NameShortAndDetail => period.name + ": "@ + period.short_forecast,
    }
}

/// The text of one period: the heading, the indented detailed forecast on the
/// next line, then a blank line.
pub open spec fn period_text(period: PeriodModel, fields: FieldSet) -> Seq<char> {
    heading_text(period, fields) + "\n  "@ + period.detailed_forecast + "\n\n"@
}

/// The texts of a sequence of periods, one after the other.
pub open spec fn periods_text(periods: Seq<PeriodModel>, fields: FieldSet) -> Seq<char>
    decreases periods.len(),
{
    if periods.len() == 0 {
        Seq::empty()
    } else {
        periods_text(periods.drop_last(), fields) + period_text(periods.last(), fields)
    }
}

/// The periods that are shown: the leading ones, up to the limit.
pub open spec fn selection(periods: Seq<PeriodModel>, count: PeriodCount) -> Seq<PeriodModel> {
    if periods.len() <= count.limit() {
        periods
    } else {
        periods.take(count.limit() as int)
    }
}

/// What is shown of a forecast: the text of the selected periods, or the
/// failure of a forecast without periods.
pub open spec fn presentation(periods: Seq<PeriodModel>, policy: DisplayPolicy) -> Result<
    Seq<char>,
    ErrorModel,
> {
    if periods.len() == 0 {
        Err(ErrorModel::EmptyResult)
    } else {
        Ok(periods_text(selection(periods, policy.count), policy.fields))
    }
}

/// Renders one period.
pub fn render_period(period: &ForecastPeriod, fields: FieldSet) -> (text: String)
    ensures
        text@ == period_text(period@, fields),
{
    let mut text = period.name.clone();
    match fields {
        FieldSet::NameAndDetail => {},
        FieldSet::NameShortAndDetail => {
            text.append(": ");
            text.append(period.short_forecast.as_str());
        },
    }
    text.append("\n  ");
    text.append(period.detailed_forecast.as_str());
    text.append("\n\n");
    text
}

/// Renders the leading periods of a forecast, as many as the policy allows,
/// in the order they were given. A forecast without periods is an error.
pub fn render(forecast: &ForecastDocument, policy: DisplayPolicy) -> (outcome: Result<
    String,
    ForecastError,
>)
    ensures
        text_outcome(outcome) == presentation(forecast@, policy),
{
    let periods = &forecast.periods;
    if periods.len() == 0 {
        return Err(ForecastError::EmptyResult);
    }
    let limit = policy.count.max_periods();
    let shown = if periods.len() <= limit {
        periods.len()
    } else {
        limit
    };
    let ghost models = forecast@;
    let mut text = String::new();
    let mut i: usize = 0;
    while i < shown
        invariant
            i <= shown <= periods.len(),
            models.len() == periods.len(),
            forall|j: int| 0 <= j < periods.len() ==> models[j] == (#[trigger] periods@[j])@,
            text@ == periods_text(models.take(i as int), policy.fields),
        decreases shown - i,
    {
        let block = render_period(&periods[i], policy.fields);
        assert(models.take(i as int + 1).drop_last() =~= models.take(i as int));
        assert(models.take(i as int + 1).last() == periods@[i as int]@);
        text.append(block.as_str());
        i += 1;
    }
    assert(models.take(shown as int) =~= selection(models, policy.count));
    Ok(text)
}

/// Under the first-three policy a forecast of three or more periods shows
/// the first three, in the order they were given, and nothing of the later ones.
pub proof fn lemma_first_three_shown(periods: Seq<PeriodModel>, fields: FieldSet)
    requires
        periods.len() >= 3,
    ensures
        presentation(periods, DisplayPolicy { count: PeriodCount::FirstThree, fields }) == Ok::<
            Seq<char>,
            ErrorModel,
        >(
            period_text(periods[0], fields) + period_text(periods[1], fields) + period_text(
                periods[2],
                fields,
            ),
        ),
{
    let shown = selection(periods, PeriodCount::FirstThree);
    assert(shown =~= seq![periods[0], periods[1], periods[2]]);
    lemma_text_of_three(periods[0], periods[1], periods[2], fields);
}

/// Under the first-period policy a forecast with periods shows the first one
/// and nothing else.
pub proof fn lemma_first_one_shown(periods: Seq<PeriodModel>, fields: FieldSet)
    requires
        periods.len() >= 1,
    ensures
        presentation(periods, DisplayPolicy { count: PeriodCount::First, fields }) == Ok::<
            Seq<char>,
            ErrorModel,
        >(period_text(periods[0], fields)),
{
    let shown = selection(periods, PeriodCount::First);
    assert(shown =~= seq![periods[0]]);
    lemma_text_of_one(periods[0], fields);
}

/// Periods past the limit never change what is shown: two forecasts that
/// agree on their selected periods are presented alike.
pub proof fn lemma_later_periods_unseen(
    first: Seq<PeriodModel>,
    second: Seq<PeriodModel>,
    policy: DisplayPolicy,
)
    requires
        first.len() >= policy.count.limit(),
        second.len() >= policy.count.limit(),
        first.take(policy.count.limit() as int) == second.take(policy.count.limit() as int),
    ensures
        presentation(first, policy) == presentation(second, policy),
{
    assert(selection(first, policy.count) =~= first.take(policy.count.limit() as int));
    assert(selection(second, policy.count) =~= second.take(policy.count.limit() as int));
}

/// A forecast without periods is never presented.
pub proof fn lemma_empty_forecast_fails(policy: DisplayPolicy)
    ensures
        presentation(Seq::<PeriodModel>::empty(), policy) == Err::<Seq<char>, ErrorModel>(
            ErrorModel::EmptyResult,
        ),
{
}

proof fn lemma_text_of_one(a: PeriodModel, fields: FieldSet)
    ensures
        periods_text(seq![a], fields) == period_text(a, fields),
{
    let one = seq![a];
    let none = Seq::<PeriodModel>::empty();
    assert(one.drop_last() =~= none);
    assert(periods_text(none, fields) =~= Seq::<char>::empty());
    assert(periods_text(one, fields) == periods_text(none, fields) + period_text(a, fields));
    assert(Seq::<char>::empty() + period_text(a, fields) =~= period_text(a, fields));
}

proof fn lemma_text_of_three(a: PeriodModel, b: PeriodModel, c: PeriodModel, fields: FieldSet)
    ensures
        periods_text(seq![a, b, c], fields) == period_text(a, fields) + period_text(b, fields)
            + period_text(c, fields),
{
    let three = seq![a, b, c];
    let two = seq![a, b];
    let one = seq![a];
    assert(three.drop_last() =~= two);
    assert(two.drop_last() =~= one);
    lemma_text_of_one(a, fields);
    assert(periods_text(two, fields) == periods_text(one, fields) + period_text(b, fields));
    assert(periods_text(three, fields) == periods_text(two, fields) + period_text(c, fields));
}

} // verus!
