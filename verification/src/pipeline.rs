//! The lookup as a state machine.
//!
//! A lookup passes through four states in a fixed order: resolve the
//! arguments, fetch the point, fetch the forecast, present. The machine
//! decides; its driver performs each action and reports what came of it as
//! the next event. Any failure ends the lookup at once.

use crate::config::{
    chosen, lemma_user_agent_required, resolution, resolve, Inputs, InputsModel, Settings,
    SettingsModel,
};
use crate::document::{
    forecast_of, point_of, Body, BodyModel, ForecastDocument, PeriodModel, PointModel,
    PointResource,
};
use crate::endpoint::{
    forecast_url, forecast_url_text, lemma_forecast_url_extends_link, lemma_query_names_units,
    point_url, point_url_text, Request, RequestModel,
};
use crate::error::{DecodeFault, DecodeFaultModel, ErrorModel, ForecastError, JsonPath, Stage};
use crate::present::{periods_text, presentation, render, selection, DisplayPolicy};
use crate::units::{token_meaning, UnitSystem};
use vstd::prelude::*;

verus! {

/// The state of a lookup.
#[derive(Clone, Debug, PartialEq, Eq)]
pub enum Pipeline {
    /// Nothing has happened yet; the arguments are awaited.
    ResolveArgs { display: DisplayPolicy },
    /// The point request is under way; its response is awaited.
    FetchPoint { settings: Settings, display: DisplayPolicy },
    /// The forecast request is under way; its response is awaited.
    FetchForecast { settings: Settings, display: DisplayPolicy },
    /// The forecast text has been handed out. Nothing more is awaited.
    Present,
    /// The lookup has failed. Nothing more is awaited.
    Failed,
}

/// What the driver reports to the machine.
#[derive(Clone, Debug, PartialEq, Eq)]
pub enum Event {
    /// The values found on the command line and in the environment.
    Arguments { flags: Inputs, env: Inputs },
    /// The request completed and its body decoded.
    Response(Body),
    /// The request did not complete; `cause` is the transport's report.
    TransportFailure { cause: String },
    /// The request completed but its body did not decode; `cause` is the
    /// decoder's report.
    DecodeFailure { cause: String },
}

/// What the machine asks of the driver.
#[derive(Clone, Debug, PartialEq, Eq)]
pub enum Action {
    /// Send this request and report the outcome.
    Get(Request),
    /// Write this text to standard output and end with success.
    Print(String),
    /// Write this error to standard error and end with failure.
    Fail(ForecastError),
    /// Nothing to do: the event was not awaited.
    Idle,
}

/// Mathematical model of a [`Pipeline`].
pub enum PipelineModel {
    ResolveArgs { display: DisplayPolicy },
    FetchPoint { settings: SettingsModel, display: DisplayPolicy },
    FetchForecast { settings: SettingsModel, display: DisplayPolicy },
    Present,
    Failed,
}

/// Mathematical model of an [`Event`].
pub enum EventModel {
    Arguments { flags: InputsModel, env: InputsModel },
    Response(BodyModel),
    TransportFailure { cause: Seq<char> },
    DecodeFailure { cause: Seq<char> },
}

/// Mathematical model of an [`Action`].
pub enum ActionModel {
    Get(RequestModel),
    Print(Seq<char>),
    Fail(ErrorModel),
    Idle,
}

impl View for Pipeline {
    type V = PipelineModel;

    open spec fn view(&self) -> PipelineModel {
        match self {
            Pipeline::ResolveArgs { display } => PipelineModel::ResolveArgs { display: *display },
            Pipeline::FetchPoint { settings, display } => PipelineModel::FetchPoint {
                settings: settings@,
                display: *display,
            },
            Pipeline::FetchForecast { settings, display } => PipelineModel::FetchForecast {
                settings: settings@,
                display: *display,
            },
            Pipeline::Present => PipelineModel::Present,
            Pipeline::Failed => PipelineModel::Failed,
        }
    }
}

impl View for Event {
    type V = EventModel;

    open spec fn view(&self) -> EventModel {
        match self {
            Event::Arguments { flags, env } => EventModel::Arguments { flags: flags@, env: env@ },
            Event::Response(body) => EventModel::Response(body@),
            Event::TransportFailure { cause } => EventModel::TransportFailure { cause: cause@ },
            Event::DecodeFailure { cause } => EventModel::DecodeFailure { cause: cause@ },
        }
    }
}

impl View for Action {
    type V = ActionModel;

    open spec fn view(&self) -> ActionModel {
        match self {
            Action::Get(request) => ActionModel::Get(request@),
            Action::Print(text) => ActionModel::Print(text@),
            Action::Fail(error) => ActionModel::Fail(error@),
            Action::Idle => ActionModel::Idle,
        }
    }
}

/// The request that opens a lookup: the point resource of the coordinates.
pub open spec fn point_request(settings: SettingsModel) -> RequestModel {
    RequestModel {
        url: point_url_text(settings.latitude, settings.longitude),
        user_agent: settings.user_agent,
    }
}

/// The request that follows a point response: the forecast behind `link`, in
/// the configured unit system.
pub open spec fn forecast_request(settings: SettingsModel, link: Seq<char>) -> RequestModel {
    RequestModel {
        url: forecast_url_text(link, Some(settings.units)),
        user_agent: settings.user_agent,
    }
}

/// The end of a lookup that has failed with `error`.
pub open spec fn failure(error: ErrorModel) -> (PipelineModel, ActionModel) {
    (PipelineModel::Failed, ActionModel::Fail(error))
}

/// What becomes of the arguments: the point request, or a configuration error.
pub open spec fn on_arguments(display: DisplayPolicy, flags: InputsModel, env: InputsModel) -> (
    PipelineModel,
    ActionModel,
) {
    match resolution(flags, env) {
        Ok(settings) => (
            PipelineModel::FetchPoint { settings, display },
            ActionModel::Get(point_request(settings)),
        ),
        Err(error) => failure(error),
    }
}

/// What becomes of a point body: the forecast request, or a decode error.
pub open spec fn on_point(
    settings: SettingsModel,
    display: DisplayPolicy,
    body: BodyModel,
) -> (PipelineModel, ActionModel) {
    match point_of(body) {
        Ok(point) => (
            PipelineModel::FetchForecast { settings, display },
            ActionModel::Get(forecast_request(settings, point.forecast)),
        ),
        Err(path) => failure(
            ErrorModel::Decode { stage: Stage::Point, fault: DecodeFaultModel::Missing { path } },
        ),
    }
}

/// What becomes of a forecast body: the text to print, a decode error, or
/// the error of a forecast without periods.
pub open spec fn on_forecast(display: DisplayPolicy, body: BodyModel) -> (
    PipelineModel,
    ActionModel,
) {
    match forecast_of(body) {
        Ok(periods) => match presentation(periods, display) {
            Ok(text) => (PipelineModel::Present, ActionModel::Print(text)),
            Err(error) => failure(error),
        },
        Err(path) => failure(
            ErrorModel::Decode {
                stage: Stage::Forecast,
                fault: DecodeFaultModel::Missing { path },
            },
        ),
    }
}

/// The end of a lookup whose request of `stage` did not complete.
pub open spec fn on_transport_failure(stage: Stage, cause: Seq<char>) -> (
    PipelineModel,
    ActionModel,
) {
    failure(ErrorModel::Network { stage, cause })
}

/// The end of a lookup whose response of `stage` did not decode.
pub open spec fn on_decode_failure(stage: Stage, cause: Seq<char>) -> (
    PipelineModel,
    ActionModel,
) {
    failure(ErrorModel::Decode { stage, fault: DecodeFaultModel::Malformed { cause } })
}

/// The next state of a lookup and the action to perform, given its state and
/// the event reported. An event that the state does not await changes nothing.
pub open spec fn transition(state: PipelineModel, event: EventModel) -> (
    PipelineModel,
    ActionModel,
) {
    match state {
        PipelineModel::ResolveArgs { display } => match event {
            EventModel::Arguments { flags, env } => on_arguments(display, flags, env),
            _ => (state, ActionModel::Idle),
        },
        PipelineModel::FetchPoint { settings, display } => match event {
            EventModel::Response(body) => on_point(settings, display, body),
            EventModel::TransportFailure { cause } => on_transport_failure(Stage::Point, cause),
            EventModel::DecodeFailure { cause } => on_decode_failure(Stage::Point, cause),
            EventModel::Arguments { .. } => (state, ActionModel::Idle),
        },
        PipelineModel::FetchForecast { settings, display } => match event {
            EventModel::Response(body) => on_forecast(display, body),
            EventModel::TransportFailure { cause } => on_transport_failure(Stage::Forecast, cause),
            EventModel::DecodeFailure { cause } => on_decode_failure(Stage::Forecast, cause),
            EventModel::Arguments { .. } => (state, ActionModel::Idle),
        },
        PipelineModel::Present => (state, ActionModel::Idle),
        PipelineModel::Failed => (state, ActionModel::Idle),
    }
}

/// The actions of a lookup that starts in `state` and is told `events` one
/// after the other.
pub open spec fn run(state: PipelineModel, events: Seq<EventModel>) -> Seq<ActionModel>
    decreases events.len(),
{
    if events.len() == 0 {
        Seq::empty()
    } else {
        let (next, action) = transition(state, events[0]);
        seq![action] + run(next, events.drop_first())
    }
}

/// How far a lookup has come.
pub open spec fn progress(state: PipelineModel) -> nat {
    match state {
        PipelineModel::ResolveArgs { .. } => 0,
        PipelineModel::FetchPoint { .. } => 1,
        PipelineModel::FetchForecast { .. } => 2,
        PipelineModel::Present => 3,
        PipelineModel::Failed => 3,
    }
}

fn fail(error: ForecastError) -> (next: (Pipeline, Action))
    ensures
        (next.0@, next.1@) == failure(error@),
{
    (Pipeline::Failed, Action::Fail(error))
}

fn fail_transport(stage: Stage, cause: String) -> (next: (Pipeline, Action))
    ensures
        (next.0@, next.1@) == on_transport_failure(stage, cause@),
{
    fail(ForecastError::Network { stage, cause })
}

fn fail_decode(stage: Stage, cause: String) -> (next: (Pipeline, Action))
    ensures
        (next.0@, next.1@) == on_decode_failure(stage, cause@),
{
    fail(ForecastError::Decode { stage, fault: DecodeFault::Malformed { cause } })
}

impl Pipeline {
    /// A lookup that has not begun.
    pub fn new(display: DisplayPolicy) -> (pipeline: Pipeline)
        ensures
            pipeline@ == (PipelineModel::ResolveArgs { display }),
    {
        Pipeline::ResolveArgs { display }
    }

    /// True once the lookup has ended, in success or in failure.
    pub fn is_finished(&self) -> (finished: bool)
        ensures
            finished == (self@ is Present || self@ is Failed),
    {
        match self {
            Pipeline::Present => true,
            Pipeline::Failed => true,
            _ => false,
        }
    }

    /// Takes the lookup one step further: consumes the event that the driver
    /// reports and returns the next state with the action to perform.
    pub fn step(self, event: Event) -> (next: (Pipeline, Action))
        ensures
            (next.0@, next.1@) == transition(self@, event@),
    {
        match self {
            Pipeline::ResolveArgs { display } => match event {
                Event::Arguments { flags, env } => match resolve(&flags, &env) {
                    Ok(settings) => {
                        let request = Request {
                            url: point_url(settings.latitude.as_str(), settings.longitude.as_str()),
                            user_agent: settings.user_agent.clone(),
                        };
                        (Pipeline::FetchPoint { settings, display }, Action::Get(request))
                    },
                    Err(error) => fail(error),
                },
                _ => (Pipeline::ResolveArgs { display }, Action::Idle),
            },
            Pipeline::FetchPoint { settings, display } => match event {
                Event::Response(body) => match PointResource::from_body(&body) {
                    Ok(point) => {
                        let request = Request {
                            url: forecast_url(point.forecast.as_str(), Some(settings.units)),
                            user_agent: settings.user_agent.clone(),
                        };
                        (Pipeline::FetchForecast { settings, display }, Action::Get(request))
                    },
                    Err(path) => fail(
                        ForecastError::Decode {
                            stage: Stage::Point,
                            fault: DecodeFault::Missing { path },
                        },
                    ),
                },
                Event::TransportFailure { cause } => fail_transport(Stage::Point, cause),
                Event::DecodeFailure { cause } => fail_decode(Stage::Point, cause),
                Event::Arguments { .. } => (
                    Pipeline::FetchPoint { settings, display },
                    Action::Idle,
                ),
            },
            Pipeline::FetchForecast { settings, display } => match event {
                Event::Response(body) => match ForecastDocument::from_body(&body) {
                    Ok(forecast) => match render(&forecast, display) {
                        Ok(text) => (Pipeline::Present, Action::Print(text)),
                        Err(error) => fail(error),
                    },
                    Err(path) => fail(
                        ForecastError::Decode {
                            stage: Stage::Forecast,
                            fault: DecodeFault::Missing { path },
                        },
                    ),
                },
                Event::TransportFailure { cause } => fail_transport(Stage::Forecast, cause),
                Event::DecodeFailure { cause } => fail_decode(Stage::Forecast, cause),
                Event::Arguments { .. } => (
                    Pipeline::FetchForecast { settings, display },
                    Action::Idle,
                ),
            },
            Pipeline::Present => (Pipeline::Present, Action::Idle),
            Pipeline::Failed => (Pipeline::Failed, Action::Idle),
        }
    }
}

/// A lookup never goes back. Every step either leaves the state as it is and
/// asks for nothing, or moves the lookup forward; a failure or a printed
/// forecast ends it, and a request is only made on the way to the state that
/// awaits its response.
pub proof fn lemma_lookup_only_advances(state: PipelineModel, event: EventModel)
    ensures
        ({
            let (next, action) = transition(state, event);
            &&& action is Idle ==> next == state
            &&& !(action is Idle) ==> progress(next) > progress(state)
            &&& action is Fail <==> next is Failed && !(state is Failed)
            &&& action is Print <==> next is Present && !(state is Present)
            &&& action is Get <==> (next is FetchPoint && state is ResolveArgs) || (next
                is FetchForecast && state is FetchPoint)
        }),
{
}

/// The only requests of a lookup are the point request, made once the
/// arguments are resolved, and the forecast request, made once the point body
/// has given its link. Both carry the configured user agent.
pub proof fn lemma_requests_made(state: PipelineModel, event: EventModel)
    requires
        transition(state, event).1 is Get,
    ensures
        ({
            let (next, action) = transition(state, event);
            let request = action->Get_0;
            match state {
                PipelineModel::ResolveArgs { display } => {
                    &&& event matches EventModel::Arguments { flags, env }
                    &&& resolution(flags, env) matches Ok(settings)
                    &&& next == (PipelineModel::FetchPoint { settings, display })
                    &&& request == point_request(settings)
                },
                PipelineModel::FetchPoint { settings, display } => {
                    &&& event matches EventModel::Response(body)
                    &&& point_of(body) matches Ok(point)
                    &&& next == (PipelineModel::FetchForecast { settings, display })
                    &&& request == forecast_request(settings, point.forecast)
                },
                _ => false,
            }
        }),
{
}

/// Forecast text is printed only once both exchanges have succeeded: in
/// answer to a forecast body that yields at least one period, and then it is
/// the presentation of those periods.
pub proof fn lemma_text_printed(state: PipelineModel, event: EventModel)
    requires
        transition(state, event).1 is Print,
    ensures
        ({
            let text = transition(state, event).1->Print_0;
            &&& state matches PipelineModel::FetchForecast { settings, display }
            &&& event matches EventModel::Response(body)
            &&& forecast_of(body) matches Ok(periods)
            &&& periods.len() > 0
            &&& presentation(periods, display) == Ok::<Seq<char>, ErrorModel>(text)
        }),
{
}

/// Once the point body has given a forecast link, the next action is a single
/// request to that link, extended by the configured units and sent with the
/// configured user agent.
pub proof fn lemma_forecast_follows_point(
    settings: SettingsModel,
    display: DisplayPolicy,
    body: BodyModel,
    link: Seq<char>,
)
    requires
        point_of(body) == Ok::<PointModel, JsonPath>(PointModel { forecast: link }),
    ensures
        transition(PipelineModel::FetchPoint { settings, display }, EventModel::Response(body)) == (
            PipelineModel::FetchForecast { settings, display },
            ActionModel::Get(
                RequestModel {
                    url: forecast_url_text(link, Some(settings.units)),
                    user_agent: settings.user_agent,
                },
            ),
        ),
        link.is_prefix_of(forecast_url_text(link, Some(settings.units))),
{
    lemma_forecast_url_extends_link(link, Some(settings.units));
}

/// After the forecast request no further request is made, whatever is
/// reported afterwards.
pub proof fn lemma_no_request_after_forecast(state: PipelineModel, events: Seq<EventModel>)
    requires
        progress(state) >= 2,
    ensures
        forall|i: int| 0 <= i < run(state, events).len() ==> !(#[trigger] run(state, events)[i]
            is Get),
    decreases events.len(),
{
    if events.len() > 0 {
        let (next, action) = transition(state, events[0]);
        lemma_lookup_only_advances(state, events[0]);
        lemma_no_request_after_forecast(next, events.drop_first());
    }
}

/// A lookup that has ended asks for nothing more.
pub proof fn lemma_finished_stays_idle(state: PipelineModel, events: Seq<EventModel>)
    requires
        state is Present || state is Failed,
    ensures
        run(state, events).len() == events.len(),
        forall|i: int| 0 <= i < events.len() ==> #[trigger] run(state, events)[i] is Idle,
    decreases events.len(),
{
    if events.len() > 0 {
        lemma_finished_stays_idle(state, events.drop_first());
    }
}

/// A forecast body without periods ends the lookup in failure: no text is
/// printed then, nor at any later step.
pub proof fn lemma_empty_forecast_prints_nothing(
    settings: SettingsModel,
    display: DisplayPolicy,
    body: BodyModel,
    later: Seq<EventModel>,
)
    requires
        forecast_of(body) == Ok::<Seq<PeriodModel>, JsonPath>(Seq::empty()),
    ensures
        transition(PipelineModel::FetchForecast { settings, display }, EventModel::Response(body))
            == failure(ErrorModel::EmptyResult),
        forall|i: int|
            0 <= i < later.len() ==> #[trigger] run(PipelineModel::Failed, later)[i] is Idle,
{
    lemma_finished_stays_idle(PipelineModel::Failed, later);
}

/// Without a user agent from the command line or the environment the lookup
/// fails with a configuration error, and no request is made then or later.
pub proof fn lemma_no_request_without_user_agent(
    display: DisplayPolicy,
    flags: InputsModel,
    env: InputsModel,
    later: Seq<EventModel>,
)
    requires
        flags.user_agent is None,
        env.user_agent is None,
    ensures
        ({
            let (next, action) = transition(
                PipelineModel::ResolveArgs { display },
                EventModel::Arguments { flags, env },
            );
            &&& next is Failed
            &&& action matches ActionModel::Fail(ErrorModel::Configuration { .. })
            &&& forall|i: int| 0 <= i < later.len() ==> #[trigger] run(next, later)[i] is Idle
        }),
{
    lemma_user_agent_required(flags, env);
    lemma_finished_stays_idle(PipelineModel::Failed, later);
}

/// The unit token that counts decides the query of the forecast request: a
/// token that names the metric system, such as `si`, gives `units=si`; one
/// that names the imperial system, such as `us`, or no token at all, gives
/// `units=us`.
pub proof fn lemma_units_reach_query(flags: InputsModel, env: InputsModel, link: Seq<char>)
    requires
        resolution(flags, env) is Ok,
    ensures
        ({
            let settings = resolution(flags, env)->Ok_0;
            let token = chosen(flags.units, env.units);
            let url = forecast_request(settings, link).url;
            match token {
                Some(t) => {
                    &&& token_meaning(t) == Some(UnitSystem::Metric) ==> url == link + "?"@
                        + "units=si"@
                    &&& token_meaning(t) == Some(UnitSystem::Imperial) ==> url == link + "?"@
                        + "units=us"@
                },
                None => url == link + "?"@ + "units=us"@,
            }
        }),
        token_meaning("si"@) == Some(UnitSystem::Metric),
        token_meaning("us"@) == Some(UnitSystem::Imperial),
{
    reveal_strlit("si");
    reveal_strlit("us");
    lemma_query_names_units(link);
}

/// A lookup whose arguments resolve, whose point body gives a link and whose
/// forecast body yields periods performs exactly three actions: the point
/// request, the forecast request, and the printing of the forecast text.
pub proof fn lemma_successful_lookup(
    display: DisplayPolicy,
    flags: InputsModel,
    env: InputsModel,
    point: BodyModel,
    forecast: BodyModel,
)
    requires
        resolution(flags, env) is Ok,
        point_of(point) is Ok,
        forecast_of(forecast) matches Ok(periods) && periods.len() > 0,
    ensures
        ({
            let settings = resolution(flags, env)->Ok_0;
            let link = point_of(point)->Ok_0.forecast;
            let periods = forecast_of(forecast)->Ok_0;
            let events = seq![
                EventModel::Arguments { flags, env },
                EventModel::Response(point),
                EventModel::Response(forecast),
            ];
            run(PipelineModel::ResolveArgs { display }, events) == seq![
                ActionModel::Get(point_request(settings)),
                ActionModel::Get(forecast_request(settings, link)),
                ActionModel::Print(periods_text(selection(periods, display.count), display.fields)),
            ]
        }),
{
    let settings = resolution(flags, env)->Ok_0;
    let first = EventModel::Arguments { flags, env };
    let second = EventModel::Response(point);
    let third = EventModel::Response(forecast);
    let events = seq![first, second, third];
    let start = PipelineModel::ResolveArgs { display };
    let at_point = PipelineModel::FetchPoint { settings, display };
    let at_forecast = PipelineModel::FetchForecast { settings, display };
    assert(events.drop_first() =~= seq![second, third]);
    assert(seq![second, third].drop_first() =~= seq![third]);
    assert(seq![third].drop_first() =~= Seq::<EventModel>::empty());
    assert(run(PipelineModel::Present, Seq::<EventModel>::empty()) =~= Seq::<ActionModel>::empty());
    assert(run(at_forecast, seq![third]) =~= seq![transition(at_forecast, third).1]);
    assert(run(at_point, seq![second, third]) =~= seq![
        transition(at_point, second).1,
        transition(at_forecast, third).1,
    ]);
    assert(run(start, events) =~= seq![
        transition(start, first).1,
        transition(at_point, second).1,
        transition(at_forecast, third).1,
    ]);
}

} // verus!
