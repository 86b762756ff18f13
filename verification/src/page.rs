//! Page state machine: the single mutable state of the page, the event
//! handler that drives it, and the pure render function of its state.
//!
//! The page passes through `Initial -> AwaitingLocation ->
//! { AwaitingStation -> { Resolved | QueryFailed } } | LocationFailed`.
//! `Resolved`, `QueryFailed` and `LocationFailed` are terminal: no event
//! moves the page out of them short of a fresh mount. The host shell owns
//! the asynchronous work; the machine only tells it, through the value
//! returned by [`Home::update`], which query to issue.

use vstd::prelude::*;

use crate::geolocation::LocationError;
use crate::query::NearbyStations;
use crate::query::QueryResponse;
use crate::query::StationQueryResult;
use crate::query::TransportError;
use crate::query::spec_first_station;
use crate::query::first_station;

verus! {

/// Where the page stands in its lifecycle.
#[derive(Clone, Copy, Debug, PartialEq, Eq, Structural)]
pub enum PageState {
    /// Mounted, first render not done yet.
    Initial,
    /// The geolocation request is out; no answer yet.
    AwaitingLocation,
    /// A position came in and the station query is in flight.
    AwaitingStation,
    /// The query answered; a station result (possibly empty) is held.
    Resolved,
    /// The query failed; terminal.
    QueryFailed,
    /// Geolocation failed; terminal. The query was never issued.
    LocationFailed,
}

/// An error the page holds on a failed path: either the geolocation
/// adapter's reason or the query client's single transport error. Both
/// land in the same slot of the state and render identically.
#[derive(Clone, Copy, Debug, PartialEq, Eq, Structural)]
pub enum PageError {
    Location(LocationError),
    Transport(TransportError),
}

/// An event delivered to the page. Each comes from one of the two
/// asynchronous collaborators: the geolocation adapter or the station
/// query client.
#[derive(Debug)]
pub enum HomeMsg {
    /// The adapter got a position, in microdegrees.
    GotLocation(i64, i64),
    /// The station query's round trip finished with a decoded response.
    GotStation(Option<QueryResponse>),
    /// A failure on either path.
    GotError(PageError),
}

/// The page's whole state: lifecycle position, the error slot, the
/// resolved station result, and whether the page is still mounted. Once
/// `mounted` is false, every event is discarded untouched.
#[derive(Debug)]
pub struct Home {
    pub mounted: bool,
    pub state: PageState,
    pub location_error: Option<PageError>,
    pub station: Option<StationQueryResult>,
}

/// What one render of the page shows. Exactly one of these comes out of
/// [`Home::view`].
#[derive(Clone, Debug, PartialEq, Eq)]
pub enum RenderOutput {
    /// An error happened on either path; the page shows the generic
    /// error indicator and nothing else.
    ErrorIndicator,
    /// Nothing resolved yet; the page shows the loading indicator.
    Loading,
    /// The query resolved to a named station; the page shows the name
    /// and nothing else.
    StationName(String),
    /// The query resolved but no name came back; the page shows the
    /// explicit empty-result state.
    Empty,
}

/// The mathematical shape of a render, with the station name as a
/// sequence of characters.
pub enum RenderModel {
    Error,
    Loading,
    Name(Seq<char>),
    Empty,
}

/// The model a concrete render output denotes.
pub open spec fn render_model(r: RenderOutput) -> RenderModel {
    match r {
        RenderOutput::ErrorIndicator => RenderModel::Error,
        RenderOutput::Loading => RenderModel::Loading,
        RenderOutput::StationName(name) => RenderModel::Name(name@),
        RenderOutput::Empty => RenderModel::Empty,
    }
}

/// The render a state calls for: the error indicator as soon as the error
/// slot is filled; the loading indicator while no station result is held;
/// otherwise the station's name, or the empty state when the result
/// carries none.
pub open spec fn spec_view(h: Home) -> RenderModel {
    if h.location_error is Some {
        RenderModel::Error
    } else {
        match h.station {
            Option::None => RenderModel::Loading,
            Option::Some(sr) => match sr.name {
                Option::None => RenderModel::Empty,
                Option::Some(name) => RenderModel::Name(name@),
            },
        }
    }
}

/// The state a freshly mounted page starts in.
pub open spec fn spec_initial() -> Home {
    Home { mounted: true, state: PageState::Initial, location_error: None, station: None }
}

/// The state after the page is torn down: only the mounted flag drops.
pub open spec fn spec_destroyed(h: Home) -> Home {
    Home { mounted: false, state: h.state, location_error: h.location_error, station: h.station }
}

/// The full transition function: from a state and an event to the next
/// state, whether the page must re-render, and the query to issue, if
/// any. Events that no row of the page's transition table covers — and
/// every event after the page was torn down — leave the state untouched.
pub open spec fn spec_update(h: Home, msg: HomeMsg) -> (Home, bool, Option<NearbyStations>) {
    if !h.mounted {
        (h, false, None)
    } else {
        match msg {
            HomeMsg::GotLocation(latitude_udeg, longitude_udeg) => {
                if h.state == PageState::AwaitingLocation {
                    (
                        Home {
                            mounted: h.mounted,
                            state: PageState::AwaitingStation,
                            location_error: h.location_error,
                            station: h.station,
                        },
                        false,
                        Some(NearbyStations { latitude_udeg, longitude_udeg }),
                    )
                } else {
                    (h, false, None)
                }
            },
            HomeMsg::GotStation(opt) => match opt {
                Option::Some(resp) => {
                    if h.state == PageState::AwaitingStation {
                        (
                            Home {
                                mounted: h.mounted,
                                state: PageState::Resolved,
                                location_error: h.location_error,
                                station: Some(spec_first_station(resp)),
                            },
                            true,
                            None,
                        )
                    } else {
                        (h, false, None)
                    }
                },
                Option::None => {
                    if h.state == PageState::AwaitingStation {
                        (h, true, None)
                    } else {
                        (h, false, None)
                    }
                },
            },
            HomeMsg::GotError(e) => match e {
                PageError::Location(_) => {
                    if h.state == PageState::AwaitingLocation {
                        (
                            Home {
                                mounted: h.mounted,
                                state: PageState::LocationFailed,
                                location_error: Some(e),
                                station: h.station,
                            },
                            true,
                            None,
                        )
                    } else {
                        (h, false, None)
                    }
                },
                PageError::Transport(_) => {
                    if h.state == PageState::AwaitingStation {
                        (
                            Home {
                                mounted: h.mounted,
                                state: PageState::QueryFailed,
                                location_error: Some(e),
                                station: h.station,
                            },
                            true,
                            None,
                        )
                    } else {
                        (h, false, None)
                    }
                },
            },
        }
    }
}

impl Home {
    /// The states that tie the fields down: a station result is held
    /// exactly in `Resolved`; the error slot is filled exactly in the two
    /// failure states, each with its own kind of error.
    pub open spec fn wf(self) -> bool {
        &&& self.state == PageState::Resolved <==> self.station is Some
        &&& (self.state == PageState::QueryFailed || self.state == PageState::LocationFailed)
            <==> self.location_error is Some
        &&& self.state == PageState::LocationFailed ==> (self.location_error matches Some(
            PageError::Location(_),
        ))
        &&& self.state == PageState::QueryFailed ==> (self.location_error matches Some(
            PageError::Transport(_),
        ))
    }

    /// A freshly mounted page: nothing resolved, nothing failed.
    pub fn create() -> (r: Home)
        ensures
            r == spec_initial(),
            r.wf(),
    {
        Home { mounted: true, state: PageState::Initial, location_error: None, station: None }
    }

    /// The render hook. On the first render of a mounted page the machine
    /// moves to `AwaitingLocation` and returns true: the shell must issue
    /// the geolocation request, exactly once. Every other call changes
    /// nothing and asks for nothing.
    pub fn rendered(&mut self, first_render: bool) -> (request_location: bool)
        ensures
            request_location == (first_render && old(self).mounted && old(self).state
                == PageState::Initial),
            request_location ==> *final(self) == (Home {
                state: PageState::AwaitingLocation,
                ..*old(self)
            }),
            !request_location ==> *final(self) == *old(self),
            old(self).wf() ==> final(self).wf(),
    {
        if first_render && self.mounted && matches!(self.state, PageState::Initial) {
            self.state = PageState::AwaitingLocation;
            true
        } else {
            false
        }
    }

    /// The event handler. Behaves exactly as [`spec_update`] says: it
    /// walks the transition table, stores what the event carries, and
    /// returns whether to re-render together with the query the shell
    /// must now issue, if any. A torn-down page discards everything.
    pub fn update(&mut self, msg: HomeMsg) -> (r: (bool, Option<NearbyStations>))
        ensures
            (*final(self), r.0, r.1) == spec_update(*old(self), msg),
            old(self).wf() ==> final(self).wf(),
    {
        if !self.mounted {
            return (false, None);
        }
        match msg {
            HomeMsg::GotLocation(latitude_udeg, longitude_udeg) => {
                if matches!(self.state, PageState::AwaitingLocation) {
                    self.state = PageState::AwaitingStation;
                    (false, Some(NearbyStations { latitude_udeg, longitude_udeg }))
                } else {
                    (false, None)
                }
            },
            HomeMsg::GotStation(opt) => match opt {
                Some(resp) => {
                    if matches!(self.state, PageState::AwaitingStation) {
                        self.state = PageState::Resolved;
                        self.station = Some(first_station(resp));
                        (true, None)
                    } else {
                        (false, None)
                    }
                },
                None => {
                    if matches!(self.state, PageState::AwaitingStation) {
                        (true, None)
                    } else {
                        (false, None)
                    }
                },
            },
            HomeMsg::GotError(e) => match e {
                PageError::Location(_) => {
                    if matches!(self.state, PageState::AwaitingLocation) {
                        self.state = PageState::LocationFailed;
                        self.location_error = Some(e);
                        (true, None)
                    } else {
                        (false, None)
                    }
                },
                PageError::Transport(_) => {
                    if matches!(self.state, PageState::AwaitingStation) {
                        self.state = PageState::QueryFailed;
                        self.location_error = Some(e);
                        (true, None)
                    } else {
                        (false, None)
                    }
                },
            },
        }
    }

    /// Tears the page down. Only the mounted flag changes; whatever was
    /// resolved stays as it was, and from here on [`Home::update`]
    /// discards every late event.
    pub fn destroy(&mut self)
        ensures
            *final(self) == spec_destroyed(*old(self)),
    {
        self.mounted = false;
    }

    /// The pure render function of the state, exactly as [`spec_view`]
    /// describes it.
    pub fn view(&self) -> (r: RenderOutput)
        ensures
            render_model(r) == spec_view(*self),
    {
        if self.location_error.is_some() {
            RenderOutput::ErrorIndicator
        } else {
            match &self.station {
                None => RenderOutput::Loading,
                Some(sr) => match &sr.name {
                    None => RenderOutput::Empty,
                    Some(name) => RenderOutput::StationName(name.clone()),
                },
            }
        }
    }
}

/// Law: a location failure while the page awaits the position is
/// terminal. The page moves to `LocationFailed`, asks for a re-render and
/// for no query, and from then on renders the error indicator — never the
/// loading indicator and never a station.
pub proof fn lemma_location_failure_renders_error(h: Home, err: LocationError)
    requires
        h.mounted,
        h.state == PageState::AwaitingLocation,
    ensures
        ({
            let (post, render, action) = spec_update(
                h,
                HomeMsg::GotError(PageError::Location(err)),
            );
            &&& post.state == PageState::LocationFailed
            &&& render
            &&& action is None
            &&& spec_view(post) == RenderModel::Error
        }),
{
}

/// Law: on the success path — a position, then a response naming a
/// station — the page ends `Resolved` and renders exactly that station's
/// name.
pub proof fn lemma_success_path_renders_name(
    h: Home,
    latitude_udeg: i64,
    longitude_udeg: i64,
    resp: QueryResponse,
    name: String,
)
    requires
        h.mounted,
        h.state == PageState::AwaitingLocation,
        h.location_error is None,
        crate::query::spec_first_station_name(resp) == Some(name),
    ensures
        ({
            let (mid, _, action) = spec_update(
                h,
                HomeMsg::GotLocation(latitude_udeg, longitude_udeg),
            );
            let (post, render, _) = spec_update(mid, HomeMsg::GotStation(Some(resp)));
            &&& action == Some(NearbyStations { latitude_udeg, longitude_udeg })
            &&& post.state == PageState::Resolved
            &&& render
            &&& spec_view(post) == RenderModel::Name(name@)
        }),
{
}

/// Law: a query failure after a successful position leaves the page in
/// `QueryFailed` rendering the error indicator — not the loading
/// indicator.
pub proof fn lemma_query_failure_renders_error(h: Home, latitude_udeg: i64, longitude_udeg: i64)
    requires
        h.mounted,
        h.state == PageState::AwaitingLocation,
    ensures
        ({
            let (mid, _, _) = spec_update(h, HomeMsg::GotLocation(latitude_udeg, longitude_udeg));
            let (post, render, action) = spec_update(
                mid,
                HomeMsg::GotError(PageError::Transport(TransportError)),
            );
            &&& post.state == PageState::QueryFailed
            &&& render
            &&& action is None
            &&& spec_view(post) == RenderModel::Error
            &&& spec_view(post) != RenderModel::Loading
        }),
{
}

/// Law: before anything resolved — in `Initial` or `AwaitingLocation` of
/// a well-formed page — the render is the loading indicator.
pub proof fn lemma_unresolved_renders_loading(h: Home)
    requires
        h.wf(),
        h.state == PageState::Initial || h.state == PageState::AwaitingLocation,
    ensures
        spec_view(h) == RenderModel::Loading,
{
}

/// Law: a torn-down page is inert. Whatever event is delivered after
/// `destroy` — a late query result included — the state keeps every field
/// it had, nothing re-renders, and no query is issued.
pub proof fn lemma_torn_down_page_discards_events(h: Home, msg: HomeMsg)
    ensures
        spec_update(spec_destroyed(h), msg) == (
            spec_destroyed(h),
            false,
            Option::<NearbyStations>::None,
        ),
{
}

} // verus!
