//! The monitoring API's power-flow snapshot model, the request URL, and the
//! classification of a fetch attempt's outcome.
//!
//! Power readings are carried as signed integers counting thousandths of the
//! API's unit, so a reading of 3.17 kW is stored as 3170.

use vstd::prelude::*;
use vstd::string::*;

verus! {

/// Largest magnitude a power reading may take, in thousandths of the unit.
/// Far beyond any physical reading; keeps every derived difference
/// representable.
pub const MAX_ABS_POWER_MILLI: i64 = 1_000_000_000_000;

/// One network node's power reading.
#[derive(Default, Debug, Clone, PartialEq)]
pub struct Item {
    pub status: String,
    /// Power in thousandths of the snapshot's unit.
    pub current_power: i64,
}

impl Item {
    /// The reading is within the representable measurement range.
    pub open spec fn well_formed(self) -> bool {
        -MAX_ABS_POWER_MILLI <= self.current_power <= MAX_ABS_POWER_MILLI
    }

    /// Decides whether the reading is within the representable range.
    pub fn check_well_formed(&self) -> (b: bool)
        ensures
            b == self.well_formed(),
    {
        -MAX_ABS_POWER_MILLI <= self.current_power && self.current_power <= MAX_ABS_POWER_MILLI
    }
}

/// A logical wiring edge in the power graph; informational only.
#[derive(Default, Debug, Clone, PartialEq)]
pub struct Connection {
    pub from: String,
    pub to: String,
}

/// One polling sample from the remote monitoring API.
#[derive(Default, Debug, Clone, PartialEq)]
pub struct SiteCurrentPowerFlow {
    pub update_refresh_rate: i64,
    pub unit: String,
    pub connections: Vec<Connection>,
    pub grid: Item,
    pub load: Item,
    pub pv: Item,
}

impl SiteCurrentPowerFlow {
    /// Every reading is within the representable measurement range.
    pub open spec fn well_formed(self) -> bool {
        self.grid.well_formed() && self.load.well_formed() && self.pv.well_formed()
    }

    /// Decides whether every reading is within the representable range.
    pub fn check_well_formed(&self) -> (b: bool)
        ensures
            b == self.well_formed(),
    {
        self.grid.check_well_formed() && self.load.check_well_formed()
            && self.pv.check_well_formed()
    }
}

/// The top-level document the monitoring API returns.
#[derive(Default, Debug, Clone, PartialEq)]
pub struct Root {
    pub site_current_power_flow: SiteCurrentPowerFlow,
}

/// Why a fetch attempt yielded no snapshot.
#[derive(Debug, Clone, Copy, PartialEq, Eq, Structural)]
pub enum FetchError {
    /// Transport-level failure or an unexpected HTTP status.
    NetworkError,
    /// The API key was rejected for this site.
    AuthError,
    /// The response body could not be decoded as a snapshot.
    DecodeError,
}

impl FetchError {
    /// A human-readable description of the failure.
    pub fn message(&self) -> (r: String)
        ensures
            *self is NetworkError ==> r@ == "Fail to fetch data from monitoringapi.solaredge.com"@,
            *self is AuthError ==> r@ == "Api key rejected for this site"@,
            *self is DecodeError ==> r@ == "monitoringapi.solaredge.com cannot be decoded"@,
    {
        match self {
            FetchError::NetworkError => String::from_str(
                "Fail to fetch data from monitoringapi.solaredge.com",
            ),
            FetchError::AuthError => String::from_str("Api key rejected for this site"),
            FetchError::DecodeError => String::from_str(
                "monitoringapi.solaredge.com cannot be decoded",
            ),
        }
    }
}

/// The request URL for a site's current power flow.
pub open spec fn spec_monitoring_url(site_id: Seq<char>, api_key: Seq<char>) -> Seq<char> {
    "https://monitoringapi.solaredge.com/site/"@ + site_id + "/currentPowerFlow?api_key="@
        + api_key
}

/// Builds the monitoring API request URL for one site.
pub fn generate_monitoring_url(site_id: &str, api_key: &str) -> (r: String)
    ensures
        r@ == spec_monitoring_url(site_id@, api_key@),
{
    let mut out = String::from_str("https://monitoringapi.solaredge.com/site/");
    out.append(site_id);
    out.append("/currentPowerFlow?api_key=");
    out.append(api_key);
    proof {
        assert(out@ =~= spec_monitoring_url(site_id@, api_key@));
    }
    out
}

/// What a fetch attempt yields, as a function of the HTTP status and of
/// whether the body decoded into a snapshot document: status 200 with a
/// decoded body succeeds; 200 with an undecodable body is a decode failure;
/// 401 is an authentication failure; anything else is a network failure.
pub open spec fn fetch_outcome(status: int, decoded: Option<Root>) -> Result<
    SiteCurrentPowerFlow,
    FetchError,
> {
    if status == 200 {
        match decoded {
            Some(root) => Ok(root.site_current_power_flow),
            None => Err(FetchError::DecodeError),
        }
    } else if status == 401 {
        Err(FetchError::AuthError)
    } else {
        Err(FetchError::NetworkError)
    }
}

/// Classifies one fetch attempt: the HTTP status of the response and the
/// decoded body, if it decoded, determine the snapshot or the error.
pub fn interpret_fetch_response(status: u16, decoded: Option<Root>) -> (r: Result<
    SiteCurrentPowerFlow,
    FetchError,
>)
    ensures
        r == fetch_outcome(status as int, decoded),
{
    if status == 200 {
        match decoded {
            Some(root) => Ok(root.site_current_power_flow),
            None => Err(FetchError::DecodeError),
        }
    } else if status == 401 {
        Err(FetchError::AuthError)
    } else {
        Err(FetchError::NetworkError)
    }
}

} // verus!
