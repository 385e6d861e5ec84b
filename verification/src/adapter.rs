//! The format adapters and their dispatcher.

use crate::error::FormatError;
use crate::gateway::{gateway_snapshot, parse_ruuvi_gateway_format};
use crate::model::{ReadingView, Snapshot};
use crate::passthrough::{parse_custom_ruuvi_api_format, passthrough_snapshot};
use serde_json::Value;
use vstd::prelude::*;

verus! {

/// One upstream shape, and the way to normalise it.
#[derive(Clone, Copy, Debug, PartialEq, Eq, Structural)]
pub enum Adapter {
    /// The payload already has the canonical shape.
    Passthrough,
    /// The payload nests raw readings under hardware identifiers.
    GatewayHistory,
}

/// The adapter that a backend identifier names. `gateway-history` names the
/// gateway adapter; `passthrough` and every other identifier name the
/// passthrough adapter, which is the default.
pub open spec fn adapter_for(backend_id: Seq<char>) -> Adapter {
    if backend_id == "gateway-history"@ {
        Adapter::GatewayHistory
    } else {
        Adapter::Passthrough
    }
}

/// What an adapter makes of a payload.
pub open spec fn normalized(adapter: Adapter, payload: Value, now: i64) -> Result<
    Seq<ReadingView>,
    FormatError,
> {
    match adapter {
        Adapter::Passthrough => passthrough_snapshot(payload),
        Adapter::GatewayHistory => gateway_snapshot(payload, now),
    }
}

/// Whether an outcome is what the adapter makes of the payload.
pub open spec fn normalizes_to(
    adapter: Adapter,
    payload: Value,
    now: i64,
    outcome: Result<Snapshot, FormatError>,
) -> bool {
    match normalized(adapter, payload, now) {
        Ok(readings) => outcome is Ok && outcome.unwrap()@ == readings,
        Err(error) => outcome == Err::<Snapshot, FormatError>(error),
    }
}

/// Selects the adapter for a configured backend identifier. An identifier
/// that is not recognised selects the passthrough adapter.
pub fn select_adapter(backend_id: &str) -> (adapter: Adapter)
    ensures
        adapter == adapter_for(backend_id@),
{
    if backend_id.to_owned() == "gateway-history".to_owned() {
        Adapter::GatewayHistory
    } else {
        Adapter::Passthrough
    }
}

impl Adapter {
    /// Normalises a decoded payload. `now` is read only where the payload
    /// leaves a timestamp out.
    pub fn normalize(&self, payload: &Value, now: i64) -> (outcome: Result<Snapshot, FormatError>)
        ensures
            normalizes_to(*self, *payload, now, outcome),
    {
        match self {
            Adapter::Passthrough => parse_custom_ruuvi_api_format(payload),
            Adapter::GatewayHistory => parse_ruuvi_gateway_format(payload, now),
        }
    }
}

/// The identifier `gateway-history` selects the gateway adapter.
pub proof fn lemma_gateway_selected()
    ensures
        adapter_for("gateway-history"@) == Adapter::GatewayHistory,
{
}

/// The identifier `passthrough` selects the passthrough adapter, and so does
/// an identifier that names no adapter, such as `nonsense`.
pub proof fn lemma_default_selected()
    ensures
        adapter_for("passthrough"@) == Adapter::Passthrough,
        adapter_for("nonsense"@) == Adapter::Passthrough,
        forall|backend_id: Seq<char>|
            backend_id != "gateway-history"@ ==> #[trigger] adapter_for(backend_id)
                == Adapter::Passthrough,
{
    reveal_strlit("gateway-history");
    reveal_strlit("passthrough");
    reveal_strlit("nonsense");
    assert("gateway-history"@.len() == 15);
    assert("passthrough"@.len() == 11);
    assert("nonsense"@.len() == 8);
}

/// Normalising one payload twice gives equal outcomes: both fail alike, or
/// both give snapshots of the same readings.
pub proof fn lemma_normalize_idempotent(
    adapter: Adapter,
    payload: Value,
    now: i64,
    first: Result<Snapshot, FormatError>,
    second: Result<Snapshot, FormatError>,
)
    requires
        normalizes_to(adapter, payload, now, first),
        normalizes_to(adapter, payload, now, second),
    ensures
        first is Ok <==> second is Ok,
        first is Ok ==> first.unwrap()@ == second.unwrap()@,
        first is Err ==> first == second,
{
}

} // verus!
