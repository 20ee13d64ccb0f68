//! Derived directional power flows and their publishable JSON payload.

use crate::numfmt::milli_str;
use crate::numfmt::milli_to_string;
use crate::solaredge::MAX_ABS_POWER_MILLI;
use crate::solaredge::SiteCurrentPowerFlow;
use crate::text::contains_seq;
use crate::text::lemma_contains_at;
use crate::text::lemma_contains_concat_left;
use crate::text::lemma_contains_concat_right;
use vstd::prelude::*;
use vstd::string::*;

verus! {

/// The derived directional power flows of one snapshot, each in thousandths
/// of the snapshot's unit. `pv`, `load` and `grid` mirror the raw readings;
/// the three directional fields are filled by the derivation rule.
#[derive(Default, Debug, Clone, Copy, PartialEq, Eq, Structural)]
pub struct State {
    pub pv_to_load: i64,
    pub load_to_grid: i64,
    pub grid_to_load: i64,
    pub pv: i64,
    pub load: i64,
    pub grid: i64,
}

impl State {
    /// Every field is small enough to render and was derived from bounded
    /// readings.
    pub open spec fn well_formed(self) -> bool {
        &&& -2 * MAX_ABS_POWER_MILLI <= self.pv_to_load <= 2 * MAX_ABS_POWER_MILLI
        &&& -2 * MAX_ABS_POWER_MILLI <= self.load_to_grid <= 2 * MAX_ABS_POWER_MILLI
        &&& -2 * MAX_ABS_POWER_MILLI <= self.grid_to_load <= 2 * MAX_ABS_POWER_MILLI
        &&& -MAX_ABS_POWER_MILLI <= self.pv <= MAX_ABS_POWER_MILLI
        &&& -MAX_ABS_POWER_MILLI <= self.load <= MAX_ABS_POWER_MILLI
        &&& -MAX_ABS_POWER_MILLI <= self.grid <= MAX_ABS_POWER_MILLI
    }

    /// Decides whether every field is within its derivable range.
    pub fn check_well_formed(&self) -> (b: bool)
        ensures
            b == self.well_formed(),
    {
        let directional_bound: i64 = 2 * MAX_ABS_POWER_MILLI;
        -directional_bound <= self.pv_to_load && self.pv_to_load <= directional_bound
            && -directional_bound <= self.load_to_grid && self.load_to_grid <= directional_bound
            && -directional_bound <= self.grid_to_load && self.grid_to_load <= directional_bound
            && -MAX_ABS_POWER_MILLI <= self.pv && self.pv <= MAX_ABS_POWER_MILLI
            && -MAX_ABS_POWER_MILLI <= self.load && self.load <= MAX_ABS_POWER_MILLI
            && -MAX_ABS_POWER_MILLI <= self.grid && self.grid <= MAX_ABS_POWER_MILLI
    }
}

/// The derivation rule: raw readings are mirrored, and the directional
/// fields are set by the sign of the photovoltaic reading. Positive
/// production flows to the load; zero production means the grid feeds the
/// load; a negative reading splits on whether the load reading is below it.
pub open spec fn derived_state(s: SiteCurrentPowerFlow) -> State {
    let pv = s.pv.current_power;
    let load = s.load.current_power;
    let grid = s.grid.current_power;
    State {
        pv_to_load: if pv > 0 {
            pv
        } else {
            0
        },
        load_to_grid: if pv < 0 && load < pv {
            (load - pv) as i64
        } else {
            0
        },
        grid_to_load: if pv == 0 {
            load
        } else if pv < 0 && load >= pv {
            (pv - load) as i64
        } else {
            0
        },
        pv: pv,
        load: load,
        grid: grid,
    }
}

/// Derives the directional power flows of one snapshot. Total over every
/// bounded snapshot: no failure mode, no side effect.
pub fn generate_state_message(site_current_power_flow: SiteCurrentPowerFlow) -> (r: State)
    requires
        site_current_power_flow.well_formed(),
    ensures
        r == derived_state(site_current_power_flow),
        r.well_formed(),
{
    let mut result = State {
        pv_to_load: 0,
        load_to_grid: 0,
        grid_to_load: 0,
        pv: site_current_power_flow.pv.current_power,
        load: site_current_power_flow.load.current_power,
        grid: site_current_power_flow.grid.current_power,
    };
    if result.pv > 0 {
        result.pv_to_load = result.pv;
    } else {
        if result.pv == 0 {
            result.load_to_grid = 0;
            result.grid_to_load = result.load;
        } else if result.load < result.pv {
            result.load_to_grid = result.load - result.pv;
        } else {
            result.grid_to_load = result.pv - result.load;
        }
    }
    result
}

/// The derivation populates exactly one directional field with a nonzero
/// value, except when the photovoltaic reading is zero: there the rule sets
/// `grid_to_load` to the load reading and the other two to zero. A negative
/// photovoltaic reading equal to the load reading is left out: the rule then
/// yields a zero difference, so every directional field is zero.
pub proof fn lemma_derivation_totality(s: SiteCurrentPowerFlow)
    requires
        s.well_formed(),
        !(s.pv.current_power < 0 && s.load.current_power == s.pv.current_power),
    ensures
        s.pv.current_power > 0 ==> derived_state(s).pv_to_load != 0 && derived_state(
            s,
        ).load_to_grid == 0 && derived_state(s).grid_to_load == 0,
        s.pv.current_power == 0 ==> derived_state(s).pv_to_load == 0 && derived_state(
            s,
        ).load_to_grid == 0 && derived_state(s).grid_to_load == s.load.current_power,
        s.pv.current_power < 0 && s.load.current_power < s.pv.current_power ==> derived_state(
            s,
        ).load_to_grid != 0 && derived_state(s).pv_to_load == 0 && derived_state(s).grid_to_load
            == 0,
        s.pv.current_power < 0 && s.load.current_power > s.pv.current_power ==> derived_state(
            s,
        ).grid_to_load != 0 && derived_state(s).pv_to_load == 0 && derived_state(s).load_to_grid
            == 0,
{
}

/// The state payload: one flat JSON object holding all six readings, keys in
/// a fixed order, each value a decimal numeral in thousandths.
pub open spec fn spec_state_payload(st: State) -> Seq<char> {
    "{\"pv_to_load\":"@ + milli_str(st.pv_to_load as int) + ",\"load_to_grid\":"@ + milli_str(
        st.load_to_grid as int,
    ) + ",\"grid_to_load\":"@ + milli_str(st.grid_to_load as int) + ",\"pv\":"@ + milli_str(
        st.pv as int,
    ) + ",\"load\":"@ + milli_str(st.load as int) + ",\"grid\":"@ + milli_str(st.grid as int)
        + "}"@
}

/// The state payload always carries all six keys, quoted as JSON object
/// keys, whatever the readings are — even when every value is zero.
pub proof fn lemma_state_payload_has_all_keys(st: State)
    ensures
        contains_seq(spec_state_payload(st), "\"pv_to_load\""@),
        contains_seq(spec_state_payload(st), "\"load_to_grid\""@),
        contains_seq(spec_state_payload(st), "\"grid_to_load\""@),
        contains_seq(spec_state_payload(st), "\"pv\""@),
        contains_seq(spec_state_payload(st), "\"load\""@),
        contains_seq(spec_state_payload(st), "\"grid\""@),
{
    let k1 = "\"pv_to_load\""@;
    let k2 = "\"load_to_grid\""@;
    let k3 = "\"grid_to_load\""@;
    let k4 = "\"pv\""@;
    let k5 = "\"load\""@;
    let k6 = "\"grid\""@;
    let p1 = "{\"pv_to_load\":"@;
    let p3 = ",\"load_to_grid\":"@;
    let p5 = ",\"grid_to_load\":"@;
    let p7 = ",\"pv\":"@;
    let p9 = ",\"load\":"@;
    let p11 = ",\"grid\":"@;
    reveal_strlit("\"pv_to_load\"");
    reveal_strlit("\"load_to_grid\"");
    reveal_strlit("\"grid_to_load\"");
    reveal_strlit("\"pv\"");
    reveal_strlit("\"load\"");
    reveal_strlit("\"grid\"");
    reveal_strlit("{\"pv_to_load\":");
    reveal_strlit(",\"load_to_grid\":");
    reveal_strlit(",\"grid_to_load\":");
    reveal_strlit(",\"pv\":");
    reveal_strlit(",\"load\":");
    reveal_strlit(",\"grid\":");
    assert(p1.subrange(1, 13) =~= k1);
    lemma_contains_at(p1, k1, 1);
    assert(p3.subrange(1, 15) =~= k2);
    lemma_contains_at(p3, k2, 1);
    assert(p5.subrange(1, 15) =~= k3);
    lemma_contains_at(p5, k3, 1);
    assert(p7.subrange(1, 5) =~= k4);
    lemma_contains_at(p7, k4, 1);
    assert(p9.subrange(1, 7) =~= k5);
    lemma_contains_at(p9, k5, 1);
    assert(p11.subrange(1, 7) =~= k6);
    lemma_contains_at(p11, k6, 1);
    let c1 = p1;
    let c2 = c1 + milli_str(st.pv_to_load as int);
    let c3 = c2 + p3;
    let c4 = c3 + milli_str(st.load_to_grid as int);
    let c5 = c4 + p5;
    let c6 = c5 + milli_str(st.grid_to_load as int);
    let c7 = c6 + p7;
    let c8 = c7 + milli_str(st.pv as int);
    let c9 = c8 + p9;
    let c10 = c9 + milli_str(st.load as int);
    let c11 = c10 + p11;
    let c12 = c11 + milli_str(st.grid as int);
    let c13 = c12 + "}"@;
    lemma_contains_concat_left(c1, milli_str(st.pv_to_load as int), k1);
    lemma_contains_concat_left(c2, p3, k1);
    lemma_contains_concat_right(c2, p3, k2);
    lemma_contains_concat_left(c3, milli_str(st.load_to_grid as int), k1);
    lemma_contains_concat_left(c3, milli_str(st.load_to_grid as int), k2);
    lemma_contains_concat_left(c4, p5, k1);
    lemma_contains_concat_left(c4, p5, k2);
    lemma_contains_concat_right(c4, p5, k3);
    lemma_contains_concat_left(c5, milli_str(st.grid_to_load as int), k1);
    lemma_contains_concat_left(c5, milli_str(st.grid_to_load as int), k2);
    lemma_contains_concat_left(c5, milli_str(st.grid_to_load as int), k3);
    lemma_contains_concat_left(c6, p7, k1);
    lemma_contains_concat_left(c6, p7, k2);
    lemma_contains_concat_left(c6, p7, k3);
    lemma_contains_concat_right(c6, p7, k4);
    lemma_contains_concat_left(c7, milli_str(st.pv as int), k1);
    lemma_contains_concat_left(c7, milli_str(st.pv as int), k2);
    lemma_contains_concat_left(c7, milli_str(st.pv as int), k3);
    lemma_contains_concat_left(c7, milli_str(st.pv as int), k4);
    lemma_contains_concat_left(c8, p9, k1);
    lemma_contains_concat_left(c8, p9, k2);
    lemma_contains_concat_left(c8, p9, k3);
    lemma_contains_concat_left(c8, p9, k4);
    lemma_contains_concat_right(c8, p9, k5);
    lemma_contains_concat_left(c9, milli_str(st.load as int), k1);
    lemma_contains_concat_left(c9, milli_str(st.load as int), k2);
    lemma_contains_concat_left(c9, milli_str(st.load as int), k3);
    lemma_contains_concat_left(c9, milli_str(st.load as int), k4);
    lemma_contains_concat_left(c9, milli_str(st.load as int), k5);
    lemma_contains_concat_left(c10, p11, k1);
    lemma_contains_concat_left(c10, p11, k2);
    lemma_contains_concat_left(c10, p11, k3);
    lemma_contains_concat_left(c10, p11, k4);
    lemma_contains_concat_left(c10, p11, k5);
    lemma_contains_concat_right(c10, p11, k6);
    lemma_contains_concat_left(c11, milli_str(st.grid as int), k1);
    lemma_contains_concat_left(c11, milli_str(st.grid as int), k2);
    lemma_contains_concat_left(c11, milli_str(st.grid as int), k3);
    lemma_contains_concat_left(c11, milli_str(st.grid as int), k4);
    lemma_contains_concat_left(c11, milli_str(st.grid as int), k5);
    lemma_contains_concat_left(c11, milli_str(st.grid as int), k6);
    lemma_contains_concat_left(c12, "}"@, k1);
    lemma_contains_concat_left(c12, "}"@, k2);
    lemma_contains_concat_left(c12, "}"@, k3);
    lemma_contains_concat_left(c12, "}"@, k4);
    lemma_contains_concat_left(c12, "}"@, k5);
    lemma_contains_concat_left(c12, "}"@, k6);
    assert(spec_state_payload(st) == c13);
}

/// Serializes the derived flows as the flat JSON state payload.
pub fn generate_state_payload(st: &State) -> (r: String)
    requires
        st.well_formed(),
    ensures
        r@ == spec_state_payload(*st),
{
    let mut out = String::from_str("{\"pv_to_load\":");
    let part = milli_to_string(st.pv_to_load);
    out.append(part.as_str());
    out.append(",\"load_to_grid\":");
    let part = milli_to_string(st.load_to_grid);
    out.append(part.as_str());
    out.append(",\"grid_to_load\":");
    let part = milli_to_string(st.grid_to_load);
    out.append(part.as_str());
    out.append(",\"pv\":");
    let part = milli_to_string(st.pv);
    out.append(part.as_str());
    out.append(",\"load\":");
    let part = milli_to_string(st.load);
    out.append(part.as_str());
    out.append(",\"grid\":");
    let part = milli_to_string(st.grid);
    out.append(part.as_str());
    out.append("}");
    proof {
        assert(out@ =~= spec_state_payload(*st));
    }
    out
}

} // verus!
