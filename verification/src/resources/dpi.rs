//! Sensitivity images.

use vstd::prelude::*;

use crate::error::{ManagerError, ManagerErrorView};
use crate::protocol::{
    DpiStages, DpiState, DpiValue, LiftOffDistance, ProtocolError, SensorOptions, StageIndex,
    MAX_STAGES,
};
use crate::resources::settings::overlaid;

verus! {

/// Partial sensor options; omitted fields stay as they are.
#[derive(Clone, Copy, Debug, PartialEq, Eq, Structural)]
pub struct SensorOptionsDelta {
    pub lift_off_distance: Option<LiftOffDistance>,
    pub ripple_control: Option<bool>,
    pub angle_snap: Option<bool>,
    pub motion_sync: Option<bool>,
}

impl SensorOptionsDelta {
    pub open spec fn names_nothing(self) -> bool {
        self.lift_off_distance is None && self.ripple_control is None && self.angle_snap is None
            && self.motion_sync is None
    }

    pub fn is_empty(self) -> (r: bool)
        ensures
            r == self.names_nothing(),
    {
        self.lift_off_distance.is_none() && self.ripple_control.is_none()
            && self.angle_snap.is_none() && self.motion_sync.is_none()
    }
}

/// Partial sensitivity image; omitted fields stay as they are.
#[derive(Debug, PartialEq, Eq)]
pub struct DpiDelta {
    pub stages: Option<Vec<DpiValue>>,
    pub active_stage: Option<StageIndex>,
    pub sensor: Option<SensorOptionsDelta>,
}

impl Default for DpiDelta {
    fn default() -> (r: Self)
        ensures
            r.names_nothing(),
    {
        DpiDelta { stages: None, active_stage: None, sensor: None }
    }
}

impl DpiDelta {
    pub open spec fn names_nothing(self) -> bool {
        self.stages is None && self.active_stage is None && (self.sensor matches Some(sensor)
            ==> sensor.names_nothing())
    }

    pub fn is_empty(&self) -> (r: bool)
        ensures
            r == self.names_nothing(),
    {
        let sensor_empty: bool = match self.sensor {
            Some(sensor) => sensor.is_empty(),
            None => true,
        };
        self.stages.is_none() && self.active_stage.is_none() && sensor_empty
    }

    /// The steps after the update.
    pub open spec fn steps_over(self, baseline: DpiState) -> Seq<DpiValue> {
        match self.stages {
            Some(stages) => stages@,
            None => baseline.stages.steps(),
        }
    }
}

pub open spec fn merged_sensor(
    baseline: SensorOptions,
    delta: Option<SensorOptionsDelta>,
) -> SensorOptions {
    match delta {
        None => baseline,
        Some(delta) => SensorOptions {
            lift_off_distance: overlaid(delta.lift_off_distance, baseline.lift_off_distance),
            ripple_control: overlaid(delta.ripple_control, baseline.ripple_control),
            angle_snap: overlaid(delta.angle_snap, baseline.angle_snap),
            motion_sync: overlaid(delta.motion_sync, baseline.motion_sync),
        },
    }
}

/// What forbids an image with these steps and this active step, if anything.
pub open spec fn stage_defect(steps: Seq<DpiValue>, active: StageIndex) -> Option<ProtocolError> {
    if !(1 <= steps.len() <= MAX_STAGES) {
        Some(ProtocolError::InvalidStageCount { count: steps.len() as usize })
    } else if !(1 <= active.value <= steps.len()) {
        Some(
            ProtocolError::InvalidActiveStage { stage: active.value, count: steps.len() as usize },
        )
    } else {
        None
    }
}

/// `merged` is the baseline with the update laid over it.
pub open spec fn is_merged_dpi(baseline: DpiState, delta: DpiDelta, merged: DpiState) -> bool {
    &&& merged.wf()
    &&& merged.profile == baseline.profile
    &&& merged.stages.steps() == delta.steps_over(baseline)
    &&& merged.active_stage == overlaid(delta.active_stage, baseline.active_stage)
    &&& merged.sensor == merged_sensor(baseline.sensor, delta.sensor)
    &&& merged.preserved_tail == baseline.preserved_tail
}

/// The error for an image that cannot be formed by a merge.
pub open spec fn merge_refusal(source: ProtocolError) -> ManagerErrorView {
    ManagerErrorView::Protocol { operation: "dpi: merge delta"@, source }
}

/// Lays a partial update over a complete image.
pub fn merge_dpi_delta(baseline: DpiState, delta: &DpiDelta) -> (r: Result<DpiState, ManagerError>)
    ensures
        match r {
            Ok(merged) => is_merged_dpi(baseline, *delta, merged) && stage_defect(
                delta.steps_over(baseline),
                overlaid(delta.active_stage, baseline.active_stage),
            ) is None,
            Err(error) => {
                &&& stage_defect(
                    delta.steps_over(baseline),
                    overlaid(delta.active_stage, baseline.active_stage),
                ) matches Some(source)
                &&& error@ == merge_refusal(source)
            },
        },
{
    let stages = match &delta.stages {
        None => baseline.stages,
        Some(list) => match DpiStages::new(list) {
            Some(stages) => stages,
            None => {
                return Err(
                    ManagerError::Protocol {
                        operation: "dpi: merge delta",
                        source: ProtocolError::InvalidStageCount { count: list.len() },
                    },
                );
            },
        },
    };
    assert(stages.steps() =~= delta.steps_over(baseline));
    let count: usize = stages.len();
    let active_stage = match delta.active_stage {
        Some(stage) => stage,
        None => baseline.active_stage,
    };
    if !(active_stage.value >= 1 && active_stage.value as usize <= count) {
        return Err(
            ManagerError::Protocol {
                operation: "dpi: merge delta",
                source: ProtocolError::InvalidActiveStage {
                    stage: active_stage.value,
                    count,
                },
            },
        );
    }
    let sensor = match delta.sensor {
        None => baseline.sensor,
        Some(change) => SensorOptions {
            lift_off_distance: change.lift_off_distance.unwrap_or(
                baseline.sensor.lift_off_distance,
            ),
            ripple_control: change.ripple_control.unwrap_or(baseline.sensor.ripple_control),
            angle_snap: change.angle_snap.unwrap_or(baseline.sensor.angle_snap),
            motion_sync: change.motion_sync.unwrap_or(baseline.sensor.motion_sync),
        },
    };
    Ok(
        DpiState {
            profile: baseline.profile,
            stages,
            active_stage,
            sensor,
            preserved_tail: baseline.preserved_tail,
        },
    )
}

/// A merge determines the image, never touches the profile or the tail, and an
/// empty update of a sound image gives that image back.
pub proof fn law_dpi_merge(baseline: DpiState, delta: DpiDelta, a: DpiState, b: DpiState)
    requires
        is_merged_dpi(baseline, delta, a),
        is_merged_dpi(baseline, delta, b),
    ensures
        a == b,
        a.profile == baseline.profile,
        a.preserved_tail == baseline.preserved_tail,
        baseline.wf() && delta.names_nothing() ==> a == baseline,
{
    crate::protocol::lemma_stages_determined(a.stages, b.stages);
    if baseline.wf() && delta.names_nothing() {
        crate::protocol::lemma_stages_determined(a.stages, baseline.stages);
    }
}

/// What a partial sensitivity update names is what the merged image has there,
/// and what it does not name stays as it was.
pub proof fn law_named_dpi_fields_are_applied(
    baseline: DpiState,
    delta: DpiDelta,
    merged: DpiState,
)
    requires
        is_merged_dpi(baseline, delta, merged),
    ensures
        delta.stages matches Some(stages) ==> merged.stages.steps() == stages@,
        delta.stages is None ==> merged.stages.steps() == baseline.stages.steps(),
        delta.active_stage matches Some(stage) ==> merged.active_stage == stage,
        delta.active_stage is None ==> merged.active_stage == baseline.active_stage,
        delta.sensor is None ==> merged.sensor == baseline.sensor,
        delta.sensor matches Some(change) ==> {
            &&& change.lift_off_distance matches Some(value) ==> merged.sensor.lift_off_distance
                == value
            &&& change.lift_off_distance is None ==> merged.sensor.lift_off_distance
                == baseline.sensor.lift_off_distance
            &&& change.ripple_control matches Some(value) ==> merged.sensor.ripple_control == value
            &&& change.ripple_control is None ==> merged.sensor.ripple_control
                == baseline.sensor.ripple_control
            &&& change.angle_snap matches Some(value) ==> merged.sensor.angle_snap == value
            &&& change.angle_snap is None ==> merged.sensor.angle_snap
                == baseline.sensor.angle_snap
            &&& change.motion_sync matches Some(value) ==> merged.sensor.motion_sync == value
            &&& change.motion_sync is None ==> merged.sensor.motion_sync
                == baseline.sensor.motion_sync
        },
        1 <= merged.active_stage.value <= merged.stages.steps().len(),
{
}

/// A sensitivity update counts as empty exactly when it names neither steps,
/// nor an active step, nor any sensor option.
pub proof fn law_empty_dpi_updates(delta: DpiDelta)
    ensures
        delta.stages is Some || delta.active_stage is Some ==> !delta.names_nothing(),
        delta.sensor matches Some(change) && (change.lift_off_distance is Some
            || change.ripple_control is Some || change.angle_snap is Some || change.motion_sync
            is Some) ==> !delta.names_nothing(),
        !delta.names_nothing() ==> delta.stages is Some || delta.active_stage is Some || (
        delta.sensor matches Some(change) && (change.lift_off_distance is Some
            || change.ripple_control is Some || change.angle_snap is Some || change.motion_sync
            is Some)),
{
}

/// An image is refused exactly when it has no steps, more than eight, or an
/// active step that is not one of them; the error tells which, with the number
/// at fault.
pub proof fn law_stage_limits(steps: Seq<DpiValue>, active: StageIndex)
    requires
        steps.len() <= usize::MAX,
    ensures
        1 <= active.value <= steps.len() <= 8 <==> stage_defect(steps, active) is None,
        stage_defect(steps, active) matches Some(
            ProtocolError::InvalidStageCount { count },
        ) ==> count == steps.len() && (count == 0 || count > 8),
        stage_defect(steps, active) matches Some(
            ProtocolError::InvalidActiveStage { stage, count },
        ) ==> stage == active.value && count == steps.len() && (stage == 0 || stage > count),
        steps.len() == 0 || steps.len() > 8 ==> stage_defect(steps, active) matches Some(
            ProtocolError::InvalidStageCount { .. },
        ),
{
}

/// Laying a sensitivity update over an image succeeds exactly where the steps
/// are one to eight and the active step is one of them; the parts that the
/// update names are then those of the update, and all others those of the
/// image, the profile and the tail among them.
pub proof fn law_dpi_merges_change_what_is_named(
    baseline: DpiState,
    delta: &DpiDelta,
    r: Result<DpiState, ManagerError>,
)
    requires
        call_ensures(merge_dpi_delta, (baseline, delta), r),
    ensures
        ({
            let count = if delta.stages is Some {
                delta.stages->0@.len()
            } else {
                baseline.stages.steps().len()
            };
            let active = if delta.active_stage is Some {
                delta.active_stage->0
            } else {
                baseline.active_stage
            };
            &&& r is Ok <==> 1 <= active.value <= count && count <= 8
            &&& r matches Ok(image) ==> {
                &&& image.profile == baseline.profile
                &&& image.preserved_tail == baseline.preserved_tail
                &&& image.active_stage == active
                &&& delta.stages matches Some(stages) ==> image.stages.steps() == stages@
                &&& delta.stages is None ==> image.stages.steps() == baseline.stages.steps()
                &&& delta.sensor is None ==> image.sensor == baseline.sensor
            }
            &&& r matches Err(error) ==> error is Protocol
        }),
{
}

} // verus!
