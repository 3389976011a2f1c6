//! The tunable parameters and the bridge to the MAVLink parameter protocol.

use vstd::prelude::*;

use crate::param_group::{
    accepts, index_by_id, lemma_index_by_id, value_by_id, well_typed, with_value, GroupTable, Param,
    ParamDescriptor, ParamType, ParamValue,
};
use crate::single::Single;

pub mod registry;

verus! {

/// When the parachutes are deployed. Known to the ground as `REC_*`.
#[derive(Copy, Clone, Debug, PartialEq, Eq, Structural)]
pub struct RecoveryParams {
    /// Altitude AGL (meters) at which to deploy the main parachute
    pub main_deploy_altitude: Single,
    /// Minimum time (ms) after launch before allowing drogue deployment
    pub min_time_to_drogue: u32,
    /// Minimum time (ms) after drogue before allowing main deployment
    pub min_time_to_main: u32,
}

/// When a lost uplink is acted upon. A zero timeout disables its stage.
#[derive(Copy, Clone, Debug, PartialEq, Eq, Structural)]
pub struct FailsafeParams {
    /// Time (ms) without ground station contact after which the vehicle falls back to idle
    pub uplink_idle_timeout: u32,
    /// Time (ms) without ground station contact after which the vehicle vents
    pub uplink_vent_timeout: u32,
}

/// How the engine is started.
#[derive(Copy, Clone, Debug, PartialEq, Eq, Structural)]
pub struct PropulsionParams {
    /// Time (ms) for which the igniters are energized
    pub igniter_on_time: u32,
}

/// The bit pattern of 400 metres.
pub const DEFAULT_MAIN_DEPLOY_ALTITUDE_BITS: u32 = 0x43c8_0000;

/// The id of [`RecoveryParams::main_deploy_altitude`].
pub const MAIN_ALT_ID: u16 = 0x0200;

/// The id of [`RecoveryParams::min_time_to_drogue`].
pub const MIN_T_DROGUE_ID: u16 = 0x0201;

/// The id of [`RecoveryParams::min_time_to_main`].
pub const MIN_T_MAIN_ID: u16 = 0x0202;

/// How many recovery parameters there are.
pub const RECOVERY_COUNT: usize = 3;

impl Default for RecoveryParams {
    fn default() -> (params: Self)
        ensures
            params.main_deploy_altitude.bits == DEFAULT_MAIN_DEPLOY_ALTITUDE_BITS,
            params.min_time_to_drogue == 1000,
            params.min_time_to_main == 3000,
    {
        RecoveryParams {
            main_deploy_altitude: Single { bits: DEFAULT_MAIN_DEPLOY_ALTITUDE_BITS },
            min_time_to_drogue: 1000,
            min_time_to_main: 3000,
        }
    }
}

/// `REC_MAIN_ALT`
pub open spec fn main_alt_name() -> Seq<u8> {
    seq![
        0x52u8,
        0x45u8,
        0x43u8,
        0x5fu8,
        0x4du8,
        0x41u8,
        0x49u8,
        0x4eu8,
        0x5fu8,
        0x41u8,
        0x4cu8,
        0x54u8,
        0x00u8,
        0x00u8,
        0x00u8,
        0x00u8,
    ]
}

/// `REC_MIN_T_DROGUE`
pub open spec fn min_t_drogue_name() -> Seq<u8> {
    seq![
        0x52u8,
        0x45u8,
        0x43u8,
        0x5fu8,
        0x4du8,
        0x49u8,
        0x4eu8,
        0x5fu8,
        0x54u8,
        0x5fu8,
        0x44u8,
        0x52u8,
        0x4fu8,
        0x47u8,
        0x55u8,
        0x45u8,
    ]
}

/// `REC_MIN_T_MAIN`
pub open spec fn min_t_main_name() -> Seq<u8> {
    seq![
        0x52u8,
        0x45u8,
        0x43u8,
        0x5fu8,
        0x4du8,
        0x49u8,
        0x4eu8,
        0x5fu8,
        0x54u8,
        0x5fu8,
        0x4du8,
        0x41u8,
        0x49u8,
        0x4eu8,
        0x00u8,
        0x00u8,
    ]
}

impl RecoveryParams {
    /// The recovery parameters with their values.
    pub open spec fn params(self) -> Seq<Param> {
        seq![
            Param {
                id: MAIN_ALT_ID,
                name: main_alt_name(),
                ty: ParamType::F32,
                value: ParamValue::F32(self.main_deploy_altitude),
            },
            Param {
                id: MIN_T_DROGUE_ID,
                name: min_t_drogue_name(),
                ty: ParamType::U32,
                value: ParamValue::U32(self.min_time_to_drogue),
            },
            Param {
                id: MIN_T_MAIN_ID,
                name: min_t_main_name(),
                ty: ParamType::U32,
                value: ParamValue::U32(self.min_time_to_main),
            },
        ]
    }

    proof fn lemma_index(self, id: u16)
        ensures
            index_by_id(self.params(), id) == (if id == MAIN_ALT_ID {
                0int
            } else if id == MIN_T_DROGUE_ID {
                1
            } else if id == MIN_T_MAIN_ID {
                2
            } else {
                3
            }),
    {
        lemma_index_by_id(self.params(), id);
        let i = index_by_id(self.params(), id);
        assert(0 <= i ==> i > 0 ==> self.params()[0].id != id);
        assert(i > 1 ==> self.params()[1].id != id);
        assert(i > 2 ==> self.params()[2].id != id);
    }

    proof fn lemma_well_typed(self)
        ensures
            well_typed(self.params()),
    {
    }

    /// What is declared of the parameter with this index.
    pub fn descriptor(index: usize) -> (descriptor: Option<ParamDescriptor>)
        ensures
            match descriptor {
                Some(d) => forall|any: Self|
                    {
                        let param = #[trigger] any.params()[index as int];
                        index < RECOVERY_COUNT && d.id == param.id && d.name@ == param.name && d.ty
                            == param.ty
                    },
                None => index >= RECOVERY_COUNT,
            },
    {
        match index {
            0 => {
                let name: [u8; 16] = [
                    0x52,
                    0x45,
                    0x43,
                    0x5f,
                    0x4d,
                    0x41,
                    0x49,
                    0x4e,
                    0x5f,
                    0x41,
                    0x4c,
                    0x54,
                    0x00,
                    0x00,
                    0x00,
                    0x00,
                ];
                assert(name@ =~= main_alt_name());
                Some(ParamDescriptor { id: MAIN_ALT_ID, name, ty: ParamType::F32 })
            },
            1 => {
                let name: [u8; 16] = [
                    0x52,
                    0x45,
                    0x43,
                    0x5f,
                    0x4d,
                    0x49,
                    0x4e,
                    0x5f,
                    0x54,
                    0x5f,
                    0x44,
                    0x52,
                    0x4f,
                    0x47,
                    0x55,
                    0x45,
                ];
                assert(name@ =~= min_t_drogue_name());
                Some(ParamDescriptor { id: MIN_T_DROGUE_ID, name, ty: ParamType::U32 })
            },
            2 => {
                let name: [u8; 16] = [
                    0x52,
                    0x45,
                    0x43,
                    0x5f,
                    0x4d,
                    0x49,
                    0x4e,
                    0x5f,
                    0x54,
                    0x5f,
                    0x4d,
                    0x41,
                    0x49,
                    0x4e,
                    0x00,
                    0x00,
                ];
                assert(name@ =~= min_t_main_name());
                Some(ParamDescriptor { id: MIN_T_MAIN_ID, name, ty: ParamType::U32 })
            },
            _ => None,
        }
    }

    /// The value of the parameter with the id.
    pub fn get(&self, id: u16) -> (value: Option<ParamValue>)
        ensures
            value == value_by_id(self.params(), id),
    {
        proof {
            self.lemma_index(id);
        }
        if id == MAIN_ALT_ID {
            Some(ParamValue::F32(self.main_deploy_altitude))
        } else if id == MIN_T_DROGUE_ID {
            Some(ParamValue::U32(self.min_time_to_drogue))
        } else if id == MIN_T_MAIN_ID {
            Some(ParamValue::U32(self.min_time_to_main))
        } else {
            None
        }
    }

    /// Sets the parameter with the id, where it exists and is of the kind of the value.
    pub fn set(&mut self, id: u16, value: ParamValue) -> (done: bool)
        ensures
            done == accepts(old(self).params(), id, value),
            final(self).params() == with_value(old(self).params(), id, value),
    {
        proof {
            self.lemma_index(id);
        }
        let done = match value {
            ParamValue::F32(value) => if id == MAIN_ALT_ID {
                self.main_deploy_altitude = value;
                true
            } else {
                false
            },
            ParamValue::U32(value) => if id == MIN_T_DROGUE_ID {
                self.min_time_to_drogue = value;
                true
            } else if id == MIN_T_MAIN_ID {
                self.min_time_to_main = value;
                true
            } else {
                false
            },
        };
        assert(self.params() =~= with_value(old(self).params(), id, value));
        done
    }
}

/// All parameters: those of the state estimator and those of the recovery system.
pub struct Params {
    state_estimator: GroupTable,
    recovery: RecoveryParams,
}

/// The index of the first parameter with the name; the number of parameters where there is none.
pub open spec fn index_by_name(params: Seq<Param>, name: Seq<u8>) -> int
    decreases params.len(),
{
    if params.len() == 0 {
        0
    } else if params[0].name == name {
        0
    } else {
        1 + index_by_name(params.drop_first(), name)
    }
}

/// The descriptor is that of the parameter.
pub open spec fn describes(descriptor: ParamDescriptor, param: Param) -> bool {
    &&& descriptor.id == param.id
    &&& descriptor.name@ == param.name
    &&& descriptor.ty == param.ty
}

proof fn lemma_index_by_name(params: Seq<Param>, name: Seq<u8>, i: int)
    requires
        0 <= i <= params.len(),
        forall|j: int| 0 <= j < i ==> (#[trigger] params[j]).name != name,
        i < params.len() ==> params[i].name == name,
    ensures
        index_by_name(params, name) == i,
    decreases params.len(),
{
    if params.len() > 0 && i > 0 {
        assert(params[0].name != name);
        let rest = params.drop_first();
        assert forall|j: int| 0 <= j < i - 1 implies (#[trigger] rest[j]).name != name by {
            assert(rest[j] == params[j + 1]);
        }
        lemma_index_by_name(rest, name, i - 1);
    }
}

proof fn lemma_first_id(params: Seq<Param>, id: u16, i: int)
    requires
        0 <= i <= params.len(),
        forall|j: int| 0 <= j < i ==> (#[trigger] params[j]).id != id,
        i < params.len() ==> params[i].id == id,
    ensures
        index_by_id(params, id) == i,
{
    lemma_index_by_id(params, id);
    let k = index_by_id(params, id);
    if k < i {
        assert(params[k].id != id);
    } else if i < k {
        assert(params[i].id != id);
    }
}

/// A parameter is looked up in one part after the other.
proof fn lemma_index_in_parts(first: Seq<Param>, second: Seq<Param>, id: u16)
    ensures
        index_by_id(first + second, id) == (if index_by_id(first, id) < first.len() {
            index_by_id(first, id)
        } else {
            first.len() + index_by_id(second, id)
        }),
{
    lemma_index_by_id(first, id);
    lemma_index_by_id(second, id);
    let (a, b) = (index_by_id(first, id), index_by_id(second, id));
    let i = if a < first.len() {
        a
    } else {
        first.len() + b
    };
    let all = first + second;
    assert forall|j: int| 0 <= j < i implies (#[trigger] all[j]).id != id by {
        if j < first.len() {
            assert(all[j] == first[j]);
        } else {
            assert(all[j] == second[j - first.len()]);
        }
    }
    lemma_first_id(all, id, i);
}

/// No two parameters share an id.
pub open spec fn unique_ids(params: Seq<Param>) -> bool {
    forall|i: int, j: int|
        0 <= i < j < params.len() ==> (#[trigger] params[i]).id != (#[trigger] params[j]).id
}

impl Params {
    /// There are no more parameters than can be numbered.
    pub open spec fn wf(self) -> bool {
        self.all().len() <= u16::MAX
    }

    /// The parameters of the state estimator.
    pub closed spec fn estimator_part(self) -> Seq<Param> {
        self.state_estimator@
    }

    /// The recovery parameters.
    pub closed spec fn recovery_part(self) -> RecoveryParams {
        self.recovery
    }

    /// All parameters with their values.
    pub open spec fn all(self) -> Seq<Param> {
        self.estimator_part() + self.recovery_part().params()
    }

    /// The parameters of the state estimator as given, and the recovery parameters with their
    /// default values. `None` where there are more than can be numbered.
    pub fn new(state_estimator: GroupTable) -> (params: Option<Self>)
        ensures
            match params {
                Some(params) => params.wf() && params.estimator_part() == state_estimator@
                    && params.recovery_part() == (RecoveryParams {
                    main_deploy_altitude: Single { bits: DEFAULT_MAIN_DEPLOY_ALTITUDE_BITS },
                    min_time_to_drogue: 1000,
                    min_time_to_main: 3000,
                }),
                None => state_estimator@.len() + RECOVERY_COUNT > u16::MAX,
            },
    {
        if state_estimator.count() > u16::MAX as usize - RECOVERY_COUNT {
            None
        } else {
            Some(Params { state_estimator, recovery: RecoveryParams::default() })
        }
    }

    /// The parameters of the state estimator.
    pub fn state_estimator(&self) -> (group: &GroupTable)
        ensures
            group@ == self.estimator_part(),
    {
        &self.state_estimator
    }

    /// The recovery parameters.
    pub fn recovery(&self) -> (recovery: RecoveryParams)
        ensures
            recovery == self.recovery_part(),
    {
        self.recovery
    }

    /// Total number of parameters exposed over MAVLink.
    pub fn count(&self) -> (count: u16)
        requires
            self.wf(),
        ensures
            count == self.all().len(),
    {
        (self.state_estimator.count() + RECOVERY_COUNT) as u16
    }

    /// Descriptor at a MAVLink `param_index`.
    pub fn descriptor_by_index(&self, index: u16) -> (descriptor: Option<ParamDescriptor>)
        ensures
            match descriptor {
                Some(d) => index < self.all().len() && describes(d, self.all()[index as int]),
                None => index >= self.all().len(),
            },
    {
        let index: usize = index as usize;
        let count: usize = self.state_estimator.count();
        if index < count {
            self.state_estimator.descriptor(index)
        } else {
            let ghost param = self.recovery.params()[index - count];
            RecoveryParams::descriptor(index - count)
        }
    }

    /// Descriptor for a stable parameter id.
    pub fn by_id(&self, id: u16) -> (descriptor: Option<ParamDescriptor>)
        requires
            self.wf(),
        ensures
            ({
                let i = index_by_id(self.all(), id);
                match descriptor {
                    Some(d) => i < self.all().len() && describes(d, self.all()[i]),
                    None => i >= self.all().len(),
                }
            }),
    {
        let count: u16 = self.count();
        let mut i: u16 = 0;
        while i < count
            invariant
                self.wf(),
                i <= count == self.all().len(),
                forall|j: int| 0 <= j < i ==> (#[trigger] self.all()[j]).id != id,
            decreases count - i,
        {
            if let Some(d) = self.descriptor_by_index(i) {
                if d.id == id {
                    proof {
                        lemma_first_id(self.all(), id, i as int);
                    }
                    return Some(d);
                }
            }
            i += 1;
        }
        proof {
            lemma_first_id(self.all(), id, i as int);
        }
        None
    }

    /// (`param_index`, descriptor) for a MAVLink `param_id` name.
    pub fn by_name(&self, name: &[u8; 16]) -> (found: Option<(u16, ParamDescriptor)>)
        requires
            self.wf(),
        ensures
            ({
                let i = index_by_name(self.all(), name@);
                match found {
                    Some((index, d)) => index == i && i < self.all().len() && describes(
                        d,
                        self.all()[i],
                    ),
                    None => i >= self.all().len(),
                }
            }),
    {
        let count: u16 = self.count();
        let mut i: u16 = 0;
        while i < count
            invariant
                self.wf(),
                i <= count == self.all().len(),
                forall|j: int| 0 <= j < i ==> (#[trigger] self.all()[j]).name != name@,
            decreases count - i,
        {
            if let Some(d) = self.descriptor_by_index(i) {
                if same_name(&d.name, name) {
                    proof {
                        lemma_index_by_name(self.all(), name@, i as int);
                    }
                    return Some((i, d));
                }
            }
            i += 1;
        }
        proof {
            lemma_index_by_name(self.all(), name@, i as int);
        }
        None
    }

    /// The value of the parameter with the id.
    pub fn get(&self, id: u16) -> (value: Option<ParamValue>)
        ensures
            value == value_by_id(self.all(), id),
    {
        proof {
            lemma_index_in_parts(self.estimator_part(), self.recovery_part().params(), id);
            lemma_index_by_id(self.estimator_part(), id);
            lemma_index_by_id(self.recovery_part().params(), id);
        }
        match self.state_estimator.get(id) {
            Some(value) => Some(value),
            None => self.recovery.get(id),
        }
    }

    /// Sets the parameter with the id, where it exists and is of the kind of the value.
    pub fn set(&mut self, id: u16, value: ParamValue) -> (done: bool)
        ensures
            ({
                let first = accepts(old(self).estimator_part(), id, value);
                let recovery = old(self).recovery_part().params();
                &&& done == (first || accepts(recovery, id, value))
                &&& final(self).estimator_part() == with_value(
                    old(self).estimator_part(),
                    id,
                    value,
                )
                &&& final(self).recovery_part().params() == if first {
                    recovery
                } else {
                    with_value(recovery, id, value)
                }
            }),
            final(self).all().len() == old(self).all().len(),
            unique_ids(old(self).all()) ==> {
                &&& done == accepts(old(self).all(), id, value)
                &&& final(self).all() == with_value(old(self).all(), id, value)
            },
    {
        proof {
            lemma_index_by_id(self.estimator_part(), id);
            lemma_index_by_id(self.recovery_part().params(), id);
            lemma_set_in_parts(
                self.estimator_part(),
                self.recovery_part().params(),
                id,
                value,
            );
        }
        if self.state_estimator.set(id, value) {
            return true;
        }
        let mut recovery = self.recovery;
        let done = recovery.set(id, value);
        self.recovery = recovery;
        done
    }

    /// Apply a raw stored value (as read from flash) to this struct. Unknown ids are ignored.
    pub fn apply_raw(&mut self, id: u16, raw: u32)
        requires
            old(self).wf(),
        ensures
            final(self).wf(),
            unique_ids(old(self).all()) ==> final(self).all() == applied(
                old(self).all(),
                id,
                raw,
            ),
    {
        proof {
            lemma_index_by_id(self.all(), id);
        }
        if let Some(descriptor) = self.by_id(id) {
            let _ = self.set(descriptor.id, descriptor.ty.decode_raw(raw));
        }
    }
}

/// No two parameters share a name.
pub open spec fn unique_names(params: Seq<Param>) -> bool {
    forall|i: int, j: int|
        0 <= i < j < params.len() ==> (#[trigger] params[i]).name != (#[trigger] params[j]).name
}

impl Params {
    /// Whether the registry is in order: no two parameters share an id or a name. Every value is
    /// of its declared kind in any case.
    pub fn is_registry(&self) -> (ok: bool)
        requires
            self.wf(),
        ensures
            ok == (unique_ids(self.all()) && unique_names(self.all())),
            well_typed(self.all()),
    {
        let count: u16 = self.count();
        proof {
            self.recovery.lemma_well_typed();
        }
        let estimator_count: usize = self.state_estimator.count();
        assert(well_typed(self.all())) by {
            let (first, second) = (self.estimator_part(), self.recovery_part().params());
            assert forall|i: int| 0 <= i < (first + second).len() implies (#[trigger] (first
                + second)[i]).value.kind() == (first + second)[i].ty by {
                if i < first.len() {
                    assert(first[i].value.kind() == first[i].ty);
                } else {
                    assert(second[i - first.len()].value.kind() == second[i - first.len()].ty);
                }
            }
        }
        let mut i: u16 = 0;
        while i < count
            invariant
                self.wf(),
                well_typed(self.all()),
                i <= count == self.all().len(),
                forall|a: int, b: int|
                    0 <= a < b < count && a < i ==> (#[trigger] self.all()[a]).id != (
                    #[trigger] self.all()[b]).id && self.all()[a].name != self.all()[b].name,
            decreases count - i,
        {
            if let Some(first) = self.descriptor_by_index(i) {
                let mut j: u16 = i + 1;
                while j < count
                    invariant
                        self.wf(),
                        well_typed(self.all()),
                        i < j <= count == self.all().len(),
                        describes(first, self.all()[i as int]),
                        forall|b: int|
                            i < b < j ==> (#[trigger] self.all()[b]).id != first.id
                                && self.all()[b].name != first.name@,
                    decreases count - j,
                {
                    if let Some(second) = self.descriptor_by_index(j) {
                        if first.id == second.id || same_name(&first.name, &second.name) {
                            proof {
                                let (a, b) = (self.all()[i as int], self.all()[j as int]);
                                assert(a.id == b.id || a.name == b.name);
                            }
                            return false;
                        }
                    }
                    j += 1;
                }
            }
            i += 1;
        }
        true
    }
}

/// The parameters once the one with the id has the value that is stored as `raw`.
pub open spec fn applied(params: Seq<Param>, id: u16, raw: u32) -> Seq<Param> {
    let i = index_by_id(params, id);
    if i < params.len() {
        with_value(params, id, params[i].ty.value_of(raw))
    } else {
        params
    }
}

/// With unique ids, a value that is set in one part after the other is set in the whole.
proof fn lemma_set_in_parts(first: Seq<Param>, second: Seq<Param>, id: u16, value: ParamValue)
    ensures
        unique_ids(first + second) ==> {
            &&& accepts(first + second, id, value) == (accepts(first, id, value) || accepts(
                second,
                id,
                value,
            ))
            &&& with_value(first + second, id, value) == with_value(first, id, value) + if accepts(
                first,
                id,
                value,
            ) {
                second
            } else {
                with_value(second, id, value)
            }
        },
{
    if unique_ids(first + second) {
        lemma_index_in_parts(first, second, id);
        lemma_index_by_id(first, id);
        lemma_index_by_id(second, id);
        let (a, b) = (index_by_id(first, id), index_by_id(second, id));
        let all = first + second;
        if a < first.len() && b < second.len() {
            assert(all[a] == first[a] && all[first.len() + b] == second[b]);
            assert(all[a].id != all[first.len() + b].id);
        }
        assert(with_value(all, id, value) =~= with_value(first, id, value) + if accepts(
            first,
            id,
            value,
        ) {
            second
        } else {
            with_value(second, id, value)
        });
    }
}

fn same_name(a: &[u8; 16], b: &[u8; 16]) -> (same: bool)
    ensures
        same == (a@ == b@),
{
    let mut i: usize = 0;
    while i < 16
        invariant
            i <= 16,
            forall|j: int| 0 <= j < i ==> a@[j] == b@[j],
        decreases 16 - i,
    {
        if a[i] != b[i] {
            assert(a@[i as int] != b@[i as int]);
            return false;
        }
        i += 1;
    }
    assert(a@ =~= b@);
    true
}

/// What kind of number a parameter is on the wire.
#[derive(Copy, Clone, Debug, PartialEq, Eq, Structural)]
pub enum MavParamType {
    Uint32,
    Real32,
    /// Any other kind, by its number.
    Other(u8),
}

/// The kind on the wire of a kind of number.
pub open spec fn wire_type(ty: ParamType) -> MavParamType {
    match ty {
        ParamType::F32 => MavParamType::Real32,
        ParamType::U32 => MavParamType::Uint32,
    }
}

fn to_wire_type(ty: ParamType) -> (wire: MavParamType)
    ensures
        wire == wire_type(ty),
{
    match ty {
        ParamType::F32 => MavParamType::Real32,
        ParamType::U32 => MavParamType::Uint32,
    }
}

/// Everything needed to report the value of one parameter.
#[derive(Copy, Clone, Debug, PartialEq, Eq)]
pub struct ParamInfo {
    /// Zero-padded parameter name.
    pub name: [u8; 16],
    /// Current value: the bits of the number, whatever kind it is.
    pub value: Single,
    pub ty: MavParamType,
    pub index: u16,
    pub count: u16,
}

/// Why a parameter is not set.
#[derive(Copy, Clone, Debug, PartialEq, Eq, Structural)]
pub enum ParamSetError {
    UnknownParam,
    InvalidValue,
}

/// `info` reports the parameter with this index.
pub open spec fn reports(info: ParamInfo, params: Seq<Param>, index: int) -> bool {
    &&& info.name@ == params[index].name
    &&& info.value.bits == params[index].value.raw()
    &&& info.ty == wire_type(params[index].ty)
    &&& info.index == index
    &&& info.count == params.len()
}

/// Live mirror of the parameters for the parameter protocol. It does not answer until it is
/// initialized, and is updated on every accepted write.
pub struct SharedParams {
    params: Params,
    initialized: bool,
}

/// The outcome of a write, by the parameters before it: `None` where the write is accepted.
pub open spec fn write_error(
    params: Seq<Param>,
    initialized: bool,
    name: Seq<u8>,
    value: Single,
    ty: MavParamType,
) -> Option<ParamSetError> {
    let i = index_by_name(params, name);
    if i >= params.len() {
        Some(ParamSetError::UnknownParam)
    } else if ty != wire_type(params[i].ty) {
        Some(ParamSetError::InvalidValue)
    } else if params[i].ty is F32 && value.nan() {
        Some(ParamSetError::InvalidValue)
    } else if !initialized {
        Some(ParamSetError::UnknownParam)
    } else {
        None
    }
}

impl SharedParams {
    /// The registry is in order: ids are unique, and every value is of the declared kind.
    pub open spec fn wf(self) -> bool {
        &&& self.all().len() <= u16::MAX
        &&& unique_ids(self.all())
        &&& well_typed(self.all())
    }

    /// All parameters with their values.
    pub closed spec fn all(self) -> Seq<Param> {
        self.params.all()
    }

    /// The mirror answers.
    pub closed spec fn is_initialized(self) -> bool {
        self.initialized
    }

    /// A mirror of these parameters that does not answer yet.
    pub fn new(declared: Params) -> (shared: Self)
        requires
            declared.wf(),
            unique_ids(declared.all()),
            well_typed(declared.all()),
        ensures
            shared.wf(),
            shared.all() == declared.all(),
            !shared.is_initialized(),
    {
        SharedParams { params: declared, initialized: false }
    }

    /// Mirrors these parameters from now on.
    pub fn init(&mut self, params: Params)
        requires
            params.wf(),
            unique_ids(params.all()),
            well_typed(params.all()),
        ensures
            final(self).wf(),
            final(self).all() == params.all(),
            final(self).is_initialized(),
    {
        self.params = params;
        self.initialized = true;
    }

    pub fn count(&self) -> (count: u16)
        requires
            self.wf(),
        ensures
            count == self.all().len(),
    {
        self.params.count()
    }

    fn info(&self, index: u16, descriptor: &ParamDescriptor) -> (info: Option<ParamInfo>)
        requires
            self.wf(),
            index < self.all().len(),
            describes(*descriptor, self.all()[index as int]),
        ensures
            match info {
                Some(info) => self.is_initialized() && reports(info, self.all(), index as int),
                None => !self.is_initialized(),
            },
    {
        proof {
            lemma_first_id(self.all(), descriptor.id, index as int);
        }
        if !self.initialized {
            return None;
        }
        match self.params.get(descriptor.id) {
            Some(value) => Some(
                ParamInfo {
                    name: descriptor.name,
                    value: value.to_mavlink(),
                    ty: to_wire_type(descriptor.ty),
                    index,
                    count: self.params.count(),
                },
            ),
            None => None,
        }
    }

    pub fn by_index(&self, index: u16) -> (info: Option<ParamInfo>)
        requires
            self.wf(),
        ensures
            match info {
                Some(info) => self.is_initialized() && index < self.all().len() && reports(
                    info,
                    self.all(),
                    index as int,
                ),
                None => !self.is_initialized() || index >= self.all().len(),
            },
    {
        match self.params.descriptor_by_index(index) {
            Some(descriptor) => self.info(index, &descriptor),
            None => None,
        }
    }

    pub fn by_name(&self, name: &[u8; 16]) -> (info: Option<ParamInfo>)
        requires
            self.wf(),
        ensures
            ({
                let i = index_by_name(self.all(), name@);
                match info {
                    Some(info) => self.is_initialized() && i < self.all().len() && reports(
                        info,
                        self.all(),
                        i,
                    ),
                    None => !self.is_initialized() || i >= self.all().len(),
                }
            }),
    {
        match self.params.by_name(name) {
            Some((index, descriptor)) => self.info(index, &descriptor),
            None => None,
        }
    }

    /// Validate and apply a write. Returns the storage id and raw encoding (for persistence) and
    /// the info to echo back.
    pub fn set(&mut self, name: &[u8; 16], value: Single, ty: MavParamType) -> (result: Result<
        (u16, u32, ParamInfo),
        ParamSetError,
    >)
        requires
            old(self).wf(),
        ensures
            final(self).wf(),
            final(self).is_initialized() == old(self).is_initialized(),
            ({
                let before = old(self).all();
                let i = index_by_name(before, name@);
                let error = write_error(before, old(self).is_initialized(), name@, value, ty);
                match result {
                    Ok((id, raw, info)) => {
                        &&& error is None
                        &&& id == before[i].id
                        &&& raw == value.bits
                        &&& final(self).all() == before.update(
                            i,
                            Param { value: before[i].ty.value_of(value.bits), ..before[i] },
                        )
                        &&& reports(info, final(self).all(), i)
                    },
                    Err(why) => error == Some(why) && final(self).all() == before,
                }
            }),
    {
        let (index, descriptor) = match self.params.by_name(name) {
            Some(found) => found,
            None => return Err(ParamSetError::UnknownParam),
        };
        if ty != to_wire_type(descriptor.ty) {
            return Err(ParamSetError::InvalidValue);
        }
        let decoded = match descriptor.ty.from_mavlink(value) {
            Some(decoded) => decoded,
            None => return Err(ParamSetError::InvalidValue),
        };
        // An uninitialized mirror means boot hasn't finished; don't accept writes we couldn't
        // echo truthfully.
        if !self.initialized {
            return Err(ParamSetError::UnknownParam);
        }
        let ghost before = self.all();
        proof {
            lemma_first_id(before, descriptor.id, index as int);
            let after = with_value(before, descriptor.id, decoded);
            assert forall|i: int, j: int| 0 <= i < j < after.len() implies (#[trigger] after[i]).id
                != (#[trigger] after[j]).id by {
                assert(before[i].id != before[j].id);
            }
            assert forall|i: int| 0 <= i < after.len() implies (#[trigger] after[i]).value.kind()
                == after[i].ty by {
                assert(before[i].value.kind() == before[i].ty);
            }
        }
        let _ = self.params.set(descriptor.id, decoded);
        match self.info(index, &descriptor) {
            Some(info) => Ok((descriptor.id, decoded.encode_raw(), info)),
            None => Err(ParamSetError::UnknownParam),
        }
    }
}

/// A read after an accepted write gives back the bits that were written, even those of a whole
/// number that no float of its size could hold.
pub proof fn law_writes_are_bytewise(
    before: Seq<Param>,
    name: Seq<u8>,
    value: Single,
    ty: MavParamType,
    info: ParamInfo,
)
    requires
        write_error(before, true, name, value, ty) is None,
        ({
            let i = index_by_name(before, name);
            let after = before.update(
                i,
                Param { value: before[i].ty.value_of(value.bits), ..before[i] },
            );
            0 <= i && reports(info, after, i)
        }),
    ensures
        info.value == value,
        info.ty == ty,
{
}

} // verus!
