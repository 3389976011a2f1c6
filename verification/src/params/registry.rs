//! The parameters by their names, and what becomes of reads and writes.

use vstd::prelude::*;

use crate::param_group::{
    index_by_id, lemma_index_by_id, value_by_id, well_typed, with_value, Param, ParamType,
    ParamValue,
};
use crate::params::{
    applied, index_by_name, reports, unique_ids, write_error, MavParamType, ParamInfo,
    ParamSetError, Params, RecoveryParams, SharedParams,
};
use crate::single::value::{is_number, law_comparisons_are_by_value, unit, value};
use crate::single::Single;

verus! {

/// The 16 bytes hold the text, and zeros after it.
pub open spec fn is_text(bytes: Seq<u8>, text: &str) -> bool {
    &&& bytes.len() == 16
    &&& text@.len() <= 16
    &&& forall|i: int|
        0 <= i < 16 ==> #[trigger] bytes[i] == if i < text@.len() {
            text@[i] as u8
        } else {
            0u8
        }
}

/// The recovery parameters: what they are called, their ids and kinds, and that each stands for its
/// own field.
pub proof fn law_recovery_parameters_by_name(recovery: RecoveryParams)
    ensures
        ({
            let all = recovery.params();
            &&& all.len() == 3
            &&& is_text(all[0].name, "REC_MAIN_ALT")
            &&& all[0].id == 0x200
            &&& all[0].ty == ParamType::F32
            &&& all[0].value == ParamValue::F32(recovery.main_deploy_altitude)
            &&& is_text(all[1].name, "REC_MIN_T_DROGUE")
            &&& all[1].id == 0x201
            &&& all[1].ty == ParamType::U32
            &&& all[1].value == ParamValue::U32(recovery.min_time_to_drogue)
            &&& is_text(all[2].name, "REC_MIN_T_MAIN")
            &&& all[2].id == 0x202
            &&& all[2].ty == ParamType::U32
            &&& all[2].value == ParamValue::U32(recovery.min_time_to_main)
        }),
{
    reveal_strlit("REC_MAIN_ALT");
    reveal_strlit("REC_MIN_T_DROGUE");
    reveal_strlit("REC_MIN_T_MAIN");
    let all = recovery.params();
    assert(is_text(all[0].name, "REC_MAIN_ALT"));
    assert(is_text(all[1].name, "REC_MIN_T_DROGUE"));
    assert(is_text(all[2].name, "REC_MIN_T_MAIN"));
}

/// By default the main parachute is deployed at 400 meters, three seconds after the drogue at the
/// earliest, and the drogue one second after takeoff at the earliest.
pub proof fn law_default_recovery(recovery: RecoveryParams)
    requires
        call_ensures(<RecoveryParams as core::default::Default>::default, (), recovery),
    ensures
        value(recovery.main_deploy_altitude) == 400 * unit(),
        recovery.min_time_to_drogue == 1000,
        recovery.min_time_to_main == 3000,
{
    vstd::arithmetic::power2::lemma2_to64();
    crate::single::value::lemma_is_about(
        recovery.main_deploy_altitude,
        135,
        15,
        0xc8_0000,
        400,
        1,
    );
}

/// A parameter is found by its name where one has it, and that is the first one that does.
pub proof fn law_lookup_by_name(params: Seq<Param>, name: Seq<u8>)
    ensures
        ({
            let i = index_by_name(params, name);
            &&& 0 <= i <= params.len()
            &&& i < params.len() ==> params[i].name == name
            &&& forall|j: int| 0 <= j < i ==> (#[trigger] params[j]).name != name
        }),
    decreases params.len(),
{
    if params.len() > 0 && params[0].name != name {
        let rest = params.drop_first();
        law_lookup_by_name(rest, name);
        let i = index_by_name(params, name);
        assert forall|j: int| 0 <= j < i implies (#[trigger] params[j]).name != name by {
            if j > 0 {
                assert(rest[j - 1] == params[j]);
            }
        }
    }
}

/// A parameter is found by its id where one has it, and that is the first one that does.
pub proof fn law_lookup_by_id(params: Seq<Param>, id: u16)
    ensures
        match value_by_id(params, id) {
            Some(found) => exists|i: int|
                0 <= i < params.len() && (#[trigger] params[i]).id == id && params[i].value == found
                    && forall|j: int| 0 <= j < i ==> (#[trigger] params[j]).id != id,
            None => forall|j: int| 0 <= j < params.len() ==> (#[trigger] params[j]).id != id,
        },
{
    lemma_index_by_id(params, id);
    let i = index_by_id(params, id);
    if i < params.len() {
        assert(params[i].id == id);
    }
}

/// A value is set for the parameter with the id and no other, and only one of its kind. Everything
/// else of every parameter stays.
pub proof fn law_setting_changes_one_value(
    params: Seq<Param>,
    id: u16,
    value: ParamValue,
    i: int,
)
    requires
        unique_ids(params),
        0 <= i < params.len(),
    ensures
        ({
            let after = with_value(params, id, value);
            let same_kind = match value {
                ParamValue::F32(_) => params[i].ty == ParamType::F32,
                ParamValue::U32(_) => params[i].ty == ParamType::U32,
            };
            &&& after.len() == params.len()
            &&& after[i].id == params[i].id
            &&& after[i].name == params[i].name
            &&& after[i].ty == params[i].ty
            &&& after[i].value == if params[i].id == id && same_kind {
                value
            } else {
                params[i].value
            }
        }),
{
    lemma_index_by_id(params, id);
    let k = index_by_id(params, id);
    if params[i].id == id && k != i {
        assert(params[k].id != params[i].id);
    }
}

/// A stored value is applied to the parameter with the id and no other, by the kind of that
/// parameter, with the same bits.
pub proof fn law_applying_changes_one_value(params: Seq<Param>, id: u16, raw: u32, i: int)
    requires
        unique_ids(params),
        0 <= i < params.len(),
    ensures
        ({
            let after = applied(params, id, raw);
            &&& after.len() == params.len()
            &&& after[i].id == params[i].id
            &&& after[i].name == params[i].name
            &&& after[i].ty == params[i].ty
            &&& params[i].id != id ==> after[i].value == params[i].value
            &&& params[i].id == id && params[i].ty == ParamType::F32 ==> after[i].value
                == ParamValue::F32(Single { bits: raw })
            &&& params[i].id == id && params[i].ty == ParamType::U32 ==> after[i].value
                == ParamValue::U32(raw)
        }),
{
    lemma_index_by_id(params, id);
    let k = index_by_id(params, id);
    if params[i].id == id && k != i {
        assert(params[k].id != params[i].id);
    }
    if k < params.len() {
        law_setting_changes_one_value(params, id, params[k].ty.value_of(raw), i);
    }
}

/// A write is accepted where a parameter has the name, its kind on the wire is the parameter's, and
/// a floating-point one is a number. An unknown name, and any write before the mirror answers, is
/// that of an unknown parameter; the rest is invalid.
pub proof fn law_which_writes_are_accepted(
    params: Seq<Param>,
    initialized: bool,
    name: Seq<u8>,
    value: Single,
    ty: MavParamType,
)
    ensures
        ({
            let i = index_by_name(params, name);
            let error = write_error(params, initialized, name, value, ty);
            let known = exists|j: int| 0 <= j < params.len() && (#[trigger] params[j]).name == name;
            let fits = match params[i].ty {
                ParamType::F32 => ty == MavParamType::Real32 && is_number(value),
                ParamType::U32 => ty == MavParamType::Uint32,
            };
            &&& !known ==> error == Some(ParamSetError::UnknownParam)
            &&& known && !fits ==> error == Some(ParamSetError::InvalidValue)
            &&& known && fits && !initialized ==> error == Some(ParamSetError::UnknownParam)
            &&& known && fits && initialized ==> error is None
        }),
{
    law_lookup_by_name(params, name);
    law_comparisons_are_by_value(value, value);
    let i = index_by_name(params, name);
    if i < params.len() {
        assert(params[i].name == name);
    }
}

/// A parameter is reported by its name, the bits of its value, its kind on the wire, and its place
/// among all.
pub proof fn law_what_is_reported_of_a_parameter(info: ParamInfo, params: Seq<Param>, index: int)
    requires
        reports(info, params, index),
        0 <= index < params.len(),
    ensures
        info.name@ == params[index].name,
        match params[index].value {
            ParamValue::F32(x) => info.value.bits == x.bits,
            ParamValue::U32(n) => info.value.bits == n,
        },
        params[index].ty == ParamType::F32 <==> info.ty == MavParamType::Real32,
        params[index].ty == ParamType::U32 <==> info.ty == MavParamType::Uint32,
        info.index == index,
        info.count == params.len(),
{
}

/// A write that is accepted can be read back, with the same bits; one that is refused changes
/// nothing.
pub proof fn law_writes_can_be_read_back(
    store: &mut SharedParams,
    name: &[u8; 16],
    value: Single,
    ty: MavParamType,
    result: Result<(u16, u32, ParamInfo), ParamSetError>,
)
    requires
        (*old(store)).wf(),
        call_ensures(SharedParams::set, (store, name, value, ty), result),
    ensures
        result matches Ok((id, raw, info)) ==> {
            let i = index_by_name((*old(store)).all(), name@);
            &&& raw == value.bits
            &&& info.value == value
            &&& info.ty == ty
            &&& info.name@ == name@
            &&& 0 <= i < (*final(store)).all().len()
            &&& id == (*final(store)).all()[i].id
            &&& (*final(store)).all()[i].value == match ty {
                MavParamType::Real32 => ParamValue::F32(value),
                _ => ParamValue::U32(value.bits),
            }
        },
        result is Err ==> (*final(store)).all() == (*old(store)).all(),
        (*final(store)).is_initialized() == (*old(store)).is_initialized(),
{
    law_lookup_by_name((*old(store)).all(), name@);
}

/// The mirror answers from the time that it is given the parameters of the boot.
pub proof fn law_the_mirror_answers_once_initialized(
    store: &mut SharedParams,
    params: Params,
    declared: Params,
    fresh: SharedParams,
)
    requires
        params.wf() && unique_ids(params.all()) && well_typed(params.all()),
        declared.wf() && unique_ids(declared.all()) && well_typed(declared.all()),
        call_ensures(SharedParams::init, (store, params), ()),
        call_ensures(SharedParams::new, (declared,), fresh),
    ensures
        (*final(store)).is_initialized(),
        (*final(store)).all() == params.all(),
        !fresh.is_initialized(),
        fresh.all() == declared.all(),
{
}

} // verus!
