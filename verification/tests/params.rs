use zenith::links::commands::FrameHeader;
use zenith::links::params::{answer, ParamMessage, ParamRequest};
use zenith::links::uplink::{UplinkCommand, SELF_COMPONENT_ID};
use zenith::param_group::{
    expand_group, parse_ids, parse_param, parse_prefix, slot_suffix, DeclError, FieldDecl,
    GroupArg, GroupAttr, GroupList, GroupTable, IdExpr, ParamArg, ParamType, ParamValue,
};
use zenith::params::{MavParamType, ParamSetError, Params, SharedParams};
use zenith::single::Single;

fn single(value: f32) -> Single {
    Single::from_bits(value.to_bits())
}

fn float(value: f32) -> ParamValue {
    ParamValue::F32(single(value))
}

fn field(id: u16, name: &[u8], default: ParamValue) -> FieldDecl {
    FieldDecl {
        ids: vec![id],
        name: name.to_vec(),
        defaults: vec![default],
        ty: default.ty(),
        width: 1,
    }
}

fn estimator_group() -> GroupTable {
    expand_group(
        &b"SE".to_vec(),
        &vec![
            field(0x0100, b"M_KP", float(0.1)),
            field(0x0101, b"STD_BARO_TS", float(5000.0)),
        ],
    )
    .unwrap()
}

fn default_params() -> Params {
    Params::new(estimator_group()).unwrap()
}

fn name_of(id: u16) -> [u8; 16] {
    default_params().by_id(id).unwrap().name
}

fn text(name: &[u8; 16]) -> String {
    let len = name.iter().position(|b| *b == 0).unwrap_or(16);
    String::from_utf8(name[..len].to_vec()).unwrap()
}

#[test]
fn registry_invariants() {
    // Every declared parameter has a unique id and a unique, <=16 char name.
    let params = default_params();
    assert!(params.is_registry());
    for i in 0..params.count() {
        let a = params.descriptor_by_index(i).unwrap();
        assert!(a.name.is_ascii());
        for j in (i + 1)..params.count() {
            let b = params.descriptor_by_index(j).unwrap();
            assert_ne!(a.id, b.id, "duplicate id {:#x}", a.id);
            assert_ne!(a.name, b.name, "duplicate name {}", text(&a.name));
        }
    }
}

#[test]
fn defaults_match_declared() {
    let s = default_params();
    assert_eq!(s.state_estimator().get(0x0100), Some(float(0.1)));
    assert_eq!(s.state_estimator().get(0x0101), Some(float(5000.0)));
    assert_eq!(s.recovery().main_deploy_altitude, single(400.0));
    assert_eq!(s.recovery().min_time_to_drogue, 1000);
}

#[test]
fn get_set_by_id_routes_across_groups() {
    let mut s = default_params();
    // A state-estimator param and a recovery param, by their ids.
    assert!(s.set(0x0100, float(0.25)));
    assert!(s.set(0x0200, float(250.0)));
    assert!(s.set(0x0201, ParamValue::U32(1500)));
    assert_eq!(s.state_estimator().get(0x0100), Some(float(0.25)));
    assert_eq!(s.recovery().main_deploy_altitude, single(250.0));
    assert_eq!(s.recovery().min_time_to_drogue, 1500);
    assert_eq!(s.get(0x0100), Some(float(0.25)));
    assert_eq!(s.get(0x0200), Some(float(250.0)));
    // Unknown id and wrong-type set are rejected.
    assert!(!s.set(0xffff, float(1.0)));
    assert!(!s.set(0x0200, ParamValue::U32(1)));
    assert_eq!(s.get(0xffff), None);
}

#[test]
fn apply_raw_decodes_by_type() {
    let mut s = default_params();
    s.apply_raw(0x0200, 275.0f32.to_bits());
    s.apply_raw(0x0202, 7000);
    assert_eq!(s.recovery().main_deploy_altitude, single(275.0));
    assert_eq!(s.recovery().min_time_to_main, 7000);
    s.apply_raw(0xffff, 123); // ignored
    assert_eq!(s.recovery().min_time_to_main, 7000);
}

#[test]
fn shared_params_set_applies_and_echoes() {
    let mut store = SharedParams::new(default_params());
    store.init(default_params());

    let name = name_of(0x0200);
    let (id, raw, info) = store
        .set(&name, single(275.0), MavParamType::Real32)
        .unwrap();
    assert_eq!(id, 0x0200);
    assert_eq!(raw, 275.0f32.to_bits());
    assert_eq!(info.value, single(275.0));
    assert_eq!(store.by_name(&name).unwrap().value, single(275.0));

    // u32 params travel bytewise, so the wire float carries the integer's bit pattern rather than
    // its numeric value.
    let name = name_of(0x0201);
    let (_, raw, info) = store
        .set(&name, Single::from_bits(1500), MavParamType::Uint32)
        .unwrap();
    assert_eq!(raw, 1500);
    assert_eq!(info.value.to_bits(), 1500);
}

#[test]
fn shared_params_bytewise_survives_large_u32() {
    let mut store = SharedParams::new(default_params());
    store.init(default_params());

    // The whole point of bytewise: a by-value cast through f32 would round this to the nearest
    // representable float and lose the exact value.
    let large: u32 = 0x0100_0001;
    let name = name_of(0x0201);
    let (_, raw, _) = store
        .set(&name, Single::from_bits(large), MavParamType::Uint32)
        .unwrap();
    assert_eq!(raw, large);
    assert_ne!(large as f32 as u32, large, "cast would have been lossy");
}

#[test]
fn shared_params_rejects_bad_input() {
    let mut store = SharedParams::new(default_params());
    store.init(default_params());

    let f32_name = name_of(0x0200);
    let u32_name = name_of(0x0201);
    assert_eq!(
        store.set(&f32_name, single(1.0), MavParamType::Uint32),
        Err(ParamSetError::InvalidValue)
    );
    assert_eq!(
        store.set(&f32_name, single(f32::NAN), MavParamType::Real32),
        Err(ParamSetError::InvalidValue)
    );
    // Under bytewise encoding every bit pattern is a valid u32, so a u32 param has nothing to
    // reject: the float that reads as -5.0 is just one such pattern.
    assert!(store
        .set(&u32_name, single(-5.0), MavParamType::Uint32)
        .is_ok());
    assert_eq!(
        store.set(&[0xab; 16], single(1.0), MavParamType::Real32),
        Err(ParamSetError::UnknownParam)
    );
}

#[test]
fn shared_params_uninitialized_answers_nothing() {
    let mut store = SharedParams::new(default_params());
    assert!(store.by_index(0).is_none());
    assert_eq!(
        store.set(&name_of(0x0200), single(1.0), MavParamType::Real32),
        Err(ParamSetError::UnknownParam)
    );
}

/// A group with a composite field of three slots and a plain one.
fn vector_group() -> GroupTable {
    let bias = parse_param(
        &[
            ParamArg::Id(IdExpr::Range {
                start: Some(0x0300),
                end: Some(0x0302),
                closed: true,
            }),
            ParamArg::Name(b"BIAS".to_vec()),
            ParamArg::Default(vec![float(1.0), float(2.0), float(3.0)]),
        ],
        ParamType::F32,
        3,
    )
    .unwrap();
    let gain = parse_param(
        &[
            ParamArg::Id(IdExpr::One(0x0303)),
            ParamArg::Name(b"GAIN".to_vec()),
            ParamArg::Default(vec![float(4.0)]),
        ],
        ParamType::F32,
        1,
    )
    .unwrap();
    expand_group(&b"TST".to_vec(), &vec![bias, gain]).unwrap()
}

#[test]
fn composite_vector_field() {
    let mut g = vector_group();
    assert_eq!(g.count(), 4);
    // Names get _X/_Y/_Z suffixes; the scalar has none.
    let names: Vec<String> = (0..4)
        .map(|i| text(&g.descriptor(i).unwrap().name))
        .collect();
    assert_eq!(
        names,
        ["TST_BIAS_X", "TST_BIAS_Y", "TST_BIAS_Z", "TST_GAIN"]
    );

    assert_eq!(g.get(0x0300), Some(float(1.0)));
    assert_eq!(g.get(0x0301), Some(float(2.0)));
    assert_eq!(g.get(0x0302), Some(float(3.0)));
    assert_eq!(g.get(0x0303), Some(float(4.0)));

    // Each vector slot is independently addressable by id.
    assert!(g.set(0x0302, float(9.0)));
    assert_eq!(g.get(0x0300), Some(float(1.0)));
    assert_eq!(g.get(0x0301), Some(float(2.0)));
    assert_eq!(g.get(0x0302), Some(float(9.0)));
}

const SYSTEM_ID: u8 = 0x06;

#[test]
fn reads_are_by_index_unless_it_is_negative() {
    let read = |param_index| {
        ParamRequest::parse(
            &ParamMessage::RequestRead {
                target_system: SYSTEM_ID,
                target_component: SELF_COMPONENT_ID,
                param_id: *b"SM_MAIN_ALT\0\0\0\0\0",
                param_index,
            },
            SYSTEM_ID,
        )
    };

    assert_eq!(read(3), Some(ParamRequest::ReadIndex(3)));
    assert_eq!(
        read(-1),
        Some(ParamRequest::ReadName(*b"SM_MAIN_ALT\0\0\0\0\0"))
    );
}

#[test]
fn only_requests_addressed_to_us_or_broadcast_are_parsed() {
    let list = |target_system, target_component| {
        ParamRequest::parse(
            &ParamMessage::RequestList {
                target_system,
                target_component,
            },
            SYSTEM_ID,
        )
    };

    assert_eq!(list(SYSTEM_ID, SELF_COMPONENT_ID), Some(ParamRequest::List));
    assert_eq!(list(0, 0), Some(ParamRequest::List));
    assert_eq!(list(SYSTEM_ID.wrapping_add(1), 0), None);
    assert_eq!(list(SYSTEM_ID, SELF_COMPONENT_ID.wrapping_add(1)), None);
}

#[test]
fn only_ground_stations_are_answered() {
    let frame = |system_id| FrameHeader {
        system_id,
        component_id: 1,
        sequence: 0,
        body_length: 4,
    };
    let list = ParamMessage::RequestList {
        target_system: 0,
        target_component: 0,
    };
    assert_eq!(
        ParamRequest::receive(&frame(0x7f), Some(&list), SYSTEM_ID),
        Some(ParamRequest::List)
    );
    assert_eq!(
        ParamRequest::receive(&frame(0x7e), Some(&list), SYSTEM_ID),
        None
    );
    assert_eq!(ParamRequest::receive(&frame(0xff), None, SYSTEM_ID), None);
    assert_eq!(
        ParamRequest::receive(&frame(0xff), Some(&ParamMessage::Other), SYSTEM_ID),
        None
    );
}

#[test]
fn accepted_writes_are_echoed_and_forwarded() {
    let mut store = SharedParams::new(default_params());
    store.init(default_params());
    let request = ParamRequest::parse(
        &ParamMessage::SetValue {
            target_system: SYSTEM_ID,
            target_component: SELF_COMPONENT_ID,
            param_id: name_of(0x0201),
            param_value: Single::from_bits(1500),
            param_type: MavParamType::Uint32,
        },
        SYSTEM_ID,
    )
    .unwrap();
    let reply = answer(&request, &mut store);
    assert_eq!(reply.values.len(), 1);
    assert_eq!(reply.values[0].value.to_bits(), 1500);
    assert!(matches!(
        reply.forward,
        Some(UplinkCommand::SetParam {
            id: 0x0201,
            raw: 1500
        })
    ));
}

#[test]
fn refused_writes_answer_with_what_is_there() {
    let mut store = SharedParams::new(default_params());
    store.init(default_params());
    let request = ParamRequest::SetValue {
        name: name_of(0x0200),
        value: single(f32::NAN),
        ty: MavParamType::Real32,
    };
    let reply = answer(&request, &mut store);
    assert!(reply.forward.is_none());
    assert_eq!(reply.values.len(), 1);
    assert_eq!(reply.values[0].value, single(400.0));
}

#[test]
fn lists_of_parameters_are_paced() {
    assert_eq!(ParamRequest::List.pause_ms(), 20);
    assert_eq!(ParamRequest::ReadIndex(0).pause_ms(), 0);
    assert_eq!(ParamRequest::ReadName([0; 16]).pause_ms(), 0);
}

#[test]
fn a_list_request_is_answered_with_every_parameter() {
    let mut store = SharedParams::new(default_params());
    store.init(default_params());
    let reply = answer(&ParamRequest::List, &mut store);
    assert_eq!(reply.values.len(), 5);
    for (i, info) in reply.values.iter().enumerate() {
        assert_eq!(info.index as usize, i);
        assert_eq!(info.count, 5);
    }
    let one = answer(&ParamRequest::ReadIndex(2), &mut store);
    assert_eq!(text(&one.values[0].name), "REC_MAIN_ALT");
    let none = answer(&ParamRequest::ReadIndex(5), &mut store);
    assert!(none.values.is_empty());
    let named = answer(&ParamRequest::ReadName(name_of(0x0202)), &mut store);
    assert_eq!(named.values[0].value.to_bits(), 3000);
}

#[test]
fn bad_declarations_are_rejected() {
    let range = |start, end, closed| parse_ids(&IdExpr::Range { start, end, closed });
    assert_eq!(range(None, Some(3), true), Err(DeclError::RangeNeedsStart));
    assert_eq!(range(Some(3), None, true), Err(DeclError::RangeNeedsEnd));
    assert_eq!(range(Some(3), Some(3), false), Err(DeclError::EmptyRange));
    assert_eq!(range(Some(3), Some(3), true), Ok(vec![3]));
    assert_eq!(range(Some(3), Some(6), false), Ok(vec![3, 4, 5]));
    assert_eq!(
        range(Some(0xfffe), Some(0xffff), true),
        Ok(vec![0xfffe, 0xffff])
    );

    let id = || ParamArg::Id(IdExpr::One(1));
    let name = || ParamArg::Name(b"N".to_vec());
    let default = || ParamArg::Default(vec![ParamValue::U32(1)]);
    let parse = |args: Vec<ParamArg>| parse_param(&args, ParamType::U32, 1).err();
    assert_eq!(parse(vec![name(), default()]), Some(DeclError::MissingId));
    assert_eq!(parse(vec![id(), default()]), Some(DeclError::MissingName));
    assert_eq!(parse(vec![id(), name()]), Some(DeclError::MissingDefault));
    assert_eq!(
        parse(vec![id(), name(), default(), ParamArg::Unknown]),
        Some(DeclError::UnknownArgument)
    );
    assert_eq!(parse(vec![id(), name(), default()]), None);

    let group = |field: FieldDecl| expand_group(&b"GRP".to_vec(), &vec![field]).err();
    let wide = FieldDecl {
        ids: vec![1, 2, 3, 4, 5],
        name: b"N".to_vec(),
        defaults: vec![float(0.0); 5],
        ty: ParamType::F32,
        width: 5,
    };
    assert_eq!(group(wide), Some(DeclError::TooWide));
    let short = FieldDecl {
        ids: vec![1, 2],
        name: b"N".to_vec(),
        defaults: vec![float(0.0)],
        ty: ParamType::F32,
        width: 2,
    };
    assert_eq!(group(short), Some(DeclError::DefaultCount));
    assert_eq!(
        group(field(1, b"EXACTLY_12_X", float(0.0))),
        None,
        "a name of sixteen characters fits"
    );
    assert_eq!(
        group(field(1, b"EXACTLY_13_XX", float(0.0))),
        Some(DeclError::NameTooLong)
    );
    let narrow = FieldDecl {
        ids: vec![1],
        name: b"N".to_vec(),
        defaults: vec![float(0.0)],
        ty: ParamType::F32,
        width: 3,
    };
    assert_eq!(group(narrow), Some(DeclError::WidthMismatch));
}

#[test]
fn the_prefix_is_that_of_the_first_declaration() {
    let attr = |args: Vec<GroupArg>| GroupAttr::ParamGroup(args);
    let prefix = |text: &[u8]| GroupArg::Prefix(text.to_vec());
    assert_eq!(parse_prefix(&[]), Err(DeclError::MissingGroup));
    assert_eq!(
        parse_prefix(&[GroupAttr::Other, attr(vec![prefix(b"A")]), attr(vec![])]),
        Ok(b"A".to_vec())
    );
    assert_eq!(
        parse_prefix(&[attr(vec![]), attr(vec![prefix(b"A")])]),
        Err(DeclError::MissingPrefix)
    );
    assert_eq!(
        parse_prefix(&[attr(vec![prefix(b"A"), GroupArg::Unknown])]),
        Err(DeclError::UnknownArgument)
    );
}

#[test]
fn slots_are_named_by_their_coordinates() {
    assert_eq!(slot_suffix(0, 1), b"".to_vec());
    assert_eq!(slot_suffix(0, 3), b"_X".to_vec());
    assert_eq!(slot_suffix(1, 3), b"_Y".to_vec());
    assert_eq!(slot_suffix(2, 3), b"_Z".to_vec());
    assert_eq!(slot_suffix(3, 4), b"_W".to_vec());
}

#[test]
fn several_groups_are_one_table() {
    let mut list = GroupList {
        groups: vec![estimator_group(), vector_group()],
    };
    assert_eq!(text(&list.descriptor(0).unwrap().name), "SE_M_KP");
    assert_eq!(text(&list.descriptor(5).unwrap().name), "TST_GAIN");
    assert!(list.descriptor(6).is_none());
    assert_eq!(list.get(0x0303), Some(float(4.0)));
    assert!(list.set(0x0303, float(5.0)));
    assert_eq!(list.get(0x0303), Some(float(5.0)));
    assert_eq!(list.get(0x0100), Some(float(0.1)));
    assert!(!list.set(0x0303, ParamValue::U32(5)));
}

#[test]
fn values_keep_their_bits() {
    assert_eq!(float(275.0).encode_raw(), 275.0f32.to_bits());
    assert_eq!(ParamType::F32.decode_raw(275.0f32.to_bits()), float(275.0));
    assert_eq!(ParamType::U32.decode_raw(7), ParamValue::U32(7));
    assert_eq!(ParamType::F32.from_mavlink(single(f32::NAN)), None);
    assert_eq!(
        ParamType::F32.from_mavlink(single(f32::INFINITY)),
        Some(float(f32::INFINITY))
    );
    assert_eq!(ParamValue::U32(9).to_mavlink(), Single::from_bits(9));
}
