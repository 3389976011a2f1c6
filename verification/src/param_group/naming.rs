//! What declared parameters are called, and where they stand in their group.

use vstd::prelude::*;

use crate::param_group::{
    args_error, expand_group, field_error, first_field_error, full_name, group_error, group_params,
    ids_of, last_default, last_id, last_name, padded, parse_ids, slot_suffix, suffix, DeclError,
    FieldDecl, GroupTable, IdExpr, ParamArg, ParamType, ParamValue,
};
use crate::single::value::is_number;
use crate::single::Single;

verus! {

/// A field of one slot has no coordinates. The slots of a wider one end in `_X`, `_Y`, `_Z` and
/// `_W`, in this order.
pub proof fn law_slots_are_named_after_coordinates(index: usize, width: usize, end: Vec<u8>)
    requires
        call_ensures(slot_suffix, (index, width), end),
    ensures
        width == 1 ==> end.len() == 0,
        width != 1 ==> {
            &&& end.len() == 2
            &&& end[0] == '_' as u8
            &&& index == 0 ==> end[1] == 'X' as u8
            &&& index == 1 ==> end[1] == 'Y' as u8
            &&& index == 2 ==> end[1] == 'Z' as u8
            &&& index >= 3 ==> end[1] == 'W' as u8
        },
{
    assert(end@ == suffix(index as int, width as int));
}

/// A full name is the prefix, an underscore, the name and the coordinate.
pub proof fn law_names_start_with_the_prefix(
    prefix: Seq<u8>,
    name: Seq<u8>,
    slot: int,
    width: int,
)
    requires
        0 <= slot < width,
    ensures
        ({
            let full = full_name(prefix, name, slot, width);
            let (p, n) = (prefix.len() as int, name.len() as int);
            &&& full.len() == p + 1 + n + if width == 1 {
                0int
            } else {
                2
            }
            &&& full.take(p) == prefix
            &&& full[p] == '_' as u8
            &&& full.subrange(p + 1, p + 1 + n) == name
        }),
{
    let full = full_name(prefix, name, slot, width);
    let (p, n) = (prefix.len() as int, name.len() as int);
    assert(full.take(p) =~= prefix);
    assert(full.subrange(p + 1, p + 1 + n) =~= name);
}

/// Names travel in 16 bytes, and are followed by zeros.
pub proof fn law_names_are_padded_with_zeros(name: Seq<u8>)
    requires
        name.len() <= 16,
    ensures
        padded(name).len() == 16,
        padded(name).take(name.len() as int) == name,
        forall|i: int| name.len() <= i < 16 ==> #[trigger] padded(name)[i] == 0,
{
    assert(padded(name).take(name.len() as int) =~= name);
}

/// A field is well declared where it has at most four slots, one default for each, and names of at
/// most 16 bytes. The first of these that fails is the error.
pub proof fn law_what_a_well_declared_field_is(prefix: Seq<u8>, field: FieldDecl)
    ensures
        ({
            let width = field.ids.len() as int;
            let too_long = field.name.len() + prefix.len() + 1 + (if width == 1 {
                0int
            } else {
                2
            }) > 16;
            &&& field_error(prefix, field) == Some(DeclError::TooWide) <==> width > 4
            &&& field_error(prefix, field) == Some(DeclError::DefaultCount) <==> width <= 4
                && field.defaults.len() != width
            &&& field_error(prefix, field) == Some(DeclError::NameTooLong) <==> 1 <= width <= 4
                && field.defaults.len() == width && too_long
            &&& field_error(prefix, field) is None <==> width <= 4 && field.defaults.len() == width
                && (width >= 1 ==> !too_long)
        }),
{
    let width = field.ids.len() as int;
    if width >= 1 {
        law_names_start_with_the_prefix(prefix, field.name@, 0, width);
    }
    assert forall|slot: int| 0 <= slot < width implies (#[trigger] full_name(
        prefix,
        field.name@,
        slot,
        width,
    )).len() == prefix.len() + 1 + field.name.len() + if width == 1 {
        0int
    } else {
        2
    } by {
        law_names_start_with_the_prefix(prefix, field.name@, slot, width);
    }
}

/// How many slots the first fields have together.
pub open spec fn slots_before(fields: Seq<FieldDecl>, n: int) -> int
    decreases n,
{
    if n <= 0 {
        0
    } else {
        slots_before(fields, n - 1) + fields[n - 1].ids.len()
    }
}

/// A group lists the slots of its fields one after the other: each has the id and the default that
/// were declared for it, the type of its field, and its full name.
pub proof fn law_a_group_lists_every_slot(
    prefix: Seq<u8>,
    fields: Seq<FieldDecl>,
    i: int,
    slot: int,
)
    requires
        0 <= i < fields.len(),
        0 <= slot < fields[i].ids.len(),
    ensures
        group_params(prefix, fields).len() == slots_before(fields, fields.len() as int),
        0 <= slots_before(fields, i),
        slots_before(fields, i) + slot < group_params(prefix, fields).len(),
        ({
            let param = group_params(prefix, fields)[slots_before(fields, i) + slot];
            let full = full_name(prefix, fields[i].name@, slot, fields[i].ids.len() as int);
            &&& param.id == fields[i].ids[slot]
            &&& param.ty == fields[i].ty
            &&& param.value == fields[i].defaults[slot]
            &&& full.len() <= 16 ==> param.name.len() == 16 && param.name.take(full.len() as int)
                == full
        }),
    decreases fields.len(),
{
    let n = fields.len() - 1;
    let rest = fields.drop_last();
    lemma_slots_before(fields, rest, n);
    lemma_group_len(prefix, rest);
    if i < n {
        lemma_slots_before(fields, rest, i);
        assert(rest[i] == fields[i]);
        law_a_group_lists_every_slot(prefix, rest, i, slot);
    }
    let full = full_name(prefix, fields[i].name@, slot, fields[i].ids.len() as int);
    if full.len() <= 16 {
        law_names_are_padded_with_zeros(full);
    }
}

proof fn lemma_slots_before(fields: Seq<FieldDecl>, rest: Seq<FieldDecl>, n: int)
    requires
        0 <= n <= rest.len(),
        rest == fields.drop_last(),
        fields.len() > 0,
    ensures
        slots_before(fields, n) == slots_before(rest, n),
        slots_before(fields, n) >= 0,
    decreases n,
{
    if n > 0 {
        lemma_slots_before(fields, rest, n - 1);
        assert(rest[n - 1] == fields[n - 1]);
    }
}

proof fn lemma_group_len(prefix: Seq<u8>, fields: Seq<FieldDecl>)
    ensures
        group_params(prefix, fields).len() == slots_before(fields, fields.len() as int),
    decreases fields.len(),
{
    if fields.len() > 0 {
        let rest = fields.drop_last();
        lemma_group_len(prefix, rest);
        lemma_slots_before(fields, rest, rest.len() as int);
    }
}

/// A declaration is refused for the first field that is not well declared; where all are, for one
/// whose type has another number of slots, or another kind of number.
pub proof fn law_the_first_mistake_is_reported(
    prefix: &Vec<u8>,
    fields: &Vec<FieldDecl>,
    result: Result<GroupTable, DeclError>,
    i: int,
)
    requires
        call_ensures(expand_group, (prefix, fields), result),
        0 <= i < fields.len(),
        forall|j: int| 0 <= j < i ==> field_error(prefix@, #[trigger] fields[j]) is None,
    ensures
        field_error(prefix@, fields[i]) matches Some(error) ==> result == Err::<
            GroupTable,
            DeclError,
        >(error),
        result is Ok ==> {
            &&& fields[i].ids.len() == fields[i].width
            &&& forall|slot: int| 0 <= slot < fields[i].defaults.len() ==> match (
            #[trigger] fields[i].defaults[slot]) {
                ParamValue::F32(_) => fields[i].ty == ParamType::F32,
                ParamValue::U32(_) => fields[i].ty == ParamType::U32,
            }
        },
{
    if field_error(prefix@, fields[i]) is Some {
        lemma_first_error(prefix@, fields@, i);
    } else if result is Ok {
        assert(group_error(prefix@, fields@) is None);
        assert(crate::param_group::field_fits_type(fields@[i]));
        assert forall|slot: int| 0 <= slot < fields[i].defaults.len() implies match (
        #[trigger] fields[i].defaults[slot]) {
            ParamValue::F32(_) => fields[i].ty == ParamType::F32,
            ParamValue::U32(_) => fields[i].ty == ParamType::U32,
        } by {
            assert(fields@[i].defaults[slot].kind() == fields@[i].ty);
        }
    }
}

proof fn lemma_first_error(prefix: Seq<u8>, fields: Seq<FieldDecl>, i: int)
    requires
        0 <= i < fields.len(),
        forall|j: int| 0 <= j < i ==> field_error(prefix, #[trigger] fields[j]) is None,
        field_error(prefix, fields[i]) is Some,
    ensures
        first_field_error(prefix, fields) == field_error(prefix, fields[i]),
    decreases fields.len(),
{
    let rest = fields.drop_last();
    assert forall|j: int| 0 <= j < i && j < rest.len() implies field_error(
        prefix,
        #[trigger] rest[j],
    ) is None by {
        assert(rest[j] == fields[j]);
    }
    if i < rest.len() {
        assert(rest[i] == fields[i]);
        lemma_first_error(prefix, rest, i);
    } else {
        lemma_no_error(prefix, rest);
    }
}

proof fn lemma_no_error(prefix: Seq<u8>, fields: Seq<FieldDecl>)
    requires
        forall|j: int| 0 <= j < fields.len() ==> field_error(prefix, #[trigger] fields[j]) is None,
    ensures
        first_field_error(prefix, fields) is None,
    decreases fields.len(),
{
    if fields.len() > 0 {
        let rest = fields.drop_last();
        assert forall|j: int| 0 <= j < rest.len() implies field_error(prefix, #[trigger] rest[j])
            is None by {
            assert(rest[j] == fields[j]);
        }
        lemma_no_error(prefix, rest);
        assert(field_error(prefix, fields[fields.len() - 1]) is None);
    }
}

/// A range of ids counts up from its start, and has its end where it is closed. It needs both, and
/// may not be empty.
pub proof fn law_ranges_count_up(expr: &IdExpr, result: Result<Vec<u16>, DeclError>)
    requires
        call_ensures(parse_ids, (expr,), result),
    ensures
        match *expr {
            IdExpr::One(id) => result matches Ok(ids) && ids.len() == 1 && ids[0] == id,
            IdExpr::Range { start: None, .. } => result == Err::<Vec<u16>, DeclError>(
                DeclError::RangeNeedsStart,
            ),
            IdExpr::Range { start: Some(_), end: None, .. } => result == Err::<
                Vec<u16>,
                DeclError,
            >(DeclError::RangeNeedsEnd),
            IdExpr::Range { start: Some(start), end: Some(end), closed } => match result {
                Ok(ids) => {
                    &&& ids.len() > 0
                    &&& ids[0] == start
                    &&& forall|i: int| 0 <= i < ids.len() ==> #[trigger] ids[i] == start + i
                    &&& ids[ids.len() - 1] == if closed {
                        end as int
                    } else {
                        end - 1
                    }
                },
                Err(error) => error == DeclError::EmptyRange && (end < start || (end == start
                    && !closed)),
            },
        },
{
    if let IdExpr::Range { start: Some(start), end: Some(end), closed } = *expr {
        if let Ok(ids) = result {
            assert(ids@ == ids_of(*expr));
            assert forall|i: int| 0 <= i < ids.len() implies #[trigger] ids[i] == start + i by {
                assert(ids@[i] == ids_of(*expr)[i]);
            }
        }
    } else if let IdExpr::One(id) = *expr {
        if let Ok(ids) = result {
            assert(ids@ == seq![id]);
            assert(ids[0] == ids@[0]);
        }
    }
}

/// What was given last counts, and each of the three has to be given.
pub proof fn law_what_was_given_last_counts(args: Seq<ParamArg>, arg: ParamArg)
    ensures
        match arg {
            ParamArg::Id(expr) => last_id(args.push(arg)) == Some(expr),
            _ => last_id(args.push(arg)) == last_id(args),
        },
        match arg {
            ParamArg::Name(name) => last_name(args.push(arg)) == Some(name@),
            _ => last_name(args.push(arg)) == last_name(args),
        },
        match arg {
            ParamArg::Default(values) => last_default(args.push(arg)) == Some(values@),
            _ => last_default(args.push(arg)) == last_default(args),
        },
        last_id(Seq::empty()) is None,
        last_name(Seq::empty()) is None,
        last_default(Seq::empty()) is None,
        arg is Unknown ==> args_error(args.push(arg)) == Some(DeclError::UnknownArgument),
        args_error(args) is None ==> last_id(args) is Some && last_name(args) is Some
            && last_default(args) is Some,
{
    let more = args.push(arg);
    assert(more.drop_last() =~= args);
    if arg is Unknown {
        assert(more[args.len() as int] is Unknown);
    }
}

/// A value keeps its bits wherever it goes: stored and read back, or sent and received. Only what is
/// no number is not taken for a parameter that is a floating-point one.
pub proof fn law_values_keep_their_bits(
    ty: ParamType,
    value: ParamValue,
    raw: u32,
    stored: u32,
    loaded: ParamValue,
    sent: Single,
    received: Option<ParamValue>,
)
    requires
        call_ensures(ParamValue::encode_raw, (&value,), stored),
        call_ensures(ParamType::decode_raw, (&ty, raw), loaded),
        call_ensures(ParamValue::to_mavlink, (&value,), sent),
        call_ensures(ParamType::from_mavlink, (&ty, Single { bits: raw }), received),
    ensures
        match value {
            ParamValue::F32(x) => stored == x.bits,
            ParamValue::U32(n) => stored == n,
        },
        sent.bits == stored,
        match loaded {
            ParamValue::F32(x) => ty == ParamType::F32 && x.bits == raw,
            ParamValue::U32(n) => ty == ParamType::U32 && n == raw,
        },
        received is None <==> ty == ParamType::F32 && !is_number((Single { bits: raw })),
        received matches Some(v) ==> v == loaded,
{
    crate::single::value::law_comparisons_are_by_value(Single { bits: raw }, Single { bits: raw });
}

} // verus!
