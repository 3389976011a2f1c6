//! How a group of parameters is declared, and what a declaration expands to.
//!
//! A group has a prefix and a list of fields. A field has one id per slot, a name and one default
//! value per slot; a field of several slots is a vector, and its slots are named after the
//! coordinates.

use vstd::prelude::*;

use crate::single::Single;

pub mod naming;

verus! {

/// The longest name of a parameter, in bytes.
pub const NAME_LEN: usize = 16;

/// The most slots a field may have.
pub const MAX_WIDTH: usize = 4;

/// What kind of number a parameter is.
#[derive(Copy, Clone, Debug, PartialEq, Eq, Structural)]
pub enum ParamType {
    F32,
    U32,
}

/// The value of a parameter.
#[derive(Copy, Clone, Debug, PartialEq, Eq, Structural)]
pub enum ParamValue {
    F32(Single),
    U32(u32),
}

impl ParamValue {
    /// What kind of number the value is.
    pub open spec fn kind(self) -> ParamType {
        match self {
            ParamValue::F32(_) => ParamType::F32,
            ParamValue::U32(_) => ParamType::U32,
        }
    }

    /// The bits of the value.
    pub open spec fn raw(self) -> u32 {
        match self {
            ParamValue::F32(value) => value.bits,
            ParamValue::U32(value) => value,
        }
    }

    /// What kind of number the value is.
    pub fn ty(&self) -> (ty: ParamType)
        ensures
            ty == self.kind(),
    {
        match self {
            ParamValue::F32(_) => ParamType::F32,
            ParamValue::U32(_) => ParamType::U32,
        }
    }

    /// The value as it is stored.
    pub fn encode_raw(&self) -> (raw: u32)
        ensures
            raw == self.raw(),
    {
        match self {
            ParamValue::F32(value) => value.bits,
            ParamValue::U32(value) => *value,
        }
    }

    /// The value as it travels: the field for a number carries its bits, whatever kind it is.
    pub fn to_mavlink(&self) -> (value: Single)
        ensures
            value.bits == self.raw(),
    {
        Single { bits: self.encode_raw() }
    }
}

impl ParamType {
    /// The value with these bits.
    pub open spec fn value_of(self, raw: u32) -> ParamValue {
        match self {
            ParamType::F32 => ParamValue::F32(Single { bits: raw }),
            ParamType::U32 => ParamValue::U32(raw),
        }
    }

    /// The value that is stored as `raw`.
    pub fn decode_raw(&self, raw: u32) -> (value: ParamValue)
        ensures
            value == self.value_of(raw),
    {
        match self {
            ParamType::F32 => ParamValue::F32(Single { bits: raw }),
            ParamType::U32 => ParamValue::U32(raw),
        }
    }

    /// The value that travelled as `value`. A floating-point parameter has to be a number; every
    /// bit pattern is a whole number.
    pub fn from_mavlink(&self, value: Single) -> (decoded: Option<ParamValue>)
        ensures
            decoded == (if self is F32 && value.nan() {
                None
            } else {
                Some(self.value_of(value.bits))
            }),
    {
        match self {
            ParamType::F32 => if value.is_nan() {
                None
            } else {
                Some(ParamValue::F32(value))
            },
            ParamType::U32 => Some(ParamValue::U32(value.bits)),
        }
    }
}

/// What is declared of a parameter.
#[derive(Copy, Clone, Debug, PartialEq, Eq)]
pub struct ParamDescriptor {
    /// The stable id.
    pub id: u16,
    /// The name, padded with zeros.
    pub name: [u8; 16],
    pub ty: ParamType,
}

/// The ids of a field, as they are written down.
#[derive(Copy, Clone, Debug, PartialEq, Eq, Structural)]
pub enum IdExpr {
    One(u16),
    /// A range, which may lack either end and may include its end or not.
    Range { start: Option<u16>, end: Option<u16>, closed: bool },
}

/// What is wrong with the declaration of a field.
#[derive(Copy, Clone, Debug, PartialEq, Eq, Structural)]
pub enum DeclError {
    /// No attribute declares a group.
    MissingGroup,
    /// The attribute that declares a group gives no prefix.
    MissingPrefix,
    /// The argument is not known.
    UnknownArgument,
    MissingId,
    MissingName,
    MissingDefault,
    /// The id range needs a start.
    RangeNeedsStart,
    /// The id range needs an end.
    RangeNeedsEnd,
    /// The id range is empty.
    EmptyRange,
    /// The field is wider than [`MAX_WIDTH`] slots.
    TooWide,
    /// There is not one default value per id.
    DefaultCount,
    /// A name is longer than [`NAME_LEN`] bytes.
    NameTooLong,
    /// The number of ids is not that of the slots of the field's type.
    WidthMismatch,
}

/// The ids that the expression stands for.
pub open spec fn ids_of(expr: IdExpr) -> Seq<u16> {
    match expr {
        IdExpr::One(id) => seq![id],
        IdExpr::Range { start, end, closed } => {
            let last = if closed {
                end->0 + 1
            } else {
                end->0 as int
            };
            Seq::new(
                (if last > start->0 {
                    last - start->0
                } else {
                    0
                }) as nat,
                |i: int| (start->0 + i) as u16,
            )
        },
    }
}

/// What is wrong with the ids.
pub open spec fn ids_error(expr: IdExpr) -> Option<DeclError> {
    match expr {
        IdExpr::One(_) => None,
        IdExpr::Range { start, end, closed: _ } => if start is None {
            Some(DeclError::RangeNeedsStart)
        } else if end is None {
            Some(DeclError::RangeNeedsEnd)
        } else if ids_of(expr).len() == 0 {
            Some(DeclError::EmptyRange)
        } else {
            None
        },
    }
}

/// The ids that the expression stands for.
pub fn parse_ids(expr: &IdExpr) -> (result: Result<Vec<u16>, DeclError>)
    ensures
        match result {
            Ok(ids) => ids_error(*expr) is None && ids@ == ids_of(*expr),
            Err(error) => ids_error(*expr) == Some(error),
        },
{
    match *expr {
        IdExpr::One(id) => Ok(vec![id]),
        IdExpr::Range { start, end, closed } => {
            let start: u16 = match start {
                Some(start) => start,
                None => return Err(DeclError::RangeNeedsStart),
            };
            let end: u16 = match end {
                Some(end) => end,
                None => return Err(DeclError::RangeNeedsEnd),
            };
            let last: u32 = if closed {
                end as u32 + 1
            } else {
                end as u32
            };
            let mut ids: Vec<u16> = Vec::new();
            let mut id: u32 = start as u32;
            while id < last
                invariant
                    start <= id,
                    id <= last || ids.len() == 0,
                    last <= 0x1_0000,
                    ids.len() == id - start,
                    forall|i: int| 0 <= i < ids.len() ==> #[trigger] ids[i] == start + i,
                decreases last - id,
            {
                ids.push(id as u16);
                id += 1;
            }
            if ids.len() == 0 {
                return Err(DeclError::EmptyRange);
            }
            assert(ids@ =~= ids_of(*expr));
            Ok(ids)
        },
    }
}

/// One argument of a group's declaration.
#[derive(Debug, PartialEq, Eq)]
pub enum GroupArg {
    Prefix(Vec<u8>),
    Unknown,
}

/// An attribute of a struct: its arguments, where it declares a group.
#[derive(Debug, PartialEq, Eq)]
pub enum GroupAttr {
    ParamGroup(Vec<GroupArg>),
    Other,
}

/// The arguments of the first attribute that declares a group.
pub open spec fn group_args(attrs: Seq<GroupAttr>) -> Option<Seq<GroupArg>>
    decreases attrs.len(),
{
    if attrs.len() == 0 {
        None
    } else {
        match attrs[0] {
            GroupAttr::ParamGroup(args) => Some(args@),
            GroupAttr::Other => group_args(attrs.drop_first()),
        }
    }
}

/// The last prefix given.
pub open spec fn last_prefix(args: Seq<GroupArg>) -> Option<Seq<u8>>
    decreases args.len(),
{
    if args.len() == 0 {
        None
    } else {
        match args.last() {
            GroupArg::Prefix(prefix) => Some(prefix@),
            GroupArg::Unknown => last_prefix(args.drop_last()),
        }
    }
}

/// What is wrong with the declaration of the prefix.
pub open spec fn prefix_error(attrs: Seq<GroupAttr>) -> Option<DeclError> {
    match group_args(attrs) {
        None => Some(DeclError::MissingGroup),
        Some(args) => if exists|i: int| 0 <= i < args.len() && #[trigger] args[i] is Unknown {
            Some(DeclError::UnknownArgument)
        } else if last_prefix(args) is None {
            Some(DeclError::MissingPrefix)
        } else {
            None
        },
    }
}

/// Reads the prefix of a group's names out of the attributes of a struct. Only the first one that
/// declares a group counts.
pub fn parse_prefix(attrs: &[GroupAttr]) -> (result: Result<Vec<u8>, DeclError>)
    ensures
        match result {
            Ok(prefix) => prefix_error(attrs@) is None && last_prefix(group_args(attrs@)->0) == Some(
                prefix@,
            ),
            Err(error) => prefix_error(attrs@) == Some(error),
        },
{
    let mut k: usize = 0;
    assert(attrs@.skip(0) =~= attrs@);
    while k < attrs.len()
        invariant
            k <= attrs.len(),
            group_args(attrs@) == group_args(attrs@.skip(k as int)),
        decreases attrs.len() - k,
    {
        assert(attrs@.skip(k as int).drop_first() =~= attrs@.skip(k + 1));
        match &attrs[k] {
            GroupAttr::ParamGroup(args) => {
                let mut prefix: Option<&Vec<u8>> = None;
                let mut i: usize = 0;
                while i < args.len()
                    invariant
                        i <= args.len(),
                        group_args(attrs@) == Some(args@),
                        match prefix {
                            Some(prefix) => last_prefix(args@.take(i as int)) == Some(prefix@),
                            None => last_prefix(args@.take(i as int)) is None,
                        },
                        forall|j: int| 0 <= j < i ==> !(#[trigger] args[j] is Unknown),
                    decreases args.len() - i,
                {
                    assert(args@.take(i + 1).drop_last() =~= args@.take(i as int));
                    match &args[i] {
                        GroupArg::Prefix(text) => {
                            prefix = Some(text);
                        },
                        GroupArg::Unknown => {
                            assert(args@[i as int] is Unknown);
                            return Err(DeclError::UnknownArgument);
                        },
                    }
                    i += 1;
                }
                assert(args@.take(i as int) =~= args@);
                return match prefix {
                    Some(prefix) => Ok(copy_bytes(prefix)),
                    None => Err(DeclError::MissingPrefix),
                };
            },
            GroupAttr::Other => {},
        }
        k += 1;
    }
    Err(DeclError::MissingGroup)
}

/// One argument of a field's declaration.
#[derive(Debug, PartialEq, Eq)]
pub enum ParamArg {
    Id(IdExpr),
    Name(Vec<u8>),
    /// One value, or one per slot.
    Default(Vec<ParamValue>),
    Unknown,
}

/// What is declared of a field.
#[derive(Debug, PartialEq, Eq)]
pub struct FieldDecl {
    /// One id per slot.
    pub ids: Vec<u16>,
    pub name: Vec<u8>,
    /// One value per slot.
    pub defaults: Vec<ParamValue>,
    pub ty: ParamType,
    /// How many slots the type of the field has.
    pub width: usize,
}

/// The last id given.
pub open spec fn last_id(args: Seq<ParamArg>) -> Option<IdExpr>
    decreases args.len(),
{
    if args.len() == 0 {
        None
    } else {
        match args.last() {
            ParamArg::Id(expr) => Some(expr),
            _ => last_id(args.drop_last()),
        }
    }
}

/// The last name given.
pub open spec fn last_name(args: Seq<ParamArg>) -> Option<Seq<u8>>
    decreases args.len(),
{
    if args.len() == 0 {
        None
    } else {
        match args.last() {
            ParamArg::Name(name) => Some(name@),
            _ => last_name(args.drop_last()),
        }
    }
}

/// The last default given.
pub open spec fn last_default(args: Seq<ParamArg>) -> Option<Seq<ParamValue>>
    decreases args.len(),
{
    if args.len() == 0 {
        None
    } else {
        match args.last() {
            ParamArg::Default(values) => Some(values@),
            _ => last_default(args.drop_last()),
        }
    }
}

/// What is wrong with the arguments.
pub open spec fn args_error(args: Seq<ParamArg>) -> Option<DeclError> {
    if exists|i: int| 0 <= i < args.len() && #[trigger] args[i] is Unknown {
        Some(DeclError::UnknownArgument)
    } else if last_id(args) is None {
        Some(DeclError::MissingId)
    } else if last_name(args) is None {
        Some(DeclError::MissingName)
    } else if last_default(args) is None {
        Some(DeclError::MissingDefault)
    } else {
        ids_error(last_id(args)->0)
    }
}

/// Reads the declaration of a field of this type out of its arguments. Of an argument that is
/// given twice the last one counts.
pub fn parse_param(args: &[ParamArg], ty: ParamType, width: usize) -> (result: Result<
    FieldDecl,
    DeclError,
>)
    ensures
        match result {
            Ok(field) => {
                &&& args_error(args@) is None
                &&& field.ids@ == ids_of(last_id(args@)->0)
                &&& field.name@ == last_name(args@)->0
                &&& field.defaults@ == last_default(args@)->0
                &&& field.ty == ty
                &&& field.width == width
            },
            Err(error) => args_error(args@) == Some(error),
        },
{
    let mut id: Option<IdExpr> = None;
    let mut name: Option<&Vec<u8>> = None;
    let mut default: Option<&Vec<ParamValue>> = None;
    let mut i: usize = 0;
    while i < args.len()
        invariant
            i <= args.len(),
            id == last_id(args@.take(i as int)),
            match name {
                Some(name) => last_name(args@.take(i as int)) == Some(name@),
                None => last_name(args@.take(i as int)) is None,
            },
            match default {
                Some(values) => last_default(args@.take(i as int)) == Some(values@),
                None => last_default(args@.take(i as int)) is None,
            },
            forall|j: int| 0 <= j < i ==> !(#[trigger] args[j] is Unknown),
        decreases args.len() - i,
    {
        assert(args@.take(i + 1).drop_last() =~= args@.take(i as int));
        match &args[i] {
            ParamArg::Id(expr) => {
                id = Some(*expr);
            },
            ParamArg::Name(text) => {
                name = Some(text);
            },
            ParamArg::Default(values) => {
                default = Some(values);
            },
            ParamArg::Unknown => {
                assert(args@[i as int] is Unknown);
                return Err(DeclError::UnknownArgument);
            },
        }
        i += 1;
    }
    assert(args@.take(i as int) =~= args@);
    match (id, name, default) {
        (None, _, _) => Err(DeclError::MissingId),
        (Some(_), None, _) => Err(DeclError::MissingName),
        (Some(_), Some(_), None) => Err(DeclError::MissingDefault),
        (Some(id), Some(name), Some(default)) => match parse_ids(&id) {
            Ok(ids) => Ok(
                FieldDecl { ids, name: copy_bytes(name), defaults: copy_values(default), ty, width },
            ),
            Err(error) => Err(error),
        },
    }
}

fn copy_bytes(bytes: &Vec<u8>) -> (copy: Vec<u8>)
    ensures
        copy@ == bytes@,
{
    let mut copy: Vec<u8> = Vec::new();
    let mut i: usize = 0;
    while i < bytes.len()
        invariant
            i <= bytes.len(),
            copy@ == bytes@.take(i as int),
        decreases bytes.len() - i,
    {
        copy.push(bytes[i]);
        i += 1;
    }
    assert(bytes@.take(i as int) =~= bytes@);
    copy
}

fn copy_values(values: &Vec<ParamValue>) -> (copy: Vec<ParamValue>)
    ensures
        copy@ == values@,
{
    let mut copy: Vec<ParamValue> = Vec::new();
    let mut i: usize = 0;
    while i < values.len()
        invariant
            i <= values.len(),
            copy@ == values@.take(i as int),
        decreases values.len() - i,
    {
        copy.push(values[i]);
        i += 1;
    }
    assert(values@.take(i as int) =~= values@);
    copy
}

/// The end of a slot's name: none for a field of one slot, else the coordinate.
pub open spec fn suffix(index: int, width: int) -> Seq<u8> {
    if width == 1 {
        Seq::empty()
    } else if index == 0 {
        seq![0x5fu8, 0x58u8]
    } else if index == 1 {
        seq![0x5fu8, 0x59u8]
    } else if index == 2 {
        seq![0x5fu8, 0x5au8]
    } else {
        seq![0x5fu8, 0x57u8]
    }
}

/// The end of a slot's name: nothing, or one of `_X`, `_Y`, `_Z` and `_W`.
pub fn slot_suffix(index: usize, width: usize) -> (end: Vec<u8>)
    ensures
        end@ == suffix(index as int, width as int),
{
    if width == 1 {
        let end: Vec<u8> = Vec::new();
        assert(end@ =~= suffix(index as int, width as int));
        return end;
    }
    let coordinate: u8 = match index {
        0 => 0x58,
        1 => 0x59,
        2 => 0x5a,
        _ => 0x57,
    };
    let end: Vec<u8> = vec![0x5f, coordinate];
    assert(end@ =~= suffix(index as int, width as int));
    end
}

/// The full name of a slot: prefix, name and coordinate.
pub open spec fn full_name(prefix: Seq<u8>, name: Seq<u8>, slot: int, width: int) -> Seq<u8> {
    prefix + seq![0x5fu8] + name + suffix(slot, width)
}

/// The name filled up with zeros.
pub open spec fn padded(name: Seq<u8>) -> Seq<u8> {
    Seq::new(
        NAME_LEN as nat,
        |i: int|
            if i < name.len() {
                name[i]
            } else {
                0u8
            },
    )
}

/// A parameter with its value.
pub struct Param {
    pub id: u16,
    /// The name, padded with zeros.
    pub name: Seq<u8>,
    pub ty: ParamType,
    pub value: ParamValue,
}

/// What is wrong with a field, apart from its type.
pub open spec fn field_error(prefix: Seq<u8>, field: FieldDecl) -> Option<DeclError> {
    let width = field.ids.len() as int;
    if width > MAX_WIDTH {
        Some(DeclError::TooWide)
    } else if field.defaults.len() != width {
        Some(DeclError::DefaultCount)
    } else if exists|slot: int|
        0 <= slot < width && (#[trigger] full_name(prefix, field.name@, slot, width)).len()
            > NAME_LEN {
        Some(DeclError::NameTooLong)
    } else {
        None
    }
}

/// The type of the field has one slot per id, and the default values are of its kind.
pub open spec fn field_fits_type(field: FieldDecl) -> bool {
    &&& field.ids.len() == field.width
    &&& forall|i: int| 0 <= i < field.defaults.len() ==> (#[trigger] field.defaults[i]).kind()
        == field.ty
}

/// What is wrong with a declaration: the first mistake in a field, and only where there is none a
/// field that does not fit its type.
pub open spec fn group_error(prefix: Seq<u8>, fields: Seq<FieldDecl>) -> Option<DeclError> {
    match first_field_error(prefix, fields) {
        Some(error) => Some(error),
        None => if exists|i: int|
            0 <= i < fields.len() && !field_fits_type(#[trigger] fields[i]) {
            Some(DeclError::WidthMismatch)
        } else {
            None
        },
    }
}

/// The first mistake in a field.
pub open spec fn first_field_error(prefix: Seq<u8>, fields: Seq<FieldDecl>) -> Option<DeclError>
    decreases fields.len(),
{
    if fields.len() == 0 {
        None
    } else {
        match first_field_error(prefix, fields.drop_last()) {
            Some(error) => Some(error),
            None => field_error(prefix, fields.last()),
        }
    }
}

/// The parameters of a field.
pub open spec fn field_params(prefix: Seq<u8>, field: FieldDecl) -> Seq<Param> {
    Seq::new(
        field.ids.len() as nat,
        |slot: int|
            Param {
                id: field.ids[slot],
                name: padded(full_name(prefix, field.name@, slot, field.ids.len() as int)),
                ty: field.ty,
                value: field.defaults[slot],
            },
    )
}

/// The parameters of a group: those of its fields, in order.
pub open spec fn group_params(prefix: Seq<u8>, fields: Seq<FieldDecl>) -> Seq<Param>
    decreases fields.len(),
{
    if fields.len() == 0 {
        Seq::empty()
    } else {
        group_params(prefix, fields.drop_last()) + field_params(prefix, fields.last())
    }
}

/// A group of parameters, with their values.
pub struct GroupTable {
    descriptors: Vec<ParamDescriptor>,
    values: Vec<ParamValue>,
}

impl View for GroupTable {
    type V = Seq<Param>;

    closed spec fn view(&self) -> Seq<Param> {
        Seq::new(
            self.descriptors.len() as nat,
            |i: int|
                Param {
                    id: self.descriptors[i].id,
                    name: self.descriptors[i].name@,
                    ty: self.descriptors[i].ty,
                    value: self.values[i],
                },
        )
    }
}

/// The index of the first parameter with the id; the number of parameters where there is none.
pub open spec fn index_by_id(params: Seq<Param>, id: u16) -> int
    decreases params.len(),
{
    if params.len() == 0 {
        0
    } else if params[0].id == id {
        0
    } else {
        1 + index_by_id(params.drop_first(), id)
    }
}

/// The value of the parameter with the id.
pub open spec fn value_by_id(params: Seq<Param>, id: u16) -> Option<ParamValue> {
    let i = index_by_id(params, id);
    if i < params.len() {
        Some(params[i].value)
    } else {
        None
    }
}

/// The parameters once the one with the id has the value, where it exists and is of that kind.
pub open spec fn with_value(params: Seq<Param>, id: u16, value: ParamValue) -> Seq<Param> {
    let i = index_by_id(params, id);
    if i < params.len() && params[i].ty == value.kind() {
        params.update(i, Param { value, ..params[i] })
    } else {
        params
    }
}

/// A parameter with the id exists and is of the kind of the value.
pub open spec fn accepts(params: Seq<Param>, id: u16, value: ParamValue) -> bool {
    let i = index_by_id(params, id);
    i < params.len() && params[i].ty == value.kind()
}

pub proof fn lemma_index_by_id(params: Seq<Param>, id: u16)
    ensures
        0 <= index_by_id(params, id) <= params.len(),
        index_by_id(params, id) < params.len() ==> params[index_by_id(params, id)].id == id,
        forall|i: int| 0 <= i < index_by_id(params, id) ==> (#[trigger] params[i]).id != id,
    decreases params.len(),
{
    if params.len() > 0 && params[0].id != id {
        lemma_index_by_id(params.drop_first(), id);
        assert forall|i: int| 0 <= i < index_by_id(params, id) implies (#[trigger] params[i]).id
            != id by {
            if i > 0 {
                assert(params.drop_first()[i - 1] == params[i]);
            }
        }
    }
}

/// The index is the first with the id.
proof fn lemma_first_index(params: Seq<Param>, id: u16, i: int)
    requires
        0 <= i <= params.len(),
        forall|j: int| 0 <= j < i ==> (#[trigger] params[j]).id != id,
        i < params.len() ==> params[i].id == id,
    ensures
        index_by_id(params, id) == i,
{
    lemma_index_by_id(params, id);
    let k = index_by_id(params, id);
    if k < i {
        assert(params[k].id != id);
    } else if i < k {
        assert(params[i].id != id);
    }
}

/// Every value is of the kind that is declared.
pub open spec fn well_typed(params: Seq<Param>) -> bool {
    forall|i: int| 0 <= i < params.len() ==> (#[trigger] params[i]).value.kind() == params[i].ty
}

/// A read gives back what was written, and leaves every other parameter as it was.
pub proof fn law_get_after_set(params: Seq<Param>, id: u16, value: ParamValue, other: u16)
    ensures
        accepts(params, id, value) ==> value_by_id(with_value(params, id, value), id) == Some(
            value,
        ),
        other != id ==> value_by_id(with_value(params, id, value), other) == value_by_id(
            params,
            other,
        ),
        !accepts(params, id, value) ==> with_value(params, id, value) == params,
{
    let after = with_value(params, id, value);
    let i = index_by_id(params, id);
    lemma_index_by_id(params, id);
    lemma_index_by_id(params, other);
    assert forall|j: int| 0 <= j < params.len() implies (#[trigger] after[j]).id == params[j].id by {
    }
    lemma_first_index(after, id, i);
    lemma_first_index(after, other, index_by_id(params, other));
}

impl GroupTable {
    #[verifier::type_invariant]
    spec fn inv(self) -> bool {
        &&& self.descriptors.len() == self.values.len()
        &&& well_typed(self@)
    }

    /// How many parameters the group has.
    pub fn count(&self) -> (count: usize)
        ensures
            count == self@.len(),
            well_typed(self@),
    {
        proof {
            use_type_invariant(self);
        }
        self.descriptors.len()
    }

    /// What is declared of the parameter with this index.
    pub fn descriptor(&self, index: usize) -> (descriptor: Option<ParamDescriptor>)
        ensures
            match descriptor {
                Some(d) => index < self@.len() && d.id == self@[index as int].id && d.name@
                    == self@[index as int].name && d.ty == self@[index as int].ty,
                None => index >= self@.len(),
            },
    {
        if index < self.descriptors.len() {
            Some(self.descriptors[index])
        } else {
            None
        }
    }

    /// The index of the first parameter with the id.
    fn find(&self, id: u16) -> (found: usize)
        ensures
            found == index_by_id(self@, id),
    {
        let mut i: usize = 0;
        while i < self.descriptors.len()
            invariant
                i <= self.descriptors.len(),
                forall|j: int| 0 <= j < i ==> (#[trigger] self@[j]).id != id,
            ensures
                i < self.descriptors.len() ==> self@[i as int].id == id,
            decreases self.descriptors.len() - i,
        {
            if self.descriptors[i].id == id {
                break ;
            }
            i += 1;
        }
        proof {
            lemma_first_index(self@, id, i as int);
        }
        i
    }

    /// The value of the parameter with the id.
    pub fn get(&self, id: u16) -> (value: Option<ParamValue>)
        ensures
            value == value_by_id(self@, id),
    {
        proof {
            use_type_invariant(self);
        }
        let i: usize = self.find(id);
        if i < self.values.len() {
            Some(self.values[i])
        } else {
            None
        }
    }

    /// Sets the parameter with the id, where it exists and is of the kind of the value.
    pub fn set(&mut self, id: u16, value: ParamValue) -> (done: bool)
        ensures
            done == accepts(old(self)@, id, value),
            final(self)@ == with_value(old(self)@, id, value),
    {
        proof {
            use_type_invariant(&*self);
        }
        let i: usize = self.find(id);
        if i < self.values.len() && self.descriptors[i].ty == value.ty() {
            let mut table = GroupTable { descriptors: Vec::new(), values: Vec::new() };
            std::mem::swap(self, &mut table);
            let GroupTable { descriptors, mut values } = table;
            values.set(i, value);
            proof {
                let after = GroupTable { descriptors, values };
                assert(after@ =~= with_value(old(self)@, id, value));
                assert forall|k: int| 0 <= k < after@.len() implies (#[trigger] after@[k]).value.kind()
                    == after@[k].ty by {
                    assert(old(self)@[k].value.kind() == old(self)@[k].ty);
                }
            }
            *self = GroupTable { descriptors, values };
            true
        } else {
            false
        }
    }
}

/// The name with zeros behind it, where it fits.
fn pad_name(name: &Vec<u8>) -> (field: Option<[u8; 16]>)
    ensures
        match field {
            Some(field) => name.len() <= NAME_LEN && field@ == padded(name@),
            None => name.len() > NAME_LEN,
        },
{
    if name.len() > NAME_LEN {
        return None;
    }
    let mut field: [u8; 16] = [0;16];
    let mut i: usize = 0;
    while i < name.len()
        invariant
            i <= name.len() <= NAME_LEN,
            forall|j: int| 0 <= j < i ==> #[trigger] field[j] == name[j],
            forall|j: int| i <= j < NAME_LEN ==> #[trigger] field[j] == 0,
        decreases name.len() - i,
    {
        field[i] = name[i];
        i += 1;
    }
    assert(field@ =~= padded(name@));
    Some(field)
}

/// The full name of a slot.
fn slot_name(prefix: &Vec<u8>, name: &Vec<u8>, slot: usize, width: usize) -> (full: Vec<u8>)
    ensures
        full@ == full_name(prefix@, name@, slot as int, width as int),
{
    let mut full = copy_bytes(prefix);
    full.push(0x5f);
    let mut rest = copy_bytes(name);
    full.append(&mut rest);
    let mut end = slot_suffix(slot, width);
    full.append(&mut end);
    assert(full@ =~= full_name(prefix@, name@, slot as int, width as int));
    full
}

/// What is wrong with a field, apart from its type; else its parameters are added to the lists.
fn expand_field(
    prefix: &Vec<u8>,
    field: &FieldDecl,
    descriptors: &mut Vec<ParamDescriptor>,
    values: &mut Vec<ParamValue>,
) -> (error: Option<DeclError>)
    requires
        old(descriptors).len() == old(values).len(),
    ensures
        error == field_error(prefix@, *field),
        error is None ==> {
            &&& final(descriptors).len() == final(values).len()
            &&& listed(final(descriptors)@, final(values)@) == listed(
                old(descriptors)@,
                old(values)@,
            ) + field_params(prefix@, *field)
        },
{
    let width: usize = field.ids.len();
    if width > MAX_WIDTH {
        return Some(DeclError::TooWide);
    }
    if field.defaults.len() != width {
        return Some(DeclError::DefaultCount);
    }
    let ghost params = field_params(prefix@, *field);
    let ghost before = listed(descriptors@, values@);
    let mut slot: usize = 0;
    assert(before =~= before + params.take(0));
    while slot < width
        invariant
            slot <= width == field.ids.len() == field.defaults.len(),
            width <= MAX_WIDTH,
            params == field_params(prefix@, *field),
            descriptors.len() == values.len(),
            listed(descriptors@, values@) == before + params.take(slot as int),
            forall|s: int|
                0 <= s < slot ==> (#[trigger] full_name(
                    prefix@,
                    field.name@,
                    s,
                    width as int,
                )).len() <= NAME_LEN,
        decreases width - slot,
    {
        let full = slot_name(prefix, &field.name, slot, width);
        let name = match pad_name(&full) {
            Some(name) => name,
            None => {
                assert(full_name(prefix@, field.name@, slot as int, width as int).len() > NAME_LEN);
                return Some(DeclError::NameTooLong);
            },
        };
        let ghost was = listed(descriptors@, values@);
        descriptors.push(ParamDescriptor { id: field.ids[slot], name, ty: field.ty });
        values.push(field.defaults[slot]);
        assert(params[slot as int].name =~= name@);
        assert(listed(descriptors@, values@) =~= was.push(params[slot as int]));
        assert((before + params.take(slot as int)).push(params[slot as int]) =~= before
            + params.take(slot + 1));
        slot += 1;
    }
    assert(params.take(slot as int) =~= params);
    None
}

/// The parameters in the two lists.
spec fn listed(descriptors: Seq<ParamDescriptor>, values: Seq<ParamValue>) -> Seq<Param> {
    Seq::new(
        descriptors.len(),
        |i: int|
            Param {
                id: descriptors[i].id,
                name: descriptors[i].name@,
                ty: descriptors[i].ty,
                value: values[i],
            },
    )
}

fn fits_type(field: &FieldDecl) -> (fits: bool)
    ensures
        fits == field_fits_type(*field),
{
    if field.ids.len() != field.width {
        return false;
    }
    let mut i: usize = 0;
    while i < field.defaults.len()
        invariant
            i <= field.defaults.len(),
            forall|j: int| 0 <= j < i ==> (#[trigger] field.defaults[j]).kind() == field.ty,
        decreases field.defaults.len() - i,
    {
        if field.defaults[i].ty() != field.ty {
            return false;
        }
        i += 1;
    }
    true
}

proof fn lemma_group_is_well_typed(prefix: Seq<u8>, fields: Seq<FieldDecl>)
    requires
        first_field_error(prefix, fields) is None,
        forall|i: int| 0 <= i < fields.len() ==> field_fits_type(#[trigger] fields[i]),
    ensures
        well_typed(group_params(prefix, fields)),
    decreases fields.len(),
{
    if fields.len() > 0 {
        lemma_group_is_well_typed(prefix, fields.drop_last());
        let (head, tail) = (
            group_params(prefix, fields.drop_last()),
            field_params(prefix, fields.last()),
        );
        let field = fields[fields.len() - 1];
        assert(field_fits_type(field));
        assert forall|i: int| 0 <= i < (head + tail).len() implies (#[trigger] (head
            + tail)[i]).value.kind() == (head + tail)[i].ty by {
            if i >= head.len() {
                assert(field.defaults[i - head.len()].kind() == field.ty);
            } else {
                assert(head[i].value.kind() == head[i].ty);
            }
        }
    }
}

/// The group that is declared by its prefix and its fields, with the default values, or what is
/// wrong with the declaration.
pub fn expand_group(prefix: &Vec<u8>, fields: &Vec<FieldDecl>) -> (result: Result<
    GroupTable,
    DeclError,
>)
    ensures
        match result {
            Ok(group) => group_error(prefix@, fields@) is None && group@ == group_params(
                prefix@,
                fields@,
            ),
            Err(error) => group_error(prefix@, fields@) == Some(error),
        },
{
    let mut descriptors: Vec<ParamDescriptor> = Vec::new();
    let mut values: Vec<ParamValue> = Vec::new();
    let mut i: usize = 0;
    assert(fields@.take(0) =~= Seq::<FieldDecl>::empty());
    assert(listed(descriptors@, values@) =~= Seq::<Param>::empty());
    while i < fields.len()
        invariant
            i <= fields.len(),
            descriptors.len() == values.len(),
            first_field_error(prefix@, fields@.take(i as int)) is None,
            listed(descriptors@, values@) == group_params(prefix@, fields@.take(i as int)),
        decreases fields.len() - i,
    {
        assert(fields@.take(i + 1).drop_last() =~= fields@.take(i as int));
        let error = expand_field(prefix, &fields[i], &mut descriptors, &mut values);
        if let Some(error) = error {
            proof {
                lemma_first_error_stays(prefix@, fields@, i + 1);
            }
            return Err(error);
        }
        i += 1;
    }
    assert(fields@.take(i as int) =~= fields@);
    let mut i: usize = 0;
    while i < fields.len()
        invariant
            i <= fields.len(),
            first_field_error(prefix@, fields@) is None,
            forall|j: int| 0 <= j < i ==> field_fits_type(#[trigger] fields[j]),
        decreases fields.len() - i,
    {
        if !fits_type(&fields[i]) {
            assert(!field_fits_type(fields@[i as int]));
            return Err(DeclError::WidthMismatch);
        }
        i += 1;
    }
    proof {
        lemma_group_is_well_typed(prefix@, fields@);
        assert((GroupTable { descriptors, values })@ =~= listed(descriptors@, values@));
    }
    Ok(GroupTable { descriptors, values })
}

/// The first mistake is the first one however many fields follow.
proof fn lemma_first_error_stays(prefix: Seq<u8>, fields: Seq<FieldDecl>, n: int)
    requires
        0 <= n <= fields.len(),
        first_field_error(prefix, fields.take(n)) is Some,
    ensures
        first_field_error(prefix, fields) == first_field_error(prefix, fields.take(n)),
    decreases fields.len(),
{
    if n < fields.len() {
        let rest = fields.drop_last();
        assert(rest.take(n) =~= fields.take(n));
        lemma_first_error_stays(prefix, rest, n);
    } else {
        assert(fields.take(n) =~= fields);
    }
}

/// Several groups as one: their parameters, one group after the other.
pub struct GroupList {
    pub groups: Vec<GroupTable>,
}

/// The parameters of all groups.
pub open spec fn all_params(groups: Seq<GroupTable>) -> Seq<Param>
    decreases groups.len(),
{
    if groups.len() == 0 {
        Seq::empty()
    } else {
        groups[0]@ + all_params(groups.drop_first())
    }
}

/// The value of the parameter with the id in the first group that has it.
pub open spec fn value_in_groups(groups: Seq<GroupTable>, id: u16) -> Option<ParamValue>
    decreases groups.len(),
{
    if groups.len() == 0 {
        None
    } else {
        match value_by_id(groups[0]@, id) {
            Some(value) => Some(value),
            None => value_in_groups(groups.drop_first(), id),
        }
    }
}

/// The first group that takes the value, or the number of groups where none does.
pub open spec fn taker(groups: Seq<GroupTable>, id: u16, value: ParamValue) -> int
    decreases groups.len(),
{
    if groups.len() == 0 || accepts(groups[0]@, id, value) {
        0
    } else {
        1 + taker(groups.drop_first(), id, value)
    }
}

proof fn lemma_taker_from(groups: Seq<GroupTable>, id: u16, value: ParamValue, i: int)
    requires
        0 <= i <= groups.len(),
        forall|j: int| 0 <= j < i ==> !accepts(#[trigger] groups[j]@, id, value),
    ensures
        taker(groups, id, value) == i + taker(groups.skip(i), id, value),
    decreases i,
{
    if i == 0 {
        assert(groups.skip(0) =~= groups);
    } else {
        assert(!accepts(groups[0]@, id, value));
        let rest = groups.drop_first();
        assert forall|j: int| 0 <= j < i - 1 implies !accepts(#[trigger] rest[j]@, id, value) by {
            assert(rest[j] == groups[j + 1]);
        }
        lemma_taker_from(rest, id, value, i - 1);
        assert(rest.skip(i - 1) =~= groups.skip(i));
    }
}

impl GroupList {
    /// What is declared of the parameter with this index, counted over all groups.
    pub fn descriptor(&self, index: usize) -> (descriptor: Option<ParamDescriptor>)
        ensures
            match descriptor {
                Some(d) => {
                    let all = all_params(self.groups@);
                    &&& index < all.len()
                    &&& d.id == all[index as int].id
                    &&& d.name@ == all[index as int].name
                    &&& d.ty == all[index as int].ty
                },
                None => index >= all_params(self.groups@).len(),
            },
    {
        let mut left: usize = index;
        let mut i: usize = 0;
        assert(self.groups@.skip(0) =~= self.groups@);
        while i < self.groups.len()
            invariant
                i <= self.groups.len(),
                left <= index,
                all_params(self.groups@).len() - index == all_params(
                    self.groups@.skip(i as int),
                ).len() - left,
                left < all_params(self.groups@.skip(i as int)).len() ==> all_params(
                    self.groups@,
                )[index as int] == all_params(self.groups@.skip(i as int))[left as int],
            decreases self.groups.len() - i,
        {
            let ghost rest = self.groups@.skip(i as int);
            assert(rest.drop_first() =~= self.groups@.skip(i + 1));
            assert(rest[0] == self.groups@[i as int]);
            let count: usize = self.groups[i].count();
            if left < count {
                return self.groups[i].descriptor(left);
            }
            left = left - count;
            i += 1;
        }
        None
    }

    /// The value of the parameter with the id.
    pub fn get(&self, id: u16) -> (value: Option<ParamValue>)
        ensures
            value == value_in_groups(self.groups@, id),
    {
        let mut i: usize = 0;
        assert(self.groups@.skip(0) =~= self.groups@);
        while i < self.groups.len()
            invariant
                i <= self.groups.len(),
                value_in_groups(self.groups@, id) == value_in_groups(
                    self.groups@.skip(i as int),
                    id,
                ),
            decreases self.groups.len() - i,
        {
            let ghost rest = self.groups@.skip(i as int);
            assert(rest.drop_first() =~= self.groups@.skip(i + 1));
            assert(rest[0] == self.groups@[i as int]);
            let value = self.groups[i].get(id);
            if value.is_some() {
                return value;
            }
            i += 1;
        }
        None
    }

    /// Sets the parameter with the id in the first group that takes the value.
    pub fn set(&mut self, id: u16, value: ParamValue) -> (done: bool)
        ensures
            ({
                let i = taker(old(self).groups@, id, value);
                &&& done == (i < old(self).groups.len())
                &&& final(self).groups.len() == old(self).groups.len()
                &&& forall|j: int|
                    0 <= j < old(self).groups.len() ==> (#[trigger] final(self).groups[j])@
                        == if j == i {
                        with_value(old(self).groups[j]@, id, value)
                    } else {
                        old(self).groups[j]@
                    }
            }),
    {
        let mut i: usize = 0;
        while i < self.groups.len()
            invariant
                i <= self.groups.len() == old(self).groups.len(),
                forall|j: int|
                    0 <= j < self.groups.len() ==> (#[trigger] self.groups[j])@ == old(self).groups[j]@,
                forall|j: int|
                    0 <= j < i ==> !accepts(#[trigger] old(self).groups[j]@, id, value),
            decreases self.groups.len() - i,
        {
            let ghost before = self.groups@;
            assert(before[i as int]@ == old(self).groups[i as int]@);
            let done = self.groups[i].set(id, value);
            assert(forall|j: int| 0 <= j < before.len() && j != i ==> self.groups[j] == before[j]);
            if done {
                proof {
                    lemma_taker_from(old(self).groups@, id, value, i as int);
                    assert(old(self).groups@.skip(i as int)[0] == old(self).groups@[i as int]);
                }
                return true;
            }
            i += 1;
        }
        proof {
            lemma_taker_from(old(self).groups@, id, value, i as int);
        }
        false
    }
}

} // verus!
