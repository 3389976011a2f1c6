//! The MAVLink parameter protocol.
//!
//! Parameter values are exchanged bytewise: the field for the value carries the raw bits, so that
//! whole numbers survive exactly.

use vstd::prelude::*;

use crate::links::commands::{from_ground, is_from_ground, FrameHeader};
use crate::links::uplink::{UplinkCommand, SELF_COMPONENT_ID};
use crate::param_group::{index_by_id, lemma_index_by_id, Param};
use crate::params::{
    applied, index_by_name, reports, unique_ids, write_error, MavParamType, ParamInfo,
    ParamSetError, SharedParams,
};
use crate::single::Single;
use crate::storage::all_applied;

verus! {

/// The time between two values of a list \[ms\].
pub const LIST_PAUSE_MS: u64 = 20;

/// A message of the parameter protocol.
#[derive(Copy, Clone, Debug, PartialEq, Eq)]
pub enum ParamMessage {
    RequestList { target_system: u8, target_component: u8 },
    RequestRead {
        target_system: u8,
        target_component: u8,
        param_id: [u8; 16],
        /// Negative where the parameter is named by `param_id`.
        param_index: i16,
    },
    SetValue {
        target_system: u8,
        target_component: u8,
        param_id: [u8; 16],
        param_value: Single,
        param_type: MavParamType,
    },
    /// Any other message.
    Other,
}

/// A request addressed to us.
#[derive(Copy, Clone, Debug, PartialEq, Eq)]
pub enum ParamRequest {
    List,
    ReadIndex(u16),
    ReadName([u8; 16]),
    SetValue { name: [u8; 16], value: Single, ty: MavParamType },
}

/// A message to this target is for us. A zero target is a broadcast, which ground stations
/// commonly use for parameter discovery.
pub open spec fn is_addressed(target_system: u8, target_component: u8, system_id: u8) -> bool {
    &&& target_system == 0 || target_system == system_id
    &&& target_component == 0 || target_component == SELF_COMPONENT_ID
}

/// Whether a message to this target is for us.
pub fn addressed(target_system: u8, target_component: u8, system_id: u8) -> (ours: bool)
    ensures
        ours == is_addressed(target_system, target_component, system_id),
{
    (target_system == 0 || target_system == system_id) && (target_component == 0
        || target_component == SELF_COMPONENT_ID)
}

/// The request in a message, if it is one and is for us.
pub open spec fn request_of(msg: ParamMessage, system_id: u8) -> Option<ParamRequest> {
    match msg {
        ParamMessage::RequestList { target_system, target_component } => if is_addressed(
            target_system,
            target_component,
            system_id,
        ) {
            Some(ParamRequest::List)
        } else {
            None
        },
        ParamMessage::RequestRead { target_system, target_component, param_id, param_index } => {
            if !is_addressed(target_system, target_component, system_id) {
                None
            } else if param_index >= 0 {
                Some(ParamRequest::ReadIndex(param_index as u16))
            } else {
                Some(ParamRequest::ReadName(param_id))
            }
        },
        ParamMessage::SetValue { target_system, target_component, param_id, param_value, param_type } => {
            if is_addressed(target_system, target_component, system_id) {
                Some(
                    ParamRequest::SetValue { name: param_id, value: param_value, ty: param_type },
                )
            } else {
                None
            }
        },
        ParamMessage::Other => None,
    }
}

impl ParamRequest {
    /// The request in a frame with this message, if that could be made sense of. A frame that is
    /// not from a ground station is likely not intended for us.
    pub fn receive(frame: &FrameHeader, msg: Option<&ParamMessage>, system_id: u8) -> (request:
        Option<Self>)
        ensures
            request == if from_ground(*frame) {
                match msg {
                    Some(m) => request_of(*m, system_id),
                    None => None,
                }
            } else {
                None
            },
    {
        if !is_from_ground(frame) {
            return None;
        }
        match msg {
            Some(msg) => ParamRequest::parse(msg, system_id),
            None => None,
        }
    }

    /// How long to wait after each value that is reported \[ms\]: a list is paced so that it does
    /// not crowd out telemetry.
    pub fn pause_ms(&self) -> (pause: u64)
        ensures
            pause == (if *self is List {
                LIST_PAUSE_MS
            } else {
                0
            }),
    {
        match self {
            ParamRequest::List => LIST_PAUSE_MS,
            _ => 0,
        }
    }

    /// The request in a message, if it is one and is addressed to `system_id`.
    pub fn parse(msg: &ParamMessage, system_id: u8) -> (request: Option<Self>)
        ensures
            request == request_of(*msg, system_id),
    {
        match *msg {
            ParamMessage::RequestList { target_system, target_component } => {
                if addressed(target_system, target_component, system_id) {
                    Some(ParamRequest::List)
                } else {
                    None
                }
            },
            ParamMessage::RequestRead {
                target_system,
                target_component,
                param_id,
                param_index,
            } => {
                if !addressed(target_system, target_component, system_id) {
                    None
                } else if param_index >= 0 {
                    Some(ParamRequest::ReadIndex(param_index as u16))
                } else {
                    Some(ParamRequest::ReadName(param_id))
                }
            },
            ParamMessage::SetValue {
                target_system,
                target_component,
                param_id,
                param_value,
                param_type,
            } => {
                if addressed(target_system, target_component, system_id) {
                    Some(ParamRequest::SetValue { name: param_id, value: param_value, ty: param_type })
                } else {
                    None
                }
            },
            ParamMessage::Other => None,
        }
    }
}

/// How a request is answered.
#[derive(Debug, PartialEq)]
pub struct ParamReply {
    /// The values to report, in this order.
    pub values: Vec<ParamInfo>,
    /// The command to hand on to the vehicle, before the values are reported.
    pub forward: Option<UplinkCommand>,
}

/// Nothing but the parameter with the index is reported, if there is one.
pub open spec fn reports_one(reply: ParamReply, params: Seq<Param>, index: int) -> bool {
    &&& reply.forward is None
    &&& if index < params.len() {
        reply.values.len() == 1 && reports(reply.values[0], params, index)
    } else {
        reply.values.len() == 0
    }
}

/// How a request is answered, given the parameters before and after.
pub open spec fn is_reply(
    request: ParamRequest,
    before: Seq<Param>,
    initialized: bool,
    reply: ParamReply,
    after: Seq<Param>,
) -> bool {
    match request {
        ParamRequest::List => {
            &&& after == before
            &&& reply.forward is None
            &&& if initialized {
                &&& reply.values.len() == before.len()
                &&& forall|i: int|
                    0 <= i < before.len() ==> reports(#[trigger] reply.values[i], before, i)
            } else {
                reply.values.len() == 0
            }
        },
        ParamRequest::ReadIndex(index) => {
            &&& after == before
            &&& reports_one(
                reply,
                before,
                if initialized {
                    index as int
                } else {
                    before.len() as int
                },
            )
        },
        ParamRequest::ReadName(name) => {
            &&& after == before
            &&& reports_one(
                reply,
                before,
                if initialized {
                    index_by_name(before, name@)
                } else {
                    before.len() as int
                },
            )
        },
        ParamRequest::SetValue { name, value, ty } => {
            let i = index_by_name(before, name@);
            match write_error(before, initialized, name@, value, ty) {
                None => {
                    &&& after == before.update(
                        i,
                        Param { value: before[i].ty.value_of(value.bits), ..before[i] },
                    )
                    &&& reply.forward == Some(
                        UplinkCommand::SetParam { id: before[i].id, raw: value.bits },
                    )
                    &&& reply.values.len() == 1
                    &&& reports(reply.values[0], after, i)
                },
                // A rejected write is signaled by echoing the current, unchanged value.
                Some(ParamSetError::InvalidValue) => {
                    &&& after == before
                    &&& reports_one(
                        reply,
                        before,
                        if initialized {
                            i
                        } else {
                            before.len() as int
                        },
                    )
                },
                // Unknown parameters get no reply; the request times out.
                Some(ParamSetError::UnknownParam) => {
                    &&& after == before
                    &&& reply.forward is None
                    &&& reply.values.len() == 0
                },
            }
        },
    }
}

fn one_value(info: Option<ParamInfo>) -> (values: Vec<ParamInfo>)
    ensures
        match info {
            Some(info) => values@ == seq![info],
            None => values.len() == 0,
        },
{
    let mut values: Vec<ParamInfo> = Vec::new();
    if let Some(info) = info {
        values.push(info);
        assert(values@ =~= seq![info]);
    }
    values
}

/// Answers a request out of the mirror of the parameters.
pub fn answer(request: &ParamRequest, store: &mut SharedParams) -> (reply: ParamReply)
    requires
        old(store).wf(),
    ensures
        final(store).wf(),
        final(store).is_initialized() == old(store).is_initialized(),
        is_reply(
            *request,
            old(store).all(),
            old(store).is_initialized(),
            reply,
            final(store).all(),
        ),
{
    match request {
        ParamRequest::List => {
            let mut values: Vec<ParamInfo> = Vec::new();
            let count: u16 = store.count();
            let mut index: u16 = 0;
            while index < count
                invariant
                    store.wf(),
                    *store == *old(store),
                    index <= count == store.all().len(),
                    store.is_initialized() ==> values.len() == index,
                    !store.is_initialized() ==> values.len() == 0,
                    forall|i: int|
                        0 <= i < values.len() ==> reports(#[trigger] values[i], store.all(), i),
                decreases count - index,
            {
                if let Some(info) = store.by_index(index) {
                    values.push(info);
                }
                index += 1;
            }
            ParamReply { values, forward: None }
        },
        ParamRequest::ReadIndex(index) => ParamReply {
            values: one_value(store.by_index(*index)),
            forward: None,
        },
        ParamRequest::ReadName(name) => ParamReply {
            values: one_value(store.by_name(name)),
            forward: None,
        },
        ParamRequest::SetValue { name, value, ty } => match store.set(name, *value, *ty) {
            Ok((id, raw, info)) => ParamReply {
                values: one_value(Some(info)),
                forward: Some(UplinkCommand::SetParam { id, raw }),
            },
            Err(ParamSetError::InvalidValue) => ParamReply {
                values: one_value(store.by_name(name)),
                forward: None,
            },
            Err(ParamSetError::UnknownParam) => ParamReply {
                values: one_value(None),
                forward: None,
            },
        },
    }
}

/// Only an accepted write changes a parameter or is handed on to the vehicle.
pub proof fn law_only_accepted_writes_have_effect(
    request: ParamRequest,
    before: Seq<Param>,
    initialized: bool,
    reply: ParamReply,
    after: Seq<Param>,
)
    requires
        is_reply(request, before, initialized, reply, after),
        after != before || reply.forward is Some,
    ensures
        request matches ParamRequest::SetValue { name, value, ty } && write_error(
            before,
            initialized,
            name@,
            value,
            ty,
        ) is None,
{
}

proof fn lemma_name_is_indexed(params: Seq<Param>, name: Seq<u8>)
    ensures
        0 <= index_by_name(params, name) <= params.len(),
    decreases params.len(),
{
    if params.len() > 0 && params[0].name != name {
        lemma_name_is_indexed(params.drop_first(), name);
    }
}

/// The vehicle's copy of the parameters follows the mirror: what is handed on for a request does to
/// the vehicle's parameters what the request did to those of the mirror.
pub proof fn law_the_vehicle_follows_the_mirror(
    request: ParamRequest,
    before: Seq<Param>,
    initialized: bool,
    reply: ParamReply,
    after: Seq<Param>,
)
    requires
        unique_ids(before),
        is_reply(request, before, initialized, reply, after),
    ensures
        match reply.forward {
            Some(UplinkCommand::SetParam { id, raw }) => after == applied(before, id, raw),
            Some(_) => false,
            None => after == before,
        },
        unique_ids(after),
{
    if let ParamRequest::SetValue { name, .. } = request {
        let i = index_by_name(before, name@);
        lemma_name_is_indexed(before, name@);
        if reply.forward is Some {
            lemma_index_by_id(before, before[i].id);
            assert(index_by_id(before, before[i].id) == i);
        }
    }
}

/// The requests are answered one after the other out of the mirror, which holds `mirror[k]` before
/// the request `k` is answered.
pub open spec fn are_replies(
    requests: Seq<ParamRequest>,
    mirror: Seq<Seq<Param>>,
    initialized: bool,
    replies: Seq<ParamReply>,
) -> bool {
    &&& replies.len() == requests.len()
    &&& mirror.len() == requests.len() + 1
    &&& forall|k: int|
        0 <= k < requests.len() ==> is_reply(
            #[trigger] requests[k],
            mirror[k],
            initialized,
            replies[k],
            mirror[k + 1],
        )
}

/// The writes that are handed on to the vehicle, in their order: ids with stored values.
pub open spec fn forwarded(replies: Seq<ParamReply>) -> Seq<(u16, u32)>
    decreases replies.len(),
{
    if replies.len() == 0 {
        Seq::empty()
    } else {
        let rest = forwarded(replies.drop_last());
        match replies.last().forward {
            Some(UplinkCommand::SetParam { id, raw }) => rest.push((id, raw)),
            _ => rest,
        }
    }
}

/// The vehicle's copy and the mirror do not diverge: where they start out alike, they are alike
/// again once the vehicle has applied what was handed on to it, whatever was requested.
pub proof fn law_mirror_and_vehicle_do_not_diverge(
    requests: Seq<ParamRequest>,
    mirror: Seq<Seq<Param>>,
    initialized: bool,
    replies: Seq<ParamReply>,
)
    requires
        are_replies(requests, mirror, initialized, replies),
        unique_ids(mirror.first()),
    ensures
        all_applied(mirror.first(), forwarded(replies)) == mirror.last(),
        unique_ids(mirror.last()),
    decreases requests.len(),
{
    if requests.len() > 0 {
        let k = requests.len() - 1;
        let (asked, held, sent) = (requests.drop_last(), mirror.drop_last(), replies.drop_last());
        assert forall|j: int| 0 <= j < asked.len() implies is_reply(
            #[trigger] asked[j],
            held[j],
            initialized,
            sent[j],
            held[j + 1],
        ) by {
            assert(asked[j] == requests[j]);
        }
        law_mirror_and_vehicle_do_not_diverge(asked, held, initialized, sent);
        assert(requests[k] == requests.last());
        law_the_vehicle_follows_the_mirror(
            requests[k],
            mirror[k],
            initialized,
            replies[k],
            mirror[k + 1],
        );
        if let Some(UplinkCommand::SetParam { id, raw }) = replies[k].forward {
            let rest = forwarded(sent);
            assert(rest.push((id, raw)).drop_last() =~= rest);
        }
    }
}

} // verus!
