//! What is kept in the flash.
//!
//! The flash is split into two regions: the first 16 sectors hold the parameter store, a map from
//! the stable ids of the parameters to their raw values, and everything after that is left to a
//! flight data log.
//!
//! One task owns the flash. The parameters are read once at boot; writes are queued, so that nobody
//! waits for the flash.

use vstd::prelude::*;

use crate::param_group::{
    accepts, index_by_id, lemma_index_by_id, value_by_id, Param, ParamValue,
};
use crate::params::{applied, unique_ids, Params};

pub mod access;
pub mod w25q;

verus! {

/// Where the region of the parameters starts.
pub const PARAMS_FLASH_START: u32 = 0;

/// Where the region of the parameters ends.
pub const PARAMS_FLASH_END: u32 = 0x1_0000;

/// Work for the task that owns the flash.
#[derive(Copy, Clone, Debug, PartialEq, Eq, Structural)]
pub enum StorageRequest {
    WriteParam { id: u16, raw: u32 },
    EraseParams,
}

/// Makes up the work for the task that owns the flash.
#[derive(Copy, Clone, Debug, PartialEq, Eq, Structural)]
pub struct FlashHandle;

impl FlashHandle {
    pub fn write_param(&self, id: u16, raw: u32) -> (request: StorageRequest)
        ensures
            request == (StorageRequest::WriteParam { id, raw }),
    {
        StorageRequest::WriteParam { id, raw }
    }

    pub fn erase_params(&self) -> (request: StorageRequest)
        ensures
            request is EraseParams,
    {
        StorageRequest::EraseParams
    }
}

/// What the vehicle sees of the flash: the parameters that were read at boot, and where to write
/// them.
pub struct FlashStorage {
    params: Params,
    handle: FlashHandle,
}

impl FlashStorage {
    /// The parameters that were read at boot.
    pub closed spec fn boot_params(self) -> Params {
        self.params
    }

    pub fn new(params: Params, handle: FlashHandle) -> (storage: Self)
        ensures
            storage.boot_params() == params,
    {
        FlashStorage { params, handle }
    }

    /// The parameters that were read at boot.
    pub fn read_params(&self) -> (params: Option<&Params>)
        ensures
            params is Some,
            *(params->0) == self.boot_params(),
    {
        Some(&self.params)
    }

    /// The request that stores the value of a parameter.
    pub fn write_param(&self, id: u16, value: ParamValue) -> (request: StorageRequest)
        ensures
            request == (StorageRequest::WriteParam { id, raw: value.raw() }),
    {
        self.handle.write_param(id, value.encode_raw())
    }
}

/// What is known of the flash after boot.
#[derive(Copy, Clone, Debug, PartialEq, Eq, Structural)]
pub struct Flash {
    healthy: bool,
    size: u32,
}

impl Flash {
    /// Whether the chip was identified.
    pub closed spec fn health(self) -> bool {
        self.healthy
    }

    /// The size of the chip in bytes.
    pub closed spec fn bytes(self) -> u32 {
        self.size
    }

    /// The flash after its chip was probed. The vehicle boots without persistence rather than not
    /// at all: where the probe failed, every later access is skipped.
    pub fn new(chip: w25q::W25Q, probe: w25q::ProbeStep) -> (flash: Self)
        ensures
            flash.health() == (probe is Identified),
            flash.bytes() == chip.bytes(),
    {
        let healthy = match probe {
            w25q::ProbeStep::Identified => true,
            w25q::ProbeStep::Retry | w25q::ProbeStep::Failed(_) => false,
        };
        Flash { healthy, size: chip.size() }
    }

    /// Whether the probe at boot succeeded. Otherwise all access to the storage is skipped.
    pub fn is_healthy(&self) -> (healthy: bool)
        ensures
            healthy == self.health(),
    {
        self.healthy
    }

    /// Where the flight data log starts and where it ends.
    pub fn log_range(&self) -> (range: (u32, u32))
        ensures
            range.0 == PARAMS_FLASH_END,
            range.1 == if self.bytes() < PARAMS_FLASH_END {
                PARAMS_FLASH_END
            } else {
                self.bytes()
            },
    {
        let end: u32 = if self.size < PARAMS_FLASH_END {
            PARAMS_FLASH_END
        } else {
            self.size
        };
        (PARAMS_FLASH_END, end)
    }

    /// What is left to do of a request: nothing, where the flash is not available.
    pub fn take_on(&self, request: StorageRequest) -> (work: Option<StorageRequest>)
        ensures
            work == if self.health() {
                Some(request)
            } else {
                None
            },
    {
        if self.healthy {
            Some(request)
        } else {
            None
        }
    }
}

/// What came of fetching one item from the parameter store.
#[derive(Copy, Clone, Debug, PartialEq, Eq, Structural)]
pub enum Fetched {
    Found(u32),
    Missing,
    /// The region is beyond repair.
    Corrupted,
    Failed,
}

/// The key of the self-test, outside of the registry of parameters.
pub const SELFTEST_KEY: u16 = 0xfffe;

/// The value that the self-test stores.
pub const SELFTEST_VALUE: u32 = 0xdead_beef;

/// Whether the self-test succeeded: the value was stored and came back.
pub fn selftest_passed(stored: bool, fetched: Fetched) -> (passed: bool)
    ensures
        passed == (stored && fetched == Fetched::Found(SELFTEST_VALUE)),
{
    if !stored {
        return false;
    }
    match fetched {
        Fetched::Found(value) => value == SELFTEST_VALUE,
        Fetched::Missing | Fetched::Corrupted | Fetched::Failed => false,
    }
}

/// What to do after an item was fetched.
#[derive(Copy, Clone, Debug, PartialEq, Eq, Structural)]
pub enum LoadStep {
    Next,
    /// Erase the whole region: the parameters start fresh.
    EraseAll,
}

/// The reading of the parameters at boot, one item after the other.
#[derive(Debug)]
pub struct ParamLoad {
    index: u16,
    corrupted: bool,
    found: Vec<(u16, u32)>,
}

/// What is known of the reading of the parameters.
pub struct LoadState {
    /// How many parameters have been fetched.
    pub index: int,
    /// Whether the region turned out to be beyond repair.
    pub corrupted: bool,
    /// The ids and raw values that were found.
    pub found: Seq<(u16, u32)>,
}

impl View for ParamLoad {
    type V = LoadState;

    closed spec fn view(&self) -> LoadState {
        LoadState { index: self.index as int, corrupted: self.corrupted, found: self.found@ }
    }
}

/// The parameters once the stored values are applied one after the other.
pub open spec fn all_applied(params: Seq<Param>, found: Seq<(u16, u32)>) -> Seq<Param>
    decreases found.len(),
{
    if found.len() == 0 {
        params
    } else {
        applied(all_applied(params, found.drop_last()), found.last().0, found.last().1)
    }
}

impl ParamLoad {
    /// Nothing has been fetched.
    pub fn new() -> (load: Self)
        ensures
            load@ == (LoadState { index: 0, corrupted: false, found: Seq::empty() }),
    {
        ParamLoad { index: 0, corrupted: false, found: Vec::new() }
    }

    /// The id of the parameter to be fetched next.
    pub fn next(&self, params: &Params) -> (id: Option<u16>)
        ensures
            id == (if self@.corrupted || self@.index >= params.all().len() {
                None
            } else {
                Some(params.all()[self@.index].id)
            }),
    {
        if self.corrupted {
            return None;
        }
        match params.descriptor_by_index(self.index) {
            Some(descriptor) => Some(descriptor.id),
            None => None,
        }
    }

    /// Takes what came of fetching the parameter with the id that [`ParamLoad::next`] gave. A
    /// parameter that is missing, or cannot be read, keeps its default.
    pub fn fetched(&mut self, id: u16, fetched: Fetched) -> (step: LoadStep)
        requires
            old(self)@.index < u16::MAX,
        ensures
            step is EraseAll <==> fetched is Corrupted,
            final(self)@ == (match fetched {
                Fetched::Found(raw) => LoadState {
                    index: old(self)@.index + 1,
                    found: old(self)@.found.push((id, raw)),
                    ..old(self)@
                },
                Fetched::Missing | Fetched::Failed => LoadState {
                    index: old(self)@.index + 1,
                    ..old(self)@
                },
                Fetched::Corrupted => LoadState {
                    index: old(self)@.index + 1,
                    corrupted: true,
                    found: Seq::empty(),
                },
            }),
    {
        self.index = self.index + 1;
        match fetched {
            Fetched::Found(raw) => {
                self.found.push((id, raw));
                LoadStep::Next
            },
            Fetched::Missing | Fetched::Failed => LoadStep::Next,
            Fetched::Corrupted => {
                self.corrupted = true;
                self.found = Vec::new();
                LoadStep::EraseAll
            },
        }
    }

    /// The parameters to boot with.
    pub fn finish(self, defaults: Params) -> (params: Params)
        requires
            defaults.wf(),
            unique_ids(defaults.all()),
        ensures
            params.wf(),
            params.all() == all_applied(defaults.all(), self@.found),
    {
        let mut params = defaults;
        let mut k: usize = 0;
        while k < self.found.len()
            invariant
                k <= self.found.len(),
                params.wf(),
                unique_ids(params.all()),
                params.all() == all_applied(defaults.all(), self@.found.take(k as int)),
            decreases self.found.len() - k,
        {
            let (id, raw) = self.found[k];
            proof {
                assert(self@.found.take(k + 1).drop_last() =~= self@.found.take(k as int));
                lemma_applied_keeps_ids(params.all(), id, raw);
            }
            params.apply_raw(id, raw);
            k += 1;
        }
        assert(self@.found.take(k as int) =~= self@.found);
        params
    }
}

proof fn lemma_applied_keeps_ids(params: Seq<Param>, id: u16, raw: u32)
    ensures
        applied(params, id, raw).len() == params.len(),
        forall|i: int|
            0 <= i < params.len() ==> (#[trigger] applied(params, id, raw)[i]).id == params[i].id
                && applied(params, id, raw)[i].ty == params[i].ty,
        unique_ids(params) ==> unique_ids(applied(params, id, raw)),
{
    lemma_index_by_id(params, id);
}

proof fn lemma_same_ids_same_index(a: Seq<Param>, b: Seq<Param>, id: u16)
    requires
        a.len() == b.len(),
        forall|i: int| 0 <= i < a.len() ==> (#[trigger] a[i]).id == b[i].id,
    ensures
        index_by_id(a, id) == index_by_id(b, id),
{
    lemma_index_by_id(a, id);
    lemma_index_by_id(b, id);
    let i = index_by_id(a, id);
    let j = index_by_id(b, id);
    if i < j {
        assert(a[i].id == b[i].id);
    } else if j < i {
        assert(a[j].id == b[j].id);
    }
}

/// Loading keeps the registry as it is: the parameters have their ids and types in their places.
pub proof fn law_loading_keeps_the_registry(params: Seq<Param>, found: Seq<(u16, u32)>)
    ensures
        all_applied(params, found).len() == params.len(),
        forall|i: int|
            0 <= i < params.len() ==> (#[trigger] all_applied(params, found)[i]).id == params[i].id
                && all_applied(params, found)[i].ty == params[i].ty,
    decreases found.len(),
{
    if found.len() > 0 {
        law_loading_keeps_the_registry(params, found.drop_last());
        lemma_applied_keeps_ids(
            all_applied(params, found.drop_last()),
            found.last().0,
            found.last().1,
        );
    }
}

/// A parameter that was not found in the flash keeps its default.
pub proof fn law_missing_parameters_keep_their_defaults(
    params: Seq<Param>,
    found: Seq<(u16, u32)>,
    i: int,
)
    requires
        0 <= i < params.len(),
        forall|k: int| 0 <= k < found.len() ==> (#[trigger] found[k]).0 != params[i].id,
    ensures
        all_applied(params, found)[i] == params[i],
    decreases found.len(),
{
    if found.len() > 0 {
        let rest = found.drop_last();
        assert forall|k: int| 0 <= k < rest.len() implies (#[trigger] rest[k]).0 != params[i].id by {
            assert(rest[k] == found[k]);
        }
        law_missing_parameters_keep_their_defaults(params, rest, i);
        law_loading_keeps_the_registry(params, rest);
        lemma_index_by_id(all_applied(params, rest), found.last().0);
        assert(found[found.len() - 1].0 != params[i].id);
    }
}

/// What was stored comes back: of a parameter whose value was accepted and then stored, the next
/// boot reads that value, whatever else was found before it, and whatever was found after it for
/// other parameters.
pub proof fn law_a_stored_value_is_loaded(
    params: Seq<Param>,
    before: Seq<(u16, u32)>,
    id: u16,
    value: ParamValue,
    after: Seq<(u16, u32)>,
)
    requires
        accepts(params, id, value),
        forall|k: int| 0 <= k < after.len() ==> (#[trigger] after[k]).0 != id,
    ensures
        value_by_id(all_applied(params, before.push((id, value.raw())) + after), id) == Some(value),
    decreases after.len(),
{
    let found = before.push((id, value.raw())) + after;
    law_loading_keeps_the_registry(params, found);
    lemma_same_ids_same_index(all_applied(params, found), params, id);
    lemma_index_by_id(params, id);
    let i = index_by_id(params, id);
    if after.len() == 0 {
        assert(found =~= before.push((id, value.raw())));
        assert(found.drop_last() =~= before);
        law_loading_keeps_the_registry(params, before);
        lemma_same_ids_same_index(all_applied(params, before), params, id);
        assert(all_applied(params, before)[i].ty == params[i].ty);
    } else {
        let rest = after.drop_last();
        assert forall|k: int| 0 <= k < rest.len() implies (#[trigger] rest[k]).0 != id by {
            assert(rest[k] == after[k]);
        }
        law_a_stored_value_is_loaded(params, before, id, value, rest);
        assert(found.drop_last() =~= before.push((id, value.raw())) + rest);
        let loaded = all_applied(params, found.drop_last());
        law_loading_keeps_the_registry(params, found.drop_last());
        lemma_same_ids_same_index(loaded, params, id);
        assert(after[after.len() - 1].0 != id);
        lemma_index_by_id(loaded, found.last().0);
        assert(loaded[i].id == params[i].id);
    }
}

} // verus!
