//! Events sent to the processor of an audio node, and the parameter data
//! that they carry.
use vstd::prelude::*;

use crate::diff::{Notify, ParamPath, Patch, PatchError};
use vstd::std_specs::convert::{FromSpec, FromSpecImpl, TryFromSpec, TryFromSpecImpl};

verus! {

/// Identifies a node of the audio graph.
#[derive(Debug, Clone, Copy, PartialEq, Eq, Structural)]
pub struct NodeID(pub u64);

/// Data that can be used to patch an individual parameter.
///
/// Floating-point payloads are carried as their IEEE-754 bit patterns
/// (`f32::to_bits`, `f64::to_bits`), so that the value is kept exactly.
#[derive(Debug, Clone)]
#[non_exhaustive]
pub enum ParamData {
    /// The bit pattern of an `f32`.
    F32(u32),
    /// The bit pattern of an `f64`.
    F64(u64),
    I32(i32),
    U32(u32),
    I64(i64),
    U64(u64),
    Bool(bool),
    /// The bit patterns of the `x` and `y` components of a 2D vector of `f32`.
    Vector2D([u32; 2]),
    /// The bit patterns of the `x`, `y` and `z` components of a 3D vector of `f32`.
    Vector3D([u32; 3]),
    /// Custom type stored on the stack as raw bytes.
    CustomBytes([u8; 20]),
    /// No data (i.e. the type is `None`).
    NoData,
}

/// An event type associated with the processor of an audio node.
#[derive(Debug)]
#[non_exhaustive]
pub enum NodeEventType {
    Param {
        /// Data for a specific parameter.
        data: ParamData,
        /// The path to the parameter.
        path: ParamPath,
    },
    /// Set the bypass state of the node.
    SetBypassed(bool),
    /// Custom event type stored on the stack as raw bytes.
    CustomBytes([u8; 36]),
}

/// An event sent to the processor of an audio node.
#[derive(Debug)]
pub struct NodeEvent {
    /// The ID of the node that should receive the event.
    pub node_id: NodeID,
    /// The type of event.
    pub event: NodeEventType,
}

impl NodeEvent {
    /// Construct an event to send to the processor of an audio node.
    ///
    /// * `node_id` - The ID of the node that should receive the event.
    /// * `event` - The type of event.
    pub fn new(node_id: NodeID, event: NodeEventType) -> (r: Self)
        ensures
            r.node_id == node_id,
            r.event == event,
    {
        Self { node_id, event }
    }
}

/// Where an event waits in the buffers of a processing period.
#[derive(Debug, Clone, Copy, PartialEq, Eq, Structural)]
pub enum ProcEventsIndex {
    /// Slot of the buffer of immediate events.
    Immediate(u32),
}

impl ProcEventsIndex {
    /// The slot of the buffer of immediate events that the index names.
    pub open spec fn slot(self) -> int {
        match self {
            ProcEventsIndex::Immediate(i) => i as int,
        }
    }
}

/// A list of events for the processor of an audio node.
///
/// The list borrows the buffer of immediate events and the vector of
/// indices from its caller. `new` ties the final state of each borrow to the
/// list's own references, and `drain` and `drain_patches` keep them, so that
/// a caller who uses `lemma_proc_events_resolved` sees, once the list is out
/// of use, its buffer and its indices as the list left them.
pub struct ProcEvents<'a> {
    immediate_event_buffer: &'a mut [Option<NodeEvent>],
    indices: &'a mut Vec<ProcEventsIndex>,
}

/// The events that draining takes, in the order of `indices`: the event of
/// the buffer slot that each index names.
pub open spec fn drained_events(
    buffer: Seq<Option<NodeEvent>>,
    indices: Seq<ProcEventsIndex>,
) -> Seq<NodeEventType> {
    indices.map_values(|idx: ProcEventsIndex| buffer[idx.slot()].unwrap().event)
}

/// Whether some index of `indices` names the buffer slot `j`.
pub open spec fn names_slot(indices: Seq<ProcEventsIndex>, j: int) -> bool {
    exists|k: int| 0 <= k < indices.len() && (#[trigger] indices[k]).slot() == j
}

/// The buffer after draining: every slot that an index names is emptied,
/// every other slot is kept.
pub open spec fn buffer_after_drain(
    buffer: Seq<Option<NodeEvent>>,
    indices: Seq<ProcEventsIndex>,
) -> Seq<Option<NodeEvent>> {
    Seq::new(buffer.len(), |j: int| if names_slot(indices, j) { None } else { buffer[j] })
}

/// The patches for `T` that the parameter events among `events` give, in
/// order; events that give none are skipped.
pub open spec fn patches_of<T: Patch>(events: Seq<NodeEventType>) -> Seq<T::Patch>
    decreases events.len(),
{
    if events.len() == 0 {
        Seq::empty()
    } else {
        let rest = patches_of::<T>(events.drop_last());
        match crate::diff::patch_of_event::<T>(events.last()) {
            Some(p) => rest.push(p),
            None => rest,
        }
    }
}

/// Draining gives one event per index: `num_events` counts the events that
/// `drain` gives.
pub proof fn lemma_drain_gives_num_events(
    buffer: Seq<Option<NodeEvent>>,
    indices: Seq<ProcEventsIndex>,
)
    ensures
        drained_events(buffer, indices).len() == indices.len(),
        indices.len() == 0 ==> drained_events(buffer, indices) == Seq::<NodeEventType>::empty(),
{
    if indices.len() == 0 {
        assert(drained_events(buffer, indices) =~= Seq::<NodeEventType>::empty());
    }
}

/// A list that its owner is done with has left its borrowed buffer and
/// indices as they are: what the list last held is what the caller gets
/// back.
pub broadcast proof fn lemma_proc_events_resolved<'a>(events: ProcEvents<'a>)
    ensures
        #[trigger] has_resolved(events) ==> has_resolved(events.buffer_ref()) && has_resolved(
            events.indices_ref(),
        ),
{
}

impl<'a> ProcEvents<'a> {
    /// The borrowed buffer of immediate events.
    pub closed spec fn buffer_ref(&self) -> &'a mut [Option<NodeEvent>] {
        self.immediate_event_buffer
    }

    /// The borrowed indices of the events of this list.
    pub closed spec fn indices_ref(&self) -> &'a mut Vec<ProcEventsIndex> {
        self.indices
    }

    /// The buffer of immediate events.
    pub open spec fn buffer(&self) -> Seq<Option<NodeEvent>> {
        self.buffer_ref()@
    }

    /// The indices of the events of this list, in order.
    pub open spec fn pending(&self) -> Seq<ProcEventsIndex> {
        self.indices_ref()@
    }

    /// Every index names a distinct slot of the buffer that holds an event.
    pub open spec fn well_formed(&self) -> bool {
        &&& forall|k: int|
            0 <= k < self.pending().len() ==> 0 <= #[trigger] self.pending()[k].slot()
                < self.buffer().len() && self.buffer()[self.pending()[k].slot()] is Some
        &&& forall|k: int, l: int|
            0 <= k < l < self.pending().len() ==> #[trigger] self.pending()[k].slot()
                != #[trigger] self.pending()[l].slot()
    }

    /// A list over the given buffer of immediate events and the indices of
    /// its events.
    pub fn new(
        immediate_event_buffer: &'a mut [Option<NodeEvent>],
        indices: &'a mut Vec<ProcEventsIndex>,
    ) -> (r: Self)
        ensures
            r.buffer() == old(immediate_event_buffer)@,
            r.pending() == old(indices)@,
            final(r.buffer_ref())@ == final(immediate_event_buffer)@,
            final(r.indices_ref())@ == final(indices)@,
    {
        Self { immediate_event_buffer, indices }
    }

    /// The number of events in the list.
    pub fn num_events(&self) -> (r: usize)
        ensures
            r == self.pending().len(),
    {
        self.indices.len()
    }

    /// Whether the list holds no event.
    pub fn is_empty(&self) -> (r: bool)
        ensures
            r == (self.pending().len() == 0),
    {
        self.indices.len() == 0
    }

    /// Takes all events, in order, out of the list and out of their buffer
    /// slots.
    pub fn drain(&mut self) -> (r: Vec<NodeEventType>)
        requires
            old(self).well_formed(),
        ensures
            r@ == drained_events(old(self).buffer(), old(self).pending()),
            final(self).pending().len() == 0,
            final(final(self).buffer_ref())@ == final(old(self).buffer_ref())@,
            final(final(self).indices_ref())@ == final(old(self).indices_ref())@,
            final(self).buffer() == buffer_after_drain(old(self).buffer(), old(self).pending()),
    {
        let ghost buf0 = self.immediate_event_buffer@;
        let ghost idx0 = self.indices@;
        let n: usize = self.indices.len();
        let mut out: Vec<NodeEventType> = Vec::new();
        let mut k: usize = 0;
        while k < n
            invariant
                0 <= k <= n,
                n == idx0.len(),
                self.indices@ == idx0,
                final(self.immediate_event_buffer)@ == final(old(self).buffer_ref())@,
                final(self.indices)@ == final(old(self).indices_ref())@,
                self.immediate_event_buffer@.len() == buf0.len(),
                forall|m: int|
                    0 <= m < n ==> 0 <= #[trigger] idx0[m].slot() < buf0.len() && buf0[idx0[m].slot()] is Some,
                forall|m: int, l: int|
                    0 <= m < l < n ==> #[trigger] idx0[m].slot() != #[trigger] idx0[l].slot(),
                out@ == drained_events(buf0, idx0.take(k as int)),
                forall|j: int|
                    0 <= j < buf0.len() ==> #[trigger] self.immediate_event_buffer@[j] == if exists|m: int|
                        0 <= m < k && idx0[m].slot() == j {
                        None
                    } else {
                        buf0[j]
                    },
            decreases n - k,
        {
            let ProcEventsIndex::Immediate(i) = self.indices[k];
            let slot: usize = i as usize;
            proof {
                assert(idx0[k as int].slot() == slot);
                assert forall|m: int| 0 <= m < k implies idx0[m].slot() != slot by {
                    assert(idx0[m].slot() != idx0[k as int].slot());
                }
            }
            let entry = self.immediate_event_buffer[slot].take();
            let event = entry.unwrap();
            out.push(event.event);
            proof {
                assert(idx0.take(k + 1).drop_last() =~= idx0.take(k as int));
                assert(drained_events(buf0, idx0.take(k + 1)) =~= drained_events(
                    buf0,
                    idx0.take(k as int),
                ).push(buf0[slot as int].unwrap().event));
            }
            k = k + 1;
        }
        self.indices.clear();
        proof {
            assert(idx0.take(n as int) =~= idx0);
            assert(self.immediate_event_buffer@ =~= buffer_after_drain(buf0, idx0));
        }
        out
    }

    /// Takes all events out of the list, as `drain` does, and gives the
    /// patches for `T` of those that are parameter events whose data fits
    /// `T`, in order. Events that give no patch are skipped.
    pub fn drain_patches<T: Patch>(&mut self) -> (r: Vec<T::Patch>)
        requires
            old(self).well_formed(),
        ensures
            r@ == patches_of::<T>(drained_events(old(self).buffer(), old(self).pending())),
            final(self).pending().len() == 0,
            final(self).buffer() == buffer_after_drain(old(self).buffer(), old(self).pending()),
            final(final(self).buffer_ref())@ == final(old(self).buffer_ref())@,
            final(final(self).indices_ref())@ == final(old(self).indices_ref())@,
    {
        let events = self.drain();
        let mut out: Vec<T::Patch> = Vec::new();
        let n: usize = events.len();
        let mut k: usize = 0;
        while k < n
            invariant
                0 <= k <= n,
                n == events@.len(),
                out@ == patches_of::<T>(events@.take(k as int)),
            decreases n - k,
        {
            let p = T::patch_event(&events[k]);
            proof {
                assert(events@.take(k + 1).drop_last() =~= events@.take(k as int));
            }
            match p {
                Some(p) => out.push(p),
                None => {},
            }
            k = k + 1;
        }
        proof {
            assert(events@.take(n as int) =~= events@);
        }
        out
    }
}

impl From<()> for ParamData {
    fn from(_value: ()) -> (r: Self) {
        Self::NoData
    }
}

impl FromSpecImpl<()> for ParamData {
    open spec fn obeys_from_spec() -> bool {
        true
    }

    open spec fn from_spec(v: ()) -> Self {
        ParamData::NoData
    }
}

impl<'a> TryFrom<&'a ParamData> for () {
    type Error = PatchError;

    fn try_from(data: &'a ParamData) -> (r: Result<(), PatchError>) {
        match data {
            ParamData::NoData => Ok(()),
            _ => Err(PatchError::InvalidData),
        }
    }
}

impl<'a> TryFromSpecImpl<&'a ParamData> for () {
    open spec fn obeys_try_from_spec() -> bool {
        true
    }

    open spec fn try_from_spec(data: &'a ParamData) -> Result<(), PatchError> {
        match *data {
            ParamData::NoData => Ok(()),
            _ => Err(PatchError::InvalidData),
        }
    }
}

impl From<Notify<()>> for ParamData {
    fn from(_value: Notify<()>) -> (r: Self) {
        Self::NoData
    }
}

impl FromSpecImpl<Notify<()>> for ParamData {
    open spec fn obeys_from_spec() -> bool {
        true
    }

    open spec fn from_spec(v: Notify<()>) -> Self {
        ParamData::NoData
    }
}

impl From<i32> for ParamData {
    fn from(value: i32) -> (r: Self) {
        Self::I32(value)
    }
}

impl FromSpecImpl<i32> for ParamData {
    open spec fn obeys_from_spec() -> bool {
        true
    }

    open spec fn from_spec(v: i32) -> Self {
        ParamData::I32(v)
    }
}

impl<'a> TryFrom<&'a ParamData> for i32 {
    type Error = PatchError;

    fn try_from(data: &'a ParamData) -> (r: Result<i32, PatchError>) {
        match data {
            ParamData::I32(value) => Ok(*value),
            _ => Err(PatchError::InvalidData),
        }
    }
}

impl<'a> TryFromSpecImpl<&'a ParamData> for i32 {
    open spec fn obeys_try_from_spec() -> bool {
        true
    }

    open spec fn try_from_spec(data: &'a ParamData) -> Result<i32, PatchError> {
        match *data {
            ParamData::I32(value) => Ok(value),
            _ => Err(PatchError::InvalidData),
        }
    }
}

impl From<Option<i32>> for ParamData {
    fn from(value: Option<i32>) -> (r: Self) {
        if let Some(value) = value {
            Self::I32(value)
        } else {
            Self::NoData
        }
    }
}

impl FromSpecImpl<Option<i32>> for ParamData {
    open spec fn obeys_from_spec() -> bool {
        true
    }

    open spec fn from_spec(v: Option<i32>) -> Self {
        match v {
            Some(value) => ParamData::I32(value),
            None => ParamData::NoData,
        }
    }
}

impl<'a> TryFrom<&'a ParamData> for Option<i32> {
    type Error = PatchError;

    fn try_from(data: &'a ParamData) -> (r: Result<Option<i32>, PatchError>) {
        match data {
            ParamData::I32(value) => Ok(Some(*value)),
            ParamData::NoData => Ok(None),
            _ => Err(PatchError::InvalidData),
        }
    }
}

impl<'a> TryFromSpecImpl<&'a ParamData> for Option<i32> {
    open spec fn obeys_try_from_spec() -> bool {
        true
    }

    open spec fn try_from_spec(data: &'a ParamData) -> Result<Option<i32>, PatchError> {
        match *data {
            ParamData::I32(value) => Ok(Some(value)),
            ParamData::NoData => Ok(None),
            _ => Err(PatchError::InvalidData),
        }
    }
}

impl From<Notify<i32>> for ParamData {
    fn from(value: Notify<i32>) -> (r: Self) {
        Self::I32(*value.get())
    }
}

impl FromSpecImpl<Notify<i32>> for ParamData {
    open spec fn obeys_from_spec() -> bool {
        true
    }

    open spec fn from_spec(v: Notify<i32>) -> Self {
        ParamData::I32(v.value_of())
    }
}

impl From<u32> for ParamData {
    fn from(value: u32) -> (r: Self) {
        Self::U32(value)
    }
}

impl FromSpecImpl<u32> for ParamData {
    open spec fn obeys_from_spec() -> bool {
        true
    }

    open spec fn from_spec(v: u32) -> Self {
        ParamData::U32(v)
    }
}

impl<'a> TryFrom<&'a ParamData> for u32 {
    type Error = PatchError;

    fn try_from(data: &'a ParamData) -> (r: Result<u32, PatchError>) {
        match data {
            ParamData::U32(value) => Ok(*value),
            _ => Err(PatchError::InvalidData),
        }
    }
}

impl<'a> TryFromSpecImpl<&'a ParamData> for u32 {
    open spec fn obeys_try_from_spec() -> bool {
        true
    }

    open spec fn try_from_spec(data: &'a ParamData) -> Result<u32, PatchError> {
        match *data {
            ParamData::U32(value) => Ok(value),
            _ => Err(PatchError::InvalidData),
        }
    }
}

impl From<Option<u32>> for ParamData {
    fn from(value: Option<u32>) -> (r: Self) {
        if let Some(value) = value {
            Self::U32(value)
        } else {
            Self::NoData
        }
    }
}

impl FromSpecImpl<Option<u32>> for ParamData {
    open spec fn obeys_from_spec() -> bool {
        true
    }

    open spec fn from_spec(v: Option<u32>) -> Self {
        match v {
            Some(value) => ParamData::U32(value),
            None => ParamData::NoData,
        }
    }
}

impl<'a> TryFrom<&'a ParamData> for Option<u32> {
    type Error = PatchError;

    fn try_from(data: &'a ParamData) -> (r: Result<Option<u32>, PatchError>) {
        match data {
            ParamData::U32(value) => Ok(Some(*value)),
            ParamData::NoData => Ok(None),
            _ => Err(PatchError::InvalidData),
        }
    }
}

impl<'a> TryFromSpecImpl<&'a ParamData> for Option<u32> {
    open spec fn obeys_try_from_spec() -> bool {
        true
    }

    open spec fn try_from_spec(data: &'a ParamData) -> Result<Option<u32>, PatchError> {
        match *data {
            ParamData::U32(value) => Ok(Some(value)),
            ParamData::NoData => Ok(None),
            _ => Err(PatchError::InvalidData),
        }
    }
}

impl From<Notify<u32>> for ParamData {
    fn from(value: Notify<u32>) -> (r: Self) {
        Self::U32(*value.get())
    }
}

impl FromSpecImpl<Notify<u32>> for ParamData {
    open spec fn obeys_from_spec() -> bool {
        true
    }

    open spec fn from_spec(v: Notify<u32>) -> Self {
        ParamData::U32(v.value_of())
    }
}

impl From<i64> for ParamData {
    fn from(value: i64) -> (r: Self) {
        Self::I64(value)
    }
}

impl FromSpecImpl<i64> for ParamData {
    open spec fn obeys_from_spec() -> bool {
        true
    }

    open spec fn from_spec(v: i64) -> Self {
        ParamData::I64(v)
    }
}

impl<'a> TryFrom<&'a ParamData> for i64 {
    type Error = PatchError;

    fn try_from(data: &'a ParamData) -> (r: Result<i64, PatchError>) {
        match data {
            ParamData::I64(value) => Ok(*value),
            _ => Err(PatchError::InvalidData),
        }
    }
}

impl<'a> TryFromSpecImpl<&'a ParamData> for i64 {
    open spec fn obeys_try_from_spec() -> bool {
        true
    }

    open spec fn try_from_spec(data: &'a ParamData) -> Result<i64, PatchError> {
        match *data {
            ParamData::I64(value) => Ok(value),
            _ => Err(PatchError::InvalidData),
        }
    }
}

impl From<Option<i64>> for ParamData {
    fn from(value: Option<i64>) -> (r: Self) {
        if let Some(value) = value {
            Self::I64(value)
        } else {
            Self::NoData
        }
    }
}

impl FromSpecImpl<Option<i64>> for ParamData {
    open spec fn obeys_from_spec() -> bool {
        true
    }

    open spec fn from_spec(v: Option<i64>) -> Self {
        match v {
            Some(value) => ParamData::I64(value),
            None => ParamData::NoData,
        }
    }
}

impl<'a> TryFrom<&'a ParamData> for Option<i64> {
    type Error = PatchError;

    fn try_from(data: &'a ParamData) -> (r: Result<Option<i64>, PatchError>) {
        match data {
            ParamData::I64(value) => Ok(Some(*value)),
            ParamData::NoData => Ok(None),
            _ => Err(PatchError::InvalidData),
        }
    }
}

impl<'a> TryFromSpecImpl<&'a ParamData> for Option<i64> {
    open spec fn obeys_try_from_spec() -> bool {
        true
    }

    open spec fn try_from_spec(data: &'a ParamData) -> Result<Option<i64>, PatchError> {
        match *data {
            ParamData::I64(value) => Ok(Some(value)),
            ParamData::NoData => Ok(None),
            _ => Err(PatchError::InvalidData),
        }
    }
}

impl From<Notify<i64>> for ParamData {
    fn from(value: Notify<i64>) -> (r: Self) {
        Self::I64(*value.get())
    }
}

impl FromSpecImpl<Notify<i64>> for ParamData {
    open spec fn obeys_from_spec() -> bool {
        true
    }

    open spec fn from_spec(v: Notify<i64>) -> Self {
        ParamData::I64(v.value_of())
    }
}

impl From<u64> for ParamData {
    fn from(value: u64) -> (r: Self) {
        Self::U64(value)
    }
}

impl FromSpecImpl<u64> for ParamData {
    open spec fn obeys_from_spec() -> bool {
        true
    }

    open spec fn from_spec(v: u64) -> Self {
        ParamData::U64(v)
    }
}

impl<'a> TryFrom<&'a ParamData> for u64 {
    type Error = PatchError;

    fn try_from(data: &'a ParamData) -> (r: Result<u64, PatchError>) {
        match data {
            ParamData::U64(value) => Ok(*value),
            _ => Err(PatchError::InvalidData),
        }
    }
}

impl<'a> TryFromSpecImpl<&'a ParamData> for u64 {
    open spec fn obeys_try_from_spec() -> bool {
        true
    }

    open spec fn try_from_spec(data: &'a ParamData) -> Result<u64, PatchError> {
        match *data {
            ParamData::U64(value) => Ok(value),
            _ => Err(PatchError::InvalidData),
        }
    }
}

impl From<Option<u64>> for ParamData {
    fn from(value: Option<u64>) -> (r: Self) {
        if let Some(value) = value {
            Self::U64(value)
        } else {
            Self::NoData
        }
    }
}

impl FromSpecImpl<Option<u64>> for ParamData {
    open spec fn obeys_from_spec() -> bool {
        true
    }

    open spec fn from_spec(v: Option<u64>) -> Self {
        match v {
            Some(value) => ParamData::U64(value),
            None => ParamData::NoData,
        }
    }
}

impl<'a> TryFrom<&'a ParamData> for Option<u64> {
    type Error = PatchError;

    fn try_from(data: &'a ParamData) -> (r: Result<Option<u64>, PatchError>) {
        match data {
            ParamData::U64(value) => Ok(Some(*value)),
            ParamData::NoData => Ok(None),
            _ => Err(PatchError::InvalidData),
        }
    }
}

impl<'a> TryFromSpecImpl<&'a ParamData> for Option<u64> {
    open spec fn obeys_try_from_spec() -> bool {
        true
    }

    open spec fn try_from_spec(data: &'a ParamData) -> Result<Option<u64>, PatchError> {
        match *data {
            ParamData::U64(value) => Ok(Some(value)),
            ParamData::NoData => Ok(None),
            _ => Err(PatchError::InvalidData),
        }
    }
}

impl From<Notify<u64>> for ParamData {
    fn from(value: Notify<u64>) -> (r: Self) {
        Self::U64(*value.get())
    }
}

impl FromSpecImpl<Notify<u64>> for ParamData {
    open spec fn obeys_from_spec() -> bool {
        true
    }

    open spec fn from_spec(v: Notify<u64>) -> Self {
        ParamData::U64(v.value_of())
    }
}

impl From<bool> for ParamData {
    fn from(value: bool) -> (r: Self) {
        Self::Bool(value)
    }
}

impl FromSpecImpl<bool> for ParamData {
    open spec fn obeys_from_spec() -> bool {
        true
    }

    open spec fn from_spec(v: bool) -> Self {
        ParamData::Bool(v)
    }
}

impl<'a> TryFrom<&'a ParamData> for bool {
    type Error = PatchError;

    fn try_from(data: &'a ParamData) -> (r: Result<bool, PatchError>) {
        match data {
            ParamData::Bool(value) => Ok(*value),
            _ => Err(PatchError::InvalidData),
        }
    }
}

impl<'a> TryFromSpecImpl<&'a ParamData> for bool {
    open spec fn obeys_try_from_spec() -> bool {
        true
    }

    open spec fn try_from_spec(data: &'a ParamData) -> Result<bool, PatchError> {
        match *data {
            ParamData::Bool(value) => Ok(value),
            _ => Err(PatchError::InvalidData),
        }
    }
}

impl From<Option<bool>> for ParamData {
    fn from(value: Option<bool>) -> (r: Self) {
        if let Some(value) = value {
            Self::Bool(value)
        } else {
            Self::NoData
        }
    }
}

impl FromSpecImpl<Option<bool>> for ParamData {
    open spec fn obeys_from_spec() -> bool {
        true
    }

    open spec fn from_spec(v: Option<bool>) -> Self {
        match v {
            Some(value) => ParamData::Bool(value),
            None => ParamData::NoData,
        }
    }
}

impl<'a> TryFrom<&'a ParamData> for Option<bool> {
    type Error = PatchError;

    fn try_from(data: &'a ParamData) -> (r: Result<Option<bool>, PatchError>) {
        match data {
            ParamData::Bool(value) => Ok(Some(*value)),
            ParamData::NoData => Ok(None),
            _ => Err(PatchError::InvalidData),
        }
    }
}

impl<'a> TryFromSpecImpl<&'a ParamData> for Option<bool> {
    open spec fn obeys_try_from_spec() -> bool {
        true
    }

    open spec fn try_from_spec(data: &'a ParamData) -> Result<Option<bool>, PatchError> {
        match *data {
            ParamData::Bool(value) => Ok(Some(value)),
            ParamData::NoData => Ok(None),
            _ => Err(PatchError::InvalidData),
        }
    }
}

impl From<Notify<bool>> for ParamData {
    fn from(value: Notify<bool>) -> (r: Self) {
        Self::Bool(*value.get())
    }
}

impl FromSpecImpl<Notify<bool>> for ParamData {
    open spec fn obeys_from_spec() -> bool {
        true
    }

    open spec fn from_spec(v: Notify<bool>) -> Self {
        ParamData::Bool(v.value_of())
    }
}

/// A value turned into parameter data and back is the value: for `()`,
/// `i32`, `u32`, `i64`, `u64`, `bool` and their `Option`s.
pub proof fn lemma_param_data_roundtrip(v_i32: i32, o_i32: Option<i32>, v_u32: u32, o_u32: Option<u32>, v_i64: i64, o_i64: Option<i64>, v_u64: u64, o_u64: Option<u64>, v_bool: bool, o_bool: Option<bool>)
    ensures
        <i32 as TryFromSpec<&ParamData>>::try_from_spec(&<ParamData as FromSpec<i32>>::from_spec(v_i32)) == Ok::<i32, PatchError>(v_i32),
        <Option<i32> as TryFromSpec<&ParamData>>::try_from_spec(&<ParamData as FromSpec<Option<i32>>>::from_spec(o_i32)) == Ok::<Option<i32>, PatchError>(o_i32),
        <u32 as TryFromSpec<&ParamData>>::try_from_spec(&<ParamData as FromSpec<u32>>::from_spec(v_u32)) == Ok::<u32, PatchError>(v_u32),
        <Option<u32> as TryFromSpec<&ParamData>>::try_from_spec(&<ParamData as FromSpec<Option<u32>>>::from_spec(o_u32)) == Ok::<Option<u32>, PatchError>(o_u32),
        <i64 as TryFromSpec<&ParamData>>::try_from_spec(&<ParamData as FromSpec<i64>>::from_spec(v_i64)) == Ok::<i64, PatchError>(v_i64),
        <Option<i64> as TryFromSpec<&ParamData>>::try_from_spec(&<ParamData as FromSpec<Option<i64>>>::from_spec(o_i64)) == Ok::<Option<i64>, PatchError>(o_i64),
        <u64 as TryFromSpec<&ParamData>>::try_from_spec(&<ParamData as FromSpec<u64>>::from_spec(v_u64)) == Ok::<u64, PatchError>(v_u64),
        <Option<u64> as TryFromSpec<&ParamData>>::try_from_spec(&<ParamData as FromSpec<Option<u64>>>::from_spec(o_u64)) == Ok::<Option<u64>, PatchError>(o_u64),
        <bool as TryFromSpec<&ParamData>>::try_from_spec(&<ParamData as FromSpec<bool>>::from_spec(v_bool)) == Ok::<bool, PatchError>(v_bool),
        <Option<bool> as TryFromSpec<&ParamData>>::try_from_spec(&<ParamData as FromSpec<Option<bool>>>::from_spec(o_bool)) == Ok::<Option<bool>, PatchError>(o_bool),
        <() as TryFromSpec<&ParamData>>::try_from_spec(&<ParamData as FromSpec<()>>::from_spec(())) == Ok::<(), PatchError>(()),
{
}

/// Converting parameter data with `try_from` and patching with it agree:
/// for `()`, `i32`, `u32`, `i64`, `u64`, `bool` and their `Option`s.
pub proof fn lemma_patch_is_try_from(data: ParamData)
    ensures
        <i32 as Patch>::patch_spec(data) == <i32 as TryFromSpec<&ParamData>>::try_from_spec(&data),
        <Option<i32> as Patch>::patch_spec(data) == <Option<i32> as TryFromSpec<&ParamData>>::try_from_spec(&data),
        <u32 as Patch>::patch_spec(data) == <u32 as TryFromSpec<&ParamData>>::try_from_spec(&data),
        <Option<u32> as Patch>::patch_spec(data) == <Option<u32> as TryFromSpec<&ParamData>>::try_from_spec(&data),
        <i64 as Patch>::patch_spec(data) == <i64 as TryFromSpec<&ParamData>>::try_from_spec(&data),
        <Option<i64> as Patch>::patch_spec(data) == <Option<i64> as TryFromSpec<&ParamData>>::try_from_spec(&data),
        <u64 as Patch>::patch_spec(data) == <u64 as TryFromSpec<&ParamData>>::try_from_spec(&data),
        <Option<u64> as Patch>::patch_spec(data) == <Option<u64> as TryFromSpec<&ParamData>>::try_from_spec(&data),
        <bool as Patch>::patch_spec(data) == <bool as TryFromSpec<&ParamData>>::try_from_spec(&data),
        <Option<bool> as Patch>::patch_spec(data) == <Option<bool> as TryFromSpec<&ParamData>>::try_from_spec(&data),
        <() as Patch>::patch_spec(data) == <() as TryFromSpec<&ParamData>>::try_from_spec(&data),
{
}

} // verus!
