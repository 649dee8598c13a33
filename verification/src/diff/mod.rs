//! The diff/patch protocol: a parameter value compares itself with a
//! baseline and queues the events that describe the change; the receiving
//! side turns each event back into a patch and applies it.
use vstd::prelude::*;

use crate::event::{NodeEventType, ParamData};

pub mod leaf;
pub mod notify;

pub use notify::{Notify, NotifyID};

verus! {

/// Error returned when parameter data cannot be turned into a patch.
#[derive(Debug, Clone, Copy, PartialEq, Eq, Structural)]
pub enum PatchError {
    /// The data does not hold the variant that the target type expects.
    InvalidData,
}

/// The path from the root of a parameter struct to one parameter.
#[derive(Debug, Clone)]
pub struct ParamPath {
    segments: Vec<u32>,
}

impl View for ParamPath {
    type V = Seq<u32>;

    closed spec fn view(&self) -> Seq<u32> {
        self.segments@
    }
}

impl ParamPath {
    /// The indices of the path, from the root.
    pub fn as_slice(&self) -> (r: &[u32])
        ensures
            r@ == self@,
    {
        self.segments.as_slice()
    }
}

/// Builds the path of a parameter while a diff walks down a parameter struct.
#[derive(Debug, Clone)]
pub struct PathBuilder {
    segments: Vec<u32>,
}

impl View for PathBuilder {
    type V = Seq<u32>;

    closed spec fn view(&self) -> Seq<u32> {
        self.segments@
    }
}

impl PathBuilder {
    /// The empty path, which names the root.
    pub fn new() -> (r: Self)
        ensures
            r@ == Seq::<u32>::empty(),
    {
        PathBuilder { segments: Vec::new() }
    }

    /// The path one level further down, at `index`.
    pub fn with(&self, index: u32) -> (r: Self)
        ensures
            r@ == self@.push(index),
    {
        let mut segments = self.segments.clone();
        proof {
            assert(segments@ =~= self.segments@);
        }
        segments.push(index);
        PathBuilder { segments }
    }

    /// The finished path.
    pub fn build(&self) -> (r: ParamPath)
        ensures
            r@ == self@,
    {
        let segments = self.segments.clone();
        proof {
            assert(segments@ =~= self.segments@);
        }
        ParamPath { segments }
    }
}

impl Default for PathBuilder {
    /// The empty path, which names the root.
    fn default() -> (r: Self)
        ensures
            r@ == Seq::<u32>::empty(),
    {
        PathBuilder::new()
    }
}

/// `after` is `before` with one `Param` event appended, carrying `data`
/// at the path `path`.
pub open spec fn pushed_param(
    before: Seq<NodeEventType>,
    after: Seq<NodeEventType>,
    data: ParamData,
    path: Seq<u32>,
) -> bool {
    &&& after.len() == before.len() + 1
    &&& after.take(before.len() as int) == before
    &&& after.last() matches NodeEventType::Param { data: d, path: p } && d == data && p@ == path
}

/// A queue that collects the events produced by a diff.
pub trait EventQueue {
    /// The events queued so far, oldest first.
    spec fn queued(&self) -> Seq<NodeEventType>;

    /// Appends an event.
    fn push(&mut self, event: NodeEventType)
        ensures
            final(self).queued() == old(self).queued().push(event),
    ;

    /// Appends a parameter event with the given data at the given path.
    fn push_param(&mut self, data: ParamData, path: PathBuilder)
        ensures
            pushed_param(old(self).queued(), final(self).queued(), data, path@),
    {
        let path = path.build();
        let ghost before = self.queued();
        self.push(NodeEventType::Param { data, path });
        proof {
            assert(self.queued().take(before.len() as int) =~= before);
        }
    }
}

impl EventQueue for Vec<NodeEventType> {
    open spec fn queued(&self) -> Seq<NodeEventType> {
        self@
    }

    fn push(&mut self, event: NodeEventType) {
        Vec::push(self, event);
    }
}

/// Compares a value with a baseline and queues the events that turn the
/// baseline into the value.
pub trait Diff {
    /// Whether `self` differs from `baseline`, so that a diff queues an event.
    spec fn differs(&self, baseline: &Self) -> bool;

    /// Whether `data` is the parameter data that a diff of `self` carries.
    spec fn encodes(&self, data: ParamData) -> bool;

    /// Queues, at `path`, one parameter event carrying `self` where `self`
    /// differs from `baseline`, and nothing otherwise.
    fn diff<E: EventQueue>(&self, baseline: &Self, path: PathBuilder, event_queue: &mut E)
        ensures
            !self.differs(baseline) ==> final(event_queue).queued() == old(event_queue).queued(),
            self.differs(baseline) ==> {
                let before = old(event_queue).queued();
                let after = final(event_queue).queued();
                &&& after.len() == before.len() + 1
                &&& after.take(before.len() as int) == before
                &&& after.last() matches NodeEventType::Param { data: d, path: p } && self.encodes(
                    d,
                ) && p@ == path@
            },
    ;
}

/// The patch that a parameter event gives for `T`: `None` for an event that
/// is no parameter event, or whose data does not fit `T`.
pub open spec fn patch_of_event<T: Patch>(event: NodeEventType) -> Option<T::Patch> {
    match event {
        NodeEventType::Param { data, .. } => match T::patch_spec(data) {
            Ok(p) => Some(p),
            Err(_) => None,
        },
        _ => None,
    }
}

/// Turns parameter data back into a patch and applies it.
pub trait Patch: Sized {
    /// What an event turns into before it is applied.
    type Patch;

    /// The patch that `data` gives, or the error.
    spec fn patch_spec(data: ParamData) -> Result<Self::Patch, PatchError>;

    /// The value after `patch` is applied to `self`.
    spec fn apply_spec(self, patch: Self::Patch) -> Self;

    /// Turns the data of a parameter event into a patch.
    fn patch(data: &ParamData, path: &[u32]) -> (r: Result<Self::Patch, PatchError>)
        ensures
            r == Self::patch_spec(*data),
    ;

    /// Applies a patch.
    fn apply(&mut self, patch: Self::Patch)
        ensures
            *final(self) == old(self).apply_spec(patch),
    ;

    /// The patch that an event gives, if it is a parameter event whose data
    /// fits this type.
    fn patch_event(event: &NodeEventType) -> (r: Option<Self::Patch>)
        ensures
            r == match *event {
                NodeEventType::Param { data, .. } => match Self::patch_spec(data) {
                    Ok(p) => Some(p),
                    Err(_) => None,
                },
                _ => None,
            },
    {
        match event {
            NodeEventType::Param { data, path } => match Self::patch(data, path.as_slice()) {
                Ok(p) => Some(p),
                Err(_) => None,
            },
            _ => None,
        }
    }
}

/// Types whose diff and patch agree: what a diff queues patches the
/// baseline into the value.
pub trait DiffPatch: Diff + Patch {
    /// A value that does not differ from its baseline equals it; the data
    /// that a diff of a value carries patches any baseline into that value.
    proof fn lemma_diff_patch(value: Self, baseline: Self, data: ParamData)
        ensures
            !value.differs(&baseline) ==> value == baseline,
            value.encodes(data) ==> Self::patch_spec(data) is Ok && baseline.apply_spec(
                Self::patch_spec(data)->Ok_0,
            ) == value,
    ;
}

/// Diffing a value against a baseline and patching the baseline with what
/// the diff queued gives the value back; no event is queued only where the
/// value equals the baseline.
pub proof fn lemma_diff_then_patch<T: DiffPatch>(value: T, baseline: T, data: ParamData)
    ensures
        !value.differs(&baseline) ==> value == baseline,
        value.encodes(data) ==> T::patch_spec(data) is Ok && baseline.apply_spec(
            T::patch_spec(data)->Ok_0,
        ) == value,
{
    T::lemma_diff_patch(value, baseline, data);
}

} // verus!
