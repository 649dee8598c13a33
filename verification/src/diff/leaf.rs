//! Diff and patch for single-value parameters: the unit type, booleans and
//! integers, their `Option`s, and `Notify` values of them.
use vstd::prelude::*;

use super::notify::{group_notify, lemma_notify_eq, Notify, NotifyID};
use super::{Diff, DiffPatch, EventQueue, Patch, PatchError, PathBuilder};
use crate::bytes::{
    lemma_byte_ranges, lemma_native_bytes_roundtrip, native_bytes, native_value,
    u16_from_ne_bytes, u16_to_ne_bytes, u32_from_ne_bytes, u32_to_ne_bytes, u64_from_ne_bytes,
    u64_to_ne_bytes,
};
use crate::event::ParamData;

verus! {

broadcast use group_notify;

impl Diff for () {
    open spec fn differs(&self, baseline: &Self) -> bool {
        false
    }

    open spec fn encodes(&self, data: ParamData) -> bool {
        data == ParamData::NoData
    }

    fn diff<E: EventQueue>(&self, _baseline: &Self, _path: PathBuilder, _event_queue: &mut E) {
    }
}

impl Patch for () {
    type Patch = ();

    open spec fn patch_spec(data: ParamData) -> Result<(), PatchError> {
        match data {
            ParamData::NoData => Ok(()),
            _ => Err(PatchError::InvalidData),
        }
    }

    open spec fn apply_spec(self, patch: ()) -> () {
        ()
    }

    fn patch(data: &ParamData, _path: &[u32]) -> Result<(), PatchError> {
        match data {
            ParamData::NoData => Ok(()),
            _ => Err(PatchError::InvalidData),
        }
    }

    fn apply(&mut self, _patch: ()) {
    }
}

impl DiffPatch for () {
    proof fn lemma_diff_patch(value: Self, baseline: Self, data: ParamData) {
    }
}

impl Diff for bool {
    open spec fn differs(&self, baseline: &Self) -> bool {
        *self != *baseline
    }

    open spec fn encodes(&self, data: ParamData) -> bool {
        data == ParamData::Bool(*self)
    }

    fn diff<E: EventQueue>(&self, baseline: &Self, path: PathBuilder, event_queue: &mut E) {
        if *self != *baseline {
            event_queue.push_param(ParamData::Bool(*self), path);
        }
    }
}

impl Patch for bool {
    type Patch = Self;

    open spec fn patch_spec(data: ParamData) -> Result<Self, PatchError> {
        match data {
            ParamData::Bool(value) => Ok(value),
            _ => Err(PatchError::InvalidData),
        }
    }

    open spec fn apply_spec(self, patch: Self) -> Self {
        patch
    }

    fn patch(data: &ParamData, _path: &[u32]) -> Result<Self, PatchError> {
        match data {
            ParamData::Bool(value) => Ok(*value),
            _ => Err(PatchError::InvalidData),
        }
    }

    fn apply(&mut self, value: Self) {
        *self = value;
    }
}

impl DiffPatch for bool {
    proof fn lemma_diff_patch(value: Self, baseline: Self, data: ParamData) {
    }
}

impl Diff for Option<bool> {
    open spec fn differs(&self, baseline: &Self) -> bool {
        *self != *baseline
    }

    open spec fn encodes(&self, data: ParamData) -> bool {
        data == match *self {
            Some(v) => ParamData::Bool(v),
            None => ParamData::NoData,
        }
    }

    fn diff<E: EventQueue>(&self, baseline: &Self, path: PathBuilder, event_queue: &mut E) {
        if *self != *baseline {
            let data = match *self {
                Some(v) => ParamData::Bool(v),
                None => ParamData::NoData,
            };
            event_queue.push_param(data, path);
        }
    }
}

impl Patch for Option<bool> {
    type Patch = Self;

    open spec fn patch_spec(data: ParamData) -> Result<Self, PatchError> {
        match data {
            ParamData::Bool(value) => Ok(Some(value)),
            ParamData::NoData => Ok(None),
            _ => Err(PatchError::InvalidData),
        }
    }

    open spec fn apply_spec(self, patch: Self) -> Self {
        patch
    }

    fn patch(data: &ParamData, _path: &[u32]) -> Result<Self, PatchError> {
        match data {
            ParamData::Bool(value) => Ok(Some(*value)),
            ParamData::NoData => Ok(None),
            _ => Err(PatchError::InvalidData),
        }
    }

    fn apply(&mut self, value: Self) {
        *self = value;
    }
}

impl DiffPatch for Option<bool> {
    proof fn lemma_diff_patch(value: Self, baseline: Self, data: ParamData) {
    }
}

impl Diff for u8 {
    open spec fn differs(&self, baseline: &Self) -> bool {
        *self != *baseline
    }

    open spec fn encodes(&self, data: ParamData) -> bool {
        data == ParamData::U32(*self as u32)
    }

    fn diff<E: EventQueue>(&self, baseline: &Self, path: PathBuilder, event_queue: &mut E) {
        if *self != *baseline {
            event_queue.push_param(ParamData::U32(*self as u32), path);
        }
    }
}

impl Patch for u8 {
    type Patch = Self;

    open spec fn patch_spec(data: ParamData) -> Result<Self, PatchError> {
        match data {
            ParamData::U32(value) => Ok(value as u8),
            _ => Err(PatchError::InvalidData),
        }
    }

    open spec fn apply_spec(self, patch: Self) -> Self {
        patch
    }

    fn patch(data: &ParamData, _path: &[u32]) -> Result<Self, PatchError> {
        match data {
            ParamData::U32(value) => Ok(*value as u8),
            _ => Err(PatchError::InvalidData),
        }
    }

    fn apply(&mut self, value: Self) {
        *self = value;
    }
}

impl DiffPatch for u8 {
    proof fn lemma_diff_patch(value: Self, baseline: Self, data: ParamData) {
    }
}

impl Diff for Option<u8> {
    open spec fn differs(&self, baseline: &Self) -> bool {
        *self != *baseline
    }

    open spec fn encodes(&self, data: ParamData) -> bool {
        data == match *self {
            Some(v) => ParamData::U32(v as u32),
            None => ParamData::NoData,
        }
    }

    fn diff<E: EventQueue>(&self, baseline: &Self, path: PathBuilder, event_queue: &mut E) {
        if *self != *baseline {
            let data = match *self {
                Some(v) => ParamData::U32(v as u32),
                None => ParamData::NoData,
            };
            event_queue.push_param(data, path);
        }
    }
}

impl Patch for Option<u8> {
    type Patch = Self;

    open spec fn patch_spec(data: ParamData) -> Result<Self, PatchError> {
        match data {
            ParamData::U32(value) => Ok(Some(value as u8)),
            ParamData::NoData => Ok(None),
            _ => Err(PatchError::InvalidData),
        }
    }

    open spec fn apply_spec(self, patch: Self) -> Self {
        patch
    }

    fn patch(data: &ParamData, _path: &[u32]) -> Result<Self, PatchError> {
        match data {
            ParamData::U32(value) => Ok(Some(*value as u8)),
            ParamData::NoData => Ok(None),
            _ => Err(PatchError::InvalidData),
        }
    }

    fn apply(&mut self, value: Self) {
        *self = value;
    }
}

impl DiffPatch for Option<u8> {
    proof fn lemma_diff_patch(value: Self, baseline: Self, data: ParamData) {
    }
}

impl Diff for u16 {
    open spec fn differs(&self, baseline: &Self) -> bool {
        *self != *baseline
    }

    open spec fn encodes(&self, data: ParamData) -> bool {
        data == ParamData::U32(*self as u32)
    }

    fn diff<E: EventQueue>(&self, baseline: &Self, path: PathBuilder, event_queue: &mut E) {
        if *self != *baseline {
            event_queue.push_param(ParamData::U32(*self as u32), path);
        }
    }
}

impl Patch for u16 {
    type Patch = Self;

    open spec fn patch_spec(data: ParamData) -> Result<Self, PatchError> {
        match data {
            ParamData::U32(value) => Ok(value as u16),
            _ => Err(PatchError::InvalidData),
        }
    }

    open spec fn apply_spec(self, patch: Self) -> Self {
        patch
    }

    fn patch(data: &ParamData, _path: &[u32]) -> Result<Self, PatchError> {
        match data {
            ParamData::U32(value) => Ok(*value as u16),
            _ => Err(PatchError::InvalidData),
        }
    }

    fn apply(&mut self, value: Self) {
        *self = value;
    }
}

impl DiffPatch for u16 {
    proof fn lemma_diff_patch(value: Self, baseline: Self, data: ParamData) {
    }
}

impl Diff for Option<u16> {
    open spec fn differs(&self, baseline: &Self) -> bool {
        *self != *baseline
    }

    open spec fn encodes(&self, data: ParamData) -> bool {
        data == match *self {
            Some(v) => ParamData::U32(v as u32),
            None => ParamData::NoData,
        }
    }

    fn diff<E: EventQueue>(&self, baseline: &Self, path: PathBuilder, event_queue: &mut E) {
        if *self != *baseline {
            let data = match *self {
                Some(v) => ParamData::U32(v as u32),
                None => ParamData::NoData,
            };
            event_queue.push_param(data, path);
        }
    }
}

impl Patch for Option<u16> {
    type Patch = Self;

    open spec fn patch_spec(data: ParamData) -> Result<Self, PatchError> {
        match data {
            ParamData::U32(value) => Ok(Some(value as u16)),
            ParamData::NoData => Ok(None),
            _ => Err(PatchError::InvalidData),
        }
    }

    open spec fn apply_spec(self, patch: Self) -> Self {
        patch
    }

    fn patch(data: &ParamData, _path: &[u32]) -> Result<Self, PatchError> {
        match data {
            ParamData::U32(value) => Ok(Some(*value as u16)),
            ParamData::NoData => Ok(None),
            _ => Err(PatchError::InvalidData),
        }
    }

    fn apply(&mut self, value: Self) {
        *self = value;
    }
}

impl DiffPatch for Option<u16> {
    proof fn lemma_diff_patch(value: Self, baseline: Self, data: ParamData) {
    }
}

impl Diff for u32 {
    open spec fn differs(&self, baseline: &Self) -> bool {
        *self != *baseline
    }

    open spec fn encodes(&self, data: ParamData) -> bool {
        data == ParamData::U32(*self)
    }

    fn diff<E: EventQueue>(&self, baseline: &Self, path: PathBuilder, event_queue: &mut E) {
        if *self != *baseline {
            event_queue.push_param(ParamData::U32(*self), path);
        }
    }
}

impl Patch for u32 {
    type Patch = Self;

    open spec fn patch_spec(data: ParamData) -> Result<Self, PatchError> {
        match data {
            ParamData::U32(value) => Ok(value),
            _ => Err(PatchError::InvalidData),
        }
    }

    open spec fn apply_spec(self, patch: Self) -> Self {
        patch
    }

    fn patch(data: &ParamData, _path: &[u32]) -> Result<Self, PatchError> {
        match data {
            ParamData::U32(value) => Ok(*value),
            _ => Err(PatchError::InvalidData),
        }
    }

    fn apply(&mut self, value: Self) {
        *self = value;
    }
}

impl DiffPatch for u32 {
    proof fn lemma_diff_patch(value: Self, baseline: Self, data: ParamData) {
    }
}

impl Diff for Option<u32> {
    open spec fn differs(&self, baseline: &Self) -> bool {
        *self != *baseline
    }

    open spec fn encodes(&self, data: ParamData) -> bool {
        data == match *self {
            Some(v) => ParamData::U32(v),
            None => ParamData::NoData,
        }
    }

    fn diff<E: EventQueue>(&self, baseline: &Self, path: PathBuilder, event_queue: &mut E) {
        if *self != *baseline {
            let data = match *self {
                Some(v) => ParamData::U32(v),
                None => ParamData::NoData,
            };
            event_queue.push_param(data, path);
        }
    }
}

impl Patch for Option<u32> {
    type Patch = Self;

    open spec fn patch_spec(data: ParamData) -> Result<Self, PatchError> {
        match data {
            ParamData::U32(value) => Ok(Some(value)),
            ParamData::NoData => Ok(None),
            _ => Err(PatchError::InvalidData),
        }
    }

    open spec fn apply_spec(self, patch: Self) -> Self {
        patch
    }

    fn patch(data: &ParamData, _path: &[u32]) -> Result<Self, PatchError> {
        match data {
            ParamData::U32(value) => Ok(Some(*value)),
            ParamData::NoData => Ok(None),
            _ => Err(PatchError::InvalidData),
        }
    }

    fn apply(&mut self, value: Self) {
        *self = value;
    }
}

impl DiffPatch for Option<u32> {
    proof fn lemma_diff_patch(value: Self, baseline: Self, data: ParamData) {
    }
}

impl Diff for u64 {
    open spec fn differs(&self, baseline: &Self) -> bool {
        *self != *baseline
    }

    open spec fn encodes(&self, data: ParamData) -> bool {
        data == ParamData::U64(*self)
    }

    fn diff<E: EventQueue>(&self, baseline: &Self, path: PathBuilder, event_queue: &mut E) {
        if *self != *baseline {
            event_queue.push_param(ParamData::U64(*self), path);
        }
    }
}

impl Patch for u64 {
    type Patch = Self;

    open spec fn patch_spec(data: ParamData) -> Result<Self, PatchError> {
        match data {
            ParamData::U64(value) => Ok(value),
            _ => Err(PatchError::InvalidData),
        }
    }

    open spec fn apply_spec(self, patch: Self) -> Self {
        patch
    }

    fn patch(data: &ParamData, _path: &[u32]) -> Result<Self, PatchError> {
        match data {
            ParamData::U64(value) => Ok(*value),
            _ => Err(PatchError::InvalidData),
        }
    }

    fn apply(&mut self, value: Self) {
        *self = value;
    }
}

impl DiffPatch for u64 {
    proof fn lemma_diff_patch(value: Self, baseline: Self, data: ParamData) {
    }
}

impl Diff for Option<u64> {
    open spec fn differs(&self, baseline: &Self) -> bool {
        *self != *baseline
    }

    open spec fn encodes(&self, data: ParamData) -> bool {
        data == match *self {
            Some(v) => ParamData::U64(v),
            None => ParamData::NoData,
        }
    }

    fn diff<E: EventQueue>(&self, baseline: &Self, path: PathBuilder, event_queue: &mut E) {
        if *self != *baseline {
            let data = match *self {
                Some(v) => ParamData::U64(v),
                None => ParamData::NoData,
            };
            event_queue.push_param(data, path);
        }
    }
}

impl Patch for Option<u64> {
    type Patch = Self;

    open spec fn patch_spec(data: ParamData) -> Result<Self, PatchError> {
        match data {
            ParamData::U64(value) => Ok(Some(value)),
            ParamData::NoData => Ok(None),
            _ => Err(PatchError::InvalidData),
        }
    }

    open spec fn apply_spec(self, patch: Self) -> Self {
        patch
    }

    fn patch(data: &ParamData, _path: &[u32]) -> Result<Self, PatchError> {
        match data {
            ParamData::U64(value) => Ok(Some(*value)),
            ParamData::NoData => Ok(None),
            _ => Err(PatchError::InvalidData),
        }
    }

    fn apply(&mut self, value: Self) {
        *self = value;
    }
}

impl DiffPatch for Option<u64> {
    proof fn lemma_diff_patch(value: Self, baseline: Self, data: ParamData) {
    }
}

impl Diff for i8 {
    open spec fn differs(&self, baseline: &Self) -> bool {
        *self != *baseline
    }

    open spec fn encodes(&self, data: ParamData) -> bool {
        data == ParamData::I32(*self as i32)
    }

    fn diff<E: EventQueue>(&self, baseline: &Self, path: PathBuilder, event_queue: &mut E) {
        if *self != *baseline {
            event_queue.push_param(ParamData::I32(*self as i32), path);
        }
    }
}

impl Patch for i8 {
    type Patch = Self;

    open spec fn patch_spec(data: ParamData) -> Result<Self, PatchError> {
        match data {
            ParamData::I32(value) => Ok(value as i8),
            _ => Err(PatchError::InvalidData),
        }
    }

    open spec fn apply_spec(self, patch: Self) -> Self {
        patch
    }

    fn patch(data: &ParamData, _path: &[u32]) -> Result<Self, PatchError> {
        match data {
            ParamData::I32(value) => Ok(*value as i8),
            _ => Err(PatchError::InvalidData),
        }
    }

    fn apply(&mut self, value: Self) {
        *self = value;
    }
}

impl DiffPatch for i8 {
    proof fn lemma_diff_patch(value: Self, baseline: Self, data: ParamData) {
    }
}

impl Diff for Option<i8> {
    open spec fn differs(&self, baseline: &Self) -> bool {
        *self != *baseline
    }

    open spec fn encodes(&self, data: ParamData) -> bool {
        data == match *self {
            Some(v) => ParamData::I32(v as i32),
            None => ParamData::NoData,
        }
    }

    fn diff<E: EventQueue>(&self, baseline: &Self, path: PathBuilder, event_queue: &mut E) {
        if *self != *baseline {
            let data = match *self {
                Some(v) => ParamData::I32(v as i32),
                None => ParamData::NoData,
            };
            event_queue.push_param(data, path);
        }
    }
}

impl Patch for Option<i8> {
    type Patch = Self;

    open spec fn patch_spec(data: ParamData) -> Result<Self, PatchError> {
        match data {
            ParamData::I32(value) => Ok(Some(value as i8)),
            ParamData::NoData => Ok(None),
            _ => Err(PatchError::InvalidData),
        }
    }

    open spec fn apply_spec(self, patch: Self) -> Self {
        patch
    }

    fn patch(data: &ParamData, _path: &[u32]) -> Result<Self, PatchError> {
        match data {
            ParamData::I32(value) => Ok(Some(*value as i8)),
            ParamData::NoData => Ok(None),
            _ => Err(PatchError::InvalidData),
        }
    }

    fn apply(&mut self, value: Self) {
        *self = value;
    }
}

impl DiffPatch for Option<i8> {
    proof fn lemma_diff_patch(value: Self, baseline: Self, data: ParamData) {
    }
}

impl Diff for i16 {
    open spec fn differs(&self, baseline: &Self) -> bool {
        *self != *baseline
    }

    open spec fn encodes(&self, data: ParamData) -> bool {
        data == ParamData::I32(*self as i32)
    }

    fn diff<E: EventQueue>(&self, baseline: &Self, path: PathBuilder, event_queue: &mut E) {
        if *self != *baseline {
            event_queue.push_param(ParamData::I32(*self as i32), path);
        }
    }
}

impl Patch for i16 {
    type Patch = Self;

    open spec fn patch_spec(data: ParamData) -> Result<Self, PatchError> {
        match data {
            ParamData::I32(value) => Ok(value as i16),
            _ => Err(PatchError::InvalidData),
        }
    }

    open spec fn apply_spec(self, patch: Self) -> Self {
        patch
    }

    fn patch(data: &ParamData, _path: &[u32]) -> Result<Self, PatchError> {
        match data {
            ParamData::I32(value) => Ok(*value as i16),
            _ => Err(PatchError::InvalidData),
        }
    }

    fn apply(&mut self, value: Self) {
        *self = value;
    }
}

impl DiffPatch for i16 {
    proof fn lemma_diff_patch(value: Self, baseline: Self, data: ParamData) {
    }
}

impl Diff for Option<i16> {
    open spec fn differs(&self, baseline: &Self) -> bool {
        *self != *baseline
    }

    open spec fn encodes(&self, data: ParamData) -> bool {
        data == match *self {
            Some(v) => ParamData::I32(v as i32),
            None => ParamData::NoData,
        }
    }

    fn diff<E: EventQueue>(&self, baseline: &Self, path: PathBuilder, event_queue: &mut E) {
        if *self != *baseline {
            let data = match *self {
                Some(v) => ParamData::I32(v as i32),
                None => ParamData::NoData,
            };
            event_queue.push_param(data, path);
        }
    }
}

impl Patch for Option<i16> {
    type Patch = Self;

    open spec fn patch_spec(data: ParamData) -> Result<Self, PatchError> {
        match data {
            ParamData::I32(value) => Ok(Some(value as i16)),
            ParamData::NoData => Ok(None),
            _ => Err(PatchError::InvalidData),
        }
    }

    open spec fn apply_spec(self, patch: Self) -> Self {
        patch
    }

    fn patch(data: &ParamData, _path: &[u32]) -> Result<Self, PatchError> {
        match data {
            ParamData::I32(value) => Ok(Some(*value as i16)),
            ParamData::NoData => Ok(None),
            _ => Err(PatchError::InvalidData),
        }
    }

    fn apply(&mut self, value: Self) {
        *self = value;
    }
}

impl DiffPatch for Option<i16> {
    proof fn lemma_diff_patch(value: Self, baseline: Self, data: ParamData) {
    }
}

impl Diff for i32 {
    open spec fn differs(&self, baseline: &Self) -> bool {
        *self != *baseline
    }

    open spec fn encodes(&self, data: ParamData) -> bool {
        data == ParamData::I32(*self)
    }

    fn diff<E: EventQueue>(&self, baseline: &Self, path: PathBuilder, event_queue: &mut E) {
        if *self != *baseline {
            event_queue.push_param(ParamData::I32(*self), path);
        }
    }
}

impl Patch for i32 {
    type Patch = Self;

    open spec fn patch_spec(data: ParamData) -> Result<Self, PatchError> {
        match data {
            ParamData::I32(value) => Ok(value),
            _ => Err(PatchError::InvalidData),
        }
    }

    open spec fn apply_spec(self, patch: Self) -> Self {
        patch
    }

    fn patch(data: &ParamData, _path: &[u32]) -> Result<Self, PatchError> {
        match data {
            ParamData::I32(value) => Ok(*value),
            _ => Err(PatchError::InvalidData),
        }
    }

    fn apply(&mut self, value: Self) {
        *self = value;
    }
}

impl DiffPatch for i32 {
    proof fn lemma_diff_patch(value: Self, baseline: Self, data: ParamData) {
    }
}

impl Diff for Option<i32> {
    open spec fn differs(&self, baseline: &Self) -> bool {
        *self != *baseline
    }

    open spec fn encodes(&self, data: ParamData) -> bool {
        data == match *self {
            Some(v) => ParamData::I32(v),
            None => ParamData::NoData,
        }
    }

    fn diff<E: EventQueue>(&self, baseline: &Self, path: PathBuilder, event_queue: &mut E) {
        if *self != *baseline {
            let data = match *self {
                Some(v) => ParamData::I32(v),
                None => ParamData::NoData,
            };
            event_queue.push_param(data, path);
        }
    }
}

impl Patch for Option<i32> {
    type Patch = Self;

    open spec fn patch_spec(data: ParamData) -> Result<Self, PatchError> {
        match data {
            ParamData::I32(value) => Ok(Some(value)),
            ParamData::NoData => Ok(None),
            _ => Err(PatchError::InvalidData),
        }
    }

    open spec fn apply_spec(self, patch: Self) -> Self {
        patch
    }

    fn patch(data: &ParamData, _path: &[u32]) -> Result<Self, PatchError> {
        match data {
            ParamData::I32(value) => Ok(Some(*value)),
            ParamData::NoData => Ok(None),
            _ => Err(PatchError::InvalidData),
        }
    }

    fn apply(&mut self, value: Self) {
        *self = value;
    }
}

impl DiffPatch for Option<i32> {
    proof fn lemma_diff_patch(value: Self, baseline: Self, data: ParamData) {
    }
}

impl Diff for i64 {
    open spec fn differs(&self, baseline: &Self) -> bool {
        *self != *baseline
    }

    open spec fn encodes(&self, data: ParamData) -> bool {
        data == ParamData::I64(*self)
    }

    fn diff<E: EventQueue>(&self, baseline: &Self, path: PathBuilder, event_queue: &mut E) {
        if *self != *baseline {
            event_queue.push_param(ParamData::I64(*self), path);
        }
    }
}

impl Patch for i64 {
    type Patch = Self;

    open spec fn patch_spec(data: ParamData) -> Result<Self, PatchError> {
        match data {
            ParamData::I64(value) => Ok(value),
            _ => Err(PatchError::InvalidData),
        }
    }

    open spec fn apply_spec(self, patch: Self) -> Self {
        patch
    }

    fn patch(data: &ParamData, _path: &[u32]) -> Result<Self, PatchError> {
        match data {
            ParamData::I64(value) => Ok(*value),
            _ => Err(PatchError::InvalidData),
        }
    }

    fn apply(&mut self, value: Self) {
        *self = value;
    }
}

impl DiffPatch for i64 {
    proof fn lemma_diff_patch(value: Self, baseline: Self, data: ParamData) {
    }
}

impl Diff for Option<i64> {
    open spec fn differs(&self, baseline: &Self) -> bool {
        *self != *baseline
    }

    open spec fn encodes(&self, data: ParamData) -> bool {
        data == match *self {
            Some(v) => ParamData::I64(v),
            None => ParamData::NoData,
        }
    }

    fn diff<E: EventQueue>(&self, baseline: &Self, path: PathBuilder, event_queue: &mut E) {
        if *self != *baseline {
            let data = match *self {
                Some(v) => ParamData::I64(v),
                None => ParamData::NoData,
            };
            event_queue.push_param(data, path);
        }
    }
}

impl Patch for Option<i64> {
    type Patch = Self;

    open spec fn patch_spec(data: ParamData) -> Result<Self, PatchError> {
        match data {
            ParamData::I64(value) => Ok(Some(value)),
            ParamData::NoData => Ok(None),
            _ => Err(PatchError::InvalidData),
        }
    }

    open spec fn apply_spec(self, patch: Self) -> Self {
        patch
    }

    fn patch(data: &ParamData, _path: &[u32]) -> Result<Self, PatchError> {
        match data {
            ParamData::I64(value) => Ok(Some(*value)),
            ParamData::NoData => Ok(None),
            _ => Err(PatchError::InvalidData),
        }
    }

    fn apply(&mut self, value: Self) {
        *self = value;
    }
}

impl DiffPatch for Option<i64> {
    proof fn lemma_diff_patch(value: Self, baseline: Self, data: ParamData) {
    }
}

impl Diff for usize {
    open spec fn differs(&self, baseline: &Self) -> bool {
        *self != *baseline
    }

    open spec fn encodes(&self, data: ParamData) -> bool {
        data == ParamData::U64(*self as u64)
    }

    fn diff<E: EventQueue>(&self, baseline: &Self, path: PathBuilder, event_queue: &mut E) {
        if *self != *baseline {
            event_queue.push_param(ParamData::U64(*self as u64), path);
        }
    }
}

impl Patch for usize {
    type Patch = Self;

    open spec fn patch_spec(data: ParamData) -> Result<Self, PatchError> {
        match data {
            ParamData::U64(value) => Ok(value as usize),
            _ => Err(PatchError::InvalidData),
        }
    }

    open spec fn apply_spec(self, patch: Self) -> Self {
        patch
    }

    fn patch(data: &ParamData, _path: &[u32]) -> Result<Self, PatchError> {
        match data {
            ParamData::U64(value) => Ok(*value as usize),
            _ => Err(PatchError::InvalidData),
        }
    }

    fn apply(&mut self, value: Self) {
        *self = value;
    }
}

impl DiffPatch for usize {
    proof fn lemma_diff_patch(value: Self, baseline: Self, data: ParamData) {
    }
}

impl Diff for Option<usize> {
    open spec fn differs(&self, baseline: &Self) -> bool {
        *self != *baseline
    }

    open spec fn encodes(&self, data: ParamData) -> bool {
        data == match *self {
            Some(v) => ParamData::U64(v as u64),
            None => ParamData::NoData,
        }
    }

    fn diff<E: EventQueue>(&self, baseline: &Self, path: PathBuilder, event_queue: &mut E) {
        if *self != *baseline {
            let data = match *self {
                Some(v) => ParamData::U64(v as u64),
                None => ParamData::NoData,
            };
            event_queue.push_param(data, path);
        }
    }
}

impl Patch for Option<usize> {
    type Patch = Self;

    open spec fn patch_spec(data: ParamData) -> Result<Self, PatchError> {
        match data {
            ParamData::U64(value) => Ok(Some(value as usize)),
            ParamData::NoData => Ok(None),
            _ => Err(PatchError::InvalidData),
        }
    }

    open spec fn apply_spec(self, patch: Self) -> Self {
        patch
    }

    fn patch(data: &ParamData, _path: &[u32]) -> Result<Self, PatchError> {
        match data {
            ParamData::U64(value) => Ok(Some(*value as usize)),
            ParamData::NoData => Ok(None),
            _ => Err(PatchError::InvalidData),
        }
    }

    fn apply(&mut self, value: Self) {
        *self = value;
    }
}

impl DiffPatch for Option<usize> {
    proof fn lemma_diff_patch(value: Self, baseline: Self, data: ParamData) {
    }
}

impl Diff for isize {
    open spec fn differs(&self, baseline: &Self) -> bool {
        *self != *baseline
    }

    open spec fn encodes(&self, data: ParamData) -> bool {
        data == ParamData::I64(*self as i64)
    }

    fn diff<E: EventQueue>(&self, baseline: &Self, path: PathBuilder, event_queue: &mut E) {
        if *self != *baseline {
            event_queue.push_param(ParamData::I64(*self as i64), path);
        }
    }
}

impl Patch for isize {
    type Patch = Self;

    open spec fn patch_spec(data: ParamData) -> Result<Self, PatchError> {
        match data {
            ParamData::I64(value) => Ok(value as isize),
            _ => Err(PatchError::InvalidData),
        }
    }

    open spec fn apply_spec(self, patch: Self) -> Self {
        patch
    }

    fn patch(data: &ParamData, _path: &[u32]) -> Result<Self, PatchError> {
        match data {
            ParamData::I64(value) => Ok(*value as isize),
            _ => Err(PatchError::InvalidData),
        }
    }

    fn apply(&mut self, value: Self) {
        *self = value;
    }
}

impl DiffPatch for isize {
    proof fn lemma_diff_patch(value: Self, baseline: Self, data: ParamData) {
    }
}

impl Diff for Option<isize> {
    open spec fn differs(&self, baseline: &Self) -> bool {
        *self != *baseline
    }

    open spec fn encodes(&self, data: ParamData) -> bool {
        data == match *self {
            Some(v) => ParamData::I64(v as i64),
            None => ParamData::NoData,
        }
    }

    fn diff<E: EventQueue>(&self, baseline: &Self, path: PathBuilder, event_queue: &mut E) {
        if *self != *baseline {
            let data = match *self {
                Some(v) => ParamData::I64(v as i64),
                None => ParamData::NoData,
            };
            event_queue.push_param(data, path);
        }
    }
}

impl Patch for Option<isize> {
    type Patch = Self;

    open spec fn patch_spec(data: ParamData) -> Result<Self, PatchError> {
        match data {
            ParamData::I64(value) => Ok(Some(value as isize)),
            ParamData::NoData => Ok(None),
            _ => Err(PatchError::InvalidData),
        }
    }

    open spec fn apply_spec(self, patch: Self) -> Self {
        patch
    }

    fn patch(data: &ParamData, _path: &[u32]) -> Result<Self, PatchError> {
        match data {
            ParamData::I64(value) => Ok(Some(*value as isize)),
            ParamData::NoData => Ok(None),
            _ => Err(PatchError::InvalidData),
        }
    }

    fn apply(&mut self, value: Self) {
        *self = value;
    }
}

impl DiffPatch for Option<isize> {
    proof fn lemma_diff_patch(value: Self, baseline: Self, data: ParamData) {
    }
}

/// The bytes that carry a notification: the id in the machine's byte
/// order, then the bytes of the value, then zeros up to twenty bytes.
pub open spec fn notify_bytes(id: NotifyID, value_bytes: Seq<u8>) -> Seq<u8> {
    native_bytes(id.0 as nat, 8) + value_bytes + Seq::new(
        (12 - value_bytes.len()) as nat,
        |_i: int| 0u8,
    )
}

/// The id that the first eight bytes of a notification denote.
pub open spec fn notify_id_of_bytes(bytes: Seq<u8>) -> NotifyID {
    NotifyID(native_value(bytes.subrange(0, 8)) as u64)
}

/// Lays out a notification: the id, then the value's bytes, then zeros.
fn notify_custom_bytes(id: NotifyID, value_bytes: &[u8]) -> (r: [u8; 20])
    requires
        value_bytes@.len() <= 12,
    ensures
        r@ == notify_bytes(id, value_bytes@),
{
    let mut bytes: [u8; 20] = [0u8; 20];
    let id_bytes: [u8; 8] = u64_to_ne_bytes(id.0);
    let mut i: usize = 0;
    while i < 8
        invariant
            i <= 8,
            id_bytes@ == native_bytes(id.0 as nat, 8),
            bytes@ =~= id_bytes@.take(i as int) + Seq::new((20 - i) as nat, |_k: int| 0u8),
        decreases 8 - i,
    {
        bytes[i] = id_bytes[i];
        i = i + 1;
    }
    let n: usize = value_bytes.len();
    let mut j: usize = 0;
    while j < n
        invariant
            j <= n,
            n == value_bytes@.len(),
            n <= 12,
            id_bytes@ == native_bytes(id.0 as nat, 8),
            bytes@ =~= id_bytes@ + value_bytes@.take(j as int) + Seq::new(
                (12 - j) as nat,
                |_k: int| 0u8,
            ),
        decreases n - j,
    {
        bytes[8 + j] = value_bytes[j];
        j = j + 1;
    }
    proof {
        assert(value_bytes@.take(n as int) =~= value_bytes@);
    }
    bytes
}

/// Reads the id of a notification from its first eight bytes.
fn notify_id_from_bytes(bytes: &[u8; 20]) -> (r: NotifyID)
    ensures
        r == notify_id_of_bytes(bytes@),
{
    let id_bytes: [u8; 8] = [
        bytes[0],
        bytes[1],
        bytes[2],
        bytes[3],
        bytes[4],
        bytes[5],
        bytes[6],
        bytes[7],
    ];
    proof {
        assert(id_bytes@ =~= bytes@.subrange(0, 8));
    }
    NotifyID(u64_from_ne_bytes(id_bytes))
}

/// The bytes of a notification read back give its id and the value's bytes.
pub(crate) proof fn lemma_notify_bytes_parts(id: NotifyID, value_bytes: Seq<u8>)
    requires
        value_bytes.len() <= 12,
    ensures
        notify_bytes(id, value_bytes).len() == 20,
        notify_id_of_bytes(notify_bytes(id, value_bytes)) == id,
        notify_bytes(id, value_bytes).subrange(8, 8 + value_bytes.len() as int) == value_bytes,
        forall|k: int|
            8 + value_bytes.len() <= k < 20 ==> #[trigger] notify_bytes(id, value_bytes)[k] == 0u8,
{
    lemma_byte_ranges();
    lemma_native_bytes_roundtrip(id.0 as nat, 8);
    let s = notify_bytes(id, value_bytes);
    assert(s.subrange(0, 8) =~= native_bytes(id.0 as nat, 8));
    assert(s.subrange(8, 8 + value_bytes.len() as int) =~= value_bytes);
}

impl Diff for Notify<()> {
    open spec fn differs(&self, baseline: &Self) -> bool {
        self.id_of() != baseline.id_of()
    }

    open spec fn encodes(&self, data: ParamData) -> bool {
        data == ParamData::U64(self.id_of().0)
    }

    fn diff<E: EventQueue>(&self, baseline: &Self, path: PathBuilder, event_queue: &mut E) {
        if self.id() != baseline.id() {
            event_queue.push_param(ParamData::U64(self.id().0), path);
        }
    }
}

impl Patch for Notify<()> {
    type Patch = Self;

    open spec fn patch_spec(data: ParamData) -> Result<Self, PatchError> {
        match data {
            ParamData::U64(id) => Ok(Notify::spec_from_raw((), NotifyID(id))),
            _ => Err(PatchError::InvalidData),
        }
    }

    open spec fn apply_spec(self, patch: Self) -> Self {
        patch
    }

    fn patch(data: &ParamData, _path: &[u32]) -> Result<Self, PatchError> {
        match data {
            ParamData::U64(id) => Ok(Notify::from_raw((), NotifyID(*id))),
            _ => Err(PatchError::InvalidData),
        }
    }

    fn apply(&mut self, value: Self) {
        *self = value;
    }
}

impl DiffPatch for Notify<()> {
    proof fn lemma_diff_patch(value: Self, baseline: Self, data: ParamData) {
        if !value.differs(&baseline) {
            lemma_notify_eq(value, baseline);
        }
        if value.encodes(data) {
            lemma_notify_eq(Notify::spec_from_raw((), value.id_of()), value);
        }
    }
}

impl Notify<bool> {
    /// The parameter data that carries this value: the id in the machine's
    /// byte order, then one byte, 1 for `true` and 0 for `false`, then zeros.
    pub fn to_param_data(&self) -> (r: ParamData)
        ensures
            self.encodes(r),
    {
        let flag: u8 = if *self.get() { 1 } else { 0 };
        let value_bytes: [u8; 1] = [flag];
        proof {
            assert(value_bytes@ =~= seq![flag]);
        }
        ParamData::CustomBytes(notify_custom_bytes(self.id(), &value_bytes))
    }
}

impl Diff for Notify<bool> {
    open spec fn differs(&self, baseline: &Self) -> bool {
        self.id_of() != baseline.id_of() || self.value_of() != baseline.value_of()
    }

    open spec fn encodes(&self, data: ParamData) -> bool {
        data matches ParamData::CustomBytes(b) && b@ == notify_bytes(
            self.id_of(),
            seq![if self.value_of() { 1u8 } else { 0u8 }],
        )
    }

    fn diff<E: EventQueue>(&self, baseline: &Self, path: PathBuilder, event_queue: &mut E) {
        if self.id() != baseline.id() || *self.get() != *baseline.get() {
            event_queue.push_param(self.to_param_data(), path);
        }
    }
}

impl Patch for Notify<bool> {
    type Patch = Self;

    open spec fn patch_spec(data: ParamData) -> Result<Self, PatchError> {
        match data {
            ParamData::CustomBytes(b) => Ok(
                Notify::spec_from_raw(b@[8] != 0, notify_id_of_bytes(b@)),
            ),
            _ => Err(PatchError::InvalidData),
        }
    }

    open spec fn apply_spec(self, patch: Self) -> Self {
        patch
    }

    fn patch(data: &ParamData, _path: &[u32]) -> Result<Self, PatchError> {
        match data {
            ParamData::CustomBytes(bytes) => {
                let id = notify_id_from_bytes(bytes);
                let value = bytes[8] != 0;
                Ok(Notify::from_raw(value, id))
            },
            _ => Err(PatchError::InvalidData),
        }
    }

    fn apply(&mut self, value: Self) {
        *self = value;
    }
}

impl DiffPatch for Notify<bool> {
    proof fn lemma_diff_patch(value: Self, baseline: Self, data: ParamData) {
        if !value.differs(&baseline) {
            lemma_notify_eq(value, baseline);
        }
        if value.encodes(data) {
            let flag = seq![if value.value_of() { 1u8 } else { 0u8 }];
            lemma_notify_bytes_parts(value.id_of(), flag);
            let b = data->CustomBytes_0;
            assert(b@[8] == flag[0]);
        }
    }
}

impl Notify<i8> {
    /// The parameter data that carries this value: the id in the machine's
    /// byte order, then the byte of the value in the machine's byte
    /// order, then zeros.
    pub fn to_param_data(&self) -> (r: ParamData)
        ensures
            self.encodes(r),
    {
        let v: i8 = *self.get();
        let value_bytes: [u8; 1] = [v as u8];
        proof {
            assert(value_bytes@ =~= seq![v as u8]);
        }
        ParamData::CustomBytes(notify_custom_bytes(self.id(), &value_bytes))
    }
}

impl Diff for Notify<i8> {
    open spec fn differs(&self, baseline: &Self) -> bool {
        self.id_of() != baseline.id_of() || self.value_of() != baseline.value_of()
    }

    open spec fn encodes(&self, data: ParamData) -> bool {
        data matches ParamData::CustomBytes(b) && b@ == notify_bytes(
            self.id_of(),
            seq![(self.value_of() as u8) as u8],
        )
    }

    fn diff<E: EventQueue>(&self, baseline: &Self, path: PathBuilder, event_queue: &mut E) {
        if self.id() != baseline.id() || *self.get() != *baseline.get() {
            event_queue.push_param(self.to_param_data(), path);
        }
    }
}

impl Patch for Notify<i8> {
    type Patch = Self;

    open spec fn patch_spec(data: ParamData) -> Result<Self, PatchError> {
        match data {
            ParamData::CustomBytes(b) => Ok(
                Notify::spec_from_raw(b@[8] as i8, notify_id_of_bytes(b@)),
            ),
            _ => Err(PatchError::InvalidData),
        }
    }

    open spec fn apply_spec(self, patch: Self) -> Self {
        patch
    }

    fn patch(data: &ParamData, _path: &[u32]) -> Result<Self, PatchError> {
        match data {
            ParamData::CustomBytes(bytes) => {
                let id = notify_id_from_bytes(bytes);
                let value: i8 = bytes[8] as i8;
                Ok(Notify::from_raw(value, id))
            },
            _ => Err(PatchError::InvalidData),
        }
    }

    fn apply(&mut self, value: Self) {
        *self = value;
    }
}

impl DiffPatch for Notify<i8> {
    proof fn lemma_diff_patch(value: Self, baseline: Self, data: ParamData) {
        if !value.differs(&baseline) {
            lemma_notify_eq(value, baseline);
        }
        if value.encodes(data) {
            let vb = seq![(value.value_of() as u8) as u8];
            lemma_notify_bytes_parts(value.id_of(), vb);
            let b = data->CustomBytes_0;
            assert(b@[8] == vb[0]);
            let x: i8 = value.value_of();
            assert((x as u8) as i8 == x) by (bit_vector);
        }
    }
}

impl Notify<u8> {
    /// The parameter data that carries this value: the id in the machine's
    /// byte order, then the byte of the value in the machine's byte
    /// order, then zeros.
    pub fn to_param_data(&self) -> (r: ParamData)
        ensures
            self.encodes(r),
    {
        let v: u8 = *self.get();
        let value_bytes: [u8; 1] = [v];
        proof {
            assert(value_bytes@ =~= seq![v]);
        }
        ParamData::CustomBytes(notify_custom_bytes(self.id(), &value_bytes))
    }
}

impl Diff for Notify<u8> {
    open spec fn differs(&self, baseline: &Self) -> bool {
        self.id_of() != baseline.id_of() || self.value_of() != baseline.value_of()
    }

    open spec fn encodes(&self, data: ParamData) -> bool {
        data matches ParamData::CustomBytes(b) && b@ == notify_bytes(
            self.id_of(),
            seq![self.value_of()],
        )
    }

    fn diff<E: EventQueue>(&self, baseline: &Self, path: PathBuilder, event_queue: &mut E) {
        if self.id() != baseline.id() || *self.get() != *baseline.get() {
            event_queue.push_param(self.to_param_data(), path);
        }
    }
}

impl Patch for Notify<u8> {
    type Patch = Self;

    open spec fn patch_spec(data: ParamData) -> Result<Self, PatchError> {
        match data {
            ParamData::CustomBytes(b) => Ok(
                Notify::spec_from_raw(b@[8], notify_id_of_bytes(b@)),
            ),
            _ => Err(PatchError::InvalidData),
        }
    }

    open spec fn apply_spec(self, patch: Self) -> Self {
        patch
    }

    fn patch(data: &ParamData, _path: &[u32]) -> Result<Self, PatchError> {
        match data {
            ParamData::CustomBytes(bytes) => {
                let id = notify_id_from_bytes(bytes);
                let value: u8 = bytes[8];
                Ok(Notify::from_raw(value, id))
            },
            _ => Err(PatchError::InvalidData),
        }
    }

    fn apply(&mut self, value: Self) {
        *self = value;
    }
}

impl DiffPatch for Notify<u8> {
    proof fn lemma_diff_patch(value: Self, baseline: Self, data: ParamData) {
        if !value.differs(&baseline) {
            lemma_notify_eq(value, baseline);
        }
        if value.encodes(data) {
            let vb = seq![value.value_of()];
            lemma_notify_bytes_parts(value.id_of(), vb);
            let b = data->CustomBytes_0;
            assert(b@[8] == vb[0]);
        }
    }
}

impl Notify<i16> {
    /// The parameter data that carries this value: the id in the machine's
    /// byte order, then the 2 bytes of the value in the machine's byte
    /// order, then zeros.
    pub fn to_param_data(&self) -> (r: ParamData)
        ensures
            self.encodes(r),
    {
        let value_bytes: [u8; 2] = u16_to_ne_bytes(*self.get() as u16);
        ParamData::CustomBytes(notify_custom_bytes(self.id(), &value_bytes))
    }
}

impl Diff for Notify<i16> {
    open spec fn differs(&self, baseline: &Self) -> bool {
        self.id_of() != baseline.id_of() || self.value_of() != baseline.value_of()
    }

    open spec fn encodes(&self, data: ParamData) -> bool {
        data matches ParamData::CustomBytes(b) && b@ == notify_bytes(
            self.id_of(),
            native_bytes((self.value_of() as u16) as nat, 2),
        )
    }

    fn diff<E: EventQueue>(&self, baseline: &Self, path: PathBuilder, event_queue: &mut E) {
        if self.id() != baseline.id() || *self.get() != *baseline.get() {
            event_queue.push_param(self.to_param_data(), path);
        }
    }
}

impl Patch for Notify<i16> {
    type Patch = Self;

    open spec fn patch_spec(data: ParamData) -> Result<Self, PatchError> {
        match data {
            ParamData::CustomBytes(b) => Ok(
                Notify::spec_from_raw((native_value(b@.subrange(8, 10)) as u16) as i16, notify_id_of_bytes(b@)),
            ),
            _ => Err(PatchError::InvalidData),
        }
    }

    open spec fn apply_spec(self, patch: Self) -> Self {
        patch
    }

    fn patch(data: &ParamData, _path: &[u32]) -> Result<Self, PatchError> {
        match data {
            ParamData::CustomBytes(bytes) => {
                let id = notify_id_from_bytes(bytes);
                let value_bytes: [u8; 2] = [bytes[8], bytes[9]];
                proof {
                    assert(value_bytes@ =~= bytes@.subrange(8, 10));
                }
                let value: i16 = u16_from_ne_bytes(value_bytes) as i16;
                Ok(Notify::from_raw(value, id))
            },
            _ => Err(PatchError::InvalidData),
        }
    }

    fn apply(&mut self, value: Self) {
        *self = value;
    }
}

impl DiffPatch for Notify<i16> {
    proof fn lemma_diff_patch(value: Self, baseline: Self, data: ParamData) {
        if !value.differs(&baseline) {
            lemma_notify_eq(value, baseline);
        }
        if value.encodes(data) {
            let vb = native_bytes((value.value_of() as u16) as nat, 2);
            lemma_byte_ranges();
            lemma_native_bytes_roundtrip((value.value_of() as u16) as nat, 2);
            lemma_notify_bytes_parts(value.id_of(), vb);
            let x: i16 = value.value_of();
            assert((x as u16) as i16 == x) by (bit_vector);
        }
    }
}

impl Notify<u16> {
    /// The parameter data that carries this value: the id in the machine's
    /// byte order, then the 2 bytes of the value in the machine's byte
    /// order, then zeros.
    pub fn to_param_data(&self) -> (r: ParamData)
        ensures
            self.encodes(r),
    {
        let value_bytes: [u8; 2] = u16_to_ne_bytes(*self.get());
        ParamData::CustomBytes(notify_custom_bytes(self.id(), &value_bytes))
    }
}

impl Diff for Notify<u16> {
    open spec fn differs(&self, baseline: &Self) -> bool {
        self.id_of() != baseline.id_of() || self.value_of() != baseline.value_of()
    }

    open spec fn encodes(&self, data: ParamData) -> bool {
        data matches ParamData::CustomBytes(b) && b@ == notify_bytes(
            self.id_of(),
            native_bytes(self.value_of() as nat, 2),
        )
    }

    fn diff<E: EventQueue>(&self, baseline: &Self, path: PathBuilder, event_queue: &mut E) {
        if self.id() != baseline.id() || *self.get() != *baseline.get() {
            event_queue.push_param(self.to_param_data(), path);
        }
    }
}

impl Patch for Notify<u16> {
    type Patch = Self;

    open spec fn patch_spec(data: ParamData) -> Result<Self, PatchError> {
        match data {
            ParamData::CustomBytes(b) => Ok(
                Notify::spec_from_raw(native_value(b@.subrange(8, 10)) as u16, notify_id_of_bytes(b@)),
            ),
            _ => Err(PatchError::InvalidData),
        }
    }

    open spec fn apply_spec(self, patch: Self) -> Self {
        patch
    }

    fn patch(data: &ParamData, _path: &[u32]) -> Result<Self, PatchError> {
        match data {
            ParamData::CustomBytes(bytes) => {
                let id = notify_id_from_bytes(bytes);
                let value_bytes: [u8; 2] = [bytes[8], bytes[9]];
                proof {
                    assert(value_bytes@ =~= bytes@.subrange(8, 10));
                }
                let value: u16 = u16_from_ne_bytes(value_bytes);
                Ok(Notify::from_raw(value, id))
            },
            _ => Err(PatchError::InvalidData),
        }
    }

    fn apply(&mut self, value: Self) {
        *self = value;
    }
}

impl DiffPatch for Notify<u16> {
    proof fn lemma_diff_patch(value: Self, baseline: Self, data: ParamData) {
        if !value.differs(&baseline) {
            lemma_notify_eq(value, baseline);
        }
        if value.encodes(data) {
            let vb = native_bytes(value.value_of() as nat, 2);
            lemma_byte_ranges();
            lemma_native_bytes_roundtrip(value.value_of() as nat, 2);
            lemma_notify_bytes_parts(value.id_of(), vb);
        }
    }
}

impl Notify<i32> {
    /// The parameter data that carries this value: the id in the machine's
    /// byte order, then the 4 bytes of the value in the machine's byte
    /// order, then zeros.
    pub fn to_param_data(&self) -> (r: ParamData)
        ensures
            self.encodes(r),
    {
        let value_bytes: [u8; 4] = u32_to_ne_bytes(*self.get() as u32);
        ParamData::CustomBytes(notify_custom_bytes(self.id(), &value_bytes))
    }
}

impl Diff for Notify<i32> {
    open spec fn differs(&self, baseline: &Self) -> bool {
        self.id_of() != baseline.id_of() || self.value_of() != baseline.value_of()
    }

    open spec fn encodes(&self, data: ParamData) -> bool {
        data matches ParamData::CustomBytes(b) && b@ == notify_bytes(
            self.id_of(),
            native_bytes((self.value_of() as u32) as nat, 4),
        )
    }

    fn diff<E: EventQueue>(&self, baseline: &Self, path: PathBuilder, event_queue: &mut E) {
        if self.id() != baseline.id() || *self.get() != *baseline.get() {
            event_queue.push_param(self.to_param_data(), path);
        }
    }
}

impl Patch for Notify<i32> {
    type Patch = Self;

    open spec fn patch_spec(data: ParamData) -> Result<Self, PatchError> {
        match data {
            ParamData::CustomBytes(b) => Ok(
                Notify::spec_from_raw((native_value(b@.subrange(8, 12)) as u32) as i32, notify_id_of_bytes(b@)),
            ),
            _ => Err(PatchError::InvalidData),
        }
    }

    open spec fn apply_spec(self, patch: Self) -> Self {
        patch
    }

    fn patch(data: &ParamData, _path: &[u32]) -> Result<Self, PatchError> {
        match data {
            ParamData::CustomBytes(bytes) => {
                let id = notify_id_from_bytes(bytes);
                let value_bytes: [u8; 4] = [bytes[8], bytes[9], bytes[10], bytes[11]];
                proof {
                    assert(value_bytes@ =~= bytes@.subrange(8, 12));
                }
                let value: i32 = u32_from_ne_bytes(value_bytes) as i32;
                Ok(Notify::from_raw(value, id))
            },
            _ => Err(PatchError::InvalidData),
        }
    }

    fn apply(&mut self, value: Self) {
        *self = value;
    }
}

impl DiffPatch for Notify<i32> {
    proof fn lemma_diff_patch(value: Self, baseline: Self, data: ParamData) {
        if !value.differs(&baseline) {
            lemma_notify_eq(value, baseline);
        }
        if value.encodes(data) {
            let vb = native_bytes((value.value_of() as u32) as nat, 4);
            lemma_byte_ranges();
            lemma_native_bytes_roundtrip((value.value_of() as u32) as nat, 4);
            lemma_notify_bytes_parts(value.id_of(), vb);
            let x: i32 = value.value_of();
            assert((x as u32) as i32 == x) by (bit_vector);
        }
    }
}

impl Notify<u32> {
    /// The parameter data that carries this value: the id in the machine's
    /// byte order, then the 4 bytes of the value in the machine's byte
    /// order, then zeros.
    pub fn to_param_data(&self) -> (r: ParamData)
        ensures
            self.encodes(r),
    {
        let value_bytes: [u8; 4] = u32_to_ne_bytes(*self.get());
        ParamData::CustomBytes(notify_custom_bytes(self.id(), &value_bytes))
    }
}

impl Diff for Notify<u32> {
    open spec fn differs(&self, baseline: &Self) -> bool {
        self.id_of() != baseline.id_of() || self.value_of() != baseline.value_of()
    }

    open spec fn encodes(&self, data: ParamData) -> bool {
        data matches ParamData::CustomBytes(b) && b@ == notify_bytes(
            self.id_of(),
            native_bytes(self.value_of() as nat, 4),
        )
    }

    fn diff<E: EventQueue>(&self, baseline: &Self, path: PathBuilder, event_queue: &mut E) {
        if self.id() != baseline.id() || *self.get() != *baseline.get() {
            event_queue.push_param(self.to_param_data(), path);
        }
    }
}

impl Patch for Notify<u32> {
    type Patch = Self;

    open spec fn patch_spec(data: ParamData) -> Result<Self, PatchError> {
        match data {
            ParamData::CustomBytes(b) => Ok(
                Notify::spec_from_raw(native_value(b@.subrange(8, 12)) as u32, notify_id_of_bytes(b@)),
            ),
            _ => Err(PatchError::InvalidData),
        }
    }

    open spec fn apply_spec(self, patch: Self) -> Self {
        patch
    }

    fn patch(data: &ParamData, _path: &[u32]) -> Result<Self, PatchError> {
        match data {
            ParamData::CustomBytes(bytes) => {
                let id = notify_id_from_bytes(bytes);
                let value_bytes: [u8; 4] = [bytes[8], bytes[9], bytes[10], bytes[11]];
                proof {
                    assert(value_bytes@ =~= bytes@.subrange(8, 12));
                }
                let value: u32 = u32_from_ne_bytes(value_bytes);
                Ok(Notify::from_raw(value, id))
            },
            _ => Err(PatchError::InvalidData),
        }
    }

    fn apply(&mut self, value: Self) {
        *self = value;
    }
}

impl DiffPatch for Notify<u32> {
    proof fn lemma_diff_patch(value: Self, baseline: Self, data: ParamData) {
        if !value.differs(&baseline) {
            lemma_notify_eq(value, baseline);
        }
        if value.encodes(data) {
            let vb = native_bytes(value.value_of() as nat, 4);
            lemma_byte_ranges();
            lemma_native_bytes_roundtrip(value.value_of() as nat, 4);
            lemma_notify_bytes_parts(value.id_of(), vb);
        }
    }
}

impl Notify<i64> {
    /// The parameter data that carries this value: the id in the machine's
    /// byte order, then the 8 bytes of the value in the machine's byte
    /// order, then zeros.
    pub fn to_param_data(&self) -> (r: ParamData)
        ensures
            self.encodes(r),
    {
        let value_bytes: [u8; 8] = u64_to_ne_bytes(*self.get() as u64);
        ParamData::CustomBytes(notify_custom_bytes(self.id(), &value_bytes))
    }
}

impl Diff for Notify<i64> {
    open spec fn differs(&self, baseline: &Self) -> bool {
        self.id_of() != baseline.id_of() || self.value_of() != baseline.value_of()
    }

    open spec fn encodes(&self, data: ParamData) -> bool {
        data matches ParamData::CustomBytes(b) && b@ == notify_bytes(
            self.id_of(),
            native_bytes((self.value_of() as u64) as nat, 8),
        )
    }

    fn diff<E: EventQueue>(&self, baseline: &Self, path: PathBuilder, event_queue: &mut E) {
        if self.id() != baseline.id() || *self.get() != *baseline.get() {
            event_queue.push_param(self.to_param_data(), path);
        }
    }
}

impl Patch for Notify<i64> {
    type Patch = Self;

    open spec fn patch_spec(data: ParamData) -> Result<Self, PatchError> {
        match data {
            ParamData::CustomBytes(b) => Ok(
                Notify::spec_from_raw((native_value(b@.subrange(8, 16)) as u64) as i64, notify_id_of_bytes(b@)),
            ),
            _ => Err(PatchError::InvalidData),
        }
    }

    open spec fn apply_spec(self, patch: Self) -> Self {
        patch
    }

    fn patch(data: &ParamData, _path: &[u32]) -> Result<Self, PatchError> {
        match data {
            ParamData::CustomBytes(bytes) => {
                let id = notify_id_from_bytes(bytes);
                let value_bytes: [u8; 8] = [bytes[8], bytes[9], bytes[10], bytes[11], bytes[12], bytes[13], bytes[14], bytes[15]];
                proof {
                    assert(value_bytes@ =~= bytes@.subrange(8, 16));
                }
                let value: i64 = u64_from_ne_bytes(value_bytes) as i64;
                Ok(Notify::from_raw(value, id))
            },
            _ => Err(PatchError::InvalidData),
        }
    }

    fn apply(&mut self, value: Self) {
        *self = value;
    }
}

impl DiffPatch for Notify<i64> {
    proof fn lemma_diff_patch(value: Self, baseline: Self, data: ParamData) {
        if !value.differs(&baseline) {
            lemma_notify_eq(value, baseline);
        }
        if value.encodes(data) {
            let vb = native_bytes((value.value_of() as u64) as nat, 8);
            lemma_byte_ranges();
            lemma_native_bytes_roundtrip((value.value_of() as u64) as nat, 8);
            lemma_notify_bytes_parts(value.id_of(), vb);
            let x: i64 = value.value_of();
            assert((x as u64) as i64 == x) by (bit_vector);
        }
    }
}

impl Notify<u64> {
    /// The parameter data that carries this value: the id in the machine's
    /// byte order, then the 8 bytes of the value in the machine's byte
    /// order, then zeros.
    pub fn to_param_data(&self) -> (r: ParamData)
        ensures
            self.encodes(r),
    {
        let value_bytes: [u8; 8] = u64_to_ne_bytes(*self.get());
        ParamData::CustomBytes(notify_custom_bytes(self.id(), &value_bytes))
    }
}

impl Diff for Notify<u64> {
    open spec fn differs(&self, baseline: &Self) -> bool {
        self.id_of() != baseline.id_of() || self.value_of() != baseline.value_of()
    }

    open spec fn encodes(&self, data: ParamData) -> bool {
        data matches ParamData::CustomBytes(b) && b@ == notify_bytes(
            self.id_of(),
            native_bytes(self.value_of() as nat, 8),
        )
    }

    fn diff<E: EventQueue>(&self, baseline: &Self, path: PathBuilder, event_queue: &mut E) {
        if self.id() != baseline.id() || *self.get() != *baseline.get() {
            event_queue.push_param(self.to_param_data(), path);
        }
    }
}

impl Patch for Notify<u64> {
    type Patch = Self;

    open spec fn patch_spec(data: ParamData) -> Result<Self, PatchError> {
        match data {
            ParamData::CustomBytes(b) => Ok(
                Notify::spec_from_raw(native_value(b@.subrange(8, 16)) as u64, notify_id_of_bytes(b@)),
            ),
            _ => Err(PatchError::InvalidData),
        }
    }

    open spec fn apply_spec(self, patch: Self) -> Self {
        patch
    }

    fn patch(data: &ParamData, _path: &[u32]) -> Result<Self, PatchError> {
        match data {
            ParamData::CustomBytes(bytes) => {
                let id = notify_id_from_bytes(bytes);
                let value_bytes: [u8; 8] = [bytes[8], bytes[9], bytes[10], bytes[11], bytes[12], bytes[13], bytes[14], bytes[15]];
                proof {
                    assert(value_bytes@ =~= bytes@.subrange(8, 16));
                }
                let value: u64 = u64_from_ne_bytes(value_bytes);
                Ok(Notify::from_raw(value, id))
            },
            _ => Err(PatchError::InvalidData),
        }
    }

    fn apply(&mut self, value: Self) {
        *self = value;
    }
}

impl DiffPatch for Notify<u64> {
    proof fn lemma_diff_patch(value: Self, baseline: Self, data: ParamData) {
        if !value.differs(&baseline) {
            lemma_notify_eq(value, baseline);
        }
        if value.encodes(data) {
            let vb = native_bytes(value.value_of() as nat, 8);
            lemma_byte_ranges();
            lemma_native_bytes_roundtrip(value.value_of() as nat, 8);
            lemma_notify_bytes_parts(value.id_of(), vb);
        }
    }
}

} // verus!
