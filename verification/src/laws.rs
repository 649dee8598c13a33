//! Laws that fix what the diff/patch implementations and the conversions of
//! parameter data do, stated over plain numbers, bytes and the conversions
//! between them.
use vstd::prelude::*;

use crate::bytes::native_value;
use crate::diff::{Diff, EventQueue, Notify, NotifyID, Patch, PatchError};
use crate::event::{NodeEventType, ParamData};
use vstd::std_specs::convert::{FromSpec, TryFromSpec};

verus! {

broadcast use crate::diff::notify::group_notify;

/// Converting a `i32` into parameter data puts the value itself into the
/// `I32` variant, and `None` of an `Option<i32>` gives `NoData`; a `Notify`
/// value converts as its wrapped value does.
pub proof fn lemma_from_i32(v: i32, n: Notify<i32>, d: ParamData)
    ensures
        (<ParamData as FromSpec<i32>>::from_spec(v) matches ParamData::I32(x) && x as int == v as int),
        <ParamData as FromSpec<Option<i32>>>::from_spec(Some(v)) == <ParamData as FromSpec<i32>>::from_spec(v),
        <ParamData as FromSpec<Option<i32>>>::from_spec(None) matches ParamData::NoData,
        <ParamData as FromSpec<Notify<i32>>>::from_spec(n) == <ParamData as FromSpec<i32>>::from_spec(n.value_of()),
        <i32 as TryFromSpec<&ParamData>>::try_from_spec(&d) matches Ok(x) ==> d == <ParamData as FromSpec<i32>>::from_spec(x),
        <i32 as TryFromSpec<&ParamData>>::try_from_spec(&d) is Ok <==> d is I32,
        !(d is I32) ==> <i32 as TryFromSpec<&ParamData>>::try_from_spec(&d) == Err::<i32, PatchError>(PatchError::InvalidData),
        <Option<i32> as TryFromSpec<&ParamData>>::try_from_spec(&d) matches Ok(o) ==> d == <ParamData as FromSpec<Option<i32>>>::from_spec(o),
        <Option<i32> as TryFromSpec<&ParamData>>::try_from_spec(&d) is Ok <==> (d is I32 || d is NoData),
        !(d is I32 || d is NoData) ==> <Option<i32> as TryFromSpec<&ParamData>>::try_from_spec(&d) == Err::<Option<i32>, PatchError>(PatchError::InvalidData),
{
}

/// Converting a `u32` into parameter data puts the value itself into the
/// `U32` variant, and `None` of an `Option<u32>` gives `NoData`; a `Notify`
/// value converts as its wrapped value does.
pub proof fn lemma_from_u32(v: u32, n: Notify<u32>, d: ParamData)
    ensures
        (<ParamData as FromSpec<u32>>::from_spec(v) matches ParamData::U32(x) && x as int == v as int),
        <ParamData as FromSpec<Option<u32>>>::from_spec(Some(v)) == <ParamData as FromSpec<u32>>::from_spec(v),
        <ParamData as FromSpec<Option<u32>>>::from_spec(None) matches ParamData::NoData,
        <ParamData as FromSpec<Notify<u32>>>::from_spec(n) == <ParamData as FromSpec<u32>>::from_spec(n.value_of()),
        <u32 as TryFromSpec<&ParamData>>::try_from_spec(&d) matches Ok(x) ==> d == <ParamData as FromSpec<u32>>::from_spec(x),
        <u32 as TryFromSpec<&ParamData>>::try_from_spec(&d) is Ok <==> d is U32,
        !(d is U32) ==> <u32 as TryFromSpec<&ParamData>>::try_from_spec(&d) == Err::<u32, PatchError>(PatchError::InvalidData),
        <Option<u32> as TryFromSpec<&ParamData>>::try_from_spec(&d) matches Ok(o) ==> d == <ParamData as FromSpec<Option<u32>>>::from_spec(o),
        <Option<u32> as TryFromSpec<&ParamData>>::try_from_spec(&d) is Ok <==> (d is U32 || d is NoData),
        !(d is U32 || d is NoData) ==> <Option<u32> as TryFromSpec<&ParamData>>::try_from_spec(&d) == Err::<Option<u32>, PatchError>(PatchError::InvalidData),
{
}

/// Converting a `i64` into parameter data puts the value itself into the
/// `I64` variant, and `None` of an `Option<i64>` gives `NoData`; a `Notify`
/// value converts as its wrapped value does.
pub proof fn lemma_from_i64(v: i64, n: Notify<i64>, d: ParamData)
    ensures
        (<ParamData as FromSpec<i64>>::from_spec(v) matches ParamData::I64(x) && x as int == v as int),
        <ParamData as FromSpec<Option<i64>>>::from_spec(Some(v)) == <ParamData as FromSpec<i64>>::from_spec(v),
        <ParamData as FromSpec<Option<i64>>>::from_spec(None) matches ParamData::NoData,
        <ParamData as FromSpec<Notify<i64>>>::from_spec(n) == <ParamData as FromSpec<i64>>::from_spec(n.value_of()),
        <i64 as TryFromSpec<&ParamData>>::try_from_spec(&d) matches Ok(x) ==> d == <ParamData as FromSpec<i64>>::from_spec(x),
        <i64 as TryFromSpec<&ParamData>>::try_from_spec(&d) is Ok <==> d is I64,
        !(d is I64) ==> <i64 as TryFromSpec<&ParamData>>::try_from_spec(&d) == Err::<i64, PatchError>(PatchError::InvalidData),
        <Option<i64> as TryFromSpec<&ParamData>>::try_from_spec(&d) matches Ok(o) ==> d == <ParamData as FromSpec<Option<i64>>>::from_spec(o),
        <Option<i64> as TryFromSpec<&ParamData>>::try_from_spec(&d) is Ok <==> (d is I64 || d is NoData),
        !(d is I64 || d is NoData) ==> <Option<i64> as TryFromSpec<&ParamData>>::try_from_spec(&d) == Err::<Option<i64>, PatchError>(PatchError::InvalidData),
{
}

/// Converting a `u64` into parameter data puts the value itself into the
/// `U64` variant, and `None` of an `Option<u64>` gives `NoData`; a `Notify`
/// value converts as its wrapped value does.
pub proof fn lemma_from_u64(v: u64, n: Notify<u64>, d: ParamData)
    ensures
        (<ParamData as FromSpec<u64>>::from_spec(v) matches ParamData::U64(x) && x as int == v as int),
        <ParamData as FromSpec<Option<u64>>>::from_spec(Some(v)) == <ParamData as FromSpec<u64>>::from_spec(v),
        <ParamData as FromSpec<Option<u64>>>::from_spec(None) matches ParamData::NoData,
        <ParamData as FromSpec<Notify<u64>>>::from_spec(n) == <ParamData as FromSpec<u64>>::from_spec(n.value_of()),
        <u64 as TryFromSpec<&ParamData>>::try_from_spec(&d) matches Ok(x) ==> d == <ParamData as FromSpec<u64>>::from_spec(x),
        <u64 as TryFromSpec<&ParamData>>::try_from_spec(&d) is Ok <==> d is U64,
        !(d is U64) ==> <u64 as TryFromSpec<&ParamData>>::try_from_spec(&d) == Err::<u64, PatchError>(PatchError::InvalidData),
        <Option<u64> as TryFromSpec<&ParamData>>::try_from_spec(&d) matches Ok(o) ==> d == <ParamData as FromSpec<Option<u64>>>::from_spec(o),
        <Option<u64> as TryFromSpec<&ParamData>>::try_from_spec(&d) is Ok <==> (d is U64 || d is NoData),
        !(d is U64 || d is NoData) ==> <Option<u64> as TryFromSpec<&ParamData>>::try_from_spec(&d) == Err::<Option<u64>, PatchError>(PatchError::InvalidData),
{
}

/// Converting a `bool` into parameter data puts the value itself into the
/// `Bool` variant, and `None` of an `Option<bool>` gives `NoData`; a `Notify`
/// value converts as its wrapped value does.
pub proof fn lemma_from_bool(v: bool, n: Notify<bool>, d: ParamData)
    ensures
        (<ParamData as FromSpec<bool>>::from_spec(v) matches ParamData::Bool(x) && x == v),
        <ParamData as FromSpec<Option<bool>>>::from_spec(Some(v)) == <ParamData as FromSpec<bool>>::from_spec(v),
        <ParamData as FromSpec<Option<bool>>>::from_spec(None) matches ParamData::NoData,
        <ParamData as FromSpec<Notify<bool>>>::from_spec(n) == <ParamData as FromSpec<bool>>::from_spec(n.value_of()),
        <bool as TryFromSpec<&ParamData>>::try_from_spec(&d) matches Ok(x) ==> d == <ParamData as FromSpec<bool>>::from_spec(x),
        <bool as TryFromSpec<&ParamData>>::try_from_spec(&d) is Ok <==> d is Bool,
        !(d is Bool) ==> <bool as TryFromSpec<&ParamData>>::try_from_spec(&d) == Err::<bool, PatchError>(PatchError::InvalidData),
        <Option<bool> as TryFromSpec<&ParamData>>::try_from_spec(&d) matches Ok(o) ==> d == <ParamData as FromSpec<Option<bool>>>::from_spec(o),
        <Option<bool> as TryFromSpec<&ParamData>>::try_from_spec(&d) is Ok <==> (d is Bool || d is NoData),
        !(d is Bool || d is NoData) ==> <Option<bool> as TryFromSpec<&ParamData>>::try_from_spec(&d) == Err::<Option<bool>, PatchError>(PatchError::InvalidData),
{
}

/// The unit value and a `Notify<()>` convert into `NoData`; only `NoData`
/// converts back into the unit value, and patches it. The unit value never
/// differs from its baseline, so a diff of it queues nothing.
pub proof fn lemma_from_unit(n: Notify<()>, d: ParamData)
    ensures
        <ParamData as FromSpec<()>>::from_spec(()) matches ParamData::NoData,
        <ParamData as FromSpec<Notify<()>>>::from_spec(n) matches ParamData::NoData,
        <() as TryFromSpec<&ParamData>>::try_from_spec(&d) is Ok <==> d is NoData,
        !(d is NoData) ==> <() as TryFromSpec<&ParamData>>::try_from_spec(&d) == Err::<(), PatchError>(PatchError::InvalidData),
        <() as Patch>::patch_spec(d) is Ok <==> d is NoData,
        !(d is NoData) ==> <() as Patch>::patch_spec(d) == Err::<(), PatchError>(PatchError::InvalidData),
        !().differs(&()),
        ().encodes(d) <==> d is NoData,
{
}

/// A vector used as an event queue holds exactly the queued events, oldest
/// first.
pub proof fn lemma_vec_event_queue(v: Vec<NodeEventType>)
    ensures
        v.queued() == v@,
{
}

/// `bool` parameters: a diff queues an event exactly when the value
/// differs from its baseline, carrying the value in parameter data; a patch reads the data as a
/// `bool`; applying a patch gives the patch.
/// The same holds of `Option<bool>`, with `NoData` for `None`.
pub proof fn lemma_bool_diff_patch(a: bool, b: bool, oa: Option<bool>, ob: Option<bool>, d: ParamData)
    ensures
        a.differs(&b) <==> a != b,
        a.encodes(d) <==> d == <ParamData as FromSpec<bool>>::from_spec(a),
        a.encodes(d) ==> (<bool as TryFromSpec<&ParamData>>::try_from_spec(&d) matches Ok(w) && w == a),
        <bool as Patch>::patch_spec(d) == match <bool as TryFromSpec<&ParamData>>::try_from_spec(&d) {
            Ok(w) => Ok::<bool, PatchError>(w),
            Err(e) => Err(e),
        },
        b.apply_spec(a) == a,
        oa.differs(&ob) <==> oa != ob,
        oa.encodes(d) <==> d == <ParamData as FromSpec<Option<bool>>>::from_spec(
            match oa {
                Some(x) => Some(x),
                None => None,
            },
        ),
        oa.encodes(d) ==> match oa {
            Some(x) => (<Option<bool> as TryFromSpec<&ParamData>>::try_from_spec(&d) matches Ok(Some(w)) && w == x),
            None => d matches ParamData::NoData,
        },
        <Option<bool> as Patch>::patch_spec(d) == match <Option<bool> as TryFromSpec<&ParamData>>::try_from_spec(&d) {
            Ok(Some(w)) => Ok::<Option<bool>, PatchError>(Some(w)),
            Ok(None) => Ok(None),
            Err(e) => Err(e),
        },
        ob.apply_spec(oa) == oa,
{
}

/// `u8` parameters: a diff queues an event exactly when the value
/// differs from its baseline, carrying the value widened to `u32` (the same number) in parameter
/// data; a patch reads the data as a `u32` and narrows it to `u8`; applying a patch gives the patch.
/// The same holds of `Option<u8>`, with `NoData` for `None`.
pub proof fn lemma_u8_diff_patch(a: u8, b: u8, oa: Option<u8>, ob: Option<u8>, d: ParamData)
    ensures
        a.differs(&b) <==> a != b,
        a.encodes(d) <==> d == <ParamData as FromSpec<u32>>::from_spec(a as u32),
        a.encodes(d) ==> (<u32 as TryFromSpec<&ParamData>>::try_from_spec(&d) matches Ok(w) && w as int == a as int),
        <u8 as Patch>::patch_spec(d) == match <u32 as TryFromSpec<&ParamData>>::try_from_spec(&d) {
            Ok(w) => Ok::<u8, PatchError>(w as u8),
            Err(e) => Err(e),
        },
        b.apply_spec(a) == a,
        oa.differs(&ob) <==> oa != ob,
        oa.encodes(d) <==> d == <ParamData as FromSpec<Option<u32>>>::from_spec(
            match oa {
                Some(x) => Some(x as u32),
                None => None,
            },
        ),
        oa.encodes(d) ==> match oa {
            Some(x) => (<Option<u32> as TryFromSpec<&ParamData>>::try_from_spec(&d) matches Ok(Some(w)) && w as int == x as int),
            None => d matches ParamData::NoData,
        },
        <Option<u8> as Patch>::patch_spec(d) == match <Option<u32> as TryFromSpec<&ParamData>>::try_from_spec(&d) {
            Ok(Some(w)) => Ok::<Option<u8>, PatchError>(Some(w as u8)),
            Ok(None) => Ok(None),
            Err(e) => Err(e),
        },
        ob.apply_spec(oa) == oa,
{
}

/// `u16` parameters: a diff queues an event exactly when the value
/// differs from its baseline, carrying the value widened to `u32` (the same number) in parameter
/// data; a patch reads the data as a `u32` and narrows it to `u16`; applying a patch gives the patch.
/// The same holds of `Option<u16>`, with `NoData` for `None`.
pub proof fn lemma_u16_diff_patch(a: u16, b: u16, oa: Option<u16>, ob: Option<u16>, d: ParamData)
    ensures
        a.differs(&b) <==> a != b,
        a.encodes(d) <==> d == <ParamData as FromSpec<u32>>::from_spec(a as u32),
        a.encodes(d) ==> (<u32 as TryFromSpec<&ParamData>>::try_from_spec(&d) matches Ok(w) && w as int == a as int),
        <u16 as Patch>::patch_spec(d) == match <u32 as TryFromSpec<&ParamData>>::try_from_spec(&d) {
            Ok(w) => Ok::<u16, PatchError>(w as u16),
            Err(e) => Err(e),
        },
        b.apply_spec(a) == a,
        oa.differs(&ob) <==> oa != ob,
        oa.encodes(d) <==> d == <ParamData as FromSpec<Option<u32>>>::from_spec(
            match oa {
                Some(x) => Some(x as u32),
                None => None,
            },
        ),
        oa.encodes(d) ==> match oa {
            Some(x) => (<Option<u32> as TryFromSpec<&ParamData>>::try_from_spec(&d) matches Ok(Some(w)) && w as int == x as int),
            None => d matches ParamData::NoData,
        },
        <Option<u16> as Patch>::patch_spec(d) == match <Option<u32> as TryFromSpec<&ParamData>>::try_from_spec(&d) {
            Ok(Some(w)) => Ok::<Option<u16>, PatchError>(Some(w as u16)),
            Ok(None) => Ok(None),
            Err(e) => Err(e),
        },
        ob.apply_spec(oa) == oa,
{
}

/// `u32` parameters: a diff queues an event exactly when the value
/// differs from its baseline, carrying the value in parameter data; a patch reads the data as a
/// `u32`; applying a patch gives the patch.
/// The same holds of `Option<u32>`, with `NoData` for `None`.
pub proof fn lemma_u32_diff_patch(a: u32, b: u32, oa: Option<u32>, ob: Option<u32>, d: ParamData)
    ensures
        a.differs(&b) <==> a != b,
        a.encodes(d) <==> d == <ParamData as FromSpec<u32>>::from_spec(a as u32),
        a.encodes(d) ==> (<u32 as TryFromSpec<&ParamData>>::try_from_spec(&d) matches Ok(w) && w as int == a as int),
        <u32 as Patch>::patch_spec(d) == match <u32 as TryFromSpec<&ParamData>>::try_from_spec(&d) {
            Ok(w) => Ok::<u32, PatchError>(w as u32),
            Err(e) => Err(e),
        },
        b.apply_spec(a) == a,
        oa.differs(&ob) <==> oa != ob,
        oa.encodes(d) <==> d == <ParamData as FromSpec<Option<u32>>>::from_spec(
            match oa {
                Some(x) => Some(x as u32),
                None => None,
            },
        ),
        oa.encodes(d) ==> match oa {
            Some(x) => (<Option<u32> as TryFromSpec<&ParamData>>::try_from_spec(&d) matches Ok(Some(w)) && w as int == x as int),
            None => d matches ParamData::NoData,
        },
        <Option<u32> as Patch>::patch_spec(d) == match <Option<u32> as TryFromSpec<&ParamData>>::try_from_spec(&d) {
            Ok(Some(w)) => Ok::<Option<u32>, PatchError>(Some(w as u32)),
            Ok(None) => Ok(None),
            Err(e) => Err(e),
        },
        ob.apply_spec(oa) == oa,
{
}

/// `u64` parameters: a diff queues an event exactly when the value
/// differs from its baseline, carrying the value in parameter data; a patch reads the data as a
/// `u64`; applying a patch gives the patch.
/// The same holds of `Option<u64>`, with `NoData` for `None`.
pub proof fn lemma_u64_diff_patch(a: u64, b: u64, oa: Option<u64>, ob: Option<u64>, d: ParamData)
    ensures
        a.differs(&b) <==> a != b,
        a.encodes(d) <==> d == <ParamData as FromSpec<u64>>::from_spec(a as u64),
        a.encodes(d) ==> (<u64 as TryFromSpec<&ParamData>>::try_from_spec(&d) matches Ok(w) && w as int == a as int),
        <u64 as Patch>::patch_spec(d) == match <u64 as TryFromSpec<&ParamData>>::try_from_spec(&d) {
            Ok(w) => Ok::<u64, PatchError>(w as u64),
            Err(e) => Err(e),
        },
        b.apply_spec(a) == a,
        oa.differs(&ob) <==> oa != ob,
        oa.encodes(d) <==> d == <ParamData as FromSpec<Option<u64>>>::from_spec(
            match oa {
                Some(x) => Some(x as u64),
                None => None,
            },
        ),
        oa.encodes(d) ==> match oa {
            Some(x) => (<Option<u64> as TryFromSpec<&ParamData>>::try_from_spec(&d) matches Ok(Some(w)) && w as int == x as int),
            None => d matches ParamData::NoData,
        },
        <Option<u64> as Patch>::patch_spec(d) == match <Option<u64> as TryFromSpec<&ParamData>>::try_from_spec(&d) {
            Ok(Some(w)) => Ok::<Option<u64>, PatchError>(Some(w as u64)),
            Ok(None) => Ok(None),
            Err(e) => Err(e),
        },
        ob.apply_spec(oa) == oa,
{
}

/// `i8` parameters: a diff queues an event exactly when the value
/// differs from its baseline, carrying the value widened to `i32` (the same number) in parameter
/// data; a patch reads the data as a `i32` and narrows it to `i8`; applying a patch gives the patch.
/// The same holds of `Option<i8>`, with `NoData` for `None`.
pub proof fn lemma_i8_diff_patch(a: i8, b: i8, oa: Option<i8>, ob: Option<i8>, d: ParamData)
    ensures
        a.differs(&b) <==> a != b,
        a.encodes(d) <==> d == <ParamData as FromSpec<i32>>::from_spec(a as i32),
        a.encodes(d) ==> (<i32 as TryFromSpec<&ParamData>>::try_from_spec(&d) matches Ok(w) && w as int == a as int),
        <i8 as Patch>::patch_spec(d) == match <i32 as TryFromSpec<&ParamData>>::try_from_spec(&d) {
            Ok(w) => Ok::<i8, PatchError>(w as i8),
            Err(e) => Err(e),
        },
        b.apply_spec(a) == a,
        oa.differs(&ob) <==> oa != ob,
        oa.encodes(d) <==> d == <ParamData as FromSpec<Option<i32>>>::from_spec(
            match oa {
                Some(x) => Some(x as i32),
                None => None,
            },
        ),
        oa.encodes(d) ==> match oa {
            Some(x) => (<Option<i32> as TryFromSpec<&ParamData>>::try_from_spec(&d) matches Ok(Some(w)) && w as int == x as int),
            None => d matches ParamData::NoData,
        },
        <Option<i8> as Patch>::patch_spec(d) == match <Option<i32> as TryFromSpec<&ParamData>>::try_from_spec(&d) {
            Ok(Some(w)) => Ok::<Option<i8>, PatchError>(Some(w as i8)),
            Ok(None) => Ok(None),
            Err(e) => Err(e),
        },
        ob.apply_spec(oa) == oa,
{
}

/// `i16` parameters: a diff queues an event exactly when the value
/// differs from its baseline, carrying the value widened to `i32` (the same number) in parameter
/// data; a patch reads the data as a `i32` and narrows it to `i16`; applying a patch gives the patch.
/// The same holds of `Option<i16>`, with `NoData` for `None`.
pub proof fn lemma_i16_diff_patch(a: i16, b: i16, oa: Option<i16>, ob: Option<i16>, d: ParamData)
    ensures
        a.differs(&b) <==> a != b,
        a.encodes(d) <==> d == <ParamData as FromSpec<i32>>::from_spec(a as i32),
        a.encodes(d) ==> (<i32 as TryFromSpec<&ParamData>>::try_from_spec(&d) matches Ok(w) && w as int == a as int),
        <i16 as Patch>::patch_spec(d) == match <i32 as TryFromSpec<&ParamData>>::try_from_spec(&d) {
            Ok(w) => Ok::<i16, PatchError>(w as i16),
            Err(e) => Err(e),
        },
        b.apply_spec(a) == a,
        oa.differs(&ob) <==> oa != ob,
        oa.encodes(d) <==> d == <ParamData as FromSpec<Option<i32>>>::from_spec(
            match oa {
                Some(x) => Some(x as i32),
                None => None,
            },
        ),
        oa.encodes(d) ==> match oa {
            Some(x) => (<Option<i32> as TryFromSpec<&ParamData>>::try_from_spec(&d) matches Ok(Some(w)) && w as int == x as int),
            None => d matches ParamData::NoData,
        },
        <Option<i16> as Patch>::patch_spec(d) == match <Option<i32> as TryFromSpec<&ParamData>>::try_from_spec(&d) {
            Ok(Some(w)) => Ok::<Option<i16>, PatchError>(Some(w as i16)),
            Ok(None) => Ok(None),
            Err(e) => Err(e),
        },
        ob.apply_spec(oa) == oa,
{
}

/// `i32` parameters: a diff queues an event exactly when the value
/// differs from its baseline, carrying the value in parameter data; a patch reads the data as a
/// `i32`; applying a patch gives the patch.
/// The same holds of `Option<i32>`, with `NoData` for `None`.
pub proof fn lemma_i32_diff_patch(a: i32, b: i32, oa: Option<i32>, ob: Option<i32>, d: ParamData)
    ensures
        a.differs(&b) <==> a != b,
        a.encodes(d) <==> d == <ParamData as FromSpec<i32>>::from_spec(a as i32),
        a.encodes(d) ==> (<i32 as TryFromSpec<&ParamData>>::try_from_spec(&d) matches Ok(w) && w as int == a as int),
        <i32 as Patch>::patch_spec(d) == match <i32 as TryFromSpec<&ParamData>>::try_from_spec(&d) {
            Ok(w) => Ok::<i32, PatchError>(w as i32),
            Err(e) => Err(e),
        },
        b.apply_spec(a) == a,
        oa.differs(&ob) <==> oa != ob,
        oa.encodes(d) <==> d == <ParamData as FromSpec<Option<i32>>>::from_spec(
            match oa {
                Some(x) => Some(x as i32),
                None => None,
            },
        ),
        oa.encodes(d) ==> match oa {
            Some(x) => (<Option<i32> as TryFromSpec<&ParamData>>::try_from_spec(&d) matches Ok(Some(w)) && w as int == x as int),
            None => d matches ParamData::NoData,
        },
        <Option<i32> as Patch>::patch_spec(d) == match <Option<i32> as TryFromSpec<&ParamData>>::try_from_spec(&d) {
            Ok(Some(w)) => Ok::<Option<i32>, PatchError>(Some(w as i32)),
            Ok(None) => Ok(None),
            Err(e) => Err(e),
        },
        ob.apply_spec(oa) == oa,
{
}

/// `i64` parameters: a diff queues an event exactly when the value
/// differs from its baseline, carrying the value in parameter data; a patch reads the data as a
/// `i64`; applying a patch gives the patch.
/// The same holds of `Option<i64>`, with `NoData` for `None`.
pub proof fn lemma_i64_diff_patch(a: i64, b: i64, oa: Option<i64>, ob: Option<i64>, d: ParamData)
    ensures
        a.differs(&b) <==> a != b,
        a.encodes(d) <==> d == <ParamData as FromSpec<i64>>::from_spec(a as i64),
        a.encodes(d) ==> (<i64 as TryFromSpec<&ParamData>>::try_from_spec(&d) matches Ok(w) && w as int == a as int),
        <i64 as Patch>::patch_spec(d) == match <i64 as TryFromSpec<&ParamData>>::try_from_spec(&d) {
            Ok(w) => Ok::<i64, PatchError>(w as i64),
            Err(e) => Err(e),
        },
        b.apply_spec(a) == a,
        oa.differs(&ob) <==> oa != ob,
        oa.encodes(d) <==> d == <ParamData as FromSpec<Option<i64>>>::from_spec(
            match oa {
                Some(x) => Some(x as i64),
                None => None,
            },
        ),
        oa.encodes(d) ==> match oa {
            Some(x) => (<Option<i64> as TryFromSpec<&ParamData>>::try_from_spec(&d) matches Ok(Some(w)) && w as int == x as int),
            None => d matches ParamData::NoData,
        },
        <Option<i64> as Patch>::patch_spec(d) == match <Option<i64> as TryFromSpec<&ParamData>>::try_from_spec(&d) {
            Ok(Some(w)) => Ok::<Option<i64>, PatchError>(Some(w as i64)),
            Ok(None) => Ok(None),
            Err(e) => Err(e),
        },
        ob.apply_spec(oa) == oa,
{
}

/// `usize` parameters: a diff queues an event exactly when the value
/// differs from its baseline, carrying the value widened to `u64` (the same number) in parameter
/// data; a patch reads the data as a `u64` and narrows it to `usize`; applying a patch gives the patch.
/// The same holds of `Option<usize>`, with `NoData` for `None`.
pub proof fn lemma_usize_diff_patch(a: usize, b: usize, oa: Option<usize>, ob: Option<usize>, d: ParamData)
    ensures
        a.differs(&b) <==> a != b,
        a.encodes(d) <==> d == <ParamData as FromSpec<u64>>::from_spec(a as u64),
        a.encodes(d) ==> (<u64 as TryFromSpec<&ParamData>>::try_from_spec(&d) matches Ok(w) && w as int == a as int),
        <usize as Patch>::patch_spec(d) == match <u64 as TryFromSpec<&ParamData>>::try_from_spec(&d) {
            Ok(w) => Ok::<usize, PatchError>(w as usize),
            Err(e) => Err(e),
        },
        b.apply_spec(a) == a,
        oa.differs(&ob) <==> oa != ob,
        oa.encodes(d) <==> d == <ParamData as FromSpec<Option<u64>>>::from_spec(
            match oa {
                Some(x) => Some(x as u64),
                None => None,
            },
        ),
        oa.encodes(d) ==> match oa {
            Some(x) => (<Option<u64> as TryFromSpec<&ParamData>>::try_from_spec(&d) matches Ok(Some(w)) && w as int == x as int),
            None => d matches ParamData::NoData,
        },
        <Option<usize> as Patch>::patch_spec(d) == match <Option<u64> as TryFromSpec<&ParamData>>::try_from_spec(&d) {
            Ok(Some(w)) => Ok::<Option<usize>, PatchError>(Some(w as usize)),
            Ok(None) => Ok(None),
            Err(e) => Err(e),
        },
        ob.apply_spec(oa) == oa,
{
}

/// `isize` parameters: a diff queues an event exactly when the value
/// differs from its baseline, carrying the value widened to `i64` (the same number) in parameter
/// data; a patch reads the data as a `i64` and narrows it to `isize`; applying a patch gives the patch.
/// The same holds of `Option<isize>`, with `NoData` for `None`.
pub proof fn lemma_isize_diff_patch(a: isize, b: isize, oa: Option<isize>, ob: Option<isize>, d: ParamData)
    ensures
        a.differs(&b) <==> a != b,
        a.encodes(d) <==> d == <ParamData as FromSpec<i64>>::from_spec(a as i64),
        a.encodes(d) ==> (<i64 as TryFromSpec<&ParamData>>::try_from_spec(&d) matches Ok(w) && w as int == a as int),
        <isize as Patch>::patch_spec(d) == match <i64 as TryFromSpec<&ParamData>>::try_from_spec(&d) {
            Ok(w) => Ok::<isize, PatchError>(w as isize),
            Err(e) => Err(e),
        },
        b.apply_spec(a) == a,
        oa.differs(&ob) <==> oa != ob,
        oa.encodes(d) <==> d == <ParamData as FromSpec<Option<i64>>>::from_spec(
            match oa {
                Some(x) => Some(x as i64),
                None => None,
            },
        ),
        oa.encodes(d) ==> match oa {
            Some(x) => (<Option<i64> as TryFromSpec<&ParamData>>::try_from_spec(&d) matches Ok(Some(w)) && w as int == x as int),
            None => d matches ParamData::NoData,
        },
        <Option<isize> as Patch>::patch_spec(d) == match <Option<i64> as TryFromSpec<&ParamData>>::try_from_spec(&d) {
            Ok(Some(w)) => Ok::<Option<isize>, PatchError>(Some(w as isize)),
            Ok(None) => Ok(None),
            Err(e) => Err(e),
        },
        ob.apply_spec(oa) == oa,
{
}

/// `Notify<()>` parameters: a diff queues an event exactly when the id
/// changes, carrying the id as `U64`; a patch reads a `U64` as the id, and
/// rejects any other data.
pub proof fn lemma_notify_unit_diff_patch(a: Notify<()>, b: Notify<()>, d: ParamData, x: u64)
    ensures
        a.differs(&b) <==> a != b,
        a.encodes(d) <==> d == ParamData::U64(a.id_of().0),
        (<Notify<()> as Patch>::patch_spec(ParamData::U64(x)) matches Ok(n) && n.id_of().0 == x),
        !(d is U64) ==> <Notify<()> as Patch>::patch_spec(d) == Err::<Notify<()>, PatchError>(
            PatchError::InvalidData,
        ),
        b.apply_spec(a) == a,
{
    if !a.differs(&b) {
        crate::diff::notify::lemma_notify_eq(a, b);
    }
    crate::diff::notify::lemma_notify_parts((), NotifyID(x));
}

/// `Notify<bool>` parameters: a diff queues an event exactly when the value
/// or the id changes, carrying twenty bytes: the id in the machine's byte
/// order, then the value as one byte, 1 for `true` and 0 for `false`, then zeros. A patch reads the id from the first
/// eight bytes and the value from the next (any nonzero byte reads as `true`), and rejects any
/// data that is not bytes.
pub proof fn lemma_notify_bool_diff_patch(a: Notify<bool>, b: Notify<bool>, d: ParamData, bytes: [u8; 20])
    ensures
        a.differs(&b) <==> a != b,
        a.encodes(d) ==> (d matches ParamData::CustomBytes(b) && native_value(b@.subrange(0, 8))
            == a.id_of().0 as nat && b@[8] == (if a.value_of() { 1u8 } else { 0u8 }) && forall|k: int| 9 <= k < 20 ==> b@[k] == 0u8),
        (<Notify<bool> as Patch>::patch_spec(ParamData::CustomBytes(bytes)) matches Ok(m)
            && m.id_of().0 as nat == native_value(bytes@.subrange(0, 8)) && m.value_of() == (bytes@[8] != 0)),
        !(d is CustomBytes) ==> <Notify<bool> as Patch>::patch_spec(d) == Err::<Notify<bool>, PatchError>(
            PatchError::InvalidData,
        ),
        b.apply_spec(a) == a,
{
    if !a.differs(&b) {
        crate::diff::notify::lemma_notify_eq(a, b);
    }
    crate::bytes::lemma_byte_ranges();
    crate::bytes::lemma_native_value_bound(bytes@.subrange(0, 8));
    crate::diff::notify::lemma_notify_parts(bytes@[8] != 0, crate::diff::leaf::notify_id_of_bytes(bytes@));
    if a.encodes(d) {
        let b = d->CustomBytes_0;
        let vb = seq![if a.value_of() { 1u8 } else { 0u8 }];
        crate::diff::leaf::lemma_notify_bytes_parts(a.id_of(), vb);
        crate::bytes::lemma_native_value_bound(b@.subrange(0, 8));
        assert(b@.subrange(8, 9)[0] == b@[8]);
    }
}

/// `Notify<i8>` parameters: a diff queues an event exactly when the value
/// or the id changes, carrying twenty bytes: the id in the machine's byte
/// order, then the value as one byte, then zeros. A patch reads the id from the first
/// eight bytes and the value from the next (the byte reads as `i8`), and rejects any
/// data that is not bytes.
pub proof fn lemma_notify_i8_diff_patch(a: Notify<i8>, b: Notify<i8>, d: ParamData, bytes: [u8; 20])
    ensures
        a.differs(&b) <==> a != b,
        a.encodes(d) ==> (d matches ParamData::CustomBytes(b) && native_value(b@.subrange(0, 8))
            == a.id_of().0 as nat && b@[8] == a.value_of() as u8 && forall|k: int| 9 <= k < 20 ==> b@[k] == 0u8),
        (<Notify<i8> as Patch>::patch_spec(ParamData::CustomBytes(bytes)) matches Ok(m)
            && m.id_of().0 as nat == native_value(bytes@.subrange(0, 8)) && m.value_of() == bytes@[8] as i8),
        !(d is CustomBytes) ==> <Notify<i8> as Patch>::patch_spec(d) == Err::<Notify<i8>, PatchError>(
            PatchError::InvalidData,
        ),
        b.apply_spec(a) == a,
{
    if !a.differs(&b) {
        crate::diff::notify::lemma_notify_eq(a, b);
    }
    crate::bytes::lemma_byte_ranges();
    crate::bytes::lemma_native_value_bound(bytes@.subrange(0, 8));
    crate::diff::notify::lemma_notify_parts(bytes@[8] as i8, crate::diff::leaf::notify_id_of_bytes(bytes@));
    if a.encodes(d) {
        let b = d->CustomBytes_0;
        let vb = seq![a.value_of() as u8];
        crate::diff::leaf::lemma_notify_bytes_parts(a.id_of(), vb);
        crate::bytes::lemma_native_value_bound(b@.subrange(0, 8));
        assert(b@.subrange(8, 9)[0] == b@[8]);
        let x: i8 = a.value_of();
        assert(((x as u8) as i8) as u8 == x as u8) by (bit_vector);
    }
}

/// `Notify<u8>` parameters: a diff queues an event exactly when the value
/// or the id changes, carrying twenty bytes: the id in the machine's byte
/// order, then the value as one byte, then zeros. A patch reads the id from the first
/// eight bytes and the value from the next (the byte reads as `u8`), and rejects any
/// data that is not bytes.
pub proof fn lemma_notify_u8_diff_patch(a: Notify<u8>, b: Notify<u8>, d: ParamData, bytes: [u8; 20])
    ensures
        a.differs(&b) <==> a != b,
        a.encodes(d) ==> (d matches ParamData::CustomBytes(b) && native_value(b@.subrange(0, 8))
            == a.id_of().0 as nat && b@[8] == a.value_of() as u8 && forall|k: int| 9 <= k < 20 ==> b@[k] == 0u8),
        (<Notify<u8> as Patch>::patch_spec(ParamData::CustomBytes(bytes)) matches Ok(m)
            && m.id_of().0 as nat == native_value(bytes@.subrange(0, 8)) && m.value_of() == bytes@[8] as u8),
        !(d is CustomBytes) ==> <Notify<u8> as Patch>::patch_spec(d) == Err::<Notify<u8>, PatchError>(
            PatchError::InvalidData,
        ),
        b.apply_spec(a) == a,
{
    if !a.differs(&b) {
        crate::diff::notify::lemma_notify_eq(a, b);
    }
    crate::bytes::lemma_byte_ranges();
    crate::bytes::lemma_native_value_bound(bytes@.subrange(0, 8));
    crate::diff::notify::lemma_notify_parts(bytes@[8], crate::diff::leaf::notify_id_of_bytes(bytes@));
    if a.encodes(d) {
        let b = d->CustomBytes_0;
        let vb = seq![a.value_of()];
        crate::diff::leaf::lemma_notify_bytes_parts(a.id_of(), vb);
        crate::bytes::lemma_native_value_bound(b@.subrange(0, 8));
        assert(b@.subrange(8, 9)[0] == b@[8]);
    }
}

/// `Notify<i16>` parameters: a diff queues an event exactly when the value
/// or the id changes, carrying twenty bytes: the id in the machine's byte
/// order, then the value's 2 bytes in the machine's byte order, then zeros. A patch reads the id from the first
/// eight bytes and the value from the next (those bytes read as `i16`), and rejects any
/// data that is not bytes.
pub proof fn lemma_notify_i16_diff_patch(a: Notify<i16>, b: Notify<i16>, d: ParamData, bytes: [u8; 20])
    ensures
        a.differs(&b) <==> a != b,
        a.encodes(d) ==> (d matches ParamData::CustomBytes(b) && native_value(b@.subrange(0, 8))
            == a.id_of().0 as nat && native_value(b@.subrange(8, 10)) == (a.value_of() as u16) as nat && forall|k: int| 10 <= k < 20 ==> b@[k] == 0u8),
        (<Notify<i16> as Patch>::patch_spec(ParamData::CustomBytes(bytes)) matches Ok(m)
            && m.id_of().0 as nat == native_value(bytes@.subrange(0, 8)) && (m.value_of() as u16) as nat == native_value(bytes@.subrange(8, 10))),
        !(d is CustomBytes) ==> <Notify<i16> as Patch>::patch_spec(d) == Err::<Notify<i16>, PatchError>(
            PatchError::InvalidData,
        ),
        b.apply_spec(a) == a,
{
    if !a.differs(&b) {
        crate::diff::notify::lemma_notify_eq(a, b);
    }
    crate::bytes::lemma_byte_ranges();
    crate::bytes::lemma_native_value_bound(bytes@.subrange(0, 8));
    crate::bytes::lemma_native_value_bound(bytes@.subrange(8, 10));
    crate::diff::notify::lemma_notify_parts((native_value(bytes@.subrange(8, 10)) as u16) as i16, crate::diff::leaf::notify_id_of_bytes(bytes@));
    if a.encodes(d) {
        let b = d->CustomBytes_0;
        let vb = crate::bytes::native_bytes((a.value_of() as u16) as nat, 2);
        crate::bytes::lemma_native_bytes_roundtrip((a.value_of() as u16) as nat, 2);
        crate::diff::leaf::lemma_notify_bytes_parts(a.id_of(), vb);
        crate::bytes::lemma_native_value_bound(b@.subrange(0, 8));
        assert(b@.subrange(8, 10)[0] == b@[8]);
        let x: i16 = a.value_of();
        assert(((x as u16) as i16) as u16 == x as u16) by (bit_vector);
    }
    assert(bytes@.subrange(8, 10).len() == 2);
    let y: u16 = native_value(bytes@.subrange(8, 10)) as u16;
    assert((y as i16) as u16 == y) by (bit_vector);
}

/// `Notify<u16>` parameters: a diff queues an event exactly when the value
/// or the id changes, carrying twenty bytes: the id in the machine's byte
/// order, then the value's 2 bytes in the machine's byte order, then zeros. A patch reads the id from the first
/// eight bytes and the value from the next (those bytes read as `u16`), and rejects any
/// data that is not bytes.
pub proof fn lemma_notify_u16_diff_patch(a: Notify<u16>, b: Notify<u16>, d: ParamData, bytes: [u8; 20])
    ensures
        a.differs(&b) <==> a != b,
        a.encodes(d) ==> (d matches ParamData::CustomBytes(b) && native_value(b@.subrange(0, 8))
            == a.id_of().0 as nat && native_value(b@.subrange(8, 10)) == (a.value_of() as u16) as nat && forall|k: int| 10 <= k < 20 ==> b@[k] == 0u8),
        (<Notify<u16> as Patch>::patch_spec(ParamData::CustomBytes(bytes)) matches Ok(m)
            && m.id_of().0 as nat == native_value(bytes@.subrange(0, 8)) && (m.value_of() as u16) as nat == native_value(bytes@.subrange(8, 10))),
        !(d is CustomBytes) ==> <Notify<u16> as Patch>::patch_spec(d) == Err::<Notify<u16>, PatchError>(
            PatchError::InvalidData,
        ),
        b.apply_spec(a) == a,
{
    if !a.differs(&b) {
        crate::diff::notify::lemma_notify_eq(a, b);
    }
    crate::bytes::lemma_byte_ranges();
    crate::bytes::lemma_native_value_bound(bytes@.subrange(0, 8));
    crate::bytes::lemma_native_value_bound(bytes@.subrange(8, 10));
    crate::diff::notify::lemma_notify_parts(native_value(bytes@.subrange(8, 10)) as u16, crate::diff::leaf::notify_id_of_bytes(bytes@));
    if a.encodes(d) {
        let b = d->CustomBytes_0;
        let vb = crate::bytes::native_bytes((a.value_of() as u16) as nat, 2);
        crate::bytes::lemma_native_bytes_roundtrip((a.value_of() as u16) as nat, 2);
        crate::diff::leaf::lemma_notify_bytes_parts(a.id_of(), vb);
        crate::bytes::lemma_native_value_bound(b@.subrange(0, 8));
        assert(b@.subrange(8, 10)[0] == b@[8]);
    }
}

/// `Notify<i32>` parameters: a diff queues an event exactly when the value
/// or the id changes, carrying twenty bytes: the id in the machine's byte
/// order, then the value's 4 bytes in the machine's byte order, then zeros. A patch reads the id from the first
/// eight bytes and the value from the next (those bytes read as `i32`), and rejects any
/// data that is not bytes.
pub proof fn lemma_notify_i32_diff_patch(a: Notify<i32>, b: Notify<i32>, d: ParamData, bytes: [u8; 20])
    ensures
        a.differs(&b) <==> a != b,
        a.encodes(d) ==> (d matches ParamData::CustomBytes(b) && native_value(b@.subrange(0, 8))
            == a.id_of().0 as nat && native_value(b@.subrange(8, 12)) == (a.value_of() as u32) as nat && forall|k: int| 12 <= k < 20 ==> b@[k] == 0u8),
        (<Notify<i32> as Patch>::patch_spec(ParamData::CustomBytes(bytes)) matches Ok(m)
            && m.id_of().0 as nat == native_value(bytes@.subrange(0, 8)) && (m.value_of() as u32) as nat == native_value(bytes@.subrange(8, 12))),
        !(d is CustomBytes) ==> <Notify<i32> as Patch>::patch_spec(d) == Err::<Notify<i32>, PatchError>(
            PatchError::InvalidData,
        ),
        b.apply_spec(a) == a,
{
    if !a.differs(&b) {
        crate::diff::notify::lemma_notify_eq(a, b);
    }
    crate::bytes::lemma_byte_ranges();
    crate::bytes::lemma_native_value_bound(bytes@.subrange(0, 8));
    crate::bytes::lemma_native_value_bound(bytes@.subrange(8, 12));
    crate::diff::notify::lemma_notify_parts((native_value(bytes@.subrange(8, 12)) as u32) as i32, crate::diff::leaf::notify_id_of_bytes(bytes@));
    if a.encodes(d) {
        let b = d->CustomBytes_0;
        let vb = crate::bytes::native_bytes((a.value_of() as u32) as nat, 4);
        crate::bytes::lemma_native_bytes_roundtrip((a.value_of() as u32) as nat, 4);
        crate::diff::leaf::lemma_notify_bytes_parts(a.id_of(), vb);
        crate::bytes::lemma_native_value_bound(b@.subrange(0, 8));
        assert(b@.subrange(8, 12)[0] == b@[8]);
        let x: i32 = a.value_of();
        assert(((x as u32) as i32) as u32 == x as u32) by (bit_vector);
    }
    assert(bytes@.subrange(8, 12).len() == 4);
    let y: u32 = native_value(bytes@.subrange(8, 12)) as u32;
    assert((y as i32) as u32 == y) by (bit_vector);
}

/// `Notify<u32>` parameters: a diff queues an event exactly when the value
/// or the id changes, carrying twenty bytes: the id in the machine's byte
/// order, then the value's 4 bytes in the machine's byte order, then zeros. A patch reads the id from the first
/// eight bytes and the value from the next (those bytes read as `u32`), and rejects any
/// data that is not bytes.
pub proof fn lemma_notify_u32_diff_patch(a: Notify<u32>, b: Notify<u32>, d: ParamData, bytes: [u8; 20])
    ensures
        a.differs(&b) <==> a != b,
        a.encodes(d) ==> (d matches ParamData::CustomBytes(b) && native_value(b@.subrange(0, 8))
            == a.id_of().0 as nat && native_value(b@.subrange(8, 12)) == (a.value_of() as u32) as nat && forall|k: int| 12 <= k < 20 ==> b@[k] == 0u8),
        (<Notify<u32> as Patch>::patch_spec(ParamData::CustomBytes(bytes)) matches Ok(m)
            && m.id_of().0 as nat == native_value(bytes@.subrange(0, 8)) && (m.value_of() as u32) as nat == native_value(bytes@.subrange(8, 12))),
        !(d is CustomBytes) ==> <Notify<u32> as Patch>::patch_spec(d) == Err::<Notify<u32>, PatchError>(
            PatchError::InvalidData,
        ),
        b.apply_spec(a) == a,
{
    if !a.differs(&b) {
        crate::diff::notify::lemma_notify_eq(a, b);
    }
    crate::bytes::lemma_byte_ranges();
    crate::bytes::lemma_native_value_bound(bytes@.subrange(0, 8));
    crate::bytes::lemma_native_value_bound(bytes@.subrange(8, 12));
    crate::diff::notify::lemma_notify_parts(native_value(bytes@.subrange(8, 12)) as u32, crate::diff::leaf::notify_id_of_bytes(bytes@));
    if a.encodes(d) {
        let b = d->CustomBytes_0;
        let vb = crate::bytes::native_bytes((a.value_of() as u32) as nat, 4);
        crate::bytes::lemma_native_bytes_roundtrip((a.value_of() as u32) as nat, 4);
        crate::diff::leaf::lemma_notify_bytes_parts(a.id_of(), vb);
        crate::bytes::lemma_native_value_bound(b@.subrange(0, 8));
        assert(b@.subrange(8, 12)[0] == b@[8]);
    }
}

/// `Notify<i64>` parameters: a diff queues an event exactly when the value
/// or the id changes, carrying twenty bytes: the id in the machine's byte
/// order, then the value's 8 bytes in the machine's byte order, then zeros. A patch reads the id from the first
/// eight bytes and the value from the next (those bytes read as `i64`), and rejects any
/// data that is not bytes.
pub proof fn lemma_notify_i64_diff_patch(a: Notify<i64>, b: Notify<i64>, d: ParamData, bytes: [u8; 20])
    ensures
        a.differs(&b) <==> a != b,
        a.encodes(d) ==> (d matches ParamData::CustomBytes(b) && native_value(b@.subrange(0, 8))
            == a.id_of().0 as nat && native_value(b@.subrange(8, 16)) == (a.value_of() as u64) as nat && forall|k: int| 16 <= k < 20 ==> b@[k] == 0u8),
        (<Notify<i64> as Patch>::patch_spec(ParamData::CustomBytes(bytes)) matches Ok(m)
            && m.id_of().0 as nat == native_value(bytes@.subrange(0, 8)) && (m.value_of() as u64) as nat == native_value(bytes@.subrange(8, 16))),
        !(d is CustomBytes) ==> <Notify<i64> as Patch>::patch_spec(d) == Err::<Notify<i64>, PatchError>(
            PatchError::InvalidData,
        ),
        b.apply_spec(a) == a,
{
    if !a.differs(&b) {
        crate::diff::notify::lemma_notify_eq(a, b);
    }
    crate::bytes::lemma_byte_ranges();
    crate::bytes::lemma_native_value_bound(bytes@.subrange(0, 8));
    crate::bytes::lemma_native_value_bound(bytes@.subrange(8, 16));
    crate::diff::notify::lemma_notify_parts((native_value(bytes@.subrange(8, 16)) as u64) as i64, crate::diff::leaf::notify_id_of_bytes(bytes@));
    if a.encodes(d) {
        let b = d->CustomBytes_0;
        let vb = crate::bytes::native_bytes((a.value_of() as u64) as nat, 8);
        crate::bytes::lemma_native_bytes_roundtrip((a.value_of() as u64) as nat, 8);
        crate::diff::leaf::lemma_notify_bytes_parts(a.id_of(), vb);
        crate::bytes::lemma_native_value_bound(b@.subrange(0, 8));
        assert(b@.subrange(8, 16)[0] == b@[8]);
        let x: i64 = a.value_of();
        assert(((x as u64) as i64) as u64 == x as u64) by (bit_vector);
    }
    assert(bytes@.subrange(8, 16).len() == 8);
    let y: u64 = native_value(bytes@.subrange(8, 16)) as u64;
    assert((y as i64) as u64 == y) by (bit_vector);
}

/// `Notify<u64>` parameters: a diff queues an event exactly when the value
/// or the id changes, carrying twenty bytes: the id in the machine's byte
/// order, then the value's 8 bytes in the machine's byte order, then zeros. A patch reads the id from the first
/// eight bytes and the value from the next (those bytes read as `u64`), and rejects any
/// data that is not bytes.
pub proof fn lemma_notify_u64_diff_patch(a: Notify<u64>, b: Notify<u64>, d: ParamData, bytes: [u8; 20])
    ensures
        a.differs(&b) <==> a != b,
        a.encodes(d) ==> (d matches ParamData::CustomBytes(b) && native_value(b@.subrange(0, 8))
            == a.id_of().0 as nat && native_value(b@.subrange(8, 16)) == (a.value_of() as u64) as nat && forall|k: int| 16 <= k < 20 ==> b@[k] == 0u8),
        (<Notify<u64> as Patch>::patch_spec(ParamData::CustomBytes(bytes)) matches Ok(m)
            && m.id_of().0 as nat == native_value(bytes@.subrange(0, 8)) && (m.value_of() as u64) as nat == native_value(bytes@.subrange(8, 16))),
        !(d is CustomBytes) ==> <Notify<u64> as Patch>::patch_spec(d) == Err::<Notify<u64>, PatchError>(
            PatchError::InvalidData,
        ),
        b.apply_spec(a) == a,
{
    if !a.differs(&b) {
        crate::diff::notify::lemma_notify_eq(a, b);
    }
    crate::bytes::lemma_byte_ranges();
    crate::bytes::lemma_native_value_bound(bytes@.subrange(0, 8));
    crate::bytes::lemma_native_value_bound(bytes@.subrange(8, 16));
    crate::diff::notify::lemma_notify_parts(native_value(bytes@.subrange(8, 16)) as u64, crate::diff::leaf::notify_id_of_bytes(bytes@));
    if a.encodes(d) {
        let b = d->CustomBytes_0;
        let vb = crate::bytes::native_bytes((a.value_of() as u64) as nat, 8);
        crate::bytes::lemma_native_bytes_roundtrip((a.value_of() as u64) as nat, 8);
        crate::diff::leaf::lemma_notify_bytes_parts(a.id_of(), vb);
        crate::bytes::lemma_native_value_bound(b@.subrange(0, 8));
        assert(b@.subrange(8, 16)[0] == b@[8]);
    }
}

} // verus!
