use crate::error::FromBytesError;
use vstd::prelude::*;

verus! {

/// A data byte that holds 7 bits of information.
///
/// Invariant (see [`U7::wf`]): the stored byte never exceeds 127. Checked
/// construction enforces it; unchecked construction demands it of the caller.
#[derive(Copy, Clone, Debug, Default, Eq, Hash, Ord, PartialEq, PartialOrd, Structural)]
pub struct U7(pub(crate) u8);

impl View for U7 {
    type V = u8;

    closed spec fn view(&self) -> u8 {
        self.0
    }
}

impl U7 {
    /// The range invariant of a 7-bit data byte.
    pub open spec fn wf(&self) -> bool {
        self@ <= 127
    }

    /// The minimum value for a u7 data byte.
    pub fn min_value() -> (r: U7)
        ensures
            r@ == 0,
            r.wf(),
    {
        U7(0x00)
    }

    /// The maximum value for a u7 data byte.
    pub fn max_value() -> (r: U7)
        ensures
            r@ == 127,
            r.wf(),
    {
        U7(0x7F)
    }

    /// Create a `U7` from a `u8`, succeeding exactly on values up to 127.
    pub fn try_from(data: u8) -> (r: Result<U7, FromBytesError>)
        ensures
            data <= 127 ==> r is Ok && r->Ok_0@ == data && r->Ok_0.wf(),
            data > 127 ==> r == Err::<U7, FromBytesError>(FromBytesError::DataByteOutOfRange),
    {
        if data > 0x7F {
            Err(FromBytesError::DataByteOutOfRange)
        } else {
            Ok(U7(data))
        }
    }

    /// Convert a `u8` into a `U7` without a runtime check; the caller
    /// guarantees the range invariant.
    pub fn from_unchecked(data: u8) -> (r: U7)
        requires
            data <= 127,
        ensures
            r@ == data,
            r.wf(),
    {
        U7(data)
    }

    /// Create a `U7` from a `u8`. Only the 7 least significant bits of `data` are kept.
    pub fn from_u8_lossy(data: u8) -> (r: U7)
        ensures
            r@ == data % 128,
            r.wf(),
    {
        proof {
            assert(data & 0x7F == data % 128) by (bit_vector);
        }
        U7(data & 0x7F)
    }

    /// The wrapped byte.
    pub fn to_u8(self) -> (r: u8)
        ensures
            r == self@,
    {
        self.0
    }

    /// Convert a slice of `u8` into validated data bytes. If any element is
    /// out of range, the first such failure is returned and no data is produced.
    pub fn try_from_bytes(bytes: &[u8]) -> (r: Result<Vec<U7>, FromBytesError>)
        ensures
            r is Ok <==> (forall|i: int| 0 <= i < bytes@.len() ==> bytes@[i] <= 127),
            r is Ok ==> {
                &&& r->Ok_0@.len() == bytes@.len()
                &&& forall|i: int| 0 <= i < bytes@.len() ==> (#[trigger] r->Ok_0@[i])@ == bytes@[i]
            },
            r is Err ==> r->Err_0 == FromBytesError::DataByteOutOfRange,
    {
        let mut data: Vec<U7> = Vec::new();
        let mut i: usize = 0;
        while i < bytes.len()
            invariant
                0 <= i <= bytes@.len(),
                data@.len() == i,
                forall|j: int| 0 <= j < i ==> bytes@[j] <= 127,
                forall|j: int| 0 <= j < i ==> (#[trigger] data@[j])@ == bytes@[j],
            decreases bytes@.len() - i,
        {
            let b = bytes[i];
            if b > 0x7F {
                return Err(FromBytesError::DataByteOutOfRange);
            }
            data.push(U7(b));
            i += 1;
        }
        Ok(data)
    }

    /// Convert validated data bytes back into plain bytes. Since `U7` is a
    /// subset of `u8`, every element converts as it is.
    pub fn data_to_bytes(data: &[U7]) -> (r: Vec<u8>)
        ensures
            r@.len() == data@.len(),
            forall|i: int| 0 <= i < data@.len() ==> r@[i] == (#[trigger] data@[i])@,
    {
        let mut bytes: Vec<u8> = Vec::new();
        let mut i: usize = 0;
        while i < data.len()
            invariant
                0 <= i <= data@.len(),
                bytes@.len() == i,
                forall|j: int| 0 <= j < i ==> bytes@[j] == (#[trigger] data@[j])@,
            decreases data@.len() - i,
        {
            bytes.push(data[i].0);
            i += 1;
        }
        bytes
    }

    /// Convert a slice of `u8` to validated data bytes without a runtime
    /// check; the caller guarantees that every byte is at most 127.
    pub fn from_bytes_unchecked(bytes: &[u8]) -> (r: Vec<U7>)
        requires
            forall|i: int| 0 <= i < bytes@.len() ==> bytes@[i] <= 127,
        ensures
            r@.len() == bytes@.len(),
            forall|i: int| 0 <= i < bytes@.len() ==> (#[trigger] r@[i])@ == bytes@[i],
    {
        let mut data: Vec<U7> = Vec::new();
        let mut i: usize = 0;
        while i < bytes.len()
            invariant
                0 <= i <= bytes@.len(),
                forall|j: int| 0 <= j < bytes@.len() ==> bytes@[j] <= 127,
                data@.len() == i,
                forall|j: int| 0 <= j < i ==> (#[trigger] data@[j])@ == bytes@[j],
            decreases bytes@.len() - i,
        {
            data.push(U7(bytes[i]));
            i += 1;
        }
        data
    }
}

/// A combination of 2 data bytes that holds 14 bits of information.
///
/// Invariant (see [`U14::wf`]): the stored value never exceeds 16383.
#[derive(Copy, Clone, Debug, Default, Eq, Hash, Ord, PartialEq, PartialOrd, Structural)]
pub struct U14(pub(crate) u16);

impl View for U14 {
    type V = u16;

    closed spec fn view(&self) -> u16 {
        self.0
    }
}

impl U14 {
    /// The range invariant of a 14-bit data value.
    pub open spec fn wf(&self) -> bool {
        self@ <= 16383
    }

    /// The minimum value for a u14 data value.
    pub fn min_value() -> (r: U14)
        ensures
            r@ == 0,
            r.wf(),
    {
        U14(0)
    }

    /// The maximum value for a u14 data value.
    pub fn max_value() -> (r: U14)
        ensures
            r@ == 16383,
            r.wf(),
    {
        U14(0x3FFF)
    }

    /// Create a `U14` from a `u16`, succeeding exactly on values up to 16383.
    pub fn try_from(data: u16) -> (r: Result<U14, FromBytesError>)
        ensures
            data <= 16383 ==> r is Ok && r->Ok_0@ == data && r->Ok_0.wf(),
            data > 16383 ==> r == Err::<U14, FromBytesError>(FromBytesError::U14OutOfRange),
    {
        if data > 0x3FFF {
            Err(FromBytesError::U14OutOfRange)
        } else {
            Ok(U14(data))
        }
    }

    /// Convert a `u16` into a `U14` without a runtime check; the caller
    /// guarantees the range invariant.
    pub fn from_unchecked(data: u16) -> (r: U14)
        requires
            data <= 16383,
        ensures
            r@ == data,
            r.wf(),
    {
        U14(data)
    }

    /// The wrapped value.
    pub fn to_u16(self) -> (r: u16)
        ensures
            r == self@,
    {
        self.0
    }

    /// Convert a slice of `u16` into validated 14-bit values. If any element
    /// is out of range, the first such failure is returned and no data is
    /// produced.
    pub fn try_from_slice(slice: &[u16]) -> (r: Result<Vec<U14>, FromBytesError>)
        ensures
            r is Ok <==> (forall|i: int| 0 <= i < slice@.len() ==> slice@[i] <= 16383),
            r is Ok ==> {
                &&& r->Ok_0@.len() == slice@.len()
                &&& forall|i: int| 0 <= i < slice@.len() ==> (#[trigger] r->Ok_0@[i])@ == slice@[i]
            },
            r is Err ==> r->Err_0 == FromBytesError::U14OutOfRange,
    {
        let mut data: Vec<U14> = Vec::new();
        let mut i: usize = 0;
        while i < slice.len()
            invariant
                0 <= i <= slice@.len(),
                data@.len() == i,
                forall|j: int| 0 <= j < i ==> slice@[j] <= 16383,
                forall|j: int| 0 <= j < i ==> (#[trigger] data@[j])@ == slice@[j],
            decreases slice@.len() - i,
        {
            let d = slice[i];
            if d > 0x3FFF {
                return Err(FromBytesError::U14OutOfRange);
            }
            data.push(U14(d));
            i += 1;
        }
        Ok(data)
    }

    /// Convert validated 14-bit values back into plain `u16` values.
    pub fn data_to_slice(data: &[U14]) -> (r: Vec<u16>)
        ensures
            r@.len() == data@.len(),
            forall|i: int| 0 <= i < data@.len() ==> r@[i] == (#[trigger] data@[i])@,
    {
        let mut slice: Vec<u16> = Vec::new();
        let mut i: usize = 0;
        while i < data.len()
            invariant
                0 <= i <= data@.len(),
                slice@.len() == i,
                forall|j: int| 0 <= j < i ==> slice@[j] == (#[trigger] data@[j])@,
            decreases data@.len() - i,
        {
            slice.push(data[i].0);
            i += 1;
        }
        slice
    }

    /// Convert a slice of `u16` to validated 14-bit values without a runtime
    /// check; the caller guarantees that every element is at most 16383.
    pub fn from_slice_unchecked(slice: &[u16]) -> (r: Vec<U14>)
        requires
            forall|i: int| 0 <= i < slice@.len() ==> slice@[i] <= 16383,
        ensures
            r@.len() == slice@.len(),
            forall|i: int| 0 <= i < slice@.len() ==> (#[trigger] r@[i])@ == slice@[i],
    {
        let mut data: Vec<U14> = Vec::new();
        let mut i: usize = 0;
        while i < slice.len()
            invariant
                0 <= i <= slice@.len(),
                forall|j: int| 0 <= j < slice@.len() ==> slice@[j] <= 16383,
                data@.len() == i,
                forall|j: int| 0 <= j < i ==> (#[trigger] data@[j])@ == slice@[j],
            decreases slice@.len() - i,
        {
            data.push(U14(slice[i]));
            i += 1;
        }
        data
    }
}

} // verus!
