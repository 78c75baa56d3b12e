//! The dynamic part of the model: single value changes, and the time bucket
//! that holds every change of one instant, one sequence for each of the four
//! value domains.

use vstd::prelude::*;
use crate::error::IndexOutOfRange;
use crate::value::VcdValue;

verus! {

/// A time bucket as a mathematical value: the instant, and for each value
/// domain the changes of that instant as pairs of identifier code and value,
/// in the order of their arrival.
#[verifier::ext_equal]
pub struct BucketView {
    pub time: u64,
    pub scalars: Seq<(Seq<char>, VcdValue)>,
    pub vectors: Seq<(Seq<char>, Seq<VcdValue>)>,
    pub reals: Seq<(Seq<char>, u64)>,
    pub strings: Seq<(Seq<char>, Seq<char>)>,
}

impl BucketView {
    /// The bucket of instant `time` that holds no change yet.
    pub open spec fn empty_at(time: u64) -> BucketView {
        BucketView {
            time,
            scalars: Seq::empty(),
            vectors: Seq::empty(),
            reals: Seq::empty(),
            strings: Seq::empty(),
        }
    }

    /// The number of changes in the bucket, all four domains together.
    pub open spec fn change_count(self) -> nat {
        self.scalars.len() + self.vectors.len() + self.reals.len() + self.strings.len()
    }
}

/// A change of a single-bit signal.
#[derive(Debug)]
pub struct SignalDataScalar {
    id_code: String,
    value: VcdValue,
}

/// A change of a multi-bit signal.
#[derive(Debug)]
pub struct SignalDataVector {
    id_code: String,
    value: Vec<VcdValue>,
}

/// A change of a real-valued signal. The value is held as the 64 bits of its
/// IEEE 754 encoding.
#[derive(Debug)]
pub struct SignalDataReal {
    id_code: String,
    value: u64,
}

/// A change of a string-valued signal.
#[derive(Debug)]
pub struct SignalDataString {
    id_code: String,
    value: String,
}

/// A time bucket: every change that happens at one instant.
#[derive(Debug)]
pub struct SignalDataAndTime {
    time: u64,
    data_array_scalar: Vec<SignalDataScalar>,
    data_array_vector: Vec<SignalDataVector>,
    data_array_real: Vec<SignalDataReal>,
    data_array_string: Vec<SignalDataString>,
}

impl View for SignalDataScalar {
    type V = (Seq<char>, VcdValue);

    closed spec fn view(&self) -> (Seq<char>, VcdValue) {
        (self.id_code@, self.value)
    }
}

impl View for SignalDataVector {
    type V = (Seq<char>, Seq<VcdValue>);

    closed spec fn view(&self) -> (Seq<char>, Seq<VcdValue>) {
        (self.id_code@, self.value@)
    }
}

impl View for SignalDataReal {
    type V = (Seq<char>, u64);

    closed spec fn view(&self) -> (Seq<char>, u64) {
        (self.id_code@, self.value)
    }
}

impl View for SignalDataString {
    type V = (Seq<char>, Seq<char>);

    closed spec fn view(&self) -> (Seq<char>, Seq<char>) {
        (self.id_code@, self.value@)
    }
}

impl View for SignalDataAndTime {
    type V = BucketView;

    closed spec fn view(&self) -> BucketView {
        BucketView {
            time: self.time,
            scalars: self.data_array_scalar@.map_values(|d: SignalDataScalar| d@),
            vectors: self.data_array_vector@.map_values(|d: SignalDataVector| d@),
            reals: self.data_array_real@.map_values(|d: SignalDataReal| d@),
            strings: self.data_array_string@.map_values(|d: SignalDataString| d@),
        }
    }
}

/// The views of a run of buckets, in order.
pub open spec fn bucket_views(buckets: Seq<SignalDataAndTime>) -> Seq<BucketView> {
    buckets.map_values(|b: SignalDataAndTime| b@)
}

impl Clone for SignalDataScalar {
    fn clone(&self) -> (r: Self)
        ensures
            r@ == self@,
    {
        SignalDataScalar { id_code: self.id_code.clone(), value: self.value }
    }
}

impl Clone for SignalDataVector {
    fn clone(&self) -> (r: Self)
        ensures
            r@ == self@,
    {
        let r = SignalDataVector { id_code: self.id_code.clone(), value: self.value.clone() };
        assert(r@.1 =~= self@.1);
        r
    }
}

impl Clone for SignalDataReal {
    fn clone(&self) -> (r: Self)
        ensures
            r@ == self@,
    {
        SignalDataReal { id_code: self.id_code.clone(), value: self.value }
    }
}

impl Clone for SignalDataString {
    fn clone(&self) -> (r: Self)
        ensures
            r@ == self@,
    {
        SignalDataString { id_code: self.id_code.clone(), value: self.value.clone() }
    }
}

impl Clone for SignalDataAndTime {
    fn clone(&self) -> (r: Self)
        ensures
            r@ == self@,
    {
        let r = SignalDataAndTime {
            time: self.time,
            data_array_scalar: self.data_array_scalar.clone(),
            data_array_vector: self.data_array_vector.clone(),
            data_array_real: self.data_array_real.clone(),
            data_array_string: self.data_array_string.clone(),
        };
        assert(r@ =~= self@);
        r
    }
}

impl SignalDataScalar {
    pub fn new(id_code: String, value: VcdValue) -> (r: SignalDataScalar)
        ensures
            r@ == (id_code@, value),
    {
        SignalDataScalar { id_code, value }
    }

    pub fn get_id_code(&self) -> (r: String)
        ensures
            r@ == self@.0,
    {
        self.id_code.clone()
    }

    pub fn get_value(&self) -> (r: VcdValue)
        ensures
            r == self@.1,
    {
        self.value
    }
}

impl SignalDataVector {
    pub fn new(id_code: String, value: Vec<VcdValue>) -> (r: SignalDataVector)
        ensures
            r@ == (id_code@, value@),
    {
        SignalDataVector { id_code, value }
    }

    pub fn get_id_code(&self) -> (r: String)
        ensures
            r@ == self@.0,
    {
        self.id_code.clone()
    }

    /// The number of bits of the value.
    pub fn get_value_size(&self) -> (r: usize)
        ensures
            r == self@.1.len(),
    {
        self.value.len()
    }

    /// The bit at position `i` of the value.
    pub fn get_value_data(&self, i: usize) -> (r: Result<VcdValue, IndexOutOfRange>)
        ensures
            r == if i < self@.1.len() {
                Ok::<VcdValue, IndexOutOfRange>(self@.1[i as int])
            } else {
                Err(IndexOutOfRange { index: i, len: self@.1.len() as usize })
            },
    {
        if i < self.value.len() {
            Ok(self.value[i])
        } else {
            Err(IndexOutOfRange { index: i, len: self.value.len() })
        }
    }
}

impl SignalDataReal {
    /// A change to the value whose IEEE 754 encoding is `value`.
    pub fn new(id_code: String, value: u64) -> (r: SignalDataReal)
        ensures
            r@ == (id_code@, value),
    {
        SignalDataReal { id_code, value }
    }

    pub fn get_id_code(&self) -> (r: String)
        ensures
            r@ == self@.0,
    {
        self.id_code.clone()
    }

    /// The IEEE 754 encoding of the value.
    pub fn get_value(&self) -> (r: u64)
        ensures
            r == self@.1,
    {
        self.value
    }
}

impl SignalDataString {
    pub fn new(id_code: String, value: String) -> (r: SignalDataString)
        ensures
            r@ == (id_code@, value@),
    {
        SignalDataString { id_code, value }
    }

    pub fn get_id_code(&self) -> (r: String)
        ensures
            r@ == self@.0,
    {
        self.id_code.clone()
    }

    pub fn get_value(&self) -> (r: String)
        ensures
            r@ == self@.1,
    {
        self.value.clone()
    }
}

impl SignalDataAndTime {
    /// The bucket of instant `time` that holds the given changes.
    pub fn new(
        time: u64,
        data_array_scalar: Vec<SignalDataScalar>,
        data_array_vector: Vec<SignalDataVector>,
        data_array_real: Vec<SignalDataReal>,
        data_array_string: Vec<SignalDataString>,
    ) -> (r: SignalDataAndTime)
        ensures
            r@ == (BucketView {
                time,
                scalars: data_array_scalar@.map_values(|d: SignalDataScalar| d@),
                vectors: data_array_vector@.map_values(|d: SignalDataVector| d@),
                reals: data_array_real@.map_values(|d: SignalDataReal| d@),
                strings: data_array_string@.map_values(|d: SignalDataString| d@),
            }),
    {
        SignalDataAndTime {
            time,
            data_array_scalar,
            data_array_vector,
            data_array_real,
            data_array_string,
        }
    }

    /// The bucket of instant `time` that holds no change yet.
    pub fn empty_at(time: u64) -> (r: SignalDataAndTime)
        ensures
            r@ =~= BucketView::empty_at(time),
    {
        SignalDataAndTime {
            time,
            data_array_scalar: Vec::new(),
            data_array_vector: Vec::new(),
            data_array_real: Vec::new(),
            data_array_string: Vec::new(),
        }
    }

    /// Whether the bucket holds at least one change.
    pub fn has_changes(&self) -> (r: bool)
        ensures
            r == (self@.change_count() > 0),
    {
        self.data_array_scalar.len() > 0 || self.data_array_vector.len() > 0
            || self.data_array_real.len() > 0 || self.data_array_string.len() > 0
    }

    /// Appends a change of a single-bit signal.
    pub fn push_scalar(&mut self, data: SignalDataScalar)
        ensures
            final(self)@ =~= (BucketView {
                scalars: old(self)@.scalars.push(data@),
                ..old(self)@
            }),
    {
        self.data_array_scalar.push(data);
    }

    /// Appends a change of a multi-bit signal.
    pub fn push_vector(&mut self, data: SignalDataVector)
        ensures
            final(self)@ =~= (BucketView {
                vectors: old(self)@.vectors.push(data@),
                ..old(self)@
            }),
    {
        self.data_array_vector.push(data);
    }

    /// Appends a change of a real-valued signal.
    pub fn push_real(&mut self, data: SignalDataReal)
        ensures
            final(self)@ =~= (BucketView { reals: old(self)@.reals.push(data@), ..old(self)@ }),
    {
        self.data_array_real.push(data);
    }

    /// Appends a change of a string-valued signal.
    pub fn push_string(&mut self, data: SignalDataString)
        ensures
            final(self)@ =~= (BucketView {
                strings: old(self)@.strings.push(data@),
                ..old(self)@
            }),
    {
        self.data_array_string.push(data);
    }

    /// The instant of the bucket, in ticks of the header's timescale.
    pub fn get_time(&self) -> (r: u64)
        ensures
            r == self@.time,
    {
        self.time
    }

    pub fn get_data_array_scalar_size(&self) -> (r: usize)
        ensures
            r == self@.scalars.len(),
    {
        self.data_array_scalar.len()
    }

    pub fn get_data_array_scalar_id_code(&self, i: usize) -> (r: Result<String, IndexOutOfRange>)
        ensures
            i < self@.scalars.len() ==> r is Ok && r->Ok_0@ == self@.scalars[i as int].0,
            i >= self@.scalars.len() ==> r == Err::<String, IndexOutOfRange>(
                IndexOutOfRange { index: i, len: self@.scalars.len() as usize },
            ),
    {
        if i < self.data_array_scalar.len() {
            Ok(self.data_array_scalar[i].get_id_code())
        } else {
            Err(IndexOutOfRange { index: i, len: self.data_array_scalar.len() })
        }
    }

    pub fn get_data_array_scalar_value(&self, i: usize) -> (r: Result<VcdValue, IndexOutOfRange>)
        ensures
            r == if i < self@.scalars.len() {
                Ok::<VcdValue, IndexOutOfRange>(self@.scalars[i as int].1)
            } else {
                Err(IndexOutOfRange { index: i, len: self@.scalars.len() as usize })
            },
    {
        if i < self.data_array_scalar.len() {
            Ok(self.data_array_scalar[i].get_value())
        } else {
            Err(IndexOutOfRange { index: i, len: self.data_array_scalar.len() })
        }
    }

    pub fn get_data_array_vector_size(&self) -> (r: usize)
        ensures
            r == self@.vectors.len(),
    {
        self.data_array_vector.len()
    }

    pub fn get_data_array_vector_id_code(&self, i: usize) -> (r: Result<String, IndexOutOfRange>)
        ensures
            i < self@.vectors.len() ==> r is Ok && r->Ok_0@ == self@.vectors[i as int].0,
            i >= self@.vectors.len() ==> r == Err::<String, IndexOutOfRange>(
                IndexOutOfRange { index: i, len: self@.vectors.len() as usize },
            ),
    {
        if i < self.data_array_vector.len() {
            Ok(self.data_array_vector[i].get_id_code())
        } else {
            Err(IndexOutOfRange { index: i, len: self.data_array_vector.len() })
        }
    }

    /// The number of bits of the vector change at position `i`.
    pub fn get_data_array_vector_value_size(&self, i: usize) -> (r: Result<
        usize,
        IndexOutOfRange,
    >)
        ensures
            r == if i < self@.vectors.len() {
                Ok::<usize, IndexOutOfRange>(self@.vectors[i as int].1.len() as usize)
            } else {
                Err(IndexOutOfRange { index: i, len: self@.vectors.len() as usize })
            },
    {
        if i < self.data_array_vector.len() {
            Ok(self.data_array_vector[i].get_value_size())
        } else {
            Err(IndexOutOfRange { index: i, len: self.data_array_vector.len() })
        }
    }

    /// Bit `j` of the vector change at position `i`. Where `i` is out of
    /// range the error names `i`; otherwise, where `j` is, it names `j`.
    pub fn get_data_array_vector_value_data(&self, i: usize, j: usize) -> (r: Result<
        VcdValue,
        IndexOutOfRange,
    >)
        ensures
            r == if i >= self@.vectors.len() {
                Err::<VcdValue, IndexOutOfRange>(
                    IndexOutOfRange { index: i, len: self@.vectors.len() as usize },
                )
            } else if j >= self@.vectors[i as int].1.len() {
                Err(IndexOutOfRange { index: j, len: self@.vectors[i as int].1.len() as usize })
            } else {
                Ok(self@.vectors[i as int].1[j as int])
            },
    {
        if i < self.data_array_vector.len() {
            self.data_array_vector[i].get_value_data(j)
        } else {
            Err(IndexOutOfRange { index: i, len: self.data_array_vector.len() })
        }
    }

    pub fn get_data_array_real_size(&self) -> (r: usize)
        ensures
            r == self@.reals.len(),
    {
        self.data_array_real.len()
    }

    pub fn get_data_array_real_id_code(&self, i: usize) -> (r: Result<String, IndexOutOfRange>)
        ensures
            i < self@.reals.len() ==> r is Ok && r->Ok_0@ == self@.reals[i as int].0,
            i >= self@.reals.len() ==> r == Err::<String, IndexOutOfRange>(
                IndexOutOfRange { index: i, len: self@.reals.len() as usize },
            ),
    {
        if i < self.data_array_real.len() {
            Ok(self.data_array_real[i].get_id_code())
        } else {
            Err(IndexOutOfRange { index: i, len: self.data_array_real.len() })
        }
    }

    /// The IEEE 754 encoding of the real change at position `i`.
    pub fn get_data_array_real_value(&self, i: usize) -> (r: Result<u64, IndexOutOfRange>)
        ensures
            r == if i < self@.reals.len() {
                Ok::<u64, IndexOutOfRange>(self@.reals[i as int].1)
            } else {
                Err(IndexOutOfRange { index: i, len: self@.reals.len() as usize })
            },
    {
        if i < self.data_array_real.len() {
            Ok(self.data_array_real[i].get_value())
        } else {
            Err(IndexOutOfRange { index: i, len: self.data_array_real.len() })
        }
    }

    pub fn get_data_array_string_size(&self) -> (r: usize)
        ensures
            r == self@.strings.len(),
    {
        self.data_array_string.len()
    }

    pub fn get_data_array_string_id_code(&self, i: usize) -> (r: Result<String, IndexOutOfRange>)
        ensures
            i < self@.strings.len() ==> r is Ok && r->Ok_0@ == self@.strings[i as int].0,
            i >= self@.strings.len() ==> r == Err::<String, IndexOutOfRange>(
                IndexOutOfRange { index: i, len: self@.strings.len() as usize },
            ),
    {
        if i < self.data_array_string.len() {
            Ok(self.data_array_string[i].get_id_code())
        } else {
            Err(IndexOutOfRange { index: i, len: self.data_array_string.len() })
        }
    }

    pub fn get_data_array_string_value(&self, i: usize) -> (r: Result<String, IndexOutOfRange>)
        ensures
            i < self@.strings.len() ==> r is Ok && r->Ok_0@ == self@.strings[i as int].1,
            i >= self@.strings.len() ==> r == Err::<String, IndexOutOfRange>(
                IndexOutOfRange { index: i, len: self@.strings.len() as usize },
            ),
    {
        if i < self.data_array_string.len() {
            Ok(self.data_array_string[i].get_value())
        } else {
            Err(IndexOutOfRange { index: i, len: self.data_array_string.len() })
        }
    }
}

} // verus!
