//! The track-fragment-run record: its flag bits, the byte layout those bits
//! select, and the decoder that turns the layout into a `TrunAtom`.

use vstd::prelude::*;

use crate::bytes::be_u32_at;
use crate::bytes::sign_extend_to_i32;
use crate::bytes::sign_extended_32;
use crate::reader::ByteCursor;

verus! {

/// Flag bit: a signed data offset field follows the sample count.
pub const DATA_OFFSET_PRESENT: u32 = 0x1;

/// Flag bit: a flag-override field for the first sample follows the data
/// offset. Decoding such a record is not implemented.
pub const FIRST_SAMPLE_FLAGS_PRESENT: u32 = 0x4;

/// Flag bit: each per-sample row carries a duration field.
pub const SAMPLE_DURATION_PRESENT: u32 = 0x100;

/// Flag bit: each per-sample row carries a size field.
pub const SAMPLE_SIZE_PRESENT: u32 = 0x200;

/// Flag bit: each per-sample row carries a flags field.
pub const SAMPLE_FLAGS_PRESENT: u32 = 0x400;

/// Flag bit: each per-sample row carries a composition time offset field,
/// which is read and discarded.
pub const SAMPLE_COMPOSITION_TIME_OFFSETS_PRESENT: u32 = 0x800;

pub open spec fn data_offset_present(flags: u32) -> bool {
    flags & DATA_OFFSET_PRESENT != 0
}

pub open spec fn first_sample_flags_present(flags: u32) -> bool {
    flags & FIRST_SAMPLE_FLAGS_PRESENT != 0
}

pub open spec fn sample_duration_present(flags: u32) -> bool {
    flags & SAMPLE_DURATION_PRESENT != 0
}

pub open spec fn sample_size_present(flags: u32) -> bool {
    flags & SAMPLE_SIZE_PRESENT != 0
}

pub open spec fn sample_flags_present(flags: u32) -> bool {
    flags & SAMPLE_FLAGS_PRESENT != 0
}

pub open spec fn sample_composition_time_offsets_present(flags: u32) -> bool {
    flags & SAMPLE_COMPOSITION_TIME_OFFSETS_PRESENT != 0
}

/// Width in bytes of one per-sample row: four bytes for each field the flags
/// select, in the fixed order duration, size, flags, composition time offset.
pub open spec fn row_bytes(flags: u32) -> int {
    (if sample_duration_present(flags) {
        4int
    } else {
        0int
    }) + (if sample_size_present(flags) {
        4int
    } else {
        0int
    }) + (if sample_flags_present(flags) {
        4int
    } else {
        0int
    }) + (if sample_composition_time_offsets_present(flags) {
        4int
    } else {
        0int
    })
}

/// Width in bytes of the fields before the per-sample rows: the sample count,
/// plus the data offset when its bit is set.
pub open spec fn header_bytes(flags: u32) -> int {
    4int + (if data_offset_present(flags) {
        4int
    } else {
        0int
    })
}

/// The whole layout's width in bytes for a given flag set and sample count.
pub open spec fn required_bytes(flags: u32, sample_count: int) -> int {
    header_bytes(flags) + sample_count * row_bytes(flags)
}

/// Position of sample `i`'s row, for a record whose layout starts at `pos`.
pub open spec fn row_at(pos: int, flags: u32, i: int) -> int {
    pos + header_bytes(flags) + i * row_bytes(flags)
}

/// Offset of the size field within a row.
pub open spec fn size_field_offset(flags: u32) -> int {
    if sample_duration_present(flags) {
        4int
    } else {
        0int
    }
}

/// Offset of the flags field within a row.
pub open spec fn flags_field_offset(flags: u32) -> int {
    size_field_offset(flags) + (if sample_size_present(flags) {
        4int
    } else {
        0int
    })
}

/// The sum of a sequence of 32-bit values, as a mathematical integer.
pub open spec fn sum_u32(s: Seq<u32>) -> int
    decreases s.len(),
{
    if s.len() == 0 {
        0int
    } else {
        sum_u32(s.drop_last()) + s.last()
    }
}

/// Appending one value adds exactly that value to the sum.
pub proof fn lemma_sum_u32_push(s: Seq<u32>, v: u32)
    ensures
        sum_u32(s.push(v)) == sum_u32(s) + v,
{
    assert(s.push(v).drop_last() =~= s);
}

/// An empty run: with no samples, every per-sample column of a well-formed
/// record is empty, both totals are zero, and the layout occupies exactly the
/// four bytes of the sample count plus its optional header field.
pub proof fn lemma_empty_run(rec: TrunAtom)
    requires
        rec.wf(),
        rec.sample_count == 0,
    ensures
        rec.sample_duration@.len() == 0,
        rec.sample_size@.len() == 0,
        rec.sample_flags@.len() == 0,
        rec.total_sample_duration == 0,
        rec.total_sample_size == 0,
        required_bytes(rec.flags, 0) == 4 + if data_offset_present(rec.flags) {
            4int
        } else {
            0int
        },
{
}

/// Why a decode call failed. A failed call never yields a partially
/// populated record.
#[derive(Clone, Copy, Debug, PartialEq, Eq, Structural)]
pub enum DecodeFailure {
    /// The stream ended before the last byte the layout requires.
    Truncated,
    /// The first-sample-override bit and the per-sample-flags bit are both
    /// set; the format defines them as mutually exclusive.
    ConflictingFlags,
    /// The first-sample-override bit is set; decoding that layout is
    /// intentionally not implemented.
    UnsupportedFeature,
    /// The sample count calls for more bytes than the record declares.
    ResourceLimitExceeded,
}

/// When a decode of the layout at `pos` in `bytes` succeeds: the flags name
/// no first-sample override, the header fields are readable, the layout fits
/// the record's declared byte length, and its bytes are all present.
pub open spec fn decode_succeeds(bytes: Seq<u8>, pos: int, flags: u32, declared_len: u64) -> bool {
    &&& !first_sample_flags_present(flags)
    &&& pos + header_bytes(flags) <= bytes.len()
    &&& required_bytes(flags, be_u32_at(bytes, pos) as int) <= declared_len
    &&& pos + required_bytes(flags, be_u32_at(bytes, pos) as int) <= bytes.len()
}

/// How a decoded record relates to the layout at `pos` in `bytes`: the
/// sample count is the first field, the data offset is the sign-extended
/// field after it when its bit is set, and each present column holds, in
/// order, the fields of the per-sample rows.
pub open spec fn decoded_record(bytes: Seq<u8>, pos: int, flags: u32, rec: TrunAtom) -> bool {
    let count = be_u32_at(bytes, pos) as int;
    &&& rec.flags == flags
    &&& rec.sample_count == be_u32_at(bytes, pos)
    &&& rec.data_offset == (if data_offset_present(flags) {
        Some(sign_extended_32(be_u32_at(bytes, pos + 4)))
    } else {
        None::<i32>
    })
    &&& rec.first_sample_flags is None
    &&& (forall|i: int|
        0 <= i < count && sample_duration_present(flags) ==> rec.sample_duration@[i] == be_u32_at(
            bytes,
            row_at(pos, flags, i),
        ))
    &&& (forall|i: int|
        0 <= i < count && sample_size_present(flags) ==> rec.sample_size@[i] == be_u32_at(
            bytes,
            row_at(pos, flags, i) + size_field_offset(flags),
        ))
    &&& (forall|i: int|
        0 <= i < count && sample_flags_present(flags) ==> rec.sample_flags@[i] == be_u32_at(
            bytes,
            row_at(pos, flags, i) + flags_field_offset(flags),
        ))
}

/// One decoded track-fragment-run record: for each sample in the run, its
/// duration, size, and flags, as far as the record's flag bits say those
/// columns are present, plus the run's optional signed data offset.
#[derive(Debug)]
pub struct TrunAtom {
    /// Extended header flags, as handed in by the caller.
    pub flags: u32,
    /// Data offset of this run.
    pub data_offset: Option<i32>,
    /// Number of samples in this run.
    pub sample_count: u32,
    /// Sample flags for the first sample only.
    pub first_sample_flags: Option<u32>,
    /// Sample duration for each sample in this run.
    pub sample_duration: Vec<u32>,
    /// Sample size for each sample in this run.
    pub sample_size: Vec<u32>,
    /// Sample flags for each sample in this run.
    pub sample_flags: Vec<u32>,
    /// The total size of all samples in this run. 0 if the sample size flag
    /// is not set.
    pub total_sample_size: u64,
    /// The total duration of all samples in this run. 0 if the sample
    /// duration flag is not set.
    pub total_sample_duration: u64,
}

impl TrunAtom {
    /// The invariants every decoded record satisfies: each column's length is
    /// the sample count when its bit is set and zero otherwise, the totals
    /// are the column sums, the optional fields are present exactly when
    /// their bits are set, and the first-sample override never coexists with
    /// per-sample flags.
    pub open spec fn wf(self) -> bool {
        &&& self.sample_duration@.len() == if sample_duration_present(self.flags) {
            self.sample_count as int
        } else {
            0int
        }
        &&& self.sample_size@.len() == if sample_size_present(self.flags) {
            self.sample_count as int
        } else {
            0int
        }
        &&& self.sample_flags@.len() == if sample_flags_present(self.flags) {
            self.sample_count as int
        } else {
            0int
        }
        &&& self.total_sample_duration == sum_u32(self.sample_duration@)
        &&& self.total_sample_size == sum_u32(self.sample_size@)
        &&& self.data_offset is Some <==> data_offset_present(self.flags)
        &&& self.first_sample_flags is Some <==> first_sample_flags_present(self.flags)
        &&& !(first_sample_flags_present(self.flags) && sample_flags_present(self.flags))
    }

    /// Indicates if sample durations are provided.
    pub fn is_sample_duration_present(&self) -> (r: bool)
        ensures
            r == sample_duration_present(self.flags),
    {
        self.flags & SAMPLE_DURATION_PRESENT != 0
    }

    /// Indicates if sample sizes are provided.
    pub fn is_sample_size_present(&self) -> (r: bool)
        ensures
            r == sample_size_present(self.flags),
    {
        self.flags & SAMPLE_SIZE_PRESENT != 0
    }

    /// Indicates if sample flags are provided.
    pub fn are_sample_flags_present(&self) -> (r: bool)
        ensures
            r == sample_flags_present(self.flags),
    {
        self.flags & SAMPLE_FLAGS_PRESENT != 0
    }

    /// Indicates if sample composition time offsets are provided.
    pub fn are_sample_composition_time_offsets_present(&self) -> (r: bool)
        ensures
            r == sample_composition_time_offsets_present(self.flags),
    {
        self.flags & SAMPLE_COMPOSITION_TIME_OFFSETS_PRESENT != 0
    }

    /// Decodes one track-fragment-run record from `reader`, which must stand
    /// immediately after the record's extended header. `flags` is the 32-bit
    /// value of that header; `declared_len` is the byte length the record
    /// declares for everything after the extended header, and bounds the
    /// sample count before the per-sample columns are filled.
    ///
    /// On success the reader stands exactly past the layout's last byte; on
    /// failure no record is produced. Composition time offsets are read and
    /// discarded.
    #[verifier::rlimit(50)]
    pub fn decode(reader: &mut ByteCursor, flags: u32, declared_len: u64) -> (r: Result<
        TrunAtom,
        DecodeFailure,
    >)
        ensures
            final(reader).bytes() == old(reader).bytes(),
            match r {
                Ok(rec) => {
                    &&& decode_succeeds(old(reader).bytes(), old(reader).position(), flags, declared_len)
                    &&& rec.wf()
                    &&& decoded_record(old(reader).bytes(), old(reader).position(), flags, rec)
                    &&& final(reader).position() == old(reader).position() + required_bytes(
                        flags,
                        be_u32_at(old(reader).bytes(), old(reader).position()) as int,
                    )
                },
                Err(e) => {
                    let bytes = old(reader).bytes();
                    let pos = old(reader).position();
                    let count = be_u32_at(bytes, pos) as int;
                    &&& !decode_succeeds(bytes, pos, flags, declared_len)
                    &&& (e == DecodeFailure::ConflictingFlags <==> first_sample_flags_present(flags)
                        && sample_flags_present(flags))
                    &&& (e == DecodeFailure::UnsupportedFeature <==> first_sample_flags_present(
                        flags,
                    ) && !sample_flags_present(flags))
                    &&& (e == DecodeFailure::ResourceLimitExceeded <==> {
                        &&& !first_sample_flags_present(flags)
                        &&& pos + header_bytes(flags) <= bytes.len()
                        &&& required_bytes(flags, count) > declared_len
                    })
                    &&& (e == DecodeFailure::Truncated <==> {
                        &&& !first_sample_flags_present(flags)
                        &&& (pos + header_bytes(flags) > bytes.len() || {
                            &&& required_bytes(flags, count) <= declared_len
                            &&& pos + required_bytes(flags, count) > bytes.len()
                        })
                    })
                },
            },
    {
        let ghost bytes0 = reader.bytes();
        let ghost p0 = reader.position();

        if flags & FIRST_SAMPLE_FLAGS_PRESENT != 0 {
            // The override applies only to sample 0; later samples must take
            // defaults from sibling records, so both bits together violate
            // the format.
            if flags & SAMPLE_FLAGS_PRESENT != 0 {
                return Err(DecodeFailure::ConflictingFlags);
            }
            return Err(DecodeFailure::UnsupportedFeature);
        }

        let sample_count = match reader.read_be_u32() {
            Some(v) => v,
            None => {
                return Err(DecodeFailure::Truncated);
            },
        };

        let data_offset = if flags & DATA_OFFSET_PRESENT != 0 {
            match reader.read_be_u32() {
                Some(v) => Some(sign_extend_to_i32(v)),
                None => {
                    return Err(DecodeFailure::Truncated);
                },
            }
        } else {
            None
        };

        let dur = flags & SAMPLE_DURATION_PRESENT != 0;
        let siz = flags & SAMPLE_SIZE_PRESENT != 0;
        let sfl = flags & SAMPLE_FLAGS_PRESENT != 0;
        let cto = flags & SAMPLE_COMPOSITION_TIME_OFFSETS_PRESENT != 0;

        let row: u64 = (if dur {
            4u64
        } else {
            0u64
        }) + (if siz {
            4u64
        } else {
            0u64
        }) + (if sfl {
            4u64
        } else {
            0u64
        }) + (if cto {
            4u64
        } else {
            0u64
        });
        let header: u64 = if data_offset.is_some() {
            8u64
        } else {
            4u64
        };
        assert(row == row_bytes(flags) && header == header_bytes(flags));
        assert((sample_count as int) * (row as int) <= 0xFFFF_FFFF * 16) by (nonlinear_arith)
            requires
                sample_count <= 0xFFFF_FFFFu32,
                0 <= row <= 16,
        ;
        let required: u64 = header + (sample_count as u64) * row;

        if required > declared_len {
            return Err(DecodeFailure::ResourceLimitExceeded);
        }
        if (sample_count as u64) * row > reader.remaining() {
            return Err(DecodeFailure::Truncated);
        }

        let mut sample_duration: Vec<u32> = Vec::new();
        let mut sample_size: Vec<u32> = Vec::new();
        let mut sample_flags: Vec<u32> = Vec::new();
        let mut total_sample_duration: u64 = 0;
        let mut total_sample_size: u64 = 0;

        if row > 0 {
            proof {
                assert(0 * row_bytes(flags) == 0) by (nonlinear_arith);
                assert(reader.position() == p0 + header_bytes(flags));
                assert(row_at(p0, flags, 0) == p0 + header_bytes(flags));
            }
            let mut i: u32 = 0;
            while i < sample_count
                invariant
                    0 <= i <= sample_count,
                    reader.bytes() == bytes0,
                    p0 + 4 <= bytes0.len(),
                    sample_count == be_u32_at(bytes0, p0),
                    dur == sample_duration_present(flags),
                    siz == sample_size_present(flags),
                    sfl == sample_flags_present(flags),
                    cto == sample_composition_time_offsets_present(flags),
                    row == row_bytes(flags),
                    header == header_bytes(flags),
                    row > 0,
                    p0 + required_bytes(flags, sample_count as int) <= bytes0.len(),
                    reader.position() == row_at(p0, flags, i as int),
                    sample_duration@.len() == if dur {
                        i as int
                    } else {
                        0int
                    },
                    sample_size@.len() == if siz {
                        i as int
                    } else {
                        0int
                    },
                    sample_flags@.len() == if sfl {
                        i as int
                    } else {
                        0int
                    },
                    forall|j: int|
                        0 <= j < i && dur ==> sample_duration@[j] == be_u32_at(
                            bytes0,
                            row_at(p0, flags, j),
                        ),
                    forall|j: int|
                        0 <= j < i && siz ==> sample_size@[j] == be_u32_at(
                            bytes0,
                            row_at(p0, flags, j) + size_field_offset(flags),
                        ),
                    forall|j: int|
                        0 <= j < i && sfl ==> sample_flags@[j] == be_u32_at(
                            bytes0,
                            row_at(p0, flags, j) + flags_field_offset(flags),
                        ),
                    total_sample_duration == sum_u32(sample_duration@),
                    total_sample_size == sum_u32(sample_size@),
                    total_sample_duration <= (i as int) * 0xFFFF_FFFF,
                    total_sample_size <= (i as int) * 0xFFFF_FFFF,
                decreases sample_count - i,
            {
                proof {
                    assert((i as int + 1) * row_bytes(flags) <= (sample_count as int) * row_bytes(
                        flags,
                    )) by (nonlinear_arith)
                        requires
                            i < sample_count,
                            row_bytes(flags) >= 0,
                    ;
                    assert((i as int + 1) * row_bytes(flags) == (i as int) * row_bytes(flags)
                        + row_bytes(flags)) by (nonlinear_arith);
                }
                assert(row_at(p0, flags, i as int) + row_bytes(flags) <= bytes0.len());

                if dur {
                    let d = match reader.read_be_u32() {
                        Some(v) => v,
                        None => {
                            return Err(DecodeFailure::Truncated);
                        },
                    };
                    proof {
                        lemma_sum_u32_push(sample_duration@, d);
                    }
                    total_sample_duration = total_sample_duration + d as u64;
                    sample_duration.push(d);
                }
                if siz {
                    let s = match reader.read_be_u32() {
                        Some(v) => v,
                        None => {
                            return Err(DecodeFailure::Truncated);
                        },
                    };
                    proof {
                        lemma_sum_u32_push(sample_size@, s);
                    }
                    total_sample_size = total_sample_size + s as u64;
                    sample_size.push(s);
                }
                if sfl {
                    let f = match reader.read_be_u32() {
                        Some(v) => v,
                        None => {
                            return Err(DecodeFailure::Truncated);
                        },
                    };
                    sample_flags.push(f);
                }
                if cto {
                    // For version 0 this field is unsigned, for later
                    // versions signed; the value is discarded either way.
                    let _ = match reader.read_be_u32() {
                        Some(v) => v,
                        None => {
                            return Err(DecodeFailure::Truncated);
                        },
                    };
                }
                i = i + 1;
            }
        }

        proof {
            assert((sample_count as int) * row_bytes(flags) == (sample_count as int) * (
            row as int)) by (nonlinear_arith)
                requires
                    row == row_bytes(flags),
            ;
            if row == 0 {
                assert((sample_count as int) * (row as int) == 0) by (nonlinear_arith)
                    requires
                        row == 0u64,
                ;
            }
            assert(reader.position() == p0 + required_bytes(flags, sample_count as int));
            assert(decode_succeeds(bytes0, p0, flags, declared_len));
        }

        let rec = TrunAtom {
            flags,
            data_offset,
            sample_count,
            first_sample_flags: None,
            sample_duration,
            sample_size,
            sample_flags,
            total_sample_size,
            total_sample_duration,
        };
        assert(rec.wf());
        assert(decoded_record(bytes0, p0, flags, rec));
        Ok(rec)
    }
}

} // verus!
