//! The header that precedes a flexible tensor, and what can be read off it.

use vstd::prelude::*;

use crate::bytes::{law_le32_inverts_writing, le32, low_bytes, read_le32};
use crate::text::decimal_text;

verus! {

/// The most dimensions a tensor has.
pub const NNS_TENSOR_RANK_LIMIT: usize = 8;

/// The number every tensor header starts with.
pub const TENSOR_META_MAGIC: u32 = 0xfeed_cced;

/// Version 1.0 of the header, as [`make_tensor_meta_version`] encodes it.
pub const TENSOR_META_VERSION: u32 = 0xde00_1000;

/// The bytes that a [`TensorMetaInfo`] takes at the start of a buffer.
pub const TENSOR_META_SIZE: usize = 56;

/// The bytes that a valid header of version 1.0 takes, padding and all.
pub const TENSOR_META_V1_HEADER_SIZE: usize = 128;

/// The extent of a tensor in each dimension; a zero ends the list.
pub type TensorDim = [u32; NNS_TENSOR_RANK_LIMIT];

/// The code of a header version.
pub open spec fn meta_version(major: u32, minor: u32) -> u32 {
    (major << 12) | minor | 0xde00_0000
}

/// Encodes a header version: the minor number in the low twelve bits, the
/// major number above it, and a fixed pattern at the top.
pub fn make_tensor_meta_version(major: u32, minor: u32) -> (r: u32)
    ensures
        r == meta_version(major, minor),
{
    (major << 12) | minor | 0xde00_0000
}

/// The type of a tensor's elements.
#[derive(Debug, PartialEq, Eq, Structural, Clone, Copy)]
pub enum TensorType {
    Int32,
    UInt32,
    Int16,
    UInt16,
    Int8,
    UInt8,
    Float64,
    Float32,
    Int64,
    UInt64,
    Float16,
    End,
}

impl TensorType {
    /// The name of the type; the end marker has none.
    pub open spec fn name(self) -> Option<Seq<char>> {
        match self {
            TensorType::Int32 => Some("int32"@),
            TensorType::UInt32 => Some("uint32"@),
            TensorType::Int16 => Some("int16"@),
            TensorType::UInt16 => Some("uint16"@),
            TensorType::Int8 => Some("int8"@),
            TensorType::UInt8 => Some("uint8"@),
            TensorType::Float64 => Some("float64"@),
            TensorType::Float32 => Some("float32"@),
            TensorType::Int64 => Some("int64"@),
            TensorType::UInt64 => Some("uint64"@),
            TensorType::Float16 => Some("float16"@),
            TensorType::End => None,
        }
    }

    /// The bits that one element takes.
    pub open spec fn bits(self) -> int {
        match self {
            TensorType::Int8 | TensorType::UInt8 => 8,
            TensorType::Int16 | TensorType::UInt16 | TensorType::Float16 => 16,
            TensorType::Int32 | TensorType::UInt32 | TensorType::Float32 => 32,
            TensorType::Int64 | TensorType::UInt64 | TensorType::Float64 => 64,
            TensorType::End => 0,
        }
    }

    /// The number that stands for the type in a header.
    pub open spec fn code(self) -> u32 {
        match self {
            TensorType::Int32 => 0,
            TensorType::UInt32 => 1,
            TensorType::Int16 => 2,
            TensorType::UInt16 => 3,
            TensorType::Int8 => 4,
            TensorType::UInt8 => 5,
            TensorType::Float64 => 6,
            TensorType::Float32 => 7,
            TensorType::Int64 => 8,
            TensorType::UInt64 => 9,
            TensorType::Float16 => 10,
            TensorType::End => 11,
        }
    }

    /// The name of the type; the end marker has none.
    pub fn typename(&self) -> (r: Option<&'static str>)
        ensures
            match r {
                Some(s) => self.name() == Some(s@),
                None => self.name() is None,
            },
    {
        match self {
            TensorType::Int32 => Some("int32"),
            TensorType::UInt32 => Some("uint32"),
            TensorType::Int16 => Some("int16"),
            TensorType::UInt16 => Some("uint16"),
            TensorType::Int8 => Some("int8"),
            TensorType::UInt8 => Some("uint8"),
            TensorType::Float64 => Some("float64"),
            TensorType::Float32 => Some("float32"),
            TensorType::Int64 => Some("int64"),
            TensorType::UInt64 => Some("uint64"),
            TensorType::Float16 => Some("float16"),
            TensorType::End => None,
        }
    }

    /// The bytes that one element takes.
    pub fn element_size(&self) -> (r: usize)
        ensures
            r * 8 == self.bits(),
    {
        match self {
            TensorType::Int32 | TensorType::UInt32 | TensorType::Float32 => 4,
            TensorType::Int16 | TensorType::UInt16 | TensorType::Float16 => 2,
            TensorType::Int8 | TensorType::UInt8 => 1,
            TensorType::Float64 | TensorType::Int64 | TensorType::UInt64 => 8,
            TensorType::End => 0,
        }
    }

    /// The type that a number in a header stands for.
    pub fn from_code(code: u32) -> (r: Option<TensorType>)
        ensures
            match r {
                Some(t) => t.code() == code,
                None => forall|t: TensorType| t.code() != code,
            },
    {
        match code {
            0 => Some(TensorType::Int32),
            1 => Some(TensorType::UInt32),
            2 => Some(TensorType::Int16),
            3 => Some(TensorType::UInt16),
            4 => Some(TensorType::Int8),
            5 => Some(TensorType::UInt8),
            6 => Some(TensorType::Float64),
            7 => Some(TensorType::Float32),
            8 => Some(TensorType::Int64),
            9 => Some(TensorType::UInt64),
            10 => Some(TensorType::Float16),
            11 => Some(TensorType::End),
            _ => None,
        }
    }
}

/// What a tensor was made from.
#[derive(Debug, PartialEq, Eq, Structural, Clone, Copy)]
pub enum MediaType {
    Video,
    Audio,
    Text,
    Octet,
    Tensor,
    Any,
}

impl MediaType {
    /// The number that stands for the media type in a header.
    pub open spec fn code(self) -> u32 {
        match self {
            MediaType::Video => 0,
            MediaType::Audio => 1,
            MediaType::Text => 2,
            MediaType::Octet => 3,
            MediaType::Tensor => 4,
            MediaType::Any => 0x1000,
        }
    }

    /// The media type that a number in a header stands for.
    pub fn from_code(code: u32) -> (r: Option<MediaType>)
        ensures
            match r {
                Some(m) => m.code() == code,
                None => forall|m: MediaType| m.code() != code,
            },
    {
        match code {
            0 => Some(MediaType::Video),
            1 => Some(MediaType::Audio),
            2 => Some(MediaType::Text),
            3 => Some(MediaType::Octet),
            4 => Some(MediaType::Tensor),
            0x1000 => Some(MediaType::Any),
            _ => None,
        }
    }
}

/// How the elements of a tensor are stored.
#[derive(Debug, PartialEq, Eq, Structural, Clone, Copy)]
pub enum TensorFormat {
    Static,
    Flexible,
    Sparse,
    End,
}

impl TensorFormat {
    /// The number that stands for the format in a header.
    pub open spec fn code(self) -> u32 {
        match self {
            TensorFormat::Static => 0,
            TensorFormat::Flexible => 1,
            TensorFormat::Sparse => 2,
            TensorFormat::End => 3,
        }
    }

    /// The format that a number in a header stands for.
    pub fn from_code(code: u32) -> (r: Option<TensorFormat>)
        ensures
            match r {
                Some(f) => f.code() == code,
                None => forall|f: TensorFormat| f.code() != code,
            },
    {
        match code {
            0 => Some(TensorFormat::Static),
            1 => Some(TensorFormat::Flexible),
            2 => Some(TensorFormat::Sparse),
            3 => Some(TensorFormat::End),
            _ => None,
        }
    }
}

/// The order of a tensor's dimensions.
#[derive(Debug, PartialEq, Eq, Structural, Clone, Copy)]
pub enum TensorLayout {
    Any,
    Nhwc,
    Nchw,
    Unspecified,
}

/// The product of the dimensions before the first zero.
pub open spec fn leading_product(dim: Seq<u32>) -> nat
    decreases dim.len(),
{
    if dim.len() == 0 || dim[0] == 0 {
        1
    } else {
        dim[0] as nat * leading_product(dim.drop_first())
    }
}

proof fn lemma_leading_product_positive(dim: Seq<u32>)
    ensures
        leading_product(dim) >= 1,
    decreases dim.len(),
{
    if dim.len() > 0 && dim[0] != 0 {
        lemma_leading_product_positive(dim.drop_first());
        let rest = leading_product(dim.drop_first());
        assert(dim[0] as nat * rest >= 1) by (nonlinear_arith)
            requires
                dim[0] >= 1,
                rest >= 1,
        ;
    }
}

/// The number of elements of a tensor with the given extents. A tensor with a
/// single element, or with none, counts as empty.
pub fn tensor_get_element_count(dim: &[u32; NNS_TENSOR_RANK_LIMIT]) -> (r: u64)
    requires
        leading_product(dim@) <= u64::MAX,
    ensures
        r == if leading_product(dim@) > 1 {
            leading_product(dim@)
        } else {
            0
        },
{
    let mut count: u64 = 1;
    let mut i: usize = 0;
    proof {
        assert(dim@.skip(0) =~= dim@);
    }
    while i < NNS_TENSOR_RANK_LIMIT && dim[i] != 0
        invariant
            i <= NNS_TENSOR_RANK_LIMIT,
            dim@.len() == NNS_TENSOR_RANK_LIMIT,
            leading_product(dim@) <= u64::MAX,
            count * leading_product(dim@.skip(i as int)) == leading_product(dim@),
        decreases NNS_TENSOR_RANK_LIMIT - i,
    {
        let d: u32 = dim[i];
        proof {
            let tail = dim@.skip(i as int);
            let rest = leading_product(tail.drop_first());
            assert(tail.drop_first() =~= dim@.skip(i + 1));
            lemma_leading_product_positive(tail.drop_first());
            assert(count * (d * rest) == (count * d) * rest) by (nonlinear_arith);
            assert(count * d <= (count * d) * rest) by (nonlinear_arith)
                requires
                    rest >= 1,
                    count * d >= 0,
            ;
        }
        count = count * d as u64;
        i = i + 1;
    }
    proof {
        assert(leading_product(dim@.skip(i as int)) == 1);
        assert(count * 1 == count) by (nonlinear_arith);
    }
    if count > 1 {
        count
    } else {
        0
    }
}

/// Why a tensor header was refused.
#[derive(Debug, PartialEq, Eq, Structural, Clone, Copy)]
pub enum TensorMetaError {
    InvalidMeta,
}

/// The header of a tensor.
#[derive(Debug, Clone, Copy)]
pub struct TensorMetaInfo {
    pub magic: u32,
    pub version: u32,
    pub tensor_type: TensorType,
    pub dimension: TensorDim,
    pub format: TensorFormat,
    pub media_type: MediaType,
    pub nnz: u32,
}

impl Default for TensorMetaInfo {
    fn default() -> (r: TensorMetaInfo)
        ensures
            r.magic == TENSOR_META_MAGIC,
            r.version == TENSOR_META_VERSION,
            r.tensor_type == TensorType::End,
            forall|i: int| 0 <= i < NNS_TENSOR_RANK_LIMIT ==> r.dimension@[i] == 0,
            r.format == TensorFormat::Static,
            r.media_type == MediaType::Tensor,
            r.nnz == 0,
    {
        TensorMetaInfo {
            magic: TENSOR_META_MAGIC,
            version: TENSOR_META_VERSION,
            tensor_type: TensorType::End,
            dimension: [0, 0, 0, 0, 0, 0, 0, 0],
            format: TensorFormat::Static,
            media_type: MediaType::Tensor,
            nnz: 0,
        }
    }
}

/// Whether the bytes start with no header at all.
pub open spec fn holds_no_header(data: Seq<u8>) -> bool {
    forall|meta: TensorMetaInfo| !meta.encoded_at_start(data)
}

impl TensorMetaInfo {
    /// Whether the version holds the fixed pattern of a header version.
    pub open spec fn version_marked(self) -> bool {
        self.version & 0xde00_0000 == 0xde00_0000
    }

    /// Whether this is a tensor header at all.
    pub open spec fn valid(self) -> bool {
        self.magic == TENSOR_META_MAGIC && self.version_marked()
    }

    /// The bytes from the start of the header to the first element.
    pub open spec fn header_size(self) -> int {
        if self.valid() && self.version == TENSOR_META_VERSION {
            TENSOR_META_V1_HEADER_SIZE as int
        } else {
            0
        }
    }

    /// Whether the bytes start with this header.
    pub open spec fn encoded_at_start(self, data: Seq<u8>) -> bool {
        &&& data.len() >= TENSOR_META_SIZE
        &&& self.magic == le32(data, 0)
        &&& self.version == le32(data, 4)
        &&& self.tensor_type.code() == le32(data, 8)
        &&& forall|i: int|
            0 <= i < NNS_TENSOR_RANK_LIMIT ==> self.dimension@[i] == le32(data, 12 + 4 * i)
        &&& self.format.code() == le32(data, 44)
        &&& self.media_type.code() == le32(data, 48)
        &&& self.nnz == le32(data, 52)
    }

    /// Whether the version holds the fixed pattern of a header version.
    pub fn is_version_valid(&self) -> (r: bool)
        ensures
            r == self.version_marked(),
    {
        (self.version & 0xde00_0000) == 0xde00_0000
    }

    /// Whether this is a tensor header at all.
    pub fn is_valid(&self) -> (r: bool)
        ensures
            r == self.valid(),
    {
        self.magic == TENSOR_META_MAGIC && self.is_version_valid()
    }

    /// The major and the minor version of a valid header.
    pub fn get_version(&self) -> (r: Result<(u32, u32), TensorMetaError>)
        ensures
            r == if self.valid() {
                Ok::<(u32, u32), TensorMetaError>(
                    ((self.version / 0x1000) % 0x1000, self.version % 0x1000),
                )
            } else {
                Err(TensorMetaError::InvalidMeta)
            },
    {
        if !self.is_valid() {
            return Err(TensorMetaError::InvalidMeta);
        }
        let version: u32 = self.version;
        let major: u32 = (version & 0x00ff_f000) >> 12;
        let minor: u32 = version & 0x0000_0fff;
        proof {
            assert((version & 0x00ff_f000) >> 12 == (version / 0x1000) % 0x1000) by (bit_vector);
            assert(version & 0x0000_0fff == version % 0x1000) by (bit_vector);
        }
        Ok((major, minor))
    }

    /// The bytes from the start of the header to the first element: a fixed
    /// number for a valid header of version 1.0, and none for any other.
    pub fn get_header_size(&self) -> (r: usize)
        ensures
            r == self.header_size(),
    {
        if !self.is_valid() {
            return 0;
        }
        if self.version == TENSOR_META_VERSION {
            return TENSOR_META_V1_HEADER_SIZE;
        }
        0
    }

    /// Reads the header at the start of a buffer: `None` where the buffer is
    /// too short for one, or where a field holds a number that stands for
    /// nothing.
    pub fn read(data: &[u8]) -> (r: Option<TensorMetaInfo>)
        ensures
            match r {
                Some(meta) => meta.encoded_at_start(data@),
                None => holds_no_header(data@),
            },
    {
        if data.len() < TENSOR_META_SIZE {
            return None;
        }
        let tensor_type = TensorType::from_code(read_le32(data, 8));
        let format = TensorFormat::from_code(read_le32(data, 44));
        let media_type = MediaType::from_code(read_le32(data, 48));
        match (tensor_type, format, media_type) {
            (Some(tensor_type), Some(format), Some(media_type)) => {
                let dimension: TensorDim = [
                    read_le32(data, 12),
                    read_le32(data, 16),
                    read_le32(data, 20),
                    read_le32(data, 24),
                    read_le32(data, 28),
                    read_le32(data, 32),
                    read_le32(data, 36),
                    read_le32(data, 40),
                ];
                Some(
                    TensorMetaInfo {
                        magic: read_le32(data, 0),
                        version: read_le32(data, 4),
                        tensor_type,
                        dimension,
                        format,
                        media_type,
                        nnz: read_le32(data, 52),
                    },
                )
            },
            _ => None,
        }
    }
}

/// Version 1.0 is what [`TENSOR_META_VERSION`] holds.
pub proof fn law_meta_version_constant()
    ensures
        meta_version(1, 0) == TENSOR_META_VERSION,
{
    assert((1u32 << 12) | 0u32 | 0xde00_0000u32 == 0xde00_1000u32) by (bit_vector);
}

/// A valid header gives back the version that was encoded in it, as long as
/// each number fits its twelve bits.
pub proof fn law_version_round_trip(meta: TensorMetaInfo, major: u32, minor: u32)
    requires
        major < 0x1000,
        minor < 0x1000,
        meta.magic == TENSOR_META_MAGIC,
        meta.version == meta_version(major, minor),
    ensures
        meta.valid(),
        (meta.version / 0x1000) % 0x1000 == major,
        meta.version % 0x1000 == minor,
        meta.header_size() == TENSOR_META_V1_HEADER_SIZE <==> major == 1 && minor == 0,
{
    law_meta_version_constant();
    let v = meta.version;
    assert(v & 0xde00_0000 == 0xde00_0000 && (v / 0x1000) % 0x1000 == major && v % 0x1000 == minor)
        by (bit_vector)
        requires
            major < 0x1000,
            minor < 0x1000,
            v == (major << 12) | minor | 0xde00_0000,
    ;
}

/// The header that a new tensor starts with is valid, and is of version 1.0.
pub proof fn law_default_meta_valid(meta: TensorMetaInfo)
    requires
        meta.magic == TENSOR_META_MAGIC,
        meta.version == TENSOR_META_VERSION,
    ensures
        meta.valid(),
        meta.header_size() == TENSOR_META_V1_HEADER_SIZE,
{
    assert(0xde00_1000u32 & 0xde00_0000u32 == 0xde00_0000u32) by (bit_vector);
}

/// A buffer starts with at most one header.
pub proof fn law_header_is_unique(a: TensorMetaInfo, b: TensorMetaInfo, data: Seq<u8>)
    requires
        a.encoded_at_start(data),
        b.encoded_at_start(data),
    ensures
        a.magic == b.magic,
        a.version == b.version,
        a.tensor_type == b.tensor_type,
        a.dimension@ == b.dimension@,
        a.format == b.format,
        a.media_type == b.media_type,
        a.nnz == b.nnz,
{
    assert(a.dimension@ =~= b.dimension@);
}

/// The name of a type is its family and the bits of an element: an unsigned
/// type is called like the signed one of the same size with a `u` in front,
/// and a float of any size `float`.
pub proof fn law_type_names(t: TensorType)
    ensures
        t != TensorType::End ==> {
            &&& t.name() is Some
            &&& t.name()->0 == match t {
                TensorType::Int8 | TensorType::Int16 | TensorType::Int32 | TensorType::Int64 =>
                    "int"@,
                TensorType::UInt8 | TensorType::UInt16 | TensorType::UInt32 | TensorType::UInt64 =>
                    "uint"@,
                _ => "float"@,
            } + decimal_text(t.bits() as nat)
        },
        t.name() is None <==> t == TensorType::End,
        t.bits() == match t {
            TensorType::Int8 | TensorType::UInt8 => 8int,
            TensorType::Int16 | TensorType::UInt16 | TensorType::Float16 => 16,
            TensorType::Int32 | TensorType::UInt32 | TensorType::Float32 => 32,
            TensorType::Int64 | TensorType::UInt64 | TensorType::Float64 => 64,
            TensorType::End => 0,
        },
{
    reveal_strlit("int");
    reveal_strlit("uint");
    reveal_strlit("float");
    reveal_strlit("int8");
    reveal_strlit("int16");
    reveal_strlit("int32");
    reveal_strlit("int64");
    reveal_strlit("uint8");
    reveal_strlit("uint16");
    reveal_strlit("uint32");
    reveal_strlit("uint64");
    reveal_strlit("float16");
    reveal_strlit("float32");
    reveal_strlit("float64");
    reveal_with_fuel(decimal_text, 3);
    if t != TensorType::End {
        assert(decimal_text(8) =~= seq!['8']);
        assert(decimal_text(16) =~= seq!['1', '6']);
        assert(decimal_text(32) =~= seq!['3', '2']);
        assert(decimal_text(64) =~= seq!['6', '4']);
        let family = match t {
            TensorType::Int8 | TensorType::Int16 | TensorType::Int32 | TensorType::Int64 => "int"@,
            TensorType::UInt8 | TensorType::UInt16 | TensorType::UInt32 | TensorType::UInt64 =>
                "uint"@,
            _ => "float"@,
        };
        assert(t.name()->0 =~= family + decimal_text(t.bits() as nat));
    }
}

/// The codes in a header count the types, the formats and the media from zero
/// in the order in which they are listed, but for the medium that stands for
/// any, which is 4096.
pub proof fn law_codes_count_up()
    ensures
        seq![
            TensorType::Int32.code(),
            TensorType::UInt32.code(),
            TensorType::Int16.code(),
            TensorType::UInt16.code(),
            TensorType::Int8.code(),
            TensorType::UInt8.code(),
            TensorType::Float64.code(),
            TensorType::Float32.code(),
            TensorType::Int64.code(),
            TensorType::UInt64.code(),
            TensorType::Float16.code(),
            TensorType::End.code(),
        ] == Seq::new(12, |i: int| i as u32),
        seq![
            TensorFormat::Static.code(),
            TensorFormat::Flexible.code(),
            TensorFormat::Sparse.code(),
            TensorFormat::End.code(),
        ] == Seq::new(4, |i: int| i as u32),
        seq![
            MediaType::Video.code(),
            MediaType::Audio.code(),
            MediaType::Text.code(),
            MediaType::Octet.code(),
            MediaType::Tensor.code(),
        ] == Seq::new(5, |i: int| i as u32),
        MediaType::Any.code() == 4096,
{
}

/// A zero ends the dimensions: what follows it does not count. Dimensions
/// before it multiply.
pub proof fn law_dimensions_multiply(first: Seq<u32>, second: Seq<u32>, rest: Seq<u32>)
    requires
        forall|i: int| 0 <= i < first.len() ==> #[trigger] first[i] != 0,
    ensures
        leading_product(first + second) == leading_product(first) * leading_product(second),
        leading_product(first + seq![0u32] + rest) == leading_product(first),
        first.len() == 1 ==> leading_product(first) == first[0],
        first.len() == 0 ==> leading_product(first) == 1,
    decreases first.len(),
{
    if first.len() == 0 {
        assert(first + second =~= second);
        let b = leading_product(second) as int;
        assert(1 * b == b) by (nonlinear_arith);
        assert((first + seq![0u32] + rest)[0] == 0);
    } else {
        let tail = first.drop_first();
        assert forall|i: int| 0 <= i < tail.len() implies #[trigger] tail[i] != 0 by {
            assert(tail[i] == first[i + 1]);
        }
        law_dimensions_multiply(tail, second, rest);
        assert((first + second).drop_first() =~= tail + second);
        assert((first + seq![0u32] + rest).drop_first() =~= tail + seq![0u32] + rest);
        let d = first[0] as int;
        let a = leading_product(tail) as int;
        let b = leading_product(second) as int;
        assert(d * (a * b) == (d * a) * b) by (nonlinear_arith);
        assert(leading_product(first + second) == d * (a * b));
        if first.len() == 1 {
            assert(d * 1 == d) by (nonlinear_arith);
        }
    }
}

/// A header as bytes: fourteen numbers of four bytes each, least significant
/// byte first.
pub open spec fn header_words(meta: TensorMetaInfo) -> Seq<u32> {
    seq![meta.magic, meta.version, meta.tensor_type.code()] + meta.dimension@ + seq![
        meta.format.code(),
        meta.media_type.code(),
        meta.nnz,
    ]
}

/// Reading a header inverts writing it: a buffer that starts with the fourteen
/// numbers of a header starts with that header.
pub proof fn law_header_reads_what_was_written(meta: TensorMetaInfo, data: Seq<u8>)
    requires
        data.len() >= 56,
        forall|k: int|
            0 <= k < 14 ==> data.subrange(4 * k, 4 * k + 4) == low_bytes(
                (#[trigger] header_words(meta)[k]) as nat,
                4,
            ),
    ensures
        meta.encoded_at_start(data),
{
    let words = header_words(meta);
    assert forall|k: int| 0 <= k < 14 implies le32(data, 4 * k) == #[trigger] words[k] by {
        assert(data.subrange(4 * k, 4 * k + 4) == low_bytes(words[k] as nat, 4));
        law_le32_inverts_writing(data, 4 * k, words[k]);
    }
    assert(le32(data, 0) == words[0]);
    assert(le32(data, 4) == words[1]);
    assert(le32(data, 8) == words[2]);
    assert(le32(data, 44) == words[11]);
    assert(le32(data, 48) == words[12]);
    assert(le32(data, 52) == words[13]);
    assert forall|i: int| 0 <= i < NNS_TENSOR_RANK_LIMIT implies meta.dimension@[i] == le32(
        data,
        12 + 4 * i,
    ) by {
        assert(le32(data, 4 * (i + 3)) == words[i + 3]);
    }
}

/// The elements follow 128 bytes after the start of a header of version 1.0,
/// by its two numbers, and right at the start of anything else.
pub proof fn law_header_size(meta: TensorMetaInfo)
    ensures
        meta.header_size() == if meta.magic == 4276997357 && meta.version == 3724546048 {
            128int
        } else {
            0
        },
{
    assert(0xde00_1000u32 & 0xde00_0000u32 == 0xde00_0000u32) by (bit_vector);
}

/// The elements of a tensor are counted by multiplying its dimensions up to the
/// first zero; one element, or none, counts as no elements.
pub proof fn law_elements_are_counted(dim: &[u32; NNS_TENSOR_RANK_LIMIT], count: u64)
    requires
        leading_product(dim@) <= u64::MAX,
        call_ensures(tensor_get_element_count, (dim,), count),
    ensures
        dim@[0] == 0 ==> count == 0,
        dim@[0] == 1 && dim@[1] == 0 ==> count == 0,
        dim@[0] > 1 && dim@[1] == 0 ==> count == dim@[0],
        dim@[0] > 1 && dim@[1] > 0 && dim@[2] == 0 ==> count == dim@[0] * dim@[1],
        leading_product(dim@) > 1 ==> count == leading_product(dim@),
        count != 1,
{
    reveal_with_fuel(leading_product, 4);
    let a = dim@[0] as int;
    let b = dim@[1] as int;
    let one = dim@.drop_first();
    let two = one.drop_first();
    assert(one[0] == dim@[1] && two[0] == dim@[2]);
    assert(a * 1 == a) by (nonlinear_arith);
    assert(a * (b * 1) == a * b) by (nonlinear_arith);
    if a > 1 && b > 0 {
        assert(a * b > 1) by (nonlinear_arith)
            requires
                a > 1,
                b > 0,
        ;
    }
}

/// A valid header tells the version that it was made with, and no other header
/// tells any.
pub proof fn law_version_is_told(
    meta: &TensorMetaInfo,
    major: u32,
    minor: u32,
    told: Result<(u32, u32), TensorMetaError>,
)
    requires
        major < 4096,
        minor < 4096,
        meta.version == meta_version(major, minor),
        call_ensures(TensorMetaInfo::get_version, (meta,), told),
    ensures
        meta.magic == 4276997357 ==> told == Ok::<(u32, u32), TensorMetaError>((major, minor)),
        meta.magic != 4276997357 ==> told == Err::<(u32, u32), TensorMetaError>(
            TensorMetaError::InvalidMeta,
        ),
{
    if meta.magic == 4276997357 {
        law_version_round_trip(*meta, major, minor);
    }
}

/// An element takes its bits in whole bytes, and a type is told by its name.
pub proof fn law_types_are_told(t: &TensorType, size: usize, name: Option<&'static str>)
    requires
        call_ensures(TensorType::element_size, (t,), size),
        call_ensures(TensorType::typename, (t,), name),
    ensures
        size == match *t {
            TensorType::Int8 | TensorType::UInt8 => 1int,
            TensorType::Int16 | TensorType::UInt16 | TensorType::Float16 => 2,
            TensorType::Int32 | TensorType::UInt32 | TensorType::Float32 => 4,
            TensorType::Int64 | TensorType::UInt64 | TensorType::Float64 => 8,
            TensorType::End => 0,
        },
        name is None <==> *t == TensorType::End,
        name is Some ==> name->0@ == match *t {
            TensorType::Int8 | TensorType::Int16 | TensorType::Int32 | TensorType::Int64 => "int"@,
            TensorType::UInt8 | TensorType::UInt16 | TensorType::UInt32 | TensorType::UInt64 =>
                "uint"@,
            _ => "float"@,
        } + decimal_text(8 * size as nat),
{
    law_type_names(*t);
}

/// A header that was written is read with every field as it was.
pub proof fn law_written_header_is_read(
    meta: TensorMetaInfo,
    data: &[u8],
    read: Option<TensorMetaInfo>,
)
    requires
        data@.len() >= 56,
        forall|k: int|
            0 <= k < 14 ==> data@.subrange(4 * k, 4 * k + 4) == low_bytes(
                (#[trigger] header_words(meta)[k]) as nat,
                4,
            ),
        call_ensures(TensorMetaInfo::read, (data,), read),
    ensures
        read is Some,
        read->0.magic == meta.magic,
        read->0.version == meta.version,
        read->0.tensor_type == meta.tensor_type,
        read->0.dimension@ == meta.dimension@,
        read->0.format == meta.format,
        read->0.media_type == meta.media_type,
        read->0.nnz == meta.nnz,
{
    law_header_reads_what_was_written(meta, data@);
    if read is Some {
        law_header_is_unique(meta, read->0, data@);
    }
}

/// A header is valid by its first number and by six bits of its second,
/// whatever else it holds.
pub proof fn law_valid_headers(meta: TensorMetaInfo)
    ensures
        meta.valid() <==> meta.magic == 4276997357 && meta.version & 3724541952
            == 3724541952,
        meta.version_marked() <==> meta.version & 3724541952 == 3724541952,
{
}

} // verus!
