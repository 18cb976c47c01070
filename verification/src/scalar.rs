//! The catalog of scalar operations.
//!
//! The catalog is closed: a name either belongs to one of the operations listed
//! here, as its canonical name or as an alias, or it does not resolve.

use crate::catalog::{lookup, named, Operation};
use vstd::prelude::*;

verus! {

/// One scalar operation of the engine: the tag that every name of the operation
/// resolves to.
#[derive(Clone, Copy, Debug, PartialEq, Eq, Hash, Structural)]
pub enum ScalarFunction {
    Abs,
    Acos,
    Acosh,
    /// Returns the numeric code of the first character of the argument. In UTF8 encoding,
    /// returns the Unicode code point of the character. In other multibyte encodings, the
    /// argument must be an ASCII character.
    Ascii,
    Asin,
    Asinh,
    Atan,
    Atanh,
    Atan2,
    /// Returns number of bits in the string (8 times the octet_length).
    BitLength,
    /// Removes the longest string containing only characters in characters (a space by
    /// default) from the start and end of string.
    Btrim,
    Cbrt,
    Ceil,
    /// Returns number of characters in the string.
    CharacterLength,
    /// Returns the character with the given code.
    Chr,
    Coalesce,
    Cos,
    Cosh,
    Degrees,
    Exp,
    Factorial,
    Floor,
    Gcd,
    /// Converts the first letter of each word to upper case and the rest to lower case.
    /// Words are sequences of alphanumeric characters separated by non-alphanumeric
    /// characters.
    InitCap,
    Iszero,
    Lcm,
    /// Returns first n characters in the string, or when n is negative, returns all but
    /// last |n| characters.
    Left,
    Ln,
    Log,
    Log10,
    Log2,
    /// Converts the string to all lower case
    Lower,
    /// Extends the string to length length by prepending the characters fill (a space by
    /// default). If the string is already longer than length then it is truncated (on the
    /// right).
    Lpad,
    /// Removes the longest string containing only characters in characters (a space by
    /// default) from the start of string.
    Ltrim,
    /// Computes the MD5 hash of the argument, with the result written in hexadecimal.
    MD5,
    /// Returns x if x is not NaN otherwise returns y.
    Nanvl,
    /// Returns number of bytes in the string. Since this version of the function accepts
    /// type character directly, it will not strip trailing spaces.
    OctetLength,
    Pi,
    Power,
    Radians,
    RegexpMatch,
    /// Replaces substring(s) matching a POSIX regular expression
    RegexpReplace,
    /// Repeats string the specified number of times.
    Repeat,
    /// Replaces all occurrences in string of substring from with substring to.
    Replace,
    /// Reverses the order of the characters in the string.
    Reverse,
    /// Returns last n characters in the string, or when n is negative, returns all but
    /// first |n| characters.
    Right,
    Round,
    /// Extends the string to length length by appending the characters fill (a space by
    /// default). If the string is already longer than length then it is truncated.
    Rpad,
    /// Removes the longest string containing only characters in characters (a space by
    /// default) from the end of string.
    Rtrim,
    SHA224,
    SHA256,
    SHA384,
    SHA512,
    Signum,
    Sin,
    Sinh,
    /// Splits string at occurrences of delimiter and returns the n'th field (counting from
    /// one).
    SplitPart,
    Sqrt,
    /// Returns true if string starts with prefix.
    StartsWith,
    /// Returns starting index of specified substring within string, or zero if it's not
    /// present. (Same as position(substring in string), but note the reversed argument
    /// order.)
    Strpos,
    Substr,
    Tan,
    Tanh,
    /// Converts the number to its equivalent hexadecimal representation.
    ToHex,
    Now,
    ToTimestamp,
    ToTimestampMillis,
    ToTimestampMicros,
    ToTimestampSeconds,
    CurrentDate,
    CurrentTime,
    DatePart,
    DateTrunc,
    DateBin,
    /// Replaces each character in string that matches a character in the from set with the
    /// corresponding character in the to set. If from is longer than to, occurrences of the
    /// extra characters in from are deleted.
    Translate,
    /// Removes the longest string containing only characters in characters (a space by
    /// default) from the start, end, or both ends (BOTH is the default) of string.
    Trim,
    Trunc,
    /// Converts the string to all upper case.
    Upper,
    MakeArray,
    Range,
    Uuid,
    Struct,
    FromUnixtime,
    ArrowTypeof,
    Random,
    ArrayAppend,
    ArrayConcat,
    ArrayDims,
    ArrayDistinct,
    ArrayElement,
    ArrayLength,
    ArrayHas,
    ArrayHasAll,
    ArrayHasAny,
    ArrayPosition,
    ArrayPositions,
    ArrayNdims,
    ArrayPrepend,
    ArrayPopBack,
    ArrayPopFront,
    ArrayRemove,
    ArrayRemoveN,
    ArrayRemoveAll,
    ArrayRepeat,
    ArrayReplace,
    ArrayReplaceN,
    ArrayReplaceAll,
    ArraySlice,
    ArrayIntersect,
    ArrayUnion,
    ArrayExcept,
    ArrayResize,
    Flatten,
    /// Concatenates the text representations of all the arguments. NULL arguments are
    /// ignored.
    Concat,
    /// Concatenates all but the first argument, with separators. The first argument is used
    /// as the separator string, and should not be NULL. Other NULL arguments are ignored.
    ConcatWithSeparator,
    /// Computes a binary hash of the given data, with the algorithm named by the second
    /// argument.
    Digest,
    /// Returns true if the argument is NaN.
    Isnan,
    /// Returns NULL if the two arguments are equal, otherwise the first argument.
    NullIf,
    /// Encodes binary data into a textual representation.
    Encode,
    /// Decodes binary data from a textual representation.
    Decode,
    /// Converts each element of an array to its text representation, joined by a delimiter.
    ArrayToString,
}

/// The number of scalar operations in the catalog.
pub const SCALAR_FUNCTION_COUNT: usize = 121;

impl Operation for ScalarFunction {
    open spec fn spec_name(self) -> Seq<char> {
        match self {
            ScalarFunction::Abs => "abs"@,
            ScalarFunction::Acos => "acos"@,
            ScalarFunction::Acosh => "acosh"@,
            ScalarFunction::Ascii => "ascii"@,
            ScalarFunction::Asin => "asin"@,
            ScalarFunction::Asinh => "asinh"@,
            ScalarFunction::Atan => "atan"@,
            ScalarFunction::Atanh => "atanh"@,
            ScalarFunction::Atan2 => "atan2"@,
            ScalarFunction::BitLength => "bit_length"@,
            ScalarFunction::Btrim => "btrim"@,
            ScalarFunction::Cbrt => "cbrt"@,
            ScalarFunction::Ceil => "ceil"@,
            ScalarFunction::CharacterLength => "character_length"@,
            ScalarFunction::Chr => "chr"@,
            ScalarFunction::Coalesce => "coalesce"@,
            ScalarFunction::Cos => "cos"@,
            ScalarFunction::Cosh => "cosh"@,
            ScalarFunction::Degrees => "degrees"@,
            ScalarFunction::Exp => "exp"@,
            ScalarFunction::Factorial => "factorial"@,
            ScalarFunction::Floor => "floor"@,
            ScalarFunction::Gcd => "gcd"@,
            ScalarFunction::InitCap => "initcap"@,
            ScalarFunction::Iszero => "iszero"@,
            ScalarFunction::Lcm => "lcm"@,
            ScalarFunction::Left => "left"@,
            ScalarFunction::Ln => "ln"@,
            ScalarFunction::Log => "log"@,
            ScalarFunction::Log10 => "log10"@,
            ScalarFunction::Log2 => "log2"@,
            ScalarFunction::Lower => "lower"@,
            ScalarFunction::Lpad => "lpad"@,
            ScalarFunction::Ltrim => "ltrim"@,
            ScalarFunction::MD5 => "md5"@,
            ScalarFunction::Nanvl => "nanvl"@,
            ScalarFunction::OctetLength => "octet_length"@,
            ScalarFunction::Pi => "pi"@,
            ScalarFunction::Power => "power"@,
            ScalarFunction::Radians => "radians"@,
            ScalarFunction::RegexpMatch => "regexp_match"@,
            ScalarFunction::RegexpReplace => "regexp_replace"@,
            ScalarFunction::Repeat => "repeat"@,
            ScalarFunction::Replace => "replace"@,
            ScalarFunction::Reverse => "reverse"@,
            ScalarFunction::Right => "right"@,
            ScalarFunction::Round => "round"@,
            ScalarFunction::Rpad => "rpad"@,
            ScalarFunction::Rtrim => "rtrim"@,
            ScalarFunction::SHA224 => "sha224"@,
            ScalarFunction::SHA256 => "sha256"@,
            ScalarFunction::SHA384 => "sha384"@,
            ScalarFunction::SHA512 => "sha512"@,
            ScalarFunction::Signum => "signum"@,
            ScalarFunction::Sin => "sin"@,
            ScalarFunction::Sinh => "sinh"@,
            ScalarFunction::SplitPart => "split_part"@,
            ScalarFunction::Sqrt => "sqrt"@,
            ScalarFunction::StartsWith => "starts_with"@,
            ScalarFunction::Strpos => "strpos"@,
            ScalarFunction::Substr => "substr"@,
            ScalarFunction::Tan => "tan"@,
            ScalarFunction::Tanh => "tanh"@,
            ScalarFunction::ToHex => "to_hex"@,
            ScalarFunction::Now => "now"@,
            ScalarFunction::ToTimestamp => "to_timestamp"@,
            ScalarFunction::ToTimestampMillis => "to_timestamp_millis"@,
            ScalarFunction::ToTimestampMicros => "to_timestamp_micros"@,
            ScalarFunction::ToTimestampSeconds => "to_timestamp_seconds"@,
            ScalarFunction::CurrentDate => "current_date"@,
            ScalarFunction::CurrentTime => "current_time"@,
            ScalarFunction::DatePart => "date_part"@,
            ScalarFunction::DateTrunc => "date_trunc"@,
            ScalarFunction::DateBin => "date_bin"@,
            ScalarFunction::Translate => "translate"@,
            ScalarFunction::Trim => "trim"@,
            ScalarFunction::Trunc => "trunc"@,
            ScalarFunction::Upper => "upper"@,
            ScalarFunction::MakeArray => "make_array"@,
            ScalarFunction::Range => "range"@,
            ScalarFunction::Uuid => "uuid"@,
            ScalarFunction::Struct => "struct"@,
            ScalarFunction::FromUnixtime => "from_unixtime"@,
            ScalarFunction::ArrowTypeof => "arrow_typeof"@,
            ScalarFunction::Random => "random"@,
            ScalarFunction::ArrayAppend => "array_append"@,
            ScalarFunction::ArrayConcat => "array_concat"@,
            ScalarFunction::ArrayDims => "array_dims"@,
            ScalarFunction::ArrayDistinct => "array_distinct"@,
            ScalarFunction::ArrayElement => "array_element"@,
            ScalarFunction::ArrayLength => "array_length"@,
            ScalarFunction::ArrayHas => "array_has"@,
            ScalarFunction::ArrayHasAll => "array_has_all"@,
            ScalarFunction::ArrayHasAny => "array_has_any"@,
            ScalarFunction::ArrayPosition => "array_position"@,
            ScalarFunction::ArrayPositions => "array_positions"@,
            ScalarFunction::ArrayNdims => "array_ndims"@,
            ScalarFunction::ArrayPrepend => "array_prepend"@,
            ScalarFunction::ArrayPopBack => "array_pop_back"@,
            ScalarFunction::ArrayPopFront => "array_pop_front"@,
            ScalarFunction::ArrayRemove => "array_remove"@,
            ScalarFunction::ArrayRemoveN => "array_remove_n"@,
            ScalarFunction::ArrayRemoveAll => "array_remove_all"@,
            ScalarFunction::ArrayRepeat => "array_repeat"@,
            ScalarFunction::ArrayReplace => "array_replace"@,
            ScalarFunction::ArrayReplaceN => "array_replace_n"@,
            ScalarFunction::ArrayReplaceAll => "array_replace_all"@,
            ScalarFunction::ArraySlice => "array_slice"@,
            ScalarFunction::ArrayIntersect => "array_intersect"@,
            ScalarFunction::ArrayUnion => "array_union"@,
            ScalarFunction::ArrayExcept => "array_except"@,
            ScalarFunction::ArrayResize => "array_resize"@,
            ScalarFunction::Flatten => "flatten"@,
            ScalarFunction::Concat => "concat"@,
            ScalarFunction::ConcatWithSeparator => "concat_ws"@,
            ScalarFunction::Digest => "digest"@,
            ScalarFunction::Isnan => "isnan"@,
            ScalarFunction::NullIf => "nullif"@,
            ScalarFunction::Encode => "encode"@,
            ScalarFunction::Decode => "decode"@,
            ScalarFunction::ArrayToString => "array_to_string"@,
        }
    }

    open spec fn spec_aliases(self) -> Seq<Seq<char>> {
        match self {
            ScalarFunction::CharacterLength => seq!["length"@, "char_length"@],
            ScalarFunction::Power => seq!["pow"@],
            ScalarFunction::DatePart => seq!["datepart"@],
            ScalarFunction::DateTrunc => seq!["datetrunc"@],
            ScalarFunction::MakeArray => seq!["array"@],
            ScalarFunction::ArrayAppend => seq!["array_push_back"@, "list_append"@, "list_push_back"@],
            ScalarFunction::ArrayConcat => seq!["array_cat"@],
            ScalarFunction::ArrayDims => seq!["list_dims"@],
            ScalarFunction::ArrayDistinct => seq!["list_distinct"@],
            ScalarFunction::ArrayElement => seq!["array_extract"@, "list_element"@, "list_extract"@],
            ScalarFunction::ArrayLength => seq!["list_length"@],
            ScalarFunction::ArrayPosition => seq!["array_indexof"@, "list_position"@, "list_indexof"@],
            ScalarFunction::ArrayPositions => seq!["list_positions"@],
            ScalarFunction::ArrayNdims => seq!["list_ndims"@],
            ScalarFunction::ArrayPrepend => seq!["array_push_front"@, "list_prepend"@, "list_push_front"@],
            ScalarFunction::ArrayRemove => seq!["list_remove"@],
            ScalarFunction::ArrayRemoveN => seq!["list_remove_n"@],
            ScalarFunction::ArrayRemoveAll => seq!["list_remove_all"@],
            ScalarFunction::ArrayReplace => seq!["list_replace"@],
            ScalarFunction::ArrayReplaceN => seq!["list_replace_n"@],
            ScalarFunction::ArrayReplaceAll => seq!["list_replace_all"@],
            ScalarFunction::ArraySlice => seq!["list_slice"@],
            ScalarFunction::ArrayIntersect => seq!["list_intersect"@],
            ScalarFunction::ArrayUnion => seq!["list_union"@],
            ScalarFunction::ArrayExcept => seq!["list_except"@],
            ScalarFunction::ArrayResize => seq!["list_resize"@],
            ScalarFunction::ArrayToString => seq!["array_join"@, "list_to_string"@, "list_join"@],
            _ => Seq::empty(),
        }
    }

    open spec fn position(self) -> nat {
        match self {
            ScalarFunction::Abs => 0,
            ScalarFunction::Acos => 1,
            ScalarFunction::Acosh => 2,
            ScalarFunction::Ascii => 3,
            ScalarFunction::Asin => 4,
            ScalarFunction::Asinh => 5,
            ScalarFunction::Atan => 6,
            ScalarFunction::Atanh => 7,
            ScalarFunction::Atan2 => 8,
            ScalarFunction::BitLength => 9,
            ScalarFunction::Btrim => 10,
            ScalarFunction::Cbrt => 11,
            ScalarFunction::Ceil => 12,
            ScalarFunction::CharacterLength => 13,
            ScalarFunction::Chr => 14,
            ScalarFunction::Coalesce => 15,
            ScalarFunction::Cos => 16,
            ScalarFunction::Cosh => 17,
            ScalarFunction::Degrees => 18,
            ScalarFunction::Exp => 19,
            ScalarFunction::Factorial => 20,
            ScalarFunction::Floor => 21,
            ScalarFunction::Gcd => 22,
            ScalarFunction::InitCap => 23,
            ScalarFunction::Iszero => 24,
            ScalarFunction::Lcm => 25,
            ScalarFunction::Left => 26,
            ScalarFunction::Ln => 27,
            ScalarFunction::Log => 28,
            ScalarFunction::Log10 => 29,
            ScalarFunction::Log2 => 30,
            ScalarFunction::Lower => 31,
            ScalarFunction::Lpad => 32,
            ScalarFunction::Ltrim => 33,
            ScalarFunction::MD5 => 34,
            ScalarFunction::Nanvl => 35,
            ScalarFunction::OctetLength => 36,
            ScalarFunction::Pi => 37,
            ScalarFunction::Power => 38,
            ScalarFunction::Radians => 39,
            ScalarFunction::RegexpMatch => 40,
            ScalarFunction::RegexpReplace => 41,
            ScalarFunction::Repeat => 42,
            ScalarFunction::Replace => 43,
            ScalarFunction::Reverse => 44,
            ScalarFunction::Right => 45,
            ScalarFunction::Round => 46,
            ScalarFunction::Rpad => 47,
            ScalarFunction::Rtrim => 48,
            ScalarFunction::SHA224 => 49,
            ScalarFunction::SHA256 => 50,
            ScalarFunction::SHA384 => 51,
            ScalarFunction::SHA512 => 52,
            ScalarFunction::Signum => 53,
            ScalarFunction::Sin => 54,
            ScalarFunction::Sinh => 55,
            ScalarFunction::SplitPart => 56,
            ScalarFunction::Sqrt => 57,
            ScalarFunction::StartsWith => 58,
            ScalarFunction::Strpos => 59,
            ScalarFunction::Substr => 60,
            ScalarFunction::Tan => 61,
            ScalarFunction::Tanh => 62,
            ScalarFunction::ToHex => 63,
            ScalarFunction::Now => 64,
            ScalarFunction::ToTimestamp => 65,
            ScalarFunction::ToTimestampMillis => 66,
            ScalarFunction::ToTimestampMicros => 67,
            ScalarFunction::ToTimestampSeconds => 68,
            ScalarFunction::CurrentDate => 69,
            ScalarFunction::CurrentTime => 70,
            ScalarFunction::DatePart => 71,
            ScalarFunction::DateTrunc => 72,
            ScalarFunction::DateBin => 73,
            ScalarFunction::Translate => 74,
            ScalarFunction::Trim => 75,
            ScalarFunction::Trunc => 76,
            ScalarFunction::Upper => 77,
            ScalarFunction::MakeArray => 78,
            ScalarFunction::Range => 79,
            ScalarFunction::Uuid => 80,
            ScalarFunction::Struct => 81,
            ScalarFunction::FromUnixtime => 82,
            ScalarFunction::ArrowTypeof => 83,
            ScalarFunction::Random => 84,
            ScalarFunction::ArrayAppend => 85,
            ScalarFunction::ArrayConcat => 86,
            ScalarFunction::ArrayDims => 87,
            ScalarFunction::ArrayDistinct => 88,
            ScalarFunction::ArrayElement => 89,
            ScalarFunction::ArrayLength => 90,
            ScalarFunction::ArrayHas => 91,
            ScalarFunction::ArrayHasAll => 92,
            ScalarFunction::ArrayHasAny => 93,
            ScalarFunction::ArrayPosition => 94,
            ScalarFunction::ArrayPositions => 95,
            ScalarFunction::ArrayNdims => 96,
            ScalarFunction::ArrayPrepend => 97,
            ScalarFunction::ArrayPopBack => 98,
            ScalarFunction::ArrayPopFront => 99,
            ScalarFunction::ArrayRemove => 100,
            ScalarFunction::ArrayRemoveN => 101,
            ScalarFunction::ArrayRemoveAll => 102,
            ScalarFunction::ArrayRepeat => 103,
            ScalarFunction::ArrayReplace => 104,
            ScalarFunction::ArrayReplaceN => 105,
            ScalarFunction::ArrayReplaceAll => 106,
            ScalarFunction::ArraySlice => 107,
            ScalarFunction::ArrayIntersect => 108,
            ScalarFunction::ArrayUnion => 109,
            ScalarFunction::ArrayExcept => 110,
            ScalarFunction::ArrayResize => 111,
            ScalarFunction::Flatten => 112,
            ScalarFunction::Concat => 113,
            ScalarFunction::ConcatWithSeparator => 114,
            ScalarFunction::Digest => 115,
            ScalarFunction::Isnan => 116,
            ScalarFunction::NullIf => 117,
            ScalarFunction::Encode => 118,
            ScalarFunction::Decode => 119,
            ScalarFunction::ArrayToString => 120,
        }
    }

    open spec fn spec_count() -> nat {
        SCALAR_FUNCTION_COUNT as nat
    }

    fn name(self) -> (name: &'static str) {
        match self {
            ScalarFunction::Abs => "abs",
            ScalarFunction::Acos => "acos",
            ScalarFunction::Acosh => "acosh",
            ScalarFunction::Ascii => "ascii",
            ScalarFunction::Asin => "asin",
            ScalarFunction::Asinh => "asinh",
            ScalarFunction::Atan => "atan",
            ScalarFunction::Atanh => "atanh",
            ScalarFunction::Atan2 => "atan2",
            ScalarFunction::BitLength => "bit_length",
            ScalarFunction::Btrim => "btrim",
            ScalarFunction::Cbrt => "cbrt",
            ScalarFunction::Ceil => "ceil",
            ScalarFunction::CharacterLength => "character_length",
            ScalarFunction::Chr => "chr",
            ScalarFunction::Coalesce => "coalesce",
            ScalarFunction::Cos => "cos",
            ScalarFunction::Cosh => "cosh",
            ScalarFunction::Degrees => "degrees",
            ScalarFunction::Exp => "exp",
            ScalarFunction::Factorial => "factorial",
            ScalarFunction::Floor => "floor",
            ScalarFunction::Gcd => "gcd",
            ScalarFunction::InitCap => "initcap",
            ScalarFunction::Iszero => "iszero",
            ScalarFunction::Lcm => "lcm",
            ScalarFunction::Left => "left",
            ScalarFunction::Ln => "ln",
            ScalarFunction::Log => "log",
            ScalarFunction::Log10 => "log10",
            ScalarFunction::Log2 => "log2",
            ScalarFunction::Lower => "lower",
            ScalarFunction::Lpad => "lpad",
            ScalarFunction::Ltrim => "ltrim",
            ScalarFunction::MD5 => "md5",
            ScalarFunction::Nanvl => "nanvl",
            ScalarFunction::OctetLength => "octet_length",
            ScalarFunction::Pi => "pi",
            ScalarFunction::Power => "power",
            ScalarFunction::Radians => "radians",
            ScalarFunction::RegexpMatch => "regexp_match",
            ScalarFunction::RegexpReplace => "regexp_replace",
            ScalarFunction::Repeat => "repeat",
            ScalarFunction::Replace => "replace",
            ScalarFunction::Reverse => "reverse",
            ScalarFunction::Right => "right",
            ScalarFunction::Round => "round",
            ScalarFunction::Rpad => "rpad",
            ScalarFunction::Rtrim => "rtrim",
            ScalarFunction::SHA224 => "sha224",
            ScalarFunction::SHA256 => "sha256",
            ScalarFunction::SHA384 => "sha384",
            ScalarFunction::SHA512 => "sha512",
            ScalarFunction::Signum => "signum",
            ScalarFunction::Sin => "sin",
            ScalarFunction::Sinh => "sinh",
            ScalarFunction::SplitPart => "split_part",
            ScalarFunction::Sqrt => "sqrt",
            ScalarFunction::StartsWith => "starts_with",
            ScalarFunction::Strpos => "strpos",
            ScalarFunction::Substr => "substr",
            ScalarFunction::Tan => "tan",
            ScalarFunction::Tanh => "tanh",
            ScalarFunction::ToHex => "to_hex",
            ScalarFunction::Now => "now",
            ScalarFunction::ToTimestamp => "to_timestamp",
            ScalarFunction::ToTimestampMillis => "to_timestamp_millis",
            ScalarFunction::ToTimestampMicros => "to_timestamp_micros",
            ScalarFunction::ToTimestampSeconds => "to_timestamp_seconds",
            ScalarFunction::CurrentDate => "current_date",
            ScalarFunction::CurrentTime => "current_time",
            ScalarFunction::DatePart => "date_part",
            ScalarFunction::DateTrunc => "date_trunc",
            ScalarFunction::DateBin => "date_bin",
            ScalarFunction::Translate => "translate",
            ScalarFunction::Trim => "trim",
            ScalarFunction::Trunc => "trunc",
            ScalarFunction::Upper => "upper",
            ScalarFunction::MakeArray => "make_array",
            ScalarFunction::Range => "range",
            ScalarFunction::Uuid => "uuid",
            ScalarFunction::Struct => "struct",
            ScalarFunction::FromUnixtime => "from_unixtime",
            ScalarFunction::ArrowTypeof => "arrow_typeof",
            ScalarFunction::Random => "random",
            ScalarFunction::ArrayAppend => "array_append",
            ScalarFunction::ArrayConcat => "array_concat",
            ScalarFunction::ArrayDims => "array_dims",
            ScalarFunction::ArrayDistinct => "array_distinct",
            ScalarFunction::ArrayElement => "array_element",
            ScalarFunction::ArrayLength => "array_length",
            ScalarFunction::ArrayHas => "array_has",
            ScalarFunction::ArrayHasAll => "array_has_all",
            ScalarFunction::ArrayHasAny => "array_has_any",
            ScalarFunction::ArrayPosition => "array_position",
            ScalarFunction::ArrayPositions => "array_positions",
            ScalarFunction::ArrayNdims => "array_ndims",
            ScalarFunction::ArrayPrepend => "array_prepend",
            ScalarFunction::ArrayPopBack => "array_pop_back",
            ScalarFunction::ArrayPopFront => "array_pop_front",
            ScalarFunction::ArrayRemove => "array_remove",
            ScalarFunction::ArrayRemoveN => "array_remove_n",
            ScalarFunction::ArrayRemoveAll => "array_remove_all",
            ScalarFunction::ArrayRepeat => "array_repeat",
            ScalarFunction::ArrayReplace => "array_replace",
            ScalarFunction::ArrayReplaceN => "array_replace_n",
            ScalarFunction::ArrayReplaceAll => "array_replace_all",
            ScalarFunction::ArraySlice => "array_slice",
            ScalarFunction::ArrayIntersect => "array_intersect",
            ScalarFunction::ArrayUnion => "array_union",
            ScalarFunction::ArrayExcept => "array_except",
            ScalarFunction::ArrayResize => "array_resize",
            ScalarFunction::Flatten => "flatten",
            ScalarFunction::Concat => "concat",
            ScalarFunction::ConcatWithSeparator => "concat_ws",
            ScalarFunction::Digest => "digest",
            ScalarFunction::Isnan => "isnan",
            ScalarFunction::NullIf => "nullif",
            ScalarFunction::Encode => "encode",
            ScalarFunction::Decode => "decode",
            ScalarFunction::ArrayToString => "array_to_string",
        }
    }

    fn aliases(self) -> (aliases: Vec<&'static str>) {
        match self {
            ScalarFunction::CharacterLength => vec!["length", "char_length"],
            ScalarFunction::Power => vec!["pow"],
            ScalarFunction::DatePart => vec!["datepart"],
            ScalarFunction::DateTrunc => vec!["datetrunc"],
            ScalarFunction::MakeArray => vec!["array"],
            ScalarFunction::ArrayAppend => vec!["array_push_back", "list_append", "list_push_back"],
            ScalarFunction::ArrayConcat => vec!["array_cat"],
            ScalarFunction::ArrayDims => vec!["list_dims"],
            ScalarFunction::ArrayDistinct => vec!["list_distinct"],
            ScalarFunction::ArrayElement => vec!["array_extract", "list_element", "list_extract"],
            ScalarFunction::ArrayLength => vec!["list_length"],
            ScalarFunction::ArrayPosition => vec!["array_indexof", "list_position", "list_indexof"],
            ScalarFunction::ArrayPositions => vec!["list_positions"],
            ScalarFunction::ArrayNdims => vec!["list_ndims"],
            ScalarFunction::ArrayPrepend => vec!["array_push_front", "list_prepend", "list_push_front"],
            ScalarFunction::ArrayRemove => vec!["list_remove"],
            ScalarFunction::ArrayRemoveN => vec!["list_remove_n"],
            ScalarFunction::ArrayRemoveAll => vec!["list_remove_all"],
            ScalarFunction::ArrayReplace => vec!["list_replace"],
            ScalarFunction::ArrayReplaceN => vec!["list_replace_n"],
            ScalarFunction::ArrayReplaceAll => vec!["list_replace_all"],
            ScalarFunction::ArraySlice => vec!["list_slice"],
            ScalarFunction::ArrayIntersect => vec!["list_intersect"],
            ScalarFunction::ArrayUnion => vec!["list_union"],
            ScalarFunction::ArrayExcept => vec!["list_except"],
            ScalarFunction::ArrayResize => vec!["list_resize"],
            ScalarFunction::ArrayToString => vec!["array_join", "list_to_string", "list_join"],
            _ => Vec::new(),
        }
    }

    fn count() -> (count: usize) {
        SCALAR_FUNCTION_COUNT
    }

    fn at(place: usize) -> (found: Option<ScalarFunction>) {
        match place {
            0 => Some(ScalarFunction::Abs),
            1 => Some(ScalarFunction::Acos),
            2 => Some(ScalarFunction::Acosh),
            3 => Some(ScalarFunction::Ascii),
            4 => Some(ScalarFunction::Asin),
            5 => Some(ScalarFunction::Asinh),
            6 => Some(ScalarFunction::Atan),
            7 => Some(ScalarFunction::Atanh),
            8 => Some(ScalarFunction::Atan2),
            9 => Some(ScalarFunction::BitLength),
            10 => Some(ScalarFunction::Btrim),
            11 => Some(ScalarFunction::Cbrt),
            12 => Some(ScalarFunction::Ceil),
            13 => Some(ScalarFunction::CharacterLength),
            14 => Some(ScalarFunction::Chr),
            15 => Some(ScalarFunction::Coalesce),
            16 => Some(ScalarFunction::Cos),
            17 => Some(ScalarFunction::Cosh),
            18 => Some(ScalarFunction::Degrees),
            19 => Some(ScalarFunction::Exp),
            20 => Some(ScalarFunction::Factorial),
            21 => Some(ScalarFunction::Floor),
            22 => Some(ScalarFunction::Gcd),
            23 => Some(ScalarFunction::InitCap),
            24 => Some(ScalarFunction::Iszero),
            25 => Some(ScalarFunction::Lcm),
            26 => Some(ScalarFunction::Left),
            27 => Some(ScalarFunction::Ln),
            28 => Some(ScalarFunction::Log),
            29 => Some(ScalarFunction::Log10),
            30 => Some(ScalarFunction::Log2),
            31 => Some(ScalarFunction::Lower),
            32 => Some(ScalarFunction::Lpad),
            33 => Some(ScalarFunction::Ltrim),
            34 => Some(ScalarFunction::MD5),
            35 => Some(ScalarFunction::Nanvl),
            36 => Some(ScalarFunction::OctetLength),
            37 => Some(ScalarFunction::Pi),
            38 => Some(ScalarFunction::Power),
            39 => Some(ScalarFunction::Radians),
            40 => Some(ScalarFunction::RegexpMatch),
            41 => Some(ScalarFunction::RegexpReplace),
            42 => Some(ScalarFunction::Repeat),
            43 => Some(ScalarFunction::Replace),
            44 => Some(ScalarFunction::Reverse),
            45 => Some(ScalarFunction::Right),
            46 => Some(ScalarFunction::Round),
            47 => Some(ScalarFunction::Rpad),
            48 => Some(ScalarFunction::Rtrim),
            49 => Some(ScalarFunction::SHA224),
            50 => Some(ScalarFunction::SHA256),
            51 => Some(ScalarFunction::SHA384),
            52 => Some(ScalarFunction::SHA512),
            53 => Some(ScalarFunction::Signum),
            54 => Some(ScalarFunction::Sin),
            55 => Some(ScalarFunction::Sinh),
            56 => Some(ScalarFunction::SplitPart),
            57 => Some(ScalarFunction::Sqrt),
            58 => Some(ScalarFunction::StartsWith),
            59 => Some(ScalarFunction::Strpos),
            60 => Some(ScalarFunction::Substr),
            61 => Some(ScalarFunction::Tan),
            62 => Some(ScalarFunction::Tanh),
            63 => Some(ScalarFunction::ToHex),
            64 => Some(ScalarFunction::Now),
            65 => Some(ScalarFunction::ToTimestamp),
            66 => Some(ScalarFunction::ToTimestampMillis),
            67 => Some(ScalarFunction::ToTimestampMicros),
            68 => Some(ScalarFunction::ToTimestampSeconds),
            69 => Some(ScalarFunction::CurrentDate),
            70 => Some(ScalarFunction::CurrentTime),
            71 => Some(ScalarFunction::DatePart),
            72 => Some(ScalarFunction::DateTrunc),
            73 => Some(ScalarFunction::DateBin),
            74 => Some(ScalarFunction::Translate),
            75 => Some(ScalarFunction::Trim),
            76 => Some(ScalarFunction::Trunc),
            77 => Some(ScalarFunction::Upper),
            78 => Some(ScalarFunction::MakeArray),
            79 => Some(ScalarFunction::Range),
            80 => Some(ScalarFunction::Uuid),
            81 => Some(ScalarFunction::Struct),
            82 => Some(ScalarFunction::FromUnixtime),
            83 => Some(ScalarFunction::ArrowTypeof),
            84 => Some(ScalarFunction::Random),
            85 => Some(ScalarFunction::ArrayAppend),
            86 => Some(ScalarFunction::ArrayConcat),
            87 => Some(ScalarFunction::ArrayDims),
            88 => Some(ScalarFunction::ArrayDistinct),
            89 => Some(ScalarFunction::ArrayElement),
            90 => Some(ScalarFunction::ArrayLength),
            91 => Some(ScalarFunction::ArrayHas),
            92 => Some(ScalarFunction::ArrayHasAll),
            93 => Some(ScalarFunction::ArrayHasAny),
            94 => Some(ScalarFunction::ArrayPosition),
            95 => Some(ScalarFunction::ArrayPositions),
            96 => Some(ScalarFunction::ArrayNdims),
            97 => Some(ScalarFunction::ArrayPrepend),
            98 => Some(ScalarFunction::ArrayPopBack),
            99 => Some(ScalarFunction::ArrayPopFront),
            100 => Some(ScalarFunction::ArrayRemove),
            101 => Some(ScalarFunction::ArrayRemoveN),
            102 => Some(ScalarFunction::ArrayRemoveAll),
            103 => Some(ScalarFunction::ArrayRepeat),
            104 => Some(ScalarFunction::ArrayReplace),
            105 => Some(ScalarFunction::ArrayReplaceN),
            106 => Some(ScalarFunction::ArrayReplaceAll),
            107 => Some(ScalarFunction::ArraySlice),
            108 => Some(ScalarFunction::ArrayIntersect),
            109 => Some(ScalarFunction::ArrayUnion),
            110 => Some(ScalarFunction::ArrayExcept),
            111 => Some(ScalarFunction::ArrayResize),
            112 => Some(ScalarFunction::Flatten),
            113 => Some(ScalarFunction::Concat),
            114 => Some(ScalarFunction::ConcatWithSeparator),
            115 => Some(ScalarFunction::Digest),
            116 => Some(ScalarFunction::Isnan),
            117 => Some(ScalarFunction::NullIf),
            118 => Some(ScalarFunction::Encode),
            119 => Some(ScalarFunction::Decode),
            120 => Some(ScalarFunction::ArrayToString),
            _ => None,
        }
    }

    proof fn lemma_places_differ(f: ScalarFunction, g: ScalarFunction) {
    }

    proof fn lemma_place_is_within(f: ScalarFunction) {
    }

    proof fn lemma_names_are_unique(f: ScalarFunction, g: ScalarFunction, name: Seq<char>) {
        // The solver tells two names apart by their spelling: each name is spelled out.
        reveal_strlit("abs");
        let s = "abs"@;
        assert(s.len() == 3 && s[0] == 'a' && s[1] == 'b' && s[2] == 's');
        reveal_strlit("acos");
        let s = "acos"@;
        assert(s.len() == 4 && s[0] == 'a' && s[1] == 'c' && s[2] == 'o' && s[3] == 's');
        reveal_strlit("acosh");
        let s = "acosh"@;
        assert(s.len() == 5 && s[0] == 'a' && s[1] == 'c' && s[2] == 'o' && s[3] == 's'
            && s[4] == 'h');
        reveal_strlit("ascii");
        let s = "ascii"@;
        assert(s.len() == 5 && s[0] == 'a' && s[1] == 's' && s[2] == 'c' && s[3] == 'i'
            && s[4] == 'i');
        reveal_strlit("asin");
        let s = "asin"@;
        assert(s.len() == 4 && s[0] == 'a' && s[1] == 's' && s[2] == 'i' && s[3] == 'n');
        reveal_strlit("asinh");
        let s = "asinh"@;
        assert(s.len() == 5 && s[0] == 'a' && s[1] == 's' && s[2] == 'i' && s[3] == 'n'
            && s[4] == 'h');
        reveal_strlit("atan");
        let s = "atan"@;
        assert(s.len() == 4 && s[0] == 'a' && s[1] == 't' && s[2] == 'a' && s[3] == 'n');
        reveal_strlit("atanh");
        let s = "atanh"@;
        assert(s.len() == 5 && s[0] == 'a' && s[1] == 't' && s[2] == 'a' && s[3] == 'n'
            && s[4] == 'h');
        reveal_strlit("atan2");
        let s = "atan2"@;
        assert(s.len() == 5 && s[0] == 'a' && s[1] == 't' && s[2] == 'a' && s[3] == 'n'
            && s[4] == '2');
        reveal_strlit("bit_length");
        let s = "bit_length"@;
        assert(s.len() == 10 && s[0] == 'b' && s[1] == 'i' && s[2] == 't' && s[3] == '_'
            && s[4] == 'l' && s[5] == 'e' && s[6] == 'n' && s[7] == 'g' && s[8] == 't'
            && s[9] == 'h');
        reveal_strlit("btrim");
        let s = "btrim"@;
        assert(s.len() == 5 && s[0] == 'b' && s[1] == 't' && s[2] == 'r' && s[3] == 'i'
            && s[4] == 'm');
        reveal_strlit("cbrt");
        let s = "cbrt"@;
        assert(s.len() == 4 && s[0] == 'c' && s[1] == 'b' && s[2] == 'r' && s[3] == 't');
        reveal_strlit("ceil");
        let s = "ceil"@;
        assert(s.len() == 4 && s[0] == 'c' && s[1] == 'e' && s[2] == 'i' && s[3] == 'l');
        reveal_strlit("character_length");
        let s = "character_length"@;
        assert(s.len() == 16 && s[0] == 'c' && s[1] == 'h' && s[2] == 'a' && s[3] == 'r'
            && s[4] == 'a' && s[5] == 'c' && s[6] == 't' && s[7] == 'e' && s[8] == 'r'
            && s[9] == '_' && s[10] == 'l' && s[11] == 'e' && s[12] == 'n' && s[13] == 'g'
            && s[14] == 't' && s[15] == 'h');
        reveal_strlit("length");
        let s = "length"@;
        assert(s.len() == 6 && s[0] == 'l' && s[1] == 'e' && s[2] == 'n' && s[3] == 'g'
            && s[4] == 't' && s[5] == 'h');
        reveal_strlit("char_length");
        let s = "char_length"@;
        assert(s.len() == 11 && s[0] == 'c' && s[1] == 'h' && s[2] == 'a' && s[3] == 'r'
            && s[4] == '_' && s[5] == 'l' && s[6] == 'e' && s[7] == 'n' && s[8] == 'g'
            && s[9] == 't' && s[10] == 'h');
        reveal_strlit("chr");
        let s = "chr"@;
        assert(s.len() == 3 && s[0] == 'c' && s[1] == 'h' && s[2] == 'r');
        reveal_strlit("coalesce");
        let s = "coalesce"@;
        assert(s.len() == 8 && s[0] == 'c' && s[1] == 'o' && s[2] == 'a' && s[3] == 'l'
            && s[4] == 'e' && s[5] == 's' && s[6] == 'c' && s[7] == 'e');
        reveal_strlit("cos");
        let s = "cos"@;
        assert(s.len() == 3 && s[0] == 'c' && s[1] == 'o' && s[2] == 's');
        reveal_strlit("cosh");
        let s = "cosh"@;
        assert(s.len() == 4 && s[0] == 'c' && s[1] == 'o' && s[2] == 's' && s[3] == 'h');
        reveal_strlit("degrees");
        let s = "degrees"@;
        assert(s.len() == 7 && s[0] == 'd' && s[1] == 'e' && s[2] == 'g' && s[3] == 'r'
            && s[4] == 'e' && s[5] == 'e' && s[6] == 's');
        reveal_strlit("exp");
        let s = "exp"@;
        assert(s.len() == 3 && s[0] == 'e' && s[1] == 'x' && s[2] == 'p');
        reveal_strlit("factorial");
        let s = "factorial"@;
        assert(s.len() == 9 && s[0] == 'f' && s[1] == 'a' && s[2] == 'c' && s[3] == 't'
            && s[4] == 'o' && s[5] == 'r' && s[6] == 'i' && s[7] == 'a' && s[8] == 'l');
        reveal_strlit("floor");
        let s = "floor"@;
        assert(s.len() == 5 && s[0] == 'f' && s[1] == 'l' && s[2] == 'o' && s[3] == 'o'
            && s[4] == 'r');
        reveal_strlit("gcd");
        let s = "gcd"@;
        assert(s.len() == 3 && s[0] == 'g' && s[1] == 'c' && s[2] == 'd');
        reveal_strlit("initcap");
        let s = "initcap"@;
        assert(s.len() == 7 && s[0] == 'i' && s[1] == 'n' && s[2] == 'i' && s[3] == 't'
            && s[4] == 'c' && s[5] == 'a' && s[6] == 'p');
        reveal_strlit("iszero");
        let s = "iszero"@;
        assert(s.len() == 6 && s[0] == 'i' && s[1] == 's' && s[2] == 'z' && s[3] == 'e'
            && s[4] == 'r' && s[5] == 'o');
        reveal_strlit("lcm");
        let s = "lcm"@;
        assert(s.len() == 3 && s[0] == 'l' && s[1] == 'c' && s[2] == 'm');
        reveal_strlit("left");
        let s = "left"@;
        assert(s.len() == 4 && s[0] == 'l' && s[1] == 'e' && s[2] == 'f' && s[3] == 't');
        reveal_strlit("ln");
        let s = "ln"@;
        assert(s.len() == 2 && s[0] == 'l' && s[1] == 'n');
        reveal_strlit("log");
        let s = "log"@;
        assert(s.len() == 3 && s[0] == 'l' && s[1] == 'o' && s[2] == 'g');
        reveal_strlit("log10");
        let s = "log10"@;
        assert(s.len() == 5 && s[0] == 'l' && s[1] == 'o' && s[2] == 'g' && s[3] == '1'
            && s[4] == '0');
        reveal_strlit("log2");
        let s = "log2"@;
        assert(s.len() == 4 && s[0] == 'l' && s[1] == 'o' && s[2] == 'g' && s[3] == '2');
        reveal_strlit("lower");
        let s = "lower"@;
        assert(s.len() == 5 && s[0] == 'l' && s[1] == 'o' && s[2] == 'w' && s[3] == 'e'
            && s[4] == 'r');
        reveal_strlit("lpad");
        let s = "lpad"@;
        assert(s.len() == 4 && s[0] == 'l' && s[1] == 'p' && s[2] == 'a' && s[3] == 'd');
        reveal_strlit("ltrim");
        let s = "ltrim"@;
        assert(s.len() == 5 && s[0] == 'l' && s[1] == 't' && s[2] == 'r' && s[3] == 'i'
            && s[4] == 'm');
        reveal_strlit("md5");
        let s = "md5"@;
        assert(s.len() == 3 && s[0] == 'm' && s[1] == 'd' && s[2] == '5');
        reveal_strlit("nanvl");
        let s = "nanvl"@;
        assert(s.len() == 5 && s[0] == 'n' && s[1] == 'a' && s[2] == 'n' && s[3] == 'v'
            && s[4] == 'l');
        reveal_strlit("octet_length");
        let s = "octet_length"@;
        assert(s.len() == 12 && s[0] == 'o' && s[1] == 'c' && s[2] == 't' && s[3] == 'e'
            && s[4] == 't' && s[5] == '_' && s[6] == 'l' && s[7] == 'e' && s[8] == 'n'
            && s[9] == 'g' && s[10] == 't' && s[11] == 'h');
        reveal_strlit("pi");
        let s = "pi"@;
        assert(s.len() == 2 && s[0] == 'p' && s[1] == 'i');
        reveal_strlit("power");
        let s = "power"@;
        assert(s.len() == 5 && s[0] == 'p' && s[1] == 'o' && s[2] == 'w' && s[3] == 'e'
            && s[4] == 'r');
        reveal_strlit("pow");
        let s = "pow"@;
        assert(s.len() == 3 && s[0] == 'p' && s[1] == 'o' && s[2] == 'w');
        reveal_strlit("radians");
        let s = "radians"@;
        assert(s.len() == 7 && s[0] == 'r' && s[1] == 'a' && s[2] == 'd' && s[3] == 'i'
            && s[4] == 'a' && s[5] == 'n' && s[6] == 's');
        reveal_strlit("regexp_match");
        let s = "regexp_match"@;
        assert(s.len() == 12 && s[0] == 'r' && s[1] == 'e' && s[2] == 'g' && s[3] == 'e'
            && s[4] == 'x' && s[5] == 'p' && s[6] == '_' && s[7] == 'm' && s[8] == 'a'
            && s[9] == 't' && s[10] == 'c' && s[11] == 'h');
        reveal_strlit("regexp_replace");
        let s = "regexp_replace"@;
        assert(s.len() == 14 && s[0] == 'r' && s[1] == 'e' && s[2] == 'g' && s[3] == 'e'
            && s[4] == 'x' && s[5] == 'p' && s[6] == '_' && s[7] == 'r' && s[8] == 'e'
            && s[9] == 'p' && s[10] == 'l' && s[11] == 'a' && s[12] == 'c' && s[13] == 'e');
        reveal_strlit("repeat");
        let s = "repeat"@;
        assert(s.len() == 6 && s[0] == 'r' && s[1] == 'e' && s[2] == 'p' && s[3] == 'e'
            && s[4] == 'a' && s[5] == 't');
        reveal_strlit("replace");
        let s = "replace"@;
        assert(s.len() == 7 && s[0] == 'r' && s[1] == 'e' && s[2] == 'p' && s[3] == 'l'
            && s[4] == 'a' && s[5] == 'c' && s[6] == 'e');
        reveal_strlit("reverse");
        let s = "reverse"@;
        assert(s.len() == 7 && s[0] == 'r' && s[1] == 'e' && s[2] == 'v' && s[3] == 'e'
            && s[4] == 'r' && s[5] == 's' && s[6] == 'e');
        reveal_strlit("right");
        let s = "right"@;
        assert(s.len() == 5 && s[0] == 'r' && s[1] == 'i' && s[2] == 'g' && s[3] == 'h'
            && s[4] == 't');
        reveal_strlit("round");
        let s = "round"@;
        assert(s.len() == 5 && s[0] == 'r' && s[1] == 'o' && s[2] == 'u' && s[3] == 'n'
            && s[4] == 'd');
        reveal_strlit("rpad");
        let s = "rpad"@;
        assert(s.len() == 4 && s[0] == 'r' && s[1] == 'p' && s[2] == 'a' && s[3] == 'd');
        reveal_strlit("rtrim");
        let s = "rtrim"@;
        assert(s.len() == 5 && s[0] == 'r' && s[1] == 't' && s[2] == 'r' && s[3] == 'i'
            && s[4] == 'm');
        reveal_strlit("sha224");
        let s = "sha224"@;
        assert(s.len() == 6 && s[0] == 's' && s[1] == 'h' && s[2] == 'a' && s[3] == '2'
            && s[4] == '2' && s[5] == '4');
        reveal_strlit("sha256");
        let s = "sha256"@;
        assert(s.len() == 6 && s[0] == 's' && s[1] == 'h' && s[2] == 'a' && s[3] == '2'
            && s[4] == '5' && s[5] == '6');
        reveal_strlit("sha384");
        let s = "sha384"@;
        assert(s.len() == 6 && s[0] == 's' && s[1] == 'h' && s[2] == 'a' && s[3] == '3'
            && s[4] == '8' && s[5] == '4');
        reveal_strlit("sha512");
        let s = "sha512"@;
        assert(s.len() == 6 && s[0] == 's' && s[1] == 'h' && s[2] == 'a' && s[3] == '5'
            && s[4] == '1' && s[5] == '2');
        reveal_strlit("signum");
        let s = "signum"@;
        assert(s.len() == 6 && s[0] == 's' && s[1] == 'i' && s[2] == 'g' && s[3] == 'n'
            && s[4] == 'u' && s[5] == 'm');
        reveal_strlit("sin");
        let s = "sin"@;
        assert(s.len() == 3 && s[0] == 's' && s[1] == 'i' && s[2] == 'n');
        reveal_strlit("sinh");
        let s = "sinh"@;
        assert(s.len() == 4 && s[0] == 's' && s[1] == 'i' && s[2] == 'n' && s[3] == 'h');
        reveal_strlit("split_part");
        let s = "split_part"@;
        assert(s.len() == 10 && s[0] == 's' && s[1] == 'p' && s[2] == 'l' && s[3] == 'i'
            && s[4] == 't' && s[5] == '_' && s[6] == 'p' && s[7] == 'a' && s[8] == 'r'
            && s[9] == 't');
        reveal_strlit("sqrt");
        let s = "sqrt"@;
        assert(s.len() == 4 && s[0] == 's' && s[1] == 'q' && s[2] == 'r' && s[3] == 't');
        reveal_strlit("starts_with");
        let s = "starts_with"@;
        assert(s.len() == 11 && s[0] == 's' && s[1] == 't' && s[2] == 'a' && s[3] == 'r'
            && s[4] == 't' && s[5] == 's' && s[6] == '_' && s[7] == 'w' && s[8] == 'i'
            && s[9] == 't' && s[10] == 'h');
        reveal_strlit("strpos");
        let s = "strpos"@;
        assert(s.len() == 6 && s[0] == 's' && s[1] == 't' && s[2] == 'r' && s[3] == 'p'
            && s[4] == 'o' && s[5] == 's');
        reveal_strlit("substr");
        let s = "substr"@;
        assert(s.len() == 6 && s[0] == 's' && s[1] == 'u' && s[2] == 'b' && s[3] == 's'
            && s[4] == 't' && s[5] == 'r');
        reveal_strlit("tan");
        let s = "tan"@;
        assert(s.len() == 3 && s[0] == 't' && s[1] == 'a' && s[2] == 'n');
        reveal_strlit("tanh");
        let s = "tanh"@;
        assert(s.len() == 4 && s[0] == 't' && s[1] == 'a' && s[2] == 'n' && s[3] == 'h');
        reveal_strlit("to_hex");
        let s = "to_hex"@;
        assert(s.len() == 6 && s[0] == 't' && s[1] == 'o' && s[2] == '_' && s[3] == 'h'
            && s[4] == 'e' && s[5] == 'x');
        reveal_strlit("now");
        let s = "now"@;
        assert(s.len() == 3 && s[0] == 'n' && s[1] == 'o' && s[2] == 'w');
        reveal_strlit("to_timestamp");
        let s = "to_timestamp"@;
        assert(s.len() == 12 && s[0] == 't' && s[1] == 'o' && s[2] == '_' && s[3] == 't'
            && s[4] == 'i' && s[5] == 'm' && s[6] == 'e' && s[7] == 's' && s[8] == 't'
            && s[9] == 'a' && s[10] == 'm' && s[11] == 'p');
        reveal_strlit("to_timestamp_millis");
        let s = "to_timestamp_millis"@;
        assert(s.len() == 19 && s[0] == 't' && s[1] == 'o' && s[2] == '_' && s[3] == 't'
            && s[4] == 'i' && s[5] == 'm' && s[6] == 'e' && s[7] == 's' && s[8] == 't'
            && s[9] == 'a' && s[10] == 'm' && s[11] == 'p' && s[12] == '_' && s[13] == 'm'
            && s[14] == 'i' && s[15] == 'l' && s[16] == 'l' && s[17] == 'i' && s[18] == 's');
        reveal_strlit("to_timestamp_micros");
        let s = "to_timestamp_micros"@;
        assert(s.len() == 19 && s[0] == 't' && s[1] == 'o' && s[2] == '_' && s[3] == 't'
            && s[4] == 'i' && s[5] == 'm' && s[6] == 'e' && s[7] == 's' && s[8] == 't'
            && s[9] == 'a' && s[10] == 'm' && s[11] == 'p' && s[12] == '_' && s[13] == 'm'
            && s[14] == 'i' && s[15] == 'c' && s[16] == 'r' && s[17] == 'o' && s[18] == 's');
        reveal_strlit("to_timestamp_seconds");
        let s = "to_timestamp_seconds"@;
        assert(s.len() == 20 && s[0] == 't' && s[1] == 'o' && s[2] == '_' && s[3] == 't'
            && s[4] == 'i' && s[5] == 'm' && s[6] == 'e' && s[7] == 's' && s[8] == 't'
            && s[9] == 'a' && s[10] == 'm' && s[11] == 'p' && s[12] == '_' && s[13] == 's'
            && s[14] == 'e' && s[15] == 'c' && s[16] == 'o' && s[17] == 'n' && s[18] == 'd'
            && s[19] == 's');
        reveal_strlit("current_date");
        let s = "current_date"@;
        assert(s.len() == 12 && s[0] == 'c' && s[1] == 'u' && s[2] == 'r' && s[3] == 'r'
            && s[4] == 'e' && s[5] == 'n' && s[6] == 't' && s[7] == '_' && s[8] == 'd'
            && s[9] == 'a' && s[10] == 't' && s[11] == 'e');
        reveal_strlit("current_time");
        let s = "current_time"@;
        assert(s.len() == 12 && s[0] == 'c' && s[1] == 'u' && s[2] == 'r' && s[3] == 'r'
            && s[4] == 'e' && s[5] == 'n' && s[6] == 't' && s[7] == '_' && s[8] == 't'
            && s[9] == 'i' && s[10] == 'm' && s[11] == 'e');
        reveal_strlit("date_part");
        let s = "date_part"@;
        assert(s.len() == 9 && s[0] == 'd' && s[1] == 'a' && s[2] == 't' && s[3] == 'e'
            && s[4] == '_' && s[5] == 'p' && s[6] == 'a' && s[7] == 'r' && s[8] == 't');
        reveal_strlit("datepart");
        let s = "datepart"@;
        assert(s.len() == 8 && s[0] == 'd' && s[1] == 'a' && s[2] == 't' && s[3] == 'e'
            && s[4] == 'p' && s[5] == 'a' && s[6] == 'r' && s[7] == 't');
        reveal_strlit("date_trunc");
        let s = "date_trunc"@;
        assert(s.len() == 10 && s[0] == 'd' && s[1] == 'a' && s[2] == 't' && s[3] == 'e'
            && s[4] == '_' && s[5] == 't' && s[6] == 'r' && s[7] == 'u' && s[8] == 'n'
            && s[9] == 'c');
        reveal_strlit("datetrunc");
        let s = "datetrunc"@;
        assert(s.len() == 9 && s[0] == 'd' && s[1] == 'a' && s[2] == 't' && s[3] == 'e'
            && s[4] == 't' && s[5] == 'r' && s[6] == 'u' && s[7] == 'n' && s[8] == 'c');
        reveal_strlit("date_bin");
        let s = "date_bin"@;
        assert(s.len() == 8 && s[0] == 'd' && s[1] == 'a' && s[2] == 't' && s[3] == 'e'
            && s[4] == '_' && s[5] == 'b' && s[6] == 'i' && s[7] == 'n');
        reveal_strlit("translate");
        let s = "translate"@;
        assert(s.len() == 9 && s[0] == 't' && s[1] == 'r' && s[2] == 'a' && s[3] == 'n'
            && s[4] == 's' && s[5] == 'l' && s[6] == 'a' && s[7] == 't' && s[8] == 'e');
        reveal_strlit("trim");
        let s = "trim"@;
        assert(s.len() == 4 && s[0] == 't' && s[1] == 'r' && s[2] == 'i' && s[3] == 'm');
        reveal_strlit("trunc");
        let s = "trunc"@;
        assert(s.len() == 5 && s[0] == 't' && s[1] == 'r' && s[2] == 'u' && s[3] == 'n'
            && s[4] == 'c');
        reveal_strlit("upper");
        let s = "upper"@;
        assert(s.len() == 5 && s[0] == 'u' && s[1] == 'p' && s[2] == 'p' && s[3] == 'e'
            && s[4] == 'r');
        reveal_strlit("make_array");
        let s = "make_array"@;
        assert(s.len() == 10 && s[0] == 'm' && s[1] == 'a' && s[2] == 'k' && s[3] == 'e'
            && s[4] == '_' && s[5] == 'a' && s[6] == 'r' && s[7] == 'r' && s[8] == 'a'
            && s[9] == 'y');
        reveal_strlit("array");
        let s = "array"@;
        assert(s.len() == 5 && s[0] == 'a' && s[1] == 'r' && s[2] == 'r' && s[3] == 'a'
            && s[4] == 'y');
        reveal_strlit("range");
        let s = "range"@;
        assert(s.len() == 5 && s[0] == 'r' && s[1] == 'a' && s[2] == 'n' && s[3] == 'g'
            && s[4] == 'e');
        reveal_strlit("uuid");
        let s = "uuid"@;
        assert(s.len() == 4 && s[0] == 'u' && s[1] == 'u' && s[2] == 'i' && s[3] == 'd');
        reveal_strlit("struct");
        let s = "struct"@;
        assert(s.len() == 6 && s[0] == 's' && s[1] == 't' && s[2] == 'r' && s[3] == 'u'
            && s[4] == 'c' && s[5] == 't');
        reveal_strlit("from_unixtime");
        let s = "from_unixtime"@;
        assert(s.len() == 13 && s[0] == 'f' && s[1] == 'r' && s[2] == 'o' && s[3] == 'm'
            && s[4] == '_' && s[5] == 'u' && s[6] == 'n' && s[7] == 'i' && s[8] == 'x'
            && s[9] == 't' && s[10] == 'i' && s[11] == 'm' && s[12] == 'e');
        reveal_strlit("arrow_typeof");
        let s = "arrow_typeof"@;
        assert(s.len() == 12 && s[0] == 'a' && s[1] == 'r' && s[2] == 'r' && s[3] == 'o'
            && s[4] == 'w' && s[5] == '_' && s[6] == 't' && s[7] == 'y' && s[8] == 'p'
            && s[9] == 'e' && s[10] == 'o' && s[11] == 'f');
        reveal_strlit("random");
        let s = "random"@;
        assert(s.len() == 6 && s[0] == 'r' && s[1] == 'a' && s[2] == 'n' && s[3] == 'd'
            && s[4] == 'o' && s[5] == 'm');
        reveal_strlit("array_append");
        let s = "array_append"@;
        assert(s.len() == 12 && s[0] == 'a' && s[1] == 'r' && s[2] == 'r' && s[3] == 'a'
            && s[4] == 'y' && s[5] == '_' && s[6] == 'a' && s[7] == 'p' && s[8] == 'p'
            && s[9] == 'e' && s[10] == 'n' && s[11] == 'd');
        reveal_strlit("array_push_back");
        let s = "array_push_back"@;
        assert(s.len() == 15 && s[0] == 'a' && s[1] == 'r' && s[2] == 'r' && s[3] == 'a'
            && s[4] == 'y' && s[5] == '_' && s[6] == 'p' && s[7] == 'u' && s[8] == 's'
            && s[9] == 'h' && s[10] == '_' && s[11] == 'b' && s[12] == 'a' && s[13] == 'c'
            && s[14] == 'k');
        reveal_strlit("list_append");
        let s = "list_append"@;
        assert(s.len() == 11 && s[0] == 'l' && s[1] == 'i' && s[2] == 's' && s[3] == 't'
            && s[4] == '_' && s[5] == 'a' && s[6] == 'p' && s[7] == 'p' && s[8] == 'e'
            && s[9] == 'n' && s[10] == 'd');
        reveal_strlit("list_push_back");
        let s = "list_push_back"@;
        assert(s.len() == 14 && s[0] == 'l' && s[1] == 'i' && s[2] == 's' && s[3] == 't'
            && s[4] == '_' && s[5] == 'p' && s[6] == 'u' && s[7] == 's' && s[8] == 'h'
            && s[9] == '_' && s[10] == 'b' && s[11] == 'a' && s[12] == 'c' && s[13] == 'k');
        reveal_strlit("array_concat");
        let s = "array_concat"@;
        assert(s.len() == 12 && s[0] == 'a' && s[1] == 'r' && s[2] == 'r' && s[3] == 'a'
            && s[4] == 'y' && s[5] == '_' && s[6] == 'c' && s[7] == 'o' && s[8] == 'n'
            && s[9] == 'c' && s[10] == 'a' && s[11] == 't');
        reveal_strlit("array_cat");
        let s = "array_cat"@;
        assert(s.len() == 9 && s[0] == 'a' && s[1] == 'r' && s[2] == 'r' && s[3] == 'a'
            && s[4] == 'y' && s[5] == '_' && s[6] == 'c' && s[7] == 'a' && s[8] == 't');
        reveal_strlit("array_dims");
        let s = "array_dims"@;
        assert(s.len() == 10 && s[0] == 'a' && s[1] == 'r' && s[2] == 'r' && s[3] == 'a'
            && s[4] == 'y' && s[5] == '_' && s[6] == 'd' && s[7] == 'i' && s[8] == 'm'
            && s[9] == 's');
        reveal_strlit("list_dims");
        let s = "list_dims"@;
        assert(s.len() == 9 && s[0] == 'l' && s[1] == 'i' && s[2] == 's' && s[3] == 't'
            && s[4] == '_' && s[5] == 'd' && s[6] == 'i' && s[7] == 'm' && s[8] == 's');
        reveal_strlit("array_distinct");
        let s = "array_distinct"@;
        assert(s.len() == 14 && s[0] == 'a' && s[1] == 'r' && s[2] == 'r' && s[3] == 'a'
            && s[4] == 'y' && s[5] == '_' && s[6] == 'd' && s[7] == 'i' && s[8] == 's'
            && s[9] == 't' && s[10] == 'i' && s[11] == 'n' && s[12] == 'c' && s[13] == 't');
        reveal_strlit("list_distinct");
        let s = "list_distinct"@;
        assert(s.len() == 13 && s[0] == 'l' && s[1] == 'i' && s[2] == 's' && s[3] == 't'
            && s[4] == '_' && s[5] == 'd' && s[6] == 'i' && s[7] == 's' && s[8] == 't'
            && s[9] == 'i' && s[10] == 'n' && s[11] == 'c' && s[12] == 't');
        reveal_strlit("array_element");
        let s = "array_element"@;
        assert(s.len() == 13 && s[0] == 'a' && s[1] == 'r' && s[2] == 'r' && s[3] == 'a'
            && s[4] == 'y' && s[5] == '_' && s[6] == 'e' && s[7] == 'l' && s[8] == 'e'
            && s[9] == 'm' && s[10] == 'e' && s[11] == 'n' && s[12] == 't');
        reveal_strlit("array_extract");
        let s = "array_extract"@;
        assert(s.len() == 13 && s[0] == 'a' && s[1] == 'r' && s[2] == 'r' && s[3] == 'a'
            && s[4] == 'y' && s[5] == '_' && s[6] == 'e' && s[7] == 'x' && s[8] == 't'
            && s[9] == 'r' && s[10] == 'a' && s[11] == 'c' && s[12] == 't');
        reveal_strlit("list_element");
        let s = "list_element"@;
        assert(s.len() == 12 && s[0] == 'l' && s[1] == 'i' && s[2] == 's' && s[3] == 't'
            && s[4] == '_' && s[5] == 'e' && s[6] == 'l' && s[7] == 'e' && s[8] == 'm'
            && s[9] == 'e' && s[10] == 'n' && s[11] == 't');
        reveal_strlit("list_extract");
        let s = "list_extract"@;
        assert(s.len() == 12 && s[0] == 'l' && s[1] == 'i' && s[2] == 's' && s[3] == 't'
            && s[4] == '_' && s[5] == 'e' && s[6] == 'x' && s[7] == 't' && s[8] == 'r'
            && s[9] == 'a' && s[10] == 'c' && s[11] == 't');
        reveal_strlit("array_length");
        let s = "array_length"@;
        assert(s.len() == 12 && s[0] == 'a' && s[1] == 'r' && s[2] == 'r' && s[3] == 'a'
            && s[4] == 'y' && s[5] == '_' && s[6] == 'l' && s[7] == 'e' && s[8] == 'n'
            && s[9] == 'g' && s[10] == 't' && s[11] == 'h');
        reveal_strlit("list_length");
        let s = "list_length"@;
        assert(s.len() == 11 && s[0] == 'l' && s[1] == 'i' && s[2] == 's' && s[3] == 't'
            && s[4] == '_' && s[5] == 'l' && s[6] == 'e' && s[7] == 'n' && s[8] == 'g'
            && s[9] == 't' && s[10] == 'h');
        reveal_strlit("array_has");
        let s = "array_has"@;
        assert(s.len() == 9 && s[0] == 'a' && s[1] == 'r' && s[2] == 'r' && s[3] == 'a'
            && s[4] == 'y' && s[5] == '_' && s[6] == 'h' && s[7] == 'a' && s[8] == 's');
        reveal_strlit("array_has_all");
        let s = "array_has_all"@;
        assert(s.len() == 13 && s[0] == 'a' && s[1] == 'r' && s[2] == 'r' && s[3] == 'a'
            && s[4] == 'y' && s[5] == '_' && s[6] == 'h' && s[7] == 'a' && s[8] == 's'
            && s[9] == '_' && s[10] == 'a' && s[11] == 'l' && s[12] == 'l');
        reveal_strlit("array_has_any");
        let s = "array_has_any"@;
        assert(s.len() == 13 && s[0] == 'a' && s[1] == 'r' && s[2] == 'r' && s[3] == 'a'
            && s[4] == 'y' && s[5] == '_' && s[6] == 'h' && s[7] == 'a' && s[8] == 's'
            && s[9] == '_' && s[10] == 'a' && s[11] == 'n' && s[12] == 'y');
        reveal_strlit("array_position");
        let s = "array_position"@;
        assert(s.len() == 14 && s[0] == 'a' && s[1] == 'r' && s[2] == 'r' && s[3] == 'a'
            && s[4] == 'y' && s[5] == '_' && s[6] == 'p' && s[7] == 'o' && s[8] == 's'
            && s[9] == 'i' && s[10] == 't' && s[11] == 'i' && s[12] == 'o' && s[13] == 'n');
        reveal_strlit("array_indexof");
        let s = "array_indexof"@;
        assert(s.len() == 13 && s[0] == 'a' && s[1] == 'r' && s[2] == 'r' && s[3] == 'a'
            && s[4] == 'y' && s[5] == '_' && s[6] == 'i' && s[7] == 'n' && s[8] == 'd'
            && s[9] == 'e' && s[10] == 'x' && s[11] == 'o' && s[12] == 'f');
        reveal_strlit("list_position");
        let s = "list_position"@;
        assert(s.len() == 13 && s[0] == 'l' && s[1] == 'i' && s[2] == 's' && s[3] == 't'
            && s[4] == '_' && s[5] == 'p' && s[6] == 'o' && s[7] == 's' && s[8] == 'i'
            && s[9] == 't' && s[10] == 'i' && s[11] == 'o' && s[12] == 'n');
        reveal_strlit("list_indexof");
        let s = "list_indexof"@;
        assert(s.len() == 12 && s[0] == 'l' && s[1] == 'i' && s[2] == 's' && s[3] == 't'
            && s[4] == '_' && s[5] == 'i' && s[6] == 'n' && s[7] == 'd' && s[8] == 'e'
            && s[9] == 'x' && s[10] == 'o' && s[11] == 'f');
        reveal_strlit("array_positions");
        let s = "array_positions"@;
        assert(s.len() == 15 && s[0] == 'a' && s[1] == 'r' && s[2] == 'r' && s[3] == 'a'
            && s[4] == 'y' && s[5] == '_' && s[6] == 'p' && s[7] == 'o' && s[8] == 's'
            && s[9] == 'i' && s[10] == 't' && s[11] == 'i' && s[12] == 'o' && s[13] == 'n'
            && s[14] == 's');
        reveal_strlit("list_positions");
        let s = "list_positions"@;
        assert(s.len() == 14 && s[0] == 'l' && s[1] == 'i' && s[2] == 's' && s[3] == 't'
            && s[4] == '_' && s[5] == 'p' && s[6] == 'o' && s[7] == 's' && s[8] == 'i'
            && s[9] == 't' && s[10] == 'i' && s[11] == 'o' && s[12] == 'n' && s[13] == 's');
        reveal_strlit("array_ndims");
        let s = "array_ndims"@;
        assert(s.len() == 11 && s[0] == 'a' && s[1] == 'r' && s[2] == 'r' && s[3] == 'a'
            && s[4] == 'y' && s[5] == '_' && s[6] == 'n' && s[7] == 'd' && s[8] == 'i'
            && s[9] == 'm' && s[10] == 's');
        reveal_strlit("list_ndims");
        let s = "list_ndims"@;
        assert(s.len() == 10 && s[0] == 'l' && s[1] == 'i' && s[2] == 's' && s[3] == 't'
            && s[4] == '_' && s[5] == 'n' && s[6] == 'd' && s[7] == 'i' && s[8] == 'm'
            && s[9] == 's');
        reveal_strlit("array_prepend");
        let s = "array_prepend"@;
        assert(s.len() == 13 && s[0] == 'a' && s[1] == 'r' && s[2] == 'r' && s[3] == 'a'
            && s[4] == 'y' && s[5] == '_' && s[6] == 'p' && s[7] == 'r' && s[8] == 'e'
            && s[9] == 'p' && s[10] == 'e' && s[11] == 'n' && s[12] == 'd');
        reveal_strlit("array_push_front");
        let s = "array_push_front"@;
        assert(s.len() == 16 && s[0] == 'a' && s[1] == 'r' && s[2] == 'r' && s[3] == 'a'
            && s[4] == 'y' && s[5] == '_' && s[6] == 'p' && s[7] == 'u' && s[8] == 's'
            && s[9] == 'h' && s[10] == '_' && s[11] == 'f' && s[12] == 'r' && s[13] == 'o'
            && s[14] == 'n' && s[15] == 't');
        reveal_strlit("list_prepend");
        let s = "list_prepend"@;
        assert(s.len() == 12 && s[0] == 'l' && s[1] == 'i' && s[2] == 's' && s[3] == 't'
            && s[4] == '_' && s[5] == 'p' && s[6] == 'r' && s[7] == 'e' && s[8] == 'p'
            && s[9] == 'e' && s[10] == 'n' && s[11] == 'd');
        reveal_strlit("list_push_front");
        let s = "list_push_front"@;
        assert(s.len() == 15 && s[0] == 'l' && s[1] == 'i' && s[2] == 's' && s[3] == 't'
            && s[4] == '_' && s[5] == 'p' && s[6] == 'u' && s[7] == 's' && s[8] == 'h'
            && s[9] == '_' && s[10] == 'f' && s[11] == 'r' && s[12] == 'o' && s[13] == 'n'
            && s[14] == 't');
        reveal_strlit("array_pop_back");
        let s = "array_pop_back"@;
        assert(s.len() == 14 && s[0] == 'a' && s[1] == 'r' && s[2] == 'r' && s[3] == 'a'
            && s[4] == 'y' && s[5] == '_' && s[6] == 'p' && s[7] == 'o' && s[8] == 'p'
            && s[9] == '_' && s[10] == 'b' && s[11] == 'a' && s[12] == 'c' && s[13] == 'k');
        reveal_strlit("array_pop_front");
        let s = "array_pop_front"@;
        assert(s.len() == 15 && s[0] == 'a' && s[1] == 'r' && s[2] == 'r' && s[3] == 'a'
            && s[4] == 'y' && s[5] == '_' && s[6] == 'p' && s[7] == 'o' && s[8] == 'p'
            && s[9] == '_' && s[10] == 'f' && s[11] == 'r' && s[12] == 'o' && s[13] == 'n'
            && s[14] == 't');
        reveal_strlit("array_remove");
        let s = "array_remove"@;
        assert(s.len() == 12 && s[0] == 'a' && s[1] == 'r' && s[2] == 'r' && s[3] == 'a'
            && s[4] == 'y' && s[5] == '_' && s[6] == 'r' && s[7] == 'e' && s[8] == 'm'
            && s[9] == 'o' && s[10] == 'v' && s[11] == 'e');
        reveal_strlit("list_remove");
        let s = "list_remove"@;
        assert(s.len() == 11 && s[0] == 'l' && s[1] == 'i' && s[2] == 's' && s[3] == 't'
            && s[4] == '_' && s[5] == 'r' && s[6] == 'e' && s[7] == 'm' && s[8] == 'o'
            && s[9] == 'v' && s[10] == 'e');
        reveal_strlit("array_remove_n");
        let s = "array_remove_n"@;
        assert(s.len() == 14 && s[0] == 'a' && s[1] == 'r' && s[2] == 'r' && s[3] == 'a'
            && s[4] == 'y' && s[5] == '_' && s[6] == 'r' && s[7] == 'e' && s[8] == 'm'
            && s[9] == 'o' && s[10] == 'v' && s[11] == 'e' && s[12] == '_' && s[13] == 'n');
        reveal_strlit("list_remove_n");
        let s = "list_remove_n"@;
        assert(s.len() == 13 && s[0] == 'l' && s[1] == 'i' && s[2] == 's' && s[3] == 't'
            && s[4] == '_' && s[5] == 'r' && s[6] == 'e' && s[7] == 'm' && s[8] == 'o'
            && s[9] == 'v' && s[10] == 'e' && s[11] == '_' && s[12] == 'n');
        reveal_strlit("array_remove_all");
        let s = "array_remove_all"@;
        assert(s.len() == 16 && s[0] == 'a' && s[1] == 'r' && s[2] == 'r' && s[3] == 'a'
            && s[4] == 'y' && s[5] == '_' && s[6] == 'r' && s[7] == 'e' && s[8] == 'm'
            && s[9] == 'o' && s[10] == 'v' && s[11] == 'e' && s[12] == '_' && s[13] == 'a'
            && s[14] == 'l' && s[15] == 'l');
        reveal_strlit("list_remove_all");
        let s = "list_remove_all"@;
        assert(s.len() == 15 && s[0] == 'l' && s[1] == 'i' && s[2] == 's' && s[3] == 't'
            && s[4] == '_' && s[5] == 'r' && s[6] == 'e' && s[7] == 'm' && s[8] == 'o'
            && s[9] == 'v' && s[10] == 'e' && s[11] == '_' && s[12] == 'a' && s[13] == 'l'
            && s[14] == 'l');
        reveal_strlit("array_repeat");
        let s = "array_repeat"@;
        assert(s.len() == 12 && s[0] == 'a' && s[1] == 'r' && s[2] == 'r' && s[3] == 'a'
            && s[4] == 'y' && s[5] == '_' && s[6] == 'r' && s[7] == 'e' && s[8] == 'p'
            && s[9] == 'e' && s[10] == 'a' && s[11] == 't');
        reveal_strlit("array_replace");
        let s = "array_replace"@;
        assert(s.len() == 13 && s[0] == 'a' && s[1] == 'r' && s[2] == 'r' && s[3] == 'a'
            && s[4] == 'y' && s[5] == '_' && s[6] == 'r' && s[7] == 'e' && s[8] == 'p'
            && s[9] == 'l' && s[10] == 'a' && s[11] == 'c' && s[12] == 'e');
        reveal_strlit("list_replace");
        let s = "list_replace"@;
        assert(s.len() == 12 && s[0] == 'l' && s[1] == 'i' && s[2] == 's' && s[3] == 't'
            && s[4] == '_' && s[5] == 'r' && s[6] == 'e' && s[7] == 'p' && s[8] == 'l'
            && s[9] == 'a' && s[10] == 'c' && s[11] == 'e');
        reveal_strlit("array_replace_n");
        let s = "array_replace_n"@;
        assert(s.len() == 15 && s[0] == 'a' && s[1] == 'r' && s[2] == 'r' && s[3] == 'a'
            && s[4] == 'y' && s[5] == '_' && s[6] == 'r' && s[7] == 'e' && s[8] == 'p'
            && s[9] == 'l' && s[10] == 'a' && s[11] == 'c' && s[12] == 'e' && s[13] == '_'
            && s[14] == 'n');
        reveal_strlit("list_replace_n");
        let s = "list_replace_n"@;
        assert(s.len() == 14 && s[0] == 'l' && s[1] == 'i' && s[2] == 's' && s[3] == 't'
            && s[4] == '_' && s[5] == 'r' && s[6] == 'e' && s[7] == 'p' && s[8] == 'l'
            && s[9] == 'a' && s[10] == 'c' && s[11] == 'e' && s[12] == '_' && s[13] == 'n');
        reveal_strlit("array_replace_all");
        let s = "array_replace_all"@;
        assert(s.len() == 17 && s[0] == 'a' && s[1] == 'r' && s[2] == 'r' && s[3] == 'a'
            && s[4] == 'y' && s[5] == '_' && s[6] == 'r' && s[7] == 'e' && s[8] == 'p'
            && s[9] == 'l' && s[10] == 'a' && s[11] == 'c' && s[12] == 'e' && s[13] == '_'
            && s[14] == 'a' && s[15] == 'l' && s[16] == 'l');
        reveal_strlit("list_replace_all");
        let s = "list_replace_all"@;
        assert(s.len() == 16 && s[0] == 'l' && s[1] == 'i' && s[2] == 's' && s[3] == 't'
            && s[4] == '_' && s[5] == 'r' && s[6] == 'e' && s[7] == 'p' && s[8] == 'l'
            && s[9] == 'a' && s[10] == 'c' && s[11] == 'e' && s[12] == '_' && s[13] == 'a'
            && s[14] == 'l' && s[15] == 'l');
        reveal_strlit("array_slice");
        let s = "array_slice"@;
        assert(s.len() == 11 && s[0] == 'a' && s[1] == 'r' && s[2] == 'r' && s[3] == 'a'
            && s[4] == 'y' && s[5] == '_' && s[6] == 's' && s[7] == 'l' && s[8] == 'i'
            && s[9] == 'c' && s[10] == 'e');
        reveal_strlit("list_slice");
        let s = "list_slice"@;
        assert(s.len() == 10 && s[0] == 'l' && s[1] == 'i' && s[2] == 's' && s[3] == 't'
            && s[4] == '_' && s[5] == 's' && s[6] == 'l' && s[7] == 'i' && s[8] == 'c'
            && s[9] == 'e');
        reveal_strlit("array_intersect");
        let s = "array_intersect"@;
        assert(s.len() == 15 && s[0] == 'a' && s[1] == 'r' && s[2] == 'r' && s[3] == 'a'
            && s[4] == 'y' && s[5] == '_' && s[6] == 'i' && s[7] == 'n' && s[8] == 't'
            && s[9] == 'e' && s[10] == 'r' && s[11] == 's' && s[12] == 'e' && s[13] == 'c'
            && s[14] == 't');
        reveal_strlit("list_intersect");
        let s = "list_intersect"@;
        assert(s.len() == 14 && s[0] == 'l' && s[1] == 'i' && s[2] == 's' && s[3] == 't'
            && s[4] == '_' && s[5] == 'i' && s[6] == 'n' && s[7] == 't' && s[8] == 'e'
            && s[9] == 'r' && s[10] == 's' && s[11] == 'e' && s[12] == 'c' && s[13] == 't');
        reveal_strlit("array_union");
        let s = "array_union"@;
        assert(s.len() == 11 && s[0] == 'a' && s[1] == 'r' && s[2] == 'r' && s[3] == 'a'
            && s[4] == 'y' && s[5] == '_' && s[6] == 'u' && s[7] == 'n' && s[8] == 'i'
            && s[9] == 'o' && s[10] == 'n');
        reveal_strlit("list_union");
        let s = "list_union"@;
        assert(s.len() == 10 && s[0] == 'l' && s[1] == 'i' && s[2] == 's' && s[3] == 't'
            && s[4] == '_' && s[5] == 'u' && s[6] == 'n' && s[7] == 'i' && s[8] == 'o'
            && s[9] == 'n');
        reveal_strlit("array_except");
        let s = "array_except"@;
        assert(s.len() == 12 && s[0] == 'a' && s[1] == 'r' && s[2] == 'r' && s[3] == 'a'
            && s[4] == 'y' && s[5] == '_' && s[6] == 'e' && s[7] == 'x' && s[8] == 'c'
            && s[9] == 'e' && s[10] == 'p' && s[11] == 't');
        reveal_strlit("list_except");
        let s = "list_except"@;
        assert(s.len() == 11 && s[0] == 'l' && s[1] == 'i' && s[2] == 's' && s[3] == 't'
            && s[4] == '_' && s[5] == 'e' && s[6] == 'x' && s[7] == 'c' && s[8] == 'e'
            && s[9] == 'p' && s[10] == 't');
        reveal_strlit("array_resize");
        let s = "array_resize"@;
        assert(s.len() == 12 && s[0] == 'a' && s[1] == 'r' && s[2] == 'r' && s[3] == 'a'
            && s[4] == 'y' && s[5] == '_' && s[6] == 'r' && s[7] == 'e' && s[8] == 's'
            && s[9] == 'i' && s[10] == 'z' && s[11] == 'e');
        reveal_strlit("list_resize");
        let s = "list_resize"@;
        assert(s.len() == 11 && s[0] == 'l' && s[1] == 'i' && s[2] == 's' && s[3] == 't'
            && s[4] == '_' && s[5] == 'r' && s[6] == 'e' && s[7] == 's' && s[8] == 'i'
            && s[9] == 'z' && s[10] == 'e');
        reveal_strlit("flatten");
        let s = "flatten"@;
        assert(s.len() == 7 && s[0] == 'f' && s[1] == 'l' && s[2] == 'a' && s[3] == 't'
            && s[4] == 't' && s[5] == 'e' && s[6] == 'n');
        reveal_strlit("concat");
        let s = "concat"@;
        assert(s.len() == 6 && s[0] == 'c' && s[1] == 'o' && s[2] == 'n' && s[3] == 'c'
            && s[4] == 'a' && s[5] == 't');
        reveal_strlit("concat_ws");
        let s = "concat_ws"@;
        assert(s.len() == 9 && s[0] == 'c' && s[1] == 'o' && s[2] == 'n' && s[3] == 'c'
            && s[4] == 'a' && s[5] == 't' && s[6] == '_' && s[7] == 'w' && s[8] == 's');
        reveal_strlit("digest");
        let s = "digest"@;
        assert(s.len() == 6 && s[0] == 'd' && s[1] == 'i' && s[2] == 'g' && s[3] == 'e'
            && s[4] == 's' && s[5] == 't');
        reveal_strlit("isnan");
        let s = "isnan"@;
        assert(s.len() == 5 && s[0] == 'i' && s[1] == 's' && s[2] == 'n' && s[3] == 'a'
            && s[4] == 'n');
        reveal_strlit("nullif");
        let s = "nullif"@;
        assert(s.len() == 6 && s[0] == 'n' && s[1] == 'u' && s[2] == 'l' && s[3] == 'l'
            && s[4] == 'i' && s[5] == 'f');
        reveal_strlit("encode");
        let s = "encode"@;
        assert(s.len() == 6 && s[0] == 'e' && s[1] == 'n' && s[2] == 'c' && s[3] == 'o'
            && s[4] == 'd' && s[5] == 'e');
        reveal_strlit("decode");
        let s = "decode"@;
        assert(s.len() == 6 && s[0] == 'd' && s[1] == 'e' && s[2] == 'c' && s[3] == 'o'
            && s[4] == 'd' && s[5] == 'e');
        reveal_strlit("array_to_string");
        let s = "array_to_string"@;
        assert(s.len() == 15 && s[0] == 'a' && s[1] == 'r' && s[2] == 'r' && s[3] == 'a'
            && s[4] == 'y' && s[5] == '_' && s[6] == 't' && s[7] == 'o' && s[8] == '_'
            && s[9] == 's' && s[10] == 't' && s[11] == 'r' && s[12] == 'i' && s[13] == 'n'
            && s[14] == 'g');
        reveal_strlit("array_join");
        let s = "array_join"@;
        assert(s.len() == 10 && s[0] == 'a' && s[1] == 'r' && s[2] == 'r' && s[3] == 'a'
            && s[4] == 'y' && s[5] == '_' && s[6] == 'j' && s[7] == 'o' && s[8] == 'i'
            && s[9] == 'n');
        reveal_strlit("list_to_string");
        let s = "list_to_string"@;
        assert(s.len() == 14 && s[0] == 'l' && s[1] == 'i' && s[2] == 's' && s[3] == 't'
            && s[4] == '_' && s[5] == 't' && s[6] == 'o' && s[7] == '_' && s[8] == 's'
            && s[9] == 't' && s[10] == 'r' && s[11] == 'i' && s[12] == 'n' && s[13] == 'g');
        reveal_strlit("list_join");
        let s = "list_join"@;
        assert(s.len() == 9 && s[0] == 'l' && s[1] == 'i' && s[2] == 's' && s[3] == 't'
            && s[4] == '_' && s[5] == 'j' && s[6] == 'o' && s[7] == 'i' && s[8] == 'n');
    }
}

/// The scalar operation that `name` resolves to, if there is one.
pub open spec fn scalar_function_named(name: Seq<char>) -> Option<ScalarFunction> {
    named::<ScalarFunction>(name)
}

/// Looks `name` up among the scalar operations. The name may be the canonical
/// name of an operation or one of its aliases; it is matched as it is written.
pub fn lookup_scalar(name: &str) -> (found: Option<ScalarFunction>)
    ensures
        found == scalar_function_named(name@),
{
    lookup::<ScalarFunction>(name)
}

} // verus!
