//! Marshaling of options and paths into the layout of the native entry
//! points: nul-terminated byte strings, an array of them that is null when
//! empty, and flags as integers.

use vstd::prelude::*;
use vstd::string::*;
use vstd::utf8::encode_utf8;
use crate::error::{ErrorKind, OnnxSimError};
use crate::options::{texts, SimplifyOptions};

verus! {

/// Whether `i` is the place of the first zero byte of `bytes`.
pub open spec fn is_first_nul(bytes: Seq<u8>, i: int) -> bool {
    &&& 0 <= i < bytes.len()
    &&& bytes[i] == 0u8
    &&& forall|j: int| 0 <= j < i ==> bytes[j] != 0u8
}

/// Whether `bytes` holds a zero byte.
pub open spec fn has_nul(bytes: Seq<u8>) -> bool {
    exists|i: int| 0 <= i < bytes.len() && bytes[i] == 0u8
}

/// The place of the first zero byte of `bytes`, where it has one.
pub open spec fn nul_position(bytes: Seq<u8>) -> int {
    choose|i: int| is_first_nul(bytes, i)
}

/// The nul-terminated form of a text: its UTF-8 bytes, then one zero byte.
pub open spec fn c_string(text: Seq<char>) -> Seq<u8> {
    encode_utf8(text).push(0u8)
}

/// Whether a text can be nul-terminated: its UTF-8 form holds no zero byte.
pub open spec fn representable(text: Seq<char>) -> bool {
    !has_nul(encode_utf8(text))
}

/// Whether every text of a list can be nul-terminated.
pub open spec fn all_representable(names: Seq<Seq<char>>) -> bool {
    forall|i: int| 0 <= i < names.len() ==> representable(#[trigger] names[i])
}

/// Whether `k` is the place of the first text of `names` that cannot be
/// nul-terminated.
pub open spec fn is_first_rejected(names: Seq<Seq<char>>, k: int) -> bool {
    &&& 0 <= k < names.len()
    &&& !representable(names[k])
    &&& forall|j: int| 0 <= j < k ==> representable(#[trigger] names[j])
}

/// The first text of `names` that cannot be nul-terminated, where there is
/// one.
pub open spec fn first_rejected(names: Seq<Seq<char>>) -> Seq<char> {
    names[choose|k: int| is_first_rejected(names, k)]
}

/// The nul-terminated forms of a list of texts.
pub open spec fn c_strings(names: Seq<Seq<char>>) -> Seq<Seq<u8>> {
    Seq::new(names.len(), |i: int| c_string(names[i]))
}

/// The contents of a list of byte strings, in order.
pub open spec fn rows(list: Seq<Vec<u8>>) -> Seq<Seq<u8>> {
    Seq::new(list.len(), |i: int| list[i]@)
}

/// The character of a decimal digit.
pub open spec fn digit(d: nat) -> char {
    if d == 0 {
        '0'
    } else if d == 1 {
        '1'
    } else if d == 2 {
        '2'
    } else if d == 3 {
        '3'
    } else if d == 4 {
        '4'
    } else if d == 5 {
        '5'
    } else if d == 6 {
        '6'
    } else if d == 7 {
        '7'
    } else if d == 8 {
        '8'
    } else {
        '9'
    }
}

/// A number in decimal, without leading zeros.
pub open spec fn decimal(n: nat) -> Seq<char>
    decreases n,
{
    if n < 10 {
        seq![digit(n)]
    } else {
        decimal(n / 10).push(digit(n % 10))
    }
}

/// The message for a text whose UTF-8 form has its first zero byte at
/// `position`.
pub open spec fn nul_message(position: nat) -> Seq<char> {
    "nul byte found in provided data at position: "@ + decimal(position)
}

/// The message for a text that cannot be nul-terminated.
pub open spec fn rejection_message(text: Seq<char>) -> Seq<char> {
    nul_message(nul_position(encode_utf8(text)) as nat)
}

/// Two places that are both the first zero byte are one place.
pub proof fn lemma_first_nul_unique(bytes: Seq<u8>, i: int, j: int)
    requires
        is_first_nul(bytes, i),
        is_first_nul(bytes, j),
    ensures
        i == j,
{
}

/// Where `i` is the first zero byte, `nul_position` names it.
pub proof fn lemma_nul_position(bytes: Seq<u8>, i: int)
    requires
        is_first_nul(bytes, i),
    ensures
        nul_position(bytes) == i,
        has_nul(bytes),
{
    lemma_first_nul_unique(bytes, i, nul_position(bytes));
}

/// Where `k` is the first rejected text, `first_rejected` names it.
pub proof fn lemma_first_rejected(names: Seq<Seq<char>>, k: int)
    requires
        is_first_rejected(names, k),
    ensures
        first_rejected(names) == names[k],
        !all_representable(names),
{
    let c = choose|c: int| is_first_rejected(names, c);
    assert(is_first_rejected(names, c));
    if c < k {
        assert(representable(names[c]));
    } else if k < c {
        assert(representable(names[k]));
    }
}

/// Finds the first zero byte.
pub fn find_nul(bytes: &Vec<u8>) -> (found: Option<usize>)
    ensures
        match found {
            Some(i) => is_first_nul(bytes@, i as int),
            None => !has_nul(bytes@),
        },
{
    let mut i: usize = 0;
    while i < bytes.len()
        invariant
            i <= bytes.len(),
            forall|j: int| 0 <= j < i ==> bytes@[j] != 0u8,
        decreases bytes.len() - i,
    {
        if bytes[i] == 0u8 {
            return Some(i);
        }
        i += 1;
    }
    None
}

fn digit_text(d: usize) -> (text: &'static str)
    requires
        d < 10,
    ensures
        text@ == seq![digit(d as nat)],
{
    proof {
        reveal_strlit("0");
        reveal_strlit("1");
        reveal_strlit("2");
        reveal_strlit("3");
        reveal_strlit("4");
        reveal_strlit("5");
        reveal_strlit("6");
        reveal_strlit("7");
        reveal_strlit("8");
        reveal_strlit("9");
    }
    let text = if d == 0 {
        "0"
    } else if d == 1 {
        "1"
    } else if d == 2 {
        "2"
    } else if d == 3 {
        "3"
    } else if d == 4 {
        "4"
    } else if d == 5 {
        "5"
    } else if d == 6 {
        "6"
    } else if d == 7 {
        "7"
    } else if d == 8 {
        "8"
    } else {
        "9"
    };
    assert(text@ =~= seq![digit(d as nat)]);
    text
}

/// Writes a number in decimal.
pub fn decimal_text(n: usize) -> (text: String)
    ensures
        text@ == decimal(n as nat),
    decreases n,
{
    if n < 10 {
        String::from_str(digit_text(n))
    } else {
        let mut text = decimal_text(n / 10);
        text.append(digit_text(n % 10));
        assert(text@ =~= decimal(n as nat));
        text
    }
}

/// The nul-terminated form of a text, or the place of the first zero byte
/// of its UTF-8 form.
pub fn to_c_string(text: &str) -> (r: Result<Vec<u8>, usize>)
    ensures
        r is Ok <==> representable(text@),
        match r {
            Ok(bytes) => bytes@ == c_string(text@),
            Err(position) => is_first_nul(encode_utf8(text@), position as int),
        },
{
    let mut bytes = text.as_bytes_vec();
    match find_nul(&bytes) {
        Some(position) => {
            proof {
                lemma_nul_position(bytes@, position as int);
            }
            Err(position)
        },
        None => {
            bytes.push(0u8);
            Ok(bytes)
        },
    }
}

/// The error for a text that cannot be nul-terminated.
fn rejection(position: usize) -> (e: OnnxSimError)
    ensures
        e.is(ErrorKind::InvalidArgument, nul_message(position as nat)),
{
    let message = String::from_str("nul byte found in provided data at position: ").concat(
        decimal_text(position).as_str(),
    );
    OnnxSimError::InvalidArgument(message)
}

/// Nul-terminates a text that is handed to the native side.
pub fn marshal_text(text: &str) -> (r: Result<Vec<u8>, OnnxSimError>)
    ensures
        r is Ok <==> representable(text@),
        match r {
            Ok(bytes) => bytes@ == c_string(text@),
            Err(e) => e.is(ErrorKind::InvalidArgument, rejection_message(text@)),
        },
{
    match to_c_string(text) {
        Ok(bytes) => Ok(bytes),
        Err(position) => {
            proof {
                lemma_nul_position(encode_utf8(text@), position as int);
            }
            Err(rejection(position))
        },
    }
}

/// Nul-terminates every name of a list, in order. The first name that
/// cannot be nul-terminated fails the whole list.
pub fn marshal_names(names: &Vec<String>) -> (r: Result<Vec<Vec<u8>>, OnnxSimError>)
    ensures
        r is Ok <==> all_representable(texts(names@)),
        match r {
            Ok(list) => rows(list@) == c_strings(texts(names@)),
            Err(e) => e.is(
                ErrorKind::InvalidArgument,
                rejection_message(first_rejected(texts(names@))),
            ),
        },
{
    let mut list: Vec<Vec<u8>> = Vec::new();
    let mut i: usize = 0;
    while i < names.len()
        invariant
            i <= names.len(),
            list@.len() == i,
            forall|j: int| 0 <= j < i ==> representable(#[trigger] texts(names@)[j]),
            forall|j: int| 0 <= j < i ==> (#[trigger] list@[j])@ == c_string(names@[j]@),
        decreases names.len() - i,
    {
        match marshal_text(names[i].as_str()) {
            Ok(bytes) => {
                list.push(bytes);
            },
            Err(e) => {
                proof {
                    assert(texts(names@)[i as int] == names@[i as int]@);
                    lemma_first_rejected(texts(names@), i as int);
                }
                return Err(e);
            },
        }
        i += 1;
    }
    assert(rows(list@) =~= c_strings(texts(names@)));
    Ok(list)
}

/// The options of one call in the layout of the native entry points.
#[derive(Debug, Clone, PartialEq, Eq)]
pub struct NativeArgs {
    /// The array of nul-terminated optimizer names; `None` is the null
    /// array pointer.
    pub skip_optimizers: Option<Vec<Vec<u8>>>,
    /// The number of entries of the array.
    pub skip_count: usize,
    /// Constant folding as an integer flag.
    pub constant_folding: i32,
    /// Shape inference as an integer flag.
    pub shape_inference: i32,
    /// The threshold, passed by value.
    pub tensor_size_threshold: usize,
}

/// A boolean as the integer flag of the native side.
pub open spec fn flag(enabled: bool) -> i32 {
    if enabled {
        1i32
    } else {
        0i32
    }
}

/// Whether `bytes` is a nul-terminated string: its only zero byte is its
/// last byte.
pub open spec fn nul_terminated(bytes: Seq<u8>) -> bool {
    is_first_nul(bytes, bytes.len() - 1)
}

impl NativeArgs {
    /// The entries of the array; the null array has none.
    pub open spec fn skip_entries(self) -> Seq<Seq<u8>> {
        match self.skip_optimizers {
            Some(list) => rows(list@),
            None => Seq::empty(),
        }
    }

    /// The array pointer is null exactly when there are no entries, the
    /// count is the number of entries, every entry is nul-terminated and
    /// each flag is zero or one.
    pub open spec fn wf(self) -> bool {
        &&& self.skip_optimizers is None <==> self.skip_count == 0
        &&& self.skip_entries().len() == self.skip_count
        &&& forall|i: int|
            0 <= i < self.skip_entries().len() ==> nul_terminated(#[trigger] self.skip_entries()[i])
        &&& self.constant_folding == 0 || self.constant_folding == 1
        &&& self.shape_inference == 0 || self.shape_inference == 1
    }

    /// Whether these are the arguments that `options` marshal to.
    pub open spec fn carries(self, options: SimplifyOptions) -> bool {
        &&& self.skip_entries() == c_strings(options.skip_names())
        &&& self.skip_optimizers is None <==> options.skip_names().len() == 0
        &&& self.skip_count == options.skip_names().len()
        &&& self.constant_folding == flag(options.constant_folding)
        &&& self.shape_inference == flag(options.shape_inference)
        &&& self.tensor_size_threshold == options.tensor_size_threshold
    }
}

/// The nul-terminated form of a representable text is nul-terminated.
pub proof fn lemma_c_string_nul_terminated(text: Seq<char>)
    requires
        representable(text),
    ensures
        nul_terminated(c_string(text)),
{
}

/// Arguments that carry options whose names are all representable are
/// well formed.
pub proof fn lemma_carried_args_wf(args: NativeArgs, options: SimplifyOptions)
    requires
        args.carries(options),
        all_representable(options.skip_names()),
    ensures
        args.wf(),
{
    assert forall|i: int| 0 <= i < args.skip_entries().len() implies nul_terminated(
        #[trigger] args.skip_entries()[i],
    ) by {
        assert(representable(options.skip_names()[i]));
        lemma_c_string_nul_terminated(options.skip_names()[i]);
    }
}

/// An empty skip list and an absent one marshal alike: whatever carries
/// the one carries the other, and the array is the null pointer with a
/// count of zero.
pub proof fn lemma_empty_and_absent_skip_lists_agree(
    absent: SimplifyOptions,
    empty: SimplifyOptions,
    args: NativeArgs,
)
    requires
        absent.skip_optimizers is None,
        empty.skip_optimizers is Some,
        empty.skip_optimizers->0@.len() == 0,
        absent.constant_folding == empty.constant_folding,
        absent.shape_inference == empty.shape_inference,
        absent.tensor_size_threshold == empty.tensor_size_threshold,
    ensures
        absent.skip_names() == empty.skip_names(),
        args.carries(absent) <==> args.carries(empty),
        args.carries(absent) ==> args.skip_optimizers is None && args.skip_count == 0,
{
    assert(absent.skip_names() =~= empty.skip_names());
}

/// Marshals the options of one call. An absent or empty skip list becomes
/// the null array with a count of zero. A name that cannot be
/// nul-terminated fails the whole call.
pub fn marshal_options(options: &SimplifyOptions) -> (r: Result<NativeArgs, OnnxSimError>)
    ensures
        r is Ok <==> all_representable(options.skip_names()),
        match r {
            Ok(args) => args.carries(*options) && args.wf(),
            Err(e) => e.is(
                ErrorKind::InvalidArgument,
                rejection_message(first_rejected(options.skip_names())),
            ),
        },
{
    let constant_folding: i32 = if options.constant_folding {
        1
    } else {
        0
    };
    let shape_inference: i32 = if options.shape_inference {
        1
    } else {
        0
    };
    let list = match &options.skip_optimizers {
        Some(names) => {
            match marshal_names(names) {
                Ok(list) => list,
                Err(e) => {
                    return Err(e);
                },
            }
        },
        None => Vec::new(),
    };
    let skip_count = list.len();
    let ghost entries = rows(list@);
    let skip_optimizers = if skip_count == 0 {
        None
    } else {
        Some(list)
    };
    let args = NativeArgs {
        skip_optimizers,
        skip_count,
        constant_folding,
        shape_inference,
        tensor_size_threshold: options.tensor_size_threshold,
    };
    proof {
        assert(args.skip_entries() =~= entries);
        assert(entries =~= c_strings(options.skip_names()));
        lemma_carried_args_wf(args, *options);
    }
    Ok(args)
}

} // verus!
