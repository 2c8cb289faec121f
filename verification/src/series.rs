//! Normalization of the provider's ragged numeric series.
//!
//! A series node from the provider is a list whose elements are numbers,
//! nulls, or (one level deep) arrays of numbers. Normalization flattens such
//! a node into the plain sequence of its numbers, in order: numbers are kept
//! as they stand, nulls are skipped without a placeholder, and the elements
//! of a one-level array are appended one by one. Anything else — an element
//! of another type, or a value nested two or more levels deep — is a hard
//! error, never silently accepted.

use vstd::prelude::*;
use vstd::string::StringExecFns;

verus! {

/// One element of a ragged series node. `Num` holds the bit pattern of the
/// numeric sample; `Other` stands for a value of any unsupported type.
#[derive(Debug)]
pub enum SeriesElem {
    Num(u64),
    Null,
    Arr(Vec<SeriesElem>),
    Other,
}

/// Why a series node was rejected: an element of an unsupported type at the
/// top level, or a non-number inside a nested array.
#[derive(Debug, Clone, Copy, PartialEq, Eq, Structural)]
pub enum NormError {
    UnexpectedType,
    ExpectedNum,
}

/// The message text of a rejection.
pub open spec fn norm_err_text(e: NormError) -> Seq<char> {
    match e {
        NormError::UnexpectedType => "unexpected type"@,
        NormError::ExpectedNum => "expected Some num"@,
    }
}

impl NormError {
    /// The human-readable message of the rejection.
    pub fn message(&self) -> (r: String)
        ensures
            r@ == norm_err_text(*self),
    {
        match self {
            NormError::UnexpectedType => String::from_str("unexpected type"),
            NormError::ExpectedNum => String::from_str("expected Some num"),
        }
    }
}

/// Whether an element is a plain number.
pub open spec fn is_num(e: SeriesElem) -> bool {
    e matches SeriesElem::Num(_)
}

/// The number an element holds; meaningful only when `is_num` holds.
pub open spec fn num_of(e: SeriesElem) -> u64 {
    match e {
        SeriesElem::Num(b) => b,
        _ => 0,
    }
}

/// Whether every element of a nested array is a plain number.
pub open spec fn inner_ok(s: Seq<SeriesElem>) -> bool {
    forall|j: int| 0 <= j < s.len() ==> is_num(s[j])
}

/// The numbers of a nested array, in order.
pub open spec fn inner_nums(s: Seq<SeriesElem>) -> Seq<u64>
    decreases s.len(),
{
    if s.len() == 0 {
        Seq::empty()
    } else {
        inner_nums(s.drop_last()).push(num_of(s.last()))
    }
}

/// Whether one top-level element is acceptable: a number, a null, or an
/// array of numbers.
pub open spec fn elem_ok(e: SeriesElem) -> bool {
    match e {
        SeriesElem::Num(_) => true,
        SeriesElem::Null => true,
        SeriesElem::Arr(v) => inner_ok(v@),
        SeriesElem::Other => false,
    }
}

/// Whether a whole series node is acceptable.
pub open spec fn series_ok(s: Seq<SeriesElem>) -> bool {
    forall|i: int| 0 <= i < s.len() ==> elem_ok(s[i])
}

/// The numbers one acceptable element contributes: the number itself,
/// nothing for a null, the array's numbers in order.
pub open spec fn elem_nums(e: SeriesElem) -> Seq<u64> {
    match e {
        SeriesElem::Num(b) => seq![b],
        SeriesElem::Null => Seq::empty(),
        SeriesElem::Arr(v) => inner_nums(v@),
        SeriesElem::Other => Seq::empty(),
    }
}

/// The flat concatenation, in order, of all numbers of a series node.
pub open spec fn series_nums(s: Seq<SeriesElem>) -> Seq<u64>
    decreases s.len(),
{
    if s.len() == 0 {
        Seq::empty()
    } else {
        series_nums(s.drop_last()) + elem_nums(s.last())
    }
}

/// The error a bad element is rejected with.
pub open spec fn elem_err(e: SeriesElem) -> NormError {
    match e {
        SeriesElem::Arr(_) => NormError::ExpectedNum,
        _ => NormError::UnexpectedType,
    }
}

/// The error of the first unacceptable element of a series node.
pub open spec fn series_err(s: Seq<SeriesElem>) -> NormError
    decreases s.len(),
{
    if s.len() == 0 {
        NormError::UnexpectedType
    } else if !elem_ok(s.first()) {
        elem_err(s.first())
    } else {
        series_err(s.drop_first())
    }
}

/// The first unacceptable element decides the error of the whole node.
proof fn lemma_series_err_at(s: Seq<SeriesElem>, i: int)
    requires
        0 <= i < s.len(),
        forall|j: int| 0 <= j < i ==> elem_ok(s[j]),
        !elem_ok(s[i]),
    ensures
        series_err(s) == elem_err(s[i]),
    decreases i,
{
    if i == 0 {
        assert(s.first() == s[0]);
    } else {
        assert(elem_ok(s.first()));
        assert(forall|j: int| 0 <= j < i - 1 ==> s.drop_first()[j] == s[j + 1]);
        lemma_series_err_at(s.drop_first(), i - 1);
        assert(s.drop_first()[i - 1] == s[i]);
    }
}

/// Flatten a ragged series node into its numbers, in order.
///
/// Succeeds exactly when every element is a number, a null, or an array of
/// numbers; the result is then the flat concatenation of all the numbers
/// with nulls dropped and arrays flattened one level. A top-level element of
/// any other type is rejected as `UnexpectedType`; a non-number inside an
/// array — in particular anything nested two or more levels deep — is
/// rejected as `ExpectedNum`. The first offence in order decides.
pub fn yahoo_nums(node: &Vec<SeriesElem>) -> (r: Result<Vec<u64>, NormError>)
    ensures
        r is Ok <==> series_ok(node@),
        r matches Ok(nums) ==> nums@ == series_nums(node@),
        r matches Err(e) ==> e == series_err(node@),
{
    let mut nums: Vec<u64> = Vec::new();
    let mut i: usize = 0;
    while i < node.len()
        invariant
            i <= node.len(),
            forall|j: int| 0 <= j < i ==> elem_ok(node@[j]),
            nums@ == series_nums(node@.take(i as int)),
        decreases node.len() - i,
    {
        assert(node@.take(i + 1).drop_last() =~= node@.take(i as int));
        match &node[i] {
            SeriesElem::Num(b) => {
                nums.push(*b);
            },
            SeriesElem::Null => {},
            SeriesElem::Arr(v) => {
                let mut j: usize = 0;
                assert(v@.take(0) =~= Seq::<SeriesElem>::empty());
                while j < v.len()
                    invariant
                        j <= v.len(),
                        forall|k: int| 0 <= k < j ==> is_num(v@[k]),
                        nums@ == series_nums(node@.take(i as int)) + inner_nums(v@.take(j as int)),
                        node@[i as int] matches SeriesElem::Arr(w) && w@ == v@,
                        i < node.len(),
                        forall|k: int| 0 <= k < i ==> elem_ok(node@[k]),
                    decreases v.len() - j,
                {
                    assert(v@.take(j + 1).drop_last() =~= v@.take(j as int));
                    match &v[j] {
                        SeriesElem::Num(b) => {
                            nums.push(*b);
                        },
                        _ => {
                            proof {
                                lemma_series_err_at(node@, i as int);
                            }
                            return Err(NormError::ExpectedNum);
                        },
                    }
                    j = j + 1;
                }
                assert(v@.take(v.len() as int) =~= v@);
            },
            SeriesElem::Other => {
                proof {
                    lemma_series_err_at(node@, i as int);
                }
                return Err(NormError::UnexpectedType);
            },
        }
        i = i + 1;
    }
    assert(node@.take(node.len() as int) =~= node@);
    Ok(nums)
}

} // verus!
